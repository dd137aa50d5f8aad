use wifi_nina::command::Command;
use wifi_nina::encoding::CodecError;
use wifi_nina::frame::{decode_reply, request_frame, split_bursts, ReplyError};
use wifi_nina::spi::{request_bursts, SpiError, WRITE_CAPACITY};

#[test]
fn request_frame_shape() {
    for cmd in [Command::SetNetCmd, Command::GetConnStatusCmd, Command::SendDataTcpCmd, Command::SetAnalogWrite] {
        for params in [vec![], vec![1u8], vec![1, 2, 3], vec![0; 10]] {
            let frame = request_frame(cmd, &(params.clone(),), cmd.opcode() >= 0x40);
            assert_eq!(frame[0], 0xE0);
            assert_eq!(frame[1], cmd.opcode() & 0x7F);
            assert_eq!(frame.len() % 4, 0);
            let end = frame.iter().rposition(|b| *b == 0xEE).unwrap();
            assert!(frame[end + 1..].iter().all(|b| *b == 0xFF));
            assert!(frame.len() - end - 1 < 4);
        }
    }
}

#[test]
fn request_with_empty_block_needs_no_padding() {
    assert_eq!(request_frame(Command::GetConnStatusCmd, &(), false), vec![0xE0, 0x20, 0x00, 0xEE]);
}

#[test]
fn opcodes_round_trip() {
    assert_eq!(Command::SetNetCmd.opcode(), 0x10);
    assert_eq!(Command::GetFwVersionCmd.opcode(), 0x37);
    assert_eq!(Command::SetAnalogWrite.opcode(), 0x52);
    assert_eq!(Command::from_opcode(0x2D), Some(Command::StartClientTcpCmd));
    assert_eq!(Command::from_opcode(0x13), None);
}

#[test]
fn reply_decodes_params() {
    let reply = vec![0xE0, 0xA0, 0x02, 0x01, 0x07, 0x02, 0x01, 0x02, 0xEE, 0xFF];
    let r: Result<(u8, Vec<u8>), ReplyError> = decode_reply(Command::GetConnStatusCmd, reply, false);
    assert_eq!(r, Ok((7, vec![1, 2])));
}

#[test]
fn reply_error_response() {
    let r: Result<(u8,), ReplyError> = decode_reply(Command::GetConnStatusCmd, vec![0xEF, 0xA0, 0x00], false);
    assert_eq!(r, Err(ReplyError::ErrorResponse));
}

#[test]
fn reply_wrong_start_byte() {
    let r: Result<(u8,), ReplyError> = decode_reply(Command::GetConnStatusCmd, vec![0x12, 0xA0], false);
    assert_eq!(r, Err(ReplyError::UnexpectedReplyByte(0x12, 0)));
}

#[test]
fn reply_wrong_opcode_echo() {
    let r: Result<(u8,), ReplyError> =
        decode_reply(Command::GetConnStatusCmd, vec![0xE0, 0xA1, 0x01, 0x01, 0x03, 0xEE], false);
    assert_eq!(r, Err(ReplyError::UnexpectedReplyByte(0xA1, 1)));
}

#[test]
fn reply_wrong_end_byte() {
    let r: Result<(u8,), ReplyError> =
        decode_reply(Command::GetConnStatusCmd, vec![0xE0, 0xA0, 0x01, 0x01, 0x03, 0xED], false);
    assert_eq!(r, Err(ReplyError::UnexpectedReplyByte(0xED, 2)));
}

#[test]
fn reply_prefixes_are_incomplete() {
    let full = vec![0xE0, 0xA0, 0x01, 0x01, 0x03, 0xEE];
    for n in 0..full.len() {
        let r: Result<(u8,), ReplyError> = decode_reply(Command::GetConnStatusCmd, full[..n].to_vec(), false);
        assert_eq!(r, Err(ReplyError::Incomplete));
    }
    let r: Result<(u8,), ReplyError> = decode_reply(Command::GetConnStatusCmd, full, false);
    assert_eq!(r, Ok((3,)));
}

#[test]
fn reply_malformed_block() {
    let r: Result<(u8,), ReplyError> =
        decode_reply(Command::GetConnStatusCmd, vec![0xE0, 0xA0, 0x02, 0x01, 0x03, 0xEE], false);
    assert_eq!(r, Err(ReplyError::Malformed(CodecError::CountMismatch)));
}

#[test]
fn bursts_cover_the_request() {
    let data: Vec<u8> = (0..20u8).collect();
    let bursts = split_bursts(&data, 8);
    assert_eq!(bursts, vec![(0..8u8).collect::<Vec<_>>(), (8..16u8).collect(), (16..20u8).collect()]);
    let req = request_frame(Command::SetNetCmd, &(vec![b'x'; 9],), false);
    let bursts = request_bursts(&req);
    assert!(bursts.iter().all(|b| !b.is_empty() && b.len() <= WRITE_CAPACITY));
    assert_eq!(bursts.concat(), req);
}

#[test]
fn spi_error_from_reply() {
    type E = SpiError<(), (), (), ()>;
    assert!(E::from_reply(ReplyError::Incomplete).is_none());
    assert!(E::from_reply(ReplyError::ErrorResponse) == Some(SpiError::ErrorResponse));
    assert!(E::from_reply(ReplyError::UnexpectedReplyByte(3, 1)) == Some(SpiError::UnexpectedReplyByte(3, 1)));
}
