//! Command frames: the request that the host sends, the bursts that carry it
//! over the bus, and the reply that comes back.
use vstd::prelude::*;

use crate::command::Command;
use crate::encoding::{ByteReader, CodecError};
use crate::param::slot_payload;
use crate::params::{ParseParams, RoundTripParams, SerializeParams};

verus! {

pub const START_CMD: u8 = 0xE0;

pub const END_CMD: u8 = 0xEE;

pub const ERR_CMD: u8 = 0xEF;

pub const REPLY_FLAG: u8 = 0x80;

pub const PAD_BYTE: u8 = 0xFF;

/// What can go wrong with a reply.
#[derive(Clone, Copy, Debug, PartialEq, Eq, Structural)]
pub enum ReplyError {
    /// The bytes end before the reply does.
    Incomplete,
    /// The coprocessor answered with an error response.
    ErrorResponse,
    /// A fixed byte of the frame had another value: the byte and its position
    /// (0 start, 1 opcode echo, 2 end).
    UnexpectedReplyByte(u8, u8),
    /// The parameter block could not be read.
    Malformed(CodecError),
}

/// How many padding bytes bring `n` up to a multiple of four.
pub open spec fn pad_len(n: nat) -> nat {
    ((4 - n % 4) % 4) as nat
}

/// `s` padded with `0xFF` up to a multiple of four bytes.
pub open spec fn padded(s: Seq<u8>) -> Seq<u8> {
    s + Seq::new(pad_len(s.len()), |i: int| PAD_BYTE)
}

/// A frame: start byte, opcode without the reply flag, block, end byte.
pub open spec fn frame_spec(op: u8, block: Seq<u8>) -> Seq<u8> {
    seq![START_CMD, op & 0x7F] + block + seq![END_CMD]
}

/// The bytes that the host sends for one command.
pub open spec fn request_spec(op: u8, block: Seq<u8>) -> Seq<u8> {
    padded(frame_spec(op, block))
}

/// Appends `0xFF` until the length is a multiple of four.
pub fn pad_to_four(out: &mut Vec<u8>)
    ensures
        final(out)@ == padded(old(out)@),
{
    let ghost start = out@;
    while out.len() % 4 != 0
        invariant
            start.len() <= out@.len() <= start.len() + pad_len(start.len()),
            out@ == start + Seq::new((out@.len() - start.len()) as nat, |i: int| PAD_BYTE),
        decreases start.len() + pad_len(start.len()) - out@.len(),
    {
        out.push(PAD_BYTE);
        assert(out@ =~= start + Seq::new((out@.len() - start.len()) as nat, |i: int| PAD_BYTE));
    }
    assert(out@.len() - start.len() == pad_len(start.len()));
}

/// Builds the padded request for `command` with the parameters `params`.
pub fn request_frame<SP: SerializeParams>(command: Command, params: &SP, long: bool) -> (r: Vec<
    u8,
>)
    requires
        params.fits_spec(long),
    ensures
        r@ == request_spec(command.opcode_spec(), params.block_wire(long)),
{
    let mut out: Vec<u8> = Vec::new();
    out.push(START_CMD);
    out.push(command.opcode() & 0x7F);
    params.serialize(&mut out, long);
    out.push(END_CMD);
    assert(out@ =~= frame_spec(command.opcode_spec(), params.block_wire(long)));
    pad_to_four(&mut out);
    out
}

/// The bursts laid end to end.
pub open spec fn concat(s: Seq<Seq<u8>>) -> Seq<u8>
    decreases s.len(),
{
    if s.len() == 0 {
        Seq::empty()
    } else {
        concat(s.drop_last()) + s.last()
    }
}

/// The views of a list of byte vectors.
pub open spec fn views(v: Seq<Vec<u8>>) -> Seq<Seq<u8>> {
    v.map_values(|b: Vec<u8>| b@)
}

/// Splits `data` into bursts of `capacity` bytes, the last one possibly shorter.
pub fn split_bursts(data: &Vec<u8>, capacity: usize) -> (r: Vec<Vec<u8>>)
    requires
        capacity > 0,
    ensures
        concat(views(r@)) == data@,
        forall|i: int| 0 <= i < r@.len() ==> 0 < (#[trigger] r@[i])@.len() <= capacity,
        forall|i: int| 0 <= i < r@.len() - 1 ==> (#[trigger] r@[i])@.len() == capacity,
{
    let mut r: Vec<Vec<u8>> = Vec::new();
    let mut start: usize = 0;
    let total = data.len();
    while start < total
        invariant
            capacity > 0,
            total == data@.len(),
            start <= data@.len(),
            concat(views(r@)) == data@.subrange(0, start as int),
            forall|i: int| 0 <= i < r@.len() ==> 0 < (#[trigger] r@[i])@.len() <= capacity,
            forall|i: int|
                0 <= i < r@.len() ==> (#[trigger] r@[i])@.len() == capacity || (i == r@.len() - 1
                    && start == data@.len()),
        decreases data@.len() - start,
    {
        let n = if total - start < capacity {
            total - start
        } else {
            capacity
        };
        let mut chunk: Vec<u8> = Vec::new();
        let mut i: usize = 0;
        while i < n
            invariant
                i <= n,
                start + n <= total,
                total == data@.len(),
                chunk@ == data@.subrange(start as int, start + i),
            decreases n - i,
        {
            chunk.push(data[start + i]);
            i += 1;
            assert(chunk@ =~= data@.subrange(start as int, start + i));
        }
        let ghost old_r = r@;
        r.push(chunk);
        assert(r@.drop_last() == old_r);
        assert(views(r@).drop_last() =~= views(old_r));
        assert(data@.subrange(0, start + n) =~= data@.subrange(0, start as int) + data@.subrange(
            start as int,
            start + n,
        ));
        start = start + n;
    }
    assert(data@.subrange(0, data@.len() as int) =~= data@);
    r
}

/// Why `bytes` is not a complete reply to `op` with a block of type `RP`, if it is not.
pub open spec fn reply_error<RP: ParseParams>(op: u8, bytes: Seq<u8>, long: bool) -> Option<
    ReplyError,
> {
    if bytes.len() < 1 {
        Some(ReplyError::Incomplete)
    } else if bytes[0] == ERR_CMD {
        Some(ReplyError::ErrorResponse)
    } else if bytes[0] != START_CMD {
        Some(ReplyError::UnexpectedReplyByte(bytes[0], 0))
    } else if bytes.len() < 2 {
        Some(ReplyError::Incomplete)
    } else if bytes[1] != (op | REPLY_FLAG) {
        Some(ReplyError::UnexpectedReplyByte(bytes[1], 1))
    } else {
        match RP::block_error(bytes, 2, long) {
            Some(CodecError::Incomplete) => Some(ReplyError::Incomplete),
            Some(e) => Some(ReplyError::Malformed(e)),
            None => {
                let end = RP::block_end(bytes, 2, long);
                if end >= bytes.len() {
                    Some(ReplyError::Incomplete)
                } else if bytes[end] != END_CMD {
                    Some(ReplyError::UnexpectedReplyByte(bytes[end], 2))
                } else {
                    None
                }
            },
        }
    }
}

/// Reads the reply to `command` from the bytes received so far.
///
/// `Incomplete` means that the bytes end before the reply does.
pub fn decode_reply<RP: ParseParams>(command: Command, bytes: Vec<u8>, long: bool) -> (r: Result<
    RP,
    ReplyError,
>)
    ensures
        match reply_error::<RP>(command.opcode_spec(), bytes@, long) {
            None => r is Ok && RP::block_parsed(bytes@, 2, long, r->Ok_0),
            Some(e) => r == Err::<RP, ReplyError>(e),
        },
{
    let ghost b = bytes@;
    let mut r = ByteReader::new(bytes);
    let first = match r.read_byte() {
        Ok(x) => x,
        Err(_) => return Err(ReplyError::Incomplete),
    };
    if first == ERR_CMD {
        return Err(ReplyError::ErrorResponse);
    }
    if first != START_CMD {
        return Err(ReplyError::UnexpectedReplyByte(first, 0));
    }
    let second = match r.read_byte() {
        Ok(x) => x,
        Err(_) => return Err(ReplyError::Incomplete),
    };
    if second != (command.opcode() | REPLY_FLAG) {
        return Err(ReplyError::UnexpectedReplyByte(second, 1));
    }
    let params = match RP::parse(&mut r, long) {
        Ok(p) => p,
        Err(CodecError::Incomplete) => return Err(ReplyError::Incomplete),
        Err(e) => return Err(ReplyError::Malformed(e)),
    };
    let last = match r.read_byte() {
        Ok(x) => x,
        Err(_) => return Err(ReplyError::Incomplete),
    };
    if last != END_CMD {
        return Err(ReplyError::UnexpectedReplyByte(last, 2));
    }
    Ok(params)
}

/// Every request starts with the start byte and the opcode without its reply
/// flag, ends with the end byte followed only by padding, and fills a whole
/// number of four-byte words.
pub proof fn lemma_request_shape(op: u8, block: Seq<u8>)
    ensures
        request_spec(op, block)[0] == START_CMD,
        request_spec(op, block)[1] == op & 0x7F,
        request_spec(op, block).len() % 4 == 0,
        request_spec(op, block)[block.len() + 2int] == END_CMD,
        forall|i: int|
            block.len() + 3 <= i < request_spec(op, block).len() ==> #[trigger] request_spec(
                op,
                block,
            )[i] == PAD_BYTE,
{
}

/// A reply that starts with the error byte is an error response.
pub proof fn lemma_error_response<RP: ParseParams>(op: u8, bytes: Seq<u8>, long: bool)
    requires
        bytes.len() >= 1,
        bytes[0] == ERR_CMD,
    ensures
        reply_error::<RP>(op, bytes, long) == Some(ReplyError::ErrorResponse),
{
}

/// A reply whose opcode echo differs is refused at position 1.
pub proof fn lemma_wrong_echo<RP: ParseParams>(op: u8, bytes: Seq<u8>, long: bool)
    requires
        bytes.len() >= 2,
        bytes[0] == START_CMD,
        bytes[1] != (op | REPLY_FLAG),
    ensures
        reply_error::<RP>(op, bytes, long) == Some(ReplyError::UnexpectedReplyByte(bytes[1], 1)),
{
}

/// A reply made of the start byte, the echo of the opcode with its reply flag,
/// a parameter block that reads without error, and the end byte decodes,
/// whatever bytes follow it.
pub proof fn lemma_well_formed_reply<RP: ParseParams>(op: u8, bytes: Seq<u8>, long: bool)
    requires
        bytes.len() >= 2,
        bytes[0] == START_CMD,
        bytes[1] == (op | REPLY_FLAG),
        RP::block_error(bytes, 2, long) is None,
        RP::block_end(bytes, 2, long) < bytes.len(),
        bytes[RP::block_end(bytes, 2, long)] == END_CMD,
    ensures
        reply_error::<RP>(op, bytes, long) is None,
{
}

/// A reply made of the start byte, the echo of the opcode with its reply flag,
/// the block of any value `x`, and the end byte decodes, whatever bytes follow
/// it, and what it decodes to has exactly the bytes of `x`.
pub proof fn lemma_reply_round_trip<RP: RoundTripParams>(op: u8, x: RP, rest: Seq<u8>, long: bool)
    requires
        x.fits_spec(long),
    ensures
        ({
            let bytes = seq![START_CMD, op | REPLY_FLAG] + x.block_wire(long) + seq![END_CMD]
                + rest;
            &&& reply_error::<RP>(op, bytes, long) is None
            &&& forall|w: RP| #[trigger]
                RP::block_parsed(bytes, 2, long, w) ==> w.block_wire(long) == x.block_wire(long)
        }),
{
    let head = seq![START_CMD, op | REPLY_FLAG];
    let tail = seq![END_CMD] + rest;
    let bytes = head + x.block_wire(long) + seq![END_CMD] + rest;
    assert(bytes =~= head + x.block_wire(long) + tail);
    x.lemma_block_round_trip(head, tail, long);
    assert(bytes[2 + x.block_wire(long).len() as int] == END_CMD);
}

/// A reply that carries five one-byte parameters decodes to exactly those five
/// bytes, whatever bytes follow its end byte.
pub proof fn lemma_five_byte_reply(op: u8, v: (u8, u8, u8, u8, u8), rest: Seq<u8>)
    ensures
        ({
            let bytes = seq![START_CMD, op | REPLY_FLAG] + v.block_wire(false) + seq![END_CMD]
                + rest;
            &&& reply_error::<(u8, u8, u8, u8, u8)>(op, bytes, false) is None
            &&& forall|w: (u8, u8, u8, u8, u8)|
                <(u8, u8, u8, u8, u8) as ParseParams>::block_parsed(bytes, 2, false, w) <==> w
                    == v
        }),
{
    let bytes = seq![START_CMD, op | REPLY_FLAG] + v.block_wire(false) + seq![END_CMD] + rest;
    assert(v.block_wire(false) =~= seq![5u8, 1u8, v.0, 1u8, v.1, 1u8, v.2, 1u8, v.3, 1u8, v.4]);
    assert(bytes.subrange(0, 14) =~= seq![
        START_CMD,
        op | REPLY_FLAG,
        5u8,
        1u8,
        v.0,
        1u8,
        v.1,
        1u8,
        v.2,
        1u8,
        v.3,
        1u8,
        v.4,
        END_CMD,
    ]);
    assert(bytes[2] == 5u8);
    assert(slot_payload(bytes, 3, false) =~= seq![v.0]);
    assert(slot_payload(bytes, 5, false) =~= seq![v.1]);
    assert(slot_payload(bytes, 7, false) =~= seq![v.2]);
    assert(slot_payload(bytes, 9, false) =~= seq![v.3]);
    assert(slot_payload(bytes, 11, false) =~= seq![v.4]);
}

} // verus!
