use wifi_nina::encoding::{ByteReader, CodecError};
use wifi_nina::param::{BigEndian, LittleEndian, NullTerminated, ParseParam, Scalar, SerializeParam};
use wifi_nina::params::{ParseParams, SerializeParams};

fn reader(bytes: &[u8]) -> ByteReader {
    ByteReader::new(bytes.to_vec())
}

#[test]
fn serialize_and_parse_u8() {
    for byte in [0u8, 1, 0x7f, 0x80, 0xee, 0xff] {
        let mut out = Vec::new();
        byte.serialize(&mut out);
        assert_eq!(out, vec![byte]);
        let mut r = reader(&out);
        assert_eq!(<u8 as ParseParam>::parse(&mut r, 1), Ok(byte));
    }
}

#[test]
fn serialize_and_parse_u8_with_length() {
    for byte in [0u8, 5, 0xff] {
        let mut out = Vec::new();
        byte.serialize_length_delimited(&mut out, false);
        assert_eq!(out, vec![1, byte]);
        let mut r = reader(&out);
        assert_eq!(<u8 as ParseParam>::parse_length_delimited(&mut r, false), Ok(byte));
    }
}

#[test]
fn u8_parse_refuses_other_lengths() {
    let mut r = reader(&[1, 2]);
    assert_eq!(<u8 as ParseParam>::parse(&mut r, 2), Err(CodecError::LengthMismatch));
    let mut r = reader(&[]);
    assert_eq!(<u8 as ParseParam>::parse(&mut r, 1), Err(CodecError::Incomplete));
}

#[test]
fn serialize_and_parse_scalar_u16() {
    for v in [0u16, 1, 0x01bb, 0xabcd, 0xffff] {
        let mut out = Vec::new();
        Scalar::be(v).serialize(&mut out);
        assert_eq!(out, v.to_be_bytes().to_vec());
        let mut r = reader(&out);
        let parsed = <Scalar<BigEndian, u16> as ParseParam>::parse(&mut r, 2).unwrap();
        assert_eq!(parsed.into_inner(), v);

        let mut out = Vec::new();
        Scalar::le(v).serialize(&mut out);
        assert_eq!(out, v.to_le_bytes().to_vec());
        let mut r = reader(&out);
        let parsed = <Scalar<LittleEndian, u16> as ParseParam>::parse(&mut r, 2).unwrap();
        assert_eq!(parsed.into_inner(), v);
    }
}

#[test]
fn serialize_and_parse_scalar_u32() {
    for v in [0u32, 1, 0x0a00_0001, 0xdead_beef, u32::MAX] {
        let mut out = Vec::new();
        Scalar::be(v).serialize(&mut out);
        assert_eq!(out, v.to_be_bytes().to_vec());
        let mut r = reader(&out);
        let parsed = <Scalar<BigEndian, u32> as ParseParam>::parse(&mut r, 4).unwrap();
        assert_eq!(parsed.into_inner(), v);

        let mut out = Vec::new();
        Scalar::le(v).serialize(&mut out);
        assert_eq!(out, v.to_le_bytes().to_vec());
        let mut r = reader(&out);
        let parsed = <Scalar<LittleEndian, u32> as ParseParam>::parse(&mut r, 4).unwrap();
        assert_eq!(parsed.into_inner(), v);
    }
}

#[test]
fn scalar_parse_refuses_wrong_width() {
    let mut r = reader(&[1, 2, 3]);
    assert_eq!(
        <Scalar<BigEndian, u16> as ParseParam>::parse(&mut r, 3),
        Err(CodecError::LengthMismatch)
    );
}

#[test]
fn serialize_and_parse_bytes_with_length() {
    for n in [0usize, 1, 5, 127] {
        let bytes: Vec<u8> = (0..n).map(|i| (i * 7) as u8).collect();
        let mut out = Vec::new();
        bytes.serialize_length_delimited(&mut out, false);
        assert_eq!(out.len(), n + 1);
        assert_eq!(out[0] as usize, n);
        assert_eq!(&out[1..], bytes.as_slice());
        let mut r = reader(&out);
        assert_eq!(<Vec<u8> as ParseParam>::parse_length_delimited(&mut r, false), Ok(bytes));
    }
}

#[test]
fn long_length_prefix_is_big_endian() {
    let bytes = vec![0x55u8; 300];
    let mut out = Vec::new();
    bytes.serialize_length_delimited(&mut out, true);
    assert_eq!(out.len(), 302);
    assert_eq!(&out[..2], &[0x01, 0x2c]);
    let mut r = reader(&out);
    assert_eq!(<Vec<u8> as ParseParam>::parse_length_delimited(&mut r, true), Ok(bytes));
}

#[test]
fn serialize_and_parse_nullterminated_with_length() {
    for n in [0usize, 1, 8] {
        let bytes: Vec<u8> = (0..n).map(|i| b'a' + i as u8).collect();
        let nt = NullTerminated::new(bytes.clone());
        assert_eq!(nt.len(), n + 1);
        let mut out = Vec::new();
        nt.serialize_length_delimited(&mut out, false);
        assert_eq!(out.len(), n + 2);
        assert_eq!(out[0] as usize, n + 1);
        assert_eq!(*out.last().unwrap(), 0);
        let mut r = reader(&out);
        let parsed =
            <NullTerminated<Vec<u8>> as ParseParam>::parse_length_delimited(&mut r, false).unwrap();
        assert_eq!(parsed.into_inner(), bytes);
    }
}

#[test]
fn nullterminated_parse_errors() {
    let mut r = reader(&[b'a', b'b']);
    assert_eq!(
        <NullTerminated<Vec<u8>> as ParseParam>::parse(&mut r, 2),
        Err(CodecError::MissingTerminator)
    );
    let mut r = reader(&[]);
    assert_eq!(
        <NullTerminated<Vec<u8>> as ParseParam>::parse(&mut r, 0),
        Err(CodecError::LengthMismatch)
    );
}

#[test]
fn serialize_and_parse_five_tuple() {
    let params = (9u8, 0u8, 0xffu8, 3u8, 0xeeu8);
    assert_eq!(params.len(false), 11);
    let mut out = Vec::new();
    params.serialize(&mut out, false);
    assert_eq!(out, vec![5, 1, 9, 1, 0, 1, 0xff, 1, 3, 1, 0xee]);
    let mut r = reader(&out);
    assert_eq!(<(u8, u8, u8, u8, u8) as ParseParams>::parse(&mut r, false), Ok(params));
}

#[test]
fn serialize_and_parse_heterogenous_tuple() {
    let params = (7u8, vec![1u8, 2, 3, 4]);
    let mut out = Vec::new();
    params.serialize(&mut out, false);
    assert_eq!(out, vec![2, 1, 7, 4, 1, 2, 3, 4]);
    let mut r = reader(&out);
    assert_eq!(<(u8, Vec<u8>) as ParseParams>::parse(&mut r, false), Ok(params));
}

#[test]
fn empty_block_is_one_zero_byte() {
    let mut out = Vec::new();
    ().serialize(&mut out, false);
    assert_eq!(out, vec![0]);
    let mut r = reader(&out);
    assert_eq!(<() as ParseParams>::parse(&mut r, false), Ok(()));
}

#[test]
fn block_count_mismatch() {
    let mut r = reader(&[2, 1, 5, 1, 6]);
    assert_eq!(<(u8,) as ParseParams>::parse(&mut r, false), Err(CodecError::CountMismatch));
}

#[test]
fn list_of_byte_runs_parses() {
    let mut r = reader(&[2, 2, b'a', b'b', 1, b'c']);
    assert_eq!(
        <Vec<Vec<u8>> as ParseParams>::parse(&mut r, false),
        Ok(vec![b"ab".to_vec(), b"c".to_vec()])
    );
    let mut r = reader(&[2, 2, b'a', b'b', 1]);
    assert_eq!(<Vec<Vec<u8>> as ParseParams>::parse(&mut r, false), Err(CodecError::Incomplete));
}

#[test]
fn fits_reports_oversized_slots() {
    let params = (vec![0u8; 256],);
    assert!(!params.fits(false));
    assert!(params.fits(true));
}

#[test]
fn serialize_and_parse_list() {
    let values = [1u32, 0xdead_beef, 0, u32::MAX];
    let list: Vec<Scalar<BigEndian, u32>> = values.iter().map(|v| Scalar::be(*v)).collect();
    assert!(SerializeParams::fits(&list, false));
    assert_eq!(SerializeParams::len(&list, false), 1 + 4 * 5);
    let mut out = Vec::new();
    list.serialize(&mut out, false);
    assert_eq!(&out[..6], &[4, 4, 0, 0, 0, 1]);
    let mut r = reader(&out);
    let parsed = <Vec<Scalar<BigEndian, u32>> as ParseParams>::parse(&mut r, false).unwrap();
    assert_eq!(parsed, list);
}

#[test]
fn list_parse_reports_slot_errors() {
    let mut r = reader(&[2, 1, 5, 2, 6, 7]);
    assert_eq!(<Vec<u8> as ParseParams>::parse(&mut r, false), Err(CodecError::LengthMismatch));
}

#[test]
fn oversized_list_does_not_fit() {
    let list = vec![0u8; 256];
    assert!(!SerializeParams::fits(&list, false));
}
