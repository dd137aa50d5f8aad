//! Byte-level building blocks: integers in both byte orders, the length
//! prefixes of parameter slots, and a cursor over received bytes.
use vstd::prelude::*;

verus! {

/// What can go wrong while decoding received bytes.
#[derive(Clone, Copy, Debug, PartialEq, Eq, Structural)]
pub enum CodecError {
    /// The bytes end before the value does; more bytes may complete it.
    Incomplete,
    /// A slot's length does not fit the kind of value it should hold.
    LengthMismatch,
    /// A parameter block holds another number of slots than expected.
    CountMismatch,
    /// A null-terminated value does not end in a zero byte.
    MissingTerminator,
}

/// The largest payload that a length prefix can describe.
pub open spec fn max_len(long: bool) -> nat {
    if long {
        65535
    } else {
        255
    }
}

/// Two bytes, most significant first.
pub open spec fn be16(v: u16) -> Seq<u8> {
    seq![(v / 256) as u8, (v % 256) as u8]
}

/// Two bytes, least significant first.
pub open spec fn le16(v: u16) -> Seq<u8> {
    seq![(v % 256) as u8, (v / 256) as u8]
}

/// Four bytes, most significant first.
pub open spec fn be32(v: u32) -> Seq<u8> {
    seq![(v / 0x100_0000) as u8, ((v / 0x1_0000) % 256) as u8, ((v / 256) % 256) as u8, (v % 256) as u8]
}

/// Four bytes, least significant first.
pub open spec fn le32(v: u32) -> Seq<u8> {
    seq![(v % 256) as u8, ((v / 256) % 256) as u8, ((v / 0x1_0000) % 256) as u8, (v / 0x100_0000) as u8]
}

/// The value of two bytes read most significant first.
pub open spec fn be16_value(b: Seq<u8>) -> int {
    b[0] * 256 + b[1]
}

/// The value of two bytes read least significant first.
pub open spec fn le16_value(b: Seq<u8>) -> int {
    b[1] * 256 + b[0]
}

/// The value of four bytes read most significant first.
pub open spec fn be32_value(b: Seq<u8>) -> int {
    b[0] * 0x100_0000 + b[1] * 0x1_0000 + b[2] * 256 + b[3]
}

/// The value of four bytes read least significant first.
pub open spec fn le32_value(b: Seq<u8>) -> int {
    b[3] * 0x100_0000 + b[2] * 0x1_0000 + b[1] * 256 + b[0]
}

/// The length prefix of a slot: one byte, or two bytes most significant first.
pub open spec fn len_prefix(n: nat, long: bool) -> Seq<u8> {
    if long {
        be16(n as u16)
    } else {
        seq![n as u8]
    }
}

/// How many bytes a length prefix takes.
pub open spec fn prefix_width(long: bool) -> int {
    if long {
        2
    } else {
        1
    }
}

/// The length that the prefix at `pos` states.
pub open spec fn prefix_value(bytes: Seq<u8>, pos: int, long: bool) -> int {
    if long {
        be16_value(bytes.subrange(pos, pos + 2))
    } else {
        bytes[pos] as int
    }
}

/// Two bytes most significant first are read back as the same value.
pub proof fn lemma_be16(v: u16)
    ensures
        be16(v).len() == 2,
        be16_value(be16(v)) == v,
{
}

/// Two bytes least significant first are read back as the same value.
pub proof fn lemma_le16(v: u16)
    ensures
        le16(v).len() == 2,
        le16_value(le16(v)) == v,
{
}

/// Four bytes most significant first are read back as the same value.
pub proof fn lemma_be32(v: u32)
    ensures
        be32(v).len() == 4,
        be32_value(be32(v)) == v,
{
}

/// Four bytes least significant first are read back as the same value.
pub proof fn lemma_le32(v: u32)
    ensures
        le32(v).len() == 4,
        le32_value(le32(v)) == v,
{
}

/// The prefix of a length that fits is read back as that length.
pub proof fn lemma_len_prefix(n: nat, long: bool, rest: Seq<u8>)
    requires
        n <= max_len(long),
    ensures
        len_prefix(n, long).len() == prefix_width(long),
        prefix_value(len_prefix(n, long) + rest, 0, long) == n,
{
    let b = len_prefix(n, long) + rest;
    if long {
        lemma_be16(n as u16);
        assert(b.subrange(0, 2) =~= be16(n as u16));
    }
}

/// Appends `v`, most significant byte first.
pub fn push_be16(out: &mut Vec<u8>, v: u16)
    ensures
        final(out)@ == old(out)@ + be16(v),
{
    out.push((v / 256) as u8);
    out.push((v % 256) as u8);
    assert(final(out)@ =~= old(out)@ + be16(v));
}

/// Appends `v`, least significant byte first.
pub fn push_le16(out: &mut Vec<u8>, v: u16)
    ensures
        final(out)@ == old(out)@ + le16(v),
{
    out.push((v % 256) as u8);
    out.push((v / 256) as u8);
    assert(final(out)@ =~= old(out)@ + le16(v));
}

/// Appends `v`, most significant byte first.
pub fn push_be32(out: &mut Vec<u8>, v: u32)
    ensures
        final(out)@ == old(out)@ + be32(v),
{
    out.push((v / 0x100_0000) as u8);
    out.push(((v / 0x1_0000) % 256) as u8);
    out.push(((v / 256) % 256) as u8);
    out.push((v % 256) as u8);
    assert(final(out)@ =~= old(out)@ + be32(v));
}

/// Appends `v`, least significant byte first.
pub fn push_le32(out: &mut Vec<u8>, v: u32)
    ensures
        final(out)@ == old(out)@ + le32(v),
{
    out.push((v % 256) as u8);
    out.push(((v / 256) % 256) as u8);
    out.push(((v / 0x1_0000) % 256) as u8);
    out.push((v / 0x100_0000) as u8);
    assert(final(out)@ =~= old(out)@ + le32(v));
}

/// Appends every byte of `src`.
pub fn push_all(out: &mut Vec<u8>, src: &Vec<u8>)
    ensures
        final(out)@ == old(out)@ + src@,
{
    let mut i: usize = 0;
    while i < src.len()
        invariant
            i <= src.len(),
            out@ == old(out)@ + src@.subrange(0, i as int),
        decreases src.len() - i,
    {
        out.push(src[i]);
        i += 1;
        assert(out@ =~= old(out)@ + src@.subrange(0, i as int));
    }
    assert(src@.subrange(0, src.len() as int) =~= src@);
}

/// Writes the length prefix of a slot.
pub fn serialize_len(out: &mut Vec<u8>, long: bool, len: usize)
    requires
        len <= max_len(long),
    ensures
        final(out)@ == old(out)@ + len_prefix(len as nat, long),
{
    if long {
        push_be16(out, len as u16);
    } else {
        out.push(len as u8);
        assert(final(out)@ =~= old(out)@ + len_prefix(len as nat, long));
    }
}

/// A cursor over bytes received from the coprocessor.
pub struct ByteReader {
    pub bytes: Vec<u8>,
    pub pos: usize,
}

impl ByteReader {
    pub open spec fn wf(&self) -> bool {
        self.pos <= self.bytes@.len()
    }

    pub open spec fn rest(&self) -> Seq<u8> {
        self.bytes@.subrange(self.pos as int, self.bytes@.len() as int)
    }

    pub fn new(bytes: Vec<u8>) -> (r: ByteReader)
        ensures
            r.wf(),
            r.bytes@ == bytes@,
            r.pos == 0,
    {
        ByteReader { bytes, pos: 0 }
    }

    pub fn remaining(&self) -> (r: usize)
        requires
            self.wf(),
        ensures
            r == self.bytes@.len() - self.pos,
    {
        self.bytes.len() - self.pos
    }

    /// Takes the next byte.
    pub fn read_byte(&mut self) -> (r: Result<u8, CodecError>)
        requires
            old(self).wf(),
        ensures
            final(self).wf(),
            final(self).bytes@ == old(self).bytes@,
            old(self).pos < old(self).bytes@.len() ==> r == Ok::<u8, CodecError>(
                old(self).bytes@[old(self).pos as int],
            ) && final(self).pos == old(self).pos + 1,
            old(self).pos >= old(self).bytes@.len() ==> r == Err::<u8, CodecError>(
                CodecError::Incomplete,
            ) && final(self).pos == old(self).pos,
    {
        if self.pos < self.bytes.len() {
            let b = self.bytes[self.pos];
            self.pos = self.pos + 1;
            Ok(b)
        } else {
            Err(CodecError::Incomplete)
        }
    }

    /// Takes the next `n` bytes, all of which must be there.
    pub fn take(&mut self, n: usize) -> (r: Vec<u8>)
        requires
            old(self).wf(),
            old(self).pos + n <= old(self).bytes@.len(),
        ensures
            final(self).wf(),
            final(self).bytes@ == old(self).bytes@,
            final(self).pos == old(self).pos + n,
            r@ == old(self).bytes@.subrange(old(self).pos as int, old(self).pos + n),
    {
        let mut r: Vec<u8> = Vec::new();
        let start = self.pos;
        let total = self.bytes.len();
        let mut i: usize = 0;
        while i < n
            invariant
                i <= n,
                start + n <= total,
                total == self.bytes@.len(),
                r@ == self.bytes@.subrange(start as int, start + i),
            decreases n - i,
        {
            r.push(self.bytes[start + i]);
            i += 1;
            assert(r@ =~= self.bytes@.subrange(start as int, start + i));
        }
        self.pos = start + n;
        r
    }

    /// Reads a slot's length prefix.
    pub fn parse_len(&mut self, long: bool) -> (r: Result<usize, CodecError>)
        requires
            old(self).wf(),
        ensures
            final(self).wf(),
            final(self).bytes@ == old(self).bytes@,
            old(self).pos + prefix_width(long) > old(self).bytes@.len() ==> r
                == Err::<usize, CodecError>(CodecError::Incomplete),
            old(self).pos + prefix_width(long) <= old(self).bytes@.len() ==> r == Ok::<
                usize,
                CodecError,
            >(prefix_value(old(self).bytes@, old(self).pos as int, long) as usize)
                && final(self).pos == old(self).pos + prefix_width(long),
            r is Ok ==> r->Ok_0 <= max_len(long),
    {
        let total = self.bytes.len();
        if total - self.pos < (if long { 2 } else { 1 }) {
            return Err(CodecError::Incomplete);
        }
        let hi = self.bytes[self.pos];
        if long {
            let lo = self.bytes[self.pos + 1];
            self.pos = self.pos + 2;
            let ghost b = old(self).bytes@.subrange(old(self).pos as int, old(self).pos + 2);
            assert(b[0] == hi && b[1] == lo);
            Ok(hi as usize * 256 + lo as usize)
        } else {
            self.pos = self.pos + 1;
            Ok(hi as usize)
        }
    }
}

} // verus!
