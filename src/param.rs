//! Single parameters: what each kind puts on the wire, and how each kind is
//! read back from the payload of one slot.
use vstd::prelude::*;

use crate::encoding::{
    be16, be16_value, be32, be32_value, le16, le16_value, le32, le32_value, lemma_len_prefix,
    len_prefix, max_len,
    prefix_value, prefix_width, push_all, push_be16, push_be32, push_le16, push_le32,
    serialize_len, ByteReader, CodecError,
};

verus! {

/// A slot: the length prefix, then the payload.
pub open spec fn slot_wire(w: Seq<u8>, long: bool) -> Seq<u8> {
    len_prefix(w.len(), long) + w
}

/// A parameter that can be sent to the coprocessor.
pub trait SerializeParam {
    /// The bytes that the parameter puts on the wire, without a length prefix.
    spec fn wire(&self) -> Seq<u8>;

    /// The number of bytes of the parameter.
    fn len(&self) -> (r: usize)
        requires
            self.wire().len() <= usize::MAX,
        ensures
            r == self.wire().len(),
    ;

    /// Whether the parameter takes at most `max` bytes.
    fn fits(&self, max: usize) -> (r: bool)
        ensures
            r == (self.wire().len() <= max),
    ;

    /// Appends the parameter's bytes.
    fn serialize(&self, out: &mut Vec<u8>)
        ensures
            final(out)@ == old(out)@ + self.wire(),
    ;

    /// The number of bytes of the parameter's slot.
    fn len_length_delimited(&self, long: bool) -> (r: usize)
        requires
            self.wire().len() <= max_len(long),
        ensures
            r == prefix_width(long) + self.wire().len(),
    {
        self.len() + if long {
            2
        } else {
            1
        }
    }

    /// Appends the parameter's slot: its length, then its bytes.
    fn serialize_length_delimited(&self, out: &mut Vec<u8>, long: bool)
        requires
            self.wire().len() <= max_len(long),
        ensures
            final(out)@ == old(out)@ + slot_wire(self.wire(), long),
    {
        let len = self.len();
        serialize_len(out, long, len);
        self.serialize(out);
        assert(final(out)@ =~= old(out)@ + slot_wire(self.wire(), long));
    }
}

/// Where the payload of the slot at `pos` ends.
pub open spec fn slot_end(bytes: Seq<u8>, pos: int, long: bool) -> int {
    pos + prefix_width(long) + prefix_value(bytes, pos, long)
}

/// The payload of the slot at `pos`.
pub open spec fn slot_payload(bytes: Seq<u8>, pos: int, long: bool) -> Seq<u8> {
    bytes.subrange(pos + prefix_width(long), slot_end(bytes, pos, long))
}

/// Whether the bytes hold the whole slot that starts at `pos`.
pub open spec fn slot_complete(bytes: Seq<u8>, pos: int, long: bool) -> bool {
    pos + prefix_width(long) <= bytes.len() && slot_end(bytes, pos, long) <= bytes.len()
}

/// Why the slot at `pos` cannot be read as a `P`, if it cannot.
pub open spec fn slot_error<P: ParseParam>(bytes: Seq<u8>, pos: int, long: bool) -> Option<
    CodecError,
> {
    if !slot_complete(bytes, pos, long) {
        Some(CodecError::Incomplete)
    } else {
        P::parse_error(slot_payload(bytes, pos, long))
    }
}

/// The outcome of reading the slot at `pos` as a `P`, ending the cursor at `end`.
pub open spec fn slot_result<P: ParseParam>(
    bytes: Seq<u8>,
    pos: int,
    long: bool,
    res: Result<P, CodecError>,
    end: int,
) -> bool {
    match slot_error::<P>(bytes, pos, long) {
        None => res is Ok && end == slot_end(bytes, pos, long) && P::parsed(
            slot_payload(bytes, pos, long),
            res->Ok_0,
        ),
        Some(e) => res == Err::<P, CodecError>(e),
    }
}

/// A parameter that can be received from the coprocessor.
pub trait ParseParam: Sized {
    /// Why the payload `b` is not a value of this kind, if it is not.
    spec fn parse_error(b: Seq<u8>) -> Option<CodecError>;

    /// Whether `v` is the value that the payload `b` holds.
    spec fn parsed(b: Seq<u8>, v: Self) -> bool;

    /// Reads a value from the next `len` bytes.
    fn parse(r: &mut ByteReader, len: usize) -> (res: Result<Self, CodecError>)
        requires
            old(r).wf(),
        ensures
            final(r).wf(),
            final(r).bytes@ == old(r).bytes@,
            old(r).pos + len > old(r).bytes@.len() ==> res == Err::<Self, CodecError>(
                CodecError::Incomplete,
            ),
            old(r).pos + len <= old(r).bytes@.len() ==> match Self::parse_error(
                old(r).bytes@.subrange(old(r).pos as int, old(r).pos + len),
            ) {
                None => res is Ok && final(r).pos == old(r).pos + len && Self::parsed(
                    old(r).bytes@.subrange(old(r).pos as int, old(r).pos + len),
                    res->Ok_0,
                ),
                Some(e) => res == Err::<Self, CodecError>(e),
            },
    ;

    /// Reads a slot: its length, then a value from that many bytes.
    fn parse_length_delimited(r: &mut ByteReader, long: bool) -> (res: Result<Self, CodecError>)
        requires
            old(r).wf(),
        ensures
            final(r).wf(),
            final(r).bytes@ == old(r).bytes@,
            !slot_complete(old(r).bytes@, old(r).pos as int, long) ==> res == Err::<
                Self,
                CodecError,
            >(CodecError::Incomplete),
            slot_complete(old(r).bytes@, old(r).pos as int, long) ==> match Self::parse_error(
                slot_payload(old(r).bytes@, old(r).pos as int, long),
            ) {
                None => res is Ok && final(r).pos == slot_end(old(r).bytes@, old(r).pos as int, long)
                    && Self::parsed(slot_payload(old(r).bytes@, old(r).pos as int, long), res->Ok_0),
                Some(e) => res == Err::<Self, CodecError>(e),
            },
    {
        match r.parse_len(long) {
            Err(e) => Err(e),
            Ok(len) => {
                let ghost mid = r.pos;
                let res = Self::parse(r, len);
                assert(old(r).bytes@.subrange(
                    mid as int,
                    mid + len,
                ) =~= slot_payload(old(r).bytes@, old(r).pos as int, long));
                res
            },
        }
    }
}

/// A byte order for multi-byte integers.
pub trait ByteOrder {
    spec fn u16_bytes(v: u16) -> Seq<u8>;

    spec fn u16_value(b: Seq<u8>) -> int;

    spec fn u32_bytes(v: u32) -> Seq<u8>;

    spec fn u32_value(b: Seq<u8>) -> int;

    fn write_u16(out: &mut Vec<u8>, v: u16)
        ensures
            final(out)@ == old(out)@ + Self::u16_bytes(v),
    ;

    fn write_u32(out: &mut Vec<u8>, v: u32)
        ensures
            final(out)@ == old(out)@ + Self::u32_bytes(v),
    ;

    fn read_u16(b: &Vec<u8>) -> (r: u16)
        requires
            b@.len() == 2,
        ensures
            r == Self::u16_value(b@),
    ;

    fn read_u32(b: &Vec<u8>) -> (r: u32)
        requires
            b@.len() == 4,
        ensures
            r == Self::u32_value(b@),
    ;

    /// Two bytes are written, and read back as the same value.
    proof fn lemma_u16(v: u16)
        ensures
            Self::u16_bytes(v).len() == 2,
            Self::u16_value(Self::u16_bytes(v)) == v,
    ;

    /// Four bytes are written, and read back as the same value.
    proof fn lemma_u32(v: u32)
        ensures
            Self::u32_bytes(v).len() == 4,
            Self::u32_value(Self::u32_bytes(v)) == v,
    ;
}

/// Most significant byte first.
#[derive(Clone, Copy, Debug, Default, PartialEq, Eq)]
pub struct BigEndian;

/// Least significant byte first.
#[derive(Clone, Copy, Debug, Default, PartialEq, Eq)]
pub struct LittleEndian;

impl ByteOrder for BigEndian {
    open spec fn u16_bytes(v: u16) -> Seq<u8> {
        be16(v)
    }

    open spec fn u16_value(b: Seq<u8>) -> int {
        be16_value(b)
    }

    open spec fn u32_bytes(v: u32) -> Seq<u8> {
        be32(v)
    }

    open spec fn u32_value(b: Seq<u8>) -> int {
        be32_value(b)
    }

    fn write_u16(out: &mut Vec<u8>, v: u16) {
        push_be16(out, v);
    }

    fn write_u32(out: &mut Vec<u8>, v: u32) {
        push_be32(out, v);
    }

    fn read_u16(b: &Vec<u8>) -> (r: u16) {
        b[0] as u16 * 256 + b[1] as u16
    }

    fn read_u32(b: &Vec<u8>) -> (r: u32) {
        b[0] as u32 * 0x100_0000 + b[1] as u32 * 0x1_0000 + b[2] as u32 * 256 + b[3] as u32
    }

    proof fn lemma_u16(v: u16) {
        crate::encoding::lemma_be16(v);
    }

    proof fn lemma_u32(v: u32) {
        crate::encoding::lemma_be32(v);
    }
}

impl ByteOrder for LittleEndian {
    open spec fn u16_bytes(v: u16) -> Seq<u8> {
        le16(v)
    }

    open spec fn u16_value(b: Seq<u8>) -> int {
        le16_value(b)
    }

    open spec fn u32_bytes(v: u32) -> Seq<u8> {
        le32(v)
    }

    open spec fn u32_value(b: Seq<u8>) -> int {
        le32_value(b)
    }

    fn write_u16(out: &mut Vec<u8>, v: u16) {
        push_le16(out, v);
    }

    fn write_u32(out: &mut Vec<u8>, v: u32) {
        push_le32(out, v);
    }

    fn read_u16(b: &Vec<u8>) -> (r: u16) {
        b[1] as u16 * 256 + b[0] as u16
    }

    fn read_u32(b: &Vec<u8>) -> (r: u32) {
        b[3] as u32 * 0x100_0000 + b[2] as u32 * 0x1_0000 + b[1] as u32 * 256 + b[0] as u32
    }

    proof fn lemma_u16(v: u16) {
        crate::encoding::lemma_le16(v);
    }

    proof fn lemma_u32(v: u32) {
        crate::encoding::lemma_le32(v);
    }
}

/// A wrapper that null-terminates a parameter.
#[derive(Clone, Copy, Debug, Default, PartialEq, Eq)]
pub struct NullTerminated<A>(pub A);

/// An integer that crosses the wire in the byte order `O`.
#[derive(Clone, Copy, Debug, Default, PartialEq, Eq)]
pub struct Scalar<O, A> {
    pub order: O,
    pub value: A,
}

impl<A> NullTerminated<A> {
    pub fn new(value: A) -> (r: Self)
        ensures
            r.0 == value,
    {
        NullTerminated(value)
    }

    pub fn into_inner(self) -> (r: A)
        ensures
            r == self.0,
    {
        self.0
    }
}

impl<A> Scalar<BigEndian, A> {
    pub fn be(value: A) -> (r: Self)
        ensures
            r.value == value,
    {
        Scalar { order: BigEndian, value }
    }
}

impl<A> Scalar<LittleEndian, A> {
    pub fn le(value: A) -> (r: Self)
        ensures
            r.value == value,
    {
        Scalar { order: LittleEndian, value }
    }
}

impl<O, A> Scalar<O, A> {
    pub fn into_inner(self) -> (r: A)
        ensures
            r == self.value,
    {
        self.value
    }
}

impl SerializeParam for u8 {
    open spec fn wire(&self) -> Seq<u8> {
        seq![*self]
    }

    fn len(&self) -> (r: usize) {
        1
    }

    fn fits(&self, max: usize) -> (r: bool) {
        1 <= max
    }

    fn serialize(&self, out: &mut Vec<u8>) {
        out.push(*self);
        assert(final(out)@ =~= old(out)@ + self.wire());
    }
}

impl ParseParam for u8 {
    open spec fn parse_error(b: Seq<u8>) -> Option<CodecError> {
        if b.len() == 1 {
            None
        } else {
            Some(CodecError::LengthMismatch)
        }
    }

    open spec fn parsed(b: Seq<u8>, v: u8) -> bool {
        v == b[0]
    }

    fn parse(r: &mut ByteReader, len: usize) -> (res: Result<u8, CodecError>) {
        if r.remaining() < len {
            return Err(CodecError::Incomplete);
        }
        if len != 1 {
            return Err(CodecError::LengthMismatch);
        }
        r.read_byte()
    }
}

impl<O: ByteOrder> SerializeParam for Scalar<O, u16> {
    open spec fn wire(&self) -> Seq<u8> {
        O::u16_bytes(self.value)
    }

    fn len(&self) -> (r: usize) {
        proof {
            O::lemma_u16(self.value);
        }
        2
    }

    fn fits(&self, max: usize) -> (r: bool) {
        proof {
            O::lemma_u16(self.value);
        }
        2 <= max
    }

    fn serialize(&self, out: &mut Vec<u8>) {
        O::write_u16(out, self.value);
    }
}

impl<O: ByteOrder + Default> ParseParam for Scalar<O, u16> {
    open spec fn parse_error(b: Seq<u8>) -> Option<CodecError> {
        if b.len() == 2 {
            None
        } else {
            Some(CodecError::LengthMismatch)
        }
    }

    open spec fn parsed(b: Seq<u8>, v: Self) -> bool {
        v.value == O::u16_value(b)
    }

    fn parse(r: &mut ByteReader, len: usize) -> (res: Result<Self, CodecError>) {
        if r.remaining() < len {
            return Err(CodecError::Incomplete);
        }
        if len != 2 {
            return Err(CodecError::LengthMismatch);
        }
        let b = r.take(2);
        let value = O::read_u16(&b);
        Ok(Scalar { order: O::default(), value })
    }
}

impl<O: ByteOrder> SerializeParam for Scalar<O, u32> {
    open spec fn wire(&self) -> Seq<u8> {
        O::u32_bytes(self.value)
    }

    fn len(&self) -> (r: usize) {
        proof {
            O::lemma_u32(self.value);
        }
        4
    }

    fn fits(&self, max: usize) -> (r: bool) {
        proof {
            O::lemma_u32(self.value);
        }
        4 <= max
    }

    fn serialize(&self, out: &mut Vec<u8>) {
        O::write_u32(out, self.value);
    }
}

impl<O: ByteOrder + Default> ParseParam for Scalar<O, u32> {
    open spec fn parse_error(b: Seq<u8>) -> Option<CodecError> {
        if b.len() == 4 {
            None
        } else {
            Some(CodecError::LengthMismatch)
        }
    }

    open spec fn parsed(b: Seq<u8>, v: Self) -> bool {
        v.value == O::u32_value(b)
    }

    fn parse(r: &mut ByteReader, len: usize) -> (res: Result<Self, CodecError>) {
        if r.remaining() < len {
            return Err(CodecError::Incomplete);
        }
        if len != 4 {
            return Err(CodecError::LengthMismatch);
        }
        let b = r.take(4);
        let value = O::read_u32(&b);
        Ok(Scalar { order: O::default(), value })
    }
}

impl SerializeParam for Vec<u8> {
    open spec fn wire(&self) -> Seq<u8> {
        self@
    }

    fn len(&self) -> (r: usize) {
        self.len()
    }

    fn fits(&self, max: usize) -> (r: bool) {
        self.len() <= max
    }

    fn serialize(&self, out: &mut Vec<u8>) {
        push_all(out, self);
    }
}

impl ParseParam for Vec<u8> {
    open spec fn parse_error(b: Seq<u8>) -> Option<CodecError> {
        None
    }

    open spec fn parsed(b: Seq<u8>, v: Vec<u8>) -> bool {
        v@ == b
    }

    fn parse(r: &mut ByteReader, len: usize) -> (res: Result<Vec<u8>, CodecError>) {
        if r.remaining() < len {
            return Err(CodecError::Incomplete);
        }
        Ok(r.take(len))
    }
}

impl<A: SerializeParam> SerializeParam for NullTerminated<A> {
    open spec fn wire(&self) -> Seq<u8> {
        self.0.wire().push(0u8)
    }

    fn len(&self) -> (r: usize) {
        self.0.len() + 1
    }

    fn fits(&self, max: usize) -> (r: bool) {
        max >= 1 && self.0.fits(max - 1)
    }

    fn serialize(&self, out: &mut Vec<u8>) {
        self.0.serialize(out);
        out.push(0);
        assert(final(out)@ =~= old(out)@ + self.wire());
    }
}

impl<A: ParseParam> ParseParam for NullTerminated<A> {
    open spec fn parse_error(b: Seq<u8>) -> Option<CodecError> {
        if b.len() == 0 {
            Some(CodecError::LengthMismatch)
        } else {
            match A::parse_error(b.drop_last()) {
                Some(e) => Some(e),
                None => if b.last() == 0 {
                    None
                } else {
                    Some(CodecError::MissingTerminator)
                },
            }
        }
    }

    open spec fn parsed(b: Seq<u8>, v: Self) -> bool {
        A::parsed(b.drop_last(), v.0)
    }

    fn parse(r: &mut ByteReader, len: usize) -> (res: Result<Self, CodecError>) {
        if r.remaining() < len {
            return Err(CodecError::Incomplete);
        }
        if len == 0 {
            return Err(CodecError::LengthMismatch);
        }
        let ghost start = r.pos;
        let inner = match A::parse(r, len - 1) {
            Ok(v) => v,
            Err(e) => {
                assert(old(r).bytes@.subrange(start as int, start + len - 1) =~= old(
                    r,
                ).bytes@.subrange(start as int, start + len).drop_last());
                return Err(e);
            },
        };
        let ghost b = old(r).bytes@.subrange(start as int, start + len);
        assert(old(r).bytes@.subrange(start as int, start + len - 1) =~= b.drop_last());
        let z = r.read_byte();
        match z {
            Ok(0u8) => Ok(NullTerminated(inner)),
            _ => Err(CodecError::MissingTerminator),
        }
    }
}

/// A parameter whose bytes read back as itself.
pub trait RoundTripParam: SerializeParam + ParseParam {
    /// The parameter's bytes are a valid payload, they hold the parameter, and
    /// any value they hold has the same bytes.
    proof fn lemma_round_trip(&self)
        ensures
            Self::parse_error(self.wire()) is None,
            Self::parsed(self.wire(), *self),
            forall|w: Self| #[trigger] Self::parsed(self.wire(), w) ==> w.wire() == self.wire(),
    ;
}

impl RoundTripParam for u8 {
    proof fn lemma_round_trip(&self) {
    }
}

impl<O: ByteOrder + Default> RoundTripParam for Scalar<O, u16> {
    proof fn lemma_round_trip(&self) {
        O::lemma_u16(self.value);
    }
}

impl<O: ByteOrder + Default> RoundTripParam for Scalar<O, u32> {
    proof fn lemma_round_trip(&self) {
        O::lemma_u32(self.value);
    }
}

impl RoundTripParam for Vec<u8> {
    proof fn lemma_round_trip(&self) {
    }
}

impl<A: RoundTripParam> RoundTripParam for NullTerminated<A> {
    proof fn lemma_round_trip(&self) {
        self.0.lemma_round_trip();
        assert(self.wire().drop_last() =~= self.0.wire());
    }
}

/// A slot placed after `before` is found there: complete, with the length
/// and the payload it was written with.
pub proof fn lemma_slot_at(before: Seq<u8>, w: Seq<u8>, long: bool, after: Seq<u8>)
    requires
        w.len() <= max_len(long),
    ensures
        ({
            let bytes = before + slot_wire(w, long) + after;
            let p = before.len() as int;
            &&& slot_complete(bytes, p, long)
            &&& slot_end(bytes, p, long) == p + prefix_width(long) + w.len()
            &&& slot_payload(bytes, p, long) == w
        }),
{
    let bytes = before + slot_wire(w, long) + after;
    let p = before.len() as int;
    lemma_len_prefix(w.len(), long, w + after);
    let tail = len_prefix(w.len(), long) + w + after;
    assert(bytes =~= before + tail);
    assert(prefix_value(bytes, p, long) == prefix_value(tail, 0, long)) by {
        if long {
            assert(bytes.subrange(p, p + 2) =~= tail.subrange(0, 2));
        }
    }
    assert(len_prefix(w.len(), long) + (w + after) =~= tail);
    assert(slot_payload(bytes, p, long) =~= w);
}

/// A byte is sent as that one byte, and its payload is read back as the same byte.
pub proof fn lemma_u8_round_trip(b: u8)
    ensures
        b.wire() == seq![b],
        <u8 as ParseParam>::parse_error(b.wire()) is None,
        forall|w: u8| <u8 as ParseParam>::parsed(b.wire(), w) <==> w == b,
{
}

/// A 16-bit scalar is sent as two bytes in its byte order, and read back as the same value.
pub proof fn lemma_scalar_u16_round_trip<O: ByteOrder + Default>(s: Scalar<O, u16>)
    ensures
        s.wire().len() == 2,
        <Scalar<O, u16> as ParseParam>::parse_error(s.wire()) is None,
        forall|w: Scalar<O, u16>|
            <Scalar<O, u16> as ParseParam>::parsed(s.wire(), w) <==> w.value == s.value,
{
    O::lemma_u16(s.value);
}

/// A 32-bit scalar is sent as four bytes in its byte order, and read back as the same value.
pub proof fn lemma_scalar_u32_round_trip<O: ByteOrder + Default>(s: Scalar<O, u32>)
    ensures
        s.wire().len() == 4,
        <Scalar<O, u32> as ParseParam>::parse_error(s.wire()) is None,
        forall|w: Scalar<O, u32>|
            <Scalar<O, u32> as ParseParam>::parsed(s.wire(), w) <==> w.value == s.value,
{
    O::lemma_u32(s.value);
}

/// A run of at most 127 bytes in a short slot: its length, then the bytes; the
/// slot is read back as the same bytes.
pub proof fn lemma_bytes_slot_round_trip(v: Vec<u8>)
    requires
        v@.len() <= 127,
    ensures
        slot_wire(v.wire(), false).len() == v@.len() + 1,
        slot_wire(v.wire(), false)[0] == v@.len(),
        slot_wire(v.wire(), false).subrange(1, v@.len() + 1int) == v@,
        slot_complete(slot_wire(v.wire(), false), 0, false),
        slot_end(slot_wire(v.wire(), false), 0, false) == v@.len() + 1,
        slot_error::<Vec<u8>>(slot_wire(v.wire(), false), 0, false) is None,
        forall|w: Vec<u8>|
            <Vec<u8> as ParseParam>::parsed(slot_payload(slot_wire(v.wire(), false), 0, false), w)
                <==> w@ == v@,
{
    let b = slot_wire(v.wire(), false);
    lemma_len_prefix(v@.len(), false, v@);
    assert(b.subrange(1, v@.len() + 1int) =~= v@);
}

/// A null-terminated run in a short slot: its length plus one, the bytes, then a
/// zero; the slot is read back as the same bytes.
pub proof fn lemma_null_terminated_slot_round_trip(v: Vec<u8>)
    requires
        v@.len() <= 254,
    ensures
        slot_wire(NullTerminated(v).wire(), false).len() == v@.len() + 2,
        slot_wire(NullTerminated(v).wire(), false)[0] == v@.len() + 1,
        slot_wire(NullTerminated(v).wire(), false).last() == 0,
        slot_complete(slot_wire(NullTerminated(v).wire(), false), 0, false),
        slot_error::<NullTerminated<Vec<u8>>>(slot_wire(NullTerminated(v).wire(), false), 0, false)
            is None,
        forall|w: NullTerminated<Vec<u8>>|
            <NullTerminated<Vec<u8>> as ParseParam>::parsed(
                slot_payload(slot_wire(NullTerminated(v).wire(), false), 0, false),
                w,
            ) <==> w.0@ == v@,
{
    let n = NullTerminated(v);
    let b = slot_wire(n.wire(), false);
    lemma_len_prefix(n.wire().len(), false, n.wire());
    assert(slot_payload(b, 0, false) =~= n.wire());
    assert(n.wire().drop_last() =~= v@);
}

} // verus!
