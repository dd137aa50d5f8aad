//! Parameter blocks: a count byte, then one slot per parameter.
use vstd::prelude::*;

use crate::encoding::{max_len, ByteReader, CodecError};
use vstd::seq_lib::lemma_concat_associative;
use crate::param::{
    lemma_slot_at, slot_end, slot_error, slot_payload, slot_wire, ParseParam, RoundTripParam,
    SerializeParam,
};

verus! {

/// The largest payload of a slot, as a `usize`.
pub fn max_slot_len(long: bool) -> (r: usize)
    ensures
        r == max_len(long),
{
    if long {
        65535
    } else {
        255
    }
}

/// The first of two possible errors.
pub open spec fn first_error(a: Option<CodecError>, b: Option<CodecError>) -> Option<CodecError> {
    if a is Some {
        a
    } else {
        b
    }
}

/// Why the count byte at `pos` is not `n`, if it is not.
pub open spec fn count_error(bytes: Seq<u8>, pos: int, n: u8) -> Option<CodecError> {
    if pos >= bytes.len() {
        Some(CodecError::Incomplete)
    } else if bytes[pos] != n {
        Some(CodecError::CountMismatch)
    } else {
        None
    }
}

/// A collection of parameters that can be sent to the coprocessor.
pub trait SerializeParams {
    /// The bytes of the block.
    spec fn block_wire(&self, long: bool) -> Seq<u8>;

    /// Whether every parameter fits its length prefix.
    spec fn fits_spec(&self, long: bool) -> bool;

    fn fits(&self, long: bool) -> (r: bool)
        ensures
            r == self.fits_spec(long),
    ;

    /// The number of bytes of the block.
    fn len(&self, long: bool) -> (r: usize)
        requires
            self.fits_spec(long),
        ensures
            r == self.block_wire(long).len(),
    ;

    /// Appends the block.
    fn serialize(&self, out: &mut Vec<u8>, long: bool)
        requires
            self.fits_spec(long),
        ensures
            final(out)@ == old(out)@ + self.block_wire(long),
    ;
}

/// A collection of parameters that can be received from the coprocessor.
pub trait ParseParams: Sized {
    /// Why the block at `pos` cannot be read, if it cannot.
    spec fn block_error(bytes: Seq<u8>, pos: int, long: bool) -> Option<CodecError>;

    /// Where the block at `pos` ends.
    spec fn block_end(bytes: Seq<u8>, pos: int, long: bool) -> int;

    /// Whether `v` is the value that the block at `pos` holds.
    spec fn block_parsed(bytes: Seq<u8>, pos: int, long: bool, v: Self) -> bool;

    /// Reads a block.
    fn parse(r: &mut ByteReader, long: bool) -> (res: Result<Self, CodecError>)
        requires
            old(r).wf(),
        ensures
            final(r).wf(),
            final(r).bytes@ == old(r).bytes@,
            match Self::block_error(old(r).bytes@, old(r).pos as int, long) {
                None => res is Ok && final(r).pos == Self::block_end(
                    old(r).bytes@,
                    old(r).pos as int,
                    long,
                ) && Self::block_parsed(old(r).bytes@, old(r).pos as int, long, res->Ok_0),
                Some(e) => res == Err::<Self, CodecError>(e),
            },
    ;
}

impl SerializeParams for () {
    open spec fn block_wire(&self, long: bool) -> Seq<u8> {
        seq![0u8]
    }

    open spec fn fits_spec(&self, long: bool) -> bool {
        true
    }

    fn fits(&self, long: bool) -> (r: bool) {
        true
    }

    fn len(&self, long: bool) -> (r: usize) {
        1
    }

    fn serialize(&self, out: &mut Vec<u8>, long: bool) {
        out.push(0);
        assert(final(out)@ =~= old(out)@ + self.block_wire(long));
    }
}

impl ParseParams for () {
    open spec fn block_error(bytes: Seq<u8>, pos: int, long: bool) -> Option<CodecError> {
        count_error(bytes, pos, 0)
    }

    open spec fn block_end(bytes: Seq<u8>, pos: int, long: bool) -> int {
        pos + 1
    }

    open spec fn block_parsed(bytes: Seq<u8>, pos: int, long: bool, v: ()) -> bool {
        true
    }

    fn parse(r: &mut ByteReader, long: bool) -> (res: Result<(), CodecError>) {
        match r.read_byte() {
            Err(e) => Err(e),
            Ok(n) => if n != 0 {
                Err(CodecError::CountMismatch)
            } else {
                Ok(())
            },
        }
    }
}

impl<A: SerializeParam> SerializeParams for (A,) {
    open spec fn block_wire(&self, long: bool) -> Seq<u8> {
        seq![1u8] + slot_wire(self.0.wire(), long)
    }

    open spec fn fits_spec(&self, long: bool) -> bool {
        self.0.wire().len() <= max_len(long)
    }

    fn fits(&self, long: bool) -> (r: bool) {
        let max = max_slot_len(long);
        self.0.fits(max)
    }

    fn len(&self, long: bool) -> (r: usize) {
        1 + self.0.len_length_delimited(long)
    }

    fn serialize(&self, out: &mut Vec<u8>, long: bool) {
        out.push(1u8);
        self.0.serialize_length_delimited(out, long);
        assert(final(out)@ =~= old(out)@ + self.block_wire(long));
    }
}

impl<A: ParseParam> ParseParams for (A,) {
    open spec fn block_error(bytes: Seq<u8>, pos: int, long: bool) -> Option<CodecError> {
        let at0 = pos + 1;
        let at1 = slot_end(bytes, at0, long);
        first_error(count_error(bytes, pos, 1u8), slot_error::<A>(bytes, at0, long))
    }

    open spec fn block_end(bytes: Seq<u8>, pos: int, long: bool) -> int {
        let at0 = pos + 1;
        let at1 = slot_end(bytes, at0, long);
        at1
    }

    open spec fn block_parsed(bytes: Seq<u8>, pos: int, long: bool, v: Self) -> bool {
        let at0 = pos + 1;
        let at1 = slot_end(bytes, at0, long);
        A::parsed(slot_payload(bytes, at0, long), v.0)
    }

    fn parse(r: &mut ByteReader, long: bool) -> (res: Result<Self, CodecError>) {
        match r.read_byte() {
            Err(e) => return Err(e),
            Ok(n) => if n != 1u8 {
                return Err(CodecError::CountMismatch);
            },
        }
        let v0 = match A::parse_length_delimited(r, long) {
            Ok(v) => v,
            Err(e) => return Err(e),
        };
        Ok((v0,))
    }
}

impl<A: SerializeParam, B: SerializeParam> SerializeParams for (A, B) {
    open spec fn block_wire(&self, long: bool) -> Seq<u8> {
        seq![2u8] + slot_wire(self.0.wire(), long) + slot_wire(self.1.wire(), long)
    }

    open spec fn fits_spec(&self, long: bool) -> bool {
        self.0.wire().len() <= max_len(long) && self.1.wire().len() <= max_len(long)
    }

    fn fits(&self, long: bool) -> (r: bool) {
        let max = max_slot_len(long);
        self.0.fits(max) && self.1.fits(max)
    }

    fn len(&self, long: bool) -> (r: usize) {
        1 + self.0.len_length_delimited(long) + self.1.len_length_delimited(long)
    }

    fn serialize(&self, out: &mut Vec<u8>, long: bool) {
        out.push(2u8);
        self.0.serialize_length_delimited(out, long);
        self.1.serialize_length_delimited(out, long);
        assert(final(out)@ =~= old(out)@ + self.block_wire(long));
    }
}

impl<A: ParseParam, B: ParseParam> ParseParams for (A, B) {
    open spec fn block_error(bytes: Seq<u8>, pos: int, long: bool) -> Option<CodecError> {
        let at0 = pos + 1;
        let at1 = slot_end(bytes, at0, long);
        let at2 = slot_end(bytes, at1, long);
        first_error(count_error(bytes, pos, 2u8), first_error(slot_error::<A>(bytes, at0, long), slot_error::<B>(bytes, at1, long)))
    }

    open spec fn block_end(bytes: Seq<u8>, pos: int, long: bool) -> int {
        let at0 = pos + 1;
        let at1 = slot_end(bytes, at0, long);
        let at2 = slot_end(bytes, at1, long);
        at2
    }

    open spec fn block_parsed(bytes: Seq<u8>, pos: int, long: bool, v: Self) -> bool {
        let at0 = pos + 1;
        let at1 = slot_end(bytes, at0, long);
        let at2 = slot_end(bytes, at1, long);
        A::parsed(slot_payload(bytes, at0, long), v.0) && B::parsed(slot_payload(bytes, at1, long), v.1)
    }

    fn parse(r: &mut ByteReader, long: bool) -> (res: Result<Self, CodecError>) {
        match r.read_byte() {
            Err(e) => return Err(e),
            Ok(n) => if n != 2u8 {
                return Err(CodecError::CountMismatch);
            },
        }
        let v0 = match A::parse_length_delimited(r, long) {
            Ok(v) => v,
            Err(e) => return Err(e),
        };
        let v1 = match B::parse_length_delimited(r, long) {
            Ok(v) => v,
            Err(e) => return Err(e),
        };
        Ok((v0, v1))
    }
}

impl<A: SerializeParam, B: SerializeParam, C: SerializeParam> SerializeParams for (A, B, C) {
    open spec fn block_wire(&self, long: bool) -> Seq<u8> {
        seq![3u8] + slot_wire(self.0.wire(), long) + slot_wire(self.1.wire(), long) + slot_wire(self.2.wire(), long)
    }

    open spec fn fits_spec(&self, long: bool) -> bool {
        self.0.wire().len() <= max_len(long) && self.1.wire().len() <= max_len(long) && self.2.wire().len() <= max_len(long)
    }

    fn fits(&self, long: bool) -> (r: bool) {
        let max = max_slot_len(long);
        self.0.fits(max) && self.1.fits(max) && self.2.fits(max)
    }

    fn len(&self, long: bool) -> (r: usize) {
        1 + self.0.len_length_delimited(long) + self.1.len_length_delimited(long) + self.2.len_length_delimited(long)
    }

    fn serialize(&self, out: &mut Vec<u8>, long: bool) {
        out.push(3u8);
        self.0.serialize_length_delimited(out, long);
        self.1.serialize_length_delimited(out, long);
        self.2.serialize_length_delimited(out, long);
        assert(final(out)@ =~= old(out)@ + self.block_wire(long));
    }
}

impl<A: ParseParam, B: ParseParam, C: ParseParam> ParseParams for (A, B, C) {
    open spec fn block_error(bytes: Seq<u8>, pos: int, long: bool) -> Option<CodecError> {
        let at0 = pos + 1;
        let at1 = slot_end(bytes, at0, long);
        let at2 = slot_end(bytes, at1, long);
        let at3 = slot_end(bytes, at2, long);
        first_error(count_error(bytes, pos, 3u8), first_error(slot_error::<A>(bytes, at0, long), first_error(slot_error::<B>(bytes, at1, long), slot_error::<C>(bytes, at2, long))))
    }

    open spec fn block_end(bytes: Seq<u8>, pos: int, long: bool) -> int {
        let at0 = pos + 1;
        let at1 = slot_end(bytes, at0, long);
        let at2 = slot_end(bytes, at1, long);
        let at3 = slot_end(bytes, at2, long);
        at3
    }

    open spec fn block_parsed(bytes: Seq<u8>, pos: int, long: bool, v: Self) -> bool {
        let at0 = pos + 1;
        let at1 = slot_end(bytes, at0, long);
        let at2 = slot_end(bytes, at1, long);
        let at3 = slot_end(bytes, at2, long);
        A::parsed(slot_payload(bytes, at0, long), v.0) && B::parsed(slot_payload(bytes, at1, long), v.1) && C::parsed(slot_payload(bytes, at2, long), v.2)
    }

    fn parse(r: &mut ByteReader, long: bool) -> (res: Result<Self, CodecError>) {
        match r.read_byte() {
            Err(e) => return Err(e),
            Ok(n) => if n != 3u8 {
                return Err(CodecError::CountMismatch);
            },
        }
        let v0 = match A::parse_length_delimited(r, long) {
            Ok(v) => v,
            Err(e) => return Err(e),
        };
        let v1 = match B::parse_length_delimited(r, long) {
            Ok(v) => v,
            Err(e) => return Err(e),
        };
        let v2 = match C::parse_length_delimited(r, long) {
            Ok(v) => v,
            Err(e) => return Err(e),
        };
        Ok((v0, v1, v2))
    }
}

impl<A: SerializeParam, B: SerializeParam, C: SerializeParam, D: SerializeParam> SerializeParams for (A, B, C, D) {
    open spec fn block_wire(&self, long: bool) -> Seq<u8> {
        seq![4u8] + slot_wire(self.0.wire(), long) + slot_wire(self.1.wire(), long) + slot_wire(self.2.wire(), long) + slot_wire(self.3.wire(), long)
    }

    open spec fn fits_spec(&self, long: bool) -> bool {
        self.0.wire().len() <= max_len(long) && self.1.wire().len() <= max_len(long) && self.2.wire().len() <= max_len(long) && self.3.wire().len() <= max_len(long)
    }

    fn fits(&self, long: bool) -> (r: bool) {
        let max = max_slot_len(long);
        self.0.fits(max) && self.1.fits(max) && self.2.fits(max) && self.3.fits(max)
    }

    fn len(&self, long: bool) -> (r: usize) {
        1 + self.0.len_length_delimited(long) + self.1.len_length_delimited(long) + self.2.len_length_delimited(long) + self.3.len_length_delimited(long)
    }

    fn serialize(&self, out: &mut Vec<u8>, long: bool) {
        out.push(4u8);
        self.0.serialize_length_delimited(out, long);
        self.1.serialize_length_delimited(out, long);
        self.2.serialize_length_delimited(out, long);
        self.3.serialize_length_delimited(out, long);
        assert(final(out)@ =~= old(out)@ + self.block_wire(long));
    }
}

impl<A: ParseParam, B: ParseParam, C: ParseParam, D: ParseParam> ParseParams for (A, B, C, D) {
    open spec fn block_error(bytes: Seq<u8>, pos: int, long: bool) -> Option<CodecError> {
        let at0 = pos + 1;
        let at1 = slot_end(bytes, at0, long);
        let at2 = slot_end(bytes, at1, long);
        let at3 = slot_end(bytes, at2, long);
        let at4 = slot_end(bytes, at3, long);
        first_error(count_error(bytes, pos, 4u8), first_error(slot_error::<A>(bytes, at0, long), first_error(slot_error::<B>(bytes, at1, long), first_error(slot_error::<C>(bytes, at2, long), slot_error::<D>(bytes, at3, long)))))
    }

    open spec fn block_end(bytes: Seq<u8>, pos: int, long: bool) -> int {
        let at0 = pos + 1;
        let at1 = slot_end(bytes, at0, long);
        let at2 = slot_end(bytes, at1, long);
        let at3 = slot_end(bytes, at2, long);
        let at4 = slot_end(bytes, at3, long);
        at4
    }

    open spec fn block_parsed(bytes: Seq<u8>, pos: int, long: bool, v: Self) -> bool {
        let at0 = pos + 1;
        let at1 = slot_end(bytes, at0, long);
        let at2 = slot_end(bytes, at1, long);
        let at3 = slot_end(bytes, at2, long);
        let at4 = slot_end(bytes, at3, long);
        A::parsed(slot_payload(bytes, at0, long), v.0) && B::parsed(slot_payload(bytes, at1, long), v.1) && C::parsed(slot_payload(bytes, at2, long), v.2) && D::parsed(slot_payload(bytes, at3, long), v.3)
    }

    fn parse(r: &mut ByteReader, long: bool) -> (res: Result<Self, CodecError>) {
        match r.read_byte() {
            Err(e) => return Err(e),
            Ok(n) => if n != 4u8 {
                return Err(CodecError::CountMismatch);
            },
        }
        let v0 = match A::parse_length_delimited(r, long) {
            Ok(v) => v,
            Err(e) => return Err(e),
        };
        let v1 = match B::parse_length_delimited(r, long) {
            Ok(v) => v,
            Err(e) => return Err(e),
        };
        let v2 = match C::parse_length_delimited(r, long) {
            Ok(v) => v,
            Err(e) => return Err(e),
        };
        let v3 = match D::parse_length_delimited(r, long) {
            Ok(v) => v,
            Err(e) => return Err(e),
        };
        Ok((v0, v1, v2, v3))
    }
}

impl<A: SerializeParam, B: SerializeParam, C: SerializeParam, D: SerializeParam, E: SerializeParam> SerializeParams for (A, B, C, D, E) {
    open spec fn block_wire(&self, long: bool) -> Seq<u8> {
        seq![5u8] + slot_wire(self.0.wire(), long) + slot_wire(self.1.wire(), long) + slot_wire(self.2.wire(), long) + slot_wire(self.3.wire(), long) + slot_wire(self.4.wire(), long)
    }

    open spec fn fits_spec(&self, long: bool) -> bool {
        self.0.wire().len() <= max_len(long) && self.1.wire().len() <= max_len(long) && self.2.wire().len() <= max_len(long) && self.3.wire().len() <= max_len(long) && self.4.wire().len() <= max_len(long)
    }

    fn fits(&self, long: bool) -> (r: bool) {
        let max = max_slot_len(long);
        self.0.fits(max) && self.1.fits(max) && self.2.fits(max) && self.3.fits(max) && self.4.fits(max)
    }

    fn len(&self, long: bool) -> (r: usize) {
        1 + self.0.len_length_delimited(long) + self.1.len_length_delimited(long) + self.2.len_length_delimited(long) + self.3.len_length_delimited(long) + self.4.len_length_delimited(long)
    }

    fn serialize(&self, out: &mut Vec<u8>, long: bool) {
        out.push(5u8);
        self.0.serialize_length_delimited(out, long);
        self.1.serialize_length_delimited(out, long);
        self.2.serialize_length_delimited(out, long);
        self.3.serialize_length_delimited(out, long);
        self.4.serialize_length_delimited(out, long);
        assert(final(out)@ =~= old(out)@ + self.block_wire(long));
    }
}

impl<A: ParseParam, B: ParseParam, C: ParseParam, D: ParseParam, E: ParseParam> ParseParams for (A, B, C, D, E) {
    open spec fn block_error(bytes: Seq<u8>, pos: int, long: bool) -> Option<CodecError> {
        let at0 = pos + 1;
        let at1 = slot_end(bytes, at0, long);
        let at2 = slot_end(bytes, at1, long);
        let at3 = slot_end(bytes, at2, long);
        let at4 = slot_end(bytes, at3, long);
        let at5 = slot_end(bytes, at4, long);
        first_error(count_error(bytes, pos, 5u8), first_error(slot_error::<A>(bytes, at0, long), first_error(slot_error::<B>(bytes, at1, long), first_error(slot_error::<C>(bytes, at2, long), first_error(slot_error::<D>(bytes, at3, long), slot_error::<E>(bytes, at4, long))))))
    }

    open spec fn block_end(bytes: Seq<u8>, pos: int, long: bool) -> int {
        let at0 = pos + 1;
        let at1 = slot_end(bytes, at0, long);
        let at2 = slot_end(bytes, at1, long);
        let at3 = slot_end(bytes, at2, long);
        let at4 = slot_end(bytes, at3, long);
        let at5 = slot_end(bytes, at4, long);
        at5
    }

    open spec fn block_parsed(bytes: Seq<u8>, pos: int, long: bool, v: Self) -> bool {
        let at0 = pos + 1;
        let at1 = slot_end(bytes, at0, long);
        let at2 = slot_end(bytes, at1, long);
        let at3 = slot_end(bytes, at2, long);
        let at4 = slot_end(bytes, at3, long);
        let at5 = slot_end(bytes, at4, long);
        A::parsed(slot_payload(bytes, at0, long), v.0) && B::parsed(slot_payload(bytes, at1, long), v.1) && C::parsed(slot_payload(bytes, at2, long), v.2) && D::parsed(slot_payload(bytes, at3, long), v.3) && E::parsed(slot_payload(bytes, at4, long), v.4)
    }

    fn parse(r: &mut ByteReader, long: bool) -> (res: Result<Self, CodecError>) {
        match r.read_byte() {
            Err(e) => return Err(e),
            Ok(n) => if n != 5u8 {
                return Err(CodecError::CountMismatch);
            },
        }
        let v0 = match A::parse_length_delimited(r, long) {
            Ok(v) => v,
            Err(e) => return Err(e),
        };
        let v1 = match B::parse_length_delimited(r, long) {
            Ok(v) => v,
            Err(e) => return Err(e),
        };
        let v2 = match C::parse_length_delimited(r, long) {
            Ok(v) => v,
            Err(e) => return Err(e),
        };
        let v3 = match D::parse_length_delimited(r, long) {
            Ok(v) => v,
            Err(e) => return Err(e),
        };
        let v4 = match E::parse_length_delimited(r, long) {
            Ok(v) => v,
            Err(e) => return Err(e),
        };
        Ok((v0, v1, v2, v3, v4))
    }
}

/// Where `k` slots that start at `pos` end.
pub open spec fn slots_end(bytes: Seq<u8>, pos: int, k: nat, long: bool) -> int
    decreases k,
{
    if k == 0 {
        pos
    } else {
        slot_end(bytes, slots_end(bytes, pos, (k - 1) as nat, long), long)
    }
}

/// Why the `k` slots that start at `pos` cannot be read as `U`s, if they cannot.
pub open spec fn slots_error<U: ParseParam>(bytes: Seq<u8>, pos: int, k: nat, long: bool) -> Option<
    CodecError,
>
    decreases k,
{
    if k == 0 {
        None
    } else {
        first_error(
            slots_error::<U>(bytes, pos, (k - 1) as nat, long),
            slot_error::<U>(bytes, slots_end(bytes, pos, (k - 1) as nat, long), long),
        )
    }
}

/// Once reading the first `i` slots fails, reading the first `k >= i` fails
/// in the same way.
pub proof fn lemma_slots_error_stays<U: ParseParam>(
    bytes: Seq<u8>,
    pos: int,
    i: nat,
    k: nat,
    long: bool,
)
    requires
        i <= k,
        slots_error::<U>(bytes, pos, i, long) is Some,
    ensures
        slots_error::<U>(bytes, pos, k, long) == slots_error::<U>(bytes, pos, i, long),
    decreases k - i,
{
    if i < k {
        lemma_slots_error_stays::<U>(bytes, pos, i, (k - 1) as nat, long);
    }
}

/// The slots of the parameters of `s`, one after the other.
pub open spec fn slots_wire<U: SerializeParam>(s: Seq<U>, long: bool) -> Seq<u8>
    decreases s.len(),
{
    if s.len() == 0 {
        Seq::empty()
    } else {
        slots_wire(s.drop_last(), long) + slot_wire(s.last().wire(), long)
    }
}

/// A list of parameters of one kind: a count byte, then one slot per parameter.
impl<U: SerializeParam> SerializeParams for Vec<U> {
    open spec fn block_wire(&self, long: bool) -> Seq<u8> {
        seq![self@.len() as u8] + slots_wire(self@, long)
    }

    open spec fn fits_spec(&self, long: bool) -> bool {
        &&& self@.len() <= 255
        &&& forall|i: int| 0 <= i < self@.len() ==> (#[trigger] self@[i]).wire().len() <= max_len(long)
    }

    fn fits(&self, long: bool) -> (r: bool) {
        if self.len() > 255 {
            return false;
        }
        let max = max_slot_len(long);
        let mut i: usize = 0;
        while i < self.len()
            invariant
                i <= self@.len(),
                max == max_len(long),
                forall|j: int| 0 <= j < i ==> (#[trigger] self@[j]).wire().len() <= max_len(long),
            decreases self@.len() - i,
        {
            if !self[i].fits(max) {
                return false;
            }
            i += 1;
        }
        true
    }

    fn len(&self, long: bool) -> (r: usize) {
        let mut total: usize = 1;
        let mut i: usize = 0;
        while i < self.len()
            invariant
                self.fits_spec(long),
                i <= self@.len(),
                total == 1 + slots_wire(self@.take(i as int), long).len(),
                total <= 1 + i * 65537,
            decreases self@.len() - i,
        {
            proof {
                let t = self@.take(i as int + 1);
                assert(t.drop_last() =~= self@.take(i as int));
                assert(t.last() == self@[i as int]);
            }
            total = total + self[i].len_length_delimited(long);
            i += 1;
        }
        assert(self@.take(self@.len() as int) =~= self@);
        total
    }

    fn serialize(&self, out: &mut Vec<u8>, long: bool) {
        out.push(self.len() as u8);
        let mut i: usize = 0;
        while i < self.len()
            invariant
                self.fits_spec(long),
                i <= self@.len(),
                out@ == old(out)@ + seq![self@.len() as u8] + slots_wire(self@.take(i as int), long),
            decreases self@.len() - i,
        {
            proof {
                let t = self@.take(i as int + 1);
                assert(t.drop_last() =~= self@.take(i as int));
                assert(t.last() == self@[i as int]);
            }
            self[i].serialize_length_delimited(out, long);
            i += 1;
        }
        assert(self@.take(self@.len() as int) =~= self@);
        assert(out@ =~= old(out)@ + self.block_wire(long));
    }
}

/// A list of parameters of one kind: a count byte, then one slot per parameter.
impl<U: ParseParam> ParseParams for Vec<U> {
    open spec fn block_error(bytes: Seq<u8>, pos: int, long: bool) -> Option<CodecError> {
        if pos >= bytes.len() {
            Some(CodecError::Incomplete)
        } else {
            slots_error::<U>(bytes, pos + 1, bytes[pos] as nat, long)
        }
    }

    open spec fn block_end(bytes: Seq<u8>, pos: int, long: bool) -> int {
        slots_end(bytes, pos + 1, bytes[pos] as nat, long)
    }

    open spec fn block_parsed(bytes: Seq<u8>, pos: int, long: bool, v: Self) -> bool {
        &&& v@.len() == bytes[pos]
        &&& forall|i: int|
            0 <= i < v@.len() ==> U::parsed(
                slot_payload(bytes, slots_end(bytes, pos + 1, i as nat, long), long),
                #[trigger] v@[i],
            )
    }

    fn parse(r: &mut ByteReader, long: bool) -> (res: Result<Self, CodecError>) {
        let ghost b = r.bytes@;
        let ghost start = r.pos as int;
        let n = match r.read_byte() {
            Err(e) => return Err(e),
            Ok(n) => n,
        };
        let mut items: Vec<U> = Vec::new();
        let mut i: usize = 0;
        while i < n as usize
            invariant
                r.wf(),
                r.bytes@ == b,
                start < b.len(),
                b == old(r).bytes@,
                start == old(r).pos,
                n == b[start],
                i <= n,
                r.pos == slots_end(b, start + 1, i as nat, long),
                slots_error::<U>(b, start + 1, i as nat, long) is None,
                items@.len() == i,
                forall|j: int|
                    0 <= j < i ==> U::parsed(
                        slot_payload(b, slots_end(b, start + 1, j as nat, long), long),
                        #[trigger] items@[j],
                    ),
            decreases n - i,
        {
            match U::parse_length_delimited(r, long) {
                Ok(x) => {
                    items.push(x);
                },
                Err(e) => {
                    assert(slots_error::<U>(b, start + 1, (i + 1) as nat, long) == Some(e));
                    proof {
                        lemma_slots_error_stays::<U>(b, start + 1, (i + 1) as nat, n as nat, long);
                    }
                    return Err(e);
                },
            }
            i += 1;
        }
        Ok(items)
    }
}

/// A parameter block whose bytes read back as itself.
pub trait RoundTripParams: SerializeParams + ParseParams {
    /// Wherever the block stands, between any bytes, it reads without error,
    /// ends where its bytes end, and any value read from it has the same bytes.
    proof fn lemma_block_round_trip(&self, before: Seq<u8>, after: Seq<u8>, long: bool)
        requires
            self.fits_spec(long),
        ensures
            ({
                let bytes = before + self.block_wire(long) + after;
                let p = before.len() as int;
                &&& Self::block_error(bytes, p, long) is None
                &&& Self::block_end(bytes, p, long) == p + self.block_wire(long).len()
                &&& forall|w: Self| #[trigger]
                    Self::block_parsed(bytes, p, long, w) ==> w.block_wire(long) == self.block_wire(
                        long,
                    )
            }),
    ;
}

impl RoundTripParams for () {
    proof fn lemma_block_round_trip(&self, before: Seq<u8>, after: Seq<u8>, long: bool) {
        let bytes = before + self.block_wire(long) + after;
        assert(bytes[before.len() as int] == 0u8);
    }
}

/// A parameter's slot placed after `h` reads back without error, ends where
/// its bytes end, and any value read from it has the parameter's bytes.
pub proof fn lemma_slot_value<P: RoundTripParam>(
    bytes: Seq<u8>,
    h: Seq<u8>,
    x: P,
    t: Seq<u8>,
    long: bool,
)
    requires
        x.wire().len() <= max_len(long),
        bytes == h + slot_wire(x.wire(), long) + t,
    ensures
        slot_error::<P>(bytes, h.len() as int, long) is None,
        slot_end(bytes, h.len() as int, long) == h.len() + slot_wire(x.wire(), long).len(),
        forall|w: P|
            #[trigger] P::parsed(slot_payload(bytes, h.len() as int, long), w) ==> w.wire()
                == x.wire(),
{
    x.lemma_round_trip();
    lemma_slot_at(h, x.wire(), long, t);
}

impl<A: RoundTripParam> RoundTripParams for (A,) {
    proof fn lemma_block_round_trip(&self, before: Seq<u8>, after: Seq<u8>, long: bool) {
        let bytes = before + self.block_wire(long) + after;
        let p = before.len() as int;
        let s0 = slot_wire(self.0.wire(), long);
        let h0 = before + seq![1u8];
        let h1 = h0 + s0;
        let t0 = after;
        assert(bytes =~= h0 + s0 + t0);
        assert(bytes[p] == 1u8);
        lemma_slot_value(bytes, h0, self.0, t0, long);
        assert(h1.len() == p + self.block_wire(long).len());
        assert forall|w: Self| #[trigger] Self::block_parsed(bytes, p, long, w) implies w.block_wire(long) == self.block_wire(long) by {
            assert(w.0.wire() == self.0.wire());
        }
    }
}

impl<A: RoundTripParam, B: RoundTripParam> RoundTripParams for (A, B) {
    proof fn lemma_block_round_trip(&self, before: Seq<u8>, after: Seq<u8>, long: bool) {
        let bytes = before + self.block_wire(long) + after;
        let p = before.len() as int;
        let s0 = slot_wire(self.0.wire(), long);
        let s1 = slot_wire(self.1.wire(), long);
        let h0 = before + seq![2u8];
        let h1 = h0 + s0;
        let h2 = h1 + s1;
        let t1 = after;
        let t0 = s1 + t1;
        assert(bytes =~= h0 + s0 + t0);
        assert(bytes[p] == 2u8);
        lemma_slot_value(bytes, h0, self.0, t0, long);
        lemma_concat_associative(h1, s1, t1);
        lemma_slot_value(bytes, h1, self.1, t1, long);
        assert(h2.len() == p + self.block_wire(long).len());
        assert forall|w: Self| #[trigger] Self::block_parsed(bytes, p, long, w) implies w.block_wire(long) == self.block_wire(long) by {
            assert(w.0.wire() == self.0.wire());
            assert(w.1.wire() == self.1.wire());
        }
    }
}

impl<A: RoundTripParam, B: RoundTripParam, C: RoundTripParam> RoundTripParams for (A, B, C) {
    proof fn lemma_block_round_trip(&self, before: Seq<u8>, after: Seq<u8>, long: bool) {
        let bytes = before + self.block_wire(long) + after;
        let p = before.len() as int;
        let s0 = slot_wire(self.0.wire(), long);
        let s1 = slot_wire(self.1.wire(), long);
        let s2 = slot_wire(self.2.wire(), long);
        let h0 = before + seq![3u8];
        let h1 = h0 + s0;
        let h2 = h1 + s1;
        let h3 = h2 + s2;
        let t2 = after;
        let t1 = s2 + t2;
        let t0 = s1 + t1;
        assert(bytes =~= h0 + s0 + t0);
        assert(bytes[p] == 3u8);
        lemma_slot_value(bytes, h0, self.0, t0, long);
        lemma_concat_associative(h1, s1, t1);
        lemma_slot_value(bytes, h1, self.1, t1, long);
        lemma_concat_associative(h2, s2, t2);
        lemma_slot_value(bytes, h2, self.2, t2, long);
        assert(h3.len() == p + self.block_wire(long).len());
        assert forall|w: Self| #[trigger] Self::block_parsed(bytes, p, long, w) implies w.block_wire(long) == self.block_wire(long) by {
            assert(w.0.wire() == self.0.wire());
            assert(w.1.wire() == self.1.wire());
            assert(w.2.wire() == self.2.wire());
        }
    }
}

impl<A: RoundTripParam, B: RoundTripParam, C: RoundTripParam, D: RoundTripParam> RoundTripParams for (A, B, C, D) {
    proof fn lemma_block_round_trip(&self, before: Seq<u8>, after: Seq<u8>, long: bool) {
        let bytes = before + self.block_wire(long) + after;
        let p = before.len() as int;
        let s0 = slot_wire(self.0.wire(), long);
        let s1 = slot_wire(self.1.wire(), long);
        let s2 = slot_wire(self.2.wire(), long);
        let s3 = slot_wire(self.3.wire(), long);
        let h0 = before + seq![4u8];
        let h1 = h0 + s0;
        let h2 = h1 + s1;
        let h3 = h2 + s2;
        let h4 = h3 + s3;
        let t3 = after;
        let t2 = s3 + t3;
        let t1 = s2 + t2;
        let t0 = s1 + t1;
        assert(bytes =~= h0 + s0 + t0);
        assert(bytes[p] == 4u8);
        lemma_slot_value(bytes, h0, self.0, t0, long);
        lemma_concat_associative(h1, s1, t1);
        lemma_slot_value(bytes, h1, self.1, t1, long);
        lemma_concat_associative(h2, s2, t2);
        lemma_slot_value(bytes, h2, self.2, t2, long);
        lemma_concat_associative(h3, s3, t3);
        lemma_slot_value(bytes, h3, self.3, t3, long);
        assert(h4.len() == p + self.block_wire(long).len());
        assert forall|w: Self| #[trigger] Self::block_parsed(bytes, p, long, w) implies w.block_wire(long) == self.block_wire(long) by {
            assert(w.0.wire() == self.0.wire());
            assert(w.1.wire() == self.1.wire());
            assert(w.2.wire() == self.2.wire());
            assert(w.3.wire() == self.3.wire());
        }
    }
}

impl<A: RoundTripParam, B: RoundTripParam, C: RoundTripParam, D: RoundTripParam, E: RoundTripParam> RoundTripParams for (A, B, C, D, E) {
    proof fn lemma_block_round_trip(&self, before: Seq<u8>, after: Seq<u8>, long: bool) {
        let bytes = before + self.block_wire(long) + after;
        let p = before.len() as int;
        let s0 = slot_wire(self.0.wire(), long);
        let s1 = slot_wire(self.1.wire(), long);
        let s2 = slot_wire(self.2.wire(), long);
        let s3 = slot_wire(self.3.wire(), long);
        let s4 = slot_wire(self.4.wire(), long);
        let h0 = before + seq![5u8];
        let h1 = h0 + s0;
        let h2 = h1 + s1;
        let h3 = h2 + s2;
        let h4 = h3 + s3;
        let h5 = h4 + s4;
        let t4 = after;
        let t3 = s4 + t4;
        let t2 = s3 + t3;
        let t1 = s2 + t2;
        let t0 = s1 + t1;
        assert(bytes =~= h0 + s0 + t0);
        assert(bytes[p] == 5u8);
        lemma_slot_value(bytes, h0, self.0, t0, long);
        lemma_concat_associative(h1, s1, t1);
        lemma_slot_value(bytes, h1, self.1, t1, long);
        lemma_concat_associative(h2, s2, t2);
        lemma_slot_value(bytes, h2, self.2, t2, long);
        lemma_concat_associative(h3, s3, t3);
        lemma_slot_value(bytes, h3, self.3, t3, long);
        lemma_concat_associative(h4, s4, t4);
        lemma_slot_value(bytes, h4, self.4, t4, long);
        assert(h5.len() == p + self.block_wire(long).len());
        assert forall|w: Self| #[trigger] Self::block_parsed(bytes, p, long, w) implies w.block_wire(long) == self.block_wire(long) by {
            assert(w.0.wire() == self.0.wire());
            assert(w.1.wire() == self.1.wire());
            assert(w.2.wire() == self.2.wire());
            assert(w.3.wire() == self.3.wire());
            assert(w.4.wire() == self.4.wire());
        }
    }
}

/// The slots of two lists one after the other are the slots of the joined list.
pub proof fn lemma_slots_wire_append<U: SerializeParam>(a: Seq<U>, b: Seq<U>, long: bool)
    ensures
        slots_wire(a + b, long) == slots_wire(a, long) + slots_wire(b, long),
    decreases b.len(),
{
    if b.len() == 0 {
        assert(a + b =~= a);
        assert(slots_wire(a, long) + slots_wire(b, long) =~= slots_wire(a, long));
    } else {
        let d = b.drop_last();
        lemma_slots_wire_append(a, d, long);
        assert((a + b).drop_last() =~= a + d);
        assert((a + b).last() == b.last());
        lemma_concat_associative(slots_wire(a, long), slots_wire(d, long), slot_wire(b.last().wire(), long));
    }
}

/// Lists whose parameters have the same bytes, one by one, have the same slots.
pub proof fn lemma_slots_wire_same<U: SerializeParam>(a: Seq<U>, b: Seq<U>, long: bool)
    requires
        a.len() == b.len(),
        forall|i: int| 0 <= i < a.len() ==> (#[trigger] a[i]).wire() == b[i].wire(),
    ensures
        slots_wire(a, long) == slots_wire(b, long),
    decreases a.len(),
{
    if a.len() > 0 {
        let (da, db) = (a.drop_last(), b.drop_last());
        assert forall|i: int| 0 <= i < da.len() implies (#[trigger] da[i]).wire() == db[i].wire() by {
            assert(da[i] == a[i] && db[i] == b[i]);
        }
        lemma_slots_wire_same(da, db, long);
        assert(a.last() == a[a.len() - 1] && b.last() == b[b.len() - 1]);
    }
}

/// The first `i` slots of a list placed at `p` read back without error, end
/// where their bytes end, and each reads back as a value with the bytes of its
/// parameter.
pub proof fn lemma_list_prefix<U: RoundTripParam>(
    bytes: Seq<u8>,
    p: int,
    s: Seq<U>,
    i: nat,
    long: bool,
)
    requires
        0 <= p,
        p + slots_wire(s, long).len() <= bytes.len(),
        bytes.subrange(p, p + slots_wire(s, long).len()) == slots_wire(s, long),
        forall|j: int| 0 <= j < s.len() ==> (#[trigger] s[j]).wire().len() <= max_len(long),
        i <= s.len(),
    ensures
        slots_end(bytes, p, i, long) == p + slots_wire(s.take(i as int), long).len(),
        slots_error::<U>(bytes, p, i, long) is None,
        forall|j: int, w: U|
            0 <= j < i && #[trigger] U::parsed(
                slot_payload(bytes, slots_end(bytes, p, j as nat, long), long),
                w,
            ) ==> w.wire() == s[j].wire(),
    decreases i,
{
    if i == 0 {
        assert(s.take(0) =~= Seq::<U>::empty());
    } else {
        let k = (i - 1) as nat;
        lemma_list_prefix(bytes, p, s, k, long);
        let q = slots_end(bytes, p, k, long);
        let x = s[k as int];
        let sl = slot_wire(x.wire(), long);
        assert(s.take(i as int).drop_last() =~= s.take(k as int));
        assert(s.take(i as int).last() == x);
        assert(slots_wire(s.take(i as int), long) == slots_wire(s.take(k as int), long) + sl);
        assert(s =~= s.take(i as int) + s.skip(i as int));
        lemma_slots_wire_append(s.take(i as int), s.skip(i as int), long);
        let pre = slots_wire(s.take(k as int), long);
        assert(slots_wire(s, long) == pre + sl + slots_wire(s.skip(i as int), long));
        let whole = slots_wire(s, long);
        assert(bytes.subrange(q, q + sl.len()) =~= whole.subrange(pre.len() as int, pre.len() + sl.len() as int));
        assert(whole.subrange(pre.len() as int, pre.len() + sl.len() as int) =~= sl);
        let h = bytes.take(q);
        let t = bytes.skip(q + sl.len());
        assert(bytes =~= h + sl + t);
        lemma_slot_value(bytes, h, x, t, long);
    }
}

impl<U: RoundTripParam> RoundTripParams for Vec<U> {
    proof fn lemma_block_round_trip(&self, before: Seq<u8>, after: Seq<u8>, long: bool) {
        let bytes = before + self.block_wire(long) + after;
        let p = before.len() as int;
        let n = self@.len();
        let body = slots_wire(self@, long);
        assert(bytes[p] == n as u8);
        assert(bytes.subrange(p + 1, p + 1 + body.len()) =~= body);
        lemma_list_prefix(bytes, p + 1, self@, n, long);
        assert(self@.take(n as int) =~= self@);
        assert forall|w: Self| #[trigger] Self::block_parsed(bytes, p, long, w) implies w.block_wire(
            long,
        ) == self.block_wire(long) by {
            assert forall|j: int| 0 <= j < w@.len() implies (#[trigger] w@[j]).wire()
                == self@[j].wire() by {
                assert(U::parsed(
                    slot_payload(bytes, slots_end(bytes, p + 1, j as nat, long), long),
                    w@[j],
                ));
            }
            lemma_slots_wire_same(w@, self@, long);
        }
    }
}

/// Five bytes are sent as a count of 5 and five one-byte slots, eleven bytes
/// in all, and read back as the same five bytes.
pub proof fn lemma_five_tuple_round_trip(v: (u8, u8, u8, u8, u8))
    ensures
        v.block_wire(false) == seq![5u8, 1u8, v.0, 1u8, v.1, 1u8, v.2, 1u8, v.3, 1u8, v.4],
        <(u8, u8, u8, u8, u8) as ParseParams>::block_error(v.block_wire(false), 0, false) is None,
        <(u8, u8, u8, u8, u8) as ParseParams>::block_end(v.block_wire(false), 0, false) == 11,
        forall|w: (u8, u8, u8, u8, u8)|
            <(u8, u8, u8, u8, u8) as ParseParams>::block_parsed(v.block_wire(false), 0, false, w)
                <==> w == v,
{
    let b = v.block_wire(false);
    assert(b =~= seq![5u8, 1u8, v.0, 1u8, v.1, 1u8, v.2, 1u8, v.3, 1u8, v.4]);
    assert(slot_payload(b, 1, false) =~= seq![v.0]);
    assert(slot_payload(b, 3, false) =~= seq![v.1]);
    assert(slot_payload(b, 5, false) =~= seq![v.2]);
    assert(slot_payload(b, 7, false) =~= seq![v.3]);
    assert(slot_payload(b, 9, false) =~= seq![v.4]);
}

} // verus!
