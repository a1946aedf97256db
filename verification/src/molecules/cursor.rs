//! A cursor names a range of bytes of one record without copying them.
//!
//! Moving through a record makes new cursors over the same bytes; the bytes
//! of a field are copied only when the field is asked for as an owned value.
use crate::molecules::layout::{
    is_dynvec, is_fixvec, is_table, is_table_from, item_count, item_end, item_start, number_at,
    NUMBER_SIZE,
};
use molecule::lazy_reader::Error as MoleculeError;
use vstd::prelude::*;
use vstd::slice::{slice_subrange, slice_to_vec};

verus! {

/// The range `[offset, offset + size)` of the bytes of one record.
#[derive(Clone, Copy)]
pub struct Cursor<'a> {
    data: &'a [u8],
    offset: usize,
    size: usize,
}

/// The tag of a union and the cursor over what follows the tag.
pub struct Union<'a> {
    pub item_id: usize,
    pub cursor: Cursor<'a>,
}

impl<'a> View for Cursor<'a> {
    type V = Seq<u8>;

    /// The bytes in the cursor's range.
    open spec fn view(&self) -> Seq<u8> {
        self.source().subrange(self.spec_offset(), self.spec_offset() + self.spec_size())
    }
}

impl<'a> Cursor<'a> {
    #[verifier::type_invariant]
    spec fn inv(self) -> bool {
        self.wf()
    }

    /// All the bytes of the record that the cursor looks into.
    pub closed spec fn source(self) -> Seq<u8> {
        self.data@
    }

    /// Where the cursor's range starts in the record.
    pub closed spec fn spec_offset(self) -> int {
        self.offset as int
    }

    /// How many bytes the cursor's range holds.
    pub closed spec fn spec_size(self) -> int {
        self.size as int
    }

    /// The range lies within the record. Every cursor that exists at run time
    /// is well-formed.
    pub open spec fn wf(self) -> bool {
        self.spec_offset() + self.spec_size() <= self.source().len() <= usize::MAX
    }

    /// Whether `self` is the part of `outer` that starts `start` bytes into it
    /// and is `len` bytes long: a range of the same record, within the range
    /// of `outer`.
    pub open spec fn is_part_of(self, outer: Cursor<'a>, start: int, len: int) -> bool {
        &&& self.wf()
        &&& outer.wf()
        &&& 0 <= start
        &&& 0 <= len
        &&& start + len <= outer.spec_size()
        &&& self.source() == outer.source()
        &&& self.spec_offset() == outer.spec_offset() + start
        &&& self.spec_size() == len
        &&& self@ == outer@.subrange(start, start + len)
    }

    /// Whether `r` is the part of `self` that `want` names, or fails as `want`
    /// does.
    pub open spec fn narrows_to(
        self,
        r: Result<Cursor<'a>, MoleculeError>,
        want: Result<(int, int), MoleculeError>,
    ) -> bool {
        match (r, want) {
            (Ok(c), Ok((start, len))) => c.is_part_of(self, start, len),
            (Err(e), Err(w)) => e == w,
            _ => false,
        }
    }

    /// A cursor over all of `data`.
    pub fn new(data: &'a [u8]) -> (c: Cursor<'a>)
        ensures
            c.wf(),
            c.source() == data@,
            c.spec_offset() == 0,
            c@ == data@,
    {
        let c = Cursor { data, offset: 0, size: data.len() };
        assert(c@ =~= data@);
        c
    }

    /// Where the range starts in the record.
    pub fn offset(&self) -> (n: usize)
        ensures
            n == self.spec_offset(),
    {
        self.offset
    }

    /// How many bytes the range holds.
    pub fn size(&self) -> (n: usize)
        ensures
            n == self.spec_size(),
            n == self@.len(),
    {
        proof {
            use_type_invariant(self);
        }
        self.size
    }

    /// The part of `self` from `start` on, `len` bytes long.
    pub open spec fn slice_by_offset_spec(s: Seq<u8>, start: usize, len: usize) -> Result<
        (int, int),
        MoleculeError,
    > {
        if start + len > s.len() {
            Err(MoleculeError::TotalSize(start, len))
        } else {
            Ok((start as int, len as int))
        }
    }

    /// The part of the range that starts `start` bytes into it and is `len`
    /// bytes long. Fails when that part does not lie within the range.
    pub fn slice_by_offset(&self, start: usize, len: usize) -> (r: Result<
        Cursor<'a>,
        MoleculeError,
    >)
        ensures
            self.narrows_to(r, Self::slice_by_offset_spec(self@, start, len)),
    {
        proof {
            use_type_invariant(self);
        }
        if start > self.size || len > self.size - start {
            return Err(MoleculeError::TotalSize(start, len));
        }
        let c = Cursor { data: self.data, offset: self.offset + start, size: len };
        assert(c@ =~= self@.subrange(start as int, start + len));
        Ok(c)
    }

    /// What skipping `delta` bytes gives.
    pub open spec fn slice_by_start_spec(s: Seq<u8>, delta: usize) -> Result<
        (int, int),
        MoleculeError,
    > {
        if delta > s.len() {
            Err(MoleculeError::Overflow)
        } else {
            Ok((delta as int, s.len() - delta))
        }
    }

    /// The range without its first `delta` bytes. Fails when the range is
    /// shorter than that.
    pub fn slice_by_start(&self, delta: usize) -> (r: Result<Cursor<'a>, MoleculeError>)
        ensures
            self.narrows_to(r, Self::slice_by_start_spec(self@, delta)),
    {
        proof {
            use_type_invariant(self);
        }
        if delta > self.size {
            return Err(MoleculeError::Overflow);
        }
        let c = Cursor { data: self.data, offset: self.offset + delta, size: self.size - delta };
        assert(c@ =~= self@.subrange(delta as int, delta + (self@.len() - delta)));
        Ok(c)
    }

    /// Whether the range is empty, which is how an absent optional field
    /// is written.
    pub fn option_is_none(&self) -> (none: bool)
        ensures
            none <==> self@.len() == 0,
    {
        proof {
            use_type_invariant(self);
        }
        self.size == 0
    }

    /// The bytes of the range, copied out.
    pub fn to_vec(&self) -> (bytes: Vec<u8>)
        ensures
            bytes@ == self@,
    {
        proof {
            use_type_invariant(self);
        }
        slice_to_vec(slice_subrange(self.data, self.offset, self.offset + self.size))
    }

    /// The number at `at`, or how short the range falls.
    pub open spec fn number_spec(s: Seq<u8>, at: int) -> Result<usize, MoleculeError> {
        if at + 4 <= s.len() {
            Ok(number_at(s, at) as usize)
        } else if at <= s.len() {
            Err(MoleculeError::FieldCount((s.len() - at) as usize))
        } else {
            Err(MoleculeError::FieldCount(0))
        }
    }

    /// The number spelled by the four bytes that start `at` bytes into the
    /// range. Fails with the count of bytes that are there when they are
    /// fewer than four.
    pub fn number(&self, at: usize) -> (r: Result<usize, MoleculeError>)
        ensures
            r == Self::number_spec(self@, at as int),
            r matches Ok(n) ==> n == number_at(self@, at as int),
    {
        proof {
            use_type_invariant(self);
        }
        if at > self.size {
            return Err(MoleculeError::FieldCount(0));
        }
        if self.size - at < NUMBER_SIZE {
            return Err(MoleculeError::FieldCount(self.size - at));
        }
        let base: usize = self.offset + at;
        let b0: u64 = self.data[base] as u64;
        let b1: u64 = self.data[base + 1] as u64;
        let b2: u64 = self.data[base + 2] as u64;
        let b3: u64 = self.data[base + 3] as u64;
        let n: u64 = b0 + b1 * 0x100 + b2 * 0x1_0000 + b3 * 0x100_0000;
        assert(self@[at as int] == self.data@[base as int]);
        assert(self@[at + 1] == self.data@[base + 1]);
        assert(self@[at + 2] == self.data@[base + 2]);
        assert(self@[at + 3] == self.data@[base + 3]);
        Ok(n as usize)
    }

    /// The number that the first four bytes of the range spell.
    pub fn unpack_number(&self) -> (r: Result<usize, MoleculeError>)
        ensures
            r == Self::number_spec(self@, 0),
    {
        self.number(0)
    }

    /// The single byte of a range, which is its first byte. Fails on an
    /// empty range.
    pub fn read_u8(&self) -> (r: Result<u8, MoleculeError>)
        ensures
            r == (if self@.len() == 0 {
                Err::<u8, MoleculeError>(MoleculeError::FieldCount(1))
            } else {
                Ok(self@[0])
            }),
    {
        proof {
            use_type_invariant(self);
        }
        if self.size == 0 {
            return Err(MoleculeError::FieldCount(1));
        }
        assert(self@[0] == self.data@[self.offset as int]);
        Ok(self.data[self.offset])
    }

    /// The tag of a union and what follows it.
    pub fn union_unpack(&self) -> (r: Result<Union<'a>, MoleculeError>)
        ensures
            match r {
                Ok(u) => Self::number_spec(self@, 0) == Ok::<usize, MoleculeError>(u.item_id)
                    && u.cursor.is_part_of(*self, 4, self@.len() - 4),
                Err(e) => Self::number_spec(self@, 0) == Err::<usize, MoleculeError>(e),
            },
    {
        let item_id = self.unpack_number()?;
        let cursor = self.slice_by_start(NUMBER_SIZE)?;
        Ok(Union { item_id, cursor })
    }

    /// How many items a fixed vector announces.
    pub fn fixvec_length(&self) -> (r: Result<usize, MoleculeError>)
        ensures
            r == Self::number_spec(self@, 0),
    {
        self.unpack_number()
    }

    /// Where item `i` of a fixed vector of `item_size`-byte items lies: past
    /// the count and the `i` items before it. Fails when the vector
    /// announces no such item, or is too short to hold it.
    pub open spec fn fixvec_slice_spec(s: Seq<u8>, item_size: usize, i: usize) -> Result<
        (int, int),
        MoleculeError,
    > {
        match Self::number_spec(s, 0) {
            Err(e) => Err(e),
            Ok(count) => if i >= count {
                Err(MoleculeError::OutOfBound(i, count))
            } else if item_size * i + 4 > usize::MAX {
                Err(MoleculeError::Overflow)
            } else {
                Self::slice_by_offset_spec(s, (item_size * i + 4) as usize, item_size)
            },
        }
    }

    /// Item `i` of a fixed vector whose items are `item_size` bytes each.
    pub fn fixvec_slice_by_index(&self, item_size: usize, i: usize) -> (r: Result<
        Cursor<'a>,
        MoleculeError,
    >)
        ensures
            self.narrows_to(r, Self::fixvec_slice_spec(self@, item_size, i)),
    {
        let count = self.unpack_number()?;
        if i >= count {
            return Err(MoleculeError::OutOfBound(i, count));
        }
        let start = match item_size.checked_mul(i) {
            None => { return Err(MoleculeError::Overflow); },
            Some(before) => match before.checked_add(NUMBER_SIZE) {
                None => { return Err(MoleculeError::Overflow); },
                Some(start) => start,
            },
        };
        self.slice_by_offset(start, item_size)
    }

    /// Where the items of a fixed vector of bytes lie: past the count, as
    /// many bytes as the count says.
    pub open spec fn rawbytes_spec(s: Seq<u8>) -> Result<(int, int), MoleculeError> {
        match Self::number_spec(s, 0) {
            Err(e) => Err(e),
            Ok(count) => Self::slice_by_offset_spec(s, 4, count),
        }
    }

    /// The items of a fixed vector of bytes, without the count.
    pub fn convert_to_rawbytes(&self) -> (r: Result<Cursor<'a>, MoleculeError>)
        ensures
            self.narrows_to(r, Self::rawbytes_spec(self@)),
    {
        let count = self.unpack_number()?;
        self.slice_by_offset(NUMBER_SIZE, count)
    }

    /// How many items the first offset of a dynamic vector announces. Fails
    /// when the offset is not a whole count of header numbers.
    pub open spec fn item_count_spec(s: Seq<u8>) -> Result<usize, MoleculeError> {
        match Self::number_spec(s, 4) {
            Err(e) => Err(e),
            Ok(first) => if first % 4 != 0 || first / 4 == 0 {
                Err(MoleculeError::UnknownItem)
            } else {
                Ok((first / 4 - 1) as usize)
            },
        }
    }

    fn item_count(&self) -> (r: Result<usize, MoleculeError>)
        ensures
            r == Self::item_count_spec(self@),
            r matches Ok(n) ==> n == item_count(self@) && self@.len() >= 8 && n <= 0x3fff_ffff,
    {
        let first = self.number(NUMBER_SIZE)?;
        if first % NUMBER_SIZE != 0 || first / NUMBER_SIZE == 0 {
            return Err(MoleculeError::UnknownItem);
        }
        Ok(first / NUMBER_SIZE - 1)
    }

    /// How many items a dynamic vector holds: none when it is its length
    /// alone, else what its first offset announces.
    pub open spec fn dynvec_length_spec(s: Seq<u8>) -> Result<usize, MoleculeError> {
        if s.len() == 4 {
            Ok(0)
        } else if s.len() < 4 {
            Err(MoleculeError::Overflow)
        } else {
            Self::item_count_spec(s)
        }
    }

    /// How many items a dynamic vector holds.
    pub fn dynvec_length(&self) -> (r: Result<usize, MoleculeError>)
        ensures
            r == Self::dynvec_length_spec(self@),
            r matches Ok(n) ==> n == item_count(self@),
    {
        proof {
            use_type_invariant(self);
        }
        if self.size == NUMBER_SIZE {
            Ok(0)
        } else if self.size < NUMBER_SIZE {
            Err(MoleculeError::Overflow)
        } else {
            self.item_count()
        }
    }

    /// Where item `i` of a dynamic vector lies: from its own offset to the
    /// next item's offset, or to the declared length for the last item.
    /// Fails when the header announces no such item, when the item would end
    /// before it starts, and when it would reach past the declared length or
    /// past the range.
    pub open spec fn dynvec_slice_spec(s: Seq<u8>, i: usize) -> Result<(int, int), MoleculeError> {
        match (Self::number_spec(s, 0), Self::item_count_spec(s)) {
            (Err(e), _) => Err(e),
            (_, Err(e)) => Err(e),
            (Ok(total), Ok(count)) => if i >= count {
                Err(MoleculeError::OutOfBound(i, count))
            } else {
                let end = if i + 1 == count {
                    Ok(total)
                } else {
                    Self::number_spec(s, 8 + 4 * i)
                };
                match (Self::number_spec(s, 4 + 4 * i), end) {
                    (Err(e), _) => Err(e),
                    (_, Err(e)) => Err(e),
                    (Ok(start), Ok(end)) => if end < start {
                        Err(MoleculeError::Overflow)
                    } else if end > total || end > s.len() {
                        Err(MoleculeError::TotalSize(start, (end - start) as usize))
                    } else {
                        Ok((start as int, end - start))
                    },
                }
            },
        }
    }

    /// Item `i` of a dynamic vector.
    pub fn dynvec_slice_by_index(&self, i: usize) -> (r: Result<Cursor<'a>, MoleculeError>)
        ensures
            self.narrows_to(r, Self::dynvec_slice_spec(self@, i)),
            r matches Ok(c) ==> c.is_part_of(
                *self,
                item_start(self@, i as int) as int,
                item_end(self@, i as int) - item_start(self@, i as int),
            ),
    {
        let total = self.unpack_number()?;
        let count = self.item_count()?;
        if i >= count {
            return Err(MoleculeError::OutOfBound(i, count));
        }
        let start = self.number(NUMBER_SIZE * (i + 1))?;
        let end = if i + 1 == count {
            total
        } else {
            self.number(NUMBER_SIZE * (i + 2))?
        };
        if end < start {
            return Err(MoleculeError::Overflow);
        }
        if end > total || end > self.size() {
            return Err(MoleculeError::TotalSize(start, end - start));
        }
        self.slice_by_offset(start, end - start)
    }

    /// Field `i` of a table.
    pub fn table_slice_by_index(&self, i: usize) -> (r: Result<Cursor<'a>, MoleculeError>)
        ensures
            self.narrows_to(r, Self::dynvec_slice_spec(self@, i)),
            r matches Ok(c) ==> c.is_part_of(
                *self,
                item_start(self@, i as int) as int,
                item_end(self@, i as int) - item_start(self@, i as int),
            ),
    {
        self.dynvec_slice_by_index(i)
    }

    /// Why a range that is no fixed vector is refused: its length cannot be
    /// computed, or is not the length of the range.
    pub open spec fn fixvec_fault(s: Seq<u8>, item_size: usize) -> MoleculeError {
        if s.len() >= 4 && number_at(s, 0) != 0 && item_size * number_at(s, 0) + 4 > usize::MAX {
            MoleculeError::Overflow
        } else {
            MoleculeError::Verify
        }
    }

    /// Checks that the range is a fixed vector of `item_size`-byte items: the
    /// count, and then exactly that many items.
    pub fn verify_fixvec(&self, item_size: usize) -> (r: Result<(), MoleculeError>)
        ensures
            r is Ok <==> is_fixvec(self@, item_size as nat),
            r matches Err(e) ==> e == Self::fixvec_fault(self@, item_size),
    {
        if self.size() < NUMBER_SIZE {
            return Err(MoleculeError::Verify);
        }
        let count = self.unpack_number()?;
        if count == 0 {
            assert(number_at(self@, 0) * (item_size as nat) == 0) by (nonlinear_arith)
                requires
                    number_at(self@, 0) == 0,
            ;
            if self.size() == NUMBER_SIZE {
                return Ok(());
            } else {
                return Err(MoleculeError::Verify);
            }
        }
        assert(item_size * count == count * item_size) by (nonlinear_arith);
        let len = self.size();
        let total = match item_size.checked_mul(count) {
            None => { return Err(MoleculeError::Overflow); },
            Some(items) => match items.checked_add(NUMBER_SIZE) {
                None => { return Err(MoleculeError::Overflow); },
                Some(total) => total,
            },
        };
        if len == total {
            Ok(())
        } else {
            Err(MoleculeError::Verify)
        }
    }

    /// Why a range that is no dynamic vector is refused: it is too short to
    /// hold a length, or its header is not consistent.
    pub open spec fn dynvec_fault(s: Seq<u8>) -> MoleculeError {
        if s.len() < 4 {
            MoleculeError::FieldCount(s.len() as usize)
        } else {
            MoleculeError::Verify
        }
    }

    /// Checks the header of a dynamic vector: the declared length is the
    /// length of the range, the offsets fill the space before the first item,
    /// and no item ends before it starts or after the vector does. Reads the
    /// header only, never an item.
    pub fn verify_dynvec(&self) -> (r: Result<(), MoleculeError>)
        ensures
            r is Ok <==> is_dynvec(self@),
            r matches Err(e) ==> e == Self::dynvec_fault(self@),
    {
        let total = self.unpack_number()?;
        if self.size() != total {
            return Err(MoleculeError::Verify);
        }
        if total == NUMBER_SIZE {
            return Ok(());
        }
        if total < NUMBER_SIZE * 2 {
            return Err(MoleculeError::Verify);
        }
        let first = self.number(NUMBER_SIZE)?;
        if first % NUMBER_SIZE != 0 || first < NUMBER_SIZE * 2 {
            return Err(MoleculeError::Verify);
        }
        if total < first {
            return Err(MoleculeError::Verify);
        }
        let count: usize = first / NUMBER_SIZE - 1;
        let mut last: usize = first;
        let mut k: usize = 1;
        while k < count
            invariant
                1 <= k <= count,
                count == item_count(self@),
                count >= 1,
                4 * (count + 1) == first,
                first <= total,
                total == self@.len(),
                total == number_at(self@, 0),
                self@.len() >= 8,
                last == item_start(self@, k - 1),
                forall|i: int| 0 <= i < k - 1 ==> item_start(self@, i) <= #[trigger] item_end(self@, i),
            decreases count - k,
        {
            let next = self.number(NUMBER_SIZE * (k + 1))?;
            if last > next {
                proof {
                    assert(item_end(self@, k - 1) == next);
                }
                return Err(MoleculeError::Verify);
            }
            proof {
                assert(item_end(self@, k - 1) == next);
            }
            last = next;
            k = k + 1;
        }
        if last > total {
            proof {
                assert(item_end(self@, count - 1) == total);
            }
            return Err(MoleculeError::Verify);
        }
        proof {
            assert(item_end(self@, count - 1) == total);
        }
        Ok(())
    }

    /// Checks that the range is a table of `fields` fields, or, when
    /// `compatible` is set, of at least that many.
    pub fn verify_table(&self, fields: usize, compatible: bool) -> (r: Result<(), MoleculeError>)
        ensures
            r is Ok <==> if compatible {
                is_table_from(self@, fields as nat)
            } else {
                is_table(self@, fields as nat)
            },
            r matches Err(e) ==> e == Self::dynvec_fault(self@),
    {
        self.verify_dynvec()?;
        if self.size() == NUMBER_SIZE {
            if fields == 0 {
                return Ok(());
            } else {
                return Err(MoleculeError::Verify);
            }
        }
        let first = self.number(NUMBER_SIZE)?;
        let count: usize = first / NUMBER_SIZE - 1;
        if count < fields || !compatible && count > fields {
            return Err(MoleculeError::Verify);
        }
        Ok(())
    }

    /// Byte `i` of a fixed vector of bytes.
    pub open spec fn fixvec_byte_spec(s: Seq<u8>, i: usize) -> Result<u8, MoleculeError> {
        match Self::fixvec_slice_spec(s, 1, i) {
            Err(e) => Err(e),
            Ok((start, len)) => Ok(s[start]),
        }
    }

    /// Byte `i` of a fixed vector of bytes.
    pub fn fixvec_byte(&self, i: usize) -> (r: Result<u8, MoleculeError>)
        ensures
            r == Self::fixvec_byte_spec(self@, i),
    {
        let item = self.fixvec_slice_by_index(1, i)?;
        item.read_u8()
    }

    /// Where the bytes of field `i` of a table lie, when that field is a
    /// fixed vector of bytes: inside the field, past its count.
    pub open spec fn bytes_field_spec(s: Seq<u8>, i: usize) -> Result<(int, int), MoleculeError> {
        match Self::dynvec_slice_spec(s, i) {
            Err(e) => Err(e),
            Ok((start, len)) => match Self::rawbytes_spec(s.subrange(start, start + len)) {
                Err(e) => Err(e),
                Ok((at, count)) => Ok((start + at, count)),
            },
        }
    }

    /// The bytes of field `i` of a table, when that field is a fixed vector
    /// of bytes.
    pub fn bytes_field(&self, i: usize) -> (r: Result<Cursor<'a>, MoleculeError>)
        ensures
            self.narrows_to(r, Self::bytes_field_spec(self@, i)),
    {
        let field = self.table_slice_by_index(i)?;
        let bytes = field.convert_to_rawbytes()?;
        proof {
            use_type_invariant(self);
            let (start, len) = Self::dynvec_slice_spec(self@, i)->Ok_0;
            let (at, count) = Self::rawbytes_spec(field@)->Ok_0;
            self.part_of_part(field, bytes, start, len, at, count);
        }
        Ok(bytes)
    }

    /// Where the bytes of field `i` of a table lie, when that field is an
    /// optional fixed vector of bytes: nowhere when the field is empty.
    pub open spec fn optional_bytes_field_spec(s: Seq<u8>, i: usize) -> Result<
        Option<(int, int)>,
        MoleculeError,
    > {
        match Self::dynvec_slice_spec(s, i) {
            Err(e) => Err(e),
            Ok((start, len)) => if len == 0 {
                Ok(None)
            } else {
                match Self::rawbytes_spec(s.subrange(start, start + len)) {
                    Err(e) => Err(e),
                    Ok((at, count)) => Ok(Some((start + at, count))),
                }
            },
        }
    }

    /// Whether `r` is the optional part of `self` that `want` names, or fails
    /// as `want` does.
    pub open spec fn narrows_to_optional(
        self,
        r: Result<Option<Cursor<'a>>, MoleculeError>,
        want: Result<Option<(int, int)>, MoleculeError>,
    ) -> bool {
        match (r, want) {
            (Ok(None), Ok(None)) => true,
            (Ok(Some(c)), Ok(Some((start, len)))) => c.is_part_of(self, start, len),
            (Err(e), Err(w)) => e == w,
            _ => false,
        }
    }

    /// The bytes of field `i` of a table, when that field is an optional
    /// fixed vector of bytes; `None` when the field is empty.
    pub fn optional_bytes_field(&self, i: usize) -> (r: Result<Option<Cursor<'a>>, MoleculeError>)
        ensures
            self.narrows_to_optional(r, Self::optional_bytes_field_spec(self@, i)),
    {
        let field = self.table_slice_by_index(i)?;
        if field.option_is_none() {
            Ok(None)
        } else {
            let bytes = field.convert_to_rawbytes()?;
            proof {
                use_type_invariant(self);
                let (start, len) = Self::dynvec_slice_spec(self@, i)->Ok_0;
                let (at, count) = Self::rawbytes_spec(field@)->Ok_0;
                self.part_of_part(field, bytes, start, len, at, count);
            }
            Ok(Some(bytes))
        }
    }

    /// A part of a part of a cursor is a part of the cursor.
    pub proof fn part_of_part(
        self,
        middle: Cursor<'a>,
        inner: Cursor<'a>,
        start: int,
        len: int,
        at: int,
        count: int,
    )
        requires
            middle.is_part_of(self, start, len),
            inner.is_part_of(middle, at, count),
        ensures
            inner.is_part_of(self, start + at, count),
    {
        assert(inner@ =~= self@.subrange(start + at, start + at + count));
    }

    /// Whether two ranges hold the same bytes.
    pub fn same_bytes(&self, other: &Cursor<'_>) -> (same: bool)
        ensures
            same <==> self@ == other@,
    {
        proof {
            use_type_invariant(self);
            use_type_invariant(other);
        }
        if self.size != other.size {
            return false;
        }
        let mut i: usize = 0;
        while i < self.size
            invariant
                self.wf(),
                other.wf(),
                self.size == other.size,
                i <= self.size,
                forall|k: int| 0 <= k < i ==> self@[k] == other@[k],
            decreases self.size - i,
        {
            assert(self@[i as int] == self.data@[self.offset + i]);
            assert(other@[i as int] == other.data@[other.offset + i]);
            if self.data[self.offset + i] != other.data[other.offset + i] {
                return false;
            }
            i = i + 1;
        }
        assert(self@ =~= other@);
        true
    }
}

} // verus!
