//! What a transaction carries beside its cells: the witness envelope, and
//! in it the authorization to claim an identifier.
use crate::molecules::cursor::Cursor;
use crate::molecules::iterators::ByteIterator;
use crate::molecules::layout::{is_dynvec, is_fixvec, is_table, is_table_from, item_count};
use molecule::lazy_reader::Error as MoleculeError;
use vstd::prelude::*;
use vstd::std_specs::convert::FromSpecImpl;

pub use crate::molecules::cell_data::{Bytes, BytesIterator, BytesIteratorRef};
pub use crate::molecules::iterators::BytesVecIterator;

verus! {

/// A vector of small numbers, one byte each.
#[derive(Clone, Copy)]
pub struct Uint8Vec<'a> {
    pub cursor: Cursor<'a>,
}

impl<'a> From<Cursor<'a>> for Uint8Vec<'a> {
    fn from(cursor: Cursor<'a>) -> (r: Self) {
        Self { cursor }
    }
}

impl<'a> FromSpecImpl<Cursor<'a>> for Uint8Vec<'a> {
    open spec fn obeys_from_spec() -> bool {
        true
    }

    open spec fn from_spec(cursor: Cursor<'a>) -> Self {
        Self { cursor }
    }
}

impl<'a> Uint8Vec<'a> {
    /// How many numbers the vector announces.
    pub fn len(&self) -> (r: Result<usize, MoleculeError>)
        ensures
            r == Cursor::number_spec(self.cursor@, 0),
    {
        self.cursor.fixvec_length()
    }

    /// Number `index` of the vector.
    pub fn get(&self, index: usize) -> (r: Result<u8, MoleculeError>)
        ensures
            r == Cursor::fixvec_byte_spec(self.cursor@, index),
    {
        self.cursor.fixvec_byte(index)
    }

    /// Begins a walk over the numbers of the vector.
    pub fn iter(&self) -> (r: Result<ByteIterator<'a>, MoleculeError>)
        ensures
            match r {
                Ok(it) => it.cursor() == self.cursor && it.index() == 0 && Cursor::number_spec(self.cursor@, 0) == Ok::<usize, MoleculeError>(it.len() as usize),
                Err(e) => Cursor::number_spec(self.cursor@, 0) == Err::<usize, MoleculeError>(e),
            },
    {
        ByteIterator::new(self.cursor)
    }

    /// Begins a walk over the numbers of the vector, giving the vector up.
    pub fn into_iter(self) -> (r: Result<ByteIterator<'a>, MoleculeError>)
        ensures
            match r {
                Ok(it) => it.cursor() == self.cursor && it.index() == 0 && Cursor::number_spec(self.cursor@, 0) == Ok::<usize, MoleculeError>(it.len() as usize),
                Err(e) => Cursor::number_spec(self.cursor@, 0) == Err::<usize, MoleculeError>(e),
            },
    {
        ByteIterator::new(self.cursor)
    }

    /// Checks that the vector is its count followed by that many bytes.
    pub fn verify(&self, _compatible: bool) -> (r: Result<(), MoleculeError>)
        ensures
            r is Ok <==> is_fixvec(self.cursor@, 1),
            r matches Err(e) ==> e == Cursor::fixvec_fault(self.cursor@, 1),
    {
        self.cursor.verify_fixvec(1)
    }
}

/// A walk over a vector of small numbers that was given up for it.
pub type Uint8VecIterator<'a> = ByteIterator<'a>;

/// A walk over a vector of small numbers.
pub type Uint8VecIteratorRef<'a> = ByteIterator<'a>;

/// A walk over a vector of vectors of bytes.
pub type BytesVecIteratorRef<'a> = BytesVecIterator<'a>;

/// A vector of vectors of bytes.
#[derive(Clone, Copy)]
pub struct BytesVec<'a> {
    pub cursor: Cursor<'a>,
}

impl<'a> From<Cursor<'a>> for BytesVec<'a> {
    fn from(cursor: Cursor<'a>) -> (r: Self) {
        Self { cursor }
    }
}

impl<'a> FromSpecImpl<Cursor<'a>> for BytesVec<'a> {
    open spec fn obeys_from_spec() -> bool {
        true
    }

    open spec fn from_spec(cursor: Cursor<'a>) -> Self {
        Self { cursor }
    }
}

impl<'a> BytesVec<'a> {
    /// How many items the vector holds.
    pub fn len(&self) -> (r: Result<usize, MoleculeError>)
        ensures
            r == Cursor::dynvec_length_spec(self.cursor@),
            r matches Ok(n) ==> n == item_count(self.cursor@),
    {
        self.cursor.dynvec_length()
    }

    /// The bytes of item `index`.
    pub fn get(&self, index: usize) -> (r: Result<Cursor<'a>, MoleculeError>)
        ensures
            self.cursor.narrows_to(r, Cursor::bytes_field_spec(self.cursor@, index)),
    {
        self.cursor.bytes_field(index)
    }

    /// Where the bytes of item `i` lie.
    pub open spec fn item_spec(s: Seq<u8>, i: int) -> Result<(int, int), MoleculeError> {
        Cursor::bytes_field_spec(s, i as usize)
    }

    /// Whether `e` is the failure of the first thing that cannot be read of
    /// the vector `s`: its length, or else its first faulty item.
    pub open spec fn first_fault(s: Seq<u8>, e: MoleculeError) -> bool {
        match Cursor::dynvec_length_spec(s) {
            Err(w) => e == w,
            Ok(count) => exists|i: int|
                {
                    &&& 0 <= i < count
                    &&& #[trigger] Self::item_spec(s, i) == Err::<(int, int), MoleculeError>(e)
                    &&& forall|k: int| 0 <= k < i ==> (#[trigger] Self::item_spec(s, k)) is Ok
                },
        }
    }

    /// The bytes of every item, in order, each as a cursor. Fails with the
    /// failure of the first item that cannot be read.
    pub fn items(&self) -> (r: Result<Vec<Cursor<'a>>, MoleculeError>)
        ensures
            match r {
                Ok(v) => {
                    &&& Cursor::dynvec_length_spec(self.cursor@) == Ok::<usize, MoleculeError>(
                        v@.len() as usize,
                    )
                    &&& forall|i: int|
                        0 <= i < v@.len() ==> self.cursor.narrows_to(
                            Ok(v@[i]),
                            #[trigger] Self::item_spec(self.cursor@, i),
                        )
                },
                Err(e) => Self::first_fault(self.cursor@, e),
            },
    {
        let count = self.len()?;
        let mut v: Vec<Cursor<'a>> = Vec::new();
        let mut i: usize = 0;
        while i < count
            invariant
                i <= count,
                Cursor::dynvec_length_spec(self.cursor@) == Ok::<usize, MoleculeError>(count),
                v@.len() == i,
                forall|k: int|
                    0 <= k < i ==> self.cursor.narrows_to(
                        Ok(v@[k]),
                        #[trigger] Self::item_spec(self.cursor@, k),
                    ),
            decreases count - i,
        {
            let item = match self.get(i) {
                Ok(item) => item,
                Err(e) => {
                    assert(Self::item_spec(self.cursor@, i as int) == Err::<(int, int), MoleculeError>(e));
                    return Err(e);
                },
            };
            assert(self.cursor.narrows_to(Ok(item), Self::item_spec(self.cursor@, i as int)));
            v.push(item);
            i = i + 1;
        }
        Ok(v)
    }

    /// Begins a walk over the items of the vector.
    pub fn iter(&self) -> (r: Result<BytesVecIterator<'a>, MoleculeError>)
        ensures
            match r {
                Ok(it) => it.cursor() == self.cursor && it.index() == 0 && Cursor::dynvec_length_spec(
                    self.cursor@,
                ) == Ok::<usize, MoleculeError>(it.len() as usize),
                Err(e) => Cursor::dynvec_length_spec(self.cursor@) == Err::<usize, MoleculeError>(e),
            },
    {
        BytesVecIterator::new(*self)
    }

    /// Begins a walk over the items of the vector, giving the vector up.
    pub fn into_iter(self) -> (r: Result<BytesVecIterator<'a>, MoleculeError>)
        ensures
            match r {
                Ok(it) => it.cursor() == self.cursor && it.index() == 0 && Cursor::dynvec_length_spec(
                    self.cursor@,
                ) == Ok::<usize, MoleculeError>(it.len() as usize),
                Err(e) => Cursor::dynvec_length_spec(self.cursor@) == Err::<usize, MoleculeError>(e),
            },
    {
        BytesVecIterator::new(self)
    }

    /// Checks the header of the vector, without reading an item.
    pub fn verify(&self, _compatible: bool) -> (r: Result<(), MoleculeError>)
        ensures
            r is Ok <==> is_dynvec(self.cursor@),
            r matches Err(e) ==> e == Cursor::dynvec_fault(self.cursor@),
    {
        self.cursor.verify_dynvec()
    }
}

/// The authorization to claim an identifier: the history of operations on
/// it, a signature, and the indices of the keys that made the signature.
#[derive(Clone, Copy)]
pub struct PlcAuthorization<'a> {
    pub cursor: Cursor<'a>,
}

impl<'a> From<Cursor<'a>> for PlcAuthorization<'a> {
    fn from(cursor: Cursor<'a>) -> (r: Self) {
        PlcAuthorization { cursor }
    }
}

impl<'a> FromSpecImpl<Cursor<'a>> for PlcAuthorization<'a> {
    open spec fn obeys_from_spec() -> bool {
        true
    }

    open spec fn from_spec(cursor: Cursor<'a>) -> Self {
        PlcAuthorization { cursor }
    }
}

impl<'a> PlcAuthorization<'a> {
    /// The history of operations, the first field.
    pub fn history(&self) -> (r: Result<BytesVec<'a>, MoleculeError>)
        ensures
            match r {
                Ok(v) => self.cursor.narrows_to(Ok(v.cursor), Cursor::dynvec_slice_spec(self.cursor@, 0)),
                Err(e) => Cursor::dynvec_slice_spec(self.cursor@, 0) == Err::<(int, int), MoleculeError>(e),
            },
    {
        let cur = self.cursor.table_slice_by_index(0)?;
        Ok(BytesVec { cursor: cur })
    }

    /// The bytes of the signature, the second field.
    pub fn sig(&self) -> (r: Result<Cursor<'a>, MoleculeError>)
        ensures
            self.cursor.narrows_to(r, Cursor::bytes_field_spec(self.cursor@, 1)),
    {
        self.cursor.bytes_field(1)
    }

    /// The indices of the signing keys, one byte each, the third field.
    pub fn rotation_key_indices(&self) -> (r: Result<Cursor<'a>, MoleculeError>)
        ensures
            self.cursor.narrows_to(r, Cursor::bytes_field_spec(self.cursor@, 2)),
    {
        self.cursor.bytes_field(2)
    }

    /// What checking an authorization gives: it must be a table of three
    /// fields, and its history a dynamic vector.
    pub open spec fn verify_spec(s: Seq<u8>, compatible: bool) -> Result<(), MoleculeError> {
        if !(if compatible {
            is_table_from(s, 3)
        } else {
            is_table(s, 3)
        }) {
            Err(Cursor::dynvec_fault(s))
        } else {
            match Cursor::dynvec_slice_spec(s, 0) {
                Err(e) => Err(e),
                Ok((start, len)) => if is_dynvec(s.subrange(start, start + len)) {
                    Ok(())
                } else {
                    Err(Cursor::dynvec_fault(s.subrange(start, start + len)))
                },
            }
        }
    }

    /// Checks the table and the header of the history in it.
    pub fn verify(&self, compatible: bool) -> (r: Result<(), MoleculeError>)
        ensures
            r == Self::verify_spec(self.cursor@, compatible),
    {
        self.cursor.verify_table(3, compatible)?;
        self.history()?.verify(compatible)?;
        Ok(())
    }
}

/// What the witness of a record holds: the authorization to claim the
/// record's identifier.
#[derive(Clone, Copy)]
pub struct DidCkbWitness<'a> {
    pub cursor: Cursor<'a>,
}

impl<'a> From<Cursor<'a>> for DidCkbWitness<'a> {
    fn from(cursor: Cursor<'a>) -> (r: Self) {
        DidCkbWitness { cursor }
    }
}

impl<'a> FromSpecImpl<Cursor<'a>> for DidCkbWitness<'a> {
    open spec fn obeys_from_spec() -> bool {
        true
    }

    open spec fn from_spec(cursor: Cursor<'a>) -> Self {
        DidCkbWitness { cursor }
    }
}

impl<'a> DidCkbWitness<'a> {
    /// The authorization, the only field.
    pub fn local_id_authorization(&self) -> (r: Result<PlcAuthorization<'a>, MoleculeError>)
        ensures
            match r {
                Ok(v) => self.cursor.narrows_to(Ok(v.cursor), Cursor::dynvec_slice_spec(self.cursor@, 0)),
                Err(e) => Cursor::dynvec_slice_spec(self.cursor@, 0) == Err::<(int, int), MoleculeError>(e),
            },
    {
        let cur = self.cursor.table_slice_by_index(0)?;
        Ok(PlcAuthorization { cursor: cur })
    }

    /// What checking a witness gives: it must be a table of one field, and
    /// that field an authorization that passes its own check.
    pub open spec fn verify_spec(s: Seq<u8>, compatible: bool) -> Result<(), MoleculeError> {
        if !(if compatible {
            is_table_from(s, 1)
        } else {
            is_table(s, 1)
        }) {
            Err(Cursor::dynvec_fault(s))
        } else {
            match Cursor::dynvec_slice_spec(s, 0) {
                Err(e) => Err(e),
                Ok((start, len)) => PlcAuthorization::verify_spec(
                    s.subrange(start, start + len),
                    compatible,
                ),
            }
        }
    }

    /// Checks the table and the authorization in it.
    pub fn verify(&self, compatible: bool) -> (r: Result<(), MoleculeError>)
        ensures
            r == Self::verify_spec(self.cursor@, compatible),
    {
        self.cursor.verify_table(1, compatible)?;
        self.local_id_authorization()?.verify(compatible)?;
        Ok(())
    }
}

/// Bytes that may be absent; an empty range stands for the absent ones.
pub struct BytesOpt<'a> {
    pub cursor: Cursor<'a>,
}

impl<'a> From<Cursor<'a>> for BytesOpt<'a> {
    fn from(cursor: Cursor<'a>) -> (r: Self) {
        Self { cursor }
    }
}

impl<'a> FromSpecImpl<Cursor<'a>> for BytesOpt<'a> {
    open spec fn obeys_from_spec() -> bool {
        true
    }

    open spec fn from_spec(cursor: Cursor<'a>) -> Self {
        Self { cursor }
    }
}

/// The envelope of a transaction's witness: three optional fields.
#[derive(Clone, Copy)]
pub struct WitnessArgs<'a> {
    pub cursor: Cursor<'a>,
}

impl<'a> From<Cursor<'a>> for WitnessArgs<'a> {
    fn from(cursor: Cursor<'a>) -> (r: Self) {
        WitnessArgs { cursor }
    }
}

impl<'a> FromSpecImpl<Cursor<'a>> for WitnessArgs<'a> {
    open spec fn obeys_from_spec() -> bool {
        true
    }

    open spec fn from_spec(cursor: Cursor<'a>) -> Self {
        WitnessArgs { cursor }
    }
}

impl<'a> WitnessArgs<'a> {
    /// The bytes for the lock script, the first field, when present.
    pub fn lock(&self) -> (r: Result<Option<Cursor<'a>>, MoleculeError>)
        ensures
            self.cursor.narrows_to_optional(r, Cursor::optional_bytes_field_spec(self.cursor@, 0)),
    {
        self.cursor.optional_bytes_field(0)
    }

    /// The bytes for the type script of an input, the second field, when
    /// present.
    pub fn input_type(&self) -> (r: Result<Option<Cursor<'a>>, MoleculeError>)
        ensures
            self.cursor.narrows_to_optional(r, Cursor::optional_bytes_field_spec(self.cursor@, 1)),
    {
        self.cursor.optional_bytes_field(1)
    }

    /// The bytes for the type script of an output, the third field, when
    /// present.
    pub fn output_type(&self) -> (r: Result<Option<Cursor<'a>>, MoleculeError>)
        ensures
            self.cursor.narrows_to_optional(r, Cursor::optional_bytes_field_spec(self.cursor@, 2)),
    {
        self.cursor.optional_bytes_field(2)
    }

    /// Checks that the envelope is a table of three fields, or of at least
    /// three when `compatible` is set.
    pub fn verify(&self, compatible: bool) -> (r: Result<(), MoleculeError>)
        ensures
            r is Ok <==> if compatible {
                is_table_from(self.cursor@, 3)
            } else {
                is_table(self.cursor@, 3)
            },
            r matches Err(e) ==> e == Cursor::dynvec_fault(self.cursor@),
    {
        self.cursor.verify_table(3, compatible)
    }
}

} // verus!
