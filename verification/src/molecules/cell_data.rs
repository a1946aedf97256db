//! The record kept in a cell: a document and, optionally, the identifier
//! that the cell claims.
use crate::molecules::cursor::Cursor;
use crate::molecules::iterators::ByteIterator;
use crate::molecules::layout::{is_fixvec, is_table, is_table_from};
use molecule::lazy_reader::Error as MoleculeError;
use vstd::prelude::*;
use vstd::std_specs::convert::FromSpecImpl;

verus! {

/// A vector of bytes.
#[derive(Clone, Copy)]
pub struct Bytes<'a> {
    pub cursor: Cursor<'a>,
}

impl<'a> From<Cursor<'a>> for Bytes<'a> {
    fn from(cursor: Cursor<'a>) -> (r: Self) {
        Self { cursor }
    }
}

impl<'a> FromSpecImpl<Cursor<'a>> for Bytes<'a> {
    open spec fn obeys_from_spec() -> bool {
        true
    }

    open spec fn from_spec(cursor: Cursor<'a>) -> Self {
        Self { cursor }
    }
}

impl<'a> Bytes<'a> {
    /// How many bytes the vector announces.
    pub fn len(&self) -> (r: Result<usize, MoleculeError>)
        ensures
            r == Cursor::number_spec(self.cursor@, 0),
    {
        self.cursor.fixvec_length()
    }

    /// Byte `index` of the vector.
    pub fn get(&self, index: usize) -> (r: Result<u8, MoleculeError>)
        ensures
            r == Cursor::fixvec_byte_spec(self.cursor@, index),
    {
        self.cursor.fixvec_byte(index)
    }

    /// Begins a walk over the bytes of the vector.
    pub fn iter(&self) -> (r: Result<ByteIterator<'a>, MoleculeError>)
        ensures
            match r {
                Ok(it) => it.cursor() == self.cursor && it.index() == 0 && Cursor::number_spec(self.cursor@, 0) == Ok::<usize, MoleculeError>(it.len() as usize),
                Err(e) => Cursor::number_spec(self.cursor@, 0) == Err::<usize, MoleculeError>(e),
            },
    {
        ByteIterator::new(self.cursor)
    }

    /// Begins a walk over the bytes of the vector, giving the vector up.
    pub fn into_iter(self) -> (r: Result<ByteIterator<'a>, MoleculeError>)
        ensures
            match r {
                Ok(it) => it.cursor() == self.cursor && it.index() == 0 && Cursor::number_spec(self.cursor@, 0) == Ok::<usize, MoleculeError>(it.len() as usize),
                Err(e) => Cursor::number_spec(self.cursor@, 0) == Err::<usize, MoleculeError>(e),
            },
    {
        ByteIterator::new(self.cursor)
    }

    /// Checks that the vector is its count followed by that many bytes.
    pub fn verify(&self, _compatible: bool) -> (r: Result<(), MoleculeError>)
        ensures
            r is Ok <==> is_fixvec(self.cursor@, 1),
            r matches Err(e) ==> e == Cursor::fixvec_fault(self.cursor@, 1),
    {
        self.cursor.verify_fixvec(1)
    }
}

/// A walk over a vector of bytes that was given up for it.
pub type BytesIterator<'a> = ByteIterator<'a>;

/// A walk over a vector of bytes.
pub type BytesIteratorRef<'a> = ByteIterator<'a>;

/// A string, kept as a vector of bytes.
#[derive(Clone, Copy)]
pub struct String<'a> {
    pub cursor: Cursor<'a>,
}

impl<'a> From<Cursor<'a>> for String<'a> {
    fn from(cursor: Cursor<'a>) -> (r: Self) {
        Self { cursor }
    }
}

impl<'a> FromSpecImpl<Cursor<'a>> for String<'a> {
    open spec fn obeys_from_spec() -> bool {
        true
    }

    open spec fn from_spec(cursor: Cursor<'a>) -> Self {
        Self { cursor }
    }
}

impl<'a> String<'a> {
    /// How many bytes the string announces.
    pub fn len(&self) -> (r: Result<usize, MoleculeError>)
        ensures
            r == Cursor::number_spec(self.cursor@, 0),
    {
        self.cursor.fixvec_length()
    }

    /// Byte `index` of the string.
    pub fn get(&self, index: usize) -> (r: Result<u8, MoleculeError>)
        ensures
            r == Cursor::fixvec_byte_spec(self.cursor@, index),
    {
        self.cursor.fixvec_byte(index)
    }

    /// Begins a walk over the bytes of the string.
    pub fn iter(&self) -> (r: Result<ByteIterator<'a>, MoleculeError>)
        ensures
            match r {
                Ok(it) => it.cursor() == self.cursor && it.index() == 0 && Cursor::number_spec(self.cursor@, 0) == Ok::<usize, MoleculeError>(it.len() as usize),
                Err(e) => Cursor::number_spec(self.cursor@, 0) == Err::<usize, MoleculeError>(e),
            },
    {
        ByteIterator::new(self.cursor)
    }

    /// Begins a walk over the bytes of the string, giving the vector up.
    pub fn into_iter(self) -> (r: Result<ByteIterator<'a>, MoleculeError>)
        ensures
            match r {
                Ok(it) => it.cursor() == self.cursor && it.index() == 0 && Cursor::number_spec(self.cursor@, 0) == Ok::<usize, MoleculeError>(it.len() as usize),
                Err(e) => Cursor::number_spec(self.cursor@, 0) == Err::<usize, MoleculeError>(e),
            },
    {
        ByteIterator::new(self.cursor)
    }

    /// Checks that the string is its count followed by that many bytes.
    pub fn verify(&self, _compatible: bool) -> (r: Result<(), MoleculeError>)
        ensures
            r is Ok <==> is_fixvec(self.cursor@, 1),
            r matches Err(e) ==> e == Cursor::fixvec_fault(self.cursor@, 1),
    {
        self.cursor.verify_fixvec(1)
    }
}

/// A walk over the bytes of a string that was given up for it.
pub type StringIterator<'a> = ByteIterator<'a>;

/// A walk over the bytes of a string.
pub type StringIteratorRef<'a> = ByteIterator<'a>;

/// A string that may be absent; an empty range stands for the absent one.
pub struct StringOpt<'a> {
    pub cursor: Cursor<'a>,
}

impl<'a> From<Cursor<'a>> for StringOpt<'a> {
    fn from(cursor: Cursor<'a>) -> (r: Self) {
        Self { cursor }
    }
}

impl<'a> FromSpecImpl<Cursor<'a>> for StringOpt<'a> {
    open spec fn obeys_from_spec() -> bool {
        true
    }

    open spec fn from_spec(cursor: Cursor<'a>) -> Self {
        Self { cursor }
    }
}

/// The first version of the record: a table of the document and the
/// optional identifier.
#[derive(Clone, Copy)]
pub struct DidCkbDataV1<'a> {
    pub cursor: Cursor<'a>,
}

impl<'a> From<Cursor<'a>> for DidCkbDataV1<'a> {
    fn from(cursor: Cursor<'a>) -> (r: Self) {
        DidCkbDataV1 { cursor }
    }
}

impl<'a> FromSpecImpl<Cursor<'a>> for DidCkbDataV1<'a> {
    open spec fn obeys_from_spec() -> bool {
        true
    }

    open spec fn from_spec(cursor: Cursor<'a>) -> Self {
        DidCkbDataV1 { cursor }
    }
}

impl<'a> DidCkbDataV1<'a> {
    /// The bytes of the document, the first field.
    pub fn document(&self) -> (r: Result<Cursor<'a>, MoleculeError>)
        ensures
            self.cursor.narrows_to(r, Cursor::bytes_field_spec(self.cursor@, 0)),
    {
        self.cursor.bytes_field(0)
    }

    /// The bytes of the identifier that the record claims, the second field;
    /// `None` when the record claims none.
    pub fn local_id(&self) -> (r: Result<Option<Cursor<'a>>, MoleculeError>)
        ensures
            self.cursor.narrows_to_optional(r, Cursor::optional_bytes_field_spec(self.cursor@, 1)),
    {
        self.cursor.optional_bytes_field(1)
    }

    /// Checks that the record is a table of two fields, or of at least two
    /// when `compatible` is set.
    pub fn verify(&self, compatible: bool) -> (r: Result<(), MoleculeError>)
        ensures
            r is Ok <==> if compatible {
                is_table_from(self.cursor@, 2)
            } else {
                is_table(self.cursor@, 2)
            },
            r matches Err(e) ==> e == Cursor::dynvec_fault(self.cursor@),
    {
        self.cursor.verify_table(2, compatible)
    }
}

/// The record of a cell, in whichever version it was written.
pub enum DidCkbData<'a> {
    DidCkbDataV1(DidCkbDataV1<'a>),
}

impl<'a> DidCkbData<'a> {
    /// Where the record lies in a versioned range: past a tag, which must be
    /// that of the first version.
    pub open spec fn try_from_spec(s: Seq<u8>) -> Result<(int, int), MoleculeError> {
        match Cursor::number_spec(s, 0) {
            Err(e) => Err(e),
            Ok(tag) => if tag == 0 {
                Ok((4, s.len() - 4))
            } else {
                Err(MoleculeError::UnknownItem)
            },
        }
    }

    /// The cursor over the record, whatever its version.
    pub open spec fn inner(self) -> Cursor<'a> {
        match self {
            DidCkbData::DidCkbDataV1(v) => v.cursor,
        }
    }

    /// Reads the version tag of `cur` and takes what follows it as the record
    /// of that version. Fails on a tag of no known version.
    pub fn try_from(cur: Cursor<'a>) -> (r: Result<Self, MoleculeError>)
        ensures
            match r {
                Ok(data) => cur.narrows_to(Ok(data.inner()), Self::try_from_spec(cur@)),
                Err(e) => Self::try_from_spec(cur@) == Err::<(int, int), MoleculeError>(e),
            },
    {
        let item = cur.union_unpack()?;
        match item.item_id {
            0usize => Ok(Self::DidCkbDataV1(DidCkbDataV1 { cursor: item.cursor })),
            _ => Err(MoleculeError::UnknownItem),
        }
    }

    /// Checks the record of whichever version this is.
    pub fn verify(&self, compatible: bool) -> (r: Result<(), MoleculeError>)
        ensures
            r is Ok <==> if compatible {
                is_table_from(self.inner()@, 2)
            } else {
                is_table(self.inner()@, 2)
            },
            r matches Err(e) ==> e == Cursor::dynvec_fault(self.inner()@),
    {
        match self {
            Self::DidCkbDataV1(v) => {
                v.verify(compatible)?;
                Ok(())
            },
        }
    }
}

} // verus!
