//! Walking a vector item by item. Each step reads one item and keeps
//! nothing of the items before it.
use crate::molecules::cursor::Cursor;
use crate::molecules::witness::BytesVec;
use molecule::lazy_reader::Error as MoleculeError;
use vstd::prelude::*;

verus! {

/// A walk over the bytes of a fixed vector of bytes.
pub struct ByteIterator<'a> {
    cur: Cursor<'a>,
    index: usize,
    len: usize,
}

impl<'a> ByteIterator<'a> {
    /// The vector that is walked.
    pub closed spec fn cursor(self) -> Cursor<'a> {
        self.cur
    }

    /// The index of the item that the next step reads.
    pub closed spec fn index(self) -> int {
        self.index as int
    }

    /// The count that the vector announced when the walk began.
    pub closed spec fn len(self) -> int {
        self.len as int
    }

    /// Begins a walk at the first byte. Fails when the vector is too short
    /// to hold its count.
    pub fn new(cur: Cursor<'a>) -> (r: Result<Self, MoleculeError>)
        ensures
            match r {
                Ok(it) => it.cursor() == cur && it.index() == 0 && Cursor::number_spec(cur@, 0) == Ok::<
                    usize,
                    MoleculeError,
                >(it.len() as usize),
                Err(e) => Cursor::number_spec(cur@, 0) == Err::<usize, MoleculeError>(e),
            },
    {
        let len = cur.fixvec_length()?;
        Ok(ByteIterator { cur, index: 0, len })
    }

    /// Reads the byte at the walk's index and moves on, or returns `None`
    /// once the index has reached the count. A byte that cannot be read is
    /// returned as its failure, and the walk moves past it.
    pub fn next(&mut self) -> (r: Option<Result<u8, MoleculeError>>)
        ensures
            final(self).cursor() == old(self).cursor(),
            final(self).len() == old(self).len(),
            old(self).index() >= old(self).len() ==> r is None && final(self).index() == old(
                self,
            ).index(),
            old(self).index() < old(self).len() ==> r == Some(
                Cursor::fixvec_byte_spec(old(self).cursor()@, old(self).index() as usize),
            ) && final(self).index() == old(self).index() + 1,
    {
        if self.index >= self.len {
            None
        } else {
            let res = self.cur.fixvec_byte(self.index);
            self.index = self.index + 1;
            Some(res)
        }
    }
}

/// A walk over the items of a vector of vectors of bytes.
pub struct BytesVecIterator<'a> {
    cur: BytesVec<'a>,
    index: usize,
    len: usize,
}

impl<'a> BytesVecIterator<'a> {
    /// The vector that is walked.
    pub closed spec fn cursor(self) -> Cursor<'a> {
        self.cur.cursor
    }

    /// The index of the item that the next step reads.
    pub closed spec fn index(self) -> int {
        self.index as int
    }

    /// The count that the vector announced when the walk began.
    pub closed spec fn len(self) -> int {
        self.len as int
    }

    /// Begins a walk at the first item. Fails when the count of the vector
    /// cannot be read.
    pub fn new(cur: BytesVec<'a>) -> (r: Result<Self, MoleculeError>)
        ensures
            match r {
                Ok(it) => it.cursor() == cur.cursor && it.index() == 0 && Cursor::dynvec_length_spec(
                    cur.cursor@,
                ) == Ok::<usize, MoleculeError>(it.len() as usize),
                Err(e) => Cursor::dynvec_length_spec(cur.cursor@) == Err::<usize, MoleculeError>(e),
            },
    {
        let len = cur.len()?;
        Ok(BytesVecIterator { cur, index: 0, len })
    }

    /// Reads the item at the walk's index and moves on, or returns `None`
    /// once the index has reached the count. An item that cannot be read is
    /// returned as its failure, and the walk moves past it.
    pub fn next(&mut self) -> (r: Option<Result<Cursor<'a>, MoleculeError>>)
        ensures
            final(self).cursor() == old(self).cursor(),
            final(self).len() == old(self).len(),
            old(self).index() >= old(self).len() ==> r is None && final(self).index() == old(
                self,
            ).index(),
            old(self).index() < old(self).len() ==> final(self).index() == old(self).index() + 1 && (r
                matches Some(item) && old(self).cursor().narrows_to(
                item,
                BytesVec::item_spec(old(self).cursor()@, old(self).index()),
            )),
    {
        if self.index >= self.len {
            None
        } else {
            let res = self.cur.get(self.index);
            self.index = self.index + 1;
            Some(res)
        }
    }
}

} // verus!
