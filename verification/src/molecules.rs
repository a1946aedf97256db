//! Decoding of the records the validator reads, and the rules for reading
//! their bytes from the host.
pub mod cell_data;
pub mod cursor;
pub mod iterators;
pub mod laws;
pub mod layout;
pub mod witness;

use crate::error::Error;
use ckb_std::error::SysError;
use layout::is_table;
use vstd::prelude::*;

pub use cell_data::{
    Bytes, BytesIterator, BytesIteratorRef, DidCkbData, DidCkbDataV1, String, StringIterator,
    StringIteratorRef, StringOpt,
};
pub use cursor::{Cursor, Union};
pub use molecule::lazy_reader::Error as MoleculeError;
pub use iterators::{ByteIterator, BytesVecIterator};
pub use witness::{
    BytesOpt, BytesVec, BytesVecIteratorRef, DidCkbWitness, PlcAuthorization, Uint8Vec,
    Uint8VecIterator, Uint8VecIteratorRef, WitnessArgs,
};

verus! {

/// What a read of `buf_len` bytes at `offset` gives, for a source of
/// `total_size` bytes to whose host the read was handed with the answer
/// `loaded`. A read at or past the end is out of bounds. A host that finds
/// the buffer too small has filled it. Any other refusal of the host is
/// reported as an out-of-bounds read of nothing.
pub open spec fn read_data_spec(
    loaded: Result<usize, SysError>,
    buf_len: usize,
    offset: usize,
    total_size: usize,
) -> Result<usize, MoleculeError> {
    if offset >= total_size {
        Err(MoleculeError::OutOfBound(offset, total_size))
    } else {
        match loaded {
            Ok(l) => Ok(l),
            Err(SysError::LengthNotEnough(_)) => Ok(buf_len),
            Err(_) => Err(MoleculeError::OutOfBound(0, 0)),
        }
    }
}

/// How many bytes a read of `buf_len` bytes at `offset` has brought, given
/// the host's answer `loaded` to it.
pub fn read_data(loaded: Result<usize, SysError>, buf_len: usize, offset: usize, total_size: usize) -> (r:
    Result<usize, MoleculeError>)
    ensures
        r == read_data_spec(loaded, buf_len, offset, total_size),
{
    if offset >= total_size {
        return Err(MoleculeError::OutOfBound(offset, total_size));
    }
    match loaded {
        Ok(l) => Ok(l),
        Err(err) => match err {
            SysError::LengthNotEnough(_) => Ok(buf_len),
            _ => Err(MoleculeError::OutOfBound(0, 0)),
        },
    }
}

/// The size of a source, learned from the host's answer to a probe with a
/// buffer that is too small: either the probe brought everything, or the
/// host said how much there is.
pub open spec fn read_size_spec(probe: Result<usize, SysError>) -> Result<usize, MoleculeError> {
    match probe {
        Ok(l) => Ok(l),
        Err(SysError::LengthNotEnough(l)) => Ok(l),
        Err(_) => Err(MoleculeError::OutOfBound(0, 0)),
    }
}

/// The size of a source, given the host's answer `probe` to a short read at
/// its start.
pub fn read_size(probe: Result<usize, SysError>) -> (r: Result<usize, MoleculeError>)
    ensures
        r == read_size_spec(probe),
{
    match probe {
        Ok(l) => Ok(l),
        Err(e) => match e {
            SysError::LengthNotEnough(l) => Ok(l),
            _ => Err(MoleculeError::OutOfBound(0, 0)),
        },
    }
}

/// Whether `cbor4ii` decodes one value from the start of `bytes`.
pub uninterp spec fn cbor_value_decodes(bytes: Seq<u8>) -> bool;

/// `cbor4ii::core::Value::decode` on a `SliceReader` over `doc`: whether it
/// returns a value. The decoder reads from the start of `doc`, stops after
/// one value and looks at nothing else, so the answer depends on the bytes
/// alone.
#[verifier::external_body]
fn decodes_as_cbor(doc: &Vec<u8>) -> (ok: bool)
    ensures
        ok == cbor_value_decodes(doc@),
{
    let mut reader = cbor4ii::core::utils::SliceReader::new(doc);
    <cbor4ii::core::Value as cbor4ii::core::dec::Decode>::decode(&mut reader).is_ok()
}

/// Where the record lies in the bytes of a cell, or why the bytes hold no
/// record: the version tag must be known, and what follows it must be a
/// table of two fields whose first field is a vector of bytes.
pub open spec fn record_spec(s: Seq<u8>) -> Result<(int, int), Error> {
    match DidCkbData::try_from_spec(s) {
        Err(_) => Err(Error::Molecule),
        Ok((start, len)) => {
            let table = s.subrange(start, start + len);
            if !is_table(table, 2) {
                Err(Error::Molecule)
            } else if Cursor::bytes_field_spec(table, 0) is Err {
                Err(Error::Molecule)
            } else {
                Ok((start, len))
            }
        },
    }
}

/// The document of the record in the bytes `s` of a cell.
pub open spec fn document_of(s: Seq<u8>) -> Seq<u8> {
    let (start, len) = DidCkbData::try_from_spec(s)->Ok_0;
    let table = s.subrange(start, start + len);
    let (at, count) = Cursor::bytes_field_spec(table, 0)->Ok_0;
    table.subrange(at, at + count)
}

/// What reading the record of a cell gives, when `document_decodes` says
/// whether the document is well-formed.
pub open spec fn new_data_spec(s: Seq<u8>, document_decodes: bool) -> Result<(int, int), Error> {
    match record_spec(s) {
        Err(e) => Err(e),
        Ok(part) => if document_decodes {
            Ok(part)
        } else {
            Err(Error::InvalidDocumentCbor)
        },
    }
}

/// Whether `r` is the record that lies at `want` in `cursor`, or fails as
/// `want` does.
pub open spec fn record_is<'a>(
    cursor: Cursor<'a>,
    r: Result<DidCkbDataV1<'a>, Error>,
    want: Result<(int, int), Error>,
) -> bool {
    match (r, want) {
        (Ok(data), Ok((start, len))) => data.cursor.is_part_of(cursor, start, len),
        (Err(e), Err(w)) => e == w,
        _ => false,
    }
}

/// Takes the structure of the record in a cell's bytes apart: reads the
/// version tag, checks the table, and finds the document.
pub fn open_data<'a>(cursor: Cursor<'a>) -> (r: Result<(DidCkbDataV1<'a>, Vec<u8>), Error>)
    ensures
        match r {
            Ok((data, doc)) => record_is(cursor, Ok(data), record_spec(cursor@)) && doc@ == document_of(
                cursor@,
            ),
            Err(e) => record_spec(cursor@) == Err::<(int, int), Error>(e),
        },
{
    let data = match DidCkbData::try_from(cursor) {
        Ok(data) => data,
        Err(_) => { return Err(Error::Molecule); },
    };
    if data.verify(false).is_err() {
        return Err(Error::Molecule);
    }
    let DidCkbData::DidCkbDataV1(data) = data;
    let doc = match data.document() {
        Ok(doc) => doc.to_vec(),
        Err(_) => { return Err(Error::Molecule); },
    };
    Ok((data, doc))
}

/// Accepts a record whose structure was found sound when its document is
/// well-formed, and refuses it otherwise.
pub fn accept_document<'a>(data: DidCkbDataV1<'a>, document_decodes: bool) -> (r: Result<
    DidCkbDataV1<'a>,
    Error,
>)
    ensures
        r == (if document_decodes {
            Ok::<DidCkbDataV1<'a>, Error>(data)
        } else {
            Err(Error::InvalidDocumentCbor)
        }),
{
    if document_decodes {
        Ok(data)
    } else {
        Err(Error::InvalidDocumentCbor)
    }
}

/// Reads the record of a cell from the cell's bytes. The record must have a
/// known version, be a table of two fields, and hold a document that is
/// well-formed CBOR.
pub fn new_data<'a>(cursor: Cursor<'a>) -> (r: Result<DidCkbDataV1<'a>, Error>)
    ensures
        record_is(
            cursor,
            r,
            new_data_spec(cursor@, cbor_value_decodes(document_of(cursor@))),
        ),
{
    let (data, doc) = open_data(cursor)?;
    accept_document(data, decodes_as_cbor(&doc))
}

/// Reads the envelope of a witness from the witness's bytes. The envelope
/// must be a table of three fields.
pub fn new_witness_args<'a>(cursor: Cursor<'a>) -> (r: Result<WitnessArgs<'a>, Error>)
    ensures
        r is Ok <==> is_table(cursor@, 3),
        r matches Ok(args) ==> args.cursor == cursor,
        r matches Err(e) ==> e == Error::Molecule,
{
    let witness_args = WitnessArgs { cursor };
    if witness_args.verify(false).is_err() {
        return Err(Error::Molecule);
    }
    Ok(witness_args)
}

/// Where the witness of a record lies in the bytes of a witness envelope:
/// the envelope must be a table of three fields whose third field is
/// present, and the bytes of that field must pass the check of a record's
/// witness.
pub open spec fn new_witness_spec(s: Seq<u8>) -> Result<(int, int), Error> {
    if !is_table(s, 3) {
        Err(Error::Molecule)
    } else {
        match Cursor::optional_bytes_field_spec(s, 2) {
            Ok(Some((start, len))) => if DidCkbWitness::verify_spec(s.subrange(start, start + len), false)
                is Ok {
                Ok((start, len))
            } else {
                Err(Error::Molecule)
            },
            _ => Err(Error::Molecule),
        }
    }
}

/// Reads the witness of a record out of the bytes of the witness envelope
/// that came with the record.
pub fn new_witness<'a>(cursor: Cursor<'a>) -> (r: Result<DidCkbWitness<'a>, Error>)
    ensures
        match r {
            Ok(witness) => new_witness_spec(cursor@) matches Ok((start, len))
                && witness.cursor.is_part_of(cursor, start, len),
            Err(e) => new_witness_spec(cursor@) == Err::<(int, int), Error>(e),
        },
{
    let witness_args = new_witness_args(cursor)?;
    let output_type = match witness_args.output_type() {
        Ok(Some(output_type)) => output_type,
        _ => { return Err(Error::Molecule); },
    };
    let witness = DidCkbWitness { cursor: output_type };
    if witness.verify(false).is_err() {
        return Err(Error::Molecule);
    }
    Ok(witness)
}

} // verus!
