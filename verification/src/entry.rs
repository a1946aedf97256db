//! The transition policy: which kind of change a transaction makes to a
//! record, and what each kind must satisfy.
//!
//! The host and the two outside validators are asked by the caller; every
//! function here takes their answers as plain values and decides what
//! follows from them.
use crate::error::{Error, UtilsError};
use crate::molecules::cell_data::DidCkbDataV1;
use crate::molecules::cursor::Cursor;
use crate::molecules::witness::{BytesVec, PlcAuthorization};
use crate::molecules::{new_witness, new_witness_spec};
use ckb_std::error::SysError;
use molecule::lazy_reader::Error as MoleculeError;
use vstd::prelude::*;

verus! {

/// What a transaction does to the record.
#[derive(PartialEq, Eq, Structural, Clone, Copy, Debug)]
pub enum State {
    /// A record is created: there is one among the outputs and none among
    /// the inputs.
    Mint,
    /// A record is changed in place: there is one on both sides.
    Update,
    /// A record is destroyed: there is one among the inputs and none among
    /// the outputs.
    Burn,
    /// There is no record on either side. The validator is never run on such
    /// a transaction.
    Invalid,
}

/// The state that the presence of a record among the inputs and among the
/// outputs puts a transaction in.
pub open spec fn transition(input_present: bool, output_present: bool) -> State {
    if input_present && output_present {
        State::Update
    } else if input_present {
        State::Burn
    } else if output_present {
        State::Mint
    } else {
        State::Invalid
    }
}

/// Classifies a transaction by the presence of a record on each side.
pub fn classify(input_present: bool, output_present: bool) -> (state: State)
    ensures
        state == transition(input_present, output_present),
{
    match (input_present, output_present) {
        (true, true) => State::Update,
        (true, false) => State::Burn,
        (false, true) => State::Mint,
        (false, false) => State::Invalid,
    }
}

/// Whether an empty read at a cell's place shows a cell there: the host
/// either served the read or said that there is more than was asked for.
pub open spec fn cell_is_present(probe: Result<usize, SysError>) -> bool {
    probe is Ok || probe matches Err(SysError::LengthNotEnough(_))
}

/// Whether a cell is there, given the host's answer `probe` to an empty
/// read at its place.
pub fn is_cell_present(probe: Result<usize, SysError>) -> (present: bool)
    ensures
        present == cell_is_present(probe),
{
    match probe {
        Ok(_) => true,
        Err(SysError::LengthNotEnough(_)) => true,
        Err(_) => false,
    }
}

/// Each state has its own row of the table of presences: a transaction is
/// in a state exactly when the record is present on the sides that the state
/// names. So the presences alone decide the state, and classifying the same
/// presences twice gives the same state.
pub proof fn transition_table(input_present: bool, output_present: bool)
    ensures
        transition(input_present, output_present) == State::Mint <==> !input_present && output_present,
        transition(input_present, output_present) == State::Update <==> input_present && output_present,
        transition(input_present, output_present) == State::Burn <==> input_present && !output_present,
        transition(input_present, output_present) == State::Invalid <==> !input_present
            && !output_present,
{
}

/// What a validation starts with: the host's verdict `type_id` on the
/// identity of the governing script comes first, and a refusal ends the
/// validation; after it, the transaction is classified. A validator is run
/// only on a transaction that has a record on one side at least: with none
/// on either side there is nothing to decide, and the caller must not go on.
pub fn entry(type_id: Result<(), SysError>, input_present: bool, output_present: bool) -> (r: Result<
    State,
    Error,
>)
    requires
        type_id is Ok ==> (input_present || output_present),
    ensures
        r == (match type_id {
            Err(e) => Err::<State, Error>(Error::Syscall(e)),
            Ok(_) => Ok(transition(input_present, output_present)),
        }),
        r matches Ok(state) ==> state != State::Invalid,
{
    match type_id {
        Err(e) => Err(Error::Syscall(e)),
        Ok(_) => Ok(classify(input_present, output_present)),
    }
}

/// Destroying a record is always allowed.
pub fn burn() -> (r: Result<(), Error>)
    ensures
        r is Ok,
{
    Ok(())
}

/// The identifier that the record in the table `s` claims.
pub open spec fn local_id_of(s: Seq<u8>) -> Result<Option<Seq<u8>>, Error> {
    match Cursor::optional_bytes_field_spec(s, 1) {
        Err(_) => Err(Error::Molecule),
        Ok(None) => Ok(None),
        Ok(Some((start, len))) => Ok(Some(s.subrange(start, start + len))),
    }
}

/// What creating the record in the table `s` asks for, given the format
/// validator's verdict `format` on its document: a document that the
/// validator refuses, for whatever reason, is an invalid document, and ends
/// the validation; a record that claims no identifier needs nothing more;
/// one that claims an identifier needs an authorization for it.
pub open spec fn mint_claim_spec(s: Seq<u8>, format: Result<(), UtilsError>) -> Result<
    Option<Seq<u8>>,
    Error,
> {
    if Cursor::bytes_field_spec(s, 0) is Err {
        Err(Error::Molecule)
    } else {
        match format {
            Err(_) => Err(Error::InvalidDocumentCbor),
            Ok(_) => local_id_of(s),
        }
    }
}

/// Whether the bytes in `r` are those that `want` names.
pub open spec fn claim_is(r: Result<Option<Vec<u8>>, Error>, want: Result<Option<Seq<u8>>, Error>) -> bool {
    match (r, want) {
        (Ok(None), Ok(None)) => true,
        (Ok(Some(v)), Ok(Some(w))) => v@ == w,
        (Err(e), Err(w)) => e == w,
        _ => false,
    }
}

/// Decides what creating `data` asks for, given the format validator's
/// verdict on its document. `Ok(None)` means that the record may be created
/// as it is; `Ok(Some(id))` means that the claim of `id` has to be
/// authorized first.
pub fn mint_claim(data: &DidCkbDataV1<'_>, format: Result<(), UtilsError>) -> (r: Result<
    Option<Vec<u8>>,
    Error,
>)
    ensures
        claim_is(r, mint_claim_spec(data.cursor@, format)),
{
    if data.document().is_err() {
        return Err(Error::Molecule);
    }
    if format.is_err() {
        return Err(Error::InvalidDocumentCbor);
    }
    match data.local_id() {
        Err(_) => Err(Error::Molecule),
        Ok(None) => Ok(None),
        Ok(Some(local_id)) => Ok(Some(local_id.to_vec())),
    }
}

/// What changing the record in the table `prev` into the one in the table
/// `cur` gives, given the format validator's verdicts on the two documents:
/// both documents must pass, the new one first, and a document that the
/// validator refuses, for whatever reason, is an invalid document, whether
/// or not the identifier stays; the identifier that the record claims must
/// stay what it was, byte for byte; an absent identifier and an empty one
/// are not the same.
pub open spec fn update_spec(
    prev: Seq<u8>,
    cur: Seq<u8>,
    cur_format: Result<(), UtilsError>,
    prev_format: Result<(), UtilsError>,
) -> Result<(), Error> {
    if Cursor::bytes_field_spec(cur, 0) is Err {
        Err(Error::Molecule)
    } else if cur_format is Err {
        Err(Error::InvalidDocumentCbor)
    } else if Cursor::bytes_field_spec(prev, 0) is Err {
        Err(Error::Molecule)
    } else if prev_format is Err {
        Err(Error::InvalidDocumentCbor)
    } else {
        match (local_id_of(prev), local_id_of(cur)) {
            (Ok(before), Ok(after)) => if before == after {
                Ok(())
            } else {
                Err(Error::MismatchedFrom)
            },
            _ => Err(Error::Molecule),
        }
    }
}

/// Decides whether the record `prev` may be changed into `cur`, given the
/// format validator's verdicts on the two documents.
pub fn update(
    prev: &DidCkbDataV1<'_>,
    cur: &DidCkbDataV1<'_>,
    cur_format: Result<(), UtilsError>,
    prev_format: Result<(), UtilsError>,
) -> (r: Result<(), Error>)
    ensures
        r == update_spec(prev.cursor@, cur.cursor@, cur_format, prev_format),
{
    if cur.document().is_err() {
        return Err(Error::Molecule);
    }
    if cur_format.is_err() {
        return Err(Error::InvalidDocumentCbor);
    }
    if prev.document().is_err() {
        return Err(Error::Molecule);
    }
    if prev_format.is_err() {
        return Err(Error::InvalidDocumentCbor);
    }
    let before = match prev.local_id() {
        Ok(id) => id,
        Err(_) => { return Err(Error::Molecule); },
    };
    let after = match cur.local_id() {
        Ok(id) => id,
        Err(_) => { return Err(Error::Molecule); },
    };
    let same = match (before, after) {
        (None, None) => true,
        (Some(a), Some(b)) => a.same_bytes(&b),
        _ => false,
    };
    if same {
        Ok(())
    } else {
        Err(Error::MismatchedFrom)
    }
}

/// What is handed to the history validator: the operations of the
/// history, each as a cursor over its bytes, the signature, and the indices
/// of the signing keys.
pub struct HistoryInputs<'a> {
    pub history: Vec<Cursor<'a>>,
    pub sig: Vec<u8>,
    pub rotation_key_indices: Vec<usize>,
}

/// Whether the authorization in the table `s` can be taken apart: its
/// history must be there with every operation that its header announces,
/// and so must the signature and the key indices.
pub open spec fn authorization_is_readable(s: Seq<u8>) -> bool {
    &&& Cursor::dynvec_slice_spec(s, 0) is Ok
    &&& Cursor::dynvec_length_spec(history_of(s)) matches Ok(count)
    &&& forall|i: int| 0 <= i < count ==> (#[trigger] BytesVec::item_spec(history_of(s), i)) is Ok
    &&& Cursor::bytes_field_spec(s, 1) is Ok
    &&& Cursor::bytes_field_spec(s, 2) is Ok
}

/// The history of the authorization in the table `s`.
pub open spec fn history_of(s: Seq<u8>) -> Seq<u8> {
    let (start, len) = Cursor::dynvec_slice_spec(s, 0)->Ok_0;
    s.subrange(start, start + len)
}

/// The bytes of field `i` of the table `s`.
pub open spec fn bytes_of(s: Seq<u8>, i: int) -> Seq<u8> {
    let (start, len) = Cursor::bytes_field_spec(s, i as usize)->Ok_0;
    s.subrange(start, start + len)
}

/// Where operation `i` of the history lies in the table `s` of an
/// authorization: inside the history, at the place of item `i` of it.
pub open spec fn operation_place(s: Seq<u8>, i: int) -> (int, int) {
    let (start, len) = Cursor::dynvec_slice_spec(s, 0)->Ok_0;
    let (at, count) = BytesVec::item_spec(history_of(s), i)->Ok_0;
    (start + at, count)
}

/// Whether `inputs` is what the authorization holds whose table `s` starts
/// `base` bytes into `outer`: every operation of the history in its order,
/// each the part of `outer` where that operation lies, the signature, and
/// every key index as a number.
pub open spec fn inputs_are<'a>(inputs: HistoryInputs<'a>, outer: Cursor<'a>, base: int, s: Seq<u8>) -> bool {
    &&& Cursor::dynvec_length_spec(history_of(s)) == Ok::<usize, MoleculeError>(
        inputs.history@.len() as usize,
    )
    &&& forall|i: int|
        0 <= i < inputs.history@.len() ==> (#[trigger] inputs.history@[i]).is_part_of(
            outer,
            base + operation_place(s, i).0,
            operation_place(s, i).1,
        )
    &&& forall|i: int|
        0 <= i < inputs.history@.len() ==> (#[trigger] inputs.history@[i])@ == bytes_of(history_of(s), i)
    &&& inputs.sig@ == bytes_of(s, 1)
    &&& inputs.rotation_key_indices@.len() == bytes_of(s, 2).len()
    &&& forall|j: int|
        0 <= j < inputs.rotation_key_indices@.len() ==> (#[trigger] inputs.rotation_key_indices@[j])
            == bytes_of(s, 2)[j]
}

/// Takes an authorization apart into what the history validator is handed.
/// The operations are not copied: each stays a cursor over its bytes, at the
/// place in the authorization where the operation lies.
pub fn authorization_inputs<'a>(auth: &PlcAuthorization<'a>) -> (r: Result<HistoryInputs<'a>, Error>)
    ensures
        r is Ok <==> authorization_is_readable(auth.cursor@),
        r matches Ok(inputs) ==> inputs_are(inputs, auth.cursor, 0, auth.cursor@),
        r matches Err(e) ==> e == Error::Molecule,
{
    let items = match auth.history() {
        Ok(items) => items,
        Err(_) => { return Err(Error::Molecule); },
    };
    assert(items.cursor@ == history_of(auth.cursor@));
    let history = match items.items() {
        Ok(history) => history,
        Err(_) => { return Err(Error::Molecule); },
    };
    assert forall|i: int| 0 <= i < history@.len() implies (#[trigger] history@[i])@ == bytes_of(
        history_of(auth.cursor@),
        i,
    ) && BytesVec::item_spec(history_of(auth.cursor@), i) is Ok && history@[i].is_part_of(
        auth.cursor,
        operation_place(auth.cursor@, i).0,
        operation_place(auth.cursor@, i).1,
    ) by {
        assert(items.cursor.narrows_to(Ok(history@[i]), BytesVec::item_spec(items.cursor@, i)));
        let (start, len) = Cursor::dynvec_slice_spec(auth.cursor@, 0)->Ok_0;
        let (at, count) = BytesVec::item_spec(items.cursor@, i)->Ok_0;
        auth.cursor.part_of_part(items.cursor, history@[i], start, len, at, count);
    }
    let sig = match auth.sig() {
        Ok(sig) => sig.to_vec(),
        Err(_) => { return Err(Error::Molecule); },
    };
    let indices = match auth.rotation_key_indices() {
        Ok(indices) => indices.to_vec(),
        Err(_) => { return Err(Error::Molecule); },
    };
    let rotation_key_indices = widen(&indices);
    Ok(HistoryInputs { history, sig, rotation_key_indices })
}

/// Every byte of `bytes` as a number of the machine's word size.
pub fn widen(bytes: &Vec<u8>) -> (numbers: Vec<usize>)
    ensures
        numbers@.len() == bytes@.len(),
        forall|j: int| 0 <= j < numbers@.len() ==> (#[trigger] numbers@[j]) == bytes@[j],
{
    let mut numbers: Vec<usize> = Vec::new();
    let mut j: usize = 0;
    while j < bytes.len()
        invariant
            j <= bytes@.len(),
            numbers@.len() == j,
            forall|k: int| 0 <= k < j ==> (#[trigger] numbers@[k]) == bytes@[k],
        decreases bytes@.len() - j,
    {
        numbers.push(bytes[j] as usize);
        j = j + 1;
    }
    numbers
}

/// Everything that the history validator is called with: the identifier as
/// it was parsed, the hash of the transaction, which is the message that was
/// signed, and what the authorization holds.
pub struct Authorization<'a, D> {
    pub did: D,
    pub message: [u8; 32],
    pub inputs: HistoryInputs<'a>,
}

/// Where the authorization lies in the witness envelope `s`: inside the
/// witness, which is the third field of the envelope, as its only field.
pub open spec fn authorization_place(s: Seq<u8>) -> (int, int) {
    let (start, len) = new_witness_spec(s)->Ok_0;
    let (at, count) = Cursor::dynvec_slice_spec(s.subrange(start, start + len), 0)->Ok_0;
    (start + at, count)
}

/// The authorization in the witness envelope `s`.
pub open spec fn authorization_of(s: Seq<u8>) -> Seq<u8> {
    s.subrange(authorization_place(s).0, authorization_place(s).0 + authorization_place(s).1)
}

/// Why a claim cannot be put before the history validator, if it cannot:
/// the identifier must have been parsed, the envelope must then hold a
/// sound witness, the authorization in it must be readable, and the host
/// must have given the hash of the transaction; the first of these that
/// fails decides.
pub open spec fn mint_authorization_fault<D>(
    s: Seq<u8>,
    did: Result<D, UtilsError>,
    tx_hash: Result<[u8; 32], SysError>,
) -> Option<Error> {
    if did is Err {
        Some(Error::Utils(did->Err_0))
    } else if new_witness_spec(s) is Err {
        Some(Error::Molecule)
    } else if !authorization_is_readable(authorization_of(s)) {
        Some(Error::Molecule)
    } else if tx_hash is Err {
        Some(Error::Syscall(tx_hash->Err_0))
    } else {
        None
    }
}

/// Prepares the call of the history validator for a record that claims an
/// identifier: takes the parsed identifier `did`, reads the authorization
/// out of the witness envelope that came with the record, and puts both
/// together with the hash of the transaction `tx_hash`. The operations of
/// the history stay where they lie in the envelope.
pub fn mint_authorization<'a, D>(
    envelope: Cursor<'a>,
    did: Result<D, UtilsError>,
    tx_hash: Result<[u8; 32], SysError>,
) -> (r: Result<Authorization<'a, D>, Error>)
    ensures
        match r {
            Ok(a) => {
                &&& mint_authorization_fault(envelope@, did, tx_hash) is None
                &&& did == Ok::<D, UtilsError>(a.did)
                &&& tx_hash == Ok::<[u8; 32], SysError>(a.message)
                &&& inputs_are(
                    a.inputs,
                    envelope,
                    authorization_place(envelope@).0,
                    authorization_of(envelope@),
                )
            },
            Err(e) => mint_authorization_fault(envelope@, did, tx_hash) == Some(e),
        },
{
    let did = match did {
        Ok(did) => did,
        Err(e) => { return Err(Error::Utils(e)); },
    };
    let witness = new_witness(envelope)?;
    let auth = match witness.local_id_authorization() {
        Ok(auth) => auth,
        Err(_) => { return Err(Error::Molecule); },
    };
    proof {
        let (start, len) = new_witness_spec(envelope@)->Ok_0;
        let (at, count) = Cursor::dynvec_slice_spec(witness.cursor@, 0)->Ok_0;
        envelope.part_of_part(witness.cursor, auth.cursor, start, len, at, count);
    }
    let inputs = authorization_inputs(&auth)?;
    proof {
        let (base, size) = authorization_place(envelope@);
        assert forall|i: int| 0 <= i < inputs.history@.len() implies (#[trigger] inputs.history@[i]).is_part_of(
            envelope,
            base + operation_place(auth.cursor@, i).0,
            operation_place(auth.cursor@, i).1,
        ) by {
            envelope.part_of_part(
                auth.cursor,
                inputs.history@[i],
                base,
                size,
                operation_place(auth.cursor@, i).0,
                operation_place(auth.cursor@, i).1,
            );
        }
    }
    let message = match tx_hash {
        Ok(message) => message,
        Err(e) => { return Err(Error::Syscall(e)); },
    };
    Ok(Authorization { did, message, inputs })
}

} // verus!
