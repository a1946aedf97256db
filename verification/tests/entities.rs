use did_ckb_ts::molecules::{
    new_data, new_witness, new_witness_args, open_data, accept_document, Bytes, BytesVec, Cursor,
    DidCkbData, DidCkbDataV1, DidCkbWitness, MoleculeError, PlcAuthorization, String, Uint8Vec,
    WitnessArgs,
};
use did_ckb_ts::Error;

fn number(n: u32) -> Vec<u8> {
    n.to_le_bytes().to_vec()
}

fn counted(items: &[u8]) -> Vec<u8> {
    let mut out = number(items.len() as u32);
    out.extend_from_slice(items);
    out
}

fn optional(items: Option<&[u8]>) -> Vec<u8> {
    match items {
        None => Vec::new(),
        Some(items) => counted(items),
    }
}

fn table_of(fields: &[Vec<u8>]) -> Vec<u8> {
    let header = 4 * (fields.len() + 1);
    let total: usize = header + fields.iter().map(|f| f.len()).sum::<usize>();
    let mut out = number(total as u32);
    let mut at = header;
    for field in fields {
        out.extend_from_slice(&number(at as u32));
        at += field.len();
    }
    for field in fields {
        out.extend_from_slice(field);
    }
    out
}

fn record(document: &[u8], local_id: Option<&[u8]>) -> Vec<u8> {
    table_of(&[counted(document), optional(local_id)])
}

fn cell(document: &[u8], local_id: Option<&[u8]>) -> Vec<u8> {
    let mut out = number(0);
    out.extend_from_slice(&record(document, local_id));
    out
}

fn authorization(history: &[&[u8]], sig: &[u8], indices: &[u8]) -> Vec<u8> {
    let operations: Vec<Vec<u8>> = history.iter().map(|op| counted(op)).collect();
    table_of(&[table_of(&operations), counted(sig), counted(indices)])
}

fn envelope(output_type: Option<&[u8]>) -> Vec<u8> {
    table_of(&[optional(None), optional(None), optional(output_type)])
}

const DOCUMENT: [u8; 4] = [0xa1, 0x61, 0x61, 0x01];

#[test]
fn a_record_without_identifier_reads_back() {
    let bytes = record(&DOCUMENT, None);
    let data = DidCkbDataV1::from(Cursor::new(&bytes));
    assert!(data.verify(false).is_ok());
    assert_eq!(data.document().unwrap().to_vec(), DOCUMENT.to_vec());
    assert!(data.local_id().unwrap().is_none());
}

#[test]
fn a_record_with_identifier_reads_back() {
    let id = b"did:plc:yunkr6vorfgzmvzeoofbkhq5";
    let bytes = record(&DOCUMENT, Some(id));
    let data = DidCkbDataV1::from(Cursor::new(&bytes));
    assert!(data.verify(false).is_ok());
    assert_eq!(data.document().unwrap().to_vec(), DOCUMENT.to_vec());
    assert_eq!(data.local_id().unwrap().unwrap().to_vec(), id.to_vec());
}

#[test]
fn a_record_with_an_empty_identifier_reads_back() {
    let bytes = record(&[], Some(&[]));
    let data = DidCkbDataV1::from(Cursor::new(&bytes));
    assert!(data.verify(false).is_ok());
    assert_eq!(data.document().unwrap().size(), 0);
    let id = data.local_id().unwrap();
    assert!(id.is_some());
    assert_eq!(id.unwrap().size(), 0);
}

#[test]
fn a_record_has_two_fields() {
    let three = table_of(&[counted(&DOCUMENT), optional(None), counted(&[1])]);
    let data = DidCkbDataV1::from(Cursor::new(&three));
    assert!(matches!(data.verify(false), Err(MoleculeError::Verify)));
    assert!(data.verify(true).is_ok());
    let one = table_of(&[counted(&DOCUMENT)]);
    let data = DidCkbDataV1::from(Cursor::new(&one));
    assert!(matches!(data.verify(false), Err(MoleculeError::Verify)));
    assert!(matches!(data.verify(true), Err(MoleculeError::Verify)));
    assert!(matches!(data.local_id(), Err(MoleculeError::OutOfBound(1, 1))));
}

#[test]
fn the_version_of_a_record_must_be_known() {
    let bytes = cell(&DOCUMENT, None);
    let data = DidCkbData::try_from(Cursor::new(&bytes)).unwrap();
    assert!(data.verify(false).is_ok());
    let DidCkbData::DidCkbDataV1(v1) = data;
    assert_eq!(v1.cursor.offset(), 4);
    assert_eq!(v1.cursor.size(), bytes.len() - 4);
    let mut unknown = number(1);
    unknown.extend_from_slice(&record(&DOCUMENT, None));
    assert!(matches!(
        DidCkbData::try_from(Cursor::new(&unknown)),
        Err(MoleculeError::UnknownItem)
    ));
    let short = [0u8, 0, 0];
    assert!(matches!(
        DidCkbData::try_from(Cursor::new(&short)),
        Err(MoleculeError::FieldCount(3))
    ));
}

#[test]
fn bytes_and_strings_are_counted_vectors() {
    let raw = counted(b"abc");
    let bytes = Bytes::from(Cursor::new(&raw));
    assert!(bytes.verify(false).is_ok());
    assert_eq!(bytes.len().unwrap(), 3);
    assert_eq!(bytes.get(0).unwrap(), b'a');
    assert_eq!(bytes.get(2).unwrap(), b'c');
    assert!(matches!(bytes.get(3), Err(MoleculeError::OutOfBound(3, 3))));
    let string = String::from(Cursor::new(&raw));
    assert!(string.verify(false).is_ok());
    assert_eq!(string.len().unwrap(), 3);
    assert_eq!(string.get(1).unwrap(), b'b');
    assert!(matches!(string.get(3), Err(MoleculeError::OutOfBound(3, 3))));
    let numbers = Uint8Vec::from(Cursor::new(&raw));
    assert!(numbers.verify(true).is_ok());
    assert_eq!(numbers.len().unwrap(), 3);
    assert_eq!(numbers.get(2).unwrap(), b'c');
    assert!(matches!(numbers.get(4), Err(MoleculeError::OutOfBound(4, 3))));
}

#[test]
fn a_walk_over_bytes_visits_each_byte_once() {
    let raw = counted(&[7, 8, 9]);
    let bytes = Bytes::from(Cursor::new(&raw));
    let mut walk = bytes.iter().unwrap();
    let mut seen = Vec::new();
    while let Some(item) = walk.next() {
        seen.push(item.unwrap());
    }
    assert_eq!(seen, vec![7, 8, 9]);
    assert!(walk.next().is_none());
    let mut walk = String::from(Cursor::new(&raw)).into_iter().unwrap();
    assert_eq!(walk.next().unwrap().unwrap(), 7);
    let mut walk = Uint8Vec::from(Cursor::new(&raw)).iter().unwrap();
    assert_eq!(walk.next().unwrap().unwrap(), 7);
    assert_eq!(walk.next().unwrap().unwrap(), 8);
}

#[test]
fn a_walk_over_a_truncated_vector_reports_the_missing_bytes() {
    let mut raw = number(3);
    raw.push(1);
    let mut walk = Bytes::from(Cursor::new(&raw)).iter().unwrap();
    assert_eq!(walk.next().unwrap().unwrap(), 1);
    assert!(matches!(walk.next(), Some(Err(MoleculeError::TotalSize(5, 1)))));
    assert!(matches!(walk.next(), Some(Err(MoleculeError::TotalSize(6, 1)))));
    assert!(walk.next().is_none());
    let short = [1u8];
    assert!(matches!(
        Bytes::from(Cursor::new(&short)).iter().err(),
        Some(MoleculeError::FieldCount(1))
    ));
}

#[test]
fn a_vector_of_byte_vectors_gives_each_item() {
    let raw = table_of(&[counted(b"one"), counted(b""), counted(b"three")]);
    let items = BytesVec::from(Cursor::new(&raw));
    assert!(items.verify(false).is_ok());
    assert_eq!(items.len().unwrap(), 3);
    assert_eq!(items.get(0).unwrap().to_vec(), b"one".to_vec());
    assert_eq!(items.get(1).unwrap().size(), 0);
    assert_eq!(items.get(2).unwrap().to_vec(), b"three".to_vec());
    assert!(matches!(items.get(3), Err(MoleculeError::OutOfBound(3, 3))));
    let all = items.items().unwrap();
    assert_eq!(all.len(), 3);
    assert_eq!(all[2].to_vec(), b"three".to_vec());
    let mut walk = items.iter().unwrap();
    let mut seen = Vec::new();
    while let Some(item) = walk.next() {
        seen.push(item.unwrap().to_vec());
    }
    assert_eq!(seen, vec![b"one".to_vec(), b"".to_vec(), b"three".to_vec()]);
    let mut walk = items.into_iter().unwrap();
    assert_eq!(walk.next().unwrap().unwrap().to_vec(), b"one".to_vec());
}

#[test]
fn a_faulty_item_stops_the_collection_of_items() {
    // the second item is no counted vector: it is empty
    let raw = table_of(&[counted(b"one"), Vec::new(), counted(b"three")]);
    let items = BytesVec::from(Cursor::new(&raw));
    assert!(items.verify(false).is_ok());
    assert!(matches!(items.items(), Err(MoleculeError::FieldCount(0))));
    let mut walk = items.iter().unwrap();
    assert!(walk.next().unwrap().is_ok());
    assert!(matches!(walk.next(), Some(Err(MoleculeError::FieldCount(0)))));
    assert!(walk.next().unwrap().is_ok());
    assert!(walk.next().is_none());
    let short = [0u8, 0];
    assert!(matches!(
        BytesVec::from(Cursor::new(&short)).items(),
        Err(MoleculeError::Overflow)
    ));
}

#[test]
fn an_authorization_has_a_history_a_signature_and_key_indices() {
    let raw = authorization(&[b"genesis", b"rotate"], &[0xaa; 64], &[0, 2]);
    let auth = PlcAuthorization::from(Cursor::new(&raw));
    assert!(auth.verify(false).is_ok());
    let history = auth.history().unwrap();
    assert_eq!(history.len().unwrap(), 2);
    assert_eq!(history.get(0).unwrap().to_vec(), b"genesis".to_vec());
    assert_eq!(history.get(1).unwrap().to_vec(), b"rotate".to_vec());
    assert_eq!(auth.sig().unwrap().to_vec(), vec![0xaa; 64]);
    assert_eq!(auth.rotation_key_indices().unwrap().to_vec(), vec![0, 2]);
}

#[test]
fn an_authorization_with_a_broken_history_is_refused() {
    // the history says it is longer than it is
    let mut history = table_of(&[counted(b"genesis")]);
    history[0] += 1;
    let raw = table_of(&[history, counted(&[1]), counted(&[0])]);
    let auth = PlcAuthorization::from(Cursor::new(&raw));
    assert!(matches!(auth.verify(false), Err(MoleculeError::Verify)));
    let two = table_of(&[table_of(&[]), counted(&[1])]);
    let auth = PlcAuthorization::from(Cursor::new(&two));
    assert!(matches!(auth.verify(false), Err(MoleculeError::Verify)));
    assert!(matches!(auth.rotation_key_indices(), Err(MoleculeError::OutOfBound(2, 2))));
    // a history too short to hold its own length
    let tiny = table_of(&[vec![1, 2], counted(&[1]), counted(&[0])]);
    let auth = PlcAuthorization::from(Cursor::new(&tiny));
    assert!(matches!(auth.verify(false), Err(MoleculeError::FieldCount(2))));
}

#[test]
fn a_witness_holds_one_authorization() {
    let auth = authorization(&[b"op"], &[1, 2, 3], &[0]);
    let raw = table_of(&[auth.clone()]);
    let witness = DidCkbWitness::from(Cursor::new(&raw));
    assert!(witness.verify(false).is_ok());
    let inner = witness.local_id_authorization().unwrap();
    assert_eq!(inner.cursor.offset(), 8);
    assert_eq!(inner.cursor.to_vec(), auth);
    let two = table_of(&[auth.clone(), auth]);
    let witness = DidCkbWitness::from(Cursor::new(&two));
    assert!(matches!(witness.verify(false), Err(MoleculeError::Verify)));
    assert!(witness.verify(true).is_ok());
    let hollow = table_of(&[table_of(&[])]);
    let witness = DidCkbWitness::from(Cursor::new(&hollow));
    assert!(matches!(witness.verify(false), Err(MoleculeError::Verify)));
}

#[test]
fn an_envelope_has_three_optional_fields() {
    let raw = table_of(&[optional(Some(b"lock")), optional(None), optional(Some(b""))]);
    let args = WitnessArgs::from(Cursor::new(&raw));
    assert!(args.verify(false).is_ok());
    assert_eq!(args.lock().unwrap().unwrap().to_vec(), b"lock".to_vec());
    assert!(args.input_type().unwrap().is_none());
    assert_eq!(args.output_type().unwrap().unwrap().size(), 0);
    let two = table_of(&[optional(None), optional(None)]);
    let args = WitnessArgs::from(Cursor::new(&two));
    assert!(matches!(args.verify(false), Err(MoleculeError::Verify)));
    assert!(matches!(args.output_type(), Err(MoleculeError::OutOfBound(2, 2))));
}

#[test]
fn new_data_accepts_a_sound_record_with_a_cbor_document() {
    let bytes = cell(&DOCUMENT, Some(b"did:plc:abc"));
    let data = new_data(Cursor::new(&bytes)).unwrap();
    assert_eq!(data.cursor.offset(), 4);
    assert_eq!(data.document().unwrap().to_vec(), DOCUMENT.to_vec());
    assert_eq!(data.local_id().unwrap().unwrap().to_vec(), b"did:plc:abc".to_vec());
}

#[test]
fn new_data_refuses_a_document_that_is_no_cbor() {
    for document in [&[0xffu8][..], &[0x61][..], &[][..], &[0xa1, 0x61, 0x61][..], &[0x1c][..]] {
        let bytes = cell(document, None);
        assert!(matches!(new_data(Cursor::new(&bytes)), Err(Error::InvalidDocumentCbor)));
        let bytes = cell(document, Some(b"did:plc:abc"));
        assert!(matches!(new_data(Cursor::new(&bytes)), Err(Error::InvalidDocumentCbor)));
    }
    for document in [&[0x00u8][..], &[0xf6][..], &[0x80][..], &[0x61, 0x61][..], &[0x00, 0xff][..]] {
        let bytes = cell(document, None);
        assert!(new_data(Cursor::new(&bytes)).is_ok());
    }
}

#[test]
fn new_data_refuses_a_record_of_the_wrong_shape() {
    let mut unknown = number(2);
    unknown.extend_from_slice(&record(&DOCUMENT, None));
    assert!(matches!(new_data(Cursor::new(&unknown)), Err(Error::Molecule)));
    let mut three = number(0);
    three.extend_from_slice(&table_of(&[counted(&DOCUMENT), optional(None), optional(None)]));
    assert!(matches!(new_data(Cursor::new(&three)), Err(Error::Molecule)));
    let mut hollow = number(0);
    hollow.extend_from_slice(&table_of(&[Vec::new(), optional(None)]));
    assert!(matches!(new_data(Cursor::new(&hollow)), Err(Error::Molecule)));
    let mut long = number(0);
    long.extend_from_slice(&table_of(&[vec![9, 0, 0, 0, 1], optional(None)]));
    assert!(matches!(new_data(Cursor::new(&long)), Err(Error::Molecule)));
    let empty: [u8; 0] = [];
    assert!(matches!(new_data(Cursor::new(&empty)), Err(Error::Molecule)));
}

#[test]
fn a_record_is_opened_before_its_document_is_judged() {
    let bytes = cell(&[0xff], Some(b"x"));
    let (data, document) = open_data(Cursor::new(&bytes)).unwrap();
    assert_eq!(document, vec![0xff]);
    assert!(matches!(accept_document(data, false), Err(Error::InvalidDocumentCbor)));
    let accepted = accept_document(data, true).unwrap();
    assert_eq!(accepted.cursor.offset(), data.cursor.offset());
    assert_eq!(accepted.cursor.size(), data.cursor.size());
}

#[test]
fn new_witness_args_checks_the_envelope() {
    let bytes = envelope(Some(b"anything"));
    let args = new_witness_args(Cursor::new(&bytes)).unwrap();
    assert_eq!(args.cursor.size(), bytes.len());
    assert_eq!(args.output_type().unwrap().unwrap().to_vec(), b"anything".to_vec());
    let two = table_of(&[optional(None), optional(None)]);
    assert!(matches!(new_witness_args(Cursor::new(&two)), Err(Error::Molecule)));
    let empty: [u8; 0] = [];
    assert!(matches!(new_witness_args(Cursor::new(&empty)), Err(Error::Molecule)));
}

#[test]
fn new_witness_reads_the_witness_out_of_the_envelope() {
    let auth = authorization(&[b"genesis", b"rotate"], &[5; 64], &[1]);
    let inner = table_of(&[auth.clone()]);
    let bytes = envelope(Some(&inner));
    let witness = new_witness(Cursor::new(&bytes)).unwrap();
    assert_eq!(witness.cursor.offset(), 16 + 4);
    assert_eq!(witness.cursor.to_vec(), inner);
    assert_eq!(witness.local_id_authorization().unwrap().cursor.to_vec(), auth);
}

#[test]
fn new_witness_refuses_an_envelope_without_a_sound_witness() {
    let none = envelope(None);
    assert!(matches!(new_witness(Cursor::new(&none)), Err(Error::Molecule)));
    let junk = envelope(Some(b"no witness"));
    assert!(matches!(new_witness(Cursor::new(&junk)), Err(Error::Molecule)));
    let two = table_of(&[optional(None), optional(None)]);
    assert!(matches!(new_witness(Cursor::new(&two)), Err(Error::Molecule)));
    let hollow = envelope(Some(&table_of(&[table_of(&[])])));
    assert!(matches!(new_witness(Cursor::new(&hollow)), Err(Error::Molecule)));
    let mut truncated = table_of(&[optional(None), optional(None), vec![9, 0, 0, 0, 1]]);
    assert!(matches!(new_witness(Cursor::new(&truncated)), Err(Error::Molecule)));
    truncated.clear();
    assert!(matches!(new_witness(Cursor::new(&truncated)), Err(Error::Molecule)));
}
