//! The record layout, stated over plain byte sequences.
//!
//! Every number in a header is four bytes, least significant first. A fixed
//! vector is its item count followed by the items. A dynamic vector, and a
//! table, which has the same layout, is its total length, then one offset per
//! item, then the items back to back; an item ends where the next one starts,
//! and the last one ends with the vector.
use vstd::prelude::*;

verus! {

/// Number of bytes in one header number.
pub const NUMBER_SIZE: usize = 4;

/// The number that the four bytes of `s` from `at` on spell.
pub open spec fn number_at(s: Seq<u8>, at: int) -> nat {
    (s[at] as nat) + (s[at + 1] as nat) * 0x100 + (s[at + 2] as nat) * 0x1_0000 + (s[at + 3] as nat)
        * 0x100_0000
}

/// The four bytes that spell `n`.
#[verifier::opaque]
pub open spec fn number_bytes(n: nat) -> Seq<u8> {
    seq![
        (n % 0x100) as u8,
        (n / 0x100 % 0x100) as u8,
        (n / 0x1_0000 % 0x100) as u8,
        (n / 0x100_0000 % 0x100) as u8,
    ]
}

/// Whether `s` is a fixed vector of items of `item_size` bytes: the count,
/// and then exactly that many items.
pub open spec fn is_fixvec(s: Seq<u8>, item_size: nat) -> bool {
    s.len() >= 4 && s.len() == 4 + number_at(s, 0) * item_size
}

/// How many items the header of a dynamic vector announces: none when the
/// vector is its length alone, else as many as there are offsets before the
/// first item.
pub open spec fn item_count(s: Seq<u8>) -> int {
    if s.len() < 8 {
        0
    } else {
        number_at(s, 4) as int / 4 - 1
    }
}

/// Where item `i` of a dynamic vector starts.
pub open spec fn item_start(s: Seq<u8>, i: int) -> nat {
    number_at(s, 4 + 4 * i)
}

/// Where item `i` of a dynamic vector ends: at the start of the next item,
/// or at the declared length for the last one.
pub open spec fn item_end(s: Seq<u8>, i: int) -> nat {
    if i + 1 == item_count(s) {
        number_at(s, 0)
    } else {
        item_start(s, i + 1)
    }
}

/// Whether the header of `s` is that of a dynamic vector: the declared
/// length is the length of `s`, the offsets fill the space before the first
/// item, and no item ends before it starts.
pub open spec fn is_dynvec(s: Seq<u8>) -> bool {
    &&& s.len() >= 4
    &&& number_at(s, 0) == s.len()
    &&& s.len() != 4 ==> {
        &&& s.len() >= 8
        &&& number_at(s, 4) % 4 == 0
        &&& 8 <= number_at(s, 4) <= s.len()
        &&& forall|i: int| 0 <= i < item_count(s) ==> item_start(s, i) <= #[trigger] item_end(s, i)
    }
}

/// Whether `s` is a table of exactly `fields` fields.
pub open spec fn is_table(s: Seq<u8>, fields: nat) -> bool {
    is_dynvec(s) && item_count(s) == fields
}

/// Whether `s` is a table of at least `fields` fields.
pub open spec fn is_table_from(s: Seq<u8>, fields: nat) -> bool {
    is_dynvec(s) && item_count(s) >= fields
}

/// How a vector of bytes is written: its count, then the bytes.
pub open spec fn written_bytes(x: Seq<u8>) -> Seq<u8> {
    number_bytes(x.len()) + x
}

/// How an optional vector of bytes is written: as nothing when it is absent.
pub open spec fn written_optional_bytes(x: Option<Seq<u8>>) -> Seq<u8> {
    match x {
        None => Seq::empty(),
        Some(x) => written_bytes(x),
    }
}

/// How a table of two fields is written: the total length, where each field
/// starts, and then the fields.
pub open spec fn written_pair(first: Seq<u8>, second: Seq<u8>) -> Seq<u8> {
    number_bytes(12 + first.len() + second.len()) + number_bytes(12) + number_bytes(12 + first.len())
        + first + second
}

/// How a record is written: a table of the document and the optional
/// identifier.
pub open spec fn written_record(document: Seq<u8>, local_id: Option<Seq<u8>>) -> Seq<u8> {
    written_pair(written_bytes(document), written_optional_bytes(local_id))
}

/// How the record of a cell is written: the tag of the first version, then
/// the record.
pub open spec fn written_cell(document: Seq<u8>, local_id: Option<Seq<u8>>) -> Seq<u8> {
    number_bytes(0) + written_record(document, local_id)
}

/// A number is written as four bytes.
pub proof fn number_bytes_are_four(n: nat)
    ensures
        number_bytes(n).len() == 4,
{
    reveal(number_bytes);
}

/// Reading a number where one was written gives the number, whatever stands
/// before and after it.
pub proof fn number_read_back_at(before: Seq<u8>, n: nat, after: Seq<u8>)
    requires
        n <= 0xffff_ffff,
    ensures
        number_bytes(n).len() == 4,
        number_at(before + number_bytes(n) + after, before.len() as int) == n,
{
    reveal(number_bytes);
    let s = before + number_bytes(n) + after;
    let at = before.len() as int;
    assert(s[at] == number_bytes(n)[0]);
    assert(s[at + 1] == number_bytes(n)[1]);
    assert(s[at + 2] == number_bytes(n)[2]);
    assert(s[at + 3] == number_bytes(n)[3]);
}

} // verus!
