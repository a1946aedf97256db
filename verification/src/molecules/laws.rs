//! What holds of every record with a sound header.
use crate::entry::local_id_of;
use crate::error::Error;
use crate::molecules::cell_data::DidCkbData;
use crate::molecules::cursor::Cursor;
use crate::molecules::layout::{
    is_dynvec, is_fixvec, is_table, item_count, item_end, item_start, number_at, number_bytes,
    number_bytes_are_four, number_read_back_at, written_bytes, written_cell, written_optional_bytes, written_pair,
    written_record,
};
use crate::molecules::{document_of, record_spec};
use molecule::lazy_reader::Error as MoleculeError;
use vstd::prelude::*;

verus! {

/// The offsets that the header of a table of `fields` fields holds: where
/// each field starts, and last the declared length, where the last field
/// ends.
pub open spec fn header_offsets(s: Seq<u8>, fields: nat) -> Seq<nat> {
    Seq::new(
        fields + 1,
        |i: int|
            if i < fields {
                item_start(s, i)
            } else {
                number_at(s, 0)
            },
    )
}

/// A range passes the check of a table of `fields` fields exactly when its
/// header holds `fields + 1` offsets that never decrease and stay within the
/// range: the header ends where the first field starts, and the last offset
/// is the length of the range.
pub proof fn table_is_its_header(s: Seq<u8>, fields: nat)
    ensures
        is_table(s, fields) <==> {
            &&& s.len() >= 4 * (fields + 1)
            &&& header_offsets(s, fields)[0] == 4 * (fields + 1)
            &&& header_offsets(s, fields)[fields as int] == s.len()
            &&& forall|i: int|
                0 <= i < fields ==> #[trigger] header_offsets(s, fields)[i] <= header_offsets(
                    s,
                    fields,
                )[i + 1]
            &&& forall|i: int| 0 <= i <= fields ==> #[trigger] header_offsets(s, fields)[i] <= s.len()
        },
{
    let offsets = header_offsets(s, fields);
    let spelled = {
        &&& s.len() >= 4 * (fields + 1)
        &&& offsets[0] == 4 * (fields + 1)
        &&& offsets[fields as int] == s.len()
        &&& forall|i: int| 0 <= i < fields ==> #[trigger] offsets[i] <= offsets[i + 1]
        &&& forall|i: int| 0 <= i <= fields ==> #[trigger] offsets[i] <= s.len()
    };
    if is_table(s, fields) {
        if fields > 0 {
            assert forall|i: int| 0 <= i < fields implies #[trigger] offsets[i] <= offsets[i + 1] by {
                assert(item_start(s, i) <= item_end(s, i));
            }
            nondecreasing_is_bounded(offsets, fields as int);
        }
        assert(spelled);
    }
    if spelled {
        if fields > 0 {
            assert(offsets[0] == item_start(s, 0));
            assert(item_count(s) == fields);
            assert forall|i: int| 0 <= i < item_count(s) implies item_start(s, i) <= #[trigger] item_end(
                s,
                i,
            ) by {
                assert(offsets[i] <= offsets[i + 1]);
            }
        }
        assert(is_table(s, fields));
    }
}

/// Every entry of a sequence that never decreases is at most its last one.
proof fn nondecreasing_is_bounded(offsets: Seq<nat>, last: int)
    requires
        0 <= last < offsets.len(),
        forall|i: int| 0 <= i < last ==> #[trigger] offsets[i] <= offsets[i + 1],
    ensures
        forall|i: int| 0 <= i <= last ==> #[trigger] offsets[i] <= offsets[last],
    decreases last,
{
    if last > 0 {
        nondecreasing_is_bounded(offsets, last - 1);
        assert(offsets[last - 1] <= offsets[last]);
    }
}

/// In a fixed vector, item `i` can be read exactly when `i` is below the
/// count, and reading at the count is out of bounds.
pub proof fn fixvec_get_is_bounded_by_len(s: Seq<u8>, item_size: usize, i: usize)
    requires
        is_fixvec(s, item_size as nat),
        s.len() <= usize::MAX,
    ensures
        Cursor::fixvec_slice_spec(s, item_size, i) is Ok <==> i < number_at(s, 0),
        i == number_at(s, 0) ==> Cursor::fixvec_slice_spec(s, item_size, i) == Err::<
            (int, int),
            MoleculeError,
        >(MoleculeError::OutOfBound(i, i)),
        item_size == 1 ==> (Cursor::fixvec_byte_spec(s, i) is Ok <==> i < number_at(s, 0)),
        item_size == 1 && i == number_at(s, 0) ==> Cursor::fixvec_byte_spec(s, i) == Err::<
            u8,
            MoleculeError,
        >(MoleculeError::OutOfBound(i, i)),
{
    let count = number_at(s, 0);
    if i < count {
        assert(item_size * i + item_size <= count * item_size) by (nonlinear_arith)
            requires
                i < count,
        ;
    }
}

/// The bytes of the first `n` items of a dynamic vector, one after the
/// other.
pub open spec fn items_joined(s: Seq<u8>, n: int) -> Seq<u8>
    decreases n,
{
    if n <= 0 {
        Seq::empty()
    } else {
        items_joined(s, n - 1) + s.subrange(item_start(s, n - 1) as int, item_end(s, n - 1) as int)
    }
}

/// The items of a dynamic vector with a sound header lie back to back: the
/// first one starts where the header ends, each one starts where the one
/// before it ends, the last one ends with the vector, and each is what
/// reading it by its index gives. Joined in order they are the vector
/// without its header.
pub proof fn dynvec_items_partition_the_payload(s: Seq<u8>)
    requires
        is_dynvec(s),
        s.len() <= usize::MAX,
    ensures
        item_count(s) > 0 ==> item_start(s, 0) == 4 * (item_count(s) + 1),
        item_count(s) > 0 ==> item_end(s, item_count(s) - 1) == s.len(),
        forall|i: int| 0 <= i < item_count(s) - 1 ==> #[trigger] item_end(s, i) == item_start(s, i + 1),
        forall|i: int|
            0 <= i < item_count(s) ==> #[trigger] Cursor::dynvec_slice_spec(s, i as usize) == Ok::<
                (int, int),
                MoleculeError,
            >((item_start(s, i) as int, item_end(s, i) - item_start(s, i))),
        items_joined(s, item_count(s)) == s.subrange(4 * (item_count(s) + 1), s.len() as int),
{
    let count = item_count(s);
    if count > 0 {
        items_are_ordered(s, count - 1);
        assert forall|i: int| 0 <= i < count implies #[trigger] Cursor::dynvec_slice_spec(
            s,
            i as usize,
        ) == Ok::<(int, int), MoleculeError>((item_start(s, i) as int, item_end(s, i) - item_start(s, i))) by {
            items_are_ordered(s, i);
            assert(item_start(s, i) <= item_end(s, i));
        }
        joined_items_are_a_range(s, count);
    } else {
        assert(s.len() == 4);
        assert(items_joined(s, 0) =~= s.subrange(4, 4));
    }
}

/// In a dynamic vector with a sound header, no item ends past the vector.
proof fn items_are_ordered(s: Seq<u8>, i: int)
    requires
        is_dynvec(s),
        0 <= i < item_count(s),
    ensures
        4 * (item_count(s) + 1) <= item_start(s, i) <= item_end(s, i) <= s.len(),
    decreases item_count(s) - i,
{
    assert(item_start(s, i) <= item_end(s, i));
    if i + 1 < item_count(s) {
        items_are_ordered(s, i + 1);
    }
    lower_bound(s, i);
}

/// In a dynamic vector with a sound header, no item starts inside the
/// header.
proof fn lower_bound(s: Seq<u8>, i: int)
    requires
        is_dynvec(s),
        0 <= i < item_count(s),
    ensures
        4 * (item_count(s) + 1) <= item_start(s, i),
    decreases i,
{
    if i > 0 {
        lower_bound(s, i - 1);
        assert(item_start(s, i - 1) <= item_end(s, i - 1));
    }
}

/// The first `n` items of a dynamic vector with a sound header, joined, are
/// the bytes from the end of the header to the end of item `n - 1`.
proof fn joined_items_are_a_range(s: Seq<u8>, n: int)
    requires
        is_dynvec(s),
        1 <= n <= item_count(s),
    ensures
        items_joined(s, n) == s.subrange(4 * (item_count(s) + 1), item_end(s, n - 1) as int),
    decreases n,
{
    items_are_ordered(s, n - 1);
    let first = 4 * (item_count(s) + 1);
    if n == 1 {
        assert(items_joined(s, 0) =~= Seq::<u8>::empty());
        assert(items_joined(s, 1) =~= s.subrange(first, item_end(s, 0) as int));
    } else {
        joined_items_are_a_range(s, n - 1);
        items_are_ordered(s, n - 2);
        assert(item_end(s, n - 2) == item_start(s, n - 1));
        assert(items_joined(s, n) =~= s.subrange(first, item_end(s, n - 1) as int));
    }
}

/// What was written as a vector of bytes holds its count and then the
/// bytes.
proof fn written_bytes_hold(x: Seq<u8>)
    requires
        x.len() <= 0xffff_ffff,
    ensures
        written_bytes(x).len() == 4 + x.len(),
        number_at(written_bytes(x), 0) == x.len(),
        written_bytes(x).subrange(4, 4 + x.len() as int) == x,
{
    let none = Seq::<u8>::empty();
    number_read_back_at(none, x.len(), x);
    assert(written_bytes(x) =~= none + number_bytes(x.len()) + x);
    assert(written_bytes(x).subrange(4, 4 + x.len() as int) =~= x);
}

/// What was written as a table of two fields holds its length, the starts
/// of the two fields, and then the fields.
proof fn written_pair_holds(first: Seq<u8>, second: Seq<u8>)
    requires
        12 + first.len() + second.len() <= 0xffff_ffff,
    ensures
        written_pair(first, second).len() == 12 + first.len() + second.len(),
        number_at(written_pair(first, second), 0) == 12 + first.len() + second.len(),
        number_at(written_pair(first, second), 4) == 12,
        number_at(written_pair(first, second), 8) == 12 + first.len(),
        written_pair(first, second).subrange(12, 12 + first.len() as int) == first,
        written_pair(first, second).subrange(
            12 + first.len() as int,
            12 + first.len() + second.len() as int,
        ) == second,
{
    let s = written_pair(first, second);
    let total = (12 + first.len() + second.len()) as nat;
    let none = Seq::<u8>::empty();
    number_bytes_are_four(total);
    number_bytes_are_four(12);
    number_bytes_are_four(12 + first.len());
    assert(number_at(s, 0) == total) by {
        let after = number_bytes(12) + number_bytes(12 + first.len()) + first + second;
        number_read_back_at(none, total, after);
        assert(s =~= none + number_bytes(total) + after);
    }
    assert(number_at(s, 4) == 12) by {
        let after = number_bytes(12 + first.len()) + first + second;
        number_read_back_at(number_bytes(total), 12, after);
        assert(s =~= number_bytes(total) + number_bytes(12) + after);
    }
    assert(number_at(s, 8) == 12 + first.len()) by {
        let after = first + second;
        number_read_back_at(number_bytes(total) + number_bytes(12), 12 + first.len(), after);
        assert(s =~= number_bytes(total) + number_bytes(12) + number_bytes(12 + first.len()) + after);
    }
    assert(s.subrange(12, 12 + first.len() as int) =~= first);
    assert(s.subrange(12 + first.len() as int, 12 + first.len() + second.len() as int) =~= second);
}

/// A table of two fields whose header and fields are known reads as those
/// fields say.
proof fn pair_reads(s: Seq<u8>, first: Seq<u8>, second: Seq<u8>)
    requires
        s.len() == 12 + first.len() + second.len(),
        s.len() <= usize::MAX,
        number_at(s, 0) == s.len(),
        number_at(s, 4) == 12,
        number_at(s, 8) == 12 + first.len(),
        s.subrange(12, 12 + first.len() as int) == first,
        s.subrange(12 + first.len() as int, s.len() as int) == second,
    ensures
        is_table(s, 2),
        Cursor::dynvec_slice_spec(s, 0) == Ok::<(int, int), MoleculeError>((12, first.len() as int)),
        Cursor::dynvec_slice_spec(s, 1) == Ok::<(int, int), MoleculeError>(
            (12 + first.len() as int, second.len() as int),
        ),
{
    assert(item_count(s) == 2);
    assert(item_start(s, 0) == 12);
    assert(item_end(s, 0) == 12 + first.len());
    assert(item_start(s, 1) == 12 + first.len());
    assert(item_end(s, 1) == s.len());
}

/// A field of a table that holds a count and then that many bytes reads
/// as those bytes.
proof fn bytes_field_reads(s: Seq<u8>, i: usize, start: int, x: Seq<u8>)
    requires
        Cursor::dynvec_slice_spec(s, i) == Ok::<(int, int), MoleculeError>((start, 4 + x.len() as int)),
        0 <= start,
        start + 4 + x.len() <= s.len() <= usize::MAX,
        number_at(s.subrange(start, start + 4 + x.len()), 0) == x.len(),
        s.subrange(start, start + 4 + x.len()).subrange(4, 4 + x.len() as int) == x,
    ensures
        Cursor::bytes_field_spec(s, i) == Ok::<(int, int), MoleculeError>((start + 4, x.len() as int)),
        Cursor::optional_bytes_field_spec(s, i) == Ok::<Option<(int, int)>, MoleculeError>(
            Some((start + 4, x.len() as int)),
        ),
        s.subrange(start + 4, start + 4 + x.len()) == x,
{
    let field = s.subrange(start, start + 4 + x.len());
    assert(Cursor::rawbytes_spec(field) == Ok::<(int, int), MoleculeError>((4, x.len() as int)));
    assert(s.subrange(start + 4, start + 4 + x.len()) =~= field.subrange(4, 4 + x.len() as int));
}

/// A record that was written with a document and an optional identifier
/// reads back as it was written: it passes the check of a table of two
/// fields, its document is the document, and its identifier is absent when
/// none was written and is the written one otherwise, the empty one
/// included.
pub proof fn record_reads_back(document: Seq<u8>, local_id: Option<Seq<u8>>)
    requires
        written_record(document, local_id).len() <= 0xffff_ffff,
        written_record(document, local_id).len() <= usize::MAX,
    ensures
        is_table(written_record(document, local_id), 2),
        Cursor::bytes_field_spec(written_record(document, local_id), 0) matches Ok((start, len))
            && written_record(document, local_id).subrange(start, start + len) == document,
        match local_id {
            None => Cursor::optional_bytes_field_spec(written_record(document, local_id), 1) == Ok::<
                Option<(int, int)>,
                MoleculeError,
            >(None),
            Some(id) => Cursor::optional_bytes_field_spec(written_record(document, local_id), 1)
                matches Ok(Some((start, len))) && written_record(document, local_id).subrange(
                start,
                start + len,
            ) == id,
        },
        local_id_of(written_record(document, local_id)) == Ok::<Option<Seq<u8>>, Error>(local_id),
{
    let first = written_bytes(document);
    let second = written_optional_bytes(local_id);
    let s = written_record(document, local_id);
    number_bytes_are_four(12 + first.len() + second.len());
    number_bytes_are_four(12);
    number_bytes_are_four(12 + first.len());
    written_bytes_hold(document);
    written_pair_holds(first, second);
    pair_reads(s, first, second);
    bytes_field_reads(s, 0, 12, document);
    match local_id {
        None => {
            assert(second.len() == 0);
        },
        Some(id) => {
            written_bytes_hold(id);
            bytes_field_reads(s, 1, 12 + first.len() as int, id);
        },
    }
}

/// The bytes of a cell that were written for a record read back as that
/// record: the version is known, and what follows the tag is the record as
/// it was written.
pub proof fn cell_reads_back(document: Seq<u8>, local_id: Option<Seq<u8>>)
    requires
        written_cell(document, local_id).len() <= 0xffff_ffff,
        written_cell(document, local_id).len() <= usize::MAX,
    ensures
        DidCkbData::try_from_spec(written_cell(document, local_id)) matches Ok((start, len))
            && written_cell(document, local_id).subrange(start, start + len) == written_record(
            document,
            local_id,
        ),
        record_spec(written_cell(document, local_id)) is Ok,
        document_of(written_cell(document, local_id)) == document,
{
    let s = written_cell(document, local_id);
    let record = written_record(document, local_id);
    number_read_back_at(Seq::<u8>::empty(), 0, record);
    assert(s =~= Seq::<u8>::empty() + number_bytes(0) + record);
    assert(s.subrange(4, 4 + (s.len() - 4)) =~= record);
    record_reads_back(document, local_id);
}

} // verus!
