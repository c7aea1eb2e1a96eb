//! What a finished function looks like as bytes: its code with the
//! insertions spliced in, and its relocations moved along.

use crate::linking::RelocationEntry;
use crate::model::{sorted_by_at, CodeBuilderView, Insertion};
use vstd::prelude::*;

verus! {

/// The number of bytes of one insertion.
pub open spec fn insertion_len(insertion: Insertion) -> nat {
    (insertion.end - insertion.start) as nat
}

/// The number of bytes that the insertions hold together.
pub open spec fn inserted_len(insertions: Seq<Insertion>) -> nat
    decreases insertions.len(),
{
    if insertions.len() == 0 {
        0
    } else {
        inserted_len(insertions.drop_last()) + insertion_len(insertions.last())
    }
}

/// The number of bytes that are inserted in front of the code byte at
/// `offset`: those of the insertions whose place is not behind it.
pub open spec fn inserted_before(insertions: Seq<Insertion>, offset: int) -> nat
    decreases insertions.len(),
{
    if insertions.len() == 0 {
        0
    } else if insertions.last().at <= offset {
        inserted_before(insertions.drop_last(), offset) + insertion_len(insertions.last())
    } else {
        inserted_before(insertions.drop_last(), offset)
    }
}

/// The code from `code_pos` on, with the insertions from the `k`-th on
/// spliced in, each in front of the code byte at its place.
pub open spec fn spliced_from(
    code: Seq<u8>,
    insert_bytes: Seq<u8>,
    insertions: Seq<Insertion>,
    k: int,
    code_pos: int,
) -> Seq<u8>
    decreases insertions.len() - k,
{
    if k < 0 || k >= insertions.len() {
        code.subrange(code_pos, code.len() as int)
    } else {
        code.subrange(code_pos, insertions[k].at as int) + insert_bytes.subrange(
            insertions[k].start as int,
            insertions[k].end as int,
        ) + spliced_from(code, insert_bytes, insertions, k + 1, insertions[k].at as int)
    }
}

/// The code with all insertions spliced in.
pub open spec fn spliced(b: CodeBuilderView) -> Seq<u8> {
    spliced_from(b.code, b.insert_bytes, b.insertions, 0, 0)
}

/// The function body as it stands in the code section: the length, the
/// preamble, and the code with its insertions.
pub open spec fn serialized(b: CodeBuilderView) -> Seq<u8> {
    b.inner_length + b.preamble + spliced(b)
}

/// The number of bytes of the function body in the code section.
pub open spec fn serialized_len(b: CodeBuilderView) -> nat {
    b.inner_length.len() + b.preamble.len() + b.code.len() + inserted_len(b.insertions)
}

/// Where a relocation stands in the body of the code section, when the
/// function body starts at `section_pos` there and the relocation stood at
/// `offset` in the function's code: moved by the function's length and
/// preamble and by what is inserted in front of it.
pub open spec fn final_offset(b: CodeBuilderView, section_pos: int, offset: int) -> int {
    section_pos + b.inner_length.len() + b.preamble.len() + inserted_before(b.insertions, offset)
        + offset
}

/// The relocations of the function, each at its place in the body of the
/// code section.
pub open spec fn rewritten(b: CodeBuilderView, section_pos: int) -> Seq<RelocationEntry> {
    Seq::new(
        b.relocations.len(),
        |i: int|
            b.relocations[i].spec_with_offset(
                final_offset(b, section_pos, b.relocations[i].spec_offset() as int) as u32,
            ),
    )
}

/// The number of insertions whose place is not behind `offset`, where the
/// places ascend.
pub open spec fn insertions_up_to(insertions: Seq<Insertion>, offset: int) -> nat
    decreases insertions.len(),
{
    if insertions.len() == 0 {
        0
    } else if insertions.last().at <= offset {
        insertions.len()
    } else {
        insertions_up_to(insertions.drop_last(), offset)
    }
}

/// The first insertions hold no more bytes than all of them.
pub proof fn lemma_inserted_len_take(insertions: Seq<Insertion>, k: int)
    requires
        0 <= k <= insertions.len(),
    ensures
        inserted_len(insertions.take(k)) <= inserted_len(insertions),
        k < insertions.len() ==> inserted_len(insertions.take(k + 1)) == inserted_len(
            insertions.take(k),
        ) + insertion_len(insertions[k]),
    decreases insertions.len(),
{
    if k < insertions.len() {
        assert(insertions.take(k + 1).drop_last() =~= insertions.take(k));
        assert(insertions.drop_last().take(k) =~= insertions.take(k));
        lemma_inserted_len_take(insertions.drop_last(), k);
    } else {
        assert(insertions.take(k) =~= insertions);
    }
}

/// Where the places ascend, what is inserted in front of an offset is what
/// the first `k` insertions hold, `k` being where the places pass the offset.
pub proof fn lemma_inserted_before_is_prefix(insertions: Seq<Insertion>, k: int, offset: int)
    requires
        sorted_by_at(insertions),
        0 <= k <= insertions.len(),
        k > 0 ==> insertions[k - 1].at <= offset,
        k < insertions.len() ==> offset < insertions[k].at,
    ensures
        inserted_before(insertions, offset) == inserted_len(insertions.take(k)),
    decreases insertions.len(),
{
    if insertions.len() == 0 {
        assert(insertions.take(k) =~= insertions);
    } else {
        let shorter = insertions.drop_last();
        if k == insertions.len() {
            assert(insertions.take(k) =~= insertions);
            assert(shorter.take(k - 1) =~= shorter);
            lemma_inserted_before_is_prefix(shorter, k - 1, offset);
        } else {
            assert(insertions[k].at <= insertions.last().at);
            assert(shorter.take(k) =~= insertions.take(k));
            lemma_inserted_before_is_prefix(shorter, k, offset);
        }
    }
}

/// Where the places ascend, the insertions up to an offset are the first
/// ones, and the next one, if there is one, lies behind the offset.
pub proof fn lemma_insertions_up_to(insertions: Seq<Insertion>, offset: int)
    requires
        sorted_by_at(insertions),
    ensures
        ({
            let m = insertions_up_to(insertions, offset) as int;
            &&& m <= insertions.len()
            &&& m > 0 ==> insertions[m - 1].at <= offset
            &&& m < insertions.len() ==> offset < insertions[m].at
        }),
    decreases insertions.len(),
{
    if insertions.len() > 0 && insertions.last().at > offset {
        let shorter = insertions.drop_last();
        lemma_insertions_up_to(shorter, offset);
        let m = insertions_up_to(shorter, offset);
        if m < shorter.len() {
            assert(shorter[m as int] == insertions[m as int]);
        }
        if m > 0 {
            assert(shorter[m - 1] == insertions[m - 1]);
        }
    }
}

/// The length of the code with its insertions from the `k`-th on.
pub proof fn lemma_spliced_from_len(b: CodeBuilderView, k: int, code_pos: int)
    requires
        b.wf(),
        sorted_by_at(b.insertions),
        0 <= k <= b.insertions.len(),
        0 <= code_pos <= b.code.len(),
        k < b.insertions.len() ==> code_pos <= b.insertions[k].at,
    ensures
        spliced_from(b.code, b.insert_bytes, b.insertions, k, code_pos).len() + code_pos
            + inserted_len(b.insertions.take(k)) == b.code.len() + inserted_len(b.insertions),
    decreases b.insertions.len() - k,
{
    if k < b.insertions.len() {
        lemma_inserted_len_take(b.insertions, k);
        if k + 1 < b.insertions.len() {
            assert(b.insertions[k].at <= b.insertions[k + 1].at);
        }
        lemma_spliced_from_len(b, k + 1, b.insertions[k].at as int);
    } else {
        assert(b.insertions.take(k) =~= b.insertions);
    }
}

/// The serialized function body has the length that its parts add up to.
pub proof fn lemma_serialized_len(b: CodeBuilderView)
    requires
        b.wf(),
        sorted_by_at(b.insertions),
    ensures
        serialized(b).len() == serialized_len(b),
{
    lemma_spliced_from_len(b, 0, 0);
    assert(b.insertions.take(0) =~= Seq::empty());
}

/// In the code with its insertions from the `k`-th on, the code byte at
/// `offset` stands behind what lies between `code_pos` and it: the code
/// bytes and the insertions from the `k`-th to the last one in front of it.
pub proof fn lemma_spliced_from_index(b: CodeBuilderView, k: int, code_pos: int, offset: int)
    requires
        b.wf(),
        sorted_by_at(b.insertions),
        0 <= k <= insertions_up_to(b.insertions, offset),
        0 <= code_pos <= offset < b.code.len(),
        k < b.insertions.len() ==> code_pos <= b.insertions[k].at,
    ensures
        ({
            let m = insertions_up_to(b.insertions, offset) as int;
            let rest = spliced_from(b.code, b.insert_bytes, b.insertions, k, code_pos);
            let index = offset - code_pos + inserted_len(b.insertions.take(m)) - inserted_len(
                b.insertions.take(k),
            );
            0 <= index < rest.len() && rest[index] == b.code[offset]
        }),
    decreases b.insertions.len() - k,
{
    let m = insertions_up_to(b.insertions, offset) as int;
    lemma_insertions_up_to(b.insertions, offset);
    if k == m {
        if k < b.insertions.len() {
            let first = b.code.subrange(code_pos, b.insertions[k].at as int);
            assert(first[offset - code_pos] == b.code[offset]);
        }
    } else {
        assert(b.insertions[k].at <= b.insertions[m - 1].at);
        lemma_inserted_len_take(b.insertions, k);
        if k + 1 < b.insertions.len() {
            assert(b.insertions[k].at <= b.insertions[k + 1].at);
        }
        lemma_spliced_from_index(b, k + 1, b.insertions[k].at as int, offset);
    }
}

/// Splicing moves a code byte by what is inserted in front of it: the byte
/// that stood at `offset` in the code is found at `offset` plus that in the
/// spliced code.
pub proof fn lemma_spliced_byte(b: CodeBuilderView, offset: int)
    requires
        b.wf(),
        sorted_by_at(b.insertions),
        0 <= offset < b.code.len(),
    ensures
        offset + inserted_before(b.insertions, offset) < spliced(b).len(),
        spliced(b)[offset + inserted_before(b.insertions, offset)] == b.code[offset],
{
    let m = insertions_up_to(b.insertions, offset) as int;
    lemma_insertions_up_to(b.insertions, offset);
    lemma_inserted_before_is_prefix(b.insertions, m, offset);
    assert(b.insertions.take(0) =~= Seq::empty());
    lemma_spliced_from_index(b, 0, 0, offset);
}

/// Two offsets with no insertion between them have the same bytes inserted
/// in front of them.
pub proof fn lemma_inserted_before_same(insertions: Seq<Insertion>, offset: int, further: int)
    requires
        offset <= further,
        forall|i: int|
            0 <= i < insertions.len() ==> !(offset < (#[trigger] insertions[i]).at <= further),
    ensures
        inserted_before(insertions, further) == inserted_before(insertions, offset),
    decreases insertions.len(),
{
    if insertions.len() > 0 {
        let shorter = insertions.drop_last();
        assert forall|i: int| 0 <= i < shorter.len() implies !(offset < (#[trigger] shorter[i]).at
            <= further) by {
            assert(shorter[i] == insertions[i]);
        }
        assert(!(offset < insertions[insertions.len() - 1].at <= further));
        lemma_inserted_before_same(shorter, offset, further);
    }
}

/// After a function has been serialized behind `before`, into a code section
/// whose body starts at `base`, each relocation that stood at a code byte
/// points at that byte: its rewritten offset, counted from `base`, is where
/// the byte now is. The bytes that follow it in the code follow it there
/// too, as far as no insertion goes between them.
pub proof fn lemma_relocation_points_at_its_bytes(
    b: CodeBuilderView,
    before: Seq<u8>,
    base: int,
    i: int,
    j: int,
)
    requires
        b.wf(),
        sorted_by_at(b.insertions),
        0 <= base <= before.len(),
        0 <= i < b.relocations.len(),
        0 <= j,
        b.relocations[i].spec_offset() + j < b.code.len(),
        forall|k: int|
            0 <= k < b.insertions.len() ==> !(b.relocations[i].spec_offset() < (
            #[trigger] b.insertions[k]).at <= b.relocations[i].spec_offset() + j),
    ensures
        ({
            let output = before + serialized(b);
            let offset = b.relocations[i].spec_offset() as int;
            let moved = final_offset(b, before.len() - base, offset);
            base + moved + j < output.len() && output[base + moved + j] == b.code[offset + j]
        }),
{
    let offset = b.relocations[i].spec_offset() as int;
    lemma_inserted_before_same(b.insertions, offset, offset + j);
    lemma_spliced_byte(b, offset + j);
}

/// Serializing is a function of the builder, of the buffer's content and of
/// the base offset: two runs from the same state give the same bytes and the
/// same relocations.
pub proof fn lemma_serialize_deterministic(
    b: CodeBuilderView,
    before: Seq<u8>,
    relocs_before: Seq<RelocationEntry>,
    base: int,
    first: (Seq<u8>, Seq<RelocationEntry>),
    second: (Seq<u8>, Seq<RelocationEntry>),
)
    requires
        is_serialization(b, before, relocs_before, base, first.0, first.1),
        is_serialization(b, before, relocs_before, base, second.0, second.1),
    ensures
        first == second,
{
}

/// Whether `after` and `relocs_after` are what a buffer and a list of
/// relocations hold once the function has been serialized behind `before`
/// and `relocs_before`, into a code section whose body starts at `base`.
pub open spec fn is_serialization(
    b: CodeBuilderView,
    before: Seq<u8>,
    relocs_before: Seq<RelocationEntry>,
    base: int,
    after: Seq<u8>,
    relocs_after: Seq<RelocationEntry>,
) -> bool {
    &&& after == before + serialized(b)
    &&& relocs_after == relocs_before + rewritten(b, before.len() - base)
}

} // verus!
