//! The field codec: a line is cut into fields by a layout, an ordered list
//! of widths, and fields are joined back into a line.

use vstd::prelude::*;
use vstd::string::*;
use crate::text::{char_count, slice_chars};

verus! {

/// The number of characters of a record line.
pub const LINE_WIDTH: usize = 120;

/// Where field `k` of a layout begins: the sum of the widths before it.
pub open spec fn offset_of(widths: Seq<nat>, k: int) -> nat
    decreases k,
{
    if k <= 0 {
        0
    } else {
        offset_of(widths, k - 1) + widths[k - 1]
    }
}

/// The number of characters that a layout covers.
pub open spec fn total_width(widths: Seq<nat>) -> nat {
    offset_of(widths, widths.len() as int)
}

/// The fields that a layout cuts out of a line, in the layout's order.
pub open spec fn split_fields(line: Seq<char>, widths: Seq<nat>) -> Seq<Seq<char>> {
    Seq::new(
        widths.len(),
        |k: int| line.subrange(offset_of(widths, k) as int, offset_of(widths, k + 1) as int),
    )
}

/// The fields written one after the other.
pub open spec fn join_fields(fields: Seq<Seq<char>>) -> Seq<char>
    decreases fields.len(),
{
    if fields.len() == 0 {
        Seq::empty()
    } else {
        join_fields(fields.drop_last()) + fields.last()
    }
}

/// Whether each field has exactly the width that the layout declares.
pub open spec fn fits(fields: Seq<Seq<char>>, widths: Seq<nat>) -> bool {
    &&& fields.len() == widths.len()
    &&& forall|k: int| 0 <= k < fields.len() ==> (#[trigger] fields[k]).len() == widths[k]
}

/// The widths of an executable layout.
pub open spec fn widths_of(layout: Seq<usize>) -> Seq<nat> {
    Seq::new(layout.len(), |k: int| layout[k] as nat)
}

/// The texts of a list of strings.
pub open spec fn texts(fields: Seq<String>) -> Seq<Seq<char>> {
    Seq::new(fields.len(), |k: int| fields[k]@)
}

/// Offsets grow with the field number.
pub proof fn lemma_offsets_ordered(widths: Seq<nat>, j: int, k: int)
    requires
        0 <= j <= k,
    ensures
        offset_of(widths, j) <= offset_of(widths, k),
    decreases k - j,
{
    if j < k {
        lemma_offsets_ordered(widths, j, k - 1);
    }
}

/// The first `k` fields that fit a layout join to as many characters as the
/// layout's first `k` widths cover.
pub proof fn lemma_join_prefix_len(fields: Seq<Seq<char>>, widths: Seq<nat>, k: int)
    requires
        fits(fields, widths),
        0 <= k <= fields.len(),
    ensures
        join_fields(fields.take(k)).len() == offset_of(widths, k),
    decreases k,
{
    if k > 0 {
        lemma_join_prefix_len(fields, widths, k - 1);
        assert(fields.take(k).drop_last() =~= fields.take(k - 1));
        assert(fields.take(k).last() == fields[k - 1]);
    }
}

/// The first `k` fields of a joined line are a prefix of the whole line.
pub proof fn lemma_join_prefix(fields: Seq<Seq<char>>, k: int)
    requires
        0 <= k <= fields.len(),
    ensures
        join_fields(fields.take(k)).len() <= join_fields(fields).len(),
        join_fields(fields).take(join_fields(fields.take(k)).len() as int) == join_fields(
            fields.take(k),
        ),
    decreases fields.len() - k,
{
    if k == fields.len() {
        assert(fields.take(k) =~= fields);
        assert(join_fields(fields).take(join_fields(fields).len() as int) =~= join_fields(fields));
    } else {
        lemma_join_prefix(fields, k + 1);
        assert(fields.take(k + 1).drop_last() =~= fields.take(k));
        let longer = join_fields(fields.take(k + 1));
        let shorter = join_fields(fields.take(k));
        assert(longer == shorter + fields[k]);
        assert(join_fields(fields).take(shorter.len() as int) =~= longer.take(
            shorter.len() as int,
        ));
        assert(longer.take(shorter.len() as int) =~= shorter);
    }
}

/// Width law: fields that fit a layout join to a line of the layout's total
/// width.
pub proof fn lemma_join_width(fields: Seq<Seq<char>>, widths: Seq<nat>)
    requires
        fits(fields, widths),
    ensures
        join_fields(fields).len() == total_width(widths),
{
    lemma_join_prefix_len(fields, widths, fields.len() as int);
    assert(fields.take(fields.len() as int) =~= fields);
}

/// Round trip, fields first: joining fields that fit a layout and cutting
/// the line by the same layout gives the fields back.
pub proof fn lemma_split_of_join(fields: Seq<Seq<char>>, widths: Seq<nat>)
    requires
        fits(fields, widths),
    ensures
        split_fields(join_fields(fields), widths) == fields,
{
    let line = join_fields(fields);
    let cut = split_fields(line, widths);
    assert forall|k: int| 0 <= k < fields.len() implies cut[k] == fields[k] by {
        lemma_join_prefix_len(fields, widths, k);
        lemma_join_prefix_len(fields, widths, k + 1);
        lemma_join_prefix(fields, k + 1);
        assert(fields.take(k + 1).drop_last() =~= fields.take(k));
        let longer = join_fields(fields.take(k + 1));
        assert(longer == join_fields(fields.take(k)) + fields[k]);
        let from = offset_of(widths, k) as int;
        let to = offset_of(widths, k + 1) as int;
        assert(line.take(to) == longer);
        assert(line.subrange(from, to) =~= longer.subrange(from, to));
        assert(longer.subrange(from, to) =~= fields[k]);
    }
    assert(cut =~= fields);
}

/// The first `k` fields cut from a line join to the line's first characters.
pub proof fn lemma_join_of_split_prefix(line: Seq<char>, widths: Seq<nat>, k: int)
    requires
        line.len() >= total_width(widths),
        0 <= k <= widths.len(),
    ensures
        join_fields(split_fields(line, widths).take(k)) == line.take(offset_of(widths, k) as int),
    decreases k,
{
    let cut = split_fields(line, widths);
    lemma_offsets_ordered(widths, k, widths.len() as int);
    if k == 0 {
        assert(cut.take(0) =~= Seq::<Seq<char>>::empty());
        assert(line.take(0) =~= Seq::<char>::empty());
    } else {
        lemma_join_of_split_prefix(line, widths, k - 1);
        lemma_offsets_ordered(widths, k - 1, k);
        assert(cut.take(k).drop_last() =~= cut.take(k - 1));
        assert(cut.take(k).last() == cut[k - 1]);
        assert(line.take(offset_of(widths, k - 1) as int) + line.subrange(
            offset_of(widths, k - 1) as int,
            offset_of(widths, k) as int,
        ) =~= line.take(offset_of(widths, k) as int));
    }
}

/// Round trip, line first: cutting a line of the layout's total width and
/// joining the fields gives the line back; the fields fit the layout.
pub proof fn lemma_join_of_split(line: Seq<char>, widths: Seq<nat>)
    requires
        line.len() == total_width(widths),
    ensures
        join_fields(split_fields(line, widths)) == line,
        fits(split_fields(line, widths), widths),
{
    let cut = split_fields(line, widths);
    lemma_join_of_split_prefix(line, widths, widths.len() as int);
    assert(cut.take(widths.len() as int) =~= cut);
    assert(line.take(line.len() as int) =~= line);
    lemma_split_fits(line, widths);
}

/// The fields cut from a line that is long enough fit the layout.
pub proof fn lemma_split_fits(line: Seq<char>, widths: Seq<nat>)
    requires
        line.len() >= total_width(widths),
    ensures
        fits(split_fields(line, widths), widths),
{
    let cut = split_fields(line, widths);
    assert forall|k: int| 0 <= k < cut.len() implies (#[trigger] cut[k]).len() == widths[k] by {
        lemma_offsets_ordered(widths, k + 1, widths.len() as int);
    }
}

/// Cuts `line` into the fields of `layout`. `None` where the line has fewer
/// characters than the layout covers; what lies beyond the layout is left
/// out.
pub fn extract_fields(line: &str, layout: &Vec<usize>) -> (out: Option<Vec<String>>)
    ensures
        out is Some <==> line@.len() >= total_width(widths_of(layout@)),
        out matches Some(fields) ==> texts(fields@) == split_fields(line@, widths_of(layout@)),
{
    let ghost widths = widths_of(layout@);
    let n = char_count(line);
    let mut fields: Vec<String> = Vec::new();
    let mut at: usize = 0;
    let mut k: usize = 0;
    while k < layout.len()
        invariant
            k <= layout.len(),
            widths == widths_of(layout@),
            n == line@.len(),
            at == offset_of(widths, k as int),
            at <= n,
            fields@.len() == k,
            forall|j: int|
                0 <= j < k ==> (#[trigger] fields@[j])@ == line@.subrange(
                    offset_of(widths, j) as int,
                    offset_of(widths, j + 1) as int,
                ),
        decreases layout.len() - k,
    {
        let w = layout[k];
        assert(offset_of(widths, k + 1) == at + w);
        if w > n - at {
            proof {
                lemma_offsets_ordered(widths, k + 1, widths.len() as int);
            }
            return None;
        }
        fields.push(slice_chars(line, at, at + w));
        at = at + w;
        k += 1;
    }
    proof {
        assert(texts(fields@) =~= split_fields(line@, widths));
    }
    Some(fields)
}

/// Writes the fields one after the other.
pub fn join_strings(fields: &Vec<String>) -> (out: String)
    ensures
        out@ == join_fields(texts(fields@)),
{
    let mut out = String::new();
    let mut k: usize = 0;
    assert(texts(fields@).take(0) =~= Seq::<Seq<char>>::empty());
    while k < fields.len()
        invariant
            k <= fields.len(),
            out@ == join_fields(texts(fields@).take(k as int)),
        decreases fields.len() - k,
    {
        proof {
            let all = texts(fields@);
            assert(all.take(k + 1).drop_last() =~= all.take(k as int));
            assert(all.take(k + 1).last() == fields@[k as int]@);
        }
        out.append(fields[k].as_str());
        k += 1;
    }
    assert(texts(fields@).take(fields.len() as int) =~= texts(fields@));
    out
}

} // verus!
