//! Fields of a text that a separator byte keeps apart.

use vstd::prelude::*;

verus! {

/// Whether `sep` occurs nowhere in `text`.
pub open spec fn free_of(text: Seq<u8>, sep: u8) -> bool {
    forall|i: int| 0 <= i < text.len() ==> text[i] != sep
}

/// The fields of `text`: what stands before, between and after the
/// occurrences of `sep`. A text with `n` occurrences has `n + 1` fields.
pub open spec fn split(text: Seq<u8>, sep: u8) -> Seq<Seq<u8>>
    decreases text.len(),
{
    if text.len() == 0 {
        seq![Seq::empty()]
    } else {
        let before = split(text.drop_last(), sep);
        if text.last() == sep {
            before.push(Seq::empty())
        } else {
            before.drop_last().push(before.last().push(text.last()))
        }
    }
}

/// The text made of `fields` with one `sep` between each two of them.
pub open spec fn join(fields: Seq<Seq<u8>>, sep: u8) -> Seq<u8>
    decreases fields.len(),
{
    if fields.len() == 0 {
        Seq::empty()
    } else if fields.len() == 1 {
        fields[0]
    } else {
        join(fields.drop_last(), sep).push(sep) + fields.last()
    }
}

/// The byte strings that the vectors of `fields` hold.
pub open spec fn views(fields: Seq<Vec<u8>>) -> Seq<Seq<u8>> {
    Seq::new(fields.len(), |i: int| fields[i]@)
}

/// A text has at least one field, and no field holds the separator.
pub proof fn lemma_split_shape(text: Seq<u8>, sep: u8)
    ensures
        split(text, sep).len() >= 1,
        forall|k: int| 0 <= k < split(text, sep).len() ==> free_of(#[trigger] split(text, sep)[k], sep),
    decreases text.len(),
{
    if text.len() > 0 {
        lemma_split_shape(text.drop_last(), sep);
    }
}

/// Joining the fields of a text gives the text back.
pub proof fn lemma_join_split(text: Seq<u8>, sep: u8)
    ensures
        join(split(text, sep), sep) == text,
    decreases text.len(),
{
    if text.len() == 0 {
        assert(join(split(text, sep), sep) =~= text);
    } else {
        let before = split(text.drop_last(), sep);
        lemma_join_split(text.drop_last(), sep);
        lemma_split_shape(text.drop_last(), sep);
        if text.last() == sep {
            assert(before.push(Seq::empty()).drop_last() =~= before);
            assert(join(split(text, sep), sep) =~= text);
        } else {
            let last = before.last().push(text.last());
            let fields = before.drop_last().push(last);
            assert(fields.drop_last() =~= before.drop_last());
            if before.len() == 1 {
                assert(join(fields, sep) =~= text);
            } else {
                let head = join(before.drop_last(), sep).push(sep);
                assert(join(before, sep) == head + before.last());
                assert(join(fields, sep) == head + last);
                assert(head + last =~= (head + before.last()).push(text.last()));
                assert(text =~= text.drop_last().push(text.last()));
            }
        }
    }
}

/// Text without the separator, put behind a text, lengthens its last field.
pub proof fn lemma_split_append(text: Seq<u8>, more: Seq<u8>, sep: u8)
    requires
        free_of(more, sep),
    ensures
        split(text + more, sep) == split(text, sep).drop_last().push(
            split(text, sep).last() + more,
        ),
    decreases more.len(),
{
    lemma_split_shape(text, sep);
    if more.len() == 0 {
        assert(text + more =~= text);
        assert(split(text, sep).last() + more =~= split(text, sep).last());
        assert(split(text, sep).drop_last().push(split(text, sep).last()) =~= split(text, sep));
    } else {
        lemma_split_append(text, more.drop_last(), sep);
        assert((text + more).drop_last() =~= text + more.drop_last());
        assert(split(text, sep).last() + more =~= (split(text, sep).last()
            + more.drop_last()).push(more.last()));
        let before = split(text + more.drop_last(), sep);
        assert(before.drop_last() =~= split(text, sep).drop_last());
    }
}

/// The fields of a joined text are the fields that were joined, where none of
/// them holds the separator.
pub proof fn lemma_split_join(fields: Seq<Seq<u8>>, sep: u8)
    requires
        fields.len() >= 1,
        forall|k: int| 0 <= k < fields.len() ==> free_of(#[trigger] fields[k], sep),
    ensures
        split(join(fields, sep), sep) == fields,
    decreases fields.len(),
{
    if fields.len() == 1 {
        lemma_split_append(Seq::empty(), fields[0], sep);
        assert(Seq::<u8>::empty() + fields[0] =~= fields[0]);
        assert(split(join(fields, sep), sep) =~= fields);
    } else {
        let init = fields.drop_last();
        lemma_split_join(init, sep);
        let head = join(init, sep).push(sep);
        assert(head.drop_last() =~= join(init, sep));
        lemma_split_append(head, fields.last(), sep);
        assert(init.push(Seq::empty()).drop_last() =~= init);
        assert(Seq::<u8>::empty() + fields.last() =~= fields.last());
        assert(split(join(fields, sep), sep) =~= fields);
    }
}

/// Cuts `text` into its fields.
pub fn split_fields(text: &[u8], sep: u8) -> (fields: Vec<Vec<u8>>)
    ensures
        views(fields@) == split(text@, sep),
{
    let mut fields: Vec<Vec<u8>> = Vec::new();
    let mut current: Vec<u8> = Vec::new();
    let mut i: usize = 0;
    proof {
        assert(views(fields@).push(current@) =~= split(text@.take(0), sep));
    }
    while i < text.len()
        invariant
            i <= text.len(),
            views(fields@).push(current@) == split(text@.take(i as int), sep),
        decreases text.len() - i,
    {
        let c: u8 = text[i];
        let ghost done = views(fields@);
        let ghost partial = current@;
        proof {
            assert(text@.take(i + 1).drop_last() =~= text@.take(i as int));
            assert(done.push(partial).drop_last() =~= done);
        }
        if c == sep {
            fields.push(current);
            current = Vec::new();
            proof {
                assert(views(fields@) =~= done.push(partial));
            }
        } else {
            current.push(c);
        }
        i = i + 1;
    }
    proof {
        assert(text@.take(i as int) =~= text@);
    }
    let ghost done = views(fields@);
    let ghost partial = current@;
    fields.push(current);
    proof {
        assert(views(fields@) =~= done.push(partial));
    }
    fields
}

} // verus!
