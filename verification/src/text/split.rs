use vstd::prelude::*;

verus! {

/// The pieces of `s` between occurrences of `sep`, from left to right.
///
/// There is always at least one piece; a separator at either end of `s`, or
/// two in a row, leave an empty piece.
pub open spec fn split(s: Seq<u8>, sep: u8) -> Seq<Seq<u8>>
    decreases s.len(),
{
    if s.len() == 0 {
        seq![Seq::<u8>::empty()]
    } else {
        let before = split(s.drop_last(), sep);
        if s.last() == sep {
            before.push(Seq::<u8>::empty())
        } else {
            before.update(before.len() - 1, before.last().push(s.last()))
        }
    }
}

/// Whether `sep` occurs nowhere in `s`.
pub open spec fn free_of(s: Seq<u8>, sep: u8) -> bool {
    forall|i: int| 0 <= i < s.len() ==> s[i] != sep
}

/// The pieces joined again, with one `sep` between neighbours.
pub open spec fn join(pieces: Seq<Seq<u8>>, sep: u8) -> Seq<u8>
    decreases pieces.len(),
{
    if pieces.len() == 0 {
        Seq::<u8>::empty()
    } else if pieces.len() == 1 {
        pieces[0]
    } else {
        join(pieces.drop_last(), sep).push(sep) + pieces.last()
    }
}

/// A split always yields at least one piece, and no piece holds the separator.
pub proof fn lemma_split_pieces(s: Seq<u8>, sep: u8)
    ensures
        split(s, sep).len() >= 1,
        forall|k: int| 0 <= k < split(s, sep).len() ==> free_of(#[trigger] split(s, sep)[k], sep),
    decreases s.len(),
{
    if s.len() > 0 {
        lemma_split_pieces(s.drop_last(), sep);
    }
}

/// Appending text without a separator extends the last piece.
pub proof fn lemma_split_extend(a: Seq<u8>, b: Seq<u8>, sep: u8)
    requires
        free_of(b, sep),
    ensures
        split(a + b, sep) == split(a, sep).update(
            split(a, sep).len() - 1,
            split(a, sep).last() + b,
        ),
    decreases b.len(),
{
    lemma_split_pieces(a, sep);
    let pa = split(a, sep);
    if b.len() == 0 {
        assert(a + b =~= a);
        assert(pa.last() + b =~= pa.last());
        assert(pa.update(pa.len() - 1, pa.last()) =~= pa);
    } else {
        let b0 = b.drop_last();
        lemma_split_extend(a, b0, sep);
        assert((a + b).drop_last() =~= a + b0);
        assert((a + b).last() == b.last());
        let mid = pa.update(pa.len() - 1, pa.last() + b0);
        assert(mid.last().push(b.last()) =~= pa.last() + b);
        assert(mid.update(mid.len() - 1, mid.last().push(b.last())) =~= pa.update(
            pa.len() - 1,
            pa.last() + b,
        ));
    }
}

/// Text without a separator is its own single piece.
pub proof fn lemma_split_single(b: Seq<u8>, sep: u8)
    requires
        free_of(b, sep),
    ensures
        split(b, sep) == seq![b],
{
    let e = Seq::<u8>::empty();
    lemma_split_extend(e, b, sep);
    assert(e + b =~= b);
    assert(split(e, sep) =~= seq![e]);
    assert(seq![e].update(0, e + b) =~= seq![b]);
}

/// A separator followed by text without one adds that text as a new piece.
pub proof fn lemma_split_append_piece(a: Seq<u8>, b: Seq<u8>, sep: u8)
    requires
        free_of(b, sep),
    ensures
        split(a.push(sep) + b, sep) == split(a, sep).push(b),
{
    let a1 = a.push(sep);
    assert(a1.drop_last() =~= a);
    assert(split(a1, sep) == split(a, sep).push(Seq::<u8>::empty()));
    lemma_split_extend(a1, b, sep);
    let p1 = split(a1, sep);
    assert(p1.last() + b =~= b);
    assert(p1.update(p1.len() - 1, b) =~= split(a, sep).push(b));
}

/// Joining pieces that hold no separator and splitting again gives the
/// pieces back.
pub proof fn lemma_split_join(pieces: Seq<Seq<u8>>, sep: u8)
    requires
        pieces.len() >= 1,
        forall|k: int| 0 <= k < pieces.len() ==> free_of(#[trigger] pieces[k], sep),
    ensures
        split(join(pieces, sep), sep) == pieces,
    decreases pieces.len(),
{
    if pieces.len() == 1 {
        lemma_split_single(pieces[0], sep);
        assert(seq![pieces[0]] =~= pieces);
    } else {
        let init = pieces.drop_last();
        lemma_split_join(init, sep);
        lemma_split_append_piece(join(init, sep), pieces.last(), sep);
        assert(init.push(pieces.last()) =~= pieces);
    }
}

/// The pieces before a separator are settled: whatever follows, the split of
/// the whole text starts with them.
pub proof fn lemma_split_prefix(s: Seq<u8>, i: int, sep: u8)
    requires
        0 <= i < s.len(),
        s[i] == sep,
    ensures
        split(s, sep).len() > split(s.take(i), sep).len(),
        forall|k: int|
            0 <= k < split(s.take(i), sep).len() ==> #[trigger] split(s, sep)[k] == split(
                s.take(i),
                sep,
            )[k],
    decreases s.len() - i,
{
    let head = split(s.take(i), sep);
    lemma_split_pieces(s.take(i), sep);
    if i == s.len() - 1 {
        assert(s.drop_last() =~= s.take(i));
    } else {
        let t = s.drop_last();
        lemma_split_prefix(t, i, sep);
        assert(t.take(i) =~= s.take(i));
    }
}

/// Every byte of the text other than the separator lies in one of the pieces:
/// what holds of all bytes of all pieces holds of it.
pub proof fn lemma_split_covers(s: Seq<u8>, sep: u8, holds: spec_fn(u8) -> bool)
    requires
        forall|k: int, j: int|
            0 <= k < split(s, sep).len() && 0 <= j < split(s, sep)[k].len() ==> holds(
                #[trigger] split(s, sep)[k][j],
            ),
    ensures
        forall|i: int| 0 <= i < s.len() && s[i] != sep ==> holds(#[trigger] s[i]),
    decreases s.len(),
{
    if s.len() > 0 {
        let t = s.drop_last();
        let before = split(t, sep);
        let whole = split(s, sep);
        lemma_split_pieces(t, sep);
        assert forall|k: int, j: int|
            0 <= k < before.len() && 0 <= j < before[k].len() implies holds(
            #[trigger] before[k][j],
        ) by {
            if s.last() == sep {
                assert(whole[k] == before[k]);
            } else if k < before.len() - 1 {
                assert(whole[k] == before[k]);
            } else {
                assert(whole[k] == before[k].push(s.last()));
                assert(whole[k][j] == before[k][j]);
            }
        }
        lemma_split_covers(t, sep, holds);
        assert forall|i: int| 0 <= i < s.len() && s[i] != sep implies holds(#[trigger] s[i]) by {
            if i < s.len() - 1 {
                assert(t[i] == s[i]);
            } else {
                let last = whole.len() - 1;
                assert(whole[last] == before.last().push(s.last()));
                assert(whole[last][whole[last].len() - 1] == s[i]);
            }
        }
    }
}

/// A separator at the start, at the end, or next to another one leaves an
/// empty piece.
pub proof fn lemma_split_empty_piece(s: Seq<u8>, i: int, sep: u8)
    requires
        0 <= i < s.len(),
        s[i] == sep,
        i == 0 || i == s.len() - 1 || s[i + 1] == sep,
    ensures
        exists|k: int| 0 <= k < split(s, sep).len() && #[trigger] split(s, sep)[k].len() == 0,
{
    if i == s.len() - 1 {
        let k = split(s, sep).len() - 1;
        assert(split(s, sep)[k].len() == 0);
    } else if i == 0 {
        lemma_split_prefix(s, 0, sep);
        assert(s.take(0) =~= Seq::<u8>::empty());
        assert(split(s, sep)[0].len() == 0);
    } else {
        let upto = s.take(i + 1);
        assert(upto.last() == sep);
        let k = split(upto, sep).len() - 1;
        assert(split(upto, sep)[k].len() == 0);
        lemma_split_prefix(s, i + 1, sep);
        assert(split(s, sep)[k] == split(upto, sep)[k]);
    }
}

/// What holds of the separator and of all bytes of all pieces holds of all
/// bytes of the joined text.
pub proof fn lemma_join_bytes(pieces: Seq<Seq<u8>>, sep: u8, holds: spec_fn(u8) -> bool)
    requires
        holds(sep),
        forall|k: int, j: int|
            0 <= k < pieces.len() && 0 <= j < pieces[k].len() ==> holds(#[trigger] pieces[k][j]),
    ensures
        forall|i: int| 0 <= i < join(pieces, sep).len() ==> holds(#[trigger] join(pieces, sep)[i]),
    decreases pieces.len(),
{
    if pieces.len() >= 2 {
        let init = pieces.drop_last();
        assert forall|k: int, j: int| 0 <= k < init.len() && 0 <= j < init[k].len() implies holds(
            #[trigger] init[k][j],
        ) by {
            assert(init[k] == pieces[k]);
        }
        lemma_join_bytes(init, sep, holds);
        let head = join(init, sep).push(sep);
        let last = pieces.last();
        assert forall|i: int| 0 <= i < join(pieces, sep).len() implies holds(
            #[trigger] join(pieces, sep)[i],
        ) by {
            if i < head.len() - 1 {
                assert(join(pieces, sep)[i] == join(init, sep)[i]);
            } else if i == head.len() - 1 {
                assert(join(pieces, sep)[i] == sep);
            } else {
                assert(join(pieces, sep)[i] == last[i - head.len()]);
                assert(holds(pieces[pieces.len() - 1][i - head.len()]));
            }
        }
    } else if pieces.len() == 1 {
        assert forall|i: int| 0 <= i < join(pieces, sep).len() implies holds(
            #[trigger] join(pieces, sep)[i],
        ) by {
            assert(holds(pieces[0][i]));
        }
    }
}

} // verus!
