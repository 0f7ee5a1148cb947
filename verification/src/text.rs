//! Splitting of comma-separated lists, as the request parameters and the
//! migration switch write them.

use vstd::prelude::*;
use vstd::string::*;

verus! {

/// The pieces of `s` between occurrences of `sep`, in order; a string with no
/// separator is one piece, and two adjacent separators enclose an empty piece.
pub open spec fn split_on(s: Seq<char>, sep: char) -> Seq<Seq<char>>
    decreases s.len(),
{
    if s.len() == 0 {
        seq![Seq::<char>::empty()]
    } else {
        let rest = split_on(s.drop_last(), sep);
        if s.last() == sep {
            rest.push(Seq::<char>::empty())
        } else {
            rest.update(rest.len() - 1, rest.last().push(s.last()))
        }
    }
}

/// The pieces written one after another with `sep` between neighbours.
pub open spec fn join_with(pieces: Seq<Seq<char>>, sep: char) -> Seq<char>
    decreases pieces.len(),
{
    if pieces.len() == 0 {
        Seq::<char>::empty()
    } else if pieces.len() == 1 {
        pieces[0]
    } else {
        join_with(pieces.drop_last(), sep) + seq![sep] + pieces.last()
    }
}

/// The views of a sequence of strings.
pub open spec fn views(v: Seq<String>) -> Seq<Seq<char>> {
    v.map_values(|x: String| x@)
}

proof fn lemma_split_nonempty(s: Seq<char>, sep: char)
    ensures
        split_on(s, sep).len() >= 1,
    decreases s.len(),
{
    if s.len() > 0 {
        lemma_split_nonempty(s.drop_last(), sep);
    }
}

/// Splitting and joining again with the same separator gives back the string,
/// and no piece holds the separator.
pub proof fn lemma_split_join(s: Seq<char>, sep: char)
    ensures
        join_with(split_on(s, sep), sep) == s,
        forall|i: int|
            0 <= i < split_on(s, sep).len() ==> !(#[trigger] split_on(s, sep)[i]).contains(sep),
    decreases s.len(),
{
    if s.len() > 0 {
        let t = s.drop_last();
        lemma_split_join(t, sep);
        lemma_split_nonempty(t, sep);
        let rest = split_on(t, sep);
        if s.last() == sep {
            assert(rest.push(Seq::<char>::empty()).drop_last() =~= rest);
            assert(s =~= t + seq![sep] + Seq::<char>::empty());
            let r = rest.push(Seq::<char>::empty());
            assert forall|i: int| 0 <= i < r.len() implies !(#[trigger] r[i]).contains(sep) by {
                if i < rest.len() {
                    assert(r[i] == rest[i]);
                }
            }
        } else {
            let n = rest.len();
            let r = rest.update(n - 1, rest.last().push(s.last()));
            assert forall|i: int| 0 <= i < r.len() implies !(#[trigger] r[i]).contains(sep) by {
                if i < n - 1 {
                    assert(r[i] == rest[i]);
                } else {
                    let p = rest.last().push(s.last());
                    assert forall|j: int| 0 <= j < p.len() implies p[j] != sep by {
                        if j < p.len() - 1 {
                            assert(p[j] == rest.last()[j]);
                        }
                    }
                }
            }
            if n == 1 {
                assert(s =~= rest.last().push(s.last()));
            } else {
                assert(r.drop_last() =~= rest.drop_last());
                assert(t == join_with(rest.drop_last(), sep) + seq![sep] + rest.last());
                assert(s =~= t.push(s.last()));
                assert(s =~= join_with(rest.drop_last(), sep) + seq![sep] + rest.last().push(
                    s.last(),
                ));
            }
        }
    }
}

/// Splits `s` at every `,`, keeping empty pieces.
pub fn split_commas(s: &str) -> (pieces: Vec<String>)
    ensures
        views(pieces@) == split_on(s@, ','),
{
    let n = s.unicode_len();
    let mut pieces: Vec<String> = Vec::new();
    let mut start: usize = 0;
    let mut i: usize = 0;
    assert(s@.subrange(0, 0) =~= Seq::<char>::empty());
    assert(views(pieces@).push(s@.subrange(0, 0)) =~= seq![Seq::<char>::empty()]);
    while i < n
        invariant
            n == s@.len(),
            start <= i <= n,
            views(pieces@).push(s@.subrange(start as int, i as int)) == split_on(
                s@.subrange(0, i as int),
                ',',
            ),
        decreases n - i,
    {
        let c = s.get_char(i);
        let ghost t = s@.subrange(0, i + 1);
        assert(t.drop_last() =~= s@.subrange(0, i as int));
        assert(t.last() == c);
        if c == ',' {
            let piece = String::from_str(s.substring_char(start, i));
            let ghost old_views = views(pieces@);
            pieces.push(piece);
            assert(views(pieces@) =~= old_views.push(s@.subrange(start as int, i as int)));
            assert(s@.subrange(i + 1, i + 1) =~= Seq::<char>::empty());
            start = i + 1;
        } else {
            assert(s@.subrange(start as int, i as int).push(c) =~= s@.subrange(
                start as int,
                i + 1,
            ));
            let ghost v = views(pieces@);
            assert(v.push(s@.subrange(start as int, i as int)).update(
                v.len() as int,
                s@.subrange(start as int, i + 1),
            ) =~= v.push(s@.subrange(start as int, i + 1)));
        }
        i = i + 1;
    }
    let last = String::from_str(s.substring_char(start, n));
    let ghost old_views = views(pieces@);
    pieces.push(last);
    assert(views(pieces@) =~= old_views.push(s@.subrange(start as int, n as int)));
    assert(s@.subrange(0, n as int) =~= s@);
    pieces
}

/// Whether `item` is one of the comma-separated entries of `list`.
pub fn comma_list_contains(list: &str, item: &str) -> (res: bool)
    ensures
        res == split_on(list@, ',').contains(item@),
{
    let pieces = split_commas(list);
    let target = String::from_str(item);
    let mut j: usize = 0;
    while j < pieces.len()
        invariant
            j <= pieces@.len(),
            target@ == item@,
            views(pieces@) == split_on(list@, ','),
            forall|k: int| 0 <= k < j ==> pieces@[k]@ != item@,
        decreases pieces@.len() - j,
    {
        if pieces[j] == target {
            assert(views(pieces@)[j as int] == item@);
            return true;
        }
        j = j + 1;
    }
    assert forall|k: int| 0 <= k < split_on(list@, ',').len() implies split_on(list@, ',')[k]
        != item@ by {
        assert(views(pieces@)[k] == pieces@[k]@);
    }
    false
}

} // verus!
