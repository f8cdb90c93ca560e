//! Splitting and joining of character sequences.
//!
//! A text is cut at every occurrence of a separator character into its
//! pieces, and a list of pieces is joined back with a separator between each
//! two neighbours. The two are inverse to each other on pieces that do not
//! hold the separator themselves.

use vstd::prelude::*;

verus! {

/// `s` holds no `c`.
pub open spec fn free_of(s: Seq<char>, c: char) -> bool {
    forall|i: int| 0 <= i < s.len() ==> s[i] != c
}

/// The position of the first `c` in `s`, or `s.len()` where `s` holds none.
pub open spec fn first_index_of(s: Seq<char>, c: char) -> nat
    decreases s.len(),
{
    if s.len() == 0 || s[0] == c {
        0
    } else {
        1 + first_index_of(s.drop_first(), c)
    }
}

/// The pieces of `s` between the occurrences of `sep`: what stands before the
/// first `sep`, then the pieces of what follows it. A text of `n` separators
/// has `n + 1` pieces, some of which may be empty; the empty text has one.
pub open spec fn pieces(s: Seq<char>, sep: char) -> Seq<Seq<char>>
    decreases s.len(),
{
    let i = first_index_of(s, sep) as int;
    if i >= s.len() {
        seq![s]
    } else {
        seq![s.take(i)] + pieces(s.skip(i + 1), sep)
    }
}

/// The parts in their order with `sep` between each two neighbours, and
/// nothing before the first or after the last. No parts give the empty text.
pub open spec fn joined(parts: Seq<Seq<char>>, sep: Seq<char>) -> Seq<char>
    decreases parts.len(),
{
    if parts.len() == 0 {
        Seq::empty()
    } else if parts.len() == 1 {
        parts[0]
    } else {
        joined(parts.drop_last(), sep) + sep + parts.last()
    }
}

/// The texts that a list of strings holds.
pub open spec fn texts(v: Seq<String>) -> Seq<Seq<char>> {
    Seq::new(v.len(), |i: int| v[i]@)
}

/// `first_index_of` is within the text, nothing before it is `c`, and where it
/// is not the length it is the place of a `c`.
pub proof fn lemma_first_index_of(s: Seq<char>, c: char)
    ensures
        first_index_of(s, c) <= s.len(),
        free_of(s.take(first_index_of(s, c) as int), c),
        first_index_of(s, c) < s.len() ==> s[first_index_of(s, c) as int] == c,
        first_index_of(s, c) == s.len() <==> free_of(s, c),
    decreases s.len(),
{
    if s.len() == 0 || s[0] == c {
    } else {
        let rest = s.drop_first();
        lemma_first_index_of(rest, c);
        let i = first_index_of(s, c) as int;
        assert forall|j: int| 0 <= j < i implies s.take(i)[j] != c by {
            if j > 0 {
                assert(rest.take(i - 1)[j - 1] == s[j]);
            }
        }
        if free_of(s, c) {
            assert forall|j: int| 0 <= j < rest.len() implies rest[j] != c by {
                assert(rest[j] == s[j + 1]);
            }
        }
        if first_index_of(rest, c) == rest.len() {
            assert forall|j: int| 0 <= j < s.len() implies s[j] != c by {
                if j > 0 {
                    assert(rest[j - 1] == s[j]);
                }
            }
        }
    }
}

/// A `c` at position `i` with none before it is the first.
pub proof fn lemma_first_index_is(s: Seq<char>, c: char, i: int)
    requires
        0 <= i <= s.len(),
        free_of(s.take(i), c),
        i < s.len() ==> s[i] == c,
    ensures
        first_index_of(s, c) == i,
{
    lemma_first_index_of(s, c);
    let k = first_index_of(s, c) as int;
    if k < i {
        assert(s.take(i)[k] == c);
    } else if k > i {
        assert(s.take(k)[i] == c);
    }
}

/// A text without the separator is its own single piece.
pub proof fn lemma_pieces_of_free(s: Seq<char>, sep: char)
    requires
        free_of(s, sep),
    ensures
        pieces(s, sep) == seq![s],
{
    lemma_first_index_of(s, sep);
}

/// Every text has a piece, and no piece holds the separator.
pub proof fn lemma_pieces_are_free(s: Seq<char>, sep: char)
    ensures
        pieces(s, sep).len() >= 1,
        forall|k: int| 0 <= k < pieces(s, sep).len() ==> free_of(#[trigger] pieces(s, sep)[k], sep),
    decreases s.len(),
{
    lemma_first_index_of(s, sep);
    let i = first_index_of(s, sep) as int;
    if i < s.len() {
        lemma_pieces_are_free(s.skip(i + 1), sep);
    }
}

/// Cutting distributes over a separator: the pieces of `a`, `sep`, `b` in a
/// row are the pieces of `a` followed by those of `b`.
pub proof fn lemma_pieces_concat(a: Seq<char>, b: Seq<char>, sep: char)
    ensures
        pieces(a + seq![sep] + b, sep) == pieces(a, sep) + pieces(b, sep),
    decreases a.len(),
{
    let whole = a + seq![sep] + b;
    lemma_first_index_of(a, sep);
    let i = first_index_of(a, sep) as int;
    assert(whole.take(i) =~= a.take(i));
    lemma_first_index_is(whole, sep, i);
    if i == a.len() {
        assert(whole.take(i) =~= a);
        assert(whole.skip(i + 1) =~= b);
    } else {
        let tail = a.skip(i + 1);
        assert(whole.skip(i + 1) =~= tail + seq![sep] + b);
        lemma_pieces_concat(tail, b, sep);
        assert(pieces(whole, sep) =~= pieces(a, sep) + pieces(b, sep));
    }
}

/// A character other than the separator at the end of a text lengthens the
/// last piece and leaves the others as they are.
pub proof fn lemma_pieces_push(s: Seq<char>, c: char, sep: char)
    requires
        c != sep,
    ensures
        pieces(s, sep).len() >= 1,
        pieces(s.push(c), sep) == pieces(s, sep).drop_last().push(pieces(s, sep).last().push(c)),
    decreases s.len(),
{
    let longer = s.push(c);
    lemma_first_index_of(s, sep);
    let i = first_index_of(s, sep) as int;
    if i == s.len() {
        assert forall|j: int| 0 <= j < longer.len() implies longer[j] != sep by {}
        lemma_pieces_of_free(longer, sep);
        assert(pieces(longer, sep) =~= pieces(s, sep).drop_last().push(
            pieces(s, sep).last().push(c),
        ));
    } else {
        assert(longer.take(i) =~= s.take(i));
        lemma_first_index_is(longer, sep, i);
        let tail = s.skip(i + 1);
        assert(longer.skip(i + 1) =~= tail.push(c));
        lemma_pieces_push(tail, c, sep);
        assert(pieces(longer, sep) =~= pieces(s, sep).drop_last().push(
            pieces(s, sep).last().push(c),
        ));
    }
}

/// Joining one more part puts the separator before it, unless it is the first.
pub proof fn lemma_joined_push(parts: Seq<Seq<char>>, part: Seq<char>, sep: Seq<char>)
    ensures
        joined(parts.push(part), sep) == if parts.len() == 0 {
            part
        } else {
            joined(parts, sep) + sep + part
        },
{
    assert(parts.push(part).drop_last() =~= parts);
}

/// Cutting undoes joining: parts that do not hold the separator, joined by it
/// and cut at it, come back as they were and in their order. No parts at all
/// are the one exception, for the empty text has one (empty) piece.
pub proof fn lemma_pieces_of_joined(parts: Seq<Seq<char>>, sep: char)
    requires
        parts.len() >= 1,
        forall|k: int| 0 <= k < parts.len() ==> free_of(#[trigger] parts[k], sep),
    ensures
        pieces(joined(parts, seq![sep]), sep) == parts,
    decreases parts.len(),
{
    if parts.len() == 1 {
        lemma_pieces_of_free(parts[0], sep);
        assert(seq![parts[0]] =~= parts);
    } else {
        let init = parts.drop_last();
        lemma_pieces_of_joined(init, sep);
        lemma_pieces_concat(joined(init, seq![sep]), parts.last(), sep);
        lemma_pieces_of_free(parts.last(), sep);
        assert(init + seq![parts.last()] =~= parts);
    }
}

/// Joining undoes cutting: the pieces of a text, joined by the separator they
/// were cut at, are the text.
pub proof fn lemma_joined_of_pieces(s: Seq<char>, sep: char)
    ensures
        joined(pieces(s, sep), seq![sep]) == s,
    decreases s.len(),
{
    lemma_first_index_of(s, sep);
    let i = first_index_of(s, sep) as int;
    if i < s.len() {
        let tail = s.skip(i + 1);
        lemma_joined_of_pieces(tail, sep);
        lemma_pieces_are_free(tail, sep);
        lemma_joined_prepend(s.take(i), pieces(tail, sep), seq![sep]);
        assert(s.take(i) + seq![sep] + tail =~= s);
    }
}

/// Joining with one more part in front puts the separator behind it.
pub proof fn lemma_joined_prepend(part: Seq<char>, parts: Seq<Seq<char>>, sep: Seq<char>)
    requires
        parts.len() >= 1,
    ensures
        joined(seq![part] + parts, sep) == part + sep + joined(parts, sep),
    decreases parts.len(),
{
    let all = seq![part] + parts;
    if parts.len() == 1 {
        assert(all.drop_last() =~= seq![part]);
        assert(joined(seq![part], sep) == part);
    } else {
        assert(all.drop_last() =~= seq![part] + parts.drop_last());
        lemma_joined_prepend(part, parts.drop_last(), sep);
        assert(joined(all, sep) =~= part + sep + joined(parts, sep));
    }
}

/// Cuts `s` at every `sep`.
pub fn split(s: &str, sep: char) -> (parts: Vec<String>)
    ensures
        texts(parts@) == pieces(s@, sep),
{
    let n = s.unicode_len();
    let mut parts: Vec<String> = Vec::new();
    let mut start: usize = 0;
    let mut i: usize = 0;
    proof {
        assert(s@.take(0) =~= Seq::<char>::empty());
        lemma_pieces_of_free(s@.take(0), sep);
        assert(texts(parts@).push(s@.subrange(0, 0)) =~= pieces(s@.take(0), sep));
    }
    for c in it: s.chars()
        invariant
            it.seq() == s@,
            n == s@.len(),
            i == it.index(),
            start <= i <= n,
            pieces(s@.take(i as int), sep) == texts(parts@).push(s@.subrange(start as int, i as int)),
    {
        let ghost before = s@.take(i as int);
        let ghost current = s@.subrange(start as int, i as int);
        let ghost done = texts(parts@);
        assert(s@.take(i + 1) =~= before.push(c));
        if c == sep {
            parts.push(String::from_str(s.substring_char(start, i)));
            proof {
                assert(before.push(c) =~= before + seq![sep] + Seq::<char>::empty());
                lemma_pieces_concat(before, Seq::<char>::empty(), sep);
                lemma_pieces_of_free(Seq::<char>::empty(), sep);
                assert(texts(parts@) =~= done.push(current));
                assert(s@.subrange(i + 1, i + 1) =~= Seq::<char>::empty());
            }
            start = i + 1;
        } else {
            proof {
                lemma_pieces_push(before, c, sep);
                assert(done.push(current).drop_last() =~= done);
                assert(s@.subrange(start as int, i + 1) =~= current.push(c));
            }
        }
        i = i + 1;
    }
    parts.push(String::from_str(s.substring_char(start, i)));
    proof {
        assert(s@.take(i as int) =~= s@);
        assert(texts(parts@) =~= pieces(s@, sep));
    }
    parts
}

/// Joins `parts` with `sep` between each two neighbours.
pub fn join(parts: &Vec<String>, sep: &str) -> (text: String)
    ensures
        text@ == joined(texts(parts@), sep@),
{
    let mut text = String::new();
    let mut i: usize = 0;
    assert(texts(parts@).take(0) =~= Seq::<Seq<char>>::empty());
    while i < parts.len()
        invariant
            i <= parts.len(),
            text@ == joined(texts(parts@).take(i as int), sep@),
        decreases parts.len() - i,
    {
        let ghost head = texts(parts@).take(i as int);
        if i > 0 {
            text.append(sep);
        }
        text.append(parts[i].as_str());
        proof {
            lemma_joined_push(head, parts@[i as int]@, sep@);
            assert(texts(parts@).take(i + 1) =~= head.push(parts@[i as int]@));
        }
        i = i + 1;
    }
    assert(texts(parts@).take(i as int) =~= texts(parts@));
    text
}

} // verus!
