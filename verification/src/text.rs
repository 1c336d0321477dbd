//! Text as a sequence of characters: where a pattern stands in a text, where it
//! stands first, and how a text falls apart at a separator.

use vstd::prelude::*;

verus! {

/// Whether `c` is one of the ten ASCII decimal digits.
pub open spec fn is_digit(c: char) -> bool {
    '0' <= c && c <= '9'
}

/// Whether every character of `s` is an ASCII decimal digit.
pub open spec fn all_digits(s: Seq<char>) -> bool {
    forall|i: int| 0 <= i < s.len() ==> is_digit(#[trigger] s[i])
}

/// Whether `pat` stands in `s` at position `i`.
pub open spec fn occurs_at(s: Seq<char>, pat: Seq<char>, i: int) -> bool {
    &&& 0 <= i
    &&& i + pat.len() <= s.len()
    &&& s.subrange(i, i + pat.len()) == pat
}

/// Whether `pat` stands somewhere in `s`.
pub open spec fn contains(s: Seq<char>, pat: Seq<char>) -> bool {
    exists|i: int| occurs_at(s, pat, i)
}

/// Whether `i` is the leftmost position at which `pat` stands in `s`.
pub open spec fn is_first_occurrence(s: Seq<char>, pat: Seq<char>, i: int) -> bool {
    &&& occurs_at(s, pat, i)
    &&& forall|j: int| 0 <= j < i ==> !occurs_at(s, pat, j)
}

/// The leftmost position at which `pat` stands in `s`, if it stands anywhere.
pub open spec fn first_occurrence(s: Seq<char>, pat: Seq<char>) -> Option<int> {
    if contains(s, pat) {
        Some(choose|i: int| is_first_occurrence(s, pat, i))
    } else {
        None
    }
}

/// The pieces into which `s` falls when every occurrence of `sep`, found from
/// the left and never overlapping an earlier one, is cut out. There is always
/// at least one piece; a text without the separator is its own single piece,
/// and so is any text when the separator is empty.
pub open spec fn split(s: Seq<char>, sep: Seq<char>) -> Seq<Seq<char>>
    decreases s.len(),
    via split_terminates
{
    if sep.len() == 0 {
        seq![s]
    } else {
        match first_occurrence(s, sep) {
            Some(i) => seq![s.take(i)] + split(s.skip(i + sep.len()), sep),
            None => seq![s],
        }
    }
}

#[via_fn]
proof fn split_terminates(s: Seq<char>, sep: Seq<char>) {
    lemma_first_occurrence_is_leftmost(s, sep);
}

/// The pieces put together again, with `sep` between each two.
pub open spec fn join(pieces: Seq<Seq<char>>, sep: Seq<char>) -> Seq<char>
    decreases pieces.len(),
{
    if pieces.len() == 0 {
        Seq::empty()
    } else if pieces.len() == 1 {
        pieces[0]
    } else {
        pieces[0] + sep + join(pieces.drop_first(), sep)
    }
}

/// What a vector of strings holds, as texts.
pub open spec fn texts(v: Seq<String>) -> Seq<Seq<char>> {
    Seq::new(v.len(), |i: int| v[i]@)
}

/// A pattern that stands somewhere in a text has a leftmost occurrence at or
/// before any position where it stands.
pub proof fn lemma_leftmost_exists(s: Seq<char>, pat: Seq<char>, i: int)
    requires
        occurs_at(s, pat, i),
    ensures
        exists|k: int| 0 <= k <= i && is_first_occurrence(s, pat, k),
    decreases i,
{
    if exists|j: int| 0 <= j < i && occurs_at(s, pat, j) {
        let j = choose|j: int| 0 <= j < i && occurs_at(s, pat, j);
        lemma_leftmost_exists(s, pat, j);
    } else {
        assert(is_first_occurrence(s, pat, i));
    }
}

/// The leftmost occurrence is unique, and `first_occurrence` names it.
pub proof fn lemma_first_occurrence(s: Seq<char>, pat: Seq<char>, i: int)
    requires
        is_first_occurrence(s, pat, i),
    ensures
        first_occurrence(s, pat) == Some(i),
{
    assert(occurs_at(s, pat, i));
    let k = choose|k: int| is_first_occurrence(s, pat, k);
    assert(is_first_occurrence(s, pat, k));
    if k < i {
        assert(!occurs_at(s, pat, k));
    }
    if i < k {
        assert(!occurs_at(s, pat, i));
    }
}

/// Whatever `first_occurrence` names is a leftmost occurrence.
pub proof fn lemma_first_occurrence_is_leftmost(s: Seq<char>, pat: Seq<char>)
    ensures
        first_occurrence(s, pat) matches Some(i) ==> is_first_occurrence(s, pat, i),
        first_occurrence(s, pat) is Some <==> contains(s, pat),
{
    if contains(s, pat) {
        let i = choose|i: int| occurs_at(s, pat, i);
        lemma_leftmost_exists(s, pat, i);
    }
}

/// An occurrence inside the window `[from, to)` of a text is an occurrence in
/// the text that ends inside the window, shifted by `from`.
pub proof fn lemma_occurs_in_window(s: Seq<char>, pat: Seq<char>, from: int, to: int, k: int)
    requires
        0 <= from <= to <= s.len(),
    ensures
        occurs_at(s.subrange(from, to), pat, k) <==> (0 <= k && from + k + pat.len() <= to
            && occurs_at(s, pat, from + k)),
{
    let w = s.subrange(from, to);
    if 0 <= k && from + k + pat.len() <= to {
        assert(w.subrange(k, k + pat.len()) =~= s.subrange(from + k, from + k + pat.len()));
    }
}

/// Splitting loses nothing and cuts everywhere: the pieces, joined by the
/// separator, are the text again, and no piece still holds the separator.
pub proof fn lemma_split_rejoins(s: Seq<char>, sep: Seq<char>)
    ensures
        split(s, sep).len() >= 1,
        join(split(s, sep), sep) == s,
        sep.len() > 0 ==> forall|k: int|
            0 <= k < split(s, sep).len() ==> !contains(#[trigger] split(s, sep)[k], sep),
    decreases s.len(),
{
    lemma_first_occurrence_is_leftmost(s, sep);
    if sep.len() > 0 {
        match first_occurrence(s, sep) {
            Some(i) => {
                let head = s.take(i);
                let rest = s.skip(i + sep.len());
                lemma_split_rejoins(rest, sep);
                let pieces = split(s, sep);
                assert(pieces.drop_first() =~= split(rest, sep));
                assert(s.subrange(i, i + sep.len()) == sep);
                assert(head + sep + rest =~= s);
                assert forall|k: int| 0 <= k < pieces.len() implies !contains(
                    #[trigger] pieces[k],
                    sep,
                ) by {
                    if k == 0 {
                        assert forall|j: int| !occurs_at(head, sep, j) by {
                            if occurs_at(head, sep, j) {
                                assert(head.subrange(j, j + sep.len()) =~= s.subrange(
                                    j,
                                    j + sep.len(),
                                ));
                                assert(occurs_at(s, sep, j));
                            }
                        }
                    } else {
                        assert(pieces[k] == split(rest, sep)[k - 1]);
                    }
                }
            },
            None => {},
        }
    }
}

/// The characters of a string slice, in order.
pub fn chars_of(s: &str) -> (v: Vec<char>)
    ensures
        v@ == s@,
{
    let mut v: Vec<char> = Vec::new();
    for c in it: s.chars()
        invariant
            v@ == it.seq().take(it.index()),
            it.seq() == s@,
    {
        v.push(c);
    }
    v
}

/// Tests a character for being an ASCII decimal digit.
pub fn char_is_digit(c: char) -> (r: bool)
    ensures
        r == is_digit(c),
{
    '0' <= c && c <= '9'
}

/// Tests whether a text holds ASCII decimal digits only.
pub fn is_all_digits(s: &str) -> (r: bool)
    ensures
        r == all_digits(s@),
{
    let v = chars_of(s);
    let mut i: usize = 0;
    while i < v.len()
        invariant
            i <= v.len(),
            v@ == s@,
            forall|j: int| 0 <= j < i ==> is_digit(#[trigger] s@[j]),
        decreases v.len() - i,
    {
        if !char_is_digit(v[i]) {
            return false;
        }
        i += 1;
    }
    true
}

/// Tests whether `pat` stands in `hay` at position `i`.
pub fn matches_at(hay: &[char], pat: &[char], i: usize) -> (r: bool)
    ensures
        r == occurs_at(hay@, pat@, i as int),
{
    if i > hay.len() || pat.len() > hay.len() - i {
        return false;
    }
    let mut k: usize = 0;
    while k < pat.len()
        invariant
            k <= pat.len(),
            i + pat.len() <= hay.len(),
            forall|m: int| 0 <= m < k ==> hay@[i + m] == pat@[m],
        decreases pat.len() - k,
    {
        if hay[i + k] != pat[k] {
            proof {
                let window = hay@.subrange(i as int, i + pat.len());
                assert(window[k as int] == hay@[i + k]);
            }
            return false;
        }
        k += 1;
    }
    assert(hay@.subrange(i as int, i + pat.len()) =~= pat@);
    true
}

/// The leftmost occurrence of `pat` inside the window `[from, to)` of `hay`, as
/// a position in `hay`.
pub(crate) fn find_in(hay: &[char], pat: &[char], from: usize, to: usize) -> (r: Option<usize>)
    requires
        from <= to <= hay.len(),
    ensures
        match r {
            Some(i) => from <= i && i + pat.len() <= to && is_first_occurrence(
                hay@.subrange(from as int, to as int),
                pat@,
                i - from,
            ),
            None => !contains(hay@.subrange(from as int, to as int), pat@),
        },
{
    let ghost window = hay@.subrange(from as int, to as int);
    let mut i: usize = from;
    while pat.len() <= to - i
        invariant
            from <= i <= to <= hay.len(),
            window == hay@.subrange(from as int, to as int),
            forall|j: int| 0 <= j < i - from ==> !occurs_at(window, pat@, j),
        decreases to - i,
    {
        proof {
            lemma_occurs_in_window(hay@, pat@, from as int, to as int, i - from);
        }
        if matches_at(hay, pat, i) {
            return Some(i);
        }
        assert(pat@.len() > 0) by {
            if pat@.len() == 0 {
                assert(hay@.subrange(i as int, i as int) =~= pat@);
            }
        }
        i += 1;
    }
    proof {
        assert forall|j: int| !occurs_at(window, pat@, j) by {
            if occurs_at(window, pat@, j) {
                assert(j + pat.len() <= to - from);
                assert(j < i - from);
            }
        }
    }
    None
}

/// The leftmost position at which `pat` stands in `hay`, if any.
pub fn find(hay: &[char], pat: &[char]) -> (r: Option<usize>)
    ensures
        match r {
            Some(i) => first_occurrence(hay@, pat@) == Some(i as int),
            None => first_occurrence(hay@, pat@) is None,
        },
{
    let r = find_in(hay, pat, 0, hay.len());
    proof {
        assert(hay@.subrange(0, hay.len() as int) =~= hay@);
        if let Some(i) = r {
            lemma_first_occurrence(hay@, pat@, i as int);
        }
    }
    r
}

/// Unfolds `split` once at the leftmost separator of the rest `[start, len)` of
/// a text.
proof fn lemma_split_step(s: Seq<char>, sep: Seq<char>, start: int, i: int)
    requires
        sep.len() > 0,
        0 <= start <= i,
        i + sep.len() <= s.len(),
        is_first_occurrence(s.subrange(start, s.len() as int), sep, i - start),
    ensures
        split(s.subrange(start, s.len() as int), sep) == seq![s.subrange(start, i)] + split(
            s.subrange(i + sep.len(), s.len() as int),
            sep,
        ),
{
    let rest = s.subrange(start, s.len() as int);
    lemma_first_occurrence(rest, sep, i - start);
    assert(rest.take(i - start) =~= s.subrange(start, i));
    assert(rest.skip(i - start + sep.len()) =~= s.subrange(i + sep.len(), s.len() as int));
}

/// Cuts a text at every occurrence of a separator, as `split` says. With an
/// empty separator the text stays whole.
pub fn split_text(s: &str, sep: &str) -> (out: Vec<String>)
    ensures
        texts(out@) == split(s@, sep@),
{
    let text = chars_of(s);
    let pat = chars_of(sep);
    let mut out: Vec<String> = Vec::new();
    if pat.len() == 0 {
        out.push(String::from_str(s));
        proof {
            lemma_first_occurrence_is_leftmost(s@, sep@);
            assert(texts(out@) =~= seq![s@]);
        }
        return out;
    }
    let n: usize = text.len();
    let mut start: usize = 0;
    assert(s@.subrange(0, n as int) =~= s@);
    loop
        invariant_except_break
            texts(out@) + split(s@.subrange(start as int, n as int), sep@) == split(s@, sep@),
        invariant
            pat@ == sep@,
            text@ == s@,
            n == text.len(),
            pat.len() > 0,
            start <= n,
        ensures
            texts(out@) == split(s@, sep@),
        decreases n - start,
    {
        let ghost before = out@;
        let ghost rest = s@.subrange(start as int, n as int);
        match find_in(text.as_slice(), pat.as_slice(), start, n) {
            Some(i) => {
                out.push(String::from_str(s.substring_char(start, i)));
                proof {
                    lemma_split_step(s@, sep@, start as int, i as int);
                    let piece = s@.subrange(start as int, i as int);
                    let after = split(s@.subrange(i + pat.len(), n as int), sep@);
                    assert(texts(out@) =~= texts(before) + seq![piece]);
                    assert(texts(out@) + after =~= texts(before) + split(rest, sep@));
                }
                start = i + pat.len();
            },
            None => {
                out.push(String::from_str(s.substring_char(start, n)));
                proof {
                    lemma_first_occurrence_is_leftmost(rest, sep@);
                    assert(split(rest, sep@) == seq![rest]);
                    assert(texts(out@) =~= texts(before) + seq![rest]);
                }
                break;
            },
        }
    }
    out
}

} // verus!
