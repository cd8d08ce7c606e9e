use vstd::prelude::*;
use vstd::string::StrSliceExecFns;

verus! {

broadcast use vstd::string::group_string_axioms;

/// The characters of `s`, in order.
pub fn chars_of(s: &str) -> (v: Vec<char>)
    ensures
        v@ == s@,
{
    let mut v: Vec<char> = Vec::new();
    for c in it: s.chars()
        invariant
            it.seq() == s@,
            v@ == it.seq().take(it.index()),
    {
        v.push(c);
    }
    v
}

/// The strings of a sequence, each taken by its view.
pub open spec fn string_views(v: Seq<String>) -> Seq<Seq<char>> {
    v.map_values(|p: String| p@)
}

/// The pieces of `s` between the occurrences of `sep`: one more piece than
/// there are separators, empty pieces included.
pub open spec fn split_on(s: Seq<char>, sep: char) -> Seq<Seq<char>>
    decreases s.len(),
{
    if s.len() == 0 {
        seq![Seq::<char>::empty()]
    } else {
        let pieces = split_on(s.drop_last(), sep);
        if s.last() == sep {
            pieces.push(Seq::<char>::empty())
        } else {
            pieces.update(pieces.len() - 1, pieces.last().push(s.last()))
        }
    }
}

proof fn lemma_split_on_nonempty(s: Seq<char>, sep: char)
    ensures
        split_on(s, sep).len() >= 1,
    decreases s.len(),
{
    if s.len() > 0 {
        lemma_split_on_nonempty(s.drop_last(), sep);
    }
}

/// The text of `s` from character `from` up to character `to`.
pub fn substring(s: &str, from: usize, to: usize) -> (r: String)
    requires
        from <= to <= s@.len(),
    ensures
        r@ == s@.subrange(from as int, to as int),
{
    s.substring_char(from, to).to_owned()
}

/// Splits `s` at every occurrence of `sep`, as `str::split` does with a
/// character pattern.
pub fn split_chars(s: &str, sep: char) -> (pieces: Vec<String>)
    ensures
        string_views(pieces@) == split_on(s@, sep),
{
    let cs = chars_of(s);
    let mut pieces: Vec<String> = Vec::new();
    let mut start: usize = 0;
    let mut i: usize = 0;
    assert(s@.take(0) =~= Seq::<char>::empty());
    assert(string_views(pieces@).push(s@.subrange(0, 0)) =~= split_on(s@.take(0), sep));
    while i < cs.len()
        invariant
            cs@ == s@,
            start <= i <= cs@.len(),
            string_views(pieces@).push(s@.subrange(start as int, i as int)) == split_on(
                s@.take(i as int),
                sep,
            ),
        decreases cs@.len() - i,
    {
        let ghost before = string_views(pieces@);
        let ghost prefix = s@.take(i as int);
        assert(s@.take(i + 1).drop_last() =~= prefix);
        assert(s@.take(i + 1).last() == s@[i as int]);
        proof {
            lemma_split_on_nonempty(prefix, sep);
        }
        if cs[i] == sep {
            let p = substring(s, start, i);
            pieces.push(p);
            start = i + 1;
            assert(string_views(pieces@) =~= before.push(p@));
            assert(split_on(s@.take(i + 1), sep) == split_on(prefix, sep).push(Seq::<char>::empty()));
            assert(s@.subrange(start as int, i + 1) =~= Seq::<char>::empty());
        } else {
            assert(s@.subrange(start as int, i + 1) =~= s@.subrange(start as int, i as int).push(
                s@[i as int],
            ));
            let ghost old_pieces = split_on(prefix, sep);
            assert(split_on(s@.take(i + 1), sep) == old_pieces.update(
                old_pieces.len() - 1,
                old_pieces.last().push(s@[i as int]),
            ));
            assert(before.push(s@.subrange(start as int, i + 1)) =~= old_pieces.update(
                old_pieces.len() - 1,
                old_pieces.last().push(s@[i as int]),
            ));
        }
        i = i + 1;
        assert(string_views(pieces@).push(s@.subrange(start as int, i as int)) =~= split_on(
            s@.take(i as int),
            sep,
        ));
    }
    let last = substring(s, start, cs.len());
    pieces.push(last);
    assert(s@.take(cs@.len() as int) =~= s@);
    assert(string_views(pieces@) =~= string_views(pieces@.drop_last()).push(last@));
    pieces
}

/// `pat` occurs in `s` starting at position `k`.
pub open spec fn occurs_at(s: Seq<char>, pat: Seq<char>, k: int) -> bool {
    0 <= k && k + pat.len() <= s.len() && s.subrange(k, k + pat.len()) == pat
}

/// The first position at or after `k` where `pat` occurs in `s`, or the
/// length of `s` where it occurs nowhere there.
pub open spec fn first_occurrence_from(s: Seq<char>, pat: Seq<char>, k: int) -> int
    decreases s.len() + 1 - k,
{
    if k < 0 || k + pat.len() > s.len() {
        s.len() as int
    } else if occurs_at(s, pat, k) {
        k
    } else {
        first_occurrence_from(s, pat, k + 1)
    }
}

/// Whether `pat` occurs in `s` starting at position `k`.
pub fn matches_at(s: &Vec<char>, pat: &Vec<char>, k: usize) -> (r: bool)
    ensures
        r == occurs_at(s@, pat@, k as int),
{
    if pat.len() > s.len() || k > s.len() - pat.len() {
        return false;
    }
    let n = s.len();
    let mut j: usize = 0;
    while j < pat.len()
        invariant
            n == s@.len(),
            k + pat@.len() <= s@.len(),
            j <= pat@.len(),
            forall|m: int| 0 <= m < j ==> s@[k + m] == pat@[m],
        decreases pat@.len() - j,
    {
        if s[k + j] != pat[j] {
            assert(s@.subrange(k as int, k + pat@.len())[j as int] != pat@[j as int]);
            return false;
        }
        j = j + 1;
    }
    assert(s@.subrange(k as int, k + pat@.len()) =~= pat@);
    true
}

/// The first position at or after `from` where `pat` occurs in `s`, or the
/// length of `s`.
pub fn find_from(s: &Vec<char>, pat: &Vec<char>, from: usize) -> (r: usize)
    requires
        pat@.len() > 0,
    ensures
        r == first_occurrence_from(s@, pat@, from as int),
{
    let mut k = from;
    while k < s.len() && pat.len() <= s.len() - k
        invariant
            from <= k,
            first_occurrence_from(s@, pat@, from as int) == first_occurrence_from(
                s@,
                pat@,
                k as int,
            ),
        decreases s@.len() + 1 - k,
    {
        if matches_at(s, pat, k) {
            return k;
        }
        k = k + 1;
    }
    s.len()
}

/// The pieces joined back together with the separator between them.
pub open spec fn join_with(pieces: Seq<Seq<char>>, sep: char) -> Seq<char>
    decreases pieces.len(),
{
    if pieces.len() <= 1 {
        if pieces.len() == 0 {
            Seq::empty()
        } else {
            pieces[0]
        }
    } else {
        join_with(pieces.drop_last(), sep).push(sep) + pieces.last()
    }
}

/// Splitting loses nothing and finds every separator: no piece holds the
/// separator, and joining the pieces with it gives the text back.
pub proof fn law_split_rejoins(s: Seq<char>, sep: char)
    ensures
        join_with(split_on(s, sep), sep) == s,
        forall|i: int| 0 <= i < split_on(s, sep).len() ==> !(#[trigger] split_on(s, sep)[i]).contains(sep),
    decreases s.len(),
{
    lemma_split_on_nonempty(s, sep);
    if s.len() > 0 {
        let p = split_on(s.drop_last(), sep);
        law_split_rejoins(s.drop_last(), sep);
        lemma_split_on_nonempty(s.drop_last(), sep);
        if s.last() == sep {
            let q = p.push(Seq::<char>::empty());
            assert(q.drop_last() =~= p);
            assert(join_with(q, sep) =~= s.drop_last().push(sep) + Seq::<char>::empty());
            assert(s.drop_last().push(sep) =~= s);
            assert forall|i: int| 0 <= i < q.len() implies !(#[trigger] q[i]).contains(sep) by {
                if i < p.len() {
                    assert(q[i] == p[i]);
                }
            }
        } else {
            let last = p.last().push(s.last());
            let q = p.update(p.len() - 1, last);
            assert forall|i: int| 0 <= i < q.len() implies !(#[trigger] q[i]).contains(sep) by {
                if i < p.len() - 1 {
                    assert(q[i] == p[i]);
                } else {
                    assert(!p[i].contains(sep));
                    if last.contains(sep) {
                        let j = choose|j: int| 0 <= j < last.len() && last[j] == sep;
                        if j < p[i].len() {
                            assert(p[i][j] == sep);
                        }
                    }
                }
            }
            if p.len() == 1 {
                assert(join_with(p, sep) == p[0]);
                assert(join_with(q, sep) == q[0]);
                assert(q[0] =~= s.drop_last().push(s.last()));
                assert(s.drop_last().push(s.last()) =~= s);
            } else {
                assert(q.drop_last() =~= p.drop_last());
                assert(join_with(p, sep) == join_with(p.drop_last(), sep).push(sep) + p.last());
                assert(join_with(q, sep) == join_with(p.drop_last(), sep).push(sep) + last);
                assert(join_with(q, sep) =~= join_with(p, sep).push(s.last()));
                assert(s.drop_last().push(s.last()) =~= s);
            }
        }
    }
}

/// The first occurrence at or after `k` is an occurrence, or there is none
/// there and the length of the text is returned; no earlier position from
/// `k` on holds one.
pub proof fn law_first_occurrence(s: Seq<char>, pat: Seq<char>, k: int)
    requires
        0 <= k <= s.len(),
    ensures
        k <= first_occurrence_from(s, pat, k) <= s.len(),
        first_occurrence_from(s, pat, k) < s.len() ==> occurs_at(
            s,
            pat,
            first_occurrence_from(s, pat, k),
        ),
        forall|j: int| k <= j < first_occurrence_from(s, pat, k) ==> !occurs_at(s, pat, j),
        first_occurrence_from(s, pat, k) == s.len() && pat.len() > 0 ==> forall|j: int|
            k <= j ==> !occurs_at(s, pat, j),
    decreases s.len() + 1 - k,
{
    if pat.len() == 0 {
        assert(s.subrange(k, k) =~= pat);
    }
    if k + pat.len() <= s.len() && !occurs_at(s, pat, k) {
        if k + 1 <= s.len() {
            law_first_occurrence(s, pat, k + 1);
        }
    }
}

} // verus!
