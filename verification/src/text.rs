//! Text primitives over sequences of characters.
//!
//! The executable functions work on `Vec<char>`; their contracts speak of the
//! corresponding `Seq<char>`.

use vstd::prelude::*;

verus! {

/// The characters of `s`, in order.
pub fn to_chars(s: &str) -> (v: Vec<char>)
    ensures
        v@ == s@,
{
    let mut v: Vec<char> = Vec::new();
    for c in it: s.chars()
        invariant
            v@ == s@.take(it.index() as int),
            it.seq() == s@,
    {
        v.push(c);
    }
    v
}

/// The string made of the characters of `v`, in order.
pub fn to_string(v: &Vec<char>) -> (s: String)
    ensures
        s@ == v@,
{
    let mut s = String::new();
    let mut i: usize = 0;
    while i < v.len()
        invariant
            i <= v.len(),
            s@ == v@.take(i as int),
        decreases v.len() - i,
    {
        s.push(v[i]);
        proof {
            assert(v@.take(i as int).push(v@[i as int]) =~= v@.take(i + 1));
        }
        i += 1;
    }
    proof {
        assert(v@.take(v.len() as int) =~= v@);
    }
    s
}

/// A copy of `v[from..to]`.
pub fn slice(v: &Vec<char>, from: usize, to: usize) -> (r: Vec<char>)
    requires
        from <= to <= v.len(),
    ensures
        r@ == v@.subrange(from as int, to as int),
{
    let mut r: Vec<char> = Vec::new();
    let mut i: usize = from;
    while i < to
        invariant
            from <= i <= to <= v.len(),
            r@ == v@.subrange(from as int, i as int),
        decreases to - i,
    {
        r.push(v[i]);
        proof {
            assert(v@.subrange(from as int, i as int).push(v@[i as int]) =~= v@.subrange(
                from as int,
                i + 1,
            ));
        }
        i += 1;
    }
    r
}

/// Appends the characters of `tail` to `out`.
pub fn append(out: &mut Vec<char>, tail: &Vec<char>)
    ensures
        final(out)@ == old(out)@ + tail@,
{
    let mut i: usize = 0;
    while i < tail.len()
        invariant
            i <= tail.len(),
            out@ == old(out)@ + tail@.take(i as int),
        decreases tail.len() - i,
    {
        out.push(tail[i]);
        proof {
            assert((old(out)@ + tail@.take(i as int)).push(tail@[i as int]) =~= old(out)@
                + tail@.take(i + 1));
        }
        i += 1;
    }
    proof {
        assert(tail@.take(tail.len() as int) =~= tail@);
    }
}

/// Appends the characters of the string `tail` to `out`.
pub fn append_str(out: &mut Vec<char>, tail: &str)
    ensures
        final(out)@ == old(out)@ + tail@,
{
    let t = to_chars(tail);
    append(out, &t);
}

/// Whether `a` and `b` hold the same characters.
pub fn same(a: &Vec<char>, b: &Vec<char>) -> (r: bool)
    ensures
        r == (a@ == b@),
{
    if a.len() != b.len() {
        return false;
    }
    let mut i: usize = 0;
    while i < a.len()
        invariant
            i <= a.len(),
            a.len() == b.len(),
            forall|j: int| 0 <= j < i ==> a@[j] == b@[j],
        decreases a.len() - i,
    {
        if a[i] != b[i] {
            return false;
        }
        i += 1;
    }
    proof {
        assert(a@ =~= b@);
    }
    true
}

/// `pat` stands in `s` at index `i`.
pub open spec fn occurs_at(s: Seq<char>, pat: Seq<char>, i: int) -> bool {
    0 <= i && i + pat.len() <= s.len() && s.subrange(i, i + pat.len()) == pat
}

/// `pat` stands somewhere in `s`.
pub open spec fn contains(s: Seq<char>, pat: Seq<char>) -> bool {
    exists|i: int| occurs_at(s, pat, i)
}

/// The least index at or after `from` where `pat` stands in `s`, or -1.
pub open spec fn find_from(s: Seq<char>, pat: Seq<char>, from: int) -> int
    decreases s.len() - from,
{
    if from < 0 || from + pat.len() > s.len() {
        -1
    } else if occurs_at(s, pat, from) {
        from
    } else if from >= s.len() {
        -1
    } else {
        find_from(s, pat, from + 1)
    }
}

/// The least index where `pat` stands in `s`, or -1.
pub open spec fn find(s: Seq<char>, pat: Seq<char>) -> int {
    find_from(s, pat, 0)
}

/// `find_from` returns an occurrence with none before it, or -1 when there is none.
pub proof fn lemma_find_from(s: Seq<char>, pat: Seq<char>, from: int)
    requires
        0 <= from,
    ensures
        find_from(s, pat, from) == -1 || from <= find_from(s, pat, from),
        find_from(s, pat, from) >= 0 ==> occurs_at(s, pat, find_from(s, pat, from)),
        forall|j: int| from <= j && (j < find_from(s, pat, from) || find_from(s, pat, from) < 0)
            ==> !occurs_at(s, pat, j),
    decreases s.len() - from,
{
    if from + pat.len() > s.len() {
    } else if occurs_at(s, pat, from) {
    } else if from >= s.len() {
        assert(s.subrange(from, from + pat.len()) =~= pat);
    } else {
        lemma_find_from(s, pat, from + 1);
    }
}

/// `find` is at least 0 exactly when `pat` stands somewhere in `s`.
pub proof fn lemma_find_contains(s: Seq<char>, pat: Seq<char>)
    ensures
        find(s, pat) >= 0 <==> contains(s, pat),
        find(s, pat) >= 0 ==> occurs_at(s, pat, find(s, pat)),
        find(s, pat) >= -1,
{
    lemma_find_from(s, pat, 0);
    if contains(s, pat) {
        let i = choose|i: int| occurs_at(s, pat, i);
        assert(occurs_at(s, pat, i));
    }
}

/// Whether `pat` stands in `s` at index `i`.
pub fn stands_at(s: &Vec<char>, pat: &Vec<char>, i: usize) -> (r: bool)
    ensures
        r == occurs_at(s@, pat@, i as int),
{
    if pat.len() > s.len() || i > s.len() - pat.len() {
        return false;
    }
    let mut k: usize = 0;
    while k < pat.len()
        invariant
            k <= pat.len(),
            i + pat.len() <= s.len(),
            forall|j: int| 0 <= j < k ==> s@[i + j] == pat@[j],
        decreases pat.len() - k,
    {
        if s[i + k] != pat[k] {
            proof {
                assert(s@.subrange(i as int, i + pat.len())[k as int] == s@[i + k]);
            }
            return false;
        }
        k += 1;
    }
    proof {
        assert(s@.subrange(i as int, i + pat.len()) =~= pat@);
    }
    true
}

/// The least index at or after `from` where `pat` stands in `s`.
pub fn search_from(s: &Vec<char>, pat: &Vec<char>, from: usize) -> (r: Option<usize>)
    ensures
        match r {
            Some(i) => find_from(s@, pat@, from as int) == i,
            None => find_from(s@, pat@, from as int) == -1,
        },
{
    if pat.len() > s.len() {
        return None;
    }
    let last: usize = s.len() - pat.len();
    let mut i: usize = from;
    while i <= last
        invariant
            from <= i,
            last == s.len() - pat.len(),
            find_from(s@, pat@, from as int) == find_from(s@, pat@, i as int),
        decreases last - i,
    {
        if stands_at(s, pat, i) {
            return Some(i);
        }
        if i == last {
            proof {
                lemma_find_from(s@, pat@, i + 1);
            }
            return None;
        }
        i += 1;
    }
    None
}

/// The least index where `pat` stands in `s`.
pub fn search(s: &Vec<char>, pat: &Vec<char>) -> (r: Option<usize>)
    ensures
        match r {
            Some(i) => find(s@, pat@) == i,
            None => find(s@, pat@) == -1,
        },
        r is Some <==> contains(s@, pat@),
{
    proof {
        lemma_find_contains(s@, pat@);
    }
    search_from(s, pat, 0)
}

/// Whether `pat` stands somewhere in `s`.
pub fn includes(s: &Vec<char>, pat: &str) -> (r: bool)
    ensures
        r == contains(s@, pat@),
{
    let p = to_chars(pat);
    search(s, &p).is_some()
}

/// Whether `s` begins with `pat`.
pub fn begins_with(s: &Vec<char>, pat: &str) -> (r: bool)
    ensures
        r == pat@.is_prefix_of(s@),
{
    let p = to_chars(pat);
    let r = stands_at(s, &p, 0);
    proof {
        if p.len() <= s.len() {
            assert(s@.subrange(0, p@.len() as int) =~= s@.subrange(0int, 0int + p@.len()));
        }
    }
    r
}

/// Whether `s` ends with `pat`.
pub fn ends_with(s: &Vec<char>, pat: &str) -> (r: bool)
    ensures
        r == pat@.is_suffix_of(s@),
{
    let p = to_chars(pat);
    if p.len() > s.len() {
        return false;
    }
    let at: usize = s.len() - p.len();
    let r = stands_at(s, &p, at);
    proof {
        assert(s@.subrange(at as int, at + p@.len()) =~= s@.subrange(
            s@.len() - p@.len(),
            s@.len() as int,
        ));
    }
    r
}


/// White space as `str::trim` and `str::split_whitespace` understand it.
pub open spec fn is_space(c: char) -> bool {
    ||| '\u{9}' <= c <= '\u{d}'
    ||| c == ' '
    ||| c == '\u{85}'
    ||| c == '\u{a0}'
    ||| c == '\u{1680}'
    ||| '\u{2000}' <= c <= '\u{200a}'
    ||| c == '\u{2028}'
    ||| c == '\u{2029}'
    ||| c == '\u{202f}'
    ||| c == '\u{205f}'
    ||| c == '\u{3000}'
}

/// Whether `c` is white space.
pub fn space(c: char) -> (r: bool)
    ensures
        r == is_space(c),
{
    ('\u{9}' <= c && c <= '\u{d}') || c == ' ' || c == '\u{85}' || c == '\u{a0}' || c
        == '\u{1680}' || ('\u{2000}' <= c && c <= '\u{200a}') || c == '\u{2028}' || c
        == '\u{2029}' || c == '\u{202f}' || c == '\u{205f}' || c == '\u{3000}'
}

/// An ASCII decimal digit.
pub open spec fn is_digit(c: char) -> bool {
    '0' <= c <= '9'
}

/// Whether `c` is an ASCII decimal digit.
pub fn digit(c: char) -> (r: bool)
    ensures
        r == is_digit(c),
{
    '0' <= c && c <= '9'
}

/// `s` without its leading white space.
pub open spec fn trim_start(s: Seq<char>) -> Seq<char>
    decreases s.len(),
{
    if s.len() > 0 && is_space(s[0]) {
        trim_start(s.skip(1))
    } else {
        s
    }
}

/// `s` without its trailing white space.
pub open spec fn trim_end(s: Seq<char>) -> Seq<char>
    decreases s.len(),
{
    if s.len() > 0 && is_space(s.last()) {
        trim_end(s.drop_last())
    } else {
        s
    }
}

/// `s` without its leading and trailing white space.
pub open spec fn trim(s: Seq<char>) -> Seq<char> {
    trim_end(trim_start(s))
}

/// `s` without its leading and trailing white space.
pub fn trimmed(s: &Vec<char>) -> (r: Vec<char>)
    ensures
        r@ == trim(s@),
{
    let n = s.len();
    let mut a: usize = 0;
    proof {
        assert(s@.skip(0) =~= s@);
    }
    while a < n && space(s[a])
        invariant
            a <= n == s.len(),
            trim_start(s@) == trim_start(s@.skip(a as int)),
        decreases n - a,
    {
        proof {
            assert(s@.skip(a as int).skip(1) =~= s@.skip(a + 1));
        }
        a += 1;
    }
    proof {
        assert(a < n ==> s@.skip(a as int)[0] == s@[a as int]);
        assert(trim_start(s@) == s@.skip(a as int));
    }
    let mut b: usize = n;
    while b > a && space(s[b - 1])
        invariant
            a <= b <= n == s.len(),
            trim(s@) == trim_end(s@.subrange(a as int, b as int)),
        decreases b,
    {
        proof {
            assert(s@.subrange(a as int, b as int).drop_last() =~= s@.subrange(
                a as int,
                b - 1,
            ));
        }
        b -= 1;
    }
    proof {
        assert(s@.skip(a as int) =~= s@.subrange(a as int, n as int));
        assert(b > a ==> s@.subrange(a as int, b as int).last() == s@[b - 1]);
    }
    slice(s, a, b)
}

/// The least index of `c` in `s`, or -1.
pub open spec fn index_of(s: Seq<char>, c: char) -> int
    decreases s.len(),
{
    if s.len() == 0 {
        -1
    } else if s[0] == c {
        0
    } else {
        let r = index_of(s.skip(1), c);
        if r < 0 {
            -1
        } else {
            r + 1
        }
    }
}

/// `index_of` is the least index that holds `c`, and -1 when none does.
pub proof fn lemma_index_of(s: Seq<char>, c: char)
    ensures
        -1 <= index_of(s, c) < s.len(),
        index_of(s, c) >= 0 ==> s[index_of(s, c)] == c,
        forall|j: int| 0 <= j < s.len() && (j < index_of(s, c) || index_of(s, c) < 0) ==> s[j] != c,
    decreases s.len(),
{
    if s.len() == 0 {
    } else if s[0] == c {
    } else {
        lemma_index_of(s.skip(1), c);
        assert forall|j: int| 0 <= j < s.len() && (j < index_of(s, c) || index_of(s, c) < 0) implies s[j] != c by {
            if j > 0 {
                assert(s.skip(1)[j - 1] == s[j]);
            }
        }
    }
}

/// An index that holds `c` with none before it is `index_of`.
pub proof fn lemma_index_of_is(s: Seq<char>, c: char, k: int)
    requires
        0 <= k <= s.len(),
        forall|j: int| 0 <= j < k ==> s[j] != c,
        k < s.len() ==> s[k] == c,
    ensures
        index_of(s, c) == (if k < s.len() { k } else { -1 }),
{
    lemma_index_of(s, c);
}

/// The least index at or after `from` that holds `c`.
pub fn position(s: &Vec<char>, c: char, from: usize) -> (r: Option<usize>)
    requires
        from <= s.len(),
    ensures
        match r {
            Some(i) => from <= i < s.len() && index_of(s@.skip(from as int), c) == i - from,
            None => index_of(s@.skip(from as int), c) == -1,
        },
{
    let mut i: usize = from;
    while i < s.len()
        invariant
            from <= i <= s.len(),
            forall|j: int| from <= j < i ==> s@[j] != c,
        decreases s.len() - i,
    {
        if s[i] == c {
            proof {
                lemma_index_of_is(s@.skip(from as int), c, i - from);
            }
            return Some(i);
        }
        i += 1;
    }
    proof {
        lemma_index_of_is(s@.skip(from as int), c, s@.len() - from);
    }
    None
}

/// The pieces of `s` between occurrences of `sep`; always at least one piece.
pub open spec fn split(s: Seq<char>, sep: char) -> Seq<Seq<char>>
    decreases s.len(),
{
    let i = index_of(s, sep);
    if i < 0 || i >= s.len() {
        seq![s]
    } else {
        seq![s.take(i)] + split(s.skip(i + 1), sep)
    }
}

/// The views of a vector of character vectors.
pub open spec fn views(v: Seq<Vec<char>>) -> Seq<Seq<char>> {
    v.map_values(|x: Vec<char>| x@)
}

/// The pieces of `s` between occurrences of `sep`.
pub fn split_on(s: &Vec<char>, sep: char) -> (r: Vec<Vec<char>>)
    ensures
        views(r@) == split(s@, sep),
{
    let mut out: Vec<Vec<char>> = Vec::new();
    let mut start: usize = 0;
    proof {
        assert(s@.skip(0) =~= s@);
        assert(views(out@) + split(s@, sep) =~= split(s@, sep));
    }
    loop
        invariant
            start <= s.len(),
            split(s@, sep) == views(out@) + split(s@.skip(start as int), sep),
        decreases s.len() - start,
    {
        let ghost before = views(out@);
        match position(s, sep, start) {
            Some(i) => {
                let piece = slice(s, start, i);
                out.push(piece);
                proof {
                    let rest = s@.skip(start as int);
                    assert(rest.take(i - start) =~= s@.subrange(start as int, i as int));
                    assert(rest.skip(i - start + 1) =~= s@.skip(i + 1));
                    assert(views(out@) =~= before.push(piece@));
                    assert(before + (seq![piece@] + split(s@.skip(i + 1), sep)) =~= before.push(
                        piece@,
                    ) + split(s@.skip(i + 1), sep));
                }
                start = i + 1;
            },
            None => {
                let piece = slice(s, start, s.len());
                out.push(piece);
                proof {
                    assert(s@.skip(start as int) =~= s@.subrange(start as int, s@.len() as int));
                    assert(views(out@) =~= before.push(piece@));
                    assert(before + seq![piece@] =~= before.push(piece@));
                }
                return out;
            },
        }
    }
}

/// `s` without one trailing carriage return.
pub open spec fn chomp_cr(s: Seq<char>) -> Seq<char> {
    if s.len() > 0 && s.last() == '\r' {
        s.drop_last()
    } else {
        s
    }
}

/// The lines of `s`: split after each line feed, the line feed and one carriage
/// return before it removed; an unterminated last line is kept as it is.
pub open spec fn lines(s: Seq<char>) -> Seq<Seq<char>>
    decreases s.len(),
{
    let i = index_of(s, '\n');
    if s.len() == 0 {
        Seq::empty()
    } else if i < 0 || i >= s.len() {
        seq![s]
    } else {
        seq![chomp_cr(s.take(i))] + lines(s.skip(i + 1))
    }
}

/// The lines of `s`.
pub fn split_lines(s: &Vec<char>) -> (r: Vec<Vec<char>>)
    ensures
        views(r@) == lines(s@),
{
    let mut out: Vec<Vec<char>> = Vec::new();
    let mut start: usize = 0;
    proof {
        assert(s@.skip(0) =~= s@);
        assert(views(out@) + lines(s@) =~= lines(s@));
    }
    while start < s.len()
        invariant
            start <= s.len(),
            lines(s@) == views(out@) + lines(s@.skip(start as int)),
        decreases s.len() - start,
    {
        let ghost before = views(out@);
        match position(s, '\n', start) {
            Some(i) => {
                let end: usize = if i > start && s[i - 1] == '\r' {
                    i - 1
                } else {
                    i
                };
                let piece = slice(s, start, end);
                out.push(piece);
                proof {
                    let rest = s@.skip(start as int);
                    assert(rest.take(i - start) =~= s@.subrange(start as int, i as int));
                    assert(rest.skip(i - start + 1) =~= s@.skip(i + 1));
                    assert(chomp_cr(s@.subrange(start as int, i as int)) =~= piece@);
                    assert(views(out@) =~= before.push(piece@));
                    assert(before + (seq![piece@] + lines(s@.skip(i + 1))) =~= before.push(piece@)
                        + lines(s@.skip(i + 1)));
                }
                start = i + 1;
            },
            None => {
                let piece = slice(s, start, s.len());
                out.push(piece);
                proof {
                    assert(s@.skip(start as int) =~= s@.subrange(start as int, s@.len() as int));
                    assert(views(out@) =~= before.push(piece@));
                    assert(before + seq![piece@] =~= before.push(piece@));
                }
                return out;
            },
        }
    }
    proof {
        assert(views(out@) + Seq::<Seq<char>>::empty() =~= views(out@));
    }
    out
}


/// `s` after every leading repetition of `pat` is removed.
pub open spec fn strip_leading(s: Seq<char>, pat: Seq<char>) -> Seq<char>
    decreases s.len(),
{
    if pat.len() > 0 && pat.is_prefix_of(s) {
        strip_leading(s.skip(pat.len() as int), pat)
    } else {
        s
    }
}

/// `s` without the leading repetitions of `pat`.
pub fn without_leading(s: &Vec<char>, pat: &str) -> (r: Vec<char>)
    ensures
        r@ == strip_leading(s@, pat@),
{
    let p = to_chars(pat);
    let mut at: usize = 0;
    proof {
        assert(s@.skip(0) =~= s@);
    }
    if p.len() == 0 {
        return slice(s, 0, s.len());
    }
    while stands_at(s, &p, at)
        invariant
            at <= s.len(),
            p@ == pat@,
            p@.len() > 0,
            strip_leading(s@, pat@) == strip_leading(s@.skip(at as int), pat@),
        decreases s.len() - at,
    {
        proof {
            let rest = s@.skip(at as int);
            assert(rest.subrange(0, p@.len() as int) =~= s@.subrange(at as int, at + p@.len()));
            assert(rest.skip(p@.len() as int) =~= s@.skip(at + p@.len()));
        }
        at += p.len();
    }
    proof {
        let rest = s@.skip(at as int);
        if p@.len() <= rest.len() {
            assert(rest.subrange(0, p@.len() as int) =~= s@.subrange(at as int, at + p@.len()));
        }
        assert(rest =~= s@.subrange(at as int, s@.len() as int));
    }
    slice(s, at, s.len())
}

/// `s` after every trailing repetition of `pat` is removed.
pub open spec fn strip_trailing(s: Seq<char>, pat: Seq<char>) -> Seq<char>
    decreases s.len(),
{
    if pat.len() > 0 && pat.is_suffix_of(s) {
        strip_trailing(s.take(s.len() - pat.len()), pat)
    } else {
        s
    }
}

/// `s` without the trailing repetitions of `pat`.
pub fn without_trailing(s: &Vec<char>, pat: &str) -> (r: Vec<char>)
    ensures
        r@ == strip_trailing(s@, pat@),
{
    let p = to_chars(pat);
    let mut end: usize = s.len();
    proof {
        assert(s@.take(s@.len() as int) =~= s@);
    }
    if p.len() == 0 {
        return slice(s, 0, s.len());
    }
    while end >= p.len() && stands_at(s, &p, end - p.len())
        invariant
            end <= s.len(),
            p@ == pat@,
            p@.len() > 0,
            strip_trailing(s@, pat@) == strip_trailing(s@.take(end as int), pat@),
        decreases end,
    {
        proof {
            let head = s@.take(end as int);
            assert(head.subrange(head.len() - p@.len(), head.len() as int) =~= s@.subrange(
                end - p@.len(),
                end - p@.len() + p@.len(),
            ));
            assert(head.take(head.len() - p@.len()) =~= s@.take(end - p@.len()));
        }
        end -= p.len();
    }
    proof {
        let head = s@.take(end as int);
        if p@.len() <= head.len() {
            assert(head.subrange(head.len() - p@.len(), head.len() as int) =~= s@.subrange(
                end - p@.len(),
                end - p@.len() + p@.len(),
            ));
        }
        assert(head =~= s@.subrange(0, end as int));
    }
    slice(s, 0, end)
}

/// The length of the longest prefix of `s` without white space.
pub open spec fn word_len(s: Seq<char>) -> int
    decreases s.len(),
{
    if s.len() > 0 && !is_space(s[0]) {
        1 + word_len(s.skip(1))
    } else {
        0
    }
}

/// The first run of characters of `s` that are no white space, if there is one.
pub open spec fn first_word(s: Seq<char>) -> Option<Seq<char>> {
    let t = trim_start(s);
    if t.len() == 0 {
        None
    } else {
        Some(t.take(word_len(t)))
    }
}

/// The index at which the longest suffix of `s` without white space begins.
pub open spec fn last_word_start(s: Seq<char>) -> int
    decreases s.len(),
{
    if s.len() > 0 && !is_space(s.last()) {
        last_word_start(s.drop_last())
    } else {
        s.len() as int
    }
}

/// The last run of characters of `s` that are no white space, if there is one.
pub open spec fn last_word(s: Seq<char>) -> Option<Seq<char>> {
    let t = trim_end(s);
    if t.len() == 0 {
        None
    } else {
        Some(t.skip(last_word_start(t)))
    }
}

/// The first run of characters that are no white space.
pub fn leading_word(s: &Vec<char>) -> (r: Option<Vec<char>>)
    ensures
        match r {
            Some(w) => first_word(s@) == Some(w@),
            None => first_word(s@) is None,
        },
{
    let n = s.len();
    let mut a: usize = 0;
    proof {
        assert(s@.skip(0) =~= s@);
    }
    while a < n && space(s[a])
        invariant
            a <= n == s.len(),
            trim_start(s@) == trim_start(s@.skip(a as int)),
        decreases n - a,
    {
        proof {
            assert(s@.skip(a as int).skip(1) =~= s@.skip(a + 1));
        }
        a += 1;
    }
    proof {
        assert(a < n ==> s@.skip(a as int)[0] == s@[a as int]);
        assert(trim_start(s@) == s@.skip(a as int));
    }
    if a == n {
        return None;
    }
    let ghost t = s@.skip(a as int);
    let mut b: usize = a;
    proof {
        assert(t.skip(0) =~= t);
    }
    while b < n && !space(s[b])
        invariant
            a <= b <= n == s.len(),
            t == s@.skip(a as int),
            word_len(t) == (b - a) + word_len(t.skip(b - a)),
        decreases n - b,
    {
        proof {
            assert(t.skip(b - a)[0] == s@[b as int]);
            assert(t.skip(b - a).skip(1) =~= t.skip(b - a + 1));
        }
        b += 1;
    }
    proof {
        assert(b < n ==> t.skip(b - a)[0] == s@[b as int]);
        assert(word_len(t) == b - a);
        assert(t.take(b - a) =~= s@.subrange(a as int, b as int));
    }
    Some(slice(s, a, b))
}

/// The last run of characters that are no white space.
pub fn trailing_word(s: &Vec<char>) -> (r: Option<Vec<char>>)
    ensures
        match r {
            Some(w) => last_word(s@) == Some(w@),
            None => last_word(s@) is None,
        },
{
    let n = s.len();
    let mut b: usize = n;
    proof {
        assert(s@.take(n as int) =~= s@);
    }
    while b > 0 && space(s[b - 1])
        invariant
            b <= n == s.len(),
            trim_end(s@) == trim_end(s@.take(b as int)),
        decreases b,
    {
        proof {
            assert(s@.take(b as int).drop_last() =~= s@.take(b - 1));
        }
        b -= 1;
    }
    proof {
        assert(b > 0 ==> s@.take(b as int).last() == s@[b - 1]);
        assert(trim_end(s@) == s@.take(b as int));
    }
    if b == 0 {
        return None;
    }
    let ghost t = s@.take(b as int);
    let mut a: usize = b;
    proof {
        assert(t.take(b as int) =~= t);
    }
    while a > 0 && !space(s[a - 1])
        invariant
            a <= b <= n == s.len(),
            t == s@.take(b as int),
            last_word_start(t) == last_word_start(t.take(a as int)),
        decreases a,
    {
        proof {
            assert(t.take(a as int).last() == s@[a - 1]);
            assert(t.take(a as int).drop_last() =~= t.take(a - 1));
        }
        a -= 1;
    }
    proof {
        assert(a > 0 ==> t.take(a as int).last() == s@[a - 1]);
        assert(last_word_start(t) == a);
        assert(t.skip(a as int) =~= s@.subrange(a as int, b as int));
    }
    Some(slice(s, a, b))
}


/// `a` followed by `b`.
pub fn concat2(a: &str, b: &str) -> (r: String)
    ensures
        r@ == a@ + b@,
{
    let mut out = to_chars(a);
    append_str(&mut out, b);
    to_string(&out)
}

/// `a` followed by `b` and `c`.
pub fn concat3(a: &str, b: &str, c: &str) -> (r: String)
    ensures
        r@ == a@ + b@ + c@,
{
    let mut out = to_chars(a);
    append_str(&mut out, b);
    append_str(&mut out, c);
    to_string(&out)
}

/// `a` followed by `b`, `c` and `d`.
pub fn concat4(a: &str, b: &str, c: &str, d: &str) -> (r: String)
    ensures
        r@ == a@ + b@ + c@ + d@,
{
    let mut out = to_chars(a);
    append_str(&mut out, b);
    append_str(&mut out, c);
    append_str(&mut out, d);
    to_string(&out)
}

/// `a` followed by `b`, `c`, `d` and `e`.
pub fn concat5(a: &str, b: &str, c: &str, d: &str, e: &str) -> (r: String)
    ensures
        r@ == a@ + b@ + c@ + d@ + e@,
{
    let mut out = to_chars(a);
    append_str(&mut out, b);
    append_str(&mut out, c);
    append_str(&mut out, d);
    append_str(&mut out, e);
    to_string(&out)
}

/// The first line of `s`, where it has one.
pub open spec fn first_line(s: Seq<char>) -> Option<Seq<char>> {
    if lines(s).len() > 0 {
        Some(lines(s)[0])
    } else {
        None
    }
}

/// The first line of `s`.
pub fn leading_line(s: &Vec<char>) -> (r: Option<Vec<char>>)
    ensures
        match r {
            Some(line) => first_line(s@) == Some(line@),
            None => first_line(s@) is None,
        },
{
    let all = split_lines(s);
    proof {
        assert(views(all@).len() == all@.len());
    }
    if all.len() > 0 {
        proof {
            assert(views(all@)[0] == all@[0]@);
        }
        Some(slice(&all[0], 0, all[0].len()))
    } else {
        None
    }
}

/// The strings of a vector of character vectors.
pub fn to_strings(v: &Vec<Vec<char>>) -> (r: Vec<String>)
    ensures
        r@.len() == v@.len(),
        forall|i: int| 0 <= i < v@.len() ==> (#[trigger] r@[i])@ == v@[i]@,
{
    let mut r: Vec<String> = Vec::new();
    let mut i: usize = 0;
    while i < v.len()
        invariant
            i <= v.len(),
            r@.len() == i,
            forall|j: int| 0 <= j < i ==> (#[trigger] r@[j])@ == v@[j]@,
        decreases v.len() - i,
    {
        r.push(to_string(&v[i]));
        i += 1;
    }
    r
}


/// `s` after every leading and every trailing repetition of `pat` is removed.
pub open spec fn strip_both(s: Seq<char>, pat: Seq<char>) -> Seq<char> {
    strip_trailing(strip_leading(s, pat), pat)
}

/// `s` without the leading and trailing repetitions of `pat`.
pub fn without_both(s: &Vec<char>, pat: &str) -> (r: Vec<char>)
    ensures
        r@ == strip_both(s@, pat@),
{
    let head = without_leading(s, pat);
    without_trailing(&head, pat)
}

/// The first piece of `s` between occurrences of `sep`.
pub fn first_piece(s: &Vec<char>, sep: char) -> (r: Vec<char>)
    ensures
        r@ == split(s@, sep)[0],
{
    proof {
        assert(s@.skip(0) =~= s@);
    }
    match position(s, sep, 0) {
        Some(i) => {
            proof {
                assert(s@.take(i as int) =~= s@.subrange(0, i as int));
            }
            slice(s, 0, i)
        },
        None => {
            proof {
                assert(s@ =~= s@.subrange(0, s@.len() as int));
            }
            slice(s, 0, s.len())
        },
    }
}


/// The runs of characters of `s` that are no white space, in their order.
pub open spec fn words(s: Seq<char>) -> Seq<Seq<char>>
    decreases s.len(),
{
    let t = trim_start(s);
    let n = word_len(t);
    if t.len() == 0 || t.len() > s.len() || n <= 0 || n > t.len() {
        Seq::empty()
    } else {
        seq![t.take(n)] + words(t.skip(n))
    }
}

/// The length of a word is within the text.
pub proof fn lemma_word_len(s: Seq<char>)
    ensures
        0 <= word_len(s) <= s.len(),
        s.len() > 0 && !is_space(s[0]) ==> word_len(s) > 0,
    decreases s.len(),
{
    if s.len() > 0 && !is_space(s[0]) {
        lemma_word_len(s.skip(1));
    }
}

/// The runs of characters that are no white space.
pub fn split_words(s: &Vec<char>) -> (r: Vec<Vec<char>>)
    ensures
        views(r@) == words(s@),
{
    let n = s.len();
    let mut out: Vec<Vec<char>> = Vec::new();
    let mut at: usize = 0;
    proof {
        assert(s@.skip(0) =~= s@);
        assert(views(out@) + words(s@) =~= words(s@));
    }
    loop
        invariant
            at <= n == s.len(),
            words(s@) == views(out@) + words(s@.skip(at as int)),
        decreases n - at,
    {
        let ghost rest = s@.skip(at as int);
        let mut a: usize = at;
        while a < n && space(s[a])
            invariant
                at <= a <= n == s.len(),
                rest == s@.skip(at as int),
                trim_start(rest) == trim_start(s@.skip(a as int)),
            decreases n - a,
        {
            proof {
                assert(s@.skip(a as int).skip(1) =~= s@.skip(a + 1));
            }
            a += 1;
        }
        proof {
            assert(a < n ==> s@.skip(a as int)[0] == s@[a as int]);
            assert(trim_start(rest) == s@.skip(a as int));
            assert(trim_start(rest).len() <= rest.len());
        }
        let ghost t = s@.skip(a as int);
        if a == n {
            proof {
                assert(views(out@) + Seq::<Seq<char>>::empty() =~= views(out@));
            }
            return out;
        }
        let mut b: usize = a;
        proof {
            assert(t.skip(0) =~= t);
        }
        while b < n && !space(s[b])
            invariant
                a <= b <= n == s.len(),
                t == s@.skip(a as int),
                word_len(t) == (b - a) + word_len(t.skip(b - a)),
            decreases n - b,
        {
            proof {
                assert(t.skip(b - a)[0] == s@[b as int]);
                assert(t.skip(b - a).skip(1) =~= t.skip(b - a + 1));
            }
            b += 1;
        }
        proof {
            assert(b < n ==> t.skip(b - a)[0] == s@[b as int]);
            assert(word_len(t) == b - a);
            assert(t[0] == s@[a as int]);
            lemma_word_len(t);
            assert(b > a);
            assert(t.take(b - a) =~= s@.subrange(a as int, b as int));
            assert(t.skip(b - a) =~= s@.skip(b as int));
        }
        let ghost before = views(out@);
        let word = slice(s, a, b);
        out.push(word);
        proof {
            assert(views(out@) =~= before.push(word@));
            assert(before + (seq![word@] + words(s@.skip(b as int))) =~= before.push(word@)
                + words(s@.skip(b as int)));
        }
        at = b;
    }
}

/// How two texts compare, character by character: -1, 0 or 1. The first
/// pair of unequal characters decides; where there is none, the shorter
/// text is the lesser.
pub open spec fn text_order(a: Seq<char>, b: Seq<char>) -> int
    decreases a.len(),
{
    if a.len() == 0 && b.len() == 0 {
        0
    } else if a.len() == 0 {
        -1
    } else if b.len() == 0 {
        1
    } else if a[0] < b[0] {
        -1
    } else if a[0] > b[0] {
        1
    } else {
        text_order(a.skip(1), b.skip(1))
    }
}

/// How `a` and `b` compare: -1, 0 or 1.
pub fn compare_text(a: &str, b: &str) -> (r: i8)
    ensures
        r == text_order(a@, b@),
        r == -1 || r == 0 || r == 1,
{
    let x = to_chars(a);
    let y = to_chars(b);
    let mut i: usize = 0;
    proof {
        assert(x@.skip(0) =~= x@);
        assert(y@.skip(0) =~= y@);
    }
    while i < x.len() && i < y.len()
        invariant
            i <= x.len(),
            i <= y.len(),
            x@ == a@,
            y@ == b@,
            text_order(x@, y@) == text_order(x@.skip(i as int), y@.skip(i as int)),
        decreases x.len() - i,
    {
        proof {
            assert(x@.skip(i as int)[0] == x@[i as int]);
            assert(y@.skip(i as int)[0] == y@[i as int]);
            assert(x@.skip(i as int).skip(1) =~= x@.skip(i + 1));
            assert(y@.skip(i as int).skip(1) =~= y@.skip(i + 1));
        }
        if x[i] < y[i] {
            return -1;
        }
        if x[i] > y[i] {
            return 1;
        }
        i += 1;
    }
    if x.len() < y.len() {
        -1
    } else if x.len() > y.len() {
        1
    } else {
        0
    }
}

/// The texts joined by `sep`.
pub open spec fn join_texts(parts: Seq<Seq<char>>, sep: Seq<char>) -> Seq<char>
    decreases parts.len(),
{
    if parts.len() == 0 {
        Seq::empty()
    } else if parts.len() == 1 {
        parts[0]
    } else {
        join_texts(parts.drop_last(), sep) + sep + parts.last()
    }
}

/// The strings joined by `sep`.
pub fn join_strings(parts: &Vec<String>, sep: &str) -> (r: String)
    ensures
        r@ == join_texts(parts@.map_values(|s: String| s@), sep@),
{
    let ghost all = parts@.map_values(|s: String| s@);
    let mut out: Vec<char> = Vec::new();
    let mut i: usize = 0;
    proof {
        assert(all.take(0) =~= Seq::<Seq<char>>::empty());
    }
    while i < parts.len()
        invariant
            i <= parts.len(),
            all == parts@.map_values(|s: String| s@),
            all.len() == parts@.len(),
            out@ == join_texts(all.take(i as int), sep@),
        decreases parts.len() - i,
    {
        proof {
            let next = all.take(i + 1);
            assert(next.drop_last() =~= all.take(i as int));
            assert(next.last() == parts@[i as int]@);
            if i == 0 {
                assert(next[0] == next.last());
                assert(out@ + parts@[i as int]@ =~= parts@[i as int]@);
            }
        }
        if i > 0 {
            append_str(&mut out, sep);
        }
        append_str(&mut out, parts[i].as_str());
        i += 1;
    }
    proof {
        assert(all.take(all.len() as int) =~= all);
    }
    to_string(&out)
}

/// `s` with every occurrence of the character `from` turned into `to`.
pub open spec fn replaced(s: Seq<char>, from: char, to: Seq<char>) -> Seq<char>
    decreases s.len(),
{
    if s.len() == 0 {
        Seq::empty()
    } else {
        replaced(s.drop_last(), from, to) + if s.last() == from {
            to
        } else {
            seq![s.last()]
        }
    }
}

/// `s` with every occurrence of the character `from` turned into `to`.
pub fn replace_char(s: &str, from: char, to: &str) -> (r: String)
    ensures
        r@ == replaced(s@, from, to@),
{
    let chars = to_chars(s);
    let with = to_chars(to);
    let mut out: Vec<char> = Vec::new();
    let mut i: usize = 0;
    proof {
        assert(chars@.take(0) =~= Seq::<char>::empty());
    }
    while i < chars.len()
        invariant
            i <= chars.len(),
            with@ == to@,
            out@ == replaced(chars@.take(i as int), from, to@),
        decreases chars.len() - i,
    {
        proof {
            let next = chars@.take(i + 1);
            assert(next.drop_last() =~= chars@.take(i as int));
            assert(next.last() == chars@[i as int]);
        }
        if chars[i] == from {
            append(&mut out, &with);
        } else {
            let ghost before = out@;
            out.push(chars[i]);
            proof {
                assert(out@ =~= before + seq![chars@[i as int]]);
            }
        }
        i += 1;
    }
    proof {
        assert(chars@.take(chars@.len() as int) =~= chars@);
    }
    to_string(&out)
}


/// The view of an optional vector of characters.
pub open spec fn opt_chars(o: Option<Vec<char>>) -> Option<Seq<char>> {
    match o {
        Some(v) => Some(v@),
        None => None,
    }
}

/// `s` without its trailing white space.
pub fn trimmed_end(s: &Vec<char>) -> (r: Vec<char>)
    ensures
        r@ == trim_end(s@),
{
    let mut b: usize = s.len();
    proof {
        assert(s@.take(b as int) =~= s@);
    }
    while b > 0 && space(s[b - 1])
        invariant
            b <= s.len(),
            trim_end(s@) == trim_end(s@.take(b as int)),
        decreases b,
    {
        proof {
            assert(s@.take(b as int).drop_last() =~= s@.take(b - 1));
        }
        b -= 1;
    }
    proof {
        assert(b > 0 ==> s@.take(b as int).last() == s@[b - 1]);
        assert(s@.take(b as int) =~= s@.subrange(0, b as int));
    }
    slice(s, 0, b)
}

/// `s` without its leading white space.
pub fn trimmed_start(s: &Vec<char>) -> (r: Vec<char>)
    ensures
        r@ == trim_start(s@),
{
    let n = s.len();
    let mut a: usize = 0;
    proof {
        assert(s@.skip(0) =~= s@);
    }
    while a < n && space(s[a])
        invariant
            a <= n == s.len(),
            trim_start(s@) == trim_start(s@.skip(a as int)),
        decreases n - a,
    {
        proof {
            assert(s@.skip(a as int).skip(1) =~= s@.skip(a + 1));
        }
        a += 1;
    }
    proof {
        assert(a < n ==> s@.skip(a as int)[0] == s@[a as int]);
        assert(s@.skip(a as int) =~= s@.subrange(a as int, n as int));
    }
    slice(s, a, n)
}

} // verus!
