//! Character-level helpers shared by every module that reads or builds text.

use vstd::prelude::*;

verus! {

broadcast use vstd::string::group_string_axioms;

/// Appends one character to a string.
///
/// Wraps `String::push`; the contract claims only what its documentation says: the character
/// is added at the end and nothing else changes.
#[verifier::external_body]
pub(crate) fn push_char(s: &mut String, c: char)
    ensures
        final(s)@ == old(s)@.push(c),
{
    s.push(c);
}

/// The characters of a string slice, in order.
pub fn chars_of(s: &str) -> (v: Vec<char>)
    ensures
        v@ == s@,
{
    let mut v: Vec<char> = Vec::new();
    for c in it: s.chars()
        invariant
            v@ == it.seq().take(it.index() as int),
            it.seq() == s@,
    {
        v.push(c);
    }
    v
}

/// A string holding exactly the given characters.
pub fn string_of(v: &Vec<char>) -> (s: String)
    ensures
        s@ == v@,
{
    let mut s = String::new();
    let mut i: usize = 0;
    while i < v.len()
        invariant
            i <= v.len(),
            s@ == v@.take(i as int),
        decreases v.len() - i,
    {
        push_char(&mut s, v[i]);
        proof {
            assert(v@.take(i as int).push(v@[i as int]) =~= v@.take(i + 1));
        }
        i = i + 1;
    }
    proof {
        assert(v@.take(v.len() as int) =~= v@);
    }
    s
}


/// Unicode `White_Space`, which is what `char::is_whitespace` tests.
pub open spec fn is_ws(c: char) -> bool {
    let u = c as u32;
    ||| 0x9 <= u <= 0xd
    ||| u == 0x20
    ||| u == 0x85
    ||| u == 0xa0
    ||| u == 0x1680
    ||| 0x2000 <= u <= 0x200a
    ||| u == 0x2028
    ||| u == 0x2029
    ||| u == 0x202f
    ||| u == 0x205f
    ||| u == 0x3000
}

/// Whether a character is whitespace in the Unicode sense.
pub fn is_whitespace(c: char) -> (b: bool)
    ensures
        b == is_ws(c),
{
    let u = c as u32;
    (0x9 <= u && u <= 0xd) || u == 0x20 || u == 0x85 || u == 0xa0 || u == 0x1680 || (0x2000 <= u
        && u <= 0x200a) || u == 0x2028 || u == 0x2029 || u == 0x202f || u == 0x205f || u == 0x3000
}

/// The text with trailing whitespace removed.
pub open spec fn trim_end(s: Seq<char>) -> Seq<char>
    decreases s.len(),
{
    if s.len() > 0 && is_ws(s.last()) {
        trim_end(s.drop_last())
    } else {
        s
    }
}

/// The text with leading whitespace removed.
pub open spec fn trim_start(s: Seq<char>) -> Seq<char>
    decreases s.len(),
{
    if s.len() > 0 && is_ws(s[0]) {
        trim_start(s.drop_first())
    } else {
        s
    }
}

/// `s` begins with `p`.
pub open spec fn starts_with(s: Seq<char>, p: Seq<char>) -> bool {
    p.len() <= s.len() && s.take(p.len() as int) == p
}

/// Index of the first `c` in `s`, or -1 when there is none.
pub open spec fn find_char(s: Seq<char>, c: char) -> int
    decreases s.len(),
{
    if s.len() == 0 {
        -1
    } else if s[0] == c {
        0
    } else {
        let r = find_char(s.drop_first(), c);
        if r < 0 {
            -1
        } else {
            r + 1
        }
    }
}

/// One line as `str::lines` hands it out: a `\r` is dropped only when it preceded the `\n`.
pub open spec fn strip_cr(p: Seq<char>) -> Seq<char> {
    if p.len() > 0 && p.last() == '\r' {
        p.drop_last()
    } else {
        p
    }
}

/// The lines of a text as `str::lines` splits them: at each `\n`, a `\r\n` counting as one
/// ending, and no empty line after a final line ending.
pub open spec fn lines_of(s: Seq<char>) -> Seq<Seq<char>>
    decreases s.len(),
{
    if s.len() == 0 {
        seq![]
    } else {
        let i = find_char(s, '\n');
        if i < 0 {
            seq![s]
        } else {
            proof {
                lemma_find_char_bounds(s, '\n');
            }
            seq![strip_cr(s.take(i))].add(lines_of(s.skip(i + 1)))
        }
    }
}

/// `find_char` is -1 or an index of `c`, and nothing before it is `c`.
pub proof fn lemma_find_char_bounds(s: Seq<char>, c: char)
    ensures
        -1 <= find_char(s, c) < s.len(),
        find_char(s, c) >= 0 ==> s[find_char(s, c)] == c,
        forall|j: int| 0 <= j < s.len() && (find_char(s, c) < 0 || j < find_char(s, c)) ==> s[j] != c,
    decreases s.len(),
{
    if s.len() > 0 && s[0] != c {
        lemma_find_char_bounds(s.drop_first(), c);
        assert forall|j: int| 0 <= j < s.len() && (find_char(s, c) < 0 || j < find_char(s, c)) implies s[j] != c by {
            if j > 0 {
                assert(s[j] == s.drop_first()[j - 1]);
            }
        }
    }
}

/// The first `c` is at `k` when `s[k]` is `c` and nothing before it is.
pub proof fn lemma_find_char_is(s: Seq<char>, c: char, k: int)
    requires
        0 <= k <= s.len(),
        k < s.len() ==> s[k] == c,
        forall|j: int| 0 <= j < k ==> s[j] != c,
    ensures
        find_char(s, c) == (if k < s.len() { k } else { -1 }),
    decreases k,
{
    if k > 0 {
        assert forall|j: int| 0 <= j < k - 1 implies s.drop_first()[j] != c by {
            assert(s.drop_first()[j] == s[j + 1]);
        }
        lemma_find_char_is(s.drop_first(), c, k - 1);
    }
}

/// The character sequences a list of character vectors holds.
pub open spec fn views(v: Seq<Vec<char>>) -> Seq<Seq<char>> {
    v.map_values(|l: Vec<char>| l@)
}

/// The text split into lines, as `str::lines` does.
pub fn lines(v: &Vec<char>) -> (out: Vec<Vec<char>>)
    ensures
        views(out@) == lines_of(v@),
{
    let mut out: Vec<Vec<char>> = Vec::new();
    let mut cur: Vec<char> = Vec::new();
    let mut start: usize = 0;
    let mut i: usize = 0;
    proof {
        assert(v@.skip(0) =~= v@);
        assert(views(out@) + lines_of(v@) =~= lines_of(v@));
    }
    while i < v.len()
        invariant
            start <= i <= v.len(),
            cur@ == v@.subrange(start as int, i as int),
            forall|j: int| start <= j < i ==> v@[j] != '\n',
            lines_of(v@) == views(out@) + lines_of(v@.skip(start as int)),
        decreases v.len() - i,
    {
        if v[i] == '\n' {
            let ghost rest = v@.skip(start as int);
            proof {
                lemma_find_char_is(rest, '\n', i - start);
                assert(rest.take(i - start) =~= cur@);
                assert(rest.skip(i - start + 1) =~= v@.skip(i + 1));
            }
            let mut line = cur;
            let n = line.len();
            if n > 0 && line[n - 1] == '\r' {
                line.pop();
            }
            proof {
                assert(line@ =~= strip_cr(rest.take(i - start)));
                assert(views(out@.push(line)) =~= views(out@).push(line@));
                assert(views(out@).push(line@) + lines_of(v@.skip(i + 1)) =~= views(out@)
                    + lines_of(rest));
            }
            out.push(line);
            cur = Vec::new();
            start = i + 1;
        } else {
            cur.push(v[i]);
            proof {
                assert(cur@ =~= v@.subrange(start as int, i + 1));
            }
        }
        i = i + 1;
    }
    let ghost rest = v@.skip(start as int);
    if start < v.len() {
        proof {
            lemma_find_char_is(rest, '\n', rest.len() as int);
            assert(rest =~= cur@);
            assert(views(out@.push(cur)) =~= views(out@).push(cur@));
            assert(views(out@).push(cur@) =~= views(out@) + lines_of(rest));
        }
        out.push(cur);
    } else {
        proof {
            assert(rest.len() == 0);
            assert(views(out@) + lines_of(rest) =~= views(out@));
        }
    }
    out
}

/// The decimal digit character for `d < 10`.
pub open spec fn digit_char(d: nat) -> char {
    if d == 0 { '0' }
    else if d == 1 { '1' }
    else if d == 2 { '2' }
    else if d == 3 { '3' }
    else if d == 4 { '4' }
    else if d == 5 { '5' }
    else if d == 6 { '6' }
    else if d == 7 { '7' }
    else if d == 8 { '8' }
    else { '9' }
}

/// How `{}` prints a non-negative integer.
pub open spec fn decimal(n: nat) -> Seq<char>
    decreases n,
{
    if n < 10 {
        seq![digit_char(n)]
    } else {
        decimal(n / 10).push(digit_char(n % 10))
    }
}

fn digit(d: usize) -> (c: char)
    requires
        d < 10,
    ensures
        c == digit_char(d as nat),
{
    if d == 0 { '0' }
    else if d == 1 { '1' }
    else if d == 2 { '2' }
    else if d == 3 { '3' }
    else if d == 4 { '4' }
    else if d == 5 { '5' }
    else if d == 6 { '6' }
    else if d == 7 { '7' }
    else if d == 8 { '8' }
    else { '9' }
}

/// The decimal digits of `n`.
pub fn decimal_chars(n: usize) -> (v: Vec<char>)
    ensures
        v@ == decimal(n as nat),
    decreases n,
{
    if n < 10 {
        let mut v = Vec::new();
        v.push(digit(n));
        proof {
            assert(v@ =~= seq![digit_char(n as nat)]);
        }
        v
    } else {
        let mut v = decimal_chars(n / 10);
        v.push(digit(n % 10));
        v
    }
}

/// Append the characters of a string slice.
pub fn push_str(v: &mut Vec<char>, s: &str)
    ensures
        final(v)@ == old(v)@ + s@,
{
    let extra = chars_of(s);
    let mut i: usize = 0;
    while i < extra.len()
        invariant
            i <= extra.len(),
            extra@ == s@,
            v@ == old(v)@ + extra@.take(i as int),
        decreases extra.len() - i,
    {
        v.push(extra[i]);
        proof {
            assert(old(v)@ + extra@.take(i as int) + seq![extra@[i as int]] =~= old(v)@ + extra@.take(i + 1));
        }
        i = i + 1;
    }
    proof {
        assert(extra@.take(extra.len() as int) =~= extra@);
    }
}

/// Index of the first place `a` is immediately followed by `b`, or -1.
pub open spec fn find_two(s: Seq<char>, a: char, b: char) -> int
    decreases s.len(),
{
    if s.len() < 2 {
        -1
    } else if s[0] == a && s[1] == b {
        0
    } else {
        let r = find_two(s.drop_first(), a, b);
        if r < 0 {
            -1
        } else {
            r + 1
        }
    }
}

/// `find_two` is -1 or the index of an `a` followed by `b`.
pub proof fn lemma_find_two_bounds(s: Seq<char>, a: char, b: char)
    ensures
        -1 <= find_two(s, a, b),
        find_two(s, a, b) >= 0 ==> find_two(s, a, b) + 1 < s.len() && s[find_two(s, a, b)] == a
            && s[find_two(s, a, b) + 1] == b,
    decreases s.len(),
{
    if s.len() >= 2 && !(s[0] == a && s[1] == b) {
        lemma_find_two_bounds(s.drop_first(), a, b);
    }
}

/// No `a b` pair starts before the one `find_two` finds, nor anywhere when it finds none.
pub proof fn lemma_find_two_first(s: Seq<char>, a: char, b: char)
    ensures
        forall|j: int|
            0 <= j && j + 1 < s.len() && (find_two(s, a, b) < 0 || j < find_two(s, a, b)) ==> !(
            #[trigger] s[j] == a && s[j + 1] == b),
    decreases s.len(),
{
    if s.len() >= 2 && !(s[0] == a && s[1] == b) {
        let t = s.drop_first();
        lemma_find_two_first(t, a, b);
        assert forall|j: int|
            0 <= j && j + 1 < s.len() && (find_two(s, a, b) < 0 || j < find_two(s, a, b)) implies !(
            #[trigger] s[j] == a && s[j + 1] == b) by {
            if j > 0 {
                assert(s[j] == t[j - 1]);
                assert(s[j + 1] == t[j]);
            }
        }
    }
}

/// The first `a b` pair is at `k` when one starts there and none starts before it.
pub proof fn lemma_find_two_is(s: Seq<char>, a: char, b: char, k: int)
    requires
        0 <= k <= s.len(),
        k + 1 < s.len() ==> s[k] == a && s[k + 1] == b,
        forall|j: int| 0 <= j < k && j + 1 < s.len() ==> !(#[trigger] s[j] == a && s[j + 1] == b),
    ensures
        find_two(s, a, b) == (if k + 1 < s.len() { k } else { -1 }),
    decreases k,
{
    if k > 0 && s.len() >= 2 {
        assert forall|j: int|
            0 <= j < k - 1 && j + 1 < s.len() - 1 implies !(#[trigger] s.drop_first()[j] == a
            && s.drop_first()[j + 1] == b) by {
            assert(s.drop_first()[j] == s[j + 1]);
            assert(s.drop_first()[j + 1] == s[j + 2]);
        }
        lemma_find_two_is(s.drop_first(), a, b, k - 1);
    }
}

/// Find the first `a b` pair in `v[lo..hi]`, as an index into `v`; `hi` when there is none.
pub fn find_two_in(v: &Vec<char>, lo: usize, hi: usize, a: char, b: char) -> (j: usize)
    requires
        lo <= hi <= v.len(),
    ensures
        lo <= j <= hi,
        find_two(v@.subrange(lo as int, hi as int), a, b) == (if j < hi {
            j - lo
        } else {
            -1
        }),
{
    let ghost s = v@.subrange(lo as int, hi as int);
    if hi - lo < 2 {
        proof {
            lemma_find_two_is(s, a, b, s.len() as int);
        }
        return hi;
    }
    let mut j = lo;
    while j < hi - 1 && !(v[j] == a && v[j + 1] == b)
        invariant
            lo <= j <= hi - 1,
            lo + 2 <= hi <= v.len(),
            forall|k: int| lo <= k < j ==> !(#[trigger] v@[k] == a && v@[k + 1] == b),
        decreases hi - j,
    {
        j = j + 1;
    }
    proof {
        assert forall|k: int|
            0 <= k < j - lo && k + 1 < s.len() implies !(#[trigger] s[k] == a && s[k + 1] == b) by {
            assert(s[k] == v@[lo + k]);
            assert(s[k + 1] == v@[lo + k + 1]);
        }
        if j < hi - 1 {
            assert(s[j - lo] == v@[j as int]);
            assert(s[j - lo + 1] == v@[j + 1]);
            lemma_find_two_is(s, a, b, j - lo);
        } else {
            lemma_find_two_is(s, a, b, s.len() as int);
        }
    }
    if j < hi - 1 {
        j
    } else {
        hi
    }
}

/// The text each `(start, end)` span of `v` covers.
pub open spec fn span_texts(v: Seq<char>, spans: Seq<(usize, usize)>) -> Seq<Seq<char>> {
    spans.map_values(|p: (usize, usize)| v.subrange(p.0 as int, p.1 as int))
}

/// Where each line of the text starts and ends, as `str::lines` splits it.
pub fn line_spans(v: &Vec<char>) -> (out: Vec<(usize, usize)>)
    ensures
        forall|k: int| 0 <= k < out@.len() ==> (#[trigger] out@[k]).0 <= out@[k].1 <= v@.len(),
        span_texts(v@, out@) == lines_of(v@),
{
    let mut out: Vec<(usize, usize)> = Vec::new();
    let mut start: usize = 0;
    let mut i: usize = 0;
    proof {
        assert(v@.skip(0) =~= v@);
        assert(span_texts(v@, out@) + lines_of(v@) =~= lines_of(v@));
    }
    while i < v.len()
        invariant
            start <= i <= v.len(),
            forall|j: int| start <= j < i ==> v@[j] != '\n',
            forall|k: int| 0 <= k < out@.len() ==> (#[trigger] out@[k]).0 <= out@[k].1 <= v@.len(),
            lines_of(v@) == span_texts(v@, out@) + lines_of(v@.skip(start as int)),
        decreases v.len() - i,
    {
        if v[i] == '\n' {
            let ghost rest = v@.skip(start as int);
            proof {
                lemma_find_char_is(rest, '\n', i - start);
                assert(rest.skip(i - start + 1) =~= v@.skip(i + 1));
            }
            let mut end = i;
            if end > start && v[end - 1] == '\r' {
                end = end - 1;
            }
            proof {
                assert(v@.subrange(start as int, end as int) =~= strip_cr(rest.take(i - start)));
                assert(span_texts(v@, out@.push((start, end))) =~= span_texts(v@, out@).push(
                    v@.subrange(start as int, end as int),
                ));
                assert(span_texts(v@, out@).push(v@.subrange(start as int, end as int)) + lines_of(
                    v@.skip(i + 1),
                ) =~= span_texts(v@, out@) + lines_of(rest));
            }
            out.push((start, end));
            start = i + 1;
        }
        i = i + 1;
    }
    let ghost rest = v@.skip(start as int);
    if start < v.len() {
        proof {
            lemma_find_char_is(rest, '\n', rest.len() as int);
            assert(rest =~= v@.subrange(start as int, v@.len() as int));
            assert(span_texts(v@, out@.push((start, v.len()))) =~= span_texts(v@, out@).push(rest));
            assert(span_texts(v@, out@).push(rest) =~= span_texts(v@, out@) + lines_of(rest));
        }
        out.push((start, v.len()));
    } else {
        proof {
            assert(span_texts(v@, out@) + lines_of(rest) =~= span_texts(v@, out@));
        }
    }
    out
}

/// Whether two strings hold the same characters.
pub fn str_equal(a: &str, b: &str) -> (eq: bool)
    ensures
        eq == (a@ == b@),
{
    let x = chars_of(a);
    let y = chars_of(b);
    if x.len() != y.len() {
        proof {
            assert(x@.len() != y@.len());
        }
        return false;
    }
    let mut i: usize = 0;
    while i < x.len()
        invariant
            i <= x@.len(),
            x@ == a@,
            y@ == b@,
            x@.len() == y@.len(),
            forall|k: int| 0 <= k < i ==> x@[k] == y@[k],
        decreases x@.len() - i,
    {
        if x[i] != y[i] {
            proof {
                assert(x@[i as int] != y@[i as int]);
                assert(x@ != y@);
            }
            return false;
        }
        i = i + 1;
    }
    proof {
        assert(x@ =~= y@);
    }
    true
}

} // verus!
