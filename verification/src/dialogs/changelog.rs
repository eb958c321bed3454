//! The bundled changelog, opened from Settings ▸ Help.
//!
//! The text is Markdown of the Keep-a-Changelog kind. It is read with the four things such a file
//! actually uses — headings, bullets, emphasis and links — rather than with a Markdown engine:
//! each line is classified, its inline markers are dropped, and hard-wrapped continuation lines
//! are joined back onto the bullet or paragraph they belong to.

use vstd::prelude::*;
use crate::dialogs::DialogResponse;
use crate::text::{
    chars_of, find_char, find_two, find_two_in, lemma_find_two_bounds, is_whitespace, is_ws, lemma_find_char_bounds, lemma_find_char_is, lines,
    lines_of, push_char, trim_end, trim_start, views,
};

verus! {

/// What the pane asks of its owner.
#[derive(Debug, Clone, Copy, PartialEq, Eq)]
pub enum ChangelogAction {
    /// The ✕ or Escape.
    Close,
}

/// One line of the changelog, classified for drawing.
#[derive(Debug, Clone, PartialEq, Eq)]
pub enum Line {
    /// `#`, `##` or `###` heading; the level is 1..=3.
    Heading(u8, String),
    /// A `- ` bullet.
    Bullet(String),
    /// A line of text, wrapped as prose.
    Text(String),
    /// Vertical breathing space.
    Blank,
}

/// A [`Line`] with its text taken as characters.
pub enum LineModel {
    Heading(u8, Seq<char>),
    Bullet(Seq<char>),
    Text(Seq<char>),
    Blank,
}

impl View for Line {
    type V = LineModel;

    open spec fn view(&self) -> LineModel {
        match self {
            Line::Heading(level, text) => LineModel::Heading(*level, text@),
            Line::Bullet(text) => LineModel::Bullet(text@),
            Line::Text(text) => LineModel::Text(text@),
            Line::Blank => LineModel::Blank,
        }
    }
}

/// The models of a list of lines.
pub open spec fn line_models(v: Seq<Line>) -> Seq<LineModel> {
    v.map_values(|l: Line| l@)
}

/// How many `#` a line opens with.
pub open spec fn hash_run(s: Seq<char>) -> nat
    decreases s.len(),
{
    if s.len() > 0 && s[0] == '#' {
        1 + hash_run(s.drop_first())
    } else {
        0
    }
}

/// The text with `*`/`**` emphasis, backticks and the `(url)` half of every complete
/// `[label](url)` link removed; a link's label loses its markers too.
pub open spec fn plain_text(s: Seq<char>) -> Seq<char>
    decreases s.len(),
{
    if s.len() == 0 {
        seq![]
    } else if s.len() >= 2 && s[0] == '*' && s[1] == '*' {
        plain_text(s.skip(2))
    } else if s[0] == '*' || s[0] == '`' {
        plain_text(s.skip(1))
    } else if s[0] == '[' && find_two(s, ']', '(') >= 0 && find_char(s.skip(find_two(s, ']', '(')), ')') >= 0 {
        proof {
            lemma_link_bounds(s);
        }
        let close = find_two(s, ']', '(');
        let end = find_char(s.skip(close), ')');
        plain_text(s.subrange(1, close)).add(plain_text(s.skip(close + end + 1)))
    } else {
        seq![s[0]].add(plain_text(s.skip(1)))
    }
}

/// One Markdown line, classified and stripped of its inline markers.
pub open spec fn classify_line(line: Seq<char>) -> LineModel {
    let trimmed = trim_end(line);
    let level = hash_run(trimmed);
    let start = trim_start(trimmed);
    if trim_start(trim_end(trimmed)).len() == 0 {
        LineModel::Blank
    } else if 1 <= level <= 3 && level < trimmed.len() && trimmed[level as int] == ' ' {
        LineModel::Heading(
            level as u8,
            plain_text(trim_start(trim_end(trimmed.skip(level as int)))),
        )
    } else if start.len() >= 2 && start[0] == '-' && start[1] == ' ' {
        LineModel::Bullet(plain_text(start.skip(2)))
    } else {
        LineModel::Text(plain_text(start))
    }
}

/// One classified line folded into the blocks before it: a text line continues the bullet or
/// paragraph it follows, anything else starts a block of its own.
pub open spec fn fold_block(out: Seq<LineModel>, line: LineModel) -> Seq<LineModel> {
    match line {
        LineModel::Text(more) => if out.len() > 0 {
            match out.last() {
                LineModel::Bullet(current) => out.drop_last().push(
                    LineModel::Bullet(current.push(' ').add(more)),
                ),
                LineModel::Text(current) => out.drop_last().push(
                    LineModel::Text(current.push(' ').add(more)),
                ),
                _ => out.push(LineModel::Text(more)),
            }
        } else {
            out.push(LineModel::Text(more))
        },
        other => out.push(other),
    }
}

/// The blocks a list of lines folds into.
pub open spec fn blocks_of(lines: Seq<Seq<char>>) -> Seq<LineModel>
    decreases lines.len(),
{
    if lines.len() == 0 {
        seq![]
    } else {
        fold_block(blocks_of(lines.drop_last()), classify_line(lines.last()))
    }
}

/// A link's `](` sits after its `[`, and its `)` after the `](`.
pub proof fn lemma_link_bounds(s: Seq<char>)
    requires
        s.len() > 0,
        s[0] == '[',
        find_two(s, ']', '(') >= 0,
    ensures
        1 <= find_two(s, ']', '(') < s.len() - 1,
        find_char(s.skip(find_two(s, ']', '(')), ')') >= 0 ==> find_two(s, ']', '(') + find_char(
            s.skip(find_two(s, ']', '(')),
            ')',
        ) + 1 <= s.len(),
{
    lemma_find_two_bounds(s, ']', '(');
    lemma_find_char_bounds(s.skip(find_two(s, ']', '(')), ')');
}

/// Trimming the end stops at the last non-whitespace character.
pub proof fn lemma_trim_end_is(s: Seq<char>, e: int)
    requires
        0 <= e <= s.len(),
        forall|j: int| e <= j < s.len() ==> is_ws(s[j]),
        e == 0 || !is_ws(s[e - 1]),
    ensures
        trim_end(s) == s.take(e),
    decreases s.len(),
{
    if e == s.len() {
        assert(s.take(e) =~= s);
    } else {
        assert forall|j: int| e <= j < s.drop_last().len() implies is_ws(s.drop_last()[j]) by {
            assert(s.drop_last()[j] == s[j]);
        }
        lemma_trim_end_is(s.drop_last(), e);
        assert(s.drop_last().take(e) =~= s.take(e));
    }
}

/// Trimming the start stops at the first non-whitespace character.
pub proof fn lemma_trim_start_is(s: Seq<char>, b: int)
    requires
        0 <= b <= s.len(),
        forall|j: int| 0 <= j < b ==> is_ws(s[j]),
        b == s.len() || !is_ws(s[b]),
    ensures
        trim_start(s) == s.skip(b),
    decreases b,
{
    if b == 0 {
        assert(s.skip(0) =~= s);
    } else {
        assert forall|j: int| 0 <= j < b - 1 implies is_ws(s.drop_first()[j]) by {
            assert(s.drop_first()[j] == s[j + 1]);
        }
        lemma_trim_start_is(s.drop_first(), b - 1);
        assert(s.drop_first().skip(b - 1) =~= s.skip(b));
    }
}

/// The run of `#` is as long as the first non-`#` index.
pub proof fn lemma_hash_run_is(s: Seq<char>, h: int)
    requires
        0 <= h <= s.len(),
        forall|j: int| 0 <= j < h ==> s[j] == '#',
        h == s.len() || s[h] != '#',
    ensures
        hash_run(s) == h,
    decreases h,
{
    if h > 0 {
        assert forall|j: int| 0 <= j < h - 1 implies s.drop_first()[j] == '#' by {
            assert(s.drop_first()[j] == s[j + 1]);
        }
        lemma_hash_run_is(s.drop_first(), h - 1);
    }
}

/// Where the whitespace at the end of `v[lo..hi]` begins.
fn trim_end_at(v: &Vec<char>, lo: usize, hi: usize) -> (e: usize)
    requires
        lo <= hi <= v.len(),
    ensures
        lo <= e <= hi,
        trim_end(v@.subrange(lo as int, hi as int)) == v@.subrange(lo as int, e as int),
        e == lo || !is_ws(v@[e - 1]),
{
    let mut e = hi;
    while e > lo && is_whitespace(v[e - 1])
        invariant
            lo <= e <= hi <= v.len(),
            forall|j: int| e <= j < hi ==> is_ws(v@[j]),
        decreases e,
    {
        e = e - 1;
    }
    proof {
        let s = v@.subrange(lo as int, hi as int);
        assert forall|j: int| e - lo <= j < s.len() implies is_ws(s[j]) by {
            assert(s[j] == v@[lo + j]);
        }
        lemma_trim_end_is(s, e - lo);
        assert(s.take(e - lo) =~= v@.subrange(lo as int, e as int));
    }
    e
}

/// Where the whitespace at the start of `v[lo..hi]` ends.
fn trim_start_at(v: &Vec<char>, lo: usize, hi: usize) -> (b: usize)
    requires
        lo <= hi <= v.len(),
    ensures
        lo <= b <= hi,
        trim_start(v@.subrange(lo as int, hi as int)) == v@.subrange(b as int, hi as int),
        b == hi || !is_ws(v@[b as int]),
{
    let mut b = lo;
    while b < hi && is_whitespace(v[b])
        invariant
            lo <= b <= hi <= v.len(),
            forall|j: int| lo <= j < b ==> is_ws(v@[j]),
        decreases hi - b,
    {
        b = b + 1;
    }
    proof {
        let s = v@.subrange(lo as int, hi as int);
        assert forall|j: int| 0 <= j < b - lo implies is_ws(s[j]) by {
            assert(s[j] == v@[lo + j]);
        }
        lemma_trim_start_is(s, b - lo);
        assert(s.skip(b - lo) =~= v@.subrange(b as int, hi as int));
    }
    b
}

/// Drop emphasis, backticks and link targets from `v[lo..hi]`.
fn plain_range(v: &Vec<char>, lo: usize, hi: usize) -> (out: String)
    requires
        lo <= hi <= v.len(),
    ensures
        out@ == plain_text(v@.subrange(lo as int, hi as int)),
    decreases hi - lo,
{
    let ghost whole = v@.subrange(lo as int, hi as int);
    let mut out = String::new();
    let mut pos = lo;
    proof {
        assert(whole.skip(0) =~= whole);
        assert(out@ + plain_text(whole) =~= plain_text(whole));
    }
    while pos < hi
        invariant
            lo <= pos <= hi <= v.len(),
            whole == v@.subrange(lo as int, hi as int),
            plain_text(whole) == out@ + plain_text(v@.subrange(pos as int, hi as int)),
        decreases hi - pos,
    {
        let ghost rest = v@.subrange(pos as int, hi as int);
        let c = v[pos];
        if c == '*' && pos + 1 < hi && v[pos + 1] == '*' {
            proof {
                assert(rest.skip(2) =~= v@.subrange(pos + 2, hi as int));
            }
            pos = pos + 2;
        } else if c == '*' || c == '`' {
            proof {
                assert(rest.skip(1) =~= v@.subrange(pos + 1, hi as int));
            }
            pos = pos + 1;
        } else {
            // Look for a complete `[label](url)` starting here.
            let mut close: usize = hi;
            let mut end: usize = hi;
            if c == '[' {
                let j = find_two_in(v, pos, hi, ']', '(');
                if j < hi {
                    close = j;
                    let mut k = j;
                    while k < hi && v[k] != ')'
                        invariant
                            j <= k <= hi,
                            hi <= v.len(),
                            forall|m: int| j <= m < k ==> v@[m] != ')',
                        decreases hi - k,
                    {
                        k = k + 1;
                    }
                    proof {
                        let tail = rest.skip(j - pos);
                        assert forall|m: int| 0 <= m < k - j implies tail[m] != ')' by {
                            assert(tail[m] == v@[j + m]);
                        }
                        if k < hi {
                            assert(tail[k - j] == v@[k as int]);
                        }
                        lemma_find_char_is(tail, ')', k - j);
                    }
                    end = k;
                }
            }
            if close < hi && end < hi {
                proof {
                    lemma_link_bounds(rest);
                    assert(rest.subrange(1, close - pos) =~= v@.subrange(pos + 1, close as int));
                    assert(rest.skip(close - pos + (end - close) + 1) =~= v@.subrange(
                        end + 1,
                        hi as int,
                    ));
                }
                let label = plain_range(v, pos + 1, close);
                out.append(label.as_str());
                pos = end + 1;
            } else {
                proof {
                    assert(rest.skip(1) =~= v@.subrange(pos + 1, hi as int));
                    if c == '[' {
                        if find_two(rest, ']', '(') >= 0 {
                            lemma_find_two_bounds(rest, ']', '(');
                        }
                    }
                }
                let ghost before = out@;
                push_char(&mut out, c);
                proof {
                    assert(plain_text(rest) == seq![c].add(plain_text(rest.skip(1))));
                    assert(before + (seq![c] + plain_text(rest.skip(1))) =~= out@ + plain_text(
                        rest.skip(1),
                    ));
                }
                pos = pos + 1;
            }
        }
    }
    proof {
        assert(v@.subrange(pos as int, hi as int).len() == 0);
        assert(out@ + plain_text(v@.subrange(pos as int, hi as int)) =~= out@);
    }
    out
}

/// Drop `*`/`**` emphasis, backticks and the `(url)` half of a `[label](url)` link, the
/// label's own markers included.
pub fn plain(text: &str) -> (out: String)
    ensures
        out@ == plain_text(text@),
{
    let v = chars_of(text);
    proof {
        assert(v@.subrange(0, v@.len() as int) =~= v@);
    }
    plain_range(&v, 0, v.len())
}

/// Classify one line given as characters.
fn classify_chars(v: &Vec<char>) -> (line: Line)
    ensures
        line@ == classify_line(v@),
{
    let n = v.len();
    proof {
        assert(v@.subrange(0, n as int) =~= v@);
    }
    let e = trim_end_at(v, 0, n);
    let ghost trimmed = v@.subrange(0, e as int);
    let b = trim_start_at(v, 0, e);
    proof {
        assert(trim_end(v@) == trimmed);
        // `trimmed` has no whitespace at its end, so trimming it again changes nothing.
        if e > 0 {
            assert(trimmed[e - 1] == v@[e - 1]);
        }
        lemma_trim_end_is(trimmed, e as int);
        assert(trimmed.take(e as int) =~= trimmed);
        assert(trim_end(trimmed) == trimmed);
        assert(trim_start(trimmed) == v@.subrange(b as int, e as int));
    }
    if b == e {
        return Line::Blank;
    }
    let mut h: usize = 0;
    while h < e && v[h] == '#'
        invariant
            h <= e <= v.len(),
            forall|j: int| 0 <= j < h ==> v@[j] == '#',
        decreases e - h,
    {
        h = h + 1;
    }
    proof {
        assert forall|j: int| 0 <= j < h implies trimmed[j] == '#' by {
            assert(trimmed[j] == v@[j]);
        }
        if h < e {
            assert(trimmed[h as int] == v@[h as int]);
        }
        lemma_hash_run_is(trimmed, h as int);
    }
    if 1 <= h && h <= 3 && h < e && v[h] == ' ' {
        let he = trim_end_at(v, h, e);
        let hb = trim_start_at(v, h, he);
        proof {
            assert(trimmed.skip(h as int) =~= v@.subrange(h as int, e as int));
        }
        let text = plain_range(v, hb, he);
        return Line::Heading(h as u8, text);
    }
    proof {
        let start = trim_start(trimmed);
        if start.len() >= 2 {
            assert(start[0] == v@[b as int]);
            assert(start[1] == v@[b + 1]);
        }
    }
    if b + 1 < e && v[b] == '-' && v[b + 1] == ' ' {
        proof {
            assert(v@.subrange(b as int, e as int).skip(2) =~= v@.subrange(b + 2, e as int));
        }
        let text = plain_range(v, b + 2, e);
        return Line::Bullet(text);
    }
    let text = plain_range(v, b, e);
    Line::Text(text)
}

/// Classify one Markdown line and strip the inline markers the changelog uses.
pub fn classify(line: &str) -> (out: Line)
    ensures
        out@ == classify_line(line@),
{
    let v = chars_of(line);
    classify_chars(&v)
}

/// The file's lines folded into blocks: a heading, a bullet or a paragraph per block, with the
/// hard-wrapped continuation lines of the source joined back onto the block they belong to, as
/// Markdown reads them.
pub fn blocks(text: &str) -> (out: Vec<Line>)
    ensures
        line_models(out@) == blocks_of(lines_of(text@)),
{
    let v = chars_of(text);
    let ls = lines(&v);
    let ghost all = views(ls@);
    let mut out: Vec<Line> = Vec::new();
    let mut i: usize = 0;
    proof {
        assert(all.take(0) =~= Seq::<Seq<char>>::empty());
        assert(line_models(out@) =~= Seq::<LineModel>::empty());
    }
    while i < ls.len()
        invariant
            i <= ls@.len(),
            all == views(ls@),
            all == lines_of(text@),
            line_models(out@) == blocks_of(all.take(i as int)),
        decreases ls@.len() - i,
    {
        let line = classify_chars(&ls[i]);
        let ghost before = line_models(out@);
        proof {
            assert(all[i as int] == ls@[i as int]@);
            assert(all.take(i + 1).drop_last() =~= all.take(i as int));
            assert(all.take(i + 1).last() == all[i as int]);
        }
        match line {
            Line::Text(more) => {
                let last = out.pop();
                match last {
                    Some(Line::Bullet(current)) => {
                        let mut current = current;
                        proof {
                            assert(line_models(out@) =~= before.drop_last());
                        }
                        push_char(&mut current, ' ');
                        current.append(more.as_str());
                        out.push(Line::Bullet(current));
                    },
                    Some(Line::Text(current)) => {
                        let mut current = current;
                        proof {
                            assert(line_models(out@) =~= before.drop_last());
                        }
                        push_char(&mut current, ' ');
                        current.append(more.as_str());
                        out.push(Line::Text(current));
                    },
                    Some(other) => {
                        proof {
                            assert(line_models(out@.push(other)) =~= before);
                        }
                        out.push(other);
                        out.push(Line::Text(more));
                    },
                    None => {
                        out.push(Line::Text(more));
                    },
                }
            },
            other => {
                out.push(other);
            },
        }
        proof {
            assert(line_models(out@) =~= fold_block(before, classify_line(all[i as int])));
        }
        i = i + 1;
    }
    proof {
        assert(all.take(ls@.len() as int) =~= all);
    }
    out
}

/// The changelog pane: the bundled text, shown with the same chrome as Settings.
pub struct ChangelogPane<'a> {
    text: &'a str,
}

impl<'a> ChangelogPane<'a> {
    /// A pane over `text`, the contents of `CHANGELOG.md`.
    pub fn new(text: &'a str) -> (pane: Self)
        ensures
            pane.text() == text@,
    {
        ChangelogPane { text }
    }

    /// The text this pane shows.
    pub closed spec fn text(&self) -> Seq<char> {
        self.text@
    }

    /// The blocks to draw, top to bottom.
    pub fn blocks(&self) -> (out: Vec<Line>)
        ensures
            line_models(out@) == blocks_of(lines_of(self.text())),
    {
        blocks(self.text)
    }

    /// What one frame asks of the owner: the ✕ and Escape both close the pane, in that order.
    pub fn actions(&self, close_clicked: bool, escape_pressed: bool) -> (r: DialogResponse<
        ChangelogAction,
    >)
        ensures
            r.actions@ == (if close_clicked {
                seq![ChangelogAction::Close]
            } else {
                seq![]
            }) + (if escape_pressed {
                seq![ChangelogAction::Close]
            } else {
                seq![]
            }),
    {
        let mut response = DialogResponse::new();
        response.push_if(close_clicked, ChangelogAction::Close);
        response.push_if(escape_pressed, ChangelogAction::Close);
        proof {
            assert(response.actions@ =~= (if close_clicked {
                seq![ChangelogAction::Close]
            } else {
                seq![]
            }) + (if escape_pressed {
                seq![ChangelogAction::Close]
            } else {
                seq![]
            }));
        }
        response
    }
}

/// What trimming the end leaves: a prefix of the text, with only whitespace after it and no
/// whitespace at its own end.
pub proof fn lemma_trim_end_shape(t: Seq<char>)
    ensures
        trim_end(t).len() <= t.len(),
        trim_end(t) == t.take(trim_end(t).len() as int),
        forall|j: int| trim_end(t).len() <= j < t.len() ==> is_ws(#[trigger] t[j]),
        trim_end(t).len() == 0 || !is_ws(t[trim_end(t).len() - 1]),
    decreases t.len(),
{
    if t.len() > 0 && is_ws(t.last()) {
        lemma_trim_end_shape(t.drop_last());
        let e = trim_end(t).len() as int;
        assert(t.drop_last().take(e) =~= t.take(e));
        assert forall|j: int| e <= j < t.len() implies is_ws(#[trigger] t[j]) by {
            if j < t.len() - 1 {
                assert(t[j] == t.drop_last()[j]);
            }
        }
        if e > 0 {
            assert(t[e - 1] == t.drop_last()[e - 1]);
        }
    } else {
        assert(t.take(t.len() as int) =~= t);
    }
}

/// A line whose first non-blank characters are `- ` is a bullet however far it is indented: the
/// bullet's text is what follows the `- `, without its trailing blanks and stripped of its
/// markers.
pub proof fn lemma_an_indented_dash_is_a_bullet(w: Seq<char>, t: Seq<char>)
    requires
        forall|j: int| 0 <= j < w.len() ==> is_ws(#[trigger] w[j]),
        trim_end(t).len() > 0,
    ensures
        classify_line(w + seq!['-', ' '] + t) == LineModel::Bullet(plain_text(trim_end(t))),
{
    let line = w + seq!['-', ' '] + t;
    let n = w.len() as int;
    lemma_trim_end_shape(t);
    let e = trim_end(t).len() as int;
    let big_e = n + 2 + e;
    assert(line[n] == '-');
    assert(line[n + 1] == ' ');
    assert forall|j: int| big_e <= j < line.len() implies is_ws(line[j]) by {
        assert(line[j] == t[j - n - 2]);
    }
    assert(line[big_e - 1] == t[e - 1]);
    lemma_trim_end_is(line, big_e);
    let trimmed = line.take(big_e);
    assert(trim_end(line) == trimmed);
    assert(!is_ws(trimmed[big_e - 1]));
    lemma_trim_end_is(trimmed, big_e);
    assert(trimmed.take(big_e) =~= trimmed);
    assert(trim_end(trimmed) == trimmed);
    assert forall|j: int| 0 <= j < n implies is_ws(trimmed[j]) by {
        assert(trimmed[j] == w[j]);
    }
    assert(trimmed[n] == '-');
    assert(!is_ws('-'));
    lemma_trim_start_is(trimmed, n);
    let start = trimmed.skip(n);
    assert(trim_start(trimmed) == start);
    assert(start[0] == '-');
    assert(start[1] == ' ');
    assert(trimmed[0] != '#') by {
        if n > 0 {
            assert(trimmed[0] == w[0]);
            assert(is_ws(w[0]));
            assert(!is_ws('#'));
        }
    }
    assert(hash_run(trimmed) == 0);
    assert(start.skip(2) =~= t.take(e));
}

/// A line whose first non-blank characters are `- ` always opens a bullet block of its own: it is
/// never glued onto the block before it, whatever that block is.
pub proof fn lemma_a_dash_line_opens_its_own_bullet(lines: Seq<Seq<char>>, w: Seq<char>, t: Seq<char>)
    requires
        forall|j: int| 0 <= j < w.len() ==> is_ws(#[trigger] w[j]),
        trim_end(t).len() > 0,
    ensures
        blocks_of(lines.push(w + seq!['-', ' '] + t)) == blocks_of(lines).push(
            LineModel::Bullet(plain_text(trim_end(t))),
        ),
{
    lemma_an_indented_dash_is_a_bullet(w, t);
    assert(lines.push(w + seq!['-', ' '] + t).drop_last() =~= lines);
}

/// Text without inline markers passes through unchanged: with no `*`, no backtick and no `[`,
/// nothing is dropped.
pub proof fn lemma_plain_text_keeps_unmarked_text(s: Seq<char>)
    requires
        forall|i: int| 0 <= i < s.len() ==> #[trigger] s[i] != '*' && s[i] != '`' && s[i] != '[',
    ensures
        plain_text(s) == s,
    decreases s.len(),
{
    if s.len() > 0 {
        let rest = s.skip(1);
        assert forall|i: int| 0 <= i < rest.len() implies #[trigger] rest[i] != '*' && rest[i] != '`'
            && rest[i] != '[' by {
            assert(rest[i] == s[i + 1]);
        }
        lemma_plain_text_keeps_unmarked_text(rest);
        assert(seq![s[0]].add(rest) =~= s);
    }
}

} // verus!
