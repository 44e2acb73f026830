//! The text sanitiser: HTML escaping followed by a line-oriented quote
//! highlight.
//!
//! `sanitize` is the specification: escape the five reserved characters,
//! split on line feeds, wrap every line that begins with an escaped `>` in a
//! `greentext` span, and join the lines with `<br />`.

use vstd::prelude::*;
use vstd::string::StringExecFns;
use crate::text::{
    append_range, chars_of, find_piece_end, lemma_piece_end, lemma_pieces_nonempty, piece_end,
    pieces_from, split,
};

verus! {

/// The break that joins two lines.
pub open spec fn br() -> Seq<char> {
    "<br />"@
}

/// The opening tag of a highlighted quote line.
pub open spec fn span_open() -> Seq<char> {
    "<span class=\"greentext\">"@
}

/// The closing tag of a highlighted quote line.
pub open spec fn span_close() -> Seq<char> {
    "</span>"@
}

/// The escaped form of `>`, which marks a quote line.
pub open spec fn quote_mark() -> Seq<char> {
    "&gt;"@
}

/// Whether `c` is one of the five characters that escaping replaces.
pub open spec fn is_reserved(c: char) -> bool {
    c == '&' || c == '<' || c == '>' || c == '"' || c == '\''
}

/// What one character becomes under escaping.
pub open spec fn escape_char(c: char) -> Seq<char> {
    if c == '&' {
        "&amp;"@
    } else if c == '<' {
        "&lt;"@
    } else if c == '>' {
        "&gt;"@
    } else if c == '"' {
        "&quot;"@
    } else if c == '\'' {
        "&#x27;"@
    } else {
        seq![c]
    }
}

/// HTML escaping: every reserved character is replaced by its entity, every
/// other character stays.
pub open spec fn escape_html(s: Seq<char>) -> Seq<char>
    decreases s.len(),
{
    if s.len() == 0 {
        Seq::empty()
    } else {
        escape_char(s[0]) + escape_html(s.drop_first())
    }
}

/// `s` split on line feeds.
pub open spec fn split_lines(s: Seq<char>) -> Seq<Seq<char>> {
    split(s, '\n')
}

/// Whether an escaped line is a quote: it begins with the escaped `>`.
pub open spec fn is_quote_line(line: Seq<char>) -> bool {
    line.len() >= 4 && line.subrange(0, 4) == quote_mark()
}

/// An escaped line as it is shown: quote lines are wrapped in a span.
pub open spec fn render_line(line: Seq<char>) -> Seq<char> {
    if is_quote_line(line) {
        span_open() + line + span_close()
    } else {
        line
    }
}

/// The lines joined by `<br />`.
pub open spec fn join_lines(lines: Seq<Seq<char>>) -> Seq<char>
    decreases lines.len(),
{
    if lines.len() == 0 {
        Seq::empty()
    } else if lines.len() == 1 {
        lines[0]
    } else {
        lines[0] + br() + join_lines(lines.drop_first())
    }
}

/// The safe HTML fragment for raw user text.
pub open spec fn sanitize(raw: Seq<char>) -> Seq<char> {
    join_lines(split_lines(escape_html(raw)).map_values(|line: Seq<char>| render_line(line)))
}

/// The rendering of the lines of `s` from `from` on, joined by breaks.
pub open spec fn render_from(s: Seq<char>, from: int) -> Seq<char>
    decreases s.len() - from,
{
    let end = piece_end(s, '\n', from);
    if from < 0 || end >= s.len() {
        render_line(s.subrange(from, s.len() as int))
    } else {
        proof {
            if from <= s.len() {
                lemma_piece_end(s, '\n', from);
            }
        }
        render_line(s.subrange(from, end)) + br() + render_from(s, end + 1)
    }
}

/// `encode_quoted_attribute` of the `html-escape` crate: `&`, `<`, `>`, `"`
/// and `'` become `&amp;`, `&lt;`, `&gt;`, `&quot;` and `&#x27;`; all other
/// text is copied.
#[verifier::external_body]
pub(crate) fn escape_text(raw: &str) -> (out: String)
    ensures
        out@ == escape_html(raw@),
{
    html_escape::encode_quoted_attribute(raw).into_owned()
}

/// Rendering line by line is joining the rendered lines.
pub proof fn lemma_render_is_join(s: Seq<char>, from: int)
    requires
        0 <= from <= s.len(),
    ensures
        render_from(s, from) == join_lines(
            pieces_from(s, '\n', from).map_values(|line: Seq<char>| render_line(line)),
        ),
    decreases s.len() - from,
{
    let f = |line: Seq<char>| render_line(line);
    lemma_piece_end(s, '\n', from);
    let end = piece_end(s, '\n', from);
    if end < s.len() {
        lemma_render_is_join(s, end + 1);
        lemma_pieces_nonempty(s, '\n', end + 1);
        let head = seq![s.subrange(from, end)];
        let rest = pieces_from(s, '\n', end + 1);
        let all = (head + rest).map_values(f);
        assert(all.len() >= 2);
        assert(all[0] == render_line(s.subrange(from, end)));
        assert(all.drop_first() =~= rest.map_values(f));
    } else {
        let only = seq![s.subrange(from, s.len() as int)].map_values(f);
        assert(only.len() == 1);
        assert(only[0] == render_line(s.subrange(from, s.len() as int)));
    }
}

/// Tells whether the line `chars[from..end]` begins with the escaped `>`.
fn starts_quote(chars: &[char], from: usize, end: usize) -> (quote: bool)
    requires
        from <= end <= chars.len(),
    ensures
        quote == is_quote_line(chars@.subrange(from as int, end as int)),
{
    proof {
        reveal_strlit("&gt;");
    }
    let ghost line = chars@.subrange(from as int, end as int);
    if end - from < 4 {
        return false;
    }
    let quote = chars[from] == '&' && chars[from + 1] == 'g' && chars[from + 2] == 't' && chars[from
        + 3] == ';';
    proof {
        let head = line.subrange(0, 4);
        assert(head.len() == 4);
        assert(head[0] == chars@[from as int]);
        assert(head[1] == chars@[from + 1]);
        assert(head[2] == chars@[from + 2]);
        assert(head[3] == chars@[from + 3]);
        if quote {
            assert(head =~= quote_mark());
        }
    }
    quote
}

/// Makes raw user text safe to show: escapes the reserved characters, wraps
/// quote lines in a `greentext` span and joins the lines with `<br />`.
pub fn sanitize_content(raw: &str) -> (out: String)
    ensures
        out@ == sanitize(raw@),
        markup_is_own(out@),
{
    proof {
        lemma_sanitize_owns_markup(raw@);
    }
    let escaped = escape_text(raw);
    let chars = chars_of(escaped.as_str());
    let n = chars.len();
    let mut out = String::new();
    let mut start: usize = 0;
    proof {
        lemma_render_is_join(chars@, 0);
    }
    loop
        invariant_except_break
            start <= n,
            n == chars.len(),
            out@ + render_from(chars@, start as int) == render_from(chars@, 0),
        ensures
            out@ == render_from(chars@, 0),
        decreases n - start,
    {
        let end = find_piece_end(chars.as_slice(), '\n', start);
        let quote = starts_quote(chars.as_slice(), start, end);
        let ghost before = out@;
        let ghost line = chars@.subrange(start as int, end as int);
        if quote {
            out.append("<span class=\"greentext\">");
        }
        append_range(&mut out, chars.as_slice(), start, end);
        if quote {
            out.append("</span>");
        }
        assert(out@ =~= before + render_line(line));
        if end >= n {
            break ;
        }
        out.append("<br />");
        assert(out@ + render_from(chars@, end + 1) =~= before + (render_line(line) + br()
            + render_from(chars@, end + 1)));
        start = end + 1;
    }
    out
}

/// Whether `pat` stands in `s` at position `i`.
pub open spec fn has_at(s: Seq<char>, i: int, pat: Seq<char>) -> bool {
    0 <= i && i + pat.len() <= s.len() && s.subrange(i, i + pat.len()) == pat
}

/// Whether one of the sanitiser's own tags stands in `s` at position `i`.
pub open spec fn tag_at(s: Seq<char>, i: int) -> bool {
    has_at(s, i, br()) || has_at(s, i, span_open()) || has_at(s, i, span_close())
}

/// Whether every `<` of `s` opens one of the sanitiser's own tags.
pub open spec fn markup_is_own(s: Seq<char>) -> bool {
    forall|i: int| 0 <= i < s.len() && s[i] == '<' ==> tag_at(s, i)
}

/// Whether `s` holds no `<` at all.
pub open spec fn no_lt(s: Seq<char>) -> bool {
    forall|i: int| 0 <= i < s.len() ==> s[i] != '<'
}

/// Whether `s` holds neither a reserved character nor a line feed.
pub open spec fn is_plain(s: Seq<char>) -> bool {
    forall|i: int| 0 <= i < s.len() ==> !is_reserved(#[trigger] s[i]) && s[i] != '\n'
}

/// Escaping leaves no `<` behind.
pub proof fn lemma_escape_no_lt(s: Seq<char>)
    ensures
        no_lt(escape_html(s)),
    decreases s.len(),
{
    reveal_strlit("&amp;");
    reveal_strlit("&lt;");
    reveal_strlit("&gt;");
    reveal_strlit("&quot;");
    reveal_strlit("&#x27;");
    if s.len() > 0 {
        lemma_escape_no_lt(s.drop_first());
        assert(no_lt(escape_char(s[0])));
    }
}

/// Escaping changes nothing in text without reserved characters.
pub proof fn lemma_escape_plain(s: Seq<char>)
    requires
        forall|i: int| 0 <= i < s.len() ==> !is_reserved(#[trigger] s[i]),
    ensures
        escape_html(s) == s,
    decreases s.len(),
{
    if s.len() > 0 {
        lemma_escape_plain(s.drop_first());
        assert(escape_char(s[0]) =~= seq![s[0]]);
        assert(seq![s[0]] + s.drop_first() =~= s);
    }
}

/// Where both parts own their markup, so does their concatenation.
pub proof fn lemma_own_concat(a: Seq<char>, b: Seq<char>)
    requires
        markup_is_own(a),
        markup_is_own(b),
    ensures
        markup_is_own(a + b),
{
    let ab = a + b;
    assert forall|i: int| 0 <= i < ab.len() && ab[i] == '<' implies tag_at(ab, i) by {
        if i < a.len() {
            assert(tag_at(a, i));
            lemma_has_at_left(a, b, i, br());
            lemma_has_at_left(a, b, i, span_open());
            lemma_has_at_left(a, b, i, span_close());
        } else {
            let j = i - a.len();
            assert(b[j] == '<');
            assert(tag_at(b, j));
            lemma_has_at_right(a, b, j, br());
            lemma_has_at_right(a, b, j, span_open());
            lemma_has_at_right(a, b, j, span_close());
        }
    }
}

/// A pattern found in `a` is found at the same place in `a + b`.
proof fn lemma_has_at_left(a: Seq<char>, b: Seq<char>, i: int, pat: Seq<char>)
    ensures
        has_at(a, i, pat) ==> has_at(a + b, i, pat),
{
    if has_at(a, i, pat) {
        assert((a + b).subrange(i, i + pat.len()) =~= a.subrange(i, i + pat.len()));
    }
}

/// A pattern found in `b` is found in `a + b`, shifted by the length of `a`.
proof fn lemma_has_at_right(a: Seq<char>, b: Seq<char>, j: int, pat: Seq<char>)
    ensures
        has_at(b, j, pat) ==> has_at(a + b, a.len() + j, pat),
{
    if has_at(b, j, pat) {
        assert((a + b).subrange(a.len() + j, a.len() + j + pat.len()) =~= b.subrange(
            j,
            j + pat.len(),
        ));
    }
}

/// Each of the sanitiser's tags owns its markup: its only `<` is its first
/// character.
proof fn lemma_tags_own()
    ensures
        markup_is_own(br()),
        markup_is_own(span_open()),
        markup_is_own(span_close()),
{
    reveal_strlit("<br />");
    reveal_strlit("<span class=\"greentext\">");
    reveal_strlit("</span>");
    assert(br().subrange(0, br().len() as int) =~= br());
    assert(span_open().subrange(0, span_open().len() as int) =~= span_open());
    assert(span_close().subrange(0, span_close().len() as int) =~= span_close());
    assert forall|i: int| 0 <= i < br().len() && br()[i] == '<' implies tag_at(br(), i) by {
        assert(i == 0);
        assert(has_at(br(), 0, br()));
    }
    assert forall|i: int| 0 <= i < span_open().len() && span_open()[i] == '<' implies tag_at(
        span_open(),
        i,
    ) by {
        assert(i == 0);
        assert(has_at(span_open(), 0, span_open()));
    }
    assert forall|i: int| 0 <= i < span_close().len() && span_close()[i] == '<' implies tag_at(
        span_close(),
        i,
    ) by {
        assert(i == 0);
        assert(has_at(span_close(), 0, span_close()));
    }
}

/// A rendered line owns its markup where the line itself holds no `<`.
proof fn lemma_line_own(line: Seq<char>)
    requires
        no_lt(line),
    ensures
        markup_is_own(render_line(line)),
{
    lemma_tags_own();
    if is_quote_line(line) {
        lemma_own_concat(span_open(), line);
        lemma_own_concat(span_open() + line, span_close());
    }
}

/// The rendering of text without `<` owns its markup.
proof fn lemma_render_own(s: Seq<char>, from: int)
    requires
        0 <= from <= s.len(),
        no_lt(s),
    ensures
        markup_is_own(render_from(s, from)),
    decreases s.len() - from,
{
    lemma_piece_end(s, '\n', from);
    lemma_tags_own();
    let end = piece_end(s, '\n', from);
    if end < s.len() {
        let line = s.subrange(from, end);
        lemma_line_own(line);
        lemma_render_own(s, end + 1);
        lemma_own_concat(render_line(line), br());
        lemma_own_concat(render_line(line) + br(), render_from(s, end + 1));
    } else {
        lemma_line_own(s.subrange(from, s.len() as int));
    }
}

/// Markup closure: in the sanitised form of any text, every `<` opens one of
/// the tags that the sanitiser itself writes (`<br />`, the `greentext` span
/// or its end); no `<` of the input survives.
pub proof fn lemma_sanitize_owns_markup(raw: Seq<char>)
    ensures
        markup_is_own(sanitize(raw)),
{
    let escaped = escape_html(raw);
    lemma_escape_no_lt(raw);
    lemma_render_is_join(escaped, 0);
    lemma_render_own(escaped, 0);
}

/// Text without reserved characters and line feeds is its own sanitised
/// form.
pub proof fn lemma_sanitize_plain(raw: Seq<char>)
    requires
        is_plain(raw),
    ensures
        sanitize(raw) == raw,
{
    reveal_strlit("&gt;");
    lemma_escape_plain(raw);
    lemma_render_is_join(raw, 0);
    lemma_single_line(raw, 0);
    assert(raw.subrange(0, raw.len() as int) =~= raw);
    if raw.len() >= 4 {
        assert(raw.subrange(0, 4)[0] == raw[0]);
    }
}

/// A line without line feeds runs to the end of the text.
proof fn lemma_single_line(s: Seq<char>, from: int)
    requires
        0 <= from <= s.len(),
        forall|i: int| 0 <= i < s.len() ==> s[i] != '\n',
    ensures
        piece_end(s, '\n', from) == s.len(),
    decreases s.len() - from,
{
    if from < s.len() {
        lemma_single_line(s, from + 1);
    }
}

/// Idempotence on plain text: sanitising a second time changes nothing when
/// the raw text holds no reserved character and no line feed. (Any other
/// text gains an `&` or a `<` in the first pass, which the second pass
/// escapes again.)
pub proof fn lemma_sanitize_idempotent(raw: Seq<char>)
    requires
        is_plain(raw),
    ensures
        sanitize(sanitize(raw)) == sanitize(raw),
{
    lemma_sanitize_plain(raw);
}

/// Whether `s` holds the character `c` at or after `from`.
pub open spec fn holds_from(s: Seq<char>, c: char, from: int) -> bool {
    exists|i: int| from <= i < s.len() && #[trigger] s[i] == c
}

/// Whether `s` holds a reserved character.
pub open spec fn holds_reserved(s: Seq<char>) -> bool {
    exists|i: int| 0 <= i < s.len() && is_reserved(#[trigger] s[i])
}

/// What either part holds, the concatenation holds.
proof fn lemma_holds_concat(a: Seq<char>, b: Seq<char>, c: char)
    ensures
        holds_from(a, c, 0) ==> holds_from(a + b, c, 0),
        holds_from(b, c, 0) ==> holds_from(a + b, c, 0),
{
    if holds_from(a, c, 0) {
        let i = choose|i: int| 0 <= i < a.len() && #[trigger] a[i] == c;
        assert((a + b)[i] == c);
    }
    if holds_from(b, c, 0) {
        let i = choose|i: int| 0 <= i < b.len() && #[trigger] b[i] == c;
        assert((a + b)[a.len() + i] == c);
    }
}

/// Escaping never shortens a text, and lengthens one that holds a reserved
/// character.
proof fn lemma_escape_len(s: Seq<char>)
    ensures
        escape_html(s).len() >= s.len(),
        holds_reserved(s) ==> escape_html(s).len() > s.len(),
    decreases s.len(),
{
    reveal_strlit("&amp;");
    reveal_strlit("&lt;");
    reveal_strlit("&gt;");
    reveal_strlit("&quot;");
    reveal_strlit("&#x27;");
    if s.len() > 0 {
        let rest = s.drop_first();
        lemma_escape_len(rest);
        assert(escape_char(s[0]).len() >= 1);
        if holds_reserved(s) {
            let i = choose|i: int| 0 <= i < s.len() && is_reserved(#[trigger] s[i]);
            if i == 0 {
                assert(escape_char(s[0]).len() >= 4);
            } else {
                assert(is_reserved(rest[i - 1]));
            }
        }
    }
}

/// Escaping a text that holds a reserved character leaves an `&` behind;
/// escaping a text that holds a line feed leaves the line feed.
proof fn lemma_escape_marks(s: Seq<char>)
    ensures
        holds_reserved(s) ==> holds_from(escape_html(s), '&', 0),
        holds_from(s, '\n', 0) ==> holds_from(escape_html(s), '\n', 0),
    decreases s.len(),
{
    reveal_strlit("&amp;");
    reveal_strlit("&lt;");
    reveal_strlit("&gt;");
    reveal_strlit("&quot;");
    reveal_strlit("&#x27;");
    if s.len() > 0 {
        let rest = s.drop_first();
        let head = escape_char(s[0]);
        lemma_escape_marks(rest);
        lemma_holds_concat(head, escape_html(rest), '&');
        lemma_holds_concat(head, escape_html(rest), '\n');
        if holds_reserved(s) {
            let i = choose|i: int| 0 <= i < s.len() && is_reserved(#[trigger] s[i]);
            if i == 0 {
                assert(head[0] == '&');
            } else {
                assert(is_reserved(rest[i - 1]));
            }
        }
        if holds_from(s, '\n', 0) {
            let i = choose|i: int| 0 <= i < s.len() && #[trigger] s[i] == '\n';
            if i == 0 {
                assert(head[0] == '\n');
            } else {
                assert(rest[i - 1] == '\n');
            }
        }
    }
}

/// Rendering never shortens a line, and keeps every `&` of it.
proof fn lemma_render_line_keeps(line: Seq<char>)
    ensures
        render_line(line).len() >= line.len(),
        holds_from(line, '&', 0) ==> holds_from(render_line(line), '&', 0),
{
    if is_quote_line(line) {
        lemma_holds_concat(span_open(), line, '&');
        lemma_holds_concat(span_open() + line, span_close(), '&');
    }
}

/// Rendering never shortens a text. It keeps an `&` where the text holds
/// one, and writes a `<` where the text holds a line feed.
proof fn lemma_render_keeps(s: Seq<char>, from: int)
    requires
        0 <= from <= s.len(),
    ensures
        render_from(s, from).len() >= s.len() - from,
        holds_from(s, '&', from) ==> holds_from(render_from(s, from), '&', 0),
        holds_from(s, '\n', from) ==> holds_from(render_from(s, from), '<', 0),
    decreases s.len() - from,
{
    reveal_strlit("<br />");
    lemma_piece_end(s, '\n', from);
    let end = piece_end(s, '\n', from);
    if end < s.len() {
        let line = s.subrange(from, end);
        let rest = render_from(s, end + 1);
        lemma_render_line_keeps(line);
        lemma_render_keeps(s, end + 1);
        lemma_holds_concat(render_line(line), br(), '&');
        lemma_holds_concat(render_line(line) + br(), rest, '&');
        lemma_holds_concat(render_line(line), br(), '<');
        lemma_holds_concat(render_line(line) + br(), rest, '<');
        assert(br()[0] == '<');
        assert(holds_from(br(), '<', 0));
        if holds_from(s, '&', from) {
            let i = choose|i: int| from <= i < s.len() && #[trigger] s[i] == '&';
            if i < end {
                assert(line[i - from] == '&');
            } else {
                assert(s[i] == '&');
                assert(holds_from(s, '&', end + 1));
            }
        }
    } else {
        let line = s.subrange(from, s.len() as int);
        lemma_render_line_keeps(line);
        if holds_from(s, '&', from) {
            let i = choose|i: int| from <= i < s.len() && #[trigger] s[i] == '&';
            assert(line[i - from] == '&');
        }
        if holds_from(s, '\n', from) {
            let i = choose|i: int| from <= i < s.len() && #[trigger] s[i] == '\n';
            assert(false);
        }
    }
}

/// Sanitising never shortens a text; a text that holds a reserved
/// character or a line feed comes out with a reserved character in it, and
/// a text that holds a reserved character comes out longer.
pub proof fn lemma_sanitize_grows(raw: Seq<char>)
    ensures
        sanitize(raw).len() >= raw.len(),
        holds_reserved(raw) ==> sanitize(raw).len() > raw.len(),
        !is_plain(raw) ==> holds_reserved(sanitize(raw)),
{
    let escaped = escape_html(raw);
    lemma_escape_len(raw);
    lemma_escape_marks(raw);
    lemma_render_is_join(escaped, 0);
    lemma_render_keeps(escaped, 0);
    if !is_plain(raw) {
        let i = choose|i: int| 0 <= i < raw.len() && !(!is_reserved(#[trigger] raw[i]) && raw[i]
            != '\n');
        let out = sanitize(raw);
        if is_reserved(raw[i]) {
            assert(holds_reserved(raw));
            let j = choose|j: int| 0 <= j < out.len() && #[trigger] out[j] == '&';
            assert(is_reserved(out[j]));
        } else {
            assert(raw[i] == '\n');
            assert(holds_from(raw, '\n', 0));
            let j = choose|j: int| 0 <= j < out.len() && #[trigger] out[j] == '<';
            assert(is_reserved(out[j]));
        }
    }
}

/// The fixed points of a second pass: sanitising twice gives what
/// sanitising once gives exactly for the texts that hold neither a reserved
/// character nor a line feed.
pub proof fn lemma_sanitize_idempotent_iff(raw: Seq<char>)
    ensures
        sanitize(sanitize(raw)) == sanitize(raw) <==> is_plain(raw),
{
    if is_plain(raw) {
        lemma_sanitize_idempotent(raw);
    } else {
        lemma_sanitize_grows(raw);
        lemma_sanitize_grows(sanitize(raw));
    }
}

} // verus!
