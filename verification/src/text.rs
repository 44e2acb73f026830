//! Character-level helpers for building and inspecting strings.

use vstd::prelude::*;
use vstd::std_specs::iter::IteratorSpec;
use vstd::utf8::{decode_utf8, valid_utf8};

verus! {

/// Appends one character to a string: `String::push` of the standard
/// library, which leaves what was there and adds `c` at the end.
#[verifier::external_body]
pub(crate) fn push_char(s: &mut String, c: char)
    ensures
        final(s)@ == old(s)@.push(c),
{
    s.push(c);
}

/// The characters of a string, in order.
pub fn chars_of(s: &str) -> (v: Vec<char>)
    ensures
        v@ == s@,
{
    let mut v: Vec<char> = Vec::new();
    for c in it: s.chars()
        invariant
            it.seq() == s@,
            v@ == s@.take(it.index() as int),
    {
        v.push(c);
    }
    v
}

/// The index of the first `sep` in `s` at or after `from`, or the length of
/// `s` where there is none.
pub open spec fn piece_end(s: Seq<char>, sep: char, from: int) -> int
    decreases s.len() - from,
{
    if from < 0 || from >= s.len() || s[from] == sep {
        from
    } else {
        piece_end(s, sep, from + 1)
    }
}

/// The pieces of `s` between separators, from `from` on. A separator at the
/// very end is followed by one empty piece.
pub open spec fn pieces_from(s: Seq<char>, sep: char, from: int) -> Seq<Seq<char>>
    decreases s.len() - from,
{
    let end = piece_end(s, sep, from);
    if from < 0 || end >= s.len() {
        seq![s.subrange(from, s.len() as int)]
    } else {
        proof {
            if from <= s.len() {
                lemma_piece_end(s, sep, from);
            }
        }
        seq![s.subrange(from, end)] + pieces_from(s, sep, end + 1)
    }
}

/// `s` split on every occurrence of `sep`.
pub open spec fn split(s: Seq<char>, sep: char) -> Seq<Seq<char>> {
    pieces_from(s, sep, 0)
}

/// A piece ends at or after its start and within the text, on a separator or
/// at the end, and holds no separator before that.
pub proof fn lemma_piece_end(s: Seq<char>, sep: char, from: int)
    requires
        0 <= from <= s.len(),
    ensures
        from <= piece_end(s, sep, from) <= s.len(),
        piece_end(s, sep, from) < s.len() ==> s[piece_end(s, sep, from)] == sep,
        forall|i: int| from <= i < piece_end(s, sep, from) ==> s[i] != sep,
    decreases s.len() - from,
{
    if from < s.len() && s[from] != sep {
        lemma_piece_end(s, sep, from + 1);
    }
}

/// There is always at least one piece.
pub proof fn lemma_pieces_nonempty(s: Seq<char>, sep: char, from: int)
    requires
        0 <= from <= s.len(),
    ensures
        pieces_from(s, sep, from).len() >= 1,
    decreases s.len() - from,
{
    lemma_piece_end(s, sep, from);
    let end = piece_end(s, sep, from);
    if end < s.len() {
        lemma_pieces_nonempty(s, sep, end + 1);
    }
}

/// Finds where the piece that starts at `from` ends.
pub(crate) fn find_piece_end(chars: &[char], sep: char, from: usize) -> (end: usize)
    requires
        from <= chars.len(),
    ensures
        end == piece_end(chars@, sep, from as int),
        from <= end <= chars.len(),
{
    let mut i: usize = from;
    while i < chars.len() && chars[i] != sep
        invariant
            from <= i <= chars.len(),
            piece_end(chars@, sep, from as int) == piece_end(chars@, sep, i as int),
        decreases chars.len() - i,
    {
        i = i + 1;
    }
    i
}

/// Appends `chars[from..end]` to `out`.
pub(crate) fn append_range(out: &mut String, chars: &[char], from: usize, end: usize)
    requires
        from <= end <= chars.len(),
    ensures
        final(out)@ == old(out)@ + chars@.subrange(from as int, end as int),
{
    let mut i: usize = from;
    while i < end
        invariant
            from <= i <= end <= chars.len(),
            out@ == old(out)@ + chars@.subrange(from as int, i as int),
        decreases end - i,
    {
        push_char(out, chars[i]);
        assert(chars@.subrange(from as int, i + 1) =~= chars@.subrange(from as int, i as int).push(
            chars@[i as int],
        ));
        i = i + 1;
    }
    assert(chars@.subrange(from as int, from as int) =~= Seq::<char>::empty());
}

/// The views of a list of character vectors.
pub open spec fn views(parts: Seq<Vec<char>>) -> Seq<Seq<char>> {
    parts.map_values(|part: Vec<char>| part@)
}

/// Copies `chars[from..end]`.
pub(crate) fn copy_range(chars: &[char], from: usize, end: usize) -> (piece: Vec<char>)
    requires
        from <= end <= chars.len(),
    ensures
        piece@ == chars@.subrange(from as int, end as int),
{
    let mut piece: Vec<char> = Vec::new();
    let mut i: usize = from;
    while i < end
        invariant
            from <= i <= end <= chars.len(),
            piece@ == chars@.subrange(from as int, i as int),
        decreases end - i,
    {
        piece.push(chars[i]);
        i = i + 1;
    }
    piece
}

/// Splits `chars` on every occurrence of `sep`.
pub fn split_chars(chars: &[char], sep: char) -> (parts: Vec<Vec<char>>)
    ensures
        views(parts@) == split(chars@, sep),
{
    let n = chars.len();
    let mut parts: Vec<Vec<char>> = Vec::new();
    let mut start: usize = 0;
    loop
        invariant_except_break
            start <= n,
            n == chars.len(),
            views(parts@) + pieces_from(chars@, sep, start as int) == split(chars@, sep),
        ensures
            views(parts@) == split(chars@, sep),
        decreases n - start,
    {
        let end = find_piece_end(chars, sep, start);
        let piece = copy_range(chars, start, end);
        let ghost before = parts@;
        parts.push(piece);
        assert(views(parts@) =~= views(before) + seq![chars@.subrange(start as int, end as int)]);
        if end >= n {
            break ;
        }
        assert(views(parts@) + pieces_from(chars@, sep, end + 1) =~= views(before) + (seq![
            chars@.subrange(start as int, end as int),
        ] + pieces_from(chars@, sep, end + 1)));
        start = end + 1;
    }
    parts
}

/// `std::str::from_utf8`: the text that the bytes encode, or `None` where
/// they are not valid UTF-8.
#[verifier::external_body]
pub(crate) fn utf8_text(bytes: &[u8]) -> (text: Option<String>)
    ensures
        text is Some <==> valid_utf8(bytes@),
        text matches Some(t) ==> t@ == decode_utf8(bytes@),
{
    match std::str::from_utf8(bytes) {
        Ok(t) => Some(t.to_string()),
        Err(_) => None,
    }
}

/// Tells whether two character slices hold the same text.
pub fn same_chars(a: &[char], b: &[char]) -> (same: bool)
    ensures
        same == (a@ == b@),
{
    if a.len() != b.len() {
        return false;
    }
    let mut i: usize = 0;
    while i < a.len()
        invariant
            i <= a.len(),
            a.len() == b.len(),
            a@.take(i as int) == b@.take(i as int),
        decreases a.len() - i,
    {
        if a[i] != b[i] {
            return false;
        }
        assert(a@.take(i + 1) =~= a@.take(i as int).push(a@[i as int]));
        assert(b@.take(i + 1) =~= b@.take(i as int).push(b@[i as int]));
        i = i + 1;
    }
    assert(a@.take(a.len() as int) =~= a@);
    assert(b@.take(b.len() as int) =~= b@);
    true
}

/// Tells whether two strings hold the same text.
pub fn same_text(a: &str, b: &str) -> (same: bool)
    ensures
        same == (a@ == b@),
{
    let x = chars_of(a);
    let y = chars_of(b);
    same_chars(x.as_slice(), y.as_slice())
}

} // verus!
