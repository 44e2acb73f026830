use rusty_board::sanitize::sanitize_content;

const BR: &str = "<br />";
const OPEN: &str = "<span class=\"greentext\">";
const CLOSE: &str = "</span>";

fn corpus() -> Vec<&'static str> {
    vec![
        "",
        "plain text",
        "<script>alert('x')</script>",
        "&amp;",
        ">quote",
        ">be me\nnormal",
        "a\n",
        "\n",
        "tab\tand \"quotes\" and 'apostrophes'",
        "naïve café ☕ 日本語",
        "a/b",
        "1 < 2 && 3 > 2",
        "line1\r\nline2",
        "&gt;already escaped",
    ]
}

/// Every `<` of `out` must open one of the three tags the sanitiser writes.
fn markup_is_own(out: &str) -> bool {
    out.char_indices().all(|(i, c)| {
        c != '<'
            || out[i..].starts_with(BR)
            || out[i..].starts_with(OPEN)
            || out[i..].starts_with(CLOSE)
    })
}

#[test]
fn greentext_line_is_wrapped() {
    assert_eq!(
        sanitize_content(">be me\nnormal"),
        "<span class=\"greentext\">&gt;be me</span><br />normal"
    );
}

#[test]
fn escaped_input_is_escaped_again() {
    assert_eq!(
        sanitize_content("Hello &lt;world&gt;"),
        "Hello &amp;lt;world&amp;gt;"
    );
}

#[test]
fn the_five_reserved_characters_become_entities() {
    assert_eq!(sanitize_content("&"), "&amp;");
    assert_eq!(sanitize_content("<"), "&lt;");
    assert_eq!(
        sanitize_content(">"),
        "<span class=\"greentext\">&gt;</span>"
    );
    assert_eq!(sanitize_content("\""), "&quot;");
    assert_eq!(sanitize_content("'"), "&#x27;");
    assert_eq!(sanitize_content("a<b"), "a&lt;b");
}

#[test]
fn other_characters_are_kept() {
    assert_eq!(sanitize_content("a/b"), "a/b");
    assert_eq!(sanitize_content("naïve café ☕ 日本語"), "naïve café ☕ 日本語");
    assert_eq!(sanitize_content(""), "");
}

#[test]
fn lines_are_split_on_line_feeds_only() {
    assert_eq!(sanitize_content("a\nb\nc"), "a<br />b<br />c");
    assert_eq!(sanitize_content("a\n"), "a<br />");
    assert_eq!(sanitize_content("\n"), "<br />");
    assert_eq!(sanitize_content("a\r\nb"), "a\r<br />b");
}

#[test]
fn quote_must_open_the_line() {
    assert_eq!(sanitize_content("a > b"), "a &gt; b");
    assert_eq!(
        sanitize_content("x\n>y"),
        "x<br /><span class=\"greentext\">&gt;y</span>"
    );
    assert_eq!(sanitize_content(" >y"), " &gt;y");
}

#[test]
fn script_tags_are_neutralised() {
    assert_eq!(
        sanitize_content("<script>alert('x')</script>"),
        "&lt;script&gt;alert(&#x27;x&#x27;)&lt;/script&gt;"
    );
}

#[test]
fn every_markup_character_is_the_sanitisers_own() {
    for raw in corpus() {
        let out = sanitize_content(raw);
        assert!(markup_is_own(&out), "foreign markup in {out:?}");
    }
}

#[test]
fn sanitising_plain_text_twice_changes_nothing() {
    for raw in ["", "plain text", "naïve café ☕ 日本語", "a/b", "tab\there"] {
        let once = sanitize_content(raw);
        assert_eq!(once, raw);
        assert_eq!(sanitize_content(&once), once);
    }
}

#[test]
fn sanitising_reserved_text_twice_escapes_twice() {
    let once = sanitize_content("<");
    assert_eq!(once, "&lt;");
    assert_eq!(sanitize_content(&once), "&amp;lt;");
    let lines = sanitize_content("a\nb");
    assert_eq!(sanitize_content(&lines), "a&lt;br /&gt;b");
}
