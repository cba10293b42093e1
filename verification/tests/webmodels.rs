use lsforms::webmodels::sanitize;

#[test]
fn test_webmodel_sanitize() {
    let checks: Vec<(&str, &str)> = vec![
        // check the conversion
        ("<", "&lt;"),
        (">", "&gt;"),
        ("&", "&amp;"),
        ("\"", "&quot;"),
        ("'", "&#039;"),

        ("<3", "&lt;3"),
        ("<>&\"'", "&lt;&gt;&amp;&quot;&#039;"),
        ("<>", "&lt;&gt;"),

        // the conversion has already been done, do nothing
        ("&lt;", "&lt;"),
        ("&gt;", "&gt;"),
        ("&amp;", "&amp;"),
        ("&quot;", "&quot;"),
        ("&#039;", "&#039;"),

        // string with a mix of both
        ("<3 &amp; <3", "&lt;3 &amp; &lt;3"),
        ("<script&gt;</script>", "&lt;script&gt;&lt;/script&gt;"),
        ("&lt;3 ><", "&lt;3 &gt;&lt;"),
    ];

    for (input, expected) in checks.into_iter() {
        assert_eq!(sanitize(input), expected);
    }
}

#[test]
fn sanitize_twice_changes_nothing() {
    let inputs = vec!["<a href='x'>&</a>", "&amp;&&lt", "plain text", "é<ü>", "&#039;'", ""];
    for s in inputs {
        let once = sanitize(s);
        assert_eq!(sanitize(&once), once);
    }
}

#[test]
fn sanitize_leaves_no_markup() {
    let out = sanitize("<b>\"quoted\" & 'single'</b> &lt;ok&gt; &unknown;");
    assert!(!out.contains('<'));
    assert!(!out.contains('>'));
    assert!(!out.contains('"'));
    assert!(!out.contains('\''));
    assert_eq!(out, "&lt;b&gt;&quot;quoted&quot; &amp; &#039;single&#039;&lt;/b&gt; &lt;ok&gt; &amp;unknown;");
}

#[test]
fn sanitize_keeps_other_characters() {
    assert_eq!(sanitize("héllo wörld ✓"), "héllo wörld ✓");
    assert_eq!(sanitize("&am"), "&amp;am");
    assert_eq!(sanitize("&&"), "&amp;&amp;");
}
