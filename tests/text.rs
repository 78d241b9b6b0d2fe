use styled_help::{
    collect_doc_lines, contains_text, declares_help_text, has_existing_help_attr,
    has_style_markers, is_whitespace_char, join_lines, shape_help, short_help_of, trim_text,
    FieldAttr, HelpDecl,
};

#[test]
fn trim_removes_unicode_whitespace() {
    assert_eq!(trim_text("\u{3000}\t a b \n\u{a0}"), "a b");
    assert_eq!(trim_text("   "), "");
    assert_eq!(trim_text(""), "");
    assert_eq!(trim_text("x"), "x");
}

#[test]
fn whitespace_chars_follow_std() {
    for c in [' ', '\t', '\n', '\r', '\u{b}', '\u{c}', '\u{85}', '\u{a0}', '\u{2003}', '\u{3000}'] {
        assert!(is_whitespace_char(c));
        assert_eq!(is_whitespace_char(c), c.is_whitespace());
    }
    for c in ['a', '.', '<', '\u{200b}', '\u{0}'] {
        assert!(!is_whitespace_char(c));
        assert_eq!(is_whitespace_char(c), c.is_whitespace());
    }
}

#[test]
fn contains_finds_substrings() {
    assert!(contains_text("long , help = \"x\"", "help ="));
    assert!(!contains_text("help=\"x\"", "help ="));
    assert!(contains_text("abc", ""));
    assert!(!contains_text("ab", "abc"));
    assert!(contains_text("abc", "abc"));
    assert!(contains_text("héllo wörld", "ö"));
}

#[test]
fn help_assignment_detection() {
    assert!(declares_help_text("long , help = \"Sync\""));
    assert!(declares_help_text("long_help = \"More\""));
    assert!(!declares_help_text("long , help_heading = \"X\""));
    assert!(!declares_help_text("long"));
    assert!(!declares_help_text(""));
}

#[test]
fn existing_help_over_a_list() {
    let attrs = vec![
        FieldAttr::Other { handle: 0 },
        FieldAttr::Arg { tokens: "help_heading = \"X\"".to_string(), handle: 1 },
    ];
    assert!(!has_existing_help_attr(&attrs));
    let attrs = vec![
        FieldAttr::Doc("help = not an argument".to_string()),
        FieldAttr::Arg { tokens: "short , help = \"y\"".to_string(), handle: 1 },
    ];
    assert!(has_existing_help_attr(&attrs));
}

#[test]
fn every_style_marker_is_found() {
    for m in ["<c>", "</>", "<s>", "<u>", "<k>", "<r>", "<g>", "<b>", "<y>", "<m>", "<cyan>", "<white>"] {
        assert!(has_style_markers(&format!("before {} after", m)));
    }
}

#[test]
fn unknown_tags_are_not_markers() {
    assert!(!has_style_markers("<x>text"));
    assert!(!has_style_markers("<C>text"));
    assert!(!has_style_markers("<cyan text"));
    assert!(!has_style_markers(""));
}

#[test]
fn join_uses_newlines() {
    let lines = vec!["a".to_string(), "".to_string(), "b".to_string()];
    assert_eq!(join_lines(&lines), "a\n\nb");
    assert_eq!(join_lines(&Vec::new()), "");
    assert_eq!(join_lines(&vec!["only".to_string()]), "only");
}

#[test]
fn short_help_takes_first_paragraph() {
    assert_eq!(short_help_of("a\n\n\nb"), "a");
    assert_eq!(short_help_of("Done. \n\nMore."), "Done");
    assert_eq!(short_help_of("Wait.."), "Wait.");
    assert_eq!(short_help_of("one\ntwo."), "one\ntwo");
    assert_eq!(short_help_of("\n\nlater"), "");
    assert_eq!(short_help_of(""), "");
    assert_eq!(short_help_of("."), "");
}

#[test]
fn doc_lines_are_trimmed_in_order() {
    let attrs = vec![
        FieldAttr::Doc("  first  ".to_string()),
        FieldAttr::Other { handle: 1 },
        FieldAttr::Doc("\tsecond".to_string()),
    ];
    assert_eq!(collect_doc_lines(&attrs), vec!["first".to_string(), "second".to_string()]);
}

#[test]
fn shape_help_builds_both_forms() {
    let lines = vec!["Show <b>bold</>.".to_string(), "".to_string(), "Rest.".to_string()];
    assert_eq!(
        shape_help(&lines),
        HelpDecl {
            short_help: "Show <b>bold</>".to_string(),
            long_help: "Show <b>bold</>.\n\nRest.".to_string(),
            styled: true,
        }
    );
}
