use hover_render::lint::{find_lint, try_for_lint, Lint, LintTables};
use hover_render::syntax::{
    non_trivia_sibling, Attr, SimpleCall, SyntaxElement, SyntaxKind, SyntaxToken, TextRange,
};
use hover_render::text::{order, same_text, Order};

fn lint(label: &'static str, description: &'static str) -> Lint {
    Lint { label, description }
}

fn tables() -> LintTables {
    LintTables {
        features: vec![lint("box_patterns", "Boxes."), lint("never_type", "The type `!`.")],
        default_lints: vec![
            lint("dead_code", "Code that is dead."),
            lint("never_type", "Not a lint."),
            lint("unused", "What is not used."),
        ],
        clippy_lints: vec![
            lint("clippy::all", "Everything."),
            lint("clippy::dead_code", "Other dead code."),
        ],
    }
}

fn attr(path: &str) -> Attr {
    Attr {
        simple_call: Some(SimpleCall {
            path: path.to_string(),
            token_tree: TextRange { start: 10, end: 20 },
        }),
    }
}

fn element(kind: SyntaxKind, text: Option<&str>) -> SyntaxElement {
    SyntaxElement { kind, token_text: text.map(|it| it.to_string()) }
}

fn token(text: &str, start: u32, previous: Vec<SyntaxElement>) -> SyntaxToken {
    SyntaxToken { text: text.to_string(), is_keyword: false, start, previous }
}

fn clippy() -> Vec<SyntaxElement> {
    vec![
        element(SyntaxKind::Colon, Some(":")),
        element(SyntaxKind::Colon, Some(":")),
        element(SyntaxKind::Ident, Some("clippy")),
        element(SyntaxKind::Other, Some("(")),
    ]
}

fn hover(path: &str, token: &SyntaxToken) -> Option<String> {
    try_for_lint(&tables(), &attr(path), token).map(|hover| {
        assert!(hover.actions.is_empty());
        hover.markup.text
    })
}

#[test]
fn lint_is_shown_in_each_level() {
    for level in ["allow", "deny", "forbid", "warn"] {
        assert_eq!(
            hover(level, &token("dead_code", 11, Vec::new())).unwrap(),
            "```\ndead_code\n```\n___\n\nCode that is dead."
        );
    }
}

#[test]
fn clippy_lint_is_shown_with_its_prefix() {
    assert_eq!(
        hover("allow", &token("dead_code", 11, clippy())).unwrap(),
        "```\nclippy::dead_code\n```\n___\n\nOther dead code."
    );
    assert_eq!(hover("allow", &token("unused", 11, clippy())), None);
    assert_eq!(hover("allow", &token("all", 11, Vec::new())), None);
}

#[test]
fn level_does_not_matter() {
    for (text, previous) in
        [("dead_code", clippy as fn() -> Vec<SyntaxElement>), ("unused", Vec::new), ("none", clippy)]
    {
        let allowed = hover("allow", &token(text, 11, previous()));
        for level in ["deny", "forbid", "warn"] {
            assert_eq!(hover(level, &token(text, 19, previous())), allowed);
        }
    }
}

#[test]
fn level_does_not_matter_in_an_unsorted_table() {
    let tables = LintTables {
        features: Vec::new(),
        default_lints: vec![lint("b", "1"), lint("a", "2"), lint("b", "3"), lint("a", "4")],
        clippy_lints: Vec::new(),
    };
    let hover = |level: &str, text: &str| {
        try_for_lint(&tables, &attr(level), &token(text, 11, Vec::new())).map(|it| it.markup.text)
    };
    for text in ["a", "b", "c"] {
        for level in ["deny", "forbid", "warn"] {
            assert_eq!(hover(level, text), hover("allow", text));
        }
    }
}

#[test]
fn trivia_do_not_matter() {
    let blank = || element(SyntaxKind::Whitespace, Some(" "));
    let comment = || element(SyntaxKind::Comment, Some("/* : */"));
    let mut spaced = vec![comment(), blank()];
    for it in clippy() {
        spaced.push(it);
        spaced.push(blank());
        spaced.push(comment());
    }
    assert_eq!(
        hover("deny", &token("dead_code", 15, spaced)),
        hover("allow", &token("dead_code", 11, clippy()))
    );
    let apart = vec![blank(), element(SyntaxKind::Colon, Some(":")), blank(), comment()];
    assert_eq!(
        hover("deny", &token("dead_code", 15, apart)),
        hover("allow", &token("dead_code", 11, Vec::new()))
    );
}

#[test]
fn sibling_is_the_first_that_is_no_trivia() {
    let siblings = vec![
        element(SyntaxKind::Whitespace, Some(" ")),
        element(SyntaxKind::Comment, Some("// x")),
        element(SyntaxKind::Colon, Some(":")),
        element(SyntaxKind::Whitespace, Some(" ")),
    ];
    assert_eq!(non_trivia_sibling(&siblings, 0), Some(2));
    assert_eq!(non_trivia_sibling(&siblings, 2), Some(2));
    assert_eq!(non_trivia_sibling(&siblings, 3), None);
    assert_eq!(non_trivia_sibling(&siblings, 4), None);
}

#[test]
fn only_the_clippy_path_leads_to_clippy() {
    let dead_code = "```\ndead_code\n```\n___\n\nCode that is dead.";
    let colon = || element(SyntaxKind::Colon, Some(":"));
    let ident = |text| element(SyntaxKind::Ident, Some(text));
    for previous in [
        vec![colon(), colon()],
        vec![colon(), colon(), ident("rustc")],
        vec![colon(), colon(), element(SyntaxKind::Other, Some("clippy"))],
        vec![colon(), colon(), element(SyntaxKind::Ident, None)],
        vec![colon(), ident("clippy")],
        vec![colon(), ident("x"), ident("clippy")],
        vec![ident("x"), colon(), ident("clippy")],
    ] {
        assert_eq!(hover("warn", &token("dead_code", 11, previous)).unwrap(), dead_code);
    }
}

#[test]
fn feature_is_shown() {
    assert_eq!(
        hover("feature", &token("never_type", 11, Vec::new())).unwrap(),
        "```\nnever_type\n```\n___\n\nThe type `!`."
    );
    assert_eq!(
        hover("feature", &token("never_type", 11, clippy())).unwrap(),
        "```\nnever_type\n```\n___\n\nThe type `!`."
    );
    assert_eq!(hover("feature", &token("dead_code", 11, Vec::new())), None);
}

#[test]
fn other_attributes_have_no_hover() {
    for path in ["derive", "cfg", "", "Allow", "allow_", "features"] {
        assert_eq!(hover(path, &token("dead_code", 11, Vec::new())), None);
    }
    let plain = Attr { simple_call: None };
    assert!(try_for_lint(&tables(), &plain, &token("dead_code", 11, Vec::new())).is_none());
}

#[test]
fn only_arguments_have_a_hover() {
    assert_eq!(hover("allow", &token("dead_code", 9, Vec::new())), None);
    assert!(hover("allow", &token("dead_code", 10, Vec::new())).is_some());
    assert!(hover("allow", &token("dead_code", 19, Vec::new())).is_some());
    assert_eq!(hover("allow", &token("dead_code", 20, Vec::new())), None);
}

#[test]
fn each_entry_of_a_sorted_list_is_found() {
    let labels = ["", "A", "B", "a", "ab", "b", "clippy::x", "z", "\u{e9}", "\u{ffff}", "\u{10000}"];
    for n in 0..=labels.len() {
        let lints: Vec<Lint> = labels[..n].iter().map(|label| lint(label, "")).collect();
        for (i, label) in labels.iter().enumerate() {
            let found = find_lint(&lints, label).map(|it| it.label);
            assert_eq!(found, if i < n { Some(*label) } else { None });
            assert_eq!(lints.binary_search_by_key(label, |it| it.label).is_ok(), found.is_some());
        }
        assert!(find_lint(&lints, "aa").is_none());
    }
}

#[test]
fn texts_are_ordered_as_str() {
    let texts = ["", "A", "a", "ab", "b", "\u{7f}", "\u{e9}", "\u{ffff}", "\u{10000}"];
    for a in texts {
        for b in texts {
            let expected = if a < b {
                Order::Before
            } else if a == b {
                Order::Same
            } else {
                Order::After
            };
            assert_eq!(order(a, b), expected);
            assert_eq!(same_text(a, b), a == b);
        }
    }
}
