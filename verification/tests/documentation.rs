use hover_render::config::{HoverConfig, HoverDocFormat};
use hover_render::docs::{builtin, find_std_module, keyword, markup, process_markup};
use hover_render::hover::{HoverResult, ModuleDef};
use hover_render::markup::Markup;
use hover_render::semantics::{FamousDefs, Module};
use hover_render::syntax::SyntaxToken;

fn config(links_in_hover: bool, documentation: Option<HoverDocFormat>) -> HoverConfig {
    HoverConfig { links_in_hover, documentation }
}

fn module(id: u64, name: Option<&str>, docs: Option<&str>) -> Module {
    Module {
        def: ModuleDef { id },
        name: name.map(|it| it.to_string()),
        docs: docs.map(|it| it.to_string()),
    }
}

fn famous() -> FamousDefs {
    FamousDefs {
        std: Some(vec![
            module(1, None, Some("no name")),
            module(2, Some("prim_u8"), Some("An octet.")),
            module(3, Some("return_keyword"), Some("Return a value.")),
            module(4, Some("return_keyword"), Some("Too late.")),
            module(5, Some("fn_keyword"), None),
            module(6, Some("prim_str"), None),
        ]),
        core_option: None,
        core_result: None,
    }
}

fn token(text: &str, is_keyword: bool) -> SyntaxToken {
    SyntaxToken { text: text.to_string(), is_keyword, start: 0, previous: Vec::new() }
}

fn hover_keyword(
    config: &HoverConfig,
    token: &SyntaxToken,
    scope: Option<&FamousDefs>,
) -> Option<HoverResult> {
    keyword(
        config,
        token,
        scope,
        |text: &str| format!("plain({})", text),
        |text: &str, module: &Module| format!("links({}, {})", text, module.def.id),
        |text: &str| format!("no links({})", text),
    )
}

#[test]
fn markup_has_path_label_and_docs() {
    let some = |text: &str| Some(text.to_string());
    let render = |docs, mod_path| markup(docs, "fn f()".to_string(), mod_path).unwrap().text;
    assert_eq!(render(None, None), "```rust\nfn f()\n```");
    assert_eq!(render(None, some("")), "```rust\nfn f()\n```");
    assert_eq!(render(None, some("a::b")), "```rust\na::b\n```\n\n```rust\nfn f()\n```");
    assert_eq!(render(some("Docs."), None), "```rust\nfn f()\n```\n___\n\nDocs.");
    assert_eq!(render(some(""), None), "```rust\nfn f()\n```\n___\n\n");
    assert_eq!(
        render(some("Docs."), some("a")),
        "```rust\na\n```\n\n```rust\nfn f()\n```\n___\n\nDocs."
    );
}

#[test]
fn fenced_block_holds_rust() {
    assert_eq!(Markup::fenced_block("u8").as_str(), "```rust\nu8\n```");
}

#[test]
fn markup_is_processed_by_one_pass() {
    let run = |config: HoverConfig| {
        process_markup(
            &7u8,
            &Markup::from("x".to_string()),
            &config,
            |text: &str| format!("plain({})", text),
            |text: &str, def: &u8| format!("links({}, {})", text, def),
            |text: &str| format!("no links({})", text),
        )
        .text
    };
    assert_eq!(run(config(true, Some(HoverDocFormat::Markdown))), "links(x, 7)");
    assert_eq!(run(config(false, Some(HoverDocFormat::Markdown))), "no links(x)");
    assert_eq!(run(config(true, Some(HoverDocFormat::PlainText))), "plain(x)");
    assert_eq!(run(config(false, Some(HoverDocFormat::PlainText))), "plain(x)");
    assert_eq!(run(config(true, None)), "plain(x)");
    assert_eq!(run(config(false, None)), "plain(x)");
}

#[test]
fn std_module_is_found_by_name() {
    let famous = famous();
    assert_eq!(find_std_module(&famous, "prim_u8").unwrap().def.id, 2);
    assert_eq!(find_std_module(&famous, "return_keyword").unwrap().def.id, 3);
    assert!(find_std_module(&famous, "return").is_none());
    assert!(find_std_module(&famous, "prim_u8_").is_none());
    assert!(find_std_module(&famous, "").is_none());
    let no_std = FamousDefs { std: None, core_option: None, core_result: None };
    assert!(find_std_module(&no_std, "prim_u8").is_none());
}

#[test]
fn keyword_shows_docs_of_std() {
    let famous = famous();
    let hover = |config: HoverConfig| {
        let hover = hover_keyword(&config, &token("return", true), Some(&famous)).unwrap();
        assert!(hover.actions.is_empty());
        hover.markup.text
    };
    let text = "```rust\nreturn\n```\n___\n\nReturn a value.";
    assert_eq!(hover(config(true, Some(HoverDocFormat::Markdown))), format!("links({}, 3)", text));
    assert_eq!(hover(config(false, Some(HoverDocFormat::Markdown))), format!("no links({})", text));
    assert_eq!(hover(config(true, Some(HoverDocFormat::PlainText))), format!("plain({})", text));
}

#[test]
fn keyword_has_no_hover_without_docs() {
    let famous = famous();
    let wanted = config(true, Some(HoverDocFormat::Markdown));
    assert!(hover_keyword(&config(true, None), &token("return", true), Some(&famous)).is_none());
    assert!(hover_keyword(&wanted, &token("return", false), Some(&famous)).is_none());
    assert!(hover_keyword(&wanted, &token("return", true), None).is_none());
    assert!(hover_keyword(&wanted, &token("fn", true), Some(&famous)).is_none());
    assert!(hover_keyword(&wanted, &token("while", true), Some(&famous)).is_none());
    let no_std = FamousDefs { std: None, core_option: None, core_result: None };
    assert!(hover_keyword(&wanted, &token("return", true), Some(&no_std)).is_none());
}

#[test]
fn builtin_shows_docs_of_std() {
    let famous = famous();
    assert_eq!(
        builtin(&famous, "u8").unwrap().as_str(),
        "```rust\nu8\n```\n___\n\nAn octet."
    );
    assert!(builtin(&famous, "str").is_none());
    assert!(builtin(&famous, "i8").is_none());
}

#[test]
fn markdown_is_wanted_only_in_that_format() {
    assert!(config(false, Some(HoverDocFormat::Markdown)).markdown());
    assert!(!config(true, Some(HoverDocFormat::PlainText)).markdown());
    assert!(!config(true, None).markdown());
}
