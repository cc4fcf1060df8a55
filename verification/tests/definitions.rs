use either::Either;
use hover_render::config::{HoverConfig, HoverDocFormat};
use hover_render::definition::{
    definition, definition_mod_path, definition_owner_name, label_and_docs, label_value_and_docs,
    local, path, AssocItemContainer, Definition, DefinitionKind, IdentPat, Item, Local, MacroRules,
    ModulePath, ProcMacroFn, SelfParam,
};
use hover_render::hover::ModuleDef;
use hover_render::semantics::{FamousDefs, Module};
use hover_render::syntax::SyntaxKind;

fn some(text: &str) -> Option<String> {
    Some(text.to_string())
}

fn item(display: &str) -> Item {
    Item { display: display.to_string(), docs: some("Docs.") }
}

fn module() -> ModulePath {
    ModulePath { crate_name: some("krate"), path_to_root: vec![some("inner"), None, some("outer"), None] }
}

fn def(kind: DefinitionKind) -> Definition {
    Definition { kind, module: Some(module()) }
}

fn config(documentation: Option<HoverDocFormat>) -> HoverConfig {
    HoverConfig { links_in_hover: true, documentation }
}

fn render(kind: DefinitionKind) -> Option<String> {
    definition(&def(kind), None, &config(Some(HoverDocFormat::Markdown))).map(|it| it.text)
}

fn documented(path: &str, label: &str) -> Option<String> {
    Some(format!("```rust\n{}\n```\n\n```rust\n{}\n```\n___\n\nDocs.", path, label))
}

fn local_in(source: Either<IdentPat, SelfParam>, is_mut: bool) -> Local {
    Local { name: some("x"), ty: "u8".to_string(), is_mut, source, parent: some("f") }
}

#[test]
fn path_goes_from_the_crate_to_the_item() {
    assert_eq!(path(&module(), some("Foo")), "krate::outer::inner::Foo");
    assert_eq!(path(&module(), None), "krate::outer::inner");
    let root = |crate_name| ModulePath { crate_name, path_to_root: vec![None] };
    assert_eq!(path(&root(some("krate")), some("Foo")), "krate::Foo");
    assert_eq!(path(&root(some("krate")), None), "krate");
    assert_eq!(path(&root(None), some("Foo")), "Foo");
    assert_eq!(path(&root(None), None), "");
    let nameless = ModulePath { crate_name: None, path_to_root: vec![some("a"), some("b")] };
    assert_eq!(path(&nameless, some("c")), "b::a::c");
}

#[test]
fn path_tells_its_names() {
    let split = ModulePath { crate_name: some("a"), path_to_root: vec![some("b"), None] };
    let joined = ModulePath { crate_name: some("ab"), path_to_root: vec![None] };
    assert_ne!(path(&split, some("c")), path(&joined, some("c")));
    assert_ne!(path(&split, None), path(&split, some("b")));
    let same = ModulePath { crate_name: some("a"), path_to_root: vec![None] };
    assert_eq!(path(&split, None), path(&same, some("b")));
    let nothing = ModulePath { crate_name: None, path_to_root: Vec::new() };
    assert_eq!(path(&nothing, None), path(&nothing, some("")));
}

#[test]
fn owner_is_what_a_definition_is_part_of() {
    let owner = |kind| definition_owner_name(&def(kind));
    assert_eq!(owner(DefinitionKind::Field(item("a: u8"), "Foo".to_string())), some("Foo"));
    assert_eq!(owner(DefinitionKind::Variant(item("A"), "Bar".to_string())), some("Bar"));
    let local = local_in(Either::Right(SelfParam {}), false);
    assert_eq!(owner(DefinitionKind::Local(local)), some("f"));
    let function = |container| owner(DefinitionKind::Function(item("fn f()"), container));
    assert_eq!(function(None), None);
    assert_eq!(function(Some(AssocItemContainer::Trait("Tr".to_string()))), some("Tr"));
    assert_eq!(function(Some(AssocItemContainer::Impl(some("Foo")))), some("Foo"));
    assert_eq!(function(Some(AssocItemContainer::Impl(None))), None);
    assert_eq!(owner(DefinitionKind::Adt(item("struct Foo"))), None);
    assert_eq!(owner(DefinitionKind::Label("'a".to_string())), None);
}

#[test]
fn path_to_a_definition_names_its_owner() {
    let field = DefinitionKind::Field(item("a: u8"), "Foo".to_string());
    assert_eq!(definition_mod_path(&def(field)), some("krate::outer::inner::Foo"));
    assert_eq!(definition_mod_path(&def(DefinitionKind::GenericParam(item("T")))), None);
    let builtin = Definition { kind: DefinitionKind::BuiltinType("u8".to_string()), module: None };
    assert_eq!(definition_mod_path(&builtin), None);
}

#[test]
fn labels_and_values() {
    assert_eq!(label_and_docs(&item("struct Foo")), ("struct Foo".to_string(), some("Docs.")));
    assert_eq!(
        label_value_and_docs(&item("const A: u8"), &some("3")),
        ("const A: u8 = 3".to_string(), some("Docs."))
    );
    assert_eq!(
        label_value_and_docs(&item("const A: u8"), &None),
        ("const A: u8".to_string(), some("Docs."))
    );
}

#[test]
fn definition_shows_path_label_and_docs() {
    let here = "krate::outer::inner";
    assert_eq!(render(DefinitionKind::Module(item("mod m"))), documented(here, "mod m"));
    assert_eq!(render(DefinitionKind::Adt(item("struct S"))), documented(here, "struct S"));
    assert_eq!(render(DefinitionKind::Trait(item("trait T"))), documented(here, "trait T"));
    assert_eq!(render(DefinitionKind::TypeAlias(item("type A"))), documented(here, "type A"));
    assert_eq!(
        render(DefinitionKind::Field(item("a: u8"), "S".to_string())),
        documented("krate::outer::inner::S", "a: u8")
    );
    assert_eq!(
        render(DefinitionKind::Variant(item("V"), "E".to_string())),
        documented("krate::outer::inner::E", "V")
    );
    assert_eq!(
        render(DefinitionKind::Function(
            item("fn f()"),
            Some(AssocItemContainer::Trait("T".to_string()))
        )),
        documented("krate::outer::inner::T", "fn f()")
    );
    assert_eq!(
        render(DefinitionKind::Const(item("const A: u8"), some("1 + 2"))),
        documented(here, "const A: u8 = 1 + 2")
    );
    assert_eq!(
        render(DefinitionKind::Static(item("static A: u8"), None)),
        documented(here, "static A: u8")
    );
    assert_eq!(
        render(DefinitionKind::SelfType(Some(item("struct S")))),
        documented(here, "struct S")
    );
    assert_eq!(
        render(DefinitionKind::GenericParam(item("T"))),
        some("```rust\nT\n```\n___\n\nDocs.")
    );
}

#[test]
fn macro_is_shown_by_its_source() {
    let here = "krate::outer::inner";
    let rules = Either::Left(MacroRules { label: "macro_rules! m".to_string() });
    assert_eq!(
        render(DefinitionKind::Macro(Some(rules), some("Docs."))),
        documented(here, "macro_rules! m")
    );
    let function = Either::Right(ProcMacroFn { label: "#[proc_macro] p".to_string() });
    assert_eq!(
        render(DefinitionKind::Macro(Some(function), some("Docs."))),
        documented(here, "#[proc_macro] p")
    );
    assert_eq!(render(DefinitionKind::Macro(None, some("Docs."))), None);
}

#[test]
fn self_of_no_adt_has_no_hover() {
    assert_eq!(render(DefinitionKind::SelfType(None)), None);
}

#[test]
fn unwanted_docs_are_left_out() {
    let shown = |documentation| {
        definition(&def(DefinitionKind::Adt(item("struct S"))), None, &config(documentation))
            .unwrap()
            .text
    };
    let without = "```rust\nkrate::outer::inner\n```\n\n```rust\nstruct S\n```";
    assert_eq!(shown(None), without);
    assert_eq!(shown(Some(HoverDocFormat::PlainText)), format!("{}\n___\n\nDocs.", without));
}

#[test]
fn builtin_type_is_shown_with_or_without_docs() {
    let famous = FamousDefs {
        std: Some(vec![Module {
            def: ModuleDef { id: 1 },
            name: some("prim_u8"),
            docs: some("An octet."),
        }]),
        core_option: None,
        core_result: None,
    };
    let shown = |name: &str, famous: Option<&FamousDefs>, documentation| {
        let it = Definition { kind: DefinitionKind::BuiltinType(name.to_string()), module: None };
        definition(&it, famous, &config(documentation)).unwrap().text
    };
    let documented = "```rust\nu8\n```\n___\n\nAn octet.";
    assert_eq!(shown("u8", Some(&famous), Some(HoverDocFormat::Markdown)), documented);
    assert_eq!(shown("u8", Some(&famous), None), documented);
    assert_eq!(shown("u8", None, None), "```rust\nu8\n```");
    assert_eq!(shown("i8", Some(&famous), None), "```rust\ni8\n```");
}

#[test]
fn label_is_shown_by_its_name() {
    assert_eq!(render(DefinitionKind::Label("'outer".to_string())), some("```rust\n'outer\n```"));
}

#[test]
fn local_is_shown_as_it_is_bound() {
    let shown = |parent, is_mut| {
        let source = Either::Left(IdentPat { parent });
        local(&local_in(source, is_mut)).unwrap().text
    };
    assert_eq!(shown(Some(SyntaxKind::LetStmt), false), "```rust\nlet x: u8\n```");
    assert_eq!(shown(Some(SyntaxKind::LetStmt), true), "```rust\nlet mut x: u8\n```");
    assert_eq!(shown(Some(SyntaxKind::Condition), false), "```rust\nlet x: u8\n```");
    assert_eq!(shown(Some(SyntaxKind::Other), true), "```rust\nmut x: u8\n```");
    assert_eq!(shown(None, false), "```rust\nx: u8\n```");
    let this = |is_mut| local(&local_in(Either::Right(SelfParam {}), is_mut)).unwrap().text;
    assert_eq!(this(false), "```rust\nself: u8\n```");
    assert_eq!(this(true), "```rust\nmut self: u8\n```");
    let kind = DefinitionKind::Local(local_in(Either::Right(SelfParam {}), false));
    assert_eq!(render(kind), some("```rust\nself: u8\n```"));
}
