use either::Either;
use hover_render::config::{HoverConfig, HoverDocFormat};
use hover_render::expr::{deref_expr, try_expr, type_info};
use hover_render::hover::{push_new_def, push_new_defs, HoverAction, HoverResult, ModuleDef};
use hover_render::semantics::{
    Adt, BlockModifier, DerefExpr, Enum, Expr, FamousDefs, Pat, SyntaxNode, TryExpr, Type, TypeInfo,
};

const OPTION: Enum = Enum { id: 1 };
const RESULT: Enum = Enum { id: 2 };

fn markdown() -> HoverConfig {
    HoverConfig { links_in_hover: true, documentation: Some(HoverDocFormat::Markdown) }
}

fn plain() -> HoverConfig {
    HoverConfig { links_in_hover: true, documentation: Some(HoverDocFormat::PlainText) }
}

fn defs(ids: &[u64]) -> Vec<ModuleDef> {
    ids.iter().map(|id| ModuleDef { id: *id }).collect()
}

fn ty(id: u64, display: &str, ids: &[u64]) -> Type {
    Type { id, display: display.to_string(), adt: None, arguments: Vec::new(), defs: defs(ids) }
}

fn enum_ty(id: u64, display: &str, it: Enum, arguments: Vec<Type>) -> Type {
    Type { id, display: display.to_string(), adt: Some(Adt::Enum(it)), arguments, defs: defs(&[it.id]) }
}

fn expr(original: Type, adjusted: Option<Type>) -> Expr {
    Expr { ty: Some(TypeInfo { original, adjusted }) }
}

fn famous() -> FamousDefs {
    FamousDefs { std: None, core_option: Some(OPTION), core_result: Some(RESULT) }
}

fn goto(ids: &[u64]) -> Vec<HoverAction> {
    vec![HoverAction::GoToType(defs(ids))]
}

fn in_fn(inner: Type, body: Type) -> TryExpr {
    TryExpr {
        expr: Some(expr(inner, None)),
        ancestors: vec![
            SyntaxNode::Other,
            SyntaxNode::BlockExpr(None, Expr { ty: None }),
            SyntaxNode::Fn(Some(body)),
            SyntaxNode::Item,
        ],
    }
}

fn text(hover: &Option<HoverResult>) -> &str {
    hover.as_ref().unwrap().markup.as_str()
}

#[test]
fn type_of_expression() {
    let it = Either::Left(expr(ty(1, "Vec<Foo>", &[7, 8, 7]), None));
    let hover = type_info(&markdown(), &it).unwrap();
    assert_eq!(hover.markup.as_str(), "```rust\nVec<Foo>\n```");
    assert_eq!(hover.actions, goto(&[7, 8]));
    assert_eq!(type_info(&plain(), &it).unwrap().markup.as_str(), "Vec<Foo>");
}

#[test]
fn type_of_pattern() {
    let it = Either::Right(Pat { ty: Some(TypeInfo { original: ty(1, "u8", &[]), adjusted: None }) });
    let hover = type_info(&plain(), &it).unwrap();
    assert_eq!(hover.markup.as_str(), "u8");
    assert_eq!(hover.actions, goto(&[]));
}

#[test]
fn unknown_type_has_no_hover() {
    assert!(type_info(&plain(), &Either::Left(Expr { ty: None })).is_none());
    assert!(type_info(&plain(), &Either::Right(Pat { ty: None })).is_none());
}

#[test]
fn coercion_is_shown() {
    let it = Either::Left(expr(ty(1, "Box<i32>", &[3]), Some(ty(2, "&i32", &[4, 3]))));
    let hover = type_info(&markdown(), &it).unwrap();
    assert_eq!(
        hover.markup.as_str(),
        "```text\nType:       Box<i32>\nCoerced to:     &i32\n```\n"
    );
    assert_eq!(hover.actions, goto(&[3, 4]));
    assert_eq!(
        text(&type_info(&plain(), &it)),
        "Type:       Box<i32>\nCoerced to:     &i32\n"
    );
}

#[test]
fn coercion_pads_by_bytes() {
    let samples = ["", "u8", "&mut [T; 3]", "\u{e9}t\u{e9}", "\u{1f980}<K>", "Vec<Vec<u8>>"];
    for original in samples {
        for adjusted in samples {
            let it = Either::Left(expr(ty(1, original, &[]), Some(ty(2, adjusted, &[]))));
            let expected = format!(
                "Type: {:>apad$}\nCoerced to: {:>opad$}\n",
                original,
                adjusted,
                apad = 6 + adjusted.len().max(original.len()),
                opad = original.len(),
            );
            assert_eq!(text(&type_info(&plain(), &it)), expected);
        }
    }
}

#[test]
fn coercion_to_longer_non_ascii_type_is_not_aligned() {
    let it = Either::Left(expr(ty(1, "u", &[]), Some(ty(2, "\u{e9}\u{e9}", &[]))));
    let hover = type_info(&plain(), &it);
    let widths: Vec<usize> = text(&hover).lines().map(|line| line.chars().count()).collect();
    assert_eq!(widths, vec![16, 14]);
}

#[test]
fn try_shows_target_types() {
    let it = in_fn(ty(1, "Poll<u8>", &[5]), ty(2, "Other", &[6, 5]));
    let hover = try_expr(&markdown(), &it, &famous()).unwrap();
    assert_eq!(
        hover.markup.as_str(),
        "```text\nTry Target Type: Poll<u8>\nPropagated as:      Other\n```\n"
    );
    assert_eq!(hover.actions, goto(&[5, 6]));
    assert_eq!(
        text(&try_expr(&plain(), &it, &famous())),
        "Try Target Type: Poll<u8>\nPropagated as:      Other\n"
    );
}

#[test]
fn try_shows_error_types_of_two_results() {
    let inner = enum_ty(1, "Result<u8, FooError>", RESULT, vec![ty(3, "u8", &[]), ty(4, "FooError", &[10])]);
    let body = enum_ty(2, "Result<(), E>", RESULT, vec![ty(5, "()", &[]), ty(6, "E", &[11])]);
    let hover = try_expr(&plain(), &in_fn(inner, body), &famous()).unwrap();
    assert_eq!(hover.markup.as_str(), "Try Error Type: FooError\nPropagated as:         E\n");
    assert_eq!(hover.actions, goto(&[10, 11]));
}

#[test]
fn try_shows_results_whole_where_arguments_are_missing() {
    let inner = enum_ty(1, "Result<u8>", RESULT, vec![ty(3, "u8", &[])]);
    let body = enum_ty(2, "Result<(), E>", RESULT, vec![ty(5, "()", &[]), ty(6, "E", &[])]);
    let hover = try_expr(&plain(), &in_fn(inner, body), &famous()).unwrap();
    assert_eq!(
        hover.markup.as_str(),
        "Try Target Type:    Result<u8>\nPropagated as:   Result<(), E>\n"
    );
}

#[test]
fn try_shows_result_in_option_whole() {
    let inner = enum_ty(1, "Result<u8, E>", RESULT, vec![ty(3, "u8", &[]), ty(4, "E", &[])]);
    let body = enum_ty(2, "Option<u8>", OPTION, vec![ty(3, "u8", &[])]);
    let hover = try_expr(&plain(), &in_fn(inner, body), &famous()).unwrap();
    assert_eq!(
        hover.markup.as_str(),
        "Try Target Type: Result<u8, E>\nPropagated as:      Option<u8>\n"
    );
    assert_eq!(hover.actions, goto(&[2, 1]));
}

#[test]
fn try_shows_option_in_result_whole() {
    let inner = enum_ty(1, "Option<u8>", OPTION, vec![ty(3, "u8", &[])]);
    let body = enum_ty(2, "Result<u8, E>", RESULT, vec![ty(3, "u8", &[]), ty(4, "E", &[])]);
    let hover = try_expr(&plain(), &in_fn(inner, body), &famous()).unwrap();
    assert_eq!(
        hover.markup.as_str(),
        "Try Target Type:    Option<u8>\nPropagated as:   Result<u8, E>\n"
    );
    assert_eq!(hover.actions, goto(&[1, 2]));
}

#[test]
fn try_shows_no_two_options() {
    let inner = enum_ty(1, "Option<u8>", OPTION, vec![ty(3, "u8", &[])]);
    let body = enum_ty(2, "Option<()>", OPTION, vec![ty(4, "()", &[])]);
    let it = in_fn(inner, body);
    assert!(try_expr(&plain(), &it, &famous()).is_none());
    let unknown = FamousDefs { std: None, core_option: None, core_result: None };
    assert_eq!(
        text(&try_expr(&plain(), &it, &unknown)),
        "Try Target Type: Option<u8>\nPropagated as:   Option<()>\n"
    );
}

#[test]
fn try_shows_no_equal_types() {
    assert!(try_expr(&plain(), &in_fn(ty(1, "T", &[]), ty(1, "T", &[])), &famous()).is_none());
}

#[test]
fn try_pads_by_bytes() {
    let samples = ["", "u8", "\u{e9}t\u{e9}", "\u{1f980}<K>", "Vec<Vec<u8>>"];
    for inner in samples {
        for body in samples {
            let it = in_fn(ty(1, inner, &[]), ty(2, body, &[]));
            let max = inner.len().max(body.len());
            let expected = format!(
                "{} Type: {:>pad0$}\nPropagated as: {:>pad1$}\n",
                "Try Target",
                inner,
                body,
                pad0 = max,
                pad1 = max + 2,
            );
            assert_eq!(text(&try_expr(&plain(), &it, &famous())), expected);
            let widths: Vec<usize> =
                expected.lines().map(|line| line.chars().count()).collect();
            assert_eq!(widths[0], widths[1]);
        }
    }
}

#[test]
fn try_returns_to_innermost_body() {
    let body_of = |ancestors: Vec<SyntaxNode>| {
        let it = TryExpr { expr: Some(expr(ty(1, "I", &[]), None)), ancestors };
        try_expr(&plain(), &it, &famous())
            .map(|hover| hover.markup.as_str().lines().nth(1).unwrap().trim_end().to_string())
    };
    let block = |modifier| SyntaxNode::BlockExpr(modifier, expr(ty(2, "Block", &[]), None));
    let function = || SyntaxNode::Fn(Some(ty(3, "Fn", &[])));
    let closure = || SyntaxNode::ClosureExpr(Some(expr(ty(4, "Closure", &[]), None)));

    for modifier in [BlockModifier::Async, BlockModifier::Try, BlockModifier::Const] {
        assert!(body_of(vec![block(Some(modifier)), function()]).unwrap().ends_with("Block"));
    }
    for modifier in [None, Some(BlockModifier::Unsafe), Some(BlockModifier::Label)] {
        assert!(body_of(vec![block(modifier), function()]).unwrap().ends_with("Fn"));
    }
    assert!(body_of(vec![SyntaxNode::Other, closure(), function()]).unwrap().ends_with("Closure"));
    assert!(body_of(vec![SyntaxNode::Item, function()]).is_none());
    assert!(body_of(vec![SyntaxNode::Fn(None), function()]).is_none());
    assert!(body_of(vec![SyntaxNode::ClosureExpr(None), function()]).is_none());
    assert!(body_of(vec![SyntaxNode::ClosureExpr(Some(Expr { ty: None })), function()]).is_none());
    assert!(body_of(vec![
        SyntaxNode::BlockExpr(Some(BlockModifier::Try), Expr { ty: None }),
        function()
    ])
    .is_none());
    assert!(body_of(vec![SyntaxNode::Other]).is_none());
    assert!(body_of(Vec::new()).is_none());
}

#[test]
fn try_needs_an_operand() {
    let without = TryExpr { expr: None, ancestors: vec![SyntaxNode::Fn(Some(ty(2, "F", &[])))] };
    assert!(try_expr(&plain(), &without, &famous()).is_none());
    let untyped = TryExpr {
        expr: Some(Expr { ty: None }),
        ancestors: vec![SyntaxNode::Fn(Some(ty(2, "F", &[])))],
    };
    assert!(try_expr(&plain(), &untyped, &famous()).is_none());
}

fn deref(inner: Type, original: Type, adjusted: Option<Type>) -> DerefExpr {
    DerefExpr { expr: Some(expr(inner, None)), ty: Some(TypeInfo { original, adjusted }) }
}

#[test]
fn deref_shows_both_types() {
    let it = deref(ty(1, "&mut Foo", &[1]), ty(2, "Foo", &[1, 2]), None);
    let hover = deref_expr(&markdown(), &it).unwrap();
    assert_eq!(
        hover.markup.as_str(),
        "```text\nDereferenced from: &mut Foo\nTo type:                Foo\n```\n"
    );
    assert_eq!(hover.actions, goto(&[1, 2]));
    let unfenced = deref_expr(&plain(), &it).unwrap();
    assert_eq!(hover.markup.text, format!("```text\n{}```\n", unfenced.markup.text));
    assert_eq!(hover.actions, unfenced.actions);
}

#[test]
fn deref_shows_coercion() {
    let it = deref(
        ty(1, "DerefExample", &[1]),
        ty(2, "InnerDerefExample", &[2, 1]),
        Some(ty(3, "&[u8]", &[3, 2])),
    );
    let hover = deref_expr(&plain(), &it).unwrap();
    assert_eq!(
        hover.markup.as_str(),
        "Dereferenced from: DerefExample\n\
         To type:      InnerDerefExample\n\
         Coerced to:               &[u8]\n"
    );
    assert_eq!(hover.actions, goto(&[1, 2, 3]));
}

#[test]
fn deref_pads_by_bytes() {
    let samples = ["", "u8", "\u{e9}t\u{e9}", "\u{1f980}<Key, Value>", "Vec<Vec<u8>>"];
    for inner in samples {
        for original in samples {
            let max_len = (original.len() + 9).max(inner.len() + 19);
            let expected = format!(
                "Dereferenced from: {:>ipad$}\nTo type: {:>apad$}\n",
                inner,
                original,
                ipad = max_len - 19,
                apad = max_len - 9,
            );
            let it = deref(ty(1, inner, &[]), ty(2, original, &[]), None);
            assert_eq!(text(&deref_expr(&plain(), &it)), expected);
            for adjusted in samples {
                let max_len =
                    (original.len() + 9).max(adjusted.len() + 12).max(inner.len() + 19);
                let expected = format!(
                    "Dereferenced from: {:>ipad$}\nTo type: {:>apad$}\nCoerced to: {:>opad$}\n",
                    inner,
                    original,
                    adjusted,
                    ipad = max_len - 19,
                    apad = max_len - 9,
                    opad = max_len - 12,
                );
                let it = deref(ty(1, inner, &[]), ty(2, original, &[]), Some(ty(3, adjusted, &[])));
                assert_eq!(text(&deref_expr(&plain(), &it)), expected);
                for line in expected.lines() {
                    assert_eq!(line.chars().count(), max_len);
                }
            }
        }
    }
}

#[test]
fn deref_needs_both_types() {
    assert!(deref_expr(&plain(), &DerefExpr { expr: None, ty: None }).is_none());
    let info = || Some(TypeInfo { original: ty(1, "T", &[]), adjusted: None });
    assert!(deref_expr(&plain(), &DerefExpr { expr: None, ty: info() }).is_none());
    assert!(deref_expr(&plain(), &DerefExpr { expr: Some(Expr { ty: None }), ty: info() }).is_none());
    let operand = Some(expr(ty(1, "&T", &[]), None));
    assert!(deref_expr(&plain(), &DerefExpr { expr: operand, ty: None }).is_none());
}

#[test]
fn targets_are_listed_once_in_order() {
    let mut targets = defs(&[4]);
    push_new_def(&mut targets, ModuleDef { id: 4 });
    push_new_def(&mut targets, ModuleDef { id: 2 });
    assert_eq!(targets, defs(&[4, 2]));
    push_new_defs(&mut targets, &defs(&[9, 2, 9, 1, 4]));
    assert_eq!(targets, defs(&[4, 2, 9, 1]));
}

#[test]
fn default_hover_is_empty() {
    let hover = HoverResult::default();
    assert_eq!(hover.markup.as_str(), "");
    assert!(hover.actions.is_empty());
}
