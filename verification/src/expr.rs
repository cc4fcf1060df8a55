//! Hovers for the types of expressions and patterns.
use crate::config::HoverConfig;
use crate::hover;
use crate::hover::{HoverResult, HoverView, ModuleDef};
use crate::markup;
use crate::markup::Markup;
use crate::semantics::{
    Adt, BlockModifier, DerefExpr, Enum, Expr, FamousDefs, Pat, SyntaxNode, TryExpr, Type, TypeInfo,
};
use crate::text;
use either::Either;
use vstd::prelude::*;

verus! {

/// The line for a type that is coerced.
pub open spec fn coercion_first(original: Seq<char>, adjusted: Seq<char>) -> Seq<char> {
    let columns = "Coerced to: "@.len() + text::max(
        text::byte_len(adjusted) as int,
        text::byte_len(original) as int,
    );
    text::row("Type: "@, original, columns)
}

/// The line for the type that it is coerced to.
pub open spec fn coercion_second(original: Seq<char>, adjusted: Seq<char>) -> Seq<char> {
    let columns = "Coerced to: "@.len() + text::byte_len(original);
    text::row("Coerced to: "@, adjusted, columns as int)
}

/// The lines for a type and the type that it is coerced to.
pub open spec fn coercion_lines(original: Seq<char>, adjusted: Seq<char>) -> Seq<char> {
    coercion_first(original, adjusted) + "\n"@ + coercion_second(original, adjusted) + "\n"@
}

/// The hover for the type of an expression or a pattern.
pub open spec fn type_info_hover(markdown: bool, info: TypeInfo) -> HoverView {
    let original = info.original.display@;
    match info.adjusted {
        Some(adjusted) => HoverView {
            markup: markup::text_block(markdown, coercion_lines(original, adjusted.display@)),
            actions: seq![hover::distinct(info.original.defs@ + adjusted.defs@)],
        },
        None => HoverView {
            markup: if markdown {
                markup::rust_block(original)
            } else {
                original
            },
            actions: seq![hover::distinct(info.original.defs@)],
        },
    }
}

/// What is known of the type of an expression or a pattern.
pub open spec fn type_info_of(expr_or_pat: Either<Expr, Pat>) -> Option<TypeInfo> {
    match expr_or_pat {
        Either::Left(expr) => expr.ty,
        Either::Right(pat) => pat.ty,
    }
}

/// Collects the definitions of one type, in order, each once.
fn targets_of(ty: &Type) -> (targets: Vec<ModuleDef>)
    ensures
        targets@ == hover::distinct(ty.defs@),
{
    let mut targets: Vec<ModuleDef> = Vec::new();
    hover::push_new_defs(&mut targets, &ty.defs);
    targets
}

/// Collects the definitions of two types, in order, each once.
fn targets_of_both(first: &Type, second: &Type) -> (targets: Vec<ModuleDef>)
    ensures
        targets@ == hover::distinct(first.defs@ + second.defs@),
{
    let mut targets = targets_of(first);
    hover::push_new_defs(&mut targets, &second.defs);
    proof {
        hover::lemma_with_new_in_turn(Seq::empty(), first.defs@, second.defs@);
    }
    targets
}

/// The hover for an expression or a pattern: its type, and the type that it is coerced to
/// if it is. There is none where the type is not known.
pub fn type_info(config: &HoverConfig, expr_or_pat: &Either<Expr, Pat>) -> (res: Option<HoverResult>)
    ensures
        hover::opt_hover(res) == match type_info_of(*expr_or_pat) {
            Some(info) => Some(type_info_hover(config.is_markdown(), info)),
            None => None,
        },
{
    let info = match expr_or_pat {
        Either::Left(expr) => expr.ty.as_ref()?,
        Either::Right(pat) => pat.ty.as_ref()?,
    };
    let original = info.original.display.as_str();
    match &info.adjusted {
        Some(adjusted_ty) => {
            let targets = targets_of_both(&info.original, adjusted_ty);
            let adjusted = adjusted_ty.display.as_str();
            let columns = text::char_count("Coerced to: ") + text::larger(
                text::byte_count(adjusted),
                text::byte_count(original),
            );
            let mut lines = String::new();
            text::push_row(&mut lines, "Type: ", original, columns);
            lines.append("\n");
            text::push_row(
                &mut lines,
                "Coerced to: ",
                adjusted,
                text::char_count("Coerced to: ") + text::byte_count(original),
            );
            lines.append("\n");
            assert(lines@ =~= coercion_lines(original@, adjusted@));
            Some(HoverResult::with_targets(markup::block_of(config.markdown(), lines), targets))
        },
        None => {
            let targets = targets_of(&info.original);
            let markup = if config.markdown() {
                Markup::fenced_block(original)
            } else {
                Markup::from(info.original.display.clone())
            };
            Some(HoverResult::with_targets(markup, targets))
        },
    }
}

/// Whether a block with this modifier is a body of its own, which `?` returns from.
pub open spec fn is_own_body(modifier: Option<BlockModifier>) -> bool {
    modifier == Some(BlockModifier::Async) || modifier == Some(BlockModifier::Try) || modifier
        == Some(BlockModifier::Const)
}

/// Whether the search for the body around a `?` ends at this node: at a function, a closure or
/// a block that is a body of its own, and at any other item.
pub open spec fn ends_search(node: SyntaxNode) -> bool {
    match node {
        SyntaxNode::Fn(_) | SyntaxNode::Item | SyntaxNode::ClosureExpr(_) => true,
        SyntaxNode::BlockExpr(modifier, _) => is_own_body(modifier),
        SyntaxNode::Other => false,
    }
}

/// The type that `?` returns to: that of the innermost body among the nodes around it, where
/// one is found before any other item, and its type is known.
pub open spec fn body_type(ancestors: Seq<SyntaxNode>) -> Option<Type>
    decreases ancestors.len(),
{
    if ancestors.len() == 0 {
        None
    } else {
        match ancestors[0] {
            SyntaxNode::Fn(ret_type) => ret_type,
            SyntaxNode::Item => None,
            SyntaxNode::ClosureExpr(Some(body)) => body.spec_original(),
            SyntaxNode::ClosureExpr(None) => None,
            SyntaxNode::BlockExpr(modifier, block) if is_own_body(modifier) => {
                block.spec_original()
            },
            _ => body_type(ancestors.drop_first()),
        }
    }
}

/// What the hover for `?` is about.
pub enum TryShown {
    /// The type that `?` is applied to, and the type that is returned.
    Target(Type, Type),
    /// The error type that `?` is applied to, and the error type that is returned.
    Error(Type, Type),
}

/// The enum that a type is an instance of.
pub open spec fn enum_of(ty: Type) -> Option<Enum> {
    match ty.adt {
        Some(Adt::Enum(it)) => Some(it),
        _ => None,
    }
}

/// Both types are instances of the enum `famous`, which is known.
pub open spec fn both_are(famous: Option<Enum>, inner: Type, body: Type) -> bool {
    famous is Some && enum_of(inner) == famous && enum_of(body) == famous
}

/// What to show where `?` is applied to `inner` in a body of type `body`: nothing where the
/// types are equal or both are an `Option`, the error types where both are a `Result`, else
/// the types themselves.
pub open spec fn try_shown(inner: Type, body: Type, famous_defs: FamousDefs) -> Option<TryShown> {
    if inner.id == body.id {
        None
    } else if both_are(famous_defs.core_option, inner, body) {
        None
    } else if both_are(famous_defs.core_result, inner, body) && inner.arguments@.len() > 1
        && body.arguments@.len() > 1 {
        Some(TryShown::Error(inner.arguments@[1], body.arguments@[1]))
    } else {
        Some(TryShown::Target(inner, body))
    }
}

/// The columns that the lines for `?` take up: room for either label and for either type.
pub open spec fn try_columns(label: Seq<char>, inner: Seq<char>, body: Seq<char>) -> int {
    text::max(label.len() as int, "Propagated as: "@.len() as int) + text::max(
        text::byte_len(inner) as int,
        text::byte_len(body) as int,
    )
}

/// The lines for `?`, the first of them labelled `label`.
pub open spec fn try_lines(label: Seq<char>, inner: Seq<char>, body: Seq<char>) -> Seq<char> {
    let columns = try_columns(label, inner, body);
    text::row(label, inner, columns) + "\n"@ + text::row("Propagated as: "@, body, columns) + "\n"@
}

/// The hover for `?`.
pub open spec fn try_hover(markdown: bool, shown: TryShown) -> HoverView {
    let (label, inner, body) = match shown {
        TryShown::Target(inner, body) => ("Try Target Type: "@, inner, body),
        TryShown::Error(inner, body) => ("Try Error Type: "@, inner, body),
    };
    HoverView {
        markup: markup::text_block(markdown, try_lines(label, inner.display@, body.display@)),
        actions: seq![hover::distinct(inner.defs@ + body.defs@)],
    }
}

/// What to show for the expression `expr?`, `None` where there is nothing to show.
pub open spec fn try_expr_shown(try_expr: TryExpr, famous_defs: FamousDefs) -> Option<TryShown> {
    match (try_expr.expr, body_type(try_expr.ancestors@)) {
        (Some(expr), Some(body)) => match expr.spec_original() {
            Some(inner) => try_shown(inner, body, famous_defs),
            None => None,
        },
        _ => None,
    }
}

/// Finds the type that `?` returns to.
fn find_body_type(ancestors: &Vec<SyntaxNode>) -> (res: Option<&Type>)
    ensures
        match res {
            Some(ty) => body_type(ancestors@) == Some(*ty),
            None => body_type(ancestors@) is None,
        },
{
    let mut i: usize = 0;
    assert(ancestors@.skip(0) =~= ancestors@);
    while i < ancestors.len()
        invariant
            i <= ancestors@.len(),
            body_type(ancestors@) == body_type(ancestors@.skip(i as int)),
        decreases ancestors@.len() - i,
    {
        assert(ancestors@.skip(i as int).drop_first() =~= ancestors@.skip(i + 1));
        match &ancestors[i] {
            SyntaxNode::Fn(ret_type) => return ret_type.as_ref(),
            SyntaxNode::Item => return None,
            SyntaxNode::ClosureExpr(body) => return body.as_ref()?.original(),
            SyntaxNode::BlockExpr(modifier, block) => {
                if matches!(
                    modifier,
                    Some(BlockModifier::Async | BlockModifier::Try | BlockModifier::Const)
                ) {
                    return block.original();
                }
            },
            SyntaxNode::Other => {},
        }
        i = i + 1;
    }
    None
}

/// The hover for the expression `expr?`: the type before the `?`, and the type that it is
/// propagated as.
///
/// There is none where one of the types is not known, where they are equal, or where both are
/// an `Option`. Where both are a `Result`, the hover shows the error types only.
pub fn try_expr(
    config: &HoverConfig,
    expr: &TryExpr,
    famous_defs: &FamousDefs,
) -> (res: Option<HoverResult>)
    ensures
        hover::opt_hover(res) == match try_expr_shown(*expr, *famous_defs) {
            Some(shown) => Some(try_hover(config.is_markdown(), shown)),
            None => None,
        },
{
    let mut inner_ty = expr.expr.as_ref()?.original()?;
    let mut body_ty = find_body_type(&expr.ancestors)?;
    if inner_ty.id == body_ty.id {
        return None;
    }
    let mut label = "Try Target Type: ";
    if let (Some(Adt::Enum(inner)), Some(Adt::Enum(body))) = (inner_ty.adt, body_ty.adt) {
        // there is no value in showing two options
        if let Some(option_enum) = famous_defs.core_option {
            if inner == option_enum && body == option_enum {
                return None;
            }
        }
        // of two results only the error types are shown
        if let Some(result_enum) = famous_defs.core_result {
            if inner == result_enum && body == result_enum && inner_ty.arguments.len() > 1
                && body_ty.arguments.len() > 1 {
                inner_ty = &inner_ty.arguments[1];
                body_ty = &body_ty.arguments[1];
                label = "Try Error Type: ";
            }
        }
    }
    let targets = targets_of_both(inner_ty, body_ty);
    let inner = inner_ty.display.as_str();
    let body = body_ty.display.as_str();
    let columns = text::larger(text::char_count(label), text::char_count("Propagated as: "))
        + text::larger(text::byte_count(inner), text::byte_count(body));
    let mut lines = String::new();
    text::push_row(&mut lines, label, inner, columns);
    lines.append("\n");
    text::push_row(&mut lines, "Propagated as: ", body, columns);
    lines.append("\n");
    assert(lines@ =~= try_lines(label@, inner@, body@));
    Some(HoverResult::with_targets(markup::block_of(config.markdown(), lines), targets))
}

/// The lines for `*expr`: the type behind the `*`, the type of the whole, and the type that
/// it is coerced to if it is.
pub open spec fn deref_lines(
    inner: Seq<char>,
    original: Seq<char>,
    adjusted: Option<Seq<char>>,
) -> Seq<char> {
    let columns = deref_columns(inner, original, adjusted);
    let lines = text::row("Dereferenced from: "@, inner, columns) + "\n"@ + text::row(
        "To type: "@,
        original,
        columns,
    ) + "\n"@;
    match adjusted {
        Some(adjusted) => lines + text::row("Coerced to: "@, adjusted, columns) + "\n"@,
        None => lines,
    }
}

/// The columns that the widest of the lines for `*expr` takes up.
pub open spec fn deref_columns(
    inner: Seq<char>,
    original: Seq<char>,
    adjusted: Option<Seq<char>>,
) -> int {
    let columns = text::max(
        ("To type: "@.len() + text::byte_len(original)) as int,
        ("Dereferenced from: "@.len() + text::byte_len(inner)) as int,
    );
    match adjusted {
        Some(adjusted) => text::max(
            columns,
            ("Coerced to: "@.len() + text::byte_len(adjusted)) as int,
        ),
        None => columns,
    }
}

/// The hover for `*expr`, where `expr` has type `inner`.
pub open spec fn deref_hover(markdown: bool, inner: Type, info: TypeInfo) -> HoverView {
    let original = info.original;
    match info.adjusted {
        Some(adjusted) => HoverView {
            markup: markup::text_block(
                markdown,
                deref_lines(inner.display@, original.display@, Some(adjusted.display@)),
            ),
            actions: seq![hover::distinct(inner.defs@ + original.defs@ + adjusted.defs@)],
        },
        None => HoverView {
            markup: markup::text_block(
                markdown,
                deref_lines(inner.display@, original.display@, None),
            ),
            actions: seq![hover::distinct(inner.defs@ + original.defs@)],
        },
    }
}

/// The hover for the expression `*expr`: the type behind the `*`, the type of the whole, and
/// the type that it is coerced to if it is. There is none where one of the first two is not
/// known.
pub fn deref_expr(config: &HoverConfig, expr: &DerefExpr) -> (res: Option<HoverResult>)
    ensures
        hover::opt_hover(res) == match (expr.expr, expr.ty) {
            (Some(operand), Some(info)) => match operand.spec_original() {
                Some(inner) => Some(deref_hover(config.is_markdown(), inner, info)),
                None => None,
            },
            _ => None,
        },
{
    let inner_ty = expr.expr.as_ref()?.original()?;
    let info = expr.ty.as_ref()?;
    let mut targets = targets_of_both(inner_ty, &info.original);
    let inner = inner_ty.display.as_str();
    let original = info.original.display.as_str();
    let mut columns = text::larger(
        text::char_count("To type: ") + text::byte_count(original),
        text::char_count("Dereferenced from: ") + text::byte_count(inner),
    );
    if let Some(adjusted_ty) = &info.adjusted {
        hover::push_new_defs(&mut targets, &adjusted_ty.defs);
        proof {
            hover::lemma_with_new_in_turn(
                Seq::empty(),
                inner_ty.defs@ + info.original.defs@,
                adjusted_ty.defs@,
            );
        }
        columns = text::larger(
            columns,
            text::char_count("Coerced to: ") + text::byte_count(adjusted_ty.display.as_str()),
        );
    }
    let mut lines = String::new();
    text::push_row(&mut lines, "Dereferenced from: ", inner, columns);
    lines.append("\n");
    text::push_row(&mut lines, "To type: ", original, columns);
    lines.append("\n");
    if let Some(adjusted_ty) = &info.adjusted {
        text::push_row(&mut lines, "Coerced to: ", adjusted_ty.display.as_str(), columns);
        lines.append("\n");
        assert(lines@ =~= deref_lines(inner@, original@, Some(adjusted_ty.display@)));
    } else {
        assert(lines@ =~= deref_lines(inner@, original@, None));
    }
    Some(HoverResult::with_targets(markup::block_of(config.markdown(), lines), targets))
}

} // verus!
