//! What a call gives for an expression or a pattern, told by what is handed in and what comes
//! back alone.
use crate::config::{HoverConfig, HoverDocFormat};
use crate::expr;
use crate::hover;
use crate::hover::{HoverAction, HoverResult, HoverView, ModuleDef};
use crate::laws;
use crate::semantics::{
    Adt, BlockModifier, DerefExpr, Enum, Expr, FamousDefs, Pat, SyntaxNode, TryExpr, Type, TypeInfo,
};
use crate::text;
use either::Either;
use vstd::prelude::*;

verus! {

/// The bytes of a text.
pub open spec fn bytes(s: Seq<char>) -> int {
    vstd::utf8::encode_utf8(s).len() as int
}

/// A line: a label, `fill` spaces, and a text.
pub open spec fn line(label: Seq<char>, fill: int, s: Seq<char>) -> Seq<char> {
    label + Seq::new(fill as nat, |i: int| ' ') + s + "\n"@
}

/// The lines as they are, or in a block where the reader wants Markdown.
pub open spec fn in_block(config: HoverConfig, lines: Seq<char>) -> Seq<char> {
    if config.documentation == Some(HoverDocFormat::Markdown) {
        "```text\n"@ + lines + "```\n"@
    } else {
        lines
    }
}

/// `a` has occurred among the items when `b` has not yet.
pub open spec fn occurs_before(items: Seq<ModuleDef>, a: ModuleDef, b: ModuleDef) -> bool {
    exists|k: int|
        #![trigger items[k]]
        0 <= k < items.len() && items[k] == a && !items.take(k + 1).contains(b)
}

/// `list` holds what occurs among the items, each once, in order of first occurrence.
pub open spec fn lists_once(list: Seq<ModuleDef>, items: Seq<ModuleDef>) -> bool {
    &&& list.no_duplicates()
    &&& forall|item: ModuleDef| #[trigger] list.contains(item) <==> items.contains(item)
    &&& forall|i: int, j: int|
        #![trigger list[i], list[j]]
        0 <= i < j < list.len() ==> occurs_before(items, list[i], list[j])
}

/// There is a hover with this text and one action, which leads to what occurs among the items.
pub open spec fn shows(res: Option<HoverResult>, text: Seq<char>, items: Seq<ModuleDef>) -> bool {
    &&& res is Some
    &&& res->0.markup.text@ == text
    &&& res->0.actions@.len() == 1
    &&& lists_once(targets_of(res->0.actions@[0]), items)
}

/// The targets of an action.
pub open spec fn targets_of(action: HoverAction) -> Seq<ModuleDef> {
    match action {
        HoverAction::GoToType(targets) => targets@,
    }
}

/// There is no hover in either case, or one with the same text and targets in both.
pub open spec fn same_hover(a: Option<HoverResult>, b: Option<HoverResult>) -> bool {
    match (a, b) {
        (Some(x), Some(y)) => {
            &&& x.markup.text@ == y.markup.text@
            &&& x.actions@.len() == y.actions@.len()
            &&& forall|i: int|
                #![trigger x.actions@[i]]
                #![trigger y.actions@[i]]
                0 <= i < x.actions@.len() ==> targets_of(x.actions@[i]) == targets_of(y.actions@[i])
        },
        (None, None) => true,
        _ => false,
    }
}

pub(crate) proof fn lemma_distinct_lists_once(items: Seq<ModuleDef>)
    ensures
        lists_once(hover::distinct(items), items),
{
    let list = hover::distinct(items);
    hover::law_targets_are_distinct(items);
    assert forall|i: int, j: int|
        #![trigger list[i], list[j]]
        0 <= i < j < list.len() implies occurs_before(items, list[i], list[j]) by {
        assert(hover::listed_in_order(items, i));
        let k = choose|k: int| hover::first_occurs(items, i, k);
        let before = items.take(k);
        hover::law_targets_are_distinct(before);
        assert(!list.take(i).contains(list[j]));
        assert(!before.contains(list[j]));
        let upto = items.take(k + 1);
        assert(!upto.contains(list[j])) by {
            if upto.contains(list[j]) {
                let l = choose|l: int| 0 <= l < upto.len() && upto[l] == list[j];
                if l < k {
                    assert(before[l] == list[j]);
                }
            }
        }
        assert(items[k] == list[i]);
    }
}

pub(crate) proof fn lemma_shows(res: Option<HoverResult>, view: HoverView, items: Seq<ModuleDef>)
    requires
        hover::opt_hover(res) == Some(view),
        view.actions == seq![hover::distinct(items)],
    ensures
        shows(res, view.markup, items),
{
    lemma_distinct_lists_once(items);
    assert(res->0@.actions.len() == res->0.actions@.len());
    assert(res->0@.actions[0] == targets_of(res->0.actions@[0]));
}

/// What comes out of a listing is determined: there is only one.
pub proof fn law_listing_is_determined(
    a: Seq<ModuleDef>,
    b: Seq<ModuleDef>,
    items: Seq<ModuleDef>,
)
    requires
        lists_once(a, items),
        lists_once(b, items),
    ensures
        a == b,
{
    lemma_listing_agrees(a, b, items, a.len() as int);
    assert(a.len() <= b.len());
    lemma_listing_agrees(b, a, items, b.len() as int);
    assert(a =~= b);
}

proof fn lemma_listing_agrees(a: Seq<ModuleDef>, b: Seq<ModuleDef>, items: Seq<ModuleDef>, n: int)
    requires
        lists_once(a, items),
        lists_once(b, items),
        0 <= n <= a.len(),
    ensures
        n <= b.len(),
        forall|i: int| 0 <= i < n ==> a[i] == b[i],
    decreases n,
{
    if n > 0 {
        let m = n - 1;
        lemma_listing_agrees(a, b, items, m);
        assert(a.contains(a[m]));
        assert(items.contains(a[m]));
        assert(b.contains(a[m]));
        let p = choose|p: int| 0 <= p < b.len() && b[p] == a[m];
        assert(p >= m) by {
            if p < m {
                assert(a[p] == b[p]);
            }
        }
        if p > m {
            assert(b.contains(b[m]));
            assert(items.contains(b[m]));
            assert(a.contains(b[m]));
            let q = choose|q: int| 0 <= q < a.len() && a[q] == b[m];
            assert(q > m) by {
                if q < m {
                    assert(a[q] == b[q]);
                } else if q == m {
                    assert(b[m] == b[p]);
                }
            }
            assert(occurs_before(items, a[m], a[q]));
            assert(occurs_before(items, b[m], b[p]));
            let k = choose|k: int|
                #![trigger items[k]]
                0 <= k < items.len() && items[k] == a[m] && !items.take(k + 1).contains(a[q]);
            let l = choose|l: int|
                #![trigger items[l]]
                0 <= l < items.len() && items[l] == b[m] && !items.take(l + 1).contains(b[p]);
            if k <= l {
                assert(items.take(l + 1)[k] == b[p]);
            } else {
                assert(items.take(k + 1)[l] == a[q]);
            }
        }
    }
}

/// A type that is not known has no hover.
pub proof fn law_unknown_type_has_no_hover(
    config: &HoverConfig,
    it: &Either<Expr, Pat>,
    res: Option<HoverResult>,
)
    requires
        call_ensures(expr::type_info, (config, it), res),
        match *it {
            Either::Left(expr) => expr.ty is None,
            Either::Right(pat) => pat.ty is None,
        },
    ensures
        res is None,
{
}

/// A type that is not coerced shows as it is written, of an expression and of a pattern alike,
/// and leads to its own definitions.
pub proof fn law_type_shows_as_written(
    config: &HoverConfig,
    it: &Either<Expr, Pat>,
    info: TypeInfo,
    res: Option<HoverResult>,
)
    requires
        call_ensures(expr::type_info, (config, it), res),
        match *it {
            Either::Left(expr) => expr.ty == Some(info),
            Either::Right(pat) => pat.ty == Some(info),
        },
        info.adjusted is None,
    ensures
        shows(
            res,
            if config.documentation == Some(HoverDocFormat::Markdown) {
                "```rust\n"@ + info.original.display@ + "\n```"@
            } else {
                info.original.display@
            },
            info.original.defs@,
        ),
{
    let markdown = config.documentation == Some(HoverDocFormat::Markdown);
    lemma_shows(res, expr::type_info_hover(markdown, info), info.original.defs@);
}

/// A type that is coerced shows on two lines with the type that it is coerced to, of an
/// expression and of a pattern alike, and leads to the definitions of both.
pub proof fn law_coercion_shows_both_types(
    config: &HoverConfig,
    it: &Either<Expr, Pat>,
    info: TypeInfo,
    res: Option<HoverResult>,
)
    requires
        call_ensures(expr::type_info, (config, it), res),
        match *it {
            Either::Left(expr) => expr.ty == Some(info),
            Either::Right(pat) => pat.ty == Some(info),
        },
        info.adjusted is Some,
    ensures
        ({
            let original = info.original.display@;
            let adjusted = info.adjusted->0.display@;
            let first = "Coerced to: "@.len() + vstd::math::max(bytes(adjusted), bytes(original))
                - "Type: "@.len() - original.len();
            let second = vstd::math::max(0, bytes(original) - adjusted.len());
            &&& first >= 0
            &&& shows(
                res,
                in_block(
                    *config,
                    line("Type: "@, first, original) + line("Coerced to: "@, second, adjusted),
                ),
                info.original.defs@ + info.adjusted->0.defs@,
            )
        }),
{
    let original = info.original.display@;
    let adjusted = info.adjusted->0.display@;
    text::lemma_chars_fit_in_bytes(original);
    text::lemma_chars_fit_in_bytes(adjusted);
    reveal_strlit("Type: ");
    reveal_strlit("Coerced to: ");
    let first = "Coerced to: "@.len() + vstd::math::max(bytes(adjusted), bytes(original)) - "Type: "@.len()
        - original.len();
    let second = vstd::math::max(0, bytes(original) - adjusted.len());
    let lines = line("Type: "@, first, original) + line("Coerced to: "@, second, adjusted);
    assert(expr::coercion_lines(original, adjusted) =~= lines);
    let markdown = config.documentation == Some(HoverDocFormat::Markdown);
    lemma_shows(
        res,
        expr::type_info_hover(markdown, info),
        info.original.defs@ + info.adjusted->0.defs@,
    );
}

/// A pattern has the hover of an expression of the same type, whatever is known of that, and
/// what the reader wants of links does not matter.
pub proof fn law_pattern_shows_as_expression(
    config: &HoverConfig,
    other: &HoverConfig,
    expr: Expr,
    pat: Pat,
    a: Option<HoverResult>,
    b: Option<HoverResult>,
)
    requires
        expr.ty == pat.ty,
        config.documentation == other.documentation,
        call_ensures(expr::type_info, (config, &Either::<Expr, Pat>::Left(expr)), a),
        call_ensures(expr::type_info, (other, &Either::<Expr, Pat>::Right(pat)), b),
    ensures
        same_hover(a, b),
{
    let (x, y) = (Either::<Expr, Pat>::Left(expr), Either::<Expr, Pat>::Right(pat));
    match expr.ty {
        None => {
            law_unknown_type_has_no_hover(config, &x, a);
            law_unknown_type_has_no_hover(other, &y, b);
        },
        Some(info) => {
            let mut items = info.original.defs@;
            if info.adjusted is Some {
                law_coercion_shows_both_types(config, &x, info, a);
                law_coercion_shows_both_types(other, &y, info, b);
                items = info.original.defs@ + info.adjusted->0.defs@;
            } else {
                law_type_shows_as_written(config, &x, info, a);
                law_type_shows_as_written(other, &y, info, b);
            }
            law_listing_is_determined(
                targets_of(a->0.actions@[0]),
                targets_of(b->0.actions@[0]),
                items,
            );
        },
    }
}

/// `?` does not return to this node: it is no body, but may stand in one.
pub open spec fn is_passed(node: SyntaxNode) -> bool {
    match node {
        SyntaxNode::Other => true,
        SyntaxNode::BlockExpr(None, _) => true,
        SyntaxNode::BlockExpr(Some(BlockModifier::Unsafe), _) => true,
        SyntaxNode::BlockExpr(Some(BlockModifier::Label), _) => true,
        _ => false,
    }
}

/// The node is a body of this type: a function that returns it, a closure with a body of that
/// type, or a block of that type that is async, a try block or const.
pub open spec fn is_body(node: SyntaxNode, ty: Type) -> bool {
    match node {
        SyntaxNode::Fn(Some(returned)) => returned == ty,
        SyntaxNode::ClosureExpr(Some(Expr { ty: Some(info) })) => info.original == ty,
        SyntaxNode::BlockExpr(Some(BlockModifier::Async), Expr { ty: Some(info) }) => info.original
            == ty,
        SyntaxNode::BlockExpr(Some(BlockModifier::Try), Expr { ty: Some(info) }) => info.original
            == ty,
        SyntaxNode::BlockExpr(Some(BlockModifier::Const), Expr { ty: Some(info) }) => info.original
            == ty,
        _ => false,
    }
}

/// Number `i` is the innermost node that is not passed.
pub open spec fn is_innermost(ancestors: Seq<SyntaxNode>, i: int) -> bool {
    &&& 0 <= i < ancestors.len()
    &&& !is_passed(ancestors[i])
    &&& forall|j: int| 0 <= j < i ==> is_passed(#[trigger] ancestors[j])
}

/// `expr?` stands with an operand of type `inner` in a body of type `body`, the node number `i`.
pub open spec fn stands_in(it: TryExpr, inner: Type, body: Type, i: int) -> bool {
    &&& it.expr is Some
    &&& it.expr->0.ty is Some
    &&& it.expr->0.ty->0.original == inner
    &&& is_innermost(it.ancestors@, i)
    &&& is_body(it.ancestors@[i], body)
}

/// Both types are instances of this enum.
pub open spec fn both_of(it: Option<Enum>, inner: Type, body: Type) -> bool {
    &&& it is Some
    &&& inner.adt == Some(Adt::Enum(it->0))
    &&& body.adt == Some(Adt::Enum(it->0))
}

/// The two lines for `?`, as wide as the longer label and the longer type together.
pub open spec fn two_lines(label: Seq<char>, inner: Seq<char>, body: Seq<char>) -> Seq<char> {
    let width = vstd::math::max(label.len() as int, "Propagated as: "@.len() as int)
        + vstd::math::max(bytes(inner), bytes(body));
    line(label, width - label.len() - inner.len(), inner) + line(
        "Propagated as: "@,
        width - "Propagated as: "@.len() - body.len(),
        body,
    )
}

proof fn lemma_two_lines(label: Seq<char>, inner: Seq<char>, body: Seq<char>)
    ensures
        expr::try_lines(label, inner, body) == two_lines(label, inner, body),
{
    text::lemma_chars_fit_in_bytes(inner);
    text::lemma_chars_fit_in_bytes(body);
    assert(expr::try_lines(label, inner, body) =~= two_lines(label, inner, body));
}

proof fn lemma_stands_in(it: TryExpr, inner: Type, body: Type, i: int, famous_defs: FamousDefs)
    requires
        stands_in(it, inner, body, i),
    ensures
        expr::try_expr_shown(it, famous_defs) == expr::try_shown(inner, body, famous_defs),
{
    lemma_innermost(it.ancestors@, i);
}

proof fn lemma_innermost(ancestors: Seq<SyntaxNode>, i: int)
    requires
        is_innermost(ancestors, i),
    ensures
        expr::body_type(ancestors) == expr::body_type(seq![ancestors[i]]),
{
    assert forall|j: int| 0 <= j < i implies !expr::ends_search(#[trigger] ancestors[j]) by {
        assert(is_passed(ancestors[j]));
    }
    laws::law_innermost_body_decides(ancestors, i);
}

/// Of two results that are not equal the error types always show, also where those are equal
/// to each other: the error type before the `?` on the first line, that of the body on the
/// second, and the hover leads to the definitions of both.
pub proof fn law_results_show_error_types(
    config: &HoverConfig,
    it: &TryExpr,
    famous_defs: &FamousDefs,
    inner: Type,
    body: Type,
    i: int,
    res: Option<HoverResult>,
)
    requires
        call_ensures(expr::try_expr, (config, it, famous_defs), res),
        stands_in(*it, inner, body, i),
        inner.id != body.id,
        both_of(famous_defs.core_result, inner, body),
        !both_of(famous_defs.core_option, inner, body),
        inner.arguments@.len() >= 2,
        body.arguments@.len() >= 2,
    ensures
        ({
            let (from, to) = (inner.arguments@[1], body.arguments@[1]);
            shows(
                res,
                in_block(*config, two_lines("Try Error Type: "@, from.display@, to.display@)),
                from.defs@ + to.defs@,
            )
        }),
{
    let (from, to) = (inner.arguments@[1], body.arguments@[1]);
    lemma_stands_in(*it, inner, body, i, *famous_defs);
    lemma_two_lines("Try Error Type: "@, from.display@, to.display@);
    let markdown = config.documentation == Some(HoverDocFormat::Markdown);
    lemma_shows(
        res,
        expr::try_hover(markdown, expr::TryShown::Error(from, to)),
        from.defs@ + to.defs@,
    );
}

/// Types that are not equal, not both an `Option`, and not both a `Result` with an error type,
/// show themselves: the type before the `?` on the first line, that of the body on the second,
/// and the hover leads to the definitions of both.
pub proof fn law_other_types_show_whole(
    config: &HoverConfig,
    it: &TryExpr,
    famous_defs: &FamousDefs,
    inner: Type,
    body: Type,
    i: int,
    res: Option<HoverResult>,
)
    requires
        call_ensures(expr::try_expr, (config, it, famous_defs), res),
        stands_in(*it, inner, body, i),
        inner.id != body.id,
        !both_of(famous_defs.core_option, inner, body),
        !both_of(famous_defs.core_result, inner, body) || inner.arguments@.len() < 2
            || body.arguments@.len() < 2,
    ensures
        shows(
            res,
            in_block(*config, two_lines("Try Target Type: "@, inner.display@, body.display@)),
            inner.defs@ + body.defs@,
        ),
{
    lemma_stands_in(*it, inner, body, i, *famous_defs);
    lemma_two_lines("Try Target Type: "@, inner.display@, body.display@);
    let markdown = config.documentation == Some(HoverDocFormat::Markdown);
    lemma_shows(
        res,
        expr::try_hover(markdown, expr::TryShown::Target(inner, body)),
        inner.defs@ + body.defs@,
    );
}

/// `?` has no hover where the types are equal or both are an `Option`.
pub proof fn law_no_hover_for_equals_and_options(
    config: &HoverConfig,
    it: &TryExpr,
    famous_defs: &FamousDefs,
    inner: Type,
    body: Type,
    i: int,
    res: Option<HoverResult>,
)
    requires
        call_ensures(expr::try_expr, (config, it, famous_defs), res),
        stands_in(*it, inner, body, i),
        inner.id == body.id || both_of(famous_defs.core_option, inner, body),
    ensures
        res is None,
{
    lemma_stands_in(*it, inner, body, i, *famous_defs);
}

/// `?` has no hover where one of the types is not known: that of the operand, or that of the
/// body, because there is none or the innermost node that is not passed is no body of a type.
pub proof fn law_no_hover_for_unknown_types(
    config: &HoverConfig,
    it: &TryExpr,
    famous_defs: &FamousDefs,
    res: Option<HoverResult>,
)
    requires
        call_ensures(expr::try_expr, (config, it, famous_defs), res),
        it.expr is None || it.expr->0.ty is None || (forall|i: int|
            0 <= i < it.ancestors@.len() ==> is_passed(#[trigger] it.ancestors@[i])) || (exists|
            i: int,
        | #[trigger]
            is_innermost(it.ancestors@, i) && forall|ty: Type| !is_body(it.ancestors@[i], ty)),
    ensures
        res is None,
{
    let ancestors = it.ancestors@;
    if exists|i: int| #[trigger]
        is_innermost(ancestors, i) && forall|ty: Type| !is_body(ancestors[i], ty) {
        let i = choose|i: int| #[trigger]
            is_innermost(ancestors, i) && forall|ty: Type| !is_body(ancestors[i], ty);
        lemma_innermost(ancestors, i);
        if expr::body_type(ancestors) is Some {
            assert(is_body(ancestors[i], expr::body_type(ancestors)->0));
        }
    } else if forall|i: int|
        0 <= i < ancestors.len() ==> is_passed(#[trigger] ancestors[i]) {
        assert forall|i: int| 0 <= i < ancestors.len() implies !expr::ends_search(
            #[trigger] ancestors[i],
        ) by {
            assert(is_passed(ancestors[i]));
        }
        laws::law_no_body_no_type(ancestors);
    }
}

/// The operand of `*expr` has type `inner`, and the whole has type `info`.
pub open spec fn derefs(it: DerefExpr, inner: Type, info: TypeInfo) -> bool {
    &&& it.expr is Some
    &&& it.expr->0.ty is Some
    &&& it.expr->0.ty->0.original == inner
    &&& it.ty == Some(info)
}

/// `*expr` has no hover where the type of the operand or of the whole is not known.
pub proof fn law_no_hover_for_unknown_deref(
    config: &HoverConfig,
    it: &DerefExpr,
    res: Option<HoverResult>,
)
    requires
        call_ensures(expr::deref_expr, (config, it), res),
        it.expr is None || it.expr->0.ty is None || it.ty is None,
    ensures
        res is None,
{
}

/// `*expr` shows the operand's own type, as it is written, on the first line, and the type of
/// the whole on the second, both ending in the same column; the hover leads to the definitions
/// of the operand's type and then to those of the whole.
pub proof fn law_deref_shows_operand_and_whole(
    config: &HoverConfig,
    it: &DerefExpr,
    inner: Type,
    info: TypeInfo,
    res: Option<HoverResult>,
)
    requires
        call_ensures(expr::deref_expr, (config, it), res),
        derefs(*it, inner, info),
        info.adjusted is None,
    ensures
        ({
            let (from, to) = (inner.display@, info.original.display@);
            let width = vstd::math::max(
                "Dereferenced from: "@.len() + bytes(from),
                "To type: "@.len() + bytes(to),
            );
            let first = width - "Dereferenced from: "@.len() - from.len();
            let second = width - "To type: "@.len() - to.len();
            &&& first >= 0
            &&& second >= 0
            &&& shows(
                res,
                in_block(
                    *config,
                    line("Dereferenced from: "@, first, from) + line("To type: "@, second, to),
                ),
                inner.defs@ + info.original.defs@,
            )
        }),
{
    let (from, to) = (inner.display@, info.original.display@);
    text::lemma_chars_fit_in_bytes(from);
    text::lemma_chars_fit_in_bytes(to);
    let width = vstd::math::max(
        "Dereferenced from: "@.len() + bytes(from),
        "To type: "@.len() + bytes(to),
    );
    let lines = line(
        "Dereferenced from: "@,
        width - "Dereferenced from: "@.len() - from.len(),
        from,
    ) + line("To type: "@, width - "To type: "@.len() - to.len(), to);
    assert(expr::deref_lines(from, to, None) =~= lines);
    let markdown = config.documentation == Some(HoverDocFormat::Markdown);
    lemma_shows(
        res,
        expr::deref_hover(markdown, inner, info),
        inner.defs@ + info.original.defs@,
    );
}

/// `*expr` that is coerced shows in addition the type that it is coerced to, on a third line,
/// all ending in the same column, and leads to the definitions of that type last.
pub proof fn law_deref_shows_coercion(
    config: &HoverConfig,
    it: &DerefExpr,
    inner: Type,
    info: TypeInfo,
    res: Option<HoverResult>,
)
    requires
        call_ensures(expr::deref_expr, (config, it), res),
        derefs(*it, inner, info),
        info.adjusted is Some,
    ensures
        ({
            let (from, to) = (inner.display@, info.original.display@);
            let coerced = info.adjusted->0.display@;
            let width = vstd::math::max3(
                "Dereferenced from: "@.len() + bytes(from),
                "To type: "@.len() + bytes(to),
                "Coerced to: "@.len() + bytes(coerced),
            );
            let first = width - "Dereferenced from: "@.len() - from.len();
            let second = width - "To type: "@.len() - to.len();
            let third = width - "Coerced to: "@.len() - coerced.len();
            &&& first >= 0
            &&& second >= 0
            &&& third >= 0
            &&& shows(
                res,
                in_block(
                    *config,
                    line("Dereferenced from: "@, first, from) + line("To type: "@, second, to)
                        + line("Coerced to: "@, third, coerced),
                ),
                inner.defs@ + info.original.defs@ + info.adjusted->0.defs@,
            )
        }),
{
    let (from, to) = (inner.display@, info.original.display@);
    let coerced = info.adjusted->0.display@;
    text::lemma_chars_fit_in_bytes(from);
    text::lemma_chars_fit_in_bytes(to);
    text::lemma_chars_fit_in_bytes(coerced);
    let width = vstd::math::max3(
        "Dereferenced from: "@.len() + bytes(from),
        "To type: "@.len() + bytes(to),
        "Coerced to: "@.len() + bytes(coerced),
    );
    let lines = line(
        "Dereferenced from: "@,
        width - "Dereferenced from: "@.len() - from.len(),
        from,
    ) + line("To type: "@, width - "To type: "@.len() - to.len(), to) + line(
        "Coerced to: "@,
        width - "Coerced to: "@.len() - coerced.len(),
        coerced,
    );
    assert(expr::deref_lines(from, to, Some(coerced)) =~= lines);
    let markdown = config.documentation == Some(HoverDocFormat::Markdown);
    lemma_shows(
        res,
        expr::deref_hover(markdown, inner, info),
        inner.defs@ + info.original.defs@ + info.adjusted->0.defs@,
    );
}

/// Of the operand of `*expr` only how its type is written and where that leads counts: operands
/// that agree in these have the same hover, whatever their types are instances of and whatever
/// arguments those have.
pub proof fn law_deref_shows_what_is_written(
    config: &HoverConfig,
    it: &DerefExpr,
    other: &DerefExpr,
    inner: Type,
    same: Type,
    info: TypeInfo,
    a: Option<HoverResult>,
    b: Option<HoverResult>,
)
    requires
        call_ensures(expr::deref_expr, (config, it), a),
        call_ensures(expr::deref_expr, (config, other), b),
        derefs(*it, inner, info),
        derefs(*other, same, info),
        inner.display@ == same.display@,
        inner.defs@ == same.defs@,
    ensures
        same_hover(a, b),
{
    let mut items = inner.defs@ + info.original.defs@;
    if info.adjusted is Some {
        law_deref_shows_coercion(config, it, inner, info, a);
        law_deref_shows_coercion(config, other, same, info, b);
        items = inner.defs@ + info.original.defs@ + info.adjusted->0.defs@;
    } else {
        law_deref_shows_operand_and_whole(config, it, inner, info, a);
        law_deref_shows_operand_and_whole(config, other, same, info, b);
    }
    law_listing_is_determined(
        targets_of(a->0.actions@[0]),
        targets_of(b->0.actions@[0]),
        items,
    );
}

/// Whatever was there stays in front, what comes behind is all that was not there, and none of
/// it repeats what stands before it.
pub proof fn law_old_targets_stay(targets: &mut Vec<ModuleDef>, items: &Vec<ModuleDef>)
    requires
        call_ensures(hover::push_new_defs, (targets, items), ()),
    ensures
        old(targets)@.is_prefix_of(final(targets)@),
        forall|item: ModuleDef| #[trigger]
            final(targets)@.contains(item) <==> old(targets)@.contains(item) || items@.contains(item),
        forall|i: int, j: int|
            #![trigger final(targets)@[i], final(targets)@[j]]
            0 <= i < j < final(targets)@.len() && old(targets)@.len() <= j ==> final(targets)@[i]
                != final(targets)@[j],
{
    lemma_with_new_keeps(old(targets)@, items@);
    lemma_with_new_holds(old(targets)@, items@);
}

proof fn lemma_with_new_holds(targets: Seq<ModuleDef>, items: Seq<ModuleDef>)
    ensures
        ({
            let all = hover::with_new(targets, items);
            &&& forall|item: ModuleDef| #[trigger]
                all.contains(item) <==> targets.contains(item) || items.contains(item)
            &&& forall|i: int, j: int|
                #![trigger all[i], all[j]]
                0 <= i < j < all.len() && targets.len() <= j ==> all[i] != all[j]
        }),
    decreases items.len(),
{
    if items.len() > 0 {
        let (rest, last) = (items.drop_last(), items.last());
        lemma_with_new_holds(targets, rest);
        let (a, b) = (hover::with_new(targets, rest), hover::with_new(targets, items));
        assert(items =~= rest.push(last));
        assert forall|item: ModuleDef| #[trigger]
            b.contains(item) <==> targets.contains(item) || items.contains(item) by {
            vstd::seq_lib::lemma_seq_contains_after_push(rest, last, item);
            vstd::seq_lib::lemma_seq_contains_after_push(a, last, item);
            assert(a.contains(item) <==> targets.contains(item) || rest.contains(item));
        }
    }
}

/// Appending the new ones of `items` keeps what was there, in front, and adds the others that
/// occur, each once, in order of first occurrence.
pub proof fn law_new_targets_come_behind(targets: &mut Vec<ModuleDef>, items: &Vec<ModuleDef>)
    requires
        call_ensures(hover::push_new_defs, (targets, items), ()),
        old(targets)@.no_duplicates(),
    ensures
        lists_once(final(targets)@, old(targets)@ + items@),
        old(targets)@.is_prefix_of(final(targets)@),
{
    lemma_distinct_of_distinct(old(targets)@);
    hover::lemma_with_new_in_turn(Seq::empty(), old(targets)@, items@);
    lemma_distinct_lists_once(old(targets)@ + items@);
    lemma_with_new_keeps(old(targets)@, items@);
}

proof fn lemma_distinct_of_distinct(items: Seq<ModuleDef>)
    requires
        items.no_duplicates(),
    ensures
        hover::distinct(items) == items,
    decreases items.len(),
{
    if items.len() > 0 {
        let rest = items.drop_last();
        lemma_distinct_of_distinct(rest);
        assert(!rest.contains(items.last()));
        assert(items =~= rest.push(items.last()));
    } else {
        assert(items =~= Seq::empty());
    }
}

proof fn lemma_with_new_keeps(targets: Seq<ModuleDef>, items: Seq<ModuleDef>)
    ensures
        targets.is_prefix_of(hover::with_new(targets, items)),
    decreases items.len(),
{
    if items.len() > 0 {
        lemma_with_new_keeps(targets, items.drop_last());
        let (a, b) = (hover::with_new(targets, items.drop_last()), hover::with_new(targets, items));
        assert(b.take(targets.len() as int) =~= a.take(targets.len() as int));
    }
}

/// A target is appended unless it is there.
pub proof fn law_target_is_there_once(targets: &mut Vec<ModuleDef>, item: ModuleDef)
    requires
        call_ensures(hover::push_new_def, (targets, item), ()),
    ensures
        old(targets)@.contains(item) ==> final(targets)@ == old(targets)@,
        !old(targets)@.contains(item) ==> final(targets)@ == old(targets)@ + seq![item],
{
    assert(old(targets)@.push(item) =~= old(targets)@ + seq![item]);
}

/// Any expression or pattern can be asked for.
pub proof fn law_expressions_can_be_asked_for(
    config: &HoverConfig,
    it: &Either<Expr, Pat>,
    try_expr: &TryExpr,
    famous_defs: &FamousDefs,
    deref_expr: &DerefExpr,
)
    ensures
        call_requires(expr::type_info, (config, it)),
        call_requires(expr::try_expr, (config, try_expr, famous_defs)),
        call_requires(expr::deref_expr, (config, deref_expr)),
{
}

} // verus!
