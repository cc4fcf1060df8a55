//! What a call gives for the name of a lint or a feature, told by what is handed in and what
//! comes back alone.
use crate::expr_laws;
use crate::hover;
use crate::hover::HoverResult;
use crate::lint;
use crate::lint::{Lint, LintTables};
use crate::syntax;
use crate::syntax::{Attr, SyntaxElement, SyntaxKind, SyntaxToken, TextRange};
use crate::text;
use crate::text::Order;
use vstd::prelude::*;

verus! {

/// The bytes are the same up to `k`, and there `x` has ended or has the smaller byte.
pub open spec fn parts_at(x: Seq<u8>, y: Seq<u8>, k: int) -> bool {
    &&& 0 <= k <= x.len()
    &&& k < y.len()
    &&& forall|l: int| 0 <= l < k ==> x[l] == y[l]
    &&& k == x.len() || x[k] < y[k]
}

/// `a` comes before `b` by the bytes of their encodings.
pub open spec fn comes_before(a: Seq<char>, b: Seq<char>) -> bool {
    exists|k: int| parts_at(vstd::utf8::encode_utf8(a), vstd::utf8::encode_utf8(b), k)
}

proof fn lemma_precedes(a: Seq<char>, b: Seq<char>)
    ensures
        comes_before(a, b) <==> text::precedes(a, b),
{
    let (x, y) = (vstd::utf8::encode_utf8(a), vstd::utf8::encode_utf8(b));
    if comes_before(a, b) {
        let k = choose|k: int| parts_at(x, y, k);
        assert(x.take(k) =~= y.take(k));
        assert(text::smaller_at(x, y, k));
    }
    if text::precedes(a, b) {
        let k = choose|k: int| text::smaller_at(x, y, k);
        assert forall|l: int| 0 <= l < k implies x[l] == y[l] by {
            assert(x.take(k)[l] == y.take(k)[l]);
        }
        assert(parts_at(x, y, k));
    }
}

/// Two texts compare by their bytes; each of the three outcomes comes exactly where it should.
pub proof fn law_texts_compare_by_bytes(a: &str, b: &str, res: Order)
    requires
        call_ensures(text::order, (a, b), res),
    ensures
        res is Before <==> comes_before(a@, b@),
        res is Same <==> a@ == b@,
        res is After <==> comes_before(b@, a@),
{
    lemma_precedes(a@, b@);
    lemma_precedes(b@, a@);
}

/// Two texts are the same exactly where their characters are.
pub proof fn law_same_text_is_equality(a: &str, b: &str, res: bool)
    requires
        call_ensures(text::same_text, (a, b), res),
    ensures
        res <==> a@ == b@,
{
}

/// No label comes before one that stands further ahead.
pub open spec fn in_order(lints: Seq<Lint>) -> bool {
    forall|i: int, j: int|
        0 <= i < j < lints.len() ==> !comes_before(
            (#[trigger] lints[j]).label@,
            (#[trigger] lints[i]).label@,
        )
}

proof fn lemma_in_order(lints: Seq<Lint>)
    requires
        in_order(lints),
    ensures
        lint::is_sorted(lints),
{
    assert forall|i: int, j: int| 0 <= i < j < lints.len() implies !text::precedes(
        (#[trigger] lints[j]).label@,
        (#[trigger] lints[i]).label@,
    ) by {
        assert(!comes_before(lints[j].label@, lints[i].label@));
        lemma_precedes(lints[j].label@, lints[i].label@);
    }
}

/// What is found is an entry with the label; in a list that is in order, one is found wherever
/// there is one.
pub proof fn law_listed_lint_is_found(
    lints: &Vec<Lint>,
    label: &str,
    i: int,
    res: Option<&Lint>,
)
    requires
        call_ensures(lint::find_lint, (lints, label), res),
    ensures
        res is Some ==> lints@.contains(*res->0) && res->0.label@ == label@,
        in_order(lints@) && 0 <= i < lints@.len() && lints@[i].label@ == label@ ==> res is Some,
{
    if in_order(lints@) {
        lemma_in_order(lints@);
    }
}

/// Blanks and comments.
pub open spec fn is_blank(element: SyntaxElement) -> bool {
    element.kind == SyntaxKind::Whitespace || element.kind == SyntaxKind::Comment
}

/// Before a token, seen from behind, stand a colon at `i`, a colon at `j` and the identifier
/// `clippy` at `k`, with nothing but blanks and comments in between.
pub open spec fn clippy_at(previous: Seq<SyntaxElement>, i: int, j: int, k: int) -> bool {
    &&& 0 <= i < j < k < previous.len()
    &&& forall|l: int| 0 <= l < k && l != i && l != j ==> is_blank(#[trigger] previous[l])
    &&& previous[i].kind == SyntaxKind::Colon
    &&& previous[j].kind == SyntaxKind::Colon
    &&& previous[k].kind == SyntaxKind::Ident
    &&& previous[k].token_text is Some
    &&& previous[k].token_text->0@ == "clippy"@
}

/// `clippy::` stands right before a token.
pub open spec fn follows_clippy(previous: Seq<SyntaxElement>) -> bool {
    exists|i: int, j: int, k: int| clippy_at(previous, i, j, k)
}

/// Behind blanks alone, the first other element is the first without trivia.
proof fn lemma_first_behind_blanks(siblings: Seq<SyntaxElement>, i: int)
    requires
        0 <= i < siblings.len(),
        !is_blank(siblings[i]),
        forall|l: int| 0 <= l < i ==> is_blank(#[trigger] siblings[l]),
    ensures
        syntax::without_trivia(siblings) == seq![siblings[i]@] + syntax::without_trivia(
            siblings.skip(i + 1),
        ),
    decreases i,
{
    let rest = siblings.drop_first();
    if i > 0 {
        assert(is_blank(siblings[0]));
        assert forall|l: int| 0 <= l < i - 1 implies is_blank(#[trigger] rest[l]) by {
            assert(is_blank(siblings[l + 1]));
        }
        lemma_first_behind_blanks(rest, i - 1);
        assert(rest.skip(i) =~= siblings.skip(i + 1));
    } else {
        assert(siblings.skip(1) =~= rest);
    }
}

/// Where something is left without trivia, it has a first element.
proof fn lemma_has_first(siblings: Seq<SyntaxElement>) -> (i: int)
    requires
        syntax::without_trivia(siblings).len() > 0,
    ensures
        0 <= i < siblings.len(),
        !is_blank(siblings[i]),
        forall|l: int| 0 <= l < i ==> is_blank(#[trigger] siblings[l]),
    decreases siblings.len(),
{
    if is_blank(siblings[0]) {
        let rest = siblings.drop_first();
        let m = lemma_has_first(rest);
        assert forall|l: int| 0 <= l < m + 1 implies is_blank(#[trigger] siblings[l]) by {
            if l > 0 {
                assert(is_blank(rest[l - 1]));
            }
        }
        m + 1
    } else {
        0
    }
}

proof fn lemma_clippy_at(previous: Seq<SyntaxElement>, i: int, j: int, k: int)
    requires
        clippy_at(previous, i, j, k),
    ensures
        lint::is_clippy_path(syntax::without_trivia(previous)),
{
    lemma_first_behind_blanks(previous, i);
    let second = previous.skip(i + 1);
    assert forall|l: int| 0 <= l < j - i - 1 implies is_blank(#[trigger] second[l]) by {
        assert(is_blank(previous[l + i + 1]));
    }
    lemma_first_behind_blanks(second, j - i - 1);
    let third = second.skip(j - i);
    assert(third =~= previous.skip(j + 1));
    assert forall|l: int| 0 <= l < k - j - 1 implies is_blank(#[trigger] third[l]) by {
        assert(is_blank(previous[l + j + 1]));
    }
    lemma_first_behind_blanks(third, k - j - 1);
    let all = syntax::without_trivia(previous);
    assert(all[0] == previous[i]@);
    assert(all[1] == previous[j]@);
    assert(all[2] == previous[k]@);
}

proof fn lemma_follows_clippy(previous: Seq<SyntaxElement>)
    ensures
        follows_clippy(previous) <==> lint::is_clippy_path(syntax::without_trivia(previous)),
{
    if follows_clippy(previous) {
        let (i, j, k) = choose|i: int, j: int, k: int| clippy_at(previous, i, j, k);
        lemma_clippy_at(previous, i, j, k);
    }
    let all = syntax::without_trivia(previous);
    if lint::is_clippy_path(all) {
        let i = lemma_has_first(previous);
        lemma_first_behind_blanks(previous, i);
        let second = previous.skip(i + 1);
        assert(syntax::without_trivia(second) =~= all.skip(1));
        let m = lemma_has_first(second);
        lemma_first_behind_blanks(second, m);
        let third = second.skip(m + 1);
        assert(syntax::without_trivia(third) =~= all.skip(2));
        let n = lemma_has_first(third);
        lemma_first_behind_blanks(third, n);
        let j = i + 1 + m;
        let k = j + 1 + n;
        assert(previous[j] == second[m]);
        assert(previous[k] == third[n]);
        assert forall|l: int| 0 <= l < k && l != i && l != j implies is_blank(
            #[trigger] previous[l],
        ) by {
            if l > j {
                assert(is_blank(third[l - j - 1]));
            } else if l > i {
                assert(is_blank(second[l - i - 1]));
            }
        }
        assert(clippy_at(previous, i, j, k));
    }
}

/// The hover, if there is one, shows an entry of the list with this label, as code, and its
/// description after a line, and leads nowhere; in a list that is in order there is one wherever
/// the label is listed.
pub open spec fn shows_entry(
    res: Option<HoverResult>,
    lints: Seq<Lint>,
    label: Seq<char>,
) -> bool {
    &&& res is Some ==> {
        &&& res->0.actions@.len() == 0
        &&& exists|i: int|
            #![trigger lints[i]]
            0 <= i < lints.len() && lints[i].label@ == label && res->0.markup.text@ == "```\n"@
                + label + "\n```\n___\n\n"@ + lints[i].description@
    }
    &&& in_order(lints) && (exists|i: int|
        0 <= i < lints.len() && (#[trigger] lints[i]).label@ == label) ==> res is Some
}

/// The token stands in the arguments of the attribute `path(..)`.
pub open spec fn is_argument(attr: Attr, path: Seq<char>, token: SyntaxToken) -> bool {
    &&& attr.simple_call is Some
    &&& attr.simple_call->0.path@ == path
    &&& attr.simple_call->0.token_tree.start <= token.start < attr.simple_call->0.token_tree.end
}

/// The attribute sets a level.
pub open spec fn sets_level(path: Seq<char>) -> bool {
    path == "allow"@ || path == "deny"@ || path == "forbid"@ || path == "warn"@
}

proof fn lemma_levels(path: Seq<char>)
    requires
        sets_level(path),
    ensures
        path != "feature"@,
{
    reveal_strlit("feature");
    reveal_strlit("allow");
    reveal_strlit("deny");
    reveal_strlit("forbid");
    reveal_strlit("warn");
    assert(path.len() < "feature"@.len());
}

proof fn lemma_shows_entry(
    tables: &LintTables,
    attr: &Attr,
    token: &SyntaxToken,
    res: Option<HoverResult>,
    lints: Seq<Lint>,
    label: Seq<char>,
)
    requires
        call_ensures(lint::try_for_lint, (tables, attr, token), res),
        attr.simple_call is Some,
        attr.simple_call->0.token_tree.spec_contains(token.start),
        lint::lint_sought(*tables, attr.simple_call->0.path@, *token) == Some((lints, label)),
    ensures
        shows_entry(res, lints, label),
{
    if res is Some {
        assert(res->0@.actions.len() == res->0.actions@.len());
        assert(lint::shows_listed(res->0@, lints, label));
        let entry = choose|entry: Lint|
            #[trigger] lints.contains(entry) && entry.label@ == label && res->0@
                == lint::lint_hover(entry);
        let i = choose|i: int| 0 <= i < lints.len() && lints[i] == entry;
        assert(lints[i].label@ == label);
    }
    if in_order(lints) {
        lemma_in_order(lints);
    }
}

/// An argument of `feature` shows the feature of that name.
pub proof fn law_feature_shows(
    tables: &LintTables,
    attr: &Attr,
    token: &SyntaxToken,
    res: Option<HoverResult>,
)
    requires
        call_ensures(lint::try_for_lint, (tables, attr, token), res),
        is_argument(*attr, "feature"@, *token),
    ensures
        shows_entry(res, tables.features@, token.text@),
{
    lemma_shows_entry(tables, attr, token, res, tables.features@, token.text@);
}

/// Behind `clippy::`, an argument of an attribute that sets a level shows the lint of clippy of
/// that name, whatever stands further ahead.
pub proof fn law_clippy_lint_shows(
    tables: &LintTables,
    attr: &Attr,
    path: Seq<char>,
    token: &SyntaxToken,
    i: int,
    j: int,
    k: int,
    res: Option<HoverResult>,
)
    requires
        call_ensures(lint::try_for_lint, (tables, attr, token), res),
        is_argument(*attr, path, *token),
        sets_level(path),
        clippy_at(token.previous@, i, j, k),
    ensures
        shows_entry(res, tables.clippy_lints@, "clippy::"@ + token.text@),
{
    lemma_levels(path);
    lemma_clippy_at(token.previous@, i, j, k);
    lemma_shows_entry(tables, attr, token, res, tables.clippy_lints@, "clippy::"@ + token.text@);
}

/// Any other argument of an attribute that sets a level shows the lint of the compiler of that
/// name.
pub proof fn law_default_lint_shows(
    tables: &LintTables,
    attr: &Attr,
    path: Seq<char>,
    token: &SyntaxToken,
    res: Option<HoverResult>,
)
    requires
        call_ensures(lint::try_for_lint, (tables, attr, token), res),
        is_argument(*attr, path, *token),
        sets_level(path),
        forall|i: int, j: int, k: int| !clippy_at(token.previous@, i, j, k),
    ensures
        shows_entry(res, tables.default_lints@, token.text@),
{
    lemma_levels(path);
    lemma_follows_clippy(token.previous@);
    lemma_shows_entry(tables, attr, token, res, tables.default_lints@, token.text@);
}

/// Outside the arguments, and in any other attribute, nothing shows.
pub proof fn law_other_attributes_show_nothing(
    tables: &LintTables,
    attr: &Attr,
    token: &SyntaxToken,
    res: Option<HoverResult>,
)
    requires
        call_ensures(lint::try_for_lint, (tables, attr, token), res),
        attr.simple_call matches Some(call) ==> !is_argument(*attr, call.path@, *token) || (
        call.path@ != "feature"@ && !sets_level(call.path@)),
    ensures
        res is None,
{
}

/// What stands further ahead than `clippy::` does not matter: with more elements there the
/// hover is the same, whatever the tables hold.
pub proof fn law_only_the_nearest_count(
    tables: &LintTables,
    attr: &Attr,
    token: &SyntaxToken,
    other: &SyntaxToken,
    more: Seq<SyntaxElement>,
    path: Seq<char>,
    i: int,
    j: int,
    k: int,
    a: Option<HoverResult>,
    b: Option<HoverResult>,
)
    requires
        call_ensures(lint::try_for_lint, (tables, attr, token), a),
        call_ensures(lint::try_for_lint, (tables, attr, other), b),
        sets_level(path),
        is_argument(*attr, path, *token),
        is_argument(*attr, path, *other),
        token.text@ == other.text@,
        clippy_at(token.previous@, i, j, k),
        other.previous@ == token.previous@ + more,
    ensures
        expr_laws::same_hover(a, b),
{
    assert(clippy_at(other.previous@, i, j, k)) by {
        assert forall|l: int| 0 <= l < k && l != i && l != j implies is_blank(
            #[trigger] other.previous@[l],
        ) by {
            assert(is_blank(token.previous@[l]));
        }
    }
    lemma_clippy_at(token.previous@, i, j, k);
    lemma_clippy_at(other.previous@, i, j, k);
    lemma_same_hover(a, b);
}

proof fn lemma_same_hover(a: Option<HoverResult>, b: Option<HoverResult>)
    requires
        hover::opt_hover(a) == hover::opt_hover(b),
    ensures
        expr_laws::same_hover(a, b),
{
    if a is Some {
        let (x, y) = (a->0, b->0);
        assert(x@.actions.len() == x.actions@.len());
        assert(y@.actions.len() == y.actions@.len());
        assert forall|i: int|
            #![trigger x.actions@[i]]
            #![trigger y.actions@[i]]
            0 <= i < x.actions@.len() implies expr_laws::targets_of(x.actions@[i])
            == expr_laws::targets_of(y.actions@[i]) by {
            assert(x@.actions[i] == expr_laws::targets_of(x.actions@[i]));
            assert(y@.actions[i] == expr_laws::targets_of(y.actions@[i]));
        }
    }
}

/// Which level is set does not matter, and neither do blanks and comments: the same token has
/// the same hover, whatever the tables hold.
pub proof fn law_any_level_shows_the_same(
    tables: &LintTables,
    attr: &Attr,
    other_attr: &Attr,
    token: &SyntaxToken,
    other: &SyntaxToken,
    path: Seq<char>,
    other_path: Seq<char>,
    a: Option<HoverResult>,
    b: Option<HoverResult>,
)
    requires
        call_ensures(lint::try_for_lint, (tables, attr, token), a),
        call_ensures(lint::try_for_lint, (tables, other_attr, other), b),
        sets_level(path),
        sets_level(other_path),
        is_argument(*attr, path, *token),
        is_argument(*other_attr, other_path, *other),
        token.text@ == other.text@,
        follows_clippy(token.previous@) <==> follows_clippy(other.previous@),
    ensures
        expr_laws::same_hover(a, b),
{
    lemma_levels(path);
    lemma_levels(other_path);
    lemma_follows_clippy(token.previous@);
    lemma_follows_clippy(other.previous@);
    lemma_same_hover(a, b);
}

/// A range holds its first byte and those up to its end, without the end.
pub proof fn law_range_holds_its_bytes(range: &TextRange, offset: u32, res: bool)
    requires
        call_ensures(TextRange::contains, (range, offset), res),
    ensures
        res <==> range.start <= offset < range.end,
{
}

/// The sibling found is the nearest from there on that is no blank and no comment.
pub proof fn law_nearest_sibling_is_found(
    siblings: &Vec<SyntaxElement>,
    from: usize,
    i: int,
    res: Option<usize>,
)
    requires
        call_ensures(syntax::non_trivia_sibling, (siblings, from), res),
        forall|l: int| from <= l < i ==> is_blank(#[trigger] siblings@[l]),
    ensures
        from <= i < siblings@.len() && !is_blank(siblings@[i]) ==> res is Some && res->0 == i,
        i == siblings@.len() ==> res is None,
{
    if res is Some {
        assert(!is_blank(siblings@[res->0 as int]));
        if i < res->0 && from <= i {
            assert(siblings@[i].is_trivia());
        }
    } else if from <= i < siblings@.len() {
        assert(siblings@[i].is_trivia());
    }
}

/// Any token in any attribute can be asked for, and any label, whatever the tables hold.
pub proof fn law_lints_can_be_asked_for(
    tables: &LintTables,
    attr: &Attr,
    token: &SyntaxToken,
    lints: &Vec<Lint>,
    label: &str,
)
    ensures
        call_requires(lint::try_for_lint, (tables, attr, token)),
        call_requires(lint::find_lint, (lints, label)),
{
}

} // verus!
