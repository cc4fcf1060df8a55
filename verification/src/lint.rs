//! Hovers for the names of lints and features in attributes.
use crate::hover;
use crate::hover::{HoverResult, HoverView};
use crate::markup::Markup;
use crate::syntax;
use crate::syntax::{Attr, ElementView, SyntaxKind, SyntaxToken};
use crate::text;
use crate::text::Order;
use vstd::prelude::*;

verus! {

/// A lint or a feature.
#[derive(Clone, Copy, PartialEq, Eq, Debug)]
pub struct Lint {
    pub label: &'static str,
    pub description: &'static str,
}

/// The lints and features that are known, each list in the order of the labels.
#[derive(Debug)]
pub struct LintTables {
    pub features: Vec<Lint>,
    pub default_lints: Vec<Lint>,
    pub clippy_lints: Vec<Lint>,
}

/// The labels are in the order of `str`.
pub open spec fn is_sorted(lints: Seq<Lint>) -> bool {
    forall|i: int, j: int|
        0 <= i < j < lints.len() ==> !text::precedes(
            (#[trigger] lints[j]).label@,
            (#[trigger] lints[i]).label@,
        )
}

/// One of the lints has this label.
pub open spec fn is_listed(lints: Seq<Lint>, label: Seq<char>) -> bool {
    exists|i: int| 0 <= i < lints.len() && (#[trigger] lints[i]).label@ == label
}

/// Where the halving of the entries from `lo` up to `hi` ends in the search for `label`.
///
/// In a sorted list that is an entry with the label, or there is none between `lo` and `hi`.
/// In any list it is the same at each search.
pub open spec fn halving(lints: Seq<Lint>, label: Seq<char>, lo: int, hi: int) -> Option<Lint>
    decreases hi - lo,
{
    let mid = lo + (hi - lo) / 2;
    if lo >= hi {
        None
    } else if lints[mid].label@ == label {
        Some(lints[mid])
    } else if text::precedes(lints[mid].label@, label) {
        halving(lints, label, mid + 1, hi)
    } else {
        halving(lints, label, lo, mid)
    }
}

/// The entry that a binary search for this label finds.
pub open spec fn found(lints: Seq<Lint>, label: Seq<char>) -> Option<Lint> {
    halving(lints, label, 0, lints.len() as int)
}

/// Looks for the lint with this label in a sorted list.
///
/// In a list that is not sorted it may miss the lint, as any binary search may; of several
/// with the label it finds one, always the same.
pub fn find_lint<'a>(lints: &'a Vec<Lint>, label: &str) -> (res: Option<&'a Lint>)
    ensures
        match res {
            Some(lint) => {
                &&& found(lints@, label@) == Some(*lint)
                &&& lint.label@ == label@
                &&& lints@.contains(*lint)
            },
            None => {
                &&& found(lints@, label@) is None
                &&& is_sorted(lints@) ==> !is_listed(lints@, label@)
            },
        },
{
    let mut lo: usize = 0;
    let mut hi: usize = lints.len();
    while lo < hi
        invariant
            lo <= hi <= lints@.len(),
            found(lints@, label@) == halving(lints@, label@, lo as int, hi as int),
            is_sorted(lints@) ==> forall|i: int|
                0 <= i < lints@.len() && (#[trigger] lints@[i]).label@ == label@ ==> lo <= i < hi,
        decreases hi - lo,
    {
        let mid = lo + (hi - lo) / 2;
        let lint = &lints[mid];
        match text::order(lint.label, label) {
            Order::Before => {
                lo = mid + 1;
            },
            Order::After => {
                hi = mid;
            },
            Order::Same => {
                return Some(lint);
            },
        }
    }
    None
}

/// The elements, without trivia, are `clippy::` seen from behind: `:`, `:` and the identifier
/// `clippy`.
pub open spec fn is_clippy_path(previous: Seq<ElementView>) -> bool {
    &&& previous.len() >= 3
    &&& previous[0].kind is Colon
    &&& previous[1].kind is Colon
    &&& previous[2].kind is Ident
    &&& previous[2].token_text == Some("clippy"@)
}

/// Whether `clippy::` stands before the token.
fn after_clippy(token: &SyntaxToken) -> (res: bool)
    ensures
        res == is_clippy_path(syntax::without_trivia(token.previous@)),
{
    let previous = &token.previous;
    assert(previous@.skip(0) =~= previous@);
    let first = match syntax::non_trivia_sibling(previous, 0) {
        Some(i) => i,
        None => return false,
    };
    if !matches!(previous[first].kind, SyntaxKind::Colon) {
        return false;
    }
    let second = match syntax::non_trivia_sibling(previous, first + 1) {
        Some(i) => i,
        None => return false,
    };
    if !matches!(previous[second].kind, SyntaxKind::Colon) {
        return false;
    }
    let third = match syntax::non_trivia_sibling(previous, second + 1) {
        Some(i) => i,
        None => return false,
    };
    if !matches!(previous[third].kind, SyntaxKind::Ident) {
        return false;
    }
    match &previous[third].token_text {
        Some(text) => text::same_text(text.as_str(), "clippy"),
        None => false,
    }
}

/// The attribute sets the level of lints.
pub open spec fn is_level(path: Seq<char>) -> bool {
    path == "allow"@ || path == "deny"@ || path == "forbid"@ || path == "warn"@
}

/// The list that the arguments of an attribute name entries of, and the label of the entry
/// that the token names. There is none for an attribute that is not about features or lints.
pub open spec fn lint_sought(
    tables: LintTables,
    path: Seq<char>,
    token: SyntaxToken,
) -> Option<(Seq<Lint>, Seq<char>)> {
    if path == "feature"@ {
        Some((tables.features@, token.text@))
    } else if is_level(path) {
        if is_clippy_path(syntax::without_trivia(token.previous@)) {
            Some((tables.clippy_lints@, "clippy::"@ + token.text@))
        } else {
            Some((tables.default_lints@, token.text@))
        }
    } else {
        None
    }
}

/// The hover for a lint or a feature.
pub open spec fn lint_hover(lint: Lint) -> HoverView {
    HoverView {
        markup: "```\n"@ + lint.label@ + "\n```\n___\n\n"@ + lint.description@,
        actions: Seq::empty(),
    }
}

/// The hover for the token in the attribute: the entry that is found for its name, where it
/// stands in the arguments of an attribute about features or lints.
pub open spec fn lint_in_attr(
    tables: LintTables,
    attr: Attr,
    token: SyntaxToken,
) -> Option<HoverView> {
    match attr.simple_call {
        Some(call) if call.token_tree.spec_contains(token.start) => match lint_sought(
            tables,
            call.path@,
            token,
        ) {
            Some((lints, label)) => match found(lints, label) {
                Some(lint) => Some(lint_hover(lint)),
                None => None,
            },
            None => None,
        },
        _ => None,
    }
}

/// `hover` shows one of the entries with this label.
pub open spec fn shows_listed(hover: HoverView, lints: Seq<Lint>, label: Seq<char>) -> bool {
    exists|lint: Lint|
        #[trigger] lints.contains(lint) && lint.label@ == label && hover == lint_hover(lint)
}

/// The hover for the name of a lint or a feature in an attribute.
///
/// There is none outside the arguments of the attribute, in an attribute that is not about
/// features or lints, and for a name that is not listed.
pub fn try_for_lint(
    tables: &LintTables,
    attr: &Attr,
    token: &SyntaxToken,
) -> (res: Option<HoverResult>)
    ensures
        hover::opt_hover(res) == lint_in_attr(*tables, *attr, *token),
        match attr.simple_call {
            Some(call) if call.token_tree.spec_contains(token.start) => match lint_sought(
                *tables,
                call.path@,
                *token,
            ) {
                Some((lints, label)) => match res {
                    Some(hover) => shows_listed(hover@, lints, label),
                    None => is_sorted(lints) ==> !is_listed(lints, label),
                },
                None => res is None,
            },
            _ => res is None,
        },
{
    let call = attr.simple_call.as_ref()?;
    if !call.token_tree.contains(token.start) {
        return None;
    }
    let path = call.path.as_str();
    let (is_clippy, lints) = if text::same_text(path, "feature") {
        (false, &tables.features)
    } else if text::same_text(path, "allow") || text::same_text(path, "deny") || text::same_text(
        path,
        "forbid",
    ) || text::same_text(path, "warn") {
        if after_clippy(token) {
            (true, &tables.clippy_lints)
        } else {
            (false, &tables.default_lints)
        }
    } else {
        return None;
    };
    let needle = if is_clippy {
        "clippy::".to_owned().concat(token.text.as_str())
    } else {
        token.text.clone()
    };
    let lint = find_lint(lints, needle.as_str())?;
    let mut text = String::new();
    text.append("```\n");
    text.append(lint.label);
    text.append("\n```\n___\n\n");
    text.append(lint.description);
    let hover = HoverResult { markup: Markup::from(text), actions: Vec::new() };
    assert(hover@ =~= lint_hover(*lint));
    Some(hover)
}

} // verus!
