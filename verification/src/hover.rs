//! What a hover shows, and where it lets the reader go.
use crate::markup::Markup;
use vstd::prelude::*;

verus! {

/// A definition that a hover can lead to, by the number that stands for it: two numbers are
/// equal exactly where the definitions are.
#[derive(Clone, Copy, PartialEq, Eq, Structural, Debug)]
pub struct ModuleDef {
    pub id: u64,
}

/// Something that a hover offers to do.
#[derive(PartialEq, Eq, Debug)]
pub enum HoverAction {
    /// Go to one of these definitions.
    GoToType(Vec<ModuleDef>),
}

impl View for HoverAction {
    type V = Seq<ModuleDef>;

    open spec fn view(&self) -> Seq<ModuleDef> {
        match *self {
            HoverAction::GoToType(targets) => targets@,
        }
    }
}

impl HoverAction {
    pub fn goto_type_from_targets(targets: Vec<ModuleDef>) -> (res: HoverAction)
        ensures
            res@ == targets@,
    {
        HoverAction::GoToType(targets)
    }
}

/// A hover: its text and its actions.
#[derive(PartialEq, Eq, Debug)]
pub struct HoverResult {
    pub markup: Markup,
    pub actions: Vec<HoverAction>,
}

/// The contents of a hover; an action is the sequence of its targets.
#[verifier::ext_equal]
pub struct HoverView {
    pub markup: Seq<char>,
    pub actions: Seq<Seq<ModuleDef>>,
}

impl View for HoverResult {
    type V = HoverView;

    open spec fn view(&self) -> HoverView {
        HoverView {
            markup: self.markup@,
            actions: self.actions@.map_values(|action: HoverAction| action@),
        }
    }
}

/// The contents of an optional hover.
pub open spec fn opt_hover(hover: Option<HoverResult>) -> Option<HoverView> {
    match hover {
        Some(hover) => Some(hover@),
        None => None,
    }
}

impl Default for HoverResult {
    fn default() -> (res: HoverResult)
        ensures
            res.markup@ == Seq::<char>::empty(),
            res.actions@ == Seq::<HoverAction>::empty(),
    {
        HoverResult { markup: Markup::from(String::new()), actions: Vec::new() }
    }
}

impl HoverResult {
    /// A hover with one action, which leads to `targets`.
    pub(crate) fn with_targets(markup: Markup, targets: Vec<ModuleDef>) -> (res: HoverResult)
        ensures
            res@ == (HoverView { markup: markup@, actions: seq![targets@] }),
    {
        let mut res = HoverResult::default();
        res.markup = markup;
        res.actions.push(HoverAction::goto_type_from_targets(targets));
        assert(res@.actions =~= seq![targets@]);
        res
    }
}

/// `targets`, and after them those of `items` that are not there yet, each once.
pub open spec fn with_new(targets: Seq<ModuleDef>, items: Seq<ModuleDef>) -> Seq<ModuleDef>
    decreases items.len(),
{
    if items.len() == 0 {
        targets
    } else {
        let before = with_new(targets, items.drop_last());
        if before.contains(items.last()) {
            before
        } else {
            before.push(items.last())
        }
    }
}

/// The items in order of their first occurrence, each once.
pub open spec fn distinct(items: Seq<ModuleDef>) -> Seq<ModuleDef> {
    with_new(Seq::empty(), items)
}

/// Appends `item` unless it is there already.
pub fn push_new_def(targets: &mut Vec<ModuleDef>, item: ModuleDef)
    ensures
        final(targets)@ == if old(targets)@.contains(item) {
            old(targets)@
        } else {
            old(targets)@.push(item)
        },
{
    let mut i: usize = 0;
    while i < targets.len()
        invariant
            targets@ == old(targets)@,
            i <= targets@.len(),
            forall|j: int| 0 <= j < i ==> targets@[j] != item,
        decreases targets@.len() - i,
    {
        if targets[i] == item {
            return;
        }
        i = i + 1;
    }
    targets.push(item);
}

/// Appends in order those of `items` that are not there yet, each once.
pub fn push_new_defs(targets: &mut Vec<ModuleDef>, items: &Vec<ModuleDef>)
    ensures
        final(targets)@ == with_new(old(targets)@, items@),
{
    let mut i: usize = 0;
    while i < items.len()
        invariant
            i <= items@.len(),
            targets@ == with_new(old(targets)@, items@.take(i as int)),
        decreases items@.len() - i,
    {
        push_new_def(targets, items[i]);
        i = i + 1;
        assert(items@.take(i as int).drop_last() =~= items@.take(i - 1));
    }
    assert(items@.take(i as int) =~= items@);
}

/// Appending the new ones of `a` and then those of `b` is appending those of both.
pub proof fn lemma_with_new_in_turn(targets: Seq<ModuleDef>, a: Seq<ModuleDef>, b: Seq<ModuleDef>)
    ensures
        with_new(with_new(targets, a), b) == with_new(targets, a + b),
    decreases b.len(),
{
    if b.len() == 0 {
        assert(a + b =~= a);
    } else {
        lemma_with_new_in_turn(targets, a, b.drop_last());
        assert((a + b).drop_last() =~= a + b.drop_last());
    }
}

/// The target number `i` of `items` has its first occurrence at `k`: there it is listed,
/// right after the targets of what stands before.
pub open spec fn first_occurs(items: Seq<ModuleDef>, i: int, k: int) -> bool {
    &&& 0 <= k < items.len()
    &&& items[k] == distinct(items)[i]
    &&& distinct(items.take(k)) == distinct(items).take(i)
}

pub open spec fn listed_in_order(items: Seq<ModuleDef>, i: int) -> bool {
    exists|k: int| first_occurs(items, i, k)
}

/// No target is listed twice, all that occurs is listed and nothing else, and the list
/// keeps the order of the first occurrences.
pub proof fn law_targets_are_distinct(items: Seq<ModuleDef>)
    ensures
        distinct(items).no_duplicates(),
        forall|item: ModuleDef| #[trigger] distinct(items).contains(item) <==> items.contains(item),
        forall|i: int| 0 <= i < distinct(items).len() ==> #[trigger] listed_in_order(items, i),
    decreases items.len(),
{
    if items.len() > 0 {
        let rest = items.drop_last();
        law_targets_are_distinct(rest);
        let last = items.len() - 1;
        assert forall|item: ModuleDef| #[trigger]
            distinct(items).contains(item) <==> items.contains(item) by {
            assert(items =~= rest.push(items.last()));
            assert(rest.contains(item) ==> items.contains(item)) by {
                if rest.contains(item) {
                    let k = choose|k: int| 0 <= k < rest.len() && rest[k] == item;
                    assert(items[k] == item);
                }
            }
            assert(items.contains(item) ==> rest.contains(item) || item == items.last()) by {
                if items.contains(item) && item != items.last() {
                    let k = choose|k: int| 0 <= k < items.len() && items[k] == item;
                    assert(rest[k] == item);
                }
            }
            assert(items.contains(items.last())) by {
                assert(items[last] == items.last());
            }
            if !distinct(rest).contains(items.last()) {
                let d = distinct(items);
                assert(d[d.len() - 1] == items.last());
                if distinct(rest).contains(item) {
                    let k = choose|k: int| 0 <= k < distinct(rest).len() && distinct(rest)[k] == item;
                    assert(d[k] == item);
                }
            }
        }
        assert forall|i: int| 0 <= i < distinct(items).len() implies #[trigger] listed_in_order(
            items,
            i,
        ) by {
            if i < distinct(rest).len() {
                assert(listed_in_order(rest, i));
                let k = choose|k: int| first_occurs(rest, i, k);
                assert(items.take(k) =~= rest.take(k));
                assert(distinct(items).take(i) =~= distinct(rest).take(i));
                assert(first_occurs(items, i, k));
            } else {
                assert(items.take(last) =~= rest);
                assert(distinct(items).take(i) =~= distinct(rest));
                assert(first_occurs(items, i, last));
            }
        }
    }
}

} // verus!
