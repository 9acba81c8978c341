//! The home page: drag-selection of media items and the address of a result page.
use crate::contexts::selection_context::contains_id;
use crate::rpc::aoba::{Id, IdList};
use crate::text::{int_decimal, push_signed_decimal};
use vstd::prelude::*;

verus! {

/// Where a drag-selection stands: waiting for its first item, running, or finished.
#[derive(Clone, Copy, Debug, PartialEq, Eq, Structural)]
pub enum SelectionPhase {
    Start,
    Selecting,
    Idle,
}

/// Whether a drag-selection adds the items it passes over or takes them out.
#[derive(Clone, Copy, Debug, PartialEq, Eq, Structural)]
pub enum SelectionMode {
    Add,
    Remove,
}

/// The selection with `x` added at the end, unless it is already there.
pub open spec fn added(s: Seq<Seq<char>>, x: Seq<char>) -> Seq<Seq<char>> {
    if s.contains(x) {
        s
    } else {
        s.push(x)
    }
}

/// The selection without any copy of `x`, in its order.
pub open spec fn without(s: Seq<Seq<char>>, x: Seq<char>) -> Seq<Seq<char>>
    decreases s.len(),
{
    if s.len() == 0 {
        s
    } else {
        let rest = without(s.drop_last(), x);
        if s.last() == x {
            rest
        } else {
            rest.push(s.last())
        }
    }
}

/// The selection after passing over item `x` in the given mode.
pub open spec fn applied(mode: SelectionMode, s: Seq<Seq<char>>, x: Seq<char>) -> Seq<Seq<char>> {
    match mode {
        SelectionMode::Add => added(s, x),
        SelectionMode::Remove => without(s, x),
    }
}

/// Adds `id` to the selection or takes it out, as `mode` says.
pub fn process_selection(items: &mut Vec<String>, mode: SelectionMode, id: String)
    ensures
        final(items).deep_view() == applied(mode, old(items).deep_view(), id@),
{
    match mode {
        SelectionMode::Add => {
            if !contains_id(items, &id) {
                items.push(id);
                assert(items.deep_view() =~= old(items).deep_view().push(id@));
            }
        },
        SelectionMode::Remove => {
            let mut kept: Vec<String> = Vec::new();
            let mut i: usize = 0;
            let ghost s = items.deep_view();
            assert(s.take(0) =~= Seq::<Seq<char>>::empty());
            while i < items.len()
                invariant
                    i <= items@.len(),
                    s == items.deep_view(),
                    s.len() == items@.len(),
                    kept.deep_view() == without(s.take(i as int), id@),
                decreases items@.len() - i,
            {
                assert(s.take(i + 1).drop_last() =~= s.take(i as int));
                assert(s.take(i + 1).last() == s[i as int]);
                if !items[i].eq(&id) {
                    let c = items[i].clone();
                    kept.push(c);
                    assert(kept.deep_view() =~= without(s.take(i as int), id@).push(s[i as int]));
                }
                i = i + 1;
            }
            assert(s.take(s.len() as int) =~= s);
            *items = kept;
        },
    }
}

/// Passing over the same item twice in a row adds it once.
pub proof fn lemma_add_is_idempotent(s: Seq<Seq<char>>, x: Seq<char>)
    ensures
        added(added(s, x), x) == added(s, x),
        added(s, x).contains(x),
{
    if !s.contains(x) {
        assert(s.push(x)[s.len() as int] == x);
    }
}

/// Taking an item out leaves no copy of it, and keeps only items that were selected.
pub proof fn lemma_remove_clears(s: Seq<Seq<char>>, x: Seq<char>)
    ensures
        !without(s, x).contains(x),
        forall|y: Seq<char>| #[trigger] without(s, x).contains(y) ==> s.contains(y),
        !s.contains(x) ==> without(s, x) == s,
    decreases s.len(),
{
    if s.len() > 0 {
        let d = s.drop_last();
        lemma_remove_clears(d, x);
        let r = without(d, x);
        assert forall|y: Seq<char>| #[trigger] without(s, x).contains(y) implies s.contains(y) by {
            if r.contains(y) {
                let k = choose|k: int| 0 <= k < r.len() && r[k] == y;
                assert(d.contains(y));
                let j = choose|j: int| 0 <= j < d.len() && d[j] == y;
                assert(s[j] == y);
            } else {
                assert(s[s.len() - 1] == y);
            }
        }
        if without(s, x).contains(x) {
            if s.last() != x {
                let k = choose|k: int| 0 <= k < r.push(s.last()).len() && r.push(s.last())[k] == x;
                if k < r.len() {
                    assert(r.contains(x));
                }
            }
        }
        if !s.contains(x) {
            assert(!d.contains(x)) by {
                if d.contains(x) {
                    let j = choose|j: int| 0 <= j < d.len() && d[j] == x;
                    assert(s[j] == x);
                }
            }
            assert(s.last() != x) by {
                assert(s[s.len() - 1] == s.last());
            }
            assert(d.push(s.last()) =~= s);
        }
    }
}

/// Selecting an item that was not selected and then deselecting it restores the selection.
pub proof fn lemma_add_then_remove(s: Seq<Seq<char>>, x: Seq<char>)
    requires
        !s.contains(x),
    ensures
        without(added(s, x), x) == s,
{
    lemma_remove_clears(s, x);
    assert(s.push(x).drop_last() =~= s);
}

/// A selection without repeated ids keeps that property through every step.
pub proof fn lemma_selection_stays_distinct(mode: SelectionMode, s: Seq<Seq<char>>, x: Seq<char>)
    requires
        s.no_duplicates(),
    ensures
        applied(mode, s, x).no_duplicates(),
    decreases s.len(),
{
    match mode {
        SelectionMode::Add => {
            if !s.contains(x) {
                let t = s.push(x);
                assert forall|i: int, j: int| 0 <= i < t.len() && 0 <= j < t.len() && i != j implies t[i]
                    != t[j] by {
                    if i == s.len() as int {
                        assert(s[j] == t[j]);
                    } else if j == s.len() as int {
                        assert(s[i] == t[i]);
                    }
                }
            }
        },
        SelectionMode::Remove => {
            if s.len() > 0 {
                let d = s.drop_last();
                assert(d.no_duplicates());
                lemma_selection_stays_distinct(mode, d, x);
                let r = without(d, x);
                if s.last() != x {
                    lemma_remove_clears(d, x);
                    assert(!r.contains(s.last())) by {
                        if r.contains(s.last()) {
                            assert(d.contains(s.last()));
                            let j = choose|j: int| 0 <= j < d.len() && d[j] == s.last();
                            assert(s[j] == s[s.len() - 1]);
                        }
                    }
                    let t = r.push(s.last());
                    assert forall|i: int, j: int| 0 <= i < t.len() && 0 <= j < t.len() && i != j implies t[i]
                        != t[j] by {
                        if i == r.len() as int {
                            assert(r[j] == t[j]);
                        } else if j == r.len() as int {
                            assert(r[i] == t[i]);
                        }
                    }
                }
            }
        },
    }
}

/// The drag-selection state of the home page.
pub struct SelectionTracker {
    pub phase: SelectionPhase,
    pub mode: SelectionMode,
}

impl SelectionTracker {
    /// The state when the page opens: waiting to start, adding.
    pub fn new() -> (t: Self)
        ensures
            t.phase == SelectionPhase::Start,
            t.mode == SelectionMode::Add,
    {
        SelectionTracker { phase: SelectionPhase::Start, mode: SelectionMode::Add }
    }

    /// A mouse button went down over the grid; the primary button starts a new drag.
    pub fn mouse_down(&mut self, primary: bool)
        ensures
            final(self).phase == (if primary {
                SelectionPhase::Start
            } else {
                old(self).phase
            }),
            final(self).mode == old(self).mode,
    {
        if primary {
            self.phase = SelectionPhase::Start;
        }
    }

    /// A mouse button went up over the grid; the primary button ends the drag. Returns whether
    /// the drag ended, in which case the last pointer position is to be forgotten.
    pub fn mouse_up(&mut self, primary: bool) -> (ended: bool)
        ensures
            ended == primary,
            final(self).phase == (if primary {
                SelectionPhase::Idle
            } else {
                old(self).phase
            }),
            final(self).mode == old(self).mode,
    {
        if primary {
            self.phase = SelectionPhase::Idle;
        }
        primary
    }

    /// The pointer moved over item `id` with the primary button held. `was_selected` tells
    /// whether that item is selected, and `moved_far` whether the pointer travelled more than
    /// the minimum drag distance since the last move. The first item of a drag picks the mode:
    /// over a selected item the drag deselects, otherwise it selects.
    pub fn item_hovered(
        &mut self,
        items: &mut Vec<String>,
        id: String,
        was_selected: bool,
        moved_far: bool,
    )
        ensures
            !moved_far ==> *final(self) == *old(self) && final(items).deep_view() == old(
                items,
            ).deep_view(),
            moved_far ==> match old(self).phase {
                SelectionPhase::Start => {
                    let mode = if was_selected {
                        SelectionMode::Remove
                    } else {
                        SelectionMode::Add
                    };
                    &&& final(self).mode == mode
                    &&& final(self).phase == SelectionPhase::Selecting
                    &&& final(items).deep_view() == applied(mode, old(items).deep_view(), id@)
                },
                SelectionPhase::Selecting => {
                    &&& *final(self) == *old(self)
                    &&& final(items).deep_view() == applied(
                        old(self).mode,
                        old(items).deep_view(),
                        id@,
                    )
                },
                SelectionPhase::Idle => {
                    &&& *final(self) == *old(self)
                    &&& final(items).deep_view() == old(items).deep_view()
                },
            },
    {
        if !moved_far {
            return ;
        }
        match self.phase {
            SelectionPhase::Start => {
                let mode = if was_selected {
                    SelectionMode::Remove
                } else {
                    SelectionMode::Add
                };
                process_selection(items, mode, id);
                self.mode = mode;
                self.phase = SelectionPhase::Selecting;
            },
            SelectionPhase::Selecting => {
                let mode = self.mode;
                process_selection(items, mode, id);
            },
            SelectionPhase::Idle => {},
        }
    }
}

/// The address of a result page of the home view.
pub fn home_route(page: i32, query: &String) -> (route: String)
    ensures
        route@ == "/?page="@ + int_decimal(page as int) + "&q="@ + query@,
{
    let mut route = String::from_str("/?page=");
    push_signed_decimal(&mut route, page as i64);
    route.append("&q=");
    route.append(query.as_str());
    route
}

/// The identifiers of the selected items, in order, as the bulk calls send them.
pub fn id_list(selected: &Vec<String>) -> (list: IdList)
    ensures
        list.value@.len() == selected@.len(),
        forall|i: int| 0 <= i < selected@.len() ==> #[trigger] list.value@[i].value == selected@[i],
{
    let mut value: Vec<Id> = Vec::new();
    let mut i: usize = 0;
    while i < selected.len()
        invariant
            i <= selected@.len(),
            value@.len() == i,
            forall|j: int| 0 <= j < i ==> #[trigger] value@[j].value == selected@[j],
        decreases selected@.len() - i,
    {
        value.push(Id { value: selected[i].clone() });
        i = i + 1;
    }
    IdList { value }
}

/// A request that the home view sends for all selected items at once.
#[derive(Clone, Copy, Debug, PartialEq, Eq, Structural)]
pub enum BulkRequest {
    Delete,
    ChangeClass,
}

/// What the home view does once a bulk request came back.
pub struct AfterBulk {
    /// The grid loads its page again.
    pub reload_grid: bool,
    /// The failure is reported.
    pub report_failure: bool,
}

/// Once a bulk request came back, whatever the outcome: the selection is cleared, a failure is
/// reported, and after a delete the grid loads its page again.
pub fn after_bulk_request(request: BulkRequest, succeeded: bool, selected: &mut Vec<String>) -> (after:
    AfterBulk)
    ensures
        final(selected)@.len() == 0,
        after.reload_grid == (request == BulkRequest::Delete),
        after.report_failure == !succeeded,
{
    *selected = Vec::new();
    AfterBulk {
        reload_grid: match request {
            BulkRequest::Delete => true,
            BulkRequest::ChangeClass => false,
        },
        report_failure: !succeeded,
    }
}

} // verus!
