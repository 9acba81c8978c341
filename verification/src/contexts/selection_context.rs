//! The ids of the media items that the user has selected on the home page.
use vstd::prelude::*;

verus! {

/// The selected item ids, in the order they were selected.
pub struct SelectionContext {
    pub selected_items: Vec<String>,
}

impl Default for SelectionContext {
    fn default() -> (ctx: Self)
        ensures
            ctx.selected_items@.len() == 0,
    {
        SelectionContext { selected_items: Vec::new() }
    }
}

/// Whether a list of ids holds `id`, comparing by text.
pub fn contains_id(items: &Vec<String>, id: &String) -> (found: bool)
    ensures
        found == items.deep_view().contains(id@),
{
    let mut i: usize = 0;
    while i < items.len()
        invariant
            i <= items@.len(),
            forall|j: int| 0 <= j < i ==> items@[j]@ != id@,
        decreases items@.len() - i,
    {
        if items[i].eq(id) {
            assert(items.deep_view()[i as int] == id@);
            return true;
        }
        i = i + 1;
    }
    proof {
        if items.deep_view().contains(id@) {
            let k = choose|k: int| 0 <= k < items.deep_view().len() && items.deep_view()[k] == id@;
            assert(items@[k]@ == id@);
        }
    }
    false
}

impl SelectionContext {
    /// Whether the item with this id is selected.
    pub fn is_selected(&self, id: &String) -> (selected: bool)
        ensures
            selected == self.selected_items.deep_view().contains(id@),
    {
        contains_id(&self.selected_items, id)
    }

    /// Drops the whole selection.
    pub fn clear(&mut self)
        ensures
            final(self).selected_items@.len() == 0,
    {
        self.selected_items = Vec::new();
    }
}

} // verus!
