//! The media grid: page bookkeeping and the item list after a delete or a class change.
use crate::rpc::aoba::{media_class_code, MediaClass, MediaModel, Pagination};
use crate::contexts::selection_context::contains_id;
use vstd::prelude::*;

verus! {

/// The page count and item count of the listing that a page came from.
pub struct PaginationInfo {
    pub total_pages: i32,
    pub total_items: i32,
}

/// The page bookkeeping that a loaded page reports, if the server sent any.
pub fn pagination_info(pagination: &Option<Pagination>) -> (info: Option<PaginationInfo>)
    ensures
        match pagination {
            Some(p) => info matches Some(i) && i.total_pages == p.total_pages && i.total_items
                == p.total_items,
            None => info is None,
        },
{
    match pagination {
        Some(p) => Some(PaginationInfo { total_pages: p.total_pages, total_items: p.total_items }),
        None => None,
    }
}

/// The item has the identifier `id`.
pub open spec fn has_id(item: MediaModel, id: Seq<char>) -> bool {
    item.id matches Some(i) && i.value@ == id
}

/// The items that have the identifier `id`, in order.
pub open spec fn with_id(s: Seq<MediaModel>, id: Seq<char>) -> Seq<MediaModel>
    decreases s.len(),
{
    if s.len() == 0 {
        s
    } else {
        let rest = with_id(s.drop_last(), id);
        if has_id(s.last(), id) {
            rest.push(s.last())
        } else {
            rest
        }
    }
}

/// The item with its class set, where it has the identifier `id`.
pub open spec fn reclassed(item: MediaModel, id: Seq<char>, class: MediaClass) -> MediaModel {
    if has_id(item, id) {
        MediaModel { class: media_class_code(class) as i32, ..item }
    } else {
        item
    }
}

/// A class change sets the class of the item with the identifier to the new class's code,
/// whatever class it had before, lowering as well as raising it, and leaves every other field
/// as it was; an item with another identifier, or none, is not touched.
pub proof fn lemma_reclassed_sets_class(item: MediaModel, id: Seq<char>, class: MediaClass)
    ensures
        has_id(item, id) ==> reclassed(item, id, class).class == media_class_code(class),
        has_id(item, id) ==> reclassed(item, id, class) == (MediaModel {
            class: reclassed(item, id, class).class,
            ..item
        }),
        !has_id(item, id) ==> reclassed(item, id, class) == item,
{
}

fn item_has_id(item: &MediaModel, id: &String) -> (b: bool)
    ensures
        b == has_id(*item, id@),
{
    match &item.id {
        Some(i) => i.value.eq(id),
        None => false,
    }
}

/// The list that the grid shows once the server confirmed the delete of `id`: the grid keeps
/// the items whose identifier is `id` and drops the others.
pub fn items_after_delete(items: Vec<MediaModel>, id: &String) -> (kept: Vec<MediaModel>)
    ensures
        kept@ == with_id(items@, id@),
{
    let ghost orig = items@;
    let n = items.len();
    let mut rest = items;
    let mut kept: Vec<MediaModel> = Vec::new();
    let mut k: usize = 0;
    assert(orig.take(0) =~= Seq::<MediaModel>::empty());
    assert(orig.skip(0) =~= orig);
    while rest.len() > 0
        invariant
            k <= orig.len(),
            n == orig.len(),
            rest@ == orig.skip(k as int),
            kept@ == with_id(orig.take(k as int), id@),
        decreases rest@.len(),
    {
        let item = rest.remove(0);
        assert(item == orig[k as int]);
        assert(orig.take(k + 1).drop_last() =~= orig.take(k as int));
        assert(orig.take(k + 1).last() == orig[k as int]);
        assert(rest@ =~= orig.skip(k + 1));
        if item_has_id(&item, id) {
            kept.push(item);
        }
        k = k + 1;
    }
    assert(orig.take(orig.len() as int) =~= orig);
    kept
}

/// The list that the grid shows once the server confirmed that item `id` has a new class.
pub fn items_after_class_change(items: Vec<MediaModel>, id: &String, class: MediaClass) -> (updated:
    Vec<MediaModel>)
    ensures
        updated@ == items@.map_values(|m: MediaModel| reclassed(m, id@, class)),
        updated@.len() == items@.len(),
        forall|i: int|
            0 <= i < items@.len() && has_id(#[trigger] items@[i], id@) ==> updated@[i]
                == (MediaModel { class: media_class_code(class) as i32, ..items@[i] }),
        forall|i: int|
            0 <= i < items@.len() && !has_id(#[trigger] items@[i], id@) ==> updated@[i]
                == items@[i],
{
    let ghost orig = items@;
    let mut items = items;
    let code = class.code();
    let mut i: usize = 0;
    while i < items.len()
        invariant
            items@.len() == orig.len(),
            i <= orig.len(),
            code == media_class_code(class),
            forall|j: int| 0 <= j < i ==> items@[j] == reclassed(orig[j], id@, class),
            forall|j: int| i <= j < orig.len() ==> items@[j] == orig[j],
        decreases orig.len() - i,
    {
        if item_has_id(&items[i], id) {
            let mut m = items.remove(i);
            m.class = code;
            items.insert(i, m);
        }
        assert(items@[i as int] == reclassed(orig[i as int], id@, class));
        i = i + 1;
    }
    assert(items@ =~= orig.map_values(|m: MediaModel| reclassed(m, id@, class)));
    items
}

/// The list to show once a delete request for `id` came back: the list after the delete when
/// the server confirmed it and a list is on show; otherwise nothing, and the grid stays as it is.
pub fn list_after_delete(confirmed: bool, shown: Option<Vec<MediaModel>>, id: &String) -> (next:
    Option<Vec<MediaModel>>)
    ensures
        confirmed && shown is Some ==> (next matches Some(k) && k@ == with_id(shown->0@, id@)),
        !(confirmed && shown is Some) ==> next is None,
{
    if confirmed {
        match shown {
            Some(items) => Some(items_after_delete(items, id)),
            None => None,
        }
    } else {
        None
    }
}

/// The list to show once a class change of `id` came back: the list with the new class when the
/// server confirmed it and a list is on show; otherwise nothing, and the grid stays as it is.
pub fn list_after_class_change(
    confirmed: bool,
    shown: Option<Vec<MediaModel>>,
    id: &String,
    class: MediaClass,
) -> (next: Option<Vec<MediaModel>>)
    ensures
        confirmed && shown is Some ==> (next matches Some(k) && k@ == shown->0@.map_values(
            |m: MediaModel| reclassed(m, id@, class),
        )),
        !(confirmed && shown is Some) ==> next is None,
{
    if confirmed {
        match shown {
            Some(items) => Some(items_after_class_change(items, id, class)),
            None => None,
        }
    } else {
        None
    }
}

/// Whether a grid item shows as selected: it has an identifier and that is among `selected`.
pub fn is_item_selected(item: &MediaModel, selected: &Vec<String>) -> (b: bool)
    ensures
        b == (item.id matches Some(i) && selected.deep_view().contains(i.value@)),
{
    match &item.id {
        Some(i) => contains_id(selected, &i.value),
        None => false,
    }
}

} // verus!
