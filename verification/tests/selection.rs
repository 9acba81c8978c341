use aoba_client::contexts::selection_context::{contains_id, SelectionContext};
use aoba_client::views::home::{after_bulk_request, home_route, id_list, process_selection, BulkRequest, SelectionMode, SelectionPhase, SelectionTracker};

fn v(items: &[&str]) -> Vec<String> {
    items.iter().map(|s| s.to_string()).collect()
}

#[test]
fn add_appends_once() {
    let mut items = v(&["a"]);
    process_selection(&mut items, SelectionMode::Add, "b".to_string());
    assert_eq!(items, v(&["a", "b"]));
    process_selection(&mut items, SelectionMode::Add, "b".to_string());
    assert_eq!(items, v(&["a", "b"]));
}

#[test]
fn remove_drops_every_copy() {
    let mut items = v(&["a", "b", "a", "c"]);
    process_selection(&mut items, SelectionMode::Remove, "a".to_string());
    assert_eq!(items, v(&["b", "c"]));
    process_selection(&mut items, SelectionMode::Remove, "z".to_string());
    assert_eq!(items, v(&["b", "c"]));
}

#[test]
fn add_then_remove_restores() {
    let mut items = v(&["x", "y"]);
    process_selection(&mut items, SelectionMode::Add, "n".to_string());
    process_selection(&mut items, SelectionMode::Remove, "n".to_string());
    assert_eq!(items, v(&["x", "y"]));
}

#[test]
fn contains_and_clear() {
    let mut ctx = SelectionContext::default();
    ctx.selected_items = v(&["a", "b"]);
    assert!(ctx.is_selected(&"b".to_string()));
    assert!(!ctx.is_selected(&"c".to_string()));
    assert!(contains_id(&ctx.selected_items, &"a".to_string()));
    ctx.clear();
    assert!(ctx.selected_items.is_empty());
}

#[test]
fn drag_starting_on_unselected_item_adds() {
    let mut t = SelectionTracker::new();
    let mut items = v(&[]);
    t.mouse_down(true);
    t.item_hovered(&mut items, "a".to_string(), false, true);
    assert_eq!(t.phase, SelectionPhase::Selecting);
    assert_eq!(t.mode, SelectionMode::Add);
    t.item_hovered(&mut items, "b".to_string(), false, true);
    assert_eq!(items, v(&["a", "b"]));
    assert!(t.mouse_up(true));
    assert_eq!(t.phase, SelectionPhase::Idle);
    t.item_hovered(&mut items, "c".to_string(), false, true);
    assert_eq!(items, v(&["a", "b"]));
}

#[test]
fn drag_starting_on_selected_item_removes() {
    let mut t = SelectionTracker::new();
    let mut items = v(&["a", "b", "c"]);
    t.mouse_down(true);
    t.item_hovered(&mut items, "a".to_string(), true, true);
    assert_eq!(t.mode, SelectionMode::Remove);
    // Later items are removed whatever their own state.
    t.item_hovered(&mut items, "c".to_string(), false, true);
    assert_eq!(items, v(&["b"]));
}

#[test]
fn short_moves_are_ignored() {
    let mut t = SelectionTracker::new();
    let mut items = v(&[]);
    t.item_hovered(&mut items, "a".to_string(), false, false);
    assert!(items.is_empty());
    assert_eq!(t.phase, SelectionPhase::Start);
}

#[test]
fn other_buttons_do_not_change_phase() {
    let mut t = SelectionTracker::new();
    assert!(!t.mouse_up(false));
    assert_eq!(t.phase, SelectionPhase::Start);
    t.mouse_up(true);
    t.mouse_down(false);
    assert_eq!(t.phase, SelectionPhase::Idle);
    t.mouse_down(true);
    assert_eq!(t.phase, SelectionPhase::Start);
}

#[test]
fn route_of_result_page() {
    assert_eq!(home_route(3, &"cats".to_string()), "/?page=3&q=cats");
    assert_eq!(home_route(-12, &String::new()), "/?page=-12&q=");
}

#[test]
fn id_list_keeps_order() {
    let list = id_list(&v(&["p", "q"]));
    let values: Vec<String> = list.value.iter().map(|i| i.value.clone()).collect();
    assert_eq!(values, v(&["p", "q"]));
}

#[test]
fn bulk_requests_always_clear_the_selection() {
    let mut sel = v(&["a", "b"]);
    let after = after_bulk_request(BulkRequest::Delete, true, &mut sel);
    assert!(sel.is_empty());
    assert!(after.reload_grid && !after.report_failure);
    let mut sel = v(&["a"]);
    let after = after_bulk_request(BulkRequest::Delete, false, &mut sel);
    assert!(sel.is_empty());
    assert!(after.reload_grid && after.report_failure);
    let mut sel = v(&["c"]);
    let after = after_bulk_request(BulkRequest::ChangeClass, false, &mut sel);
    assert!(sel.is_empty());
    assert!(!after.reload_grid && after.report_failure);
    let after = after_bulk_request(BulkRequest::ChangeClass, true, &mut sel);
    assert!(!after.reload_grid && !after.report_failure);
}
