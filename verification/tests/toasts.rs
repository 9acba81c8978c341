use std::time::Duration;

use aoba_client::components::toasts::{command_on_animation_end, command_on_dismiss_click, slide_style, ToastQueue};
use aoba_client::models::toasts::{ToastCommand, ToastEntry, ToastLevel};

fn titles(q: &ToastQueue) -> Vec<String> {
    q.entries().iter().map(|e| e.title.clone()).collect()
}

#[test]
fn push_assigns_increasing_ids() {
    let mut q = ToastQueue::new();
    assert_eq!(q.handle(ToastCommand::push_info("a".to_string())), None);
    assert_eq!(q.handle(ToastCommand::push_warning("b".to_string())), None);
    assert_eq!(q.handle(ToastCommand::push_error("c".to_string())), None);
    let ids: Vec<usize> = q.entries().iter().map(|e| e.id).collect();
    assert_eq!(ids, vec![0, 1, 2]);
    assert_eq!(q.next_id(), 3);
    assert_eq!(titles(&q), vec!["a".to_string(), "b".to_string(), "c".to_string()]);
    assert_eq!(q.entries()[1].level, ToastLevel::Warning);
}

#[test]
fn push_with_duration_asks_for_timer_with_new_id() {
    let mut q = ToastQueue::new();
    q.handle(ToastCommand::push_info("first".to_string()));
    let timer = q.handle(ToastCommand::push_info("second".to_string()).with_duration(Duration::from_secs(5)));
    assert_eq!(timer, Some((1, Duration::from_secs(5))));
    // The entry itself does not keep the duration.
    assert_eq!(q.entries()[1].duration, None);
    assert!(!q.entries()[1].is_dismissing);
}

#[test]
fn dismiss_marks_only_that_toast() {
    let mut q = ToastQueue::new();
    q.handle(ToastCommand::push_info("a".to_string()));
    q.handle(ToastCommand::push_info("b".to_string()));
    assert_eq!(q.handle(ToastCommand::Dismiss(1)), None);
    assert!(!q.entries()[0].is_dismissing);
    assert!(q.entries()[1].is_dismissing);
    assert_eq!(q.entries().len(), 2);
}

#[test]
fn dismiss_twice_is_dismiss_once() {
    let mut q = ToastQueue::new();
    q.handle(ToastCommand::push_info("a".to_string()));
    q.handle(ToastCommand::Dismiss(0));
    let once: Vec<ToastEntry> = q.entries().clone();
    q.handle(ToastCommand::Dismiss(0));
    assert_eq!(q.entries(), &once);
}

#[test]
fn expire_marks_dismissing() {
    let mut q = ToastQueue::new();
    q.handle(ToastCommand::push_info("a".to_string()));
    q.expire(0);
    assert!(q.entries()[0].is_dismissing);
}

#[test]
fn remove_takes_one_toast_away() {
    let mut q = ToastQueue::new();
    q.handle(ToastCommand::push_info("a".to_string()));
    q.handle(ToastCommand::push_info("b".to_string()));
    q.handle(ToastCommand::push_info("c".to_string()));
    q.handle(ToastCommand::Remove(1));
    assert_eq!(titles(&q), vec!["a".to_string(), "c".to_string()]);
    assert_eq!(q.next_id(), 3);
}

#[test]
fn unknown_id_changes_nothing() {
    let mut q = ToastQueue::new();
    q.handle(ToastCommand::push_info("a".to_string()));
    let before: Vec<ToastEntry> = q.entries().clone();
    q.handle(ToastCommand::Dismiss(7));
    q.handle(ToastCommand::Remove(7));
    q.expire(9);
    assert_eq!(q.entries(), &before);
}

#[test]
fn push_then_remove_restores_entries() {
    let mut q = ToastQueue::new();
    q.handle(ToastCommand::push_info("keep".to_string()));
    let before: Vec<ToastEntry> = q.entries().clone();
    let id = q.next_id();
    q.handle(ToastCommand::push_error_with_message("gone".to_string(), "details".to_string()));
    q.handle(ToastCommand::Remove(id));
    assert_eq!(q.entries(), &before);
    assert_eq!(q.next_id(), id + 1);
}

#[test]
fn ids_are_not_reused_after_remove() {
    let mut q = ToastQueue::new();
    q.handle(ToastCommand::push_info("a".to_string()));
    q.handle(ToastCommand::Remove(0));
    q.handle(ToastCommand::push_info("b".to_string()));
    assert_eq!(q.entries()[0].id, 1);
}

#[test]
fn builders_fill_the_push() {
    assert_eq!(
        ToastCommand::push_info_with_message("t".to_string(), "m".to_string()),
        ToastCommand::Push { title: "t".into(), message: Some("m".into()), level: ToastLevel::Info, duration: None }
    );
    assert_eq!(
        ToastCommand::push_warning_with_message("t".to_string(), "m".to_string()),
        ToastCommand::Push { title: "t".into(), message: Some("m".into()), level: ToastLevel::Warning, duration: None }
    );
    assert_eq!(
        ToastCommand::push_error("t".to_string()),
        ToastCommand::Push { title: "t".into(), message: None, level: ToastLevel::Error, duration: None }
    );
    assert_eq!(
        ToastCommand::push_warning("t".to_string()).with_message("x".to_string()),
        ToastCommand::Push { title: "t".into(), message: Some("x".into()), level: ToastLevel::Warning, duration: None }
    );
}

#[test]
fn modifiers_leave_other_commands_alone() {
    assert_eq!(ToastCommand::Dismiss(3).with_duration(Duration::from_secs(1)), ToastCommand::Dismiss(3));
    assert_eq!(ToastCommand::Remove(4).with_message("m".to_string()), ToastCommand::Remove(4));
}

#[test]
fn level_classes() {
    assert_eq!(ToastLevel::Info.as_class(), "info");
    assert_eq!(ToastLevel::Warning.as_class(), "warn");
    assert_eq!(ToastLevel::Error.as_class(), "error");
    assert_eq!(ToastLevel::default(), ToastLevel::Info);
}

#[test]
fn toast_animation_and_click_commands() {
    let mut e = ToastEntry::default();
    e.id = 4;
    assert_eq!(slide_style(&e), "animation-name: toastSlideIn;");
    assert_eq!(command_on_animation_end(&e, &"toastSlideOut".to_string()), None);
    e.is_dismissing = true;
    assert_eq!(slide_style(&e), "animation-name: toastSlideOut;");
    assert_eq!(command_on_animation_end(&e, &"toastSlideIn".to_string()), None);
    assert_eq!(command_on_animation_end(&e, &"toastSlideOut".to_string()), Some(ToastCommand::Remove(4)));
    assert_eq!(command_on_dismiss_click(&e), ToastCommand::Dismiss(4));
}

#[test]
fn with_message_matches_builder_at_every_level() {
    let t = "title".to_string();
    let m = "message".to_string();
    assert_eq!(ToastCommand::push_info(t.clone()).with_message(m.clone()), ToastCommand::push_info_with_message(t.clone(), m.clone()));
    assert_eq!(ToastCommand::push_warning(t.clone()).with_message(m.clone()), ToastCommand::push_warning_with_message(t.clone(), m.clone()));
    assert_eq!(ToastCommand::push_error(t.clone()).with_message(m.clone()), ToastCommand::push_error_with_message(t, m));
}

#[test]
fn ids_stay_distinct_increasing_and_below_counter_over_a_run() {
    let mut q = ToastQueue::new();
    let mut pushes = 0usize;
    let steps: Vec<u8> = vec![0, 1, 2, 0, 3, 0, 4, 1, 0, 2, 3];
    for (n, step) in steps.into_iter().enumerate() {
        match step {
            0 => {
                q.handle(ToastCommand::push_info(format!("t{n}")));
                pushes += 1;
            }
            1 => {
                let timer = q.handle(ToastCommand::push_error(format!("t{n}")).with_duration(Duration::from_secs(1)));
                assert_eq!(timer, Some((pushes, Duration::from_secs(1))));
                pushes += 1;
            }
            2 => q.expire(1),
            3 => {
                q.handle(ToastCommand::Remove(0));
            }
            _ => {
                q.handle(ToastCommand::Dismiss(5));
            }
        }
        let ids: Vec<usize> = q.entries().iter().map(|e| e.id).collect();
        assert!(ids.windows(2).all(|w| w[0] < w[1]));
        assert!(ids.iter().all(|&i| i < q.next_id()));
        assert_eq!(q.next_id(), pushes);
    }
}
