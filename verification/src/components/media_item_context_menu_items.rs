//! The entries of a media item's context menu.
use crate::models::toasts::{ToastCommand, ToastLevel};
use crate::proto_exts::class_display_name;
use crate::rpc::aoba::MediaClass;
use std::time::Duration;
use vstd::prelude::*;

verus! {

/// The classes offered to re-class one item: each of standard, NSFW and secret that it does
/// not have yet, in that order.
pub open spec fn class_options_of(current: MediaClass) -> Seq<MediaClass> {
    (if current != MediaClass::Standard {
        seq![MediaClass::Standard]
    } else {
        seq![]
    }) + (if current != MediaClass::Nsfw {
        seq![MediaClass::Nsfw]
    } else {
        seq![]
    }) + (if current != MediaClass::Secret {
        seq![MediaClass::Secret]
    } else {
        seq![]
    })
}

/// The "Mark ..." entries for one item.
pub fn class_options(current: MediaClass) -> (options: Vec<MediaClass>)
    ensures
        options@ == class_options_of(current),
{
    let mut options: Vec<MediaClass> = Vec::new();
    if current != MediaClass::Standard {
        options.push(MediaClass::Standard);
    }
    if current != MediaClass::Nsfw {
        options.push(MediaClass::Nsfw);
    }
    if current != MediaClass::Secret {
        options.push(MediaClass::Secret);
    }
    assert(options@ =~= class_options_of(current));
    options
}

/// The "Mark as ..." entries for the selected items: NSFW, secret and standard, shown only
/// while something is selected.
pub fn bulk_class_options(selection_count: usize) -> (options: Vec<MediaClass>)
    ensures
        options@ == (if selection_count > 0 {
            seq![MediaClass::Nsfw, MediaClass::Secret, MediaClass::Standard]
        } else {
            Seq::<MediaClass>::empty()
        }),
{
    let mut options: Vec<MediaClass> = Vec::new();
    if selection_count > 0 {
        options.push(MediaClass::Nsfw);
        options.push(MediaClass::Secret);
        options.push(MediaClass::Standard);
    }
    assert(options@ =~= (if selection_count > 0 {
        seq![MediaClass::Nsfw, MediaClass::Secret, MediaClass::Standard]
    } else {
        Seq::<MediaClass>::empty()
    }));
    options
}

/// The address of an item's detail page.
pub fn media_page_path(id: &String) -> (path: String)
    ensures
        path@ == "/media/"@ + id@,
{
    let mut path = String::from_str("/media/");
    path.append(id.as_str());
    path
}

/// An item is never offered the class it already has, and always two others.
pub proof fn lemma_class_options_exclude_current(current: MediaClass)
    ensures
        !class_options_of(current).contains(current),
        current != MediaClass::Unspecified ==> class_options_of(current).len() == 2,
        current == MediaClass::Unspecified ==> class_options_of(current).len() == 3,
{
    let s = class_options_of(current);
    if s.contains(current) {
        let k = choose|k: int| 0 <= k < s.len() && s[k] == current;
    }
}

/// How many seconds the toast after a "Copy Url" stays on display.
pub const URL_TOAST_SECONDS: u64 = 5;

/// The toast after a "Copy Url": an error when the clipboard refused the text, otherwise a
/// confirmation; either one dismisses itself after `display_for`.
pub fn copy_url_toast(copy_failed: bool, display_for: Duration) -> (cmd: ToastCommand)
    ensures
        cmd is Push,
        cmd->title@ == (if copy_failed {
            "Failed to copy url"@
        } else {
            "Url copied"@
        }),
        cmd->message is None,
        cmd->level == (if copy_failed {
            ToastLevel::Error
        } else {
            ToastLevel::Info
        }),
        cmd->duration == Some(display_for),
{
    if copy_failed {
        ToastCommand::push_error(String::from_str("Failed to copy url")).with_duration(display_for)
    } else {
        ToastCommand::push_info(String::from_str("Url copied")).with_duration(display_for)
    }
}

/// The label of the entry that gives one item a class.
pub open spec fn mark_label_of(class: MediaClass) -> Seq<char> {
    match class {
        MediaClass::Standard => "Mark Standard"@,
        MediaClass::Nsfw => "Mark NSFW"@,
        MediaClass::Secret => "Mark Secret"@,
        MediaClass::Unspecified => ""@,
    }
}

/// The label of the entry that gives the selected items a class.
pub open spec fn bulk_mark_label_of(class: MediaClass) -> Seq<char> {
    match class {
        MediaClass::Standard => "Mark as Standard"@,
        MediaClass::Nsfw => "Mark as NSFW"@,
        MediaClass::Secret => "Mark as Secret"@,
        MediaClass::Unspecified => ""@,
    }
}

/// Each offered class is labelled by its own name: "Mark " (one item) or "Mark as " (the
/// selection) followed by the name under which the class is shown, so two different classes
/// never share a label.
pub proof fn lemma_labels_name_their_class(c1: MediaClass, c2: MediaClass)
    requires
        c1 != MediaClass::Unspecified,
        c2 != MediaClass::Unspecified,
    ensures
        mark_label_of(c1) == "Mark "@ + class_display_name(c1),
        bulk_mark_label_of(c1) == "Mark as "@ + class_display_name(c1),
        c1 != c2 ==> mark_label_of(c1) != mark_label_of(c2),
        c1 != c2 ==> bulk_mark_label_of(c1) != bulk_mark_label_of(c2),
{
    reveal_strlit("Mark ");
    reveal_strlit("Mark as ");
    reveal_strlit("Standard");
    reveal_strlit("NSFW");
    reveal_strlit("Secret");
    reveal_strlit("Mark Standard");
    reveal_strlit("Mark NSFW");
    reveal_strlit("Mark Secret");
    reveal_strlit("Mark as Standard");
    reveal_strlit("Mark as NSFW");
    reveal_strlit("Mark as Secret");
    assert(mark_label_of(c1) =~= "Mark "@ + class_display_name(c1));
    assert(bulk_mark_label_of(c1) =~= "Mark as "@ + class_display_name(c1));
    if c1 != c2 {
        assert(mark_label_of(c1).len() != mark_label_of(c2).len());
        assert(bulk_mark_label_of(c1).len() != bulk_mark_label_of(c2).len());
    }
}

/// The label of a "Mark ..." entry; no entry offers the unspecified class.
pub fn mark_label(class: MediaClass) -> (label: &'static str)
    ensures
        label@ == mark_label_of(class),
        class != MediaClass::Unspecified ==> label@ == "Mark "@ + class_display_name(class),
        class == MediaClass::Unspecified ==> label@.len() == 0,
{
    proof {
        reveal_strlit("Mark ");
        reveal_strlit("Standard");
        reveal_strlit("NSFW");
        reveal_strlit("Secret");
        reveal_strlit("Mark Standard");
        reveal_strlit("Mark NSFW");
        reveal_strlit("Mark Secret");
        reveal_strlit("");
    }
    let label = match class {
        MediaClass::Standard => "Mark Standard",
        MediaClass::Nsfw => "Mark NSFW",
        MediaClass::Secret => "Mark Secret",
        MediaClass::Unspecified => "",
    };
    assert(class != MediaClass::Unspecified ==> label@ =~= "Mark "@ + class_display_name(class));
    label
}

/// The label of a "Mark as ..." entry for the selected items.
pub fn bulk_mark_label(class: MediaClass) -> (label: &'static str)
    ensures
        label@ == bulk_mark_label_of(class),
        class != MediaClass::Unspecified ==> label@ == "Mark as "@ + class_display_name(class),
        class == MediaClass::Unspecified ==> label@.len() == 0,
{
    proof {
        reveal_strlit("Mark as ");
        reveal_strlit("Standard");
        reveal_strlit("NSFW");
        reveal_strlit("Secret");
        reveal_strlit("Mark as Standard");
        reveal_strlit("Mark as NSFW");
        reveal_strlit("Mark as Secret");
        reveal_strlit("");
    }
    let label = match class {
        MediaClass::Standard => "Mark as Standard",
        MediaClass::Nsfw => "Mark as NSFW",
        MediaClass::Secret => "Mark as Secret",
        MediaClass::Unspecified => "",
    };
    assert(class != MediaClass::Unspecified ==> label@ =~= "Mark as "@ + class_display_name(class));
    label
}

} // verus!
