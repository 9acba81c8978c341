//! How a media item shows in the grid.
use crate::rpc::aoba::{MediaModel, MediaType};
use vstd::prelude::*;

verus! {

/// The element that shows a media item's preview.
#[derive(Clone, Copy, Debug, PartialEq, Eq, Structural)]
pub enum ThumbKind {
    /// A muted looping video.
    Video,
    /// The stack icon, for raw files.
    Stack,
    /// An image.
    Image,
}

/// The preview element for a media type.
pub open spec fn thumb_kind_of(t: MediaType) -> ThumbKind {
    match t {
        MediaType::Video => ThumbKind::Video,
        MediaType::Raw => ThumbKind::Stack,
        _ => ThumbKind::Image,
    }
}

/// The preview element for a media type.
pub fn thumb_kind(media_type: MediaType) -> (kind: ThumbKind)
    ensures
        kind == thumb_kind_of(media_type),
{
    match media_type {
        MediaType::Video => ThumbKind::Video,
        MediaType::Raw => ThumbKind::Stack,
        _ => ThumbKind::Image,
    }
}

/// The style class that marks a selected item.
pub fn selected_class(is_selected: bool) -> (class: &'static str)
    ensures
        class@ == (if is_selected {
            "selected"@
        } else {
            ""@
        }),
{
    if is_selected {
        "selected"
    } else {
        ""
    }
}

/// The identifier text of an item, empty when it has none.
pub fn item_id(item: &MediaModel) -> (id: String)
    ensures
        match item.id {
            Some(i) => id == i.value,
            None => id@ == Seq::<char>::empty(),
        },
{
    match &item.id {
        Some(i) => i.value.clone(),
        None => String::new(),
    }
}

} // verus!
