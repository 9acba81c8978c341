//! A stored media item as the server describes it in JSON.
use vstd::prelude::*;

verus! {

/// A stored media item.
#[derive(PartialEq)]
pub struct Media {
    pub id: String,
    pub media_id: String,
    pub filename: String,
    pub media_type: MediaType,
    pub ext: String,
    pub view_count: i32,
    pub owner: String,
}

/// The kind of content of a media item; it travels as its integer code.
#[derive(Clone, Copy, Debug, PartialEq, Eq, Structural)]
pub enum MediaType {
    Image,
    Audio,
    Video,
    Text,
    Code,
    Raw,
}

/// The integer code of a media type, in declaration order from 0.
pub open spec fn repr_of(t: MediaType) -> int {
    match t {
        MediaType::Image => 0,
        MediaType::Audio => 1,
        MediaType::Video => 2,
        MediaType::Text => 3,
        MediaType::Code => 4,
        MediaType::Raw => 5,
    }
}

impl MediaType {
    /// The integer code that stands for this type.
    pub fn to_repr(&self) -> (code: i32)
        ensures
            code == repr_of(*self),
    {
        match self {
            MediaType::Image => 0,
            MediaType::Audio => 1,
            MediaType::Video => 2,
            MediaType::Text => 3,
            MediaType::Code => 4,
            MediaType::Raw => 5,
        }
    }

    /// The type that an integer code stands for; `None` for a code that names no type.
    pub fn from_repr(code: i32) -> (t: Option<MediaType>)
        ensures
            t matches Some(k) ==> repr_of(k) == code,
            t is None <==> !(0 <= code <= 5),
    {
        if code == 0 {
            Some(MediaType::Image)
        } else if code == 1 {
            Some(MediaType::Audio)
        } else if code == 2 {
            Some(MediaType::Video)
        } else if code == 3 {
            Some(MediaType::Text)
        } else if code == 4 {
            Some(MediaType::Code)
        } else if code == 5 {
            Some(MediaType::Raw)
        } else {
            None
        }
    }
}

/// Distinct media types have distinct codes, so a code read back names the type written.
pub proof fn lemma_repr_is_injective(a: MediaType, b: MediaType)
    ensures
        repr_of(a) == repr_of(b) ==> a == b,
        0 <= repr_of(a) <= 5,
{
}

impl Clone for Media {
    fn clone(&self) -> (c: Self)
        ensures
            c == *self,
    {
        Media {
            id: self.id.clone(),
            media_id: self.media_id.clone(),
            filename: self.filename.clone(),
            media_type: self.media_type,
            ext: self.ext.clone(),
            view_count: self.view_count,
            owner: self.owner.clone(),
        }
    }
}

} // verus!
