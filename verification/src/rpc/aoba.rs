//! The messages of the Aoba RPC protocol that the client reads and writes.
//!
//! Enumerations are carried on the wire as `i32` codes; a field holds the
//! code and an accessor of the same name turns it back into the enumeration,
//! falling back to the variant with code 0 for a code that it does not know.
use vstd::prelude::*;

verus! {

/// An identifier of a stored object.
pub struct Id {
    pub value: String,
}

/// The pixel size of an image or a video.
pub struct Dimensions {
    pub height: i32,
    pub width: i32,
}

/// A thumbnail that the server rendered for a media item.
pub struct Thumbnail {
    pub size: i32,
    pub url: String,
}

/// One media item as the server lists it.
pub struct MediaModel {
    pub id: Option<Id>,
    pub filename: String,
    pub media_type: i32,
    pub class: i32,
    pub thumb_url: String,
    pub media_url: String,
    pub cdn_url: String,
    pub view_count: i32,
    pub tags: Vec<String>,
    pub dimensions: Option<Dimensions>,
    pub thumbnails: Vec<Thumbnail>,
}

/// A list of identifiers.
pub struct IdList {
    pub value: Vec<Id>,
}

/// The position of a result page among all pages.
pub struct Pagination {
    pub total_pages: i32,
    pub total_items: i32,
}

/// A signed session token.
pub struct Jwt {
    pub token: String,
}

/// Why a login was refused.
pub struct LoginError {
    pub message: String,
}

/// The answer to a login: a session token or the reason for refusal.
pub enum LoginResult {
    Jwt(Jwt),
    Error(LoginError),
}

/// The answer to a request for the ShareX upload configuration.
pub enum DstResult {
    Destination(String),
    Error(String),
}

/// The visibility class of a media item.
#[derive(Clone, Copy, Debug, PartialEq, Eq, Structural)]
pub enum MediaClass {
    Unspecified,
    Standard,
    Nsfw,
    Secret,
}

/// The kind of content of a media item.
#[derive(Clone, Copy, Debug, PartialEq, Eq, Structural)]
pub enum MediaType {
    Unspecified,
    Image,
    Audio,
    Video,
    Text,
    Code,
    Raw,
}

/// The size class of a rendered thumbnail.
#[derive(Clone, Copy, Debug, PartialEq, Eq, Structural)]
pub enum ThumbnailSize {
    Unspecified,
    Small,
    Medium,
    Large,
}

/// The wire code of a media class.
pub open spec fn media_class_code(c: MediaClass) -> int {
    match c {
        MediaClass::Unspecified => 0,
        MediaClass::Standard => 1,
        MediaClass::Nsfw => 2,
        MediaClass::Secret => 3,
    }
}

/// The media class that a wire code stands for, the code-0 class for any other code.
pub open spec fn media_class_of_code(code: int) -> MediaClass {
    if code == 1 {
        MediaClass::Standard
    } else if code == 2 {
        MediaClass::Nsfw
    } else if code == 3 {
        MediaClass::Secret
    } else {
        MediaClass::Unspecified
    }
}

/// The wire code of a media type.
pub open spec fn media_type_code(t: MediaType) -> int {
    match t {
        MediaType::Unspecified => 0,
        MediaType::Image => 1,
        MediaType::Audio => 2,
        MediaType::Video => 3,
        MediaType::Text => 4,
        MediaType::Code => 5,
        MediaType::Raw => 6,
    }
}

/// The media type that a wire code stands for, the code-0 type for any other code.
pub open spec fn media_type_of_code(code: int) -> MediaType {
    if code == 1 {
        MediaType::Image
    } else if code == 2 {
        MediaType::Audio
    } else if code == 3 {
        MediaType::Video
    } else if code == 4 {
        MediaType::Text
    } else if code == 5 {
        MediaType::Code
    } else if code == 6 {
        MediaType::Raw
    } else {
        MediaType::Unspecified
    }
}

/// The wire code of a thumbnail size.
pub open spec fn thumbnail_size_code(s: ThumbnailSize) -> int {
    match s {
        ThumbnailSize::Unspecified => 0,
        ThumbnailSize::Small => 1,
        ThumbnailSize::Medium => 2,
        ThumbnailSize::Large => 3,
    }
}

/// The thumbnail size that a wire code stands for, the code-0 size for any other code.
pub open spec fn thumbnail_size_of_code(code: int) -> ThumbnailSize {
    if code == 1 {
        ThumbnailSize::Small
    } else if code == 2 {
        ThumbnailSize::Medium
    } else if code == 3 {
        ThumbnailSize::Large
    } else {
        ThumbnailSize::Unspecified
    }
}

impl MediaClass {
    /// The wire code of this class.
    pub fn code(&self) -> (c: i32)
        ensures
            c == media_class_code(*self),
    {
        match self {
            MediaClass::Unspecified => 0,
            MediaClass::Standard => 1,
            MediaClass::Nsfw => 2,
            MediaClass::Secret => 3,
        }
    }

    /// The class of a wire code, `None` for a code that names no class.
    pub fn from_code(code: i32) -> (c: Option<MediaClass>)
        ensures
            0 <= code <= 3 <==> c is Some,
            c matches Some(k) ==> k == media_class_of_code(code as int),
    {
        if code == 0 {
            Some(MediaClass::Unspecified)
        } else if code == 1 {
            Some(MediaClass::Standard)
        } else if code == 2 {
            Some(MediaClass::Nsfw)
        } else if code == 3 {
            Some(MediaClass::Secret)
        } else {
            None
        }
    }
}

impl MediaType {
    /// The wire code of this type.
    pub fn code(&self) -> (c: i32)
        ensures
            c == media_type_code(*self),
    {
        match self {
            MediaType::Unspecified => 0,
            MediaType::Image => 1,
            MediaType::Audio => 2,
            MediaType::Video => 3,
            MediaType::Text => 4,
            MediaType::Code => 5,
            MediaType::Raw => 6,
        }
    }

    /// The type of a wire code, `None` for a code that names no type.
    pub fn from_code(code: i32) -> (t: Option<MediaType>)
        ensures
            0 <= code <= 6 <==> t is Some,
            t matches Some(k) ==> k == media_type_of_code(code as int),
    {
        if code == 0 {
            Some(MediaType::Unspecified)
        } else if code == 1 {
            Some(MediaType::Image)
        } else if code == 2 {
            Some(MediaType::Audio)
        } else if code == 3 {
            Some(MediaType::Video)
        } else if code == 4 {
            Some(MediaType::Text)
        } else if code == 5 {
            Some(MediaType::Code)
        } else if code == 6 {
            Some(MediaType::Raw)
        } else {
            None
        }
    }
}

impl ThumbnailSize {
    /// The wire code of this size.
    pub fn code(&self) -> (c: i32)
        ensures
            c == thumbnail_size_code(*self),
    {
        match self {
            ThumbnailSize::Unspecified => 0,
            ThumbnailSize::Small => 1,
            ThumbnailSize::Medium => 2,
            ThumbnailSize::Large => 3,
        }
    }

    /// The size of a wire code, `None` for a code that names no size.
    pub fn from_code(code: i32) -> (s: Option<ThumbnailSize>)
        ensures
            0 <= code <= 3 <==> s is Some,
            s matches Some(k) ==> k == thumbnail_size_of_code(code as int),
    {
        if code == 0 {
            Some(ThumbnailSize::Unspecified)
        } else if code == 1 {
            Some(ThumbnailSize::Small)
        } else if code == 2 {
            Some(ThumbnailSize::Medium)
        } else if code == 3 {
            Some(ThumbnailSize::Large)
        } else {
            None
        }
    }
}

impl Thumbnail {
    /// The size class of this thumbnail.
    pub fn size(&self) -> (s: ThumbnailSize)
        ensures
            s == thumbnail_size_of_code(self.size as int),
    {
        match ThumbnailSize::from_code(self.size) {
            Some(s) => s,
            None => ThumbnailSize::Unspecified,
        }
    }
}

impl MediaModel {
    /// The class of this item.
    pub fn class(&self) -> (c: MediaClass)
        ensures
            c == media_class_of_code(self.class as int),
    {
        match MediaClass::from_code(self.class) {
            Some(c) => c,
            None => MediaClass::Unspecified,
        }
    }

    /// The content type of this item.
    pub fn media_type(&self) -> (t: MediaType)
        ensures
            t == media_type_of_code(self.media_type as int),
    {
        match MediaType::from_code(self.media_type) {
            Some(t) => t,
            None => MediaType::Unspecified,
        }
    }
}

/// Every media class survives the trip through its wire code.
pub proof fn lemma_media_class_code_roundtrip(c: MediaClass)
    ensures
        media_class_of_code(media_class_code(c)) == c,
{
}

/// Every media type survives the trip through its wire code.
pub proof fn lemma_media_type_code_roundtrip(t: MediaType)
    ensures
        media_type_of_code(media_type_code(t)) == t,
{
}

/// Every thumbnail size survives the trip through its wire code.
pub proof fn lemma_thumbnail_size_code_roundtrip(s: ThumbnailSize)
    ensures
        thumbnail_size_of_code(thumbnail_size_code(s)) == s,
{
}

} // verus!
