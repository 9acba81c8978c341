//! Presentation helpers on the RPC messages: thumbnail lookup and display names.
use crate::rpc::aoba::{
    thumbnail_size_of_code, Dimensions, MediaClass, MediaModel, MediaType,
    Thumbnail, ThumbnailSize,
};
use crate::text::{i32_to_decimal, int_decimal};
use vstd::prelude::*;

verus! {

/// The url of the first thumbnail of the given size, if there is one.
pub open spec fn first_thumbnail_url(ts: Seq<Thumbnail>, size: ThumbnailSize) -> Option<String>
    decreases ts.len(),
{
    if ts.len() == 0 {
        None
    } else if thumbnail_size_of_code(ts[0].size as int) == size {
        Some(ts[0].url)
    } else {
        first_thumbnail_url(ts.drop_first(), size)
    }
}

/// The thumbnails of the given size, in their order.
pub open spec fn thumbnails_of_size(ts: Seq<Thumbnail>, size: ThumbnailSize) -> Seq<Thumbnail>
    decreases ts.len(),
{
    if ts.len() == 0 {
        ts
    } else if thumbnail_size_of_code(ts[0].size as int) == size {
        seq![ts[0]] + thumbnails_of_size(ts.drop_first(), size)
    } else {
        thumbnails_of_size(ts.drop_first(), size)
    }
}

/// The url found is that of the first thumbnail of the size, and nothing when there is none.
pub proof fn lemma_url_is_first_of_size(ts: Seq<Thumbnail>, size: ThumbnailSize)
    ensures
        first_thumbnail_url(ts, size) == (if thumbnails_of_size(ts, size).len() == 0 {
            None::<String>
        } else {
            Some(thumbnails_of_size(ts, size)[0].url)
        }),
    decreases ts.len(),
{
    if ts.len() > 0 {
        lemma_url_is_first_of_size(ts.drop_first(), size);
    }
}

/// Two thumbnail lists that hold the same thumbnails of a size, in the same order, give the
/// same url for that size, whatever thumbnails of other sizes they hold and wherever.
pub proof fn lemma_other_sizes_do_not_matter(
    ts1: Seq<Thumbnail>,
    ts2: Seq<Thumbnail>,
    size: ThumbnailSize,
)
    requires
        thumbnails_of_size(ts1, size) == thumbnails_of_size(ts2, size),
    ensures
        first_thumbnail_url(ts1, size) == first_thumbnail_url(ts2, size),
{
    lemma_url_is_first_of_size(ts1, size);
    lemma_url_is_first_of_size(ts2, size);
}

/// Inserting a thumbnail of another size anywhere leaves the thumbnails of the size as they
/// were, so the url found does not change.
pub proof fn lemma_inserting_other_size_keeps_url(
    ts: Seq<Thumbnail>,
    i: int,
    t: Thumbnail,
    size: ThumbnailSize,
)
    requires
        0 <= i <= ts.len(),
        thumbnail_size_of_code(t.size as int) != size,
    ensures
        thumbnails_of_size(ts.insert(i, t), size) == thumbnails_of_size(ts, size),
        first_thumbnail_url(ts.insert(i, t), size) == first_thumbnail_url(ts, size),
    decreases ts.len(),
{
    let u = ts.insert(i, t);
    if i == 0 {
        assert(u.drop_first() =~= ts);
    } else {
        assert(u[0] == ts[0]);
        assert(u.drop_first() =~= ts.drop_first().insert(i - 1, t));
        lemma_inserting_other_size_keeps_url(ts.drop_first(), i - 1, t, size);
    }
    lemma_other_sizes_do_not_matter(u, ts, size);
}

/// Once a list has a thumbnail of the size, thumbnails added after it change nothing.
pub proof fn lemma_appending_keeps_found_url(
    ts: Seq<Thumbnail>,
    more: Seq<Thumbnail>,
    size: ThumbnailSize,
)
    requires
        first_thumbnail_url(ts, size) is Some,
    ensures
        first_thumbnail_url(ts + more, size) == first_thumbnail_url(ts, size),
    decreases ts.len(),
{
    let u = ts + more;
    assert(u[0] == ts[0]);
    if thumbnail_size_of_code(ts[0].size as int) != size {
        assert(u.drop_first() =~= ts.drop_first() + more);
        lemma_appending_keeps_found_url(ts.drop_first(), more, size);
    }
}

impl MediaModel {
    /// The url of this item's first thumbnail of the given size.
    pub fn get_thumbnail_url(&self, size: ThumbnailSize) -> (url: Option<String>)
        ensures
            url == first_thumbnail_url(self.thumbnails@, size),
    {
        let ghost ts = self.thumbnails@;
        let mut i: usize = 0;
        assert(ts.subrange(0, ts.len() as int) =~= ts);
        while i < self.thumbnails.len()
            invariant
                i <= ts.len(),
                ts == self.thumbnails@,
                first_thumbnail_url(ts, size) == first_thumbnail_url(
                    ts.subrange(i as int, ts.len() as int),
                    size,
                ),
            decreases ts.len() - i,
        {
            let t = &self.thumbnails[i];
            assert(ts.subrange(i as int, ts.len() as int).drop_first() =~= ts.subrange(
                i + 1,
                ts.len() as int,
            ));
            if t.size() == size {
                return Some(t.url.clone());
            }
            i = i + 1;
        }
        None
    }
}

/// The style class that hides or marks an item of this class.
pub open spec fn class_name_of(c: MediaClass) -> Seq<char> {
    match c {
        MediaClass::Nsfw => "blur"@,
        MediaClass::Secret => "secret"@,
        _ => ""@,
    }
}

/// The name under which a media class is shown.
pub open spec fn class_display_name(c: MediaClass) -> Seq<char> {
    match c {
        MediaClass::Unspecified => "Unkown"@,
        MediaClass::Standard => "Standard"@,
        MediaClass::Nsfw => "NSFW"@,
        MediaClass::Secret => "Secret"@,
    }
}

/// The name under which a media type is shown.
pub open spec fn type_display_name(t: MediaType) -> Seq<char> {
    match t {
        MediaType::Image => "Image"@,
        MediaType::Audio => "Audio"@,
        MediaType::Video => "Video"@,
        MediaType::Text => "Text"@,
        MediaType::Code => "Code"@,
        MediaType::Raw => "Raw"@,
        _ => "Unknown"@,
    }
}

impl MediaClass {
    /// The style class of an item of this class: blurred when NSFW, marked when secret.
    pub fn to_class_name(&self) -> (name: &'static str)
        ensures
            name@ == class_name_of(*self),
    {
        match self {
            MediaClass::Nsfw => "blur",
            MediaClass::Secret => "secret",
            _ => "",
        }
    }

    /// The text that shows this class.
    pub fn to_string(&self) -> (s: String)
        ensures
            s@ == class_display_name(*self),
    {
        match self {
            MediaClass::Unspecified => String::from_str("Unkown"),
            MediaClass::Standard => String::from_str("Standard"),
            MediaClass::Nsfw => String::from_str("NSFW"),
            MediaClass::Secret => String::from_str("Secret"),
        }
    }
}

impl MediaType {
    /// The text that shows this type.
    pub fn to_string(&self) -> (s: String)
        ensures
            s@ == type_display_name(*self),
    {
        match self {
            MediaType::Image => String::from_str("Image"),
            MediaType::Audio => String::from_str("Audio"),
            MediaType::Video => String::from_str("Video"),
            MediaType::Text => String::from_str("Text"),
            MediaType::Code => String::from_str("Code"),
            MediaType::Raw => String::from_str("Raw"),
            _ => String::from_str("Unknown"),
        }
    }
}

impl Dimensions {
    /// The size as `{height}x{width}`.
    pub fn to_string(&self) -> (s: String)
        ensures
            s@ == int_decimal(self.height as int) + "x"@ + int_decimal(self.width as int),
    {
        let mut s = i32_to_decimal(self.height);
        s.append("x");
        let w = i32_to_decimal(self.width);
        s.append(w.as_str());
        s
    }
}

} // verus!
