//! The media detail page.
use crate::rpc::aoba::MediaType;
use vstd::prelude::*;

verus! {

/// The converted formats offered for download beside the uploaded file: images only.
pub fn extra_download_formats(media_type: MediaType) -> (formats: Vec<&'static str>)
    ensures
        media_type == MediaType::Image ==> formats@.len() == 3 && formats@[0]@ == "Webp"@
            && formats@[1]@ == "Avif"@ && formats@[2]@ == "Png"@,
        media_type != MediaType::Image ==> formats@.len() == 0,
{
    let mut formats: Vec<&'static str> = Vec::new();
    if media_type == MediaType::Image {
        formats.push("Webp");
        formats.push("Avif");
        formats.push("Png");
    }
    formats
}

} // verus!
