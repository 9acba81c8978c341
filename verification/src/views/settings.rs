//! The settings page: the ShareX configuration text.
use crate::rpc::aoba::DstResult;
use vstd::prelude::*;

verus! {

/// The text that the ShareX box shows for the server's answer, or for a failed call with its
/// status message.
pub fn share_x_text(reply: Result<Option<DstResult>, String>) -> (text: String)
    ensures
        match reply {
            Ok(Some(DstResult::Destination(json))) => text == json,
            Ok(Some(DstResult::Error(err))) => text == err,
            Ok(None) => text@ == "No Result"@,
            Err(status) => text@ == "Failed to load config: "@ + status@,
        },
{
    match reply {
        Ok(Some(DstResult::Destination(json))) => json,
        Ok(Some(DstResult::Error(err))) => err,
        Ok(None) => String::from_str("No Result"),
        Err(status) => {
            let mut text = String::from_str("Failed to load config: ");
            text.append(status.as_str());
            text
        },
    }
}

/// The text that the ShareX box shows while the answer is on its way.
pub fn share_x_loading() -> (text: String)
    ensures
        text@ == "Loading..."@,
{
    String::from_str("Loading...")
}

} // verus!
