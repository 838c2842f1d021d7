use vstd::prelude::*;

pub mod post;
pub mod scraped_post;
pub mod user;

verus! {

/// A file update as part of a bulk file update.
#[derive(Clone, Debug)]
pub struct FileUpdate {
    /// The file id
    pub id: String,
    /// The file description.
    ///
    /// The service rejects an empty description here.
    pub description: String,
}

/// The response for when the api completed something
#[derive(Clone, Debug)]
pub struct ApiCompletedResponse {
    /// Whether the operation was successful.
    pub success: bool,
    /// The operation message response.
    pub message: Option<String>,
}

/// The boolean a wire text denotes: exactly "true" and "false" denote one.
pub open spec fn bool_str_value(s: Seq<char>) -> Option<bool> {
    if s == "true"@ {
        Some(true)
    } else if s == "false"@ {
        Some(false)
    } else {
        None
    }
}

/// Parse the wire form of a boolean, as the completed-response envelope
/// carries it: exactly "true" and "false" are accepted.
pub fn parse_bool_str(s: &str) -> (r: Option<bool>)
    ensures
        r == bool_str_value(s@),
{
    if crate::strings::str_eq(s, "true") {
        Some(true)
    } else if crate::strings::str_eq(s, "false") {
        Some(false)
    } else {
        None
    }
}

} // verus!
