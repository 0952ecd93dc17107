//! The record of one successful conversion.

use vstd::prelude::*;

verus! {

/// Relies on `chrono::Utc::now` and `DateTime::timestamp` for the wall
/// clock: the seconds since the Unix epoch at the moment of the call.
#[verifier::external_body]
fn current_timestamp() -> i64 {
    chrono::Utc::now().timestamp()
}

/// One converted document: created once per successful conversion and
/// immutable afterwards, identified by the id that also keys its stored
/// artifact and its compiled output.
pub struct Document {
    /// The identifier shared with the uploaded images and the stored artifact.
    pub id: String,
    /// The name of the stored artifact file.
    pub filename: String,
    /// The assembled LaTeX text.
    pub content: String,
    /// Seconds since the Unix epoch at creation.
    pub created_at: i64,
}

impl Document {
    /// Builds the record of a conversion finished now: the artifact's
    /// filename is the identifier with the LaTeX extension, and the
    /// content is the assembled text unchanged.
    pub fn new(id: &String, content: String) -> (document: Document)
        ensures
            document.id@ == id@,
            document.filename@ == id@ + ".tex"@,
            document.content == content,
    {
        Document {
            id: id.clone(),
            filename: id.clone().concat(".tex"),
            content,
            created_at: current_timestamp(),
        }
    }
}

} // verus!
