//! Building the per-page conversion request and reading its outcome.
//!
//! One page image and its role hint become one request to the remote
//! multimodal completion service: a role-specific natural-language
//! instruction plus the image, encoded in base64. The transport itself is
//! outside the library; this module pins down what the request holds and
//! how the remote answer's content items yield the page's LaTeX fragment.

use base64::Engine;
use vstd::prelude::*;

use crate::errors::ApiError;
use crate::roles::PageRole;

verus! {

/// The base64 text that the standard padded alphabet assigns to `bytes`.
pub uninterp spec fn base64_of(bytes: Seq<u8>) -> Seq<char>;

/// Relies on `base64::Engine::encode` with the standard padded engine: the
/// result is a function of the input bytes alone, four characters for every
/// started group of three bytes.
#[verifier::external_body]
fn encode_base64(bytes: &Vec<u8>) -> (encoded: String)
    requires
        (bytes@.len() + 2) / 3 * 4 <= usize::MAX,
    ensures
        encoded@ == base64_of(bytes@),
        encoded@.len() == (bytes@.len() + 2) / 3 * 4,
{
    base64::engine::general_purpose::STANDARD.encode(bytes)
}

/// The instruction sent along with a page of the given role.
pub open spec fn prompt_text(role: PageRole) -> Seq<char> {
    match role {
        PageRole::Single => single_page_prompt(),
        PageRole::First => first_page_prompt(),
        PageRole::Middle => middle_page_prompt(),
        PageRole::Last => last_page_prompt(),
    }
}

/// The instruction for the only page of a one-page submission.
pub open spec fn single_page_prompt() -> Seq<char> {
    "Convert this mathematical content to a complete LaTeX document:
                1. Document Structure:
                   - Must start with \\documentclass{article}
                   - Include necessary packages (amsmath, amssymb)
                   - Must have \\begin{document} and \\end{document}
                2. Mathematical Content:
                   - Use align* for equations
                   - Format all special symbols correctly
                   - Preserve spacing and layout
                Do not include ```latex or ``` markers. Return only the raw LaTeX code."@
}

/// The instruction for the first of several pages.
pub open spec fn first_page_prompt() -> Seq<char> {
    "Convert this mathematical content to the start of a LaTeX document:
                1. Document Structure:
                   - Must start with \\documentclass{article}
                   - Include necessary packages
                   - Begin document
                2. Mathematical Content:
                   - Format equations properly
                Do not include \\end{document}.
                Do not include ```latex or ``` markers. Return only the raw LaTeX code."@
}

/// The instruction for an interior page.
pub open spec fn middle_page_prompt() -> Seq<char> {
    "Convert this mathematical content to LaTeX:
                Format all equations and preserve layout.
                Do not include preamble or \\end{document}.
                Do not include ```latex or ``` markers. Return only the raw LaTeX code."@
}

/// The instruction for the last of several pages.
pub open spec fn last_page_prompt() -> Seq<char> {
    "Convert this mathematical content to LaTeX:
                Format all equations and end with \\end{document}.
                Do not include ```latex or ``` markers. Return only the raw LaTeX code."@
}

/// The instruction sent along with a page of the given role.
pub fn prompt_for(role: PageRole) -> (prompt: String)
    ensures
        prompt@ == prompt_text(role),
{
    match role {
        PageRole::Single => String::from_str(
            "Convert this mathematical content to a complete LaTeX document:
                1. Document Structure:
                   - Must start with \\documentclass{article}
                   - Include necessary packages (amsmath, amssymb)
                   - Must have \\begin{document} and \\end{document}
                2. Mathematical Content:
                   - Use align* for equations
                   - Format all special symbols correctly
                   - Preserve spacing and layout
                Do not include ```latex or ``` markers. Return only the raw LaTeX code.",
        ),
        PageRole::First => String::from_str(
            "Convert this mathematical content to the start of a LaTeX document:
                1. Document Structure:
                   - Must start with \\documentclass{article}
                   - Include necessary packages
                   - Begin document
                2. Mathematical Content:
                   - Format equations properly
                Do not include \\end{document}.
                Do not include ```latex or ``` markers. Return only the raw LaTeX code.",
        ),
        PageRole::Middle => String::from_str(
            "Convert this mathematical content to LaTeX:
                Format all equations and preserve layout.
                Do not include preamble or \\end{document}.
                Do not include ```latex or ``` markers. Return only the raw LaTeX code.",
        ),
        PageRole::Last => String::from_str(
            "Convert this mathematical content to LaTeX:
                Format all equations and end with \\end{document}.
                Do not include ```latex or ``` markers. Return only the raw LaTeX code.",
        ),
    }
}

/// Everything one conversion request says: the model addressed, the
/// completion budget, the role-specific instruction, and the page image as
/// declared media type plus base64 data.
pub struct ConversionRequest {
    pub model: String,
    pub max_tokens: u64,
    pub prompt: String,
    pub media_type: String,
    pub image_data: String,
}

impl ConversionRequest {
    /// The request built for one page image under the given role, addressed
    /// to the given model.
    pub open spec fn wf_for(&self, image: Seq<u8>, role: PageRole, model: Seq<char>) -> bool {
        &&& self.model@ == model
        &&& self.max_tokens == 1024u64
        &&& self.prompt@ == prompt_text(role)
        &&& self.media_type@ == "image/png"@
        &&& self.image_data@ == base64_of(image)
    }
}

/// Builds the conversion request for one page image and its role, addressed
/// to the configured model.
pub fn build_request(image: &Vec<u8>, role: PageRole, model: &str) -> (request: ConversionRequest)
    requires
        (image@.len() + 2) / 3 * 4 <= usize::MAX,
    ensures
        request.wf_for(image@, role, model@),
{
    ConversionRequest {
        model: String::from_str(model),
        max_tokens: 1024,
        prompt: prompt_for(role),
        media_type: String::from_str("image/png"),
        image_data: encode_base64(image),
    }
}

/// Extracts the page's LaTeX fragment from the content items of the remote
/// answer: the text of the first item, or a conversion error when the
/// answer holds no content at all.
pub fn first_completion_text(items: &Vec<String>) -> (fragment: Result<String, ApiError>)
    ensures
        fragment is Ok <==> items@.len() > 0,
        fragment is Ok ==> fragment->Ok_0@ == items@[0]@,
        fragment is Err ==> fragment->Err_0 is ClaudeError,
{
    if items.len() == 0 {
        Err(ApiError::ClaudeError(String::from_str("No content in response")))
    } else {
        Ok(items[0].clone())
    }
}

} // verus!
