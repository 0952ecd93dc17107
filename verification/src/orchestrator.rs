//! Sequencing of the two pipeline operations.
//!
//! Convert resolves the uploaded page images of one identifier, has every
//! page converted in order, assembles the fragments, persists the result
//! and reports the document record. Render reads the stored artifact of an
//! identifier and has it compiled; an identifier without a stored artifact
//! is rejected before any compilation is planned. The filesystem listing,
//! the remote calls and the toolchain run happen outside the library; the
//! decisions between them stand here.

use vstd::prelude::*;

use crate::document::Document;
use crate::errors::ApiError;
use crate::store::ArtifactStore;
use crate::text::has_prefix;

verus! {

/// The query parameters of a conversion request.
pub struct ConvertParams {
    /// Whether the identifier names a multi-page submission.
    pub is_multi_page: bool,
}

/// The name under which a single-page submission's image was stored.
pub fn single_page_file_name(id: &str) -> (name: String)
    ensures
        name@ == id@ + ".png"@,
{
    let mut name = String::from_str(id);
    name.append(".png");
    name
}

/// The name of the compiled output for an identifier.
pub fn pdf_file_name(id: &str) -> (name: String)
    ensures
        name@ == id@ + ".pdf"@,
{
    let mut name = String::from_str(id);
    name.append(".pdf");
    name
}

/// The attachment disposition naming the identifier's compiled output.
pub fn attachment_disposition(id: &str) -> (header: String)
    ensures
        header@ == "attachment; filename=\""@ + id@ + ".pdf\""@,
{
    let mut header = String::from_str("attachment; filename=\"");
    header.append(id);
    header.append(".pdf\"");
    proof {
        assert(header@ =~= "attachment; filename=\""@ + id@ + ".pdf\""@);
    }
    header
}

/// The stored page images that belong to a submission: those whose file
/// stem starts with the submission's identifier, in listing order.
pub fn matching_pages(stems: &Vec<String>, id: &str) -> (pages: Vec<String>)
    ensures
        pages@.map_values(|s: String| s@) == stems@.map_values(|s: String| s@).filter(
            |stem: Seq<char>| id@.is_prefix_of(stem),
        ),
{
    let ghost all = stems@.map_values(|s: String| s@);
    let ghost matches = |stem: Seq<char>| id@.is_prefix_of(stem);
    let mut pages: Vec<String> = Vec::new();
    let mut index: usize = 0;
    while index < stems.len()
        invariant
            index <= stems@.len(),
            all == stems@.map_values(|s: String| s@),
            matches == (|stem: Seq<char>| id@.is_prefix_of(stem)),
            pages@.map_values(|s: String| s@) == all.take(index as int).filter(matches),
        decreases stems@.len() - index,
    {
        let ghost before = pages@.map_values(|s: String| s@);
        if has_prefix(stems[index].as_str(), id) {
            pages.push(stems[index].clone());
            proof {
                assert(pages@.map_values(|s: String| s@) =~= before.push(stems@[index as int]@));
            }
        }
        proof {
            reveal(Seq::filter);
            assert(all.take(index as int + 1).drop_last() =~= all.take(index as int));
            assert(all.take(index as int + 1).last() == all[index as int]);
            assert(all.take(index as int + 1).filter(matches) == if matches(all[index as int]) {
                all.take(index as int).filter(matches).push(all[index as int])
            } else {
                all.take(index as int).filter(matches)
            });
            assert(pages@.map_values(|s: String| s@) =~= all.take(index as int + 1).filter(
                matches,
            ));
        }
        index = index + 1;
    }
    proof {
        assert(all.take(index as int) =~= all);
    }
    pages
}

/// Requires a multi-page submission to have at least one stored page:
/// hands the pages through unchanged, and rejects an identifier without
/// any as not found.
pub fn require_pages(pages: Vec<String>) -> (resolved: Result<Vec<String>, ApiError>)
    ensures
        resolved is Ok <==> pages@.len() > 0,
        resolved is Ok ==> resolved->Ok_0 == pages,
        resolved is Err ==> resolved->Err_0 is NotFound,
{
    if pages.len() == 0 {
        Err(ApiError::NotFound(String::from_str("No files found for ID")))
    } else {
        Ok(pages)
    }
}

/// Persists a finished conversion and reports its record: the store ends
/// up holding exactly its old contents with the identifier bound to the
/// assembled text, and the record carries that same text.
pub fn persist_document(store: &mut ArtifactStore, id: &String, content: String) -> (document:
    Document)
    requires
        old(store).wf(),
    ensures
        final(store).wf(),
        final(store).contents() == old(store).contents().insert(id@, content@),
        document.id@ == id@,
        document.filename@ == id@ + ".tex"@,
        document.content@ == content@,
{
    store.put(id, &content);
    Document::new(id, content)
}

/// What a render request does next.
pub enum RenderPlan {
    /// The identifier has a stored artifact: compile this text.
    Compile(String),
    /// The identifier has no stored artifact: answer with this error.
    Reject(ApiError),
}

/// Decides a render request: compilation is planned exactly for an
/// identifier whose artifact the store holds, with the stored text; an
/// unknown identifier is rejected as not found, and no compilation is
/// planned for it.
pub fn plan_render(store: &ArtifactStore, id: &String) -> (plan: RenderPlan)
    requires
        store.wf(),
    ensures
        plan is Compile <==> store.contents().contains_key(id@),
        plan matches RenderPlan::Compile(source) ==> source@ == store.contents()[id@],
        plan matches RenderPlan::Reject(error) ==> error is NotFound,
{
    match store.get(id) {
        Ok(source) => RenderPlan::Compile(source),
        Err(error) => RenderPlan::Reject(error),
    }
}

/// A render request for an identifier without a stored artifact is
/// rejected as not found and plans no compilation.
pub proof fn lemma_render_unknown_id(store: ArtifactStore, id: Seq<char>, plan: RenderPlan)
    requires
        store.wf(),
        !store.contents().contains_key(id),
        plan is Compile ==> store.contents().contains_key(id),
        plan matches RenderPlan::Reject(error) ==> error is NotFound,
    ensures
        plan matches RenderPlan::Reject(error) && error is NotFound,
{
}

} // verus!
