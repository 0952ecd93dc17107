//! Structural page roles and their assignment.
//!
//! Within one submission every page gets a role that decides which
//! structural LaTeX markers its converted fragment must carry: the one
//! page of a single-page submission opens and closes the document, the
//! first page of a longer submission only opens it, the last page only
//! closes it, and the interior pages do neither. The role is a pure
//! function of the page's index and the page count.

use vstd::prelude::*;

use crate::errors::ApiError;

verus! {

/// The structural position of one page within a submission.
#[derive(Clone, Copy, PartialEq, Eq, Structural, Debug)]
pub enum PageRole {
    /// The only page of a one-page submission; opens and closes the document.
    Single,
    /// The first of several pages; opens the document and must not close it.
    First,
    /// An interior page; neither opens nor closes the document.
    Middle,
    /// The last of several pages; closes the document.
    Last,
}

/// The role of the page at `index` in a submission of `count` pages.
pub open spec fn role_of(index: int, count: int) -> PageRole {
    if count == 1 {
        PageRole::Single
    } else if index == 0 {
        PageRole::First
    } else if index == count - 1 {
        PageRole::Last
    } else {
        PageRole::Middle
    }
}

/// Assigns a role to each of `count` pages, in page order.
///
/// A submission with no pages cannot be classified and is rejected as a
/// validation error; every positive count yields exactly one role per page.
pub fn classify(count: usize) -> (roles: Result<Vec<PageRole>, ApiError>)
    ensures
        roles is Ok <==> count > 0,
        roles is Err ==> roles->Err_0 is ValidationError,
        roles is Ok ==> roles->Ok_0@.len() == count,
        roles is Ok ==> forall|i: int|
            0 <= i < count ==> #[trigger] roles->Ok_0@[i] == role_of(i, count as int),
{
    if count == 0 {
        return Err(ApiError::ValidationError(String::from_str("No pages to classify")));
    }
    let mut assigned: Vec<PageRole> = Vec::new();
    let mut index: usize = 0;
    while index < count
        invariant
            0 < count,
            index <= count,
            assigned@.len() == index,
            forall|j: int| 0 <= j < index ==> assigned@[j] == role_of(j, count as int),
        decreases count - index,
    {
        let role = if count == 1 {
            PageRole::Single
        } else if index == 0 {
            PageRole::First
        } else if index == count - 1 {
            PageRole::Last
        } else {
            PageRole::Middle
        };
        assigned.push(role);
        index = index + 1;
    }
    Ok(assigned)
}

/// Role assignment puts an opening role (`First` or `Single`) exactly at
/// index 0, a closing role (`Last` or `Single`) exactly at the final index,
/// and `Middle` exactly on the interior indices, for every page count of at
/// least one.
pub proof fn lemma_role_assignment(count: int)
    requires
        count >= 1,
    ensures
        forall|i: int|
            0 <= i < count ==> ((#[trigger] role_of(i, count) is First || role_of(i, count)
                is Single) <==> i == 0),
        forall|i: int|
            0 <= i < count ==> ((#[trigger] role_of(i, count) is Last || role_of(i, count)
                is Single) <==> i == count - 1),
        forall|i: int|
            0 <= i < count ==> (#[trigger] role_of(i, count) is Middle <==> 0 < i < count - 1),
{
}

} // verus!
