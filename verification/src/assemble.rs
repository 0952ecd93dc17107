//! Stitching converted page fragments into one LaTeX document.
//!
//! The assembled document is the ordered concatenation of the per-page
//! fragments with one page-break marker between any two consecutive
//! fragments and never before the first. Assembly inserts nothing but
//! these separators: the structural markers of the document (its preamble
//! and its closing) are owed by the fragments themselves, under the role
//! contract of the converter.

use vstd::prelude::*;

verus! {

/// The separator inserted between two consecutive page fragments.
pub open spec fn page_break_marker() -> Seq<char> {
    "\\newpage\n"@
}

/// The document text assembled from `fragments`, in order: the fragments
/// themselves with one page-break marker between each consecutive pair.
pub open spec fn assembled(fragments: Seq<Seq<char>>) -> Seq<char>
    decreases fragments.len(),
{
    if fragments.len() == 0 {
        Seq::<char>::empty()
    } else if fragments.len() == 1 {
        fragments[0]
    } else {
        assembled(fragments.drop_last()) + page_break_marker() + fragments.last()
    }
}

/// An in-progress assembly of one document from a fixed number of pages.
///
/// Fragments arrive strictly in page order, one conversion at a time; the
/// accumulated text is always exactly the assembly of the fragments pushed
/// so far.
pub struct Assembly {
    text: String,
    pushed: usize,
    total: usize,
    fragments: Ghost<Seq<Seq<char>>>,
}

impl Assembly {
    /// The fragments pushed so far, in page order.
    pub closed spec fn fragments(&self) -> Seq<Seq<char>> {
        self.fragments@
    }

    /// The number of pages this assembly was opened for.
    pub closed spec fn total_pages(&self) -> int {
        self.total as int
    }

    /// The accumulated document text.
    pub closed spec fn text_view(&self) -> Seq<char> {
        self.text@
    }

    /// The assembly's invariant: the text is exactly the assembly of the
    /// fragments pushed so far, and no more pages were pushed than opened for.
    pub closed spec fn wf(&self) -> bool {
        &&& self.pushed == self.fragments@.len()
        &&& self.pushed <= self.total
        &&& self.text@ == assembled(self.fragments@)
    }

    /// Opens an assembly for a submission of `total` pages.
    pub fn new(total: usize) -> (assembly: Assembly)
        requires
            total >= 1,
        ensures
            assembly.wf(),
            assembly.fragments() == Seq::<Seq<char>>::empty(),
            assembly.total_pages() == total,
    {
        Assembly { text: String::new(), pushed: 0, total, fragments: Ghost(Seq::empty()) }
    }

    /// How many fragments have been pushed so far.
    pub fn pushed_count(&self) -> (count: usize)
        requires
            self.wf(),
        ensures
            count == self.fragments().len(),
            count <= self.total_pages(),
    {
        self.pushed
    }

    /// Appends the next page's fragment, preceded by a page-break marker
    /// exactly when it is not the first page.
    pub fn push_fragment(&mut self, fragment: &str)
        requires
            old(self).wf(),
            old(self).fragments().len() < old(self).total_pages(),
        ensures
            final(self).wf(),
            final(self).fragments() == old(self).fragments().push(fragment@),
            final(self).total_pages() == old(self).total_pages(),
    {
        let ghost previous = self.fragments@;
        if self.pushed > 0 {
            self.text.append("\\newpage\n");
        }
        self.text.append(fragment);
        self.pushed = self.pushed + 1;
        proof {
            self.fragments@ = previous.push(fragment@);
            assert(self.fragments@.drop_last() =~= previous);
            assert(self.fragments@.last() == fragment@);
            assert(self.text@ =~= assembled(self.fragments@));
        }
    }

    /// Closes the assembly and yields the document text, once every page's
    /// fragment has arrived.
    pub fn into_text(self) -> (text: String)
        requires
            self.wf(),
            self.fragments().len() == self.total_pages(),
        ensures
            text@ == assembled(self.fragments()),
    {
        self.text
    }
}

/// Assembles a complete document from the already-converted fragments of
/// all pages, in page order.
pub fn join_pages(fragments: &Vec<String>) -> (text: String)
    requires
        fragments@.len() >= 1,
    ensures
        text@ == assembled(fragments@.map_values(|f: String| f@)),
{
    let ghost goal = fragments@.map_values(|f: String| f@);
    let total = fragments.len();
    let mut assembly = Assembly::new(total);
    let mut index: usize = 0;
    while index < total
        invariant
            total == fragments@.len(),
            index <= total,
            assembly.wf(),
            assembly.total_pages() == total,
            assembly.fragments() =~= goal.take(index as int),
            goal == fragments@.map_values(|f: String| f@),
        decreases total - index,
    {
        assembly.push_fragment(fragments[index].as_str());
        proof {
            assert(assembly.fragments() =~= goal.take(index as int + 1));
        }
        index = index + 1;
    }
    proof {
        assert(assembly.fragments() =~= goal);
    }
    assembly.into_text()
}

/// A one-page assembly is the single fragment itself: no page-break marker
/// is inserted.
pub proof fn lemma_single_page_assembly(fragment: Seq<char>)
    ensures
        assembled(seq![fragment]) == fragment,
{
}

/// A three-page assembly is the three fragments in page order with exactly
/// two page-break markers, one between each consecutive pair.
pub proof fn lemma_three_page_assembly(first: Seq<char>, second: Seq<char>, third: Seq<char>)
    ensures
        assembled(seq![first, second, third]) == first + page_break_marker() + second
            + page_break_marker() + third,
{
    let pages = seq![first, second, third];
    assert(pages.drop_last() =~= seq![first, second]);
    assert(pages.drop_last().drop_last() =~= seq![first]);
    assert(assembled(seq![first]) == first);
    assert(assembled(seq![first, second]) == first + page_break_marker() + second);
    assert(assembled(pages) == (first + page_break_marker() + second) + page_break_marker()
        + third);
    assert((first + page_break_marker() + second) + page_break_marker() + third =~= first
        + page_break_marker() + second + page_break_marker() + third);
}

} // verus!
