//! What holds of every enumeration, whatever the platform answers.

use vstd::prelude::*;
use crate::enumerator::{EnumeratorView, PageResultView, ProgressView, ReplayView};
use crate::error::EnumerationErrorView;
use crate::record::{extract_refs, first_incomplete, PageView, RawRecordView};
use crate::repository::RepositoryRefView;
use crate::response::{is_success, PageResponseView};

verus! {

/// The references on a page whose records are all complete.
pub open spec fn page_refs(page: PageView) -> Seq<RepositoryRefView> {
    page.records.map_values(|r: RawRecordView| r.to_ref())
}

/// A page after which the enumeration asks for another: its records are all
/// complete, there is at least one, and a continuation was signalled.
pub open spec fn continues(page: PageView) -> bool {
    &&& first_incomplete(page.records) is None
    &&& page.records.len() > 0
    &&& page.has_next
}

/// A page that completes the enumeration: its records are all complete, and
/// it has no record or signals no continuation.
pub open spec fn completes(page: PageView) -> bool {
    &&& first_incomplete(page.records) is None
    &&& (page.records.len() == 0 || !page.has_next)
}

/// The error that an answer fails the enumeration with, if it does: the
/// error that it is, or the one that names its first incomplete record.
pub open spec fn failure_of(result: PageResultView) -> Option<EnumerationErrorView> {
    match result {
        Err(e) => Some(e),
        Ok(page) => match extract_refs(page.records) {
            Err(e) => Some(e),
            Ok(_) => None,
        },
    }
}

/// The references of `pages`, page after page.
pub open spec fn all_refs(pages: Seq<PageView>) -> Seq<RepositoryRefView>
    decreases pages.len(),
{
    if pages.len() == 0 {
        Seq::empty()
    } else {
        page_refs(pages[0]) + all_refs(pages.drop_first())
    }
}

/// The number of records on `pages`, all together.
pub open spec fn total_records(pages: Seq<PageView>) -> nat
    decreases pages.len(),
{
    if pages.len() == 0 {
        0
    } else {
        pages[0].records.len() + total_records(pages.drop_first())
    }
}

/// The answers that deliver `pages`, one after the other.
pub open spec fn delivered(pages: Seq<PageView>) -> Seq<PageResultView> {
    pages.map_values(|p: PageView| Ok::<PageView, EnumerationErrorView>(p))
}

/// As many references come from a series of pages as the pages have records.
pub proof fn lemma_all_refs_len(pages: Seq<PageView>)
    ensures
        all_refs(pages).len() == total_records(pages),
    decreases pages.len(),
{
    if pages.len() > 0 {
        lemma_all_refs_len(pages.drop_first());
    }
}

/// An account without repositories enumerates to the empty sequence, not to
/// an error: where the first page has no record, the enumeration is done
/// after that one request with nothing found, whether or not the page
/// signalled a continuation and whatever answers might have followed.
pub proof fn lemma_empty_account(
    account: Seq<char>,
    token: Option<Seq<char>>,
    first: PageView,
    rest: Seq<PageResultView>,
)
    requires
        first.records.len() == 0,
    ensures
        EnumeratorView::initial(account, token).run(
            seq![Ok::<PageView, EnumerationErrorView>(first)] + rest,
        ) == (ReplayView { progress: ProgressView::Done(Seq::empty()), requests: 1 }),
{
    let start = EnumeratorView::initial(account, token);
    let results = seq![Ok::<PageView, EnumerationErrorView>(first)] + rest;
    assert(results[0] == Ok::<PageView, EnumerationErrorView>(first));
    assert(extract_refs(first.records) is Ok);
    assert(extract_refs(first.records)->Ok_0.len() == 0);
}

/// An enumeration over pages issues exactly the requests that are needed and
/// returns every reference in page order: where each page but the last
/// continues and the last completes, the run makes one request for each
/// page and is done with what was found before, followed by the references
/// of all the pages, none dropped and none repeated. Answers that might have
/// followed are never asked for.
pub proof fn lemma_run_collects_every_page(
    state: EnumeratorView,
    pages: Seq<PageView>,
    rest: Seq<PageResultView>,
)
    requires
        pages.len() >= 1,
        forall|i: int| 0 <= i < pages.len() - 1 ==> continues(#[trigger] pages[i]),
        completes(pages.last()),
    ensures
        state.run(delivered(pages) + rest) == (ReplayView {
            progress: ProgressView::Done(state.refs + all_refs(pages)),
            requests: pages.len(),
        }),
        all_refs(pages).len() == total_records(pages),
    decreases pages.len(),
{
    lemma_all_refs_len(pages);
    let results = delivered(pages) + rest;
    let first = pages[0];
    let found = page_refs(first);
    assert(results[0] == Ok::<PageView, EnumerationErrorView>(first));
    assert(extract_refs(first.records) == Ok::<Seq<RepositoryRefView>, EnumerationErrorView>(found))
        by {
        if pages.len() > 1 {
            assert(continues(pages[0]));
        }
    }
    if pages.len() == 1 {
        assert(all_refs(pages.drop_first()) =~= Seq::empty());
        assert(state.refs + all_refs(pages) =~= state.refs + found);
        if found.len() == 0 {
            assert(state.refs + found =~= state.refs);
        }
    } else {
        assert(continues(pages[0]));
        let tail = pages.drop_first();
        assert(results.drop_first() =~= delivered(tail) + rest);
        assert forall|i: int| 0 <= i < tail.len() - 1 implies continues(#[trigger] tail[i]) by {
            assert(tail[i] == pages[i + 1]);
        }
        assert(tail.last() == pages.last());
        lemma_run_collects_every_page(state.extended(found), tail, rest);
        assert(state.extended(found).refs + all_refs(tail) =~= state.refs + all_refs(pages));
    }
}

/// An enumeration that fails returns the error and nothing else: where the
/// pages before the failing answer all continue, the run ends at that answer
/// with its error, and none of the references found on the earlier pages is
/// returned.
pub proof fn lemma_failure_discards_earlier_pages(
    state: EnumeratorView,
    pages: Seq<PageView>,
    failing: PageResultView,
    rest: Seq<PageResultView>,
)
    requires
        forall|i: int| 0 <= i < pages.len() ==> continues(#[trigger] pages[i]),
        failure_of(failing) is Some,
    ensures
        state.run(delivered(pages) + seq![failing] + rest) == (ReplayView {
            progress: ProgressView::Failed(failure_of(failing)->0),
            requests: pages.len() + 1,
        }),
    decreases pages.len(),
{
    let results = delivered(pages) + seq![failing] + rest;
    if pages.len() == 0 {
        assert(results[0] == failing);
    } else {
        let first = pages[0];
        let found = page_refs(first);
        assert(continues(pages[0]));
        assert(results[0] == Ok::<PageView, EnumerationErrorView>(first));
        let tail = pages.drop_first();
        assert(results.drop_first() =~= delivered(tail) + seq![failing] + rest);
        assert forall|i: int| 0 <= i < tail.len() implies continues(#[trigger] tail[i]) by {
            assert(tail[i] == pages[i + 1]);
        }
        lemma_failure_discards_earlier_pages(state.extended(found), tail, failing, rest);
    }
}

/// A response with a status outside 200..=299 fails the enumeration with that
/// status and body, whatever state it is in and whatever the body holds.
pub proof fn lemma_error_status_fails(state: EnumeratorView, response: PageResponseView)
    requires
        !is_success(response.status),
    ensures
        state.advance(Ok(response)) == ProgressView::Failed(
            EnumerationErrorView::HttpStatus { status: response.status, body: response.body },
        ),
{
}

} // verus!
