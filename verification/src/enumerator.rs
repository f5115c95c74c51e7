//! The enumeration of an account's repositories, page after page.
//!
//! An `Enumerator` is the state between two requests. It says which request
//! comes next, and `advance` turns the answer to that request into the next
//! state or into the end of the enumeration. The caller sends the requests:
//! page `n + 1` is asked for only after page `n` has been answered.

use vstd::prelude::*;
use crate::error::{EnumerationError, EnumerationErrorView};
use crate::record::{collect_refs, extract_refs, text_view, Page, PageView};
use crate::repository::{ref_views, RepositoryRef, RepositoryRefView};
use crate::request::{
    build_headers, build_url, page_request, token_can_be_sent, token_is_sendable, PageRequest,
    PageRequestView,
};
use crate::response::{page_of, read_page, PageResponse, PageResponseView};

verus! {

/// An enumeration in progress: whose repositories, with which token, which
/// page comes next, and the references found on the pages before it.
#[derive(Debug)]
pub struct Enumerator {
    account: String,
    token: Option<String>,
    page: u128,
    refs: Vec<RepositoryRef>,
}

/// What an `Enumerator` holds.
pub struct EnumeratorView {
    pub account: Seq<char>,
    pub token: Option<Seq<char>>,
    pub page: nat,
    pub refs: Seq<RepositoryRefView>,
}

/// Where an enumeration stands after an answer.
#[derive(Debug)]
pub enum Progress {
    /// More pages may follow: send the request of this enumerator.
    Next(Enumerator),
    /// The enumeration is complete, with these references in page order.
    Done(Vec<RepositoryRef>),
    /// The enumeration failed. Nothing found so far is returned.
    Failed(EnumerationError),
}

/// What a `Progress` holds.
pub enum ProgressView {
    Next(EnumeratorView),
    Done(Seq<RepositoryRefView>),
    Failed(EnumerationErrorView),
}

/// The outcome of running an enumeration over a recorded series of answers.
#[derive(Debug)]
pub struct Replay {
    /// Where the enumeration stands after the answers that it consumed.
    pub progress: Progress,
    /// How many answers it consumed, which is how many requests it made.
    pub requests: usize,
}

/// What a `Replay` holds.
pub struct ReplayView {
    pub progress: ProgressView,
    pub requests: nat,
}

/// The answer to one request once it has been read: a page or an error.
pub type PageResult = Result<Page, EnumerationError>;

/// What a `PageResult` holds.
pub type PageResultView = Result<PageView, EnumerationErrorView>;

/// The view of one answer.
pub open spec fn result_view(result: PageResult) -> PageResultView {
    match result {
        Ok(page) => Ok(page@),
        Err(e) => Err(e@),
    }
}

/// The views of `results`, in order.
pub open spec fn result_views(results: Seq<PageResult>) -> Seq<PageResultView> {
    results.map_values(|r: PageResult| result_view(r))
}

/// The view of what a fetch brought back: a response, or the reason why none
/// arrived.
pub open spec fn outcome_view(outcome: Result<PageResponse, String>) -> Result<
    PageResponseView,
    Seq<char>,
> {
    match outcome {
        Ok(response) => Ok(response@),
        Err(reason) => Err(reason@),
    }
}

impl EnumeratorView {
    /// The state before the first request: page 1, nothing found.
    pub open spec fn initial(account: Seq<char>, token: Option<Seq<char>>) -> EnumeratorView {
        EnumeratorView { account, token, page: 1, refs: Seq::empty() }
    }

    /// The request that this state asks for.
    pub open spec fn request(self) -> PageRequestView {
        page_request(self.account, self.page, self.token)
    }

    /// The state after a page that calls for another one: the next page
    /// number, and the page's references after those found before.
    pub open spec fn extended(self, found: Seq<RepositoryRefView>) -> EnumeratorView {
        EnumeratorView { page: self.page + 1, refs: self.refs + found, ..self }
    }

    /// What a page does to the enumeration.
    ///
    /// An incomplete record fails it. A page without records ends it, whether
    /// or not a continuation was signalled. Any other page adds its
    /// references in order; the enumeration goes on where a continuation was
    /// signalled and ends where none was.
    pub open spec fn absorb(self, page: PageView) -> ProgressView {
        match extract_refs(page.records) {
            Err(e) => ProgressView::Failed(e),
            Ok(found) => if found.len() == 0 {
                ProgressView::Done(self.refs)
            } else if page.has_next {
                ProgressView::Next(self.extended(found))
            } else {
                ProgressView::Done(self.refs + found)
            },
        }
    }

    /// What a read answer does to the enumeration: an error fails it, a page
    /// is absorbed.
    pub open spec fn step(self, result: PageResultView) -> ProgressView {
        match result {
            Ok(page) => self.absorb(page),
            Err(e) => ProgressView::Failed(e),
        }
    }

    /// What the outcome of a fetch does to the enumeration: a transport
    /// failure fails it, and a response counts as the page or the error that
    /// it reads as.
    pub open spec fn advance(self, outcome: Result<PageResponseView, Seq<char>>) -> ProgressView {
        match outcome {
            Err(reason) => ProgressView::Failed(EnumerationErrorView::Transport { reason }),
            Ok(response) => self.step(page_of(response)),
        }
    }

    /// The enumeration run over `results`, the answers to its successive
    /// requests: it consumes them in order until one ends it or none is left.
    pub open spec fn run(self, results: Seq<PageResultView>) -> ReplayView
        decreases results.len(),
    {
        if results.len() == 0 {
            ReplayView { progress: ProgressView::Next(self), requests: 0 }
        } else {
            match self.step(results[0]) {
                ProgressView::Next(next) => {
                    let rest = next.run(results.drop_first());
                    ReplayView { progress: rest.progress, requests: rest.requests + 1 }
                },
                ended => ReplayView { progress: ended, requests: 1 },
            }
        }
    }
}

impl View for Enumerator {
    type V = EnumeratorView;

    closed spec fn view(&self) -> EnumeratorView {
        EnumeratorView {
            account: self.account@,
            token: text_view(self.token),
            page: self.page as nat,
            refs: ref_views(self.refs@),
        }
    }
}

impl View for Progress {
    type V = ProgressView;

    open spec fn view(&self) -> ProgressView {
        match *self {
            Progress::Next(enumerator) => ProgressView::Next(enumerator@),
            Progress::Done(refs) => ProgressView::Done(ref_views(refs@)),
            Progress::Failed(e) => ProgressView::Failed(e@),
        }
    }
}

impl View for Replay {
    type V = ReplayView;

    open spec fn view(&self) -> ReplayView {
        ReplayView { progress: self.progress@, requests: self.requests as nat }
    }
}

impl Enumerator {
    /// The token can be sent. Every page before the next one brought at
    /// least one reference, so the page number never runs ahead of what was
    /// found by more than one.
    #[verifier::type_invariant]
    spec fn well_formed(&self) -> bool {
        &&& token_is_sendable(text_view(self.token))
        &&& 1 <= self.page <= self.refs.len() + 1
    }

    /// Starts the enumeration of the repositories of `account`.
    ///
    /// A token that cannot be sent is refused here, before any request.
    pub fn new(account: String, token: Option<String>) -> (r: Result<Enumerator, EnumerationError>)
        ensures
            match r {
                Ok(enumerator) => token_is_sendable(text_view(token)) && enumerator@
                    == EnumeratorView::initial(account@, text_view(token)),
                Err(e) => !token_is_sendable(text_view(token)) && e@
                    == EnumerationErrorView::InvalidToken,
            },
    {
        if !token_can_be_sent(&token) {
            return Err(EnumerationError::InvalidToken);
        }
        let enumerator = Enumerator { account, token, page: 1, refs: Vec::new() };
        assert(ref_views(enumerator.refs@) =~= Seq::empty());
        Ok(enumerator)
    }

    /// The number of the page that comes next, counted from 1.
    pub fn page(&self) -> (page: u128)
        ensures
            page == self@.page,
    {
        self.page
    }

    /// How many references the pages before the next one brought.
    pub fn found(&self) -> (n: usize)
        ensures
            n == self@.refs.len(),
    {
        self.refs.len()
    }

    /// The request to send next. Its token can be sent.
    pub fn request(&self) -> (request: PageRequest)
        ensures
            request@ == self@.request(),
            token_is_sendable(self@.token),
    {
        proof {
            use_type_invariant(self);
        }
        PageRequest {
            url: build_url(self.account.as_str(), self.page),
            headers: build_headers(&self.token),
        }
    }

    /// Takes in the page that answered the request.
    pub fn absorb(self, page: &Page) -> (progress: Progress)
        ensures
            progress@ == self@.absorb(page@),
    {
        proof {
            use_type_invariant(&self);
        }
        match collect_refs(&page.records) {
            Err(e) => Progress::Failed(e),
            Ok(mut found) => {
                let Enumerator { account, token, page: number, mut refs } = self;
                if found.len() == 0 {
                    Progress::Done(refs)
                } else {
                    let ghost before = refs@;
                    let ghost added = found@;
                    refs.append(&mut found);
                    proof {
                        assert(ref_views(refs@) =~= ref_views(before) + ref_views(added));
                    }
                    if page.has_next {
                        Progress::Next(Enumerator { account, token, page: number + 1, refs })
                    } else {
                        Progress::Done(refs)
                    }
                }
            },
        }
    }

    /// Takes in the answer to the request once it has been read.
    pub fn step(self, result: &PageResult) -> (progress: Progress)
        ensures
            progress@ == self@.step(result_view(*result)),
    {
        match result {
            Ok(page) => self.absorb(page),
            Err(e) => Progress::Failed(e.clone()),
        }
    }

    /// Takes in what the fetch of the request brought back: the response, or
    /// the reason why none arrived.
    pub fn advance(self, outcome: Result<PageResponse, String>) -> (progress: Progress)
        ensures
            progress@ == self@.advance(outcome_view(outcome)),
    {
        match outcome {
            Err(reason) => Progress::Failed(EnumerationError::Transport { reason }),
            Ok(response) => {
                let result = read_page(response);
                self.step(&result)
            },
        }
    }

    /// Runs the enumeration over recorded answers, one for each request that
    /// it makes, until one ends it or none is left.
    pub fn replay(self, results: &Vec<PageResult>) -> (replay: Replay)
        ensures
            replay@ == self@.run(result_views(results@)),
    {
        let ghost start = self@;
        let ghost views = result_views(results@);
        let mut current = self;
        let mut i: usize = 0;
        proof {
            assert(views.skip(0) =~= views);
        }
        while i < results.len()
            invariant
                0 <= i <= results.len(),
                start == self@,
                views == result_views(results@),
                start.run(views).progress == current@.run(views.skip(i as int)).progress,
                start.run(views).requests == current@.run(views.skip(i as int)).requests + i,
            decreases results.len() - i,
        {
            let ghost state = current@;
            proof {
                assert(views.skip(i as int).drop_first() =~= views.skip(i + 1));
                assert(views.skip(i as int)[0] == result_view(results@[i as int]));
            }
            match current.step(&results[i]) {
                Progress::Next(next) => {
                    current = next;
                },
                ended => {
                    proof {
                        assert(!(ended@ is Next));
                        assert(state.run(views.skip(i as int)) == (ReplayView {
                            progress: ended@,
                            requests: 1,
                        }));
                    }
                    return Replay { progress: ended, requests: i + 1 };
                },
            }
            i += 1;
        }
        Replay { progress: Progress::Next(current), requests: i }
    }
}

} // verus!
