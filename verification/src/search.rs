//! Ordered search among candidate paths: the first one that exists wins.
//!
//! The search itself never touches the file system. It names the next path to
//! probe and is told the answer, so that nothing behind the first hit is ever
//! probed, and a search that fails can name every path it asked about.

use vstd::prelude::*;

verus! {

/// What the world answers when asked whether candidate `i` exists. A missing
/// answer counts as "no".
pub open spec fn exists_at(world: Seq<bool>, i: int) -> bool {
    0 <= i < world.len() && world[i]
}

/// Candidate `i` exists and none before it does.
pub open spec fn is_first_match(world: Seq<bool>, count: nat, i: int) -> bool {
    &&& 0 <= i < count
    &&& exists_at(world, i)
    &&& forall|j: int| 0 <= j < i ==> !exists_at(world, j)
}

/// None of the first `count` candidates exists.
pub open spec fn none_match(world: Seq<bool>, count: nat) -> bool {
    forall|j: int| 0 <= j < count ==> !exists_at(world, j)
}

/// A search in progress, as values.
pub struct SearchView {
    /// The candidates, in the order in which they are tried.
    pub candidates: Seq<Seq<char>>,
    /// How many candidates were probed and found missing.
    pub cursor: nat,
    /// The candidate that was found to exist.
    pub found: Option<Seq<char>>,
}

impl SearchView {
    /// The search before its first probe.
    pub open spec fn start(candidates: Seq<Seq<char>>) -> SearchView {
        SearchView { candidates, cursor: 0, found: None }
    }

    /// Whether a probe is still owed.
    pub open spec fn pending(self) -> bool {
        self.found is None && self.cursor < self.candidates.len()
    }

    /// The search after the answer to its pending probe. Without a pending
    /// probe an answer changes nothing.
    pub open spec fn answer(self, exists: bool) -> SearchView {
        if !self.pending() {
            self
        } else if exists {
            SearchView { found: Some(self.candidates[self.cursor as int]), ..self }
        } else {
            SearchView { cursor: self.cursor + 1, ..self }
        }
    }

    /// How many probes the search may still ask for.
    pub open spec fn budget(self) -> nat {
        if self.pending() {
            (self.candidates.len() - self.cursor) as nat
        } else {
            0
        }
    }

    /// The search run to its end against a world of answers.
    pub open spec fn drive(self, world: Seq<bool>) -> SearchView
        decreases self.budget(),
    {
        if self.pending() {
            self.answer(exists_at(world, self.cursor as int)).drive(world)
        } else {
            self
        }
    }
}

/// What a search has to say for itself.
#[derive(Debug, PartialEq, Eq)]
pub enum SearchStatus {
    /// This path is to be probed next.
    Probe(String),
    /// This path exists, and no candidate before it does.
    Found(String),
    /// No candidate exists: these were all tried, in this order.
    Missing(Vec<String>),
}

/// The values of a `SearchStatus`.
pub enum SearchStatusView {
    Probe(Seq<char>),
    Found(Seq<char>),
    Missing(Seq<Seq<char>>),
}

impl View for SearchStatus {
    type V = SearchStatusView;

    open spec fn view(&self) -> SearchStatusView {
        match self {
            SearchStatus::Probe(path) => SearchStatusView::Probe(path@),
            SearchStatus::Found(path) => SearchStatusView::Found(path@),
            SearchStatus::Missing(all) => SearchStatusView::Missing(all.deep_view()),
        }
    }
}

impl SearchView {
    /// What the search reports in this state.
    pub open spec fn status(self) -> SearchStatusView {
        match self.found {
            Some(path) => SearchStatusView::Found(path),
            None => if self.cursor < self.candidates.len() {
                SearchStatusView::Probe(self.candidates[self.cursor as int])
            } else {
                SearchStatusView::Missing(self.candidates)
            },
        }
    }
}

/// A search in progress that has found nothing yet, run to its end.
proof fn lemma_drive_from(search: SearchView, world: Seq<bool>)
    requires
        search.found is None,
        search.cursor <= search.candidates.len(),
        none_match(world, search.cursor),
    ensures
        ({
            let end = search.drive(world);
            &&& end.candidates == search.candidates
            &&& !end.pending()
            &&& end.found is Some ==> is_first_match(
                world,
                search.candidates.len(),
                end.cursor as int,
            ) && end.found == Some(search.candidates[end.cursor as int])
            &&& end.found is None ==> none_match(world, search.candidates.len()) && end.cursor
                == search.candidates.len()
        }),
    decreases search.candidates.len() - search.cursor,
{
    if search.pending() {
        let exists = exists_at(world, search.cursor as int);
        let next = search.answer(exists);
        if !exists {
            lemma_drive_from(next, world);
        } else {
            assert(next.drive(world) == next);
        }
    }
}

/// A search run to its end finds the first candidate that exists, having
/// probed nothing behind it; or it finds none, having probed them all.
pub proof fn lemma_drive_finds_first(candidates: Seq<Seq<char>>, world: Seq<bool>)
    ensures
        ({
            let end = SearchView::start(candidates).drive(world);
            &&& end.candidates == candidates
            &&& !end.pending()
            &&& end.found is Some ==> is_first_match(world, candidates.len(), end.cursor as int)
                && end.found == Some(candidates[end.cursor as int])
            &&& end.found is None ==> none_match(world, candidates.len()) && end.cursor
                == candidates.len()
        }),
{
    lemma_drive_from(SearchView::start(candidates), world);
}

/// Copies a list of paths.
pub fn copy_paths(paths: &Vec<String>) -> (copy: Vec<String>)
    ensures
        copy.deep_view() == paths.deep_view(),
{
    let mut copy: Vec<String> = Vec::new();
    let mut i: usize = 0;
    while i < paths.len()
        invariant
            i <= paths.len(),
            copy.len() == i,
            forall|j: int| 0 <= j < i ==> copy[j]@ == paths[j]@,
        decreases paths.len() - i,
    {
        copy.push(paths[i].clone());
        i = i + 1;
    }
    assert(copy.deep_view() =~= paths.deep_view());
    copy
}

/// A lazy search among candidate paths.
pub struct CandidateSearch {
    candidates: Vec<String>,
    cursor: usize,
    found: Option<String>,
}

impl View for CandidateSearch {
    type V = SearchView;

    closed spec fn view(&self) -> SearchView {
        SearchView {
            candidates: self.candidates.deep_view(),
            cursor: self.cursor as nat,
            found: match self.found {
                Some(path) => Some(path@),
                None => None,
            },
        }
    }
}

impl CandidateSearch {
    /// A search that will try the candidates in the given order.
    pub fn new(candidates: Vec<String>) -> (search: CandidateSearch)
        ensures
            search@ == SearchView::start(candidates.deep_view()),
    {
        CandidateSearch { candidates, cursor: 0, found: None }
    }

    /// The next step: the path to probe, or the result.
    pub fn status(&self) -> (status: SearchStatus)
        ensures
            status@ == self@.status(),
    {
        match &self.found {
            Some(path) => SearchStatus::Found(path.clone()),
            None => {
                if self.cursor < self.candidates.len() {
                    SearchStatus::Probe(self.candidates[self.cursor].clone())
                } else {
                    SearchStatus::Missing(copy_paths(&self.candidates))
                }
            },
        }
    }

    /// Takes the answer to the pending probe.
    pub fn report(&mut self, exists: bool)
        ensures
            final(self)@ == old(self)@.answer(exists),
    {
        if self.found.is_none() && self.cursor < self.candidates.len() {
            if exists {
                self.found = Some(self.candidates[self.cursor].clone());
            } else {
                self.cursor = self.cursor + 1;
            }
        }
    }
}

/// Searches the candidates against answers that were collected beforehand,
/// one per candidate and in the same order.
pub fn locate(candidates: Vec<String>, found: &Vec<bool>) -> (res: Result<String, Vec<String>>)
    ensures
        match res {
            Ok(path) => exists|i: int|
                is_first_match(found@, candidates.len() as nat, i) && path@
                    == #[trigger] candidates[i]@,
            Err(checked) => none_match(found@, candidates.len() as nat) && checked.deep_view()
                == candidates.deep_view(),
        },
{
    let mut search = CandidateSearch::new(candidates);
    let ghost start = search@;
    loop
        invariant
            start == SearchView::start(candidates.deep_view()),
            search@.drive(found@) == start.drive(found@),
        decreases search@.budget(),
    {
        match search.status() {
            SearchStatus::Probe(_) => {
                let i: usize = search.cursor;
                let exists = i < found.len() && found[i];
                search.report(exists);
            },
            SearchStatus::Found(path) => {
                proof {
                    lemma_drive_finds_first(candidates.deep_view(), found@);
                    assert(path@ == candidates[search@.cursor as int]@);
                }
                return Ok(path);
            },
            SearchStatus::Missing(checked) => {
                proof {
                    lemma_drive_finds_first(candidates.deep_view(), found@);
                }
                return Err(checked);
            },
        }
    }
}

} // verus!
