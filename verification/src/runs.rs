//! Scan runs, the filter that narrows their list, and how a live push refreshes it.

use crate::foreign;
use crate::provider;
use crate::query::{ConsoleQuery, QueryView};
use crate::rows;
use crate::stages;
use crate::text;
use crate::window::Window;
use crate::wording::{ArgView, Label, LabelView, Phrase, PhraseView};
use vstd::prelude::*;

verus! {

broadcast use vstd::string::group_string_axioms;

/// The states of a run.
#[derive(Debug, Clone, Copy, PartialEq, Eq, Structural)]
pub enum RunState {
    Queued,
    Running,
    Completed,
    Failed,
    Cancelled,
}

/// The run states that the filter offers, paired with the token that each sends.
pub const STATE_FILTERS: [(&'static str, RunState); 5] = [
    ("queued", RunState::Queued),
    ("running", RunState::Running),
    ("completed", RunState::Completed),
    ("failed", RunState::Failed),
    ("cancelled", RunState::Cancelled),
];

impl RunState {
    /// The token that a run state travels by.
    pub open spec fn token_text(self) -> Seq<char> {
        match self {
            RunState::Queued => "queued"@,
            RunState::Running => "running"@,
            RunState::Completed => "completed"@,
            RunState::Failed => "failed"@,
            RunState::Cancelled => "cancelled"@,
        }
    }

    /// What a token names.
    pub open spec fn named_by(token: Seq<char>) -> Option<RunState> {
        if token == "queued"@ {
            Some(RunState::Queued)
        } else if token == "running"@ {
            Some(RunState::Running)
        } else if token == "completed"@ {
            Some(RunState::Completed)
        } else if token == "failed"@ {
            Some(RunState::Failed)
        } else if token == "cancelled"@ {
            Some(RunState::Cancelled)
        } else {
            None
        }
    }

    /// The token that a run state travels by.
    pub fn token(self) -> (r: &'static str)
        ensures
            r@ == self.token_text(),
    {
        match self {
            RunState::Queued => "queued",
            RunState::Running => "running",
            RunState::Completed => "completed",
            RunState::Failed => "failed",
            RunState::Cancelled => "cancelled",
        }
    }

    /// Reads a token.
    pub fn parse(token: &str) -> (r: Option<RunState>)
        ensures
            r == RunState::named_by(token@),
    {
        if text::same(token, "queued") {
            Some(RunState::Queued)
        } else if text::same(token, "running") {
            Some(RunState::Running)
        } else if text::same(token, "completed") {
            Some(RunState::Completed)
        } else if text::same(token, "failed") {
            Some(RunState::Failed)
        } else if text::same(token, "cancelled") {
            Some(RunState::Cancelled)
        } else {
            None
        }
    }

    /// Each reads back from its token.
    pub proof fn token_reads_back(self)
        ensures
            RunState::named_by(self.token_text()) == Some(self),
    {
        reveal_strlit("queued");
        reveal_strlit("running");
        reveal_strlit("completed");
        reveal_strlit("failed");
        reveal_strlit("cancelled");
        assert("queued"@.len() == 6);
        assert("queued"@[0] == 'q');
        assert("running"@.len() == 7);
        assert("completed"@.len() == 9);
        assert("completed"@[1] == 'o');
        assert("failed"@.len() == 6);
        assert("failed"@[0] == 'f');
        assert("cancelled"@.len() == 9);
        assert("cancelled"@[1] == 'a');
    }

    /// The filter offers every state by its token.
    pub proof fn is_offered(self)
        ensures
            exists|i: int|
                0 <= i < STATE_FILTERS@.len() && (#[trigger] STATE_FILTERS@[i]).1 == self
                    && STATE_FILTERS@[i].0@ == self.token_text(),
    {
        match self {
            RunState::Queued => assert(STATE_FILTERS@[0].1 == self),
            RunState::Running => assert(STATE_FILTERS@[1].1 == self),
            RunState::Completed => assert(STATE_FILTERS@[2].1 == self),
            RunState::Failed => assert(STATE_FILTERS@[3].1 == self),
            RunState::Cancelled => assert(STATE_FILTERS@[4].1 == self),
        }
    }

    /// The class of the pill that shows a run state.
    pub open spec fn pill(self) -> Seq<char> {
        match self {
            RunState::Completed => "ik-pill jade"@,
            RunState::Running => "ik-pill run"@,
            RunState::Queued | RunState::Cancelled => "ik-pill"@,
            RunState::Failed => "ik-pill vermilion"@,
        }
    }

    /// Whether a run in this state is in flight.
    pub open spec fn in_flight(self) -> bool {
        self == RunState::Running || self == RunState::Queued
    }
}

/// The run state that a `?status=` token names.
pub fn parse_state(token: &str) -> (r: Option<RunState>)
    ensures
        r == RunState::named_by(token@),
{
    RunState::parse(token)
}

/// The class of the pill that shows a run state.
pub fn run_state_pill(state: RunState) -> (r: &'static str)
    ensures
        r@ == state.pill(),
{
    match state {
        RunState::Completed => "ik-pill jade",
        RunState::Running => "ik-pill run",
        RunState::Queued | RunState::Cancelled => "ik-pill",
        RunState::Failed => "ik-pill vermilion",
    }
}

/// How deep a scan reads.
#[derive(Debug, Clone, Copy, PartialEq, Eq, Structural)]
pub enum ScanMode {
    Fast,
    Full,
}

impl ScanMode {
    pub const ALL: [ScanMode; 2] = [ScanMode::Fast, ScanMode::Full];

    /// The token that a scan mode travels by.
    pub open spec fn token_text(self) -> Seq<char> {
        match self {
            ScanMode::Fast => "fast"@,
            ScanMode::Full => "full"@,
        }
    }

    /// What a token names.
    pub open spec fn named_by(token: Seq<char>) -> Option<ScanMode> {
        if token == "fast"@ {
            Some(ScanMode::Fast)
        } else if token == "full"@ {
            Some(ScanMode::Full)
        } else {
            None
        }
    }

    /// The token that a scan mode travels by.
    pub fn token(self) -> (r: &'static str)
        ensures
            r@ == self.token_text(),
    {
        match self {
            ScanMode::Fast => "fast",
            ScanMode::Full => "full",
        }
    }

    /// Reads a token.
    pub fn parse(token: &str) -> (r: Option<ScanMode>)
        ensures
            r == ScanMode::named_by(token@),
    {
        if text::same(token, "fast") {
            Some(ScanMode::Fast)
        } else if text::same(token, "full") {
            Some(ScanMode::Full)
        } else {
            None
        }
    }

    /// Each reads back from its token.
    pub proof fn token_reads_back(self)
        ensures
            ScanMode::named_by(self.token_text()) == Some(self),
    {
        reveal_strlit("fast");
        reveal_strlit("full");
        assert("fast"@[1] == 'a');
        assert("full"@[1] == 'u');
    }

    /// The catalogue key that words a mode.
    pub fn label_key(self) -> (r: &'static str)
        ensures
            r@ == (match self {
                ScanMode::Fast => "console.scans.modeFast"@,
                ScanMode::Full => "console.scans.modeFull"@,
            }),
    {
        match self {
            ScanMode::Fast => "console.scans.modeFast",
            ScanMode::Full => "console.scans.modeFull",
        }
    }
}

/// The order of the run list.
#[derive(Debug, Clone, Copy, PartialEq, Eq, Structural)]
pub enum RunSort {
    Recent,
    Failures,
}

impl RunSort {
    pub const ALL: [RunSort; 2] = [RunSort::Recent, RunSort::Failures];

    /// The token that an ordering travels by.
    pub open spec fn token_text(self) -> Seq<char> {
        match self {
            RunSort::Recent => "recent"@,
            RunSort::Failures => "failures"@,
        }
    }

    /// What a token names; any other text is the default.
    pub open spec fn named_by(token: Seq<char>) -> RunSort {
        if token == "failures"@ {
            RunSort::Failures
        } else {
            RunSort::Recent
        }
    }

    /// The token that an ordering travels by.
    pub fn token(self) -> (r: &'static str)
        ensures
            r@ == self.token_text(),
    {
        match self {
            RunSort::Recent => "recent",
            RunSort::Failures => "failures",
        }
    }

    /// Reads a token; any other text is the default.
    pub fn parse(token: &str) -> (r: RunSort)
        ensures
            r == RunSort::named_by(token@),
    {
        if text::same(token, "failures") {
            RunSort::Failures
        } else {
            RunSort::Recent
        }
    }

    /// Each reads back from its token.
    pub proof fn token_reads_back(self)
        ensures
            RunSort::named_by(self.token_text()) == self,
    {
        reveal_strlit("recent");
        reveal_strlit("failures");
        assert("recent"@.len() == 6);
        assert("failures"@.len() == 8);
    }

    /// The catalogue key that words an ordering.
    pub fn label_key(self) -> (r: &'static str)
        ensures
            r@ == (match self {
                RunSort::Recent => "console.scan.sort.recent"@,
                RunSort::Failures => "console.scan.sort.failures"@,
            }),
    {
        match self {
            RunSort::Recent => "console.scan.sort.recent",
            RunSort::Failures => "console.scan.sort.failures",
        }
    }
}

/// A scan run.
#[derive(Debug, PartialEq, Eq)]
pub struct ScanRun {
    pub id: u128,
    pub provider_id: Option<u128>,
    pub provider_slug: Option<String>,
    pub mode: ScanMode,
    pub state: RunState,
    pub total_tasks: i32,
    pub done_tasks: i32,
    pub failed_tasks: i32,
    pub started_at: Option<String>,
    pub finished_at: Option<String>,
    pub created_at: String,
}

/// A scan run as its characters and numbers.
#[verifier::ext_equal]
pub struct RunView {
    pub id: u128,
    pub provider_id: Option<u128>,
    pub provider_slug: Option<Seq<char>>,
    pub mode: ScanMode,
    pub state: RunState,
    pub total_tasks: i32,
    pub done_tasks: i32,
    pub failed_tasks: i32,
    pub started_at: Option<Seq<char>>,
    pub finished_at: Option<Seq<char>>,
    pub created_at: Seq<char>,
}

impl View for ScanRun {
    type V = RunView;

    open spec fn view(&self) -> RunView {
        RunView {
            id: self.id,
            provider_id: self.provider_id,
            provider_slug: text::view_of(self.provider_slug),
            mode: self.mode,
            state: self.state,
            total_tasks: self.total_tasks,
            done_tasks: self.done_tasks,
            failed_tasks: self.failed_tasks,
            started_at: text::view_of(self.started_at),
            finished_at: text::view_of(self.finished_at),
            created_at: self.created_at@,
        }
    }
}

impl Clone for ScanRun {
    fn clone(&self) -> (r: Self)
        ensures
            r@ == self@,
    {
        ScanRun {
            id: self.id,
            provider_id: self.provider_id,
            provider_slug: text::copied(&self.provider_slug),
            mode: self.mode,
            state: self.state,
            total_tasks: self.total_tasks,
            done_tasks: self.done_tasks,
            failed_tasks: self.failed_tasks,
            started_at: text::copied(&self.started_at),
            finished_at: text::copied(&self.finished_at),
            created_at: self.created_at.clone(),
        }
    }
}

/// Some runs as their characters and numbers.
pub open spec fn views(runs: Seq<ScanRun>) -> Seq<RunView> {
    Seq::new(runs.len(), |i: int| runs[i]@)
}

/// The filter as every fetch of the panel reads it.
#[derive(Debug, PartialEq, Eq)]
pub struct ScanFilter {
    pub provider: Option<String>,
    pub status: Option<String>,
    pub mode: Option<String>,
    pub sort: String,
    pub cleared: bool,
    pub since: Window,
}

/// The filter as its characters.
#[verifier::ext_equal]
pub struct FilterView {
    pub provider: Option<Seq<char>>,
    pub status: Option<Seq<char>>,
    pub mode: Option<Seq<char>>,
    pub sort: Seq<char>,
    pub cleared: bool,
    pub since: Window,
}

impl View for ScanFilter {
    type V = FilterView;

    open spec fn view(&self) -> FilterView {
        FilterView {
            provider: text::view_of(self.provider),
            status: text::view_of(self.status),
            mode: text::view_of(self.mode),
            sort: self.sort@,
            cleared: self.cleared,
            since: self.since,
        }
    }
}

impl FilterView {
    /// The filter that a view state names: a blank provider filters nothing.
    pub open spec fn of(q: QueryView) -> FilterView {
        FilterView {
            provider: match q.provider {
                Some(slug) => if text::trimmed(slug).len() == 0 {
                    None
                } else {
                    Some(text::trimmed(slug))
                },
                None => None,
            },
            status: q.status,
            mode: q.mode,
            sort: match q.sort {
                Some(sort) => sort,
                None => "recent"@,
            },
            cleared: q.cleared,
            since: q.since,
        }
    }

    /// The run state that the filter names.
    pub open spec fn state(self) -> Option<RunState> {
        match self.status {
            Some(token) => RunState::named_by(token),
            None => None,
        }
    }

    /// The scan mode that the filter names.
    pub open spec fn scan_mode(self) -> Option<ScanMode> {
        match self.mode {
            Some(token) => ScanMode::named_by(token),
            None => None,
        }
    }

    /// Whether anything narrows the run list.
    pub open spec fn narrows(self) -> bool {
        ||| self.provider is Some
        ||| self.state() is Some
        ||| self.scan_mode() is Some
        ||| self.since != Window::Any
        ||| RunSort::named_by(self.sort) != RunSort::Recent
    }
}

impl ScanFilter {
    /// The filter that a view state names.
    pub fn of(query: &ConsoleQuery) -> (r: ScanFilter)
        ensures
            r@ == FilterView::of(query@),
    {
        let provider = match &query.provider {
            Some(slug) => {
                let slug = text::trim(slug.as_str());
                if slug.as_str().is_empty() {
                    None
                } else {
                    Some(slug)
                }
            },
            None => None,
        };
        ScanFilter {
            provider,
            status: text::copied(&query.status),
            mode: text::copied(&query.mode),
            sort: match &query.sort {
                Some(sort) => sort.clone(),
                None => RunSort::Recent.token().to_owned(),
            },
            cleared: query.cleared,
            since: query.since,
        }
    }

    /// The run state that the filter names.
    pub fn run_state(&self) -> (r: Option<RunState>)
        ensures
            r == self@.state(),
    {
        match &self.status {
            Some(token) => parse_state(token.as_str()),
            None => None,
        }
    }

    /// The scan mode that the filter names.
    pub fn scan_mode(&self) -> (r: Option<ScanMode>)
        ensures
            r == self@.scan_mode(),
    {
        match &self.mode {
            Some(token) => ScanMode::parse(token.as_str()),
            None => None,
        }
    }

    /// The order that the filter names.
    pub fn ordering(&self) -> (r: RunSort)
        ensures
            r == RunSort::named_by(self@.sort),
    {
        RunSort::parse(self.sort.as_str())
    }

    /// Whether anything narrows the run list: a control that did not register here
    /// would silently lose to the live push.
    pub fn narrows_runs(&self) -> (r: bool)
        ensures
            r == self@.narrows(),
    {
        self.provider.is_some() || self.run_state().is_some() || self.scan_mode().is_some()
            || self.since != Window::Any || self.ordering() != RunSort::Recent
    }

    /// Whether the filter bar offers to reset: something narrows a list or widens
    /// the failures.
    pub fn is_active(&self) -> (r: bool)
        ensures
            r == (self@.narrows() || self@.cleared),
    {
        self.narrows_runs() || self.cleared
    }
}

/// The default view narrows nothing, and each control on its own does.
pub proof fn every_control_narrows(q: QueryView)
    ensures
        !FilterView::of(QueryView::initial()).narrows(),
        q.provider is Some && text::trimmed(q.provider->0).len() > 0 ==> FilterView::of(
            q,
        ).narrows(),
        q.status is Some && RunState::named_by(q.status->0) is Some ==> FilterView::of(q).narrows(),
        q.mode is Some && ScanMode::named_by(q.mode->0) is Some ==> FilterView::of(q).narrows(),
        q.sort is Some && RunSort::named_by(q.sort->0) != RunSort::Recent ==> FilterView::of(
            q,
        ).narrows(),
        q.since != Window::Any ==> FilterView::of(q).narrows(),
{
    RunSort::Recent.token_reads_back();
}

/// A token that names nothing opens the panel unfiltered rather than breaking it.
pub proof fn unknown_tokens_fall_back(q: QueryView)
    requires
        q.status is Some ==> RunState::named_by(q.status->0) is None,
        q.mode is Some ==> ScanMode::named_by(q.mode->0) is None,
        q.sort is Some ==> q.sort->0 != RunSort::Failures.token_text(),
    ensures
        FilterView::of(q).state() is None,
        FilterView::of(q).scan_mode() is None,
        RunSort::named_by(FilterView::of(q).sort) == RunSort::Recent,
{
    RunSort::Recent.token_reads_back();
}

/// A row as the push last saw it, or as it was fetched where the push has not.
pub open spec fn freshest(row: RunView, pushed: Seq<RunView>) -> RunView {
    let at = rows::first(pushed.len(), |i: int| pushed[i].id == row.id);
    if at < pushed.len() {
        pushed[at]
    } else {
        row
    }
}

/// The run list: the fetch alone before a push has landed, the push whole where
/// nothing narrows the list, and otherwise the fetched rows, each as the push last
/// saw it.
pub open spec fn merged(
    fetched: Seq<RunView>,
    pushed: Option<Seq<RunView>>,
    filtered: bool,
) -> Seq<RunView> {
    match pushed {
        None => fetched,
        Some(pushed) => if filtered {
            Seq::new(fetched.len(), |i: int| freshest(fetched[i], pushed))
        } else {
            pushed
        },
    }
}

fn copies(runs: &[ScanRun]) -> (r: Vec<ScanRun>)
    ensures
        views(r@) == views(runs@),
{
    let mut out: Vec<ScanRun> = Vec::new();
    let mut i: usize = 0;
    while i < runs.len()
        invariant
            i <= runs.len(),
            out@.len() == i,
            forall|j: int| 0 <= j < i ==> (#[trigger] out@[j])@ == runs@[j]@,
        decreases runs.len() - i,
    {
        out.push(runs[i].clone());
        i = i + 1;
    }
    assert(views(out@) =~= views(runs@));
    out
}

fn freshened(row: &ScanRun, pushed: &[ScanRun]) -> (r: ScanRun)
    ensures
        r@ == freshest(row@, views(pushed@)),
{
    let ghost all = views(pushed@);
    let ghost test = |i: int| all[i].id == row@.id;
    let mut i: usize = 0;
    while i < pushed.len()
        invariant
            i <= pushed.len(),
            all == views(pushed@),
            test == (|i: int| all[i].id == row@.id),
            forall|j: int| 0 <= j < i ==> !#[trigger] test(j),
        decreases pushed.len() - i,
    {
        assert(all[i as int] == pushed@[i as int]@);
        if pushed[i].id == row.id {
            assert(test(i as int));
            proof {
                rows::lemma_first(all.len(), test, i as int);
            }
            return pushed[i].clone();
        }
        assert(!test(i as int));
        i = i + 1;
    }
    proof {
        rows::lemma_first(all.len(), test, all.len() as int);
    }
    row.clone()
}

/// Reconciles the fetched page with the live push.
///
/// The push carries the newest runs whatever the filter says, which is the right
/// answer only when nothing narrows the list. Under any filter the fetch decides
/// which rows there are, and the push only refreshes their counters.
pub fn merge_runs(fetched: &[ScanRun], pushed: Option<&Vec<ScanRun>>, filtered: bool) -> (r: Vec<
    ScanRun,
>)
    ensures
        views(r@) == merged(
            views(fetched@),
            match pushed {
                Some(pushed) => Some(views(pushed@)),
                None => None,
            },
            filtered,
        ),
{
    let pushed = match pushed {
        Some(pushed) => pushed,
        None => return copies(fetched),
    };
    if !filtered {
        return copies(pushed.as_slice());
    }
    let ghost all = views(fetched@);
    let ghost fresh = views(pushed@);
    let mut out: Vec<ScanRun> = Vec::new();
    let mut i: usize = 0;
    while i < fetched.len()
        invariant
            i <= fetched.len(),
            out@.len() == i,
            all == views(fetched@),
            fresh == views(pushed@),
            forall|j: int| 0 <= j < i ==> (#[trigger] out@[j])@ == freshest(all[j], fresh),
        decreases fetched.len() - i,
    {
        assert(all[i as int] == fetched@[i as int]@);
        out.push(freshened(&fetched[i], pushed.as_slice()));
        i = i + 1;
    }
    assert(views(out@) =~= merged(all, Some(fresh), true));
    out
}

/// A filtered list shows exactly the runs that the fetch returned, in its order,
/// whatever has been pushed.
pub proof fn filtered_list_shows_only_what_was_fetched(
    fetched: Seq<RunView>,
    pushed: Option<Seq<RunView>>,
)
    ensures
        merged(fetched, pushed, true).len() == fetched.len(),
        forall|i: int|
            0 <= i < fetched.len() ==> (#[trigger] merged(fetched, pushed, true)[i]).id
                == fetched[i].id,
{
    if pushed is Some {
        assert forall|i: int| 0 <= i < fetched.len() implies (#[trigger] merged(
            fetched,
            pushed,
            true,
        )[i]).id == fetched[i].id by {
            lemma_freshest(fetched[i], pushed->0);
        }
    }
}

proof fn lemma_freshest(row: RunView, pushed: Seq<RunView>)
    ensures
        freshest(row, pushed).id == row.id,
        freshest(row, pushed) == row || pushed.contains(freshest(row, pushed)),
        (exists|i: int| 0 <= i < pushed.len() && (#[trigger] pushed[i]).id == row.id)
            ==> pushed.contains(freshest(row, pushed)),
{
    let test = |i: int| pushed[i].id == row.id;
    rows::lemma_first_holds(pushed.len(), test);
    if exists|i: int| 0 <= i < pushed.len() && (#[trigger] pushed[i]).id == row.id {
        let i = choose|i: int| 0 <= i < pushed.len() && (#[trigger] pushed[i]).id == row.id;
        assert(test(i));
    }
}

/// A row of a filtered list takes the pushed counters where the push holds its run.
pub proof fn pushed_rows_are_fresh(fetched: Seq<RunView>, pushed: Seq<RunView>, i: int)
    requires
        0 <= i < fetched.len(),
        exists|k: int| 0 <= k < pushed.len() && (#[trigger] pushed[k]).id == fetched[i].id,
    ensures
        pushed.contains(merged(fetched, Some(pushed), true)[i]),
{
    lemma_freshest(fetched[i], pushed);
}

/// Where nothing narrows the list and a push has landed, the list is the push: as many
/// rows, and each is the pushed row at its place in every field, whatever was fetched.
pub proof fn an_open_list_is_the_push(fetched: Seq<RunView>, pushed: Seq<RunView>)
    ensures
        merged(fetched, Some(pushed), false).len() == pushed.len(),
        forall|i: int|
            0 <= i < pushed.len() ==> {
                let row = #[trigger] merged(fetched, Some(pushed), false)[i];
                &&& row.id == pushed[i].id
                &&& row.provider_id == pushed[i].provider_id
                &&& row.provider_slug == pushed[i].provider_slug
                &&& row.mode == pushed[i].mode
                &&& row.state == pushed[i].state
                &&& row.total_tasks == pushed[i].total_tasks
                &&& row.done_tasks == pushed[i].done_tasks
                &&& row.failed_tasks == pushed[i].failed_tasks
                &&& row.started_at == pushed[i].started_at
                &&& row.finished_at == pushed[i].finished_at
                &&& row.created_at == pushed[i].created_at
            },
{
}

/// Before a push has landed the list is what was fetched, narrowed or not.
pub proof fn without_a_push_the_fetch_stands(fetched: Seq<RunView>, filtered: bool)
    ensures
        merged(fetched, None, filtered).len() == fetched.len(),
        forall|i: int|
            0 <= i < fetched.len() ==> #[trigger] merged(fetched, None, filtered)[i] == fetched[i],
{
}

/// A row of a narrowed list is the first pushed row of its run; a run that the push does
/// not hold stays as it was fetched.
pub proof fn a_narrowed_row_is_the_first_pushed(
    fetched: Seq<RunView>,
    pushed: Seq<RunView>,
    i: int,
    k: int,
)
    requires
        0 <= i < fetched.len(),
        0 <= k <= pushed.len(),
        forall|j: int| 0 <= j < k ==> (#[trigger] pushed[j]).id != fetched[i].id,
    ensures
        k < pushed.len() && pushed[k].id == fetched[i].id ==> merged(
            fetched,
            Some(pushed),
            true,
        )[i] == pushed[k],
        k == pushed.len() ==> merged(fetched, Some(pushed), true)[i] == fetched[i],
{
    let test = |j: int| pushed[j].id == fetched[i].id;
    assert forall|j: int| 0 <= j < k implies !#[trigger] test(j) by {
        assert(pushed[j].id != fetched[i].id);
    }
    if k == pushed.len() || test(k) {
        rows::lemma_first(pushed.len(), test, k);
    }
}

/// The scope that a run covers: its provider, or every provider. A run whose provider
/// has since been deleted says so rather than claiming that it covered everything.
pub open spec fn scope_of(run: RunView) -> LabelView {
    match run.provider_slug {
        Some(slug) => LabelView::Verbatim(slug),
        None => if run.provider_id is Some {
            LabelView::Worded("console.scans.scopeUnknown"@)
        } else {
            LabelView::Worded("console.scans.scopeAll"@)
        },
    }
}

/// The scope that a run covers.
pub fn scope_label(run: &ScanRun) -> (r: Label)
    ensures
        r@ == scope_of(run@),
{
    match &run.provider_slug {
        Some(slug) => Label::Verbatim(slug.clone()),
        None => if run.provider_id.is_some() {
            Label::Worded("console.scans.scopeUnknown")
        } else {
            Label::Worded("console.scans.scopeAll")
        },
    }
}

/// The positions of the runs in flight.
pub fn active_runs(runs: &[ScanRun]) -> (r: Vec<usize>)
    ensures
        rows::positions(r@) == rows::kept(runs@.len(), |i: int| runs@[i].state.in_flight()),
{
    let ghost test = |i: int| runs@[i].state.in_flight();
    let mut out: Vec<usize> = Vec::new();
    let mut i: usize = 0;
    assert(rows::positions(out@) =~= rows::kept(0, test));
    while i < runs.len()
        invariant
            i <= runs.len(),
            test == (|i: int| runs@[i].state.in_flight()),
            rows::positions(out@) == rows::kept(i as nat, test),
        decreases runs.len() - i,
    {
        let ghost earlier = out@;
        if runs[i].state == RunState::Running || runs[i].state == RunState::Queued {
            out.push(i);
            assert(rows::positions(out@) =~= rows::positions(earlier).push(i as int));
        }
        assert(rows::positions(out@) == rows::kept((i + 1) as nat, test));
        i = i + 1;
    }
    out
}

/// The positions of the first runs of a provider, at most twelve.
pub open spec fn provider_runs_of(runs: Seq<ScanRun>, id: u128) -> Seq<int> {
    let mine = rows::kept(runs.len(), |i: int| runs[i].provider_id == Some(id));
    if mine.len() <= 12 {
        mine
    } else {
        mine.take(12)
    }
}

/// The positions of the runs that a provider's tab lists.
pub fn provider_runs(runs: &[ScanRun], id: u128) -> (r: Vec<usize>)
    ensures
        rows::positions(r@) == provider_runs_of(runs@, id),
{
    let ghost test = |i: int| runs@[i].provider_id == Some(id);
    let mut out: Vec<usize> = Vec::new();
    let mut i: usize = 0;
    assert(rows::positions(out@) =~= rows::kept(0, test));
    while i < runs.len()
        invariant
            i <= runs.len(),
            test == (|i: int| runs@[i].provider_id == Some(id)),
            rows::positions(out@) == rows::kept(i as nat, test),
        decreases runs.len() - i,
    {
        let ghost earlier = out@;
        let mine = match runs[i].provider_id {
            Some(other) => other == id,
            None => false,
        };
        if mine {
            out.push(i);
            assert(rows::positions(out@) =~= rows::positions(earlier).push(i as int));
        }
        assert(rows::positions(out@) == rows::kept((i + 1) as nat, test));
        i = i + 1;
    }
    let ghost all = rows::positions(out@);
    if out.len() > 12 {
        out.truncate(12);
        assert(rows::positions(out@) =~= all.take(12));
    }
    out
}

/// A run as a provider's tab lists it.
#[derive(Debug, PartialEq, Eq)]
pub struct RunLine {
    pub pill: &'static str,
    /// The settled tasks of all tasks.
    pub progress: String,
    /// How many tasks failed, where any did.
    pub failed: Option<Phrase>,
}

/// A run as a provider's tab lists it.
pub fn run_line(run: &ScanRun) -> (r: RunLine)
    ensures
        r.pill@ == run.state.pill(),
        r.progress@ == text::signed_decimal(run.done_tasks as int) + "/"@ + text::signed_decimal(
            run.total_tasks as int,
        ),
        match r.failed {
            Some(p) => run.failed_tasks > 0 && p@ == PhraseView::plain(
                "console.providers.runFailed"@,
            ).number("count"@, run.failed_tasks as int),
            None => run.failed_tasks <= 0,
        },
{
    let mut progress = text::print_i64(run.done_tasks as i64);
    progress.append("/");
    let total = text::print_i64(run.total_tasks as i64);
    progress.append(total.as_str());
    RunLine {
        pill: run_state_pill(run.state),
        progress,
        failed: if run.failed_tasks > 0 {
            Some(
                Phrase::plain("console.providers.runFailed").number(
                    "count",
                    run.failed_tasks as i64,
                ),
            )
        } else {
            None
        },
    }
}

/// Finished tasks as a whole percentage of all tasks; none of nothing.
pub open spec fn share_of_tasks(part: i32, total: i32) -> int {
    if total > 0 {
        stages::percentage(part as int, total as int)
    } else {
        0
    }
}

/// Finished tasks as a whole percentage of all tasks.
pub fn task_percent(part: i32, total: i32) -> (r: i32)
    ensures
        r == share_of_tasks(part, total),
        0 <= r <= 100,
{
    if total > 0 {
        stages::percent_of(part as i64, total as i64)
    } else {
        0
    }
}

/// The two segments of a run's bar, done and failed: a bar that fills on a run where
/// every task failed would mislead. `progress` is the run's progress in percent.
pub fn split_bar(progress: i32, run: &ScanRun) -> (r: (i32, i32))
    requires
        0 <= progress <= 100,
    ensures
        r.1 == share_of_tasks(run.failed_tasks, run.total_tasks),
        r.0 == progress - r.1,
{
    let failed: i32 = task_percent(run.failed_tasks, run.total_tasks);
    (progress - failed, failed)
}

/// Whether a view has a run selected.
pub open spec fn is_selected(q: QueryView, id: u128) -> bool {
    q.sel == Some(foreign::hyphenated(id))
}

/// Whether a view has a run selected.
pub fn run_selected(query: &ConsoleQuery, id: u128) -> (r: bool)
    ensures
        r == is_selected(query@, id),
{
    match &query.sel {
        Some(sel) => {
            let text = foreign::write_uuid(id);
            text::same(sel.as_str(), text.as_str())
        },
        None => false,
    }
}

/// The view after a run's row is pressed: pressing the open run closes it.
pub open spec fn toggled(q: QueryView, id: u128) -> QueryView {
    QueryView {
        sel: if is_selected(q, id) {
            None
        } else {
            Some(foreign::hyphenated(id))
        },
        page: 0,
        ..q
    }
}

/// The view after a run's row is pressed.
pub fn toggle_run(query: &ConsoleQuery, id: u128) -> (r: ConsoleQuery)
    ensures
        r@ == toggled(query@, id),
{
    if run_selected(query, id) {
        query.with_selection(None)
    } else {
        query.with_selection(Some(foreign::write_uuid(id)))
    }
}

/// Pressing a run's row twice opens and closes it: nothing is selected then.
pub proof fn pressing_twice_closes(q: QueryView, id: u128)
    requires
        q.sel is None,
    ensures
        is_selected(toggled(q, id), id),
        toggled(toggled(q, id), id).sel is None,
{
}

/// The run that the drawer fetches: none for a selection that is no run's id. It is
/// fetched by id rather than picked out of the list, because a run linked to from
/// elsewhere may be older than the window the list holds.
pub fn drawer_run(sel: &Option<String>) -> (r: Option<u128>)
    ensures
        r == (match *sel {
            Some(sel) => match foreign::uuid_named(sel@) {
                Some(id) => Some(id as u128),
                None => None,
            },
            None => None,
        }),
{
    match sel {
        Some(sel) => foreign::read_uuid(sel.as_str()),
        None => None,
    }
}

/// A run that is selected is the run that the drawer fetches.
pub proof fn drawer_fetches_the_selected(q: QueryView, id: u128)
    requires
        is_selected(q, id),
    ensures
        foreign::uuid_named(q.sel->0) == Some(id as nat),
{
    foreign::hyphenated_names_the_id(id);
}

/// The class of a run's row in the history.
pub fn history_row_class(selected: bool) -> (r: &'static str)
    ensures
        r@ == (if selected {
            "ik-row-pick selected"@
        } else {
            "ik-row-pick"@
        }),
{
    if selected {
        "ik-row-pick selected"
    } else {
        "ik-row-pick"
    }
}

/// What the history is a window on: a page out of all runs, and whether a filter made
/// it so.
pub fn history_count(shown: usize, total: i64, narrowed: bool) -> (r: Phrase)
    ensures
        r@ == PhraseView::plain(
            if narrowed {
                "console.scan.history.countFiltered"@
            } else {
                "console.scan.history.count"@
            },
        ).grouped(
            "shown"@,
            if shown <= i64::MAX {
                shown as int
            } else {
                i64::MAX as int
            },
        ).grouped("total"@, total as int),
{
    let wide: u64 = shown as u64;
    let listed: i64 = if wide <= i64::MAX as u64 {
        wide as i64
    } else {
        i64::MAX
    };
    Phrase::plain(
        if narrowed {
            "console.scan.history.countFiltered"
        } else {
            "console.scan.history.count"
        },
    ).grouped("shown", listed).grouped("total", total)
}

/// The catalogue key that an empty history is worded by: a filter that matches
/// nothing is not a system without runs.
pub fn no_runs_key(narrowed: bool) -> (r: &'static str)
    ensures
        r@ == (if narrowed {
            "console.scan.history.noneMatch"@
        } else {
            "console.scans.noRuns"@
        }),
{
    if narrowed {
        "console.scan.history.noneMatch"
    } else {
        "console.scans.noRuns"
    }
}

/// The view with another run state filtered by; the empty choice is any state.
pub fn choose_state(query: &ConsoleQuery, chosen: &str) -> (r: ConsoleQuery)
    ensures
        r@ == (QueryView { status: crate::query::present(chosen@), ..query@ }),
{
    let mut next = query.clone();
    next.status = crate::query::non_empty(chosen.to_owned());
    next
}

/// The view with another scan mode filtered by; the empty choice is any mode.
pub fn choose_mode(query: &ConsoleQuery, chosen: &str) -> (r: ConsoleQuery)
    ensures
        r@ == (QueryView { mode: crate::query::present(chosen@), ..query@ }),
{
    let mut next = query.clone();
    next.mode = crate::query::non_empty(chosen.to_owned());
    next
}

/// The view with another time window.
pub fn choose_window(query: &ConsoleQuery, chosen: &str) -> (r: ConsoleQuery)
    ensures
        r@ == (QueryView { since: Window::named_by(chosen@), ..query@ }),
{
    let mut next = query.clone();
    next.since = Window::parse_token(chosen);
    next
}

/// The view in another order. The default order is the absence of the parameter, so
/// that a shared link names only what its sender changed.
pub fn choose_sort(query: &ConsoleQuery, chosen: &str) -> (r: ConsoleQuery)
    ensures
        r@ == (QueryView {
            sort: if RunSort::named_by(chosen@) == RunSort::Recent {
                None
            } else {
                Some(RunSort::named_by(chosen@).token_text())
            },
            ..query@
        }),
{
    let sort = RunSort::parse(chosen);
    let mut next = query.clone();
    next.sort = if sort == RunSort::Recent {
        None
    } else {
        Some(sort.token().to_owned())
    };
    next
}

/// The view narrowed to what the provider box holds; a blank box narrows to nothing,
/// and what was typed is kept as it was typed.
pub fn choose_provider(query: &ConsoleQuery, typed: &str) -> (r: ConsoleQuery)
    ensures
        r@ == (QueryView {
            provider: if text::trimmed(typed@).len() == 0 {
                None
            } else {
                Some(typed@)
            },
            ..query@
        }),
{
    let trimmed = text::trim(typed);
    let mut next = query.clone();
    next.provider = if trimmed.as_str().is_empty() {
        None
    } else {
        Some(typed.to_owned())
    };
    next
}

/// The view with or without cleared failures.
pub fn show_cleared(query: &ConsoleQuery, cleared: bool) -> (r: ConsoleQuery)
    ensures
        r@ == (QueryView { cleared, ..query@ }),
{
    let mut next = query.clone();
    next.cleared = cleared;
    next
}

/// The view without filters. The selection survives: the operator is widening what
/// they can see, not closing the row they were reading.
pub fn reset_filters(query: &ConsoleQuery) -> (r: ConsoleQuery)
    ensures
        r@ == (QueryView { sel: query@.sel, ..QueryView::initial() }),
{
    let mut next = ConsoleQuery::fresh();
    next.sel = text::copied(&query.sel);
    next
}

/// The view after a provider's row in the health table is pressed: narrowed to it, or
/// no longer narrowed to it.
pub fn pick_provider(query: &ConsoleQuery, slug: String) -> (r: ConsoleQuery)
    ensures
        r@ == (QueryView {
            provider: if query@.provider == Some(slug@) {
                None
            } else {
                Some(slug@)
            },
            ..query@
        }),
{
    let already = match &query.provider {
        Some(current) => text::same(current.as_str(), slug.as_str()),
        None => false,
    };
    let mut next = query.clone();
    next.provider = if already {
        None
    } else {
        Some(slug)
    };
    next
}

/// What a choice of state and a reset do to the filter: the choice is what the filter
/// then names, and a reset narrows nothing.
pub proof fn choices_reach_the_filter(q: QueryView, state: RunState, mode: ScanMode)
    ensures
        FilterView::of(
            QueryView { status: crate::query::present(state.token_text()), ..q },
        ).state() == Some(state),
        FilterView::of(
            QueryView { mode: crate::query::present(mode.token_text()), ..q },
        ).scan_mode() == Some(mode),
        !FilterView::of(QueryView { sel: q.sel, ..QueryView::initial() }).narrows(),
{
    state.token_reads_back();
    mode.token_reads_back();
    RunSort::Recent.token_reads_back();
    reveal_strlit("queued");
    reveal_strlit("running");
    reveal_strlit("completed");
    reveal_strlit("failed");
    reveal_strlit("cancelled");
    reveal_strlit("fast");
    reveal_strlit("full");
}

/// What `merge_runs` returns where nothing narrows the list and a push has landed: as many
/// rows as were pushed, each equal to the pushed row at its place in every field.
pub proof fn merging_an_open_list_returns_the_push(
    fetched: &[ScanRun],
    pushed: &Vec<ScanRun>,
    list: Vec<ScanRun>,
)
    requires
        call_ensures(merge_runs, (fetched, Some(pushed), false), list),
    ensures
        list@.len() == pushed@.len(),
        forall|i: int|
            0 <= i < pushed@.len() ==> {
                let row = #[trigger] list@[i];
                &&& row.id == pushed@[i].id
                &&& row.provider_id == pushed@[i].provider_id
                &&& row.provider_slug is Some == pushed@[i].provider_slug is Some
                &&& row.provider_slug is Some ==> row.provider_slug->0@
                    == pushed@[i].provider_slug->0@
                &&& row.mode == pushed@[i].mode
                &&& row.state == pushed@[i].state
                &&& row.total_tasks == pushed@[i].total_tasks
                &&& row.done_tasks == pushed@[i].done_tasks
                &&& row.failed_tasks == pushed@[i].failed_tasks
                &&& row.started_at is Some == pushed@[i].started_at is Some
                &&& row.started_at is Some ==> row.started_at->0@ == pushed@[i].started_at->0@
                &&& row.finished_at is Some == pushed@[i].finished_at is Some
                &&& row.finished_at is Some ==> row.finished_at->0@ == pushed@[i].finished_at->0@
                &&& row.created_at@ == pushed@[i].created_at@
            },
{
    assert(list@.len() == views(list@).len());
    assert(pushed@.len() == views(pushed@).len());
    assert forall|i: int| 0 <= i < pushed@.len() implies (#[trigger] list@[i])@ == pushed@[i]@ by {
        assert(views(list@)[i] == views(pushed@)[i]);
    }
}

/// What `merge_runs` returns of a narrowed list: the fetched runs, in their order and no
/// others, each with the counters that the push first holds of its run.
pub proof fn merging_a_narrowed_list_keeps_its_runs(
    fetched: &[ScanRun],
    pushed: &Vec<ScanRun>,
    list: Vec<ScanRun>,
    i: int,
)
    requires
        call_ensures(merge_runs, (fetched, Some(pushed), true), list),
        0 <= i < fetched@.len(),
    ensures
        list@.len() == fetched@.len(),
        list@[i].id == fetched@[i].id,
        (forall|k: int| 0 <= k < pushed@.len() ==> (#[trigger] pushed@[k]).id != fetched@[i].id)
            ==> list@[i]@ == fetched@[i]@,
        forall|k: int|
            #![trigger pushed@[k]]
            0 <= k < pushed@.len() && pushed@[k].id == fetched@[i].id && (forall|j: int|
                0 <= j < k ==> (#[trigger] pushed@[j]).id != fetched@[i].id) ==> list@[i]@
                == pushed@[k]@,
{
    let rows = views(fetched@);
    let fresh = views(pushed@);
    assert(list@.len() == views(list@).len());
    assert(views(list@)[i] == list@[i]@);
    assert(rows[i] == fetched@[i]@);
    filtered_list_shows_only_what_was_fetched(rows, Some(fresh));
    assert(views(list@) == merged(rows, Some(fresh), true));
    assert(merged(rows, Some(fresh), true)[i].id == rows[i].id);
    if forall|k: int| 0 <= k < pushed@.len() ==> (#[trigger] pushed@[k]).id != fetched@[i].id {
        assert forall|j: int| 0 <= j < fresh.len() implies (#[trigger] fresh[j]).id
            != rows[i].id by {
            assert(pushed@[j].id != fetched@[i].id);
        }
        a_narrowed_row_is_the_first_pushed(rows, fresh, i, fresh.len() as int);
    }
    assert forall|k: int|
        #![trigger pushed@[k]]
        0 <= k < pushed@.len() && pushed@[k].id == fetched@[i].id && (forall|j: int|
            0 <= j < k ==> (#[trigger] pushed@[j]).id != fetched@[i].id) implies list@[i]@
        == pushed@[k]@ by {
        assert(fresh[k] == pushed@[k]@);
        assert forall|j: int| 0 <= j < k implies (#[trigger] fresh[j]).id != rows[i].id by {
            assert(pushed@[j].id != fetched@[i].id);
        }
        a_narrowed_row_is_the_first_pushed(rows, fresh, i, k);
    }
}

/// A list is narrowed exactly where the address names a provider that is not blank, one
/// of the five states, one of the two depths, a window, or the order by failures. An
/// unknown token narrows nothing, nor does anything else in the address.
pub proof fn a_list_is_narrowed_by_what_the_address_names(q: QueryView)
    ensures
        FilterView::of(q).narrows() <==> {
            ||| q.provider is Some && text::trimmed(q.provider->0).len() > 0
            ||| q.status == Some("queued"@) || q.status == Some("running"@) || q.status == Some(
                "completed"@,
            ) || q.status == Some("failed"@) || q.status == Some("cancelled"@)
            ||| q.mode == Some("fast"@) || q.mode == Some("full"@)
            ||| q.since is Hour || q.since is Day || q.since is Week
            ||| q.sort == Some("failures"@)
        },
{
    reveal_strlit("recent");
    reveal_strlit("failures");
    assert("recent"@.len() == 6);
    assert("failures"@.len() == 8);
}

/// A filter reads each of its fields from the field of the address that is named like it:
/// the provider without the blanks round it, the others as they stand, and the order as
/// the newest first where the address has none.
pub proof fn a_filter_reads_the_address(q: QueryView)
    ensures
        FilterView::of(q).provider == (if q.provider is Some && text::trimmed(
            q.provider->0,
        ).len() > 0 {
            Some(text::trimmed(q.provider->0))
        } else {
            None
        }),
        FilterView::of(q).status == q.status,
        FilterView::of(q).mode == q.mode,
        q.sort is Some ==> FilterView::of(q).sort == q.sort->0,
        q.sort is None ==> RunSort::named_by(FilterView::of(q).sort) is Recent,
        FilterView::of(q).cleared == q.cleared,
        FilterView::of(q).since == q.since,
{
    RunSort::Recent.token_reads_back();
}

/// A state is named by its own token and by no other text.
pub proof fn a_state_is_named_by_its_token(token: Seq<char>, state: RunState, mode: ScanMode)
    ensures
        RunState::named_by(token) == Some(state) <==> token == state.token_text(),
        ScanMode::named_by(token) == Some(mode) <==> token == mode.token_text(),
        RunSort::named_by(token) is Failures <==> token == RunSort::Failures.token_text(),
{
    state.token_reads_back();
    mode.token_reads_back();
    RunSort::Failures.token_reads_back();
}

/// The list of what is under way holds the runs that are running or queued, each once and
/// in the order of the list.
pub proof fn runs_under_way_are_listed(runs: &[ScanRun], under_way: Vec<usize>)
    requires
        call_ensures(active_runs, (runs,), under_way),
    ensures
        forall|k: int|
            0 <= k < under_way@.len() ==> (#[trigger] under_way@[k]) < runs@.len() && (
            runs@[under_way@[k] as int].state is Running || runs@[under_way@[k] as int].state
                is Queued),
        forall|j: int, k: int|
            0 <= j < k < under_way@.len() ==> #[trigger] under_way@[j]
                < #[trigger] under_way@[k],
        forall|i: int|
            0 <= i < runs@.len() && (runs@[i].state is Running || runs@[i].state is Queued)
                ==> exists|k: int|
                0 <= k < under_way@.len() && #[trigger] under_way@[k] == i,
{
    let test = |i: int| runs@[i].state.in_flight();
    let kept = rows::kept(runs@.len(), test);
    rows::kept_are_those_that_pass(runs@.len(), test);
    assert(rows::positions(under_way@) == kept);
    assert(under_way@.len() == kept.len());
    assert forall|k: int| 0 <= k < under_way@.len() implies (#[trigger] under_way@[k]) == kept[k]
        && test(kept[k]) by {
        assert(rows::positions(under_way@)[k] == under_way@[k]);
    }
    assert forall|i: int|
        0 <= i < runs@.len() && (runs@[i].state is Running || runs@[i].state
            is Queued) implies exists|k: int|
        0 <= k < under_way@.len() && #[trigger] under_way@[k] == i by {
        assert(test(i));
        assert(kept.contains(i));
        let k = choose|k: int| 0 <= k < kept.len() && kept[k] == i;
        assert(under_way@[k] == i);
    }
}

/// The runs of one provider: its own and no others, in the order of the list, and no more
/// than twelve of them; none is left out where there are fewer.
pub proof fn a_provider_shows_its_first_runs(runs: Seq<ScanRun>, id: u128, i: int)
    requires
        0 <= i < runs.len(),
        runs[i].provider_id == Some(id),
    ensures
        provider_runs_of(runs, id).len() <= 12,
        provider_runs_of(runs, id).len() < 12 ==> provider_runs_of(runs, id).contains(i),
        forall|k: int|
            0 <= k < provider_runs_of(runs, id).len() ==> 0 <= #[trigger] provider_runs_of(
                runs,
                id,
            )[k] < runs.len() && runs[provider_runs_of(runs, id)[k]].provider_id == Some(id),
        forall|j: int, k: int|
            0 <= j < k < provider_runs_of(runs, id).len() ==> #[trigger] provider_runs_of(
                runs,
                id,
            )[j] < #[trigger] provider_runs_of(runs, id)[k],
        provider_runs_of(runs, id).contains(i) || forall|k: int|
            0 <= k < provider_runs_of(runs, id).len() ==> #[trigger] provider_runs_of(runs, id)[k]
                < i,
{
    let test = |j: int| runs[j].provider_id == Some(id);
    let mine = rows::kept(runs.len(), test);
    rows::kept_are_those_that_pass(runs.len(), test);
    assert(test(i));
    assert(mine.contains(i));
    let at = choose|k: int| 0 <= k < mine.len() && mine[k] == i;
    let shown = provider_runs_of(runs, id);
    assert forall|k: int| 0 <= k < shown.len() implies (#[trigger] shown[k]) == mine[k] && test(
        mine[k],
    ) by {}
    if at < shown.len() {
        assert(shown[at] == i);
    }
}

/// The share of a run's tasks: nothing without tasks or without a part, all of it where
/// the part is the whole or more, and otherwise a whole number than which none is nearer.
pub proof fn a_share_of_tasks_is_nearest(part: i32, total: i32)
    ensures
        total <= 0 || part <= 0 ==> share_of_tasks(part, total) == 0,
        0 < total <= part ==> share_of_tasks(part, total) == 100,
        0 < part < total ==> -total <= 2 * (share_of_tasks(part, total) * total - 100 * part)
            <= total,
{
    stages::percentage_is_nearest(part as int, total as int);
    if part <= 0 {
        stages::a_share_of_nothing_is_none(part as int, total as int);
    }
}

/// A press on a run opens it and closes it where it is open already; it starts the list
/// over and touches nothing else of the address.
pub proof fn a_press_on_a_run_opens_that_run(q: QueryView, id: u128, other: u128)
    ensures
        q.sel == Some(foreign::hyphenated(id)) ==> toggled(q, id).sel is None,
        q.sel != Some(foreign::hyphenated(id)) ==> toggled(q, id).sel == Some(
            foreign::hyphenated(id),
        ),
        other != id ==> !is_selected(toggled(q, id), other),
        toggled(q, id).page == 0,
        (QueryView { sel: q.sel, page: q.page, ..toggled(q, id) }) == q,
{
    foreign::hyphenated_is_unique(id, other);
}

/// A run names its provider where it has one's slug; a provider without a slug is gone,
/// and only a run without a provider covered them all.
pub proof fn a_scope_is_named(run: RunView)
    ensures
        run.provider_slug is Some ==> scope_of(run) == LabelView::Verbatim(run.provider_slug->0),
        run.provider_slug is None && run.provider_id is Some ==> scope_of(run)
            == LabelView::Worded("console.scans.scopeUnknown"@),
        run.provider_slug is None && run.provider_id is None ==> scope_of(run)
            == LabelView::Worded("console.scans.scopeAll"@),
{
}

/// The colour of a run's pill tells its end: one that failed from one that completed, and
/// either from one that runs.
pub proof fn a_pill_tells_the_end(state: RunState)
    ensures
        state.pill() == "ik-pill vermilion"@ <==> state is Failed,
        state.pill() == "ik-pill jade"@ <==> state is Completed,
        state.pill() == "ik-pill run"@ <==> state is Running,
{
    reveal_strlit("ik-pill");
    reveal_strlit("ik-pill run");
    reveal_strlit("ik-pill jade");
    reveal_strlit("ik-pill vermilion");
    assert("ik-pill"@.len() == 7);
    assert("ik-pill run"@.len() == 11);
    assert("ik-pill jade"@.len() == 12);
    assert("ik-pill vermilion"@.len() == 17);
}

/// Each control sets the field it is for and leaves the rest of the address as it was,
/// the page and the open run with it.
pub proof fn a_control_sets_its_own_field(
    query: &ConsoleQuery,
    chosen: &str,
    by_state: ConsoleQuery,
    by_mode: ConsoleQuery,
    by_window: ConsoleQuery,
    by_sort: ConsoleQuery,
    by_provider: ConsoleQuery,
)
    requires
        call_ensures(choose_state, (query, chosen), by_state),
        call_ensures(choose_mode, (query, chosen), by_mode),
        call_ensures(choose_window, (query, chosen), by_window),
        call_ensures(choose_sort, (query, chosen), by_sort),
        call_ensures(choose_provider, (query, chosen), by_provider),
    ensures
        by_state@.status == (if chosen@.len() == 0 {
            None
        } else {
            Some(chosen@)
        }),
        (QueryView { status: query@.status, ..by_state@ }) == query@,
        by_mode@.mode == (if chosen@.len() == 0 {
            None
        } else {
            Some(chosen@)
        }),
        (QueryView { mode: query@.mode, ..by_mode@ }) == query@,
        by_window@.since is Hour <==> chosen@ == "1h"@,
        by_window@.since is Day <==> chosen@ == "24h"@,
        by_window@.since is Week <==> chosen@ == "7d"@,
        (QueryView { since: query@.since, ..by_window@ }) == query@,
        by_sort@.sort == (if chosen@ == "failures"@ {
            Some("failures"@)
        } else {
            None
        }),
        (QueryView { sort: query@.sort, ..by_sort@ }) == query@,
        by_provider@.provider == (if text::trimmed(chosen@).len() == 0 {
            None
        } else {
            Some(chosen@)
        }),
        (QueryView { provider: query@.provider, ..by_provider@ }) == query@,
{
    reveal_strlit("1h");
    reveal_strlit("24h");
    reveal_strlit("7d");
    assert("1h"@[0] == '1');
    assert("7d"@[0] == '7');
    assert("24h"@.len() == 3);
    assert("1h"@.len() == 2);
    assert("7d"@.len() == 2);
}

/// Resetting the filters keeps the run that is open and nothing else; a provider that is
/// picked twice is let go again.
pub proof fn filters_are_let_go(
    query: &ConsoleQuery,
    slug: String,
    reset: ConsoleQuery,
    once: ConsoleQuery,
    twice: ConsoleQuery,
)
    requires
        call_ensures(reset_filters, (query,), reset),
        call_ensures(pick_provider, (query, slug), once),
        call_ensures(pick_provider, (&once, slug), twice),
        query@.provider != Some(slug@),
    ensures
        reset@.sel == query@.sel,
        reset@.provider is None,
        reset@.status is None,
        reset@.mode is None,
        reset@.sort is None,
        reset@.since is Any,
        !reset@.cleared,
        reset@.page == 0,
        once@.provider == Some(slug@),
        twice@.provider is None,
        (QueryView { provider: query@.provider, ..once@ }) == query@,
        (QueryView { provider: query@.provider, ..twice@ }) == query@,
{
}

/// A bar is split between what failed and what is otherwise done: the two make up the
/// progress, and a run without failures has no part of the first.
pub proof fn a_split_bar_adds_up(progress: i32, run: &ScanRun, parts: (i32, i32))
    requires
        0 <= progress <= 100,
        call_ensures(split_bar, (progress, run), parts),
    ensures
        parts.0 + parts.1 == progress,
        run.failed_tasks <= 0 ==> parts == (progress, 0i32),
        0 < run.total_tasks <= run.failed_tasks ==> parts.1 == 100,
{
    a_share_of_tasks_is_nearest(run.failed_tasks, run.total_tasks);
}

/// The drawer opens the run that the address names, and none where it names none.
pub proof fn the_drawer_opens_what_was_picked(q: &ConsoleQuery, id: u128, run: Option<u128>)
    requires
        q@.sel is Some ==> is_selected(q@, id),
        call_ensures(drawer_run, (&q.sel,), run),
    ensures
        q@.sel is Some ==> run == Some(id),
        q@.sel is None ==> run is None,
{
    foreign::hyphenated_names_the_id(id);
}

/// The line of a run: what is done of what there is, and what failed where anything did.
pub proof fn a_line_tells_what_failed(run: &ScanRun, line: RunLine)
    requires
        call_ensures(run_line, (run,), line),
    ensures
        line.progress@ == text::signed_decimal(run.done_tasks as int) + "/"@
            + text::signed_decimal(run.total_tasks as int),
        line.failed is Some <==> run.failed_tasks > 0,
        line.failed is Some ==> line.failed->0@.args.len() == 1 && line.failed->0@.args[0].1
            == ArgView::Number(run.failed_tasks as int),
{
}

/// The count of the history says how many are shown of how many, and that the list is
/// narrowed where it is; an empty list says which of the two it is.
pub proof fn the_history_says_that_it_is_narrowed(
    shown: usize,
    total: i64,
    narrowed: bool,
    said: Phrase,
    none: &'static str,
)
    requires
        shown <= i64::MAX,
        call_ensures(history_count, (shown, total, narrowed), said),
        call_ensures(no_runs_key, (narrowed,), none),
    ensures
        said@.key == (if narrowed {
            "console.scan.history.countFiltered"@
        } else {
            "console.scan.history.count"@
        }),
        said@.args.len() == 2,
        said@.args[0] == ("shown"@, ArgView::Grouped(shown as int)),
        said@.args[1] == ("total"@, ArgView::Grouped(total as int)),
        none@ == (if narrowed {
            "console.scan.history.noneMatch"@
        } else {
            "console.scans.noRuns"@
        }),
{
}

/// A filter is active where it narrows the list, and where it shows what was cleared.
pub proof fn a_filter_is_active_where_it_changes_the_panel(
    query: &ConsoleQuery,
    filter: ScanFilter,
    narrows: bool,
    active: bool,
)
    requires
        call_ensures(ScanFilter::of, (query,), filter),
        call_ensures(ScanFilter::narrows_runs, (&filter,), narrows),
        call_ensures(ScanFilter::is_active, (&filter,), active),
    ensures
        active <==> narrows || query.cleared,
        narrows <==> FilterView::of(query@).narrows(),
{
}

} // verus!
