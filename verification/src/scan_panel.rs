//! The scan panel: what it asks the server for, and its two big buttons.
//!
//! The filter is the panel: the same filter narrows the health figures, the history
//! and the failure feed at once.

use crate::notice::{self, Notice, NoticeView, Reply};
use crate::runs::{RunSort, RunState, ScanFilter, ScanMode};
use crate::text;
use crate::wording::{ArgView, Phrase, PhraseView};
use vstd::prelude::*;

verus! {

broadcast use vstd::string::group_string_axioms;

/// What the run list is asked for.
#[derive(Debug, PartialEq, Eq)]
pub struct RunsRequest {
    pub sort: RunSort,
    pub provider: Option<String>,
    pub state: Option<RunState>,
    pub mode: Option<ScanMode>,
    pub since: Option<String>,
}

/// What the run list is asked for under a filter, at an instant.
pub fn runs_request(filter: &ScanFilter, now: i64) -> (r: RunsRequest)
    ensures
        r.sort == RunSort::named_by(filter@.sort),
        text::view_of(r.provider) == filter@.provider,
        r.state == filter@.state(),
        r.mode == filter@.scan_mode(),
        filter@.since.starts_at(now, text::view_of(r.since)),
{
    RunsRequest {
        sort: filter.ordering(),
        provider: text::copied(&filter.provider),
        state: filter.run_state(),
        mode: filter.scan_mode(),
        since: filter.since.since_iso(now),
    }
}

/// What the figures and the failures are asked for: the same provider and the same
/// window as the run list.
#[derive(Debug, PartialEq, Eq)]
pub struct WindowRequest {
    pub provider: Option<String>,
    pub since: Option<String>,
    /// Whether cleared failures are asked for too.
    pub include_cleared: bool,
}

/// What the figures and the failures are asked for under a filter, at an instant.
pub fn window_request(filter: &ScanFilter, now: i64) -> (r: WindowRequest)
    ensures
        text::view_of(r.provider) == filter@.provider,
        filter@.since.starts_at(now, text::view_of(r.since)),
        r.include_cleared == filter@.cleared,
{
    WindowRequest {
        provider: text::copied(&filter.provider),
        since: filter.since.since_iso(now),
        include_cleared: filter.cleared,
    }
}

/// The panel's state.
#[derive(Debug, PartialEq, Eq)]
pub struct ScanPanel {
    /// The mode that the trigger starts runs in.
    pub mode: ScanMode,
    pub message: Option<Notice>,
}

/// The panel's state as its characters.
#[verifier::ext_equal]
pub struct PanelView {
    pub mode: ScanMode,
    pub message: Option<NoticeView>,
}

impl View for ScanPanel {
    type V = PanelView;

    open spec fn view(&self) -> PanelView {
        PanelView { mode: self.mode, message: notice::notice_view(self.message) }
    }
}

impl ScanPanel {
    /// The panel as it opens.
    pub fn open() -> (r: ScanPanel)
        ensures
            r@ == (PanelView { mode: ScanMode::Fast, message: None }),
    {
        ScanPanel { mode: ScanMode::Fast, message: None }
    }

    /// Picks the mode of the trigger; a value that is no mode changes nothing.
    pub fn pick_mode(&mut self, chosen: &str)
        ensures
            final(self)@ == (PanelView {
                mode: match ScanMode::named_by(chosen@) {
                    Some(mode) => mode,
                    None => old(self)@.mode,
                },
                ..old(self)@
            }),
    {
        if let Some(mode) = ScanMode::parse(chosen) {
            self.mode = mode;
        }
    }

    /// Takes the reply to a trigger. `true` where the panels are to be read again.
    pub fn triggered(&mut self, reply: Reply) -> (r: bool)
        ensures
            r == (reply is Done),
            final(self)@ == (PanelView {
                message: notice::after_reply(
                    old(self)@.message,
                    reply,
                    Some(NoticeView::Good(PhraseView::plain("console.scans.queued"@))),
                ),
                ..old(self)@
            }),
    {
        match reply {
            Reply::Done => {
                self.message = Some(Notice::Good(Phrase::plain("console.scans.queued")));
                true
            },
            Reply::StepUp => false,
            Reply::Failed(why) => {
                self.message = Some(Notice::BadText(why));
                false
            },
        }
    }

    /// Takes the reply to a stop of the queue, with the runs and tasks that were
    /// stopped. `true` where the panels are to be read again.
    pub fn drained(&mut self, reply: Reply, runs: i64, tasks: i64) -> (r: bool)
        ensures
            r == (reply is Done),
            final(self)@ == (PanelView {
                message: notice::after_reply(
                    old(self)@.message,
                    reply,
                    Some(
                        NoticeView::Good(
                            PhraseView::plain("console.scans.cancelled"@).number(
                                "runs"@,
                                runs as int,
                            ).number("tasks"@, tasks as int),
                        ),
                    ),
                ),
                ..old(self)@
            }),
    {
        match reply {
            Reply::Done => {
                self.message = Some(
                    Notice::Good(
                        Phrase::plain("console.scans.cancelled").number("runs", runs).number(
                            "tasks",
                            tasks,
                        ),
                    ),
                );
                true
            },
            Reply::StepUp => false,
            Reply::Failed(why) => {
                self.message = Some(Notice::BadText(why));
                false
            },
        }
    }

    /// The second factor was presented: the operator is told to try again.
    pub fn stepped_up(&mut self)
        ensures
            final(self)@ == (PanelView {
                message: Some(NoticeView::Good(PhraseView::plain("stepUp.confirmedRetry"@))),
                ..old(self)@
            }),
    {
        self.message = Some(Notice::Good(Phrase::plain("stepUp.confirmedRetry")));
    }
}

/// What stopping the queue stops: the filter's provider, or everything. With a
/// provider on screen, "stop the queue" means that provider.
pub fn drain_scope(filter: &ScanFilter) -> (r: Option<String>)
    ensures
        text::view_of(r) == filter@.provider,
{
    text::copied(&filter.provider)
}

/// The list of runs is asked for what the address says: its provider, its state, its
/// depth and its order, and what began within its window.
pub proof fn the_list_is_asked_for_what_the_address_says(
    query: &crate::query::ConsoleQuery,
    filter: ScanFilter,
    now: i64,
    sent: RunsRequest,
)
    requires
        call_ensures(ScanFilter::of, (query,), filter),
        call_ensures(runs_request, (&filter, now), sent),
    ensures
        sent.sort is Failures <==> query@.sort == Some("failures"@),
        sent.provider is Some <==> query@.provider is Some && text::trimmed(
            query@.provider->0,
        ).len() > 0,
        sent.provider is Some ==> sent.provider->0@ == text::trimmed(query@.provider->0),
        forall|state: RunState|
            sent.state == Some(state) <==> query@.status == Some(#[trigger] state.token_text()),
        forall|mode: ScanMode|
            sent.mode == Some(mode) <==> query@.mode == Some(#[trigger] mode.token_text()),
        query@.since is Any ==> sent.since is None,
        sent.since is Some ==> query@.since.starts_at(now, Some(sent.since->0@)),
{
    assert forall|state: RunState|
        sent.state == Some(state) <==> query@.status == Some(#[trigger] state.token_text()) by {
        state.token_reads_back();
    }
    assert forall|mode: ScanMode|
        sent.mode == Some(mode) <==> query@.mode == Some(#[trigger] mode.token_text()) by {
        mode.token_reads_back();
    }
    reveal_strlit("recent");
    reveal_strlit("failures");
    assert("recent"@.len() == 6);
    assert("failures"@.len() == 8);
}

/// What is drained, and what the failures are counted over, is of the provider that the
/// list is narrowed to, and of every provider where it is not.
pub proof fn the_scope_is_the_same_everywhere(
    filter: &ScanFilter,
    now: i64,
    drained: Option<String>,
    runs: RunsRequest,
    window: WindowRequest,
)
    requires
        call_ensures(drain_scope, (filter,), drained),
        call_ensures(runs_request, (filter, now), runs),
        call_ensures(window_request, (filter, now), window),
    ensures
        drained is Some == filter.provider is Some,
        runs.provider is Some == filter.provider is Some,
        window.provider is Some == filter.provider is Some,
        filter.provider is Some ==> drained->0@ == filter.provider->0@ && runs.provider->0@
            == filter.provider->0@ && window.provider->0@ == filter.provider->0@,
        window.include_cleared == filter.cleared,
        filter.since is Any ==> window.since is None && runs.since is None,
{
}

/// The mode of the panel is the one that was picked; a token that names none leaves it, and
/// a panel opens on the fast one.
pub proof fn a_picked_mode_stays(opened: ScanPanel, panel: &mut ScanPanel, chosen: &str)
    requires
        call_ensures(ScanPanel::open, (), opened),
        call_ensures(ScanPanel::pick_mode, (panel, chosen), ()),
    ensures
        opened.mode is Fast,
        opened.message is None,
        chosen@ == "fast"@ ==> final(panel)@.mode is Fast,
        chosen@ == "full"@ ==> final(panel)@.mode is Full,
        chosen@ != "fast"@ && chosen@ != "full"@ ==> final(panel)@.mode == old(panel)@.mode,
        final(panel)@.message == old(panel)@.message,
{
    assert(opened@.message == notice::notice_view(opened.message));
    reveal_strlit("fast");
    reveal_strlit("full");
    assert("fast"@[1] == 'a');
    assert("full"@[1] == 'u');
}

/// What the two buttons say: that a run was queued, and how many runs and tasks were
/// cancelled; a failure is said in its own words, and the mode stays.
pub proof fn a_button_says_what_it_did(
    queued: &mut ScanPanel,
    drained: &mut ScanPanel,
    reply: Reply,
    runs: i64,
    tasks: i64,
    again: bool,
    gone: bool,
)
    requires
        call_ensures(ScanPanel::triggered, (queued, reply), again),
        call_ensures(ScanPanel::drained, (drained, reply, runs, tasks), gone),
    ensures
        again <==> reply is Done,
        gone <==> reply is Done,
        final(queued)@.mode == old(queued)@.mode,
        final(drained)@.mode == old(drained)@.mode,
        reply is Done ==> (final(queued)@.message matches Some(NoticeView::Good(said)) && said.key
            == "console.scans.queued"@),
        reply is Done ==> (final(drained)@.message matches Some(NoticeView::Good(said))
            && said.args.len() == 2 && said.args[0] == ("runs"@, ArgView::Number(runs as int))
            && said.args[1] == ("tasks"@, ArgView::Number(tasks as int))),
        reply matches Reply::Failed(why) ==> final(queued)@.message == Some(
            NoticeView::BadText(why@),
        ) && final(drained)@.message == Some(NoticeView::BadText(why@)),
        reply is StepUp ==> final(queued)@.message == old(queued)@.message
            && final(drained)@.message == old(drained)@.message,
{
}

} // verus!
