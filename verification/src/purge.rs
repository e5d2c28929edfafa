//! The catalogue's danger zone: to drop every chapter, or to empty the catalogue.
//!
//! Both start a run on the server that goes on by itself. To leave the page does not stop
//! it; only the cancel button does.

use crate::catalogue::CatalogueSummary;
use crate::notice::{Attempt, AttemptView, Notice, NoticeView, Reply};
use crate::wording::{Arg, ArgView, Label, LabelView, Phrase, PhraseView};
use vstd::prelude::*;

verus! {

broadcast use vstd::string::group_string_axioms;

/// How often a run is read while it goes on, in milliseconds.
pub const POLL_MS: u32 = 2_000;

/// What a purge takes.
#[derive(Debug, Clone, Copy, PartialEq, Eq, Structural)]
pub enum PurgeScope {
    Chapters,
    Everything,
}

impl PurgeScope {
    /// The word that the operator types, and that is sent along.
    pub open spec fn word(self) -> Seq<char> {
        match self {
            PurgeScope::Chapters => "chapters"@,
            PurgeScope::Everything => "everything"@,
        }
    }

    /// The word that the operator types, and that is sent along.
    pub fn confirm(self) -> (r: &'static str)
        ensures
            r@ == self.word(),
    {
        match self {
            PurgeScope::Chapters => "chapters",
            PurgeScope::Everything => "everything",
        }
    }
}

/// The words of the two purges differ: neither confirms the other.
pub proof fn confirming_words_differ()
    ensures
        PurgeScope::Chapters.word() != PurgeScope::Everything.word(),
{
    reveal_strlit("chapters");
    reveal_strlit("everything");
    assert("chapters"@.len() == 8);
    assert("everything"@.len() == 10);
}

/// How a run ended.
#[derive(Debug, Clone, Copy, PartialEq, Eq, Structural)]
pub enum PurgeStop {
    Done,
    Cancelled,
    Interrupted,
    Stalled,
    Failed,
}

/// What a purge is doing, or did last.
#[derive(Debug, PartialEq, Eq)]
pub struct PurgeStatus {
    /// Absent before any run.
    pub scope: Option<PurgeScope>,
    pub running: bool,
    pub cancel_requested: bool,
    pub removed_series: i64,
    pub removed_chapters: i64,
    pub remaining: Option<i64>,
    pub stopped: Option<PurgeStop>,
    pub error: Option<String>,
}

/// A count, or a dash while it is not known. A panel that claimed that the catalogue holds
/// nothing would be wrong in the worst way.
pub open spec fn count_words(count: Option<i64>) -> ArgView {
    match count {
        Some(n) => ArgView::Grouped(n as int),
        None => ArgView::Label(LabelView::Verbatim("—"@)),
    }
}

fn count_arg(count: Option<i64>) -> (r: Arg)
    ensures
        r@ == count_words(count),
{
    match count {
        Some(n) => Arg::Grouped(n),
        None => Arg::Label(Label::Verbatim("—".to_owned())),
    }
}

/// How many things a run has taken: chapters, or series where it takes everything.
pub open spec fn taken(view: PurgeStatus) -> i64 {
    if view.scope == Some(PurgeScope::Chapters) {
        view.removed_chapters
    } else {
        view.removed_series
    }
}

/// A sentence about a run, with what it took and what is left.
pub open spec fn counted(key: Seq<char>, view: PurgeStatus) -> PhraseView {
    PhraseView::plain(key).grouped("done"@, taken(view) as int).filled(
        "left"@,
        count_words(view.remaining),
    )
}

/// What a purge is doing, or how the last one ended; there is nothing to say before any.
pub open spec fn status_words(view: PurgeStatus) -> Option<PhraseView> {
    if view.scope is None {
        None
    } else if view.running {
        Some(
            counted(
                if view.cancel_requested {
                    "console.catalogue.purgeCancelling"@
                } else {
                    "console.catalogue.purgeProgress"@
                },
                view,
            ),
        )
    } else {
        match view.stopped {
            None => None,
            Some(PurgeStop::Done) => Some(counted("console.catalogue.purgeDone"@, view)),
            Some(PurgeStop::Cancelled) => Some(counted("console.catalogue.purgeCancelled"@, view)),
            Some(PurgeStop::Interrupted) => Some(
                counted("console.catalogue.purgeInterrupted"@, view),
            ),
            Some(PurgeStop::Stalled) => Some(counted("console.catalogue.purgeStalled"@, view)),
            Some(PurgeStop::Failed) => Some(
                PhraseView::plain("console.catalogue.purgeFailed"@).verbatim(
                    "message"@,
                    match view.error {
                        Some(error) => error@,
                        None => "-"@,
                    },
                ),
            ),
        }
    }
}

fn with_counts(key: &'static str, view: &PurgeStatus) -> (r: Phrase)
    ensures
        r@ == counted(key@, *view),
{
    let removed: i64 = match view.scope {
        Some(PurgeScope::Chapters) => view.removed_chapters,
        _ => view.removed_series,
    };
    Phrase::plain(key).grouped("done", removed).filled("left", count_arg(view.remaining))
}

/// What a purge is doing, or how the last one ended.
pub fn status_line(view: &PurgeStatus) -> (r: Option<Phrase>)
    ensures
        (match r {
            Some(p) => Some(p@),
            None => None,
        }) == status_words(*view),
{
    if view.scope.is_none() {
        return None;
    }
    if view.running {
        let key = if view.cancel_requested {
            "console.catalogue.purgeCancelling"
        } else {
            "console.catalogue.purgeProgress"
        };
        return Some(with_counts(key, view));
    }
    match view.stopped {
        None => None,
        Some(PurgeStop::Done) => Some(with_counts("console.catalogue.purgeDone", view)),
        Some(PurgeStop::Cancelled) => Some(with_counts("console.catalogue.purgeCancelled", view)),
        Some(PurgeStop::Interrupted) => Some(
            with_counts("console.catalogue.purgeInterrupted", view),
        ),
        Some(PurgeStop::Stalled) => Some(with_counts("console.catalogue.purgeStalled", view)),
        Some(PurgeStop::Failed) => {
            let message = match &view.error {
                Some(error) => error.as_str(),
                None => "-",
            };
            Some(Phrase::plain("console.catalogue.purgeFailed").verbatim("message", message))
        },
    }
}

/// What the two purges would take, in words: from the live totals, where they are known.
pub open spec fn radius_words(scope: PurgeScope, totals: Option<CatalogueSummary>) -> PhraseView {
    let chapters = count_words(
        match totals {
            Some(t) => Some(t.chapters_total),
            None => None,
        },
    );
    match scope {
        PurgeScope::Chapters => PhraseView::plain("console.catalogue.purgeChaptersWhy"@).filled(
            "chapters"@,
            chapters,
        ),
        PurgeScope::Everything => PhraseView::plain("console.catalogue.purgeAllWhy"@).filled(
            "series"@,
            count_words(
                match totals {
                    Some(t) => Some(t.series_total),
                    None => None,
                },
            ),
        ).filled("chapters"@, chapters).filled(
            "watchers"@,
            count_words(
                match totals {
                    Some(t) => Some(t.watchlist_entries),
                    None => None,
                },
            ),
        ).filled(
            "progress"@,
            count_words(
                match totals {
                    Some(t) => Some(t.progress_rows),
                    None => None,
                },
            ),
        ),
    }
}

/// What a purge would take, in words.
pub fn purge_radius(scope: PurgeScope, totals: Option<CatalogueSummary>) -> (r: Phrase)
    ensures
        r@ == radius_words(scope, totals),
{
    let (series, chapters, watchers, progress) = match totals {
        Some(t) => (
            Some(t.series_total),
            Some(t.chapters_total),
            Some(t.watchlist_entries),
            Some(t.progress_rows),
        ),
        None => (None, None, None, None),
    };
    match scope {
        PurgeScope::Chapters => Phrase::plain("console.catalogue.purgeChaptersWhy").filled(
            "chapters",
            count_arg(chapters),
        ),
        PurgeScope::Everything => Phrase::plain("console.catalogue.purgeAllWhy").filled(
            "series",
            count_arg(series),
        ).filled("chapters", count_arg(chapters)).filled("watchers", count_arg(watchers)).filled(
            "progress",
            count_arg(progress),
        ),
    }
}

/// What a tick of the clock asks for.
#[derive(Debug, Clone, Copy, PartialEq, Eq, Structural)]
pub enum Tick {
    Nothing,
    /// The run is read again.
    Status,
    /// The totals are read again: a run has just ended, and has emptied them.
    Totals,
}

/// Whether the last tick saw a run.
#[derive(Debug, Clone, Copy, PartialEq, Eq, Structural)]
pub struct Poll {
    pub was_running: bool,
}

impl Poll {
    /// A clock that has not ticked.
    pub fn new() -> (r: Poll)
        ensures
            r == (Poll { was_running: false }),
    {
        Poll { was_running: false }
    }

    /// What a tick asks for, whether a run goes on or not.
    pub open spec fn asks(self, running: bool) -> Tick {
        if running {
            Tick::Status
        } else if self.was_running {
            Tick::Totals
        } else {
            Tick::Nothing
        }
    }

    /// Takes a tick.
    pub fn tick(&mut self, view: Option<&PurgeStatus>) -> (r: Tick)
        ensures
            r == old(self).asks(view is Some && view->0.running),
            *final(self) == (Poll { was_running: view is Some && view->0.running }),
    {
        let running = match view {
            Some(status) => status.running,
            None => false,
        };
        let r = if running {
            Tick::Status
        } else if self.was_running {
            Tick::Totals
        } else {
            Tick::Nothing
        };
        self.was_running = running;
        r
    }
}

/// The totals are read exactly once after each run: on the first tick that sees it over.
pub proof fn totals_are_read_once(poll: Poll)
    ensures
        poll.asks(false) == Tick::Totals <==> poll.was_running,
        (Poll { was_running: false }).asks(false) == Tick::Nothing,
{
}

/// Whether the two purges are locked: while one runs, and while a request is on its way.
pub fn is_locked(busy: bool, view: Option<&PurgeStatus>) -> (r: bool)
    ensures
        r == (busy || (view is Some && view->0.running)),
{
    match view {
        Some(status) => busy || status.running,
        None => busy,
    }
}

/// Whether the cancel button is shown: while a run goes on that was not cancelled yet.
pub fn shows_cancel(view: Option<&PurgeStatus>) -> (r: bool)
    ensures
        r == (view is Some && view->0.running && !view->0.cancel_requested && status_words(
            *view->0,
        ) is Some),
{
    match view {
        Some(status) => status.running && !status.cancel_requested && status.scope.is_some(),
        None => false,
    }
}

/// The zone's requests.
#[derive(Debug, PartialEq, Eq)]
pub struct PurgePanel {
    pub attempt: Attempt,
}

/// The zone as its characters.
#[verifier::ext_equal]
pub struct PurgeView {
    pub attempt: AttemptView,
}

impl View for PurgePanel {
    type V = PurgeView;

    open spec fn view(&self) -> PurgeView {
        PurgeView { attempt: self.attempt@ }
    }
}

impl PurgePanel {
    /// Starts a purge: the word to send, unless another request is under way.
    pub fn start(&mut self, scope: PurgeScope) -> (r: Option<&'static str>)
        ensures
            match r {
                Some(word) => !old(self)@.attempt.busy && word@ == scope.word(),
                None => old(self)@.attempt.busy,
            },
            final(self)@ == (PurgeView { attempt: old(self)@.attempt.claimed() }),
    {
        if self.attempt.claim() {
            Some(scope.confirm())
        } else {
            None
        }
    }

    /// Takes the reply to a start. A run that goes on already is no error: the status
    /// line tells of it. The status is to be read again either way.
    pub fn started(&mut self, reply: Reply, started: bool)
        ensures
            final(self)@ == (PurgeView {
                attempt: AttemptView {
                    busy: false,
                    outcome: match reply {
                        Reply::Done => if started {
                            old(self)@.attempt.outcome
                        } else {
                            Some(
                                NoticeView::Good(
                                    PhraseView::plain("console.catalogue.purgeBusy"@),
                                ),
                            )
                        },
                        Reply::StepUp => old(self)@.attempt.outcome,
                        Reply::Failed(why) => Some(NoticeView::BadText(why@)),
                    },
                },
            }),
    {
        match reply {
            Reply::Done => {
                if started {
                    self.attempt.settle(None);
                } else {
                    self.attempt.settle_with(
                        Notice::Good(Phrase::plain("console.catalogue.purgeBusy")),
                    );
                }
            },
            Reply::StepUp => {
                self.attempt.settle(None);
            },
            Reply::Failed(why) => {
                self.attempt.settle(Some(why));
            },
        }
    }

    /// Cancels the run: `true` where that is to be sent. The line keeps what it says.
    pub fn cancel(&mut self) -> (r: bool)
        ensures
            r == !old(self)@.attempt.busy,
            final(self)@ == (PurgeView {
                attempt: AttemptView { busy: true, ..old(self)@.attempt },
            }),
    {
        if self.attempt.busy {
            return false;
        }
        self.attempt.busy = true;
        true
    }

    /// Takes the reply to a cancel. The status is to be read again either way.
    pub fn cancelled(&mut self, reply: Reply)
        ensures
            final(self)@ == (PurgeView {
                attempt: AttemptView {
                    busy: false,
                    outcome: match reply {
                        Reply::Failed(why) => Some(NoticeView::BadText(why@)),
                        _ => old(self)@.attempt.outcome,
                    },
                },
            }),
    {
        match reply {
            Reply::Failed(why) => {
                self.attempt.settle(Some(why));
            },
            _ => {
                self.attempt.settle(None);
            },
        }
    }
}

/// What a purge says of itself: nothing before there was one; while it runs how far it
/// is, and whether it is to stop; afterwards how it ended. How much is done counts the
/// chapters where only those are purged and the series otherwise.
pub proof fn a_purge_says_how_far_it_is(view: PurgeStatus)
    ensures
        status_words(view) is Some <==> view.scope is Some && (view.running || view.stopped
            is Some),
        status_words(view) is Some && !(!view.running && view.stopped == Some(
            PurgeStop::Failed,
        )) ==> status_words(view)->0.args == seq![
            (
                "done"@,
                ArgView::Grouped(
                    if view.scope == Some(PurgeScope::Chapters) {
                        view.removed_chapters as int
                    } else {
                        view.removed_series as int
                    },
                ),
            ),
            (
                "left"@,
                match view.remaining {
                    Some(n) => ArgView::Grouped(n as int),
                    None => ArgView::Label(LabelView::Verbatim("—"@)),
                },
            ),
        ],
        status_words(view) is Some && view.running ==> status_words(view)->0.key == (
        if view.cancel_requested {
            "console.catalogue.purgeCancelling"@
        } else {
            "console.catalogue.purgeProgress"@
        }),
        status_words(view) is Some && !view.running ==> status_words(view)->0.key == (
        match view.stopped->0 {
            PurgeStop::Done => "console.catalogue.purgeDone"@,
            PurgeStop::Cancelled => "console.catalogue.purgeCancelled"@,
            PurgeStop::Interrupted => "console.catalogue.purgeInterrupted"@,
            PurgeStop::Stalled => "console.catalogue.purgeStalled"@,
            PurgeStop::Failed => "console.catalogue.purgeFailed"@,
        }),
        status_words(view) is Some && !view.running && view.stopped == Some(
            PurgeStop::Failed,
        ) ==> status_words(view)->0.args == seq![
            (
                "message"@,
                ArgView::Label(
                    LabelView::Verbatim(
                        if view.error is Some {
                            view.error->0@
                        } else {
                            "-"@
                        },
                    ),
                ),
            ),
        ],
{
    if status_words(view) is Some {
        let args = status_words(view)->0.args;
        if !view.running && view.stopped == Some(PurgeStop::Failed) {
            assert(args =~= seq![args[0]]);
        } else {
            assert(args.len() == 2);
            assert(args =~= seq![args[0], args[1]]);
        }
    }
}

/// The radius of a purge: what it takes of what the catalogue holds, chapters alone or
/// everything down to what the readers keep, and a dash for what is not known.
pub proof fn a_radius_counts_what_goes(totals: CatalogueSummary)
    ensures
        radius_words(PurgeScope::Chapters, Some(totals)).args == seq![
            ("chapters"@, ArgView::Grouped(totals.chapters_total as int)),
        ],
        radius_words(PurgeScope::Everything, Some(totals)).args == seq![
            ("series"@, ArgView::Grouped(totals.series_total as int)),
            ("chapters"@, ArgView::Grouped(totals.chapters_total as int)),
            ("watchers"@, ArgView::Grouped(totals.watchlist_entries as int)),
            ("progress"@, ArgView::Grouped(totals.progress_rows as int)),
        ],
        forall|scope: PurgeScope, i: int|
            0 <= i < radius_words(scope, None).args.len() ==> (#[trigger] radius_words(
                scope,
                None,
            ).args[i]).1 == ArgView::Label(LabelView::Verbatim("—"@)),
{
    assert(radius_words(PurgeScope::Chapters, Some(totals)).args =~= seq![
        ("chapters"@, ArgView::Grouped(totals.chapters_total as int)),
    ]);
    assert(radius_words(PurgeScope::Everything, Some(totals)).args =~= seq![
        ("series"@, ArgView::Grouped(totals.series_total as int)),
        ("chapters"@, ArgView::Grouped(totals.chapters_total as int)),
        ("watchers"@, ArgView::Grouped(totals.watchlist_entries as int)),
        ("progress"@, ArgView::Grouped(totals.progress_rows as int)),
    ]);
}

/// The poll asks for the status while a purge runs and for the totals at the first tick
/// after it, once; a panel that never saw one run asks for neither.
pub proof fn the_poll_follows_a_purge_to_its_end(
    first: &mut Poll,
    second: &mut Poll,
    seen: Option<&PurgeStatus>,
    later: Option<&PurgeStatus>,
    asked: Tick,
    then: Tick,
)
    requires
        call_ensures(Poll::tick, (first, seen), asked),
        call_ensures(Poll::tick, (second, later), then),
    ensures
        asked is Status <==> seen is Some && seen->0.running,
        then is Status <==> later is Some && later->0.running,
        *final(first) == *old(second) && !(then is Status) ==> (then is Totals <==> asked
            is Status),
        !old(first).was_running && !(asked is Status) ==> asked is Nothing,
{
}

/// The controls are locked while a request or a purge is under way; a purge can be told to
/// stop while it runs, once.
pub proof fn a_running_purge_locks_and_can_be_stopped(
    busy: bool,
    view: Option<&PurgeStatus>,
    locked: bool,
    stop: bool,
)
    requires
        call_ensures(is_locked, (busy, view), locked),
        call_ensures(shows_cancel, (view,), stop),
    ensures
        locked <==> busy || (view is Some && view->0.running),
        stop <==> view is Some && view->0.running && !view->0.cancel_requested && view->0.scope
            is Some,
{
}

/// A purge is sent under the word of its own scope, once; a server that already runs one
/// is said to be busy, and a failure is said in its own words.
pub proof fn a_purge_is_sent_under_its_word(
    pressed: &mut PurgePanel,
    scope: PurgeScope,
    word: Option<&'static str>,
    replied: &mut PurgePanel,
    reply: Reply,
    started: bool,
)
    requires
        call_ensures(PurgePanel::start, (pressed, scope), word),
        call_ensures(PurgePanel::started, (replied, reply, started), ()),
    ensures
        word is Some <==> !old(pressed)@.attempt.busy,
        word is Some ==> final(pressed)@.attempt.busy && word->0@ == (if scope is Chapters {
            "chapters"@
        } else {
            "everything"@
        }),
        word is None ==> final(pressed)@ == old(pressed)@,
        !final(replied)@.attempt.busy,
        reply is Done && started ==> final(replied)@.attempt.outcome
            == old(replied)@.attempt.outcome,
        reply is Done && !started ==> final(replied)@.attempt.outcome is Some
            && final(replied)@.attempt.outcome->0 is Good,
        reply matches Reply::Failed(why) ==> final(replied)@.attempt.outcome == Some(
            NoticeView::BadText(why@),
        ),
        reply is StepUp ==> final(replied)@.attempt.outcome == old(replied)@.attempt.outcome,
{
}

} // verus!
