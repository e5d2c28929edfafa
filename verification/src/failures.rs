//! The failure feed, and the clearing that empties it.
//!
//! Clearing is acknowledgement, never deletion: a cleared failure keeps its state, its
//! error and its part in the run's counters, and only the feed stops showing it.

use crate::notice::{self, Notice, NoticeView, Reply};
use crate::runs::{FilterView, ScanFilter};
use crate::text;
use crate::wording::{ArgView, Label, LabelView, Phrase, PhraseView};
use vstd::prelude::*;

verus! {

broadcast use vstd::string::group_string_axioms;

/// What a clearing hides.
#[derive(Debug, PartialEq, Eq)]
pub enum Clearing {
    /// Every failure that the filter matches.
    All,
    /// The failures with one error, or those that recorded none.
    Group(Option<String>),
}

/// What a clearing hides, as its characters.
#[verifier::ext_equal]
pub enum ClearingView {
    All,
    Group(Option<Seq<char>>),
}

impl View for Clearing {
    type V = ClearingView;

    open spec fn view(&self) -> ClearingView {
        match *self {
            Clearing::All => ClearingView::All,
            Clearing::Group(error) => ClearingView::Group(text::view_of(error)),
        }
    }
}

/// The request that clears failures.
#[derive(Debug, PartialEq, Eq)]
pub struct ClearFailuresBody {
    pub provider: Option<String>,
    /// The start of the window.
    pub since: Option<String>,
    pub run_id: Option<u128>,
    /// Whether only failures that recorded no error are meant.
    pub match_null_error: bool,
    pub error: Option<String>,
}

/// The request that clears failures, as its characters.
#[verifier::ext_equal]
pub struct ClearView {
    pub provider: Option<Seq<char>>,
    pub since: Option<Seq<char>>,
    pub run_id: Option<u128>,
    pub match_null_error: bool,
    pub error: Option<Seq<char>>,
}

impl View for ClearFailuresBody {
    type V = ClearView;

    open spec fn view(&self) -> ClearView {
        ClearView {
            provider: text::view_of(self.provider),
            since: text::view_of(self.since),
            run_id: self.run_id,
            match_null_error: self.match_null_error,
            error: text::view_of(self.error),
        }
    }
}

/// The request that a clearing sends: it follows the filter, not the rows on screen.
pub open spec fn request_of(
    filter: FilterView,
    since: Option<Seq<char>>,
    what: ClearingView,
) -> ClearView {
    ClearView {
        provider: filter.provider,
        since,
        run_id: None,
        match_null_error: what == ClearingView::Group(None),
        error: match what {
            ClearingView::All => None,
            ClearingView::Group(error) => error,
        },
    }
}

/// The request that a clearing sends, where `since` is the start of the filter's window.
pub fn clear_request(filter: &ScanFilter, since: Option<String>, what: &Clearing) -> (r:
    ClearFailuresBody)
    ensures
        r@ == request_of(filter@, text::view_of(since), what@),
{
    let (match_null_error, error) = match what {
        Clearing::All => (false, None),
        Clearing::Group(error) => (error.is_none(), text::copied(error)),
    };
    let r = ClearFailuresBody {
        provider: text::copied(&filter.provider),
        since,
        run_id: None,
        match_null_error,
        error,
    };
    assert(r@ =~= request_of(filter@, text::view_of(since), what@));
    r
}

/// The three kinds of clearing send three different requests: all failures, those of
/// one error, and those without an error.
pub proof fn clearings_differ(filter: FilterView, since: Option<Seq<char>>, error: Seq<char>)
    ensures
        request_of(filter, since, ClearingView::All) != request_of(
            filter,
            since,
            ClearingView::Group(Some(error)),
        ),
        request_of(filter, since, ClearingView::All) != request_of(
            filter,
            since,
            ClearingView::Group(None),
        ),
        request_of(filter, since, ClearingView::Group(None)) != request_of(
            filter,
            since,
            ClearingView::Group(Some(error)),
        ),
{
}

/// Every kind of clearing follows the filter: the request carries the filter's provider
/// and the given start of the window, unchanged, and it names no run.
pub proof fn a_clearing_follows_the_filter(
    filter: FilterView,
    since: Option<Seq<char>>,
    what: ClearingView,
)
    ensures
        request_of(filter, since, what).since == since,
        request_of(filter, since, what).provider == filter.provider,
        request_of(filter, since, what).run_id is None,
{
}

/// A clearing of one group asks for the failures of its error, or for those without one;
/// a clearing of all asks for neither.
pub proof fn a_clearing_names_its_group(
    filter: FilterView,
    since: Option<Seq<char>>,
    error: Seq<char>,
)
    ensures
        request_of(filter, since, ClearingView::All).error is None,
        !request_of(filter, since, ClearingView::All).match_null_error,
        request_of(filter, since, ClearingView::Group(Some(error))).error == Some(error),
        !request_of(filter, since, ClearingView::Group(Some(error))).match_null_error,
        request_of(filter, since, ClearingView::Group(None)).error is None,
        request_of(filter, since, ClearingView::Group(None)).match_null_error,
{
}

/// Nothing but the provider and the window of a filter decides what is cleared.
pub proof fn only_scope_and_window_decide(
    filter: FilterView,
    other: FilterView,
    since: Option<Seq<char>>,
    what: ClearingView,
)
    requires
        filter.provider == other.provider,
    ensures
        request_of(filter, since, what) == request_of(other, since, what),
{
}

/// What a pending clearing will hide, in words: the exact selection.
pub open spec fn clearing_words(filter: FilterView, what: ClearingView) -> PhraseView {
    let scope = match filter.provider {
        Some(slug) => LabelView::Verbatim(slug),
        None => LabelView::Worded("console.scans.scopeAll"@),
    };
    match what {
        ClearingView::All => PhraseView::plain("console.scan.failures.confirmAll"@).label(
            "provider"@,
            scope,
        ).worded("window"@, filter.since.key()),
        ClearingView::Group(error) => PhraseView::plain(
            "console.scan.failures.confirmGroup"@,
        ).label(
            "error"@,
            match error {
                Some(error) => LabelView::Verbatim(error),
                None => LabelView::Worded("console.scan.failures.noError"@),
            },
        ).label("provider"@, scope).worded("window"@, filter.since.key()),
    }
}

/// What a pending clearing will hide, in words.
pub fn confirm_body(filter: &ScanFilter, what: &Clearing) -> (r: Phrase)
    ensures
        r@ == clearing_words(filter@, what@),
{
    let scope = match &filter.provider {
        Some(slug) => Label::Verbatim(slug.clone()),
        None => Label::Worded("console.scans.scopeAll"),
    };
    match what {
        Clearing::All => Phrase::plain("console.scan.failures.confirmAll").label(
            "provider",
            scope,
        ).worded("window", filter.since.label_key()),
        Clearing::Group(error) => Phrase::plain("console.scan.failures.confirmGroup").label(
            "error",
            crate::activity::error_label(error),
        ).label("provider", scope).worded("window", filter.since.label_key()),
    }
}

/// The feed's state.
#[derive(Debug, PartialEq, Eq)]
pub struct Feed {
    /// Whether failures are shown by error. A view of the same failures, not another
    /// set, so it is no part of a link.
    pub grouped: bool,
    pub busy: bool,
    /// What the question on screen asks about.
    pub pending: Option<Clearing>,
    pub outcome: Option<Notice>,
}

/// The feed's state as its characters.
#[verifier::ext_equal]
pub struct FeedView {
    pub grouped: bool,
    pub busy: bool,
    pub pending: Option<ClearingView>,
    pub outcome: Option<NoticeView>,
}

impl View for Feed {
    type V = FeedView;

    open spec fn view(&self) -> FeedView {
        FeedView {
            grouped: self.grouped,
            busy: self.busy,
            pending: match self.pending {
                Some(what) => Some(what@),
                None => None,
            },
            outcome: notice::notice_view(self.outcome),
        }
    }
}

impl Feed {
    /// The feed as it opens: by error, with nothing asked.
    pub fn open() -> (r: Feed)
        ensures
            r@ == (FeedView { grouped: true, busy: false, pending: None, outcome: None }),
    {
        Feed { grouped: true, busy: false, pending: None, outcome: None }
    }

    /// Asks whether to clear.
    pub fn ask(&mut self, what: Clearing)
        ensures
            final(self)@ == (FeedView { pending: Some(what@), ..old(self)@ }),
    {
        self.pending = Some(what);
    }

    /// Withdraws the question.
    pub fn cancel(&mut self)
        ensures
            final(self)@ == (FeedView { pending: None, ..old(self)@ }),
    {
        self.pending = None;
    }

    /// Confirms: the request to send, where a question stands.
    pub fn confirm(&mut self, filter: &ScanFilter, since: Option<String>) -> (r: Option<
        ClearFailuresBody,
    >)
        ensures
            final(self)@ == (FeedView {
                busy: old(self)@.busy || old(self)@.pending is Some,
                ..old(self)@
            }),
            match r {
                Some(body) => old(self)@.pending is Some && body@ == request_of(
                    filter@,
                    text::view_of(since),
                    old(self)@.pending->0,
                ),
                None => old(self)@.pending is None,
            },
    {
        match &self.pending {
            Some(what) => {
                let body = clear_request(filter, since, what);
                self.busy = true;
                Some(body)
            },
            None => None,
        }
    }

    /// Takes the reply, with the number of failures that were cleared. `true` where the
    /// panels are to be read again.
    pub fn cleared(&mut self, reply: Reply, count: i64) -> (r: bool)
        ensures
            r == (reply is Done),
            final(self)@ == (FeedView {
                busy: false,
                pending: None,
                outcome: notice::after_reply(
                    old(self)@.outcome,
                    reply,
                    Some(
                        NoticeView::Good(
                            PhraseView::plain("console.scan.failures.cleared"@).grouped(
                                "count"@,
                                count as int,
                            ),
                        ),
                    ),
                ),
                ..old(self)@
            }),
    {
        self.busy = false;
        self.pending = None;
        match reply {
            Reply::Done => {
                self.outcome = Some(
                    Notice::Good(
                        Phrase::plain("console.scan.failures.cleared").grouped("count", count),
                    ),
                );
                true
            },
            Reply::StepUp => false,
            Reply::Failed(why) => {
                self.outcome = Some(Notice::BadText(why));
                false
            },
        }
    }

    /// The second factor was presented: the operator is told to try again.
    pub fn stepped_up(&mut self)
        ensures
            final(self)@ == (FeedView {
                outcome: Some(NoticeView::Good(PhraseView::plain("stepUp.confirmedRetry"@))),
                ..old(self)@
            }),
    {
        self.outcome = Some(Notice::Good(Phrase::plain("stepUp.confirmedRetry")));
    }
}

/// A task that failed, as the feed shows it.
#[derive(Debug, PartialEq, Eq)]
pub struct FailedTask {
    pub kind: String,
    pub provider_slug: Option<String>,
    pub mode: String,
    pub attempts: i64,
    pub error: Option<String>,
    /// Whether an operator has cleared it.
    pub acknowledged: bool,
}

/// Where a failed task ran and how often, in words.
pub fn failure_meta(task: &FailedTask) -> (r: Phrase)
    ensures
        r@ == PhraseView::plain("console.scans.failureMeta"@).label(
            "provider"@,
            match task.provider_slug {
                Some(slug) => LabelView::Verbatim(slug@),
                None => LabelView::Worded("time.unknown"@),
            },
        ).verbatim("mode"@, task.mode@).number("attempts"@, task.attempts as int),
{
    let slug = match &task.provider_slug {
        Some(slug) => Label::Verbatim(slug.clone()),
        None => Label::Worded("time.unknown"),
    };
    Phrase::plain("console.scans.failureMeta").label("provider", slug).verbatim(
        "mode",
        task.mode.as_str(),
    ).number("attempts", task.attempts)
}

/// What a failed task's row says went wrong.
pub fn failure_error(task: &FailedTask) -> (r: Label)
    ensures
        r@ == (match task.error {
            Some(error) => LabelView::Verbatim(error@),
            None => LabelView::Worded("console.scans.noErrorMessage"@),
        }),
{
    match &task.error {
        Some(error) => Label::Verbatim(error.clone()),
        None => Label::Worded("console.scans.noErrorMessage"),
    }
}

/// The style of a failed task's row: a cleared one is dimmed.
pub fn failure_style(task: &FailedTask) -> (r: &'static str)
    ensures
        r@ == (if task.acknowledged {
            "opacity:.6;"@
        } else {
            ""@
        }),
{
    if task.acknowledged {
        "opacity:.6;"
    } else {
        ""
    }
}

/// The pill that says how many failures of a group were cleared, where any were.
pub fn cleared_pill(cleared: i64) -> (r: Option<Phrase>)
    ensures
        match r {
            Some(p) => cleared > 0 && p@ == PhraseView::plain(
                "console.scan.failures.clearedCount"@,
            ).grouped("count"@, cleared as int),
            None => cleared <= 0,
        },
{
    if cleared > 0 {
        Some(Phrase::plain("console.scan.failures.clearedCount").grouped("count", cleared))
    } else {
        None
    }
}

/// What `clear_request` sends, field by field, from the filter and the window it is given.
pub proof fn a_clearing_carries_its_window(
    filter: &ScanFilter,
    since: Option<String>,
    what: &Clearing,
    sent: ClearFailuresBody,
)
    requires
        call_ensures(clear_request, (filter, since, what), sent),
    ensures
        sent.since is Some <==> since is Some,
        since is Some ==> sent.since->0@ == since->0@,
        sent.provider is Some <==> filter.provider is Some,
        filter.provider is Some ==> sent.provider->0@ == filter.provider->0@,
        sent.run_id is None,
        sent.match_null_error <==> (what matches Clearing::Group(error) && error is None),
        sent.error is Some <==> (what matches Clearing::Group(error) && error is Some),
        what matches Clearing::Group(Some(error)) ==> sent.error->0@ == error@,
{
    assert(sent@.since == text::view_of(since));
    assert(sent@.provider == text::view_of(filter.provider));
    assert(sent@.error == text::view_of(sent.error));
}

/// The question before a clearing names exactly what the request will carry: the same
/// provider, the same window, and the error where one group is cleared.
pub proof fn the_question_names_what_is_cleared(filter: FilterView, what: ClearingView)
    ensures
        clearing_words(filter, what).args.contains(
            (
                "provider"@,
                ArgView::Label(
                    match filter.provider {
                        Some(slug) => LabelView::Verbatim(slug),
                        None => LabelView::Worded("console.scans.scopeAll"@),
                    },
                ),
            ),
        ),
        clearing_words(filter, what).args.contains(
            ("window"@, ArgView::Label(LabelView::Worded(filter.since.key()))),
        ),
        what matches ClearingView::Group(Some(error)) ==> clearing_words(
            filter,
            what,
        ).args.contains(("error"@, ArgView::Label(LabelView::Verbatim(error)))),
        clearing_words(filter, what).args.len() == (if what is All {
            2nat
        } else {
            3nat
        }),
        clearing_words(filter, what).key == (if what is All {
            "console.scan.failures.confirmAll"@
        } else {
            "console.scan.failures.confirmGroup"@
        }),
{
    let args = clearing_words(filter, what).args;
    if what is All {
        assert(args[0].0 == "provider"@);
        assert(args[1].0 == "window"@);
    } else {
        assert(args[0].0 == "error"@);
        assert(args[1].0 == "provider"@);
        assert(args[2].0 == "window"@);
    }
}

/// A confirmed clearing sends what the question on screen asked about, and keeps it on
/// screen until the reply has come; without a question nothing is sent.
pub proof fn a_confirmed_clearing_is_what_was_asked(
    feed: &mut Feed,
    filter: &ScanFilter,
    since: Option<String>,
    sent: Option<ClearFailuresBody>,
)
    requires
        call_ensures(Feed::confirm, (feed, filter, since), sent),
    ensures
        sent is Some <==> old(feed)@.pending is Some,
        sent is Some ==> final(feed)@.busy && sent->0@.provider == filter@.provider && (
        sent->0@.since is Some <==> since is Some),
        old(feed)@.pending == Some(ClearingView::All) ==> sent->0@.error is None
            && !sent->0@.match_null_error,
        old(feed)@.pending == Some(ClearingView::Group(None)) ==> sent->0@.error is None
            && sent->0@.match_null_error,
        old(feed)@.pending matches Some(ClearingView::Group(Some(error))) ==> sent->0@.error
            == Some(error) && !sent->0@.match_null_error,
        sent is None ==> final(feed)@ == old(feed)@,
        final(feed)@.pending == old(feed)@.pending,
        final(feed)@.grouped == old(feed)@.grouped,
{
}

/// A reply closes the question and frees the feed whatever it says; the feed is read again
/// only where the clearing went through, and then it says how many were cleared.
pub proof fn a_reply_closes_the_question(feed: &mut Feed, reply: Reply, count: i64, again: bool)
    requires
        call_ensures(Feed::cleared, (feed, reply, count), again),
    ensures
        again <==> reply is Done,
        !final(feed)@.busy,
        final(feed)@.pending is None,
        final(feed)@.grouped == old(feed)@.grouped,
        reply is StepUp ==> final(feed)@.outcome == old(feed)@.outcome,
        reply matches Reply::Failed(why) ==> final(feed)@.outcome == Some(
            NoticeView::BadText(why@),
        ),
        reply is Done ==> (final(feed)@.outcome matches Some(NoticeView::Good(said)) && said.args
            == seq![("count"@, ArgView::Grouped(count as int))]),
{
    if reply is Done {
        assert(final(feed)@.outcome->0->Good_0.args =~= seq![
            ("count"@, ArgView::Grouped(count as int)),
        ]);
    }
}

} // verus!
