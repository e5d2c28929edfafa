//! The review queue of pairs that may be one series, and the sweeps that fill it.
//!
//! A merge discards the absorbed id, so its direction follows the server's suggestion
//! unless the operator swaps it.

use crate::access::{Capabilities, Permission};
use crate::notice::Reply;
use crate::recommendations::TunableGroup;
use crate::text;
use crate::wording::{Arg, ArgView, Counted, CountedView, Label, LabelView, Phrase, PhraseView};
use vstd::prelude::*;

verus! {

broadcast use vstd::string::group_string_axioms;

/// How often the state of an exhaustive sweep is read while one runs, in milliseconds.
pub const FULL_SWEEP_POLL_MS: u32 = 3_000;

/// The tuning groups that this panel shows, each with the catalogue key of its title.
pub const POLICY_GROUPS: [(TunableGroup, &'static str); 1] = [
    (TunableGroup::Matching, "console.merge.policy.title"),
];

/// The id of a series.
#[derive(Debug, Clone, Copy, PartialEq, Eq, Structural)]
pub struct SeriesId(pub u128);

/// A pair that may be one series.
#[derive(Debug, PartialEq, Eq)]
pub struct MergeCandidate {
    pub id: u128,
    pub series_id: SeriesId,
    pub series_title: String,
    pub series_sources: i64,
    pub series_chapters: i64,
    pub candidate_id: SeriesId,
    pub candidate_title: String,
    pub candidate_sources: i64,
    pub candidate_chapters: i64,
    /// The side that the server would keep.
    pub suggested_keep: SeriesId,
    /// How sure the scorer is, in whole percent.
    pub percent: i32,
    pub signals: Vec<String>,
    pub reason: Option<String>,
}

/// One side of a pair.
#[derive(Debug, PartialEq, Eq)]
pub struct SideSummary {
    pub id: SeriesId,
    pub title: String,
    pub sources: i64,
    pub chapters: i64,
}

/// One side of a pair, as its characters.
#[verifier::ext_equal]
pub struct SideView {
    pub id: SeriesId,
    pub title: Seq<char>,
    pub sources: i64,
    pub chapters: i64,
}

impl View for SideSummary {
    type V = SideView;

    open spec fn view(&self) -> SideView {
        SideView {
            id: self.id,
            title: self.title@,
            sources: self.sources,
            chapters: self.chapters,
        }
    }
}

impl SideSummary {
    /// The two figures that decide which side should stay: its sources and its chapters.
    pub fn summary(&self) -> (r: (Phrase, Phrase))
        ensures
            r.0@ == PhraseView::plural("series.sources"@, self@.sources),
            r.1@ == PhraseView::plain("series.chapterCount"@).number(
                "count"@,
                self@.chapters as int,
            ),
    {
        (
            Phrase::plural("series.sources", self.sources),
            Phrase::plain("series.chapterCount").number("count", self.chapters),
        )
    }
}

/// Whether the server would keep the first side of a pair.
pub open spec fn suggests_first(c: MergeCandidate) -> bool {
    c.suggested_keep == c.series_id
}

/// Whether the server would keep the first side of a pair: the direction of every merge
/// that the operator does not swap.
pub fn keeps_first_by_default(candidate: &MergeCandidate) -> (r: bool)
    ensures
        r == suggests_first(*candidate),
{
    candidate.suggested_keep == candidate.series_id
}

/// The first side of a pair.
pub open spec fn first_side(c: MergeCandidate) -> SideView {
    SideView {
        id: c.series_id,
        title: c.series_title@,
        sources: c.series_sources,
        chapters: c.series_chapters,
    }
}

/// The second side of a pair.
pub open spec fn second_side(c: MergeCandidate) -> SideView {
    SideView {
        id: c.candidate_id,
        title: c.candidate_title@,
        sources: c.candidate_sources,
        chapters: c.candidate_chapters,
    }
}

/// A pair as the merge that it would be.
#[derive(Debug, PartialEq, Eq)]
pub struct MergeSides {
    /// The side that stays and absorbs the other.
    pub keep: SideSummary,
    /// The side that stops existing.
    pub drop: SideSummary,
}

/// A merge as its characters.
#[verifier::ext_equal]
pub struct SidesView {
    pub keep: SideView,
    pub drop: SideView,
}

impl View for MergeSides {
    type V = SidesView;

    open spec fn view(&self) -> SidesView {
        SidesView { keep: self.keep@, drop: self.drop@ }
    }
}

/// A pair as the merge that it would be, with the first side kept or the second.
pub open spec fn oriented(c: MergeCandidate, keep_first: bool) -> SidesView {
    if keep_first {
        SidesView { keep: first_side(c), drop: second_side(c) }
    } else {
        SidesView { keep: second_side(c), drop: first_side(c) }
    }
}

impl MergeSides {
    /// A pair as the merge that it would be, with the first side kept or the second.
    pub fn of(candidate: &MergeCandidate, keep_first: bool) -> (r: MergeSides)
        ensures
            r@ == oriented(*candidate, keep_first),
    {
        let first = SideSummary {
            id: candidate.series_id,
            title: candidate.series_title.clone(),
            sources: candidate.series_sources,
            chapters: candidate.series_chapters,
        };
        let second = SideSummary {
            id: candidate.candidate_id,
            title: candidate.candidate_title.clone(),
            sources: candidate.candidate_sources,
            chapters: candidate.candidate_chapters,
        };
        if keep_first {
            MergeSides { keep: first, drop: second }
        } else {
            MergeSides { keep: second, drop: first }
        }
    }
}

/// A merge that is not swapped keeps the side that the server suggests, where it
/// suggests one of the two, and drops the other.
pub proof fn suggestion_survives(c: MergeCandidate)
    requires
        c.suggested_keep == c.series_id || c.suggested_keep == c.candidate_id,
    ensures
        oriented(c, suggests_first(c)).keep.id == c.suggested_keep,
        c.series_id != c.candidate_id ==> oriented(c, suggests_first(c)).drop.id
            != c.suggested_keep,
{
}

/// A swap exchanges the two sides, each with its own figures, and nothing else.
pub proof fn swap_exchanges_the_sides(c: MergeCandidate, keep_first: bool)
    ensures
        oriented(c, !keep_first) == (SidesView {
            keep: oriented(c, keep_first).drop,
            drop: oriented(c, keep_first).keep,
        }),
{
}

/// The figures of a side as they fill a place in a wording: its sources, then its
/// chapters.
pub open spec fn side_figures(side: SideView) -> ArgView {
    ArgView::Counts(
        CountedView::Plural("series.sources"@, side.sources),
        CountedView::Named("series.chapterCount"@, side.chapters),
    )
}

fn figures_of(side: &SideSummary) -> (r: Arg)
    ensures
        r@ == side_figures(side@),
{
    Arg::Counts(
        Counted::Plural("series.sources", side.sources),
        Counted::Named("series.chapterCount", side.chapters),
    )
}

/// The two sides of a merge, by the figures that decide which of them should stay.
pub fn sides_words(sides: &MergeSides) -> (r: Phrase)
    ensures
        r@ == PhraseView::plain("console.merge.sides"@).filled(
            "keep"@,
            side_figures(sides@.keep),
        ).filled("drop"@, side_figures(sides@.drop)),
{
    Phrase::plain("console.merge.sides").filled("keep", figures_of(&sides.keep)).filled(
        "drop",
        figures_of(&sides.drop),
    )
}

/// How sure the scorer is of a pair, in words.
pub fn score_words(candidate: &MergeCandidate) -> (r: Phrase)
    ensures
        r@ == PhraseView::plain("console.merge.score"@).number(
            "percent"@,
            candidate.percent as int,
        ),
{
    Phrase::plain("console.merge.score").number("percent", candidate.percent as i64)
}

/// Why a pair was queued, in words, where the scorer gave a reason.
pub fn reason_words(candidate: &MergeCandidate) -> (r: Option<Phrase>)
    ensures
        match (r, candidate.reason) {
            (Some(p), Some(why)) => p@ == PhraseView::plain("console.merge.reason"@).verbatim(
                "reason"@,
                why@,
            ),
            (p, why) => p is None && why is None,
        },
{
    match &candidate.reason {
        Some(why) => Some(Phrase::plain("console.merge.reason").verbatim("reason", why.as_str())),
        None => None,
    }
}

/// The class that a score is drawn in.
pub fn score_class(percent: i32) -> (r: &'static str)
    ensures
        r@ == (if percent >= 90 {
            "ik-mono acc"@
        } else if percent >= 75 {
            "ik-mono jade"@
        } else {
            "ik-mono ik-muted"@
        }),
{
    if percent >= 90 {
        "ik-mono acc"
    } else if percent >= 75 {
        "ik-mono jade"
    } else {
        "ik-mono ik-muted"
    }
}

/// The request that merges two series.
#[derive(Debug, Clone, Copy, PartialEq, Eq, Structural)]
pub struct MergeRequest {
    pub keep: SeriesId,
    pub merge: SeriesId,
}

/// A row of the queue.
#[derive(Debug, Clone, Copy, PartialEq, Eq, Structural)]
pub struct MergeRow {
    /// Whether the two cards are open.
    pub open: bool,
    pub busy: bool,
    pub keep_first: bool,
}

impl MergeRow {
    /// A row as it appears: in the direction that the server suggests.
    pub fn new(candidate: &MergeCandidate) -> (r: MergeRow)
        ensures
            r == (MergeRow { open: false, busy: false, keep_first: suggests_first(*candidate) }),
    {
        MergeRow { open: false, busy: false, keep_first: keeps_first_by_default(candidate) }
    }

    /// Swaps the direction.
    pub fn swap(&mut self)
        ensures
            *final(self) == (MergeRow { keep_first: !old(self).keep_first, ..*old(self) }),
    {
        self.keep_first = !self.keep_first;
    }

    /// Opens or closes the two cards.
    pub fn toggle(&mut self)
        ensures
            *final(self) == (MergeRow { open: !old(self).open, ..*old(self) }),
    {
        self.open = !self.open;
    }

    /// Presses the merge button: the request to send, by a reader who is signed in, unless
    /// another is under way.
    pub fn merge(&mut self, candidate: &MergeCandidate, signed_in: bool) -> (r: Option<
        MergeRequest,
    >)
        ensures
            r == (if old(self).busy || !signed_in {
                None
            } else {
                Some(
                    MergeRequest {
                        keep: oriented(*candidate, old(self).keep_first).keep.id,
                        merge: oriented(*candidate, old(self).keep_first).drop.id,
                    },
                )
            }),
            *final(self) == (MergeRow { busy: old(self).busy || signed_in, ..*old(self) }),
    {
        if self.busy || !signed_in {
            return None;
        }
        self.busy = true;
        let sides = MergeSides::of(candidate, self.keep_first);
        Some(MergeRequest { keep: sides.keep.id, merge: sides.drop.id })
    }

    /// Presses the dismiss button: the pair to dismiss, by a reader who is signed in, unless
    /// another request is under way.
    pub fn dismiss(&mut self, candidate: &MergeCandidate, signed_in: bool) -> (r: Option<u128>)
        ensures
            r == (if old(self).busy || !signed_in {
                None
            } else {
                Some(candidate.id)
            }),
            *final(self) == (MergeRow { busy: old(self).busy || signed_in, ..*old(self) }),
    {
        if self.busy || !signed_in {
            return None;
        }
        self.busy = true;
        Some(candidate.id)
    }

    /// Takes the reply. `true` where the queue is to be read again; a row has no line of
    /// its own, so anything else leaves it as it was.
    pub fn replied(&mut self, reply: &Reply) -> (r: bool)
        ensures
            r == (reply is Done),
            *final(self) == (MergeRow { busy: false, ..*old(self) }),
    {
        self.busy = false;
        matches!(reply, Reply::Done)
    }
}

/// What the compare button says.
pub fn compare_key(open: bool) -> (r: &'static str)
    ensures
        r@ == (if open {
            "console.merge.hide"@
        } else {
            "console.merge.compare"@
        }),
{
    if open {
        "console.merge.hide"
    } else {
        "console.merge.compare"
    }
}

/// What one sweep did.
#[derive(Debug, Clone, Copy, PartialEq, Eq, Structural)]
pub struct SweepReport {
    pub pairs_examined: i64,
    pub auto_merged: i64,
    pub queued: i64,
    pub reopened: i64,
    pub requeued: i64,
    pub withdrawn: i64,
}

/// What one sweep did, in words. Pairs newly queued and pairs reopened both lengthen the
/// queue; pairs scored again do not.
pub fn sweep_done(report: &SweepReport) -> (r: Phrase)
    requires
        i64::MIN <= report.queued + report.reopened <= i64::MAX,
    ensures
        r@ == PhraseView::plain("console.merge.sweepDone"@).number(
            "examined"@,
            report.pairs_examined as int,
        ).number("merged"@, report.auto_merged as int).number(
            "queued"@,
            report.queued + report.reopened,
        ).number("rescored"@, report.requeued as int).number(
            "withdrawn"@,
            report.withdrawn as int,
        ),
{
    Phrase::plain("console.merge.sweepDone").number("examined", report.pairs_examined).number(
        "merged",
        report.auto_merged,
    ).number("queued", report.queued + report.reopened).number(
        "rescored",
        report.requeued,
    ).number("withdrawn", report.withdrawn)
}

/// What a rebuild of the matching keys did, in words.
pub fn rebuild_done(series: i64, titles: i64) -> (r: Phrase)
    ensures
        r@ == PhraseView::plain("console.merge.rebuildDone"@).number(
            "series"@,
            series as int,
        ).number("titles"@, titles as int),
{
    Phrase::plain("console.merge.rebuildDone").number("series", series).number("titles", titles)
}

/// What the start of an exhaustive sweep is answered. A run that already goes on is no
/// error: it does this one's work.
pub fn full_sweep_answer(started: bool) -> (r: Phrase)
    ensures
        r@ == PhraseView::plain(
            if started {
                "console.merge.fullSweepStarted"@
            } else {
                "console.merge.fullSweepBusy"@
            },
        ),
{
    if started {
        Phrase::plain("console.merge.fullSweepStarted")
    } else {
        Phrase::plain("console.merge.fullSweepBusy")
    }
}

/// A button that acts on rows out of sight, and so says in words what it did.
#[derive(Debug, PartialEq, Eq)]
pub struct SweepControl {
    pub busy: bool,
    pub notice: Option<Phrase>,
}

/// A button as its characters.
#[verifier::ext_equal]
pub struct SweepView {
    pub busy: bool,
    pub notice: Option<PhraseView>,
}

impl View for SweepControl {
    type V = SweepView;

    open spec fn view(&self) -> SweepView {
        SweepView {
            busy: self.busy,
            notice: match self.notice {
                Some(p) => Some(p@),
                None => None,
            },
        }
    }
}

impl SweepControl {
    /// A button that was not pressed.
    pub fn new() -> (r: SweepControl)
        ensures
            r@ == (SweepView { busy: false, notice: None }),
    {
        SweepControl { busy: false, notice: None }
    }

    /// Presses the button. `true` where the request is to be sent: by a reader who is
    /// signed in, and not while another is under way.
    pub fn press(&mut self, signed_in: bool) -> (r: bool)
        ensures
            r == (!old(self)@.busy && signed_in),
            final(self)@ == (if old(self)@.busy {
                old(self)@
            } else {
                SweepView { busy: signed_in, notice: None }
            }),
    {
        if self.busy {
            return false;
        }
        self.busy = signed_in;
        self.notice = None;
        signed_in
    }

    /// Takes the reply, and what to say where it was done. `true` where there is
    /// something to read again.
    pub fn replied(&mut self, reply: Reply, done: Phrase) -> (r: bool)
        ensures
            r == (reply is Done),
            final(self)@ == (SweepView {
                busy: false,
                notice: match reply {
                    Reply::Done => Some(done@),
                    Reply::StepUp => old(self)@.notice,
                    Reply::Failed(why) => Some(
                        PhraseView::plain("console.merge.actionFailed"@).verbatim(
                            "message"@,
                            why@,
                        ),
                    ),
                },
            }),
    {
        self.busy = false;
        match reply {
            Reply::Done => {
                self.notice = Some(done);
                true
            },
            Reply::StepUp => false,
            Reply::Failed(why) => {
                self.notice = Some(
                    Phrase::plain("console.merge.actionFailed").verbatim("message", why.as_str()),
                );
                false
            },
        }
    }
}

/// What an exhaustive sweep is doing, or did last.
#[derive(Debug, PartialEq, Eq)]
pub struct FullSweepStatus {
    pub running: bool,
    pub rounds: i64,
    pub pairs_examined: i64,
    pub auto_merged: i64,
    pub queued: i64,
    pub reopened: i64,
    pub withdrawn: i64,
    /// Why the last run stopped; absent before any.
    pub stopped: Option<String>,
    pub error: Option<String>,
}

/// A sentence about an exhaustive sweep, with its figures.
pub open spec fn counted(key: Seq<char>, view: FullSweepStatus) -> PhraseView {
    PhraseView::plain(key).number("rounds"@, view.rounds as int).number(
        "examined"@,
        view.pairs_examined as int,
    ).number("merged"@, view.auto_merged as int).number(
        "queued"@,
        view.queued + view.reopened,
    ).number("withdrawn"@, view.withdrawn as int)
}

/// The account of an exhaustive sweep: what it is doing, or how the last run ended. There
/// is none before any run.
pub open spec fn sweep_account(view: FullSweepStatus) -> Option<PhraseView> {
    if view.running {
        Some(counted("console.merge.fullSweepRunning"@, view))
    } else {
        match view.stopped {
            None => None,
            Some(why) => Some(
                if why@ == "exhausted"@ {
                    counted("console.merge.fullSweepDone"@, view)
                } else if why@ == "merge_ceiling"@ {
                    counted("console.merge.fullSweepCeiling"@, view)
                } else if why@ == "round_cap"@ {
                    counted("console.merge.fullSweepCapped"@, view)
                } else {
                    PhraseView::plain("console.merge.fullSweepFailed"@).verbatim(
                        "message"@,
                        match view.error {
                            Some(error) => error@,
                            None => "-"@,
                        },
                    )
                },
            ),
        }
    }
}

fn with_counts(key: &'static str, view: &FullSweepStatus) -> (r: Phrase)
    requires
        i64::MIN <= view.queued + view.reopened <= i64::MAX,
    ensures
        r@ == counted(key@, *view),
{
    Phrase::plain(key).number("rounds", view.rounds).number(
        "examined",
        view.pairs_examined,
    ).number("merged", view.auto_merged).number("queued", view.queued + view.reopened).number(
        "withdrawn",
        view.withdrawn,
    )
}

/// The account of an exhaustive sweep. A reason that this build does not know is told in
/// the server's own words.
pub fn full_sweep_line(view: &FullSweepStatus) -> (r: Option<Phrase>)
    requires
        i64::MIN <= view.queued + view.reopened <= i64::MAX,
    ensures
        (match r {
            Some(p) => Some(p@),
            None => None,
        }) == sweep_account(*view),
{
    if view.running {
        return Some(with_counts("console.merge.fullSweepRunning", view));
    }
    match &view.stopped {
        None => None,
        Some(why) => {
            if text::same(why.as_str(), "exhausted") {
                Some(with_counts("console.merge.fullSweepDone", view))
            } else if text::same(why.as_str(), "merge_ceiling") {
                Some(with_counts("console.merge.fullSweepCeiling", view))
            } else if text::same(why.as_str(), "round_cap") {
                Some(with_counts("console.merge.fullSweepCapped", view))
            } else {
                let message = match &view.error {
                    Some(error) => error.as_str(),
                    None => "-",
                };
                Some(Phrase::plain("console.merge.fullSweepFailed").verbatim("message", message))
            }
        },
    }
}

/// Whether the state of the sweep is read again on the next tick: only while one runs.
pub fn polls(view: Option<&FullSweepStatus>) -> (r: bool)
    ensures
        r == (view is Some && view->0.running),
{
    match view {
        Some(status) => status.running,
        None => false,
    }
}

/// Whether the button that starts a sweep can be pressed.
pub fn can_start(view: Option<&FullSweepStatus>, busy: bool) -> (r: bool)
    ensures
        r == (!busy && !(view is Some && view->0.running)),
{
    !busy && !polls(view)
}

/// The card with the policy that the sweep applies: folded until an operator who disagrees
/// with the queue opens it.
#[derive(Debug, Clone, Copy, PartialEq, Eq, Structural)]
pub struct PolicyCard {
    pub open: bool,
}

impl PolicyCard {
    /// The card as it appears.
    pub fn new() -> (r: PolicyCard)
        ensures
            r == (PolicyCard { open: false }),
    {
        PolicyCard { open: false }
    }

    /// Folds or unfolds the card.
    pub fn toggle(&mut self)
        ensures
            *final(self) == (PolicyCard { open: !old(self).open }),
    {
        self.open = !self.open;
    }

    /// Whether the policy is fetched: a folded card asks for nothing.
    pub fn is_fetched(self) -> (r: bool)
        ensures
            r == self.open,
    {
        self.open
    }

    /// Whether the card says that the reader can change nothing.
    pub fn says_read_only(self, caps: &Capabilities) -> (r: bool)
        ensures
            r == (self.open && !caps.may(Permission::MergeWrite)),
    {
        self.open && !caps.can(Permission::MergeWrite)
    }

    /// What the button of the card says.
    pub fn key(self) -> (r: &'static str)
        ensures
            r@ == (if self.open {
                "console.merge.policy.hide"@
            } else {
                "console.merge.policy.show"@
            }),
    {
        if self.open {
            "console.merge.policy.hide"
        } else {
            "console.merge.policy.show"
        }
    }
}

/// The keys that word a signal: the queue's own first, then the journal's.
pub open spec fn signal_keys(slug: Seq<char>) -> LabelView {
    LabelView::FirstOf(
        seq!["console.merge.signal."@ + slug, "console.decisions.term."@ + slug],
        slug,
    )
}

/// The wording of a signal of the scorer, or its slug. The vocabulary is the scorer's,
/// and a signal that this build has never heard of is shown as it is.
pub fn signal_label(slug: &str) -> (r: Label)
    ensures
        r@ == signal_keys(slug@),
{
    let mut first = "console.merge.signal.".to_owned();
    first.append(slug);
    let mut second = "console.decisions.term.".to_owned();
    second.append(slug);
    let mut keys: Vec<String> = Vec::new();
    keys.push(first);
    keys.push(second);
    let r = Label::FirstOf(keys, slug.to_owned());
    assert(Seq::new(keys@.len(), |i: int| keys@[i]@) =~= seq![
        "console.merge.signal."@ + slug@,
        "console.decisions.term."@ + slug@,
    ]);
    r
}

/// A source of a series, as a card lists it.
#[derive(Debug, PartialEq, Eq)]
pub struct SourceLine {
    pub provider_name: String,
    pub chapter_count: i64,
}

/// A series, as far as a card shows it.
#[derive(Debug, PartialEq, Eq)]
pub struct SeriesDetail {
    pub release_year: Option<i32>,
    pub sources: Vec<SourceLine>,
    pub tags: Vec<String>,
}

/// How many tags a card shows.
pub const CARD_TAGS: usize = 6;

/// How many sources a card shows.
pub const CARD_SOURCES: usize = 5;

/// A card with what one series is.
#[derive(Debug, PartialEq, Eq)]
pub struct MiniCard {
    pub year: Option<i32>,
    pub sources: Phrase,
    /// The first sources, each with how many chapters it has.
    pub lines: Vec<(String, Phrase)>,
    /// The first tags.
    pub tags: Vec<String>,
}

/// How many of some rows a card shows.
pub open spec fn at_most(n: nat, most: nat) -> nat {
    if n <= most {
        n
    } else {
        most
    }
}

/// A card with what one series is.
pub fn mini_card(detail: &SeriesDetail) -> (r: MiniCard)
    ensures
        r.year == detail.release_year,
        r.sources@ == PhraseView::plural(
            "series.sources"@,
            if detail.sources@.len() <= i64::MAX {
                detail.sources@.len() as i64
            } else {
                0
            },
        ),
        r.lines@.len() == at_most(detail.sources@.len(), CARD_SOURCES as nat),
        forall|i: int|
            0 <= i < r.lines@.len() ==> (#[trigger] r.lines@[i]).0@
                == detail.sources@[i].provider_name@ && r.lines@[i].1@ == PhraseView::plain(
                "series.chapterCount"@,
            ).number("count"@, detail.sources@[i].chapter_count as int),
        r.tags@.len() == at_most(detail.tags@.len(), CARD_TAGS as nat),
        forall|i: int| 0 <= i < r.tags@.len() ==> (#[trigger] r.tags@[i])@ == detail.tags@[i]@,
{
    let mut lines: Vec<(String, Phrase)> = Vec::new();
    let mut i: usize = 0;
    while i < detail.sources.len() && i < CARD_SOURCES
        invariant
            i <= detail.sources.len(),
            i <= CARD_SOURCES,
            lines@.len() == i,
            forall|j: int|
                0 <= j < i ==> (#[trigger] lines@[j]).0@ == detail.sources@[j].provider_name@
                    && lines@[j].1@ == PhraseView::plain("series.chapterCount"@).number(
                    "count"@,
                    detail.sources@[j].chapter_count as int,
                ),
        decreases detail.sources.len() - i,
    {
        let source = &detail.sources[i];
        lines.push(
            (
                source.provider_name.clone(),
                Phrase::plain("series.chapterCount").number("count", source.chapter_count),
            ),
        );
        i = i + 1;
    }
    let mut tags: Vec<String> = Vec::new();
    let mut k: usize = 0;
    while k < detail.tags.len() && k < CARD_TAGS
        invariant
            k <= detail.tags.len(),
            k <= CARD_TAGS,
            tags@.len() == k,
            forall|j: int| 0 <= j < k ==> (#[trigger] tags@[j])@ == detail.tags@[j]@,
        decreases detail.tags.len() - k,
    {
        tags.push(detail.tags[k].clone());
        k = k + 1;
    }
    MiniCard {
        year: detail.release_year,
        sources: Phrase::plural(
            "series.sources",
            crate::provider::row_count(detail.sources.len()),
        ),
        lines,
        tags,
    }
}

/// A merge that is sent keeps the side on the left and takes in the one on the right, as
/// the row stands; the suggestion decides how it stands at first, and a swap turns it
/// over. It is sent once, and only for a reader who is signed in.
pub proof fn a_merge_keeps_the_side_it_shows(
    candidate: &MergeCandidate,
    opened: MergeRow,
    row: &mut MergeRow,
    signed_in: bool,
    sent: Option<MergeRequest>,
    swapped: &mut MergeRow,
)
    requires
        call_ensures(MergeRow::new, (candidate,), opened),
        call_ensures(MergeRow::merge, (row, candidate, signed_in), sent),
        call_ensures(MergeRow::swap, (swapped,), ()),
    ensures
        opened.keep_first <==> candidate.suggested_keep == candidate.series_id,
        !opened.busy && !opened.open,
        sent is Some <==> !old(row).busy && signed_in,
        sent is Some && old(row).keep_first ==> sent->0.keep == candidate.series_id
            && sent->0.merge == candidate.candidate_id,
        sent is Some && !old(row).keep_first ==> sent->0.keep == candidate.candidate_id
            && sent->0.merge == candidate.series_id,
        sent is Some ==> final(row).busy,
        final(row).keep_first == old(row).keep_first,
        final(row).open == old(row).open,
        final(swapped).keep_first != old(swapped).keep_first,
        final(swapped).open == old(swapped).open,
        final(swapped).busy == old(swapped).busy,
{
}

/// The two sides of a candidate are its two records, each with its own title and figures,
/// and the flag says which of them is kept.
pub proof fn each_side_is_its_record(c: &MergeCandidate, keep_first: bool, sides: MergeSides)
    requires
        call_ensures(MergeSides::of, (c, keep_first), sides),
    ensures
        ({
            let first = if keep_first {
                sides.keep
            } else {
                sides.drop
            };
            let second = if keep_first {
                sides.drop
            } else {
                sides.keep
            };
            &&& first.id == c.series_id
            &&& first.title@ == c.series_title@
            &&& first.sources == c.series_sources
            &&& first.chapters == c.series_chapters
            &&& second.id == c.candidate_id
            &&& second.title@ == c.candidate_title@
            &&& second.sources == c.candidate_sources
            &&& second.chapters == c.candidate_chapters
        }),
{
    assert(sides.keep@ == oriented(*c, keep_first).keep);
    assert(sides.drop@ == oriented(*c, keep_first).drop);
}

/// A dismissal names the pair and not one of its sides; a reply frees the row and keeps
/// which side it shows.
pub proof fn a_dismissal_names_the_pair(
    row: &mut MergeRow,
    candidate: &MergeCandidate,
    signed_in: bool,
    sent: Option<u128>,
    replied: &mut MergeRow,
    reply: &Reply,
    gone: bool,
)
    requires
        call_ensures(MergeRow::dismiss, (row, candidate, signed_in), sent),
        call_ensures(MergeRow::replied, (replied, reply), gone),
    ensures
        sent is Some <==> !old(row).busy && signed_in,
        sent is Some ==> sent->0 == candidate.id && final(row).busy,
        gone <==> reply is Done,
        !final(replied).busy,
        final(replied).keep_first == old(replied).keep_first,
        final(replied).open == old(replied).open,
{
}

/// The colour of a score: from ninety, from seventy-five, and below.
pub proof fn a_score_is_coloured_by_its_band(percent: i32, class: &'static str)
    requires
        call_ensures(score_class, (percent,), class),
    ensures
        class@ == "ik-mono acc"@ <==> percent >= 90,
        class@ == "ik-mono jade"@ <==> 75 <= percent < 90,
        class@ == "ik-mono ik-muted"@ <==> percent < 75,
{
    reveal_strlit("ik-mono acc");
    reveal_strlit("ik-mono jade");
    reveal_strlit("ik-mono ik-muted");
    assert("ik-mono acc"@.len() == 11);
    assert("ik-mono jade"@.len() == 12);
    assert("ik-mono ik-muted"@.len() == 16);
}

/// What a full sweep says of itself. While it runs, and where it ran out of pairs, of
/// merges or of rounds, it gives its five counts, those it queued together with those it
/// reopened; where it failed it gives the error; before any it says nothing.
pub proof fn a_sweep_gives_its_counts(view: FullSweepStatus)
    ensures
        sweep_account(view) is Some <==> view.running || view.stopped is Some,
        view.running ==> sweep_account(view)->0.key == "console.merge.fullSweepRunning"@,
        !view.running && view.stopped is Some ==> sweep_account(view)->0.key == (
        if view.stopped->0@ == "exhausted"@ {
            "console.merge.fullSweepDone"@
        } else if view.stopped->0@ == "merge_ceiling"@ {
            "console.merge.fullSweepCeiling"@
        } else if view.stopped->0@ == "round_cap"@ {
            "console.merge.fullSweepCapped"@
        } else {
            "console.merge.fullSweepFailed"@
        }),
        view.running || (view.stopped is Some && (view.stopped->0@ == "exhausted"@
            || view.stopped->0@ == "merge_ceiling"@ || view.stopped->0@ == "round_cap"@))
            ==> sweep_account(view)->0.args == seq![
            ("rounds"@, ArgView::Number(view.rounds as int)),
            ("examined"@, ArgView::Number(view.pairs_examined as int)),
            ("merged"@, ArgView::Number(view.auto_merged as int)),
            ("queued"@, ArgView::Number(view.queued + view.reopened)),
            ("withdrawn"@, ArgView::Number(view.withdrawn as int)),
        ],
        !view.running && view.stopped is Some && view.stopped->0@ != "exhausted"@
            && view.stopped->0@ != "merge_ceiling"@ && view.stopped->0@ != "round_cap"@
            ==> sweep_account(view)->0.args == seq![
            (
                "message"@,
                ArgView::Label(
                    LabelView::Verbatim(
                        if view.error is Some {
                            view.error->0@
                        } else {
                            "-"@
                        },
                    ),
                ),
            ),
        ],
{
    if sweep_account(view) is Some {
        let args = sweep_account(view)->0.args;
        if args.len() == 5 {
            assert(args =~= seq![
                ("rounds"@, ArgView::Number(view.rounds as int)),
                ("examined"@, ArgView::Number(view.pairs_examined as int)),
                ("merged"@, ArgView::Number(view.auto_merged as int)),
                ("queued"@, ArgView::Number(view.queued + view.reopened)),
                ("withdrawn"@, ArgView::Number(view.withdrawn as int)),
            ]);
        } else {
            assert(args =~= seq![args[0]]);
        }
    }
}

/// A sweep can be started while none runs and no press is under way, and is asked after
/// exactly while it runs.
pub proof fn a_sweep_runs_alone(
    view: Option<&FullSweepStatus>,
    busy: bool,
    asked: bool,
    startable: bool,
)
    requires
        call_ensures(polls, (view,), asked),
        call_ensures(can_start, (view, busy), startable),
    ensures
        asked <==> view is Some && view->0.running,
        startable <==> !busy && !asked,
{
}

/// A press of the sweep is sent once, for a reader who is signed in; the reply frees it
/// and says what came of it, and only signing in again leaves what it said.
pub proof fn a_sweep_is_pressed_once(
    pressed: &mut SweepControl,
    signed_in: bool,
    sent: bool,
    replied: &mut SweepControl,
    reply: Reply,
    done: Phrase,
    again: bool,
)
    requires
        call_ensures(SweepControl::press, (pressed, signed_in), sent),
        call_ensures(SweepControl::replied, (replied, reply, done), again),
    ensures
        sent <==> !old(pressed)@.busy && signed_in,
        sent ==> final(pressed)@.busy && final(pressed)@.notice is None,
        old(pressed)@.busy ==> final(pressed)@ == old(pressed)@,
        again <==> reply is Done,
        !final(replied)@.busy,
        reply is Done ==> final(replied)@.notice == Some(done@),
        reply is StepUp ==> final(replied)@.notice == old(replied)@.notice,
        reply matches Reply::Failed(why) ==> final(replied)@.notice is Some
            && final(replied)@.notice->0.args == seq![
            ("message"@, ArgView::Label(LabelView::Verbatim(why@))),
        ],
{
    if reply is Failed {
        assert(final(replied)@.notice->0.args =~= seq![
            ("message"@, ArgView::Label(LabelView::Verbatim(reply->Failed_0@))),
        ]);
    }
}

/// The policy is fetched while its card is open, and says that it cannot be changed to a
/// reader without the permission to change it.
pub proof fn a_policy_says_when_it_is_read_only(
    card: PolicyCard,
    caps: &Capabilities,
    fetched: bool,
    said: bool,
)
    requires
        call_ensures(PolicyCard::is_fetched, (card,), fetched),
        call_ensures(PolicyCard::says_read_only, (card, caps), said),
    ensures
        fetched <==> card.open,
        said <==> card.open && !caps.permissions@.contains(Permission::MergeWrite),
{
}

/// A card shows the first five sources and the first six tags, in their order, and counts
/// every source.
pub proof fn a_card_shows_the_first_of_many(detail: &SeriesDetail, card: MiniCard)
    requires
        detail.sources@.len() <= i64::MAX,
        call_ensures(mini_card, (detail,), card),
    ensures
        card.year == detail.release_year,
        card.sources@.count == Some(detail.sources@.len() as i64),
        card.lines@.len() <= 5,
        card.lines@.len() == detail.sources@.len() || card.lines@.len() == 5
            && detail.sources@.len() > 5,
        forall|i: int|
            0 <= i < card.lines@.len() ==> (#[trigger] card.lines@[i]).0@
                == detail.sources@[i].provider_name@,
        card.tags@.len() <= 6,
        card.tags@.len() == detail.tags@.len() || card.tags@.len() == 6 && detail.tags@.len() > 6,
        forall|i: int|
            0 <= i < card.tags@.len() ==> (#[trigger] card.tags@[i])@ == detail.tags@[i]@,
{
}

/// The two sides of a merge are told by their own figures, what is kept before what goes.
pub proof fn sides_are_told_by_their_figures(sides: &MergeSides, told: Phrase)
    requires
        call_ensures(sides_words, (sides,), told),
    ensures
        told@.args == seq![
            (
                "keep"@,
                ArgView::Counts(
                    CountedView::Plural("series.sources"@, sides.keep.sources),
                    CountedView::Named("series.chapterCount"@, sides.keep.chapters),
                ),
            ),
            (
                "drop"@,
                ArgView::Counts(
                    CountedView::Plural("series.sources"@, sides.drop.sources),
                    CountedView::Named("series.chapterCount"@, sides.drop.chapters),
                ),
            ),
        ],
{
    assert(sides@.keep.sources == sides.keep.sources);
    assert(sides@.drop.sources == sides.drop.sources);
    assert(told@.args =~= seq![told@.args[0], told@.args[1]]);
}

/// A sweep that is done gives its five counts, those it queued together with those it
/// reopened.
pub proof fn a_finished_sweep_gives_its_counts(report: &SweepReport, told: Phrase)
    requires
        i64::MIN <= report.queued + report.reopened <= i64::MAX,
        call_ensures(sweep_done, (report,), told),
    ensures
        told@.args == seq![
            ("examined"@, ArgView::Number(report.pairs_examined as int)),
            ("merged"@, ArgView::Number(report.auto_merged as int)),
            ("queued"@, ArgView::Number(report.queued + report.reopened)),
            ("rescored"@, ArgView::Number(report.requeued as int)),
            ("withdrawn"@, ArgView::Number(report.withdrawn as int)),
        ],
{
    assert(told@.args =~= seq![
        ("examined"@, ArgView::Number(report.pairs_examined as int)),
        ("merged"@, ArgView::Number(report.auto_merged as int)),
        ("queued"@, ArgView::Number(report.queued + report.reopened)),
        ("rescored"@, ArgView::Number(report.requeued as int)),
        ("withdrawn"@, ArgView::Number(report.withdrawn as int)),
    ]);
}

/// A signal is worded under its own heading first and under that of the terms next, and
/// shown as it stands where neither has it.
pub proof fn an_unworded_signal_is_shown(slug: Seq<char>)
    ensures
        signal_keys(slug) matches LabelView::FirstOf(keys, otherwise) && keys.len() == 2 && keys[0]
            == "console.merge.signal."@ + slug && keys[1] == "console.decisions.term."@ + slug
            && otherwise == slug,
{
}

} // verus!
