//! What is happening right now: the runs in flight, and the tasks that have just
//! settled.
//!
//! Run counters alone cannot tell working from wedged: both leave the counter where
//! it was. The figures that can are how many tasks a worker is holding, how long the
//! oldest claim has been held, and what settled in the last few seconds.

use crate::duration;
use crate::foreign::{self, Json};
use crate::notice::Reply;
use crate::rows;
use crate::runs::ScanRun;
use crate::stages;
use crate::text;
use crate::wording::{ArgView, Label, LabelView, Phrase, PhraseView};
use vstd::prelude::*;

verus! {

broadcast use vstd::string::group_string_axioms;

/// How long a single claim may be held, in milliseconds, before the card says so.
/// Generous: a full catalogue page against a slow provider takes minutes.
pub const STALE_CLAIM_MS: i64 = 300_000;

/// The task-level state of a run in flight. Instants are milliseconds since the epoch.
#[derive(Debug, PartialEq, Eq)]
pub struct RunActivity {
    pub run_id: u128,
    pub running_tasks: i64,
    pub queued_tasks: i64,
    pub workers: i64,
    pub stage: Option<String>,
    pub stage_detail: Option<String>,
    pub stage_done: Option<i32>,
    pub stage_total: Option<i32>,
    pub stage_at: Option<i64>,
    pub waiting_since: Option<i64>,
    pub oldest_claim_at: Option<i64>,
    pub kinds: Vec<String>,
}

/// What a run is doing right now.
#[derive(Debug, PartialEq, Eq)]
pub enum Doing {
    /// A worker is on it, in this stage, for this many milliseconds.
    Stage {
        label: Label,
        detail: Option<String>,
        progress: Option<(i32, i32)>,
        for_ms: Option<i64>,
    },
    /// Nothing is claimed and tasks are queued: it waits for a slot.
    Waiting { for_ms: Option<i64> },
    /// Nothing claimed and nothing queued: the planner has not fanned out yet.
    Planning,
}

/// What a run is doing, as its characters and numbers.
#[verifier::ext_equal]
pub enum DoingView {
    Stage {
        label: LabelView,
        detail: Option<Seq<char>>,
        progress: Option<(i32, i32)>,
        for_ms: Option<int>,
    },
    Waiting { for_ms: Option<int> },
    Planning,
}

/// A number that may be absent, as a mathematical integer.
pub open spec fn whole(n: Option<i64>) -> Option<int> {
    match n {
        Some(n) => Some(n as int),
        None => None,
    }
}

impl View for Doing {
    type V = DoingView;

    open spec fn view(&self) -> DoingView {
        match *self {
            Doing::Stage { label, detail, progress, for_ms } => DoingView::Stage {
                label: label@,
                detail: text::view_of(detail),
                progress,
                for_ms: whole(for_ms),
            },
            Doing::Waiting { for_ms } => DoingView::Waiting { for_ms: whole(for_ms) },
            Doing::Planning => DoingView::Planning,
        }
    }
}

/// How long ago an instant was, as far as an `i64` of milliseconds can tell.
pub open spec fn age_of(then: Option<i64>, now: i64) -> Option<int> {
    match then {
        None => None,
        Some(then) => Some(
            if duration::span(then as int, now as int) > i64::MAX {
                i64::MAX as int
            } else {
                duration::span(then as int, now as int)
            },
        ),
    }
}

impl DoingView {
    /// What a run is doing. A run with nothing claimed is not working, whatever its
    /// state says: it waits for a worker's slot.
    pub open spec fn of(activity: Option<RunActivity>, now: i64) -> DoingView {
        match activity {
            None => DoingView::Planning,
            Some(a) => if a.running_tasks > 0 {
                DoingView::Stage {
                    label: match a.stage {
                        Some(stage) => stages::stage_label_of(stage@),
                        None => LabelView::Worded("console.scan.stage.unknown"@),
                    },
                    detail: text::view_of(a.stage_detail),
                    progress: match (a.stage_done, a.stage_total) {
                        (Some(done), Some(total)) => Some((done, total)),
                        _ => None,
                    },
                    for_ms: age_of(a.stage_at, now),
                }
            } else if a.queued_tasks > 0 {
                DoingView::Waiting { for_ms: age_of(a.waiting_since, now) }
            } else {
                DoingView::Planning
            },
        }
    }
}

impl DoingView {
    /// What is said of a run, with how long that has been so.
    pub open spec fn words(self) -> PhraseView {
        match self {
            DoingView::Stage { for_ms, .. } => PhraseView::plain("console.scan.stage.since"@).words(
                "duration"@,
                duration::counted_words(for_ms),
            ),
            DoingView::Waiting { for_ms } => PhraseView::plain(
                "console.scan.stage.waiting"@,
            ).words("duration"@, duration::counted_words(for_ms)),
            DoingView::Planning => PhraseView::plain("console.scan.stage.planning"@),
        }
    }
}

impl Doing {
    /// What is said of a run: how long it has been in its stage, how long it has waited,
    /// or that it is being planned.
    pub fn words(&self) -> (r: Phrase)
        ensures
            r@ == self@.words(),
    {
        match self {
            Doing::Stage { for_ms, .. } => Phrase::plain("console.scan.stage.since").took(
                "duration",
                duration::took(*for_ms),
            ),
            Doing::Waiting { for_ms } => Phrase::plain("console.scan.stage.waiting").took(
                "duration",
                duration::took(*for_ms),
            ),
            Doing::Planning => Phrase::plain("console.scan.stage.planning"),
        }
    }

    /// What a run is doing right now.
    pub fn of(activity: Option<&RunActivity>, now: i64) -> (r: Doing)
        ensures
            r@ == DoingView::of(
                match activity {
                    Some(a) => Some(*a),
                    None => None,
                },
                now,
            ),
    {
        let a = match activity {
            Some(a) => a,
            None => return Doing::Planning,
        };
        if a.running_tasks > 0 {
            let label = match &a.stage {
                Some(stage) => stages::stage_label(stage.as_str()),
                None => Label::Worded("console.scan.stage.unknown"),
            };
            let progress = match (a.stage_done, a.stage_total) {
                (Some(done), Some(total)) => Some((done, total)),
                _ => None,
            };
            return Doing::Stage {
                label,
                detail: text::copied(&a.stage_detail),
                progress,
                for_ms: duration::age_ms(a.stage_at, now),
            };
        }
        if a.queued_tasks > 0 {
            return Doing::Waiting { for_ms: duration::age_ms(a.waiting_since, now) };
        }
        Doing::Planning
    }
}

/// A run in flight is said to work exactly where a worker holds one of its tasks.
pub proof fn working_means_claimed(activity: Option<RunActivity>, now: i64)
    ensures
        (DoingView::of(activity, now) is Stage) == (activity is Some
            && activity->0.running_tasks > 0),
        DoingView::of(activity, now) is Waiting ==> activity->0.running_tasks <= 0
            && activity->0.queued_tasks > 0,
{
}

/// The activity of a run, found by its id.
pub open spec fn activity_at(list: Seq<RunActivity>, id: u128) -> Option<int> {
    let at = rows::first(list.len(), |i: int| list[i].run_id == id);
    if at < list.len() {
        Some(at)
    } else {
        None
    }
}

/// The position of a run's activity, found by its id.
pub fn activity_for(list: &[RunActivity], id: u128) -> (r: Option<usize>)
    ensures
        (match r {
            Some(at) => Some(at as int),
            None => None,
        }) == activity_at(list@, id),
{
    let ghost test = |i: int| list@[i].run_id == id;
    let mut i: usize = 0;
    while i < list.len()
        invariant
            i <= list.len(),
            test == (|i: int| list@[i].run_id == id),
            forall|j: int| 0 <= j < i ==> !#[trigger] test(j),
        decreases list.len() - i,
    {
        if list[i].run_id == id {
            assert(test(i as int));
            proof {
                rows::lemma_first(list@.len(), test, i as int);
            }
            return Some(i);
        }
        assert(!test(i as int));
        i = i + 1;
    }
    proof {
        rows::lemma_first(list@.len(), test, list@.len() as int);
    }
    None
}

/// Some texts in a row, with a comma and a space between them.
pub open spec fn listed(texts: Seq<String>) -> Seq<char>
    decreases texts.len(),
{
    if texts.len() == 0 {
        Seq::empty()
    } else if texts.len() == 1 {
        texts[0]@
    } else {
        listed(texts.drop_last()) + ", "@ + texts.last()@
    }
}

/// Some texts in a row.
pub fn list_texts(texts: &[String]) -> (r: String)
    ensures
        r@ == listed(texts@),
{
    let mut out = String::new();
    let mut i: usize = 0;
    assert(texts@.take(0).len() == 0);
    while i < texts.len()
        invariant
            i <= texts.len(),
            out@ == listed(texts@.take(i as int)),
        decreases texts.len() - i,
    {
        assert(texts@.take(i + 1).drop_last() == texts@.take(i as int));
        assert(texts@.take(i + 1).last() == texts@[i as int]);
        if i > 0 {
            out.append(", ");
            out.append(texts[i].as_str());
        } else {
            out = texts[i].clone();
        }
        assert(out@ == listed(texts@.take(i + 1)));
        i = i + 1;
    }
    assert(texts@.take(texts@.len() as int) == texts@);
    out
}

/// The figures of a run's card.
#[derive(Debug, PartialEq, Eq)]
pub struct CardFigures {
    pub in_flight: i64,
    pub queued: i64,
    pub workers: i64,
    /// The kinds of its tasks, where there are any.
    pub kinds: Option<String>,
    /// How long the oldest claim has been held, where that is long enough to say.
    pub stale_claim_ms: Option<i64>,
}

impl CardFigures {
    /// That the oldest claim has been held for long, where the card says so.
    pub fn stale_words(&self) -> (r: Option<Phrase>)
        ensures
            match (r, self.stale_claim_ms) {
                (Some(p), Some(ms)) => p@ == PhraseView::plain(
                    "console.scan.live.staleClaim"@,
                ).words("duration"@, duration::duration_words(duration::counted(ms as int))),
                (None, None) => true,
                _ => false,
            },
    {
        match self.stale_claim_ms {
            Some(ms) => Some(
                Phrase::plain("console.scan.live.staleClaim").took(
                    "duration",
                    duration::took(Some(ms)),
                ),
            ),
            None => None,
        }
    }
}

/// The figures of a run's card: zeros for a run without activity.
pub fn card_figures(activity: Option<&RunActivity>, now: i64) -> (r: CardFigures)
    ensures
        match activity {
            None => r.in_flight == 0 && r.queued == 0 && r.workers == 0 && r.kinds is None
                && r.stale_claim_ms is None,
            Some(a) => {
                &&& r.in_flight == a.running_tasks
                &&& r.queued == a.queued_tasks
                &&& r.workers == a.workers
                &&& text::view_of(r.kinds) == crate::query::present(listed(a.kinds@))
                &&& whole(r.stale_claim_ms) == (match age_of(a.oldest_claim_at, now) {
                    Some(age) => if age >= STALE_CLAIM_MS {
                        Some(age)
                    } else {
                        None
                    },
                    None => None,
                })
            },
        },
{
    let a = match activity {
        Some(a) => a,
        None => return CardFigures {
            in_flight: 0,
            queued: 0,
            workers: 0,
            kinds: None,
            stale_claim_ms: None,
        },
    };
    let stale_claim_ms = match duration::age_ms(a.oldest_claim_at, now) {
        Some(age) => if age >= STALE_CLAIM_MS {
            Some(age)
        } else {
            None
        },
        None => None,
    };
    CardFigures {
        in_flight: a.running_tasks,
        queued: a.queued_tasks,
        workers: a.workers,
        kinds: crate::query::non_empty(list_texts(a.kinds.as_slice())),
        stale_claim_ms,
    }
}

/// The tasks of a run that have settled.
pub fn settled_tasks(run: &ScanRun) -> (r: i64)
    ensures
        r == run.done_tasks + run.failed_tasks,
{
    run.done_tasks as i64 + run.failed_tasks as i64
}

/// Whether a run's pace can be told: only once something has settled in some time.
pub fn has_pace(run: &ScanRun, elapsed_ms: Option<i64>) -> (r: bool)
    ensures
        r == (elapsed_ms is Some && elapsed_ms->0 > 0 && run.done_tasks + run.failed_tasks > 0),
{
    match elapsed_ms {
        Some(ms) => ms > 0 && settled_tasks(run) > 0,
        None => false,
    }
}

/// Whether the rest of a run can be estimated from its pace: an estimate from
/// nothing is a number that an operator would plan around and should not.
pub fn has_estimate(run: &ScanRun, elapsed_ms: Option<i64>) -> (r: bool)
    ensures
        r == (elapsed_ms is Some && elapsed_ms->0 > 0 && run.done_tasks + run.failed_tasks > 0
            && run.total_tasks > run.done_tasks + run.failed_tasks),
{
    has_pace(run, elapsed_ms) && run.total_tasks as i64 > settled_tasks(run)
}

/// A run's counters in words.
pub fn progress_words(run: &ScanRun) -> (r: Phrase)
    ensures
        r@ == PhraseView::plain("console.scans.progress"@).number(
            "done"@,
            run.done_tasks as int,
        ).number("total"@, run.total_tasks as int).number("failed"@, run.failed_tasks as int),
{
    Phrase::plain("console.scans.progress").number("done", run.done_tasks as i64).number(
        "total",
        run.total_tasks as i64,
    ).number("failed", run.failed_tasks as i64)
}

/// A run's card: what it shows open, and whether it waits for the run to stop.
#[derive(Debug, PartialEq, Eq)]
pub struct RunCard {
    pub explaining: bool,
    pub cancelling: bool,
    pub refused: Option<String>,
}

impl RunCard {
    /// Opens or closes the explanation.
    pub fn toggle_explain(&mut self)
        ensures
            final(self).explaining == !old(self).explaining,
            final(self).cancelling == old(self).cancelling,
            final(self).refused == old(self).refused,
    {
        self.explaining = !self.explaining;
    }

    /// The catalogue key of the button that opens or closes the explanation.
    pub fn explain_key(&self) -> (r: &'static str)
        ensures
            r@ == (if self.explaining {
                "console.scan.explain.hide"@
            } else {
                "console.scan.explain.show"@
            }),
    {
        if self.explaining {
            "console.scan.explain.hide"
        } else {
            "console.scan.explain.show"
        }
    }

    /// Asks for the run to be stopped.
    pub fn cancel(&mut self)
        ensures
            final(self).cancelling,
            final(self).refused is None,
            final(self).explaining == old(self).explaining,
    {
        self.cancelling = true;
        self.refused = None;
    }

    /// Takes the reply. `true` where the panels are to be read again. A refusal is
    /// said on the card, unless the prompt for a second factor says it.
    pub fn cancelled(&mut self, reply: Reply) -> (r: bool)
        ensures
            r == (reply is Done),
            !final(self).cancelling,
            final(self).explaining == old(self).explaining,
            match reply {
                Reply::Failed(why) => final(self).refused == Some(why),
                _ => final(self).refused == old(self).refused,
            },
    {
        self.cancelling = false;
        match reply {
            Reply::Done => true,
            Reply::StepUp => false,
            Reply::Failed(why) => {
                self.refused = Some(why);
                false
            },
        }
    }
}

/// How a settled task ended.
#[derive(Debug, Clone, Copy, PartialEq, Eq, Structural)]
pub enum TaskEnd {
    Failed,
    Done,
    Other,
}

/// The style of the dot beside a settled task.
pub open spec fn dot_of(end: TaskEnd) -> Seq<char> {
    match end {
        TaskEnd::Failed => "background:var(--vermilion);"@,
        TaskEnd::Done => "background:var(--jade-bright);"@,
        TaskEnd::Other => "background:var(--muted);"@,
    }
}

/// The style of the dot beside a settled task.
pub fn dot_style(end: TaskEnd) -> (r: &'static str)
    ensures
        r@ == dot_of(end),
{
    match end {
        TaskEnd::Failed => "background:var(--vermilion);",
        TaskEnd::Done => "background:var(--jade-bright);",
        TaskEnd::Other => "background:var(--muted);",
    }
}

/// What a failed task says: its error, or that it recorded none.
pub open spec fn error_of(error: Option<String>) -> LabelView {
    match error {
        Some(error) => LabelView::Verbatim(error@),
        None => LabelView::Worded("console.scan.failures.noError"@),
    }
}

/// What a failed task says: its error, or that it recorded none.
pub fn error_label(error: &Option<String>) -> (r: Label)
    ensures
        r@ == error_of(*error),
{
    match error {
        Some(error) => Label::Verbatim(error.clone()),
        None => Label::Worded("console.scan.failures.noError"),
    }
}

/// A task that has settled.
#[derive(Debug, PartialEq, Eq)]
pub struct TaskEvent {
    pub id: u128,
    pub kind: String,
    pub provider_slug: Option<String>,
    /// What it was pointed at, as the planner wrote it down.
    pub target: serde_json::Value,
    pub end: TaskEnd,
    /// The catalogue key of the state that it ended in.
    pub state_key: String,
    pub error: Option<String>,
    pub finished_at: Option<String>,
}

/// What is happening: the runs in flight, and the tasks that have just settled, in the
/// order that the server gives them.
#[derive(Debug, PartialEq, Eq)]
pub struct ScanActivity {
    pub runs: Vec<RunActivity>,
    pub events: Vec<TaskEvent>,
}

/// What is happening, as it is known best: what was pushed, or what was read when the
/// panel opened.
pub fn known_activity<'a>(
    pushed: Option<&'a ScanActivity>,
    seed: Option<&'a ScanActivity>,
) -> (r: Option<&'a ScanActivity>)
    ensures
        r == (if pushed is Some {
            pushed
        } else {
            seed
        }),
{
    match pushed {
        Some(pushed) => Some(pushed),
        None => seed,
    }
}

/// A line of the tail of settled tasks.
#[derive(Debug, PartialEq, Eq)]
pub struct TailLine {
    pub dot: &'static str,
    /// When it settled, to be said as the time that has passed since.
    pub settled_at: Option<String>,
    pub kind: String,
    /// The provider; empty where the task has none.
    pub provider: String,
    pub target: String,
    pub failed: bool,
    /// The error of a task that failed, and the state of any other.
    pub said: Label,
}

/// A line of the tail, as its characters.
#[verifier::ext_equal]
pub struct TailView {
    pub dot: Seq<char>,
    pub settled_at: Option<Seq<char>>,
    pub kind: Seq<char>,
    pub provider: Seq<char>,
    pub target: Seq<char>,
    pub failed: bool,
    pub said: LabelView,
}

impl View for TailLine {
    type V = TailView;

    open spec fn view(&self) -> TailView {
        TailView {
            dot: self.dot@,
            settled_at: text::view_of(self.settled_at),
            kind: self.kind@,
            provider: self.provider@,
            target: self.target@,
            failed: self.failed,
            said: self.said@,
        }
    }
}

impl TailView {
    /// The line of a settled task. A task that failed says its error, or that it recorded
    /// none; any other says the state that it ended in.
    pub open spec fn of(event: TaskEvent) -> TailView {
        TailView {
            dot: dot_of(event.end),
            settled_at: text::view_of(event.finished_at),
            kind: event.kind@,
            provider: match event.provider_slug {
                Some(slug) => slug@,
                None => Seq::empty(),
            },
            target: target_of(foreign::json_of(event.target)),
            failed: event.end is Failed,
            said: if event.end is Failed {
                error_of(event.error)
            } else {
                LabelView::Keyed(event.state_key@)
            },
        }
    }
}

/// The line of a settled task.
pub fn tail_line(event: &TaskEvent) -> (r: TailLine)
    ensures
        r@ == TailView::of(*event),
{
    let failed = event.end == TaskEnd::Failed;
    TailLine {
        dot: dot_style(event.end),
        settled_at: text::copied(&event.finished_at),
        kind: event.kind.clone(),
        provider: match &event.provider_slug {
            Some(slug) => slug.clone(),
            None => String::new(),
        },
        target: target_label(&event.target),
        failed,
        said: if failed {
            error_label(&event.error)
        } else {
            Label::Keyed(event.state_key.clone())
        },
    }
}

/// The lines of the tail: one for each settled task, in the order that they are given.
pub fn tail(activity: Option<&ScanActivity>) -> (r: Vec<TailLine>)
    ensures
        match activity {
            Some(a) => r@.len() == a.events@.len() && forall|i: int|
                0 <= i < r@.len() ==> (#[trigger] r@[i])@ == TailView::of(a.events@[i]),
            None => r@.len() == 0,
        },
{
    let mut out: Vec<TailLine> = Vec::new();
    let a = match activity {
        Some(a) => a,
        None => return out,
    };
    let mut i: usize = 0;
    while i < a.events.len()
        invariant
            i <= a.events.len(),
            out@.len() == i,
            forall|j: int| 0 <= j < i ==> (#[trigger] out@[j])@ == TailView::of(a.events@[j]),
        decreases a.events.len() - i,
    {
        out.push(tail_line(&a.events[i]));
        i = i + 1;
    }
    out
}

/// What a task was pointed at: its path and page, or the start of its raw form.
pub open spec fn target_of(target: Json) -> Seq<char> {
    let path = match target.field("path"@) {
        Some(v) => v.as_text(),
        None => None,
    };
    let page = match target.field("page"@) {
        Some(v) => v.as_whole(),
        None => None,
    };
    match (path, page) {
        (Some(path), Some(page)) => path + " #"@ + text::signed_decimal(page as int),
        (Some(path), None) => path,
        (None, Some(page)) => "#"@ + text::signed_decimal(page as int),
        (None, None) => {
            let raw = foreign::compact_text(target);
            if raw.len() <= 60 {
                raw
            } else {
                raw.take(60)
            }
        },
    }
}

/// The path, the page and the raw form of a target as one short text.
pub fn label_of_parts(path: Option<&str>, page: Option<i64>, raw: &str) -> (r: String)
    ensures
        r@ == (match (path, page) {
            (Some(path), Some(page)) => path@ + " #"@ + text::signed_decimal(page as int),
            (Some(path), None) => path@,
            (None, Some(page)) => "#"@ + text::signed_decimal(page as int),
            (None, None) => if raw@.len() <= 60 {
                raw@
            } else {
                raw@.take(60)
            },
        }),
{
    match (path, page) {
        (Some(path), Some(page)) => {
            let mut out = path.to_owned();
            out.append(" #");
            let page = text::print_i64(page);
            out.append(page.as_str());
            out
        },
        (Some(path), None) => path.to_owned(),
        (None, Some(page)) => {
            let mut out = "#".to_owned();
            let page = text::print_i64(page);
            out.append(page.as_str());
            out
        },
        (None, None) => {
            let chars = text::chars_of(raw);
            let end: usize = if chars.len() <= 60 {
                chars.len()
            } else {
                60
            };
            let out = text::part(chars.as_slice(), 0, end);
            assert(raw@.subrange(0, raw@.len() as int) == raw@);
            assert(raw@.len() > 60 ==> raw@.subrange(0, 60) == raw@.take(60));
            out
        },
    }
}

/// What a task was pointed at, in one short text. The planner writes a record whose
/// shape depends on the kind of the task; the two fields that an operator reads are
/// pulled out, and everything else falls back to its compact form, cut off.
pub fn target_label(target: &serde_json::Value) -> (r: String)
    ensures
        r@ == target_of(foreign::json_of(*target)),
{
    let path = match foreign::field(target, "path") {
        Some(v) => v.as_str(),
        None => None,
    };
    let page = match foreign::field(target, "page") {
        Some(v) => v.as_i64(),
        None => None,
    };
    let raw = foreign::write_compact(target);
    label_of_parts(path, page, raw.as_str())
}

/// A target without a path that is a text and without a page that is a number is never
/// longer than sixty characters.
pub proof fn unknown_target_is_bounded(target: Json)
    requires
        match target.field("path"@) {
            Some(path) => path.as_text() is None,
            None => true,
        },
        match target.field("page"@) {
            Some(page) => page.as_whole() is None,
            None => true,
        },
    ensures
        target_of(target).len() <= 60,
{
}

/// What a run is doing. Tasks that run show their stage: its label, its detail, how far it
/// is where both counts are known, and since when. Without them the queued ones wait,
/// since when they do; without either the run is being planned, and so is one of which
/// nothing is known.
pub proof fn a_run_shows_what_it_is_doing(a: &RunActivity, now: i64, doing: Doing, unknown: Doing)
    requires
        call_ensures(Doing::of, (Some(a), now), doing),
        call_ensures(Doing::of, (None, now), unknown),
    ensures
        unknown is Planning,
        doing is Stage <==> a.running_tasks > 0,
        doing is Waiting <==> a.running_tasks <= 0 && a.queued_tasks > 0,
        doing is Planning <==> a.running_tasks <= 0 && a.queued_tasks <= 0,
        doing matches Doing::Stage { label, detail, progress, for_ms } ==> {
            &&& a.stage is Some ==> label@ == stages::stage_label_of(a.stage->0@)
            &&& a.stage is None ==> label@ == LabelView::Worded("console.scan.stage.unknown"@)
            &&& detail is Some <==> a.stage_detail is Some
            &&& detail is Some ==> detail->0@ == a.stage_detail->0@
            &&& progress is Some <==> a.stage_done is Some && a.stage_total is Some
            &&& progress is Some ==> progress->0 == (a.stage_done->0, a.stage_total->0)
            &&& for_ms is Some <==> a.stage_at is Some
            &&& for_ms is Some && a.stage_at->0 <= now && now - a.stage_at->0 <= i64::MAX
                ==> for_ms->0 == now - a.stage_at->0
        },
        doing matches Doing::Waiting { for_ms } ==> (for_ms is Some <==> a.waiting_since is Some)
            && (for_ms is Some && a.waiting_since->0 <= now && now - a.waiting_since->0 <= i64::MAX
            ==> for_ms->0 == now - a.waiting_since->0),
{
    match doing {
        Doing::Stage { label, detail, progress, for_ms } => {
            assert(doing@ == (DoingView::Stage {
                label: label@,
                detail: text::view_of(detail),
                progress,
                for_ms: whole(for_ms),
            }));
            assert(whole(for_ms) == age_of(a.stage_at, now));
            assert(text::view_of(detail) == text::view_of(a.stage_detail));
        },
        Doing::Waiting { for_ms } => {
            assert(doing@ == (DoingView::Waiting { for_ms: whole(for_ms) }));
            assert(whole(for_ms) == age_of(a.waiting_since, now));
        },
        Doing::Planning => {},
    }
}

/// The activity of a run is found by the run's id, the first of it.
pub proof fn an_activity_is_found_by_its_run(list: &[RunActivity], id: u128, at: Option<usize>)
    requires
        call_ensures(activity_for, (list, id), at),
    ensures
        at is Some ==> at->0 < list@.len() && list@[at->0 as int].run_id == id,
        at is None ==> forall|i: int| 0 <= i < list@.len() ==> (#[trigger] list@[i]).run_id != id,
{
    let test = |i: int| list@[i].run_id == id;
    rows::lemma_first_holds(list@.len(), test);
    if at is None {
        assert forall|i: int| 0 <= i < list@.len() implies (#[trigger] list@[i]).run_id != id by {
            assert(!test(i));
        }
    } else {
        assert(test(at->0 as int));
    }
}

/// The figures of a card are those of its run; a claim counts as stale from five minutes
/// on, and a run of which nothing is known shows none.
pub proof fn a_claim_is_stale_after_five_minutes(
    a: &RunActivity,
    now: i64,
    card: CardFigures,
    unknown: CardFigures,
)
    requires
        call_ensures(card_figures, (Some(a), now), card),
        call_ensures(card_figures, (None, now), unknown),
    ensures
        card.in_flight == a.running_tasks,
        card.queued == a.queued_tasks,
        card.workers == a.workers,
        a.kinds@.len() == 0 ==> card.kinds is None,
        a.kinds@.len() == 1 && a.kinds@[0]@.len() > 0 ==> card.kinds is Some && card.kinds->0@
            == a.kinds@[0]@,
        a.oldest_claim_at is None ==> card.stale_claim_ms is None,
        a.oldest_claim_at is Some ==> (card.stale_claim_ms is Some <==> now - a.oldest_claim_at->0
            >= 300_000),
        card.stale_claim_ms is Some && now - a.oldest_claim_at->0 <= i64::MAX
            ==> card.stale_claim_ms->0 == now - a.oldest_claim_at->0,
        unknown.in_flight == 0 && unknown.queued == 0 && unknown.workers == 0,
        unknown.stale_claim_ms is None,
{
    assert(whole(card.stale_claim_ms) == (match age_of(a.oldest_claim_at, now) {
        Some(age) => if age >= STALE_CLAIM_MS {
            Some(age)
        } else {
            None
        },
        None => None,
    }));
    assert(text::view_of(card.kinds) == crate::query::present(listed(a.kinds@)));
}

/// Texts are listed in their order, with a comma between two: what is added to a list is
/// added to what it read before.
pub proof fn a_list_grows_by_its_last(texts: Seq<String>, last: String)
    requires
        texts.len() > 0,
    ensures
        listed(texts.push(last)) == listed(texts) + ", "@ + last@,
{
    assert(texts.push(last).drop_last() =~= texts);
}

/// A pace is given once a run has taken time and settled something, whether it was done or
/// failed; an estimate only while something is left besides.
pub proof fn an_estimate_needs_something_left(
    run: &ScanRun,
    elapsed: Option<i64>,
    settled: i64,
    pace: bool,
    estimate: bool,
)
    requires
        call_ensures(settled_tasks, (run,), settled),
        call_ensures(has_pace, (run, elapsed), pace),
        call_ensures(has_estimate, (run, elapsed), estimate),
    ensures
        settled == run.done_tasks + run.failed_tasks,
        pace <==> elapsed is Some && elapsed->0 > 0 && settled > 0,
        estimate <==> pace && settled < run.total_tasks,
{
}

/// A cancellation is asked for and then answered: the card is free again whatever the
/// answer, and only a refusal is kept, in its own words.
pub proof fn a_refused_cancellation_is_shown(
    asking: &mut RunCard,
    replied: &mut RunCard,
    reply: Reply,
    gone: bool,
)
    requires
        call_ensures(RunCard::cancel, (asking,), ()),
        call_ensures(RunCard::cancelled, (replied, reply), gone),
    ensures
        final(asking).cancelling && final(asking).refused is None,
        final(asking).explaining == old(asking).explaining,
        gone <==> reply is Done,
        !final(replied).cancelling,
        final(replied).explaining == old(replied).explaining,
        reply matches Reply::Failed(why) ==> final(replied).refused == Some(why),
        !(reply is Failed) ==> final(replied).refused == old(replied).refused,
{
}

/// The tail says of each event what it was: a failure its error, and anything else its
/// state; its kind, its time and its provider are those of the event, and events keep
/// their order.
pub proof fn the_tail_tells_each_event(activity: &ScanActivity, lines: Vec<TailLine>, i: int)
    requires
        call_ensures(tail, (Some(activity),), lines),
        0 <= i < activity.events@.len(),
    ensures
        lines@.len() == activity.events@.len(),
        lines@[i].failed <==> activity.events@[i].end is Failed,
        lines@[i].kind@ == activity.events@[i].kind@,
        activity.events@[i].provider_slug is Some ==> lines@[i].provider@
            == activity.events@[i].provider_slug->0@,
        activity.events@[i].provider_slug is None ==> lines@[i].provider@.len() == 0,
        lines@[i].settled_at is Some <==> activity.events@[i].finished_at is Some,
        lines@[i].settled_at is Some ==> lines@[i].settled_at->0@
            == activity.events@[i].finished_at->0@,
        lines@[i].failed && activity.events@[i].error is Some ==> lines@[i].said@
            == LabelView::Verbatim(activity.events@[i].error->0@),
        lines@[i].failed && activity.events@[i].error is None ==> lines@[i].said@
            == LabelView::Worded("console.scan.failures.noError"@),
        !lines@[i].failed ==> lines@[i].said@ == LabelView::Keyed(activity.events@[i].state_key@),
{
    let line = lines@[i];
    assert(line@ == TailView::of(activity.events@[i]));
    assert(line@.kind == line.kind@);
    assert(line@.provider == line.provider@);
    assert(line@.settled_at == text::view_of(line.settled_at));
}

/// What was pushed stands before what was fetched.
pub proof fn a_pushed_activity_stands_first<'a>(
    pushed: Option<&'a ScanActivity>,
    seed: Option<&'a ScanActivity>,
    known: Option<&'a ScanActivity>,
)
    requires
        call_ensures(known_activity, (pushed, seed), known),
    ensures
        pushed is Some ==> known == pushed,
        pushed is None ==> known == seed,
{
}

/// A target is told by its path and its page, by the one that is there, and where neither
/// is by the first sixty characters of what it holds.
pub proof fn a_target_is_told_by_path_and_page(
    path: &str,
    page: i64,
    raw: &str,
    both: String,
    first: String,
    second: String,
    neither: String,
)
    requires
        call_ensures(label_of_parts, (Some(path), Some(page), raw), both),
        call_ensures(label_of_parts, (Some(path), None, raw), first),
        call_ensures(label_of_parts, (None, Some(page), raw), second),
        call_ensures(label_of_parts, (None, None, raw), neither),
    ensures
        first@ == path@,
        both@ == first@ + " "@ + second@,
        second@ == "#"@ + text::signed_decimal(page as int),
        raw@.len() <= 60 ==> neither@ == raw@,
        raw@.len() > 60 ==> neither@.len() == 60 && neither@.is_prefix_of(raw@),
{
    reveal_strlit(" #");
    reveal_strlit(" ");
    reveal_strlit("#");
    assert(" #"@ =~= " "@ + "#"@);
    assert(both@ =~= first@ + " "@ + second@);
}

/// The dot of an event tells how it ended: failures, completions and the rest apart.
pub proof fn a_dot_tells_the_end(a: TaskEnd, b: TaskEnd)
    ensures
        dot_of(a) == dot_of(b) <==> a == b,
{
    reveal_strlit("background:var(--vermilion);");
    reveal_strlit("background:var(--jade-bright);");
    reveal_strlit("background:var(--muted);");
    assert("background:var(--vermilion);"@.len() == 28);
    assert("background:var(--jade-bright);"@.len() == 30);
    assert("background:var(--muted);"@.len() == 24);
}

/// The line of what a run is doing tells since when: of a stage how long it has lasted, of
/// a queue how long it has waited; a plan has no time.
pub proof fn what_is_done_tells_since_when(doing: &Doing, told: Phrase)
    requires
        call_ensures(Doing::words, (doing,), told),
    ensures
        doing is Planning ==> told@.args.len() == 0,
        doing matches Doing::Stage { for_ms, .. } ==> told@.key == "console.scan.stage.since"@ && (
        for_ms is None ==> told@.args[0].1 == ArgView::Words(
            Box::new(PhraseView::plain("time.unknown"@)),
        )) && (for_ms is Some && for_ms->0 >= 0 ==> told@.args[0].1
            == ArgView::Words(Box::new(duration::duration_words(for_ms->0 as int)))),
        doing matches Doing::Waiting { for_ms } ==> told@.key == "console.scan.stage.waiting"@ && (
        for_ms is Some && for_ms->0 >= 0 ==> told@.args[0].1 == ArgView::Words(
            Box::new(duration::duration_words(for_ms->0 as int)),
        )),
{
}

/// A target that names its path and its page is told by both, and by the one it names.
pub proof fn a_named_target_is_told(target: Json)
    ensures
        ({
            let path = target.field("path"@);
            let page = target.field("page"@);
            &&& path matches Some(Json::Text(p)) ==> page matches Some(Json::Number(Some(n), _))
                ==> target_of(target) == p + " #"@ + text::signed_decimal(n as int)
            &&& path matches Some(Json::Text(p)) ==> page is None ==> target_of(target) == p
            &&& page matches Some(Json::Number(Some(n), _)) ==> path is None ==> target_of(target)
                == "#"@ + text::signed_decimal(n as int)
        }),
{
}

} // verus!
