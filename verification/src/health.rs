//! What the filter matched, as figures: run outcomes, task success, open failures, and
//! the reading of one run's timings.

use crate::activity;
use crate::duration;
use crate::foreign;
use crate::stages::{self, RunTelemetry, StageTotal, Verdict, VerdictView};
use crate::text;
use crate::wording::{ArgView, Label, Phrase, PhraseView};
use vstd::prelude::*;

verus! {

broadcast use vstd::string::group_string_axioms;

/// A share of a whole.
#[derive(Debug, Clone, Copy, PartialEq, Eq, Structural)]
pub struct Share {
    pub part: i64,
    pub whole: i64,
}

/// Settled tasks that succeeded, of all that settled; `None` where nothing has settled.
pub open spec fn success(done: int, failed: int) -> Option<(int, int)> {
    if done + failed <= 0 {
        None
    } else {
        Some((done, done + failed))
    }
}

/// Settled tasks that succeeded. An idle deployment has no rate to report: a rate of
/// zero would read as everything failing.
pub fn success_ratio(done: i64, failed: i64) -> (r: Option<Share>)
    requires
        i64::MIN <= done + failed <= i64::MAX,
    ensures
        (match r {
            Some(share) => Some((share.part as int, share.whole as int)),
            None => None,
        }) == success(done as int, failed as int),
{
    let settled: i64 = done + failed;
    if settled <= 0 {
        None
    } else {
        Some(Share { part: done, whole: settled })
    }
}

/// The scan health of one provider.
#[derive(Debug, PartialEq, Eq)]
pub struct ProviderScanHealth {
    pub slug: String,
    pub name: String,
    pub runs: i64,
    pub runs_active: i64,
    pub tasks_done: i64,
    pub tasks_failed: i64,
    pub failures_open: i64,
    pub last_run_at: Option<String>,
}

/// What the filter matched, in figures.
#[derive(Debug, PartialEq, Eq)]
pub struct ScanSummary {
    pub runs_total: i64,
    pub runs_queued: i64,
    pub runs_running: i64,
    pub runs_completed: i64,
    pub runs_failed: i64,
    pub runs_cancelled: i64,
    pub tasks_total: i64,
    pub tasks_done: i64,
    pub tasks_failed: i64,
    pub failures_open: i64,
    /// How long runs have run, in milliseconds.
    pub busy_ms: i64,
    pub first_run_at: Option<String>,
    pub last_run_at: Option<String>,
    pub providers: Vec<ProviderScanHealth>,
}

/// The tasks that settled, over the milliseconds of run time that they took; `None` where
/// nothing has run. Sixty thousand times the share is the rate per minute.
pub fn throughput(summary: &ScanSummary) -> (r: Option<Share>)
    requires
        i64::MIN <= summary.tasks_done + summary.tasks_failed <= i64::MAX,
    ensures
        match r {
            Some(share) => summary.busy_ms > 0 && share.part == summary.tasks_done
                + summary.tasks_failed && share.whole == summary.busy_ms,
            None => summary.busy_ms <= 0,
        },
{
    if summary.busy_ms <= 0 {
        None
    } else {
        Some(Share { part: summary.tasks_done + summary.tasks_failed, whole: summary.busy_ms })
    }
}

/// The providers that the filter's field offers: those of the summary, in order.
pub fn provider_options(summary: &ScanSummary) -> (r: Vec<String>)
    ensures
        r@.len() == summary.providers@.len(),
        forall|i: int| 0 <= i < r@.len() ==> (#[trigger] r@[i])@ == summary.providers@[i].slug@,
{
    let mut out: Vec<String> = Vec::new();
    let mut i: usize = 0;
    while i < summary.providers.len()
        invariant
            i <= summary.providers.len(),
            out@.len() == i,
            forall|j: int| 0 <= j < i ==> (#[trigger] out@[j])@ == summary.providers@[j].slug@,
        decreases summary.providers.len() - i,
    {
        out.push(summary.providers[i].slug.clone());
        i = i + 1;
    }
    out
}

/// A row of the table by provider.
#[derive(Debug, PartialEq, Eq)]
pub struct HealthRow {
    pub class: &'static str,
    /// Runs in flight, where there are any.
    pub active: Option<i64>,
    /// Tasks that failed, where any did.
    pub failed: Option<i64>,
    /// The success rate, where anything has settled.
    pub success: Option<Share>,
    pub tone: &'static str,
}

/// A row of the table by provider.
pub fn health_row(provider: &ProviderScanHealth, filtered: &Option<String>) -> (r: HealthRow)
    requires
        i64::MIN <= provider.tasks_done + provider.tasks_failed <= i64::MAX,
    ensures
        r.class@ == (if text::view_of(*filtered) == Some(provider.slug@) {
            "ik-row-pick selected"@
        } else {
            "ik-row-pick"@
        }),
        r.active == (if provider.runs_active > 0 {
            Some(provider.runs_active)
        } else {
            None
        }),
        r.failed == (if provider.tasks_failed > 0 {
            Some(provider.tasks_failed)
        } else {
            None
        }),
        (match r.success {
            Some(share) => Some((share.part as int, share.whole as int)),
            None => None,
        }) == success(provider.tasks_done as int, provider.tasks_failed as int),
        r.tone@ == (if is_concerning(
            provider.tasks_done as int,
            provider.tasks_failed as int,
        ) {
            "color:var(--vermilion);"@
        } else {
            ""@
        }),
{
    let selected = match filtered {
        Some(slug) => text::same(slug.as_str(), provider.slug.as_str()),
        None => false,
    };
    HealthRow {
        class: if selected {
            "ik-row-pick selected"
        } else {
            "ik-row-pick"
        },
        active: if provider.runs_active > 0 {
            Some(provider.runs_active)
        } else {
            None
        },
        failed: if provider.tasks_failed > 0 {
            Some(provider.tasks_failed)
        } else {
            None
        },
        success: success_ratio(provider.tasks_done, provider.tasks_failed),
        tone: failure_tone(provider.tasks_done, provider.tasks_failed),
    }
}

/// Whether a failure rate is called out: one in ten, or more.
pub open spec fn is_concerning(done: int, failed: int) -> bool {
    done + failed > 0 && 10 * failed >= done + failed
}

/// Whether a failure rate is called out.
pub fn concerning(done: i64, failed: i64) -> (r: bool)
    requires
        i64::MIN <= done + failed <= i64::MAX,
    ensures
        r == is_concerning(done as int, failed as int),
{
    let settled: i64 = done + failed;
    settled > 0 && 10 * failed as i128 >= settled as i128
}

/// The class of the success rate.
pub fn rate_tone(done: i64, failed: i64) -> (r: &'static str)
    requires
        i64::MIN <= done + failed <= i64::MAX,
    ensures
        r@ == (if success(done as int, failed as int) is None {
            "val"@
        } else if is_concerning(done as int, failed as int) {
            "val acc"@
        } else {
            "val jade"@
        }),
{
    if done + failed <= 0 {
        "val"
    } else if concerning(done, failed) {
        "val acc"
    } else {
        "val jade"
    }
}

/// The style of a provider's failure rate in the table.
pub fn failure_tone(done: i64, failed: i64) -> (r: &'static str)
    requires
        i64::MIN <= done + failed <= i64::MAX,
    ensures
        r@ == (if is_concerning(done as int, failed as int) {
            "color:var(--vermilion);"@
        } else {
            ""@
        }),
{
    if concerning(done, failed) {
        "color:var(--vermilion);"
    } else {
        ""
    }
}

/// The class of the open failures.
pub fn open_failures_tone(open: i64) -> (r: &'static str)
    ensures
        r@ == (if open > 0 {
            "val acc"@
        } else {
            "val jade"@
        }),
{
    if open > 0 {
        "val acc"
    } else {
        "val jade"
    }
}

/// The runs of the window in words: those queued or running, and those that failed.
pub fn run_breakdown(queued: i64, running: i64, failed: i64) -> (r: Phrase)
    requires
        i64::MIN <= queued + running <= i64::MAX,
    ensures
        r@ == PhraseView::plain("console.scan.health.runBreakdown"@).grouped(
            "active"@,
            queued + running,
        ).grouped("failed"@, failed as int),
{
    Phrase::plain("console.scan.health.runBreakdown").grouped("active", queued + running).grouped(
        "failed",
        failed,
    )
}

/// The tasks of the window in words.
pub fn task_breakdown(done: i64, failed: i64) -> (r: Phrase)
    ensures
        r@ == PhraseView::plain("console.scan.health.taskBreakdown"@).grouped(
            "done"@,
            done as int,
        ).grouped("failed"@, failed as int),
{
    Phrase::plain("console.scan.health.taskBreakdown").grouped("done", done).grouped(
        "failed",
        failed,
    )
}

/// How long the runs of the window have run, in words.
pub fn busy_words(summary: &ScanSummary) -> (r: Phrase)
    ensures
        r@ == PhraseView::plain("console.scan.health.busy"@).words(
            "duration"@,
            duration::duration_words(duration::counted(summary.busy_ms as int)),
        ),
{
    Phrase::plain("console.scan.health.busy").took("duration", duration::took(Some(summary.busy_ms)))
}

/// No rate is reported for a window in which nothing settled, and no such window is
/// called out.
pub proof fn idle_window_has_no_rate(done: int, failed: int)
    requires
        done + failed <= 0,
    ensures
        success(done, failed) is None,
        !is_concerning(done, failed),
{
}

/// One bar of a run's breakdown by stage.
#[derive(Debug, PartialEq, Eq)]
pub struct StageBar {
    pub label: Label,
    pub percent: i32,
    pub took: Phrase,
}

/// A run's breakdown as the panel shows it.
#[derive(Debug, PartialEq, Eq)]
pub struct Breakdown {
    /// The cause, in one sentence.
    pub cause: Phrase,
    pub busy: Phrase,
    pub waiting: Phrase,
    pub pace_wait: Phrase,
    pub requests: i64,
    /// Shown only where there were any.
    pub solves: Option<i64>,
    /// Shown only where there were any.
    pub throttled: Option<i64>,
    pub bars: Vec<StageBar>,
}

/// A count of milliseconds that is not negative.
pub open spec fn at_least_zero(ms: i64) -> int {
    if ms < 0 {
        0
    } else {
        ms as int
    }
}

/// What a bar shows of a stage.
pub open spec fn bar_of(bar: StageBar, total: StageTotal, busy_ms: i64) -> bool {
    &&& bar.label@ == stages::stage_label_of(total.stage@)
    &&& bar.percent == stages::percentage(total.millis as int, busy_ms as int)
    &&& bar.took@ == duration::duration_words(at_least_zero(total.millis))
}

/// The answer to "why is this taking so long", from the run's own timings.
pub fn breakdown(telemetry: &RunTelemetry, stages: &[StageTotal]) -> (r: Breakdown)
    ensures
        r.cause@ == VerdictView::reading(*telemetry, stages::top_stage(stages@)).sentence(),
        r.busy@ == duration::duration_words(at_least_zero(telemetry.busy_ms)),
        r.waiting@ == duration::duration_words(at_least_zero(telemetry.wait_ms)),
        r.pace_wait@ == duration::duration_words(at_least_zero(telemetry.pace_wait_ms)),
        r.requests == telemetry.requests,
        r.solves == (if telemetry.solver_calls > 0 {
            Some(telemetry.solver_calls)
        } else {
            None
        }),
        r.throttled == (if telemetry.throttled > 0 {
            Some(telemetry.throttled)
        } else {
            None
        }),
        r.bars@.len() == stages@.len(),
        forall|i: int|
            0 <= i < stages@.len() ==> bar_of(#[trigger] r.bars@[i], stages@[i], telemetry.busy_ms),
{
    let verdict = Verdict::of(telemetry, stages);
    let mut bars: Vec<StageBar> = Vec::new();
    let mut i: usize = 0;
    while i < stages.len()
        invariant
            i <= stages.len(),
            bars@.len() == i,
            forall|j: int|
                0 <= j < i ==> bar_of(#[trigger] bars@[j], stages@[j], telemetry.busy_ms),
        decreases stages.len() - i,
    {
        bars.push(
            StageBar {
                label: stages::stage_label(stages[i].stage.as_str()),
                percent: stages::percent_of(stages[i].millis, telemetry.busy_ms),
                took: duration::measured(stages[i].millis),
            },
        );
        i = i + 1;
    }
    Breakdown {
        cause: stages::word(&verdict),
        busy: duration::measured(telemetry.busy_ms),
        waiting: duration::measured(telemetry.wait_ms),
        pace_wait: duration::measured(telemetry.pace_wait_ms),
        requests: telemetry.requests,
        solves: if telemetry.solver_calls > 0 {
            Some(telemetry.solver_calls)
        } else {
            None
        },
        throttled: if telemetry.throttled > 0 {
            Some(telemetry.throttled)
        } else {
            None
        },
        bars,
    }
}

/// How many task rows the panel lists, at most.
pub const TASK_ROWS: usize = 8;

/// A task of a run, with what it cost.
#[derive(Debug, PartialEq, Eq)]
pub struct ScanTaskDetail {
    pub kind: String,
    pub target: serde_json::Value,
    pub stage: Option<String>,
    pub duration_ms: Option<i32>,
    pub error: Option<String>,
}

/// A task as the panel lists it.
#[derive(Debug, PartialEq, Eq)]
pub struct TaskLine {
    pub target: String,
    pub stage: Option<Label>,
    pub took: Phrase,
}

/// What a line says of a task.
pub open spec fn line_of(line: TaskLine, task: ScanTaskDetail) -> bool {
    &&& line.target@ == activity::target_of(foreign::json_of(task.target))
    &&& match (line.stage, task.stage) {
        (Some(label), Some(stage)) => label@ == stages::stage_label_of(stage@),
        (label, stage) => label is None && stage is None,
    }
    &&& line.took@ == duration::known_duration(
        match task.duration_ms {
            Some(ms) => Some(at_least_zero(ms as i64)),
            None => None,
        },
    )
}

/// The tasks that the panel lists: the first few, since they come costliest first.
pub fn task_lines(tasks: &[ScanTaskDetail]) -> (r: Vec<TaskLine>)
    ensures
        r@.len() == (if tasks@.len() < TASK_ROWS {
            tasks@.len()
        } else {
            TASK_ROWS as nat
        }),
        forall|i: int| 0 <= i < r@.len() ==> line_of(#[trigger] r@[i], tasks@[i]),
{
    let mut lines: Vec<TaskLine> = Vec::new();
    let mut i: usize = 0;
    while i < tasks.len() && i < TASK_ROWS
        invariant
            i <= tasks.len(),
            i <= TASK_ROWS,
            lines@.len() == i,
            forall|j: int| 0 <= j < i ==> line_of(#[trigger] lines@[j], tasks@[j]),
        decreases tasks.len() - i,
    {
        let task = &tasks[i];
        let stage = match &task.stage {
            Some(stage) => Some(stages::stage_label(stage.as_str())),
            None => None,
        };
        let took = match task.duration_ms {
            Some(ms) => duration::measured(ms as i64),
            None => duration::duration_or_unknown(None),
        };
        lines.push(TaskLine { target: activity::target_label(&task.target), stage, took });
        i = i + 1;
    }
    lines
}

/// A success rate is what was done of all that was settled, and there is none where nothing
/// was. It is a concern from one failure in ten on.
pub proof fn one_failure_in_ten_is_a_concern(
    done: i64,
    failed: i64,
    rate: Option<Share>,
    worrying: bool,
    tone: &'static str,
)
    requires
        i64::MIN <= done + failed <= i64::MAX,
        call_ensures(success_ratio, (done, failed), rate),
        call_ensures(concerning, (done, failed), worrying),
        call_ensures(rate_tone, (done, failed), tone),
    ensures
        rate is Some <==> done + failed > 0,
        rate is Some ==> rate->0.part == done && rate->0.whole == done + failed,
        worrying <==> done + failed > 0 && 10 * failed >= done + failed,
        tone@ == "val"@ <==> done + failed <= 0,
        tone@ == "val acc"@ <==> worrying,
{
    reveal_strlit("val");
    reveal_strlit("val acc");
    reveal_strlit("val jade");
    assert("val"@.len() == 3);
    assert("val acc"@.len() == 7);
    assert("val jade"@.len() == 8);
}

/// A throughput is what was settled over the busy time, whether it was done or failed, and
/// there is none without any busy time.
pub proof fn a_throughput_is_over_the_busy_time(summary: &ScanSummary, rate: Option<Share>)
    requires
        i64::MIN <= summary.tasks_done + summary.tasks_failed <= i64::MAX,
        call_ensures(throughput, (summary,), rate),
    ensures
        rate is Some <==> summary.busy_ms > 0,
        rate is Some ==> rate->0.part == summary.tasks_done + summary.tasks_failed
            && rate->0.whole == summary.busy_ms,
{
}

/// The row of a provider: picked where the list is narrowed to it, with what runs and what
/// failed where there is any, and red where one in ten failed.
pub proof fn a_row_tells_how_a_provider_fares(
    provider: &ProviderScanHealth,
    filtered: &Option<String>,
    row: HealthRow,
)
    requires
        i64::MIN <= provider.tasks_done + provider.tasks_failed <= i64::MAX,
        call_ensures(health_row, (provider, filtered), row),
    ensures
        row.class@ == "ik-row-pick selected"@ <==> *filtered is Some && filtered->0@
            == provider.slug@,
        row.active is Some <==> provider.runs_active > 0,
        row.active is Some ==> row.active->0 == provider.runs_active,
        row.failed is Some <==> provider.tasks_failed > 0,
        row.failed is Some ==> row.failed->0 == provider.tasks_failed,
        row.success is Some <==> provider.tasks_done + provider.tasks_failed > 0,
        row.success is Some ==> row.success->0.part == provider.tasks_done
            && row.success->0.whole == provider.tasks_done + provider.tasks_failed,
        row.tone@.len() > 0 <==> provider.tasks_done + provider.tasks_failed > 0 && 10
            * provider.tasks_failed >= provider.tasks_done + provider.tasks_failed,
{
    reveal_strlit("ik-row-pick");
    reveal_strlit("ik-row-pick selected");
    reveal_strlit("");
    reveal_strlit("color:var(--vermilion);");
    assert("ik-row-pick"@.len() == 11);
    assert("ik-row-pick selected"@.len() == 20);
    assert(""@.len() == 0);
    assert("color:var(--vermilion);"@.len() == 23);
}

/// A breakdown shows the times and the counts of its run, each from its own figure, and a
/// bar for every stage in the order they came; a bar is as long as no whole number is
/// nearer to the stage's share of the busy time.
pub proof fn a_breakdown_shows_every_stage(
    t: &RunTelemetry,
    stages: &[StageTotal],
    shown: Breakdown,
    i: int,
)
    requires
        call_ensures(breakdown, (t, stages), shown),
        t.busy_ms > 0,
        0 <= i < stages@.len(),
    ensures
        shown.bars@.len() == stages@.len(),
        shown.bars@[i].label@ == stages::stage_label_of(stages@[i].stage@),
        stages@[i].millis >= t.busy_ms ==> shown.bars@[i].percent == 100,
        stages@[i].millis <= 0 ==> shown.bars@[i].percent == 0,
        0 < stages@[i].millis < t.busy_ms ==> -t.busy_ms <= 2 * (shown.bars@[i].percent * t.busy_ms
            - 100 * stages@[i].millis) <= t.busy_ms,
        stages@[i].millis >= 0 ==> shown.bars@[i].took@ == duration::duration_words(
            stages@[i].millis as int,
        ),
        shown.busy@ == duration::duration_words(t.busy_ms as int),
        t.wait_ms >= 0 ==> shown.waiting@ == duration::duration_words(t.wait_ms as int),
        t.pace_wait_ms >= 0 ==> shown.pace_wait@ == duration::duration_words(
            t.pace_wait_ms as int,
        ),
        shown.requests == t.requests,
        shown.solves is Some <==> t.solver_calls > 0,
        shown.solves is Some ==> shown.solves->0 == t.solver_calls,
        shown.throttled is Some <==> t.throttled > 0,
        shown.throttled is Some ==> shown.throttled->0 == t.throttled,
{
    assert(bar_of(shown.bars@[i], stages@[i], t.busy_ms));
    stages::percentage_is_nearest(stages@[i].millis as int, t.busy_ms as int);
    if stages@[i].millis <= 0 {
        stages::a_share_of_nothing_is_none(stages@[i].millis as int, t.busy_ms as int);
    }
}

/// The tasks of a run are shown in their order, the first eight of them.
pub proof fn the_first_tasks_are_shown(tasks: &[ScanTaskDetail], lines: Vec<TaskLine>, i: int)
    requires
        call_ensures(task_lines, (tasks,), lines),
        0 <= i < lines@.len(),
    ensures
        lines@.len() <= 8,
        lines@.len() == tasks@.len() || lines@.len() == 8 && tasks@.len() > 8,
        lines@[i].target@ == activity::target_of(foreign::json_of(tasks@[i].target)),
        lines@[i].stage is Some <==> tasks@[i].stage is Some,
        lines@[i].stage is Some ==> lines@[i].stage->0@ == stages::stage_label_of(
            tasks@[i].stage->0@,
        ),
        tasks@[i].duration_ms is None ==> lines@[i].took@.key == "time.unknown"@,
        tasks@[i].duration_ms is Some && tasks@[i].duration_ms->0 >= 0 ==> lines@[i].took@
            == duration::duration_words(tasks@[i].duration_ms->0 as int),
{
    assert(line_of(lines@[i], tasks@[i]));
}

/// The runs that are counted as active are the queued and the running ones together.
pub proof fn queued_and_running_are_active(queued: i64, running: i64, failed: i64, said: Phrase)
    requires
        i64::MIN <= queued + running <= i64::MAX,
        call_ensures(run_breakdown, (queued, running, failed), said),
    ensures
        said@.args == seq![
            ("active"@, ArgView::Grouped(queued + running)),
            ("failed"@, ArgView::Grouped(failed as int)),
        ],
{
    assert(said@.args =~= seq![
        ("active"@, ArgView::Grouped(queued + running)),
        ("failed"@, ArgView::Grouped(failed as int)),
    ]);
}

} // verus!
