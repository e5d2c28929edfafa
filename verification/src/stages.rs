//! Wording for the stage that a scan task reports, and the reading of a run's
//! timing breakdown.
//!
//! A stage crosses the wire as plain text, and a worker one release ahead may write
//! a token that this console has never heard of. The table below renders the raw
//! token then, which is degraded but legible.

use crate::text;
use crate::wording::{self, Label, LabelView, Phrase, PhraseView};
use vstd::prelude::*;

verus! {

broadcast use vstd::string::group_string_axioms;

/// Every stage that the console has wording for, paired with its catalogue key.
pub const STAGES: [(&'static str, &'static str); 9] = [
    ("starting", "console.scan.stage.starting"),
    ("catalog_fetch", "console.scan.stage.catalogFetch"),
    ("catalog_register", "console.scan.stage.catalogRegister"),
    ("catalog_fanout", "console.scan.stage.catalogFanout"),
    ("feed_fetch", "console.scan.stage.feedFetch"),
    ("feed_fanout", "console.scan.stage.feedFanout"),
    ("series_metadata", "console.scan.stage.seriesMetadata"),
    ("series_chapters", "console.scan.stage.seriesChapters"),
    ("series_ingest", "console.scan.stage.seriesIngest"),
];

/// How a stage token is labelled.
pub open spec fn stage_label_of(token: Seq<char>) -> LabelView {
    match wording::lookup(STAGES@, token) {
        Some(key) => LabelView::Worded(key),
        None => LabelView::Verbatim(token),
    }
}

/// A stage token, worded, or the token itself when the console does not know it.
pub fn stage_label(token: &str) -> (r: Label)
    ensures
        r@ == stage_label_of(token@),
{
    match wording::find(STAGES.as_slice(), token) {
        Some(key) => Label::Worded(key),
        None => Label::Verbatim(token.to_owned()),
    }
}

/// What a run measured of itself, in milliseconds and counts.
#[derive(Debug, Clone, Copy, PartialEq, Eq, Structural)]
pub struct RunTelemetry {
    pub tasks_measured: i64,
    pub busy_ms: i64,
    pub wait_ms: i64,
    pub requests: i64,
    pub fetch_ms: i64,
    pub pace_wait_ms: i64,
    pub solver_ms: i64,
    pub solver_calls: i64,
    pub throttled: i64,
}

/// What the tasks of a run spent in one stage.
#[derive(Debug, PartialEq, Eq)]
pub struct StageTotal {
    pub stage: String,
    pub millis: i64,
    pub tasks: i64,
}

/// A count, where it is not negative.
pub open spec fn at_least_zero(n: int) -> int {
    if n < 0 {
        0
    } else {
        n
    }
}

/// A count to divide by: never zero.
pub open spec fn divisor(whole: int) -> int {
    if whole < 1 {
        1
    } else {
        whole
    }
}

/// Whether `part` is at least half of `whole`.
pub open spec fn dominates(part: int, whole: int) -> bool {
    2 * at_least_zero(part) >= divisor(whole)
}

/// `part` as a whole percentage of `whole`, at most one hundred.
///
/// Rounded to the nearest, and from a half up; but for the halves above 14, 28, 56
/// and 57, which double precision holds a little below their value.
pub open spec fn percentage(part: int, whole: int) -> int {
    let p = at_least_zero(part);
    let w = divisor(whole);
    let halves = 200 * p / w;
    let exact = 200 * p == halves * w;
    let short = exact && (halves == 29 || halves == 57 || halves == 113 || halves == 115);
    if p >= w {
        100
    } else if short {
        halves / 2
    } else {
        (halves + 1) / 2
    }
}

/// Whether a percentage is as near to what `part` is of `whole` as a whole number can be.
pub open spec fn is_nearest(percent: int, part: int, whole: int) -> bool {
    let p = at_least_zero(part);
    let w = divisor(whole);
    if p >= w {
        percent == 100
    } else {
        -w <= 2 * (percent * w - 100 * p) <= w
    }
}

/// A percentage is never off by more than a half, whatever the two counts are, and it
/// lies between nothing and one hundred.
pub proof fn percentage_is_nearest(part: int, whole: int)
    ensures
        is_nearest(percentage(part, whole), part, whole),
        0 <= percentage(part, whole) <= 100,
{
    let p = at_least_zero(part);
    let w = divisor(whole);
    if p < w {
        let halves = 200 * p / w;
        let rest = 200 * p % w;
        let percent = percentage(part, whole);
        vstd::arithmetic::div_mod::lemma_fundamental_div_mod(200 * p, w);
        vstd::arithmetic::div_mod::lemma_div_pos_is_pos(200 * p, w);
        assert(halves < 200) by (nonlinear_arith)
            requires
                w * halves + rest == 200 * p,
                0 <= rest,
                p < w,
                w > 0,
        ;
        assert(halves * w == w * halves) by (nonlinear_arith);
        if 2 * percent == halves {
            assert(2 * (percent * w) == halves * w) by (nonlinear_arith)
                requires
                    2 * percent == halves,
            ;
        } else if 2 * percent == halves + 1 {
            assert(2 * (percent * w) == halves * w + w) by (nonlinear_arith)
                requires
                    2 * percent == halves + 1,
            ;
        } else {
            assert(2 * percent == halves - 1);
            assert(2 * (percent * w) == halves * w - w) by (nonlinear_arith)
                requires
                    2 * percent == halves - 1,
            ;
        }
    }
}

fn floored(n: i64) -> (r: i128)
    ensures
        r == at_least_zero(n as int),
        0 <= r <= i64::MAX,
{
    if n < 0 {
        0
    } else {
        n as i128
    }
}

fn divide_by(whole: i64) -> (r: i128)
    ensures
        r == divisor(whole as int),
        1 <= r <= i64::MAX,
{
    if whole < 1 {
        1
    } else {
        whole as i128
    }
}

/// Whether `part` is at least half of `whole`.
pub fn is_dominant(part: i64, whole: i64) -> (r: bool)
    ensures
        r == dominates(part as int, whole as int),
{
    2 * floored(part) >= divide_by(whole)
}

/// `part` as a whole percentage of `whole`.
pub fn percent_of(part: i64, whole: i64) -> (r: i32)
    ensures
        r == percentage(part as int, whole as int),
        is_nearest(r as int, part as int, whole as int),
        0 <= r <= 100,
{
    let p: i128 = floored(part);
    let w: i128 = divide_by(whole);
    proof {
        percentage_is_nearest(part as int, whole as int);
    }
    if p >= w {
        return 100;
    }
    let halves: i128 = 200 * p / w;
    let exact = 200 * p % w == 0;
    proof {
        vstd::arithmetic::div_mod::lemma_fundamental_div_mod(200 * p as int, w as int);
        vstd::arithmetic::div_mod::lemma_div_pos_is_pos(200 * p as int, w as int);
        vstd::arithmetic::div_mod::lemma_div_nonincreasing(200 * p as int, w as int);
        assert(w * halves == halves * w) by (nonlinear_arith);
    }
    if exact && (halves == 29 || halves == 57 || halves == 113 || halves == 115) {
        (halves / 2) as i32
    } else {
        ((halves + 1) / 2) as i32
    }
}

/// What the breakdown says about why a run took as long as it did.
#[derive(Debug, PartialEq, Eq)]
pub enum Verdict {
    /// Nothing recorded a breakdown.
    Unmeasured,
    /// Too little measured work to conclude anything from.
    Trivial,
    /// The provider pushed back. Outranks everything below it.
    Throttled { count: i64 },
    /// Most of the time went waiting for permission to send.
    Pacing { percent: i32 },
    /// Most of the time went in the challenge solver.
    Solving { calls: i64 },
    /// Most of the time went inside requests.
    Fetching { percent: i32, requests: i64 },
    /// Nothing that the fetch stack accounts for dominates; this stage took the most.
    Stage { stage: String, percent: i32 },
    /// Measured, but nothing stands out.
    Mixed,
}

/// A verdict as its characters and numbers.
#[verifier::ext_equal]
pub enum VerdictView {
    Unmeasured,
    Trivial,
    Throttled { count: int },
    Pacing { percent: int },
    Solving { calls: int },
    Fetching { percent: int, requests: int },
    Stage { stage: Seq<char>, percent: int },
    Mixed,
}

impl View for Verdict {
    type V = VerdictView;

    open spec fn view(&self) -> VerdictView {
        match *self {
            Verdict::Unmeasured => VerdictView::Unmeasured,
            Verdict::Trivial => VerdictView::Trivial,
            Verdict::Throttled { count } => VerdictView::Throttled { count: count as int },
            Verdict::Pacing { percent } => VerdictView::Pacing { percent: percent as int },
            Verdict::Solving { calls } => VerdictView::Solving { calls: calls as int },
            Verdict::Fetching { percent, requests } => VerdictView::Fetching {
                percent: percent as int,
                requests: requests as int,
            },
            Verdict::Stage { stage, percent } => VerdictView::Stage {
                stage: stage@,
                percent: percent as int,
            },
            Verdict::Mixed => VerdictView::Mixed,
        }
    }
}

impl VerdictView {
    /// The reading of a breakdown whose costliest stage is `top`.
    pub open spec fn reading(t: RunTelemetry, top: Option<(Seq<char>, int)>) -> Self {
        let busy = t.busy_ms as int;
        if t.tasks_measured == 0 {
            VerdictView::Unmeasured
        } else if busy < 1000 {
            VerdictView::Trivial
        } else if t.throttled > 0 {
            VerdictView::Throttled { count: t.throttled as int }
        } else if dominates(t.pace_wait_ms as int, busy) {
            VerdictView::Pacing { percent: percentage(t.pace_wait_ms as int, busy) }
        } else if dominates(t.solver_ms as int, busy) {
            VerdictView::Solving { calls: t.solver_calls as int }
        } else if dominates(t.fetch_ms as int, busy) {
            VerdictView::Fetching {
                percent: percentage(t.fetch_ms as int, busy),
                requests: t.requests as int,
            }
        } else {
            match top {
                Some((stage, millis)) => VerdictView::Stage {
                    stage,
                    percent: percentage(millis, busy),
                },
                None => VerdictView::Mixed,
            }
        }
    }

    /// The catalogue key that a reading is worded by.
    pub open spec fn key(self) -> Seq<char> {
        match self {
            VerdictView::Unmeasured => "console.scan.explain.unmeasured"@,
            VerdictView::Trivial => "console.scan.explain.trivial"@,
            VerdictView::Throttled { .. } => "console.scan.explain.throttled"@,
            VerdictView::Pacing { .. } => "console.scan.explain.pacing"@,
            VerdictView::Solving { .. } => "console.scan.explain.solving"@,
            VerdictView::Fetching { .. } => "console.scan.explain.fetching"@,
            VerdictView::Stage { .. } => "console.scan.explain.stage"@,
            VerdictView::Mixed => "console.scan.explain.mixed"@,
        }
    }

    /// The reading as one sentence.
    pub open spec fn sentence(self) -> PhraseView {
        let p = PhraseView::plain(self.key());
        match self {
            VerdictView::Unmeasured | VerdictView::Trivial | VerdictView::Mixed => p,
            VerdictView::Throttled { count } => p.number("count"@, count),
            VerdictView::Pacing { percent } => p.number("percent"@, percent),
            VerdictView::Solving { calls } => p.number("count"@, calls),
            VerdictView::Fetching { percent, requests } => p.number("percent"@, percent).number(
                "requests"@,
                requests,
            ),
            VerdictView::Stage { stage, percent } => p.label(
                "stage"@,
                stage_label_of(stage),
            ).number("percent"@, percent),
        }
    }
}

/// The costliest stage of a breakdown, which lists it first.
pub open spec fn top_stage(stages: Seq<StageTotal>) -> Option<(Seq<char>, int)> {
    if stages.len() == 0 {
        None
    } else {
        Some((stages[0].stage@, stages[0].millis as int))
    }
}

impl Verdict {
    /// Reads a breakdown.
    ///
    /// The order is the order of usefulness. A provider that pushes back has said
    /// that its budget is wrong, which is actionable; a run whose time went on
    /// waiting for permission to send is working exactly as configured.
    pub fn of(telemetry: &RunTelemetry, stages: &[StageTotal]) -> (r: Verdict)
        ensures
            r@ == VerdictView::reading(*telemetry, top_stage(stages@)),
    {
        let busy: i64 = telemetry.busy_ms;
        if telemetry.tasks_measured == 0 {
            return Verdict::Unmeasured;
        }
        if busy < 1000 {
            return Verdict::Trivial;
        }
        if telemetry.throttled > 0 {
            return Verdict::Throttled { count: telemetry.throttled };
        }
        if is_dominant(telemetry.pace_wait_ms, busy) {
            return Verdict::Pacing { percent: percent_of(telemetry.pace_wait_ms, busy) };
        }
        if is_dominant(telemetry.solver_ms, busy) {
            return Verdict::Solving { calls: telemetry.solver_calls };
        }
        if is_dominant(telemetry.fetch_ms, busy) {
            return Verdict::Fetching {
                percent: percent_of(telemetry.fetch_ms, busy),
                requests: telemetry.requests,
            };
        }
        if stages.len() == 0 {
            return Verdict::Mixed;
        }
        Verdict::Stage {
            stage: stages[0].stage.clone(),
            percent: percent_of(stages[0].millis, busy),
        }
    }

    /// The catalogue key that a reading is worded by.
    pub fn label_key(&self) -> (r: &'static str)
        ensures
            r@ == self@.key(),
    {
        match self {
            Verdict::Unmeasured => "console.scan.explain.unmeasured",
            Verdict::Trivial => "console.scan.explain.trivial",
            Verdict::Throttled { .. } => "console.scan.explain.throttled",
            Verdict::Pacing { .. } => "console.scan.explain.pacing",
            Verdict::Solving { .. } => "console.scan.explain.solving",
            Verdict::Fetching { .. } => "console.scan.explain.fetching",
            Verdict::Stage { .. } => "console.scan.explain.stage",
            Verdict::Mixed => "console.scan.explain.mixed",
        }
    }
}

/// The verdict as one sentence.
pub fn word(verdict: &Verdict) -> (r: Phrase)
    ensures
        r@ == verdict@.sentence(),
{
    let p = Phrase::plain(verdict.label_key());
    match verdict {
        Verdict::Unmeasured | Verdict::Trivial | Verdict::Mixed => p,
        Verdict::Throttled { count } => p.number("count", *count),
        Verdict::Pacing { percent } => p.number("percent", *percent as i64),
        Verdict::Solving { calls } => p.number("count", *calls),
        Verdict::Fetching { percent, requests } => p.number("percent", *percent as i64).number(
            "requests",
            *requests,
        ),
        Verdict::Stage { stage, percent } => p.label("stage", stage_label(stage.as_str())).number(
            "percent",
            *percent as i64,
        ),
    }
}

/// A provider that pushes back outranks every other reading of a run with enough
/// measured work, however large a share went elsewhere.
pub proof fn throttling_outranks(t: RunTelemetry, top: Option<(Seq<char>, int)>)
    requires
        t.tasks_measured != 0,
        t.busy_ms >= 1000,
        t.throttled > 0,
    ensures
        VerdictView::reading(t, top) == (VerdictView::Throttled { count: t.throttled as int }),
{
}

/// A run with nothing recorded says so, whatever else it claims.
pub proof fn no_measurements_no_guess(t: RunTelemetry, top: Option<(Seq<char>, int)>)
    ensures
        (VerdictView::reading(t, top) is Unmeasured) == (t.tasks_measured == 0),
{
}

/// The reading of a run with enough measured work that no provider pushed back on.
///
/// Waiting for permission to send is named where it took at least half of the busy time;
/// else the solver, by its calls, where it did; else the requests, where they did. That
/// holds whatever the breakdown by stage says: a stage is named only where none of the
/// three took half, it is the one listed first, and without a stage nothing stands out.
pub proof fn half_of_the_time_is_named_first(t: RunTelemetry, stages: Seq<StageTotal>)
    requires
        t.tasks_measured != 0,
        t.busy_ms >= 1000,
        t.throttled <= 0,
    ensures
        ({
            let read = VerdictView::reading(t, top_stage(stages));
            let pacing = 2 * t.pace_wait_ms >= t.busy_ms;
            let solving = 2 * t.solver_ms >= t.busy_ms;
            let fetching = 2 * t.fetch_ms >= t.busy_ms;
            &&& read is Pacing <==> pacing
            &&& read is Solving <==> !pacing && solving
            &&& read is Fetching <==> !pacing && !solving && fetching
            &&& read is Stage <==> !pacing && !solving && !fetching && stages.len() > 0
            &&& read is Mixed <==> !pacing && !solving && !fetching && stages.len() == 0
            &&& read matches VerdictView::Solving { calls } ==> calls == t.solver_calls
            &&& read matches VerdictView::Fetching { requests, .. } ==> requests == t.requests
            &&& read matches VerdictView::Stage { stage, .. } ==> stage == stages[0].stage@
        }),
{
}

/// The percentage that a reading gives is that of what it names: of the wait, of the
/// requests or of the first stage, in the busy time, and no whole number is nearer.
pub proof fn a_reading_gives_the_share_of_what_it_names(
    t: RunTelemetry,
    stages: Seq<StageTotal>,
)
    ensures
        ({
            let busy = t.busy_ms as int;
            match VerdictView::reading(t, top_stage(stages)) {
                VerdictView::Pacing { percent } => if t.pace_wait_ms >= busy {
                    percent == 100
                } else {
                    -busy <= 2 * (percent * busy - 100 * t.pace_wait_ms) <= busy
                },
                VerdictView::Fetching { percent, .. } => if t.fetch_ms >= busy {
                    percent == 100
                } else {
                    -busy <= 2 * (percent * busy - 100 * t.fetch_ms) <= busy
                },
                VerdictView::Stage { percent, .. } => if stages[0].millis >= busy {
                    percent == 100
                } else if stages[0].millis <= 0 {
                    percent == 0
                } else {
                    -busy <= 2 * (percent * busy - 100 * stages[0].millis) <= busy
                },
                _ => true,
            }
        }),
{
    percentage_is_nearest(t.pace_wait_ms as int, t.busy_ms as int);
    percentage_is_nearest(t.fetch_ms as int, t.busy_ms as int);
    if stages.len() > 0 {
        percentage_is_nearest(stages[0].millis as int, t.busy_ms as int);
        if stages[0].millis <= 0 {
            a_share_of_nothing_is_none(stages[0].millis as int, t.busy_ms as int);
        }
    }
}

/// Nothing, or less, is nought per cent of whatever there is.
pub proof fn a_share_of_nothing_is_none(part: int, whole: int)
    requires
        part <= 0,
    ensures
        percentage(part, whole) == 0,
{
    vstd::arithmetic::div_mod::lemma_div_basics(divisor(whole));
    assert(0 * divisor(whole) == 0) by (nonlinear_arith);
}

/// A count that lies exactly between two percentages takes the larger, but for the halves
/// above 14, 28, 56 and 57, which take the smaller.
pub proof fn halves_round_up_but_for_four(part: int, whole: int, percent: int)
    requires
        0 <= part < whole,
        200 * part == (2 * percent + 1) * whole,
    ensures
        percentage(part, whole) == (if percent == 14 || percent == 28 || percent == 56 || percent
            == 57 {
            percent
        } else {
            percent + 1
        }),
{
    vstd::arithmetic::div_mod::lemma_div_multiples_vanish(2 * percent + 1, whole);
    assert(whole * (2 * percent + 1) == (2 * percent + 1) * whole) by (nonlinear_arith);
}

/// What counts as half: twice a part that is not negative reaches the whole, and the
/// whole is never taken as less than one.
pub proof fn half_is_measured_by_doubling(part: int, whole: int)
    ensures
        part <= 0 ==> !dominates(part, whole),
        part > 0 && whole <= 1 ==> dominates(part, whole),
        part > 0 && whole > 1 ==> (dominates(part, whole) <==> 2 * part >= whole),
{
}

/// Too little measured work is called so before anything else is read from it, and enough
/// never is.
pub proof fn little_work_is_not_read(t: RunTelemetry, stages: Seq<StageTotal>)
    ensures
        VerdictView::reading(t, top_stage(stages)) is Trivial <==> t.tasks_measured != 0
            && t.busy_ms < 1000,
        VerdictView::reading(t, top_stage(stages)) is Throttled <==> t.tasks_measured != 0
            && t.busy_ms >= 1000 && t.throttled > 0,
{
}

/// A stage without wording is shown as its token.
pub proof fn unknown_stage_is_verbatim(token: Seq<char>)
    requires
        forall|i: int| 0 <= i < STAGES@.len() ==> (#[trigger] STAGES@[i]).0@ != token,
    ensures
        stage_label_of(token) == LabelView::Verbatim(token),
{
    lemma_lookup_absent(STAGES@, token);
}

proof fn lemma_lookup_absent(table: Seq<(&'static str, &'static str)>, name: Seq<char>)
    requires
        forall|i: int| 0 <= i < table.len() ==> (#[trigger] table[i]).0@ != name,
    ensures
        wording::lookup(table, name) is None,
    decreases table.len(),
{
    if table.len() > 0 {
        assert forall|i: int| 0 <= i < table.drop_first().len() implies (
        #[trigger] table.drop_first()[i]).0@ != name by {
            assert(table.drop_first()[i] == table[i + 1]);
        }
        lemma_lookup_absent(table.drop_first(), name);
    }
}

/// The sentence of a reading gives what the reading holds: its count, its percentage, its
/// requests or its stage, each under its own name, and nothing else.
pub proof fn a_sentence_gives_what_was_read(reading: VerdictView)
    ensures
        reading matches VerdictView::Throttled { count } ==> reading.sentence().args == seq![
            ("count"@, wording::ArgView::Number(count)),
        ],
        reading matches VerdictView::Pacing { percent } ==> reading.sentence().args == seq![
            ("percent"@, wording::ArgView::Number(percent)),
        ],
        reading matches VerdictView::Solving { calls } ==> reading.sentence().args == seq![
            ("count"@, wording::ArgView::Number(calls)),
        ],
        reading matches VerdictView::Fetching { percent, requests } ==> reading.sentence().args
            == seq![
            ("percent"@, wording::ArgView::Number(percent)),
            ("requests"@, wording::ArgView::Number(requests)),
        ],
        reading matches VerdictView::Stage { stage, percent } ==> reading.sentence().args == seq![
            ("stage"@, wording::ArgView::Label(stage_label_of(stage))),
            ("percent"@, wording::ArgView::Number(percent)),
        ],
        reading is Unmeasured || reading is Trivial || reading is Mixed ==> reading.sentence()
            == PhraseView::plain(reading.key()),
        reading.sentence().key == reading.key(),
{
    let args = reading.sentence().args;
    if args.len() == 1 {
        assert(args =~= seq![args[0]]);
    } else if args.len() == 2 {
        assert(args =~= seq![args[0], args[1]]);
    }
}

/// A stage that the table knows is worded as the table says; the table names no stage
/// twice.
pub proof fn a_known_stage_is_worded(at: int)
    requires
        0 <= at < 9,
    ensures
        stage_label_of(STAGES@[at].0@) == LabelView::Worded(STAGES@[at].1@),
{
    reveal_with_fuel(wording::lookup, 10);
    reveal_strlit("starting");
    reveal_strlit("catalog_fetch");
    reveal_strlit("catalog_register");
    reveal_strlit("catalog_fanout");
    reveal_strlit("feed_fetch");
    reveal_strlit("feed_fanout");
    reveal_strlit("series_metadata");
    reveal_strlit("series_chapters");
    reveal_strlit("series_ingest");
    assert("starting"@.len() == 8);
    assert("catalog_fetch"@.len() == 13 && "catalog_fetch"@[0] == 'c');
    assert("catalog_register"@.len() == 16);
    assert("catalog_fanout"@.len() == 14);
    assert("feed_fetch"@.len() == 10);
    assert("feed_fanout"@.len() == 11);
    assert("series_metadata"@.len() == 15 && "series_metadata"@[7] == 'm');
    assert("series_chapters"@.len() == 15 && "series_chapters"@[7] == 'c');
    assert("series_ingest"@.len() == 13 && "series_ingest"@[0] == 's');
}

/// What a run is read as, from its figures alone: each reading exactly where
/// its cause is the first that holds, with the counts of the run as they stand.
pub proof fn a_run_is_read_by_its_first_cause(
    t: &RunTelemetry,
    stages: &[StageTotal],
    read: Verdict,
)
    requires
        call_ensures(Verdict::of, (t, stages), read),
    ensures
        ({
            let enough = t.tasks_measured != 0 && t.busy_ms >= 1000;
            let quiet = enough && t.throttled <= 0;
            let pacing = 2 * t.pace_wait_ms >= t.busy_ms;
            let solving = 2 * t.solver_ms >= t.busy_ms;
            let fetching = 2 * t.fetch_ms >= t.busy_ms;
            &&& read is Unmeasured <==> t.tasks_measured == 0
            &&& read is Trivial <==> t.tasks_measured != 0 && t.busy_ms < 1000
            &&& read is Throttled <==> enough && t.throttled > 0
            &&& read is Pacing <==> quiet && pacing
            &&& read is Solving <==> quiet && !pacing && solving
            &&& read is Fetching <==> quiet && !pacing && !solving && fetching
            &&& read is Stage <==> quiet && !pacing && !solving && !fetching && stages@.len() > 0
            &&& read is Mixed <==> quiet && !pacing && !solving && !fetching && stages@.len() == 0
        }),
        read matches Verdict::Throttled { count } ==> count == t.throttled,
        read matches Verdict::Solving { calls } ==> calls == t.solver_calls,
        read matches Verdict::Fetching { requests, .. } ==> requests == t.requests,
        read matches Verdict::Stage { stage, .. } ==> stage@ == stages@[0].stage@,
{
    if t.tasks_measured != 0 && t.busy_ms >= 1000 && t.throttled <= 0 {
        half_of_the_time_is_named_first(*t, stages@);
    }
}

} // verus!
