//! The recommender: its health, its rebuilds and its tuning groups.

use crate::access::{Capabilities, Permission};
use crate::text;
use crate::wording::{ArgView, Phrase, PhraseView};
use vstd::prelude::*;

verus! {

broadcast use vstd::string::group_string_axioms;

/// How often the health is read while a build runs, in milliseconds.
pub const BUILD_POLL_MS: u32 = 3_000;

/// The stages of a full build, in order.
pub const FULL_STAGES: [&'static str; 6] = [
    "full:features",
    "full:vocabulary",
    "full:basis",
    "full:embedding",
    "full:index",
    "full:priors",
];

/// What a tunable value governs.
#[derive(Debug, Clone, Copy, PartialEq, Eq, Structural)]
pub enum TunableGroup {
    Affinity,
    Retrieval,
    Scoring,
    Diversity,
    Prior,
    Build,
    Cooccurrence,
    Serving,
    /// The merges that are made without an operator.
    Matching,
}

/// The groups of this panel, in display order, each with the catalogue key of its title.
pub const GROUPS: [(TunableGroup, &'static str); 8] = [
    (TunableGroup::Affinity, "console.recsys.group.affinity"),
    (TunableGroup::Retrieval, "console.recsys.group.retrieval"),
    (TunableGroup::Scoring, "console.recsys.group.scoring"),
    (TunableGroup::Diversity, "console.recsys.group.diversity"),
    (TunableGroup::Prior, "console.recsys.group.prior"),
    (TunableGroup::Build, "console.recsys.group.build"),
    (TunableGroup::Cooccurrence, "console.recsys.group.cooccurrence"),
    (TunableGroup::Serving, "console.recsys.group.serving"),
];

impl TunableGroup {
    /// Every group is offered by exactly one of the two panels: this one, or the merge
    /// queue beside the rows that the group governs.
    pub proof fn is_offered_once(self)
        ensures
            (exists|i: int| 0 <= i < 8 && #[trigger] GROUPS@[i].0 == self) != (crate::merge::
            POLICY_GROUPS@[0].0 == self),
    {
        match self {
            TunableGroup::Affinity => assert(GROUPS@[0].0 == self),
            TunableGroup::Retrieval => assert(GROUPS@[1].0 == self),
            TunableGroup::Scoring => assert(GROUPS@[2].0 == self),
            TunableGroup::Diversity => assert(GROUPS@[3].0 == self),
            TunableGroup::Prior => assert(GROUPS@[4].0 == self),
            TunableGroup::Build => assert(GROUPS@[5].0 == self),
            TunableGroup::Cooccurrence => assert(GROUPS@[6].0 == self),
            TunableGroup::Serving => assert(GROUPS@[7].0 == self),
            TunableGroup::Matching => {},
        }
    }
}

/// The positions of the rows that belong to a group, in order.
pub fn rows_of(groups: &[TunableGroup], group: TunableGroup) -> (r: Vec<usize>)
    ensures
        crate::rows::positions(r@) == crate::rows::kept(
            groups@.len(),
            |i: int| groups@[i] == group,
        ),
{
    let ghost test = |i: int| groups@[i] == group;
    let mut found: Vec<usize> = Vec::new();
    let mut i: usize = 0;
    while i < groups.len()
        invariant
            i <= groups.len(),
            test == (|i: int| groups@[i] == group),
            crate::rows::positions(found@) =~= crate::rows::kept(i as nat, test),
        decreases groups.len() - i,
    {
        let ghost before = found@;
        if groups[i] == group {
            found.push(i);
            assert(crate::rows::positions(found@) =~= crate::rows::positions(before).push(
                i as int,
            ));
        }
        i = i + 1;
    }
    found
}

/// How a build goes.
#[derive(Debug, Clone, Copy, PartialEq, Eq, Structural)]
pub enum RecsysBuildMode {
    Incremental,
    Full,
}

/// The health of the model.
#[derive(Debug, PartialEq, Eq)]
pub struct ModelHealth {
    pub building: bool,
    pub stage: String,
    pub generation: i64,
    pub started_at: Option<String>,
    pub finished_at: Option<String>,
    pub error: Option<String>,
    pub series_total: i64,
    pub series_with_features: i64,
    pub series_with_embedding: i64,
    pub series_recommendable: i64,
    pub series_built: i32,
    pub stage_total: i32,
    pub vocabulary: i32,
    pub dense_dims: i32,
    pub repair_queue_depth: i64,
}

/// A figure of a panel.
#[derive(Debug, PartialEq, Eq)]
pub struct Kpi {
    pub label: &'static str,
    /// The figure, to be shown with its digits grouped.
    pub value: i64,
    pub sub: Phrase,
    /// How it is marked; empty where it is not.
    pub accent: &'static str,
}

/// A figure of a panel, as its characters.
#[verifier::ext_equal]
pub struct KpiView {
    pub label: Seq<char>,
    pub value: i64,
    pub sub: PhraseView,
    pub accent: Seq<char>,
}

impl View for Kpi {
    type V = KpiView;

    open spec fn view(&self) -> KpiView {
        KpiView { label: self.label@, value: self.value, sub: self.sub@, accent: self.accent@ }
    }
}

/// The mark of a figure that wants attention.
pub open spec fn warned(warn: bool) -> Seq<char> {
    if warn {
        "warn"@
    } else {
        ""@
    }
}

fn warning(warn: bool) -> (r: &'static str)
    ensures
        r@ == warned(warn),
{
    if warn {
        "warn"
    } else {
        ""
    }
}

/// The six figures of the model's health.
pub open spec fn figures(view: ModelHealth) -> Seq<KpiView> {
    let excluded = view.series_with_embedding - view.series_recommendable;
    seq![
        KpiView {
            label: "console.recsys.kpi.recommendable"@,
            value: view.series_recommendable,
            sub: PhraseView::plain("console.recsys.kpi.recommendableSub"@).grouped(
                "excluded"@,
                excluded,
            ),
            accent: warned(excluded > 0),
        },
        KpiView {
            label: "console.recsys.kpi.embedded"@,
            value: view.series_with_embedding,
            sub: PhraseView::plain("console.recsys.kpi.embeddedSub"@).grouped(
                "features"@,
                view.series_with_features as int,
            ),
            accent: ""@,
        },
        KpiView {
            label: "console.recsys.kpi.catalogue"@,
            value: view.series_total,
            sub: PhraseView::plain("console.recsys.kpi.catalogueSub"@),
            accent: ""@,
        },
        KpiView {
            label: "console.recsys.kpi.vocabulary"@,
            value: view.vocabulary as i64,
            sub: PhraseView::plain("console.recsys.kpi.vocabularySub"@).number(
                "dims"@,
                view.dense_dims as int,
            ),
            accent: ""@,
        },
        KpiView {
            label: "console.recsys.kpi.repairQueue"@,
            value: view.repair_queue_depth,
            sub: PhraseView::plain("console.recsys.kpi.repairQueueSub"@),
            accent: warned(view.repair_queue_depth > 0),
        },
        KpiView {
            label: "console.recsys.kpi.lastRun"@,
            value: view.series_built as i64,
            sub: PhraseView::plain("console.recsys.kpi.lastRunSub"@),
            accent: ""@,
        },
    ]
}

/// The six figures of the model's health. The gap between what has an embedding and what
/// may be recommended is stated, since it explains a thin shelf.
pub fn health_figures(view: &ModelHealth) -> (r: Vec<Kpi>)
    requires
        i64::MIN <= view.series_with_embedding - view.series_recommendable <= i64::MAX,
    ensures
        Seq::new(r@.len(), |i: int| r@[i]@) == figures(*view),
{
    let excluded: i64 = view.series_with_embedding - view.series_recommendable;
    let mut kpis: Vec<Kpi> = Vec::new();
    kpis.push(
        Kpi {
            label: "console.recsys.kpi.recommendable",
            value: view.series_recommendable,
            sub: Phrase::plain("console.recsys.kpi.recommendableSub").grouped(
                "excluded",
                excluded,
            ),
            accent: warning(excluded > 0),
        },
    );
    kpis.push(
        Kpi {
            label: "console.recsys.kpi.embedded",
            value: view.series_with_embedding,
            sub: Phrase::plain("console.recsys.kpi.embeddedSub").grouped(
                "features",
                view.series_with_features,
            ),
            accent: "",
        },
    );
    kpis.push(
        Kpi {
            label: "console.recsys.kpi.catalogue",
            value: view.series_total,
            sub: Phrase::plain("console.recsys.kpi.catalogueSub"),
            accent: "",
        },
    );
    kpis.push(
        Kpi {
            label: "console.recsys.kpi.vocabulary",
            value: view.vocabulary as i64,
            sub: Phrase::plain("console.recsys.kpi.vocabularySub").number(
                "dims",
                view.dense_dims as i64,
            ),
            accent: "",
        },
    );
    kpis.push(
        Kpi {
            label: "console.recsys.kpi.repairQueue",
            value: view.repair_queue_depth,
            sub: Phrase::plain("console.recsys.kpi.repairQueueSub"),
            accent: warning(view.repair_queue_depth > 0),
        },
    );
    kpis.push(
        Kpi {
            label: "console.recsys.kpi.lastRun",
            value: view.series_built as i64,
            sub: Phrase::plain("console.recsys.kpi.lastRunSub"),
            accent: "",
        },
    );
    assert(Seq::new(kpis@.len(), |i: int| kpis@[i]@) =~= figures(*view));
    kpis
}

/// The lines above the figures.
#[derive(Debug, PartialEq, Eq)]
pub struct HealthHead {
    pub stage_class: &'static str,
    pub generation: Phrase,
    /// When the model was built last, or else when the build began.
    pub when: Option<Phrase>,
    /// How the last build failed: the only place where that shows.
    pub error: Option<Phrase>,
}

/// The line that says when the model was built.
pub open spec fn built_when(view: ModelHealth) -> Option<PhraseView> {
    match (view.finished_at, view.started_at) {
        (Some(finished), _) => Some(
            PhraseView::plain("console.recsys.lastBuilt"@).day("date"@, finished@),
        ),
        (None, Some(started)) => Some(
            PhraseView::plain("console.recsys.startedAt"@).day("date"@, started@),
        ),
        (None, None) => None,
    }
}

/// The lines above the figures.
pub fn health_head(view: &ModelHealth) -> (r: HealthHead)
    ensures
        r.stage_class@ == (if view.building {
            "ik-pill run"@
        } else {
            "ik-pill"@
        }),
        r.generation@ == PhraseView::plain("console.recsys.generation"@).number(
            "n"@,
            view.generation as int,
        ),
        (match r.when {
            Some(p) => Some(p@),
            None => None,
        }) == built_when(*view),
        match (r.error, view.error) {
            (Some(p), Some(error)) => p@ == PhraseView::plain(
                "console.recsys.lastError"@,
            ).verbatim("message"@, error@),
            (p, error) => p is None && error is None,
        },
{
    HealthHead {
        stage_class: if view.building {
            "ik-pill run"
        } else {
            "ik-pill"
        },
        generation: Phrase::plain("console.recsys.generation").number("n", view.generation),
        when: match (&view.finished_at, &view.started_at) {
            (Some(finished), _) => Some(
                Phrase::plain("console.recsys.lastBuilt").day("date", finished.as_str()),
            ),
            (None, Some(started)) => Some(
                Phrase::plain("console.recsys.startedAt").day("date", started.as_str()),
            ),
            (None, None) => None,
        },
        error: match &view.error {
            Some(error) => Some(
                Phrase::plain("console.recsys.lastError").verbatim("message", error.as_str()),
            ),
            None => None,
        },
    }
}

/// The place of a stage in a full build, from 1; `None` for one that is not known, since
/// a wrong place would claim that a run is further along than it is.
pub open spec fn stage_place(stage: Seq<char>) -> Option<int> {
    let at = crate::rows::first(6, |i: int| FULL_STAGES@[i]@ == stage);
    if at < 6 {
        Some(at + 1)
    } else {
        None
    }
}

fn place_of(stage: &str) -> (r: Option<i64>)
    ensures
        (match r {
            Some(n) => Some(n as int),
            None => None,
        }) == stage_place(stage@),
{
    let stages = FULL_STAGES;
    let ghost test = |i: int| FULL_STAGES@[i]@ == stage@;
    let mut i: usize = 0;
    while i < 6
        invariant
            i <= 6,
            stages@ == FULL_STAGES@,
            stages@.len() == 6,
            test == (|i: int| FULL_STAGES@[i]@ == stage@),
            forall|j: int| 0 <= j < i ==> !#[trigger] test(j),
        decreases 6 - i,
    {
        if text::same(stages[i], stage) {
            proof {
                assert(test(i as int));
                crate::rows::lemma_first(6, test, i as int);
            }
            return Some(i as i64 + 1);
        }
        i = i + 1;
    }
    proof {
        crate::rows::lemma_first(6, test, 6);
    }
    None
}

/// How much of a stage is done, in whole percent from 0 to 100; `None` for a stage that
/// publishes no total.
pub open spec fn stage_percent(done: i32, total: i32) -> Option<int> {
    if total <= 0 {
        None
    } else if done <= 0 {
        Some(0)
    } else if done >= total {
        Some(100)
    } else {
        Some(done * 100 / total as int)
    }
}

/// How much of a stage is done, in whole percent. A catalogue that grew during the run
/// can overshoot its total.
pub fn build_percent(done: i32, total: i32) -> (r: Option<i64>)
    ensures
        (match r {
            Some(n) => Some(n as int),
            None => None,
        }) == stage_percent(done, total),
        r is Some ==> 0 <= r->0 <= 100,
{
    if total <= 0 {
        return None;
    }
    if done <= 0 {
        return Some(0);
    }
    if done >= total {
        return Some(100);
    }
    let share: i64 = (done as i64 * 100) / total as i64;
    assert(0 <= share <= 100) by (nonlinear_arith)
        requires
            0 < done < total,
            share == (done * 100) / total as int,
    ;
    Some(share)
}

/// How far a build has come.
#[derive(Debug, PartialEq, Eq)]
pub struct BuildProgress {
    pub step: Option<Phrase>,
    pub done: Phrase,
    pub percent: Option<i64>,
    pub since: Option<Phrase>,
}

/// How far a build has come.
pub fn build_progress(view: &ModelHealth) -> (r: BuildProgress)
    ensures
        (match r.step {
            Some(p) => Some(p@),
            None => None,
        }) == (match stage_place(view.stage@) {
            Some(n) => Some(
                PhraseView::plain("console.recsys.stageStep"@).number("n"@, n).number("of"@, 6),
            ),
            None => None,
        }),
        (match r.percent {
            Some(n) => Some(n as int),
            None => None,
        }) == stage_percent(view.series_built, view.stage_total),
        r.done@ == (match stage_percent(view.series_built, view.stage_total) {
            Some(percent) => PhraseView::plain("console.recsys.progressOf"@).grouped(
                "done"@,
                view.series_built as int,
            ).grouped("total"@, view.stage_total as int).number("percent"@, percent),
            None => PhraseView::plain("console.recsys.progressWorking"@).grouped(
                "done"@,
                view.series_built as int,
            ),
        }),
        match (r.since, view.started_at) {
            (Some(p), Some(at)) => p@ == PhraseView::plain("console.recsys.runningFor"@).since(
                "since"@,
                Some(at@),
            ),
            (p, at) => p is None && at is None,
        },
{
    let step = match place_of(view.stage.as_str()) {
        Some(n) => Some(
            Phrase::plain("console.recsys.stageStep").number("n", n).number("of", 6),
        ),
        None => None,
    };
    let percent = build_percent(view.series_built, view.stage_total);
    let done = match percent {
        Some(share) => Phrase::plain("console.recsys.progressOf").grouped(
            "done",
            view.series_built as i64,
        ).grouped("total", view.stage_total as i64).number("percent", share),
        None => Phrase::plain("console.recsys.progressWorking").grouped(
            "done",
            view.series_built as i64,
        ),
    };
    let since = match &view.started_at {
        Some(at) => Some(
            Phrase::plain("console.recsys.runningFor").since("since", Some(at.clone())),
        ),
        None => None,
    };
    BuildProgress { step, done, percent, since }
}

/// Whether the health is read again on the next tick: only while a build runs.
pub fn polls(view: Option<&ModelHealth>) -> (r: bool)
    ensures
        r == (view is Some && view->0.building),
{
    match view {
        Some(health) => health.building,
        None => false,
    }
}

/// Whether a rebuild can be asked for: not while one runs, and not while the question is
/// on its way.
pub fn can_rebuild(building: bool, busy: bool) -> (r: bool)
    ensures
        r == (!building && !busy),
{
    !building && !busy
}

/// Whether the reader may rebuild the model and turn its knobs; the panel says so where
/// they may not.
pub fn may_write(caps: &Capabilities) -> (r: bool)
    ensures
        r == caps.may(Permission::RecsysWrite),
{
    caps.can(Permission::RecsysWrite)
}

/// The two catalogue keys of a rebuild button: what it says, and its hint.
pub fn rebuild_keys(mode: RecsysBuildMode) -> (r: (&'static str, &'static str))
    ensures
        match mode {
            RecsysBuildMode::Incremental => r.0@ == "console.recsys.rebuildIncremental"@ && r.1@
                == "console.recsys.rebuildIncrementalHint"@,
            RecsysBuildMode::Full => r.0@ == "console.recsys.rebuildFull"@ && r.1@
                == "console.recsys.rebuildFullHint"@,
        },
{
    match mode {
        RecsysBuildMode::Incremental => (
            "console.recsys.rebuildIncremental",
            "console.recsys.rebuildIncrementalHint",
        ),
        RecsysBuildMode::Full => ("console.recsys.rebuildFull", "console.recsys.rebuildFullHint"),
    }
}

/// How far a build is: the whole percent that it has reached, cut off; nothing before the
/// first, all of it from the last on, and unknown where there is no total.
pub proof fn a_build_has_reached_its_percent(done: i32, total: i32, percent: Option<i64>)
    requires
        call_ensures(build_percent, (done, total), percent),
    ensures
        percent is Some <==> total > 0,
        total > 0 && done <= 0 ==> percent->0 == 0,
        total > 0 && done >= total ==> percent->0 == 100,
        0 < done < total ==> percent->0 * total <= 100 * done && 100 * done < (percent->0 + 1)
            * total,
{
    if 0 < done < total {
        vstd::arithmetic::div_mod::lemma_fundamental_div_mod(done * 100, total as int);
        let q = percent->0 as int;
        let t = total as int;
        assert(q * t == t * q) by (nonlinear_arith);
        assert((q + 1) * t == t * q + t) by (nonlinear_arith);
    }
}

/// Each of the six stages has the step of its place among them.
pub proof fn a_stage_has_the_step_of_its_place(at: int)
    requires
        0 <= at < 6,
    ensures
        stage_place(FULL_STAGES@[at]@) == Some(at + 1),
{
    reveal_strlit("full:features");
    reveal_strlit("full:vocabulary");
    reveal_strlit("full:basis");
    reveal_strlit("full:embedding");
    reveal_strlit("full:index");
    reveal_strlit("full:priors");
    assert("full:features"@.len() == 13);
    assert("full:vocabulary"@.len() == 15);
    assert("full:basis"@.len() == 10 && "full:basis"@[5] == 'b');
    assert("full:embedding"@.len() == 14);
    assert("full:index"@.len() == 10 && "full:index"@[5] == 'i');
    assert("full:priors"@.len() == 11);
    let test = |i: int| FULL_STAGES@[i]@ == FULL_STAGES@[at]@;
    assert forall|i: int| 0 <= i < at implies !#[trigger] test(i) by {}
    assert(test(at));
    crate::rows::lemma_first(6, test, at);
}

/// A step is the place of its stage among the six; what is none of them has no step.
pub proof fn a_step_is_the_place_of_its_stage(stage: &str)
    ensures
        (forall|i: int| 0 <= i < 6 ==> (#[trigger] FULL_STAGES@[i])@ != stage@) ==> stage_place(stage@)
            is None,
        stage_place(stage@) is Some ==> 1 <= stage_place(stage@)->0 <= 6 && FULL_STAGES@[stage_place(
            stage@,
        )->0 - 1]@ == stage@,
{
    let test = |i: int| FULL_STAGES@[i]@ == stage@;
    crate::rows::lemma_first_holds(6, test);
    let at = crate::rows::first(6, test);
    if at < 6 {
        assert(test(at));
        assert(FULL_STAGES@[at]@ == stage@);
    }
}

/// The progress of a build: its step of six, its percent and what is done of the total; a
/// build without a total only says what is done, and one without a start not since when.
pub proof fn a_build_tells_how_far_it_is(view: &ModelHealth, told: BuildProgress)
    requires
        call_ensures(build_progress, (view,), told),
    ensures
        told.percent is Some <==> view.stage_total > 0,
        view.stage_total > 0 && view.series_built >= view.stage_total ==> told.percent->0 == 100,
        told.step is Some <==> stage_place(view.stage@) is Some,
        told.step is Some ==> told.step->0@.args[0].1 == ArgView::Number(
            stage_place(view.stage@)->0,
        ),
        told.done@.key == (if view.stage_total > 0 {
            "console.recsys.progressOf"@
        } else {
            "console.recsys.progressWorking"@
        }),
        told.done@.args[0] == (
            "done"@,
            ArgView::Grouped(view.series_built as int),
        ),
        view.stage_total > 0 ==> told.done@.args[1] == (
            "total"@,
            ArgView::Grouped(view.stage_total as int),
        ),
        told.since is Some <==> view.started_at is Some,
{
}

/// A build is asked after while it runs, and another can be started only while none runs
/// and no press is under way.
pub proof fn a_build_runs_alone(
    view: Option<&ModelHealth>,
    building: bool,
    busy: bool,
    asked: bool,
    startable: bool,
    caps: &Capabilities,
    writes: bool,
)
    requires
        call_ensures(polls, (view,), asked),
        call_ensures(can_rebuild, (building, busy), startable),
        call_ensures(may_write, (caps,), writes),
    ensures
        asked <==> view is Some && view->0.building,
        startable <==> !building && !busy,
        writes <==> caps.permissions@.contains(Permission::RecsysWrite),
{
}

/// When a model was built: the day it was finished where it was, and else the day it was
/// started; before that nothing.
pub proof fn a_model_tells_when_it_was_built(view: ModelHealth)
    ensures
        view.finished_at is Some ==> built_when(view) == Some(
            PhraseView::plain("console.recsys.lastBuilt"@).day("date"@, view.finished_at->0@),
        ),
        view.finished_at is None && view.started_at is Some ==> built_when(view) == Some(
            PhraseView::plain("console.recsys.startedAt"@).day("date"@, view.started_at->0@),
        ),
        view.finished_at is None && view.started_at is None ==> built_when(view) is None,
{
}

/// The figures of a model are those of its health, in their order; what cannot be
/// recommended and what waits for repair warns where there is any, and nothing else does.
pub proof fn figures_warn_of_what_is_left_out(view: ModelHealth)
    ensures
        figures(view).len() == 6,
        figures(view)[0].value == view.series_recommendable,
        figures(view)[1].value == view.series_with_embedding,
        figures(view)[2].value == view.series_total,
        figures(view)[3].value == view.vocabulary,
        figures(view)[4].value == view.repair_queue_depth,
        figures(view)[5].value == view.series_built,
        figures(view)[0].accent.len() > 0 <==> view.series_recommendable
            < view.series_with_embedding,
        figures(view)[4].accent.len() > 0 <==> view.repair_queue_depth > 0,
        figures(view)[1].accent.len() == 0 && figures(view)[2].accent.len() == 0 && figures(
            view,
        )[3].accent.len() == 0 && figures(view)[5].accent.len() == 0,
        figures(view)[0].sub.args[0].1 == ArgView::Grouped(
            view.series_with_embedding - view.series_recommendable,
        ),
        figures(view)[1].sub.args[0].1 == ArgView::Grouped(
            view.series_with_features as int,
        ),
        figures(view)[3].sub.args[0].1 == ArgView::Number(view.dense_dims as int),
{
    reveal_strlit("");
    reveal_strlit("warn");
    assert(""@.len() == 0);
    assert("warn"@.len() == 4);
}

} // verus!
