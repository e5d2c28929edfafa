use tankovault_console::access::{Capabilities, Permission};
use tankovault_console::keys::has_key;
use tankovault_console::merge::{
    can_start, compare_key, full_sweep_answer, full_sweep_line, keeps_first_by_default, mini_card,
    polls, reason_words, rebuild_done, score_class, score_words, sides_words, signal_label,
    sweep_done, FullSweepStatus, MergeCandidate,
    MergeRow, MergeSides, PolicyCard, SeriesDetail, SeriesId, SourceLine, SweepControl,
    SweepReport, POLICY_GROUPS,
};
use tankovault_console::notice::Reply;
use tankovault_console::recommendations::{
    build_percent, build_progress, can_rebuild, health_figures, health_head, rebuild_keys, rows_of,
    ModelHealth, RecsysBuildMode, TunableGroup, GROUPS,
};
use tankovault_console::wording::{Arg, Counted, Label, Phrase};

fn candidate(suggested: SeriesId, first: SeriesId, second: SeriesId) -> MergeCandidate {
    MergeCandidate {
        id: 9,
        series_id: first,
        series_title: "Ninth Bell".to_owned(),
        series_sources: 3,
        series_chapters: 412,
        candidate_id: second,
        candidate_title: "Bell of the Ninth".to_owned(),
        candidate_sources: 1,
        candidate_chapters: 140,
        suggested_keep: suggested,
        percent: 91,
        signals: Vec::new(),
        reason: None,
    }
}

#[test]
fn the_servers_suggestion_is_the_side_that_survives_by_default() {
    let (first, second) = (SeriesId(1), SeriesId(2));

    let keeps_first = candidate(first, first, second);
    let sides = MergeSides::of(&keeps_first, keeps_first_by_default(&keeps_first));
    assert_eq!(sides.keep.id, first);
    assert_eq!(sides.drop.id, second);

    let keeps_second = candidate(second, first, second);
    let sides = MergeSides::of(&keeps_second, keeps_first_by_default(&keeps_second));
    assert_eq!(sides.keep.id, second);
    assert_eq!(sides.drop.id, first);
}

#[test]
fn swapping_exchanges_the_sides_with_their_own_figures() {
    let (first, second) = (SeriesId(1), SeriesId(2));
    let row = candidate(first, first, second);

    let kept = MergeSides::of(&row, true);
    assert_eq!((kept.keep.chapters, kept.keep.sources), (412, 3));
    assert_eq!(kept.keep.title, "Ninth Bell");

    let swapped = MergeSides::of(&row, false);
    assert_eq!((swapped.keep.chapters, swapped.keep.sources), (140, 1));
    assert_eq!(swapped.keep.title, "Bell of the Ninth");
    assert_eq!(swapped.drop.id, kept.keep.id);
    assert_eq!(swapped.keep.id, kept.drop.id);
}

#[test]
fn a_row_merges_in_the_direction_on_screen() {
    let pair = candidate(SeriesId(2), SeriesId(1), SeriesId(2));
    let mut row = MergeRow::new(&pair);
    let request = row.merge(&pair, true).unwrap();
    assert_eq!((request.keep, request.merge), (SeriesId(2), SeriesId(1)));
    assert_eq!(row.merge(&pair, true), None);
    assert_eq!(row.dismiss(&pair, true), None);
    assert!(!row.replied(&Reply::StepUp));
    row.swap();
    let request = row.merge(&pair, true).unwrap();
    assert_eq!((request.keep, request.merge), (SeriesId(1), SeriesId(2)));
    assert!(row.replied(&Reply::Done));
    assert_eq!(row.dismiss(&pair, false), None);
    assert!(!row.busy);
    assert_eq!(row.dismiss(&pair, true), Some(9));
}

#[test]
fn a_side_is_summed_up_by_its_figures() {
    let pair = candidate(SeriesId(1), SeriesId(1), SeriesId(2));
    let (sources, chapters) = MergeSides::of(&pair, true).keep.summary();
    assert_eq!((sources.key, sources.count), ("series.sources", Some(3)));
    assert_eq!(chapters.args, vec![("count", Arg::Number(412))]);
    assert_eq!(score_class(90), "ik-mono acc");
    assert_eq!(score_class(75), "ik-mono jade");
    assert_eq!(score_class(74), "ik-mono ik-muted");
}

#[test]
fn a_sweep_counts_what_lengthens_the_queue() {
    let report = SweepReport {
        pairs_examined: 100,
        auto_merged: 2,
        queued: 5,
        reopened: 3,
        requeued: 7,
        withdrawn: 1,
    };
    let line = sweep_done(&report);
    assert_eq!(line.args[2], ("queued", Arg::Number(8)));
    assert_eq!(line.args[3], ("rescored", Arg::Number(7)));
}

fn sweep(running: bool, stopped: Option<&str>) -> FullSweepStatus {
    FullSweepStatus {
        running,
        rounds: 2,
        pairs_examined: 30,
        auto_merged: 4,
        queued: 5,
        reopened: 6,
        withdrawn: 7,
        stopped: stopped.map(ToOwned::to_owned),
        error: None,
    }
}

#[test]
fn an_exhaustive_sweep_tells_how_it_ended() {
    assert_eq!(full_sweep_line(&sweep(false, None)), None);
    let running = full_sweep_line(&sweep(true, Some("exhausted"))).unwrap();
    assert_eq!(running.key, "console.merge.fullSweepRunning");
    assert_eq!(running.args[3], ("queued", Arg::Number(11)));
    for (why, key) in [
        ("exhausted", "console.merge.fullSweepDone"),
        ("merge_ceiling", "console.merge.fullSweepCeiling"),
        ("round_cap", "console.merge.fullSweepCapped"),
    ] {
        assert_eq!(full_sweep_line(&sweep(false, Some(why))).unwrap().key, key);
    }
    let failed = full_sweep_line(&sweep(false, Some("failed"))).unwrap();
    assert_eq!(
        failed.args,
        vec![("message", Arg::Label(Label::Verbatim("-".to_owned())))]
    );
    assert!(polls(Some(&sweep(true, None))) && !polls(None));
    assert!(!can_start(Some(&sweep(true, None)), false));
    assert!(can_start(None, false) && !can_start(None, true));
}

#[test]
fn a_sweep_button_makes_one_request_at_a_time() {
    let mut control = SweepControl::new();
    assert!(!control.press(false));
    assert!(control.press(true));
    assert!(!control.press(true));
    assert!(!control.replied(Reply::Failed("no".to_owned()), Phrase::plain("done")));
    assert_eq!(
        control.notice.as_ref().unwrap().key,
        "console.merge.actionFailed"
    );
    assert!(control.press(true));
    assert_eq!(control.notice, None);
    assert!(!control.replied(Reply::StepUp, Phrase::plain("done")));
    assert_eq!(control.notice, None);
    assert!(control.press(true));
    assert!(control.replied(Reply::Done, Phrase::plain("done")));
    assert_eq!(control.notice.unwrap().key, "done");
}

#[test]
fn a_signal_is_worded_by_the_queue_first() {
    assert_eq!(
        signal_label("same_author"),
        Label::FirstOf(
            vec![
                "console.merge.signal.same_author".to_owned(),
                "console.decisions.term.same_author".to_owned()
            ],
            "same_author".to_owned()
        )
    );
}

#[test]
fn a_card_shows_the_first_sources_and_tags() {
    let detail = SeriesDetail {
        release_year: Some(2019),
        sources: (0..7)
            .map(|n| SourceLine {
                provider_name: format!("p{n}"),
                chapter_count: n,
            })
            .collect(),
        tags: (0..8).map(|n| format!("t{n}")).collect(),
    };
    let card = mini_card(&detail);
    assert_eq!(card.sources.count, Some(7));
    assert_eq!(card.lines.len(), 5);
    assert_eq!(card.lines[4].0, "p4");
    assert_eq!(card.tags.len(), 6);
    assert_eq!(card.tags[5], "t5");
}

#[test]
fn every_group_of_the_two_panels_is_worded_and_offered_once() {
    let mut offered: Vec<TunableGroup> = GROUPS
        .iter()
        .chain(POLICY_GROUPS.iter())
        .map(|(group, _)| *group)
        .collect();
    let all = offered.len();
    offered.dedup();
    assert_eq!(offered.len(), all);
    for (group, key) in GROUPS.iter().chain(POLICY_GROUPS.iter()) {
        assert!(has_key(key), "{group:?}: {key}");
    }
    let rows = [
        TunableGroup::Scoring,
        TunableGroup::Prior,
        TunableGroup::Scoring,
    ];
    assert_eq!(rows_of(&rows, TunableGroup::Scoring), vec![0, 2]);
}

fn health() -> ModelHealth {
    ModelHealth {
        building: true,
        stage: "full:embedding".to_owned(),
        generation: 12,
        started_at: Some("2026-08-09T00:00:00Z".to_owned()),
        finished_at: None,
        error: None,
        series_total: 100,
        series_with_features: 90,
        series_with_embedding: 80,
        series_recommendable: 75,
        series_built: 30,
        stage_total: 120,
        vocabulary: 4000,
        dense_dims: 64,
        repair_queue_depth: 0,
    }
}

#[test]
fn a_build_says_how_far_it_has_come() {
    let progress = build_progress(&health());
    assert_eq!(
        progress.step.unwrap().args,
        vec![("n", Arg::Number(4)), ("of", Arg::Number(6))]
    );
    assert_eq!(progress.percent, Some(25));
    assert_eq!(progress.done.key, "console.recsys.progressOf");

    let unknown = ModelHealth {
        stage: "incremental".to_owned(),
        stage_total: 0,
        ..health()
    };
    let progress = build_progress(&unknown);
    assert_eq!(progress.step, None);
    assert_eq!(progress.percent, None);
    assert_eq!(progress.done.key, "console.recsys.progressWorking");

    assert_eq!(build_percent(150, 100), Some(100));
    assert_eq!(build_percent(-5, 100), Some(0));
    assert_eq!(build_percent(1, 3), Some(33));
    assert_eq!(build_percent(1, 0), None);
}

#[test]
fn the_gap_that_explains_a_thin_shelf_is_stated() {
    let figures = health_figures(&health());
    assert_eq!(figures.len(), 6);
    assert_eq!(figures[0].accent, "warn");
    assert_eq!(figures[0].sub.args, vec![("excluded", Arg::Grouped(5))]);
    assert_eq!(figures[4].accent, "");
    let head = health_head(&health());
    assert_eq!(head.stage_class, "ik-pill run");
    assert_eq!(head.when.unwrap().key, "console.recsys.startedAt");
    assert!(can_rebuild(false, false) && !can_rebuild(true, false) && !can_rebuild(false, true));
}

#[test]
fn the_policy_is_fetched_once_its_card_is_open() {
    let reader = Capabilities {
        ready: true,
        permissions: Vec::new(),
        features: Vec::new(),
    };
    let writer = Capabilities {
        ready: true,
        permissions: vec![Permission::MergeWrite],
        features: Vec::new(),
    };
    let mut card = PolicyCard::new();
    assert!(!card.is_fetched() && !card.says_read_only(&reader));
    assert_eq!(card.key(), "console.merge.policy.show");
    card.toggle();
    assert!(card.is_fetched() && card.says_read_only(&reader) && !card.says_read_only(&writer));
    assert_eq!(card.key(), "console.merge.policy.hide");
}

#[test]
fn what_was_done_is_said_in_words() {
    assert_eq!(rebuild_done(3, 8).args[1], ("titles", Arg::Number(8)));
    assert_eq!(full_sweep_answer(true).key, "console.merge.fullSweepStarted");
    assert_eq!(full_sweep_answer(false).key, "console.merge.fullSweepBusy");
    assert_eq!(compare_key(true), "console.merge.hide");
    assert_eq!(compare_key(false), "console.merge.compare");
    assert_eq!(rebuild_keys(RecsysBuildMode::Full).0, "console.recsys.rebuildFull");
    assert_eq!(
        rebuild_keys(RecsysBuildMode::Incremental).1,
        "console.recsys.rebuildIncrementalHint"
    );
}

#[test]
fn a_row_says_what_it_would_merge() {
    let pair = candidate(SeriesId(1), SeriesId(1), SeriesId(2));
    let said = sides_words(&MergeSides::of(&pair, true));
    assert_eq!(said.key, "console.merge.sides");
    assert_eq!(
        said.args,
        vec![
            (
                "keep",
                Arg::Counts(
                    Counted::Plural("series.sources", 3),
                    Counted::Named("series.chapterCount", 412)
                )
            ),
            (
                "drop",
                Arg::Counts(
                    Counted::Plural("series.sources", 1),
                    Counted::Named("series.chapterCount", 140)
                )
            ),
        ]
    );
    assert_eq!(score_words(&pair).args, vec![("percent", Arg::Number(91))]);
    assert_eq!(reason_words(&pair), None);
    let told = MergeCandidate {
        reason: Some("same author".to_owned()),
        ..pair
    };
    assert_eq!(
        reason_words(&told).unwrap().args,
        vec![("reason", Arg::Label(Label::Verbatim("same author".to_owned())))]
    );
}
