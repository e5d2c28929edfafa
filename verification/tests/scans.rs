use serde_json::Value;
use tankovault_console::activity::{
    activity_for, card_figures, dot_style, has_estimate, has_pace, progress_words, target_label,
    CardFigures, Doing, RunActivity, RunCard, TaskEnd,
};
use tankovault_console::duration::{
    age_ms, duration_label, elapsed_label, elapsed_ms, measured, took,
};
use tankovault_console::failures::{
    clear_request, cleared_pill, confirm_body, failure_error, failure_meta, failure_style,
    Clearing, FailedTask, Feed,
};
use tankovault_console::health::{
    busy_words, concerning, health_row, open_failures_tone, provider_options, rate_tone, run_breakdown,
    success_ratio, task_breakdown, task_lines, throughput, ProviderScanHealth, ScanSummary,
    ScanTaskDetail, Share,
};
use tankovault_console::keys::has_key;
use tankovault_console::notice::{Notice, Reply};
use tankovault_console::query::ConsoleQuery;
use tankovault_console::runs::{
    active_runs, choose_mode, choose_sort, choose_state, drawer_run, history_count,
    history_row_class, merge_runs, no_runs_key, pick_provider, provider_runs, reset_filters,
    run_line, run_selected, run_state_pill, scope_label, show_cleared, split_bar, task_percent,
    toggle_run, RunSort, RunState, ScanFilter, ScanMode, ScanRun, STATE_FILTERS,
};
use tankovault_console::scan_panel::{drain_scope, runs_request, window_request, ScanPanel};
use tankovault_console::window::Window;
use tankovault_console::wording::{Arg, Label, Took};

fn a_run(id: &str, done: i32) -> ScanRun {
    ScanRun {
        id: uuid::Uuid::parse_str(id).expect("a run id").as_u128(),
        provider_id: None,
        provider_slug: None,
        mode: ScanMode::Fast,
        state: RunState::Running,
        total_tasks: 10,
        done_tasks: done,
        failed_tasks: 0,
        started_at: None,
        finished_at: None,
        created_at: "2026-08-09T00:00:00Z".to_owned(),
    }
}

#[test]
fn a_filtered_list_never_shows_a_run_the_filter_excluded() {
    let kept = "018f4c2a-0000-7000-8000-000000000001";
    let excluded = "018f4c2a-0000-7000-8000-000000000002";
    let fetched = vec![a_run(kept, 1)];
    let pushed = vec![a_run(kept, 7), a_run(excluded, 3)];

    let merged = merge_runs(&fetched, Some(&pushed), true);
    assert_eq!(merged.len(), 1, "the pushed extra row is not in the filter");
    assert_eq!(
        merged[0].done_tasks, 7,
        "the kept row still takes the fresher counters"
    );
}

#[test]
fn an_unfiltered_list_shows_the_live_push_whole() {
    let fetched = vec![a_run("018f4c2a-0000-7000-8000-000000000001", 1)];
    let pushed = vec![
        a_run("018f4c2a-0000-7000-8000-000000000001", 7),
        a_run("018f4c2a-0000-7000-8000-000000000002", 3),
    ];
    assert_eq!(merge_runs(&fetched, Some(&pushed), false).len(), 2);
}

#[test]
fn without_a_push_the_fetch_stands() {
    let fetched = vec![a_run("018f4c2a-0000-7000-8000-000000000001", 1)];
    assert_eq!(merge_runs(&fetched, None, false).len(), 1);
    assert_eq!(merge_runs(&fetched, None, true).len(), 1);
}

#[test]
fn every_control_narrows_the_run_list() {
    assert!(!ScanFilter::of(&ConsoleQuery::default()).narrows_runs());
    let cases = [
        ConsoleQuery {
            provider: Some("kunmanga".to_owned()),
            ..ConsoleQuery::default()
        },
        ConsoleQuery {
            status: Some("failed".to_owned()),
            ..ConsoleQuery::default()
        },
        ConsoleQuery {
            mode: Some("full".to_owned()),
            ..ConsoleQuery::default()
        },
        ConsoleQuery {
            sort: Some("failures".to_owned()),
            ..ConsoleQuery::default()
        },
        ConsoleQuery {
            since: Window::Day,
            ..ConsoleQuery::default()
        },
    ];
    for case in cases {
        assert!(
            ScanFilter::of(&case).narrows_runs(),
            "{} does not narrow the run list",
            case.to_string()
        );
    }
}

#[test]
fn an_unknown_filter_token_falls_back_instead_of_failing() {
    let query = ConsoleQuery {
        sort: Some("nonsense".to_owned()),
        mode: Some("nonsense".to_owned()),
        status: Some("nonsense".to_owned()),
        ..ConsoleQuery::default()
    };
    let filter = ScanFilter::of(&query);
    assert_eq!(filter.ordering(), RunSort::Recent);
    assert_eq!(filter.scan_mode(), None);
    assert_eq!(filter.run_state(), None);
}

#[test]
fn every_offered_run_state_parses_back() {
    for (token, state) in STATE_FILTERS {
        let query = ConsoleQuery {
            status: Some(token.to_owned()),
            ..ConsoleQuery::default()
        };
        assert_eq!(ScanFilter::of(&query).run_state(), Some(state));
    }
}

#[test]
fn every_offered_ordering_and_mode_is_worded() {
    for sort in RunSort::ALL {
        assert!(has_key(sort.label_key()), "{sort:?}");
    }
    for mode in ScanMode::ALL {
        assert!(has_key(mode.label_key()), "{mode:?}");
    }
}

fn record(fields: Vec<(&str, Value)>) -> Value {
    Value::Object(
        fields
            .into_iter()
            .map(|(name, value)| (name.to_owned(), value))
            .collect(),
    )
}

#[test]
fn a_target_renders_as_a_path_not_as_json() {
    assert_eq!(
        target_label(&record(vec![
            ("path", Value::from("/manga/x")),
            ("page", Value::from(3))
        ])),
        "/manga/x #3"
    );
    assert_eq!(
        target_label(&record(vec![("path", Value::from("/manga/x"))])),
        "/manga/x"
    );
    assert_eq!(
        target_label(&record(vec![("page", Value::from(12))])),
        "#12"
    );
}

#[test]
fn an_unknown_target_falls_back_to_bounded_json() {
    let label = target_label(&record(vec![(
        "series_id",
        Value::from("018f4c2a-0000-7000-8000-000000000001"),
    )]));
    assert!(label.starts_with('{'));
    assert!(label.chars().count() <= 60);
    let long = target_label(&record(vec![("blob", Value::from("鐘".repeat(100)))]));
    assert_eq!(long.chars().count(), 60);
    assert!(long.starts_with("{\"blob\":\"鐘"));
}

fn a_summary(done: i64, failed: i64, busy_ms: i64) -> ScanSummary {
    ScanSummary {
        runs_total: 1,
        runs_queued: 0,
        runs_running: 0,
        runs_completed: 1,
        runs_failed: 0,
        runs_cancelled: 0,
        tasks_total: done + failed,
        tasks_done: done,
        tasks_failed: failed,
        failures_open: failed,
        busy_ms,
        first_run_at: None,
        last_run_at: None,
        providers: Vec::new(),
    }
}

fn ratio(share: Share) -> f64 {
    share.part as f64 / share.whole as f64
}

#[test]
fn an_idle_window_reports_no_rate_rather_than_zero() {
    assert_eq!(success_ratio(0, 0), None);
    assert_eq!(throughput(&a_summary(0, 0, 0)), None);
}

#[test]
fn the_rates_divide_by_what_actually_settled() {
    assert_eq!(success_ratio(90, 10).map(ratio), Some(0.9));
    let rate = throughput(&a_summary(100, 20, 120_000)).unwrap();
    assert_eq!(rate.part as f64 / (rate.whole as f64 / 60_000.0), 60.0);
}

#[test]
fn one_failure_in_ten_is_called_out() {
    assert!(concerning(90, 10));
    assert!(!concerning(91, 9));
    assert!(!concerning(0, 0));
    assert_eq!(rate_tone(90, 10), "val acc");
    assert_eq!(rate_tone(91, 9), "val jade");
    assert_eq!(rate_tone(0, 0), "val");
    let provider = ProviderScanHealth {
        slug: "kunmanga".to_owned(),
        name: "Kun Manga".to_owned(),
        runs: 3,
        runs_active: 1,
        tasks_done: 0,
        tasks_failed: 0,
        failures_open: 0,
        last_run_at: None,
    };
    let row = health_row(&provider, &Some("kunmanga".to_owned()));
    assert_eq!(row.class, "ik-row-pick selected");
    assert_eq!((row.active, row.failed, row.success), (Some(1), None, None));
    assert_eq!(health_row(&provider, &None).class, "ik-row-pick");
    let summary = ScanSummary {
        providers: vec![provider],
        ..a_summary(1, 1, 1)
    };
    assert_eq!(provider_options(&summary), vec!["kunmanga".to_owned()]);
}

#[test]
fn durations_round_as_a_formatted_number_does() {
    for ms in (0..60_000).step_by(125) {
        let label = duration_label(ms);
        assert_eq!(label.key, "time.seconds");
        let Arg::Number(count) = label.args[0].1 else {
            panic!("a count");
        };
        assert_eq!(count.to_string(), format!("{:.0}", ms as f64 / 1_000.0), "{ms}");
    }
    for ms in (60_000..3_600_000).step_by(7_500) {
        let label = duration_label(ms);
        assert_eq!(label.key, "time.minutes");
        let Arg::Number(count) = label.args[0].1 else {
            panic!("a count");
        };
        let minutes = (ms as f64 / 1_000.0) / 60.0;
        assert_eq!(count.to_string(), format!("{minutes:.0}"), "{ms}");
        let label = elapsed_label(Some(ms));
        assert_eq!(label.key, "console.scan.detail.minutes");
        let Arg::Number(count) = label.args[0].1 else {
            panic!("a count");
        };
        assert_eq!(count.to_string(), format!("{:.0}", ms as f64 / 60_000.0));
    }
    assert_eq!(
        duration_label(7_500_000).args,
        vec![("hours", Arg::Number(2)), ("minutes", Arg::Number(5))]
    );
    assert_eq!(measured(-5).args, vec![("count", Arg::Number(0))]);
    assert_eq!(elapsed_label(Some(59_999)).key, "console.scan.detail.underAMinute");
    assert_eq!(elapsed_label(None).key, "time.unknown");
}

#[test]
fn a_finished_run_stops_counting() {
    assert_eq!(elapsed_ms(Some(1_000), Some(4_000), 9_000), Some(3_000));
    assert_eq!(elapsed_ms(Some(1_000), None, 9_000), Some(8_000));
    assert_eq!(elapsed_ms(None, Some(4_000), 9_000), None);
    assert_eq!(age_ms(Some(9_500), 9_000), Some(0));
    assert_eq!(age_ms(None, 9_000), None);
}

#[test]
fn a_run_that_nobody_works_on_waits() {
    assert_eq!(Doing::of(None, 0), Doing::Planning);
    let activity = RunActivity {
        run_id: 1,
        running_tasks: 0,
        queued_tasks: 4,
        workers: 0,
        stage: None,
        stage_detail: None,
        stage_done: None,
        stage_total: None,
        stage_at: None,
        waiting_since: Some(1_000),
        oldest_claim_at: None,
        kinds: Vec::new(),
    };
    assert_eq!(
        Doing::of(Some(&activity), 61_000),
        Doing::Waiting {
            for_ms: Some(60_000)
        }
    );
    let claimed = RunActivity {
        running_tasks: 1,
        stage: Some("feed_fetch".to_owned()),
        stage_done: Some(2),
        stage_total: Some(9),
        stage_at: Some(60_000),
        ..activity
    };
    assert_eq!(
        Doing::of(Some(&claimed), 61_000),
        Doing::Stage {
            label: Label::Worded("console.scan.stage.feedFetch"),
            detail: None,
            progress: Some((2, 9)),
            for_ms: Some(1_000)
        }
    );
}

#[test]
fn the_newest_run_of_all_is_every_providers() {
    let run = a_run("018f4c2a-0000-7000-8000-000000000001", 0);
    assert_eq!(scope_label(&run), Label::Worded("console.scans.scopeAll"));
    let named = ScanRun {
        provider_slug: Some("kunmanga".to_owned()),
        ..a_run("018f4c2a-0000-7000-8000-000000000001", 0)
    };
    assert_eq!(scope_label(&named), Label::Verbatim("kunmanga".to_owned()));
    assert_eq!(task_percent(1, 3), 33);
    assert_eq!(task_percent(1, 0), 0);
}

#[test]
fn a_row_opens_and_closes() {
    let id = 0x018f_4c2a_0000_7000_8000_0000_0000_0001u128;
    let open = toggle_run(&ConsoleQuery::default(), id);
    assert_eq!(
        open.sel.as_deref(),
        Some("018f4c2a-0000-7000-8000-000000000001")
    );
    assert!(run_selected(&open, id) && !run_selected(&open, id + 1));
    assert_eq!(toggle_run(&open, id).sel, None);
    let narrowed = pick_provider(&open, "kunmanga".to_owned());
    assert_eq!(narrowed.provider.as_deref(), Some("kunmanga"));
    assert_eq!(pick_provider(&narrowed, "kunmanga".to_owned()).provider, None);
    assert!(!ScanFilter::of(&reset_filters(&narrowed)).narrows_runs());
}

fn filter() -> ScanFilter {
    ScanFilter::of(&ConsoleQuery {
        provider: Some("kunmanga".to_owned()),
        since: Window::Day,
        cleared: true,
        ..ConsoleQuery::default()
    })
}

#[test]
fn the_filter_is_the_panel() {
    let now = 1_754_697_600_000;
    let request = runs_request(&filter(), now);
    assert_eq!(request.provider.as_deref(), Some("kunmanga"));
    assert_eq!(request.sort, RunSort::Recent);
    let window = window_request(&filter(), now);
    assert_eq!(window.since, request.since);
    assert!(window.since.unwrap().starts_with("2025-08-08T00:00:00"));
    assert!(window.include_cleared);
    assert_eq!(drain_scope(&filter()).as_deref(), Some("kunmanga"));
}

#[test]
fn the_two_big_buttons_say_what_they_did() {
    let mut panel = ScanPanel::open();
    panel.pick_mode("full");
    panel.pick_mode("nonsense");
    assert_eq!(panel.mode, ScanMode::Full);
    assert!(panel.triggered(Reply::Done));
    assert!(!panel.triggered(Reply::Failed("no".to_owned())));
    assert_eq!(panel.message, Some(Notice::BadText("no".to_owned())));
    assert!(!panel.drained(Reply::StepUp, 0, 0));
    assert_eq!(panel.message, Some(Notice::BadText("no".to_owned())));
    panel.stepped_up();
    assert!(panel.drained(Reply::Done, 2, 30));
    match panel.message {
        Some(Notice::Good(p)) => assert_eq!(
            p.args,
            vec![("runs", Arg::Number(2)), ("tasks", Arg::Number(30))]
        ),
        other => panic!("{other:?}"),
    }
}

#[test]
fn a_clearing_follows_the_filter() {
    let all = clear_request(&filter(), Some("s".to_owned()), &Clearing::All);
    assert_eq!(all.provider.as_deref(), Some("kunmanga"));
    assert_eq!((all.match_null_error, all.error.clone()), (false, None));
    let none = clear_request(&filter(), None, &Clearing::Group(None));
    assert!(none.match_null_error && none.error.is_none());
    let one = clear_request(&filter(), None, &Clearing::Group(Some("403".to_owned())));
    assert!(!one.match_null_error && one.error.as_deref() == Some("403"));

    let words = confirm_body(&filter(), &Clearing::Group(None));
    assert_eq!(words.key, "console.scan.failures.confirmGroup");
    assert_eq!(
        words.args[2],
        ("window", Arg::Label(Label::Worded("console.window.day")))
    );
}

#[test]
fn a_clearing_is_asked_about_first() {
    let mut feed = Feed::open();
    assert!(feed.grouped);
    assert_eq!(feed.confirm(&filter(), None), None);
    feed.ask(Clearing::All);
    assert!(feed.confirm(&filter(), None).is_some());
    assert!(feed.busy);
    assert!(feed.cleared(Reply::Done, 12));
    assert_eq!(feed.pending, None);
    match &feed.outcome {
        Some(Notice::Good(p)) => assert_eq!(p.args, vec![("count", Arg::Grouped(12))]),
        other => panic!("{other:?}"),
    }
    let task = FailedTask {
        kind: "series".to_owned(),
        provider_slug: None,
        mode: "fast".to_owned(),
        attempts: 3,
        error: None,
        acknowledged: false,
    };
    assert_eq!(
        failure_meta(&task).args[0],
        ("provider", Arg::Label(Label::Worded("time.unknown")))
    );
    assert_eq!(
        failure_error(&task),
        Label::Worded("console.scans.noErrorMessage")
    );
}

#[test]
fn only_the_costliest_tasks_are_listed() {
    let task = |ms: Option<i32>| ScanTaskDetail {
        kind: "series".to_owned(),
        target: record(vec![("page", Value::from(1))]),
        stage: Some("polishing".to_owned()),
        duration_ms: ms,
        error: None,
    };
    let tasks: Vec<ScanTaskDetail> = (0..10).map(|n| task(Some(n * 1000))).collect();
    let lines = task_lines(&tasks);
    assert_eq!(lines.len(), 8);
    assert_eq!(lines[7].took.args, vec![("count", Arg::Number(7))]);
    assert_eq!(lines[0].target, "#1");
    assert_eq!(lines[0].stage, Some(Label::Verbatim("polishing".to_owned())));
    assert_eq!(task_lines(&[task(None)])[0].took.key, "time.unknown");
}

#[test]
fn the_filter_bar_changes_the_link() {
    let query = ConsoleQuery::default();
    let failed = choose_state(&query, "failed");
    assert_eq!(failed.status, Some("failed".to_owned()));
    assert_eq!(choose_state(&failed, "").status, None);
    assert_eq!(choose_mode(&query, "full").mode, Some("full".to_owned()));
    // The default order is the absence of the parameter, and so is an unknown one.
    assert_eq!(choose_sort(&query, "failures").sort, Some("failures".to_owned()));
    assert_eq!(choose_sort(&query, "recent").sort, None);
    assert_eq!(choose_sort(&query, "nonsense").sort, None);
    let shown = show_cleared(&query, true);
    assert!(shown.cleared);
    assert!(ScanFilter::of(&shown).is_active() && !ScanFilter::of(&shown).narrows_runs());
    assert!(!ScanFilter::of(&query).is_active());
}

#[test]
fn a_provider_lists_its_first_twelve_runs() {
    let id = "018f4c2a-0000-7000-8000-000000000001";
    let mut runs: Vec<ScanRun> = (0..14).map(|done| a_run(id, done)).collect();
    for run in runs.iter_mut().skip(1) {
        run.provider_id = Some(7);
    }
    let mine = provider_runs(&runs, 7);
    assert_eq!(mine, (1..13).collect::<Vec<usize>>());
    assert_eq!(provider_runs(&runs, 8), Vec::<usize>::new());
    runs[3].state = RunState::Completed;
    assert_eq!(active_runs(&runs[2..5]), vec![0, 2]);

    let line = run_line(&runs[2]);
    assert_eq!((line.pill, line.progress.as_str(), line.failed), ("ik-pill run", "2/10", None));
    runs[2].failed_tasks = 3;
    let failed = run_line(&runs[2]).failed.unwrap();
    assert_eq!(failed.args[0], ("count", Arg::Number(3)));
    assert_eq!(run_state_pill(RunState::Failed), "ik-pill vermilion");
}

#[test]
fn the_bar_tells_failed_from_done() {
    let mut run = a_run("018f4c2a-0000-7000-8000-000000000001", 5);
    run.failed_tasks = 2;
    assert_eq!(split_bar(70, &run), (50, 20));
    run.total_tasks = 0;
    assert_eq!(split_bar(0, &run), (0, 0));
    assert!(has_pace(&run, Some(60_000)) && !has_pace(&run, Some(0)) && !has_pace(&run, None));
    assert!(!has_estimate(&run, Some(60_000)));
    run.total_tasks = 10;
    assert!(has_estimate(&run, Some(60_000)));
    assert_eq!(progress_words(&run).args[2], ("failed", Arg::Number(2)));
}

#[test]
fn the_history_says_what_it_is_a_window_on() {
    assert_eq!(history_count(30, 400, true).key, "console.scan.history.countFiltered");
    let count = history_count(30, 400, false);
    assert_eq!(count.key, "console.scan.history.count");
    assert_eq!(count.args[1], ("total", Arg::Grouped(400)));
    assert_eq!(no_runs_key(true), "console.scan.history.noneMatch");
    assert_eq!(no_runs_key(false), "console.scans.noRuns");
    assert_eq!(history_row_class(true), "ik-row-pick selected");
    assert_eq!(
        drawer_run(&Some("018f4c2a-0000-7000-8000-000000000001".to_owned())),
        Some(0x018f_4c2a_0000_7000_8000_0000_0000_0001)
    );
    assert_eq!(drawer_run(&Some("018f".to_owned())), None);
    assert_eq!(drawer_run(&None), None);
}

fn busy_run(id: u128, oldest: Option<i64>) -> RunActivity {
    RunActivity {
        run_id: id,
        running_tasks: 2,
        queued_tasks: 3,
        workers: 1,
        stage: None,
        stage_detail: None,
        stage_done: None,
        stage_total: None,
        stage_at: None,
        waiting_since: None,
        oldest_claim_at: oldest,
        kinds: vec!["catalogue".to_owned(), "series".to_owned()],
    }
}

#[test]
fn a_claim_that_is_held_too_long_is_named() {
    let list = [busy_run(1, None), busy_run(2, Some(1_000))];
    assert_eq!(activity_for(&list, 2), Some(1));
    assert_eq!(activity_for(&list, 3), None);
    let figures = card_figures(Some(&list[1]), 301_000);
    assert_eq!((figures.in_flight, figures.queued, figures.workers), (2, 3, 1));
    assert_eq!(figures.kinds, Some("catalogue, series".to_owned()));
    assert_eq!(figures.stale_claim_ms, Some(300_000));
    assert_eq!(card_figures(Some(&list[1]), 300_999).stale_claim_ms, None);
    let none = card_figures(None, 0);
    assert_eq!((none.in_flight, none.kinds), (0, None));
}

#[test]
fn a_card_that_could_not_stop_its_run_says_so() {
    let mut card = RunCard {
        explaining: false,
        cancelling: false,
        refused: None,
    };
    assert_eq!(card.explain_key(), "console.scan.explain.show");
    card.toggle_explain();
    assert_eq!(card.explain_key(), "console.scan.explain.hide");
    card.cancel();
    assert!(card.cancelling);
    assert!(!card.cancelled(Reply::Failed("409".to_owned())));
    assert_eq!(card.refused, Some("409".to_owned()));
    card.cancel();
    assert_eq!(card.refused, None);
    assert!(card.cancelled(Reply::Done));
    assert_eq!(dot_style(TaskEnd::Failed), "background:var(--vermilion);");
    assert_eq!(dot_style(TaskEnd::Other), "background:var(--muted);");
}

#[test]
fn the_strip_adds_up_what_is_in_flight() {
    let said = run_breakdown(2, 3, 1);
    assert_eq!(said.args[0], ("active", Arg::Grouped(5)));
    assert_eq!(said.args[1], ("failed", Arg::Grouped(1)));
    assert_eq!(task_breakdown(8, 2).args.len(), 2);
    assert_eq!(open_failures_tone(1), "val acc");
    assert_eq!(open_failures_tone(0), "val jade");
    assert_eq!(cleared_pill(0), None);
    assert_eq!(cleared_pill(4).unwrap().args[0], ("count", Arg::Grouped(4)));
    let task = |acknowledged| FailedTask {
        kind: "series".to_owned(),
        provider_slug: None,
        mode: "full".to_owned(),
        attempts: 1,
        error: None,
        acknowledged,
    };
    assert_eq!(failure_style(&task(true)), "opacity:.6;");
    assert_eq!(failure_style(&task(false)), "");
}

#[test]
fn the_window_says_how_long_it_was_busy() {
    let said = busy_words(&a_summary(100, 20, 7_500_000));
    assert_eq!(said.key, "console.scan.health.busy");
    assert_eq!(
        said.args,
        vec![("duration", Arg::Took(Took::Hours { hours: 2, minutes: 5 }))]
    );
    assert_eq!(
        busy_words(&a_summary(0, 0, -1)).args,
        vec![("duration", Arg::Took(Took::Seconds(0)))]
    );
    assert_eq!(took(Some(120_000)).words(), duration_label(120_000));
    assert_eq!(took(None).words().key, "time.unknown");
}

#[test]
fn a_card_says_for_how_long() {
    let waiting = Doing::Waiting {
        for_ms: Some(60_000),
    };
    assert_eq!(waiting.words().key, "console.scan.stage.waiting");
    assert_eq!(waiting.words().args, vec![("duration", Arg::Took(Took::Minutes(1)))]);
    let staged = Doing::Stage {
        label: Label::Worded("console.scan.stage.feedFetch"),
        detail: None,
        progress: None,
        for_ms: None,
    };
    assert_eq!(staged.words().key, "console.scan.stage.since");
    assert_eq!(staged.words().args, vec![("duration", Arg::Took(Took::Unknown))]);
    assert_eq!(Doing::Planning.words().key, "console.scan.stage.planning");
    let figures = CardFigures {
        in_flight: 1,
        queued: 0,
        workers: 1,
        kinds: None,
        stale_claim_ms: Some(300_000),
    };
    let said = figures.stale_words().unwrap();
    assert_eq!(said.key, "console.scan.live.staleClaim");
    assert_eq!(said.args, vec![("duration", Arg::Took(Took::Minutes(5)))]);
    assert_eq!(card_figures(None, 0).stale_words(), None);
}
