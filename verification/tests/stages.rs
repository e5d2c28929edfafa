use tankovault_console::keys::has_key;
use tankovault_console::stages::{
    is_dominant, percent_of, stage_label, word, RunTelemetry, StageTotal, Verdict, STAGES,
};
use tankovault_console::wording::{Arg, Label};

fn measured(busy_ms: i64) -> RunTelemetry {
    RunTelemetry {
        tasks_measured: 4,
        busy_ms,
        wait_ms: 0,
        requests: 12,
        fetch_ms: 0,
        pace_wait_ms: 0,
        solver_ms: 0,
        solver_calls: 0,
        throttled: 0,
    }
}

#[test]
fn every_known_stage_is_worded_and_an_unknown_one_falls_back() {
    for (token, key) in STAGES {
        assert!(has_key(key), "{token} has no wording");
    }
    assert!(!STAGES.iter().any(|(token, _)| *token == "polishing"));
    assert_eq!(
        stage_label("polishing"),
        Label::Verbatim("polishing".to_owned())
    );
}

#[test]
fn every_verdict_is_worded() {
    let cases = [
        Verdict::Unmeasured,
        Verdict::Trivial,
        Verdict::Throttled { count: 1 },
        Verdict::Pacing { percent: 90 },
        Verdict::Solving { calls: 2 },
        Verdict::Fetching {
            percent: 70,
            requests: 9,
        },
        Verdict::Stage {
            stage: "series_ingest".to_owned(),
            percent: 60,
        },
        Verdict::Mixed,
    ];
    for reading in cases {
        assert!(has_key(reading.label_key()), "{reading:?} has no wording");
        assert_eq!(word(&reading).key, reading.label_key());
    }
}

#[test]
fn a_run_dominated_by_pacing_reads_as_pacing() {
    let mut telemetry = measured(100_000);
    telemetry.pace_wait_ms = 90_000;
    telemetry.fetch_ms = 9_000;
    assert_eq!(
        Verdict::of(&telemetry, &[]),
        Verdict::Pacing { percent: 90 }
    );
}

#[test]
fn throttling_outranks_a_larger_share_elsewhere() {
    let mut telemetry = measured(100_000);
    telemetry.pace_wait_ms = 99_000;
    telemetry.throttled = 3;
    assert_eq!(
        Verdict::of(&telemetry, &[]),
        Verdict::Throttled { count: 3 }
    );
}

#[test]
fn a_run_with_no_measurements_says_so_instead_of_guessing() {
    let telemetry = RunTelemetry {
        tasks_measured: 0,
        ..measured(0)
    };
    assert_eq!(Verdict::of(&telemetry, &[]), Verdict::Unmeasured);
}

#[test]
fn an_unremarkable_run_names_its_costliest_stage() {
    let mut telemetry = measured(100_000);
    telemetry.fetch_ms = 20_000;
    telemetry.pace_wait_ms = 10_000;
    let stages = vec![
        StageTotal {
            stage: "series_ingest".to_owned(),
            millis: 60_000,
            tasks: 4,
        },
        StageTotal {
            stage: "series_chapters".to_owned(),
            millis: 20_000,
            tasks: 4,
        },
    ];
    assert_eq!(
        Verdict::of(&telemetry, &stages),
        Verdict::Stage {
            stage: "series_ingest".to_owned(),
            percent: 60,
        }
    );
}

#[test]
fn the_other_readings() {
    assert_eq!(Verdict::of(&measured(999), &[]), Verdict::Trivial);
    assert_eq!(Verdict::of(&measured(1000), &[]), Verdict::Mixed);
    let mut solving = measured(1000);
    solving.solver_ms = 500;
    solving.solver_calls = 7;
    assert_eq!(Verdict::of(&solving, &[]), Verdict::Solving { calls: 7 });
    let mut fetching = measured(1000);
    fetching.fetch_ms = 501;
    assert_eq!(
        Verdict::of(&fetching, &[]),
        Verdict::Fetching {
            percent: 50,
            requests: 12
        }
    );
}

#[test]
fn a_stage_is_said_by_its_wording() {
    let said = word(&Verdict::Stage {
        stage: "feed_fetch".to_owned(),
        percent: 42,
    });
    assert_eq!(said.key, "console.scan.explain.stage");
    assert_eq!(
        said.args,
        vec![
            (
                "stage",
                Arg::Label(Label::Worded("console.scan.stage.feedFetch"))
            ),
            ("percent", Arg::Number(42)),
        ]
    );
}

fn in_floats(part: i64, whole: i64) -> i32 {
    let ratio = part.max(0) as f64 / whole.max(1) as f64;
    (ratio * 100.0).round().clamp(0.0, 100.0) as i32
}

#[test]
fn a_percentage_is_what_double_precision_gives() {
    for whole in -1..900 {
        for part in -1..(whole + 3) {
            assert_eq!(percent_of(part, whole), in_floats(part, whole), "{part}/{whole}");
        }
    }
    for (part, whole) in [
        (i64::MAX, i64::MAX),
        (i64::MIN, 5),
        (5, i64::MIN),
        (1 << 40, 1 << 41),
        (2_147_483_646, 2_147_483_647),
        (3_000_000_000, 10_000_000_000),
        (1_450_000_000_000, 10_000_000_000_000),
        (i64::MAX / 4, i64::MAX),
        (290_000, 2_000_000),
    ] {
        assert_eq!(percent_of(part, whole), in_floats(part, whole), "{part}/{whole}");
    }
    assert_eq!(percent_of(3_000_000_000, 10_000_000_000), 30);
    assert_eq!(percent_of(1 << 40, 1 << 41), 50);
    assert_eq!(percent_of(i64::MAX - 1, i64::MAX), 100);
    assert_eq!(percent_of(7, 0), 100);
    assert_eq!(percent_of(29, 200), 14);
    assert_eq!(percent_of(31, 200), 16);
}

#[test]
fn a_run_of_many_weeks_is_read_like_any_other() {
    let mut telemetry = measured(10_000_000_000);
    telemetry.pace_wait_ms = 3_000_000_000;
    let stages = vec![StageTotal {
        stage: "series_ingest".to_owned(),
        millis: 4_000_000_000,
        tasks: 4,
    }];
    assert_eq!(
        Verdict::of(&telemetry, &stages),
        Verdict::Stage {
            stage: "series_ingest".to_owned(),
            percent: 40,
        }
    );
    telemetry.pace_wait_ms = 5_000_000_000;
    assert_eq!(Verdict::of(&telemetry, &stages), Verdict::Pacing { percent: 50 });
    assert!(is_dominant(i64::MAX, i64::MAX) && !is_dominant(-1, i64::MIN));
}
