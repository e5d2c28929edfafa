use tankovault_console::flags::{flag_face, flags_of, toggle_class, FeatureGroup, Flag, GROUPS};
use tankovault_console::keys::has_key;
use tankovault_console::provider::{ProviderStat, ProviderState};
use tankovault_console::solver::{list_face, reenabled, Chosen, ListFace};
use tankovault_console::stats::{
    blocked_note, coverage, coverage_stamps, gained, last_run, table_class, Column, Hidden, LastRun,
};
use tankovault_console::wording::Arg;

#[test]
fn every_column_has_a_unique_token_and_a_worded_heading() {
    let mut tokens: Vec<&str> = Column::ALL.iter().map(|c| c.token()).collect();
    tokens.sort_unstable();
    let unique = tokens.len();
    tokens.dedup();
    assert_eq!(tokens.len(), unique, "two columns share a token");

    for column in Column::ALL {
        let key = column.label_key();
        assert!(
            has_key(key),
            "column `{}` is offered but `{key}` is not in the catalogue",
            column.token()
        );
    }
}

#[test]
fn a_hidden_column_is_remembered_by_its_token() {
    let mut hidden = Hidden {
        tokens: vec!["retired".to_owned(), "day".to_owned()],
    };
    assert!(hidden.hides(Column::Day) && !hidden.hides(Column::Week));
    hidden.show(Column::Week, false);
    hidden.show(Column::Week, false);
    assert_eq!(hidden.tokens.len(), 3);
    assert_eq!(hidden.shown().len(), 7);
    hidden.show(Column::Day, true);
    hidden.show(Column::Week, true);
    assert_eq!(hidden.tokens, vec!["retired".to_owned()]);
    assert_eq!(hidden.shown(), Column::ALL.to_vec());
    assert!(Column::Series.numeric() && !Column::LastRun.numeric());
    assert_eq!(table_class(true), "ik-table ik-table-compact");
}

fn stat(blocked: i64) -> ProviderStat {
    ProviderStat {
        slug: "kunmanga".to_owned(),
        series_count: 1,
        source_count: 2,
        chapter_count: 3,
        blocked_sources: blocked,
        chapters_24h: 5,
        chapters_7d: 6,
        last_scanned_at: None,
        last_full_scan_at: None,
        last_chapter_at: None,
    }
}

#[test]
fn a_row_says_what_it_knows() {
    assert_eq!(blocked_note(&stat(0)), None);
    assert_eq!(
        blocked_note(&stat(4)).unwrap().args,
        vec![("count", Arg::Grouped(4))]
    );
    assert_eq!(gained(0), None);
    assert_eq!(gained(7), Some(7));
    assert_eq!(last_run(&None, &Some("x".to_owned())), LastRun::Unknown);
    assert_eq!(
        last_run(&Some("failed".to_owned()), &None),
        LastRun::Ended {
            state: "failed".to_owned(),
            at: None
        }
    );
    let figures = coverage(&stat(4));
    assert_eq!(figures.len(), 6);
    assert_eq!(figures[3], ("console.providers.blocked", 4));
}

fn flag(overridden: bool, enabled: bool, locked: bool) -> Flag {
    Flag {
        key: "reader.comments".to_owned(),
        group: FeatureGroup::Tracking,
        enabled,
        default_enabled: false,
        overridden,
        locked,
        updated_by: Some("kaori".to_owned()),
        updated_at: None,
    }
}

#[test]
fn a_switch_says_whether_it_was_changed() {
    let face = flag_face(&flag(true, true, false), true);
    assert!(face.changed && face.reset);
    assert_eq!(face.toggle, Some(false));
    assert_eq!(face.toggle_key, "console.flags.disable");
    assert_eq!(
        face.changed_by.unwrap().args[1],
        ("date", Arg::Day(String::new()))
    );
    assert!(!flag_face(&flag(true, false, false), true).changed);
    assert!(!flag_face(&flag(false, true, false), true).reset);
    let locked = flag_face(&flag(true, true, true), true);
    assert_eq!((locked.toggle, locked.reset), (None, false));
    assert_eq!(flag_face(&flag(true, true, false), false).toggle, None);
    assert_eq!(toggle_class(true), "ik-btn primary");
    let list = [flag(true, true, false)];
    assert_eq!(flags_of(&list, FeatureGroup::Tracking), vec![0]);
    assert!(flags_of(&list, FeatureGroup::Sync).is_empty());
    for (group, key) in GROUPS {
        assert!(has_key(key), "{group:?}");
    }
}

#[test]
fn a_provider_out_of_service_can_be_taken_back() {
    assert_eq!(
        reenabled(ProviderState::Challenged),
        Some(ProviderState::Active)
    );
    assert_eq!(reenabled(ProviderState::Active), None);
    assert_eq!(list_face(None), ListFace::Loading);
    assert_eq!(list_face(Some(Err(()))), ListFace::Failed);
    assert_eq!(list_face(Some(Ok(0))), ListFace::Empty);
    assert_eq!(list_face(Some(Ok(1))), ListFace::Rows);
}

#[test]
fn the_provider_that_is_picked_is_tested() {
    let mut chosen = Chosen::new();
    assert_eq!(chosen.provider(), None);
    chosen.set(uuid::Uuid::from_u128(0xaa).to_string());
    assert_eq!(chosen.provider(), Some(0xaa));
    assert!(chosen.is_provider(0xaa) && !chosen.is_provider(0xab));
    chosen.set("not-an-id".to_owned());
    assert_eq!(chosen.provider(), None);
    chosen.set(String::new());
    assert_eq!(chosen.value, None);
}

#[test]
fn the_coverage_is_as_fresh_as_its_stamps() {
    let fresh = ProviderStat {
        last_chapter_at: Some("2026-08-09T00:00:00Z".to_owned()),
        ..stat(0)
    };
    let (scan, full, chapter) = coverage_stamps(&fresh);
    assert_eq!(scan.args[0], ("when", Arg::Since(None)));
    assert_eq!(full.key, "console.providers.lastFullScan");
    assert_eq!(
        chapter.args[0],
        ("when", Arg::Since(Some("2026-08-09T00:00:00Z".to_owned())))
    );
}
