use tankovault_console::catalogue::{
    catalogue_request, choose_health, choose_provider, health_from_token, health_token, hits_words,
    row_face, totals, BulkBar, CatalogueRow, CatalogueSummary, DeleteReport, HealthFilter, Selection,
};
use tankovault_console::merge::SeriesId;
use tankovault_console::notice::{Notice, Reply};
use tankovault_console::purge::{
    is_locked, purge_radius, shows_cancel, status_line, Poll, PurgePanel, PurgeScope, PurgeStatus,
    PurgeStop, Tick,
};
use tankovault_console::notice::Attempt;
use tankovault_console::query::ConsoleQuery;
use tankovault_console::wording::{Arg, Label, Phrase};

#[test]
fn an_unknown_health_token_shows_everything() {
    assert_eq!(health_from_token("nonsense"), HealthFilter::Any);
    assert_eq!(health_from_token(""), HealthFilter::Any);
}

#[test]
fn every_health_filter_round_trips_through_its_token() {
    for health in [
        HealthFilter::Any,
        HealthFilter::Orphaned,
        HealthFilter::Empty,
    ] {
        assert_eq!(health_from_token(health_token(health)), health);
    }
}

fn view(q: &str, provider: Option<&str>, status: Option<&str>, page: u32) -> ConsoleQuery {
    ConsoleQuery {
        q: q.to_owned(),
        provider: provider.map(ToOwned::to_owned),
        status: status.map(ToOwned::to_owned),
        page,
        ..ConsoleQuery::default()
    }
}

#[test]
fn the_list_is_asked_for_what_the_view_says() {
    let request = catalogue_request(&view(" bell ", Some("  "), Some("empty"), 3));
    assert_eq!(request.limit, 50);
    assert_eq!(request.offset, 150);
    assert_eq!(request.health, HealthFilter::Empty);
    assert_eq!(request.search.as_deref(), Some(" bell "));
    assert_eq!(request.provider, None);
    assert_eq!(catalogue_request(&view("  ", None, None, 0)).search, None);
    assert_eq!(
        choose_provider(&view("", None, None, 2), "kun").provider.as_deref(),
        Some("kun")
    );
    assert_eq!(choose_provider(&view("", Some("kun"), None, 2), " ").provider, None);
    assert_eq!(choose_health(&view("", None, None, 2), String::new()).page, 0);
}

#[test]
fn ticks_survive_paging_and_not_a_filter() {
    let start = view("bell", None, None, 0);
    let mut picked = Selection::new(&start);
    picked.mark(SeriesId(1), true);
    picked.press(SeriesId(2), true);
    picked.press(SeriesId(3), false);
    assert_eq!(picked.count(), 2);

    picked.follow(&view("bell", None, None, 7));
    assert!(picked.has(SeriesId(1)) && picked.has(SeriesId(2)) && !picked.has(SeriesId(3)));

    picked.follow(&view("bells", None, None, 7));
    assert_eq!(picked.count(), 0);
}

#[test]
fn no_filter_can_pass_for_another() {
    let mut picked = Selection::new(&view("a|b", None, None, 0));
    picked.mark(SeriesId(1), true);
    picked.follow(&view("a", Some("b|"), None, 0));
    assert_eq!(picked.count(), 0);
}

#[test]
fn a_page_is_ticked_as_a_whole() {
    let mut picked = Selection::new(&ConsoleQuery::default());
    assert!(!picked.has_page(&[]));
    picked.mark(SeriesId(9), true);
    picked.mark_page(&[1, 2, 3], true);
    assert!(picked.has_page(&[1, 2, 3]));
    picked.press(SeriesId(2), true);
    assert!(!picked.has_page(&[1, 2, 3]));
    picked.mark_page(&[1, 2, 3], false);
    let ids = picked.ids();
    assert_eq!(ids, vec![9]);
}

#[test]
fn a_delete_takes_exactly_what_is_ticked() {
    let mut picked = Selection::new(&ConsoleQuery::default());
    let mut bar = BulkBar::new();
    assert!(!BulkBar::is_shown(&picked));
    picked.mark_page(&[4, 5], true);
    assert!(BulkBar::is_shown(&picked));
    bar.choose_action("");
    assert!(!bar.confirming);
    bar.choose_action("delete");
    assert!(bar.confirming);
    let mut ids = bar.confirm(&picked).unwrap();
    ids.sort_unstable();
    assert_eq!(ids, vec![4, 5]);
    assert_eq!(bar.confirm(&picked), None);

    let report = DeleteReport {
        series: 2,
        chapters: 40,
        watchlist_entries: 3,
    };
    assert!(!bar.deleted(&mut picked, Reply::StepUp, report));
    assert_eq!(picked.count(), 2);
    bar.stepped_up();
    assert!(bar.confirm(&picked).is_some());
    assert!(!bar.deleted(&mut picked, Reply::Failed("no".to_owned()), report));
    assert_eq!(bar.attempt.outcome, Some(Notice::BadText("no".to_owned())));
    assert!(bar.confirm(&picked).is_some());
    assert!(bar.deleted(&mut picked, Reply::Done, report));
    assert_eq!(picked.count(), 0);
    assert!(!bar.confirming);
    match &bar.attempt.outcome {
        Some(Notice::Good(p)) => {
            assert_eq!(p.key, "console.catalogue.deleted");
            assert_eq!(p.args[1], ("chapters", Arg::Grouped(40)));
        }
        other => panic!("{other:?}"),
    }
}

#[test]
fn totals_call_out_what_is_broken() {
    let summary = CatalogueSummary {
        series_total: 10,
        sources_total: 20,
        chapters_total: 30,
        orphaned_series: 1,
        empty_series: 0,
        watchlist_entries: 4,
        progress_rows: 5,
    };
    let shown = totals(summary);
    assert_eq!(shown.len(), 5);
    assert!(shown[3].warn && !shown[4].warn);
    assert_eq!(shown[2].value, 30);
}

#[test]
fn a_row_says_what_a_delete_would_cost() {
    let row = CatalogueRow {
        id: SeriesId(1),
        title: "Ninth Bell".to_owned(),
        providers: Vec::new(),
        chapter_count: 3,
        watcher_count: 0,
    };
    let face = row_face(&row, true);
    assert_eq!(face.class, "ik-row-pick selected");
    assert!(face.orphaned);
    assert_eq!(face.watchers_class, "ik-mono ik-muted");
}

fn purge(running: bool, stopped: Option<PurgeStop>) -> PurgeStatus {
    PurgeStatus {
        scope: Some(PurgeScope::Chapters),
        running,
        cancel_requested: false,
        removed_series: 1,
        removed_chapters: 1200,
        remaining: None,
        stopped,
        error: None,
    }
}

#[test]
fn a_purge_says_what_it_is_doing() {
    let running = status_line(&purge(true, None)).unwrap();
    assert_eq!(running.key, "console.catalogue.purgeProgress");
    assert_eq!(running.args[0], ("done", Arg::Grouped(1200)));
    assert_eq!(
        running.args[1],
        ("left", Arg::Label(Label::Verbatim("—".to_owned())))
    );
    let everything = PurgeStatus {
        scope: Some(PurgeScope::Everything),
        cancel_requested: true,
        ..purge(true, None)
    };
    let line = status_line(&everything).unwrap();
    assert_eq!(line.key, "console.catalogue.purgeCancelling");
    assert_eq!(line.args[0], ("done", Arg::Grouped(1)));
    assert!(!shows_cancel(Some(&everything)));

    for (stop, key) in [
        (PurgeStop::Done, "console.catalogue.purgeDone"),
        (PurgeStop::Cancelled, "console.catalogue.purgeCancelled"),
        (PurgeStop::Interrupted, "console.catalogue.purgeInterrupted"),
        (PurgeStop::Stalled, "console.catalogue.purgeStalled"),
        (PurgeStop::Failed, "console.catalogue.purgeFailed"),
    ] {
        assert_eq!(status_line(&purge(false, Some(stop))).unwrap().key, key);
    }
    assert_eq!(status_line(&purge(false, None)), None);
    let never = PurgeStatus {
        scope: None,
        ..purge(false, Some(PurgeStop::Done))
    };
    assert_eq!(status_line(&never), None);
}

#[test]
fn totals_are_read_once_after_a_run() {
    let mut poll = Poll::new();
    let on = purge(true, None);
    let off = purge(false, Some(PurgeStop::Done));
    assert_eq!(poll.tick(None), Tick::Nothing);
    assert_eq!(poll.tick(Some(&on)), Tick::Status);
    assert_eq!(poll.tick(Some(&on)), Tick::Status);
    assert_eq!(poll.tick(Some(&off)), Tick::Totals);
    assert_eq!(poll.tick(Some(&off)), Tick::Nothing);
    assert!(is_locked(false, Some(&on)) && !is_locked(false, Some(&off)));
    assert!(shows_cancel(Some(&on)) && !shows_cancel(Some(&off)) && !shows_cancel(None));
}

#[test]
fn each_purge_has_its_own_word() {
    let mut panel = PurgePanel {
        attempt: Attempt::idle(),
    };
    assert_eq!(panel.start(PurgeScope::Chapters), Some("chapters"));
    assert_eq!(panel.start(PurgeScope::Everything), None);
    panel.started(Reply::Done, false);
    assert!(matches!(&panel.attempt.outcome, Some(Notice::Good(p)) if p.key == "console.catalogue.purgeBusy"));
    assert_eq!(panel.start(PurgeScope::Everything), Some("everything"));
    panel.started(Reply::Done, true);
    assert_eq!(panel.attempt.outcome, None);
    assert!(panel.cancel());
    assert!(!panel.cancel());
    panel.cancelled(Reply::Failed("gone".to_owned()));
    assert_eq!(panel.attempt.outcome, Some(Notice::BadText("gone".to_owned())));
}

#[test]
fn an_unknown_total_is_a_dash_and_not_a_zero() {
    let why = purge_radius(PurgeScope::Everything, None);
    assert_eq!(why.key, "console.catalogue.purgeAllWhy");
    assert_eq!(why.args.len(), 4);
    assert_eq!(
        why.args[0],
        ("series", Arg::Label(Label::Verbatim("—".to_owned())))
    );
}

#[test]
fn a_selection_says_what_it_holds_and_what_it_would_take() {
    let mut selection = Selection::new(&ConsoleQuery::fresh());
    selection.mark(SeriesId(1), true);
    selection.mark(SeriesId(2), true);
    assert_eq!(selection.words(), Phrase::plural("console.catalogue.selected", 2));
    assert_eq!(selection.radius(), Phrase::plural("console.catalogue.deleteRadius", 2));
    assert_eq!(hits_words(41), Phrase::plural("console.catalogue.hits", 41));
}
