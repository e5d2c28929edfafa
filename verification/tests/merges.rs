use serde_json::Value;
use tankovault_console::access::{Capabilities, Permission};
use tankovault_console::decisions::{
    action_label, because, blocked_pill, empty_key, evidence_key, filter_merges, filter_syncs,
    journal_request, match_words, merge_controls, merge_flagged, merge_reverted, opening_filter, outcome_label,
    outcome_tone, pretty, reason_label, reason_required, revert_words, score_rows, score_words,
    search_hits, sync_because, sync_controls, sync_facts,
    sync_flagged, sync_moves, sync_reverted, sync_title, Asked, Journal, Judge, MergeDecision,
    SyncDecision,
};
use tankovault_console::keys::has_key;
use tankovault_console::merge::SeriesId;
use tankovault_console::merge_inspect::{
    absorbed_id_key, badges, both_records, identity, segment_label, settled_line, side_facts,
    tallies, trail, undo_pill, unmerge_block, Sides, Tab, UnmergeBlock,
};
use tankovault_console::merges::{
    choose_lens, hits, inspected, merges_request, outside_page, page_of, pick, row_face, summary,
    Inspected, Lens, Pick, Pinned,
};
use tankovault_console::notice::Reply;
use tankovault_console::query::ConsoleQuery;
use tankovault_console::wording::{Arg, Label};

fn decision(id: u128) -> MergeDecision {
    MergeDecision {
        id,
        left_id: SeriesId(1),
        left_title: "Ninth Bell".to_owned(),
        right_id: SeriesId(2),
        right_title: "Bell of the Ninth".to_owned(),
        survivor_id: Some(SeriesId(1)),
        absorbed_id: Some(SeriesId(2)),
        outcome: "merged".to_owned(),
        reason: "same_title".to_owned(),
        trigger: "sweep".to_owned(),
        sweep_id: None,
        percent: "91".to_owned(),
        signals: Vec::new(),
        blocked_by: Vec::new(),
        terms: Value::Null,
        evidence: Value::Null,
        policy: Value::Null,
        decided_at: "2026-08-09T00:00:00Z".to_owned(),
        reverted_at: None,
        revert_reason: None,
        flagged_at: None,
        flag_reason: None,
        revertible: true,
        undo_rows: 12,
        undo_breakdown: Vec::new(),
    }
}

fn text_of(id: u128) -> String {
    uuid::Uuid::from_u128(id).to_string()
}

#[test]
fn every_lens_round_trips_and_is_worded() {
    for lens in Lens::ALL {
        assert_eq!(Lens::parse(lens.token()), lens);
        assert!(
            has_key(lens.label_key()),
            "`{}` has no catalogue entry",
            lens.token()
        );
    }
}

#[test]
fn a_selection_off_the_page_is_fetched_not_replaced() {
    let id = uuid::Uuid::from_u128(0xaa);
    assert_eq!(
        pick(Some(&id.to_string()), &[]),
        Pick::Fetch(id.as_u128())
    );
    let page = [decision(1), decision(2)];
    assert_eq!(
        pick(Some(&id.to_string()), &page),
        Pick::Fetch(id.as_u128())
    );
    assert_eq!(pick(Some(&text_of(2)), &page), Pick::Row(1));
}

#[test]
fn no_selection_or_a_garbled_one_lands_on_the_first_row() {
    assert_eq!(pick(None, &[]), Pick::Nothing);
    assert_eq!(pick(Some("not-an-id"), &[]), Pick::Nothing);
    let page = [decision(1)];
    assert_eq!(pick(None, &page), Pick::Row(0));
    assert_eq!(pick(Some("not-an-id"), &page), Pick::Row(0));
}

#[test]
fn an_id_in_any_form_is_an_id() {
    let id = uuid::Uuid::from_u128(0x018f_4c2a_0000_7000_8000_0000_0000_0001);
    for form in [
        id.to_string(),
        id.to_string().to_uppercase(),
        id.simple().to_string(),
        id.urn().to_string(),
        id.braced().to_string(),
        format!("URN:UUID:{id}"),
    ] {
        assert_eq!(pick(Some(&form), &[]), Pick::Fetch(id.as_u128()), "{form}");
    }
    for garbled in [
        "018f4c2a-0000-7000-8000-00000000000",
        "018f4c2a-0000-7000-8000-0000000000010",
        "018f4c2a00007000-8000-0000000000010",
        "g18f4c2a-0000-7000-8000-000000000001",
        "{018f4c2a-0000-7000-8000-000000000001",
        "{018f4c2a00007000800000000000000001}",
        "urn:018f4c2a-0000-7000-8000-000000000001",
        "九番の鐘九番の鐘九番の鐘九番の鐘九番の鐘九番の鐘九番の鐘九番の鐘",
    ] {
        assert_eq!(pick(Some(garbled), &[]), Pick::Nothing, "{garbled}");
    }
}

#[test]
fn the_inspector_waits_for_the_decision_that_the_link_names() {
    assert_eq!(inspected(Pick::Fetch(7), Pinned::Loading, 3), Inspected::Loading);
    assert_eq!(inspected(Pick::Fetch(7), Pinned::Found, 3), Inspected::Fetched);
    assert_eq!(inspected(Pick::Fetch(7), Pinned::Missing, 3), Inspected::Row(0));
    assert_eq!(inspected(Pick::Fetch(7), Pinned::Missing, 0), Inspected::Nothing);
    assert_eq!(inspected(Pick::Row(2), Pinned::Loading, 3), Inspected::Row(2));
    assert_eq!(inspected(Pick::Nothing, Pinned::Loading, 0), Inspected::Nothing);
    let page = [decision(1)];
    assert!(outside_page(Some(2), &page));
    assert!(!outside_page(Some(1), &page));
    assert!(!outside_page(None, &page));
}

#[test]
fn the_extra_row_says_that_there_is_a_next_page() {
    let mut rows: Vec<MergeDecision> = (0..51).map(decision).collect();
    rows[3].revertible = false;
    rows[50].revertible = false;
    let page = page_of(&rows);
    assert_eq!((page.shown, page.has_next, page.reversible), (50, true, 49));
    rows.pop();
    assert!(!page_of(&rows).has_next);
    let line = summary(2, 50, 49).unwrap();
    assert_eq!(
        line.args,
        vec![
            ("first", Arg::Number(101)),
            ("last", Arg::Number(150)),
            ("reversible", Arg::Number(49))
        ]
    );
    assert_eq!(summary(0, 0, 0), None);
    assert_eq!(hits(3, true).key, "console.merges.hitsMore");
    assert_eq!(hits(3, false).count, Some(3));
}

#[test]
fn a_lens_is_asked_of_the_server() {
    let view = ConsoleQuery {
        sel: Some("x".to_owned()),
        q: " bell ".to_owned(),
        page: 3,
        ..ConsoleQuery::default()
    };
    let through = choose_lens(&view, Lens::ByOperator);
    assert_eq!(through.status.as_deref(), Some("operator"));
    assert_eq!((through.sel.clone(), through.page), (None, 0));
    let request = merges_request(&through);
    assert_eq!(request.lens, Lens::ByOperator);
    assert_eq!(request.search.as_deref(), Some("bell"));
    let request = merges_request(&view);
    assert_eq!((request.limit, request.offset), (51, 150));
    assert_eq!(choose_lens(&through, Lens::All).status, None);
}

#[test]
fn a_row_leads_with_the_series_that_stayed() {
    let face = row_face(&decision(1), false);
    assert_eq!((face.survivor.as_str(), face.absorbed.as_str()), ("Ninth Bell", "Bell of the Ninth"));
    assert_eq!(face.undo.key, "console.merges.pendingRows");
    assert_eq!(face.trigger, "console.merges.bySweep");
    let turned = MergeDecision {
        absorbed_id: Some(SeriesId(1)),
        reverted_at: Some("2026-08-10T00:00:00Z".to_owned()),
        trigger: "operator".to_owned(),
        ..decision(1)
    };
    let face = row_face(&turned, false);
    assert_eq!(face.survivor, "Bell of the Ninth");
    assert_eq!(face.class, "ik-cons-row dim");
    assert_eq!(face.undo.key, "console.merges.restoredRows");
    assert_eq!(face.trigger, "console.merges.byOperator");
    let spent = MergeDecision {
        revertible: false,
        ..decision(1)
    };
    assert_eq!(row_face(&spent, true).undo.key, "console.merges.undoSpent");
    assert_eq!(Sides::of(&turned).absorbed_title, "Ninth Bell");
}

fn side(id: u128, title: &str) -> Value {
    let mut fields = serde_json::Map::new();
    fields.insert("id".to_owned(), Value::from(text_of(id)));
    fields.insert("title".to_owned(), Value::from(title));
    fields.insert("release_year".to_owned(), Value::from(2019));
    fields.insert("sources".to_owned(), Value::from(3));
    fields.insert("chapters".to_owned(), Value::from("many"));
    Value::Object(fields)
}

#[test]
fn both_records_come_out_of_the_evidence() {
    let mut fields = serde_json::Map::new();
    fields.insert("left".to_owned(), side(1, "Ninth Bell"));
    fields.insert("right".to_owned(), side(2, "Bell of the Ninth"));
    let d = MergeDecision {
        evidence: Value::Object(fields),
        ..decision(1)
    };
    let (survivor, absorbed) = both_records(&d);
    let survivor = survivor.unwrap();
    assert_eq!(survivor.title, "Ninth Bell");
    assert_eq!(survivor.sources, Some(3));
    assert_eq!(survivor.chapters, None);
    assert_eq!(identity(&survivor), format!("{} · 2019", text_of(1)));
    assert_eq!(tallies(&survivor).len(), 1);
    assert_eq!(absorbed.unwrap().title, "Bell of the Ninth");
    assert_eq!(side_facts(&d, SeriesId(3)), None);
    assert_eq!(side_facts(&decision(1), SeriesId(1)), None);
}

#[test]
fn a_settled_merge_is_not_answered_twice() {
    let caps = Capabilities {
        ready: true,
        permissions: vec![Permission::MergeRevert],
        features: Vec::new(),
    };
    let nobody = Capabilities {
        ready: true,
        permissions: Vec::new(),
        features: Vec::new(),
    };
    assert!(matches!(
        unmerge_block(&decision(1), &caps),
        UnmergeBlock::Open { revert: Some(_), .. }
    ));
    assert_eq!(unmerge_block(&decision(1), &nobody), UnmergeBlock::Hidden);
    let spent = MergeDecision {
        revertible: false,
        ..decision(1)
    };
    assert!(matches!(
        unmerge_block(&spent, &caps),
        UnmergeBlock::Open { revert: None, .. }
    ));
    let flagged = MergeDecision {
        flagged_at: Some("2026-08-10T00:00:00Z".to_owned()),
        flag_reason: Some("  ".to_owned()),
        ..decision(1)
    };
    let line = settled_line(&flagged).unwrap();
    assert_eq!(line.key, "console.merges.wasFlagged");
    assert_eq!(
        line.args[1],
        ("reason", Arg::Label(Label::Worded("console.merges.noReason")))
    );
    let both = MergeDecision {
        reverted_at: Some("2026-08-11T00:00:00Z".to_owned()),
        revert_reason: Some("two books".to_owned()),
        ..flagged
    };
    let line = settled_line(&both).unwrap();
    assert_eq!(line.key, "console.merges.wasReverted");
    assert_eq!(
        line.args[1],
        ("reason", Arg::Label(Label::Verbatim("two books".to_owned())))
    );
    assert_eq!(trail(&both).len(), 3);
    assert_eq!(trail(&decision(1)).len(), 1);
    for tab in Tab::ALL {
        assert_eq!(Tab::parse(tab.token()), tab);
        assert!(has_key(tab.label_key()));
    }
    assert_eq!(Tab::parse("nonsense"), Tab::Why);
}

fn sync() -> SyncDecision {
    SyncDecision {
        id: 1,
        series_title: None,
        username: Some("Kaori".to_owned()),
        provider: "anilist".to_owned(),
        action: "pull".to_owned(),
        reason: "newer".to_owned(),
        external_id: Some("X-77".to_owned()),
        match_percent: Some("88".to_owned()),
        match_signals: Vec::new(),
        evidence: Value::Null,
        ancestor_local: Some("12".to_owned()),
        ancestor_remote: None,
        policy: None,
        applied: true,
        local_before: Some("3".to_owned()),
        local_after: Some("9".to_owned()),
        remote_before: None,
        remote_after: Some("9".to_owned()),
        decided_at: "2026-08-09T00:00:00Z".to_owned(),
        reverted_at: None,
        revert_reason: None,
        flagged_at: None,
        flag_reason: Some("wrong series".to_owned()),
    }
}

#[test]
fn a_search_ignores_case_on_both_sides() {
    assert!(tankovault_console::decisions::matches("ÉCLAIR".to_lowercase().as_str(), &[None, Some("Grand Éclair")]));
    assert!(!tankovault_console::decisions::matches("x", &[None, Some("y")]));
    assert!(!tankovault_console::decisions::matches("x", &[]));
    let list = [decision(1), MergeDecision { left_title: "Other".to_owned(), ..decision(2) }];
    assert_eq!(filter_merges(&list, "  NINTH bell "), vec![0]);
    assert_eq!(filter_merges(&list, "  "), vec![0, 1]);
    assert_eq!(filter_merges(&list, "SAME_TITLE"), vec![0, 1]);
    assert_eq!(filter_syncs(&[sync()], "kaori"), vec![0]);
    assert_eq!(filter_syncs(&[sync()], "x-77"), vec![0]);
    assert!(filter_syncs(&[sync()], "naruto").is_empty());
}

#[test]
fn a_search_loads_more_of_the_journal() {
    assert_eq!(journal_request("merged", false, " ").limit, 50);
    let request = journal_request("", true, "bell");
    assert_eq!((request.limit, request.token.clone(), request.only), (200, None, true));
    assert_eq!(search_hits(1, 2, false), None);
    let line = search_hits(3, 200, true).unwrap();
    assert_eq!(
        line.args[1],
        ("loaded", Arg::Label(Label::Verbatim("200".to_owned())))
    );
    assert_eq!(empty_key(Journal::Sync, false), "console.decisions.syncEmpty");
    assert_eq!(empty_key(Journal::Sync, true), "console.decisions.searchEmpty");
}

#[test]
fn an_answer_needs_a_reason_first() {
    let mut judge = Judge::new();
    assert_eq!(judge.press(), Asked::NoReason);
    judge.enter("  two books ".to_owned());
    assert_eq!(judge.press(), Asked::Send("two books".to_owned()));
    assert_eq!(judge.press(), Asked::Busy);
    assert_eq!(judge.replied(Reply::StepUp, sync_reverted("mapping")), None);
    assert_eq!(judge.reason, "  two books ");
    let line = judge
        .replied(Reply::Failed("no".to_owned()), sync_reverted("mapping"))
        .unwrap();
    assert_eq!(line.key, "console.decisions.actionFailed");
    let line = judge.replied(Reply::Done, sync_reverted("mapping")).unwrap();
    assert_eq!(
        line.args,
        vec![(
            "what",
            Arg::Label(Label::Keyed("console.decisions.restored.mapping".to_owned()))
        )]
    );
    assert_eq!(judge.reason, "");
}

#[test]
fn a_decision_offers_what_the_server_would_accept() {
    let controls = merge_controls(&decision(1), true);
    assert!(controls.revert && controls.flag);
    assert!(!merge_controls(&decision(1), false).flag);
    let controls = sync_controls(&sync(), true);
    assert!(controls.revert && controls.flag);
    let considered = SyncDecision {
        applied: false,
        ..sync()
    };
    let controls = sync_controls(&considered, true);
    assert!(!controls.revert && controls.flag);
    let (local, remote) = sync_moves(&sync());
    assert_eq!(local.unwrap().key, "console.decisions.localMoved");
    assert_eq!(remote, None);
    assert_eq!(outcome_tone("merged"), "ik-pill vermilion");
    assert_eq!(outcome_tone("deferred"), "ik-pill amber");
    assert_eq!(outcome_tone("queued"), "ik-pill");
    assert_eq!(
        reason_label("same_title"),
        Label::FirstOf(
            vec!["console.decisions.reason.same_title".to_owned()],
            "same_title".to_owned()
        )
    );
}

#[test]
fn the_score_is_itemised() {
    let mut term = serde_json::Map::new();
    term.insert("rule".to_owned(), Value::from("same_title"));
    term.insert("detail".to_owned(), Value::from("Ninth Bell"));
    let rows = score_rows(&Value::Array(vec![Value::Object(term), Value::Null]));
    assert_eq!(rows.len(), 2);
    assert_eq!(rows[0].detail, "Ninth Bell");
    assert_eq!(rows[1].rule, Label::Verbatim("?".to_owned()));
    assert!(score_rows(&Value::Null).is_empty());
    assert_eq!(pretty(&Value::Array(vec![Value::from(1)])), "[\n  1\n]");
}

#[test]
fn the_journals_word_what_the_server_chose() {
    assert!(!opening_filter(Journal::Merges) && opening_filter(Journal::Sync));
    assert_eq!(
        outcome_label("merged"),
        Label::Keyed("console.decisions.outcome.merged".to_owned())
    );
    assert_eq!(
        action_label("pull"),
        Label::Keyed("console.decisions.action.pull".to_owned())
    );
    let pill = blocked_pill("year_gap");
    assert_eq!(
        pill.args[0],
        (
            "guard",
            Arg::Label(Label::FirstOf(
                vec![
                    "console.merge.signal.year_gap".to_owned(),
                    "console.decisions.term.year_gap".to_owned()
                ],
                "year_gap".to_owned()
            ))
        )
    );
    assert_eq!(merge_reverted(12).args[0], ("rows", Arg::Number(12)));
    assert_eq!(merge_flagged().key, "console.decisions.flagged");
    assert_eq!(sync_flagged().key, "console.decisions.flaggedAndBlocked");
    assert_eq!(reason_required().key, "console.decisions.reasonRequired");
    assert_eq!(evidence_key(true), "console.decisions.hideEvidence");
    let untitled = SyncDecision {
        series_title: None,
        ..sync()
    };
    assert_eq!(sync_title(&untitled), Label::Worded("console.decisions.noSeries"));
}

#[test]
fn a_merge_that_was_put_back_says_so() {
    let standing = decision(1);
    assert_eq!(badges(&standing), ("console.merges.badge.merged", false));
    assert_eq!(absorbed_id_key(&standing), "console.merges.idGone");
    assert_eq!(undo_pill(&standing), "console.merges.journalIntact");
    let back = MergeDecision {
        reverted_at: Some("2026-08-10T00:00:00Z".to_owned()),
        flagged_at: Some("2026-08-10T00:00:00Z".to_owned()),
        revertible: false,
        ..decision(1)
    };
    assert_eq!(badges(&back), ("console.merges.badge.reverted", true));
    assert_eq!(absorbed_id_key(&back), "console.merges.idResolvesAgain");
    assert_eq!(undo_pill(&back), "console.merges.undoSpent");
    assert_eq!(
        segment_label("sources"),
        Label::FirstOf(
            vec!["console.merges.segment.sources".to_owned()],
            "sources".to_owned()
        )
    );
}

#[test]
fn a_decision_says_how_sure_it_was_and_what_it_moved() {
    let merge = decision(1);
    assert_eq!(revert_words(&merge).args, vec![("rows", Arg::Number(12))]);
    assert_eq!(
        score_words(&merge).args,
        vec![("percent", Arg::Label(Label::Verbatim("91".to_owned())))]
    );
    assert_eq!(because(&merge), (None, None));
    let synced = sync();
    assert_eq!(
        match_words(&synced).unwrap().args,
        vec![("percent", Arg::Label(Label::Verbatim("88".to_owned())))]
    );
    assert_eq!(
        sync_because(&synced).1.unwrap().key,
        "console.decisions.flaggedBecause"
    );
    let bare = SyncDecision {
        external_id: None,
        match_percent: None,
        ..sync()
    };
    assert_eq!(match_words(&bare), None);
    assert_eq!(
        sync_facts(&bare),
        vec![("console.decisions.ancestorLocal", "12".to_owned())]
    );
}

#[test]
fn a_merge_is_named_by_its_id() {
    let said = tankovault_console::merge_inspect::id_words(&decision(1));
    assert_eq!(said.key, "console.merges.mergeId");
    let id = "00000000-0000-0000-0000-000000000001".to_owned();
    assert_eq!(said.args, vec![("id", Arg::Label(Label::Verbatim(id)))]);
}
