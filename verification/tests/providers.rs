use serde_json::Value;
use tankovault_console::access::{Capabilities, Permission};
use tankovault_console::danger::{
    block_key, confirm_enabled, delete_radius, is_confirmed, BlockPress, Danger,
};
use tankovault_console::inspector::{
    budget_values, clone_name, clone_seed, config_badge, config_editor_text, controls, last_scan,
    pause_key, preset_banner, preset_pill, BannerAction, Editor,
};
use tankovault_console::notice::{Notice, Reply};
use tankovault_console::provider::{
    answers_lowered, filter_providers, health_pill, landing_query, landing_selection,
    offers_registration, opened_provider, preset_for, provider_state_token, row_face, stat_for,
    AdapterKind, Politeness, PresetDefinition, PresetLink, Provider, ProviderStat, ProviderState,
    RowMeta, Tab,
};
use tankovault_console::query::ConsoleQuery;
use tankovault_console::register::{
    registration, registration_with, CreateProvider, FormSlot, Rejected, RegistrationForm,
};
use tankovault_console::sample::{
    dry_run_key, dry_run_path, parsed_count, sample_face, SampleFace,
};
use tankovault_console::wording::{Arg, Label};

fn list(values: Vec<i32>) -> Value {
    Value::Array(values.into_iter().map(Value::from).collect())
}

fn record(fields: Vec<(&str, Value)>) -> Value {
    Value::Object(
        fields
            .into_iter()
            .map(|(name, value)| (name.to_owned(), value))
            .collect(),
    )
}

#[test]
fn providers_a_bare_array_is_counted() {
    assert_eq!(parsed_count(&list(vec![1, 2, 3])), Some(3));
}

#[test]
fn providers_an_object_with_exactly_one_array_is_counted() {
    assert_eq!(
        parsed_count(&record(vec![
            ("ok", Value::Bool(true)),
            ("series", list(vec![1, 2]))
        ])),
        Some(2)
    );
}

#[test]
fn providers_an_ambiguous_shape_declines_to_guess() {
    assert_eq!(
        parsed_count(&record(vec![("a", list(vec![1])), ("b", list(vec![2]))])),
        None
    );
    assert_eq!(parsed_count(&record(vec![("ok", Value::Bool(true))])), None);
    assert_eq!(parsed_count(&Value::from("text")), None);
}

#[test]
fn config_a_bare_array_is_counted() {
    assert_eq!(parsed_count(&list(vec![1, 2, 3])), Some(3));
    assert_eq!(parsed_count(&list(vec![])), Some(0));
}

#[test]
fn config_an_object_with_exactly_one_array_is_counted() {
    assert_eq!(
        parsed_count(&record(vec![
            ("ok", Value::Bool(true)),
            ("series", list(vec![1, 2]))
        ])),
        Some(2)
    );
}

#[test]
fn config_an_ambiguous_shape_declines_to_guess() {
    assert_eq!(
        parsed_count(&record(vec![("a", list(vec![1])), ("b", list(vec![2]))])),
        None
    );
    assert_eq!(parsed_count(&record(vec![("ok", Value::Bool(true))])), None);
    assert_eq!(parsed_count(&Value::from("text")), None);
}

#[test]
fn a_dry_run_shows_what_it_parsed() {
    assert_eq!(sample_face(&None), SampleFace::Hint);
    assert_eq!(
        sample_face(&Some(Err("403".to_owned()))),
        SampleFace::Failed("403".to_owned())
    );
    match sample_face(&Some(Ok(list(vec![7])))) {
        SampleFace::Parsed { label, text } => {
            assert_eq!((label.key, label.count), ("console.providers.parsed", Some(1)));
            assert_eq!(text, "[\n  7\n]");
        }
        other => panic!("{other:?}"),
    }
    assert_eq!(dry_run_path(" /list "), Some("/list".to_owned()));
    assert_eq!(dry_run_path("  "), None);
}

fn ok(adapter: &str) -> Result<CreateProvider, Rejected> {
    registration(
        "  acme-scans ",
        " Acme Scans ",
        " https://acmescans.example ",
        adapter,
        r#"{"list":"/series"}"#,
    )
}

#[test]
fn an_unknown_adapter_token_is_refused_rather_than_registered_as_custom() {
    assert!(matches!(ok("madarra"), Err(Rejected::Message(_))));
    assert!(matches!(ok(""), Err(Rejected::Message(_))));
    assert_eq!(
        ok("madara").ok().map(|body| body.adapter),
        Some(AdapterKind::Madara)
    );
}

#[test]
fn the_identity_fields_are_trimmed_and_a_blank_one_is_missing() {
    let body = ok("generic_config").ok().expect("the form is complete");
    assert_eq!(body.slug, "acme-scans");
    assert_eq!(body.name, "Acme Scans");
    assert_eq!(body.base_url, "https://acmescans.example");

    for blank in ["", "   "] {
        assert!(matches!(
            registration(blank, "n", "https://b", "generic_config", "{}"),
            Err(Rejected::Message(_))
        ));
        assert!(matches!(
            registration("s", blank, "https://b", "generic_config", "{}"),
            Err(Rejected::Message(_))
        ));
        assert!(matches!(
            registration("s", "n", blank, "generic_config", "{}"),
            Err(Rejected::Message(_))
        ));
    }
}

#[test]
fn an_unparseable_config_carries_the_parser_message() {
    let Err(Rejected::BadConfig(detail)) =
        registration("s", "n", "https://b", "generic_config", "{ nope }")
    else {
        panic!("a malformed config must be refused as a config error");
    };
    assert!(!detail.is_empty());
    assert_eq!(
        detail,
        serde_json::from_str::<Value>("{ nope }").unwrap_err().to_string()
    );
}

#[test]
fn registration_leaves_politeness_to_the_server() {
    let body = ok("generic_config").ok().expect("the form is complete");
    assert!(body.politeness.is_none());
    assert_eq!(body.config["list"], Value::from("/series"));
}

#[test]
fn a_bad_config_outranks_a_missing_field() {
    assert!(matches!(
        registration_with("", "", "", "", Err("line 1".to_owned())),
        Err(Rejected::BadConfig(why)) if why == "line 1"
    ));
}

#[test]
fn a_form_is_cleared_by_a_registration() {
    let mut form = RegistrationForm::open(None);
    assert_eq!(form.submit(), None);
    assert!(matches!(&form.outcome, Some(Notice::Bad(p)) if p.key == "console.providers.missingFields"));
    form.slug = "s".to_owned();
    form.name = "n".to_owned();
    form.base_url = "https://b".to_owned();
    assert!(form.submit().is_some());
    assert_eq!(form.submit(), None);
    assert!(!form.reply(Reply::Failed("taken".to_owned())));
    assert_eq!(form.slug, "s");
    assert!(form.submit().is_some());
    assert!(form.reply(Reply::Done));
    assert_eq!((form.slug.as_str(), form.config.as_str()), ("", "{}"));
}

fn provider(id: u128, slug: &str, name: &str) -> Provider {
    Provider {
        id,
        slug: slug.to_owned(),
        name: name.to_owned(),
        base_url: "https://b".to_owned(),
        adapter: AdapterKind::Madara,
        config: Value::Null,
        state: ProviderState::Active,
        preset: None,
        politeness: Politeness {
            rps: None,
            concurrency: None,
            crawl_delay_ms: None,
            user_agent: None,
            emulation: None,
        },
        last_full_scan_at: None,
    }
}

#[test]
fn a_search_finds_slugs_and_names_in_any_case() {
    let list = [
        provider(1, "kunmanga", "Kun Manga"),
        provider(2, "eclair", "Grand Éclair"),
    ];
    assert_eq!(filter_providers(&list, "  KUN "), vec![0]);
    assert_eq!(filter_providers(&list, "GRAND É"), vec![1]);
    assert_eq!(filter_providers(&list, ""), vec![0, 1]);
    assert!(filter_providers(&list, "x").is_empty());
    assert!(answers_lowered("a", "b", "") && answers_lowered("abc", "x", "bc"));
    assert!(!answers_lowered("abc", "x", "Bc"));
}

#[test]
fn the_inspector_opens_the_selection_or_the_first_row() {
    let list = [provider(1, "a", "A"), provider(2, "b", "B")];
    let second = Some(uuid::Uuid::from_u128(2).to_string());
    assert_eq!(opened_provider(&list, &[0, 1], &second), Some(1));
    assert_eq!(opened_provider(&list, &[0], &second), Some(0));
    assert_eq!(opened_provider(&list, &[], &second), None);
    assert_eq!(
        landing_selection(&None, Some("x".to_owned())),
        Some("x".to_owned())
    );
    assert_eq!(landing_selection(&Some("x".to_owned()), Some("x".to_owned())), None);
    assert_eq!(
        landing_query(&ConsoleQuery::default(), Some("x".to_owned()))
            .unwrap()
            .sel
            .as_deref(),
        Some("x")
    );
}

#[test]
fn an_unproven_config_edit_is_not_saved() {
    let mut editor = Editor::open(&provider(1, "a", "A"));
    assert_eq!(editor.config, "{}");
    assert!(editor.save_enabled());
    editor.edit_config("{\"list\": 1}".to_owned());
    assert!(editor.save_blocked());
    assert_eq!(editor.save(), None);
    assert!(editor.dry_run());
    assert!(!editor.dry_run());
    editor.dry_run_done(Err("403".to_owned()));
    assert!(editor.save_blocked());
    assert!(editor.dry_run());
    editor.dry_run_done(Ok(list(vec![1])));
    assert!(editor.save_enabled());
    editor.format_config();
    assert_eq!(editor.config, "{\n  \"list\": 1\n}");
    editor.base_url = "https://c".to_owned();
    let (body, migrating) = editor.save().unwrap();
    assert!(migrating);
    assert_eq!(body.config["list"], Value::from(1));
    assert!(editor.saved(Reply::Done, migrating));
    assert!(!editor.dry_run_passed);
}

#[test]
fn a_save_names_what_it_cannot_read() {
    let mut editor = Editor::open(&provider(1, "a", "A"));
    assert!(editor.save_with(Err("line 1".to_owned())).is_none());
    assert!(matches!(&editor.outcome, Some(Notice::Bad(p)) if p.key == "console.providers.badConfig"));
    editor.rps = "fast".to_owned();
    assert_eq!(editor.save(), None);
    assert!(matches!(&editor.outcome, Some(Notice::Bad(p)) if p.key == "console.providers.badRps"));
}

#[test]
fn an_absent_config_is_an_empty_record() {
    assert_eq!(config_editor_text(&Value::Null), "{}");
    assert_eq!(config_editor_text(&record(vec![])), "{}");
    assert_eq!(
        config_editor_text(&record(vec![("a", Value::from(1))])),
        "{\n  \"a\": 1\n}"
    );
    let seed = clone_seed(&provider(1, "a", "A"), "A (copy)".to_owned());
    assert_eq!((seed.slug.as_str(), seed.adapter.as_str()), ("a-copy", "madara"));
    let mut slot = FormSlot {
        creating: false,
        seed: None,
    };
    slot.open_clone(seed);
    assert!(slot.creating && slot.seed.is_some());
    slot.done();
    assert!(!slot.creating);
}

#[test]
fn a_followed_preset_is_read_only() {
    let caps = Capabilities {
        ready: true,
        permissions: vec![Permission::ProvidersWrite],
        features: Vec::new(),
    };
    let link = PresetLink {
        slug: "madara".to_owned(),
        locked: true,
        synced_at: None,
    };
    let followed = Provider {
        preset: Some(link),
        ..provider(1, "a", "A")
    };
    let offered = controls(&caps, &followed, true);
    assert!(offered.edit && !offered.edit_owned && !offered.retired);
    assert!(controls(&caps, &followed, false).retired);
    assert!(controls(&caps, &provider(1, "a", "A"), false).edit_owned);
    let link = followed.preset.as_ref().unwrap();
    assert_eq!(preset_banner(link, false, true, false).action, BannerAction::Unlock);
    assert_eq!(preset_banner(link, true, true, false).action, BannerAction::Nothing);
}

#[test]
fn a_delete_is_released_by_the_exact_slug() {
    assert!(is_confirmed("  kunmanga ", "kunmanga"));
    assert!(!is_confirmed("Kunmanga", "kunmanga"));
    assert!(!confirm_enabled("kunmanga", "kunmanga", true));
    assert_eq!(
        delete_radius(None).args[0],
        ("sources", Arg::Label(Label::Verbatim("—".to_owned())))
    );
    let mut danger = Danger {
        confirming: false,
        busy: false,
        outcome: None,
    };
    assert_eq!(danger.press_block(ProviderState::Active), BlockPress::Ask);
    assert!(danger.confirming);
    assert_eq!(danger.press_block(ProviderState::Blocked), BlockPress::Unblock);
    assert!(danger.ask());
    assert!(!danger.ask());
    assert!(danger.deleted(Reply::Done));
}

#[test]
fn an_unknown_state_is_shown_as_it_is() {
    let (_, label) = health_pill("hibernating");
    assert_eq!(label, Label::Verbatim("hibernating".to_owned()));
    for tab in Tab::ALL {
        assert_eq!(Tab::parse(tab.token()), tab);
    }
}

fn figures(slug: &str, sources: i64, blocked: i64) -> ProviderStat {
    ProviderStat {
        slug: slug.to_owned(),
        series_count: 1200,
        source_count: sources,
        chapter_count: 3,
        blocked_sources: blocked,
        chapters_24h: 5,
        chapters_7d: 6,
        last_scanned_at: None,
        last_full_scan_at: None,
        last_chapter_at: None,
    }
}

#[test]
fn a_row_warns_below_ninety_five_serving_links_in_a_hundred() {
    let row = provider(1, "a", "A");
    let face = row_face(&row, Some(&figures("a", 20, 1)), false);
    assert_eq!((face.class, face.meter), ("ik-cons-row", Some("")));
    assert_eq!(
        face.meta,
        RowMeta::Figures {
            series: 1200,
            healthy: Some((19, 20)),
            scanned_at: None
        }
    );
    let face = row_face(&row, Some(&figures("a", 100, 6)), true);
    assert_eq!((face.class, face.meter), ("ik-cons-row selected", Some("warn")));
    // More blocked links than links serve nothing, and no links are no meter.
    assert_eq!(row_face(&row, Some(&figures("a", 1, 9)), false).meter, Some("warn"));
    assert_eq!(row_face(&row, Some(&figures("a", 0, i64::MIN)), false).meter, None);

    let face = row_face(&row, None, false);
    assert_eq!((face.preset_mark, face.meter), (None, None));
    assert_eq!(face.meta, RowMeta::Address("https://b".to_owned()));
    let paused = Provider {
        state: ProviderState::Disabled,
        preset: Some(PresetLink {
            slug: "madara".to_owned(),
            locked: false,
            synced_at: None,
        }),
        ..provider(1, "a", "A")
    };
    let face = row_face(&paused, None, false);
    assert_eq!(face.class, "ik-cons-row dim");
    assert_eq!(
        face.preset_mark,
        Some(("\u{1f513}", "console.providers.preset.pillCustom"))
    );
}

#[test]
fn figures_and_presets_are_found_by_their_slug() {
    let stats = [figures("a", 1, 0), figures("b", 2, 0)];
    assert_eq!(stat_for(&stats, "b"), Some(1));
    assert_eq!(stat_for(&stats, "c"), None);

    let preset = |slug: &str| PresetDefinition {
        slug: slug.to_owned(),
        politeness: provider(1, "a", "A").politeness,
    };
    let shipped = Some(vec![preset("custom"), preset("madara")]);
    let followed = Provider {
        preset: Some(PresetLink {
            slug: "madara".to_owned(),
            locked: true,
            synced_at: None,
        }),
        ..provider(1, "a", "A")
    };
    assert_eq!(preset_for(&shipped, &followed), Some(1));
    assert_eq!(preset_for(&Some(vec![preset("custom")]), &followed), None);
    assert_eq!(preset_for(&None, &followed), None);
    assert_eq!(preset_for(&shipped, &provider(1, "a", "A")), None);
}

#[test]
fn the_inspector_makes_one_request_at_a_time() {
    let mut editor = Editor::open(&provider(1, "a", "A"));
    assert_eq!(
        editor.toggle_state(ProviderState::Challenged),
        Some(ProviderState::Disabled)
    );
    assert_eq!(editor.toggle_state(ProviderState::Disabled), None);
    assert!(!editor.set_lock(false));
    assert!(editor.state_set(Reply::Done));
    assert_eq!(
        editor.toggle_state(ProviderState::Disabled),
        Some(ProviderState::Active)
    );
    assert!(!editor.state_set(Reply::Failed("409".to_owned())));
    assert_eq!(editor.outcome, Some(Notice::BadText("409".to_owned())));

    editor.ask_relink(true);
    assert!(editor.relinking);
    assert!(editor.set_lock(true));
    assert!(!editor.relinking && editor.outcome.is_none());
    assert!(editor.lock_set(Reply::Done, true));
    match &editor.outcome {
        Some(Notice::Good(said)) => assert_eq!(said.key, "console.providers.preset.relinked"),
        other => panic!("{other:?}"),
    }
    editor.scan();
    editor.scan_queued(Reply::Done);
    match &editor.outcome {
        Some(Notice::Good(said)) => assert_eq!(said.key, "console.providers.scanQueued"),
        other => panic!("{other:?}"),
    }
}

#[test]
fn a_presets_budget_fills_the_fields() {
    let mut editor = Editor::open(&provider(1, "a", "A"));
    editor.take_budget(Some("0.5".to_owned()), Some(4), None);
    assert_eq!(
        (editor.rps.as_str(), editor.concurrency.as_str(), editor.crawl_delay_ms.as_str()),
        ("0.5", "4", "0")
    );
    editor.take_budget(None, None, Some(250));
    assert_eq!(
        (editor.rps.as_str(), editor.concurrency.as_str(), editor.crawl_delay_ms.as_str()),
        ("1", "2", "250")
    );
    let said = budget_values("1.0", None, Some(250));
    assert_eq!(said.args[1], ("concurrency", Arg::Number(2)));
    assert_eq!(said.args[2], ("delay", Arg::Number(250)));
}

#[test]
fn the_editor_says_what_can_be_done() {
    let mut editor = Editor::open(&provider(1, "a", "A"));
    editor.emulation = String::new();
    assert!(editor.user_agent_editable(true) && !editor.user_agent_editable(false));
    editor.emulation = "chrome".to_owned();
    assert!(!editor.user_agent_editable(true));
    assert!(editor.can_format(true) && !editor.can_format(false));
    editor.edit_config("{".to_owned());
    assert!(!editor.can_format(true));
    assert_eq!(config_badge(true), ("console.providers.jsonValid", "ik-jsonblock"));
    assert_eq!(config_badge(false).1, "ik-jsonblock bad");

    assert_eq!(editor.migrate_warning(None), None);
    editor.base_url = "https://c".to_owned();
    let said = editor.migrate_warning(Some(&figures("a", 1, 0))).unwrap();
    assert_eq!(said.args[0], ("count", Arg::Grouped(1200)));
    let said = editor.migrate_warning(None).unwrap();
    assert_eq!(
        said.args[0],
        ("count", Arg::Label(Label::Verbatim("—".to_owned())))
    );
}

#[test]
fn the_inspectors_words_follow_the_provider() {
    let row = provider(1, "a", "A");
    assert_eq!(clone_name(&row).args[0], ("name", Arg::Label(Label::Verbatim("A".to_owned()))));
    assert_eq!(pause_key(ProviderState::Disabled), "console.providers.enable");
    assert_eq!(pause_key(ProviderState::Active), "console.providers.pause");
    assert_eq!(block_key(ProviderState::Blocked), "console.providers.unblock");
    assert_eq!(block_key(ProviderState::Disabled), "console.providers.blocklistCta");
    assert_eq!(dry_run_key(true), "console.adapterTest.running");
    assert_eq!(dry_run_key(false), "console.adapterTest.run");
    assert_eq!(provider_state_token(ProviderState::Solving), "solving");
    let link = |locked| PresetLink {
        slug: "madara".to_owned(),
        locked,
        synced_at: None,
    };
    assert_eq!(preset_pill(&link(true)).0, "console.providers.preset.pillLocked");
    assert_eq!(
        preset_pill(&link(false)).1.key,
        "console.providers.preset.pillCustomTitle"
    );

    let scanned = Provider {
        last_full_scan_at: Some("full".to_owned()),
        ..provider(1, "a", "A")
    };
    let fresh = ProviderStat {
        last_scanned_at: Some("fast".to_owned()),
        ..figures("a", 1, 0)
    };
    assert_eq!(last_scan(Some(&fresh), &scanned), Some("fast".to_owned()));
    assert_eq!(
        last_scan(Some(&figures("a", 1, 0)), &scanned),
        Some("full".to_owned())
    );
    assert_eq!(last_scan(None, &row), None);
}

#[test]
fn the_form_opens_blank_or_as_a_copy() {
    let none = Capabilities {
        ready: true,
        permissions: Vec::new(),
        features: Vec::new(),
    };
    assert!(!offers_registration(&none));
    let mut slot = FormSlot {
        creating: false,
        seed: None,
    };
    slot.toggle_new();
    assert!(slot.creating);
    slot.open_clone(clone_seed(&provider(1, "a", "A"), "A (copy)".to_owned()));
    slot.row_picked();
    assert!(!slot.creating && slot.seed.is_some());
    assert_eq!(
        RegistrationForm::open(slot.seed).title_key(),
        "console.providers.cloneTitle"
    );
    assert_eq!(RegistrationForm::open(None).title_key(), "console.providers.add");
}

#[test]
fn a_saved_edit_is_held_against_what_was_stored() {
    let mut editor = Editor::open(&provider(1, "a", "A"));
    editor.edit_config("{}\n".to_owned());
    editor.format_config();
    editor.edit_config("[]".to_owned());
    assert!(editor.save_blocked());
    assert!(editor.dry_run());
    editor.dry_run_done(Ok(list(vec![])));
    editor.base_url = "https://c".to_owned();
    editor.name = "B".to_owned();
    let (sent, migrating) = editor.save().unwrap();
    assert!(migrating);
    assert!(editor.saved(Reply::Done, migrating));
    assert!(editor.save_blocked() && editor.base_changed());

    let stored = Provider {
        base_url: sent.base_url,
        config: sent.config,
        ..provider(1, "a", "A")
    };
    editor.reloaded(&stored);
    assert!(!editor.save_blocked() && !editor.base_changed());
    assert_eq!(editor.migrate_warning(None), None);
    assert_eq!((editor.name.as_str(), editor.config.as_str()), ("B", "[]"));
}

#[test]
fn a_press_sets_the_state_it_stands_for() {
    let mut danger = Danger {
        confirming: true,
        busy: false,
        outcome: None,
    };
    let press = danger.press_block(ProviderState::Active);
    assert_eq!(danger.set_blocked(press), Some(ProviderState::Blocked));
    assert_eq!(danger.set_blocked(press), None);
    assert!(danger.state_set(Reply::Done));
    let press = danger.press_block(ProviderState::Blocked);
    assert_eq!(danger.set_blocked(press), Some(ProviderState::Active));
}

#[test]
fn a_list_and_an_inspector_say_their_figures() {
    let (hits, foot) = tankovault_console::provider::count_words(3);
    assert_eq!((hits.key, hits.count), ("console.providers.hits", Some(3)));
    assert_eq!((foot.key, foot.count), ("console.providers.count", Some(3)));
    let stat = tankovault_console::provider::ProviderStat {
        slug: "a".to_owned(),
        series_count: 1_200,
        source_count: 1,
        chapter_count: 9,
        blocked_sources: 0,
        chapters_24h: 7,
        chapters_7d: 8,
        last_scanned_at: None,
        last_full_scan_at: None,
        last_chapter_at: None,
    };
    let (series, today) = tankovault_console::inspector::meta_words(&stat);
    assert_eq!(series.args, vec![("count", tankovault_console::wording::Arg::Grouped(1_200))]);
    assert_eq!(today.args, vec![("count", tankovault_console::wording::Arg::Grouped(7))]);
    let gone = tankovault_console::solver::unavailable("timed out");
    assert_eq!(gone.key, "console.providers.unavailable");
}
