use tankovault_console::access::{Capabilities, Feature, Permission};
use tankovault_console::catalogue;
use tankovault_console::decisions::Journal;
use tankovault_console::entity::{
    body_class, can_count, console_effect, console_view, entry_class, landing_entity, rail,
    rail_count, rail_figures, section_effect, section_view, ConsoleEntity, CountTone, Icon,
    RailGroup, SectionEffect, SectionView, SystemStats,
    UnknownEntity,
};
use tankovault_console::flags;
use tankovault_console::keys::has_key;
use tankovault_console::nav::{filter, open, select, Move};
use tankovault_console::overview::kpi_grid;
use tankovault_console::provider::{adapter_label_key, AdapterKind, ADAPTER_KINDS};
use tankovault_console::query::ConsoleQuery;
use tankovault_console::recommendations;

#[test]
fn the_rail_and_the_entity_list_hold_the_same_entities() {
    let mut railed: Vec<&str> = RailGroup::ALL
        .iter()
        .flat_map(|group| group.entities().into_iter().map(|entity| entity.slug()))
        .collect();
    let mut listed: Vec<&str> = ConsoleEntity::ALL.iter().map(|e| e.slug()).collect();
    railed.sort_unstable();
    listed.sort_unstable();
    assert_eq!(railed, listed);
}

#[test]
fn a_slug_is_parsed_as_an_address() {
    for entity in ConsoleEntity::ALL {
        assert_eq!(entity.slug().parse::<ConsoleEntity>(), Ok(entity));
    }
    assert_eq!("Overview".parse::<ConsoleEntity>(), Err(UnknownEntity));
}

#[test]
fn every_entity_is_worded() {
    for entity in ConsoleEntity::ALL {
        let key = entity.label_key();
        assert!(
            has_key(key),
            "`{}` is on the rail but `{key}` is not in the catalogue",
            entity.slug()
        );
    }
    for group in RailGroup::ALL {
        assert!(has_key(group.label_key()));
    }
}

#[test]
fn every_offered_adapter_kind_round_trips_through_its_option_value() {
    for kind in ADAPTER_KINDS.iter().copied() {
        assert_eq!(
            AdapterKind::parse(&kind.to_string()),
            Some(kind),
            "`{kind:?}` does not survive the picker's own value round trip"
        );
    }
}

#[test]
fn every_offered_adapter_kind_is_worded() {
    for kind in ADAPTER_KINDS.iter().copied() {
        let key = adapter_label_key(kind);
        assert!(
            has_key(key),
            "`{kind:?}` is offered in the picker but `{key}` is not in the catalogue"
        );
    }
}

fn reader(permissions: Vec<Permission>, features: Vec<Feature>) -> Capabilities {
    Capabilities {
        ready: true,
        permissions,
        features,
    }
}

#[test]
fn a_reader_lands_where_they_may_go() {
    let scans = reader(vec![Permission::ScansRead], vec![Feature::ScanningManual]);
    assert_eq!(
        landing_entity(&scans, Some(ConsoleEntity::Users)),
        Some(ConsoleEntity::Scans)
    );
    assert_eq!(
        landing_entity(&scans, Some(ConsoleEntity::Scans)),
        Some(ConsoleEntity::Scans)
    );
    assert_eq!(landing_entity(&reader(vec![], vec![]), None), None);
    assert_eq!(
        console_effect(&scans, None),
        SectionEffect::Replace(ConsoleEntity::Scans)
    );
    assert_eq!(
        section_effect(ConsoleEntity::Users, &scans, None),
        SectionEffect::Replace(ConsoleEntity::Scans)
    );
    assert_eq!(
        section_effect(ConsoleEntity::Scans, &scans, None),
        SectionEffect::Remember(ConsoleEntity::Scans)
    );
    assert_eq!(
        section_view(ConsoleEntity::Users, true, &scans),
        SectionView::OperatorsOnly
    );
    assert_eq!(
        section_view(ConsoleEntity::Scans, true, &scans),
        SectionView::Panel
    );
    assert_eq!(
        section_view(ConsoleEntity::Scans, false, &scans),
        SectionView::SignIn
    );
    let unknown = Capabilities {
        ready: false,
        ..reader(vec![], vec![])
    };
    assert_eq!(
        section_view(ConsoleEntity::Scans, true, &unknown),
        SectionView::Loading
    );
    assert_eq!(console_effect(&unknown, None), SectionEffect::Nothing);
}

#[test]
fn the_journals_open_to_either_permission() {
    for permission in [Permission::MergeAudit, Permission::SyncAudit] {
        let caps = reader(
            vec![permission],
            vec![Feature::AdminAudit],
        );
        assert!(ConsoleEntity::Decisions.is_visible(&caps), "{permission:?}");
    }
}

#[test]
fn the_rail_shows_only_what_is_open() {
    let scans = reader(vec![Permission::ScansRead], vec![Feature::ScanningManual]);
    let entries = rail(&scans);
    assert_eq!(entries.len(), 1);
    assert_eq!(entries[0].group, RailGroup::Pipeline);
    assert_eq!(entries[0].entities, vec![ConsoleEntity::Scans]);
}

fn stats() -> SystemStats {
    SystemStats {
        providers_total: 12,
        providers_active: 9,
        providers_unhealthy: 2,
        providers_disabled: 1,
        series_total: 5000,
        sources_total: 7000,
        chapters_total: 90000,
        chapters_7d: 400,
        chapters_24h: 60,
        chapters_1h: 3,
        runs_active: 2,
        runs_running: 1,
        tasks_queued: 30,
        tasks_running: 4,
        tasks_failed_24h: 0,
        pending_merges: 5,
        users_total: 77,
    }
}

#[test]
fn the_rail_counts_what_needs_attention() {
    assert_eq!(
        rail_count(ConsoleEntity::Merge, Some(stats())),
        Some((5, CountTone::Attention))
    );
    assert_eq!(
        rail_count(ConsoleEntity::Scans, Some(stats())),
        Some((2, CountTone::Live))
    );
    assert_eq!(rail_count(ConsoleEntity::Audit, Some(stats())), None);
    assert_eq!(rail_count(ConsoleEntity::Merge, None), None);
    assert_eq!(body_class(ConsoleEntity::Providers), "ik-cons-body");
    assert_eq!(body_class(ConsoleEntity::Scans), "ik-cons-body wide");
    assert_eq!(
        entry_class(ConsoleEntity::Scans, ConsoleEntity::Scans),
        "ik-cons-entry active"
    );
}

#[test]
fn the_overview_marks_what_runs_and_what_waits() {
    let tiles = kpi_grid(stats());
    assert_eq!(tiles.len(), 9);
    assert_eq!((tiles[4].value, tiles[4].accent), (2, "good"));
    assert_eq!((tiles[6].value, tiles[6].accent), (0, ""));
    assert_eq!((tiles[7].value, tiles[7].accent), (5, "warn"));
    for tile in &tiles {
        assert!(has_key(tile.label) && has_key(tile.sub.key));
    }
}

#[test]
fn a_selection_is_pushed_and_a_filter_replaces() {
    let next = ConsoleQuery {
        q: "bell".to_owned(),
        ..ConsoleQuery::default()
    };
    assert!(matches!(
        select(ConsoleEntity::Scans, next.clone()),
        Move::Push(to) if to.query == next
    ));
    assert!(matches!(
        filter(ConsoleEntity::Scans, next.clone()),
        Move::Replace(to) if to.query == next
    ));
    assert!(matches!(
        open(ConsoleEntity::Users),
        Move::Push(to) if to.query == ConsoleQuery::default() && to.entity == ConsoleEntity::Users
    ));
}

#[test]
fn the_bare_console_waits_for_the_permissions() {
    let scans = reader(vec![Permission::ScansRead], vec![Feature::ScanningManual]);
    assert_eq!(console_view(false, &scans, None), SectionView::SignIn);
    assert_eq!(console_view(true, &scans, None), SectionView::Loading);
    let nobody = reader(vec![], vec![]);
    assert_eq!(console_view(true, &nobody, None), SectionView::OperatorsOnly);
    let unknown = Capabilities {
        ready: false,
        permissions: vec![],
        features: vec![],
    };
    assert_eq!(console_view(true, &unknown, None), SectionView::Loading);
}

#[test]
fn a_work_surface_does_not_refetch_under_a_form() {
    let still: Vec<ConsoleEntity> = ConsoleEntity::ALL
        .into_iter()
        .filter(|entity| !entity.auto_refreshes())
        .collect();
    assert_eq!(
        still,
        vec![
            ConsoleEntity::Catalogue,
            ConsoleEntity::Recommendations,
            ConsoleEntity::Providers,
            ConsoleEntity::Users,
            ConsoleEntity::Flags,
        ]
    );
    assert_eq!(ConsoleEntity::Decisions.icon(), Icon::Gavel);
    assert_eq!(ConsoleEntity::Audit.icon(), Icon::History);
}

#[test]
fn the_push_is_newer_than_the_seed() {
    let seed = stats();
    let pushed = SystemStats {
        runs_active: seed.runs_active + 1,
        ..seed
    };
    assert_eq!(rail_figures(Some(pushed), Some(seed)), Some(pushed));
    assert_eq!(rail_figures(None, Some(seed)), Some(seed));
    assert_eq!(rail_figures(None, None), None);
    let both = reader(vec![Permission::SystemStats], vec![Feature::AdminStats]);
    assert!(can_count(&both));
    assert!(!can_count(&reader(vec![Permission::SystemStats], vec![])));
}

#[test]
fn each_panel_asks_for_its_own_permission() {
    let nobody = reader(vec![], vec![]);
    assert!(!catalogue::may_delete(&nobody) && !flags::may_write(&nobody));
    assert!(!recommendations::may_write(&nobody) && !Journal::Sync.may_revert(&nobody));
    assert!(catalogue::may_delete(&reader(vec![Permission::CatalogueDelete], vec![])));
    assert!(flags::may_write(&reader(vec![Permission::FlagsWrite], vec![])));
    assert!(recommendations::may_write(&reader(vec![Permission::RecsysWrite], vec![])));
    let merges = reader(vec![Permission::MergeRevert], vec![]);
    assert!(Journal::Merges.may_revert(&merges) && !Journal::Sync.may_revert(&merges));
    let syncs = reader(vec![Permission::SyncRevert], vec![]);
    assert!(Journal::Sync.may_revert(&syncs) && !Journal::Merges.may_revert(&syncs));
}
