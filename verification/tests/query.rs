use tankovault_console::component::{decode_component, encode_component};
use tankovault_console::entity::ConsoleEntity;
use tankovault_console::query::{non_empty, Band, ConsoleQuery, QueueFilter};
use tankovault_console::window::Window;

#[test]
fn every_field_round_trips_through_the_query_string() {
    let cases = [
        ConsoleQuery::default(),
        ConsoleQuery {
            sel: Some("018f4c2a-0000-7000-8000-000000000001".to_owned()),
            tab: Some("politeness".to_owned()),
            q: "kun manga".to_owned(),
            status: Some("suspended".to_owned()),
            provider: Some("kunmanga".to_owned()),
            since: Window::Week,
            page: 4,
            staff: true,
            band: Band::High,
            assign: QueueFilter {
                provider: "mangadex".to_owned(),
                q: "naruto".to_owned(),
            },
            remote: QueueFilter {
                provider: "anilist".to_owned(),
                q: "one piece".to_owned(),
            },
            ..ConsoleQuery::default()
        },
        ConsoleQuery {
            since: Window::Hour,
            band: Band::Low,
            ..ConsoleQuery::default()
        },
    ];
    for case in cases {
        let encoded = case.to_string();
        assert_eq!(
            ConsoleQuery::from(encoded.as_str()),
            case,
            "round trip failed for {encoded:?}"
        );
    }
}

#[test]
fn the_default_query_is_empty() {
    assert_eq!(ConsoleQuery::default().to_string(), "");
    assert_eq!(ConsoleQuery::from(""), ConsoleQuery::default());
}

#[test]
fn reserved_characters_in_a_filter_survive() {
    let query = ConsoleQuery {
        q: "fate/stay & night = ?".to_owned(),
        ..ConsoleQuery::default()
    };
    assert_eq!(
        ConsoleQuery::from(query.to_string().as_str()).q,
        "fate/stay & night = ?"
    );
}

#[test]
fn non_ascii_filters_survive() {
    let query = ConsoleQuery {
        q: "九番の鐘".to_owned(),
        ..ConsoleQuery::default()
    };
    assert_eq!(ConsoleQuery::from(query.to_string().as_str()).q, "九番の鐘");
}

#[test]
fn an_empty_parameter_is_an_absent_filter() {
    let parsed = ConsoleQuery::from("sel=&tab=&status=&provider=");
    assert_eq!(parsed.sel, None);
    assert_eq!(parsed.tab, None);
    assert_eq!(parsed.status, None);
    assert_eq!(parsed.provider, None);
}

#[test]
fn an_unparseable_page_is_page_one() {
    assert_eq!(ConsoleQuery::from("page=nonsense").page, 0);
    assert_eq!(ConsoleQuery::from("page=").page, 0);
    assert_eq!(ConsoleQuery::from("page=7").page, 7);
}

#[test]
fn every_entity_slug_parses_back_to_itself() {
    for entity in ConsoleEntity::ALL {
        let slug = entity.slug();
        assert_eq!(
            slug.parse::<ConsoleEntity>().ok(),
            Some(entity),
            "`{slug}` does not round-trip through the route segment"
        );
        assert_eq!(entity.to_string(), slug);
    }
}

#[test]
fn the_scan_filters_travel_in_the_link() {
    let query = ConsoleQuery {
        mode: Some("full".to_owned()),
        sort: Some("failures".to_owned()),
        cleared: true,
        ..ConsoleQuery::default()
    };
    let written = query.to_string();
    assert_eq!(written, "mode=full&sort=failures&cleared=1");
    assert_eq!(ConsoleQuery::from(written.as_str()), query);
}

#[test]
fn only_what_differs_from_the_default_is_written() {
    let query = ConsoleQuery {
        sel: Some("a b".to_owned()),
        page: 12,
        staff: true,
        since: Window::Day,
        ..ConsoleQuery::default()
    };
    assert_eq!(query.to_string(), "sel=a%20b&since=24h&page=12&staff=1");
}

#[test]
fn an_unknown_key_changes_nothing() {
    assert_eq!(
        ConsoleQuery::from("&&nothing=1&=x&q"),
        ConsoleQuery::default()
    );
    assert!(ConsoleQuery::from("staff=yes").staff);
    assert!(!ConsoleQuery::from("staff=0").staff);
    assert_eq!(ConsoleQuery::from("q=a=b").q, "a=b");
    assert_eq!(ConsoleQuery::from("since=9d").since, Window::Any);
    assert_eq!(ConsoleQuery::from("band=med").band, Band::Medium);
}

#[test]
fn a_present_but_empty_filter_does_not_survive() {
    let query = ConsoleQuery {
        sel: Some(String::new()),
        ..ConsoleQuery::default()
    };
    assert_eq!(query.to_string(), "sel=");
    assert_eq!(ConsoleQuery::from("sel=").sel, None);
}

#[test]
fn a_selection_goes_back_to_the_first_page() {
    let query = ConsoleQuery {
        page: 4,
        q: "x".to_owned(),
        ..ConsoleQuery::default()
    };
    let next = query.with_selection(Some("row".to_owned()));
    assert_eq!(next.sel.as_deref(), Some("row"));
    assert_eq!(next.page, 0);
    assert_eq!(next.q, "x");
    assert_eq!(query.with_search("y".to_owned()).page, 0);
    assert_eq!(query.with_page(9).page, 9);
    assert_eq!(query.with_tab("why").tab_token(), "why");
    assert_eq!(query.status_token(), "");
    assert_eq!(ConsoleQuery::fresh(), ConsoleQuery::default());
}

#[test]
fn components_are_escaped_byte_by_byte() {
    assert_eq!(encode_component("aZ0-_.~"), "aZ0-_.~");
    assert_eq!(encode_component("a b&=%"), "a%20b%26%3D%25");
    assert_eq!(encode_component("é"), "%C3%A9");
    assert_eq!(decode_component("%c3%A9"), "é");
}

#[test]
fn a_malformed_escape_is_kept() {
    assert_eq!(decode_component("100%"), "100%");
    assert_eq!(decode_component("%zz%4"), "%zz%4");
    assert_eq!(decode_component("a+b"), "a b");
    assert_eq!(decode_component("%+5"), "% 5");
    assert_eq!(decode_component("%5+"), "%5 ");
    assert_eq!(decode_component("%-1%41"), "%-1A");
    assert_eq!(decode_component("%é"), "%é");
    assert_eq!(decode_component("%FF"), "\u{fffd}");
}

#[test]
fn every_window_and_band_reads_back() {
    for window in Window::ALL {
        assert_eq!(Window::parse_token(window.token()), window);
        assert_eq!(Window::parse(window.token()), window);
    }
    for band in Band::ALL {
        assert_eq!(Band::parse(band.token()), band);
    }
    assert_eq!(Window::parse("nonsense"), Window::Any);
    assert_eq!(Band::parse("nonsense"), Band::All);
    assert_eq!(Window::default(), Window::Any);
    assert_eq!(Band::default(), Band::All);
    assert_eq!(Band::ALL.map(Band::min_percent), [0, 60, 75, 90]);
    assert_eq!(Window::ALL.map(Window::hours), [None, Some(1), Some(24), Some(168)]);
    assert_eq!(non_empty(String::new()), None);
    assert_eq!(non_empty("x".to_owned()), Some("x".to_owned()));
}

#[test]
fn a_window_starts_that_long_ago() {
    assert_eq!(Window::Any.since_iso(0), None);
    assert_eq!(
        Window::Hour.since_iso(3_600_000).as_deref(),
        Some("1970-01-01T00:00:00.000Z")
    );
    assert_eq!(
        Window::Day.since_iso(0).as_deref(),
        Some("1969-12-31T00:00:00.000Z")
    );
    assert_eq!(
        Window::Week.since_iso(1_709_812_345_678).as_deref(),
        Some("2024-02-29T11:52:25.678Z")
    );
    assert_eq!(Window::Hour.since_iso(i64::MIN), None);
    assert_eq!(Window::Hour.since_iso(i64::MAX), None);
    assert_eq!(
        Window::Hour.since_iso(253_402_300_799_999 + 3_600_000).as_deref(),
        Some("9999-12-31T23:59:59.999Z")
    );
    assert_eq!(
        Window::Hour.since_iso(-62_167_219_200_000 + 3_600_000).as_deref(),
        Some("0000-01-01T00:00:00.000Z")
    );
}
