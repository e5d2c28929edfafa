use serde_json::Value;
use tankovault_console::audit::{
    action_label, action_tone, choose_action, choose_window, detail_key, entry_labels, has_detail,
    page_window, trail_request, turn_to, AuditEntry,
};
use tankovault_console::query::ConsoleQuery;
use tankovault_console::window::Window;
use tankovault_console::wording::{first_wording, Label};

fn entry(detail: Value) -> AuditEntry {
    AuditEntry {
        actor: None,
        action: "admin.provider.delete".to_owned(),
        target: Some("kunmanga".to_owned()),
        detail,
        created_at: "2026-08-09T00:00:00Z".to_owned(),
    }
}

#[test]
fn an_unknown_destructive_action_is_still_toned_as_destructive() {
    assert_eq!(action_tone("admin.provider.delete"), "ik-pill vermilion");
    assert_eq!(action_tone("some.future.thing.revoke"), "ik-pill vermilion");
    assert_eq!(action_tone("privacy.erasure.fulfil"), "ik-pill vermilion");
    assert_eq!(action_tone("admin.user.permissions"), "ik-pill amber");
    assert_eq!(action_tone("scan.trigger"), "ik-pill");
}

#[test]
fn a_destructive_mark_outranks_a_grant() {
    assert_eq!(action_tone("user.grant.delete"), "ik-pill vermilion");
    assert_eq!(action_tone("delete"), "ik-pill");
    assert_eq!(action_tone(""), "ik-pill");
}

#[test]
fn an_action_is_worded_or_shown_as_it_is() {
    assert_eq!(
        action_label("scan.trigger"),
        Label::FirstOf(
            vec!["console.audit.action.scan.trigger".to_owned()],
            "scan.trigger".to_owned()
        )
    );
    assert_eq!(first_wording(&[None], "scan.trigger"), "scan.trigger");
    assert_eq!(
        first_wording(&[None, Some("Started a scan".to_owned())], "scan.trigger"),
        "Started a scan"
    );
    assert_eq!(
        first_wording(&[Some("a".to_owned()), Some("b".to_owned())], "c"),
        "a"
    );
}

#[test]
fn the_trail_is_filtered_by_the_server() {
    let view = ConsoleQuery {
        status: Some("user.grant".to_owned()),
        q: "  kaori ".to_owned(),
        since: Window::Hour,
        page: 3,
        ..ConsoleQuery::default()
    };
    let request = trail_request(&view, 3_600_000);
    assert_eq!(request.limit, 40);
    assert_eq!(request.offset, 120);
    assert_eq!(request.action.as_deref(), Some("user.grant"));
    assert_eq!(request.target.as_deref(), Some("kaori"));
    assert!(request.since.unwrap().starts_with("1970-01-01T00:00:00"));

    let all = trail_request(&ConsoleQuery::default(), 0);
    assert_eq!(all.action, None);
    assert_eq!(all.target, None);
    assert_eq!(all.since, None);
}

#[test]
fn a_page_that_no_offset_can_say_is_the_first() {
    let view = ConsoleQuery {
        page: u32::MAX,
        ..ConsoleQuery::default()
    };
    assert_eq!(trail_request(&view, 0).offset, 0);
    assert_eq!(page_window(2, 7, 87).offset, 80);
    assert_eq!(page_window(2, 7, 87).page_len, 7);
    assert_eq!(turn_to(&view, -1).page, 0);
    assert_eq!(turn_to(&view, 1 << 40).page, 0);
    assert_eq!(turn_to(&view, 9).page, 9);
}

#[test]
fn a_filter_goes_back_to_the_first_page() {
    let view = ConsoleQuery {
        page: 4,
        ..ConsoleQuery::default()
    };
    let narrowed = choose_action(&view, "scan.trigger".to_owned());
    assert_eq!(narrowed.status.as_deref(), Some("scan.trigger"));
    assert_eq!(narrowed.page, 0);
    assert_eq!(choose_action(&view, String::new()).status, None);
    assert_eq!(choose_window(&view, "24h").page, 0);
}

#[test]
fn an_empty_detail_is_not_offered() {
    assert!(!has_detail(&entry(Value::Null)));
    assert!(!has_detail(&entry(Value::Object(serde_json::Map::new()))));
    assert!(has_detail(&entry(Value::Bool(false))));
    let mut fields = serde_json::Map::new();
    fields.insert("before".to_owned(), Value::Null);
    assert!(has_detail(&entry(Value::Object(fields))));
    assert_eq!(detail_key(false), "console.audit.showDetail");
    assert_eq!(detail_key(true), "console.audit.hideDetail");
}

#[test]
fn an_entry_without_an_actor_is_the_systems() {
    let (actor, target) = entry_labels(&entry(Value::Null));
    assert_eq!(actor, Label::Worded("console.audit.system"));
    assert_eq!(target, Label::Verbatim("kunmanga".to_owned()));
}
