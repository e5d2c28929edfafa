use serde_json::Value;
use tankovault_console::access::{Capabilities, Permission};
use tankovault_console::notice::Notice;
use tankovault_console::privacy::{
    erasure_confirmed, export_name, export_text, offers, queue_request, row_lines, AdminRequestRow,
    QueueAction, QueuePermits, QueueRequest, QueueRow, RequestKind, RequestRow, RequestStatus,
    RowAction,
};
use tankovault_console::wording::Arg;

const ALL: QueuePermits = QueuePermits {
    write: true,
    export: true,
    erase: true,
};

fn row(kind: RequestKind, status: RequestStatus, subject: Option<&str>) -> AdminRequestRow {
    AdminRequestRow {
        claimed_by: None,
        email: None,
        needs_export: kind != RequestKind::Erasure,
        overdue: false,
        request: RequestRow {
            detail: None,
            due_at: "2026-08-28T00:00:00Z".to_owned(),
            id: 1,
            kind,
            requested_at: "2026-07-29T00:00:00Z".to_owned(),
            resolution_note: None,
            resolved_at: None,
            status,
        },
        resolved_by: None,
        user_id: subject.map(|_| "11111111-1111-1111-1111-111111111111".to_owned()),
        username: subject.map(ToOwned::to_owned),
    }
}

#[test]
fn erasing_needs_both_the_privacy_and_the_delete_permission() {
    let request = row(RequestKind::Erasure, RequestStatus::Pending, Some("kaori"));
    let write_only = QueuePermits {
        erase: false,
        ..ALL
    };
    assert!(!offers(&request, write_only, RowAction::Erase));
    assert!(offers(&request, ALL, RowAction::Erase));
}

#[test]
fn the_permits_follow_the_readers_permissions() {
    let caps = |permissions: Vec<Permission>| Capabilities {
        ready: true,
        permissions,
        features: Vec::new(),
    };
    let write = QueuePermits::of(&caps(vec![Permission::PrivacyWrite]));
    assert!(write.write && !write.export && !write.erase);
    let delete = QueuePermits::of(&caps(vec![Permission::UsersDelete]));
    assert!(!delete.erase);
    let both = QueuePermits::of(&caps(vec![
        Permission::UsersDelete,
        Permission::PrivacyWrite,
    ]));
    assert!(both.erase);
}

#[test]
fn an_already_erased_subject_offers_nothing_that_acts_on_them() {
    let gone = row(RequestKind::Erasure, RequestStatus::InProgress, None);
    assert!(!offers(&gone, ALL, RowAction::Erase));
    assert!(!offers(&gone, ALL, RowAction::Export));
    assert!(offers(&gone, ALL, RowAction::Resolve));
}

#[test]
fn only_an_erasure_request_offers_erasure() {
    for kind in [
        RequestKind::Access,
        RequestKind::Portability,
        RequestKind::Rectification,
    ] {
        let request = row(kind, RequestStatus::Pending, Some("kaori"));
        assert!(
            !offers(&request, ALL, RowAction::Erase),
            "`{kind:?}` offered the erase control"
        );
    }
}

#[test]
fn a_resolved_request_offers_no_transitions() {
    for status in [RequestStatus::Completed, RequestStatus::Rejected] {
        let request = row(RequestKind::Erasure, status, Some("kaori"));
        assert!(
            !offers(&request, ALL, RowAction::Erase),
            "`{status:?}` offered the erase control"
        );
        assert!(
            !offers(&request, ALL, RowAction::Resolve),
            "`{status:?}` offered a resolution"
        );
        assert!(
            !offers(&request, ALL, RowAction::Claim),
            "`{status:?}` offered a claim"
        );
    }
    let taken = row(RequestKind::Access, RequestStatus::InProgress, Some("kaori"));
    assert!(!offers(&taken, ALL, RowAction::Claim));
}

#[test]
fn the_export_control_follows_the_servers_own_answer() {
    let mut request = row(RequestKind::Access, RequestStatus::Pending, Some("kaori"));
    assert!(offers(&request, ALL, RowAction::Export));
    request.needs_export = false;
    assert!(!offers(&request, ALL, RowAction::Export));
}

#[test]
fn the_erasure_confirmation_needs_the_exact_username() {
    assert!(erasure_confirmed(Some("kaori"), "  kaori "));
    assert!(!erasure_confirmed(Some("kaori"), "Kaori"));
    assert!(!erasure_confirmed(Some("kaori"), ""));
    assert!(!erasure_confirmed(None, ""));
    assert!(!erasure_confirmed(None, "   "));
}

#[test]
fn an_erasure_is_sent_only_with_the_name() {
    let mut state = QueueRow::new();
    state.ask_erase();
    state.enter("kaor".to_owned());
    assert_eq!(state.press_erase(Some("kaori")), None);
    state.enter(" kaori ".to_owned());
    assert_eq!(state.press_erase(Some("kaori")).as_deref(), Some("kaori"));
    assert_eq!(state.press_erase(Some("kaori")), None);
    assert!(!state.answered(Some("no".to_owned())));
    assert_eq!(
        state.attempt.outcome,
        Some(Notice::BadText("no".to_owned()))
    );
    state.cancel();
    assert_eq!((state.confirming, state.typed.as_str()), (false, ""));
    let request = row(RequestKind::Erasure, RequestStatus::Pending, Some("kaori"));
    assert!(state.shows_erase(&request, ALL));
    state.ask_erase();
    assert!(!state.shows_erase(&request, ALL));
}

#[test]
fn a_rejection_states_a_reason() {
    assert_eq!(queue_request(QueueAction::Claim), QueueRequest::Claim);
    assert_eq!(
        queue_request(QueueAction::Complete),
        QueueRequest::Resolve(RequestStatus::Completed, None)
    );
    assert_eq!(
        queue_request(QueueAction::Reject),
        QueueRequest::Resolve(
            RequestStatus::Rejected,
            Some("console.privacy.defaultRejectionReason")
        )
    );
}

#[test]
fn an_export_is_named_after_the_request() {
    assert_eq!(
        export_name(1),
        "tankovault-export-00000000-0000-0000-0000-000000000001.json"
    );
    assert_eq!(
        export_text(&Value::Array(vec![Value::from("a")])),
        Ok("[\n  \"a\"\n]".to_owned())
    );
    let mut state = QueueRow::new();
    assert!(state.press());
    assert!(!state.press());
    state.exported(Some("console.privacy.exportFailed"));
    assert!(matches!(&state.attempt.outcome, Some(Notice::Bad(p)) if p.key == "console.privacy.exportFailed"));
    assert!(state.press());
    state.exported(None);
    assert!(matches!(&state.attempt.outcome, Some(Notice::Good(p)) if p.key == "console.privacy.exportDone"));
}

#[test]
fn a_closed_request_has_no_due_date() {
    let open = row(RequestKind::Access, RequestStatus::Pending, Some("kaori"));
    let lines = row_lines(&open);
    assert_eq!(lines.pill_class, "ik-pill");
    assert_eq!(
        lines.due.unwrap().args,
        vec![("date", Arg::Day("2026-08-28T00:00:00Z".to_owned()))]
    );
    let mut closed = row(RequestKind::Access, RequestStatus::Completed, Some("kaori"));
    closed.overdue = true;
    let lines = row_lines(&closed);
    assert_eq!(lines.due, None);
    assert_eq!(lines.pill_class, "ik-pill vermilion");
}
