//! The queue of requests that people make about their data.
//!
//! Answering a request is two steps: "resolve" records how it was answered, while
//! "export" and "erase" do the thing. The trail keeps the one apart from the other.

use crate::access::{Capabilities, Permission};
use crate::foreign;
use crate::notice::{Attempt, AttemptView, Notice, NoticeView};
use crate::text;
use crate::wording::{ArgView, Label, LabelView, Phrase, PhraseView};
use serde_json::Value;
use vstd::prelude::*;

verus! {

broadcast use vstd::string::group_string_axioms;

/// What a person asks for.
#[derive(Debug, Clone, Copy, PartialEq, Eq, Structural)]
pub enum RequestKind {
    Access,
    Portability,
    Rectification,
    Erasure,
}

/// How far a request has come.
#[derive(Debug, Clone, Copy, PartialEq, Eq, Structural)]
pub enum RequestStatus {
    Pending,
    InProgress,
    Completed,
    Rejected,
}

impl RequestStatus {
    /// Whether a request still waits for an answer.
    pub open spec fn open(self) -> bool {
        self is Pending || self is InProgress
    }

    /// Whether a request still waits for an answer.
    pub fn is_open(self) -> (r: bool)
        ensures
            r == self.open(),
    {
        matches!(self, RequestStatus::Pending | RequestStatus::InProgress)
    }
}

/// A request as the person filed it.
#[derive(Debug, PartialEq, Eq)]
pub struct RequestRow {
    pub id: u128,
    pub kind: RequestKind,
    pub status: RequestStatus,
    pub detail: Option<String>,
    pub requested_at: String,
    pub due_at: String,
    pub resolved_at: Option<String>,
    pub resolution_note: Option<String>,
}

/// A request as the queue shows it.
#[derive(Debug, PartialEq, Eq)]
pub struct AdminRequestRow {
    pub request: RequestRow,
    /// Absent once the account is gone.
    pub user_id: Option<String>,
    /// Absent once the account is gone.
    pub username: Option<String>,
    pub email: Option<String>,
    pub claimed_by: Option<String>,
    pub resolved_by: Option<String>,
    /// Whether the answer discloses an export: the server's word, whatever the kind.
    pub needs_export: bool,
    pub overdue: bool,
}

/// What a reader may do to the queue at all.
#[derive(Debug, Clone, Copy, PartialEq, Eq, Structural)]
pub struct QueuePermits {
    pub write: bool,
    pub export: bool,
    pub erase: bool,
}

impl QueuePermits {
    /// What a reader with given capabilities may do. To answer an erasure destroys an
    /// account, so it takes the permission to delete users beside the queue's own.
    pub fn of(caps: &Capabilities) -> (r: QueuePermits)
        ensures
            r == (QueuePermits {
                write: caps.may(Permission::PrivacyWrite),
                export: caps.may(Permission::PrivacyExport),
                erase: caps.may(Permission::PrivacyWrite) && caps.may(Permission::UsersDelete),
            }),
    {
        let write = caps.can(Permission::PrivacyWrite);
        QueuePermits {
            write,
            export: caps.can(Permission::PrivacyExport),
            erase: write && caps.can(Permission::UsersDelete),
        }
    }
}

/// A control that a row can offer.
#[derive(Debug, Clone, Copy, PartialEq, Eq, Structural)]
pub enum RowAction {
    /// Take a request that nobody works on.
    Claim,
    /// Release the person's export.
    Export,
    /// Carry out the erasure.
    Erase,
    /// Record how the request was answered.
    Resolve,
}

/// Whether a row offers a control. Whatever acts on the person needs the person to
/// still be there.
pub open spec fn offered(row: AdminRequestRow, permits: QueuePermits, action: RowAction) -> bool {
    match action {
        RowAction::Claim => permits.write && row.request.status is Pending,
        RowAction::Export => permits.export && row.needs_export && row.user_id is Some,
        RowAction::Erase => permits.erase && row.request.status.open()
            && row.request.kind is Erasure && row.user_id is Some,
        RowAction::Resolve => permits.write && row.request.status.open(),
    }
}

/// Whether a row offers a control.
pub fn offers(row: &AdminRequestRow, permits: QueuePermits, action: RowAction) -> (r: bool)
    ensures
        r == offered(*row, permits, action),
{
    let open = row.request.status.is_open();
    let subject_present = row.user_id.is_some();
    match action {
        RowAction::Claim => permits.write && row.request.status == RequestStatus::Pending,
        RowAction::Export => permits.export && row.needs_export && subject_present,
        RowAction::Erase => {
            permits.erase && open && row.request.kind == RequestKind::Erasure && subject_present
        },
        RowAction::Resolve => permits.write && open,
    }
}

/// A request that has been answered offers no further step.
pub proof fn answered_is_finished(row: AdminRequestRow, permits: QueuePermits)
    requires
        !row.request.status.open(),
    ensures
        !offered(row, permits, RowAction::Claim),
        !offered(row, permits, RowAction::Erase),
        !offered(row, permits, RowAction::Resolve),
{
}

/// Once the person is gone nothing that acts on them is offered; the paperwork about
/// the request stays.
pub proof fn the_gone_are_left_alone(row: AdminRequestRow, permits: QueuePermits)
    requires
        row.user_id is None,
    ensures
        !offered(row, permits, RowAction::Export),
        !offered(row, permits, RowAction::Erase),
        permits.write && row.request.status.open() ==> offered(row, permits, RowAction::Resolve),
{
}

/// A reader with the erase permit is offered the erasure of every erasure request that is
/// pending or in progress and whose person is still there, and of no other request.
pub proof fn open_erasures_can_be_carried_out(row: AdminRequestRow, permits: QueuePermits)
    ensures
        offered(row, permits, RowAction::Erase) <==> {
            &&& permits.erase
            &&& row.request.status is Pending || row.request.status is InProgress
            &&& row.request.kind is Erasure
            &&& row.user_id is Some
        },
{
}

/// A reader who may write takes what nobody works on, and answers what is pending or in
/// progress, whatever kind of request it is and whether or not the person is there.
pub proof fn open_requests_can_be_worked(row: AdminRequestRow, permits: QueuePermits)
    ensures
        offered(row, permits, RowAction::Claim) <==> permits.write && row.request.status is Pending,
        offered(row, permits, RowAction::Resolve) <==> permits.write && (row.request.status
            is Pending || row.request.status is InProgress),
{
}

/// An export is released by its own permit, wherever a request still needs one and the
/// person is there, whatever the request's status is.
pub proof fn a_needed_export_can_be_released(row: AdminRequestRow, permits: QueuePermits)
    ensures
        offered(row, permits, RowAction::Export) <==> permits.export && row.needs_export
            && row.user_id is Some,
{
}

/// An erasure is released by the person's name and by nothing else: blanks round the name
/// are let pass, another text is not, and a person without a name is never confirmed.
pub proof fn only_the_name_releases(name: Seq<char>, typed: Seq<char>)
    ensures
        !erasure_released(None, typed),
        erasure_released(Some(name), typed) <==> text::trimmed(typed) == name,
{
}

/// Whether a typed name releases the erasure of a person.
pub open spec fn erasure_released(username: Option<Seq<char>>, typed: Seq<char>) -> bool {
    username is Some && text::trimmed(typed) == username->0
}

/// Whether the typed confirmation releases the erasure. A person whose name is gone
/// can never be confirmed, least of all by a blank field.
pub fn erasure_confirmed(username: Option<&str>, typed: &str) -> (r: bool)
    ensures
        r == erasure_released(
            match username {
                Some(name) => Some(name@),
                None => None,
            },
            typed@,
        ),
{
    match username {
        Some(name) => {
            let given = text::trim(typed);
            text::same(given.as_str(), name)
        },
        None => false,
    }
}

/// The person a row is about: by name, or as one who is gone.
pub fn subject_label(row: &AdminRequestRow) -> (r: Label)
    ensures
        r@ == (match row.username {
            Some(name) => LabelView::Verbatim(name@),
            None => LabelView::Worded("console.privacy.subjectErased"@),
        }),
{
    match &row.username {
        Some(name) => Label::Verbatim(name.clone()),
        None => Label::Worded("console.privacy.subjectErased"),
    }
}

/// What a row says of itself.
#[derive(Debug, PartialEq, Eq)]
pub struct RowLines {
    pub pill_class: &'static str,
    pub filed: Phrase,
    /// When the answer is due, while it is.
    pub due: Option<Phrase>,
    pub claimed: Option<Phrase>,
    /// What to type to erase the person.
    pub confirm: Phrase,
}

/// What a row says of itself.
pub fn row_lines(row: &AdminRequestRow) -> (r: RowLines)
    ensures
        r.pill_class@ == (if row.overdue {
            "ik-pill vermilion"@
        } else {
            "ik-pill"@
        }),
        r.filed@ == PhraseView::plain("console.privacy.filedOn"@).day(
            "date"@,
            row.request.requested_at@,
        ),
        match r.due {
            Some(due) => row.request.status.open() && due@ == PhraseView::plain(
                "console.privacy.dueBy"@,
            ).day("date"@, row.request.due_at@),
            None => !row.request.status.open(),
        },
        match (r.claimed, row.claimed_by) {
            (Some(claimed), Some(by)) => claimed@ == PhraseView::plain(
                "console.privacy.claimedBy"@,
            ).verbatim("user"@, by@),
            (claimed, by) => claimed is None && by is None,
        },
        r.confirm@ == PhraseView::plain("console.privacy.eraseConfirmLabel"@).label(
            "username"@,
            match row.username {
                Some(name) => LabelView::Verbatim(name@),
                None => LabelView::Worded("console.privacy.subjectErased"@),
            },
        ),
{
    RowLines {
        pill_class: if row.overdue {
            "ik-pill vermilion"
        } else {
            "ik-pill"
        },
        filed: Phrase::plain("console.privacy.filedOn").day(
            "date",
            row.request.requested_at.as_str(),
        ),
        due: if row.request.status.is_open() {
            Some(Phrase::plain("console.privacy.dueBy").day("date", row.request.due_at.as_str()))
        } else {
            None
        },
        claimed: match &row.claimed_by {
            Some(by) => Some(
                Phrase::plain("console.privacy.claimedBy").verbatim("user", by.as_str()),
            ),
            None => None,
        },
        confirm: Phrase::plain("console.privacy.eraseConfirmLabel").label(
            "username",
            subject_label(row),
        ),
    }
}

/// The steps of the queue that destroy nothing.
#[derive(Debug, Clone, Copy, PartialEq, Eq, Structural)]
pub enum QueueAction {
    Claim,
    Complete,
    Reject,
}

/// What a step sends.
#[derive(Debug, PartialEq, Eq)]
pub enum QueueRequest {
    Claim,
    /// The answer, and the catalogue key of the note that goes with it.
    Resolve(RequestStatus, Option<&'static str>),
}

/// What a step sends. A rejection must state reasons, so it carries a standing one.
pub fn queue_request(action: QueueAction) -> (r: QueueRequest)
    ensures
        match action {
            QueueAction::Claim => r == QueueRequest::Claim,
            QueueAction::Complete => r == QueueRequest::Resolve(RequestStatus::Completed, None),
            QueueAction::Reject => match r {
                QueueRequest::Resolve(status, note) => status is Rejected && note is Some
                    && note->0@ == "console.privacy.defaultRejectionReason"@,
                _ => false,
            },
        },
{
    match action {
        QueueAction::Claim => QueueRequest::Claim,
        QueueAction::Complete => QueueRequest::Resolve(RequestStatus::Completed, None),
        QueueAction::Reject => QueueRequest::Resolve(
            RequestStatus::Rejected,
            Some("console.privacy.defaultRejectionReason"),
        ),
    }
}

/// The name of the file that an export is saved as: it carries the request's id, not
/// the person's, so that the name is no personal data itself.
pub fn export_name(id: u128) -> (r: String)
    ensures
        r@ == "tankovault-export-"@ + foreign::hyphenated(id) + ".json"@,
{
    let mut name = "tankovault-export-".to_owned();
    let written = foreign::write_uuid(id);
    name.append(written.as_str());
    name.append(".json");
    name
}

/// What is saved of an export that was written out, or the key of what to say.
pub fn export_from(written: Option<String>) -> (r: Result<String, &'static str>)
    ensures
        match r {
            Ok(json) => text::view_of(written) == Some(json@),
            Err(key) => written is None && key@ == "console.privacy.exportFailed"@,
        },
{
    match written {
        Some(json) => Ok(json),
        None => Err("console.privacy.exportFailed"),
    }
}

/// What an export is saved as: its text, or the key of what to say.
pub fn export_text(body: &Value) -> (r: Result<String, &'static str>)
    ensures
        match r {
            Ok(json) => foreign::pretty_text(foreign::json_of(*body)) == Some(json@),
            Err(key) => foreign::pretty_text(foreign::json_of(*body)) is None && key@
                == "console.privacy.exportFailed"@,
        },
{
    export_from(foreign::write_pretty(body))
}

/// A row's state.
#[derive(Debug, PartialEq, Eq)]
pub struct QueueRow {
    pub attempt: Attempt,
    /// Whether the field for the person's name is open.
    pub confirming: bool,
    pub typed: String,
}

/// A row's state as its characters.
#[verifier::ext_equal]
pub struct QueueRowView {
    pub attempt: AttemptView,
    pub confirming: bool,
    pub typed: Seq<char>,
}

impl View for QueueRow {
    type V = QueueRowView;

    open spec fn view(&self) -> QueueRowView {
        QueueRowView { attempt: self.attempt@, confirming: self.confirming, typed: self.typed@ }
    }
}

impl QueueRow {
    /// A row as it appears.
    pub fn new() -> (r: QueueRow)
        ensures
            r@ == (QueueRowView {
                attempt: AttemptView::idle(),
                confirming: false,
                typed: Seq::empty(),
            }),
    {
        QueueRow { attempt: Attempt::idle(), confirming: false, typed: String::new() }
    }

    /// Whether the button that opens the field is shown.
    pub fn shows_erase(&self, row: &AdminRequestRow, permits: QueuePermits) -> (r: bool)
        ensures
            r == (offered(*row, permits, RowAction::Erase) && !self@.confirming),
    {
        offers(row, permits, RowAction::Erase) && !self.confirming
    }

    /// Opens the field.
    pub fn ask_erase(&mut self)
        ensures
            final(self)@ == (QueueRowView { confirming: true, ..old(self)@ }),
    {
        self.confirming = true;
    }

    /// Closes the field and forgets what was typed.
    pub fn cancel(&mut self)
        ensures
            final(self)@ == (QueueRowView {
                confirming: false,
                typed: Seq::empty(),
                ..old(self)@
            }),
    {
        self.confirming = false;
        self.typed = String::new();
    }

    /// Takes what was typed.
    pub fn enter(&mut self, typed: String)
        ensures
            final(self)@ == (QueueRowView { typed: typed@, ..old(self)@ }),
    {
        self.typed = typed;
    }

    /// Asks for a step or for an export. `true` where it is to be sent.
    pub fn press(&mut self) -> (r: bool)
        ensures
            r == !old(self)@.attempt.busy,
            final(self)@ == (QueueRowView {
                attempt: old(self)@.attempt.claimed(),
                ..old(self)@
            }),
    {
        self.attempt.claim()
    }

    /// Asks for the erasure: the name to send, where it was typed back and no other
    /// request is under way.
    pub fn press_erase(&mut self, username: Option<&str>) -> (r: Option<String>)
        ensures
            ({
                let name = match username {
                    Some(name) => Some(name@),
                    None => None,
                };
                let sent = erasure_released(name, old(self)@.typed) && !old(self)@.attempt.busy;
                &&& text::view_of(r) == (if sent {
                    name
                } else {
                    None
                })
                &&& final(self)@ == (if sent {
                    QueueRowView { attempt: old(self)@.attempt.claimed(), ..old(self)@ }
                } else {
                    old(self)@
                })
            }),
    {
        if !erasure_confirmed(username, self.typed.as_str()) {
            return None;
        }
        if self.attempt.claim() {
            Some(text::trim(self.typed.as_str()))
        } else {
            None
        }
    }

    /// Takes the reply to a step or to an erasure. `true` where the queue is to be read
    /// again.
    pub fn answered(&mut self, refusal: Option<String>) -> (r: bool)
        ensures
            r == (refusal is None),
            final(self)@ == (QueueRowView {
                attempt: old(self)@.attempt.settled(text::view_of(refusal)),
                ..old(self)@
            }),
    {
        self.attempt.settle(refusal)
    }

    /// Takes how the saving of an export went: the key of what went wrong, or nothing.
    pub fn exported(&mut self, failure: Option<&'static str>)
        ensures
            final(self)@ == (QueueRowView {
                attempt: AttemptView {
                    busy: false,
                    outcome: Some(
                        match failure {
                            Some(key) => NoticeView::Bad(PhraseView::plain(key@)),
                            None => NoticeView::Good(
                                PhraseView::plain("console.privacy.exportDone"@),
                            ),
                        },
                    ),
                },
                ..old(self)@
            }),
    {
        match failure {
            Some(key) => self.attempt.settle_with(Notice::Bad(Phrase::plain(key))),
            None => self.attempt.settle_with(
                Notice::Good(Phrase::plain("console.privacy.exportDone")),
            ),
        }
    }
}

/// What a row is asked about a control, control by control, from what it holds: nothing
/// but the permit, the status, the kind and the person's presence decides.
pub proof fn each_control_has_its_own_grounds(
    row: &AdminRequestRow,
    permits: QueuePermits,
    claim: bool,
    export: bool,
    erase: bool,
    resolve: bool,
)
    requires
        call_ensures(offers, (row, permits, RowAction::Claim), claim),
        call_ensures(offers, (row, permits, RowAction::Export), export),
        call_ensures(offers, (row, permits, RowAction::Erase), erase),
        call_ensures(offers, (row, permits, RowAction::Resolve), resolve),
    ensures
        claim <==> permits.write && row.request.status is Pending,
        export <==> permits.export && row.needs_export && row.user_id is Some,
        erase <==> permits.erase && (row.request.status is Pending || row.request.status
            is InProgress) && row.request.kind is Erasure && row.user_id is Some,
        resolve <==> permits.write && (row.request.status is Pending || row.request.status
            is InProgress),
        claim ==> resolve,
{
}

/// The permits of a reader: writing and exporting each by its own permission; erasing
/// takes the permission to write and the one to delete people, both.
pub proof fn erasing_takes_two_permissions(caps: &Capabilities, permits: QueuePermits)
    requires
        call_ensures(QueuePermits::of, (caps,), permits),
    ensures
        permits.write <==> caps.permissions@.contains(Permission::PrivacyWrite),
        permits.export <==> caps.permissions@.contains(Permission::PrivacyExport),
        permits.erase <==> caps.permissions@.contains(Permission::PrivacyWrite)
            && caps.permissions@.contains(Permission::UsersDelete),
{
}

/// A due date is shown exactly while an answer is owed: of what is pending or in progress.
pub proof fn a_due_date_is_shown_while_it_is_due(row: &AdminRequestRow, lines: RowLines)
    requires
        call_ensures(row_lines, (row,), lines),
    ensures
        lines.due is Some <==> row.request.status is Pending || row.request.status is InProgress,
        lines.due is Some ==> lines.due->0@.args == seq![
            ("date"@, ArgView::Day(row.request.due_at@)),
        ],
        lines.filed@.args == seq![
            ("date"@, ArgView::Day(row.request.requested_at@)),
        ],
        lines.claimed is Some <==> row.claimed_by is Some,
        lines.pill_class@ == "ik-pill vermilion"@ <==> row.overdue,
{
    reveal_strlit("ik-pill");
    reveal_strlit("ik-pill vermilion");
    assert("ik-pill"@.len() == 7);
    assert("ik-pill vermilion"@.len() == 17);
    if lines.due is Some {
        assert(lines.due->0@.args =~= seq![
            ("date"@, ArgView::Day(row.request.due_at@)),
        ]);
    }
    assert(lines.filed@.args =~= seq![
        ("date"@, ArgView::Day(row.request.requested_at@)),
    ]);
}

/// An erasure is sent only where the person's own name was typed, and then with that
/// name, once; without it the row stays as it is.
pub proof fn an_erasure_is_sent_under_its_name(
    row: &mut QueueRow,
    username: Option<&str>,
    sent: Option<String>,
)
    requires
        call_ensures(QueueRow::press_erase, (row, username), sent),
    ensures
        sent is Some <==> username is Some && text::trimmed(old(row)@.typed) == username->0@
            && !old(row)@.attempt.busy,
        sent is Some ==> sent->0@ == username->0@ && final(row)@.attempt.busy,
        sent is None ==> final(row)@ == old(row)@,
        final(row)@.typed == old(row)@.typed,
        final(row)@.confirming == old(row)@.confirming,
{
}

/// The question before an erasure: asking opens it and hides the button that asked, giving
/// up closes it and forgets what was typed.
pub proof fn the_question_forgets_what_was_typed(
    asked: &mut QueueRow,
    dropped: &mut QueueRow,
    shown: &QueueRow,
    row: &AdminRequestRow,
    permits: QueuePermits,
    button: bool,
)
    requires
        call_ensures(QueueRow::ask_erase, (asked,), ()),
        call_ensures(QueueRow::cancel, (dropped,), ()),
        call_ensures(QueueRow::shows_erase, (shown, row, permits), button),
    ensures
        final(asked)@.confirming,
        final(asked)@.typed == old(asked)@.typed,
        !final(dropped)@.confirming,
        final(dropped)@.typed.len() == 0,
        final(dropped)@.attempt == old(dropped)@.attempt,
        shown@.confirming ==> !button,
        !shown@.confirming ==> (button <==> offered(*row, permits, RowAction::Erase)),
{
}

/// What the steps of the queue send: a claim, an answer without a note, or a rejection
/// with its standing reason; the three are told apart.
pub proof fn each_step_sends_its_answer(
    claimed: QueueRequest,
    completed: QueueRequest,
    rejected: QueueRequest,
)
    requires
        call_ensures(queue_request, (QueueAction::Claim,), claimed),
        call_ensures(queue_request, (QueueAction::Complete,), completed),
        call_ensures(queue_request, (QueueAction::Reject,), rejected),
    ensures
        claimed is Claim,
        completed matches QueueRequest::Resolve(status, note) && status is Completed && note
            is None,
        rejected matches QueueRequest::Resolve(status, note) && status is Rejected && note is Some,
{
}

/// The name of an export is that of its request: two requests never share one.
pub proof fn exports_do_not_share_a_name(a: u128, b: u128, name_a: String, name_b: String)
    requires
        call_ensures(export_name, (a,), name_a),
        call_ensures(export_name, (b,), name_b),
    ensures
        name_a@ == name_b@ <==> a == b,
{
    foreign::hyphenated_is_unique(a, b);
    foreign::hyphenated_names_the_id(a);
    foreign::hyphenated_names_the_id(b);
    if name_a@ == name_b@ {
        let start = "tankovault-export-"@.len() as int;
        assert(name_a@.subrange(start, start + 36) =~= foreign::hyphenated(a));
        assert(name_b@.subrange(start, start + 36) =~= foreign::hyphenated(b));
    }
}

/// The reply to a step frees the row and shows a refusal as it was given; an export that
/// was saved is said to be, and one that was not says what went wrong.
pub proof fn a_reply_frees_the_row(
    replied: &mut QueueRow,
    refusal: Option<String>,
    again: bool,
    saved: &mut QueueRow,
    failure: Option<&'static str>,
)
    requires
        call_ensures(QueueRow::answered, (replied, refusal), again),
        call_ensures(QueueRow::exported, (saved, failure), ()),
    ensures
        again <==> refusal is None,
        !final(replied)@.attempt.busy,
        refusal is Some ==> final(replied)@.attempt.outcome == Some(
            NoticeView::BadText(refusal->0@),
        ),
        refusal is None ==> final(replied)@.attempt.outcome == old(replied)@.attempt.outcome,
        final(replied)@.typed == old(replied)@.typed,
        final(replied)@.confirming == old(replied)@.confirming,
        !final(saved)@.attempt.busy,
        final(saved)@.attempt.outcome is Some,
        final(saved)@.attempt.outcome->0 is Good <==> failure is None,
        failure is Some ==> final(saved)@.attempt.outcome == Some(
            NoticeView::Bad(PhraseView::plain(failure->0@)),
        ),
        final(saved)@.typed == old(saved)@.typed,
{
}

} // verus!
