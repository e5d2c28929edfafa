//! The trail of privileged actions: filtered, paged, newest first.
//!
//! Every filter is the server's. To filter a page here would answer another question
//! than the one asked.

use crate::foreign::{self, Json};
use crate::query::{self, ConsoleQuery, QueryView};
use crate::text;
use crate::window::Window;
use crate::wording::{Label, LabelView};
use vstd::prelude::*;

verus! {

broadcast use vstd::string::group_string_axioms;

/// Rows per page.
pub const PAGE_SIZE: u32 = 40;

/// What marks an action that destroys something.
pub const DESTRUCTIVE: [&'static str; 4] = [".delete", ".revoke", ".erasure", ".purge"];

/// What marks an action that gives or takes a right.
pub const GRANTS: [&'static str; 3] = [".grant", ".permissions", ".suspend"];

/// Whether a text holds one of some marks.
pub open spec fn marked(s: Seq<char>, marks: Seq<&'static str>) -> bool {
    exists|i: int| 0 <= i < marks.len() && text::has_part(s, #[trigger] marks[i]@)
}

fn holds_mark(s: &str, marks: &[&'static str]) -> (r: bool)
    ensures
        r == marked(s@, marks@),
{
    let mut i: usize = 0;
    while i < marks.len()
        invariant
            i <= marks.len(),
            forall|j: int| 0 <= j < i ==> !text::has_part(s@, #[trigger] marks@[j]@),
        decreases marks.len() - i,
    {
        if text::contains(s, marks[i]) {
            assert(text::has_part(s@, marks@[i as int]@));
            return true;
        }
        i = i + 1;
    }
    false
}

/// The class that an action is drawn in.
pub open spec fn tone_of(action: Seq<char>) -> Seq<char> {
    if marked(action, DESTRUCTIVE@) {
        "ik-pill vermilion"@
    } else if marked(action, GRANTS@) {
        "ik-pill amber"@
    } else {
        "ik-pill"@
    }
}

/// The class that an action is drawn in: from the token itself, not from a list of
/// known actions, so that a destructive one is never missed.
pub fn action_tone(action: &str) -> (r: &'static str)
    ensures
        r@ == tone_of(action@),
{
    if holds_mark(action, &DESTRUCTIVE) {
        "ik-pill vermilion"
    } else if holds_mark(action, &GRANTS) {
        "ik-pill amber"
    } else {
        "ik-pill"
    }
}

/// An action that holds a destructive mark is drawn as destructive, whatever stands
/// around the mark.
pub proof fn destructive_is_never_missed(before: Seq<char>, mark: int, after: Seq<char>)
    requires
        0 <= mark < 4,
    ensures
        tone_of(before + DESTRUCTIVE@[mark]@ + after) == "ik-pill vermilion"@,
{
    let m = DESTRUCTIVE@[mark]@;
    let s = before + m + after;
    assert(s.subrange(before.len() as int, (before.len() + m.len()) as int) == m);
    assert(text::stands_at(s, m, before.len() as int));
    assert(text::has_part(s, m));
}

/// The wording of an action, or its token.
pub fn action_label(action: &str) -> (r: Label)
    ensures
        r@ == LabelView::token_under("console.audit.action."@, action@),
{
    Label::token_under("console.audit.action.", action)
}

/// What the trail is asked for.
#[derive(Debug, PartialEq, Eq)]
pub struct TrailRequest {
    pub limit: u32,
    pub offset: u32,
    pub action: Option<String>,
    pub target: Option<String>,
    /// The start of the window.
    pub since: Option<String>,
}

/// The offset of a page; a page beyond what an offset can say is the first one.
pub open spec fn offset_of(page: u32) -> int {
    if page * PAGE_SIZE <= u32::MAX {
        page * PAGE_SIZE
    } else {
        0
    }
}

/// What the trail is asked for in a view, at an instant.
pub fn trail_request(view: &ConsoleQuery, now: i64) -> (r: TrailRequest)
    ensures
        r.limit == PAGE_SIZE,
        r.offset == offset_of(view@.page),
        text::view_of(r.action) == view@.status,
        text::view_of(r.target) == query::present(text::trimmed(view@.q)),
        view@.since.starts_at(now, text::view_of(r.since)),
{
    let offset: u64 = view.page as u64 * PAGE_SIZE as u64;
    TrailRequest {
        limit: PAGE_SIZE,
        offset: if offset <= u32::MAX as u64 {
            offset as u32
        } else {
            0
        },
        action: text::copied(&view.status),
        target: query::non_empty(text::trim(view.q.as_str())),
        since: view.since.since_iso(now),
    }
}

/// Where a page stands in the whole.
#[derive(Debug, Clone, Copy, PartialEq, Eq, Structural)]
pub struct PageWindow {
    pub offset: i64,
    pub page_len: i64,
    pub total: i64,
}

/// Where the page of a view stands, with the rows that arrived; before any arrive it
/// is empty.
pub fn page_window(page: u32, rows: usize, total: i64) -> (r: PageWindow)
    ensures
        r.offset == page * PAGE_SIZE,
        r.page_len == (if rows <= i64::MAX {
            rows as int
        } else {
            0
        }),
        r.total == total,
{
    PageWindow {
        offset: page as i64 * PAGE_SIZE as i64,
        page_len: crate::provider::row_count(rows),
        total,
    }
}

/// The view with another action picked; the empty choice is any action.
pub fn choose_action(view: &ConsoleQuery, chosen: String) -> (r: ConsoleQuery)
    ensures
        r@ == (QueryView { status: query::present(chosen@), page: 0, ..view@ }),
{
    let mut next = view.clone();
    next.status = query::non_empty(chosen);
    next.page = 0;
    next
}

/// The view with another window picked.
pub fn choose_window(view: &ConsoleQuery, chosen: &str) -> (r: ConsoleQuery)
    ensures
        r@ == (QueryView { since: Window::named_by(chosen@), page: 0, ..view@ }),
{
    let mut next = view.clone();
    next.since = Window::parse_token(chosen);
    next.page = 0;
    next
}

/// The view at another page; a page that no link can carry is the first one.
pub fn turn_to(view: &ConsoleQuery, page: i64) -> (r: ConsoleQuery)
    ensures
        r@ == (QueryView {
            page: if 0 <= page <= u32::MAX {
                page as u32
            } else {
                0
            },
            ..view@
        }),
{
    let page: u32 = if 0 <= page && page <= u32::MAX as i64 {
        page as u32
    } else {
        0
    };
    view.with_page(page)
}

/// An action on the trail.
#[derive(Debug, PartialEq, Eq)]
pub struct AuditEntry {
    pub actor: Option<String>,
    pub action: String,
    pub target: Option<String>,
    /// What changed.
    pub detail: serde_json::Value,
    pub created_at: String,
}

/// Whether a detail says anything: not where it is absent or an empty record.
pub open spec fn says_something(detail: Json) -> bool {
    match detail {
        Json::Null => false,
        Json::Record(fields) => fields.len() > 0,
        _ => true,
    }
}

/// Whether an entry has a detail to open.
pub fn has_detail(entry: &AuditEntry) -> (r: bool)
    ensures
        r == says_something(foreign::json_of(entry.detail)),
{
    if entry.detail.is_null() {
        return false;
    }
    match foreign::field_values(&entry.detail) {
        Some(values) => values.len() > 0,
        None => true,
    }
}

/// Who acted, and on what.
pub fn entry_labels(entry: &AuditEntry) -> (r: (Label, Label))
    ensures
        r.0@ == (match entry.actor {
            Some(actor) => LabelView::Verbatim(actor@),
            None => LabelView::Worded("console.audit.system"@),
        }),
        r.1@ == (match entry.target {
            Some(target) => LabelView::Verbatim(target@),
            None => LabelView::Worded("time.unknown"@),
        }),
{
    let actor = match &entry.actor {
        Some(actor) => Label::Verbatim(actor.clone()),
        None => Label::Worded("console.audit.system"),
    };
    let target = match &entry.target {
        Some(target) => Label::Verbatim(target.clone()),
        None => Label::Worded("time.unknown"),
    };
    (actor, target)
}

/// What the button of a detail says.
pub fn detail_key(open: bool) -> (r: &'static str)
    ensures
        r@ == (if open {
            "console.audit.hideDetail"@
        } else {
            "console.audit.showDetail"@
        }),
{
    if open {
        "console.audit.hideDetail"
    } else {
        "console.audit.showDetail"
    }
}

/// The trail is asked for a page of forty that begins where the pages before it end, for
/// the action that the status names and for the target that is searched for, without the
/// blanks round it, and for what happened within the window.
pub proof fn the_trail_is_asked_for_what_is_on_screen(
    view: &ConsoleQuery,
    now: i64,
    sent: TrailRequest,
)
    requires
        call_ensures(trail_request, (view, now), sent),
    ensures
        sent.limit == 40,
        40 * view.page <= u32::MAX ==> sent.offset == 40 * view.page,
        40 * view.page > u32::MAX ==> sent.offset == 0,
        sent.action is Some <==> view.status is Some,
        sent.action is Some ==> sent.action->0@ == view.status->0@,
        sent.target is Some <==> text::trimmed(view.q@).len() > 0,
        sent.target is Some ==> sent.target->0@ == text::trimmed(view.q@),
        view.since is Any ==> sent.since is None,
        sent.since is Some ==> view.since.starts_at(now, Some(sent.since->0@)),
{
}

/// A choice of action or of window starts the trail over and leaves the rest of the
/// address alone; turning the page changes nothing but the page.
pub proof fn a_choice_starts_the_trail_over(
    view: &ConsoleQuery,
    chosen: String,
    by_action: ConsoleQuery,
    token: &str,
    by_window: ConsoleQuery,
    page: i64,
    turned: ConsoleQuery,
)
    requires
        call_ensures(choose_action, (view, chosen), by_action),
        call_ensures(choose_window, (view, token), by_window),
        call_ensures(turn_to, (view, page), turned),
    ensures
        by_action@.page == 0,
        by_action@.status is Some <==> chosen@.len() > 0,
        by_action@.status is Some ==> by_action@.status->0 == chosen@,
        (QueryView { status: view@.status, page: view@.page, ..by_action@ }) == view@,
        by_window@.page == 0,
        (QueryView { since: view@.since, page: view@.page, ..by_window@ }) == view@,
        0 <= page <= u32::MAX ==> turned@.page == page,
        (QueryView { page: view@.page, ..turned@ }) == view@,
{
}

/// An action is coloured by what it does: red where its name holds one of the destructive
/// marks, amber where it holds a mark of a grant and no destructive one, plain otherwise.
pub proof fn an_action_is_coloured_by_its_marks(action: Seq<char>)
    ensures
        ({
            let destroys = text::has_part(action, ".delete"@) || text::has_part(
                action,
                ".revoke"@,
            ) || text::has_part(action, ".erasure"@) || text::has_part(action, ".purge"@);
            let grants = text::has_part(action, ".grant"@) || text::has_part(
                action,
                ".permissions"@,
            ) || text::has_part(action, ".suspend"@);
            &&& destroys ==> tone_of(action) == "ik-pill vermilion"@
            &&& !destroys && grants ==> tone_of(action) == "ik-pill amber"@
            &&& !destroys && !grants ==> tone_of(action) == "ik-pill"@
        }),
{
    assert(marked(action, DESTRUCTIVE@) == (text::has_part(action, DESTRUCTIVE@[0]@)
        || text::has_part(action, DESTRUCTIVE@[1]@) || text::has_part(action, DESTRUCTIVE@[2]@)
        || text::has_part(action, DESTRUCTIVE@[3]@)));
    assert(marked(action, GRANTS@) == (text::has_part(action, GRANTS@[0]@) || text::has_part(
        action,
        GRANTS@[1]@,
    ) || text::has_part(action, GRANTS@[2]@)));
}

/// An entry opens where it holds more than nothing: not for a missing detail, nor for an
/// empty record, and for anything else.
pub proof fn an_empty_detail_is_not_opened(detail: Json)
    ensures
        says_something(detail) <==> !(detail is Null) && !(detail matches Json::Record(fields)
            && fields.len() == 0),
{
}

/// Who acted and on what: by name where it is known, and else the system, and unknown.
pub proof fn an_entry_names_its_actor(entry: &AuditEntry, labels: (Label, Label))
    requires
        call_ensures(entry_labels, (entry,), labels),
    ensures
        entry.actor is Some ==> labels.0@ == LabelView::Verbatim(entry.actor->0@),
        entry.actor is None ==> labels.0@ == LabelView::Worded("console.audit.system"@),
        entry.target is Some ==> labels.1@ == LabelView::Verbatim(entry.target->0@),
        entry.target is None ==> labels.1@ == LabelView::Worded("time.unknown"@),
{
}

} // verus!
