//! The journals of what was decided without an operator, and the two answers to "that
//! was wrong": to undo it, and to say so durably.

use crate::access::{Capabilities, Permission};
use crate::foreign::{self, Json};
use crate::merge::{self, SeriesId};
use crate::notice::Reply;
use crate::rows;
use crate::text;
use crate::wording::{ArgView, Label, LabelView, Phrase, PhraseView};
use serde_json::Value;
use vstd::prelude::*;

verus! {

broadcast use vstd::string::group_string_axioms;

/// Rows per page.
pub const PAGE_SIZE: u32 = 50;

/// Rows per page while a search runs. The search covers what is loaded, so more of the
/// journal is loaded for it: the most that the server gives.
pub const SEARCH_PAGE_SIZE: u32 = 200;

/// The outcomes that the merge journal can be narrowed to.
pub const OUTCOMES: [&'static str; 5] = ["merged", "queued", "reopened", "withdrawn", "deferred"];

/// The actions that the sync journal can be narrowed to.
pub const ACTIONS: [&'static str; 7] = [
    "matched",
    "unmatched",
    "pull",
    "push",
    "conflict",
    "skipped",
    "noop",
];

/// A part of what an undo puts back.
#[derive(Debug, PartialEq, Eq)]
pub struct UndoSegment {
    pub kind: String,
    pub rows: i64,
}

/// What was decided about a pair of series.
#[derive(Debug, PartialEq, Eq)]
pub struct MergeDecision {
    pub id: u128,
    pub left_id: SeriesId,
    pub left_title: String,
    pub right_id: SeriesId,
    pub right_title: String,
    pub survivor_id: Option<SeriesId>,
    pub absorbed_id: Option<SeriesId>,
    pub outcome: String,
    pub reason: String,
    pub trigger: String,
    pub sweep_id: Option<u128>,
    /// How sure the scorer was, in percent, written out.
    pub percent: String,
    pub signals: Vec<String>,
    pub blocked_by: Vec<String>,
    pub terms: Value,
    pub evidence: Value,
    pub policy: Value,
    pub decided_at: String,
    pub reverted_at: Option<String>,
    pub revert_reason: Option<String>,
    pub flagged_at: Option<String>,
    pub flag_reason: Option<String>,
    /// Whether there is an undo that has not been spent.
    pub revertible: bool,
    pub undo_rows: i64,
    pub undo_breakdown: Vec<UndoSegment>,
}

/// What was decided about one entry of a reader's shelf.
#[derive(Debug, PartialEq, Eq)]
pub struct SyncDecision {
    pub id: u128,
    pub series_title: Option<String>,
    pub username: Option<String>,
    pub provider: String,
    pub action: String,
    pub reason: String,
    pub external_id: Option<String>,
    /// How sure the matcher was, in percent, written out.
    pub match_percent: Option<String>,
    pub match_signals: Vec<String>,
    pub evidence: Value,
    /// What both sides agreed on before, and the policy that was applied.
    pub ancestor_local: Option<String>,
    pub ancestor_remote: Option<String>,
    pub policy: Option<String>,
    /// Whether it changed anything.
    pub applied: bool,
    pub local_before: Option<String>,
    pub local_after: Option<String>,
    pub remote_before: Option<String>,
    pub remote_after: Option<String>,
    pub decided_at: String,
    pub reverted_at: Option<String>,
    pub revert_reason: Option<String>,
    pub flagged_at: Option<String>,
    pub flag_reason: Option<String>,
}

/// Which journal the panel shows.
#[derive(Debug, Clone, Copy, PartialEq, Eq, Structural)]
pub enum Journal {
    Merges,
    Sync,
}

impl Journal {
    /// The permission that a journal takes.
    pub open spec fn permission(self) -> Permission {
        match self {
            Journal::Merges => Permission::MergeAudit,
            Journal::Sync => Permission::SyncAudit,
        }
    }

    /// The permission that it takes to answer a decision of a journal.
    pub open spec fn revert_permission(self) -> Permission {
        match self {
            Journal::Merges => Permission::MergeRevert,
            Journal::Sync => Permission::SyncRevert,
        }
    }

    /// Whether the reader may answer the decisions of a journal.
    pub fn may_revert(self, caps: &Capabilities) -> (r: bool)
        ensures
            r == caps.may(self.revert_permission()),
    {
        match self {
            Journal::Merges => caps.can(Permission::MergeRevert),
            Journal::Sync => caps.can(Permission::SyncRevert),
        }
    }

    /// The journal that the panel opens on: one that the reader may see.
    pub fn landing(caps: &Capabilities) -> (r: Journal)
        ensures
            r == (if caps.may(Permission::MergeAudit) {
                Journal::Merges
            } else {
                Journal::Sync
            }),
            caps.may(Permission::MergeAudit) || caps.may(Permission::SyncAudit) ==> caps.may(
                r.permission(),
            ),
    {
        if caps.can(Permission::MergeAudit) {
            Journal::Merges
        } else {
            Journal::Sync
        }
    }

    /// Whether a journal is offered, and shown where it is picked.
    pub fn is_open(self, caps: &Capabilities) -> (r: bool)
        ensures
            r == caps.may(self.permission()),
    {
        match self {
            Journal::Merges => caps.can(Permission::MergeAudit),
            Journal::Sync => caps.can(Permission::SyncAudit),
        }
    }
}

/// Whether one of some fields, in lower case, holds a text.
pub open spec fn any_holds(fields: Seq<Option<&str>>, needle: Seq<char>) -> bool {
    exists|i: int|
        0 <= i < fields.len() && (#[trigger] fields[i]) is Some && text::has_part(
            foreign::lowercase(fields[i]->0@),
            needle,
        )
}

/// Whether one of some fields, in lower case, holds a text that is in lower case already.
pub fn matches(needle: &str, haystack: &[Option<&str>]) -> (r: bool)
    ensures
        r == any_holds(haystack@, needle@),
{
    let mut i: usize = 0;
    while i < haystack.len()
        invariant
            i <= haystack.len(),
            forall|j: int|
                0 <= j < i ==> !((#[trigger] haystack@[j]) is Some && text::has_part(
                    foreign::lowercase(haystack@[j]->0@),
                    needle@,
                )),
        decreases haystack.len() - i,
    {
        if let Some(field) = haystack[i] {
            let lowered = field.to_lowercase();
            if text::contains(lowered.as_str(), needle) {
                assert(haystack@[i as int] is Some);
                return true;
            }
        }
        i = i + 1;
    }
    false
}

/// What a search looks for: nothing, or the text trimmed and in lower case.
pub open spec fn needle_of(q: Seq<char>) -> Seq<char> {
    foreign::lowercase(text::trimmed(q))
}

/// Whether a text stands in a field that may be absent.
pub open spec fn field_holds(field: Option<String>, needle: Seq<char>) -> bool {
    field is Some && text::has_part(foreign::lowercase(field->0@), needle)
}

/// Whether a merge decision answers to a search.
pub open spec fn merge_answers(d: MergeDecision, needle: Seq<char>) -> bool {
    ||| needle.len() == 0
    ||| text::has_part(foreign::lowercase(d.left_title@), needle)
    ||| text::has_part(foreign::lowercase(d.right_title@), needle)
    ||| text::has_part(foreign::lowercase(d.outcome@), needle)
    ||| text::has_part(foreign::lowercase(d.reason@), needle)
}

/// Whether a sync decision answers to a search.
pub open spec fn sync_answers(d: SyncDecision, needle: Seq<char>) -> bool {
    ||| needle.len() == 0
    ||| field_holds(d.series_title, needle)
    ||| field_holds(d.username, needle)
    ||| text::has_part(foreign::lowercase(d.provider@), needle)
    ||| text::has_part(foreign::lowercase(d.action@), needle)
    ||| text::has_part(foreign::lowercase(d.reason@), needle)
    ||| field_holds(d.external_id, needle)
}

fn merge_answers_to(d: &MergeDecision, needle: &str) -> (r: bool)
    ensures
        r == merge_answers(*d, needle@),
{
    if needle.is_empty() {
        return true;
    }
    let fields: [Option<&str>; 4] = [
        Some(d.left_title.as_str()),
        Some(d.right_title.as_str()),
        Some(d.outcome.as_str()),
        Some(d.reason.as_str()),
    ];
    let r = matches(needle, &fields);
    assert(fields@[0]->0@ == d.left_title@);
    assert(fields@[1]->0@ == d.right_title@);
    assert(fields@[2]->0@ == d.outcome@);
    assert(fields@[3]->0@ == d.reason@);
    r
}

fn borrowed(field: &Option<String>) -> (r: Option<&str>)
    ensures
        (match r {
            Some(t) => Some(t@),
            None => None,
        }) == text::view_of(*field),
{
    match field {
        Some(t) => Some(t.as_str()),
        None => None,
    }
}

fn sync_answers_to(d: &SyncDecision, needle: &str) -> (r: bool)
    ensures
        r == sync_answers(*d, needle@),
{
    if needle.is_empty() {
        return true;
    }
    let fields: [Option<&str>; 6] = [
        borrowed(&d.series_title),
        borrowed(&d.username),
        Some(d.provider.as_str()),
        Some(d.action.as_str()),
        Some(d.reason.as_str()),
        borrowed(&d.external_id),
    ];
    let r = matches(needle, &fields);
    assert(fields@[0] is Some == d.series_title is Some);
    assert(fields@[1] is Some == d.username is Some);
    assert(fields@[2]->0@ == d.provider@);
    assert(fields@[3]->0@ == d.action@);
    assert(fields@[4]->0@ == d.reason@);
    assert(fields@[5] is Some == d.external_id is Some);
    r
}

/// The positions of the merge decisions that answer to a search, in order.
pub fn filter_merges(list: &[MergeDecision], q: &str) -> (r: Vec<usize>)
    ensures
        rows::positions(r@) == rows::kept(
            list@.len(),
            |i: int| merge_answers(list@[i], needle_of(q@)),
        ),
{
    let needle = text::trim(q).as_str().to_lowercase();
    let ghost test = |i: int| merge_answers(list@[i], needle_of(q@));
    let mut out: Vec<usize> = Vec::new();
    let mut i: usize = 0;
    assert(rows::positions(out@) =~= rows::kept(0, test));
    while i < list.len()
        invariant
            i <= list.len(),
            needle@ == needle_of(q@),
            test == (|i: int| merge_answers(list@[i], needle_of(q@))),
            rows::positions(out@) == rows::kept(i as nat, test),
        decreases list.len() - i,
    {
        let ghost earlier = out@;
        if merge_answers_to(&list[i], needle.as_str()) {
            out.push(i);
            assert(rows::positions(out@) =~= rows::positions(earlier).push(i as int));
        }
        assert(rows::positions(out@) == rows::kept((i + 1) as nat, test));
        i = i + 1;
    }
    out
}

/// The positions of the sync decisions that answer to a search, in order.
pub fn filter_syncs(list: &[SyncDecision], q: &str) -> (r: Vec<usize>)
    ensures
        rows::positions(r@) == rows::kept(
            list@.len(),
            |i: int| sync_answers(list@[i], needle_of(q@)),
        ),
{
    let needle = text::trim(q).as_str().to_lowercase();
    let ghost test = |i: int| sync_answers(list@[i], needle_of(q@));
    let mut out: Vec<usize> = Vec::new();
    let mut i: usize = 0;
    assert(rows::positions(out@) =~= rows::kept(0, test));
    while i < list.len()
        invariant
            i <= list.len(),
            needle@ == needle_of(q@),
            test == (|i: int| sync_answers(list@[i], needle_of(q@))),
            rows::positions(out@) == rows::kept(i as nat, test),
        decreases list.len() - i,
    {
        let ghost earlier = out@;
        if sync_answers_to(&list[i], needle.as_str()) {
            out.push(i);
            assert(rows::positions(out@) =~= rows::positions(earlier).push(i as int));
        }
        assert(rows::positions(out@) == rows::kept((i + 1) as nat, test));
        i = i + 1;
    }
    out
}

/// Whether a search runs: not for a text that is all white space.
pub fn searching(q: &str) -> (r: bool)
    ensures
        r == (text::trimmed(q@).len() > 0),
{
    let t = text::trim(q);
    !t.as_str().is_empty()
}

/// What a journal is asked for.
#[derive(Debug, PartialEq, Eq)]
pub struct JournalRequest {
    pub limit: u32,
    /// The outcome or the action that it is narrowed to.
    pub token: Option<String>,
    /// Whether only what was blocked, or only what was applied, is asked for.
    pub only: bool,
}

/// What a journal is asked for.
pub fn journal_request(token: &str, only: bool, q: &str) -> (r: JournalRequest)
    ensures
        r.limit == (if text::trimmed(q@).len() > 0 {
            SEARCH_PAGE_SIZE
        } else {
            PAGE_SIZE
        }),
        text::view_of(r.token) == crate::query::present(token@),
        r.only == only,
{
    JournalRequest {
        limit: if searching(q) {
            SEARCH_PAGE_SIZE
        } else {
            PAGE_SIZE
        },
        token: crate::query::non_empty(token.to_owned()),
        only,
    }
}

/// What a journal's own filters are as it opens: whether the merge journal shows only
/// what was blocked, and whether the sync journal shows only what was applied. A
/// reconciliation is mostly considerations, and a reader asks what changed.
pub fn opening_filter(journal: Journal) -> (r: bool)
    ensures
        r == (journal is Sync),
{
    matches!(journal, Journal::Sync)
}

/// The count beside the search: what was searched, not only what matched.
pub fn search_hits(shown: usize, loaded: usize, searching: bool) -> (r: Option<Phrase>)
    ensures
        match r {
            Some(p) => searching && p@ == PhraseView::plain(
                "console.decisions.search.hits"@,
            ).verbatim("count"@, text::decimal(shown as nat)).verbatim(
                "loaded"@,
                text::decimal(loaded as nat),
            ),
            None => !searching,
        },
{
    if !searching {
        return None;
    }
    let count = text::print_u64(shown as u64);
    let of = text::print_u64(loaded as u64);
    Some(
        Phrase::plain("console.decisions.search.hits").verbatim("count", count.as_str()).verbatim(
            "loaded",
            of.as_str(),
        ),
    )
}

/// What an empty journal says.
pub fn empty_key(journal: Journal, searching: bool) -> (r: &'static str)
    ensures
        r@ == (if searching {
            "console.decisions.searchEmpty"@
        } else {
            match journal {
                Journal::Merges => "console.decisions.mergeEmpty"@,
                Journal::Sync => "console.decisions.syncEmpty"@,
            }
        }),
{
    if searching {
        "console.decisions.searchEmpty"
    } else {
        match journal {
            Journal::Merges => "console.decisions.mergeEmpty",
            Journal::Sync => "console.decisions.syncEmpty",
        }
    }
}

/// The controls that a decision offers.
#[derive(Debug, Clone, Copy, PartialEq, Eq, Structural)]
pub struct Answers {
    /// Whether it can be put back.
    pub revert: bool,
    /// Whether it can be called wrong.
    pub flag: bool,
}

/// The controls that a merge decision offers in the journal. It is put back only while
/// an undo is unspent: a pair that was only queued has nothing to put back.
pub fn merge_controls(d: &MergeDecision, can_revert: bool) -> (r: Answers)
    ensures
        r.flag == (can_revert && d.flagged_at is None),
        r.revert == (can_revert && d.flagged_at is None && d.revertible),
{
    let flag = can_revert && d.flagged_at.is_none();
    Answers { revert: flag && d.revertible, flag }
}

/// The controls that a sync decision offers.
pub fn sync_controls(d: &SyncDecision, can_revert: bool) -> (r: Answers)
    ensures
        r.flag == (can_revert && d.flagged_at is None && d.reverted_at is None),
        r.revert == (can_revert && d.flagged_at is None && d.reverted_at is None && d.applied),
{
    let flag = can_revert && d.flagged_at.is_none() && d.reverted_at.is_none();
    Answers { revert: flag && d.applied, flag }
}

/// What a press of one of the two answers comes to.
#[derive(Debug, PartialEq, Eq)]
pub enum Asked {
    /// No reason was given: the operator is told that one is needed.
    NoReason,
    /// Another answer is under way.
    Busy,
    /// The answer is sent, with the reason.
    Send(String),
}

/// What a press comes to, as its characters.
#[verifier::ext_equal]
pub enum AskedView {
    NoReason,
    Busy,
    Send(Seq<char>),
}

impl View for Asked {
    type V = AskedView;

    open spec fn view(&self) -> AskedView {
        match *self {
            Asked::NoReason => AskedView::NoReason,
            Asked::Busy => AskedView::Busy,
            Asked::Send(reason) => AskedView::Send(reason@),
        }
    }
}

/// What is said where no reason was given.
pub fn reason_required() -> (r: Phrase)
    ensures
        r@ == PhraseView::plain("console.decisions.reasonRequired"@),
{
    Phrase::plain("console.decisions.reasonRequired")
}

/// The reason field and the two buttons of a decision.
#[derive(Debug, PartialEq, Eq)]
pub struct Judge {
    pub reason: String,
    pub busy: bool,
}

/// The reason field and the two buttons, as characters.
#[verifier::ext_equal]
pub struct JudgeView {
    pub reason: Seq<char>,
    pub busy: bool,
}

impl View for Judge {
    type V = JudgeView;

    open spec fn view(&self) -> JudgeView {
        JudgeView { reason: self.reason@, busy: self.busy }
    }
}

impl JudgeView {
    /// What a press comes to: a reason comes before anything else.
    pub open spec fn asked(self) -> AskedView {
        if text::trimmed(self.reason).len() == 0 {
            AskedView::NoReason
        } else if self.busy {
            AskedView::Busy
        } else {
            AskedView::Send(text::trimmed(self.reason))
        }
    }
}

impl Judge {
    /// An empty field.
    pub fn new() -> (r: Judge)
        ensures
            r@ == (JudgeView { reason: Seq::empty(), busy: false }),
    {
        Judge { reason: String::new(), busy: false }
    }

    /// Takes what was typed.
    pub fn enter(&mut self, reason: String)
        ensures
            final(self)@ == (JudgeView { reason: reason@, ..old(self)@ }),
    {
        self.reason = reason;
    }

    /// Presses one of the two buttons.
    pub fn press(&mut self) -> (r: Asked)
        ensures
            r@ == old(self)@.asked(),
            final(self)@ == (JudgeView {
                busy: old(self)@.busy || old(self)@.asked() is Send,
                ..old(self)@
            }),
    {
        let reason = text::trim(self.reason.as_str());
        if reason.as_str().is_empty() {
            return Asked::NoReason;
        }
        if self.busy {
            return Asked::Busy;
        }
        self.busy = true;
        Asked::Send(reason)
    }

    /// Takes the reply, and what to say where it was done: the line to show, where there
    /// is a new one. The journal is to be read again where it was done.
    pub fn replied(&mut self, reply: Reply, done: Phrase) -> (r: Option<Phrase>)
        ensures
            final(self)@ == (JudgeView {
                reason: if reply is Done {
                    Seq::empty()
                } else {
                    old(self)@.reason
                },
                busy: false,
            }),
            (match r {
                Some(p) => Some(p@),
                None => None,
            }) == (match reply {
                Reply::Done => Some(done@),
                Reply::StepUp => None,
                Reply::Failed(why) => Some(
                    PhraseView::plain("console.decisions.actionFailed"@).verbatim(
                        "message"@,
                        why@,
                    ),
                ),
            }),
    {
        self.busy = false;
        match reply {
            Reply::Done => {
                self.reason = String::new();
                Some(done)
            },
            Reply::StepUp => None,
            Reply::Failed(why) => Some(
                Phrase::plain("console.decisions.actionFailed").verbatim("message", why.as_str()),
            ),
        }
    }
}

/// No answer is sent without a reason.
pub proof fn an_answer_has_a_reason(judge: JudgeView)
    ensures
        judge.asked() matches AskedView::Send(reason) ==> reason.len() > 0,
{
}

/// What the button says that puts a merge back: how many rows that restores.
pub fn revert_words(d: &MergeDecision) -> (r: Phrase)
    ensures
        r@ == PhraseView::plain("console.decisions.revert"@).number("rows"@, d.undo_rows as int),
{
    Phrase::plain("console.decisions.revert").number("rows", d.undo_rows)
}

/// How sure the scorer was of a merge, in words.
pub fn score_words(d: &MergeDecision) -> (r: Phrase)
    ensures
        r@ == PhraseView::plain("console.merge.score"@).verbatim("percent"@, d.percent@),
{
    Phrase::plain("console.merge.score").verbatim("percent", d.percent.as_str())
}

/// How sure the matcher was of a sync decision, in words, where it matched anything.
pub fn match_words(d: &SyncDecision) -> (r: Option<Phrase>)
    ensures
        match (r, d.match_percent) {
            (Some(p), Some(percent)) => p@ == PhraseView::plain("console.merge.score"@).verbatim(
                "percent"@,
                percent@,
            ),
            (p, percent) => p is None && percent is None,
        },
{
    match &d.match_percent {
        Some(percent) => Some(
            Phrase::plain("console.merge.score").verbatim("percent", percent.as_str()),
        ),
        None => None,
    }
}

/// One fact of a decision, where there is a value: an empty row would read as missing data.
pub open spec fn fact_of(key: Seq<char>, value: Option<String>) -> Seq<(Seq<char>, Seq<char>)> {
    match value {
        Some(value) => seq![(key, value@)],
        None => Seq::empty(),
    }
}

/// The facts of a sync decision: each with the catalogue key of its label.
pub open spec fn facts_of(d: SyncDecision) -> Seq<(Seq<char>, Seq<char>)> {
    fact_of("console.decisions.ancestorLocal"@, d.ancestor_local) + fact_of(
        "console.decisions.ancestorRemote"@,
        d.ancestor_remote,
    ) + fact_of("console.decisions.policy"@, d.policy) + fact_of(
        "console.decisions.externalId"@,
        d.external_id,
    )
}

fn note_fact(facts: &mut Vec<(&'static str, String)>, key: &'static str, value: &Option<String>)
    ensures
        fact_views(final(facts)@) == fact_views(old(facts)@) + fact_of(key@, *value),
{
    if let Some(value) = value {
        facts.push((key, value.clone()));
    }
    assert(fact_views(facts@) =~= fact_views(old(facts)@) + fact_of(key@, *value));
}

/// Some facts as their characters.
pub open spec fn fact_views(facts: Seq<(&'static str, String)>) -> Seq<(Seq<char>, Seq<char>)> {
    Seq::new(facts.len(), |i: int| (facts[i].0@, facts[i].1@))
}

/// The facts of a sync decision, each where it has a value.
pub fn sync_facts(d: &SyncDecision) -> (r: Vec<(&'static str, String)>)
    ensures
        fact_views(r@) == facts_of(*d),
{
    let mut facts: Vec<(&'static str, String)> = Vec::new();
    assert(fact_views(facts@) =~= Seq::empty());
    note_fact(&mut facts, "console.decisions.ancestorLocal", &d.ancestor_local);
    note_fact(&mut facts, "console.decisions.ancestorRemote", &d.ancestor_remote);
    note_fact(&mut facts, "console.decisions.policy", &d.policy);
    note_fact(&mut facts, "console.decisions.externalId", &d.external_id);
    assert(fact_views(facts@) =~= facts_of(*d));
    facts
}

/// What a merge that was put back says.
pub fn merge_reverted(rows: i64) -> (r: Phrase)
    ensures
        r@ == PhraseView::plain("console.decisions.reverted"@).number("rows"@, rows as int),
{
    Phrase::plain("console.decisions.reverted").number("rows", rows)
}

/// What a merge that was called wrong says.
pub fn merge_flagged() -> (r: Phrase)
    ensures
        r@ == PhraseView::plain("console.decisions.flagged"@),
{
    Phrase::plain("console.decisions.flagged")
}

/// What a sync decision that was put back says.
pub fn sync_reverted(restored: &str) -> (r: Phrase)
    ensures
        r@ == PhraseView::plain("console.decisions.syncReverted"@).label(
            "what"@,
            LabelView::Keyed("console.decisions.restored."@ + restored@),
        ),
{
    Phrase::plain("console.decisions.syncReverted").label(
        "what",
        Label::keyed("console.decisions.restored.", restored),
    )
}

/// What a sync decision that was called wrong says. A flag that left the match in place
/// would fix nothing, so the match is blocked with it.
pub fn sync_flagged() -> (r: Phrase)
    ensures
        r@ == PhraseView::plain("console.decisions.flaggedAndBlocked"@),
{
    Phrase::plain("console.decisions.flaggedAndBlocked")
}

/// Whether a flag blocks the match too.
pub fn flag_blocks_match(journal: Journal) -> (r: bool)
    ensures
        r == (journal is Sync),
{
    matches!(journal, Journal::Sync)
}

/// The class that an outcome is drawn in: a merge has to be found among hundreds of rows.
pub fn outcome_tone(outcome: &str) -> (r: &'static str)
    ensures
        r@ == (if outcome@ == "merged"@ {
            "ik-pill vermilion"@
        } else if outcome@ == "deferred"@ {
            "ik-pill amber"@
        } else {
            "ik-pill"@
        }),
{
    if text::same(outcome, "merged") {
        "ik-pill vermilion"
    } else if text::same(outcome, "deferred") {
        "ik-pill amber"
    } else {
        "ik-pill"
    }
}

/// The class that a sync action is drawn in: one that changed nothing is faint.
pub fn action_tone(applied: bool) -> (r: &'static str)
    ensures
        r@ == (if applied {
            "ik-pill"@
        } else {
            "ik-pill ghost"@
        }),
{
    if applied {
        "ik-pill"
    } else {
        "ik-pill ghost"
    }
}

/// The wording of an outcome.
pub fn outcome_label(outcome: &str) -> (r: Label)
    ensures
        r@ == LabelView::Keyed("console.decisions.outcome."@ + outcome@),
{
    Label::keyed("console.decisions.outcome.", outcome)
}

/// The wording of an action.
pub fn action_label(action: &str) -> (r: Label)
    ensures
        r@ == LabelView::Keyed("console.decisions.action."@ + action@),
{
    Label::keyed("console.decisions.action.", action)
}

/// The wording of a reason, or its slug.
pub fn reason_label(slug: &str) -> (r: Label)
    ensures
        r@ == LabelView::token_under("console.decisions.reason."@, slug@),
{
    Label::token_under("console.decisions.reason.", slug)
}

/// The pill of a guard that blocked a decision.
pub fn blocked_pill(guard: &str) -> (r: Phrase)
    ensures
        r@ == PhraseView::plain("console.decisions.blockedBy"@).label(
            "guard"@,
            merge::signal_keys(guard@),
        ),
{
    Phrase::plain("console.decisions.blockedBy").label("guard", merge::signal_label(guard))
}

/// What a sync decision is about: the series' title, or that there is none.
pub fn sync_title(d: &SyncDecision) -> (r: Label)
    ensures
        r@ == (match d.series_title {
            Some(title) => LabelView::Verbatim(title@),
            None => LabelView::Worded("console.decisions.noSeries"@),
        }),
{
    match &d.series_title {
        Some(title) => Label::Verbatim(title.clone()),
        None => Label::Worded("console.decisions.noSeries"),
    }
}

/// How one side of a sync moved, where both its ends are known.
pub open spec fn moved_words(
    key: Seq<char>,
    before: Option<String>,
    after: Option<String>,
) -> Option<PhraseView> {
    match (before, after) {
        (Some(from), Some(to)) => Some(
            PhraseView::plain(key).verbatim("from"@, from@).verbatim("to"@, to@),
        ),
        _ => None,
    }
}

fn moved(key: &'static str, before: &Option<String>, after: &Option<String>) -> (r: Option<Phrase>)
    ensures
        (match r {
            Some(p) => Some(p@),
            None => None,
        }) == moved_words(key@, *before, *after),
{
    match (before, after) {
        (Some(from), Some(to)) => Some(
            Phrase::plain(key).verbatim("from", from.as_str()).verbatim("to", to.as_str()),
        ),
        _ => None,
    }
}

/// How the two sides of a sync moved: the reader's own, then the other.
pub fn sync_moves(d: &SyncDecision) -> (r: (Option<Phrase>, Option<Phrase>))
    ensures
        (match r.0 {
            Some(p) => Some(p@),
            None => None,
        }) == moved_words("console.decisions.localMoved"@, d.local_before, d.local_after),
        (match r.1 {
            Some(p) => Some(p@),
            None => None,
        }) == moved_words("console.decisions.remoteMoved"@, d.remote_before, d.remote_after),
{
    (
        moved("console.decisions.localMoved", &d.local_before, &d.local_after),
        moved("console.decisions.remoteMoved", &d.remote_before, &d.remote_after),
    )
}

/// What the evidence button says.
pub fn evidence_key(open: bool) -> (r: &'static str)
    ensures
        r@ == (if open {
            "console.decisions.hideEvidence"@
        } else {
            "console.decisions.showEvidence"@
        }),
{
    if open {
        "console.decisions.hideEvidence"
    } else {
        "console.decisions.showEvidence"
    }
}

/// How a JSON value is shown: indented, or compact where it cannot be.
pub open spec fn shown_json(v: Json) -> Seq<char> {
    match foreign::pretty_text(v) {
        Some(t) => t,
        None => foreign::compact_text(v),
    }
}

/// How a JSON value is shown.
pub fn pretty(value: &Value) -> (r: String)
    ensures
        r@ == shown_json(foreign::json_of(*value)),
{
    let indented = foreign::write_pretty(value);
    text::or_text(indented, foreign::write_compact(value))
}

/// A rule of the score: which it is, and what it says of itself. What it added is a real
/// number, which stands beside the row.
#[derive(Debug, PartialEq, Eq)]
pub struct TermRow {
    pub rule: Label,
    pub detail: String,
}

/// A rule of the score, as its characters.
#[verifier::ext_equal]
pub struct TermView {
    pub rule: LabelView,
    pub detail: Seq<char>,
}

impl View for TermRow {
    type V = TermView;

    open spec fn view(&self) -> TermView {
        TermView { rule: self.rule@, detail: self.detail@ }
    }
}

/// The text of a field, where a record has it and it is one.
pub open spec fn text_field(v: Json, name: Seq<char>) -> Option<Seq<char>> {
    match v.field(name) {
        Some(found) => found.as_text(),
        None => None,
    }
}

/// The row of one rule.
pub open spec fn term_view(term: Json) -> TermView {
    TermView {
        rule: match text_field(term, "rule"@) {
            Some(rule) => merge::signal_keys(rule),
            None => LabelView::Verbatim("?"@),
        },
        detail: match text_field(term, "detail"@) {
            Some(detail) => detail,
            None => ""@,
        },
    }
}

/// The rows of the rules of a score: none where the terms are no list.
pub open spec fn term_views(terms: Json) -> Seq<TermView> {
    match terms {
        Json::List(items) => Seq::new(items.len(), |i: int| term_view(items[i])),
        _ => Seq::empty(),
    }
}

/// The text of a field, where a record has it and it is one.
pub fn read_text<'a>(v: &'a Value, name: &str) -> (r: Option<&'a str>)
    ensures
        (match r {
            Some(t) => Some(t@),
            None => None,
        }) == text_field(foreign::json_of(*v), name@),
{
    match foreign::field(v, name) {
        Some(found) => found.as_str(),
        None => None,
    }
}

fn term_row(term: &Value) -> (r: TermRow)
    ensures
        r@ == term_view(foreign::json_of(*term)),
{
    let rule = match read_text(term, "rule") {
        Some(rule) => merge::signal_label(rule),
        None => Label::Verbatim("?".to_owned()),
    };
    let detail = match read_text(term, "detail") {
        Some(detail) => detail.to_owned(),
        None => "".to_owned(),
    };
    TermRow { rule, detail }
}

/// The rows of the rules of a score, in order.
pub fn score_rows(terms: &Value) -> (r: Vec<TermRow>)
    ensures
        Seq::new(r@.len(), |i: int| r@[i]@) == term_views(foreign::json_of(*terms)),
{
    let mut out: Vec<TermRow> = Vec::new();
    if let Some(items) = terms.as_array() {
        let ghost all = foreign::json_list(items@);
        let mut i: usize = 0;
        while i < items.len()
            invariant
                i <= items.len(),
                all == foreign::json_list(items@),
                out@.len() == i,
                forall|j: int| 0 <= j < i ==> (#[trigger] out@[j])@ == term_view(all[j]),
            decreases items.len() - i,
        {
            out.push(term_row(&items[i]));
            i = i + 1;
        }
    }
    assert(Seq::new(out@.len(), |i: int| out@[i]@) =~= term_views(foreign::json_of(*terms)));
    out
}

/// Why a decision was put back, and why it was called wrong, as characters.
pub open spec fn reasons_given(reverted: Option<String>, flagged: Option<String>) -> (
    Option<PhraseView>,
    Option<PhraseView>,
) {
    (
        match reverted {
            Some(why) => Some(
                PhraseView::plain("console.decisions.revertedBecause"@).verbatim("reason"@, why@),
            ),
            None => None,
        },
        match flagged {
            Some(why) => Some(
                PhraseView::plain("console.decisions.flaggedBecause"@).verbatim("reason"@, why@),
            ),
            None => None,
        },
    )
}

/// A pair of lines, each where it is said, as characters.
pub open spec fn line_views(lines: (Option<Phrase>, Option<Phrase>)) -> (
    Option<PhraseView>,
    Option<PhraseView>,
) {
    (
        match lines.0 {
            Some(p) => Some(p@),
            None => None,
        },
        match lines.1 {
            Some(p) => Some(p@),
            None => None,
        },
    )
}

fn reasons(reverted: &Option<String>, flagged: &Option<String>) -> (r: (
    Option<Phrase>,
    Option<Phrase>,
))
    ensures
        line_views(r) == reasons_given(*reverted, *flagged),
{
    let put_back = match reverted {
        Some(why) => Some(
            Phrase::plain("console.decisions.revertedBecause").verbatim("reason", why.as_str()),
        ),
        None => None,
    };
    let called_wrong = match flagged {
        Some(why) => Some(
            Phrase::plain("console.decisions.flaggedBecause").verbatim("reason", why.as_str()),
        ),
        None => None,
    };
    (put_back, called_wrong)
}

/// Why a merge was put back, and why it was called wrong, where anyone said.
pub fn because(d: &MergeDecision) -> (r: (Option<Phrase>, Option<Phrase>))
    ensures
        line_views(r) == reasons_given(d.revert_reason, d.flag_reason),
{
    reasons(&d.revert_reason, &d.flag_reason)
}

/// Why a sync decision was put back, and why it was called wrong, where anyone said.
pub fn sync_because(d: &SyncDecision) -> (r: (Option<Phrase>, Option<Phrase>))
    ensures
        line_views(r) == reasons_given(d.revert_reason, d.flag_reason),
{
    reasons(&d.revert_reason, &d.flag_reason)
}

/// A search finds a decision by what its row shows, in whatever case: by either title, by
/// the outcome or by the reason, and by nothing else; a blank search finds every one. What
/// is found keeps its order.
pub proof fn a_search_finds_a_merge_by_its_row(
    list: &[MergeDecision],
    q: &str,
    found: Vec<usize>,
    i: int,
)
    requires
        call_ensures(filter_merges, (list, q), found),
        0 <= i < list@.len(),
    ensures
        (exists|k: int| 0 <= k < found@.len() && #[trigger] found@[k] == i) <==> {
            let needle = foreign::lowercase(text::trimmed(q@));
            ||| needle.len() == 0
            ||| text::has_part(foreign::lowercase(list@[i].left_title@), needle)
            ||| text::has_part(foreign::lowercase(list@[i].right_title@), needle)
            ||| text::has_part(foreign::lowercase(list@[i].outcome@), needle)
            ||| text::has_part(foreign::lowercase(list@[i].reason@), needle)
        },
        forall|j: int, k: int|
            0 <= j < k < found@.len() ==> #[trigger] found@[j] < #[trigger] found@[k],
{
    let test = |i: int| merge_answers(list@[i], needle_of(q@));
    rows::listed_where_it_passes(list@.len(), test, found@, i);
    assert(test(i) == merge_answers(list@[i], needle_of(q@)));
}

/// A search finds a sync decision by what its row shows: by the series, the person, the
/// service, the action, the reason or the foreign id, in whatever case, and by nothing
/// else.
pub proof fn a_search_finds_a_sync_by_its_row(
    list: &[SyncDecision],
    q: &str,
    found: Vec<usize>,
    i: int,
)
    requires
        call_ensures(filter_syncs, (list, q), found),
        0 <= i < list@.len(),
    ensures
        (exists|k: int| 0 <= k < found@.len() && #[trigger] found@[k] == i) <==> {
            let needle = foreign::lowercase(text::trimmed(q@));
            let d = list@[i];
            ||| needle.len() == 0
            ||| d.series_title is Some && text::has_part(
                foreign::lowercase(d.series_title->0@),
                needle,
            )
            ||| d.username is Some && text::has_part(foreign::lowercase(d.username->0@), needle)
            ||| text::has_part(foreign::lowercase(d.provider@), needle)
            ||| text::has_part(foreign::lowercase(d.action@), needle)
            ||| text::has_part(foreign::lowercase(d.reason@), needle)
            ||| d.external_id is Some && text::has_part(
                foreign::lowercase(d.external_id->0@),
                needle,
            )
        },
        forall|j: int, k: int|
            0 <= j < k < found@.len() ==> #[trigger] found@[j] < #[trigger] found@[k],
{
    let test = |i: int| sync_answers(list@[i], needle_of(q@));
    rows::listed_where_it_passes(list@.len(), test, found@, i);
    assert(test(i) == sync_answers(list@[i], needle_of(q@)));
}

/// A journal opens to the permission to read it, and is answered with the one to put back;
/// a reader lands on the merges where they may read them, and otherwise on the syncs.
pub proof fn each_journal_has_its_own_permissions(
    caps: &Capabilities,
    landed: Journal,
    merges_open: bool,
    syncs_open: bool,
    merges_answered: bool,
    syncs_answered: bool,
)
    requires
        call_ensures(Journal::landing, (caps,), landed),
        call_ensures(Journal::is_open, (Journal::Merges, caps), merges_open),
        call_ensures(Journal::is_open, (Journal::Sync, caps), syncs_open),
        call_ensures(Journal::may_revert, (Journal::Merges, caps), merges_answered),
        call_ensures(Journal::may_revert, (Journal::Sync, caps), syncs_answered),
    ensures
        merges_open <==> caps.permissions@.contains(Permission::MergeAudit),
        syncs_open <==> caps.permissions@.contains(Permission::SyncAudit),
        merges_answered <==> caps.permissions@.contains(Permission::MergeRevert),
        syncs_answered <==> caps.permissions@.contains(Permission::SyncRevert),
        landed is Merges <==> merges_open,
{
}

/// A journal is asked for a page, or for more of it where a search is on; the token it is
/// narrowed to and the switch are handed on.
pub proof fn a_search_loads_more_of_the_journal(
    token: &str,
    only: bool,
    q: &str,
    sent: JournalRequest,
    on: bool,
)
    requires
        call_ensures(journal_request, (token, only, q), sent),
        call_ensures(searching, (q,), on),
    ensures
        on <==> text::trimmed(q@).len() > 0,
        sent.limit == (if on {
            200u32
        } else {
            50u32
        }),
        sent.only == only,
        sent.token is Some <==> token@.len() > 0,
        sent.token is Some ==> sent.token->0@ == token@,
{
}

/// What can be answered of a decision: only by a reader who may, and never what was called
/// wrong before. A merge goes back where its undo is there; a sync where it was applied
/// and not yet put back.
pub proof fn an_answered_decision_is_not_answered_again(
    merge: &MergeDecision,
    sync: &SyncDecision,
    can_revert: bool,
    of_merge: Answers,
    of_sync: Answers,
)
    requires
        call_ensures(merge_controls, (merge, can_revert), of_merge),
        call_ensures(sync_controls, (sync, can_revert), of_sync),
    ensures
        of_merge.flag <==> can_revert && merge.flagged_at is None,
        of_merge.revert <==> can_revert && merge.flagged_at is None && merge.revertible,
        of_sync.flag <==> can_revert && sync.flagged_at is None && sync.reverted_at is None,
        of_sync.revert <==> can_revert && sync.flagged_at is None && sync.reverted_at is None
            && sync.applied,
        of_merge.revert ==> of_merge.flag,
        of_sync.revert ==> of_sync.flag,
{
}

/// An answer is sent with its reason, without the blanks round it, once; a blank reason is
/// asked for, before anything else, and a failed answer keeps what was written.
pub proof fn an_answer_is_sent_with_its_reason(
    pressed: &mut Judge,
    asked: Asked,
    replied: &mut Judge,
    reply: Reply,
    done: Phrase,
    said: Option<Phrase>,
)
    requires
        call_ensures(Judge::press, (pressed,), asked),
        call_ensures(Judge::replied, (replied, reply, done), said),
    ensures
        asked is NoReason <==> text::trimmed(old(pressed)@.reason).len() == 0,
        asked is Busy <==> text::trimmed(old(pressed)@.reason).len() > 0 && old(pressed)@.busy,
        asked matches Asked::Send(reason) ==> reason@ == text::trimmed(old(pressed)@.reason)
            && final(pressed)@.busy,
        !(asked is Send) ==> final(pressed)@ == old(pressed)@,
        final(pressed)@.reason == old(pressed)@.reason,
        !final(replied)@.busy,
        reply is Done ==> final(replied)@.reason.len() == 0 && said is Some && said->0@ == done@,
        !(reply is Done) ==> final(replied)@.reason == old(replied)@.reason,
        reply is StepUp ==> said is None,
        reply matches Reply::Failed(why) ==> said is Some && said->0@.args == seq![
            ("message"@, ArgView::Label(LabelView::Verbatim(why@))),
        ],
{
    if reply is Failed {
        assert(said->0@.args =~= seq![
            (
                "message"@,
                ArgView::Label(LabelView::Verbatim(reply->Failed_0@)),
            ),
        ]);
    }
}

/// Why a decision was taken back and why it was called wrong are said apart, each in its
/// own words and only where it was given.
pub proof fn each_reason_is_said_for_what_it_is(reverted: Option<String>, flagged: Option<String>)
    ensures
        reasons_given(reverted, flagged).0 is Some <==> reverted is Some,
        reasons_given(reverted, flagged).1 is Some <==> flagged is Some,
        reverted is Some ==> reasons_given(reverted, flagged).0->0
            == PhraseView::plain("console.decisions.revertedBecause"@).verbatim(
            "reason"@,
            reverted->0@,
        ),
        flagged is Some ==> reasons_given(reverted, flagged).1->0
            == PhraseView::plain("console.decisions.flaggedBecause"@).verbatim(
            "reason"@,
            flagged->0@,
        ),
{
}

/// A move is told where both ends of it are known, from the one to the other.
pub proof fn a_move_has_two_ends(key: Seq<char>, before: Option<String>, after: Option<String>)
    ensures
        moved_words(key, before, after) is Some <==> before is Some && after is Some,
        before is Some && after is Some ==> moved_words(key, before, after)->0.args == seq![
            ("from"@, ArgView::Label(LabelView::Verbatim(before->0@))),
            ("to"@, ArgView::Label(LabelView::Verbatim(after->0@))),
        ],
{
    if before is Some && after is Some {
        assert(moved_words(key, before, after)->0.args =~= seq![
            ("from"@, ArgView::Label(LabelView::Verbatim(before->0@))),
            ("to"@, ArgView::Label(LabelView::Verbatim(after->0@))),
        ]);
    }
}

/// The facts of a sync are those that it holds, under their own headings and in their
/// order: what each side agreed on, the policy and the foreign id.
pub proof fn facts_are_those_that_are_there(d: SyncDecision)
    ensures
        facts_of(d).contains(("console.decisions.ancestorLocal"@, d.ancestor_local->0@))
            || d.ancestor_local is None,
        facts_of(d).contains(("console.decisions.ancestorRemote"@, d.ancestor_remote->0@))
            || d.ancestor_remote is None,
        facts_of(d).contains(("console.decisions.policy"@, d.policy->0@)) || d.policy is None,
        facts_of(d).contains(("console.decisions.externalId"@, d.external_id->0@)) || d.external_id
            is None,
        facts_of(d).len() == (if d.ancestor_local is Some {
            1int
        } else {
            0
        }) + (if d.ancestor_remote is Some {
            1int
        } else {
            0
        }) + (if d.policy is Some {
            1int
        } else {
            0
        }) + (if d.external_id is Some {
            1int
        } else {
            0
        }),
{
    let a = fact_of("console.decisions.ancestorLocal"@, d.ancestor_local);
    let b = fact_of("console.decisions.ancestorRemote"@, d.ancestor_remote);
    let c = fact_of("console.decisions.policy"@, d.policy);
    let e = fact_of("console.decisions.externalId"@, d.external_id);
    let all = facts_of(d);
    assert(all == a + b + c + e);
    if a.len() > 0 {
        assert(all[0] == a[0]);
    }
    if b.len() > 0 {
        assert(all[a.len() as int] == b[0]);
    }
    if c.len() > 0 {
        assert(all[(a.len() + b.len()) as int] == c[0]);
    }
    if e.len() > 0 {
        assert(all[(a.len() + b.len() + c.len()) as int] == e[0]);
    }
}

/// The terms of a score are shown in their order, one row for each: the rule by its wording
/// and the detail as it stands; what has no rule is shown as unknown, and what is no list
/// has no terms.
pub proof fn each_term_has_its_row(terms: Json, i: int)
    ensures
        !(terms is List) ==> term_views(terms).len() == 0,
        terms matches Json::List(items) ==> term_views(terms).len() == items.len() && (0 <= i
            < items.len() ==> {
            let row = term_views(terms)[i];
            &&& items[i].field("rule"@) matches Some(Json::Text(rule)) ==> row.rule
                == LabelView::FirstOf(
                seq!["console.merge.signal."@ + rule, "console.decisions.term."@ + rule],
                rule,
            )
            &&& !(items[i].field("rule"@) is Some && items[i].field("rule"@)->0 is Text)
                ==> row.rule == LabelView::Verbatim("?"@)
            &&& items[i].field("detail"@) matches Some(Json::Text(detail)) ==> row.detail == detail
            &&& !(items[i].field("detail"@) is Some && items[i].field("detail"@)->0 is Text)
                ==> row.detail.len() == 0
        }),
{
    reveal_strlit("");
    assert(""@.len() == 0);
}

/// A value is shown laid out where it can be, and in one line where it cannot.
pub proof fn a_value_is_shown_laid_out(v: Json)
    ensures
        foreign::pretty_text(v) is Some ==> shown_json(v) == foreign::pretty_text(v)->0,
        foreign::pretty_text(v) is None ==> shown_json(v) == foreign::compact_text(v),
{
}

/// Why a decision was put back, and why it was called wrong, as the row says it.
pub proof fn a_row_says_why(d: &MergeDecision, lines: (Option<Phrase>, Option<Phrase>))
    requires
        call_ensures(because, (d,), lines),
    ensures
        lines.0 is Some <==> d.revert_reason is Some,
        lines.1 is Some <==> d.flag_reason is Some,
        lines.0 is Some ==> lines.0->0@.args == seq![
            ("reason"@, ArgView::Label(LabelView::Verbatim(d.revert_reason->0@))),
        ],
        lines.1 is Some ==> lines.1->0@.args == seq![
            ("reason"@, ArgView::Label(LabelView::Verbatim(d.flag_reason->0@))),
        ],
{
    let said = line_views(lines);
    assert(said == reasons_given(d.revert_reason, d.flag_reason));
    if lines.0 is Some {
        assert(said.0 == Some(lines.0->0@));
        assert(lines.0->0@.args =~= seq![
            ("reason"@, ArgView::Label(LabelView::Verbatim(d.revert_reason->0@))),
        ]);
    }
    if lines.1 is Some {
        assert(said.1 == Some(lines.1->0@));
        assert(lines.1->0@.args =~= seq![
            ("reason"@, ArgView::Label(LabelView::Verbatim(d.flag_reason->0@))),
        ]);
    }
}

/// What is searched for is held where one of the texts that are there holds it, in
/// whatever case these are.
pub proof fn a_text_that_is_there_is_searched(
    needle: &str,
    fields: &[Option<&str>],
    held: bool,
    i: int,
)
    requires
        call_ensures(matches, (needle, fields), held),
        0 <= i < fields@.len(),
    ensures
        fields@[i] is Some && text::has_part(foreign::lowercase(fields@[i]->0@), needle@) ==> held,
        (forall|k: int| 0 <= k < fields@.len() ==> (#[trigger] fields@[k]) is None) ==> !held,
        held ==> exists|k: int|
            0 <= k < fields@.len() && (#[trigger] fields@[k]) is Some && text::has_part(
                foreign::lowercase(fields@[k]->0@),
                needle@,
            ),
{
}

/// The tones: a merge that was carried out stands out in red and one that was put off in
/// amber; a sync that changed nothing is pale.
pub proof fn a_tone_tells_what_was_decided(
    outcome: &str,
    applied: bool,
    tone: &'static str,
    sync_tone: &'static str,
)
    requires
        call_ensures(outcome_tone, (outcome,), tone),
        call_ensures(action_tone, (applied,), sync_tone),
    ensures
        tone@ == "ik-pill vermilion"@ <==> outcome@ == "merged"@,
        tone@ == "ik-pill amber"@ <==> outcome@ == "deferred"@,
        sync_tone@ == "ik-pill ghost"@ <==> !applied,
{
    reveal_strlit("ik-pill");
    reveal_strlit("ik-pill vermilion");
    reveal_strlit("ik-pill amber");
    reveal_strlit("ik-pill ghost");
    reveal_strlit("merged");
    reveal_strlit("deferred");
    assert("ik-pill"@.len() == 7);
    assert("ik-pill vermilion"@.len() == 17);
    assert("ik-pill amber"@.len() == 13);
    assert("ik-pill ghost"@.len() == 13);
    assert("merged"@.len() == 6);
    assert("deferred"@.len() == 8);
}

} // verus!
