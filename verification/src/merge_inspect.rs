//! The inspector of one merge: why the pair scored as it did, what taking it back would
//! put back, and the two answers that settle it.

use crate::access::{Capabilities, Permission};
use crate::decisions::{self, MergeDecision};
use crate::foreign::{self, Json};
use crate::merge::SeriesId;
use crate::merges;
use crate::text;
use crate::wording::{ArgView, Label, LabelView, Phrase, PhraseView};
use vstd::prelude::*;

verus! {

broadcast use vstd::string::group_string_axioms;

/// The inspector's tabs.
#[derive(Debug, Clone, Copy, PartialEq, Eq, Structural)]
pub enum Tab {
    Why,
    Evidence,
    Trail,
}

impl Tab {
    pub const ALL: [Tab; 3] = [Tab::Why, Tab::Evidence, Tab::Trail];

    /// The token that a tab travels by.
    pub open spec fn token_text(self) -> Seq<char> {
        match self {
            Tab::Why => "why"@,
            Tab::Evidence => "evidence"@,
            Tab::Trail => "trail"@,
        }
    }

    /// What a token names; any other text is the default.
    pub open spec fn named_by(token: Seq<char>) -> Tab {
        if token == "evidence"@ {
            Tab::Evidence
        } else if token == "trail"@ {
            Tab::Trail
        } else {
            Tab::Why
        }
    }

    /// The token that a tab travels by.
    pub fn token(self) -> (r: &'static str)
        ensures
            r@ == self.token_text(),
    {
        match self {
            Tab::Why => "why",
            Tab::Evidence => "evidence",
            Tab::Trail => "trail",
        }
    }

    /// Reads a token; any other text is the default.
    pub fn parse(token: &str) -> (r: Tab)
        ensures
            r == Tab::named_by(token@),
    {
        if text::same(token, "evidence") {
            Tab::Evidence
        } else if text::same(token, "trail") {
            Tab::Trail
        } else {
            Tab::Why
        }
    }

    /// Each reads back from its token.
    pub proof fn token_reads_back(self)
        ensures
            Tab::named_by(self.token_text()) == self,
    {
        reveal_strlit("why");
        reveal_strlit("evidence");
        reveal_strlit("trail");
        assert("why"@.len() == 3);
        assert("evidence"@.len() == 8);
        assert("trail"@.len() == 5);
    }

    /// The catalogue key of its display name.
    pub fn label_key(self) -> (r: &'static str)
        ensures
            r@ == (match self {
                Tab::Why => "console.merges.tab.why"@,
                Tab::Evidence => "console.merges.tab.evidence"@,
                Tab::Trail => "console.merges.tab.trail"@,
            }),
    {
        match self {
            Tab::Why => "console.merges.tab.why",
            Tab::Evidence => "console.merges.tab.evidence",
            Tab::Trail => "console.merges.tab.trail",
        }
    }
}

/// Which of a pair stayed and which stopped existing, with the titles of then.
#[derive(Debug, PartialEq, Eq)]
pub struct Sides {
    pub survivor_id: Option<SeriesId>,
    pub survivor_title: String,
    pub absorbed_id: Option<SeriesId>,
    pub absorbed_title: String,
}

impl Sides {
    /// The two sides of a merge.
    pub fn of(d: &MergeDecision) -> (r: Sides)
        ensures
            r.survivor_id == d.survivor_id,
            r.absorbed_id == d.absorbed_id,
            r.survivor_title@ == (if merges::left_absorbed(*d) {
                d.right_title@
            } else {
                d.left_title@
            }),
            r.absorbed_title@ == (if merges::left_absorbed(*d) {
                d.left_title@
            } else {
                d.right_title@
            }),
    {
        let left = match d.absorbed_id {
            Some(id) => id == d.left_id,
            None => false,
        };
        let (survivor_title, absorbed_title) = if left {
            (d.right_title.clone(), d.left_title.clone())
        } else {
            (d.left_title.clone(), d.right_title.clone())
        };
        Sides {
            survivor_id: d.survivor_id,
            survivor_title,
            absorbed_id: d.absorbed_id,
            absorbed_title,
        }
    }
}

/// The id of a merge, in words.
pub fn id_words(d: &MergeDecision) -> (r: Phrase)
    ensures
        r@ == PhraseView::plain("console.merges.mergeId"@).verbatim(
            "id"@,
            foreign::hyphenated(d.id),
        ),
{
    Phrase::plain("console.merges.mergeId").verbatim("id", foreign::write_uuid(d.id).as_str())
}

/// The badges of a merge: whether it stands, and whether it was called wrong.
pub fn badges(d: &MergeDecision) -> (r: (&'static str, bool))
    ensures
        r.0@ == (if d.reverted_at is Some {
            "console.merges.badge.reverted"@
        } else {
            "console.merges.badge.merged"@
        }),
        r.1 == d.flagged_at is Some,
{
    let standing = if d.reverted_at.is_some() {
        "console.merges.badge.reverted"
    } else {
        "console.merges.badge.merged"
    };
    (standing, d.flagged_at.is_some())
}

/// What became of the absorbed id.
pub fn absorbed_id_key(d: &MergeDecision) -> (r: &'static str)
    ensures
        r@ == (if d.reverted_at is Some {
            "console.merges.idResolvesAgain"@
        } else {
            "console.merges.idGone"@
        }),
{
    if d.reverted_at.is_some() {
        "console.merges.idResolvesAgain"
    } else {
        "console.merges.idGone"
    }
}

/// One side of a pair, as it was when the pair was merged.
#[derive(Debug, PartialEq, Eq)]
pub struct SideFacts {
    pub id: SeriesId,
    pub title: String,
    pub release_year: Option<i64>,
    pub sources: Option<i64>,
    pub chapters: Option<i64>,
    pub watchers: Option<i64>,
}

/// One side of a pair, as its characters.
#[verifier::ext_equal]
pub struct FactsView {
    pub id: SeriesId,
    pub title: Seq<char>,
    pub release_year: Option<i64>,
    pub sources: Option<i64>,
    pub chapters: Option<i64>,
    pub watchers: Option<i64>,
}

impl View for SideFacts {
    type V = FactsView;

    open spec fn view(&self) -> FactsView {
        FactsView {
            id: self.id,
            title: self.title@,
            release_year: self.release_year,
            sources: self.sources,
            chapters: self.chapters,
            watchers: self.watchers,
        }
    }
}

/// Whether a recorded side is the series with a given id.
pub open spec fn is_side(side: Json, id: SeriesId) -> bool {
    decisions::text_field(side, "id"@) == Some(foreign::hyphenated(id.0))
}

/// The side of the stored evidence that is the series with a given id, where there is one.
pub open spec fn side_in(evidence: Json, id: SeriesId) -> Option<Json> {
    if evidence.field("left"@) is Some && is_side(evidence.field("left"@)->0, id) {
        evidence.field("left"@)
    } else if evidence.field("right"@) is Some && is_side(evidence.field("right"@)->0, id) {
        evidence.field("right"@)
    } else {
        None
    }
}

/// The whole number in a field, where a record has it and it is one.
pub open spec fn whole_field(v: Json, name: Seq<char>) -> Option<i64> {
    match v.field(name) {
        Some(found) => found.as_whole(),
        None => None,
    }
}

/// What a recorded side says.
pub open spec fn facts_of(side: Json, id: SeriesId) -> FactsView {
    FactsView {
        id,
        title: match decisions::text_field(side, "title"@) {
            Some(title) => title,
            None => ""@,
        },
        release_year: whole_field(side, "release_year"@),
        sources: whole_field(side, "sources"@),
        chapters: whole_field(side, "chapters"@),
        watchers: whole_field(side, "watchers"@),
    }
}

fn read_whole(v: &serde_json::Value, name: &str) -> (r: Option<i64>)
    ensures
        r == whole_field(foreign::json_of(*v), name@),
{
    match foreign::field(v, name) {
        Some(found) => found.as_i64(),
        None => None,
    }
}

fn named_side(side: &serde_json::Value, id: SeriesId) -> (r: bool)
    ensures
        r == is_side(foreign::json_of(*side), id),
{
    match decisions::read_text(side, "id") {
        Some(found) => {
            let wanted = foreign::write_uuid(id.0);
            text::same(found, wanted.as_str())
        },
        None => false,
    }
}

fn facts(side: &serde_json::Value, id: SeriesId) -> (r: SideFacts)
    ensures
        r@ == facts_of(foreign::json_of(*side), id),
{
    SideFacts {
        id,
        title: match decisions::read_text(side, "title") {
            Some(title) => title.to_owned(),
            None => "".to_owned(),
        },
        release_year: read_whole(side, "release_year"),
        sources: read_whole(side, "sources"),
        chapters: read_whole(side, "chapters"),
        watchers: read_whole(side, "watchers"),
    }
}

/// One side of the stored evidence, found by its id. It is read out of the evidence, since
/// the absorbed id resolves no more.
pub fn side_facts(d: &MergeDecision, id: SeriesId) -> (r: Option<SideFacts>)
    ensures
        (match r {
            Some(f) => Some(f@),
            None => None,
        }) == (match side_in(foreign::json_of(d.evidence), id) {
            Some(side) => Some(facts_of(side, id)),
            None => None,
        }),
{
    if let Some(left) = foreign::field(&d.evidence, "left") {
        if named_side(left, id) {
            return Some(facts(left, id));
        }
    }
    if let Some(right) = foreign::field(&d.evidence, "right") {
        if named_side(right, id) {
            return Some(facts(right, id));
        }
    }
    None
}

/// Both sides of the stored evidence: the one that stayed, and the one that was absorbed.
pub fn both_records(d: &MergeDecision) -> (r: (Option<SideFacts>, Option<SideFacts>))
    ensures
        (match r.0 {
            Some(f) => Some(f@),
            None => None,
        }) == (match d.survivor_id {
            Some(id) => match side_in(foreign::json_of(d.evidence), id) {
                Some(side) => Some(facts_of(side, id)),
                None => None,
            },
            None => None,
        }),
        (match r.1 {
            Some(f) => Some(f@),
            None => None,
        }) == (match d.absorbed_id {
            Some(id) => match side_in(foreign::json_of(d.evidence), id) {
                Some(side) => Some(facts_of(side, id)),
                None => None,
            },
            None => None,
        }),
{
    let survivor = match d.survivor_id {
        Some(id) => side_facts(d, id),
        None => None,
    };
    let absorbed = match d.absorbed_id {
        Some(id) => side_facts(d, id),
        None => None,
    };
    (survivor, absorbed)
}

/// How a card names a series: its id, and the year where it is known.
pub fn identity(facts: &SideFacts) -> (r: String)
    ensures
        r@ == (match facts.release_year {
            Some(year) => foreign::hyphenated(facts.id.0) + " · "@ + text::signed_decimal(
                year as int,
            ),
            None => foreign::hyphenated(facts.id.0),
        }),
{
    let mut out = foreign::write_uuid(facts.id.0);
    if let Some(year) = facts.release_year {
        let written = text::print_i64(year);
        out.append(" · ");
        out.append(written.as_str());
    }
    out
}

/// The counts that a card shows, each where it is known.
pub open spec fn tally_words(key: Seq<char>, count: Option<i64>) -> Seq<PhraseView> {
    match count {
        Some(n) => seq![PhraseView::plural(key, n)],
        None => Seq::empty(),
    }
}

/// The counts that a card shows: sources, chapters and watchers, each where it is known.
pub fn tallies(facts: &SideFacts) -> (r: Vec<Phrase>)
    ensures
        Seq::new(r@.len(), |i: int| r@[i]@) == tally_words(
            "console.merges.sourceTally"@,
            facts.sources,
        ) + tally_words("console.merges.chapterTally"@, facts.chapters) + tally_words(
            "console.merges.watcherTally"@,
            facts.watchers,
        ),
{
    let mut out: Vec<Phrase> = Vec::new();
    if let Some(n) = facts.sources {
        out.push(Phrase::plural("console.merges.sourceTally", n));
    }
    if let Some(n) = facts.chapters {
        out.push(Phrase::plural("console.merges.chapterTally", n));
    }
    if let Some(n) = facts.watchers {
        out.push(Phrase::plural("console.merges.watcherTally", n));
    }
    assert(Seq::new(out@.len(), |i: int| out@[i]@) =~= tally_words(
        "console.merges.sourceTally"@,
        facts.sources,
    ) + tally_words("console.merges.chapterTally"@, facts.chapters) + tally_words(
        "console.merges.watcherTally"@,
        facts.watchers,
    ));
    out
}

/// What the pill of the undo says.
pub fn undo_pill(d: &MergeDecision) -> (r: &'static str)
    ensures
        r@ == (if d.revertible {
            "console.merges.journalIntact"@
        } else {
            "console.merges.undoSpent"@
        }),
{
    if d.revertible {
        "console.merges.journalIntact"
    } else {
        "console.merges.undoSpent"
    }
}

/// The wording of a part of an undo, or its own name.
pub fn segment_label(kind: &str) -> (r: Label)
    ensures
        r@ == LabelView::token_under("console.merges.segment."@, kind@),
{
    Label::token_under("console.merges.segment.", kind)
}

/// A line of the trail.
#[derive(Debug, PartialEq, Eq)]
pub struct TrailLine {
    pub what: &'static str,
    pub at: Option<String>,
    pub note: Option<Label>,
}

/// A line of the trail, as its characters.
#[verifier::ext_equal]
pub struct TrailView {
    pub what: Seq<char>,
    pub at: Option<Seq<char>>,
    pub note: Option<LabelView>,
}

impl View for TrailLine {
    type V = TrailView;

    open spec fn view(&self) -> TrailView {
        TrailView {
            what: self.what@,
            at: text::view_of(self.at),
            note: match self.note {
                Some(label) => Some(label@),
                None => None,
            },
        }
    }
}

/// The line of something that was done at an instant, for a reason where one was given.
pub open spec fn done_line(what: Seq<char>, at: Option<String>, why: Option<String>) -> Seq<
    TrailView,
> {
    match at {
        Some(at) => seq![
            TrailView {
                what,
                at: Some(at@),
                note: match why {
                    Some(why) => Some(LabelView::Verbatim(why@)),
                    None => None,
                },
            },
        ],
        None => Seq::empty(),
    }
}

/// The line of the sweep that a decision belongs to.
pub open spec fn sweep_line(sweep: Option<u128>) -> Seq<TrailView> {
    match sweep {
        Some(id) => seq![
            TrailView {
                what: "console.merges.trail.sweep"@,
                at: None,
                note: Some(LabelView::Verbatim(foreign::hyphenated(id))),
            },
        ],
        None => Seq::empty(),
    }
}

/// Who did what to a decision.
pub open spec fn trail_of(d: MergeDecision) -> Seq<TrailView> {
    seq![
        TrailView {
            what: "console.merges.trail.decided"@,
            at: Some(d.decided_at@),
            note: Some(LabelView::Worded(merges::trigger_words(d.trigger@))),
        },
    ] + sweep_line(d.sweep_id) + done_line(
        "console.merges.trail.flagged"@,
        d.flagged_at,
        d.flag_reason,
    ) + done_line("console.merges.trail.reverted"@, d.reverted_at, d.revert_reason)
}

fn done_at(what: &'static str, at: &Option<String>, why: &Option<String>) -> (r: Option<TrailLine>)
    ensures
        match r {
            Some(line) => done_line(what@, *at, *why) == seq![line@],
            None => done_line(what@, *at, *why) == Seq::<TrailView>::empty(),
        },
{
    match at {
        Some(at) => {
            let note = match why {
                Some(why) => Some(Label::Verbatim(why.clone())),
                None => None,
            };
            Some(TrailLine { what, at: Some(at.clone()), note })
        },
        None => None,
    }
}

/// Who did what to a decision, and the reason they gave.
pub fn trail(d: &MergeDecision) -> (r: Vec<TrailLine>)
    ensures
        Seq::new(r@.len(), |i: int| r@[i]@) == trail_of(*d),
{
    let mut out: Vec<TrailLine> = Vec::new();
    out.push(
        TrailLine {
            what: "console.merges.trail.decided",
            at: Some(d.decided_at.clone()),
            note: Some(Label::Worded(merges::trigger_key(d.trigger.as_str()))),
        },
    );
    if let Some(id) = d.sweep_id {
        out.push(
            TrailLine {
                what: "console.merges.trail.sweep",
                at: None,
                note: Some(Label::Verbatim(foreign::write_uuid(id))),
            },
        );
    }
    if let Some(line) = done_at("console.merges.trail.flagged", &d.flagged_at, &d.flag_reason) {
        out.push(line);
    }
    if let Some(line) = done_at("console.merges.trail.reverted", &d.reverted_at, &d.revert_reason) {
        out.push(line);
    }
    assert(Seq::new(out@.len(), |i: int| out@[i]@) =~= trail_of(*d));
    out
}

/// The reason that was given, or that there was none: a blank one is none.
pub open spec fn said(reason: Option<String>) -> LabelView {
    match reason {
        Some(why) => if text::trimmed(why@).len() > 0 {
            LabelView::Verbatim(why@)
        } else {
            LabelView::Worded("console.merges.noReason"@)
        },
        None => LabelView::Worded("console.merges.noReason"@),
    }
}

fn say(reason: &Option<String>) -> (r: Label)
    ensures
        r@ == said(*reason),
{
    if let Some(why) = reason {
        let given = text::trim(why.as_str());
        if !given.as_str().is_empty() {
            return Label::Verbatim(why.clone());
        }
    }
    Label::Worded("console.merges.noReason")
}

/// The record of a decision that has been answered; there is none while it stands. One
/// that was put back is told as that, whatever else was said of it.
pub open spec fn settled_words(d: MergeDecision) -> Option<PhraseView> {
    match (d.reverted_at, d.flagged_at) {
        (Some(at), _) => Some(
            PhraseView::plain("console.merges.wasReverted"@).since("when"@, Some(at@)).label(
                "reason"@,
                said(d.revert_reason),
            ),
        ),
        (None, Some(at)) => Some(
            PhraseView::plain("console.merges.wasFlagged"@).since("when"@, Some(at@)).label(
                "reason"@,
                said(d.flag_reason),
            ),
        ),
        (None, None) => None,
    }
}

/// The record of a decision that has been answered.
pub fn settled_line(d: &MergeDecision) -> (r: Option<Phrase>)
    ensures
        (match r {
            Some(p) => Some(p@),
            None => None,
        }) == settled_words(*d),
{
    match (&d.reverted_at, &d.flagged_at) {
        (Some(at), _) => Some(
            Phrase::plain("console.merges.wasReverted").since("when", Some(at.clone())).label(
                "reason",
                say(&d.revert_reason),
            ),
        ),
        (None, Some(at)) => Some(
            Phrase::plain("console.merges.wasFlagged").since("when", Some(at.clone())).label(
                "reason",
                say(&d.flag_reason),
            ),
        ),
        (None, None) => None,
    }
}

/// What stands where a merge is answered.
#[derive(Debug, PartialEq, Eq)]
pub enum UnmergeBlock {
    /// It was answered already: to offer the buttons again would write a second answer.
    Settled(Phrase),
    /// The reader may not answer it.
    Hidden,
    /// The reason field with its buttons. A merge whose undo is spent can only be called
    /// wrong.
    Open { body: Phrase, revert: Option<Phrase> },
}

/// What stands where a merge is answered.
pub fn unmerge_block(d: &MergeDecision, caps: &Capabilities) -> (r: UnmergeBlock)
    ensures
        match r {
            UnmergeBlock::Settled(line) => settled_words(*d) == Some(line@),
            UnmergeBlock::Hidden => settled_words(*d) is None && !caps.may(
                Permission::MergeRevert,
            ),
            UnmergeBlock::Open { body, revert } => {
                &&& settled_words(*d) is None
                &&& caps.may(Permission::MergeRevert)
                &&& body@ == (if d.revertible {
                    PhraseView::plain("console.merges.unmergeBody"@).grouped(
                        "rows"@,
                        d.undo_rows as int,
                    )
                } else {
                    PhraseView::plain("console.merges.spentBody"@)
                })
                &&& match revert {
                    Some(p) => d.revertible && p@ == PhraseView::plain(
                        "console.merges.unmergeCta"@,
                    ).grouped("rows"@, d.undo_rows as int),
                    None => !d.revertible,
                }
            },
        },
{
    if let Some(line) = settled_line(d) {
        return UnmergeBlock::Settled(line);
    }
    if !caps.can(Permission::MergeRevert) {
        return UnmergeBlock::Hidden;
    }
    if d.revertible {
        UnmergeBlock::Open {
            body: Phrase::plain("console.merges.unmergeBody").grouped("rows", d.undo_rows),
            revert: Some(Phrase::plain("console.merges.unmergeCta").grouped("rows", d.undo_rows)),
        }
    } else {
        UnmergeBlock::Open { body: Phrase::plain("console.merges.spentBody"), revert: None }
    }
}

/// A decision that was put back or called wrong is settled, and only such a one.
pub proof fn settled_iff_answered(d: MergeDecision)
    ensures
        settled_words(d) is Some == (d.reverted_at is Some || d.flagged_at is Some),
{
}

/// A decision that was put back or called wrong says so and offers nothing; one that was
/// not offers its block to a reader with the permission to put back, and to no other; the
/// undo is offered where it is there.
pub proof fn an_unmerge_is_offered_while_it_is_open(
    d: &MergeDecision,
    caps: &Capabilities,
    block: UnmergeBlock,
)
    requires
        call_ensures(unmerge_block, (d, caps), block),
    ensures
        block is Settled <==> d.reverted_at is Some || d.flagged_at is Some,
        block is Open <==> d.reverted_at is None && d.flagged_at is None
            && caps.permissions@.contains(Permission::MergeRevert),
        block matches UnmergeBlock::Open { body, revert } ==> (revert is Some <==> d.revertible)
            && (d.revertible ==> revert->0@.args.contains(
            ("rows"@, ArgView::Grouped(d.undo_rows as int)),
        )),
{
    if block is Open && d.revertible {
        assert(block->revert->0@.args[0] == ("rows"@, ArgView::Grouped(d.undo_rows as int)));
    }
}

/// What is said of a settled decision: that it was put back, where it was, and else that it
/// was called wrong, each with its own time and its own reason; a blank reason is none.
pub proof fn a_settled_decision_gives_its_own_reason(d: MergeDecision)
    ensures
        d.reverted_at is Some ==> settled_words(d)->0.key == "console.merges.wasReverted"@
            && settled_words(d)->0.args[0].1 == ArgView::Since(Some(d.reverted_at->0@)),
        d.reverted_at is None && d.flagged_at is Some ==> settled_words(d)->0.key
            == "console.merges.wasFlagged"@ && settled_words(d)->0.args[0].1 == ArgView::Since(
            Some(d.flagged_at->0@),
        ),
        d.reverted_at is Some && d.revert_reason is Some && text::trimmed(
            d.revert_reason->0@,
        ).len() > 0 ==> settled_words(d)->0.args[1].1 == ArgView::Label(
            LabelView::Verbatim(d.revert_reason->0@),
        ),
        d.reverted_at is None && d.flagged_at is Some && d.flag_reason is Some && text::trimmed(
            d.flag_reason->0@,
        ).len() > 0 ==> settled_words(d)->0.args[1].1 == ArgView::Label(
            LabelView::Verbatim(d.flag_reason->0@),
        ),
        d.reverted_at is Some && (d.revert_reason is None || text::trimmed(
            d.revert_reason->0@,
        ).len() == 0) ==> settled_words(d)->0.args[1].1 == ArgView::Label(
            LabelView::Worded("console.merges.noReason"@),
        ),
{
}

/// The sides of a decision: the absorbed one carries the title of the record that was
/// absorbed, the survivor the other, and the ids are those of the decision.
pub proof fn the_sides_carry_their_titles(d: &MergeDecision, sides: Sides)
    requires
        call_ensures(Sides::of, (d,), sides),
    ensures
        sides.survivor_id == d.survivor_id,
        sides.absorbed_id == d.absorbed_id,
        d.absorbed_id == Some(d.left_id) ==> sides.absorbed_title@ == d.left_title@
            && sides.survivor_title@ == d.right_title@,
        d.absorbed_id != Some(d.left_id) ==> sides.absorbed_title@ == d.right_title@
            && sides.survivor_title@ == d.left_title@,
{
}

/// A trail begins with the decision, at its time and with what triggered it, and goes on
/// with what came after: the sweep, the flag and the undo, each where there was one and in
/// this order.
pub proof fn a_trail_begins_with_the_decision(d: MergeDecision)
    ensures
        trail_of(d).len() == 1 + (if d.sweep_id is Some {
            1int
        } else {
            0
        }) + (if d.flagged_at is Some {
            1int
        } else {
            0
        }) + (if d.reverted_at is Some {
            1int
        } else {
            0
        }),
        trail_of(d)[0].what == "console.merges.trail.decided"@,
        trail_of(d)[0].at == Some(d.decided_at@),
        trail_of(d)[0].note == Some(
            LabelView::Worded(
                if d.trigger@ == "operator"@ {
                    "console.merges.byOperator"@
                } else {
                    "console.merges.bySweep"@
                },
            ),
        ),
        d.sweep_id is Some ==> trail_of(d)[1].what == "console.merges.trail.sweep"@
            && trail_of(d)[1].at is None && trail_of(d)[1].note == Some(
            LabelView::Verbatim(foreign::hyphenated(d.sweep_id->0)),
        ),
        d.reverted_at is Some ==> trail_of(d).last().what == "console.merges.trail.reverted"@
            && trail_of(d).last().at == Some(d.reverted_at->0@) && (d.revert_reason is Some
            ==> trail_of(d).last().note == Some(LabelView::Verbatim(d.revert_reason->0@))) && (
        d.revert_reason is None ==> trail_of(d).last().note is None),
        d.reverted_at is None && d.flagged_at is Some ==> trail_of(d).last().what
            == "console.merges.trail.flagged"@ && trail_of(d).last().at == Some(d.flagged_at->0@)
            && (d.flag_reason is Some ==> trail_of(d).last().note == Some(
            LabelView::Verbatim(d.flag_reason->0@),
        )) && (d.flag_reason is None ==> trail_of(d).last().note is None),
{
    let sweep = sweep_line(d.sweep_id);
    let flag = done_line("console.merges.trail.flagged"@, d.flagged_at, d.flag_reason);
    let undo = done_line("console.merges.trail.reverted"@, d.reverted_at, d.revert_reason);
    if undo.len() > 0 {
        assert(trail_of(d).last() == undo[0]);
    } else if flag.len() > 0 {
        assert(trail_of(d).last() == flag[0]);
    }
}

/// The record of a side is read where its id stands, on the left before the right, and
/// nowhere else in the evidence.
pub proof fn a_record_is_read_by_its_id(evidence: Json, id: SeriesId)
    ensures
        side_in(evidence, id) is Some ==> decisions::text_field(side_in(evidence, id)->0, "id"@)
            == Some(foreign::hyphenated(id.0)) && (side_in(evidence, id) == evidence.field(
            "left"@,
        ) || side_in(evidence, id) == evidence.field("right"@)),
        side_in(evidence, id) is None ==> forall|name: Seq<char>|
            (name == "left"@ || name == "right"@) && (#[trigger] evidence.field(name)) is Some
                ==> decisions::text_field(evidence.field(name)->0, "id"@) != Some(
                foreign::hyphenated(id.0),
            ),
{
}

/// What a record says of its side: its own title, year and figures, each from the field of
/// that name, and the id it was asked by.
pub proof fn a_record_gives_its_own_figures(side: Json, id: SeriesId)
    ensures
        facts_of(side, id).id == id,
        side.field("title"@) matches Some(Json::Text(title)) ==> facts_of(side, id).title == title,
        !(side.field("title"@) is Some && side.field("title"@)->0 is Text) ==> facts_of(
            side,
            id,
        ).title.len() == 0,
        side.field("release_year"@) matches Some(Json::Number(n, _)) ==> facts_of(
            side,
            id,
        ).release_year == n,
        side.field("sources"@) matches Some(Json::Number(n, _)) ==> facts_of(side, id).sources == n,
        side.field("chapters"@) matches Some(Json::Number(n, _)) ==> facts_of(side, id).chapters
            == n,
        side.field("watchers"@) matches Some(Json::Number(n, _)) ==> facts_of(side, id).watchers
            == n,
        side.field("watchers"@) is None ==> facts_of(side, id).watchers is None,
        side.field("chapters"@) is None ==> facts_of(side, id).chapters is None,
        side.field("sources"@) is None ==> facts_of(side, id).sources is None,
{
    reveal_strlit("");
    assert(""@.len() == 0);
}

/// Where both records carry the id, the left one is read.
pub proof fn the_left_record_is_read_first(evidence: Json, id: SeriesId)
    ensures
        evidence.field("left"@) is Some && decisions::text_field(evidence.field("left"@)->0, "id"@)
            == Some(foreign::hyphenated(id.0)) ==> side_in(evidence, id) == evidence.field(
            "left"@,
        ),
        evidence.field("right"@) is Some && decisions::text_field(
            evidence.field("right"@)->0,
            "id"@,
        ) == Some(foreign::hyphenated(id.0)) ==> side_in(evidence, id) is Some,
{
}

/// The tallies of a side are those that are known, in their order: its sources, its
/// chapters and its watchers, each with its own count.
pub proof fn only_known_tallies_are_told(facts: &SideFacts, told: Vec<Phrase>)
    requires
        call_ensures(tallies, (facts,), told),
    ensures
        told@.len() == (if facts.sources is Some {
            1int
        } else {
            0
        }) + (if facts.chapters is Some {
            1int
        } else {
            0
        }) + (if facts.watchers is Some {
            1int
        } else {
            0
        }),
        facts.sources is Some ==> told@[0]@.count == facts.sources && told@[0]@.key
            == "console.merges.sourceTally"@,
        facts.watchers is Some ==> told@.last()@.count == facts.watchers && told@.last()@.key
            == "console.merges.watcherTally"@,
        facts.sources is None && facts.chapters is Some ==> told@[0]@.count == facts.chapters
            && told@[0]@.key == "console.merges.chapterTally"@,
{
    let all = Seq::new(told@.len(), |i: int| told@[i]@);
    let a = tally_words("console.merges.sourceTally"@, facts.sources);
    let b = tally_words("console.merges.chapterTally"@, facts.chapters);
    let c = tally_words("console.merges.watcherTally"@, facts.watchers);
    assert(all == a + b + c);
    assert(all.len() == told@.len());
    if all.len() > 0 {
        assert(all[0] == told@[0]@);
        assert(all[all.len() - 1] == told@[told@.len() - 1]@);
    }
}

/// A side is told by its id, and by its year behind it where one is known.
pub proof fn a_side_is_told_by_its_id(facts: &SideFacts, told: String)
    requires
        call_ensures(identity, (facts,), told),
    ensures
        facts.release_year is None ==> told@ == foreign::hyphenated(facts.id.0),
        facts.release_year is Some ==> foreign::hyphenated(facts.id.0).is_prefix_of(told@) && told@
            == foreign::hyphenated(facts.id.0) + " · "@ + text::signed_decimal(
            facts.release_year->0 as int,
        ),
{
}

/// The badge tells a merge that stands from one that was put back, and apart from that
/// whether it was called wrong; the id of the absorbed record leads somewhere again only
/// once it was put back.
pub proof fn a_badge_tells_how_it_stands(
    d: &MergeDecision,
    badge: (&'static str, bool),
    id_key: &'static str,
    pill: &'static str,
)
    requires
        call_ensures(badges, (d,), badge),
        call_ensures(absorbed_id_key, (d,), id_key),
        call_ensures(undo_pill, (d,), pill),
    ensures
        badge.0@ == (if d.reverted_at is Some {
            "console.merges.badge.reverted"@
        } else {
            "console.merges.badge.merged"@
        }),
        badge.1 <==> d.flagged_at is Some,
        id_key@ == (if d.reverted_at is Some {
            "console.merges.idResolvesAgain"@
        } else {
            "console.merges.idGone"@
        }),
        pill@ == (if d.revertible {
            "console.merges.journalIntact"@
        } else {
            "console.merges.undoSpent"@
        }),
{
}

} // verus!
