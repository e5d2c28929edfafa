//! The merges that were made, and which of them the inspector opens.

use crate::decisions::MergeDecision;
use crate::foreign;
use crate::query::{self, ConsoleQuery, QueryView};
use crate::rows;
use crate::text;
use crate::wording::{ArgView, Phrase, PhraseView};
use vstd::prelude::*;

verus! {

broadcast use vstd::string::group_string_axioms;

/// Rows per page. The lenses and the search are the server's, so this sizes a page and
/// not the reach of the section.
pub const PAGE_SIZE: usize = 50;

/// How the list is narrowed.
#[derive(Debug, Clone, Copy, PartialEq, Eq, Structural)]
pub enum Lens {
    All,
    Reverted,
    Flagged,
    ByOperator,
}

impl Lens {
    pub const ALL: [Lens; 4] = [Lens::All, Lens::Reverted, Lens::Flagged, Lens::ByOperator];

    /// The token that a lens travels by.
    pub open spec fn token_text(self) -> Seq<char> {
        match self {
            Lens::All => ""@,
            Lens::Reverted => "reverted"@,
            Lens::Flagged => "flagged"@,
            Lens::ByOperator => "operator"@,
        }
    }

    /// What a token names; any other text is the default.
    pub open spec fn named_by(token: Seq<char>) -> Lens {
        if token == "reverted"@ {
            Lens::Reverted
        } else if token == "flagged"@ {
            Lens::Flagged
        } else if token == "operator"@ {
            Lens::ByOperator
        } else {
            Lens::All
        }
    }

    /// The token that a lens travels by.
    pub fn token(self) -> (r: &'static str)
        ensures
            r@ == self.token_text(),
    {
        match self {
            Lens::All => "",
            Lens::Reverted => "reverted",
            Lens::Flagged => "flagged",
            Lens::ByOperator => "operator",
        }
    }

    /// Reads a token; any other text is the default.
    pub fn parse(token: &str) -> (r: Lens)
        ensures
            r == Lens::named_by(token@),
    {
        if text::same(token, "reverted") {
            Lens::Reverted
        } else if text::same(token, "flagged") {
            Lens::Flagged
        } else if text::same(token, "operator") {
            Lens::ByOperator
        } else {
            Lens::All
        }
    }

    /// Each reads back from its token.
    pub proof fn token_reads_back(self)
        ensures
            Lens::named_by(self.token_text()) == self,
    {
        reveal_strlit("");
        reveal_strlit("reverted");
        reveal_strlit("flagged");
        reveal_strlit("operator");
        assert(""@.len() == 0);
        assert("reverted"@.len() == 8);
        assert("reverted"@[0] == 'r');
        assert("flagged"@.len() == 7);
        assert("operator"@.len() == 8);
        assert("operator"@[0] == 'o');
    }

    /// The catalogue key of its display name.
    pub fn label_key(self) -> (r: &'static str)
        ensures
            r@ == (match self {
                Lens::All => "console.merges.lens.all"@,
                Lens::Reverted => "console.merges.lens.reverted"@,
                Lens::Flagged => "console.merges.lens.flagged"@,
                Lens::ByOperator => "console.merges.lens.byOperator"@,
            }),
    {
        match self {
            Lens::All => "console.merges.lens.all",
            Lens::Reverted => "console.merges.lens.reverted",
            Lens::Flagged => "console.merges.lens.flagged",
            Lens::ByOperator => "console.merges.lens.byOperator",
        }
    }
}

/// What the inspector opens, before anything is fetched.
#[derive(Debug, Clone, Copy, PartialEq, Eq, Structural)]
pub enum Pick {
    /// A row of the page.
    Row(usize),
    /// A decision that the link names and the page does not hold: it is fetched by id.
    Fetch(u128),
    /// Nothing.
    Nothing,
}

/// The position on a page of the decision that a selection names, or the page's length.
pub open spec fn named_at(sel: Seq<char>, page: Seq<MergeDecision>) -> int {
    rows::first(page.len(), |i: int| foreign::hyphenated(page[i].id) == sel)
}

/// The first row of a page, where it has one.
pub open spec fn first_row(page: Seq<MergeDecision>) -> Pick {
    if page.len() == 0 {
        Pick::Nothing
    } else {
        Pick::Row(0)
    }
}

/// What the inspector opens for a selection and a page.
pub open spec fn picked(sel: Option<Seq<char>>, page: Seq<MergeDecision>) -> Pick {
    match sel {
        None => first_row(page),
        Some(sel) => if named_at(sel, page) < page.len() {
            Pick::Row(named_at(sel, page) as usize)
        } else {
            match foreign::uuid_named(sel) {
                Some(id) => Pick::Fetch(id as u128),
                None => first_row(page),
            }
        },
    }
}

/// What the inspector opens. A selection that is an id and not on the page is fetched, not
/// replaced by the first row; one that is no id at all falls back to it.
pub fn pick(sel: Option<&str>, page: &[MergeDecision]) -> (r: Pick)
    ensures
        r == picked(
            match sel {
                Some(sel) => Some(sel@),
                None => None,
            },
            page@,
        ),
{
    let first = if page.len() == 0 {
        Pick::Nothing
    } else {
        Pick::Row(0)
    };
    let wanted = match sel {
        Some(wanted) => wanted,
        None => {
            return first;
        },
    };
    let ghost test = |i: int| foreign::hyphenated(page@[i].id) == wanted@;
    let mut i: usize = 0;
    while i < page.len()
        invariant
            i <= page.len(),
            sel == Some(wanted),
            test == (|i: int| foreign::hyphenated(page@[i].id) == wanted@),
            forall|j: int| 0 <= j < i ==> !#[trigger] test(j),
        decreases page.len() - i,
    {
        let id = foreign::write_uuid(page[i].id);
        if text::same(id.as_str(), wanted) {
            proof {
                assert(test(i as int));
                rows::lemma_first(page@.len(), test, i as int);
            }
            return Pick::Row(i);
        }
        assert(!test(i as int));
        i = i + 1;
    }
    proof {
        rows::lemma_first(page@.len(), test, page@.len() as int);
    }
    match foreign::read_uuid(wanted) {
        Some(id) => Pick::Fetch(id),
        None => first,
    }
}

/// A link that names a decision opens that decision and no other: from the page, or by
/// fetching it.
pub proof fn a_named_decision_is_opened(id: u128, page: Seq<MergeDecision>)
    requires
        page.len() <= usize::MAX,
    ensures
        match picked(Some(foreign::hyphenated(id)), page) {
            Pick::Row(at) => at < page.len() && page[at as int].id == id,
            Pick::Fetch(fetched) => fetched == id,
            Pick::Nothing => false,
        },
{
    let sel = foreign::hyphenated(id);
    let test = |i: int| foreign::hyphenated(page[i].id) == sel;
    foreign::hyphenated_names_the_id(id);
    rows::lemma_first_holds(page.len(), test);
    let at = rows::first(page.len(), test);
    if at < page.len() {
        assert(test(at));
        foreign::hyphenated_is_unique(page[at].id, id);
    }
}

/// What the list of merges is asked for.
#[derive(Debug, PartialEq, Eq)]
pub struct MergesRequest {
    /// One row more than a page: the probe for the next one.
    pub limit: i64,
    pub offset: i64,
    pub lens: Lens,
    pub search: Option<String>,
}

/// What the list of merges is asked for in a view. Only what was merged is asked for: a
/// pair that was queued or declined has nothing to take back.
pub fn merges_request(view: &ConsoleQuery) -> (r: MergesRequest)
    ensures
        r.limit == PAGE_SIZE + 1,
        r.offset == view@.page * PAGE_SIZE,
        r.lens == Lens::named_by(query::value_or_empty(view@.status)),
        text::view_of(r.search) == query::present(text::trimmed(view@.q)),
{
    MergesRequest {
        limit: PAGE_SIZE as i64 + 1,
        offset: view.page as i64 * PAGE_SIZE as i64,
        lens: Lens::parse(view.status_token()),
        search: query::non_empty(text::trim(view.q.as_str())),
    }
}

/// How many of the rows that arrived are shown.
pub open spec fn shown_of(loaded: nat) -> nat {
    if loaded > PAGE_SIZE {
        PAGE_SIZE as nat
    } else {
        loaded
    }
}

/// A page of merges.
#[derive(Debug, Clone, Copy, PartialEq, Eq, Structural)]
pub struct Page {
    /// How many rows are shown.
    pub shown: usize,
    pub has_next: bool,
    /// How many of the rows shown can be taken back.
    pub reversible: usize,
}

/// The page that the rows that arrived make: the extra row is dropped, and says that there
/// is a next page.
pub fn page_of(loaded: &[MergeDecision]) -> (r: Page)
    ensures
        r.shown == shown_of(loaded@.len()),
        r.has_next == (loaded@.len() > PAGE_SIZE),
        r.reversible == rows::kept(
            shown_of(loaded@.len()),
            |i: int| loaded@[i].revertible,
        ).len(),
{
    let has_next = loaded.len() > PAGE_SIZE;
    let shown: usize = if has_next {
        PAGE_SIZE
    } else {
        loaded.len()
    };
    let ghost test = |i: int| loaded@[i].revertible;
    let mut reversible: usize = 0;
    let mut i: usize = 0;
    while i < shown
        invariant
            i <= shown <= loaded.len(),
            reversible <= i,
            test == (|i: int| loaded@[i].revertible),
            reversible == rows::kept(i as nat, test).len(),
        decreases shown - i,
    {
        if loaded[i].revertible {
            reversible = reversible + 1;
        }
        i = i + 1;
    }
    Page { shown, has_next, reversible }
}

/// What became of the decision that is fetched by id.
#[derive(Debug, Clone, Copy, PartialEq, Eq, Structural)]
pub enum Pinned {
    Loading,
    Found,
    Missing,
}

/// What the inspector shows.
#[derive(Debug, Clone, Copy, PartialEq, Eq, Structural)]
pub enum Inspected {
    /// The decision that the link names is on its way: nothing else flashes in its place.
    Loading,
    /// A row of the page.
    Row(usize),
    /// The decision that was fetched.
    Fetched,
    /// Nothing to show.
    Nothing,
}

/// What the inspector shows, of a page with so many rows.
pub fn inspected(wanted: Pick, pinned: Pinned, shown: usize) -> (r: Inspected)
    ensures
        r == (match wanted {
            Pick::Row(at) => if at < shown {
                Inspected::Row(at)
            } else {
                Inspected::Nothing
            },
            Pick::Nothing => Inspected::Nothing,
            Pick::Fetch(_) => match pinned {
                Pinned::Loading => Inspected::Loading,
                Pinned::Found => Inspected::Fetched,
                Pinned::Missing => if shown > 0 {
                    Inspected::Row(0)
                } else {
                    Inspected::Nothing
                },
            },
        }),
{
    match wanted {
        Pick::Row(at) => {
            if at < shown {
                Inspected::Row(at)
            } else {
                Inspected::Nothing
            }
        },
        Pick::Nothing => Inspected::Nothing,
        Pick::Fetch(_) => match pinned {
            Pinned::Loading => Inspected::Loading,
            Pinned::Found => Inspected::Fetched,
            Pinned::Missing => {
                if shown > 0 {
                    Inspected::Row(0)
                } else {
                    Inspected::Nothing
                }
            },
        },
    }
}

/// Whether the decision in the inspector is not on the page.
pub fn outside_page(selected: Option<u128>, page: &[MergeDecision]) -> (r: bool)
    ensures
        r == (selected is Some && forall|i: int|
            0 <= i < page@.len() ==> (#[trigger] page@[i]).id != selected->0),
{
    match selected {
        None => false,
        Some(id) => {
            let mut i: usize = 0;
            while i < page.len()
                invariant
                    i <= page.len(),
                    selected == Some(id),
                    forall|j: int| 0 <= j < i ==> (#[trigger] page@[j]).id != id,
                decreases page.len() - i,
            {
                if page[i].id == id {
                    return false;
                }
                i = i + 1;
            }
            true
        },
    }
}

/// The line under the list: which rows it shows and how many can be taken back; none for an
/// empty list.
pub fn summary(page: u32, shown: usize, reversible: usize) -> (r: Option<Phrase>)
    requires
        shown <= PAGE_SIZE,
        reversible <= shown,
    ensures
        match r {
            Some(p) => shown > 0 && p@ == PhraseView::plain("console.merges.count"@).number(
                "first"@,
                page * PAGE_SIZE + 1,
            ).number("last"@, page * PAGE_SIZE + shown).number("reversible"@, reversible as int),
            None => shown == 0,
        },
{
    if shown == 0 {
        return None;
    }
    let first: i64 = page as i64 * PAGE_SIZE as i64;
    Some(
        Phrase::plain("console.merges.count").number("first", first + 1).number(
            "last",
            first + shown as i64,
        ).number("reversible", reversible as i64),
    )
}

/// The count beside the search.
pub fn hits(shown: usize, has_next: bool) -> (r: Phrase)
    ensures
        r@ == PhraseView::plural(
            if has_next {
                "console.merges.hitsMore"@
            } else {
                "console.merges.hits"@
            },
            if shown <= i64::MAX {
                shown as i64
            } else {
                0
            },
        ),
{
    let count: i64 = crate::provider::row_count(shown);
    if has_next {
        Phrase::plural("console.merges.hitsMore", count)
    } else {
        Phrase::plural("console.merges.hits", count)
    }
}

/// The view through another lens: nothing selected, back on the first page.
pub fn choose_lens(view: &ConsoleQuery, lens: Lens) -> (r: ConsoleQuery)
    ensures
        r@ == (QueryView {
            status: if lens is All {
                None
            } else {
                Some(lens.token_text())
            },
            sel: None,
            page: 0,
            ..view@
        }),
{
    let mut next = view.clone();
    next.status = match lens {
        Lens::All => None,
        _ => Some(lens.token().to_owned()),
    };
    next.sel = None;
    next.page = 0;
    next
}

/// A lens that is picked is the lens that the next request goes through.
pub proof fn picked_lens_is_asked_for(lens: Lens)
    ensures
        Lens::named_by(
            query::value_or_empty(
                if lens is All {
                    None
                } else {
                    Some(lens.token_text())
                },
            ),
        ) == lens,
{
    lens.token_reads_back();
    reveal_strlit("");
    assert(""@ =~= Seq::<char>::empty());
}

/// A row of the list.
#[derive(Debug, PartialEq, Eq)]
pub struct RowFace {
    pub class: &'static str,
    pub survivor: String,
    pub absorbed: String,
    /// What the row says of the absorbed series.
    pub verb: &'static str,
    /// What is left of the undo.
    pub undo: Phrase,
    pub trigger: &'static str,
}

/// Whether the left series of a pair is the one that was absorbed.
pub open spec fn left_absorbed(d: MergeDecision) -> bool {
    d.absorbed_id == Some(d.left_id)
}

/// What is left of an undo, in words.
pub open spec fn undo_words(d: MergeDecision) -> PhraseView {
    if d.reverted_at is Some {
        PhraseView::plain("console.merges.restoredRows"@).grouped("rows"@, d.undo_rows as int)
    } else if d.revertible {
        PhraseView::plain("console.merges.pendingRows"@).grouped("rows"@, d.undo_rows as int)
    } else {
        PhraseView::plain("console.merges.undoSpent"@)
    }
}

/// The catalogue key of what made a decision: an operator, or else a sweep of some kind.
pub open spec fn trigger_words(trigger: Seq<char>) -> Seq<char> {
    if trigger == "operator"@ {
        "console.merges.byOperator"@
    } else {
        "console.merges.bySweep"@
    }
}

/// The catalogue key of what made a decision.
pub fn trigger_key(trigger: &str) -> (r: &'static str)
    ensures
        r@ == trigger_words(trigger@),
{
    if text::same(trigger, "operator") {
        "console.merges.byOperator"
    } else {
        "console.merges.bySweep"
    }
}

/// A row of the list: the series that stayed leads, the one that was absorbed follows.
pub fn row_face(d: &MergeDecision, selected: bool) -> (r: RowFace)
    ensures
        r.class@ == (if selected {
            "ik-cons-row selected"@
        } else if d.reverted_at is Some {
            "ik-cons-row dim"@
        } else {
            "ik-cons-row"@
        }),
        r.survivor@ == (if left_absorbed(*d) {
            d.right_title@
        } else {
            d.left_title@
        }),
        r.absorbed@ == (if left_absorbed(*d) {
            d.left_title@
        } else {
            d.right_title@
        }),
        r.verb@ == (if d.reverted_at is Some {
            "console.merges.putBack"@
        } else {
            "console.merges.absorbedVerb"@
        }),
        r.undo@ == undo_words(*d),
        r.trigger@ == trigger_words(d.trigger@),
{
    let reverted = d.reverted_at.is_some();
    let left = match d.absorbed_id {
        Some(id) => id == d.left_id,
        None => false,
    };
    let (survivor, absorbed) = if left {
        (d.right_title.clone(), d.left_title.clone())
    } else {
        (d.left_title.clone(), d.right_title.clone())
    };
    let undo = if reverted {
        Phrase::plain("console.merges.restoredRows").grouped("rows", d.undo_rows)
    } else if d.revertible {
        Phrase::plain("console.merges.pendingRows").grouped("rows", d.undo_rows)
    } else {
        Phrase::plain("console.merges.undoSpent")
    };
    RowFace {
        class: if selected {
            "ik-cons-row selected"
        } else if reverted {
            "ik-cons-row dim"
        } else {
            "ik-cons-row"
        },
        survivor,
        absorbed,
        verb: if reverted {
            "console.merges.putBack"
        } else {
            "console.merges.absorbedVerb"
        },
        undo,
        trigger: trigger_key(d.trigger.as_str()),
    }
}

/// What a link opens. A decision of the page that it names is opened, the first of that
/// id; one that the page does not hold is fetched by its id; a link that names none, or
/// that is no id, opens the first row, and an empty page nothing.
pub proof fn a_link_opens_what_it_names(
    sel: &str,
    page: &[MergeDecision],
    linked: Pick,
    plain: Pick,
)
    requires
        page@.len() <= usize::MAX,
        call_ensures(pick, (Some(sel), page), linked),
        call_ensures(pick, (None, page), plain),
    ensures
        linked matches Pick::Row(at) ==> at < page@.len(),
        linked matches Pick::Fetch(id) ==> foreign::uuid_named(sel@) is Some && id
            == foreign::uuid_named(sel@)->0 as u128,
        linked is Fetch ==> forall|i: int|
            0 <= i < page@.len() ==> foreign::hyphenated((#[trigger] page@[i]).id) != sel@,
        forall|i: int|
            #![trigger page@[i]]
            0 <= i < page@.len() && foreign::hyphenated(page@[i].id) == sel@ ==> (linked
                matches Pick::Row(at) && at <= i && page@[at as int].id == page@[i].id),
        foreign::uuid_named(sel@) is None ==> linked == plain || linked is Row,
        page@.len() == 0 ==> plain is Nothing,
        page@.len() > 0 ==> plain == Pick::Row(0),
        linked is Nothing ==> page@.len() == 0,
{
    let test = |i: int| foreign::hyphenated(page@[i].id) == sel@;
    rows::lemma_first_holds(page@.len(), test);
    let at = rows::first(page@.len(), test);
    assert(at == named_at(sel@, page@));
    if at == page@.len() {
        assert forall|i: int| 0 <= i < page@.len() implies foreign::hyphenated(
            (#[trigger] page@[i]).id,
        ) != sel@ by {
            assert(!test(i));
        }
    } else {
        assert(test(at));
        assert forall|i: int|
            #![trigger page@[i]]
            0 <= i < page@.len() && foreign::hyphenated(page@[i].id) == sel@ implies at <= i
            && page@[at].id == page@[i].id by {
            foreign::hyphenated_is_unique(page@[at].id, page@[i].id);
            if i < at {
                rows::none_passes_before_the_first(page@.len(), test, i);
            }
        }
    }
}

/// The list is asked for one row more than a page shows, from where the pages before it
/// end, for the lens that the status names and for the search without the blanks round it.
pub proof fn a_page_is_asked_for_with_one_to_spare(view: &ConsoleQuery, sent: MergesRequest)
    requires
        call_ensures(merges_request, (view,), sent),
    ensures
        sent.limit == 51,
        sent.offset == 50 * view.page,
        sent.lens is Reverted <==> view.status is Some && view.status->0@ == "reverted"@,
        sent.lens is Flagged <==> view.status is Some && view.status->0@ == "flagged"@,
        sent.lens is ByOperator <==> view.status is Some && view.status->0@ == "operator"@,
        sent.search is Some <==> text::trimmed(view.q@).len() > 0,
        sent.search is Some ==> sent.search->0@ == text::trimmed(view.q@),
{
    reveal_strlit("");
    reveal_strlit("reverted");
    reveal_strlit("flagged");
    reveal_strlit("operator");
    assert(""@.len() == 0);
    assert("reverted"@.len() == 8 && "reverted"@[0] == 'r');
    assert("flagged"@.len() == 7);
    assert("operator"@.len() == 8 && "operator"@[0] == 'o');
}

/// The row to spare is never shown: it only tells that there is a next page. Of what is
/// shown, those that can be taken back are counted, each once.
pub proof fn the_spare_row_tells_of_the_next_page(loaded: &[MergeDecision], page: Page)
    requires
        call_ensures(page_of, (loaded,), page),
    ensures
        loaded@.len() <= 50 ==> page.shown == loaded@.len() && !page.has_next,
        loaded@.len() > 50 ==> page.shown == 50 && page.has_next,
        page.reversible <= page.shown,
        (forall|i: int| 0 <= i < page.shown ==> (#[trigger] loaded@[i]).revertible)
            ==> page.reversible == page.shown,
        (forall|i: int| 0 <= i < page.shown ==> !(#[trigger] loaded@[i]).revertible)
            ==> page.reversible == 0,
{
    let test = |i: int| loaded@[i].revertible;
    let n = shown_of(loaded@.len());
    rows::kept_are_those_that_pass(n, test);
    if forall|i: int| 0 <= i < page.shown ==> (#[trigger] loaded@[i]).revertible {
        assert forall|i: int| 0 <= i < n implies #[trigger] test(i) by {
            assert(loaded@[i].revertible);
        }
        rows::all_are_kept(n, test);
    }
    if forall|i: int| 0 <= i < page.shown ==> !(#[trigger] loaded@[i]).revertible {
        if rows::kept(n, test).len() > 0 {
            let k = rows::kept(n, test)[0];
            assert(test(k));
            assert(!loaded@[k].revertible);
        }
    }
}

/// What the inspector shows: a wanted row where the page still has it; a fetched decision
/// once it is there, and while it is not the first row where it is missing.
pub proof fn the_inspector_shows_what_is_wanted(
    at: usize,
    id: u128,
    pinned: Pinned,
    shown: usize,
    row: Inspected,
    fetched: Inspected,
    nothing: Inspected,
)
    requires
        call_ensures(inspected, (Pick::Row(at), pinned, shown), row),
        call_ensures(inspected, (Pick::Fetch(id), pinned, shown), fetched),
        call_ensures(inspected, (Pick::Nothing, pinned, shown), nothing),
    ensures
        at < shown ==> row == Inspected::Row(at),
        at >= shown ==> row is Nothing,
        nothing is Nothing,
        fetched is Loading <==> pinned is Loading,
        fetched is Fetched <==> pinned is Found,
        pinned is Missing && shown > 0 ==> fetched == Inspected::Row(0),
        pinned is Missing && shown == 0 ==> fetched is Nothing,
{
}

/// A lens that is chosen is the one that is then asked for; the choice closes the open
/// decision, starts the list over and leaves the rest of the address alone.
pub proof fn a_chosen_lens_is_asked_for(
    view: &ConsoleQuery,
    lens: Lens,
    chosen: ConsoleQuery,
    sent: MergesRequest,
)
    requires
        call_ensures(choose_lens, (view, lens), chosen),
        call_ensures(merges_request, (&chosen,), sent),
    ensures
        sent.lens == lens,
        sent.offset == 0,
        chosen@.sel is None,
        chosen@.page == 0,
        (QueryView { status: view@.status, sel: view@.sel, page: view@.page, ..chosen@ }) == view@,
{
    lens.token_reads_back();
    picked_lens_is_asked_for(lens);
}

/// A row names both sides of its decision: the side that was absorbed, and the other as
/// the one that survived.
pub proof fn a_row_names_both_sides(d: &MergeDecision, selected: bool, face: RowFace)
    requires
        call_ensures(row_face, (d, selected), face),
    ensures
        d.absorbed_id == Some(d.left_id) ==> face.absorbed@ == d.left_title@ && face.survivor@
            == d.right_title@,
        d.absorbed_id != Some(d.left_id) ==> face.absorbed@ == d.right_title@ && face.survivor@
            == d.left_title@,
        face.verb@ == (if d.reverted_at is Some {
            "console.merges.putBack"@
        } else {
            "console.merges.absorbedVerb"@
        }),
        selected ==> face.class@ == "ik-cons-row selected"@,
        !selected && d.reverted_at is Some ==> face.class@ == "ik-cons-row dim"@,
        face.trigger@ == (if d.trigger@ == "operator"@ {
            "console.merges.byOperator"@
        } else {
            "console.merges.bySweep"@
        }),
        face.undo@.key == (if d.reverted_at is Some {
            "console.merges.restoredRows"@
        } else if d.revertible {
            "console.merges.pendingRows"@
        } else {
            "console.merges.undoSpent"@
        }),
        d.reverted_at is Some || d.revertible ==> face.undo@.args.len() == 1
            && face.undo@.args[0].1 == ArgView::Grouped(d.undo_rows as int),
{
}

/// A summary counts from the first row of its page, over all the pages before it, to the
/// last that is shown; an empty page has none.
pub proof fn a_summary_counts_over_the_pages(
    page: u32,
    shown: usize,
    reversible: usize,
    line: Option<Phrase>,
)
    requires
        shown <= 50,
        reversible <= shown,
        call_ensures(summary, (page, shown, reversible), line),
    ensures
        line is Some <==> shown > 0,
        line is Some ==> line->0@.args == seq![
            ("first"@, ArgView::Number(50 * page + 1)),
            ("last"@, ArgView::Number(50 * page + shown)),
            ("reversible"@, ArgView::Number(reversible as int)),
        ],
{
    if line is Some {
        assert(line->0@.args =~= seq![
            ("first"@, ArgView::Number(50 * page + 1)),
            ("last"@, ArgView::Number(50 * page + shown)),
            ("reversible"@, ArgView::Number(reversible as int)),
        ]);
    }
}

} // verus!
