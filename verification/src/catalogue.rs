//! What is in the catalogue, and the rows that an operator ticks to take out of it.

use crate::access::{Capabilities, Permission};
use crate::audit::PageWindow;
use crate::merge::SeriesId;
use crate::notice::{self, Attempt, AttemptView, Notice, NoticeView, Reply};
use crate::query::{self, ConsoleQuery, QueryView};
use crate::text;
use crate::wording::{ArgView, Phrase, PhraseView};
use std::collections::HashSet;
use vstd::prelude::*;

verus! {

broadcast use {
    vstd::string::group_string_axioms,
    vstd::std_specs::hash::group_hash_axioms,
};

/// Rows per page.
pub const PAGE_SIZE: i64 = 50;

/// Whether the reader may take series out: only then are rows ticked, and only then is
/// there a bar and a danger zone.
pub fn may_delete(caps: &Capabilities) -> (r: bool)
    ensures
        r == caps.may(Permission::CatalogueDelete),
{
    caps.can(Permission::CatalogueDelete)
}

/// Which series are listed.
#[derive(Debug, Clone, Copy, PartialEq, Eq, Structural)]
pub enum HealthFilter {
    Any,
    /// Those that no provider carries.
    Orphaned,
    /// Those without a chapter.
    Empty,
}

/// The token that a filter travels by in a link: `Any` is the absence of one.
pub open spec fn token_of(health: HealthFilter) -> Seq<char> {
    match health {
        HealthFilter::Any => ""@,
        HealthFilter::Orphaned => "orphaned"@,
        HealthFilter::Empty => "empty"@,
    }
}

/// The filter that a token names; any other text is all series.
pub open spec fn health_named(token: Seq<char>) -> HealthFilter {
    if token == "orphaned"@ {
        HealthFilter::Orphaned
    } else if token == "empty"@ {
        HealthFilter::Empty
    } else {
        HealthFilter::Any
    }
}

/// The filter that a token names. A link can be edited by hand, so an unknown token widens
/// the list and does not refuse the link.
pub fn health_from_token(token: &str) -> (r: HealthFilter)
    ensures
        r == health_named(token@),
{
    if text::same(token, "orphaned") {
        HealthFilter::Orphaned
    } else if text::same(token, "empty") {
        HealthFilter::Empty
    } else {
        HealthFilter::Any
    }
}

/// The token that a filter travels by.
pub fn health_token(health: HealthFilter) -> (r: &'static str)
    ensures
        r@ == token_of(health),
{
    match health {
        HealthFilter::Any => "",
        HealthFilter::Orphaned => "orphaned",
        HealthFilter::Empty => "empty",
    }
}

/// Every filter reads back from its token.
pub proof fn health_reads_back(health: HealthFilter)
    ensures
        health_named(token_of(health)) == health,
{
    reveal_strlit("");
    reveal_strlit("orphaned");
    reveal_strlit("empty");
    assert(""@.len() == 0);
    assert("orphaned"@.len() == 8);
    assert("empty"@.len() == 5);
}

/// What the list is asked for.
#[derive(Debug, PartialEq, Eq)]
pub struct CatalogueRequest {
    pub limit: i64,
    pub offset: i64,
    pub health: HealthFilter,
    pub search: Option<String>,
    pub provider: Option<String>,
}

/// A text, where it is not blank.
pub open spec fn unless_blank(t: Seq<char>) -> Option<Seq<char>> {
    if text::trimmed(t).len() > 0 {
        Some(t)
    } else {
        None
    }
}

fn keep_unless_blank(t: &str) -> (r: Option<String>)
    ensures
        text::view_of(r) == unless_blank(t@),
{
    let given = text::trim(t);
    if given.as_str().is_empty() {
        None
    } else {
        Some(t.to_owned())
    }
}

/// What the list is asked for in a view.
pub fn catalogue_request(view: &ConsoleQuery) -> (r: CatalogueRequest)
    ensures
        r.limit == PAGE_SIZE,
        r.offset == view@.page * PAGE_SIZE,
        r.health == health_named(query::value_or_empty(view@.status)),
        text::view_of(r.search) == unless_blank(view@.q),
        text::view_of(r.provider) == (match view@.provider {
            Some(slug) => unless_blank(slug),
            None => None,
        }),
{
    CatalogueRequest {
        limit: PAGE_SIZE,
        offset: view.page as i64 * PAGE_SIZE,
        health: health_from_token(view.status_token()),
        search: keep_unless_blank(view.q.as_str()),
        provider: match &view.provider {
            Some(slug) => keep_unless_blank(slug.as_str()),
            None => None,
        },
    }
}

/// How many series answer to the filter, in words.
pub fn hits_words(total: i64) -> (r: Phrase)
    ensures
        r@ == PhraseView::plural("console.catalogue.hits"@, total),
{
    Phrase::plural("console.catalogue.hits", total)
}

/// Where the page of a view stands in the whole.
pub fn page_window(page: u32, rows: usize, total: i64) -> (r: PageWindow)
    ensures
        r.offset == page * PAGE_SIZE,
        r.page_len == (if rows <= i64::MAX {
            rows as int
        } else {
            0
        }),
        r.total == total,
{
    PageWindow {
        offset: page as i64 * PAGE_SIZE,
        page_len: crate::provider::row_count(rows),
        total,
    }
}

/// The view with another provider; a blank one is every provider.
pub fn choose_provider(view: &ConsoleQuery, slug: &str) -> (r: ConsoleQuery)
    ensures
        r@ == (QueryView { provider: unless_blank(slug@), page: 0, ..view@ }),
{
    let mut next = view.clone();
    next.provider = keep_unless_blank(slug);
    next.page = 0;
    next
}

/// The view with another filter; the empty token is no filter.
pub fn choose_health(view: &ConsoleQuery, token: String) -> (r: ConsoleQuery)
    ensures
        r@ == (QueryView { status: query::present(token@), page: 0, ..view@ }),
{
    let mut next = view.clone();
    next.status = query::non_empty(token);
    next.page = 0;
    next
}

/// What narrows the list: the search, the provider and the filter, but not the page.
#[verifier::ext_equal]
pub struct Narrowing {
    pub q: Seq<char>,
    pub provider: Seq<char>,
    pub health: HealthFilter,
}

/// What narrows the list in a view.
pub open spec fn narrowing(view: QueryView) -> Narrowing {
    Narrowing {
        q: view.q,
        provider: query::value_or_empty(view.provider),
        health: health_named(query::value_or_empty(view.status)),
    }
}

/// The rows that are ticked, by id: the page under a selection can be read again, and a
/// position would then point at whatever moved there.
#[derive(Debug)]
pub struct Selection {
    q: String,
    provider: String,
    health: HealthFilter,
    picked: HashSet<u128>,
}

/// The rows that are ticked, and what narrowed the list that they were ticked in.
#[verifier::ext_equal]
pub struct SelectionView {
    pub seen: Narrowing,
    pub picked: Set<u128>,
}

impl View for Selection {
    type V = SelectionView;

    closed spec fn view(&self) -> SelectionView {
        SelectionView {
            seen: Narrowing { q: self.q@, provider: self.provider@, health: self.health },
            picked: self.picked@,
        }
    }
}

impl SelectionView {
    /// The selection once a view is on screen: a change of what narrows the list clears it,
    /// so that no delete is aimed at rows that the operator can no longer see.
    pub open spec fn followed(self, view: QueryView) -> SelectionView {
        SelectionView {
            seen: narrowing(view),
            picked: if narrowing(view) == self.seen {
                self.picked
            } else {
                Set::empty()
            },
        }
    }

    /// How many rows are ticked, as far as an `i64` can tell.
    pub open spec fn count(self) -> i64 {
        if self.picked.len() <= i64::MAX {
            self.picked.len() as i64
        } else {
            i64::MAX
        }
    }

    /// The selection with a row ticked or not.
    pub open spec fn marked(self, id: u128, ticked: bool) -> SelectionView {
        SelectionView {
            picked: if ticked {
                self.picked.insert(id)
            } else {
                self.picked.remove(id)
            },
            ..self
        }
    }

    /// The selection with every row of a page ticked or not.
    pub open spec fn page_marked(self, ids: Seq<u128>, ticked: bool) -> SelectionView {
        SelectionView {
            picked: if ticked {
                self.picked.union(ids.to_set())
            } else {
                self.picked.difference(ids.to_set())
            },
            ..self
        }
    }
}

impl Selection {
    /// Nothing ticked, in a view.
    pub fn new(view: &ConsoleQuery) -> (r: Selection)
        ensures
            r@ == (SelectionView { seen: narrowing(view@), picked: Set::empty() }),
    {
        Selection {
            q: view.q.clone(),
            provider: match &view.provider {
                Some(slug) => slug.clone(),
                None => "".to_owned(),
            },
            health: health_from_token(view.status_token()),
            picked: HashSet::new(),
        }
    }

    /// Follows the view that is on screen.
    pub fn follow(&mut self, view: &ConsoleQuery)
        ensures
            final(self)@ == old(self)@.followed(view@),
    {
        let provider = match &view.provider {
            Some(slug) => slug.clone(),
            None => "".to_owned(),
        };
        let health = health_from_token(view.status_token());
        let unchanged = text::same(self.q.as_str(), view.q.as_str()) && text::same(
            self.provider.as_str(),
            provider.as_str(),
        ) && self.health == health;
        if !unchanged {
            self.picked.clear();
            self.q = view.q.clone();
            self.provider = provider;
            self.health = health;
        }
        assert(self@ =~= old(self)@.followed(view@));
    }

    /// Whether a row is ticked.
    pub fn has(&self, id: SeriesId) -> (r: bool)
        ensures
            r == self@.picked.contains(id.0),
    {
        self.picked.contains(&id.0)
    }

    /// How many rows are ticked.
    pub fn count(&self) -> (r: i64)
        ensures
            r == self@.count(),
    {
        let n: u64 = self.picked.len() as u64;
        if n <= i64::MAX as u64 {
            n as i64
        } else {
            i64::MAX
        }
    }

    /// How many rows are ticked, in words.
    pub fn words(&self) -> (r: Phrase)
        ensures
            r@ == PhraseView::plural("console.catalogue.selected"@, self@.count()),
    {
        Phrase::plural("console.catalogue.selected", self.count())
    }

    /// What a deletion of the ticked rows would take with it, in words.
    pub fn radius(&self) -> (r: Phrase)
        ensures
            r@ == PhraseView::plural("console.catalogue.deleteRadius"@, self@.count()),
    {
        Phrase::plural("console.catalogue.deleteRadius", self.count())
    }

    /// Ticks a row or not.
    pub fn mark(&mut self, id: SeriesId, ticked: bool)
        ensures
            final(self)@ == old(self)@.marked(id.0, ticked),
    {
        if ticked {
            self.picked.insert(id.0);
        } else {
            self.picked.remove(&id.0);
        }
    }

    /// A press anywhere on a row: it turns the tick over, where rows can be ticked at all.
    pub fn press(&mut self, id: SeriesId, selectable: bool)
        ensures
            final(self)@ == (if selectable {
                old(self)@.marked(id.0, !old(self)@.picked.contains(id.0))
            } else {
                old(self)@
            }),
    {
        if selectable {
            let ticked = self.has(id);
            self.mark(id, !ticked);
        }
    }

    /// Ticks every row of a page or none.
    pub fn mark_page(&mut self, ids: &[u128], ticked: bool)
        ensures
            final(self)@ == old(self)@.page_marked(ids@, ticked),
    {
        let ghost before = self@;
        let mut i: usize = 0;
        assert(ids@.take(0).to_set() =~= Set::empty());
        assert(self@ =~= before.page_marked(ids@.take(0), ticked));
        while i < ids.len()
            invariant
                i <= ids.len(),
                self@ == before.page_marked(ids@.take(i as int), ticked),
            decreases ids.len() - i,
        {
            let ghost earlier = self@;
            self.mark(SeriesId(ids[i]), ticked);
            proof {
                let next = ids@.take(i + 1);
                let sofar = ids@.take(i as int);
                assert(next == sofar.push(ids@[i as int]));
                assert(next.to_set() =~= sofar.to_set().insert(ids@[i as int])) by {
                    assert forall|id: u128| next.contains(id) implies sofar.contains(id) || id
                        == ids@[i as int] by {}
                    assert forall|id: u128| sofar.contains(id) implies next.contains(id) by {
                        let at = choose|k: int| 0 <= k < sofar.len() && sofar[k] == id;
                        assert(next[at] == id);
                    }
                    assert(next[i as int] == ids@[i as int]);
                }
                assert(self@ =~= before.page_marked(next, ticked));
            }
            i = i + 1;
        }
        assert(ids@.take(ids@.len() as int) == ids@);
    }

    /// Whether every row of a page is ticked: not of an empty page.
    pub fn has_page(&self, ids: &[u128]) -> (r: bool)
        ensures
            r == (ids@.len() > 0 && forall|i: int|
                0 <= i < ids@.len() ==> self@.picked.contains(#[trigger] ids@[i])),
    {
        let mut i: usize = 0;
        while i < ids.len()
            invariant
                i <= ids.len(),
                forall|j: int| 0 <= j < i ==> self@.picked.contains(#[trigger] ids@[j]),
            decreases ids.len() - i,
        {
            if !self.has(SeriesId(ids[i])) {
                assert(!self@.picked.contains(ids@[i as int]));
                return false;
            }
            i = i + 1;
        }
        ids.len() > 0
    }

    /// Unticks every row.
    pub fn clear(&mut self)
        ensures
            final(self)@ == (SelectionView { picked: Set::empty(), ..old(self)@ }),
    {
        self.picked.clear();
    }

    /// The ids that are ticked, each once, in no particular order.
    pub fn ids(&self) -> (r: Vec<u128>)
        ensures
            r@.to_set() == self@.picked,
            r@.no_duplicates(),
            r@.len() == self@.picked.len(),
    {
        let mut out: Vec<u128> = Vec::new();
        for id in it: self.picked.iter()
            invariant
                out@ == it.seq().unref().take(it.index() as int),
                it.seq().unref().to_set() == self.picked@,
                it.seq().no_duplicates(),
                it.seq().len() == self.picked@.len(),
                out@.len() == self.picked@.len() ==> out@.to_set() == self.picked@,
        {
            out.push(*id);
            assert(out@ =~= it.seq().unref().take(it.index() + 1));
            assert(out@.len() == self.picked@.len() ==> out@ =~= it.seq().unref());
        }
        out
    }
}

/// Ticks survive the paging of the list: a page is no part of what narrows it.
pub proof fn paging_keeps_the_ticks(s: SelectionView, view: QueryView, page: u32)
    requires
        s.seen == narrowing(view),
    ensures
        s.followed(QueryView { page, ..view }) == s,
{
}

/// Every change of what narrows the list clears the ticks.
pub proof fn narrowing_clears_the_ticks(s: SelectionView, view: QueryView)
    requires
        narrowing(view) != s.seen,
    ensures
        s.followed(view).picked == Set::<u128>::empty(),
{
}

/// A view that differs from the one followed before in its search text, in its provider,
/// where none is the empty one, or in whether it asks for the orphaned or for the empty
/// series, leaves no tick; and each of the three is enough alone.
pub proof fn each_change_of_the_list_clears_the_ticks(
    s: SelectionView,
    before: QueryView,
    after: QueryView,
)
    requires
        ({
            ||| before.q != after.q
            ||| (match before.provider {
                Some(slug) => slug,
                None => Seq::<char>::empty(),
            }) != (match after.provider {
                Some(slug) => slug,
                None => Seq::<char>::empty(),
            })
            ||| (before.status == Some("orphaned"@)) != (after.status == Some("orphaned"@))
            ||| (before.status == Some("empty"@)) != (after.status == Some("empty"@))
        }),
    ensures
        s.followed(before).followed(after).picked == Set::<u128>::empty(),
        (SelectionView { seen: narrowing(before), picked: s.picked }).followed(after).picked
            == Set::<u128>::empty(),
{
    reveal_strlit("");
    reveal_strlit("orphaned");
    reveal_strlit("empty");
    assert(""@ =~= Seq::<char>::empty());
    assert("orphaned"@.len() == 8);
    assert("empty"@.len() == 5);
}

/// A view that changes none of the three keeps every tick, however else it differs: the
/// page, the row that is open and the order leave the ticks alone, and so does a status
/// that names no filter in place of another.
pub proof fn the_same_list_keeps_the_ticks(s: SelectionView, before: QueryView, after: QueryView)
    requires
        before.q == after.q,
        (match before.provider {
            Some(slug) => slug,
            None => Seq::<char>::empty(),
        }) == (match after.provider {
            Some(slug) => slug,
            None => Seq::<char>::empty(),
        }),
        (before.status == Some("orphaned"@)) == (after.status == Some("orphaned"@)),
        (before.status == Some("empty"@)) == (after.status == Some("empty"@)),
    ensures
        s.followed(before).followed(after).picked == s.followed(before).picked,
        (SelectionView { seen: narrowing(before), picked: s.picked }).followed(after).picked
            == s.picked,
{
    reveal_strlit("");
    reveal_strlit("orphaned");
    reveal_strlit("empty");
    assert(""@ =~= Seq::<char>::empty());
    assert("orphaned"@.len() == 8);
    assert("empty"@.len() == 5);
}

/// A tick changes the row it is on and no other, and moves nothing that narrows the list.
pub proof fn a_tick_is_of_one_row(s: SelectionView, id: u128, other: u128, ticked: bool)
    ensures
        s.marked(id, ticked).picked.contains(id) == ticked,
        other != id ==> s.marked(id, ticked).picked.contains(other) == s.picked.contains(other),
        s.marked(id, ticked).seen == s.seen,
{
}

/// Ticking a page leaves the rows of other pages as they were.
pub proof fn other_pages_keep_their_ticks(
    s: SelectionView,
    ids: Seq<u128>,
    other: u128,
    ticked: bool,
)
    requires
        !ids.contains(other),
    ensures
        s.page_marked(ids, ticked).picked.contains(other) == s.picked.contains(other),
        s.page_marked(ids, ticked).seen == s.seen,
{
    assert(!ids.to_set().contains(other));
}

/// A page that was ticked as a whole is ticked, and one that was unticked has no tick left.
pub proof fn a_page_is_marked_as_a_whole(s: SelectionView, ids: Seq<u128>, id: u128)
    requires
        ids.contains(id),
    ensures
        s.page_marked(ids, true).picked.contains(id),
        !s.page_marked(ids, false).picked.contains(id),
{
    assert(ids.to_set().contains(id));
}

/// What a delete took out.
#[derive(Debug, Clone, Copy, PartialEq, Eq, Structural)]
pub struct DeleteReport {
    pub series: i64,
    pub chapters: i64,
    pub watchlist_entries: i64,
}

/// The bar over the list: how many rows are ticked, and what can be done to them.
#[derive(Debug, PartialEq, Eq)]
pub struct BulkBar {
    pub attempt: Attempt,
    /// Whether the question whether to delete stands.
    pub confirming: bool,
}

/// The bar as its characters.
#[verifier::ext_equal]
pub struct BulkView {
    pub attempt: AttemptView,
    pub confirming: bool,
}

impl View for BulkBar {
    type V = BulkView;

    open spec fn view(&self) -> BulkView {
        BulkView { attempt: self.attempt@, confirming: self.confirming }
    }
}

impl BulkBar {
    /// The bar as it appears.
    pub fn new() -> (r: BulkBar)
        ensures
            r@ == (BulkView { attempt: AttemptView::idle(), confirming: false }),
    {
        BulkBar { attempt: Attempt::idle(), confirming: false }
    }

    /// Whether the bar is shown: only over a selection.
    pub fn is_shown(selection: &Selection) -> (r: bool)
        ensures
            r == (selection@.picked.len() > 0),
    {
        selection.count() != 0
    }

    /// Picks from the menu. It launches a command and is no setting: only "delete" asks.
    pub fn choose_action(&mut self, chosen: &str)
        ensures
            final(self)@ == (BulkView {
                confirming: old(self)@.confirming || chosen@ == "delete"@,
                ..old(self)@
            }),
    {
        if text::same(chosen, "delete") {
            self.confirming = true;
        }
    }

    /// Withdraws the question.
    pub fn cancel(&mut self)
        ensures
            final(self)@ == (BulkView { confirming: false, ..old(self)@ }),
    {
        self.confirming = false;
    }

    /// Unticks every row, and withdraws the question.
    pub fn clear(&mut self, selection: &mut Selection)
        ensures
            final(self)@ == (BulkView { confirming: false, ..old(self)@ }),
            final(selection)@ == (SelectionView { picked: Set::empty(), ..old(selection)@ }),
    {
        selection.clear();
        self.confirming = false;
    }

    /// Confirms: the ids to delete, exactly those that are ticked, unless another request
    /// is under way.
    pub fn confirm(&mut self, selection: &Selection) -> (r: Option<Vec<u128>>)
        ensures
            r is Some == !old(self)@.attempt.busy,
            r is Some ==> r->0@.to_set() == selection@.picked && r->0@.no_duplicates(),
            final(self)@ == (BulkView { attempt: old(self)@.attempt.claimed(), ..old(self)@ }),
    {
        if self.attempt.claim() {
            Some(selection.ids())
        } else {
            None
        }
    }

    /// Takes the reply. `true` where the list is to be read again; the ticks are then gone.
    pub fn deleted(
        &mut self,
        selection: &mut Selection,
        reply: Reply,
        report: DeleteReport,
    ) -> (r: bool)
        ensures
            r == (reply is Done),
            final(selection)@ == (if reply is Done {
                SelectionView { picked: Set::empty(), ..old(selection)@ }
            } else {
                old(selection)@
            }),
            final(self)@ == (BulkView {
                attempt: AttemptView {
                    busy: false,
                    outcome: notice::after_reply(
                        old(self)@.attempt.outcome,
                        reply,
                        Some(
                            NoticeView::Good(
                                PhraseView::plain("console.catalogue.deleted"@).grouped(
                                    "series"@,
                                    report.series as int,
                                ).grouped("chapters"@, report.chapters as int).grouped(
                                    "watchers"@,
                                    report.watchlist_entries as int,
                                ),
                            ),
                        ),
                    ),
                },
                confirming: old(self)@.confirming && !(reply is Done),
            }),
    {
        match reply {
            Reply::Done => {
                self.attempt.settle_with(
                    Notice::Good(
                        Phrase::plain("console.catalogue.deleted").grouped(
                            "series",
                            report.series,
                        ).grouped("chapters", report.chapters).grouped(
                            "watchers",
                            report.watchlist_entries,
                        ),
                    ),
                );
                selection.clear();
                self.confirming = false;
                true
            },
            Reply::StepUp => {
                self.attempt.settle(None);
                false
            },
            Reply::Failed(why) => {
                self.attempt.settle(Some(why));
                false
            },
        }
    }

    /// The second factor was presented: the operator is told to try again.
    pub fn stepped_up(&mut self)
        ensures
            final(self)@ == (BulkView {
                attempt: AttemptView {
                    outcome: Some(NoticeView::Good(PhraseView::plain("stepUp.confirmedRetry"@))),
                    ..old(self)@.attempt
                },
                ..old(self)@
            }),
    {
        self.attempt.outcome = Some(Notice::Good(Phrase::plain("stepUp.confirmedRetry")));
    }
}

/// A series, as a row shows it.
#[derive(Debug, PartialEq, Eq)]
pub struct CatalogueRow {
    pub id: SeriesId,
    pub title: String,
    pub providers: Vec<String>,
    pub chapter_count: i64,
    pub watcher_count: i64,
}

/// A row's looks.
#[derive(Debug, PartialEq, Eq)]
pub struct RowFace {
    pub class: &'static str,
    pub label: Phrase,
    /// Whether no provider carries the series.
    pub orphaned: bool,
    pub watchers_class: &'static str,
}

/// A row's looks.
pub fn row_face(entry: &CatalogueRow, ticked: bool) -> (r: RowFace)
    ensures
        r.class@ == (if ticked {
            "ik-row-pick selected"@
        } else {
            "ik-row-pick"@
        }),
        r.label@ == PhraseView::plain("console.catalogue.select"@).verbatim(
            "title"@,
            entry.title@,
        ),
        r.orphaned == (entry.providers@.len() == 0),
        r.watchers_class@ == (if entry.watcher_count > 0 {
            "ik-mono"@
        } else {
            "ik-mono ik-muted"@
        }),
{
    RowFace {
        class: if ticked {
            "ik-row-pick selected"
        } else {
            "ik-row-pick"
        },
        label: Phrase::plain("console.catalogue.select").verbatim("title", entry.title.as_str()),
        orphaned: entry.providers.len() == 0,
        watchers_class: if entry.watcher_count > 0 {
            "ik-mono"
        } else {
            "ik-mono ik-muted"
        },
    }
}

/// What the catalogue holds in all.
#[derive(Debug, Clone, Copy, PartialEq, Eq, Structural)]
pub struct CatalogueSummary {
    pub series_total: i64,
    pub sources_total: i64,
    pub chapters_total: i64,
    pub orphaned_series: i64,
    pub empty_series: i64,
    pub watchlist_entries: i64,
    pub progress_rows: i64,
}

/// A total: its catalogue key, its figure, and whether it wants attention.
#[derive(Debug, PartialEq, Eq)]
pub struct Total {
    pub label: &'static str,
    pub value: i64,
    pub warn: bool,
}

/// A total as its characters.
#[verifier::ext_equal]
pub struct TotalView {
    pub label: Seq<char>,
    pub value: i64,
    pub warn: bool,
}

impl View for Total {
    type V = TotalView;

    open spec fn view(&self) -> TotalView {
        TotalView { label: self.label@, value: self.value, warn: self.warn }
    }
}

/// The totals over the list. Series without a provider or without a chapter want attention.
pub open spec fn totals_of(s: CatalogueSummary) -> Seq<TotalView> {
    seq![
        TotalView {
            label: "console.catalogue.stat.series"@,
            value: s.series_total,
            warn: false,
        },
        TotalView {
            label: "console.catalogue.stat.sources"@,
            value: s.sources_total,
            warn: false,
        },
        TotalView {
            label: "console.catalogue.stat.chapters"@,
            value: s.chapters_total,
            warn: false,
        },
        TotalView {
            label: "console.catalogue.stat.orphaned"@,
            value: s.orphaned_series,
            warn: s.orphaned_series > 0,
        },
        TotalView {
            label: "console.catalogue.stat.empty"@,
            value: s.empty_series,
            warn: s.empty_series > 0,
        },
    ]
}

/// The totals over the list.
pub fn totals(s: CatalogueSummary) -> (r: Vec<Total>)
    ensures
        Seq::new(r@.len(), |i: int| r@[i]@) == totals_of(s),
{
    let mut out: Vec<Total> = Vec::new();
    out.push(
        Total { label: "console.catalogue.stat.series", value: s.series_total, warn: false },
    );
    out.push(
        Total { label: "console.catalogue.stat.sources", value: s.sources_total, warn: false },
    );
    out.push(
        Total { label: "console.catalogue.stat.chapters", value: s.chapters_total, warn: false },
    );
    out.push(
        Total {
            label: "console.catalogue.stat.orphaned",
            value: s.orphaned_series,
            warn: s.orphaned_series > 0,
        },
    );
    out.push(
        Total {
            label: "console.catalogue.stat.empty",
            value: s.empty_series,
            warn: s.empty_series > 0,
        },
    );
    assert(Seq::new(out@.len(), |i: int| out@[i]@) =~= totals_of(s));
    out
}

/// Following a view and then another: a change of the search text, of the provider, where
/// none is the empty one, or of whether the orphaned or the empty series are asked for
/// leaves no tick, each of them alone, and nothing else takes one away.
pub proof fn ticks_last_as_long_as_the_list(
    first: &mut Selection,
    second: &mut Selection,
    before: &ConsoleQuery,
    after: &ConsoleQuery,
)
    requires
        call_ensures(Selection::follow, (first, before), ()),
        call_ensures(Selection::follow, (second, after), ()),
    ensures
        final(first)@ == old(second)@ ==> final(second)@.picked == (if before.q@ == after.q@
            && (match before.provider {
            Some(slug) => slug@,
            None => Seq::<char>::empty(),
        }) == (match after.provider {
            Some(slug) => slug@,
            None => Seq::<char>::empty(),
        }) && (before.status is Some && before.status->0@ == "orphaned"@) == (after.status is Some
            && after.status->0@ == "orphaned"@) && (before.status is Some && before.status->0@
            == "empty"@) == (after.status is Some && after.status->0@ == "empty"@) {
            final(first)@.picked
        } else {
            Set::empty()
        }),
{
    let old_view = before@;
    let new_view = after@;
    if final(first)@ == old(second)@ {
        if old_view.q == new_view.q && (match old_view.provider {
            Some(slug) => slug,
            None => Seq::<char>::empty(),
        }) == (match new_view.provider {
            Some(slug) => slug,
            None => Seq::<char>::empty(),
        }) && (old_view.status == Some("orphaned"@)) == (new_view.status == Some("orphaned"@)) && (
        old_view.status == Some("empty"@)) == (new_view.status == Some("empty"@)) {
            the_same_list_keeps_the_ticks(old(first)@, old_view, new_view);
        } else {
            each_change_of_the_list_clears_the_ticks(old(first)@, old_view, new_view);
        }
    }
}

/// The list is asked for a page of fifty that begins where the pages before it end, for
/// the filter that the status names, and for the search and the provider where they are
/// not blank, as they stand.
pub proof fn the_list_is_asked_for_what_is_on_screen(view: &ConsoleQuery, sent: CatalogueRequest)
    requires
        call_ensures(catalogue_request, (view,), sent),
    ensures
        sent.limit == 50,
        sent.offset == 50 * view.page,
        sent.health is Orphaned <==> view.status is Some && view.status->0@ == "orphaned"@,
        sent.health is Empty <==> view.status is Some && view.status->0@ == "empty"@,
        sent.search is Some <==> text::trimmed(view.q@).len() > 0,
        sent.search is Some ==> sent.search->0@ == view.q@,
        sent.provider is Some <==> view.provider is Some && text::trimmed(
            view.provider->0@,
        ).len() > 0,
        sent.provider is Some ==> sent.provider->0@ == view.provider->0@,
{
    reveal_strlit("");
    reveal_strlit("orphaned");
    reveal_strlit("empty");
    assert(""@.len() == 0);
    assert("orphaned"@.len() == 8);
    assert("empty"@.len() == 5);
}

/// A choice of provider or of filter starts the list over and changes nothing else; what
/// was chosen is what the list is then asked for.
pub proof fn a_choice_starts_the_list_over(
    view: &ConsoleQuery,
    slug: &str,
    by_provider: ConsoleQuery,
    health: HealthFilter,
    token: &'static str,
    chosen: String,
    by_health: ConsoleQuery,
    sent: CatalogueRequest,
)
    requires
        call_ensures(choose_provider, (view, slug), by_provider),
        call_ensures(health_token, (health,), token),
        chosen@ == token@,
        call_ensures(choose_health, (view, chosen), by_health),
        call_ensures(catalogue_request, (&by_health,), sent),
    ensures
        by_provider@.page == 0,
        by_provider@.provider is Some <==> text::trimmed(slug@).len() > 0,
        by_provider@.provider is Some ==> by_provider@.provider->0 == slug@,
        (QueryView { provider: view@.provider, page: view@.page, ..by_provider@ }) == view@,
        by_health@.page == 0,
        (QueryView { status: view@.status, page: view@.page, ..by_health@ }) == view@,
        sent.health == health,
        sent.offset == 0,
{
    health_reads_back(health);
    reveal_strlit("");
    reveal_strlit("orphaned");
    reveal_strlit("empty");
    assert(""@.len() == 0);
    assert("orphaned"@.len() == 8);
    assert("empty"@.len() == 5);
}

/// Where the page of a view stands: as far in as the list was asked for, with the rows and
/// the total that came back.
pub proof fn a_page_stands_where_it_was_asked_for(
    view: &ConsoleQuery,
    rows: usize,
    total: i64,
    sent: CatalogueRequest,
    window: PageWindow,
)
    requires
        rows <= i64::MAX,
        call_ensures(catalogue_request, (view,), sent),
        call_ensures(page_window, (view.page, rows, total), window),
    ensures
        window.offset == sent.offset,
        window.page_len == rows,
        window.total == total,
{
}

/// A selection begins with nothing ticked, in the view that it begins in: following that
/// view keeps what is ticked meanwhile.
pub proof fn a_selection_begins_empty(view: &ConsoleQuery, new: Selection, later: &mut Selection)
    requires
        call_ensures(Selection::new, (view,), new),
        call_ensures(Selection::follow, (later, view), ()),
    ensures
        new@.picked == Set::<u128>::empty(),
        old(later)@.seen == new@.seen ==> final(later)@ == old(later)@,
{
}

/// A press turns the tick of its row over, and that of no other row; where rows cannot be
/// ticked it does nothing.
pub proof fn a_press_turns_one_tick_over(
    s: &mut Selection,
    id: SeriesId,
    selectable: bool,
    other: u128,
)
    requires
        call_ensures(Selection::press, (s, id, selectable), ()),
    ensures
        selectable ==> final(s)@.picked.contains(id.0) != old(s)@.picked.contains(id.0),
        !selectable || other != id.0 ==> final(s)@.picked.contains(other)
            == old(s)@.picked.contains(other),
        final(s)@.seen == old(s)@.seen,
{
}

/// What a confirmed deletion sends: the id of every row that is ticked, and no other, each
/// once; while one is under way it sends nothing.
pub proof fn a_deletion_takes_what_is_ticked(
    bar: &mut BulkBar,
    selection: &Selection,
    sent: Option<Vec<u128>>,
    id: u128,
)
    requires
        call_ensures(BulkBar::confirm, (bar, selection), sent),
    ensures
        sent is None <==> old(bar)@.attempt.busy,
        sent is Some ==> (sent->0@.contains(id) <==> selection@.picked.contains(id)),
        sent is Some ==> sent->0@.no_duplicates(),
        sent is Some ==> final(bar)@.attempt.busy && final(bar)@.attempt.outcome is None,
        final(bar)@.confirming == old(bar)@.confirming,
{
    if sent is Some {
        assert(sent->0@.to_set().contains(id) == sent->0@.contains(id));
    }
}

/// The reply to a deletion: only one that went through unticks the rows, closes the
/// question and has the list read again; in any case the bar can be pressed again.
pub proof fn only_a_deletion_that_went_through_unticks(
    bar: &mut BulkBar,
    selection: &mut Selection,
    reply: Reply,
    report: DeleteReport,
    read_again: bool,
)
    requires
        call_ensures(BulkBar::deleted, (bar, selection, reply, report), read_again),
    ensures
        read_again <==> reply is Done,
        !final(bar)@.attempt.busy,
        final(selection)@.seen == old(selection)@.seen,
        reply is Done ==> final(selection)@.picked == Set::<u128>::empty()
            && !final(bar)@.confirming,
        !(reply is Done) ==> final(selection)@ == old(selection)@ && final(bar)@.confirming
            == old(bar)@.confirming,
        reply is StepUp ==> final(bar)@.attempt.outcome == old(bar)@.attempt.outcome,
        reply matches Reply::Failed(why) ==> final(bar)@.attempt.outcome == Some(
            NoticeView::BadText(why@),
        ),
        reply is Done ==> (final(bar)@.attempt.outcome matches Some(NoticeView::Good(said))
            && said.args.contains(
            ("series"@, ArgView::Grouped(report.series as int)),
        )),
{
    if reply is Done {
        let said = final(bar)@.attempt.outcome->0->Good_0;
        assert(said.args[0] == (
            "series"@,
            ArgView::Grouped(report.series as int),
        ));
    }
}

/// The bar asks before it deletes: the question opens with the choice of a deletion and
/// with no other choice, and giving up closes it and keeps the rest.
pub proof fn a_deletion_is_asked_about(
    asked: &mut BulkBar,
    chosen: &str,
    dropped: &mut BulkBar,
    cleared: &mut BulkBar,
    selection: &mut Selection,
)
    requires
        call_ensures(BulkBar::choose_action, (asked, chosen), ()),
        call_ensures(BulkBar::cancel, (dropped,), ()),
        call_ensures(BulkBar::clear, (cleared, selection), ()),
    ensures
        chosen@ == "delete"@ ==> final(asked)@.confirming,
        chosen@ != "delete"@ ==> final(asked)@ == old(asked)@,
        !final(dropped)@.confirming,
        final(dropped)@.attempt == old(dropped)@.attempt,
        !final(cleared)@.confirming,
        final(cleared)@.attempt == old(cleared)@.attempt,
        final(selection)@.picked == Set::<u128>::empty(),
        final(selection)@.seen == old(selection)@.seen,
{
}

/// The five totals are those of the summary, each under its own heading and in its own
/// order; only the orphaned and the empty series warn, and only where there are any.
pub proof fn totals_warn_of_what_is_amiss(s: CatalogueSummary)
    ensures
        totals_of(s).len() == 5,
        totals_of(s)[0].value == s.series_total,
        totals_of(s)[1].value == s.sources_total,
        totals_of(s)[2].value == s.chapters_total,
        totals_of(s)[3].value == s.orphaned_series,
        totals_of(s)[4].value == s.empty_series,
        forall|i: int|
            0 <= i < 5 ==> (#[trigger] totals_of(s)[i]).warn == (i >= 3 && totals_of(s)[i].value
                > 0),
        totals_of(s)[3].label == "console.catalogue.stat.orphaned"@,
        totals_of(s)[4].label == "console.catalogue.stat.empty"@,
{
}

/// The ticks are counted one by one, and the count is what both wordings give.
pub proof fn ticks_are_counted(s: &Selection, n: i64, said: Phrase, radius: Phrase, shown: bool)
    requires
        s@.picked.len() <= i64::MAX,
        call_ensures(Selection::count, (s,), n),
        call_ensures(Selection::words, (s,), said),
        call_ensures(Selection::radius, (s,), radius),
        call_ensures(BulkBar::is_shown, (s,), shown),
    ensures
        n == s@.picked.len(),
        said@.count == Some(n),
        radius@.count == Some(n),
        shown <==> n > 0,
{
}

} // verus!
