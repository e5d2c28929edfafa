//! The figures of each provider, in a table whose columns the reader picks.
//!
//! Which columns are drawn belongs to the reader and not to the link they were sent, so it
//! is remembered by the columns' tokens and is no part of an address.

use crate::provider::ProviderStat;
use crate::text;
use crate::wording::{Phrase, PhraseView};
use vstd::prelude::*;

verus! {

broadcast use vstd::string::group_string_axioms;

/// A column that can be hidden. The provider is not among them: figures without a name
/// cannot be read.
#[derive(Debug, Clone, Copy, PartialEq, Eq, Structural)]
pub enum Column {
    Adapter,
    Series,
    Sources,
    Chapters,
    Day,
    Week,
    Newest,
    LastScan,
    LastRun,
}

impl Column {
    pub const ALL: [Column; 9] = [
        Column::Adapter,
        Column::Series,
        Column::Sources,
        Column::Chapters,
        Column::Day,
        Column::Week,
        Column::Newest,
        Column::LastScan,
        Column::LastRun,
    ];

    /// The token that a column travels by.
    pub open spec fn token_text(self) -> Seq<char> {
        match self {
            Column::Adapter => "adapter"@,
            Column::Series => "series"@,
            Column::Sources => "sources"@,
            Column::Chapters => "chapters"@,
            Column::Day => "day"@,
            Column::Week => "week"@,
            Column::Newest => "newest"@,
            Column::LastScan => "lastScan"@,
            Column::LastRun => "lastRun"@,
        }
    }

    /// What a token names.
    pub open spec fn named_by(token: Seq<char>) -> Option<Column> {
        if token == "adapter"@ {
            Some(Column::Adapter)
        } else if token == "series"@ {
            Some(Column::Series)
        } else if token == "sources"@ {
            Some(Column::Sources)
        } else if token == "chapters"@ {
            Some(Column::Chapters)
        } else if token == "day"@ {
            Some(Column::Day)
        } else if token == "week"@ {
            Some(Column::Week)
        } else if token == "newest"@ {
            Some(Column::Newest)
        } else if token == "lastScan"@ {
            Some(Column::LastScan)
        } else if token == "lastRun"@ {
            Some(Column::LastRun)
        } else {
            None
        }
    }

    /// The token that a column travels by.
    pub fn token(self) -> (r: &'static str)
        ensures
            r@ == self.token_text(),
    {
        match self {
            Column::Adapter => "adapter",
            Column::Series => "series",
            Column::Sources => "sources",
            Column::Chapters => "chapters",
            Column::Day => "day",
            Column::Week => "week",
            Column::Newest => "newest",
            Column::LastScan => "lastScan",
            Column::LastRun => "lastRun",
        }
    }

    /// Reads a token.
    pub fn parse(token: &str) -> (r: Option<Column>)
        ensures
            r == Column::named_by(token@),
    {
        if text::same(token, "adapter") {
            Some(Column::Adapter)
        } else if text::same(token, "series") {
            Some(Column::Series)
        } else if text::same(token, "sources") {
            Some(Column::Sources)
        } else if text::same(token, "chapters") {
            Some(Column::Chapters)
        } else if text::same(token, "day") {
            Some(Column::Day)
        } else if text::same(token, "week") {
            Some(Column::Week)
        } else if text::same(token, "newest") {
            Some(Column::Newest)
        } else if text::same(token, "lastScan") {
            Some(Column::LastScan)
        } else if text::same(token, "lastRun") {
            Some(Column::LastRun)
        } else {
            None
        }
    }

    /// Each reads back from its token.
    pub proof fn token_reads_back(self)
        ensures
            Column::named_by(self.token_text()) == Some(self),
    {
        reveal_strlit("adapter");
        reveal_strlit("series");
        reveal_strlit("sources");
        reveal_strlit("chapters");
        reveal_strlit("day");
        reveal_strlit("week");
        reveal_strlit("newest");
        reveal_strlit("lastScan");
        reveal_strlit("lastRun");
        assert("adapter"@.len() == 7);
        assert("adapter"@[0] == 'a');
        assert("series"@.len() == 6);
        assert("series"@[0] == 's');
        assert("sources"@.len() == 7);
        assert("sources"@[0] == 's');
        assert("chapters"@.len() == 8);
        assert("chapters"@[0] == 'c');
        assert("day"@.len() == 3);
        assert("week"@.len() == 4);
        assert("newest"@.len() == 6);
        assert("newest"@[0] == 'n');
        assert("lastScan"@.len() == 8);
        assert("lastScan"@[0] == 'l');
        assert("lastRun"@.len() == 7);
        assert("lastRun"@[0] == 'l');
    }

    /// The catalogue key of its heading.
    pub fn label_key(self) -> (r: &'static str)
        ensures
            r@ == (match self {
                Column::Adapter => "console.stats.col.adapter"@,
                Column::Series => "console.stats.col.series"@,
                Column::Sources => "console.stats.col.sources"@,
                Column::Chapters => "console.stats.col.chapters"@,
                Column::Day => "console.stats.col.day"@,
                Column::Week => "console.stats.col.week"@,
                Column::Newest => "console.stats.col.newest"@,
                Column::LastScan => "console.stats.col.lastScan"@,
                Column::LastRun => "console.stats.col.lastRun"@,
            }),
    {
        match self {
            Column::Adapter => "console.stats.col.adapter",
            Column::Series => "console.stats.col.series",
            Column::Sources => "console.stats.col.sources",
            Column::Chapters => "console.stats.col.chapters",
            Column::Day => "console.stats.col.day",
            Column::Week => "console.stats.col.week",
            Column::Newest => "console.stats.col.newest",
            Column::LastScan => "console.stats.col.lastScan",
            Column::LastRun => "console.stats.col.lastRun",
        }
    }

    /// Whether its values are numbers, and so stand to the right.
    pub fn numeric(self) -> (r: bool)
        ensures
            r == (self is Series || self is Sources || self is Chapters || self is Day
                || self is Week),
    {
        matches!(
            self,
            Column::Series | Column::Sources | Column::Chapters | Column::Day | Column::Week
        )
    }

    /// Every column is listed.
    pub proof fn is_listed(self)
        ensures
            exists|i: int| 0 <= i < 9 && #[trigger] Column::ALL@[i] == self,
    {
        match self {
            Column::Adapter => assert(Column::ALL@[0] == self),
            Column::Series => assert(Column::ALL@[1] == self),
            Column::Sources => assert(Column::ALL@[2] == self),
            Column::Chapters => assert(Column::ALL@[3] == self),
            Column::Day => assert(Column::ALL@[4] == self),
            Column::Week => assert(Column::ALL@[5] == self),
            Column::Newest => assert(Column::ALL@[6] == self),
            Column::LastScan => assert(Column::ALL@[7] == self),
            Column::LastRun => assert(Column::ALL@[8] == self),
        }
    }
}

/// No two columns are remembered by the same token.
pub proof fn tokens_are_unique(a: Column, b: Column)
    requires
        a.token_text() == b.token_text(),
    ensures
        a == b,
{
    a.token_reads_back();
    b.token_reads_back();
}

/// The columns that are hidden, by their tokens. A token that no column has is kept: it may
/// be a column of another build.
#[derive(Debug, PartialEq, Eq)]
pub struct Hidden {
    pub tokens: Vec<String>,
}

/// The tokens of some hidden columns.
pub open spec fn token_set(tokens: Seq<String>) -> Set<Seq<char>> {
    Set::new(|t: Seq<char>| exists|i: int| 0 <= i < tokens.len() && #[trigger] tokens[i]@ == t)
}

impl View for Hidden {
    type V = Set<Seq<char>>;

    open spec fn view(&self) -> Set<Seq<char>> {
        token_set(self.tokens@)
    }
}

impl Hidden {
    /// Whether a column is hidden.
    pub fn hides(&self, column: Column) -> (r: bool)
        ensures
            r == self@.contains(column.token_text()),
    {
        let token = column.token();
        let mut i: usize = 0;
        while i < self.tokens.len()
            invariant
                i <= self.tokens.len(),
                token@ == column.token_text(),
                forall|j: int| 0 <= j < i ==> #[trigger] self.tokens@[j]@ != token@,
            decreases self.tokens.len() - i,
        {
            if text::same(self.tokens[i].as_str(), token) {
                assert(self.tokens@[i as int]@ == column.token_text());
                return true;
            }
            i = i + 1;
        }
        false
    }

    /// Shows a column, or hides it.
    pub fn show(&mut self, column: Column, shown: bool)
        ensures
            final(self)@ == (if shown {
                old(self)@.remove(column.token_text())
            } else {
                old(self)@.insert(column.token_text())
            }),
    {
        let token = column.token();
        if shown {
            let mut kept: Vec<String> = Vec::new();
            let mut i: usize = 0;
            while i < self.tokens.len()
                invariant
                    i <= self.tokens.len(),
                    forall|t: Seq<char>|
                        #[trigger] token_set(kept@).contains(t) == (token_set(
                            self.tokens@.take(i as int),
                        ).contains(t) && t != token@),
                decreases self.tokens.len() - i,
            {
                let ghost before = kept@;
                let ghost sofar = self.tokens@.take(i as int);
                let ghost next = self.tokens@.take(i + 1);
                if !text::same(self.tokens[i].as_str(), token) {
                    kept.push(self.tokens[i].clone());
                    proof {
                        lemma_pushed(before, kept@, self.tokens@[i as int]@);
                    }
                }
                proof {
                    lemma_pushed(sofar, next, self.tokens@[i as int]@);
                }
                i = i + 1;
            }
            assert(self.tokens@.take(self.tokens@.len() as int) == self.tokens@);
            assert(token_set(kept@) =~= old(self)@.remove(token@));
            self.tokens = kept;
        } else if !self.hides(column) {
            let ghost before = self.tokens@;
            self.tokens.push(token.to_owned());
            proof {
                lemma_pushed(before, self.tokens@, token@);
            }
            assert(self@ =~= old(self)@.insert(column.token_text()));
        } else {
            assert(self@ =~= old(self)@.insert(column.token_text()));
        }
    }

    /// The columns that are drawn, in order.
    pub fn shown(&self) -> (r: Vec<Column>)
        ensures
            r@ == Column::ALL@.filter(|c: Column| !self@.contains(c.token_text())),
    {
        let all = Column::ALL;
        let ghost test = |c: Column| !self@.contains(c.token_text());
        let mut out: Vec<Column> = Vec::new();
        let mut i: usize = 0;
        proof {
            reveal(Seq::filter);
        }
        assert(all@.take(0).filter(test) =~= Seq::empty());
        while i < 9
            invariant
                i <= 9,
                all@ == Column::ALL@,
                all@.len() == 9,
                test == (|c: Column| !self@.contains(c.token_text())),
                out@ == all@.take(i as int).filter(test),
            decreases 9 - i,
        {
            proof {
                crate::rows::lemma_filter_step(all@, i as int, test);
            }
            if !self.hides(all[i]) {
                out.push(all[i]);
            }
            i = i + 1;
        }
        assert(all@.take(9) == all@);
        out
    }
}

/// What one more token adds to a set of them.
proof fn lemma_pushed(before: Seq<String>, after: Seq<String>, token: Seq<char>)
    requires
        after.len() == before.len() + 1,
        forall|i: int| 0 <= i < before.len() ==> #[trigger] after[i]@ == before[i]@,
        after[before.len() as int]@ == token,
    ensures
        forall|t: Seq<char>|
            #[trigger] token_set(after).contains(t) == (token_set(before).contains(t) || t
                == token),
{
    assert forall|t: Seq<char>|
        #[trigger] token_set(after).contains(t) == (token_set(before).contains(t) || t
            == token) by {
        if token_set(before).contains(t) {
            let i = choose|i: int| 0 <= i < before.len() && #[trigger] before[i]@ == t;
            assert(after[i]@ == t);
        }
        if t == token {
            assert(after[before.len() as int]@ == t);
        }
        if token_set(after).contains(t) && t != token {
            let i = choose|i: int| 0 <= i < after.len() && #[trigger] after[i]@ == t;
            assert(before[i]@ == t);
        }
    }
}

/// To hide a column hides that column and no other.
pub proof fn hiding_hides_one(hidden: Set<Seq<char>>, column: Column, other: Column)
    ensures
        hidden.insert(column.token_text()).contains(column.token_text()),
        other != column ==> hidden.insert(column.token_text()).contains(other.token_text())
            == hidden.contains(other.token_text()),
{
    if other.token_text() == column.token_text() {
        tokens_are_unique(other, column);
    }
}

/// A column that is shown again leaves the others as they were before it was hidden.
pub proof fn showing_undoes_hiding(hidden: Set<Seq<char>>, column: Column)
    requires
        !hidden.contains(column.token_text()),
    ensures
        hidden.insert(column.token_text()).remove(column.token_text()) == hidden,
{
    assert(hidden.insert(column.token_text()).remove(column.token_text()) =~= hidden);
}

/// The class of the table.
pub fn table_class(compact: bool) -> (r: &'static str)
    ensures
        r@ == (if compact {
            "ik-table ik-table-compact"@
        } else {
            "ik-table"@
        }),
{
    if compact {
        "ik-table ik-table-compact"
    } else {
        "ik-table"
    }
}

/// What is said of sources that are blocked, where any are.
pub fn blocked_note(stat: &ProviderStat) -> (r: Option<Phrase>)
    ensures
        match r {
            Some(p) => stat.blocked_sources > 0 && p@ == PhraseView::plain(
                "console.stats.blockedSources"@,
            ).grouped("count"@, stat.blocked_sources as int),
            None => stat.blocked_sources <= 0,
        },
{
    if stat.blocked_sources > 0 {
        Some(Phrase::plain("console.stats.blockedSources").grouped("count", stat.blocked_sources))
    } else {
        None
    }
}

/// What a cell says of the last run.
#[derive(Debug, PartialEq, Eq)]
pub enum LastRun {
    /// The provider was never scanned.
    Unknown,
    /// How the last run ended, and when.
    Ended { state: String, at: Option<String> },
}

/// What a cell says of the last run.
pub fn last_run(state: &Option<String>, at: &Option<String>) -> (r: LastRun)
    ensures
        match (r, *state) {
            (LastRun::Ended { state: shown, at: when }, Some(ended)) => shown@ == ended@
                && text::view_of(when) == text::view_of(*at),
            (LastRun::Unknown, None) => true,
            _ => false,
        },
{
    match state {
        Some(ended) => LastRun::Ended { state: ended.clone(), at: text::copied(at) },
        None => LastRun::Unknown,
    }
}

/// The chapters of the last day, where there were any: they are drawn as a gain.
pub fn gained(chapters_24h: i64) -> (r: Option<i64>)
    ensures
        r == (if chapters_24h > 0 {
            Some(chapters_24h)
        } else {
            None
        }),
{
    if chapters_24h > 0 {
        Some(chapters_24h)
    } else {
        None
    }
}

/// The figures of what one provider carries: each with the catalogue key of its label.
pub open spec fn coverage_of(stat: ProviderStat) -> Seq<(Seq<char>, i64)> {
    seq![
        ("console.stats.col.series"@, stat.series_count),
        ("console.stats.col.sources"@, stat.source_count),
        ("console.stats.col.chapters"@, stat.chapter_count),
        ("console.providers.blocked"@, stat.blocked_sources),
        ("console.stats.col.new24h"@, stat.chapters_24h),
        ("console.stats.col.new7d"@, stat.chapters_7d),
    ]
}

/// The figures of what one provider carries.
pub fn coverage(stat: &ProviderStat) -> (r: Vec<(&'static str, i64)>)
    ensures
        Seq::new(r@.len(), |i: int| (r@[i].0@, r@[i].1)) == coverage_of(*stat),
{
    let mut out: Vec<(&'static str, i64)> = Vec::new();
    out.push(("console.stats.col.series", stat.series_count));
    out.push(("console.stats.col.sources", stat.source_count));
    out.push(("console.stats.col.chapters", stat.chapter_count));
    out.push(("console.providers.blocked", stat.blocked_sources));
    out.push(("console.stats.col.new24h", stat.chapters_24h));
    out.push(("console.stats.col.new7d", stat.chapters_7d));
    assert(Seq::new(out@.len(), |i: int| (out@[i].0@, out@[i].1)) =~= coverage_of(*stat));
    out
}

/// When a provider was last scanned, last scanned in full, and last had a new chapter.
pub fn coverage_stamps(stat: &ProviderStat) -> (r: (Phrase, Phrase, Phrase))
    ensures
        r.0@ == PhraseView::plain("console.providers.lastScan"@).since(
            "when"@,
            text::view_of(stat.last_scanned_at),
        ),
        r.1@ == PhraseView::plain("console.providers.lastFullScan"@).since(
            "when"@,
            text::view_of(stat.last_full_scan_at),
        ),
        r.2@ == PhraseView::plain("console.providers.lastChapter"@).since(
            "when"@,
            text::view_of(stat.last_chapter_at),
        ),
{
    (
        Phrase::plain("console.providers.lastScan").since(
            "when",
            text::copied(&stat.last_scanned_at),
        ),
        Phrase::plain("console.providers.lastFullScan").since(
            "when",
            text::copied(&stat.last_full_scan_at),
        ),
        Phrase::plain("console.providers.lastChapter").since(
            "when",
            text::copied(&stat.last_chapter_at),
        ),
    )
}

/// A column that is hidden is not shown and one that is not is, in the order of the
/// columns; showing or hiding one changes no other.
pub proof fn a_column_is_shown_unless_it_is_hidden(
    hidden: &Hidden,
    columns: Vec<Column>,
    column: Column,
    is_hidden: bool,
)
    requires
        call_ensures(Hidden::shown, (hidden,), columns),
        call_ensures(Hidden::hides, (hidden, column), is_hidden),
    ensures
        columns@.contains(column) <==> !is_hidden,
        is_hidden <==> hidden@.contains(column.token_text()),
{
    broadcast use vstd::seq_lib::group_filter_ensures;

    let test = |c: Column| !hidden@.contains(c.token_text());
    column.is_listed();
    let at = choose|i: int| 0 <= i < 9 && #[trigger] Column::ALL@[i] == column;
    if test(column) {
        assert(test(Column::ALL@[at]));
        assert(columns@.contains(Column::ALL@[at]));
    }
    if columns@.contains(column) {
        let k = choose|k: int| 0 <= k < columns@.len() && columns@[k] == column;
        assert(test(columns@[k]));
    }
}

/// Showing a column has it shown and hiding it has it hidden, whatever it was before, and
/// every other column stays as it was.
pub proof fn a_switch_moves_one_column(
    hidden: &mut Hidden,
    column: Column,
    shown: bool,
    other: Column,
)
    requires
        call_ensures(Hidden::show, (hidden, column, shown), ()),
    ensures
        final(hidden)@.contains(column.token_text()) <==> !shown,
        other != column ==> final(hidden)@.contains(other.token_text())
            == old(hidden)@.contains(other.token_text()),
{
    if column.token_text() == other.token_text() {
        tokens_are_unique(column, other);
    }
}

/// The coverage of a provider is that of its figures, each under its own heading and in
/// their order.
pub proof fn coverage_is_that_of_the_figures(stat: &ProviderStat, shown: Vec<(&'static str, i64)>)
    requires
        call_ensures(coverage, (stat,), shown),
    ensures
        shown@.len() == 6,
        shown@[0].1 == stat.series_count,
        shown@[1].1 == stat.source_count,
        shown@[2].1 == stat.chapter_count,
        shown@[3].1 == stat.blocked_sources,
        shown@[4].1 == stat.chapters_24h,
        shown@[5].1 == stat.chapters_7d,
        shown@[3].0@ == "console.providers.blocked"@,
        shown@[4].0@ == "console.stats.col.new24h"@,
        shown@[5].0@ == "console.stats.col.new7d"@,
{
    let all = Seq::new(shown@.len(), |i: int| (shown@[i].0@, shown@[i].1));
    assert(all == coverage_of(*stat));
    assert(all.len() == 6);
    assert forall|i: int| 0 <= i < 6 implies #[trigger] all[i] == (shown@[i].0@, shown@[i].1) by {}
    assert(all[0].1 == shown@[0].1 && all[1].1 == shown@[1].1 && all[2].1 == shown@[2].1);
    assert(all[3].1 == shown@[3].1 && all[4].1 == shown@[4].1 && all[5].1 == shown@[5].1);
}

/// Blocked sources are noted, and what the day brought is told, where there are any.
pub proof fn only_what_is_there_is_noted(
    stat: &ProviderStat,
    note: Option<Phrase>,
    chapters: i64,
    gain: Option<i64>,
)
    requires
        call_ensures(blocked_note, (stat,), note),
        call_ensures(gained, (chapters,), gain),
    ensures
        note is Some <==> stat.blocked_sources > 0,
        note is Some ==> note->0@.args.len() == 1 && note->0@.args[0].1
            == crate::wording::ArgView::Grouped(stat.blocked_sources as int),
        gain is Some <==> chapters > 0,
        gain is Some ==> gain->0 == chapters,
{
}

/// The last run of a provider is told by how it ended and when, and not at all where no
/// end is known.
pub proof fn a_last_run_is_told_by_its_end(
    state: &Option<String>,
    at: &Option<String>,
    told: LastRun,
)
    requires
        call_ensures(last_run, (state, at), told),
    ensures
        told is Unknown <==> *state is None,
        told matches LastRun::Ended { state: shown, at: when } ==> shown@ == state->0@ && (when
            is Some <==> *at is Some) && (when is Some ==> when->0@ == at->0@),
{
}

} // verus!
