//! The console's view state, carried by a link's query string.
//!
//! An operator can paste "the provider that is failing" into a chat, and the
//! receiver lands on the same row: what is written reads back as what was meant.

use crate::component;
use crate::text;
use crate::window::Window;
use vstd::prelude::*;

verus! {

broadcast use vstd::string::group_string_axioms;

/// The merge queue's confidence band.
#[derive(Debug, Clone, Copy, PartialEq, Eq, Structural)]
pub enum Band {
    All,
    Low,
    Medium,
    High,
}

impl Default for Band {
    fn default() -> (r: Self)
        ensures
            r == Band::All,
    {
        Band::All
    }
}

impl Band {
    pub const ALL: [Band; 4] = [Band::All, Band::Low, Band::Medium, Band::High];

    /// The token a band travels by in a link.
    pub open spec fn token_text(self) -> Seq<char> {
        match self {
            Band::All => ""@,
            Band::Low => "low"@,
            Band::Medium => "med"@,
            Band::High => "high"@,
        }
    }

    /// The band a token names; any other text is no band at all.
    pub open spec fn named_by(token: Seq<char>) -> Band {
        if token == Band::Low.token_text() {
            Band::Low
        } else if token == Band::Medium.token_text() {
            Band::Medium
        } else if token == Band::High.token_text() {
            Band::High
        } else {
            Band::All
        }
    }

    /// The lowest score the band admits, in percent.
    pub fn min_percent(self) -> (r: u8)
        ensures
            r == (match self {
                Band::All => 0u8,
                Band::Low => 60,
                Band::Medium => 75,
                Band::High => 90,
            }),
    {
        match self {
            Band::All => 0,
            Band::Low => 60,
            Band::Medium => 75,
            Band::High => 90,
        }
    }

    /// The token a band travels by in a link.
    pub fn token(self) -> (r: &'static str)
        ensures
            r@ == self.token_text(),
    {
        match self {
            Band::All => "",
            Band::Low => "low",
            Band::Medium => "med",
            Band::High => "high",
        }
    }

    /// The catalogue key of a band's display name.
    pub fn label_key(self) -> (r: &'static str)
        ensures
            r@ == (match self {
                Band::All => "console.merge.bandAll"@,
                Band::Low => "console.merge.bandLow"@,
                Band::Medium => "console.merge.bandMed"@,
                Band::High => "console.merge.bandHigh"@,
            }),
    {
        match self {
            Band::All => "console.merge.bandAll",
            Band::Low => "console.merge.bandLow",
            Band::Medium => "console.merge.bandMed",
            Band::High => "console.merge.bandHigh",
        }
    }

    /// Reads a token; any other text is [`Band::All`].
    pub fn parse(token: &str) -> (r: Band)
        ensures
            r == Band::named_by(token@),
    {
        if text::same(token, Band::Low.token()) {
            Band::Low
        } else if text::same(token, Band::Medium.token()) {
            Band::Medium
        } else if text::same(token, Band::High.token()) {
            Band::High
        } else {
            Band::All
        }
    }

    /// Every band reads back from its token.
    pub proof fn token_reads_back(self)
        ensures
            Band::named_by(self.token_text()) == self,
    {
        reveal_strlit("");
        reveal_strlit("low");
        reveal_strlit("med");
        reveal_strlit("high");
        assert(""@.len() == 0);
        assert("low"@.len() == 3);
        assert("low"@[0] == 'l');
        assert("med"@.len() == 3);
        assert("med"@[0] == 'm');
        assert("high"@.len() == 4);
    }
}

/// One of the two filter pairs of the page with the mapping queues.
#[derive(Debug, PartialEq, Eq)]
pub struct QueueFilter {
    pub provider: String,
    pub q: String,
}

/// A queue filter as the characters of its parts.
#[verifier::ext_equal]
pub struct QueueFilterView {
    pub provider: Seq<char>,
    pub q: Seq<char>,
}

impl View for QueueFilter {
    type V = QueueFilterView;

    open spec fn view(&self) -> QueueFilterView {
        QueueFilterView { provider: self.provider@, q: self.q@ }
    }
}

impl QueueFilterView {
    /// The filter an untouched queue has.
    pub open spec fn initial() -> Self {
        QueueFilterView { provider: "anilist"@, q: ""@ }
    }
}

impl Default for QueueFilter {
    fn default() -> (r: Self)
        ensures
            r@ == QueueFilterView::initial(),
    {
        QueueFilter { provider: "anilist".to_owned(), q: "".to_owned() }
    }
}

impl Clone for QueueFilter {
    fn clone(&self) -> (r: Self)
        ensures
            r == *self,
    {
        QueueFilter { provider: self.provider.clone(), q: self.q.clone() }
    }
}

/// The complete console view state below the entity segment.
///
/// Every field is a filter or a selection that an operator would lose on reload.
/// The entity itself is not here: it is the path segment.
#[derive(Debug, PartialEq, Eq)]
pub struct ConsoleQuery {
    /// The selected row, as the text the panel's rows are keyed by.
    pub sel: Option<String>,
    /// The inspector's tab, as that tab strip's own token.
    pub tab: Option<String>,
    /// The panel's primary search text.
    pub q: String,
    /// One parameter for three vocabularies, each read by the panel that owns it.
    pub status: Option<String>,
    /// The provider slug filter.
    pub provider: Option<String>,
    /// The scan mode filter.
    pub mode: Option<String>,
    /// The run ordering; the default ordering is its absence.
    pub sort: Option<String>,
    pub since: Window,
    /// The zero-based page on the paged panels.
    pub page: u32,
    /// Whether only staff are listed.
    pub staff: bool,
    /// Whether cleared failures are listed too.
    pub cleared: bool,
    pub band: Band,
    pub assign: QueueFilter,
    pub remote: QueueFilter,
}

/// A console view state as the characters of its parts.
#[verifier::ext_equal]
pub struct QueryView {
    pub sel: Option<Seq<char>>,
    pub tab: Option<Seq<char>>,
    pub q: Seq<char>,
    pub status: Option<Seq<char>>,
    pub provider: Option<Seq<char>>,
    pub mode: Option<Seq<char>>,
    pub sort: Option<Seq<char>>,
    pub since: Window,
    pub page: u32,
    pub staff: bool,
    pub cleared: bool,
    pub band: Band,
    pub assign: QueueFilterView,
    pub remote: QueueFilterView,
}

impl View for ConsoleQuery {
    type V = QueryView;

    open spec fn view(&self) -> QueryView {
        QueryView {
            sel: text::view_of(self.sel),
            tab: text::view_of(self.tab),
            q: self.q@,
            status: text::view_of(self.status),
            provider: text::view_of(self.provider),
            mode: text::view_of(self.mode),
            sort: text::view_of(self.sort),
            since: self.since,
            page: self.page,
            staff: self.staff,
            cleared: self.cleared,
            band: self.band,
            assign: self.assign@,
            remote: self.remote@,
        }
    }
}

/// The parameters of the query string.
pub enum Key {
    Sel,
    Tab,
    Search,
    Status,
    Provider,
    Mode,
    Sort,
    Since,
    Page,
    Staff,
    Cleared,
    Band,
    AssignProvider,
    AssignSearch,
    RemoteProvider,
    RemoteSearch,
}

/// The parameter that a key names.
pub open spec fn key_named(key: Seq<char>) -> Option<Key> {
    if key == "sel"@ {
        Some(Key::Sel)
    } else if key == "tab"@ {
        Some(Key::Tab)
    } else if key == "q"@ {
        Some(Key::Search)
    } else if key == "status"@ {
        Some(Key::Status)
    } else if key == "provider"@ {
        Some(Key::Provider)
    } else if key == "mode"@ {
        Some(Key::Mode)
    } else if key == "sort"@ {
        Some(Key::Sort)
    } else if key == "since"@ {
        Some(Key::Since)
    } else if key == "page"@ {
        Some(Key::Page)
    } else if key == "staff"@ {
        Some(Key::Staff)
    } else if key == "cleared"@ {
        Some(Key::Cleared)
    } else if key == "band"@ {
        Some(Key::Band)
    } else if key == "assign.p"@ {
        Some(Key::AssignProvider)
    } else if key == "assign.q"@ {
        Some(Key::AssignSearch)
    } else if key == "remote.p"@ {
        Some(Key::RemoteProvider)
    } else if key == "remote.q"@ {
        Some(Key::RemoteSearch)
    } else {
        None
    }
}

impl Key {
    /// The key that names the parameter.
    pub open spec fn text(self) -> Seq<char> {
        match self {
            Key::Sel => "sel"@,
            Key::Tab => "tab"@,
            Key::Search => "q"@,
            Key::Status => "status"@,
            Key::Provider => "provider"@,
            Key::Mode => "mode"@,
            Key::Sort => "sort"@,
            Key::Since => "since"@,
            Key::Page => "page"@,
            Key::Staff => "staff"@,
            Key::Cleared => "cleared"@,
            Key::Band => "band"@,
            Key::AssignProvider => "assign.p"@,
            Key::AssignSearch => "assign.q"@,
            Key::RemoteProvider => "remote.p"@,
            Key::RemoteSearch => "remote.q"@,
        }
    }

    /// Every parameter is named by its own key, which holds neither separator of
    /// the query grammar.
    pub proof fn lemma_text(self)
        ensures
            key_named(self.text()) == Some(self),
            self.text().len() > 0,
            !self.text().contains('&'),
            !self.text().contains('='),
    {
        reveal_strlit("sel");
        reveal_strlit("tab");
        reveal_strlit("q");
        reveal_strlit("status");
        reveal_strlit("provider");
        reveal_strlit("mode");
        reveal_strlit("sort");
        reveal_strlit("since");
        reveal_strlit("page");
        reveal_strlit("staff");
        reveal_strlit("cleared");
        reveal_strlit("band");
        reveal_strlit("assign.p");
        reveal_strlit("assign.q");
        reveal_strlit("remote.p");
        reveal_strlit("remote.q");
        assert("sel"@.len() == 3);
        assert("sel"@[0] == 's');
        assert("tab"@.len() == 3);
        assert("tab"@[0] == 't');
        assert("q"@.len() == 1);
        assert("status"@.len() == 6);
        assert("provider"@.len() == 8);
        assert("provider"@[0] == 'p');
        assert("mode"@.len() == 4);
        assert("mode"@[0] == 'm');
        assert("sort"@.len() == 4);
        assert("sort"@[0] == 's');
        assert("since"@.len() == 5);
        assert("since"@[1] == 'i');
        assert("page"@.len() == 4);
        assert("page"@[0] == 'p');
        assert("staff"@.len() == 5);
        assert("staff"@[1] == 't');
        assert("cleared"@.len() == 7);
        assert("band"@.len() == 4);
        assert("band"@[0] == 'b');
        assert("assign.p"@.len() == 8);
        assert("assign.p"@[0] == 'a');
        assert("assign.p"@[7] == 'p');
        assert("assign.q"@.len() == 8);
        assert("assign.q"@[0] == 'a');
        assert("assign.q"@[7] == 'q');
        assert("remote.p"@.len() == 8);
        assert("remote.p"@[0] == 'r');
        assert("remote.p"@[7] == 'p');
        assert("remote.q"@.len() == 8);
        assert("remote.q"@[0] == 'r');
        assert("remote.q"@[7] == 'q');
        match self {
            Key::Sel => {
                assert("sel"@ =~= seq!['s', 'e', 'l']);
            },
            Key::Tab => {
                assert("tab"@ =~= seq!['t', 'a', 'b']);
            },
            Key::Search => {
                assert("q"@ =~= seq!['q']);
            },
            Key::Status => {
                assert("status"@ =~= seq!['s', 't', 'a', 't', 'u', 's']);
            },
            Key::Provider => {
                assert("provider"@ =~= seq!['p', 'r', 'o', 'v', 'i', 'd', 'e', 'r']);
            },
            Key::Mode => {
                assert("mode"@ =~= seq!['m', 'o', 'd', 'e']);
            },
            Key::Sort => {
                assert("sort"@ =~= seq!['s', 'o', 'r', 't']);
            },
            Key::Since => {
                assert("since"@ =~= seq!['s', 'i', 'n', 'c', 'e']);
            },
            Key::Page => {
                assert("page"@ =~= seq!['p', 'a', 'g', 'e']);
            },
            Key::Staff => {
                assert("staff"@ =~= seq!['s', 't', 'a', 'f', 'f']);
            },
            Key::Cleared => {
                assert("cleared"@ =~= seq!['c', 'l', 'e', 'a', 'r', 'e', 'd']);
            },
            Key::Band => {
                assert("band"@ =~= seq!['b', 'a', 'n', 'd']);
            },
            Key::AssignProvider => {
                assert("assign.p"@ =~= seq!['a', 's', 's', 'i', 'g', 'n', '.', 'p']);
            },
            Key::AssignSearch => {
                assert("assign.q"@ =~= seq!['a', 's', 's', 'i', 'g', 'n', '.', 'q']);
            },
            Key::RemoteProvider => {
                assert("remote.p"@ =~= seq!['r', 'e', 'm', 'o', 't', 'e', '.', 'p']);
            },
            Key::RemoteSearch => {
                assert("remote.q"@ =~= seq!['r', 'e', 'm', 'o', 't', 'e', '.', 'q']);
            },
        }
    }
}

/// An empty parameter is the absence of a filter, never a filter matching the empty text.
pub open spec fn present(value: Seq<char>) -> Option<Seq<char>> {
    if value.len() == 0 {
        None
    } else {
        Some(value)
    }
}

/// A value that may be absent, as a text that may be empty.
pub open spec fn value_or_empty(value: Option<Seq<char>>) -> Seq<char> {
    match value {
        Some(t) => t,
        None => ""@,
    }
}

/// The page that a text names; a text that is no number is the first page.
pub open spec fn page_named(value: Seq<char>) -> u32 {
    match text::bounded_value(value, u32::MAX as nat) {
        Some(page) => page as u32,
        None => 0,
    }
}

impl QueryView {
    /// The state without a selection and without a filter.
    pub open spec fn initial() -> Self {
        QueryView {
            sel: None,
            tab: None,
            q: ""@,
            status: None,
            provider: None,
            mode: None,
            sort: None,
            since: Window::Any,
            page: 0,
            staff: false,
            cleared: false,
            band: Band::All,
            assign: QueueFilterView::initial(),
            remote: QueueFilterView::initial(),
        }
    }

    /// The state with one parameter given a value.
    pub open spec fn assigned(self, key: Key, value: Seq<char>) -> Self {
        match key {
            Key::Sel => QueryView { sel: present(value), ..self },
            Key::Tab => QueryView { tab: present(value), ..self },
            Key::Search => QueryView { q: value, ..self },
            Key::Status => QueryView { status: present(value), ..self },
            Key::Provider => QueryView { provider: present(value), ..self },
            Key::Mode => QueryView { mode: present(value), ..self },
            Key::Sort => QueryView { sort: present(value), ..self },
            Key::Since => QueryView { since: Window::named_by(value), ..self },
            Key::Page => QueryView { page: page_named(value), ..self },
            Key::Staff => QueryView { staff: value != "0"@, ..self },
            Key::Cleared => QueryView { cleared: value != "0"@, ..self },
            Key::Band => QueryView { band: Band::named_by(value), ..self },
            Key::AssignProvider => QueryView {
                assign: QueueFilterView { provider: value, ..self.assign },
                ..self
            },
            Key::AssignSearch => QueryView {
                assign: QueueFilterView { q: value, ..self.assign },
                ..self
            },
            Key::RemoteProvider => QueryView {
                remote: QueueFilterView { provider: value, ..self.remote },
                ..self
            },
            Key::RemoteSearch => QueryView {
                remote: QueueFilterView { q: value, ..self.remote },
                ..self
            },
        }
    }

    /// The state after one `key=value` pair. A key that names no parameter, and an
    /// empty pair, change nothing.
    pub open spec fn applied(self, pair: Seq<char>) -> Self {
        match key_named(text::before(pair, '=')) {
            Some(key) => self.assigned(key, component::decoded(text::after(pair, '='))),
            None => self,
        }
    }

    /// The state after every pair of a query string, from left to right.
    pub open spec fn parsed_onto(self, query: Seq<char>) -> Self
        decreases query.len(),
    {
        let at = text::find(query, '&');
        if 0 <= at < query.len() {
            self.applied(query.take(at)).parsed_onto(query.skip(at + 1))
        } else {
            self.applied(query)
        }
    }

    /// The state that a query string names.
    pub open spec fn parsed(query: Seq<char>) -> Self {
        Self::initial().parsed_onto(query)
    }
}

/// An empty parameter is the absence of a filter.
pub fn non_empty(value: String) -> (r: Option<String>)
    ensures
        text::view_of(r) == present(value@),
{
    if value.as_str().is_empty() {
        None
    } else {
        Some(value)
    }
}

impl Default for ConsoleQuery {
    fn default() -> (r: Self)
        ensures
            r@ == QueryView::initial(),
    {
        ConsoleQuery {
            sel: None,
            tab: None,
            q: "".to_owned(),
            status: None,
            provider: None,
            mode: None,
            sort: None,
            since: Window::Any,
            page: 0,
            staff: false,
            cleared: false,
            band: Band::All,
            assign: QueueFilter::default(),
            remote: QueueFilter::default(),
        }
    }
}

impl Clone for ConsoleQuery {
    fn clone(&self) -> (r: Self)
        ensures
            r@ == self@,
    {
        ConsoleQuery {
            sel: text::copied(&self.sel),
            tab: text::copied(&self.tab),
            q: self.q.clone(),
            status: text::copied(&self.status),
            provider: text::copied(&self.provider),
            mode: text::copied(&self.mode),
            sort: text::copied(&self.sort),
            since: self.since,
            page: self.page,
            staff: self.staff,
            cleared: self.cleared,
            band: self.band,
            assign: self.assign.clone(),
            remote: self.remote.clone(),
        }
    }
}

impl ConsoleQuery {
    /// The state a rail click lands on: nothing selected, no filters.
    pub fn fresh() -> (r: Self)
        ensures
            r@ == QueryView::initial(),
    {
        Self::default()
    }

    /// The same view with a different row selected, back on the first page.
    pub fn with_selection(&self, sel: Option<String>) -> (r: Self)
        ensures
            r@ == (QueryView { sel: text::view_of(sel), page: 0, ..self@ }),
    {
        let mut next = self.clone();
        next.sel = sel;
        next.page = 0;
        next
    }

    /// The same view on a different inspector tab.
    pub fn with_tab(&self, tab: &str) -> (r: Self)
        ensures
            r@ == (QueryView { tab: Some(tab@), ..self@ }),
    {
        let mut next = self.clone();
        next.tab = Some(tab.to_owned());
        next
    }

    /// The same view with the primary search replaced, back on the first page.
    pub fn with_search(&self, q: String) -> (r: Self)
        ensures
            r@ == (QueryView { q: q@, page: 0, ..self@ }),
    {
        let mut next = self.clone();
        next.q = q;
        next.page = 0;
        next
    }

    /// The same view on another page.
    pub fn with_page(&self, page: u32) -> (r: Self)
        ensures
            r@ == (QueryView { page, ..self@ }),
    {
        let mut next = self.clone();
        next.page = page;
        next
    }

    /// The status token, as the panel's own vocabulary sees it.
    pub fn status_token(&self) -> (r: &str)
        ensures
            r@ == value_or_empty(self@.status),
    {
        match &self.status {
            Some(status) => status.as_str(),
            None => "",
        }
    }

    /// The tab token, as the panel's own strip sees it.
    pub fn tab_token(&self) -> (r: &str)
        ensures
            r@ == value_or_empty(self@.tab),
    {
        match &self.tab {
            Some(tab) => tab.as_str(),
            None => "",
        }
    }

    /// Gives the parameter that `key` names a value.
    fn assign_raw(&mut self, key: &str, value: String)
        ensures
            final(self)@ == (match key_named(key@) {
                Some(k) => old(self)@.assigned(k, value@),
                None => old(self)@,
            }),
    {
        if text::same(key, "sel") {
            self.sel = non_empty(value);
        } else if text::same(key, "tab") {
            self.tab = non_empty(value);
        } else if text::same(key, "q") {
            self.q = value;
        } else if text::same(key, "status") {
            self.status = non_empty(value);
        } else if text::same(key, "provider") {
            self.provider = non_empty(value);
        } else if text::same(key, "mode") {
            self.mode = non_empty(value);
        } else if text::same(key, "sort") {
            self.sort = non_empty(value);
        } else if text::same(key, "since") {
            self.since = Window::parse(value.as_str());
        } else if text::same(key, "page") {
            self.page = match text::parse_u32(value.as_str()) {
                Some(page) => page,
                None => 0,
            };
        } else if text::same(key, "staff") {
            self.staff = !text::same(value.as_str(), "0");
        } else if text::same(key, "cleared") {
            self.cleared = !text::same(value.as_str(), "0");
        } else if text::same(key, "band") {
            self.band = Band::parse(value.as_str());
        } else if text::same(key, "assign.p") {
            self.assign.provider = value;
        } else if text::same(key, "assign.q") {
            self.assign.q = value;
        } else if text::same(key, "remote.p") {
            self.remote.provider = value;
        } else if text::same(key, "remote.q") {
            self.remote.q = value;
        }
    }

    /// Reads a query string. Unknown keys and unreadable values fall back to the
    /// default for that field: half-understanding a hand-edited link beats a blank
    /// console.
    pub fn parse(query: &str) -> (r: Self)
        ensures
            r@ == QueryView::parsed(query@),
    {
        let chars = text::chars_of(query);
        let mut out = Self::default();
        let mut from: usize = 0;
        assert(query@.skip(0) == query@);
        loop
            invariant
                from <= chars.len(),
                chars@ == query@,
                QueryView::parsed(query@) == out@.parsed_onto(query@.skip(from as int)),
            decreases chars.len() - from,
        {
            let ghost rest = query@.skip(from as int);
            let to: usize = text::find_char(chars.as_slice(), from, chars.len(), '&');
            let ghost pair = query@.subrange(from as int, to as int);
            assert(query@.subrange(from as int, query@.len() as int) == rest);
            assert(rest.take(to - from) == pair);
            let eq: usize = text::find_char(chars.as_slice(), from, to, '=');
            let key = text::part(chars.as_slice(), from, eq);
            assert(key@ == text::before(pair, '='));
            let raw = if eq < to {
                text::part(chars.as_slice(), eq + 1, to)
            } else {
                String::new()
            };
            assert(raw@ == text::after(pair, '='));
            let value = component::decode_component(raw.as_str());
            let ghost earlier = out@;
            out.assign_raw(key.as_str(), value);
            assert(out@ == earlier.applied(pair));
            if to == chars.len() {
                assert(pair == rest);
                return out;
            }
            assert(rest.skip(to - from + 1) == query@.skip(to + 1));
            from = to + 1;
        }
    }
}

impl vstd::std_specs::convert::FromSpecImpl<&str> for ConsoleQuery {
    open spec fn obeys_from_spec() -> bool {
        false
    }

    open spec fn from_spec(query: &str) -> Self {
        arbitrary()
    }
}

impl From<&str> for ConsoleQuery {
    fn from(query: &str) -> (r: Self)
        ensures
            r@ == QueryView::parsed(query@),
    {
        ConsoleQuery::parse(query)
    }
}

/// One pair of a query string.
pub open spec fn pair_text(key: Key, value: Seq<char>) -> Seq<char> {
    key.text() + seq!['='] + component::encoded(value)
}

/// A query string with one more pair.
pub open spec fn with_pair(query: Seq<char>, key: Key, value: Seq<char>) -> Seq<char> {
    if query.len() == 0 {
        pair_text(key, value)
    } else {
        query + seq!['&'] + pair_text(key, value)
    }
}

/// A query string with one more pair where there is a value.
pub open spec fn with_value(query: Seq<char>, key: Key, value: Option<Seq<char>>) -> Seq<char> {
    match value {
        Some(v) => with_pair(query, key, v),
        None => query,
    }
}

/// A query string with one more pair where the value is not the default.
pub open spec fn with_changed(
    query: Seq<char>,
    changed: bool,
    key: Key,
    value: Seq<char>,
) -> Seq<char> {
    if changed {
        with_pair(query, key, value)
    } else {
        query
    }
}

impl QueryView {
    /// The query string that names the row and the texts of the state.
    pub open spec fn texts_written(self) -> Seq<char> {
        let s = with_value(Seq::empty(), Key::Sel, self.sel);
        let s = with_value(s, Key::Tab, self.tab);
        let s = with_changed(s, self.q.len() > 0, Key::Search, self.q);
        let s = with_value(s, Key::Status, self.status);
        let s = with_value(s, Key::Provider, self.provider);
        let s = with_value(s, Key::Mode, self.mode);
        with_value(s, Key::Sort, self.sort)
    }

    /// The query string with the choices of the state added to its texts.
    pub open spec fn choices_written(self) -> Seq<char> {
        let s = self.texts_written();
        let s = with_changed(s, self.since != Window::Any, Key::Since, self.since.token_text());
        let s = with_changed(s, self.page != 0, Key::Page, text::decimal(self.page as nat));
        let s = with_changed(s, self.staff, Key::Staff, "1"@);
        let s = with_changed(s, self.cleared, Key::Cleared, "1"@);
        with_changed(s, self.band != Band::All, Key::Band, self.band.token_text())
    }

    /// The query string that names the state: only what differs from the default,
    /// so that a shared link names exactly what its sender changed.
    pub open spec fn written(self) -> Seq<char> {
        let s = self.choices_written();
        let assign = self.assign != QueueFilterView::initial();
        let s = with_changed(s, assign, Key::AssignProvider, self.assign.provider);
        let s = with_changed(s, assign, Key::AssignSearch, self.assign.q);
        let remote = self.remote != QueueFilterView::initial();
        let s = with_changed(s, remote, Key::RemoteProvider, self.remote.provider);
        with_changed(s, remote, Key::RemoteSearch, self.remote.q)
    }

    /// Whether no filter is present with an empty text.
    pub open spec fn is_normal(self) -> bool {
        &&& self.sel != Some(Seq::<char>::empty())
        &&& self.tab != Some(Seq::<char>::empty())
        &&& self.status != Some(Seq::<char>::empty())
        &&& self.provider != Some(Seq::<char>::empty())
        &&& self.mode != Some(Seq::<char>::empty())
        &&& self.sort != Some(Seq::<char>::empty())
    }
}

fn put(query: &mut String, Ghost(key): Ghost<Key>, name: &str, value: &str)
    requires
        name@ == key.text(),
    ensures
        final(query)@ == with_pair(old(query)@, key, value@),
{
    if !query.as_str().is_empty() {
        query.push('&');
    }
    query.append(name);
    query.push('=');
    let written = component::encode_component(value);
    query.append(written.as_str());
    assert(query@ == with_pair(old(query)@, key, value@));
}

fn put_value(query: &mut String, Ghost(key): Ghost<Key>, name: &str, value: &Option<String>)
    requires
        name@ == key.text(),
    ensures
        final(query)@ == with_value(old(query)@, key, text::view_of(*value)),
{
    match value {
        Some(v) => put(query, Ghost(key), name, v.as_str()),
        None => {},
    }
}

impl QueueFilter {
    /// Whether the filter is not the one an untouched queue has.
    pub fn is_changed(&self) -> (r: bool)
        ensures
            r == (self@ != QueueFilterView::initial()),
    {
        let same = text::same(self.provider.as_str(), "anilist") && text::same(self.q.as_str(), "");
        assert(same ==> self@ =~= QueueFilterView::initial());
        !same
    }
}

impl ConsoleQuery {
    /// Writes only what differs from the default.
    pub fn to_string(&self) -> (r: String)
        ensures
            r@ == self@.written(),
    {
        let mut out = String::new();
        put_value(&mut out, Ghost(Key::Sel), "sel", &self.sel);
        put_value(&mut out, Ghost(Key::Tab), "tab", &self.tab);
        if !self.q.as_str().is_empty() {
            put(&mut out, Ghost(Key::Search), "q", self.q.as_str());
        }
        put_value(&mut out, Ghost(Key::Status), "status", &self.status);
        put_value(&mut out, Ghost(Key::Provider), "provider", &self.provider);
        put_value(&mut out, Ghost(Key::Mode), "mode", &self.mode);
        put_value(&mut out, Ghost(Key::Sort), "sort", &self.sort);
        assert(out@ == self@.texts_written());
        if self.since != Window::Any {
            put(&mut out, Ghost(Key::Since), "since", self.since.token());
        }
        if self.page != 0 {
            let page = text::print_u64(self.page as u64);
            put(&mut out, Ghost(Key::Page), "page", page.as_str());
        }
        if self.staff {
            put(&mut out, Ghost(Key::Staff), "staff", "1");
        }
        if self.cleared {
            put(&mut out, Ghost(Key::Cleared), "cleared", "1");
        }
        if self.band != Band::All {
            put(&mut out, Ghost(Key::Band), "band", self.band.token());
        }
        assert(out@ == self@.choices_written());
        if self.assign.is_changed() {
            put(&mut out, Ghost(Key::AssignProvider), "assign.p", self.assign.provider.as_str());
            put(&mut out, Ghost(Key::AssignSearch), "assign.q", self.assign.q.as_str());
        }
        if self.remote.is_changed() {
            put(&mut out, Ghost(Key::RemoteProvider), "remote.p", self.remote.provider.as_str());
            put(&mut out, Ghost(Key::RemoteSearch), "remote.q", self.remote.q.as_str());
        }
        out
    }
}

proof fn lemma_pair_text(key: Key, value: Seq<char>)
    ensures
        text::find(pair_text(key, value), '&') == pair_text(key, value).len(),
        text::before(pair_text(key, value), '=') == key.text(),
        text::after(pair_text(key, value), '=') == component::encoded(value),
        pair_text(key, value).len() > 0,
{
    let s = pair_text(key, value);
    let k = key.text();
    let v = component::encoded(value);
    key.lemma_text();
    component::lemma_escaped_chars(vstd::utf8::encode_utf8(value));
    assert forall|i: int| 0 <= i < s.len() implies s[i] != '&' by {
        if i < k.len() {
            assert(s[i] == k[i]);
            assert(k.contains(k[i]));
        } else if i > k.len() {
            assert(s[i] == v[i - k.len() - 1]);
        }
    }
    text::lemma_find(s, '&', s.len() as int);
    assert forall|i: int| 0 <= i < k.len() implies s[i] != '=' by {
        assert(s[i] == k[i]);
        assert(k.contains(k[i]));
    }
    assert(s[k.len() as int] == '=');
    text::lemma_find(s, '=', k.len() as int);
    assert(s.take(k.len() as int) == k);
    assert(s.skip(k.len() as int + 1) == v);
}

/// Reading a query string with one more pair is reading it and then that pair.
proof fn lemma_parsed_last(q: QueryView, s: Seq<char>, pair: Seq<char>)
    requires
        text::find(pair, '&') == pair.len(),
    ensures
        q.parsed_onto(s + seq!['&'] + pair) == q.parsed_onto(s).applied(pair),
    decreases s.len(),
{
    let whole = s + seq!['&'] + pair;
    text::lemma_find_bounds(s, '&');
    let at = text::find(s, '&');
    assert forall|i: int| 0 <= i < at implies whole[i] != '&' by {
        assert(whole[i] == s[i]);
    }
    assert(whole[at] == '&');
    text::lemma_find(whole, '&', at);
    assert(whole.take(at) == s.take(at));
    if at < s.len() {
        assert(whole.skip(at + 1) == s.skip(at + 1) + seq!['&'] + pair);
        lemma_parsed_last(q.applied(s.take(at)), s.skip(at + 1), pair);
    } else {
        assert(whole.skip(at + 1) == pair);
        assert(s.take(at) == s);
        let first = q.applied(s);
        assert(q.parsed_onto(whole) == first.parsed_onto(pair));
        assert(first.parsed_onto(pair) == first.applied(pair));
    }
}

proof fn lemma_with_pair(q: QueryView, s: Seq<char>, key: Key, value: Seq<char>)
    ensures
        q.parsed_onto(with_pair(s, key, value)) == q.parsed_onto(s).assigned(key, value),
{
    let pair = pair_text(key, value);
    lemma_pair_text(key, value);
    key.lemma_text();
    component::component_reads_back(value);
    if s.len() == 0 {
        assert(s == Seq::<char>::empty());
        lemma_parsed_nothing(q);
    } else {
        lemma_parsed_last(q, s, pair);
    }
}

proof fn lemma_parsed_nothing(q: QueryView)
    ensures
        q.parsed_onto(Seq::empty()) == q,
{
    let s = Seq::<char>::empty();
    assert(text::before(s, '=') == s);
    if key_named(s) is Some {
        (key_named(s)->0).lemma_text();
    }
}

proof fn lemma_with_value(q: QueryView, s: Seq<char>, key: Key, value: Option<Seq<char>>)
    ensures
        q.parsed_onto(with_value(s, key, value)) == (match value {
            Some(v) => q.parsed_onto(s).assigned(key, v),
            None => q.parsed_onto(s),
        }),
{
    if value is Some {
        lemma_with_pair(q, s, key, value->0);
    }
}

proof fn lemma_with_changed(
    q: QueryView,
    s: Seq<char>,
    changed: bool,
    key: Key,
    value: Seq<char>,
)
    ensures
        q.parsed_onto(with_changed(s, changed, key, value)) == (if changed {
            q.parsed_onto(s).assigned(key, value)
        } else {
            q.parsed_onto(s)
        }),
{
    if changed {
        lemma_with_pair(q, s, key, value);
    }
}

proof fn lemma_texts_read_back(q: QueryView)
    requires
        q.is_normal(),
    ensures
        QueryView::parsed(q.texts_written()) == (QueryView {
            sel: q.sel,
            tab: q.tab,
            q: q.q,
            status: q.status,
            provider: q.provider,
            mode: q.mode,
            sort: q.sort,
            ..QueryView::initial()
        }),
{
    let d = QueryView::initial();
    let s = Seq::<char>::empty();
    lemma_parsed_nothing(d);
    lemma_with_value(d, s, Key::Sel, q.sel);
    let s = with_value(s, Key::Sel, q.sel);
    lemma_with_value(d, s, Key::Tab, q.tab);
    let s = with_value(s, Key::Tab, q.tab);
    lemma_with_changed(d, s, q.q.len() > 0, Key::Search, q.q);
    let s = with_changed(s, q.q.len() > 0, Key::Search, q.q);
    lemma_with_value(d, s, Key::Status, q.status);
    let s = with_value(s, Key::Status, q.status);
    lemma_with_value(d, s, Key::Provider, q.provider);
    let s = with_value(s, Key::Provider, q.provider);
    lemma_with_value(d, s, Key::Mode, q.mode);
    let s = with_value(s, Key::Mode, q.mode);
    lemma_with_value(d, s, Key::Sort, q.sort);
    reveal_strlit("");
    assert(q.q.len() == 0 ==> q.q =~= d.q);
    assert(q.sel is Some && q.sel->0.len() == 0 ==> q.sel->0 =~= Seq::empty());
    assert(q.tab is Some && q.tab->0.len() == 0 ==> q.tab->0 =~= Seq::empty());
    assert(q.status is Some && q.status->0.len() == 0 ==> q.status->0 =~= Seq::empty());
    assert(q.provider is Some && q.provider->0.len() == 0 ==> q.provider->0 =~= Seq::empty());
    assert(q.mode is Some && q.mode->0.len() == 0 ==> q.mode->0 =~= Seq::empty());
    assert(q.sort is Some && q.sort->0.len() == 0 ==> q.sort->0 =~= Seq::empty());
}

proof fn lemma_choices_read_back(q: QueryView)
    requires
        q.is_normal(),
    ensures
        QueryView::parsed(q.choices_written()) == (QueryView {
            assign: QueueFilterView::initial(),
            remote: QueueFilterView::initial(),
            ..q
        }),
{
    let d = QueryView::initial();
    let s = q.texts_written();
    lemma_texts_read_back(q);
    q.since.token_reads_back();
    lemma_with_changed(d, s, q.since != Window::Any, Key::Since, q.since.token_text());
    let s = with_changed(s, q.since != Window::Any, Key::Since, q.since.token_text());
    text::decimal_reads_back(q.page as nat);
    lemma_with_changed(d, s, q.page != 0, Key::Page, text::decimal(q.page as nat));
    let s = with_changed(s, q.page != 0, Key::Page, text::decimal(q.page as nat));
    reveal_strlit("0");
    reveal_strlit("1");
    assert("0"@[0] == '0');
    assert("1"@[0] == '1');
    lemma_with_changed(d, s, q.staff, Key::Staff, "1"@);
    let s = with_changed(s, q.staff, Key::Staff, "1"@);
    lemma_with_changed(d, s, q.cleared, Key::Cleared, "1"@);
    let s = with_changed(s, q.cleared, Key::Cleared, "1"@);
    q.band.token_reads_back();
    lemma_with_changed(d, s, q.band != Band::All, Key::Band, q.band.token_text());
}

/// Every state reads back from the query string that names it, unless a filter is
/// present with an empty text.
pub proof fn query_reads_back(q: QueryView)
    requires
        q.is_normal(),
    ensures
        QueryView::parsed(q.written()) == q,
{
    let d = QueryView::initial();
    let s = q.choices_written();
    lemma_choices_read_back(q);
    let assign = q.assign != QueueFilterView::initial();
    lemma_with_changed(d, s, assign, Key::AssignProvider, q.assign.provider);
    let s = with_changed(s, assign, Key::AssignProvider, q.assign.provider);
    lemma_with_changed(d, s, assign, Key::AssignSearch, q.assign.q);
    let s = with_changed(s, assign, Key::AssignSearch, q.assign.q);
    let remote = q.remote != QueueFilterView::initial();
    lemma_with_changed(d, s, remote, Key::RemoteProvider, q.remote.provider);
    let s = with_changed(s, remote, Key::RemoteProvider, q.remote.provider);
    lemma_with_changed(d, s, remote, Key::RemoteSearch, q.remote.q);
}

/// The default state does not name itself, and the empty query string is the default state.
pub proof fn default_query_is_empty()
    ensures
        QueryView::initial().written() == Seq::<char>::empty(),
        QueryView::parsed(Seq::<char>::empty()) == QueryView::initial(),
{
    reveal_strlit("");
    lemma_parsed_nothing(QueryView::initial());
}

/// What a query string is read as names itself again: reading the link that a
/// reading writes changes nothing.
pub proof fn reading_is_stable(query: Seq<char>)
    ensures
        QueryView::parsed(query).is_normal(),
        QueryView::parsed(QueryView::parsed(query).written()) == QueryView::parsed(query),
{
    lemma_parsed_normal(QueryView::initial(), query);
    query_reads_back(QueryView::parsed(query));
}

proof fn lemma_parsed_normal(q: QueryView, query: Seq<char>)
    requires
        q.is_normal(),
    ensures
        q.parsed_onto(query).is_normal(),
    decreases query.len(),
{
    let at = text::find(query, '&');
    if 0 <= at < query.len() {
        lemma_parsed_normal(q.applied(query.take(at)), query.skip(at + 1));
    }
}

/// A pair of an address sets the field of its key and no other. A text that is empty is
/// none; a page that is no number is the first; a switch is on unless it says nought; a
/// window or a band that names none is the open one.
pub proof fn a_pair_sets_its_own_field(q: QueryView, value: Seq<char>)
    ensures
        ({
            let given = if value.len() == 0 {
                None
            } else {
                Some(value)
            };
            &&& q.assigned(Key::Sel, value) == (QueryView { sel: given, ..q })
            &&& q.assigned(Key::Tab, value) == (QueryView { tab: given, ..q })
            &&& q.assigned(Key::Status, value) == (QueryView { status: given, ..q })
            &&& q.assigned(Key::Provider, value) == (QueryView { provider: given, ..q })
            &&& q.assigned(Key::Mode, value) == (QueryView { mode: given, ..q })
            &&& q.assigned(Key::Sort, value) == (QueryView { sort: given, ..q })
        }),
        q.assigned(Key::Search, value) == (QueryView { q: value, ..q }),
        q.assigned(Key::Staff, value) == (QueryView { staff: value != "0"@, ..q }),
        q.assigned(Key::Cleared, value) == (QueryView { cleared: value != "0"@, ..q }),
        (QueryView { page: q.page, ..q.assigned(Key::Page, value) }) == q,
        text::unsigned_value(value) is Some && text::unsigned_value(value)->0 <= u32::MAX
            ==> q.assigned(Key::Page, value).page == text::unsigned_value(value)->0,
        text::unsigned_value(value) is None || text::unsigned_value(value)->0 > u32::MAX
            ==> q.assigned(Key::Page, value).page == 0,
        (QueryView { since: q.since, ..q.assigned(Key::Since, value) }) == q,
        q.assigned(Key::Since, value).since is Hour <==> value == "1h"@,
        q.assigned(Key::Since, value).since is Day <==> value == "24h"@,
        q.assigned(Key::Since, value).since is Week <==> value == "7d"@,
        (QueryView { band: q.band, ..q.assigned(Key::Band, value) }) == q,
        q.assigned(Key::Band, value).band is Low <==> value == "low"@,
        q.assigned(Key::Band, value).band is Medium <==> value == "med"@,
        q.assigned(Key::Band, value).band is High <==> value == "high"@,
        q.assigned(Key::AssignProvider, value).assign.provider == value,
        q.assigned(Key::AssignProvider, value).assign.q == q.assign.q,
        q.assigned(Key::AssignSearch, value).assign.q == value,
        q.assigned(Key::AssignSearch, value).assign.provider == q.assign.provider,
        q.assigned(Key::RemoteProvider, value).remote.provider == value,
        q.assigned(Key::RemoteProvider, value).remote.q == q.remote.q,
        q.assigned(Key::RemoteSearch, value).remote.q == value,
        q.assigned(Key::RemoteSearch, value).remote.provider == q.remote.provider,
        (QueryView { assign: q.assign, ..q.assigned(Key::AssignProvider, value) }) == q,
        (QueryView { assign: q.assign, ..q.assigned(Key::AssignSearch, value) }) == q,
        (QueryView { remote: q.remote, ..q.assigned(Key::RemoteProvider, value) }) == q,
        (QueryView { remote: q.remote, ..q.assigned(Key::RemoteSearch, value) }) == q,
{
    crate::window::a_window_is_named_by_its_token(value);
    reveal_strlit("low");
    reveal_strlit("med");
    reveal_strlit("high");
    assert("low"@.len() == 3 && "low"@[0] == 'l');
    assert("med"@.len() == 3 && "med"@[0] == 'm');
    assert("high"@.len() == 4);
}

/// The pairs of an address are read in their order, one after the other, each decoded from
/// behind its first equals sign; a later pair of the same key is what counts in the end,
/// and a pair of an unknown key is passed over.
pub proof fn pairs_are_read_in_their_order(
    q: QueryView,
    s: Seq<char>,
    key: Key,
    value: Seq<char>,
    unknown: Seq<char>,
)
    requires
        !unknown.contains('&'),
        forall|k: Key| text::before(unknown, '=') != #[trigger] k.text(),
    ensures
        q.parsed_onto(s + seq!['&'] + key.text() + seq!['='] + component::encoded(value))
            == q.parsed_onto(s).assigned(key, value),
        q.parsed_onto(s + seq!['&'] + unknown) == q.parsed_onto(s),
{
    let pair = pair_text(key, value);
    lemma_pair_text(key, value);
    lemma_parsed_last(q, s, pair);
    assert(s + seq!['&'] + key.text() + seq!['='] + component::encoded(value) =~= s + seq!['&']
        + pair);
    key.lemma_text();
    component::component_reads_back(value);
    text::lemma_find(unknown, '&', unknown.len() as int);
    lemma_parsed_last(q, s, unknown);
    let named = key_named(text::before(unknown, '='));
    if named is Some {
        let k = named->0;
        assert(text::before(unknown, '=') == k.text());
    }
}

/// An address without a word is the plain view: nothing open, nothing searched for and
/// nothing narrowed, on the first page.
pub proof fn the_plain_view_narrows_nothing(plain: ConsoleQuery)
    requires
        call_ensures(ConsoleQuery::fresh, (), plain),
    ensures
        plain.sel is None,
        plain.tab is None,
        plain.q@.len() == 0,
        plain.status is None,
        plain.provider is None,
        plain.mode is None,
        plain.sort is None,
        plain.since is Any,
        plain.page == 0,
        !plain.staff,
        !plain.cleared,
        plain.band is All,
        plain.assign.provider@ == "anilist"@ && plain.assign.q@.len() == 0,
        plain.remote.provider@ == "anilist"@ && plain.remote.q@.len() == 0,
{
    reveal_strlit("");
    assert(""@.len() == 0);
    assert(plain@.q == plain.q@);
    assert(plain@.assign == plain.assign@);
    assert(plain@.remote == plain.remote@);
    assert(plain@.sel == text::view_of(plain.sel));
    assert(plain@.tab == text::view_of(plain.tab));
    assert(plain@.status == text::view_of(plain.status));
    assert(plain@.provider == text::view_of(plain.provider));
    assert(plain@.mode == text::view_of(plain.mode));
    assert(plain@.sort == text::view_of(plain.sort));
}

/// A change of the view changes its own part: a selection and a search start the list over,
/// a tab and a page leave everything else where it was.
pub proof fn a_change_of_view_changes_its_part(
    view: &ConsoleQuery,
    sel: Option<String>,
    text: String,
    tab: &str,
    page: u32,
    selected: ConsoleQuery,
    searched: ConsoleQuery,
    turned: ConsoleQuery,
    tabbed: ConsoleQuery,
)
    requires
        call_ensures(ConsoleQuery::with_selection, (view, sel), selected),
        call_ensures(ConsoleQuery::with_search, (view, text), searched),
        call_ensures(ConsoleQuery::with_page, (view, page), turned),
        call_ensures(ConsoleQuery::with_tab, (view, tab), tabbed),
    ensures
        selected@.sel is Some <==> sel is Some,
        sel is Some ==> selected@.sel->0 == sel->0@,
        selected@.page == 0,
        (QueryView { sel: view@.sel, page: view@.page, ..selected@ }) == view@,
        searched@.q == text@,
        searched@.page == 0,
        (QueryView { q: view@.q, page: view@.page, ..searched@ }) == view@,
        turned@.page == page,
        (QueryView { page: view@.page, ..turned@ }) == view@,
        tabbed@.tab == Some(tab@),
        (QueryView { tab: view@.tab, ..tabbed@ }) == view@,
{
}

/// A band begins at sixty, at seventy-five or at ninety percent, and the open one at none.
pub proof fn a_band_begins_at_its_percent(band: Band, least: u8)
    requires
        call_ensures(Band::min_percent, (band,), least),
    ensures
        band is All <==> least == 0,
        band is Low <==> least == 60,
        band is Medium <==> least == 75,
        band is High <==> least == 90,
{
}

/// What is written of a view and read again is the view, whatever it holds that an address
/// can carry.
pub proof fn a_link_opens_the_view_it_was_made_of(
    view: &ConsoleQuery,
    link: String,
    opened: ConsoleQuery,
    linked: &str,
)
    requires
        view@.is_normal(),
        call_ensures(ConsoleQuery::to_string, (view,), link),
        linked@ == link@,
        call_ensures(ConsoleQuery::parse, (linked,), opened),
    ensures
        opened@ == view@,
{
    query_reads_back(view@);
}

/// What is seen of an address is the address: each of its fields as it stands.
pub proof fn an_address_is_seen_as_it_stands(view: ConsoleQuery)
    ensures
        view@.sel is Some == view.sel is Some,
        view.sel is Some ==> view@.sel->0 == view.sel->0@,
        view@.tab is Some == view.tab is Some,
        view.tab is Some ==> view@.tab->0 == view.tab->0@,
        view@.q == view.q@,
        view@.status is Some == view.status is Some,
        view.status is Some ==> view@.status->0 == view.status->0@,
        view@.provider is Some == view.provider is Some,
        view.provider is Some ==> view@.provider->0 == view.provider->0@,
        view@.mode is Some == view.mode is Some,
        view.mode is Some ==> view@.mode->0 == view.mode->0@,
        view@.sort is Some == view.sort is Some,
        view.sort is Some ==> view@.sort->0 == view.sort->0@,
        view@.since == view.since,
        view@.page == view.page,
        view@.staff == view.staff,
        view@.cleared == view.cleared,
        view@.band == view.band,
        view@.assign.provider == view.assign.provider@ && view@.assign.q == view.assign.q@,
        view@.remote.provider == view.remote.provider@ && view@.remote.q == view.remote.q@,
{
}

} // verus!
