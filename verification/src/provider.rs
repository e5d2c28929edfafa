//! Providers: their vocabularies, and the list they are picked from.

use crate::access::{Capabilities, Permission};
use crate::foreign;
use crate::query::{ConsoleQuery, QueryView};
use crate::rows;
use crate::text;
use crate::wording::{Label, LabelView, Phrase, PhraseView};
use vstd::prelude::*;

verus! {

broadcast use vstd::string::group_string_axioms;

/// The implementations that read a provider's site.
#[derive(Debug, Clone, Copy, PartialEq, Eq, Structural)]
pub enum AdapterKind {
    GenericConfig,
    Madara,
    Mangathemesia,
    Manganato,
    Keyoapp,
    Custom,
}

/// The adapters that a registration offers, in the order that it offers them.
pub const ADAPTER_KINDS: [AdapterKind; 6] = [
    AdapterKind::GenericConfig,
    AdapterKind::Madara,
    AdapterKind::Mangathemesia,
    AdapterKind::Manganato,
    AdapterKind::Keyoapp,
    AdapterKind::Custom,
];

impl AdapterKind {
    /// The token that an adapter travels by.
    pub open spec fn token_text(self) -> Seq<char> {
        match self {
            AdapterKind::GenericConfig => "generic_config"@,
            AdapterKind::Madara => "madara"@,
            AdapterKind::Mangathemesia => "mangathemesia"@,
            AdapterKind::Manganato => "manganato"@,
            AdapterKind::Keyoapp => "keyoapp"@,
            AdapterKind::Custom => "custom"@,
        }
    }

    /// What a token names.
    pub open spec fn named_by(token: Seq<char>) -> Option<AdapterKind> {
        if token == "generic_config"@ {
            Some(AdapterKind::GenericConfig)
        } else if token == "madara"@ {
            Some(AdapterKind::Madara)
        } else if token == "mangathemesia"@ {
            Some(AdapterKind::Mangathemesia)
        } else if token == "manganato"@ {
            Some(AdapterKind::Manganato)
        } else if token == "keyoapp"@ {
            Some(AdapterKind::Keyoapp)
        } else if token == "custom"@ {
            Some(AdapterKind::Custom)
        } else {
            None
        }
    }

    /// The token that an adapter travels by.
    pub fn token(self) -> (r: &'static str)
        ensures
            r@ == self.token_text(),
    {
        match self {
            AdapterKind::GenericConfig => "generic_config",
            AdapterKind::Madara => "madara",
            AdapterKind::Mangathemesia => "mangathemesia",
            AdapterKind::Manganato => "manganato",
            AdapterKind::Keyoapp => "keyoapp",
            AdapterKind::Custom => "custom",
        }
    }

    /// Reads a token.
    pub fn parse(token: &str) -> (r: Option<AdapterKind>)
        ensures
            r == AdapterKind::named_by(token@),
    {
        if text::same(token, "generic_config") {
            Some(AdapterKind::GenericConfig)
        } else if text::same(token, "madara") {
            Some(AdapterKind::Madara)
        } else if text::same(token, "mangathemesia") {
            Some(AdapterKind::Mangathemesia)
        } else if text::same(token, "manganato") {
            Some(AdapterKind::Manganato)
        } else if text::same(token, "keyoapp") {
            Some(AdapterKind::Keyoapp)
        } else if text::same(token, "custom") {
            Some(AdapterKind::Custom)
        } else {
            None
        }
    }

    /// Each reads back from its token.
    pub proof fn token_reads_back(self)
        ensures
            AdapterKind::named_by(self.token_text()) == Some(self),
    {
        reveal_strlit("generic_config");
        reveal_strlit("madara");
        reveal_strlit("mangathemesia");
        reveal_strlit("manganato");
        reveal_strlit("keyoapp");
        reveal_strlit("custom");
        assert("generic_config"@.len() == 14);
        assert("madara"@.len() == 6);
        assert("madara"@[0] == 'm');
        assert("mangathemesia"@.len() == 13);
        assert("manganato"@.len() == 9);
        assert("keyoapp"@.len() == 7);
        assert("custom"@.len() == 6);
        assert("custom"@[0] == 'c');
    }

    /// The adapter as the value of its option.
    pub fn to_string(&self) -> (r: String)
        ensures
            r@ == self.token_text(),
    {
        self.token().to_owned()
    }

    /// Every adapter is offered.
    pub proof fn is_offered(self)
        ensures
            ADAPTER_KINDS@.contains(self),
    {
        match self {
            AdapterKind::GenericConfig => assert(ADAPTER_KINDS@[0] == self),
            AdapterKind::Madara => assert(ADAPTER_KINDS@[1] == self),
            AdapterKind::Mangathemesia => assert(ADAPTER_KINDS@[2] == self),
            AdapterKind::Manganato => assert(ADAPTER_KINDS@[3] == self),
            AdapterKind::Keyoapp => assert(ADAPTER_KINDS@[4] == self),
            AdapterKind::Custom => assert(ADAPTER_KINDS@[5] == self),
        }
    }
}

/// The catalogue key that words an adapter.
pub fn adapter_label_key(adapter: AdapterKind) -> (r: &'static str)
    ensures
        r@ == (match adapter {
            AdapterKind::GenericConfig => "console.adapterKind.genericConfig"@,
            AdapterKind::Madara => "console.adapterKind.madara"@,
            AdapterKind::Mangathemesia => "console.adapterKind.mangathemesia"@,
            AdapterKind::Manganato => "console.adapterKind.manganato"@,
            AdapterKind::Keyoapp => "console.adapterKind.keyoapp"@,
            AdapterKind::Custom => "console.adapterKind.custom"@,
        }),
{
    match adapter {
        AdapterKind::GenericConfig => "console.adapterKind.genericConfig",
        AdapterKind::Madara => "console.adapterKind.madara",
        AdapterKind::Mangathemesia => "console.adapterKind.mangathemesia",
        AdapterKind::Manganato => "console.adapterKind.manganato",
        AdapterKind::Keyoapp => "console.adapterKind.keyoapp",
        AdapterKind::Custom => "console.adapterKind.custom",
    }
}

/// The health of a provider.
#[derive(Debug, Clone, Copy, PartialEq, Eq, Structural)]
pub enum ProviderState {
    Active,
    Degraded,
    Challenged,
    Solving,
    Blocked,
    Disabled,
}

impl ProviderState {
    /// The token that a state travels by.
    pub open spec fn token_text(self) -> Seq<char> {
        match self {
            ProviderState::Active => "active"@,
            ProviderState::Degraded => "degraded"@,
            ProviderState::Challenged => "challenged"@,
            ProviderState::Solving => "solving"@,
            ProviderState::Blocked => "blocked"@,
            ProviderState::Disabled => "disabled"@,
        }
    }

    /// What a token names.
    pub open spec fn named_by(token: Seq<char>) -> Option<ProviderState> {
        if token == "active"@ {
            Some(ProviderState::Active)
        } else if token == "degraded"@ {
            Some(ProviderState::Degraded)
        } else if token == "challenged"@ {
            Some(ProviderState::Challenged)
        } else if token == "solving"@ {
            Some(ProviderState::Solving)
        } else if token == "blocked"@ {
            Some(ProviderState::Blocked)
        } else if token == "disabled"@ {
            Some(ProviderState::Disabled)
        } else {
            None
        }
    }

    /// The token that a state travels by.
    pub fn token(self) -> (r: &'static str)
        ensures
            r@ == self.token_text(),
    {
        match self {
            ProviderState::Active => "active",
            ProviderState::Degraded => "degraded",
            ProviderState::Challenged => "challenged",
            ProviderState::Solving => "solving",
            ProviderState::Blocked => "blocked",
            ProviderState::Disabled => "disabled",
        }
    }

    /// Reads a token.
    pub fn parse(token: &str) -> (r: Option<ProviderState>)
        ensures
            r == ProviderState::named_by(token@),
    {
        if text::same(token, "active") {
            Some(ProviderState::Active)
        } else if text::same(token, "degraded") {
            Some(ProviderState::Degraded)
        } else if text::same(token, "challenged") {
            Some(ProviderState::Challenged)
        } else if text::same(token, "solving") {
            Some(ProviderState::Solving)
        } else if text::same(token, "blocked") {
            Some(ProviderState::Blocked)
        } else if text::same(token, "disabled") {
            Some(ProviderState::Disabled)
        } else {
            None
        }
    }

    /// Each reads back from its token.
    pub proof fn token_reads_back(self)
        ensures
            ProviderState::named_by(self.token_text()) == Some(self),
    {
        reveal_strlit("active");
        reveal_strlit("degraded");
        reveal_strlit("challenged");
        reveal_strlit("solving");
        reveal_strlit("blocked");
        reveal_strlit("disabled");
        assert("active"@.len() == 6);
        assert("degraded"@.len() == 8);
        assert("degraded"@[1] == 'e');
        assert("challenged"@.len() == 10);
        assert("solving"@.len() == 7);
        assert("solving"@[0] == 's');
        assert("blocked"@.len() == 7);
        assert("blocked"@[0] == 'b');
        assert("disabled"@.len() == 8);
        assert("disabled"@[1] == 'i');
    }

    /// The catalogue key that words a state.
    pub open spec fn key(self) -> Seq<char> {
        match self {
            ProviderState::Active => "console.providerState.active"@,
            ProviderState::Degraded => "console.providerState.degraded"@,
            ProviderState::Challenged => "console.providerState.challenged"@,
            ProviderState::Solving => "console.providerState.solving"@,
            ProviderState::Blocked => "console.providerState.blocked"@,
            ProviderState::Disabled => "console.providerState.disabled"@,
        }
    }

    /// The catalogue key that words a state.
    pub fn label_key(self) -> (r: &'static str)
        ensures
            r@ == self.key(),
    {
        match self {
            ProviderState::Active => "console.providerState.active",
            ProviderState::Degraded => "console.providerState.degraded",
            ProviderState::Challenged => "console.providerState.challenged",
            ProviderState::Solving => "console.providerState.solving",
            ProviderState::Blocked => "console.providerState.blocked",
            ProviderState::Disabled => "console.providerState.disabled",
        }
    }
}

/// The wire token of a state.
pub fn provider_state_token(state: ProviderState) -> (r: &'static str)
    ensures
        r@ == state.token_text(),
{
    state.token()
}

/// The class and the label of the pill for a state's token: a token that the
/// console has no word for is shown as it is.
pub open spec fn pill_of(token: Seq<char>) -> (Seq<char>, LabelView) {
    (
        match ProviderState::named_by(token) {
            Some(ProviderState::Active) => "ik-pill jade"@,
            Some(ProviderState::Blocked) | Some(ProviderState::Disabled) => "ik-pill vermilion"@,
            _ => "ik-pill"@,
        },
        match ProviderState::named_by(token) {
            Some(state) => LabelView::Worded(state.key()),
            None => if token.len() == 0 {
                LabelView::Worded("console.providerState.unknown"@)
            } else {
                LabelView::Verbatim(token)
            },
        },
    )
}

/// The class and the label of the pill for a state's token.
pub fn health_pill(token: &str) -> (r: (&'static str, Label))
    ensures
        (r.0@, r.1@) == pill_of(token@),
{
    let state = ProviderState::parse(token);
    let class = match state {
        Some(ProviderState::Active) => "ik-pill jade",
        Some(ProviderState::Blocked) | Some(ProviderState::Disabled) => "ik-pill vermilion",
        _ => "ik-pill",
    };
    let label = match state {
        Some(state) => Label::Worded(state.label_key()),
        None => if token.is_empty() {
            Label::Worded("console.providerState.unknown")
        } else {
            Label::Verbatim(token.to_owned())
        },
    };
    (class, label)
}

/// The tabs of the inspector.
#[derive(Debug, Clone, Copy, PartialEq, Eq, Structural)]
pub enum Tab {
    Config,
    Politeness,
    Coverage,
    Runs,
    Danger,
}

impl Tab {
    /// Every tab, in the order of the strip.
    pub const ALL: [Tab; 5] = [
        Tab::Config,
        Tab::Politeness,
        Tab::Coverage,
        Tab::Runs,
        Tab::Danger,
    ];

    /// The token that a tab travels by.
    pub open spec fn token_text(self) -> Seq<char> {
        match self {
            Tab::Config => "config"@,
            Tab::Politeness => "politeness"@,
            Tab::Coverage => "coverage"@,
            Tab::Runs => "runs"@,
            Tab::Danger => "danger"@,
        }
    }

    /// What a token names; any other text is the default.
    pub open spec fn named_by(token: Seq<char>) -> Tab {
        if token == "politeness"@ {
            Tab::Politeness
        } else if token == "coverage"@ {
            Tab::Coverage
        } else if token == "runs"@ {
            Tab::Runs
        } else if token == "danger"@ {
            Tab::Danger
        } else {
            Tab::Config
        }
    }

    /// The token that a tab travels by.
    pub fn token(self) -> (r: &'static str)
        ensures
            r@ == self.token_text(),
    {
        match self {
            Tab::Config => "config",
            Tab::Politeness => "politeness",
            Tab::Coverage => "coverage",
            Tab::Runs => "runs",
            Tab::Danger => "danger",
        }
    }

    /// Reads a token; any other text is the default.
    pub fn parse(token: &str) -> (r: Tab)
        ensures
            r == Tab::named_by(token@),
    {
        if text::same(token, "politeness") {
            Tab::Politeness
        } else if text::same(token, "coverage") {
            Tab::Coverage
        } else if text::same(token, "runs") {
            Tab::Runs
        } else if text::same(token, "danger") {
            Tab::Danger
        } else {
            Tab::Config
        }
    }

    /// Each reads back from its token.
    pub proof fn token_reads_back(self)
        ensures
            Tab::named_by(self.token_text()) == self,
    {
        reveal_strlit("config");
        reveal_strlit("politeness");
        reveal_strlit("coverage");
        reveal_strlit("runs");
        reveal_strlit("danger");
        assert("config"@.len() == 6);
        assert("config"@[0] == 'c');
        assert("politeness"@.len() == 10);
        assert("coverage"@.len() == 8);
        assert("runs"@.len() == 4);
        assert("danger"@.len() == 6);
        assert("danger"@[0] == 'd');
    }

    /// The catalogue key of a tab's label.
    pub fn label_key(self) -> (r: &'static str)
        ensures
            r@ == (match self {
                Tab::Config => "console.providers.tab.config"@,
                Tab::Politeness => "console.providers.tab.politeness"@,
                Tab::Coverage => "console.providers.tab.coverage"@,
                Tab::Runs => "console.providers.tab.runs"@,
                Tab::Danger => "console.providers.tab.danger"@,
            }),
    {
        match self {
            Tab::Config => "console.providers.tab.config",
            Tab::Politeness => "console.providers.tab.politeness",
            Tab::Coverage => "console.providers.tab.coverage",
            Tab::Runs => "console.providers.tab.runs",
            Tab::Danger => "console.providers.tab.danger",
        }
    }
}

/// The preset that a provider came from.
#[derive(Debug, PartialEq, Eq)]
pub struct PresetLink {
    pub slug: String,
    /// Whether the provider still follows the preset.
    pub locked: bool,
    pub synced_at: Option<String>,
}

/// A provider's crawl budget. The requests per second are the text of a real number.
#[derive(Debug, PartialEq, Eq)]
pub struct Politeness {
    pub rps: Option<String>,
    pub concurrency: Option<i32>,
    pub crawl_delay_ms: Option<i64>,
    pub user_agent: Option<String>,
    pub emulation: Option<crate::politeness::BrowserEmulation>,
}

/// A registered provider.
#[derive(Debug, PartialEq, Eq)]
pub struct Provider {
    pub id: u128,
    pub slug: String,
    pub name: String,
    pub base_url: String,
    pub adapter: AdapterKind,
    pub config: serde_json::Value,
    pub state: ProviderState,
    pub preset: Option<PresetLink>,
    pub politeness: Politeness,
    pub last_full_scan_at: Option<String>,
}

/// What a provider carries and when it was last read.
#[derive(Debug, PartialEq, Eq)]
pub struct ProviderStat {
    pub slug: String,
    pub series_count: i64,
    pub source_count: i64,
    pub chapter_count: i64,
    pub blocked_sources: i64,
    pub chapters_24h: i64,
    pub chapters_7d: i64,
    pub last_scanned_at: Option<String>,
    pub last_full_scan_at: Option<String>,
    pub last_chapter_at: Option<String>,
}

/// A preset that the build ships.
#[derive(Debug, PartialEq, Eq)]
pub struct PresetDefinition {
    pub slug: String,
    pub politeness: Politeness,
}

/// What the list's search looks for.
pub open spec fn needle_of(q: Seq<char>) -> Seq<char> {
    foreign::lowercase(text::trimmed(q))
}

/// Whether a provider answers to a search.
pub open spec fn answers(provider: Provider, needle: Seq<char>) -> bool {
    ||| needle.len() == 0
    ||| text::has_part(foreign::lowercase(provider.slug@), needle)
    ||| text::has_part(foreign::lowercase(provider.name@), needle)
}

/// The positions of the providers that answer to a search.
pub open spec fn matching(list: Seq<Provider>, q: Seq<char>) -> Seq<int> {
    rows::kept(list.len(), |i: int| answers(list[i], needle_of(q)))
}

/// Whether a provider answers to a search, given its slug, its name and the search in
/// lower case.
pub fn answers_lowered(slug: &str, name: &str, needle: &str) -> (r: bool)
    ensures
        r == (needle@.len() == 0 || text::has_part(slug@, needle@) || text::has_part(
            name@,
            needle@,
        )),
{
    needle.is_empty() || text::contains(slug, needle) || text::contains(name, needle)
}

/// The positions of the providers that answer to a search, in order.
pub fn filter_providers(list: &[Provider], q: &str) -> (r: Vec<usize>)
    ensures
        rows::positions(r@) == matching(list@, q@),
{
    let needle = text::trim(q).as_str().to_lowercase();
    let ghost test = |i: int| answers(list@[i], needle_of(q@));
    let mut out: Vec<usize> = Vec::new();
    let mut i: usize = 0;
    assert(rows::positions(out@) =~= rows::kept(0, test));
    while i < list.len()
        invariant
            i <= list.len(),
            needle@ == needle_of(q@),
            test == (|i: int| answers(list@[i], needle_of(q@))),
            rows::positions(out@) == rows::kept(i as nat, test),
        decreases list.len() - i,
    {
        let ghost earlier = out@;
        let slug = list[i].slug.as_str().to_lowercase();
        let name = list[i].name.as_str().to_lowercase();
        if answers_lowered(slug.as_str(), name.as_str(), needle.as_str()) {
            out.push(i);
            assert(rows::positions(out@) =~= rows::positions(earlier).push(i as int));
        }
        assert(rows::positions(out@) == rows::kept((i + 1) as nat, test));
        i = i + 1;
    }
    out
}

/// The position, among the providers shown, of the one that the inspector opens:
/// the selected one, or the first where the selection is not shown.
pub open spec fn opened(list: Seq<Provider>, shown: Seq<int>, sel: Option<Seq<char>>) -> Option<
    int,
> {
    let named = rows::first(
        shown.len(),
        |i: int| sel == Some(foreign::hyphenated(list[shown[i]].id)),
    );
    if named < shown.len() {
        Some(shown[named])
    } else if shown.len() > 0 {
        Some(shown[0])
    } else {
        None
    }
}

/// The position of the provider that the inspector opens.
pub fn opened_provider(list: &[Provider], shown: &[usize], sel: &Option<String>) -> (r: Option<
    usize,
>)
    requires
        forall|i: int| 0 <= i < shown@.len() ==> #[trigger] shown@[i] < list@.len(),
    ensures
        (match r {
            Some(at) => Some(at as int),
            None => None,
        }) == opened(list@, rows::positions(shown@), text::view_of(*sel)),
{
    let ghost all = rows::positions(shown@);
    let ghost test = |i: int|
        text::view_of(*sel) == Some(foreign::hyphenated(list@[all[i]].id));
    let mut i: usize = 0;
    while i < shown.len()
        invariant
            i <= shown.len(),
            all == rows::positions(shown@),
            test == (|i: int|
                text::view_of(*sel) == Some(foreign::hyphenated(list@[all[i]].id))),
            forall|i: int| 0 <= i < shown@.len() ==> #[trigger] shown@[i] < list@.len(),
            forall|j: int| 0 <= j < i ==> !#[trigger] test(j),
        decreases shown.len() - i,
    {
        assert(all[i as int] == shown@[i as int]);
        if let Some(sel) = sel {
            let id = foreign::write_uuid(list[shown[i]].id);
            if text::same(id.as_str(), sel.as_str()) {
                assert(test(i as int));
                proof {
                    rows::lemma_first(all.len(), test, i as int);
                }
                return Some(shown[i]);
            }
        }
        assert(!test(i as int));
        i = i + 1;
    }
    proof {
        rows::lemma_first(all.len(), test, all.len() as int);
    }
    if shown.len() > 0 {
        assert(all[0] == shown@[0]);
        Some(shown[0])
    } else {
        None
    }
}

/// A selection that is shown is what the inspector opens, whatever else is shown.
pub proof fn shown_selection_is_opened(list: Seq<Provider>, shown: Seq<int>, at: int)
    requires
        0 <= at < shown.len(),
        forall|i: int|
            0 <= i < shown.len() && i != at ==> list[#[trigger] shown[i]].id != list[shown[at]].id,
    ensures
        opened(list, shown, Some(foreign::hyphenated(list[shown[at]].id))) == Some(shown[at]),
{
    let sel = Some(foreign::hyphenated(list[shown[at]].id));
    let test = |i: int| sel == Some(foreign::hyphenated(list[shown[i]].id));
    assert forall|i: int| 0 <= i < at implies !#[trigger] test(i) by {
        foreign::hyphenated_is_unique(list[shown[i]].id, list[shown[at]].id);
    }
    assert(test(at));
    rows::lemma_first(shown.len(), test, at);
}

/// The inspector is empty only where no provider is shown.
pub proof fn inspector_is_never_empty(
    list: Seq<Provider>,
    shown: Seq<int>,
    sel: Option<Seq<char>>,
)
    requires
        shown.len() > 0,
    ensures
        opened(list, shown, sel) is Some,
        shown.contains(opened(list, shown, sel)->0),
{
    let test = |i: int| sel == Some(foreign::hyphenated(list[shown[i]].id));
    rows::lemma_first_holds(shown.len(), test);
    let named = rows::first(shown.len(), test);
    if named < shown.len() {
        assert(shown[named] == opened(list, shown, sel)->0);
    } else {
        assert(shown[0] == opened(list, shown, sel)->0);
    }
}

/// The selection to put into the address, where it does not name the row on screen.
pub open spec fn landing_of(sel: Option<Seq<char>>, shown: Option<Seq<char>>) -> Option<
    Seq<char>,
> {
    if shown is Some && sel != shown {
        shown
    } else {
        None
    }
}

/// The selection to put into the address, so that it names the row on screen rather
/// than whichever one sorts first under the filter that happens to be applied.
pub fn landing_selection(sel: &Option<String>, shown: Option<String>) -> (r: Option<String>)
    ensures
        text::view_of(r) == landing_of(text::view_of(*sel), text::view_of(shown)),
{
    match (sel, &shown) {
        (Some(named), Some(on_screen)) => {
            if text::same(named.as_str(), on_screen.as_str()) {
                return None;
            }
        },
        _ => {},
    }
    shown
}

/// The view that the address is replaced by on landing, where it is replaced.
pub fn landing_query(view: &ConsoleQuery, shown: Option<String>) -> (r: Option<ConsoleQuery>)
    ensures
        match (r, landing_of(view@.sel, text::view_of(shown))) {
            (Some(next), Some(sel)) => next@ == (QueryView { sel: Some(sel), page: 0, ..view@ }),
            (None, None) => true,
            _ => false,
        },
{
    match landing_selection(&view.sel, shown) {
        Some(sel) => Some(view.with_selection(Some(sel))),
        None => None,
    }
}

/// Landing settles: once the address names the row on screen, it is not replaced again.
pub proof fn landing_settles(sel: Option<Seq<char>>, shown: Option<Seq<char>>)
    ensures
        landing_of(sel, shown) is Some ==> landing_of(landing_of(sel, shown), shown) is None,
{
}

/// The position of a provider's figures, found by its slug.
pub open spec fn stat_at(stats: Seq<ProviderStat>, slug: Seq<char>) -> Option<int> {
    let at = rows::first(stats.len(), |i: int| stats[i].slug@ == slug);
    if at < stats.len() {
        Some(at)
    } else {
        None
    }
}

/// The position of a provider's figures, found by its slug.
pub fn stat_for(stats: &[ProviderStat], slug: &str) -> (r: Option<usize>)
    ensures
        (match r {
            Some(at) => Some(at as int),
            None => None,
        }) == stat_at(stats@, slug@),
{
    let ghost test = |i: int| stats@[i].slug@ == slug@;
    let mut i: usize = 0;
    while i < stats.len()
        invariant
            i <= stats.len(),
            test == (|i: int| stats@[i].slug@ == slug@),
            forall|j: int| 0 <= j < i ==> !#[trigger] test(j),
        decreases stats.len() - i,
    {
        if text::same(stats[i].slug.as_str(), slug) {
            assert(test(i as int));
            proof {
                rows::lemma_first(stats@.len(), test, i as int);
            }
            return Some(i);
        }
        assert(!test(i as int));
        i = i + 1;
    }
    proof {
        rows::lemma_first(stats@.len(), test, stats@.len() as int);
    }
    None
}

/// The position of the shipped preset that governs a provider: `None` for one that
/// came from no preset, and for one whose preset the build has retired.
pub open spec fn preset_at(presets: Seq<PresetDefinition>, provider: Provider) -> Option<int> {
    match provider.preset {
        None => None,
        Some(link) => {
            let at = rows::first(presets.len(), |i: int| presets[i].slug@ == link.slug@);
            if at < presets.len() {
                Some(at)
            } else {
                None
            }
        },
    }
}

/// The position of the shipped preset that governs a provider. A catalogue that
/// has not arrived ships nothing.
pub fn preset_for(catalogue: &Option<Vec<PresetDefinition>>, provider: &Provider) -> (r: Option<
    usize,
>)
    ensures
        (match r {
            Some(at) => Some(at as int),
            None => None,
        }) == (match *catalogue {
            Some(presets) => preset_at(presets@, *provider),
            None => None,
        }),
{
    let link = match &provider.preset {
        Some(link) => link,
        None => return None,
    };
    let presets = match catalogue {
        Some(presets) => presets,
        None => return None,
    };
    let ghost test = |i: int| presets@[i].slug@ == link.slug@;
    let mut i: usize = 0;
    while i < presets.len()
        invariant
            i <= presets.len(),
            provider.preset == Some(*link),
            *catalogue == Some(*presets),
            test == (|i: int| presets@[i].slug@ == link.slug@),
            forall|j: int| 0 <= j < i ==> !#[trigger] test(j),
        decreases presets.len() - i,
    {
        if text::same(presets[i].slug.as_str(), link.slug.as_str()) {
            assert(test(i as int));
            proof {
                rows::lemma_first(presets@.len(), test, i as int);
            }
            return Some(i);
        }
        assert(!test(i as int));
        i = i + 1;
    }
    proof {
        rows::lemma_first(presets@.len(), test, presets@.len() as int);
    }
    None
}

/// What the pane beside the list shows.
#[derive(Debug, Clone, Copy, PartialEq, Eq, Structural)]
pub enum Pane {
    /// The registration form.
    Form,
    /// The inspector, on the provider at a position.
    Inspector(usize),
    /// The invitation to pick a provider.
    Pick,
}

/// What the pane beside the list shows.
pub fn pane(creating: bool, chosen: Option<usize>) -> (r: Pane)
    ensures
        r == (if creating {
            Pane::Form
        } else {
            match chosen {
                Some(at) => Pane::Inspector(at),
                None => Pane::Pick,
            }
        }),
{
    if creating {
        return Pane::Form;
    }
    match chosen {
        Some(at) => Pane::Inspector(at),
        None => Pane::Pick,
    }
}

/// A number of rows as a count to word.
pub open spec fn worded_count(n: nat) -> i64 {
    if n <= i64::MAX {
        n as i64
    } else {
        0i64
    }
}

/// A number of rows as a count to word.
pub fn row_count(n: usize) -> (r: i64)
    ensures
        r == worded_count(n as nat),
{
    let wide: u64 = n as u64;
    if wide <= i64::MAX as u64 {
        wide as i64
    } else {
        0
    }
}

/// How many providers the search left, as its field says it, and as the list's foot does.
pub fn count_words(n: usize) -> (r: (Phrase, Phrase))
    ensures
        r.0@ == PhraseView::plural("console.providers.hits"@, worded_count(n as nat)),
        r.1@ == PhraseView::plural("console.providers.count"@, worded_count(n as nat)),
{
    let count: i64 = row_count(n);
    (
        Phrase::plural("console.providers.hits", count),
        Phrase::plural("console.providers.count", count),
    )
}

/// Whether the reader is offered the registration form.
pub fn offers_registration(caps: &Capabilities) -> (r: bool)
    ensures
        r == caps.may(Permission::ProvidersCreate),
{
    caps.can(Permission::ProvidersCreate)
}

/// How much of a provider's links is in a serving state: the serving links and all
/// of them. `None` for a provider without links.
pub open spec fn serving_share(stat: ProviderStat) -> Option<(int, int)> {
    if stat.source_count <= 0 {
        None
    } else if stat.source_count - stat.blocked_sources < 0 {
        Some((0, stat.source_count as int))
    } else {
        Some((stat.source_count - stat.blocked_sources, stat.source_count as int))
    }
}

/// How much of a provider's links is in a serving state.
pub fn healthy_share(stat: &ProviderStat) -> (r: Option<(i64, i64)>)
    requires
        stat.source_count > 0 ==> stat.source_count - stat.blocked_sources <= i64::MAX,
    ensures
        (match r {
            Some((serving, all)) => Some((serving as int, all as int)),
            None => None,
        }) == serving_share(*stat),
{
    if stat.source_count <= 0 {
        return None;
    }
    let serving: i64 = if stat.blocked_sources > stat.source_count {
        0
    } else {
        stat.source_count - stat.blocked_sources
    };
    Some((serving, stat.source_count))
}

/// The class of a row of the list.
pub open spec fn row_class_of(selected: bool, dim: bool) -> Seq<char> {
    if selected {
        "ik-cons-row selected"@
    } else if dim {
        "ik-cons-row dim"@
    } else {
        "ik-cons-row"@
    }
}

/// The class of a row of the list.
pub fn row_class(selected: bool, dim: bool) -> (r: &'static str)
    ensures
        r@ == row_class_of(selected, dim),
{
    if selected {
        "ik-cons-row selected"
    } else if dim {
        "ik-cons-row dim"
    } else {
        "ik-cons-row"
    }
}

/// The mark of a row that came from a preset, and the catalogue key that words it: a closed
/// lock while it follows the preset, and an open one once it has stopped.
pub open spec fn mark_of(locked: bool) -> (Seq<char>, Seq<char>) {
    if locked {
        ("\u{1f512}"@, "console.providers.preset.pillLocked"@)
    } else {
        ("\u{1f513}"@, "console.providers.preset.pillCustom"@)
    }
}

/// The class of the meter of serving links: it warns below ninety-five in a hundred.
pub open spec fn meter_of(serving: int, all: int) -> Seq<char> {
    if 100 * serving >= 95 * all {
        ""@
    } else {
        "warn"@
    }
}

/// What a row of the list shows of its provider.
#[derive(Debug, PartialEq, Eq)]
pub struct RowFace {
    pub class: &'static str,
    /// The mark of a preset and the catalogue key that words it, for a row that came from
    /// one: the absence of a mark is itself the answer for any other.
    pub preset_mark: Option<(&'static str, &'static str)>,
    /// The class of the meter of serving links, for a provider that has links.
    pub meter: Option<&'static str>,
    /// The line below the name: figures, or the address of a provider without any.
    pub meta: RowMeta,
}

/// The line below a provider's name.
#[derive(Debug, PartialEq, Eq)]
pub enum RowMeta {
    /// The series, the serving links of all links, and the last scan.
    Figures { series: i64, healthy: Option<(i64, i64)>, scanned_at: Option<String> },
    /// The provider's address.
    Address(String),
}

/// What a row of the list shows of its provider.
pub fn row_face(provider: &Provider, stat: Option<&ProviderStat>, selected: bool) -> (r: RowFace)
    requires
        stat is Some && stat->0.source_count > 0 ==> stat->0.source_count - stat->0.blocked_sources
            <= i64::MAX,
    ensures
        r.class@ == row_class_of(selected, provider.state == ProviderState::Disabled),
        match (r.preset_mark, provider.preset) {
            (Some((glyph, key)), Some(link)) => (glyph@, key@) == mark_of(link.locked),
            (None, None) => true,
            _ => false,
        },
        match (r.meter, stat) {
            (Some(class), Some(stat)) => match serving_share(*stat) {
                Some((serving, all)) => class@ == meter_of(serving, all),
                None => false,
            },
            (None, Some(stat)) => serving_share(*stat) is None,
            (class, None) => class is None,
        },
        match (r.meta, stat) {
            (RowMeta::Figures { series, healthy, scanned_at }, Some(stat)) => series
                == stat.series_count && (match healthy {
                Some((serving, all)) => Some((serving as int, all as int)),
                None => None,
            }) == serving_share(*stat) && text::view_of(scanned_at) == text::view_of(
                stat.last_scanned_at,
            ),
            (RowMeta::Address(url), None) => url@ == provider.base_url@,
            _ => false,
        },
{
    let preset_mark = match &provider.preset {
        Some(link) => if link.locked {
            Some(("\u{1f512}", "console.providers.preset.pillLocked"))
        } else {
            Some(("\u{1f513}", "console.providers.preset.pillCustom"))
        },
        None => None,
    };
    let healthy = match stat {
        Some(stat) => healthy_share(stat),
        None => None,
    };
    let meter = match healthy {
        Some((serving, all)) => if 100 * serving as i128 >= 95 * all as i128 {
            Some("")
        } else {
            Some("warn")
        },
        None => None,
    };
    let meta = match stat {
        Some(stat) => RowMeta::Figures {
            series: stat.series_count,
            healthy,
            scanned_at: text::copied(&stat.last_scanned_at),
        },
        None => RowMeta::Address(provider.base_url.clone()),
    };
    RowFace {
        class: row_class(selected, provider.state == ProviderState::Disabled),
        preset_mark,
        meter,
        meta,
    }
}

/// A search finds a provider by its slug or its name, in whatever case and without the
/// blanks round it, and by nothing else; a blank search finds every one. What is found
/// keeps its order.
pub proof fn a_search_finds_a_provider_by_its_row(
    list: &[Provider],
    q: &str,
    found: Vec<usize>,
    i: int,
)
    requires
        call_ensures(filter_providers, (list, q), found),
        0 <= i < list@.len(),
    ensures
        (exists|k: int| 0 <= k < found@.len() && #[trigger] found@[k] == i) <==> {
            let needle = foreign::lowercase(text::trimmed(q@));
            ||| needle.len() == 0
            ||| text::has_part(foreign::lowercase(list@[i].slug@), needle)
            ||| text::has_part(foreign::lowercase(list@[i].name@), needle)
        },
        forall|j: int, k: int|
            0 <= j < k < found@.len() ==> #[trigger] found@[j] < #[trigger] found@[k],
{
    let test = |i: int| answers(list@[i], needle_of(q@));
    rows::listed_where_it_passes(list@.len(), test, found@, i);
    assert(test(i) == answers(list@[i], needle_of(q@)));
}

/// The inspector opens the first shown provider that the address names; where it names
/// none of them, the first that is shown, and none where none is.
pub proof fn the_inspector_opens_what_the_address_names(
    list: &[Provider],
    shown: &[usize],
    sel: &Option<String>,
    at: Option<usize>,
)
    requires
        forall|i: int| 0 <= i < shown@.len() ==> #[trigger] shown@[i] < list@.len(),
        call_ensures(opened_provider, (list, shown, sel), at),
    ensures
        at is Some <==> shown@.len() > 0,
        forall|i: int|
            0 <= i < shown@.len() && *sel is Some && sel->0@ == foreign::hyphenated(
                list@[(#[trigger] shown@[i]) as int].id,
            ) ==> at is Some && list@[at->0 as int].id == list@[shown@[i] as int].id,
        (forall|i: int|
            0 <= i < shown@.len() && *sel is Some ==> sel->0@ != foreign::hyphenated(
                list@[(#[trigger] shown@[i]) as int].id,
            )) && shown@.len() > 0 ==> at == Some(shown@[0]),
{
    let all = rows::positions(shown@);
    let wanted = text::view_of(*sel);
    let test = |i: int| wanted == Some(foreign::hyphenated(list@[all[i]].id));
    rows::lemma_first_holds(all.len(), test);
    let named = rows::first(all.len(), test);
    assert(opened(list@, all, wanted) == (if named < all.len() {
        Some(all[named])
    } else if all.len() > 0 {
        Some(all[0])
    } else {
        None
    }));
    assert forall|i: int|
        0 <= i < shown@.len() && *sel is Some && sel->0@ == foreign::hyphenated(
            list@[(#[trigger] shown@[i]) as int].id,
        ) implies at is Some && list@[at->0 as int].id == list@[shown@[i] as int].id by {
        assert(test(i));
        assert(named < all.len());
        assert(test(named));
        foreign::hyphenated_is_unique(list@[all[named]].id, list@[all[i]].id);
    }
    if (forall|i: int|
        0 <= i < shown@.len() && *sel is Some ==> sel->0@ != foreign::hyphenated(
            list@[(#[trigger] shown@[i]) as int].id,
        )) && shown@.len() > 0 {
        if named < all.len() {
            assert(test(named));
            assert(shown@[named] < list@.len());
        }
    }
}

/// The address is brought in line with what is shown exactly where it names another
/// provider, or none; that is the only change, but for the page, which starts over.
pub proof fn the_address_follows_what_is_shown(
    view: &ConsoleQuery,
    shown: Option<String>,
    next: Option<ConsoleQuery>,
)
    requires
        call_ensures(landing_query, (view, shown), next),
    ensures
        next is Some <==> shown is Some && !(view.sel is Some && view.sel->0@ == shown->0@),
        next is Some ==> next->0@.sel == Some(shown->0@) && next->0@.page == 0,
        next is Some ==> (QueryView { sel: view@.sel, page: view@.page, ..next->0@ }) == view@,
{
}

/// A figure is that of the provider of its slug, the first of them; a preset is the first
/// of the slug that the provider is linked to, and a provider without a link has none.
pub proof fn figures_are_found_by_their_slug(
    stats: &[ProviderStat],
    slug: &str,
    at: Option<usize>,
    presets: &Option<Vec<PresetDefinition>>,
    provider: &Provider,
    preset: Option<usize>,
)
    requires
        call_ensures(stat_for, (stats, slug), at),
        call_ensures(preset_for, (presets, provider), preset),
    ensures
        at is Some ==> at->0 < stats@.len() && stats@[at->0 as int].slug@ == slug@,
        at is None ==> forall|i: int|
            0 <= i < stats@.len() ==> (#[trigger] stats@[i]).slug@ != slug@,
        provider.preset is None || *presets is None ==> preset is None,
        preset is Some ==> preset->0 < presets->0@.len() && presets->0@[preset->0 as int].slug@
            == provider.preset->0.slug@,
        preset is None && provider.preset is Some && *presets is Some ==> forall|i: int|
            0 <= i < presets->0@.len() ==> (#[trigger] presets->0@[i]).slug@
                != provider.preset->0.slug@,
{
    let test = |i: int| stats@[i].slug@ == slug@;
    rows::lemma_first_holds(stats@.len(), test);
    if at is None {
        assert forall|i: int| 0 <= i < stats@.len() implies (#[trigger] stats@[i]).slug@
            != slug@ by {
            assert(!test(i));
        }
    } else {
        assert(test(at->0 as int));
    }
    if *presets is Some && provider.preset is Some {
        let all = presets->0@;
        let link = provider.preset->0;
        let linked = |i: int| all[i].slug@ == link.slug@;
        rows::lemma_first_holds(all.len(), linked);
        if preset is None {
            assert forall|i: int| 0 <= i < all.len() implies (#[trigger] all[i]).slug@
                != link.slug@ by {
                assert(!linked(i));
            }
        } else {
            assert(linked(preset->0 as int));
        }
    }
}

/// The pane: the form while one registers, whatever is chosen; else the chosen provider.
pub proof fn the_form_covers_the_inspector(
    creating: bool,
    chosen: Option<usize>,
    shown: Pane,
)
    requires
        call_ensures(pane, (creating, chosen), shown),
    ensures
        shown is Form <==> creating,
        shown is Pick <==> !creating && chosen is None,
        !creating && chosen is Some ==> shown == Pane::Inspector(chosen->0),
{
}

/// What a provider serves of its sources: all but the blocked ones, never less than none;
/// one without sources has no share.
pub proof fn a_share_leaves_out_the_blocked(stat: ProviderStat)
    ensures
        serving_share(stat) is None <==> stat.source_count <= 0,
        stat.source_count > 0 && stat.blocked_sources <= stat.source_count ==> serving_share(stat)
            == Some((stat.source_count - stat.blocked_sources, stat.source_count as int)),
        stat.source_count > 0 && stat.blocked_sources > stat.source_count ==> serving_share(stat)
            == Some((0int, stat.source_count as int)),
{
}

/// A meter warns below ninety-five in a hundred, and not from there on.
pub proof fn a_meter_warns_below_its_mark(serving: int, all: int)
    ensures
        100 * serving < 95 * all ==> meter_of(serving, all) == "warn"@,
        100 * serving >= 95 * all ==> meter_of(serving, all).len() == 0,
{
    reveal_strlit("");
    assert(""@.len() == 0);
}

/// The pill of a state: its own wording; an unknown token is shown as it stands, and an
/// empty one as unknown. Only an active provider is green, and only a blocked or a
/// disabled one red.
pub proof fn a_pill_words_its_state(token: Seq<char>)
    ensures
        pill_of(token).0 == "ik-pill jade"@ <==> token == "active"@,
        pill_of(token).0 == "ik-pill vermilion"@ <==> token == "blocked"@ || token == "disabled"@,
        ProviderState::named_by(token) matches Some(state) ==> pill_of(token).1
            == LabelView::Worded(state.key()),
        ProviderState::named_by(token) is None && token.len() > 0 ==> pill_of(token).1
            == LabelView::Verbatim(token),
        token.len() == 0 ==> pill_of(token).1 == LabelView::Worded(
            "console.providerState.unknown"@,
        ),
{
    reveal_strlit("ik-pill");
    reveal_strlit("ik-pill jade");
    reveal_strlit("ik-pill vermilion");
    reveal_strlit("active");
    reveal_strlit("degraded");
    reveal_strlit("challenged");
    reveal_strlit("solving");
    reveal_strlit("blocked");
    reveal_strlit("disabled");
    assert("ik-pill"@.len() == 7);
    assert("ik-pill jade"@.len() == 12);
    assert("ik-pill vermilion"@.len() == 17);
    assert("active"@.len() == 6);
    assert("degraded"@.len() == 8 && "degraded"@[1] == 'e');
    assert("challenged"@.len() == 10);
    assert("solving"@.len() == 7 && "solving"@[0] == 's');
    assert("blocked"@.len() == 7 && "blocked"@[0] == 'b');
    assert("disabled"@.len() == 8 && "disabled"@[1] == 'i');
}

/// A state is named by its own token and by no other text, and so is an adapter.
pub proof fn tokens_name_one_thing(token: Seq<char>, state: ProviderState, adapter: AdapterKind)
    ensures
        ProviderState::named_by(token) == Some(state) <==> token == state.token_text(),
        AdapterKind::named_by(token) == Some(adapter) <==> token == adapter.token_text(),
{
    state.token_reads_back();
    adapter.token_reads_back();
}

/// The face of a row: dimmed where the provider is disabled, marked where a preset is
/// linked and by whether it is locked, and with the address in place of the figures where
/// there are none.
pub proof fn a_row_shows_its_provider(
    provider: &Provider,
    stat: Option<&ProviderStat>,
    selected: bool,
    face: RowFace,
)
    requires
        stat is Some && stat->0.source_count > 0 ==> stat->0.source_count - stat->0.blocked_sources
            <= i64::MAX,
        call_ensures(row_face, (provider, stat, selected), face),
    ensures
        selected ==> face.class@ == "ik-cons-row selected"@,
        !selected ==> (face.class@ == "ik-cons-row dim"@ <==> provider.state is Disabled),
        face.preset_mark is Some <==> provider.preset is Some,
        provider.preset is Some ==> ((face.preset_mark->0).1@
            == "console.providers.preset.pillLocked"@ <==> provider.preset->0.locked),
        stat is None ==> face.meter is None && (face.meta matches RowMeta::Address(url) && url@
            == provider.base_url@),
        stat is Some ==> (face.meta matches RowMeta::Figures { series, .. } && series
            == stat->0.series_count),
        stat is Some ==> (face.meter is Some <==> stat->0.source_count > 0),
{
    reveal_strlit("ik-cons-row selected");
    reveal_strlit("ik-cons-row dim");
    reveal_strlit("ik-cons-row");
    reveal_strlit("console.providers.preset.pillLocked");
    reveal_strlit("console.providers.preset.pillCustom");
    assert("ik-cons-row dim"@.len() == 15);
    assert("ik-cons-row"@.len() == 11);
    assert("console.providers.preset.pillLocked"@[29] == 'L');
    assert("console.providers.preset.pillCustom"@[29] == 'C');
}

/// The rows that are listed are counted one by one, in both wordings.
pub proof fn rows_are_counted(n: usize, count: i64, said: (Phrase, Phrase))
    requires
        n <= i64::MAX,
        call_ensures(row_count, (n,), count),
        call_ensures(count_words, (n,), said),
    ensures
        count == n,
        said.0@.count == Some(count),
        said.1@.count == Some(count),
        said.0@.key == "console.providers.hits"@,
        said.1@.key == "console.providers.count"@,
{
}

} // verus!
