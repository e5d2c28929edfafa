//! The editor for one provider.
//!
//! A config edit cannot be saved until a dry run has passed: editing the config
//! closes the latch, and a passing dry run opens it. Edits of the name and of the
//! address are not gated, since they cannot break parsing.

use crate::access::{Capabilities, Permission};
use crate::foreign::{self, Json};
use crate::notice::{self, Notice, NoticeView, Reply};
use crate::politeness::{self, PolitenessInput, PolitenessView};
use crate::provider::{PresetLink, Provider, ProviderStat, ProviderState};
use crate::register::CloneSeed;
use crate::text;
use crate::wording::{Arg, ArgView, Label, LabelView, Phrase, PhraseView};
use vstd::prelude::*;

verus! {

broadcast use vstd::string::group_string_axioms;

/// How a stored config is shown in the editor: an absent one as an empty record.
pub open spec fn editor_text(config: Json) -> Seq<char> {
    if config is Null {
        "{}"@
    } else {
        match foreign::pretty_text(config) {
            Some(t) => t,
            None => "{}"@,
        }
    }
}

/// How a stored config is shown in the editor.
pub fn config_editor_text(config: &serde_json::Value) -> (r: String)
    ensures
        r@ == editor_text(foreign::json_of(*config)),
{
    if config.is_null() {
        return "{}".to_owned();
    }
    text::or_text(foreign::write_pretty(config), "{}".to_owned())
}

/// The controls that an inspector offers: each exactly when the server would accept
/// the call.
#[derive(Debug, Clone, Copy, PartialEq, Eq, Structural)]
pub struct Controls {
    pub edit: bool,
    /// Whether the fields that a preset governs can be edited: not while the
    /// provider follows it. Politeness is never among them.
    pub edit_owned: bool,
    pub create: bool,
    pub change_state: bool,
    pub scan: bool,
    pub test: bool,
    pub delete: bool,
    /// Whether the provider came from a preset that the build no longer ships.
    pub retired: bool,
}

/// Whether a provider follows the preset it came from.
pub open spec fn is_locked(provider: Provider) -> bool {
    match provider.preset {
        Some(link) => link.locked,
        None => false,
    }
}

/// The controls that an inspector offers.
pub open spec fn controls_of(caps: Capabilities, provider: Provider, shipped: bool) -> Controls {
    Controls {
        edit: caps.may(Permission::ProvidersWrite),
        edit_owned: caps.may(Permission::ProvidersWrite) && !is_locked(provider),
        create: caps.may(Permission::ProvidersCreate),
        change_state: caps.may(Permission::ProvidersState),
        scan: caps.may(Permission::ScansRun),
        test: caps.may(Permission::ProvidersTest),
        delete: caps.may(Permission::ProvidersDelete),
        retired: provider.preset is Some && !shipped,
    }
}

/// The controls that an inspector offers, where `shipped` says whether the build
/// still ships the provider's preset.
pub fn controls(caps: &Capabilities, provider: &Provider, shipped: bool) -> (r: Controls)
    ensures
        r == controls_of(*caps, *provider, shipped),
{
    let locked = match &provider.preset {
        Some(link) => link.locked,
        None => false,
    };
    let edit = caps.can(Permission::ProvidersWrite);
    Controls {
        edit,
        edit_owned: edit && !locked,
        create: caps.can(Permission::ProvidersCreate),
        change_state: caps.can(Permission::ProvidersState),
        scan: caps.can(Permission::ScansRun),
        test: caps.can(Permission::ProvidersTest),
        delete: caps.can(Permission::ProvidersDelete),
        retired: provider.preset.is_some() && !shipped,
    }
}

/// Nothing that a preset governs can be edited while the provider follows it, and
/// nothing at all without the permission to write.
pub proof fn locked_is_read_only(caps: Capabilities, provider: Provider, shipped: bool)
    ensures
        controls_of(caps, provider, shipped).edit_owned ==> !is_locked(provider) && caps.may(
            Permission::ProvidersWrite,
        ),
{
}

/// The one action that a preset's banner offers.
#[derive(Debug, Clone, Copy, PartialEq, Eq, Structural)]
pub enum BannerAction {
    /// Nothing can be done.
    Nothing,
    /// Stop following the preset, to edit.
    Unlock,
    /// Ask before following the preset again.
    AskRelink,
    /// The question whether to follow the preset again: that discards local edits.
    ConfirmRelink,
}

/// The banner that states a provider's link to its preset.
#[derive(Debug, PartialEq, Eq)]
pub struct Banner {
    pub head: &'static str,
    pub body: Phrase,
    pub action: BannerAction,
}

/// The catalogue keys of a banner's head and body.
pub open spec fn banner_keys(locked: bool, retired: bool) -> (Seq<char>, Seq<char>) {
    if retired {
        ("console.providers.preset.retiredHead"@, "console.providers.preset.retiredBody"@)
    } else if locked {
        ("console.providers.preset.lockedHead"@, "console.providers.preset.lockedBody"@)
    } else {
        ("console.providers.preset.customHead"@, "console.providers.preset.customBody"@)
    }
}

/// The one action that a banner offers: a retired preset offers nothing, and so does
/// every banner to a reader who may not edit.
pub open spec fn banner_offers(
    locked: bool,
    retired: bool,
    can_edit: bool,
    relinking: bool,
) -> BannerAction {
    if !can_edit || retired {
        BannerAction::Nothing
    } else if locked {
        BannerAction::Unlock
    } else if relinking {
        BannerAction::ConfirmRelink
    } else {
        BannerAction::AskRelink
    }
}

/// The banner that states a provider's link to its preset.
pub fn preset_banner(link: &PresetLink, retired: bool, can_edit: bool, relinking: bool) -> (r:
    Banner)
    ensures
        r.head@ == banner_keys(link.locked, retired).0,
        r.body@ == PhraseView::plain(banner_keys(link.locked, retired).1).verbatim(
            "preset"@,
            link.slug@,
        ).since("when"@, text::view_of(link.synced_at)),
        r.action == banner_offers(link.locked, retired, can_edit, relinking),
{
    let (head, body) = if retired {
        ("console.providers.preset.retiredHead", "console.providers.preset.retiredBody")
    } else if link.locked {
        ("console.providers.preset.lockedHead", "console.providers.preset.lockedBody")
    } else {
        ("console.providers.preset.customHead", "console.providers.preset.customBody")
    };
    let action = if !can_edit || retired {
        BannerAction::Nothing
    } else if link.locked {
        BannerAction::Unlock
    } else if relinking {
        BannerAction::ConfirmRelink
    } else {
        BannerAction::AskRelink
    };
    Banner {
        head,
        body: Phrase::plain(body).verbatim("preset", link.slug.as_str()).since(
            "when",
            text::copied(&link.synced_at),
        ),
        action,
    }
}

/// The scan that the inspector asks for: deltas, or the whole catalogue again.
#[derive(Debug, Clone, Copy, PartialEq, Eq, Structural)]
pub enum ScanDepth {
    Fast,
    Full,
}

impl ScanDepth {
    /// The value of the picker's option.
    pub fn token(self) -> (r: &'static str)
        ensures
            r@ == (match self {
                ScanDepth::Fast => "fast"@,
                ScanDepth::Full => "full"@,
            }),
    {
        match self {
            ScanDepth::Fast => "fast",
            ScanDepth::Full => "full",
        }
    }

    /// Reads the picker's value; any other text is the fast scan.
    pub fn parse(token: &str) -> (r: ScanDepth)
        ensures
            r == (if token@ == "full"@ {
                ScanDepth::Full
            } else {
                ScanDepth::Fast
            }),
    {
        if text::same(token, "full") {
            ScanDepth::Full
        } else {
            ScanDepth::Fast
        }
    }
}

/// The editor's state.
#[derive(Debug, PartialEq, Eq)]
pub struct Editor {
    /// The address as it is stored.
    pub original_base: String,
    /// The config as it is stored, as the editor shows it.
    pub original_config: String,
    pub name: String,
    pub base_url: String,
    pub config: String,
    /// The politeness fields, as texts.
    pub rps: String,
    pub concurrency: String,
    pub crawl_delay_ms: String,
    pub user_agent: String,
    pub emulation: String,
    /// Whether the latch is open: a dry run has passed since the last config edit.
    pub dry_run_passed: bool,
    /// The last dry run's result.
    pub sample: Option<Result<serde_json::Value, String>>,
    pub relinking: bool,
    pub busy: bool,
    pub outcome: Option<Notice>,
}

/// The editor's state as its characters.
#[verifier::ext_equal]
pub struct EditorView {
    pub original_base: Seq<char>,
    pub original_config: Seq<char>,
    pub name: Seq<char>,
    pub base_url: Seq<char>,
    pub config: Seq<char>,
    pub rps: Seq<char>,
    pub concurrency: Seq<char>,
    pub crawl_delay_ms: Seq<char>,
    pub user_agent: Seq<char>,
    pub emulation: Seq<char>,
    pub dry_run_passed: bool,
    pub sample: Option<Result<Json, Seq<char>>>,
    pub relinking: bool,
    pub busy: bool,
    pub outcome: Option<NoticeView>,
}

/// What a result with JSON holds.
pub open spec fn sample_view(r: Result<serde_json::Value, String>) -> Result<Json, Seq<char>> {
    match r {
        Ok(value) => Ok(foreign::json_of(value)),
        Err(message) => Err(message@),
    }
}

impl View for Editor {
    type V = EditorView;

    open spec fn view(&self) -> EditorView {
        EditorView {
            original_base: self.original_base@,
            original_config: self.original_config@,
            name: self.name@,
            base_url: self.base_url@,
            config: self.config@,
            rps: self.rps@,
            concurrency: self.concurrency@,
            crawl_delay_ms: self.crawl_delay_ms@,
            user_agent: self.user_agent@,
            emulation: self.emulation@,
            dry_run_passed: self.dry_run_passed,
            sample: match self.sample {
                Some(r) => Some(sample_view(r)),
                None => None,
            },
            relinking: self.relinking,
            busy: self.busy,
            outcome: notice::notice_view(self.outcome),
        }
    }
}

/// The change that a save submits.
#[derive(Debug, PartialEq, Eq)]
pub struct UpdateProvider {
    pub name: String,
    pub base_url: String,
    pub config: serde_json::Value,
    pub politeness: PolitenessInput,
}

/// The change that a save submits, as its characters.
#[verifier::ext_equal]
pub struct UpdateView {
    pub name: Seq<char>,
    pub base_url: Seq<char>,
    pub config: Json,
    pub politeness: PolitenessView,
}

impl View for UpdateProvider {
    type V = UpdateView;

    open spec fn view(&self) -> UpdateView {
        UpdateView {
            name: self.name@,
            base_url: self.base_url@,
            config: foreign::json_of(self.config),
            politeness: self.politeness@,
        }
    }
}

impl EditorView {
    /// The editor as it opens on a provider.
    pub open spec fn opened(p: Provider) -> EditorView {
        EditorView {
            original_base: p.base_url@,
            original_config: editor_text(foreign::json_of(p.config)),
            name: p.name@,
            base_url: p.base_url@,
            config: editor_text(foreign::json_of(p.config)),
            rps: match p.politeness.rps {
                Some(t) => t@,
                None => "1"@,
            },
            concurrency: text::signed_decimal(
                match p.politeness.concurrency {
                    Some(n) => n as int,
                    None => 2,
                },
            ),
            crawl_delay_ms: text::signed_decimal(
                match p.politeness.crawl_delay_ms {
                    Some(n) => n as int,
                    None => 0,
                },
            ),
            user_agent: match p.politeness.user_agent {
                Some(t) => t@,
                None => ""@,
            },
            emulation: politeness::picker_value(p.politeness.emulation),
            dry_run_passed: false,
            sample: None,
            relinking: false,
            busy: false,
            outcome: None,
        }
    }

    /// Whether the config differs from the stored one.
    pub open spec fn config_dirty(self) -> bool {
        self.config != self.original_config
    }

    /// Whether the address differs from the stored one.
    pub open spec fn base_changed(self) -> bool {
        self.base_url != self.original_base
    }

    /// Whether the config reads as JSON.
    pub open spec fn config_valid(self) -> bool {
        foreign::json_reading(self.config) is Ok
    }

    /// Whether an unproven config edit stands in the way of a save.
    pub open spec fn save_blocked(self) -> bool {
        self.config_dirty() && !self.dry_run_passed
    }

    /// What the politeness fields submit.
    pub open spec fn politeness(self) -> Result<PolitenessView, Seq<char>> {
        politeness::body_of(
            self.rps,
            self.concurrency,
            self.crawl_delay_ms,
            self.user_agent,
            self.emulation,
        )
    }

    /// What a save submits, or what it complains of.
    pub open spec fn update(self) -> Result<UpdateView, PhraseView> {
        self.update_with(foreign::json_reading(self.config))
    }

    /// What a save submits, given what the config reads as.
    pub open spec fn update_with(self, read: Result<Json, Seq<char>>) -> Result<
        UpdateView,
        PhraseView,
    > {
        match read {
            Err(complaint) => Err(
                PhraseView::plain("console.providers.badConfig"@).verbatim("message"@, complaint),
            ),
            Ok(config) => match self.politeness() {
                Err(key) => Err(PhraseView::plain(key)),
                Ok(politeness) => Ok(
                    UpdateView { name: self.name, base_url: self.base_url, config, politeness },
                ),
            },
        }
    }

    /// The editor after a save was asked for. Nothing happens while a request is
    /// under way or an unproven config edit is pending.
    pub open spec fn save_asked(self, update: Result<UpdateView, PhraseView>) -> EditorView {
        if self.busy || self.save_blocked() {
            self
        } else {
            match update {
                Err(complaint) => EditorView { outcome: Some(NoticeView::Bad(complaint)), ..self },
                Ok(_) => EditorView { busy: true, outcome: None, ..self },
            }
        }
    }

    /// The editor after the reply to a save: a save closes the latch.
    pub open spec fn save_replied(self, reply: Reply, migrating: bool) -> EditorView {
        EditorView {
            busy: false,
            dry_run_passed: self.dry_run_passed && !(reply is Done),
            outcome: notice::after_reply(
                self.outcome,
                reply,
                Some(
                    NoticeView::Good(
                        PhraseView::plain(
                            if migrating {
                                "console.providers.savedMigrating"@
                            } else {
                                "console.providers.saved"@
                            },
                        ),
                    ),
                ),
            ),
            ..self
        }
    }

    /// The editor after a request other than a save was asked for, where none is
    /// under way.
    pub open spec fn request_asked(self) -> EditorView {
        if self.busy {
            self
        } else {
            EditorView { busy: true, outcome: None, ..self }
        }
    }
}

impl Editor {
    /// Opens the editor on a provider.
    pub fn open(p: &Provider) -> (r: Editor)
        ensures
            r@ == EditorView::opened(*p),
    {
        let config = config_editor_text(&p.config);
        Editor {
            original_base: p.base_url.clone(),
            original_config: config.clone(),
            name: p.name.clone(),
            base_url: p.base_url.clone(),
            config,
            rps: match &p.politeness.rps {
                Some(t) => t.clone(),
                None => "1".to_owned(),
            },
            concurrency: text::print_i64(
                match p.politeness.concurrency {
                    Some(n) => n as i64,
                    None => 2,
                },
            ),
            crawl_delay_ms: text::print_i64(
                match p.politeness.crawl_delay_ms {
                    Some(n) => n,
                    None => 0,
                },
            ),
            user_agent: match &p.politeness.user_agent {
                Some(t) => t.clone(),
                None => "".to_owned(),
            },
            emulation: politeness::emulation_token(p.politeness.emulation.as_ref()),
            dry_run_passed: false,
            sample: None,
            relinking: false,
            busy: false,
            outcome: None,
        }
    }

    /// Whether the config differs from the stored one.
    pub fn config_dirty(&self) -> (r: bool)
        ensures
            r == self@.config_dirty(),
    {
        !text::same(self.config.as_str(), self.original_config.as_str())
    }

    /// Whether the address differs from the stored one: saving it migrates the provider.
    pub fn base_changed(&self) -> (r: bool)
        ensures
            r == self@.base_changed(),
    {
        !text::same(self.base_url.as_str(), self.original_base.as_str())
    }

    /// Whether the config reads as JSON.
    pub fn config_valid(&self) -> (r: bool)
        ensures
            r == self@.config_valid(),
    {
        foreign::read_json(self.config.as_str()).is_ok()
    }

    /// Whether an unproven config edit stands in the way of a save.
    pub fn save_blocked(&self) -> (r: bool)
        ensures
            r == self@.save_blocked(),
    {
        self.config_dirty() && !self.dry_run_passed
    }

    /// Whether the save button is live.
    pub fn save_enabled(&self) -> (r: bool)
        ensures
            r == !(self.busy || self@.save_blocked()),
    {
        !(self.busy || self.save_blocked())
    }

    /// The operator edits the config: the latch closes.
    pub fn edit_config(&mut self, typed: String)
        ensures
            final(self)@ == (EditorView { config: typed@, dry_run_passed: false, ..old(self)@ }),
    {
        self.config = typed;
        self.dry_run_passed = false;
    }

    /// The config is formatted, where it reads as JSON.
    pub fn format_config(&mut self)
        ensures
            final(self)@ == (match foreign::json_reading(old(self)@.config) {
                Ok(config) => EditorView { config: editor_text(config), ..old(self)@ },
                Err(_) => old(self)@,
            }),
    {
        if let Ok(config) = foreign::read_json(self.config.as_str()) {
            let shown = config_editor_text(&config);
            self.show_config(shown);
        }
    }

    /// The config is shown in another form: the same config, so that the latch stays as it
    /// is.
    pub fn show_config(&mut self, shown: String)
        ensures
            final(self)@ == (EditorView { config: shown@, ..old(self)@ }),
    {
        self.config = shown;
    }

    /// Asks for a save: the change to send, and whether it migrates the provider.
    pub fn save(&mut self) -> (r: Option<(UpdateProvider, bool)>)
        ensures
            final(self)@ == old(self)@.save_asked(old(self)@.update()),
            match r {
                Some((body, migrating)) => {
                    &&& !old(self)@.busy
                    &&& !old(self)@.save_blocked()
                    &&& old(self)@.update() == Ok::<UpdateView, PhraseView>(body@)
                    &&& migrating == old(self)@.base_changed()
                },
                None => old(self)@.busy || old(self)@.save_blocked() || old(self)@.update() is Err,
            },
    {
        let read = foreign::read_json(self.config.as_str());
        self.save_with(read)
    }

    /// Asks for a save, given what the config reads as.
    pub fn save_with(&mut self, read: Result<serde_json::Value, String>) -> (r: Option<
        (UpdateProvider, bool),
    >)
        ensures
            final(self)@ == old(self)@.save_asked(old(self)@.update_with(sample_view(read))),
            match r {
                Some((body, migrating)) => {
                    &&& !old(self)@.busy
                    &&& !old(self)@.save_blocked()
                    &&& old(self)@.update_with(sample_view(read)) == Ok::<UpdateView, PhraseView>(
                        body@,
                    )
                    &&& migrating == old(self)@.base_changed()
                },
                None => old(self)@.busy || old(self)@.save_blocked() || old(self)@.update_with(
                    sample_view(read),
                ) is Err,
            },
    {
        if self.busy || self.save_blocked() {
            return None;
        }
        let config = match read {
            Ok(config) => config,
            Err(complaint) => {
                self.outcome = Some(
                    Notice::Bad(
                        Phrase::plain("console.providers.badConfig").verbatim(
                            "message",
                            complaint.as_str(),
                        ),
                    ),
                );
                return None;
            },
        };
        let made = politeness::politeness_body(
            self.rps.as_str(),
            self.concurrency.as_str(),
            self.crawl_delay_ms.as_str(),
            self.user_agent.as_str(),
            self.emulation.as_str(),
        );
        let politeness = match made {
            Ok(politeness) => politeness,
            Err(key) => {
                self.outcome = Some(Notice::Bad(Phrase::plain(key)));
                return None;
            },
        };
        let migrating = self.base_changed();
        self.busy = true;
        self.outcome = None;
        Some(
            (
                UpdateProvider {
                    name: self.name.clone(),
                    base_url: self.base_url.clone(),
                    config,
                    politeness,
                },
                migrating,
            ),
        )
    }

    /// Takes the reply to a save. `true` where the provider is to be read again.
    pub fn saved(&mut self, reply: Reply, migrating: bool) -> (r: bool)
        ensures
            final(self)@ == old(self)@.save_replied(reply, migrating),
            r == (reply is Done),
    {
        self.busy = false;
        match reply {
            Reply::Done => {
                self.outcome = Some(
                    Notice::Good(
                        Phrase::plain(
                            if migrating {
                                "console.providers.savedMigrating"
                            } else {
                                "console.providers.saved"
                            },
                        ),
                    ),
                );
                self.dry_run_passed = false;
                true
            },
            Reply::StepUp => false,
            Reply::Failed(why) => {
                self.outcome = Some(Notice::BadText(why));
                false
            },
        }
    }

    /// Takes over the provider as it was read again: what is typed is kept, and is now
    /// held against what is stored.
    pub fn reloaded(&mut self, p: &Provider)
        ensures
            final(self)@ == (EditorView {
                original_base: p.base_url@,
                original_config: editor_text(foreign::json_of(p.config)),
                ..old(self)@
            }),
    {
        self.original_base = p.base_url.clone();
        self.original_config = config_editor_text(&p.config);
    }

    /// Asks for the state that the pause button stands for: the state to send.
    pub fn toggle_state(&mut self, state: ProviderState) -> (r: Option<ProviderState>)
        ensures
            final(self)@ == old(self)@.request_asked(),
            r == (if old(self)@.busy {
                None
            } else if state == ProviderState::Disabled {
                Some(ProviderState::Active)
            } else {
                Some(ProviderState::Disabled)
            }),
    {
        if self.busy {
            return None;
        }
        self.busy = true;
        self.outcome = None;
        if state == ProviderState::Disabled {
            Some(ProviderState::Active)
        } else {
            Some(ProviderState::Disabled)
        }
    }

    /// Takes the reply to a change of state. `true` where the provider is to be read again.
    pub fn state_set(&mut self, reply: Reply) -> (r: bool)
        ensures
            final(self)@ == (EditorView {
                busy: false,
                outcome: notice::after_reply(old(self)@.outcome, reply, old(self)@.outcome),
                ..old(self)@
            }),
            r == (reply is Done),
    {
        self.busy = false;
        match reply {
            Reply::Done => true,
            Reply::StepUp => false,
            Reply::Failed(why) => {
                self.outcome = Some(Notice::BadText(why));
                false
            },
        }
    }

    /// Asks for a scan, which does not wait for other requests.
    pub fn scan(&mut self)
        ensures
            final(self)@ == (EditorView { outcome: None, ..old(self)@ }),
    {
        self.outcome = None;
    }

    /// Takes the reply to a scan.
    pub fn scan_queued(&mut self, reply: Reply)
        ensures
            final(self)@ == (EditorView {
                outcome: notice::after_reply(
                    old(self)@.outcome,
                    reply,
                    Some(NoticeView::Good(PhraseView::plain("console.providers.scanQueued"@))),
                ),
                ..old(self)@
            }),
    {
        match reply {
            Reply::Done => {
                self.outcome = Some(Notice::Good(Phrase::plain("console.providers.scanQueued")));
            },
            Reply::StepUp => {},
            Reply::Failed(why) => {
                self.outcome = Some(Notice::BadText(why));
            },
        }
    }

    /// Opens the question whether to follow the preset again, or puts it away.
    pub fn ask_relink(&mut self, asking: bool)
        ensures
            final(self)@ == (EditorView { relinking: asking, ..old(self)@ }),
    {
        self.relinking = asking;
    }

    /// Asks to follow the preset again, which answers the question, or to stop following
    /// it. `true` where the request is to be sent.
    pub fn set_lock(&mut self, lock: bool) -> (r: bool)
        ensures
            final(self)@ == (EditorView {
                relinking: old(self)@.relinking && !lock,
                ..old(self)@.request_asked()
            }),
            r == !old(self)@.busy,
    {
        if lock {
            self.relinking = false;
        }
        if self.busy {
            return false;
        }
        self.busy = true;
        self.outcome = None;
        true
    }

    /// Takes the reply to a change of the link. `true` where the provider is to be
    /// read again.
    pub fn lock_set(&mut self, reply: Reply, lock: bool) -> (r: bool)
        ensures
            final(self)@ == (EditorView {
                busy: false,
                outcome: notice::after_reply(
                    old(self)@.outcome,
                    reply,
                    Some(
                        NoticeView::Good(
                            PhraseView::plain(
                                if lock {
                                    "console.providers.preset.relinked"@
                                } else {
                                    "console.providers.preset.unlocked"@
                                },
                            ),
                        ),
                    ),
                ),
                ..old(self)@
            }),
            r == (reply is Done),
    {
        self.busy = false;
        match reply {
            Reply::Done => {
                self.outcome = Some(
                    Notice::Good(
                        Phrase::plain(
                            if lock {
                                "console.providers.preset.relinked"
                            } else {
                                "console.providers.preset.unlocked"
                            },
                        ),
                    ),
                );
                true
            },
            Reply::StepUp => false,
            Reply::Failed(why) => {
                self.outcome = Some(Notice::BadText(why));
                false
            },
        }
    }

    /// Asks for a dry run. `true` where it is to be sent.
    pub fn dry_run(&mut self) -> (r: bool)
        ensures
            r == !old(self)@.busy,
            final(self)@ == (if old(self)@.busy {
                old(self)@
            } else {
                EditorView { busy: true, sample: None, ..old(self)@ }
            }),
    {
        if self.busy {
            return false;
        }
        self.busy = true;
        self.sample = None;
        true
    }

    /// Takes the result of a dry run: the latch opens exactly where it passed.
    pub fn dry_run_done(&mut self, result: Result<serde_json::Value, String>)
        ensures
            final(self)@ == (EditorView {
                busy: false,
                dry_run_passed: result is Ok,
                sample: Some(sample_view(result)),
                ..old(self)@
            }),
    {
        self.dry_run_passed = result.is_ok();
        self.sample = Some(result);
        self.busy = false;
    }

    /// Takes a preset's crawl budget over into the fields.
    pub fn take_budget(&mut self, rps: Option<String>, concurrency: Option<i32>, delay: Option<i64>)
        ensures
            final(self)@ == (EditorView {
                rps: match rps {
                    Some(t) => t@,
                    None => "1"@,
                },
                concurrency: text::signed_decimal(
                    match concurrency {
                        Some(n) => n as int,
                        None => 2,
                    },
                ),
                crawl_delay_ms: text::signed_decimal(
                    match delay {
                        Some(n) => n as int,
                        None => 0,
                    },
                ),
                ..old(self)@
            }),
    {
        self.rps = match rps {
            Some(t) => t,
            None => "1".to_owned(),
        };
        self.concurrency = text::print_i64(
            match concurrency {
                Some(n) => n as i64,
                None => 2,
            },
        );
        self.crawl_delay_ms = text::print_i64(
            match delay {
                Some(n) => n,
                None => 0,
            },
        );
    }

    /// Whether the user agent can be edited: an emulated browser brings its own.
    pub fn user_agent_editable(&self, can_edit: bool) -> (r: bool)
        ensures
            r == (can_edit && self@.emulation.len() == 0),
    {
        can_edit && self.emulation.as_str().is_empty()
    }

    /// Whether the config can be formatted.
    pub fn can_format(&self, edit_owned: bool) -> (r: bool)
        ensures
            r == (self@.config_valid() && edit_owned),
    {
        self.config_valid() && edit_owned
    }

    /// The warning that a changed address migrates the provider's series.
    pub fn migrate_warning(&self, stat: Option<&ProviderStat>) -> (r: Option<Phrase>)
        ensures
            match r {
                Some(p) => self@.base_changed() && p@ == PhraseView::plain(
                    "console.providers.migrateWarning"@,
                ).filled(
                    "count"@,
                    match stat {
                        Some(s) => ArgView::Grouped(s.series_count as int),
                        None => ArgView::Label(LabelView::Verbatim("—"@)),
                    },
                ),
                None => !self@.base_changed(),
            },
    {
        if !self.base_changed() {
            return None;
        }
        let count = match stat {
            Some(s) => Arg::Grouped(s.series_count),
            None => Arg::Label(Label::Verbatim("—".to_owned())),
        };
        Some(Phrase::plain("console.providers.migrateWarning").filled("count", count))
    }
}

/// The fields that a clone of a provider starts from.
pub fn clone_seed(p: &Provider, name: String) -> (r: CloneSeed)
    ensures
        r.slug@ == p.slug@ + "-copy"@,
        r.name@ == name@,
        r.base_url@ == p.base_url@,
        r.adapter@ == p.adapter.token_text(),
        r.config@ == editor_text(foreign::json_of(p.config)),
{
    let mut slug = p.slug.clone();
    slug.append("-copy");
    CloneSeed {
        slug,
        name,
        base_url: p.base_url.clone(),
        adapter: p.adapter.to_string(),
        config: config_editor_text(&p.config),
    }
}

/// The name that a clone of a provider starts from.
pub fn clone_name(p: &Provider) -> (r: Phrase)
    ensures
        r@ == PhraseView::plain("console.providers.cloneName"@).verbatim("name"@, p.name@),
{
    Phrase::plain("console.providers.cloneName").verbatim("name", p.name.as_str())
}

/// The pill beside the name of a provider that came from a preset: the catalogue key
/// of its text, and its title. It stands out where the provider has stopped
/// following.
pub fn preset_pill(link: &PresetLink) -> (r: (&'static str, Phrase))
    ensures
        r.0@ == (if link.locked {
            "console.providers.preset.pillLocked"@
        } else {
            "console.providers.preset.pillCustom"@
        }),
        r.1@ == PhraseView::plain(
            if link.locked {
                "console.providers.preset.pillLockedTitle"@
            } else {
                "console.providers.preset.pillCustomTitle"@
            },
        ).verbatim("preset"@, link.slug@),
{
    if link.locked {
        (
            "console.providers.preset.pillLocked",
            Phrase::plain("console.providers.preset.pillLockedTitle").verbatim(
                "preset",
                link.slug.as_str(),
            ),
        )
    } else {
        (
            "console.providers.preset.pillCustom",
            Phrase::plain("console.providers.preset.pillCustomTitle").verbatim(
                "preset",
                link.slug.as_str(),
            ),
        )
    }
}

/// The catalogue key of the button that pauses a provider, or takes it up again.
pub fn pause_key(state: ProviderState) -> (r: &'static str)
    ensures
        r@ == (if state == ProviderState::Disabled {
            "console.providers.enable"@
        } else {
            "console.providers.pause"@
        }),
{
    if state == ProviderState::Disabled {
        "console.providers.enable"
    } else {
        "console.providers.pause"
    }
}

/// The catalogue key and the class that say whether a config reads as JSON.
pub fn config_badge(valid: bool) -> (r: (&'static str, &'static str))
    ensures
        (r.0@, r.1@) == (if valid {
            ("console.providers.jsonValid"@, "ik-jsonblock"@)
        } else {
            ("console.providers.jsonInvalid"@, "ik-jsonblock bad"@)
        }),
{
    if valid {
        ("console.providers.jsonValid", "ik-jsonblock")
    } else {
        ("console.providers.jsonInvalid", "ik-jsonblock bad")
    }
}

/// A preset's crawl budget in words, with the server's defaults where it names none.
/// `rps` is the requests per second as they are to be shown.
pub fn budget_values(rps: &str, concurrency: Option<i32>, delay: Option<i64>) -> (r: Phrase)
    ensures
        r@ == PhraseView::plain("console.providers.preset.budgetValues"@).verbatim(
            "rps"@,
            rps@,
        ).number(
            "concurrency"@,
            match concurrency {
                Some(n) => n as int,
                None => 2,
            },
        ).number(
            "delay"@,
            match delay {
                Some(n) => n as int,
                None => 0,
            },
        ),
{
    Phrase::plain("console.providers.preset.budgetValues").verbatim("rps", rps).number(
        "concurrency",
        match concurrency {
            Some(n) => n as i64,
            None => 2,
        },
    ).number(
        "delay",
        match delay {
            Some(n) => n,
            None => 0,
        },
    )
}

/// What the inspector's head says of a provider's figures: its series, and the chapters
/// of the last day.
pub fn meta_words(stat: &ProviderStat) -> (r: (Phrase, Phrase))
    ensures
        r.0@ == PhraseView::plain("console.providers.metaSeries"@).grouped(
            "count"@,
            stat.series_count as int,
        ),
        r.1@ == PhraseView::plain("console.providers.metaToday"@).grouped(
            "count"@,
            stat.chapters_24h as int,
        ),
{
    (
        Phrase::plain("console.providers.metaSeries").grouped("count", stat.series_count),
        Phrase::plain("console.providers.metaToday").grouped("count", stat.chapters_24h),
    )
}

/// The stamp of the last scan: the figures' own, or else the provider's last full scan.
pub fn last_scan(stat: Option<&ProviderStat>, p: &Provider) -> (r: Option<String>)
    ensures
        text::view_of(r) == (match stat {
            Some(s) => if s.last_scanned_at is Some {
                text::view_of(s.last_scanned_at)
            } else {
                text::view_of(p.last_full_scan_at)
            },
            None => text::view_of(p.last_full_scan_at),
        }),
{
    match stat {
        Some(s) => match &s.last_scanned_at {
            Some(at) => Some(at.clone()),
            None => text::copied(&p.last_full_scan_at),
        },
        None => text::copied(&p.last_full_scan_at),
    }
}

/// What can happen to the latch.
pub enum LatchEvent {
    /// The operator edits the config.
    Edit,
    /// A dry run ends, passing or not.
    DryRun(bool),
    /// A save is done.
    Saved,
    /// Anything else: a name or an address typed, a scan, a request that failed.
    Other,
}

/// Whether the latch is open after an event.
pub open spec fn latch_after(open: bool, event: LatchEvent) -> bool {
    match event {
        LatchEvent::Edit => false,
        LatchEvent::DryRun(passed) => passed,
        LatchEvent::Saved => false,
        LatchEvent::Other => open,
    }
}

/// Whether the latch is open after some events, from an editor that has just opened.
pub open spec fn latch_open(events: Seq<LatchEvent>) -> bool
    decreases events.len(),
{
    if events.len() == 0 {
        false
    } else {
        latch_after(latch_open(events.drop_last()), events.last())
    }
}

/// The latch is open exactly where a dry run has passed and nothing has closed it
/// since: no config edit, no failing dry run and no save.
pub proof fn latch_is_open_iff_proven(events: Seq<LatchEvent>)
    ensures
        latch_open(events) == exists|k: int|
            0 <= k < events.len() && #[trigger] events[k] == LatchEvent::DryRun(true) && forall|
                j: int,
            |
                k < j < events.len() ==> #[trigger] events[j] is Other,
    decreases events.len(),
{
    if events.len() > 0 {
        let before = events.drop_last();
        let last = events.last();
        latch_is_open_iff_proven(before);
        let at = events.len() - 1;
        match last {
            LatchEvent::DryRun(true) => {
                assert(events[at] == LatchEvent::DryRun(true));
            },
            LatchEvent::Other => {
                if latch_open(before) {
                    let k = choose|k: int|
                        0 <= k < before.len() && #[trigger] before[k] == LatchEvent::DryRun(true)
                            && forall|j: int|
                            k < j < before.len() ==> #[trigger] before[j] is Other;
                    assert(events[k] == before[k]);
                    assert forall|j: int| k < j < events.len() implies #[trigger] events[j]
                        is Other by {
                        if j < at {
                            assert(events[j] == before[j]);
                        }
                    }
                } else {
                    assert forall|k: int| 0 <= k < events.len() && #[trigger] events[k]
                        == LatchEvent::DryRun(true) implies !(forall|j: int|
                        k < j < events.len() ==> #[trigger] events[j] is Other) by {
                        assert(before[k] == events[k]);
                        if forall|j: int| k < j < events.len() ==> #[trigger] events[j] is Other {
                            assert forall|j: int| k < j < before.len() implies #[trigger] before[j]
                                is Other by {
                                assert(before[j] == events[j]);
                            }
                        }
                    }
                }
            },
            _ => {
                assert forall|k: int| 0 <= k < events.len() && #[trigger] events[k]
                    == LatchEvent::DryRun(true) implies !(forall|j: int|
                    k < j < events.len() ==> #[trigger] events[j] is Other) by {
                    assert(!(events[at] is Other));
                }
            },
        }
    }
}

/// A save that is done, and then read back as it was sent, leaves nothing to save: neither
/// the config nor the address counts as changed.
pub proof fn a_save_that_reads_back_is_settled(e: EditorView, reply: Reply, p: Provider)
    requires
        reply is Done,
        p.base_url@ == e.base_url,
        editor_text(foreign::json_of(p.config)) == e.config,
    ensures
        ({
            let after = EditorView {
                original_base: p.base_url@,
                original_config: editor_text(foreign::json_of(p.config)),
                ..e.save_replied(reply, e.base_changed())
            };
            !after.config_dirty() && !after.base_changed() && !after.save_blocked()
        }),
{
}

/// Each step of the editor moves the latch as its event says, and no save goes out
/// with a changed config while the latch is closed.
pub proof fn editor_keeps_the_latch(e: EditorView, typed: Seq<char>, passed: bool, reply: Reply)
    ensures
        (EditorView { config: typed, dry_run_passed: false, ..e }).dry_run_passed == latch_after(
            e.dry_run_passed,
            LatchEvent::Edit,
        ),
        (EditorView { dry_run_passed: passed, ..e }).dry_run_passed == latch_after(
            e.dry_run_passed,
            LatchEvent::DryRun(passed),
        ),
        e.save_replied(reply, e.base_changed()).dry_run_passed == latch_after(
            e.dry_run_passed,
            if reply is Done {
                LatchEvent::Saved
            } else {
                LatchEvent::Other
            },
        ),
        e.save_asked(e.update()).dry_run_passed == e.dry_run_passed,
        e.request_asked().dry_run_passed == e.dry_run_passed,
        e.config_dirty() && !e.dry_run_passed ==> e.save_asked(e.update()) == e,
{
}

/// Each control is released by its own permission; what a preset governs is editable only
/// while the provider does not follow it, and a provider whose preset is not shipped any
/// more is retired.
pub proof fn each_control_takes_its_permission(
    caps: &Capabilities,
    provider: &Provider,
    shipped: bool,
    given: Controls,
)
    requires
        call_ensures(controls, (caps, provider, shipped), given),
    ensures
        given.edit <==> caps.permissions@.contains(Permission::ProvidersWrite),
        given.edit_owned <==> caps.permissions@.contains(Permission::ProvidersWrite)
            && !(provider.preset is Some && provider.preset->0.locked),
        given.create <==> caps.permissions@.contains(Permission::ProvidersCreate),
        given.change_state <==> caps.permissions@.contains(Permission::ProvidersState),
        given.scan <==> caps.permissions@.contains(Permission::ScansRun),
        given.test <==> caps.permissions@.contains(Permission::ProvidersTest),
        given.delete <==> caps.permissions@.contains(Permission::ProvidersDelete),
        given.retired <==> provider.preset is Some && !shipped,
{
}

/// The banner of a preset: a retired one offers nothing, nor is anything offered to a
/// reader who may not edit; a locked one can be unlocked, and an unlocked one followed
/// again, but only after a question.
pub proof fn a_banner_offers_what_can_be_done(
    link: &PresetLink,
    retired: bool,
    can_edit: bool,
    relinking: bool,
    banner: Banner,
)
    requires
        call_ensures(preset_banner, (link, retired, can_edit, relinking), banner),
    ensures
        banner.action is Nothing <==> retired || !can_edit,
        banner.action is Unlock <==> !retired && can_edit && link.locked,
        banner.action is AskRelink <==> !retired && can_edit && !link.locked && !relinking,
        banner.action is ConfirmRelink <==> !retired && can_edit && !link.locked && relinking,
        banner.head@ == (if retired {
            "console.providers.preset.retiredHead"@
        } else if link.locked {
            "console.providers.preset.lockedHead"@
        } else {
            "console.providers.preset.customHead"@
        }),
        banner.body@.args.len() == 2,
        banner.body@.args[0] == ("preset"@, ArgView::Label(LabelView::Verbatim(link.slug@))),
        link.synced_at is Some ==> banner.body@.args[1].1 == ArgView::Since(
            Some(link.synced_at->0@),
        ),
{
}

/// An editor opens on what the provider has: nothing is changed yet, nothing is blocked
/// and no test has passed; a budget that is not set shows as one a second, two at once
/// and no pause.
pub proof fn an_editor_opens_unchanged(p: &Provider, editor: Editor)
    requires
        call_ensures(Editor::open, (p,), editor),
    ensures
        editor.name@ == p.name@,
        editor.base_url@ == p.base_url@,
        editor@.config == editor@.original_config,
        editor@.base_url == editor@.original_base,
        !editor.dry_run_passed,
        !editor.busy,
        !editor.relinking,
        editor.sample is None,
        editor.outcome is None,
        p.politeness.rps is Some ==> editor.rps@ == p.politeness.rps->0@,
        p.politeness.rps is None ==> editor.rps@ == "1"@,
        p.politeness.concurrency is Some ==> editor.concurrency@ == text::signed_decimal(
            p.politeness.concurrency->0 as int,
        ),
        p.politeness.concurrency is None ==> editor.concurrency@ == text::signed_decimal(2),
        p.politeness.crawl_delay_ms is Some ==> editor.crawl_delay_ms@ == text::signed_decimal(
            p.politeness.crawl_delay_ms->0 as int,
        ),
        p.politeness.crawl_delay_ms is None ==> editor.crawl_delay_ms@ == text::signed_decimal(0),
        p.politeness.user_agent is Some ==> editor.user_agent@ == p.politeness.user_agent->0@,
        p.politeness.user_agent is None ==> editor.user_agent@.len() == 0,
{
    assert(editor@.name == editor.name@);
    assert(editor@.rps == editor.rps@);
    reveal_strlit("");
    assert(""@.len() == 0);
}

/// A configuration that was changed is saved only after a test of it has passed: typing
/// closes the latch, a test that passes opens it and one that fails closes it, and a save
/// is refused, without a word sent, while the latch is closed.
pub proof fn a_changed_configuration_needs_a_test(
    typing: &mut Editor,
    typed: String,
    tested: &mut Editor,
    result: Result<serde_json::Value, String>,
    saving: &mut Editor,
    sent: Option<(UpdateProvider, bool)>,
)
    requires
        call_ensures(Editor::edit_config, (typing, typed), ()),
        call_ensures(Editor::dry_run_done, (tested, result), ()),
        call_ensures(Editor::save, (saving,), sent),
    ensures
        final(typing)@.config == typed@,
        !final(typing)@.dry_run_passed,
        (EditorView {
            config: old(typing)@.config,
            dry_run_passed: old(typing)@.dry_run_passed,
            ..final(typing)@
        }) == old(typing)@,
        final(tested)@.dry_run_passed <==> result is Ok,
        !final(tested)@.busy,
        final(tested)@.sample is Some,
        final(tested)@.config == old(tested)@.config,
        old(saving)@.config != old(saving)@.original_config && !old(saving)@.dry_run_passed
            ==> sent is None && final(saving)@ == old(saving)@,
        old(saving)@.busy ==> sent is None && final(saving)@ == old(saving)@,
{
}

/// A save that is sent carries the fields as they stand, with the configuration as it
/// reads, and says that the series move along exactly where the address changed.
pub proof fn a_save_carries_the_fields_as_they_stand(
    saving: &mut Editor,
    read: Result<serde_json::Value, String>,
    sent: Option<(UpdateProvider, bool)>,
)
    requires
        call_ensures(Editor::save_with, (saving, read), sent),
    ensures
        sent is Some ==> {
            let body = (sent->0).0;
            &&& body.name@ == old(saving)@.name
            &&& body.base_url@ == old(saving)@.base_url
            &&& read is Ok
            &&& foreign::json_of(body.config) == foreign::json_of(read->Ok_0)
            &&& (sent->0).1 <==> old(saving)@.base_url != old(saving)@.original_base
            &&& final(saving)@.busy
            &&& final(saving)@.outcome is None
        },
        !old(saving)@.busy && (old(saving)@.config == old(saving)@.original_config
            || old(saving)@.dry_run_passed) && read is Err ==> sent is None && (
        final(saving)@.outcome matches Some(NoticeView::Bad(said)) && said.args == seq![
            ("message"@, ArgView::Label(LabelView::Verbatim(read->Err_0@))),
        ]),
        sent is None ==> final(saving)@.busy == old(saving)@.busy,
        final(saving)@.config == old(saving)@.config,
        final(saving)@.name == old(saving)@.name,
        final(saving)@.base_url == old(saving)@.base_url,
        final(saving)@.dry_run_passed == old(saving)@.dry_run_passed,
{
    let view = sample_view(read);
    if !old(saving)@.busy && !old(saving)@.save_blocked() && read is Err {
        assert(view is Err);
        let said = final(saving)@.outcome->0->Bad_0;
        assert(said.args =~= seq![
            ("message"@, ArgView::Label(LabelView::Verbatim(read->Err_0@))),
        ]);
    }
    if sent is Some {
        assert((sent->0).0@.name == (sent->0).0.name@);
        assert((sent->0).0@.base_url == (sent->0).0.base_url@);
        assert(view is Ok);
    }
}

/// A save that went through closes the latch and says what it did; one that did not keeps
/// it. In any case the editor is free again, and what was typed stays.
pub proof fn a_save_that_went_through_closes_the_latch(
    editor: &mut Editor,
    reply: Reply,
    migrating: bool,
    again: bool,
)
    requires
        call_ensures(Editor::saved, (editor, reply, migrating), again),
    ensures
        again <==> reply is Done,
        !final(editor)@.busy,
        reply is Done ==> !final(editor)@.dry_run_passed,
        !(reply is Done) ==> final(editor)@.dry_run_passed == old(editor)@.dry_run_passed,
        reply is Done ==> (final(editor)@.outcome matches Some(NoticeView::Good(said)) && said.key
            == (if migrating {
            "console.providers.savedMigrating"@
        } else {
            "console.providers.saved"@
        })),
        reply is StepUp ==> final(editor)@.outcome == old(editor)@.outcome,
        reply matches Reply::Failed(why) ==> final(editor)@.outcome == Some(
            NoticeView::BadText(why@),
        ),
        (EditorView {
            busy: old(editor)@.busy,
            dry_run_passed: old(editor)@.dry_run_passed,
            outcome: old(editor)@.outcome,
            ..final(editor)@
        }) == old(editor)@,
{
}

/// What was read again is what the fields are held against from then on; the fields
/// themselves stay as they were typed.
pub proof fn reading_again_keeps_what_was_typed(editor: &mut Editor, p: &Provider)
    requires
        call_ensures(Editor::reloaded, (editor, p), ()),
    ensures
        final(editor)@.original_base == p.base_url@,
        foreign::json_of(p.config) is Null ==> final(editor)@.original_config == "{}"@,
        (EditorView {
            original_base: old(editor)@.original_base,
            original_config: old(editor)@.original_config,
            ..final(editor)@
        }) == old(editor)@,
{
}

/// A pause turns a disabled provider on and any other off, once.
pub proof fn a_pause_turns_the_state_over(
    editor: &mut Editor,
    state: ProviderState,
    asked: Option<ProviderState>,
)
    requires
        call_ensures(Editor::toggle_state, (editor, state), asked),
    ensures
        asked is Some <==> !old(editor)@.busy,
        asked is Some ==> (asked->0 is Active <==> state is Disabled) && (asked->0 is Disabled
            <==> !(state is Disabled)),
        asked is Some ==> final(editor)@.busy && final(editor)@.outcome is None,
        asked is None ==> final(editor)@ == old(editor)@,
{
}

/// Following a preset again is asked about, and the question closes with the request;
/// leaving it needs none. The reply says which of the two it was.
pub proof fn a_lock_is_set_once(
    asking: &mut Editor,
    lock: bool,
    sent: bool,
    replied: &mut Editor,
    reply: Reply,
    again: bool,
)
    requires
        call_ensures(Editor::set_lock, (asking, lock), sent),
        call_ensures(Editor::lock_set, (replied, reply, lock), again),
    ensures
        sent <==> !old(asking)@.busy,
        lock ==> !final(asking)@.relinking,
        !lock ==> final(asking)@.relinking == old(asking)@.relinking,
        sent ==> final(asking)@.busy,
        again <==> reply is Done,
        !final(replied)@.busy,
        reply is Done ==> (final(replied)@.outcome matches Some(NoticeView::Good(said)) && said.key
            == (if lock {
            "console.providers.preset.relinked"@
        } else {
            "console.providers.preset.unlocked"@
        })),
        reply matches Reply::Failed(why) ==> final(replied)@.outcome == Some(
            NoticeView::BadText(why@),
        ),
{
}

/// A test of the configuration runs alone and forgets the sample before it.
pub proof fn a_test_runs_alone(editor: &mut Editor, sent: bool)
    requires
        call_ensures(Editor::dry_run, (editor,), sent),
    ensures
        sent <==> !old(editor)@.busy,
        sent ==> final(editor)@.busy && final(editor)@.sample is None,
        sent ==> final(editor)@.dry_run_passed == old(editor)@.dry_run_passed
            && final(editor)@.config == old(editor)@.config,
        !sent ==> final(editor)@ == old(editor)@,
{
}

/// A move of the address warns of the series that go along, and of how many where that is
/// known; an address that stands warns of nothing.
pub proof fn a_move_warns_of_the_series(
    editor: &Editor,
    stat: Option<&ProviderStat>,
    warning: Option<Phrase>,
)
    requires
        call_ensures(Editor::migrate_warning, (editor, stat), warning),
    ensures
        warning is Some <==> editor@.base_url != editor@.original_base,
        warning is Some && stat is Some ==> warning->0@.args == seq![
            ("count"@, ArgView::Grouped(stat->0.series_count as int)),
        ],
        warning is Some && stat is None ==> warning->0@.args == seq![
            ("count"@, ArgView::Label(LabelView::Verbatim("—"@))),
        ],
{
    if warning is Some {
        assert(warning->0@.args =~= seq![warning->0@.args[0]]);
    }
}

/// What can be done with the fields: the client's name only while no browser is imitated,
/// and the configuration is laid out only where it reads and may be edited.
pub proof fn a_field_is_editable_where_it_counts(
    editor: &Editor,
    can_edit: bool,
    agent: bool,
    layout: bool,
    enabled: bool,
)
    requires
        call_ensures(Editor::user_agent_editable, (editor, can_edit), agent),
        call_ensures(Editor::can_format, (editor, can_edit), layout),
        call_ensures(Editor::save_enabled, (editor,), enabled),
    ensures
        agent <==> can_edit && editor@.emulation.len() == 0,
        layout <==> can_edit && foreign::json_reading(editor@.config) is Ok,
        enabled <==> !editor@.busy && (editor@.config == editor@.original_config
            || editor@.dry_run_passed),
{
}

/// A copy starts from its provider in all but the slug and the name: the slug is marked as
/// a copy, so it is never the same.
pub proof fn a_copy_starts_from_its_provider(p: &Provider, name: String, seed: CloneSeed)
    requires
        call_ensures(clone_seed, (p, name), seed),
    ensures
        seed.slug@ != p.slug@,
        seed.slug@.len() == p.slug@.len() + 5,
        p.slug@.is_prefix_of(seed.slug@),
        seed.name@ == name@,
        seed.base_url@ == p.base_url@,
        seed.adapter@ == p.adapter.token_text(),
        foreign::json_of(p.config) is Null ==> seed.config@ == "{}"@,
{
    reveal_strlit("-copy");
    assert("-copy"@.len() == 5);
}

/// The last scan is that of the figures where they know one, and the provider's own last
/// full scan otherwise.
pub proof fn the_last_scan_is_the_known_one(
    stat: &ProviderStat,
    p: &Provider,
    with: Option<String>,
    without: Option<String>,
)
    requires
        call_ensures(last_scan, (Some(stat), p), with),
        call_ensures(last_scan, (None, p), without),
    ensures
        stat.last_scanned_at is Some ==> with is Some && with->0@ == stat.last_scanned_at->0@,
        stat.last_scanned_at is None ==> text::view_of(with) == text::view_of(without),
        without is Some <==> p.last_full_scan_at is Some,
        without is Some ==> without->0@ == p.last_full_scan_at->0@,
{
}

/// A configuration is edited as it is laid out; one that is missing, or that cannot be laid
/// out, as an empty record.
pub proof fn a_missing_configuration_is_an_empty_record(config: Json)
    ensures
        config is Null ==> editor_text(config) == "{}"@,
        !(config is Null) && foreign::pretty_text(config) is Some ==> editor_text(config)
            == foreign::pretty_text(config)->0,
        foreign::pretty_text(config) is None ==> editor_text(config) == "{}"@,
{
}

/// Laying the configuration out changes its text and nothing else, and not even that where
/// it does not read; it neither opens nor closes the latch.
pub proof fn laying_out_keeps_the_latch(editor: &mut Editor)
    requires
        call_ensures(Editor::format_config, (editor,), ()),
    ensures
        foreign::json_reading(old(editor)@.config) is Err ==> final(editor)@ == old(editor)@,
        foreign::json_reading(old(editor)@.config) matches Ok(config) ==> final(editor)@.config
            == editor_text(config),
        (EditorView { config: old(editor)@.config, ..final(editor)@ }) == old(editor)@,
{
}

/// A budget that is taken over replaces the three numbers, with their own defaults where
/// one is not given, and leaves the rest of the editor alone.
pub proof fn a_budget_is_taken_over(
    editor: &mut Editor,
    rps: Option<String>,
    concurrency: Option<i32>,
    delay: Option<i64>,
)
    requires
        call_ensures(Editor::take_budget, (editor, rps, concurrency, delay), ()),
    ensures
        rps is Some ==> final(editor)@.rps == rps->0@,
        rps is None ==> final(editor)@.rps == "1"@,
        final(editor)@.concurrency == text::signed_decimal(
            if concurrency is Some {
                concurrency->0 as int
            } else {
                2
            },
        ),
        final(editor)@.crawl_delay_ms == text::signed_decimal(
            if delay is Some {
                delay->0 as int
            } else {
                0
            },
        ),
        (EditorView {
            rps: old(editor)@.rps,
            concurrency: old(editor)@.concurrency,
            crawl_delay_ms: old(editor)@.crawl_delay_ms,
            ..final(editor)@
        }) == old(editor)@,
{
}

/// A scan is queued without holding the editor up: it wipes what was said, and the reply
/// says that it was queued or why not.
pub proof fn a_scan_does_not_hold_the_editor_up(
    asked: &mut Editor,
    replied: &mut Editor,
    reply: Reply,
)
    requires
        call_ensures(Editor::scan, (asked,), ()),
        call_ensures(Editor::scan_queued, (replied, reply), ()),
    ensures
        final(asked)@.outcome is None,
        (EditorView { outcome: old(asked)@.outcome, ..final(asked)@ }) == old(asked)@,
        reply is Done ==> (final(replied)@.outcome matches Some(NoticeView::Good(said)) && said.key
            == "console.providers.scanQueued"@),
        reply matches Reply::Failed(why) ==> final(replied)@.outcome == Some(
            NoticeView::BadText(why@),
        ),
        reply is StepUp ==> final(replied)@.outcome == old(replied)@.outcome,
        (EditorView { outcome: old(replied)@.outcome, ..final(replied)@ }) == old(replied)@,
{
}

/// A depth is read from its own token, and any other text is the fast one.
pub proof fn a_depth_reads_back(depth: ScanDepth, token: &'static str, text: &str, read: ScanDepth)
    requires
        call_ensures(ScanDepth::token, (depth,), token),
        call_ensures(ScanDepth::parse, (text,), read),
    ensures
        text@ == token@ ==> read == depth,
        read is Full <==> text@ == "full"@,
{
    reveal_strlit("fast");
    reveal_strlit("full");
    assert("fast"@[1] == 'a');
    assert("full"@[1] == 'u');
}

} // verus!
