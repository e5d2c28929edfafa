//! Registering a provider.

use crate::foreign::{self, Json};
use crate::notice::{self, Notice, NoticeView, Reply};
use crate::politeness::{PolitenessInput, PolitenessView};
use crate::provider::AdapterKind;
use crate::text;
use crate::wording::{Phrase, PhraseView};
use vstd::prelude::*;

verus! {

broadcast use vstd::string::group_string_axioms;

/// Why a form was not submitted.
#[derive(Debug, PartialEq, Eq)]
pub enum Rejected {
    /// The catalogue key of a self-contained message.
    Message(&'static str),
    /// The adapter config did not parse; the parser's words name the offending position.
    BadConfig(String),
}

/// Why a form was not submitted, as its characters.
#[verifier::ext_equal]
pub enum RejectedView {
    Message(Seq<char>),
    BadConfig(Seq<char>),
}

impl View for Rejected {
    type V = RejectedView;

    open spec fn view(&self) -> RejectedView {
        match *self {
            Rejected::Message(key) => RejectedView::Message(key@),
            Rejected::BadConfig(detail) => RejectedView::BadConfig(detail@),
        }
    }
}

impl RejectedView {
    /// What the operator is told.
    pub open spec fn phrase(self) -> PhraseView {
        match self {
            RejectedView::Message(key) => PhraseView::plain(key),
            RejectedView::BadConfig(detail) => PhraseView::plain(
                "console.providers.badConfig"@,
            ).verbatim("message"@, detail),
        }
    }
}

impl Rejected {
    /// What the operator is told.
    pub fn wording(self) -> (r: Phrase)
        ensures
            r@ == self@.phrase(),
    {
        match self {
            Rejected::Message(key) => Phrase::plain(key),
            Rejected::BadConfig(detail) => Phrase::plain("console.providers.badConfig").verbatim(
                "message",
                detail.as_str(),
            ),
        }
    }
}

/// The registration of a provider.
#[derive(Debug, PartialEq, Eq)]
pub struct CreateProvider {
    pub slug: String,
    pub name: String,
    pub base_url: String,
    pub adapter: AdapterKind,
    pub config: serde_json::Value,
    /// The crawl budget; where it is absent the server's polite defaults apply.
    pub politeness: Option<PolitenessInput>,
}

/// A registration as its characters.
#[verifier::ext_equal]
pub struct CreateView {
    pub slug: Seq<char>,
    pub name: Seq<char>,
    pub base_url: Seq<char>,
    pub adapter: AdapterKind,
    pub config: Json,
    pub politeness: Option<PolitenessView>,
}

impl View for CreateProvider {
    type V = CreateView;

    open spec fn view(&self) -> CreateView {
        CreateView {
            slug: self.slug@,
            name: self.name@,
            base_url: self.base_url@,
            adapter: self.adapter,
            config: foreign::json_of(self.config),
            politeness: match self.politeness {
                Some(p) => Some(p@),
                None => None,
            },
        }
    }
}

/// The registration that fields make, given what the config reads as.
pub open spec fn registered(
    slug: Seq<char>,
    name: Seq<char>,
    base_url: Seq<char>,
    adapter: Seq<char>,
    config: Result<Json, Seq<char>>,
) -> Result<CreateView, RejectedView> {
    match config {
        Err(complaint) => Err(RejectedView::BadConfig(complaint)),
        Ok(config) => if text::trimmed(slug).len() == 0 || text::trimmed(name).len() == 0
            || text::trimmed(base_url).len() == 0 {
            Err(RejectedView::Message("console.providers.missingFields"@))
        } else {
            match AdapterKind::named_by(adapter) {
                None => Err(RejectedView::Message("console.providers.missingFields"@)),
                Some(kind) => Ok(
                    CreateView {
                        slug: text::trimmed(slug),
                        name: text::trimmed(name),
                        base_url: text::trimmed(base_url),
                        adapter: kind,
                        config,
                        politeness: None,
                    },
                ),
            }
        },
    }
}

/// Assembles a registration from its raw fields and from what its config reads as.
///
/// # Errors
///
/// [`Rejected`] when the config is not JSON, a required field is blank, or the
/// adapter token is unknown. An unknown token is refused rather than taken for the
/// custom adapter, which would register a provider that scans nothing.
pub fn registration_with(
    slug: &str,
    name: &str,
    base_url: &str,
    adapter: &str,
    config: Result<serde_json::Value, String>,
) -> (r: Result<CreateProvider, Rejected>)
    ensures
        (match r {
            Ok(body) => Ok(body@),
            Err(why) => Err(why@),
        }) == registered(
            slug@,
            name@,
            base_url@,
            adapter@,
            match config {
                Ok(value) => Ok(foreign::json_of(value)),
                Err(complaint) => Err(complaint@),
            },
        ),
{
    let config = match config {
        Ok(value) => value,
        Err(complaint) => return Err(Rejected::BadConfig(complaint)),
    };
    let slug = text::trim(slug);
    let name = text::trim(name);
    let base_url = text::trim(base_url);
    if slug.as_str().is_empty() || name.as_str().is_empty() || base_url.as_str().is_empty() {
        return Err(Rejected::Message("console.providers.missingFields"));
    }
    match AdapterKind::parse(adapter) {
        Some(adapter) => Ok(
            CreateProvider { slug, name, base_url, adapter, config, politeness: None },
        ),
        None => Err(Rejected::Message("console.providers.missingFields")),
    }
}

/// Assembles a registration from its raw fields.
///
/// # Errors
///
/// As [`registration_with`].
pub fn registration(
    slug: &str,
    name: &str,
    base_url: &str,
    adapter: &str,
    config: &str,
) -> (r: Result<CreateProvider, Rejected>)
    ensures
        (match r {
            Ok(body) => Ok(body@),
            Err(why) => Err(why@),
        }) == registered(slug@, name@, base_url@, adapter@, foreign::json_reading(config@)),
{
    let read = foreign::read_json(config);
    registration_with(slug, name, base_url, adapter, read)
}

/// A registration that is accepted names an adapter that the picker offers, and no
/// field of it is blank.
pub proof fn accepted_registration_is_complete(
    slug: Seq<char>,
    name: Seq<char>,
    base_url: Seq<char>,
    adapter: Seq<char>,
    config: Result<Json, Seq<char>>,
)
    requires
        registered(slug, name, base_url, adapter, config) is Ok,
    ensures
        ({
            let body = registered(slug, name, base_url, adapter, config)->Ok_0;
            &&& body.slug.len() > 0
            &&& body.name.len() > 0
            &&& body.base_url.len() > 0
            &&& body.adapter.token_text() == adapter
        }),
{
}

/// The fields that a clone starts from. Politeness is not among them: a crawl
/// budget tuned for one host is a guess about another.
#[derive(Debug, PartialEq, Eq)]
pub struct CloneSeed {
    pub slug: String,
    pub name: String,
    pub base_url: String,
    pub adapter: String,
    pub config: String,
}

/// The registration form.
#[derive(Debug, PartialEq, Eq)]
pub struct RegistrationForm {
    /// Whether the form was opened as a copy of another provider.
    pub cloning: bool,
    pub slug: String,
    pub name: String,
    pub base_url: String,
    pub adapter: String,
    pub config: String,
    pub busy: bool,
    pub outcome: Option<Notice>,
}

/// The registration form as its characters.
#[verifier::ext_equal]
pub struct FormView {
    pub cloning: bool,
    pub slug: Seq<char>,
    pub name: Seq<char>,
    pub base_url: Seq<char>,
    pub adapter: Seq<char>,
    pub config: Seq<char>,
    pub busy: bool,
    pub outcome: Option<NoticeView>,
}

impl View for RegistrationForm {
    type V = FormView;

    open spec fn view(&self) -> FormView {
        FormView {
            cloning: self.cloning,
            slug: self.slug@,
            name: self.name@,
            base_url: self.base_url@,
            adapter: self.adapter@,
            config: self.config@,
            busy: self.busy,
            outcome: notice::notice_view(self.outcome),
        }
    }
}

impl FormView {
    /// The form as it opens.
    pub open spec fn opened(seed: Option<CloneSeed>) -> FormView {
        match seed {
            Some(s) => FormView {
                cloning: true,
                slug: s.slug@,
                name: s.name@,
                base_url: s.base_url@,
                adapter: s.adapter@,
                config: s.config@,
                busy: false,
                outcome: None,
            },
            None => FormView {
                cloning: false,
                slug: ""@,
                name: ""@,
                base_url: ""@,
                adapter: "generic_config"@,
                config: "{}"@,
                busy: false,
                outcome: None,
            },
        }
    }

    /// What the fields register, given what the config reads as.
    pub open spec fn body_with(self, read: Result<Json, Seq<char>>) -> Result<
        CreateView,
        RejectedView,
    > {
        registered(self.slug, self.name, self.base_url, self.adapter, read)
    }

    /// What the fields register.
    pub open spec fn body(self) -> Result<CreateView, RejectedView> {
        self.body_with(foreign::json_reading(self.config))
    }

    /// The form after a submission was asked for: nothing while another is under
    /// way, the complaint where the fields register nothing, and waiting otherwise.
    pub open spec fn submitted(self, body: Result<CreateView, RejectedView>) -> FormView {
        if self.busy {
            self
        } else {
            match body {
                Err(why) => FormView { outcome: Some(NoticeView::Bad(why.phrase())), ..self },
                Ok(_) => FormView { busy: true, outcome: None, ..self },
            }
        }
    }

    /// The form after the server's reply: cleared by a registration, and kept
    /// otherwise.
    pub open spec fn replied(self, reply: Reply) -> FormView {
        match reply {
            Reply::Done => FormView {
                slug: ""@,
                name: ""@,
                base_url: ""@,
                config: "{}"@,
                busy: false,
                ..self
            },
            _ => FormView {
                busy: false,
                outcome: notice::after_reply(self.outcome, reply, None),
                ..self
            },
        }
    }
}

impl RegistrationForm {
    /// The form as it opens: blank, or with another provider's fields filled in.
    pub fn open(seed: Option<CloneSeed>) -> (r: RegistrationForm)
        ensures
            r@ == FormView::opened(seed),
    {
        match seed {
            Some(s) => RegistrationForm {
                cloning: true,
                slug: s.slug,
                name: s.name,
                base_url: s.base_url,
                adapter: s.adapter,
                config: s.config,
                busy: false,
                outcome: None,
            },
            None => RegistrationForm {
                cloning: false,
                slug: "".to_owned(),
                name: "".to_owned(),
                base_url: "".to_owned(),
                adapter: "generic_config".to_owned(),
                config: "{}".to_owned(),
                busy: false,
                outcome: None,
            },
        }
    }

    /// The catalogue key of the form's heading.
    pub fn title_key(&self) -> (r: &'static str)
        ensures
            r@ == (if self.cloning {
                "console.providers.cloneTitle"@
            } else {
                "console.providers.add"@
            }),
    {
        if self.cloning {
            "console.providers.cloneTitle"
        } else {
            "console.providers.add"
        }
    }

    /// Submits the form: the registration to send, where there is one.
    pub fn submit(&mut self) -> (r: Option<CreateProvider>)
        ensures
            final(self)@ == old(self)@.submitted(old(self)@.body()),
            match r {
                Some(body) => !old(self)@.busy && old(self)@.body() == Ok::<
                    CreateView,
                    RejectedView,
                >(body@),
                None => old(self)@.busy || old(self)@.body() is Err,
            },
    {
        if self.busy {
            return None;
        }
        let made = registration(
            self.slug.as_str(),
            self.name.as_str(),
            self.base_url.as_str(),
            self.adapter.as_str(),
            self.config.as_str(),
        );
        self.submit_made(made)
    }

    /// Submits what the fields made of themselves, where no other request is under way.
    pub fn submit_made(&mut self, made: Result<CreateProvider, Rejected>) -> (r: Option<
        CreateProvider,
    >)
        ensures
            final(self)@ == old(self)@.submitted(
                match made {
                    Ok(body) => Ok(body@),
                    Err(why) => Err(why@),
                },
            ),
            match r {
                Some(body) => !old(self)@.busy && made is Ok && body@ == made->Ok_0@,
                None => old(self)@.busy || made is Err,
            },
    {
        if self.busy {
            return None;
        }
        match made {
            Ok(body) => {
                self.busy = true;
                self.outcome = None;
                Some(body)
            },
            Err(why) => {
                self.outcome = Some(Notice::Bad(why.wording()));
                None
            },
        }
    }

    /// Takes the server's reply. `true` where the provider was registered: the list
    /// is read again and the form closes.
    pub fn reply(&mut self, reply: Reply) -> (r: bool)
        ensures
            final(self)@ == old(self)@.replied(reply),
            r == (reply is Done),
    {
        self.busy = false;
        match reply {
            Reply::Done => {
                self.slug = "".to_owned();
                self.name = "".to_owned();
                self.base_url = "".to_owned();
                self.config = "{}".to_owned();
                true
            },
            Reply::StepUp => false,
            Reply::Failed(why) => {
                self.outcome = Some(Notice::BadText(why));
                false
            },
        }
    }
}

/// The list's registration form: whether it is open, and what it copies.
#[derive(Debug, PartialEq, Eq)]
pub struct FormSlot {
    pub creating: bool,
    pub seed: Option<CloneSeed>,
}

impl FormSlot {
    /// The "new" button: opens a blank form, or closes whichever is open.
    pub fn toggle_new(&mut self)
        ensures
            final(self).creating == !old(self).creating,
            final(self).seed is None,
    {
        self.creating = !self.creating;
        self.seed = None;
    }

    /// The "clone" button: opens the form with another provider's fields.
    pub fn open_clone(&mut self, seed: CloneSeed)
        ensures
            final(self).creating,
            final(self).seed == Some(seed),
    {
        self.seed = Some(seed);
        self.creating = true;
    }

    /// Picking a row closes the form; what it copied is kept.
    pub fn row_picked(&mut self)
        ensures
            !final(self).creating,
            final(self).seed == old(self).seed,
    {
        self.creating = false;
    }

    /// The form is done: it closes and forgets what it copied.
    pub fn done(&mut self)
        ensures
            !final(self).creating,
            final(self).seed is None,
    {
        self.seed = None;
        self.creating = false;
    }
}

/// A registration that is taken carries its three texts without the blanks round them and
/// none of them empty, the adapter that was named and the configuration as it reads, and
/// no budget of its own. One is refused for its configuration first, in the reader's own
/// words, and then for a text that is missing or an adapter that is not known.
pub proof fn a_registration_carries_its_fields(
    slug: &str,
    name: &str,
    base_url: &str,
    adapter: &str,
    config: Result<serde_json::Value, String>,
    made: Result<CreateProvider, Rejected>,
)
    requires
        call_ensures(registration_with, (slug, name, base_url, adapter, config), made),
    ensures
        ({
            let named = exists|kind: AdapterKind| adapter@ == #[trigger] kind.token_text();
            let filled = text::trimmed(slug@).len() > 0 && text::trimmed(name@).len() > 0
                && text::trimmed(base_url@).len() > 0;
            &&& made is Ok <==> config is Ok && filled && named
            &&& config is Err ==> (made->Err_0 matches Rejected::BadConfig(detail) && detail@
                == config->Err_0@)
            &&& config is Ok && !(filled && named) ==> (made->Err_0 matches Rejected::Message(key)
                && key@ == "console.providers.missingFields"@)
        }),
        made is Ok ==> {
            let body = made->Ok_0;
            &&& body.slug@ == text::trimmed(slug@)
            &&& body.name@ == text::trimmed(name@)
            &&& body.base_url@ == text::trimmed(base_url@)
            &&& body.adapter.token_text() == adapter@
            &&& foreign::json_of(body.config) == foreign::json_of(config->Ok_0)
            &&& body.politeness is None
        },
{
    assert forall|kind: AdapterKind| adapter@ == #[trigger] kind.token_text() implies
        AdapterKind::named_by(adapter@) == Some(kind) by {
        kind.token_reads_back();
    }
    if AdapterKind::named_by(adapter@) is Some {
        let kind = AdapterKind::named_by(adapter@)->0;
        assert(adapter@ == kind.token_text());
    }
    if made is Ok {
        let body = made->Ok_0;
        assert(body@.slug == body.slug@);
        assert(body@.name == body.name@);
        assert(body@.base_url == body.base_url@);
        if body.politeness is Some {
            assert(body@.politeness is Some);
        }
    }
}

/// A form opens empty on the plain adapter, or filled with what is copied; in either case
/// it is free and says nothing.
pub proof fn a_form_opens_on_its_seed(
    seed: CloneSeed,
    copied: RegistrationForm,
    plain: RegistrationForm,
)
    requires
        call_ensures(RegistrationForm::open, (Some(seed),), copied),
        call_ensures(RegistrationForm::open, (None,), plain),
    ensures
        copied.cloning,
        copied@.slug == seed.slug@,
        copied@.name == seed.name@,
        copied@.base_url == seed.base_url@,
        copied@.adapter == seed.adapter@,
        copied@.config == seed.config@,
        !copied.busy,
        copied.outcome is None,
        !plain.cloning,
        plain@.slug.len() == 0,
        plain@.name.len() == 0,
        plain@.base_url.len() == 0,
        plain@.adapter == AdapterKind::GenericConfig.token_text(),
        plain@.config == "{}"@,
        !plain.busy,
        plain.outcome is None,
{
    reveal_strlit("");
    assert(""@.len() == 0);
    assert(copied@.cloning == copied.cloning);
    assert(copied@.outcome == notice::notice_view(copied.outcome));
    assert(plain@.outcome == notice::notice_view(plain.outcome));
}

/// A form is sent once, with what was made of its fields; one that is refused says why and
/// keeps what was typed. The reply to one that went through empties the form.
pub proof fn a_form_is_sent_once(
    sending: &mut RegistrationForm,
    made: Result<CreateProvider, Rejected>,
    sent: Option<CreateProvider>,
    replied: &mut RegistrationForm,
    reply: Reply,
    again: bool,
)
    requires
        call_ensures(RegistrationForm::submit_made, (sending, made), sent),
        call_ensures(RegistrationForm::reply, (replied, reply), again),
    ensures
        sent is Some <==> !old(sending)@.busy && made is Ok,
        sent is Some ==> final(sending)@.busy && final(sending)@.outcome is None,
        old(sending)@.busy ==> final(sending)@ == old(sending)@,
        !old(sending)@.busy && made is Err ==> final(sending)@.outcome is Some
            && final(sending)@.outcome->0 is Bad && !final(sending)@.busy,
        final(sending)@.slug == old(sending)@.slug,
        final(sending)@.config == old(sending)@.config,
        again <==> reply is Done,
        !final(replied)@.busy,
        reply is Done ==> final(replied)@.slug.len() == 0 && final(replied)@.name.len() == 0
            && final(replied)@.base_url.len() == 0 && final(replied)@.config == "{}"@,
        !(reply is Done) ==> final(replied)@.slug == old(replied)@.slug && final(replied)@.name
            == old(replied)@.name && final(replied)@.base_url == old(replied)@.base_url
            && final(replied)@.config == old(replied)@.config,
        reply matches Reply::Failed(why) ==> final(replied)@.outcome == Some(
            NoticeView::BadText(why@),
        ),
        reply is StepUp ==> final(replied)@.outcome == old(replied)@.outcome,
        final(replied)@.adapter == old(replied)@.adapter,
{
    reveal_strlit("");
    assert(""@.len() == 0);
}

/// The slot of the form: a fresh one opens and closes without a seed, a copy opens with
/// its own, a picked row closes either, and a form that is done leaves nothing behind.
pub proof fn a_slot_holds_one_seed(
    toggled: &mut FormSlot,
    cloned: &mut FormSlot,
    seed: CloneSeed,
    picked: &mut FormSlot,
    finished: &mut FormSlot,
)
    requires
        call_ensures(FormSlot::toggle_new, (toggled,), ()),
        call_ensures(FormSlot::open_clone, (cloned, seed), ()),
        call_ensures(FormSlot::row_picked, (picked,), ()),
        call_ensures(FormSlot::done, (finished,), ()),
    ensures
        final(toggled).creating != old(toggled).creating && final(toggled).seed is None,
        final(cloned).creating && final(cloned).seed == Some(seed),
        !final(picked).creating,
        !final(finished).creating && final(finished).seed is None,
{
}

/// A refusal is said as what it is: a configuration with the reader's complaint, anything
/// else by its own wording.
pub proof fn a_refusal_says_what_is_wrong(why: Rejected, said: Phrase)
    requires
        call_ensures(Rejected::wording, (why,), said),
    ensures
        why matches Rejected::Message(key) ==> said@ == PhraseView::plain(key@),
        why matches Rejected::BadConfig(detail) ==> said@
            == PhraseView::plain("console.providers.badConfig"@).verbatim("message"@, detail@),
{
}

/// What a form sends is made of its own five fields, the configuration as it reads.
pub proof fn a_form_sends_its_own_fields(form: &mut RegistrationForm, sent: Option<CreateProvider>)
    requires
        call_ensures(RegistrationForm::submit, (form,), sent),
    ensures
        sent is Some ==> {
            let body = sent->0;
            &&& body.slug@ == text::trimmed(old(form)@.slug)
            &&& body.name@ == text::trimmed(old(form)@.name)
            &&& body.base_url@ == text::trimmed(old(form)@.base_url)
            &&& body.adapter.token_text() == old(form)@.adapter
            &&& foreign::json_reading(old(form)@.config) == Ok::<Json, Seq<char>>(
                foreign::json_of(body.config),
            )
            &&& final(form)@.busy
        },
        foreign::json_reading(old(form)@.config) is Err ==> sent is None,
        old(form)@.busy ==> sent is None && final(form)@ == old(form)@,
{
    if sent is Some {
        let f = old(form)@;
        accepted_registration_is_complete(
            f.slug,
            f.name,
            f.base_url,
            f.adapter,
            foreign::json_reading(f.config),
        );
        let body = sent->0;
        assert(body@.slug == body.slug@);
        assert(body@.name == body.name@);
        assert(body@.base_url == body.base_url@);
        assert(body@.adapter == body.adapter);
    }
}

} // verus!
