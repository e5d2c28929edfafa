//! Irreversible and near-irreversible operations on a provider.
//!
//! Two tiers: blocklisting is reversible and asks once more on the spot; deleting is
//! not, and is gated on typing the slug.

use crate::notice::{self, Notice, NoticeView, Reply};
use crate::provider::{ProviderStat, ProviderState};
use crate::text;
use crate::wording::{Arg, ArgView, Label, LabelView, Phrase, PhraseView};
use vstd::prelude::*;

verus! {

broadcast use vstd::string::group_string_axioms;

/// Whether the operator typed what an irreversible action asks for: white space
/// around it does not count.
pub open spec fn confirms(typed: Seq<char>, expect: Seq<char>) -> bool {
    text::trimmed(typed) == expect
}

/// Whether the operator typed what an irreversible action asks for.
pub fn is_confirmed(typed: &str, expect: &str) -> (r: bool)
    ensures
        r == confirms(typed@, expect@),
{
    let trimmed = text::trim(typed);
    text::same(trimmed.as_str(), expect)
}

/// Whether the button of an irreversible action is live.
pub fn confirm_enabled(typed: &str, expect: &str, busy: bool) -> (r: bool)
    ensures
        r == (!busy && confirms(typed@, expect@)),
{
    !busy && is_confirmed(typed, expect)
}

/// A figure of the blast radius: a dash where it is not known.
pub open spec fn radius_figure(n: Option<i64>) -> ArgView {
    match n {
        Some(n) => ArgView::Grouped(n as int),
        None => ArgView::Label(LabelView::Verbatim("—"@)),
    }
}

fn figure(n: Option<i64>) -> (r: Arg)
    ensures
        r@ == radius_figure(n),
{
    match n {
        Some(n) => Arg::Grouped(n),
        None => Arg::Label(Label::Verbatim("—".to_owned())),
    }
}

/// What deleting a provider destroys, in numbers that the operator can check.
pub fn delete_radius(stat: Option<&ProviderStat>) -> (r: Phrase)
    ensures
        r@ == PhraseView::plain("console.providers.deleteRadius"@).filled(
            "sources"@,
            radius_figure(
                match stat {
                    Some(s) => Some(s.source_count),
                    None => None,
                },
            ),
        ).filled(
            "chapters"@,
            radius_figure(
                match stat {
                    Some(s) => Some(s.chapter_count),
                    None => None,
                },
            ),
        ),
{
    let (sources, chapters) = match stat {
        Some(s) => (Some(s.source_count), Some(s.chapter_count)),
        None => (None, None),
    };
    Phrase::plain("console.providers.deleteRadius").filled("sources", figure(sources)).filled(
        "chapters",
        figure(chapters),
    )
}

/// What pressing the blocklist button does.
#[derive(Debug, Clone, Copy, PartialEq, Eq, Structural)]
pub enum BlockPress {
    /// The provider is blocked: it is let in again at once.
    Unblock,
    /// It is not: the question is put first.
    Ask,
}

impl BlockPress {
    /// The state that is asked for: at once to let a provider in, and once the question is
    /// confirmed to block it.
    pub open spec fn asked(self) -> ProviderState {
        match self {
            BlockPress::Unblock => ProviderState::Active,
            BlockPress::Ask => ProviderState::Blocked,
        }
    }
}

/// The catalogue key of the blocklist button.
pub fn block_key(state: ProviderState) -> (r: &'static str)
    ensures
        r@ == (if state == ProviderState::Blocked {
            "console.providers.unblock"@
        } else {
            "console.providers.blocklistCta"@
        }),
{
    if state == ProviderState::Blocked {
        "console.providers.unblock"
    } else {
        "console.providers.blocklistCta"
    }
}

/// The tab's state.
#[derive(Debug, PartialEq, Eq)]
pub struct Danger {
    /// Whether the question whether to blocklist stands.
    pub confirming: bool,
    pub busy: bool,
    pub outcome: Option<Notice>,
}

/// The tab's state as its characters.
#[verifier::ext_equal]
pub struct DangerView {
    pub confirming: bool,
    pub busy: bool,
    pub outcome: Option<NoticeView>,
}

impl View for Danger {
    type V = DangerView;

    open spec fn view(&self) -> DangerView {
        DangerView {
            confirming: self.confirming,
            busy: self.busy,
            outcome: notice::notice_view(self.outcome),
        }
    }
}

impl Danger {
    /// Presses the blocklist button.
    pub fn press_block(&mut self, state: ProviderState) -> (r: BlockPress)
        ensures
            r == (if state == ProviderState::Blocked {
                BlockPress::Unblock
            } else {
                BlockPress::Ask
            }),
            final(self)@ == (DangerView {
                confirming: old(self)@.confirming || r is Ask,
                ..old(self)@
            }),
    {
        if state == ProviderState::Blocked {
            BlockPress::Unblock
        } else {
            self.confirming = true;
            BlockPress::Ask
        }
    }

    /// Withdraws the question.
    pub fn cancel(&mut self)
        ensures
            final(self)@ == (DangerView { confirming: false, ..old(self)@ }),
    {
        self.confirming = false;
    }

    /// Asks for a change of state or for a deletion. `true` where it is to be sent:
    /// not while another request is under way.
    pub fn ask(&mut self) -> (r: bool)
        ensures
            r == !old(self)@.busy,
            final(self)@ == (if old(self)@.busy {
                old(self)@
            } else {
                DangerView { busy: true, outcome: None, ..old(self)@ }
            }),
    {
        if self.busy {
            return false;
        }
        self.busy = true;
        self.outcome = None;
        true
    }

    /// Asks for the state that a press stands for, at once or once its question is
    /// confirmed: the state to send, unless another request is under way.
    pub fn set_blocked(&mut self, press: BlockPress) -> (r: Option<ProviderState>)
        ensures
            r == (if old(self)@.busy {
                None
            } else {
                Some(press.asked())
            }),
            final(self)@ == (if old(self)@.busy {
                old(self)@
            } else {
                DangerView { busy: true, outcome: None, ..old(self)@ }
            }),
    {
        if !self.ask() {
            return None;
        }
        match press {
            BlockPress::Unblock => Some(ProviderState::Active),
            BlockPress::Ask => Some(ProviderState::Blocked),
        }
    }

    /// Takes the reply to a change of state. `true` where the provider is to be read again.
    pub fn state_set(&mut self, reply: Reply) -> (r: bool)
        ensures
            r == (reply is Done),
            final(self)@ == (DangerView {
                confirming: old(self)@.confirming && !(reply is Done),
                busy: false,
                outcome: notice::after_reply(old(self)@.outcome, reply, old(self)@.outcome),
            }),
    {
        self.busy = false;
        match reply {
            Reply::Done => {
                self.confirming = false;
                true
            },
            Reply::StepUp => false,
            Reply::Failed(why) => {
                self.outcome = Some(Notice::BadText(why));
                false
            },
        }
    }

    /// Takes the reply to a deletion. `true` where the provider is gone: the selection
    /// is dropped and the list is read again.
    pub fn deleted(&mut self, reply: Reply) -> (r: bool)
        ensures
            r == (reply is Done),
            final(self)@ == (DangerView {
                busy: false,
                outcome: notice::after_reply(old(self)@.outcome, reply, old(self)@.outcome),
                ..old(self)@
            }),
    {
        self.busy = false;
        match reply {
            Reply::Done => true,
            Reply::StepUp => false,
            Reply::Failed(why) => {
                self.outcome = Some(Notice::BadText(why));
                false
            },
        }
    }
}

/// Nothing but the expected text, with white space around it, confirms: and a text
/// that is all white space never does.
pub proof fn blank_never_confirms(typed: Seq<char>, expect: Seq<char>)
    requires
        text::trimmed(typed).len() == 0,
        expect.len() > 0,
    ensures
        !confirms(typed, expect),
{
}

/// Only the expected text releases a dangerous press: blanks round it are let pass,
/// another text is not, and nothing is released while a request is under way.
pub proof fn only_the_expected_text_releases(
    typed: &str,
    expect: &str,
    busy: bool,
    confirmed: bool,
    enabled: bool,
)
    requires
        call_ensures(is_confirmed, (typed, expect), confirmed),
        call_ensures(confirm_enabled, (typed, expect, busy), enabled),
    ensures
        confirmed <==> text::trimmed(typed@) == expect@,
        enabled <==> confirmed && !busy,
{
}

/// The radius of a deletion is what the provider carries: its sources and its chapters,
/// and a dash for each where nothing is known of it.
pub proof fn a_radius_is_what_the_provider_carries(
    stat: &ProviderStat,
    known: Phrase,
    unknown: Phrase,
)
    requires
        call_ensures(delete_radius, (Some(stat),), known),
        call_ensures(delete_radius, (None,), unknown),
    ensures
        known@.args == seq![
            ("sources"@, ArgView::Grouped(stat.source_count as int)),
            ("chapters"@, ArgView::Grouped(stat.chapter_count as int)),
        ],
        unknown@.args == seq![
            ("sources"@, ArgView::Label(LabelView::Verbatim("—"@))),
            ("chapters"@, ArgView::Label(LabelView::Verbatim("—"@))),
        ],
{
    assert(known@.args =~= seq![
        ("sources"@, ArgView::Grouped(stat.source_count as int)),
        ("chapters"@, ArgView::Grouped(stat.chapter_count as int)),
    ]);
    assert(unknown@.args =~= seq![
        ("sources"@, ArgView::Label(LabelView::Verbatim("—"@))),
        ("chapters"@, ArgView::Label(LabelView::Verbatim("—"@))),
    ]);
}

/// A blocked provider is unblocked at once, into the active state; any other is asked
/// about first and then blocked. While a request is under way nothing is sent.
pub proof fn blocking_is_asked_about_and_unblocking_is_not(
    pressed: &mut Danger,
    state: ProviderState,
    press: BlockPress,
    sending: &mut Danger,
    sent: Option<ProviderState>,
)
    requires
        call_ensures(Danger::press_block, (pressed, state), press),
        call_ensures(Danger::set_blocked, (sending, press), sent),
    ensures
        press is Unblock <==> state is Blocked,
        press is Ask ==> final(pressed)@.confirming,
        press is Unblock ==> final(pressed)@ == old(pressed)@,
        final(pressed)@.busy == old(pressed)@.busy,
        sent is Some <==> !old(sending)@.busy,
        sent is Some ==> (sent->0 is Active <==> state is Blocked) && (sent->0 is Blocked
            <==> !(state is Blocked)),
        sent is Some ==> final(sending)@.busy && final(sending)@.outcome is None,
        sent is None ==> final(sending)@ == old(sending)@,
{
}

/// A reply frees the zone; the question closes only where the state was set, and a failure
/// is said in its own words.
pub proof fn a_reply_frees_the_zone(
    set: &mut Danger,
    deleting: &mut Danger,
    reply: Reply,
    reloaded: bool,
    gone: bool,
)
    requires
        call_ensures(Danger::state_set, (set, reply), reloaded),
        call_ensures(Danger::deleted, (deleting, reply), gone),
    ensures
        reloaded <==> reply is Done,
        gone <==> reply is Done,
        !final(set)@.busy,
        !final(deleting)@.busy,
        reply is Done ==> !final(set)@.confirming,
        !(reply is Done) ==> final(set)@.confirming == old(set)@.confirming,
        final(deleting)@.confirming == old(deleting)@.confirming,
        reply matches Reply::Failed(why) ==> final(set)@.outcome == Some(NoticeView::BadText(why@))
            && final(deleting)@.outcome == Some(NoticeView::BadText(why@)),
        !(reply is Failed) ==> final(set)@.outcome == old(set)@.outcome && final(deleting)@.outcome
            == old(deleting)@.outcome,
{
}

} // verus!
