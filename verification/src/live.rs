//! The console's live push: one stream for the whole surface.
//!
//! A stream is opened with a ticket that is spent by opening it, so every attempt takes
//! a fresh one, and a failed attempt waits longer than the one before.

use crate::activity::ScanActivity;
use crate::entity::SystemStats;
use crate::runs::ScanRun;
use crate::text;
use vstd::prelude::*;

verus! {

broadcast use vstd::string::group_string_axioms;

/// The first wait after a failed attempt, in milliseconds.
pub const RECONNECT_BACKOFF_START_MS: u32 = 1_000;

/// The longest wait, in milliseconds. A stale console is a wrong console, so it is short.
pub const RECONNECT_BACKOFF_MAX_MS: u32 = 15_000;

/// How long a stream has to stay open to count as one that worked, in milliseconds. The
/// server ends every stream in the end; how long it lasted tells a served one from a
/// refused one.
pub const SETTLED_MS: i64 = 5_000;

/// What the connection is doing, as the bar reports it.
#[derive(Debug, Clone, Copy, PartialEq, Eq, Structural)]
pub enum LiveState {
    /// Opening the first attempt; nothing has arrived.
    Connecting,
    /// Pushes are landing.
    Live,
    /// Dropped; the next attempt is due.
    Reconnecting,
    /// The operator detached; the figures are as old as the last push.
    Paused,
}

impl Default for LiveState {
    fn default() -> (r: Self)
        ensures
            r == LiveState::Connecting,
    {
        LiveState::Connecting
    }
}

impl LiveState {
    /// The catalogue key of what the bar says.
    pub fn label_key(self) -> (r: &'static str)
        ensures
            r@ == (match self {
                LiveState::Connecting => "console.live.connecting"@,
                LiveState::Live => "console.live.streaming"@,
                LiveState::Reconnecting => "console.live.reconnecting"@,
                LiveState::Paused => "console.live.detached"@,
            }),
    {
        match self {
            LiveState::Connecting => "console.live.connecting",
            LiveState::Live => "console.live.streaming",
            LiveState::Reconnecting => "console.live.reconnecting",
            LiveState::Paused => "console.live.detached",
        }
    }

    /// Whether the figures on screen can be taken for current.
    pub fn is_current(self) -> (r: bool)
        ensures
            r == (self is Live),
    {
        self == LiveState::Live
    }
}

/// The class of the bar's pill.
pub fn pill_class(state: LiveState) -> (r: &'static str)
    ensures
        r@ == (if state is Live {
            "ik-live on"@
        } else {
            "ik-live"@
        }),
{
    if state.is_current() {
        "ik-live on"
    } else {
        "ik-live"
    }
}

/// What the bar's button says: to pause while attached, to resume while not.
pub fn attach_key(attached: bool) -> (r: &'static str)
    ensures
        r@ == (if attached {
            "console.live.pause"@
        } else {
            "console.live.resume"@
        }),
{
    if attached {
        "console.live.pause"
    } else {
        "console.live.resume"
    }
}

/// What one stream carries, each by its own name.
#[derive(Debug, Clone, Copy, PartialEq, Eq, Structural)]
pub enum Channel {
    Stats,
    Runs,
    Activity,
}

impl Channel {
    pub const ALL: [Channel; 3] = [Channel::Stats, Channel::Runs, Channel::Activity];

    /// The token that a channel travels by.
    pub open spec fn token_text(self) -> Seq<char> {
        match self {
            Channel::Stats => "stats"@,
            Channel::Runs => "runs"@,
            Channel::Activity => "activity"@,
        }
    }

    /// What a token names.
    pub open spec fn named_by(token: Seq<char>) -> Option<Channel> {
        if token == "stats"@ {
            Some(Channel::Stats)
        } else if token == "runs"@ {
            Some(Channel::Runs)
        } else if token == "activity"@ {
            Some(Channel::Activity)
        } else {
            None
        }
    }

    /// The token that a channel travels by.
    pub fn token(self) -> (r: &'static str)
        ensures
            r@ == self.token_text(),
    {
        match self {
            Channel::Stats => "stats",
            Channel::Runs => "runs",
            Channel::Activity => "activity",
        }
    }

    /// Reads a token.
    pub fn parse(token: &str) -> (r: Option<Channel>)
        ensures
            r == Channel::named_by(token@),
    {
        if text::same(token, "stats") {
            Some(Channel::Stats)
        } else if text::same(token, "runs") {
            Some(Channel::Runs)
        } else if text::same(token, "activity") {
            Some(Channel::Activity)
        } else {
            None
        }
    }

    /// Each reads back from its token.
    pub proof fn token_reads_back(self)
        ensures
            Channel::named_by(self.token_text()) == Some(self),
    {
        reveal_strlit("stats");
        reveal_strlit("runs");
        reveal_strlit("activity");
        assert("stats"@.len() == 5);
        assert("runs"@.len() == 4);
        assert("activity"@.len() == 8);
    }
}

/// What a push holds, once it is read.
#[derive(Debug, PartialEq, Eq)]
pub enum Push {
    Stats(SystemStats),
    Runs(Vec<ScanRun>),
    Activity(ScanActivity),
    /// A name that this build does not know, or a body that does not read as what its
    /// name says.
    Unread,
}

/// What an attempt to stay connected does next.
#[derive(Debug, Clone, Copy, PartialEq, Eq, Structural)]
pub enum Step {
    /// Nothing: the reader is signed out, or has detached.
    Rest,
    /// Ask for a ticket.
    Ticket,
    /// Wait so many milliseconds, then ask for a ticket.
    Wait(u32),
}

/// What happens to an attempt to stay connected.
#[derive(Debug, Clone, Copy, PartialEq, Eq, Structural)]
pub enum LinkEvent {
    /// The session or the operator's choice changed.
    Started { signed_in: bool, attached: bool },
    /// No ticket was given.
    Refused,
    /// The stream delivered something.
    Pushed,
    /// The stream could not be opened.
    Unopened,
    /// The stream ended, so many whole milliseconds after it was opened.
    Ended { lasted_ms: i64 },
}

/// The connection, and the wait that the next failure earns.
#[derive(Debug, Clone, Copy, PartialEq, Eq, Structural)]
pub struct Link {
    pub state: LiveState,
    pub backoff_ms: u32,
}

/// The wait after a given one: twice as long, up to the longest.
pub open spec fn longer(wait: int) -> int {
    if 2 * wait <= RECONNECT_BACKOFF_MAX_MS {
        2 * wait
    } else {
        RECONNECT_BACKOFF_MAX_MS as int
    }
}

impl Link {
    /// Whether the wait is one that failures can earn.
    pub open spec fn well_formed(self) -> bool {
        RECONNECT_BACKOFF_START_MS <= self.backoff_ms <= RECONNECT_BACKOFF_MAX_MS
    }

    /// The link after a wait of a given length has been scheduled.
    pub open spec fn waiting(wait: int) -> Link {
        Link { state: LiveState::Reconnecting, backoff_ms: longer(wait) as u32 }
    }

    /// The link after an event.
    pub open spec fn after(self, event: LinkEvent) -> Link {
        match event {
            LinkEvent::Started { signed_in, attached } => if !signed_in {
                Link { state: LiveState::Connecting, ..self }
            } else if !attached {
                Link { state: LiveState::Paused, ..self }
            } else {
                Link { backoff_ms: RECONNECT_BACKOFF_START_MS, ..self }
            },
            LinkEvent::Refused | LinkEvent::Unopened => Link::waiting(self.backoff_ms as int),
            LinkEvent::Pushed => Link { state: LiveState::Live, ..self },
            LinkEvent::Ended { lasted_ms } => Link::waiting(
                if lasted_ms >= SETTLED_MS {
                    RECONNECT_BACKOFF_START_MS as int
                } else {
                    self.backoff_ms as int
                },
            ),
        }
    }

    /// What an event asks for.
    pub open spec fn step(self, event: LinkEvent) -> Option<Step> {
        match event {
            LinkEvent::Started { signed_in, attached } => Some(
                if signed_in && attached {
                    Step::Ticket
                } else {
                    Step::Rest
                },
            ),
            LinkEvent::Refused | LinkEvent::Unopened => Some(Step::Wait(self.backoff_ms)),
            LinkEvent::Pushed => None,
            LinkEvent::Ended { lasted_ms } => Some(
                Step::Wait(
                    if lasted_ms >= SETTLED_MS {
                        RECONNECT_BACKOFF_START_MS
                    } else {
                        self.backoff_ms
                    },
                ),
            ),
        }
    }

    /// A connection that has not been tried.
    pub fn new() -> (r: Link)
        ensures
            r == (Link {
                state: LiveState::Connecting,
                backoff_ms: RECONNECT_BACKOFF_START_MS,
            }),
            r.well_formed(),
    {
        Link { state: LiveState::Connecting, backoff_ms: RECONNECT_BACKOFF_START_MS }
    }

    /// Schedules a wait, and makes the next one longer.
    fn wait(&mut self, wait: u32) -> (r: Step)
        ensures
            *final(self) == Link::waiting(wait as int),
            r == Step::Wait(wait),
    {
        self.state = LiveState::Reconnecting;
        let doubled: u64 = 2 * wait as u64;
        self.backoff_ms = if doubled <= RECONNECT_BACKOFF_MAX_MS as u64 {
            doubled as u32
        } else {
            RECONNECT_BACKOFF_MAX_MS
        };
        Step::Wait(wait)
    }

    /// Takes an event: what to do next, where it asks for anything.
    pub fn take(&mut self, event: LinkEvent) -> (r: Option<Step>)
        ensures
            *final(self) == old(self).after(event),
            r == old(self).step(event),
    {
        match event {
            LinkEvent::Started { signed_in, attached } => {
                if !signed_in {
                    self.state = LiveState::Connecting;
                    Some(Step::Rest)
                } else if !attached {
                    self.state = LiveState::Paused;
                    Some(Step::Rest)
                } else {
                    self.backoff_ms = RECONNECT_BACKOFF_START_MS;
                    Some(Step::Ticket)
                }
            },
            LinkEvent::Refused | LinkEvent::Unopened => {
                let wait: u32 = self.backoff_ms;
                Some(self.wait(wait))
            },
            LinkEvent::Pushed => {
                self.state = LiveState::Live;
                None
            },
            LinkEvent::Ended { lasted_ms } => {
                let wait: u32 = if lasted_ms >= SETTLED_MS {
                    RECONNECT_BACKOFF_START_MS
                } else {
                    self.backoff_ms
                };
                Some(self.wait(wait))
            },
        }
    }
}

/// The link after some events, the first one first.
pub open spec fn link_after(link: Link, events: Seq<LinkEvent>) -> Link
    decreases events.len(),
{
    if events.len() == 0 {
        link
    } else {
        link_after(link, events.drop_last()).after(events.last())
    }
}

/// Whatever happens, the next wait is at least the first one and at most the longest.
pub proof fn waits_stay_in_bounds(link: Link, events: Seq<LinkEvent>)
    requires
        link.well_formed(),
    ensures
        link_after(link, events).well_formed(),
    decreases events.len(),
{
    if events.len() > 0 {
        waits_stay_in_bounds(link, events.drop_last());
    }
}

/// Two to a power.
pub open spec fn two_to(power: nat) -> int
    decreases power,
{
    if power == 0 {
        1
    } else {
        2 * two_to((power - 1) as nat)
    }
}

/// The wait that the failure after `failures` failures in a row earns.
pub open spec fn wait_after(failures: nat) -> int {
    let doubled = RECONNECT_BACKOFF_START_MS * two_to(failures);
    if doubled <= RECONNECT_BACKOFF_MAX_MS {
        doubled
    } else {
        RECONNECT_BACKOFF_MAX_MS as int
    }
}

/// Whether an event is a failure: no ticket, no stream, or one that did not last.
pub open spec fn is_failure(event: LinkEvent) -> bool {
    match event {
        LinkEvent::Refused | LinkEvent::Unopened => true,
        LinkEvent::Ended { lasted_ms } => lasted_ms < SETTLED_MS,
        _ => false,
    }
}

/// From the start of an attempt, each failure in a row waits twice as long as the one
/// before, up to the longest wait.
pub proof fn failures_back_off(link: Link, failures: Seq<LinkEvent>)
    requires
        link.backoff_ms == RECONNECT_BACKOFF_START_MS,
        forall|i: int| 0 <= i < failures.len() ==> is_failure(#[trigger] failures[i]),
    ensures
        link_after(link, failures).backoff_ms == wait_after(failures.len()),
        forall|event: LinkEvent|
            is_failure(event) ==> #[trigger] link_after(link, failures).step(event) == Some(
                Step::Wait(wait_after(failures.len()) as u32),
            ),
    decreases failures.len(),
{
    if failures.len() > 0 {
        let before = failures.drop_last();
        failures_back_off(link, before);
        assert(is_failure(failures[failures.len() - 1]));
        lemma_two_to(before.len());
    } else {
        assert(two_to(0) == 1);
    }
}

proof fn lemma_two_to(power: nat)
    ensures
        two_to(power) >= 1,
    decreases power,
{
    if power > 0 {
        lemma_two_to((power - 1) as nat);
    }
}

/// A stream that lasted waits as if nothing had failed before it.
pub proof fn a_served_stream_starts_over(link: Link, lasted_ms: i64)
    requires
        lasted_ms >= SETTLED_MS,
    ensures
        link.step(LinkEvent::Ended { lasted_ms }) == Some(Step::Wait(RECONNECT_BACKOFF_START_MS)),
        link.after(LinkEvent::Ended { lasted_ms }).backoff_ms == 2 * RECONNECT_BACKOFF_START_MS,
{
}

/// The bar says "live" only on the strength of something delivered: a connection that
/// was not live and now is had a push, and nothing but pushes and restarts of the
/// attempt since.
pub proof fn live_means_delivered(link: Link, events: Seq<LinkEvent>)
    requires
        !(link.state is Live),
        link_after(link, events).state is Live,
    ensures
        exists|i: int|
            0 <= i < events.len() && #[trigger] events[i] is Pushed && forall|j: int|
                i < j < events.len() ==> (#[trigger] events[j] is Pushed || events[j]
                    == (LinkEvent::Started { signed_in: true, attached: true })),
    decreases events.len(),
{
    if events.len() > 0 {
        let n = events.len() - 1;
        if events[n] is Pushed {
            assert(forall|j: int| n < j < events.len() ==> events[j] is Pushed);
        } else {
            let before = events.drop_last();
            live_means_delivered(link, before);
            let i = choose|i: int|
                0 <= i < before.len() && #[trigger] before[i] is Pushed && forall|j: int|
                    i < j < before.len() ==> (#[trigger] before[j] is Pushed || before[j]
                        == (LinkEvent::Started { signed_in: true, attached: true }));
            assert(events[i] is Pushed);
            assert forall|j: int| i < j < events.len() implies (#[trigger] events[j] is Pushed
                || events[j] == (LinkEvent::Started { signed_in: true, attached: true })) by {
                if j < n {
                    assert(before[j] == events[j]);
                }
            }
        }
    }
}

/// What has been pushed, for any panel to read without a request of its own.
#[derive(Debug, PartialEq, Eq)]
pub struct ConsoleLive {
    pub link: Link,
    pub stats: Option<SystemStats>,
    pub runs: Option<Vec<ScanRun>>,
    /// The tasks of what is in flight, and those that have just settled: the counters of
    /// a run say how far it has come, this whether it moves.
    pub activity: Option<ScanActivity>,
}

impl ConsoleLive {
    /// The console before anything was pushed.
    pub fn new() -> (r: ConsoleLive)
        ensures
            r.link == (Link {
                state: LiveState::Connecting,
                backoff_ms: RECONNECT_BACKOFF_START_MS,
            }),
            r.stats is None,
            r.runs is None,
            r.activity is None,
    {
        ConsoleLive { link: Link::new(), stats: None, runs: None, activity: None }
    }

    /// Takes a push. What cannot be read is no reason to drop the stream: it only shows
    /// that the stream delivers. `true` where the bar has something new to say.
    pub fn pushed(&mut self, push: Push) -> (r: bool)
        ensures
            r == !(old(self).link.state is Live),
            final(self).link == old(self).link.after(LinkEvent::Pushed),
            final(self).stats == (match push {
                Push::Stats(stats) => Some(stats),
                _ => old(self).stats,
            }),
            final(self).runs == (match push {
                Push::Runs(runs) => Some(runs),
                _ => old(self).runs,
            }),
            final(self).activity == (match push {
                Push::Activity(activity) => Some(activity),
                _ => old(self).activity,
            }),
    {
        let news = self.link.state != LiveState::Live;
        if news {
            self.link.state = LiveState::Live;
        }
        match push {
            Push::Stats(stats) => {
                self.stats = Some(stats);
            },
            Push::Runs(runs) => {
                self.runs = Some(runs);
            },
            Push::Activity(activity) => {
                self.activity = Some(activity);
            },
            Push::Unread => {},
        }
        news
    }
}

/// What the link does next. A start asks for a ticket where the reader is signed in and
/// has not detached, and rests otherwise; a failure waits as long as the link has come to,
/// and a stream that held for five seconds waits the first wait again.
pub proof fn the_link_waits_before_it_tries_again(
    link: &mut Link,
    event: LinkEvent,
    step: Option<Step>,
)
    requires
        call_ensures(Link::take, (link, event), step),
    ensures
        event matches LinkEvent::Started { signed_in, attached } ==> step == Some(
            if signed_in && attached {
                Step::Ticket
            } else {
                Step::Rest
            },
        ),
        event is Refused || event is Unopened ==> step == Some(Step::Wait(old(link).backoff_ms)),
        event matches LinkEvent::Ended { lasted_ms } ==> step == Some(
            Step::Wait(
                if lasted_ms >= 5_000 {
                    1_000
                } else {
                    old(link).backoff_ms
                },
            ),
        ),
        event is Pushed ==> step is None,
{
}

/// How the link stands afterwards. Each wait doubles the next, up to fifteen seconds; a
/// start that asks for a ticket begins at one second; the link is live from its first
/// delivery, and any failure has it reconnect.
pub proof fn each_wait_doubles_the_next(link: &mut Link, event: LinkEvent, step: Option<Step>)
    requires
        call_ensures(Link::take, (link, event), step),
        1_000 <= old(link).backoff_ms <= 15_000,
    ensures
        step matches Some(Step::Wait(ms)) ==> final(link).state is Reconnecting
            && final(link).backoff_ms == (if 2 * ms <= 15_000 {
            2 * ms
        } else {
            15_000
        }),
        event is Pushed ==> final(link).state is Live && final(link).backoff_ms
            == old(link).backoff_ms,
        event matches LinkEvent::Started { signed_in, attached } ==> {
            &&& !signed_in ==> final(link).state is Connecting
            &&& signed_in && !attached ==> final(link).state is Paused
            &&& signed_in && attached ==> final(link).state == old(link).state
                && final(link).backoff_ms == 1_000
            &&& !(signed_in && attached) ==> final(link).backoff_ms == old(link).backoff_ms
        },
{
}

/// A push is kept under its own heading and touches no other; it brings the link to life,
/// and says so where the link was not.
pub proof fn a_push_is_kept_under_its_heading(live: &mut ConsoleLive, push: Push, woke: bool)
    requires
        call_ensures(ConsoleLive::pushed, (live, push), woke),
    ensures
        woke <==> !(old(live).link.state is Live),
        final(live).link.state is Live,
        final(live).link.backoff_ms == old(live).link.backoff_ms,
        push matches Push::Stats(stats) ==> final(live).stats == Some(stats),
        push matches Push::Runs(runs) ==> final(live).runs == Some(runs),
        push matches Push::Activity(activity) ==> final(live).activity == Some(activity),
        !(push is Stats) ==> final(live).stats == old(live).stats,
        !(push is Runs) ==> final(live).runs == old(live).runs,
        !(push is Activity) ==> final(live).activity == old(live).activity,
{
}

/// A link begins by connecting, with the first wait before it, and nothing delivered.
pub proof fn a_link_begins_by_connecting(link: Link, live: ConsoleLive)
    requires
        call_ensures(Link::new, (), link),
        call_ensures(ConsoleLive::new, (), live),
    ensures
        link.state is Connecting,
        link.backoff_ms == 1_000,
        live.link == link,
        live.stats is None,
        live.runs is None,
        live.activity is None,
{
}

/// A channel is named by its own token and by no other text.
pub proof fn a_channel_is_named_by_its_token(token: Seq<char>, channel: Channel)
    ensures
        Channel::named_by(token) == Some(channel) <==> token == channel.token_text(),
{
    channel.token_reads_back();
}

} // verus!
