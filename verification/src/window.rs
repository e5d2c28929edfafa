//! The time window that the panels with a clock are narrowed by.

use crate::calendar;
use crate::text;
use vstd::prelude::*;

verus! {

broadcast use vstd::string::group_string_axioms;

/// A time window on the panels that have one.
#[derive(Debug, Clone, Copy, PartialEq, Eq, Structural)]
pub enum Window {
    /// The absence of the parameter, not a value: a shared link carries no no-op.
    Any,
    Hour,
    Day,
    Week,
}

impl Default for Window {
    fn default() -> (r: Self)
        ensures
            r == Window::Any,
    {
        Window::Any
    }
}

impl Window {
    pub const ALL: [Window; 4] = [Window::Any, Window::Hour, Window::Day, Window::Week];

    /// The token a window travels by in a link.
    pub open spec fn token_text(self) -> Seq<char> {
        match self {
            Window::Any => ""@,
            Window::Hour => "1h"@,
            Window::Day => "24h"@,
            Window::Week => "7d"@,
        }
    }

    /// The window a token names; any other text widens to every time.
    pub open spec fn named_by(token: Seq<char>) -> Window {
        if token == Window::Hour.token_text() {
            Window::Hour
        } else if token == Window::Day.token_text() {
            Window::Day
        } else if token == Window::Week.token_text() {
            Window::Week
        } else {
            Window::Any
        }
    }

    /// How many hours back a window reaches.
    pub open spec fn reach(self) -> Option<u32> {
        match self {
            Window::Any => None,
            Window::Hour => Some(1),
            Window::Day => Some(24),
            Window::Week => Some(168),
        }
    }

    /// The instant a window starts at, in milliseconds, for a clock that shows `now`.
    pub open spec fn start(self, now: int) -> Option<int> {
        match self.reach() {
            None => None,
            Some(hours) => Some(now - hours * calendar::MS_PER_HOUR),
        }
    }

    /// Whether a text is the RFC 3339 instant that a window starts at, for a clock
    /// that shows `now`: absent for a window without a start, and for a start that no
    /// four-digit year holds.
    pub open spec fn starts_at(self, now: i64, stamp: Option<Seq<char>>) -> bool {
        match (stamp, self.start(now as int)) {
            (Some(written), Some(start)) => exists|moment: calendar::Moment|
                moment.is_valid() && moment.instant() == start && written
                    == #[trigger] moment.text(),
            (None, Some(start)) => !(calendar::FIRST_INSTANT <= start <= calendar::LAST_INSTANT),
            (stamp, None) => stamp is None,
        }
    }

    /// The catalogue key of a window's display name.
    pub open spec fn key(self) -> Seq<char> {
        match self {
            Window::Any => "console.window.any"@,
            Window::Hour => "console.window.hour"@,
            Window::Day => "console.window.day"@,
            Window::Week => "console.window.week"@,
        }
    }

    /// The token a window travels by in a link.
    pub fn token(self) -> (r: &'static str)
        ensures
            r@ == self.token_text(),
    {
        match self {
            Window::Any => "",
            Window::Hour => "1h",
            Window::Day => "24h",
            Window::Week => "7d",
        }
    }

    /// The catalogue key of a window's display name.
    pub fn label_key(self) -> (r: &'static str)
        ensures
            r@ == self.key(),
    {
        match self {
            Window::Any => "console.window.any",
            Window::Hour => "console.window.hour",
            Window::Day => "console.window.day",
            Window::Week => "console.window.week",
        }
    }

    /// How many hours back a window reaches; `None` is no lower bound at all.
    pub fn hours(self) -> (r: Option<u32>)
        ensures
            r == self.reach(),
    {
        match self {
            Window::Any => None,
            Window::Hour => Some(1),
            Window::Day => Some(24),
            Window::Week => Some(168),
        }
    }

    /// The RFC 3339 instant a window starts at, for a clock that shows `now`
    /// milliseconds since the epoch.
    ///
    /// `None` for [`Window::Any`], which is the absence of the parameter rather
    /// than a bound at the beginning of time, and for a start that no four-digit
    /// year holds.
    pub fn since_iso(self, now: i64) -> (r: Option<String>)
        ensures
            self.starts_at(now, text::view_of(r)),
    {
        match self.hours() {
            None => None,
            Some(hours) => {
                if now < calendar::FIRST_INSTANT {
                    return None;
                }
                let start: i64 = now - hours as i64 * calendar::MS_PER_HOUR;
                if start < calendar::FIRST_INSTANT || start > calendar::LAST_INSTANT {
                    return None;
                }
                let moment = calendar::Moment::at(start);
                let text = moment.to_text();
                assert(moment.is_valid() && moment.instant() == start && text@ == moment.text());
                Some(text)
            },
        }
    }

    /// Reads a `?since=` token. An unrecognised one widens to any time rather than
    /// refusing the link.
    pub fn parse_token(token: &str) -> (r: Window)
        ensures
            r == Window::named_by(token@),
    {
        Window::parse(token)
    }

    /// Reads a token; any other text is [`Window::Any`].
    pub fn parse(token: &str) -> (r: Window)
        ensures
            r == Window::named_by(token@),
    {
        if text::same(token, Window::Hour.token()) {
            Window::Hour
        } else if text::same(token, Window::Day.token()) {
            Window::Day
        } else if text::same(token, Window::Week.token()) {
            Window::Week
        } else {
            Window::Any
        }
    }

    /// Every window reads back from its token.
    pub proof fn token_reads_back(self)
        ensures
            Window::named_by(self.token_text()) == self,
    {
        reveal_strlit("");
        reveal_strlit("1h");
        reveal_strlit("24h");
        reveal_strlit("7d");
        assert(""@.len() == 0);
        assert("1h"@.len() == 2);
        assert("1h"@[0] == '1');
        assert("24h"@.len() == 3);
        assert("7d"@.len() == 2);
        assert("7d"@[0] == '7');
    }

    /// A text that is no window's token shows every time.
    pub proof fn unknown_token_is_any(token: Seq<char>)
        requires
            forall|w: Window| token != #[trigger] w.token_text(),
        ensures
            Window::named_by(token) == Window::Any,
    {
    }
}

/// A window reaches back an hour, a day or a week, in milliseconds, from the moment it is
/// asked at; only the open one has no start.
pub proof fn a_window_reaches_back(now: int)
    ensures
        Window::Any.start(now) is None,
        Window::Hour.start(now) == Some(now - 3_600_000),
        Window::Day.start(now) == Some(now - 86_400_000),
        Window::Week.start(now) == Some(now - 604_800_000),
{
}

/// The stamp of a window is the written form of a moment that stands exactly where the
/// window starts; it is missing where there is no window, and where the start cannot be
/// written as a date.
pub proof fn a_stamp_stands_where_the_window_starts(window: Window, now: i64, stamp: Option<String>)
    requires
        call_ensures(Window::since_iso, (window, now), stamp),
    ensures
        window is Any ==> stamp is None,
        stamp is Some ==> exists|moment: calendar::Moment|
            moment.is_valid() && moment.instant() == now - (if window is Hour {
                3_600_000int
            } else if window is Day {
                86_400_000
            } else {
                604_800_000
            }) && stamp->0@ == #[trigger] moment.text(),
        stamp is None && !(window is Any) ==> ({
            let start = now - (if window is Hour {
                3_600_000int
            } else if window is Day {
                86_400_000
            } else {
                604_800_000
            });
            start < calendar::FIRST_INSTANT || calendar::LAST_INSTANT < start
        }),
{
    a_window_reaches_back(now as int);
    if stamp is Some {
        let moment = choose|moment: calendar::Moment|
            moment.is_valid() && Some(moment.instant()) == window.start(now as int) && stamp->0@
                == #[trigger] moment.text();
        assert(moment.is_valid() && stamp->0@ == moment.text());
    }
}

/// A window is named by its own token and by no other text; what names none is the open
/// one.
pub proof fn a_window_is_named_by_its_token(token: Seq<char>)
    ensures
        Window::named_by(token) is Hour <==> token == "1h"@,
        Window::named_by(token) is Day <==> token == "24h"@,
        Window::named_by(token) is Week <==> token == "7d"@,
{
    reveal_strlit("1h");
    reveal_strlit("24h");
    reveal_strlit("7d");
    assert("1h"@.len() == 2 && "1h"@[0] == '1');
    assert("24h"@.len() == 3);
    assert("7d"@.len() == 2 && "7d"@[0] == '7');
}

/// How far a window reaches, in hours.
pub proof fn a_window_counts_its_hours(window: Window, hours: Option<u32>)
    requires
        call_ensures(Window::hours, (window,), hours),
    ensures
        hours is None <==> window is Any,
        hours is Some ==> window.start(0) == Some(-3_600_000 * hours->0),
{
}

} // verus!
