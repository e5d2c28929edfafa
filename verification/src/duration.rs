//! How long something took, or has taken so far, and how that is said.
//!
//! Instants and durations are whole milliseconds.

use crate::wording::{ArgView, Phrase, PhraseView, Took};
use vstd::prelude::*;

verus! {

broadcast use vstd::string::group_string_axioms;

/// A quotient rounded to the nearest whole number, and from a half to the even one.
pub open spec fn half_even(n: int, d: int) -> int {
    let q = n / d;
    let twice = 2 * (n % d);
    if twice > d || (twice == d && q % 2 == 1) {
        q + 1
    } else {
        q
    }
}

/// A duration in words: seconds, minutes, or hours and minutes.
pub open spec fn duration_words(ms: int) -> PhraseView {
    if ms < 60_000 {
        PhraseView::plain("time.seconds"@).number("count"@, half_even(ms, 1000))
    } else if ms < 3_600_000 {
        PhraseView::plain("time.minutes"@).number("count"@, half_even(ms, 60_000))
    } else {
        PhraseView::plain("time.hoursMinutes"@).number("hours"@, ms / 3_600_000).number(
            "minutes"@,
            ms % 3_600_000 / 60_000,
        )
    }
}

fn rounded(n: i64, d: i64) -> (r: i64)
    requires
        0 <= n,
        1 < d <= 60_000,
    ensures
        r == half_even(n as int, d as int),
{
    let q: i64 = n / d;
    let rest: i64 = n % d;
    proof {
        vstd::arithmetic::div_mod::lemma_fundamental_div_mod(n as int, d as int);
        vstd::arithmetic::div_mod::lemma_div_pos_is_pos(n as int, d as int);
        vstd::arithmetic::div_mod::lemma_mod_bound(n as int, d as int);
        assert(q < i64::MAX) by (nonlinear_arith)
            requires
                n == d * q + rest,
                0 <= rest,
                d > 1,
                0 <= q,
                n <= i64::MAX,
        ;
    }
    if 2 * rest > d || (2 * rest == d && q % 2 == 1) {
        q + 1
    } else {
        q
    }
}

fn units(ms: i64) -> (r: Took)
    requires
        0 <= ms,
    ensures
        r.said() == duration_words(ms as int),
{
    if ms < 60_000 {
        Took::Seconds(rounded(ms, 1000))
    } else if ms < 3_600_000 {
        Took::Minutes(rounded(ms, 60_000))
    } else {
        Took::Hours { hours: ms / 3_600_000, minutes: ms % 3_600_000 / 60_000 }
    }
}

/// A duration of some milliseconds in words.
pub fn duration_label(ms: i64) -> (r: Phrase)
    requires
        0 <= ms,
    ensures
        r@ == duration_words(ms as int),
{
    units(ms).words()
}

/// A duration in words, or that it is not known.
pub open spec fn known_duration(ms: Option<int>) -> PhraseView {
    match ms {
        Some(ms) => duration_words(ms),
        None => PhraseView::plain("time.unknown"@),
    }
}

/// A duration in words, or that it is not known.
pub fn duration_or_unknown(ms: Option<i64>) -> (r: Phrase)
    requires
        ms is Some ==> 0 <= ms->0,
    ensures
        r@ == known_duration(
            match ms {
                Some(ms) => Some(ms as int),
                None => None,
            },
        ),
{
    match ms {
        Some(ms) => duration_label(ms),
        None => Phrase::plain("time.unknown"),
    }
}

/// How long a run has run, in whole minutes.
pub open spec fn minutes_words(ms: int) -> PhraseView {
    if ms < 60_000 {
        PhraseView::plain("console.scan.detail.underAMinute"@)
    } else {
        PhraseView::plain("console.scan.detail.minutes"@).number("count"@, half_even(ms, 60_000))
    }
}

/// How long a run has run, in whole minutes, or that it is not known.
pub fn elapsed_label(ms: Option<i64>) -> (r: Phrase)
    requires
        ms is Some ==> 0 <= ms->0,
    ensures
        r@ == (match ms {
            Some(ms) => minutes_words(ms as int),
            None => PhraseView::plain("time.unknown"@),
        }),
{
    match ms {
        Some(ms) => {
            if ms < 60_000 {
                Phrase::plain("console.scan.detail.underAMinute")
            } else {
                Phrase::plain("console.scan.detail.minutes").number("count", rounded(ms, 60_000))
            }
        },
        None => Phrase::plain("time.unknown"),
    }
}

/// A count of milliseconds as a duration: a negative one counts for nothing.
pub open spec fn counted(ms: int) -> int {
    if ms < 0 {
        0
    } else {
        ms
    }
}

/// A count of milliseconds that may be absent, in words.
pub open spec fn counted_words(ms: Option<int>) -> PhraseView {
    match ms {
        Some(ms) => duration_words(counted(ms)),
        None => PhraseView::plain("time.unknown"@),
    }
}

/// A count of milliseconds that may be absent, in the units that it is said in.
pub fn took(ms: Option<i64>) -> (r: Took)
    ensures
        r.said() == counted_words(
            match ms {
                Some(ms) => Some(ms as int),
                None => None,
            },
        ),
{
    match ms {
        Some(ms) => units(
            if ms < 0 {
                0
            } else {
                ms
            },
        ),
        None => Took::Unknown,
    }
}

/// A count of milliseconds in words.
pub fn measured(ms: i64) -> (r: Phrase)
    ensures
        r@ == duration_words(counted(ms as int)),
{
    took(Some(ms)).words()
}

/// The time from one instant to a later one; an instant that is not later is no time
/// away.
pub open spec fn span(from: int, to: int) -> int {
    if to < from {
        0
    } else {
        to - from
    }
}

fn between(from: i64, to: i64) -> (r: i64)
    ensures
        0 <= r,
        r == (if span(from as int, to as int) > i64::MAX {
            i64::MAX as int
        } else {
            span(from as int, to as int)
        }),
{
    if to < from {
        0
    } else {
        match to.checked_sub(from) {
            Some(ms) => ms,
            None => i64::MAX,
        }
    }
}

/// A run's wall clock, measured to now while it is still in flight.
pub open spec fn elapsed(started: Option<i64>, finished: Option<i64>, now: i64) -> Option<int> {
    match started {
        None => None,
        Some(started) => Some(
            span(
                started as int,
                match finished {
                    Some(finished) => finished as int,
                    None => now as int,
                },
            ),
        ),
    }
}

/// A run's wall clock in milliseconds. The clock is read only for a run that has not
/// finished: a finished run's duration is the difference between its own two stamps.
pub fn elapsed_ms(started: Option<i64>, finished: Option<i64>, now: i64) -> (r: Option<i64>)
    ensures
        r is Some == started is Some,
        r is Some ==> 0 <= r->0,
        r is Some && elapsed(started, finished, now)->0 <= i64::MAX ==> r->0 == elapsed(
            started,
            finished,
            now,
        )->0,
        r is Some && elapsed(started, finished, now)->0 > i64::MAX ==> r->0 == i64::MAX,
{
    match started {
        None => None,
        Some(started) => Some(
            between(
                started,
                match finished {
                    Some(finished) => finished,
                    None => now,
                },
            ),
        ),
    }
}

/// How long ago an instant was, in milliseconds.
pub fn age_ms(then: Option<i64>, now: i64) -> (r: Option<i64>)
    ensures
        r is Some == then is Some,
        r is Some ==> 0 <= r->0,
        r is Some ==> r->0 == (if span(then->0 as int, now as int) > i64::MAX {
            i64::MAX as int
        } else {
            span(then->0 as int, now as int)
        }),
{
    match then {
        None => None,
        Some(then) => Some(between(then, now)),
    }
}

/// A finished run's duration does not grow with the clock.
pub proof fn finished_runs_stand_still(
    started: Option<i64>,
    finished: i64,
    now: i64,
    later: i64,
)
    ensures
        elapsed(started, Some(finished), now) == elapsed(started, Some(finished), later),
{
}

/// A time is said in the unit that fits it, to the nearest of that unit: in seconds below a
/// minute, in minutes below an hour, and above in whole hours and the minutes that are left,
/// cut off. A time that falls just between two counts takes the even one.
pub proof fn a_time_is_said_to_the_nearest(ms: int)
    requires
        0 <= ms,
    ensures
        ms < 60_000 ==> {
            let said = duration_words(ms);
            &&& said.key == "time.seconds"@
            &&& said.args.len() == 1
            &&& said.args[0].0 == "count"@
            &&& said.args[0].1 matches ArgView::Number(n)
            &&& -500 <= 1000 * n - ms <= 500
            &&& 1000 * n - ms == 500 || ms - 1000 * n == 500 ==> n % 2 == 0
        },
        60_000 <= ms < 3_600_000 ==> {
            let said = duration_words(ms);
            &&& said.key == "time.minutes"@
            &&& said.args.len() == 1
            &&& said.args[0].0 == "count"@
            &&& said.args[0].1 matches ArgView::Number(n)
            &&& -30_000 <= 60_000 * n - ms <= 30_000
            &&& 60_000 * n - ms == 30_000 || ms - 60_000 * n == 30_000 ==> n % 2 == 0
        },
        3_600_000 <= ms ==> {
            let said = duration_words(ms);
            &&& said.key == "time.hoursMinutes"@
            &&& said.args.len() == 2
            &&& said.args[0].0 == "hours"@
            &&& said.args[1].0 == "minutes"@
            &&& said.args[0].1 matches ArgView::Number(hours)
            &&& said.args[1].1 matches ArgView::Number(minutes)
            &&& 0 <= minutes < 60
            &&& 3_600_000 * hours + 60_000 * minutes <= ms
            &&& ms < 3_600_000 * hours + 60_000 * minutes + 60_000
        },
{
}

/// A run that has taken less than a minute is said to, and from there on its minutes are
/// counted to the nearest.
pub proof fn a_short_run_is_said_to_be_short(ms: int)
    requires
        0 <= ms,
    ensures
        minutes_words(ms).key == "console.scan.detail.underAMinute"@ <==> ms < 60_000,
        ms < 60_000 ==> minutes_words(ms).args.len() == 0,
        ms >= 60_000 ==> {
            let said = minutes_words(ms);
            &&& said.args.len() == 1
            &&& said.args[0].1 matches ArgView::Number(n)
            &&& -30_000 <= 60_000 * n - ms <= 30_000
            &&& 60_000 * n - ms == 30_000 || ms - 60_000 * n == 30_000 ==> n % 2 == 0
        },
{
    reveal_strlit("console.scan.detail.underAMinute");
    reveal_strlit("console.scan.detail.minutes");
    assert("console.scan.detail.underAMinute"@.len() == 32);
    assert("console.scan.detail.minutes"@.len() == 27);
}

/// How long a run has taken: from its start to its end, or to now while it has none; never
/// less than nothing, and unknown before it has started.
pub proof fn a_run_is_timed_from_its_start(
    started: i64,
    finished: i64,
    now: i64,
    under_way: Option<i64>,
    ended: Option<i64>,
    waiting: Option<i64>,
)
    requires
        call_ensures(elapsed_ms, (Some(started), None, now), under_way),
        call_ensures(elapsed_ms, (Some(started), Some(finished), now), ended),
        call_ensures(elapsed_ms, (None, Some(finished), now), waiting),
    ensures
        waiting is None,
        under_way is Some,
        ended is Some,
        started <= now && now - started <= i64::MAX ==> under_way->0 == now - started,
        now < started ==> under_way->0 == 0,
        started <= finished && finished - started <= i64::MAX ==> ended->0 == finished - started,
        finished < started ==> ended->0 == 0,
{
}

/// The age of a moment is the time since; a moment still to come is no time ago.
pub proof fn an_age_is_the_time_since(then: i64, now: i64, age: Option<i64>, none: Option<i64>)
    requires
        call_ensures(age_ms, (Some(then), now), age),
        call_ensures(age_ms, (None, now), none),
    ensures
        none is None,
        age is Some,
        then <= now && now - then <= i64::MAX ==> age->0 == now - then,
        now < then ==> age->0 == 0,
{
}

/// A time that is not known is said to be so, in every wording, and a time below nothing
/// counts as none.
pub proof fn an_unknown_time_is_said_to_be_unknown(ms: int)
    ensures
        known_duration(None).key == "time.unknown"@,
        counted_words(None).key == "time.unknown"@,
        known_duration(Some(ms)) == duration_words(ms),
        ms >= 0 ==> counted_words(Some(ms)) == duration_words(ms),
        ms < 0 ==> counted_words(Some(ms)) == duration_words(0),
{
}

} // verus!
