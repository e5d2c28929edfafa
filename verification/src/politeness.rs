//! The politeness editor's emulation vocabulary, and the body that its save submits.

use crate::text;
use vstd::prelude::*;

verus! {

broadcast use vstd::string::group_string_axioms;

/// A browser that a fetcher can pass for.
#[derive(Debug, Clone, Copy, PartialEq, Eq, Structural)]
pub enum BrowserEmulation {
    Chrome,
    Firefox,
    Safari,
    Edge,
    OkHttp,
}

/// The emulation profiles that the picker offers, in display order, each with its
/// label. The labels are product names: they are the same in every locale.
pub const EMULATION_CHOICES: [(BrowserEmulation, &'static str); 5] = [
    (BrowserEmulation::Chrome, "Chrome"),
    (BrowserEmulation::Firefox, "Firefox"),
    (BrowserEmulation::Safari, "Safari"),
    (BrowserEmulation::Edge, "Edge"),
    (BrowserEmulation::OkHttp, "OkHttp (Android)"),
];

impl BrowserEmulation {
    /// The token that a profile crosses the wire by.
    pub open spec fn token_text(self) -> Seq<char> {
        match self {
            BrowserEmulation::Chrome => "chrome"@,
            BrowserEmulation::Firefox => "firefox"@,
            BrowserEmulation::Safari => "safari"@,
            BrowserEmulation::Edge => "edge"@,
            BrowserEmulation::OkHttp => "ok_http"@,
        }
    }

    /// The profile that a token names.
    pub open spec fn named_by(token: Seq<char>) -> Option<BrowserEmulation> {
        if token == "chrome"@ {
            Some(BrowserEmulation::Chrome)
        } else if token == "firefox"@ {
            Some(BrowserEmulation::Firefox)
        } else if token == "safari"@ {
            Some(BrowserEmulation::Safari)
        } else if token == "edge"@ {
            Some(BrowserEmulation::Edge)
        } else if token == "ok_http"@ {
            Some(BrowserEmulation::OkHttp)
        } else {
            None
        }
    }

    /// The token that a profile crosses the wire by.
    pub fn token(self) -> (r: &'static str)
        ensures
            r@ == self.token_text(),
    {
        match self {
            BrowserEmulation::Chrome => "chrome",
            BrowserEmulation::Firefox => "firefox",
            BrowserEmulation::Safari => "safari",
            BrowserEmulation::Edge => "edge",
            BrowserEmulation::OkHttp => "ok_http",
        }
    }

    /// Reads a profile's token.
    pub fn parse(token: &str) -> (r: Option<BrowserEmulation>)
        ensures
            r == BrowserEmulation::named_by(token@),
    {
        if text::same(token, "chrome") {
            Some(BrowserEmulation::Chrome)
        } else if text::same(token, "firefox") {
            Some(BrowserEmulation::Firefox)
        } else if text::same(token, "safari") {
            Some(BrowserEmulation::Safari)
        } else if text::same(token, "edge") {
            Some(BrowserEmulation::Edge)
        } else if text::same(token, "ok_http") {
            Some(BrowserEmulation::OkHttp)
        } else {
            None
        }
    }

    /// Every profile reads back from its token, and no token is empty.
    pub proof fn token_reads_back(self)
        ensures
            BrowserEmulation::named_by(self.token_text()) == Some(self),
            self.token_text().len() > 0,
    {
        reveal_strlit("chrome");
        reveal_strlit("firefox");
        reveal_strlit("safari");
        reveal_strlit("edge");
        reveal_strlit("ok_http");
        assert("chrome"@.len() == 6);
        assert("chrome"@[0] == 'c');
        assert("firefox"@.len() == 7);
        assert("firefox"@[0] == 'f');
        assert("safari"@.len() == 6);
        assert("safari"@[0] == 's');
        assert("edge"@.len() == 4);
        assert("ok_http"@.len() == 7);
        assert("ok_http"@[0] == 'o');
    }
}

/// The picker's value for a stored emulation.
pub open spec fn picker_value(stored: Option<BrowserEmulation>) -> Seq<char> {
    match stored {
        Some(profile) => profile.token_text(),
        None => ""@,
    }
}

/// The picker's value for a stored emulation; empty is the "no emulation" option.
pub fn emulation_token(stored: Option<&BrowserEmulation>) -> (r: String)
    ensures
        r@ == picker_value(
            match stored {
                Some(profile) => Some(*profile),
                None => None,
            },
        ),
{
    match stored {
        Some(profile) => profile.token().to_owned(),
        None => "".to_owned(),
    }
}

/// The emulation that a picker's value chooses: `Err` for a token that no profile
/// answers to.
pub open spec fn chosen_emulation(token: Seq<char>) -> Result<Option<BrowserEmulation>, ()> {
    if token.len() == 0 {
        Ok(None)
    } else {
        match BrowserEmulation::named_by(token) {
            Some(profile) => Ok(Some(profile)),
            None => Err(()),
        }
    }
}

/// The `emulation` field: a profile, or `None` for "no emulation".
///
/// # Errors
///
/// `console.providers.badEmulation` for a token that no profile answers to. Not
/// degraded to `None`: a quiet `None` would turn emulation off and look like it
/// worked.
pub fn emulation_field(token: &str) -> (r: Result<Option<BrowserEmulation>, &'static str>)
    ensures
        match chosen_emulation(token@) {
            Ok(choice) => r == Ok::<Option<BrowserEmulation>, &'static str>(choice),
            Err(_) => r is Err && r->Err_0@ == "console.providers.badEmulation"@,
        },
{
    if token.is_empty() {
        return Ok(None);
    }
    match BrowserEmulation::parse(token) {
        Some(profile) => Ok(Some(profile)),
        None => Err("console.providers.badEmulation"),
    }
}

/// What the picker shows for an emulation chooses that emulation again.
pub proof fn picker_value_reads_back(stored: Option<BrowserEmulation>)
    ensures
        chosen_emulation(picker_value(stored)) == Ok::<Option<BrowserEmulation>, ()>(stored),
{
    reveal_strlit("");
    if stored is Some {
        stored->0.token_reads_back();
    }
}

/// What a text that names an accepted emulation chooses is shown as that text again.
pub proof fn chosen_emulation_is_shown(token: Seq<char>)
    requires
        chosen_emulation(token) is Ok,
    ensures
        picker_value(chosen_emulation(token)->Ok_0) == token,
{
    reveal_strlit("");
    assert(token.len() == 0 ==> token =~= ""@);
}

/// Whether a character is a sign.
pub open spec fn is_sign(c: char) -> bool {
    c == '+' || c == '-'
}

/// What follows an optional sign.
pub open spec fn after_sign(s: Seq<char>) -> Seq<char> {
    if s.len() > 0 && is_sign(s[0]) {
        s.drop_first()
    } else {
        s
    }
}

/// Whether a character marks an exponent.
pub open spec fn is_exponent_mark(c: char) -> bool {
    c == 'e' || c == 'E'
}

/// The position of the first exponent mark, or the length of a text without one.
pub open spec fn exponent_at(s: Seq<char>) -> int
    decreases s.len(),
{
    if s.len() == 0 || is_exponent_mark(s[0]) {
        0
    } else {
        1 + exponent_at(s.drop_first())
    }
}

/// Digits around an optional point, at least one of them.
pub open spec fn is_mantissa(s: Seq<char>) -> bool {
    let whole = text::before(s, '.');
    let fraction = text::after(s, '.');
    text::all_digits(whole) && text::all_digits(fraction) && whole.len() + fraction.len() > 0
}

/// Digits around an optional point, and an optional exponent.
pub open spec fn is_plain_number(s: Seq<char>) -> bool {
    let at = exponent_at(s);
    &&& is_mantissa(s.take(at))
    &&& at < s.len() ==> {
        let power = after_sign(s.skip(at + 1));
        text::all_digits(power) && power.len() > 0
    }
}

/// Whether a text is a word, in either case of the ASCII letters.
pub open spec fn is_word(s: Seq<char>, lower: Seq<char>) -> bool {
    &&& s.len() == lower.len()
    &&& forall|i: int|
        0 <= i < s.len() ==> #[trigger] s[i] == lower[i] || s[i] as u32 + 0x20 == lower[i] as u32
}

/// The texts that denote a real number in Rust's notation for one: an optional
/// sign, and then infinity, not-a-number, or digits with an optional point and
/// exponent.
pub open spec fn is_real(s: Seq<char>) -> bool {
    let body = after_sign(s);
    ||| is_word(body, "inf"@)
    ||| is_word(body, "infinity"@)
    ||| is_word(body, "nan"@)
    ||| is_plain_number(body)
}

fn digits_only(chars: &[char], from: usize, to: usize) -> (r: bool)
    requires
        from <= to <= chars.len(),
    ensures
        r == text::all_digits(chars@.subrange(from as int, to as int)),
{
    let ghost s = chars@.subrange(from as int, to as int);
    let mut i: usize = from;
    while i < to
        invariant
            from <= i <= to <= chars.len(),
            s == chars@.subrange(from as int, to as int),
            forall|j: int| 0 <= j < i - from ==> text::is_digit(#[trigger] s[j]),
        decreases to - i,
    {
        let c = chars[i];
        assert(s[i - from] == c);
        if !('0' <= c && c <= '9') {
            return false;
        }
        i = i + 1;
    }
    true
}

fn find_exponent(chars: &[char], from: usize) -> (r: usize)
    requires
        from <= chars.len(),
    ensures
        from <= r <= chars.len(),
        r - from == exponent_at(chars@.skip(from as int)),
{
    let mut i: usize = from;
    while i < chars.len() && chars[i] != 'e' && chars[i] != 'E'
        invariant
            from <= i <= chars.len(),
            exponent_at(chars@.skip(from as int)) == i - from + exponent_at(chars@.skip(i as int)),
        decreases chars.len() - i,
    {
        assert(chars@.skip(i as int).drop_first() == chars@.skip(i + 1));
        i = i + 1;
    }
    i
}

fn matches_word(chars: &[char], from: usize, lower: &str) -> (r: bool)
    requires
        from <= chars.len(),
        forall|i: int| 0 <= i < lower@.len() ==> 'a' <= #[trigger] lower@[i] <= 'z',
    ensures
        r == is_word(chars@.skip(from as int), lower@),
{
    let ghost s = chars@.skip(from as int);
    let word = text::chars_of(lower);
    if chars.len() - from != word.len() {
        return false;
    }
    let mut i: usize = 0;
    while i < word.len()
        invariant
            i <= word.len(),
            word@ == lower@,
            from + word.len() == chars.len(),
            s == chars@.skip(from as int),
            forall|j: int| 0 <= j < lower@.len() ==> 'a' <= #[trigger] lower@[j] <= 'z',
            forall|j: int|
                0 <= j < i ==> #[trigger] s[j] == lower@[j] || s[j] as u32 + 0x20
                    == lower@[j] as u32,
        decreases word.len() - i,
    {
        let c = chars[from + i];
        assert(s[i as int] == c);
        assert('a' <= lower@[i as int] <= 'z');
        if c != word[i] && (c as u32) != (word[i] as u32) - 0x20 {
            return false;
        }
        i = i + 1;
    }
    true
}

/// Whether a text denotes a real number.
pub fn denotes_real(s: &str) -> (r: bool)
    ensures
        r == is_real(s@),
{
    let chars = text::chars_of(s);
    let all = chars.as_slice();
    let from: usize = if all.len() > 0 && (all[0] == '+' || all[0] == '-') {
        1
    } else {
        0
    };
    let ghost body = after_sign(s@);
    assert(body == s@.skip(from as int));
    proof {
        reveal_strlit("inf");
        reveal_strlit("infinity");
        reveal_strlit("nan");
        assert("inf"@ =~= seq!['i', 'n', 'f']);
        assert("infinity"@ =~= seq!['i', 'n', 'f', 'i', 'n', 'i', 't', 'y']);
        assert("nan"@ =~= seq!['n', 'a', 'n']);
    }
    if matches_word(all, from, "inf") || matches_word(all, from, "infinity") || matches_word(
        all,
        from,
        "nan",
    ) {
        return true;
    }
    let mark: usize = find_exponent(all, from);
    let ghost at = mark - from;
    let dot: usize = text::find_char(all, from, mark, '.');
    let ghost mantissa = body.take(at);
    assert(mantissa == all@.subrange(from as int, mark as int));
    assert(text::before(mantissa, '.') == all@.subrange(from as int, dot as int));
    let fraction: usize = if dot < mark {
        dot + 1
    } else {
        mark
    };
    assert(text::after(mantissa, '.') == all@.subrange(fraction as int, mark as int));
    if !digits_only(all, from, dot) || !digits_only(all, fraction, mark) {
        return false;
    }
    if dot == from && fraction == mark {
        return false;
    }
    if mark == all.len() {
        return true;
    }
    let ghost tail = body.skip(at + 1);
    assert(tail == all@.skip(mark + 1));
    let power: usize = if mark + 1 < all.len() && (all[mark + 1] == '+' || all[mark + 1] == '-') {
        mark + 2
    } else {
        mark + 1
    };
    assert(after_sign(tail) == all@.subrange(power as int, all@.len() as int));
    power < all.len() && digits_only(all, power, all.len())
}

/// The politeness settings that a save submits.
#[derive(Debug, PartialEq, Eq)]
pub struct PolitenessInput {
    /// The requests per second, as the text of a real number.
    pub rps: Option<String>,
    pub concurrency: Option<i32>,
    pub crawl_delay_ms: Option<i64>,
    pub user_agent: Option<String>,
    pub emulation: Option<BrowserEmulation>,
}

/// The politeness settings that a save submits, as characters and numbers.
#[verifier::ext_equal]
pub struct PolitenessView {
    pub rps: Option<Seq<char>>,
    pub concurrency: Option<i32>,
    pub crawl_delay_ms: Option<i64>,
    pub user_agent: Option<Seq<char>>,
    pub emulation: Option<BrowserEmulation>,
}

impl View for PolitenessInput {
    type V = PolitenessView;

    open spec fn view(&self) -> PolitenessView {
        PolitenessView {
            rps: text::view_of(self.rps),
            concurrency: self.concurrency,
            crawl_delay_ms: self.crawl_delay_ms,
            user_agent: text::view_of(self.user_agent),
            emulation: self.emulation,
        }
    }
}

/// The body that the editor's fields make, or the catalogue key of the first field
/// that the server would not accept.
pub open spec fn body_of(
    rps: Seq<char>,
    concurrency: Seq<char>,
    crawl_delay_ms: Seq<char>,
    user_agent: Seq<char>,
    emulation: Seq<char>,
) -> Result<PolitenessView, Seq<char>> {
    let at_once = text::bounded_value(text::trimmed(concurrency), i32::MAX as nat);
    let delay = text::bounded_value(text::trimmed(crawl_delay_ms), i64::MAX as nat);
    if !is_real(text::trimmed(rps)) {
        Err("console.providers.badRps"@)
    } else if at_once is None {
        Err("console.providers.badConcurrency"@)
    } else if delay is None {
        Err("console.providers.badCrawlDelay"@)
    } else if chosen_emulation(emulation) is Err {
        Err("console.providers.badEmulation"@)
    } else {
        Ok(
            PolitenessView {
                rps: Some(text::trimmed(rps)),
                concurrency: Some(at_once->0 as i32),
                crawl_delay_ms: Some(delay->0 as i64),
                user_agent: Some(user_agent),
                emulation: chosen_emulation(emulation)->Ok_0,
            },
        )
    }
}

/// Builds the politeness body from the editor's fields.
///
/// # Errors
///
/// The catalogue key naming the first of `rps`, `concurrency`, `crawl_delay_ms` or
/// `emulation` that the server would not accept. A negative or oversized figure is
/// refused here rather than reaching the server as a value it would clamp.
pub fn politeness_body(
    rps: &str,
    concurrency: &str,
    crawl_delay_ms: &str,
    user_agent: &str,
    emulation: &str,
) -> (r: Result<PolitenessInput, &'static str>)
    ensures
        (match r {
            Ok(body) => Ok(body@),
            Err(key) => Err(key@),
        }) == body_of(rps@, concurrency@, crawl_delay_ms@, user_agent@, emulation@),
{
    let rps = text::trim(rps);
    if !denotes_real(rps.as_str()) {
        return Err("console.providers.badRps");
    }
    let concurrency = text::trim(concurrency);
    let at_once: i32 = match text::parse_unsigned(concurrency.as_str(), i32::MAX as u64) {
        Some(n) => n as i32,
        None => return Err("console.providers.badConcurrency"),
    };
    let crawl_delay_ms = text::trim(crawl_delay_ms);
    let delay: i64 = match text::parse_unsigned(crawl_delay_ms.as_str(), i64::MAX as u64) {
        Some(n) => n as i64,
        None => return Err("console.providers.badCrawlDelay"),
    };
    let profile = match emulation_field(emulation) {
        Ok(profile) => profile,
        Err(key) => return Err(key),
    };
    Ok(
        PolitenessInput {
            rps: Some(rps),
            concurrency: Some(at_once),
            crawl_delay_ms: Some(delay),
            user_agent: Some(user_agent.to_owned()),
            emulation: profile,
        },
    )
}

/// Whatever body the editor makes, its emulation is shown as the token that chose it.
pub proof fn body_keeps_the_picker_token(
    rps: Seq<char>,
    concurrency: Seq<char>,
    crawl_delay_ms: Seq<char>,
    user_agent: Seq<char>,
    emulation: Seq<char>,
)
    requires
        body_of(rps, concurrency, crawl_delay_ms, user_agent, emulation) is Ok,
    ensures
        picker_value(
            body_of(rps, concurrency, crawl_delay_ms, user_agent, emulation)->Ok_0.emulation,
        ) == emulation,
{
    chosen_emulation_is_shown(emulation);
}

/// What a budget is refused for, the first fault named: a rate that is no number, then a
/// count and a pause that are no whole numbers in range, then a browser that is not on
/// offer; a budget without a fault is taken.
pub proof fn a_budget_is_refused_for_its_first_fault(
    rps: &str,
    concurrency: &str,
    crawl_delay_ms: &str,
    user_agent: &str,
    emulation: &str,
    body: Result<PolitenessInput, &'static str>,
)
    requires
        call_ensures(
            politeness_body,
            (rps, concurrency, crawl_delay_ms, user_agent, emulation),
            body,
        ),
    ensures
        ({
            let rated = is_real(text::trimmed(rps@));
            let count = text::unsigned_value(text::trimmed(concurrency@));
            let pause = text::unsigned_value(text::trimmed(crawl_delay_ms@));
            let counted = count is Some && count->0 <= 0x7fff_ffff;
            let paused = pause is Some && pause->0 <= 0x7fff_ffff_ffff_ffff;
            let offered = emulation@.len() == 0 || emulation@ == "chrome"@ || emulation@
                == "firefox"@ || emulation@ == "safari"@ || emulation@ == "edge"@ || emulation@
                == "ok_http"@;
            &&& body is Ok <==> rated && counted && paused && offered
            &&& !rated ==> body is Err && body->Err_0@ == "console.providers.badRps"@
            &&& rated && !counted ==> body is Err && body->Err_0@
                == "console.providers.badConcurrency"@
            &&& rated && counted && !paused ==> body is Err && body->Err_0@
                == "console.providers.badCrawlDelay"@
            &&& rated && counted && paused && !offered ==> body is Err && body->Err_0@
                == "console.providers.badEmulation"@
        }),
{
    reveal_strlit("chrome");
    reveal_strlit("firefox");
    reveal_strlit("safari");
    reveal_strlit("edge");
    reveal_strlit("ok_http");
    assert("chrome"@.len() == 6);
}

/// A budget that is taken carries what was typed: the rate and the two numbers without the
/// blanks round them, the client's name as it stands, and the browser that was picked.
pub proof fn a_budget_carries_what_was_typed(
    rps: &str,
    concurrency: &str,
    crawl_delay_ms: &str,
    user_agent: &str,
    emulation: &str,
    body: Result<PolitenessInput, &'static str>,
)
    requires
        call_ensures(
            politeness_body,
            (rps, concurrency, crawl_delay_ms, user_agent, emulation),
            body,
        ),
        body is Ok,
    ensures
        ({
            let given = body->Ok_0;
            &&& given.rps is Some && given.rps->0@ == text::trimmed(rps@)
            &&& given.concurrency is Some && text::unsigned_value(text::trimmed(concurrency@))
                == Some(given.concurrency->0 as nat)
            &&& given.concurrency->0 >= 0
            &&& given.crawl_delay_ms is Some && text::unsigned_value(text::trimmed(crawl_delay_ms@))
                == Some(given.crawl_delay_ms->0 as nat)
            &&& given.crawl_delay_ms->0 >= 0
            &&& given.user_agent is Some && given.user_agent->0@ == user_agent@
            &&& given.emulation is Some <==> emulation@.len() > 0
            &&& given.emulation is Some ==> given.emulation->0.token_text() == emulation@
        }),
{
    let given = body->Ok_0;
    assert(given@.rps == text::view_of(given.rps));
    assert(given@.user_agent == text::view_of(given.user_agent));
    body_keeps_the_picker_token(rps@, concurrency@, crawl_delay_ms@, user_agent@, emulation@);
    if given.emulation is Some {
        given.emulation->0.token_reads_back();
    } else {
        reveal_strlit("");
        assert(""@.len() == 0);
    }
}

/// A browser is named by its own token and by no other text.
pub proof fn a_browser_is_named_by_its_token(token: Seq<char>, profile: BrowserEmulation)
    ensures
        BrowserEmulation::named_by(token) == Some(profile) <==> token == profile.token_text(),
{
    profile.token_reads_back();
}

proof fn lemma_no_exponent(s: Seq<char>)
    requires
        forall|i: int| 0 <= i < s.len() ==> !is_exponent_mark(#[trigger] s[i]),
    ensures
        exponent_at(s) == s.len(),
    decreases s.len(),
{
    if s.len() > 0 {
        assert forall|i: int| 0 <= i < s.drop_first().len() implies !is_exponent_mark(
            #[trigger] s.drop_first()[i],
        ) by {
            assert(s.drop_first()[i] == s[i + 1]);
        }
        lemma_no_exponent(s.drop_first());
    }
}

/// A run of digits is a number, and stays one with a sign before it or with a point and
/// more digits behind it; without a digit or one of the three words nothing is.
pub proof fn digits_make_a_number(whole: Seq<char>, fraction: Seq<char>)
    requires
        text::all_digits(whole),
        text::all_digits(fraction),
        whole.len() > 0,
    ensures
        is_real(whole),
        is_real(seq!['-'] + whole),
        is_real(seq!['+'] + whole),
        is_real(whole + seq!['.'] + fraction),
        !is_real(Seq::<char>::empty()),
        !is_real(seq!['-']),
{
    lemma_digits_are_plain(whole, Seq::empty(), false);
    lemma_digits_are_plain(whole, fraction, true);
    assert(whole + Seq::<char>::empty() =~= whole);
    assert(!is_sign(whole[0]));
    assert(after_sign(whole) == whole);
    assert((seq!['-'] + whole).drop_first() =~= whole);
    assert((seq!['+'] + whole).drop_first() =~= whole);
    let point = whole + seq!['.'] + fraction;
    assert(point[0] == whole[0]);
    assert(after_sign(point) == point);
    reveal_strlit("inf");
    reveal_strlit("infinity");
    reveal_strlit("nan");
    assert("inf"@.len() == 3 && "infinity"@.len() == 8 && "nan"@.len() == 3);
    let none = Seq::<char>::empty();
    assert(seq!['-'].drop_first() =~= none);
    assert(none.take(0) =~= none);
    assert(text::before(none, '.') =~= none);
    assert(text::after(none, '.') =~= none);
}

proof fn lemma_digits_are_plain(whole: Seq<char>, fraction: Seq<char>, point: bool)
    requires
        text::all_digits(whole),
        text::all_digits(fraction),
        whole.len() > 0,
    ensures
        is_plain_number(if point {
            whole + seq!['.'] + fraction
        } else {
            whole
        }),
{
    let s = if point {
        whole + seq!['.'] + fraction
    } else {
        whole
    };
    assert forall|i: int| 0 <= i < s.len() implies !is_exponent_mark(#[trigger] s[i]) by {
        if i < whole.len() {
            assert(text::is_digit(whole[i]));
        } else if i > whole.len() {
            assert(s[i] == fraction[i - whole.len() - 1]);
            assert(text::is_digit(fraction[i - whole.len() - 1]));
        }
    }
    lemma_no_exponent(s);
    assert(s.take(s.len() as int) =~= s);
    assert forall|i: int| 0 <= i < whole.len() implies s[i] != '.' by {
        assert(text::is_digit(whole[i]));
    }
    text::lemma_find(s, '.', whole.len() as int);
    assert(text::before(s, '.') =~= whole);
    if point {
        assert(text::after(s, '.') =~= fraction);
    } else {
        assert(text::after(s, '.') =~= Seq::<char>::empty());
    }
}

/// A number may carry a power of ten: behind a letter for it, in either case, with a sign
/// or without one; the power is digits, and at least one.
pub proof fn a_power_makes_a_number(whole: Seq<char>, mark: char, power: Seq<char>)
    requires
        text::all_digits(whole),
        text::all_digits(power),
        whole.len() > 0,
        mark == 'e' || mark == 'E',
    ensures
        is_real(whole + seq![mark] + power) <==> power.len() > 0,
        power.len() > 0 ==> is_real(whole + seq![mark, '-'] + power),
        power.len() > 0 ==> is_real(whole + seq![mark, '+'] + power),
{
    assert((seq![mark] + power).drop_first() =~= power);
    assert((seq![mark, '-'] + power).skip(2) =~= power);
    assert((seq![mark, '+'] + power).skip(2) =~= power);
    lemma_power(whole, seq![mark] + power, power);
    lemma_power(whole, seq![mark, '-'] + power, power);
    lemma_power(whole, seq![mark, '+'] + power, power);
    assert(whole + (seq![mark] + power) =~= whole + seq![mark] + power);
    assert(whole + (seq![mark, '-'] + power) =~= whole + seq![mark, '-'] + power);
    assert(whole + (seq![mark, '+'] + power) =~= whole + seq![mark, '+'] + power);
    let s = whole + seq![mark] + power;
    assert(text::is_digit(whole[0]));
    assert(s[0] == whole[0]);
    assert(after_sign(s) == s);
    reveal_strlit("inf");
    reveal_strlit("infinity");
    reveal_strlit("nan");
    assert("inf"@[0] == 'i' && "infinity"@[0] == 'i' && "nan"@[0] == 'n');
    assert((whole + seq![mark, '-'] + power)[0] == whole[0]);
    assert((whole + seq![mark, '+'] + power)[0] == whole[0]);
}

proof fn lemma_power(whole: Seq<char>, tail: Seq<char>, power: Seq<char>)
    requires
        text::all_digits(whole),
        text::all_digits(power),
        whole.len() > 0,
        tail.len() > 0,
        is_exponent_mark(tail[0]),
        tail.drop_first() == power || (tail.len() > 1 && is_sign(tail[1]) && tail.skip(2) == power),
    ensures
        is_plain_number(whole + tail) <==> power.len() > 0,
{
    let s = whole + tail;
    lemma_exponent_behind(whole, tail);
    assert(exponent_at(s) == whole.len());
    assert(s.take(whole.len() as int) =~= whole);
    lemma_digits_are_plain(whole, Seq::empty(), false);
    assert forall|i: int| 0 <= i < whole.len() implies whole[i] != '.' by {
        assert(text::is_digit(whole[i]));
    }
    text::lemma_find(whole, '.', whole.len() as int);
    assert(text::before(whole, '.') =~= whole);
    assert(text::after(whole, '.') =~= Seq::<char>::empty());
    let rest = s.skip((whole.len() + 1) as int);
    assert(rest =~= tail.drop_first());
    if tail.drop_first() == power {
        if power.len() > 0 {
            assert(text::is_digit(power[0]));
        }
        assert(after_sign(rest) == power);
    } else {
        assert(rest[0] == tail[1]);
        assert(rest.drop_first() =~= tail.skip(2));
    }
}

proof fn lemma_exponent_behind(whole: Seq<char>, tail: Seq<char>)
    requires
        text::all_digits(whole),
        tail.len() > 0,
        is_exponent_mark(tail[0]),
    ensures
        exponent_at(whole + tail) == whole.len(),
    decreases whole.len(),
{
    let s = whole + tail;
    if whole.len() == 0 {
        assert(s =~= tail);
    } else {
        assert(text::is_digit(whole[0]));
        assert forall|i: int| 0 <= i < whole.drop_first().len() implies text::is_digit(
            #[trigger] whole.drop_first()[i],
        ) by {
            assert(text::is_digit(whole[i + 1]));
        }
        lemma_exponent_behind(whole.drop_first(), tail);
        assert(s.drop_first() =~= whole.drop_first() + tail);
    }
}

} // verus!
