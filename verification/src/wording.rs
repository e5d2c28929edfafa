//! What the console says, before it is said in a language.
//!
//! A decision names a catalogue key and the values that fill its wording. The
//! rendering of a phrase, the grouping of digits and the phrasing of a stamp as
//! "two hours ago" belong to whoever holds the catalogue.

use crate::text;
use vstd::prelude::*;

verus! {

broadcast use vstd::string::group_string_axioms;

/// A short text: the catalogue's wording of a key, or the text itself.
#[derive(Debug, PartialEq, Eq)]
pub enum Label {
    Worded(&'static str),
    Verbatim(String),
    /// The wording of the first of some keys that the catalogue holds, or the text
    /// itself where it holds none. The keys are made of a token that the server chose,
    /// so that a token this build has never heard of is shown as it is.
    FirstOf(Vec<String>, String),
    /// The wording of a key that is made of a token that the server chose.
    Keyed(String),
}

/// A label as its characters.
#[verifier::ext_equal]
pub enum LabelView {
    Worded(Seq<char>),
    Verbatim(Seq<char>),
    FirstOf(Seq<Seq<char>>, Seq<char>),
    Keyed(Seq<char>),
}

impl View for Label {
    type V = LabelView;

    open spec fn view(&self) -> LabelView {
        match *self {
            Label::Worded(key) => LabelView::Worded(key@),
            Label::Verbatim(t) => LabelView::Verbatim(t@),
            Label::FirstOf(keys, otherwise) => LabelView::FirstOf(
                Seq::new(keys@.len(), |i: int| keys@[i]@),
                otherwise@,
            ),
            Label::Keyed(key) => LabelView::Keyed(key@),
        }
    }
}

impl LabelView {
    /// The label of a token: the wording of the key made of a prefix and the token, or
    /// the token.
    pub open spec fn token_under(prefix: Seq<char>, token: Seq<char>) -> Self {
        LabelView::FirstOf(seq![prefix + token], token)
    }
}

impl Label {
    /// The label of a token: the wording of the key made of a prefix and the token, or
    /// the token.
    pub fn token_under(prefix: &str, token: &str) -> (r: Label)
        ensures
            r@ == LabelView::token_under(prefix@, token@),
    {
        let mut key = prefix.to_owned();
        key.append(token);
        let mut keys: Vec<String> = Vec::new();
        keys.push(key);
        let r = Label::FirstOf(keys, token.to_owned());
        assert(Seq::new(keys@.len(), |i: int| keys@[i]@) =~= seq![prefix@ + token@]);
        r
    }

    /// The wording of the key made of a prefix and a token.
    pub fn keyed(prefix: &str, token: &str) -> (r: Label)
        ensures
            r@ == LabelView::Keyed(prefix@ + token@),
    {
        let mut key = prefix.to_owned();
        key.append(token);
        Label::Keyed(key)
    }
}

/// What a label with several keys reads as, given the catalogue's wording of each key,
/// where it holds one: the first wording, or the text itself.
pub open spec fn reading(wordings: Seq<Option<String>>, otherwise: Seq<char>) -> Seq<char>
    decreases wordings.len(),
{
    if wordings.len() == 0 {
        otherwise
    } else if wordings[0] is Some {
        wordings[0]->0@
    } else {
        reading(wordings.drop_first(), otherwise)
    }
}

/// What a label with several keys reads as, given the catalogue's wording of each key.
pub fn first_wording(wordings: &[Option<String>], otherwise: &str) -> (r: String)
    ensures
        r@ == reading(wordings@, otherwise@),
{
    let mut i: usize = 0;
    assert(wordings@.skip(0) == wordings@);
    while i < wordings.len()
        invariant
            i <= wordings.len(),
            reading(wordings@, otherwise@) == reading(wordings@.skip(i as int), otherwise@),
        decreases wordings.len() - i,
    {
        if let Some(found) = &wordings[i] {
            return found.clone();
        }
        assert(wordings@.skip(i as int).drop_first() == wordings@.skip(i + 1));
        i = i + 1;
    }
    otherwise.to_owned()
}

/// A count in words.
#[derive(Debug, Clone, Copy, PartialEq, Eq)]
pub enum Counted {
    /// The wording of a key for the count.
    Plural(&'static str, i64),
    /// The wording of a key with the count in its place `count`.
    Named(&'static str, i64),
}

/// A count in words, as its characters.
#[verifier::ext_equal]
pub enum CountedView {
    Plural(Seq<char>, i64),
    Named(Seq<char>, i64),
}

impl View for Counted {
    type V = CountedView;

    open spec fn view(&self) -> CountedView {
        match *self {
            Counted::Plural(key, n) => CountedView::Plural(key@, n),
            Counted::Named(key, n) => CountedView::Named(key@, n),
        }
    }
}

/// How long something took, in the units that it is said in.
#[derive(Debug, Clone, Copy, PartialEq, Eq, Structural)]
pub enum Took {
    Seconds(i64),
    Minutes(i64),
    Hours { hours: i64, minutes: i64 },
    /// That is not known.
    Unknown,
}

impl Took {
    /// How long something took, in words.
    pub open spec fn said(self) -> PhraseView {
        match self {
            Took::Seconds(n) => PhraseView::plain("time.seconds"@).number("count"@, n as int),
            Took::Minutes(n) => PhraseView::plain("time.minutes"@).number("count"@, n as int),
            Took::Hours { hours, minutes } => PhraseView::plain("time.hoursMinutes"@).number(
                "hours"@,
                hours as int,
            ).number("minutes"@, minutes as int),
            Took::Unknown => PhraseView::plain("time.unknown"@),
        }
    }

    /// How long something took, in words.
    pub fn words(self) -> (r: Phrase)
        ensures
            r@ == self.said(),
    {
        match self {
            Took::Seconds(n) => Phrase::plain("time.seconds").number("count", n),
            Took::Minutes(n) => Phrase::plain("time.minutes").number("count", n),
            Took::Hours { hours, minutes } => Phrase::plain("time.hoursMinutes").number(
                "hours",
                hours,
            ).number("minutes", minutes),
            Took::Unknown => Phrase::plain("time.unknown"),
        }
    }
}

/// A value that fills a place in a wording.
#[derive(Debug, PartialEq, Eq)]
pub enum Arg {
    Label(Label),
    /// A number in plain decimal notation.
    Number(i64),
    /// A number with its digits grouped.
    Grouped(i64),
    /// A stamp, said as the time that has passed since.
    Since(Option<String>),
    /// A stamp, said as the day it falls on.
    Day(String),
    /// Two counts in words, with a middle dot between them.
    Counts(Counted, Counted),
    /// A duration in words.
    Took(Took),
}

/// A value that fills a place in a wording, as its characters and numbers.
#[verifier::ext_equal]
pub enum ArgView {
    Label(LabelView),
    Number(int),
    Grouped(int),
    Since(Option<Seq<char>>),
    Day(Seq<char>),
    Counts(CountedView, CountedView),
    /// A wording of its own.
    Words(Box<PhraseView>),
}

impl View for Arg {
    type V = ArgView;

    open spec fn view(&self) -> ArgView {
        match *self {
            Arg::Label(label) => ArgView::Label(label@),
            Arg::Number(n) => ArgView::Number(n as int),
            Arg::Grouped(n) => ArgView::Grouped(n as int),
            Arg::Since(stamp) => ArgView::Since(text::view_of(stamp)),
            Arg::Day(stamp) => ArgView::Day(stamp@),
            Arg::Counts(first, second) => ArgView::Counts(first@, second@),
            Arg::Took(took) => ArgView::Words(Box::new(took.said())),
        }
    }
}

/// A wording with the values that fill it.
#[derive(Debug, PartialEq, Eq)]
pub struct Phrase {
    pub key: &'static str,
    /// The count that picks between singular and plural, where the wording has both.
    pub count: Option<i64>,
    pub args: Vec<(&'static str, Arg)>,
}

/// A wording with the values that fill it, as characters and numbers.
#[verifier::ext_equal]
pub struct PhraseView {
    pub key: Seq<char>,
    pub count: Option<i64>,
    pub args: Seq<(Seq<char>, ArgView)>,
}

impl View for Phrase {
    type V = PhraseView;

    open spec fn view(&self) -> PhraseView {
        PhraseView {
            key: self.key@,
            count: self.count,
            args: Seq::new(self.args@.len(), |i: int| (self.args@[i].0@, self.args@[i].1@)),
        }
    }
}

impl PhraseView {
    /// The wording of a key that has no place to fill.
    pub open spec fn plain(key: Seq<char>) -> Self {
        PhraseView { key, count: None, args: Seq::empty() }
    }

    /// The wording of a key for a count.
    pub open spec fn plural(key: Seq<char>, count: i64) -> Self {
        PhraseView { key, count: Some(count), args: Seq::empty() }
    }

    /// The phrase with one more place filled.
    pub open spec fn filled(self, name: Seq<char>, arg: ArgView) -> Self {
        PhraseView { args: self.args.push((name, arg)), ..self }
    }

    /// The phrase with a number in plain notation in one more place.
    pub open spec fn number(self, name: Seq<char>, n: int) -> Self {
        self.filled(name, ArgView::Number(n))
    }

    /// The phrase with a number with grouped digits in one more place.
    pub open spec fn grouped(self, name: Seq<char>, n: int) -> Self {
        self.filled(name, ArgView::Grouped(n))
    }

    /// The phrase with a text in one more place.
    pub open spec fn verbatim(self, name: Seq<char>, t: Seq<char>) -> Self {
        self.filled(name, ArgView::Label(LabelView::Verbatim(t)))
    }

    /// The phrase with the wording of another key in one more place.
    pub open spec fn worded(self, name: Seq<char>, key: Seq<char>) -> Self {
        self.filled(name, ArgView::Label(LabelView::Worded(key)))
    }

    /// The phrase with a label in one more place.
    pub open spec fn label(self, name: Seq<char>, label: LabelView) -> Self {
        self.filled(name, ArgView::Label(label))
    }

    /// The phrase with a stamp in one more place.
    pub open spec fn since(self, name: Seq<char>, stamp: Option<Seq<char>>) -> Self {
        self.filled(name, ArgView::Since(stamp))
    }

    /// The phrase with another wording in one more place.
    pub open spec fn words(self, name: Seq<char>, other: PhraseView) -> Self {
        self.filled(name, ArgView::Words(Box::new(other)))
    }

    /// The phrase with the day of a stamp in one more place.
    pub open spec fn day(self, name: Seq<char>, stamp: Seq<char>) -> Self {
        self.filled(name, ArgView::Day(stamp))
    }
}

impl Phrase {
    /// The wording of a key that has no place to fill.
    pub fn plain(key: &'static str) -> (r: Phrase)
        ensures
            r@ == PhraseView::plain(key@),
    {
        let r = Phrase { key, count: None, args: Vec::new() };
        assert(r@.args =~= Seq::empty());
        r
    }

    /// The wording of a key for a count.
    pub fn plural(key: &'static str, count: i64) -> (r: Phrase)
        ensures
            r@ == PhraseView::plural(key@, count),
    {
        let r = Phrase { key, count: Some(count), args: Vec::new() };
        assert(r@.args =~= Seq::empty());
        r
    }

    /// The phrase with one more place filled.
    pub fn filled(self, name: &'static str, arg: Arg) -> (r: Phrase)
        ensures
            r@ == self@.filled(name@, arg@),
    {
        let mut args = self.args;
        args.push((name, arg));
        let r = Phrase { key: self.key, count: self.count, args };
        assert(r@.args =~= self@.args.push((name@, arg@)));
        r
    }

    /// The phrase with a number in plain notation in one more place.
    pub fn number(self, name: &'static str, n: i64) -> (r: Phrase)
        ensures
            r@ == self@.number(name@, n as int),
    {
        self.filled(name, Arg::Number(n))
    }

    /// The phrase with a number with grouped digits in one more place.
    pub fn grouped(self, name: &'static str, n: i64) -> (r: Phrase)
        ensures
            r@ == self@.grouped(name@, n as int),
    {
        self.filled(name, Arg::Grouped(n))
    }

    /// The phrase with a text in one more place.
    pub fn verbatim(self, name: &'static str, t: &str) -> (r: Phrase)
        ensures
            r@ == self@.verbatim(name@, t@),
    {
        self.filled(name, Arg::Label(Label::Verbatim(t.to_owned())))
    }

    /// The phrase with the wording of another key in one more place.
    pub fn worded(self, name: &'static str, key: &'static str) -> (r: Phrase)
        ensures
            r@ == self@.worded(name@, key@),
    {
        self.filled(name, Arg::Label(Label::Worded(key)))
    }

    /// The phrase with a label in one more place.
    pub fn label(self, name: &'static str, label: Label) -> (r: Phrase)
        ensures
            r@ == self@.label(name@, label@),
    {
        self.filled(name, Arg::Label(label))
    }

    /// The phrase with a stamp in one more place.
    pub fn since(self, name: &'static str, stamp: Option<String>) -> (r: Phrase)
        ensures
            r@ == self@.since(name@, text::view_of(stamp)),
    {
        self.filled(name, Arg::Since(stamp))
    }

    /// The phrase with a duration in one more place.
    pub fn took(self, name: &'static str, took: Took) -> (r: Phrase)
        ensures
            r@ == self@.words(name@, took.said()),
    {
        self.filled(name, Arg::Took(took))
    }

    /// The phrase with the day of a stamp in one more place.
    pub fn day(self, name: &'static str, stamp: &str) -> (r: Phrase)
        ensures
            r@ == self@.day(name@, stamp@),
    {
        self.filled(name, Arg::Day(stamp.to_owned()))
    }
}

/// What a table of pairs gives for a name: the second part of the first pair whose
/// first part is the name.
pub open spec fn lookup(table: Seq<(&'static str, &'static str)>, name: Seq<char>) -> Option<
    Seq<char>,
>
    decreases table.len(),
{
    if table.len() == 0 {
        None
    } else if table[0].0@ == name {
        Some(table[0].1@)
    } else {
        lookup(table.drop_first(), name)
    }
}

/// What a table of pairs gives for a name.
pub fn find(table: &[(&'static str, &'static str)], name: &str) -> (r: Option<&'static str>)
    ensures
        (match r {
            Some(found) => Some(found@),
            None => None,
        }) == lookup(table@, name@),
{
    let mut i: usize = 0;
    assert(table@.skip(0) == table@);
    while i < table.len()
        invariant
            i <= table.len(),
            lookup(table@, name@) == lookup(table@.skip(i as int), name@),
        decreases table.len() - i,
    {
        if text::same(table[i].0, name) {
            return Some(table[i].1);
        }
        assert(table@.skip(i as int).drop_first() == table@.skip(i + 1));
        i = i + 1;
    }
    None
}

/// The wording that is read is the first that is there, and the text that stands in where
/// none is.
pub proof fn the_first_wording_is_read(wordings: Seq<Option<String>>, otherwise: Seq<char>, at: int)
    requires
        0 <= at <= wordings.len(),
        forall|i: int| 0 <= i < at ==> (#[trigger] wordings[i]) is None,
    ensures
        at < wordings.len() && wordings[at] is Some ==> reading(wordings, otherwise)
            == wordings[at]->0@,
        at == wordings.len() ==> reading(wordings, otherwise) == otherwise,
    decreases at,
{
    if at > 0 {
        let rest = wordings.drop_first();
        assert(wordings[0] is None);
        assert forall|i: int| 0 <= i < at - 1 implies (#[trigger] rest[i]) is None by {
            assert(rest[i] == wordings[i + 1]);
        }
        the_first_wording_is_read(rest, otherwise, at - 1);
    }
}

/// A name is looked up to the first row of the table that has it.
pub proof fn a_name_is_looked_up_to_its_first_row(
    table: Seq<(&'static str, &'static str)>,
    name: Seq<char>,
    at: int,
)
    requires
        0 <= at <= table.len(),
        forall|i: int| 0 <= i < at ==> (#[trigger] table[i]).0@ != name,
    ensures
        at < table.len() && table[at].0@ == name ==> lookup(table, name) == Some(table[at].1@),
        at == table.len() ==> lookup(table, name) is None,
    decreases at,
{
    if at > 0 {
        let rest = table.drop_first();
        assert(table[0].0@ != name);
        assert forall|i: int| 0 <= i < at - 1 implies (#[trigger] rest[i]).0@ != name by {
            assert(rest[i] == table[i + 1]);
        }
        a_name_is_looked_up_to_its_first_row(rest, name, at - 1);
    }
}

/// What a phrase is filled with is added behind what it had, under its own name and as what
/// it is; the key and the count stay.
pub proof fn a_phrase_keeps_what_it_had(
    phrase: Phrase,
    name: &'static str,
    n: i64,
    t: &str,
    key: &'static str,
    number: Phrase,
    grouped: Phrase,
    verbatim: Phrase,
    worded: Phrase,
    day: Phrase,
)
    requires
        call_ensures(Phrase::number, (phrase, name, n), number),
        call_ensures(Phrase::grouped, (phrase, name, n), grouped),
        call_ensures(Phrase::verbatim, (phrase, name, t), verbatim),
        call_ensures(Phrase::worded, (phrase, name, key), worded),
        call_ensures(Phrase::day, (phrase, name, t), day),
    ensures
        number@.args == phrase@.args.push((name@, ArgView::Number(n as int))),
        grouped@.args == phrase@.args.push((name@, ArgView::Grouped(n as int))),
        verbatim@.args == phrase@.args.push((name@, ArgView::Label(LabelView::Verbatim(t@)))),
        worded@.args == phrase@.args.push((name@, ArgView::Label(LabelView::Worded(key@)))),
        day@.args == phrase@.args.push((name@, ArgView::Day(t@))),
        number@.key == phrase@.key && number@.count == phrase@.count,
        grouped@.key == phrase@.key && grouped@.count == phrase@.count,
        verbatim@.key == phrase@.key && verbatim@.count == phrase@.count,
        worded@.key == phrase@.key && worded@.count == phrase@.count,
        day@.key == phrase@.key && day@.count == phrase@.count,
{
}

/// A token is worded under its prefix where the wording is there, and shown as it stands
/// where it is not.
pub proof fn an_unworded_token_is_shown(prefix: &str, token: &str, label: Label)
    requires
        call_ensures(Label::token_under, (prefix, token), label),
    ensures
        label@ matches LabelView::FirstOf(keys, otherwise) && keys.len() == 1 && keys[0] == prefix@
            + token@ && otherwise == token@,
{
}

/// A time is worded in its unit, with its own counts.
pub proof fn a_time_is_worded_in_its_unit(
    n: i64,
    hours: i64,
    minutes: i64,
    seconds: Phrase,
    short: Phrase,
    long: Phrase,
    unknown: Phrase,
)
    requires
        call_ensures(Took::words, (Took::Seconds(n),), seconds),
        call_ensures(Took::words, (Took::Minutes(n),), short),
        call_ensures(Took::words, (Took::Hours { hours, minutes },), long),
        call_ensures(Took::words, (Took::Unknown,), unknown),
    ensures
        seconds@ == PhraseView::plain("time.seconds"@).number("count"@, n as int),
        short@ == PhraseView::plain("time.minutes"@).number("count"@, n as int),
        long@ == PhraseView::plain("time.hoursMinutes"@).number("hours"@, hours as int).number(
            "minutes"@,
            minutes as int,
        ),
        unknown@ == PhraseView::plain("time.unknown"@),
{
}

} // verus!
