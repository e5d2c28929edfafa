//! What a panel knows while it waits for the server, and what it then says.

use crate::wording::{Phrase, PhraseView};
use vstd::prelude::*;

verus! {

/// What the server answered to a request.
#[derive(Debug, PartialEq, Eq)]
pub enum Reply {
    /// It did what was asked.
    Done,
    /// It asked for a second factor first; the prompt for one says so itself.
    StepUp,
    /// It refused, or could not be reached; the text says why.
    Failed(String),
}

/// A line that tells how a request went.
#[derive(Debug, PartialEq, Eq)]
pub enum Notice {
    Good(Phrase),
    Bad(Phrase),
    /// The server's own words.
    BadText(String),
}

/// A notice as its characters.
#[verifier::ext_equal]
pub enum NoticeView {
    Good(PhraseView),
    Bad(PhraseView),
    BadText(Seq<char>),
}

impl View for Notice {
    type V = NoticeView;

    open spec fn view(&self) -> NoticeView {
        match *self {
            Notice::Good(p) => NoticeView::Good(p@),
            Notice::Bad(p) => NoticeView::Bad(p@),
            Notice::BadText(t) => NoticeView::BadText(t@),
        }
    }
}

/// A notice that may be absent, as its characters.
pub open spec fn notice_view(n: Option<Notice>) -> Option<NoticeView> {
    match n {
        Some(notice) => Some(notice@),
        None => None,
    }
}

/// What a reply leaves on the line: what was done, nothing new for a second factor,
/// or the server's words.
pub open spec fn after_reply(
    shown: Option<NoticeView>,
    reply: Reply,
    done: Option<NoticeView>,
) -> Option<NoticeView> {
    match reply {
        Reply::Done => done,
        Reply::StepUp => shown,
        Reply::Failed(why) => Some(NoticeView::BadText(why@)),
    }
}

/// A control that makes one request at a time, and the line beside it.
#[derive(Debug, PartialEq, Eq)]
pub struct Attempt {
    pub busy: bool,
    pub outcome: Option<Notice>,
}

/// A control as its characters.
#[verifier::ext_equal]
pub struct AttemptView {
    pub busy: bool,
    pub outcome: Option<NoticeView>,
}

impl View for Attempt {
    type V = AttemptView;

    open spec fn view(&self) -> AttemptView {
        AttemptView { busy: self.busy, outcome: notice_view(self.outcome) }
    }
}

impl AttemptView {
    /// A control that has asked for nothing.
    pub open spec fn idle() -> Self {
        AttemptView { busy: false, outcome: None }
    }

    /// The control once its request is on its way.
    pub open spec fn claimed(self) -> Self {
        if self.busy {
            self
        } else {
            AttemptView { busy: true, outcome: None }
        }
    }

    /// The control once the reply is in, which says nothing new where it was done.
    pub open spec fn settled(self, refusal: Option<Seq<char>>) -> Self {
        AttemptView {
            busy: false,
            outcome: match refusal {
                Some(why) => Some(NoticeView::BadText(why)),
                None => self.outcome,
            },
        }
    }
}

impl Attempt {
    /// A control that has asked for nothing.
    pub fn idle() -> (r: Attempt)
        ensures
            r@ == AttemptView::idle(),
    {
        Attempt { busy: false, outcome: None }
    }

    /// Claims the control for a request, and clears the line. `false` while another
    /// request is under way.
    pub fn claim(&mut self) -> (r: bool)
        ensures
            r == !old(self)@.busy,
            final(self)@ == old(self)@.claimed(),
    {
        if self.busy {
            return false;
        }
        self.busy = true;
        self.outcome = None;
        true
    }

    /// Takes a reply that says nothing where it was done. `true` where it was.
    pub fn settle(&mut self, refusal: Option<String>) -> (r: bool)
        ensures
            r == (refusal is None),
            final(self)@ == old(self)@.settled(crate::text::view_of(refusal)),
    {
        self.busy = false;
        match refusal {
            Some(why) => {
                self.outcome = Some(Notice::BadText(why));
                false
            },
            None => true,
        }
    }

    /// Takes a reply, and says a line of its own.
    pub fn settle_with(&mut self, notice: Notice)
        ensures
            final(self)@ == (AttemptView { busy: false, outcome: Some(notice@) }),
    {
        self.busy = false;
        self.outcome = Some(notice);
    }
}

/// An attempt is claimed once: a second claim is refused and changes nothing until the
/// reply has come, and a claim wipes what was said before.
pub proof fn an_attempt_is_claimed_once(
    first: &mut Attempt,
    second: &mut Attempt,
    taken: bool,
    again: bool,
)
    requires
        call_ensures(Attempt::claim, (first,), taken),
        call_ensures(Attempt::claim, (second,), again),
    ensures
        taken <==> !old(first)@.busy,
        taken ==> final(first)@.busy && final(first)@.outcome is None,
        !taken ==> final(first)@ == old(first)@,
        old(second)@ == final(first)@ ==> !again && final(second)@ == final(first)@,
{
}

/// A reply always frees the attempt; a refusal is shown as it was given, and a reply
/// without one says nothing new.
pub proof fn a_reply_frees_the_attempt(
    replied: &mut Attempt,
    refusal: Option<String>,
    fine: bool,
    noted: &mut Attempt,
    notice: Notice,
)
    requires
        call_ensures(Attempt::settle, (replied, refusal), fine),
        call_ensures(Attempt::settle_with, (noted, notice), ()),
    ensures
        !final(replied)@.busy,
        fine <==> refusal is None,
        refusal is Some ==> final(replied)@.outcome == Some(NoticeView::BadText(refusal->0@)),
        refusal is None ==> final(replied)@.outcome == old(replied)@.outcome,
        !final(noted)@.busy,
        final(noted)@.outcome == Some(notice@),
{
}

/// What is said after a reply: what was to be said where it went through, the server's own
/// words where it did not, and what stood there while the reader is asked to sign in again.
pub proof fn a_failure_is_said_in_its_own_words(
    shown: Option<NoticeView>,
    reply: Reply,
    done: Option<NoticeView>,
)
    ensures
        reply is Done ==> after_reply(shown, reply, done) == done,
        reply is StepUp ==> after_reply(shown, reply, done) == shown,
        reply matches Reply::Failed(why) ==> after_reply(shown, reply, done) == Some(
            NoticeView::BadText(why@),
        ),
{
}

/// An attempt begins free, with nothing said, and what is said of it later is what it was
/// given.
pub proof fn an_attempt_begins_free(idle: Attempt, attempt: Attempt, shown: Option<Notice>)
    requires
        call_ensures(Attempt::idle, (), idle),
    ensures
        !idle.busy,
        idle.outcome is None,
        attempt@.busy == attempt.busy,
        attempt@.outcome is Some <==> attempt.outcome is Some,
        attempt.outcome is Some ==> attempt@.outcome->0 == attempt.outcome->0@,
        shown matches Some(Notice::BadText(why)) ==> notice_view(shown) == Some(
            NoticeView::BadText(why@),
        ),
        shown matches Some(Notice::Good(said)) ==> notice_view(shown) == Some(
            NoticeView::Good(said@),
        ),
        shown matches Some(Notice::Bad(said)) ==> notice_view(shown) == Some(
            NoticeView::Bad(said@),
        ),
{
    assert(idle@.outcome == notice_view(idle.outcome));
    assert(idle@.busy == idle.busy);
}

} // verus!
