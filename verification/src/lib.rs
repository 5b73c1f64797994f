//! A blog post workflow: a post accumulates text while it moves through
//! the editorial states Draft, PendingReview and Published, and the text
//! becomes visible to readers only once the post is published.

use vstd::prelude::*;
use vstd::string::StringExecFns;

verus! {

/// The editorial state of a post. A post starts in `Draft`; transitions
/// run one way, `Draft` to `PendingReview` to `Published`, and a request
/// that is illegal in the current state leaves the state unchanged.
#[derive(Clone, Copy, Debug, PartialEq, Eq, Structural)]
pub enum State {
    Draft,
    PendingReview,
    Published,
}

/// The state after a review request: `Draft` moves to `PendingReview`;
/// the other states absorb the request.
pub open spec fn review_requested(s: State) -> State {
    match s {
        State::Draft => State::PendingReview,
        _ => s,
    }
}

/// The state after an approval: `PendingReview` moves to `Published`;
/// the other states absorb the request.
pub open spec fn approved(s: State) -> State {
    match s {
        State::PendingReview => State::Published,
        _ => s,
    }
}

/// The part of the accumulated text that a reader sees: everything once
/// the post is published, nothing before.
pub open spec fn visible(s: State, text: Seq<char>) -> Seq<char> {
    if s is Published {
        text
    } else {
        Seq::empty()
    }
}

impl State {
    /// Where a review request leads from this state.
    pub fn request_review(self) -> (next: State)
        ensures
            next == review_requested(self),
    {
        match self {
            State::Draft => State::PendingReview,
            State::PendingReview => State::PendingReview,
            State::Published => State::Published,
        }
    }

    /// Where an approval leads from this state.
    pub fn approve(self) -> (next: State)
        ensures
            next == approved(self),
    {
        match self {
            State::Draft => State::Draft,
            State::PendingReview => State::Published,
            State::Published => State::Published,
        }
    }

    /// What of the post's text this state shows to a reader.
    pub fn content<'a>(&self, post: &'a Post) -> (r: &'a str)
        ensures
            r@ == visible(*self, post.text()),
    {
        match self {
            State::Published => post.content.as_str(),
            _ => {
                proof {
                    reveal_strlit("");
                    assert(""@ =~= Seq::<char>::empty());
                }
                ""
            },
        }
    }
}

/// A blog post: the text its author has accumulated so far, together
/// with its current editorial state.
pub struct Post {
    state: State,
    content: String,
}

impl Post {
    /// The current editorial state.
    pub closed spec fn state(&self) -> State {
        self.state
    }

    /// All the text accumulated so far, visible or not.
    pub closed spec fn text(&self) -> Seq<char> {
        self.content@
    }

    /// A fresh post: in `Draft`, with nothing written yet.
    pub fn new() -> (post: Post)
        ensures
            post.state() == State::Draft,
            post.text() == Seq::<char>::empty(),
    {
        Post { state: State::Draft, content: String::new() }
    }

    /// Appends `text` to the post, in any state; the addition becomes
    /// visible only once the post is published.
    pub fn add_text(&mut self, text: &str)
        ensures
            final(self).state() == old(self).state(),
            final(self).text() == old(self).text() + text@,
    {
        self.content.append(text);
    }

    /// The text a reader sees: the full accumulated text once the post
    /// is published, and the empty string before.
    pub fn content(&self) -> (r: &str)
        ensures
            r@ == visible(self.state(), self.text()),
    {
        self.state.content(self)
    }

    /// Asks to move the post out of `Draft` into `PendingReview`; any
    /// other state absorbs the request. The text is untouched.
    pub fn request_review(&mut self)
        ensures
            final(self).state() == review_requested(old(self).state()),
            final(self).text() == old(self).text(),
    {
        self.state = self.state.request_review();
    }

    /// Asks to publish the post, which only `PendingReview` grants; any
    /// other state absorbs the request. The text is untouched.
    pub fn approve(&mut self)
        ensures
            final(self).state() == approved(old(self).state()),
            final(self).text() == old(self).text(),
    {
        self.state = self.state.approve();
    }
}

/// One call on a post, as a value.
pub enum Op {
    AddText(Seq<char>),
    RequestReview,
    Approve,
}

/// The state and accumulated text after one operation.
pub open spec fn step(s: State, text: Seq<char>, op: Op) -> (State, Seq<char>) {
    match op {
        Op::AddText(t) => (s, text + t),
        Op::RequestReview => (review_requested(s), text),
        Op::Approve => (approved(s), text),
    }
}

/// The state and accumulated text reached by running `ops`, in order,
/// on a fresh post.
pub open spec fn run(ops: Seq<Op>) -> (State, Seq<char>)
    decreases ops.len(),
{
    if ops.len() == 0 {
        (State::Draft, Seq::empty())
    } else {
        let prior = run(ops.drop_last());
        step(prior.0, prior.1, ops.last())
    }
}

/// The concatenation, in call order, of every text handed to `AddText`
/// in `ops`.
pub open spec fn text_added(ops: Seq<Op>) -> Seq<char>
    decreases ops.len(),
{
    if ops.len() == 0 {
        Seq::empty()
    } else {
        text_added(ops.drop_last()) + (match ops.last() {
            Op::AddText(t) => t,
            _ => Seq::<char>::empty(),
        })
    }
}

/// Whatever operations have run, the accumulated text is exactly the
/// texts handed to `AddText`, in call order: transitions never touch it.
pub proof fn lemma_run_accumulates(ops: Seq<Op>)
    ensures
        run(ops).1 == text_added(ops),
    decreases ops.len(),
{
    if ops.len() > 0 {
        lemma_run_accumulates(ops.drop_last());
    }
}

/// Whatever operations have run, a reader sees nothing while the post
/// is in `Draft` or `PendingReview`, and sees the full accumulated text
/// once it is `Published`.
pub proof fn lemma_content_policy(ops: Seq<Op>)
    ensures
        run(ops).0 !is Published ==> visible(run(ops).0, run(ops).1) == Seq::<char>::empty(),
        run(ops).0 is Published ==> visible(run(ops).0, run(ops).1) == text_added(ops),
{
    lemma_run_accumulates(ops);
}

/// What each state lets a reader see: nothing in `Draft` or
/// `PendingReview`, the full text in `Published`.
pub proof fn lemma_visibility(s: State, text: Seq<char>)
    ensures
        s !is Published ==> visible(s, text) == Seq::<char>::empty(),
        s is Published ==> visible(s, text) == text,
{
}

/// Adding text is append-only and order-preserving: adding `a` and then
/// `b` leaves the prior text in place, followed by `a` and then `b`, and
/// leaves the state alone.
pub proof fn lemma_add_text_appends_in_order(s: State, text: Seq<char>, a: Seq<char>, b: Seq<char>)
    ensures
        ({
            let once = step(s, text, Op::AddText(a));
            let twice = step(once.0, once.1, Op::AddText(b));
            &&& twice.1 == text + a + b
            &&& twice.0 == s
        }),
{
}

/// The review-request table: `Draft` moves to `PendingReview`; from
/// `PendingReview` and from `Published` the request is idempotent.
pub proof fn lemma_request_review_transitions()
    ensures
        review_requested(State::Draft) == State::PendingReview,
        review_requested(State::PendingReview) == State::PendingReview,
        review_requested(State::Published) == State::Published,
        forall|s: State| review_requested(review_requested(s)) == review_requested(s),
{
}

/// The approval table: `PendingReview` moves to `Published`; from
/// `Draft` (no prior review request) and from `Published` the request is
/// idempotent, so a post approved straight from `Draft` stays a `Draft`
/// and still shows nothing.
pub proof fn lemma_approve_transitions()
    ensures
        approved(State::PendingReview) == State::Published,
        approved(State::Draft) == State::Draft,
        approved(State::Published) == State::Published,
        forall|s: State| approved(approved(s)) == approved(s),
{
}

} // verus!
