use vstd::prelude::*;
use vstd::string::StringExecFns;

verus! {

/// The phase in which content may be added.
#[derive(Debug, Clone, Copy, PartialEq, Eq, Structural)]
pub struct Draft {}

/// The phase in which the post waits for a review outcome.
#[derive(Debug, Clone, Copy, PartialEq, Eq, Structural)]
pub struct InReview {}

/// The phase in which the content can be read, and nothing else changes.
#[derive(Debug, Clone, Copy, PartialEq, Eq, Structural)]
pub struct Published {}

/// The behaviour that currently governs a post: exactly one of the three phases.
#[derive(Debug, Clone, Copy, PartialEq, Eq, Structural)]
pub enum State {
    Draft(Draft),
    InReview(InReview),
    Published(Published),
}

/// The state that follows `add_content` in state `s`.
pub open spec fn state_after_add(s: State) -> State {
    match s {
        State::Draft(_) => State::InReview(InReview {}),
        _ => s,
    }
}

/// The content that follows `add_content` of `text` in state `s`: only a
/// draft takes the text.
pub open spec fn content_after_add(s: State, content: Seq<char>, text: Seq<char>) -> Seq<char> {
    if s is Draft {
        content + text
    } else {
        content
    }
}

/// The state that follows `review_content(is_passing)` in state `s`.
pub open spec fn state_after_review(s: State, is_passing: bool) -> State {
    match s {
        State::InReview(_) => if is_passing {
            State::Published(Published {})
        } else {
            State::Draft(Draft {})
        },
        _ => s,
    }
}

/// Whether viewing in state `s` discloses the content.
pub open spec fn discloses(s: State) -> bool {
    s is Published
}

/// What a phase does with each operation. Each method consumes the phase and
/// hands back the state that governs the post next.
pub trait PostState: Sized {
    /// The state this phase stands for.
    spec fn as_state(&self) -> State;

    /// Returns the next state and, where this phase discloses, a copy of the content.
    fn view_content(self, content: &String) -> (r: (State, Option<String>))
        ensures
            r.0 == self.as_state(),
            r.1 is Some <==> discloses(self.as_state()),
            r.1 matches Some(t) ==> t@ == content@,
    ;

    /// Appends `text` to the content where this phase allows it, and returns the next state.
    fn add_content(self, content: &mut String, text: String) -> (r: State)
        ensures
            r == state_after_add(self.as_state()),
            final(content)@ == content_after_add(self.as_state(), old(content)@, text@),
    ;

    /// Resolves a review outcome, and returns the next state.
    fn review_content(self, is_passing: bool) -> (r: State)
        ensures
            r == state_after_review(self.as_state(), is_passing),
    ;
}

impl PostState for Draft {
    open spec fn as_state(&self) -> State {
        State::Draft(*self)
    }

    fn view_content(self, content: &String) -> (r: (State, Option<String>)) {
        (State::Draft(self), None)
    }

    fn add_content(self, content: &mut String, text: String) -> (r: State) {
        content.append(text.as_str());
        State::InReview(InReview {})
    }

    fn review_content(self, is_passing: bool) -> (r: State) {
        State::Draft(self)
    }
}

impl PostState for InReview {
    open spec fn as_state(&self) -> State {
        State::InReview(*self)
    }

    fn view_content(self, content: &String) -> (r: (State, Option<String>)) {
        (State::InReview(self), None)
    }

    fn add_content(self, content: &mut String, text: String) -> (r: State) {
        State::InReview(self)
    }

    fn review_content(self, is_passing: bool) -> (r: State) {
        if is_passing {
            State::Published(Published {})
        } else {
            State::Draft(Draft {})
        }
    }
}

impl PostState for Published {
    open spec fn as_state(&self) -> State {
        State::Published(*self)
    }

    fn view_content(self, content: &String) -> (r: (State, Option<String>)) {
        (State::Published(self), Some(content.clone()))
    }

    fn add_content(self, content: &mut String, text: String) -> (r: State) {
        State::Published(self)
    }

    fn review_content(self, is_passing: bool) -> (r: State) {
        State::Published(self)
    }
}

/// A post: its content, and the phase that decides what each operation does.
/// Two posts are equal when their contents and their states are.
#[derive(Debug)]
pub struct Post {
    pub post_content: String,
    pub post_state: State,
}

impl PartialEq for Post {
    fn eq(&self, other: &Post) -> (r: bool) {
        self.post_content == other.post_content && self.post_state == other.post_state
    }
}

impl vstd::std_specs::cmp::PartialEqSpecImpl for Post {
    open spec fn obeys_eq_spec() -> bool {
        true
    }

    open spec fn eq_spec(&self, other: &Post) -> bool {
        self.post_content@ == other.post_content@ && self.post_state == other.post_state
    }
}

impl Post {
    /// A post with empty content, in draft.
    pub fn new() -> (r: Post)
        ensures
            r.post_content@ == Seq::<char>::empty(),
            r.post_state == State::Draft(Draft {}),
    {
        Post { post_content: String::new(), post_state: State::Draft(Draft {}) }
    }

    /// Asks the current phase to show the content. Returns the content where
    /// the post is published, and `None` otherwise; the post is unchanged.
    pub fn view_content(&mut self) -> (r: Option<String>)
        ensures
            final(self).post_content@ == old(self).post_content@,
            final(self).post_state == old(self).post_state,
            r is Some <==> discloses(old(self).post_state),
            r matches Some(t) ==> t@ == old(self).post_content@,
    {
        let (next, shown) = match self.post_state {
            State::Draft(s) => s.view_content(&self.post_content),
            State::InReview(s) => s.view_content(&self.post_content),
            State::Published(s) => s.view_content(&self.post_content),
        };
        self.post_state = next;
        shown
    }

    /// Asks the current phase to append `content`: a draft takes it and goes
    /// to review; in any other phase nothing changes.
    pub fn add_content(&mut self, content: String)
        ensures
            final(self).post_state == state_after_add(old(self).post_state),
            final(self).post_content@ == content_after_add(
                old(self).post_state,
                old(self).post_content@,
                content@,
            ),
    {
        let next = match self.post_state {
            State::Draft(s) => s.add_content(&mut self.post_content, content),
            State::InReview(s) => s.add_content(&mut self.post_content, content),
            State::Published(s) => s.add_content(&mut self.post_content, content),
        };
        self.post_state = next;
    }

    /// Asks the current phase to resolve a review: a post in review is
    /// published when it passes and goes back to draft when it does not; in
    /// any other phase nothing changes. The content never changes.
    pub fn review_content(&mut self, is_passing: bool)
        ensures
            final(self).post_content@ == old(self).post_content@,
            final(self).post_state == state_after_review(old(self).post_state, is_passing),
    {
        let next = match self.post_state {
            State::Draft(s) => s.review_content(is_passing),
            State::InReview(s) => s.review_content(is_passing),
            State::Published(s) => s.review_content(is_passing),
        };
        self.post_state = next;
    }
}

/// The state after `n` calls of `review_content(is_passing)` from state `s`.
pub open spec fn state_after_reviews(s: State, is_passing: bool, n: nat) -> State
    decreases n,
{
    if n == 0 {
        s
    } else {
        state_after_review(state_after_reviews(s, is_passing, (n - 1) as nat), is_passing)
    }
}

/// No operation removes or overwrites content: adding keeps the old content
/// as a prefix, and only a draft's content grows. (Viewing and reviewing keep
/// the content as it is.)
pub proof fn content_only_grows(s: State, content: Seq<char>, text: Seq<char>)
    ensures
        content.is_prefix_of(content_after_add(s, content, text)),
        content_after_add(s, content, text).len() >= content.len(),
        content_after_add(s, content, text) != content ==> s is Draft,
{
    if s is Draft {
        assert(content_after_add(s, content, text).subrange(0, content.len() as int) =~= content);
    }
}

/// A draft that takes `a`, fails review and takes `b` is in review again, with
/// `b` appended after `a`.
pub proof fn rejected_draft_takes_more(content: Seq<char>, a: Seq<char>, b: Seq<char>)
    ensures
        ({
            let s0 = State::Draft(Draft {});
            let s1 = state_after_add(s0);
            let c1 = content_after_add(s0, content, a);
            let s2 = state_after_review(s1, false);
            let s3 = state_after_add(s2);
            let c3 = content_after_add(s2, c1, b);
            &&& s1 == State::InReview(InReview {})
            &&& s2 == State::Draft(Draft {})
            &&& s3 == State::InReview(InReview {})
            &&& c3 == content + a + b
        }),
{
}

/// Reviews of a draft are refused however often they come: the post stays
/// in draft (and `review_content` never changes the content).
pub proof fn draft_refuses_reviews(is_passing: bool, n: nat)
    ensures
        state_after_reviews(State::Draft(Draft {}), is_passing, n) == State::Draft(Draft {}),
    decreases n,
{
    if n > 0 {
        draft_refuses_reviews(is_passing, (n - 1) as nat);
    }
}

} // verus!
