//! The confirmation protocol.
//!
//! Before anything is deleted, the invoking user is shown a summary with a
//! yes/no choice.  Each invocation derives its two choice tokens from its own
//! invocation identifier, so concurrent invocations can never satisfy each
//! other's prompts.  The prompt is a three-state machine: it is sent, then
//! either the first matching response confirms it (once) or the wait times
//! out; both outcomes are terminal.

use vstd::prelude::*;

verus! {

/// How long a prompt waits for a response, in seconds.
pub const CONFIRM_TIMEOUT_SECS: i64 = 120;

/// The two choices a prompt offers.
#[derive(Clone, Copy, Debug, PartialEq, Eq, Structural)]
pub enum Choice {
    Yes,
    No,
}

/// A correlation token tying one choice affordance to one invocation.  The
/// surrounding process renders it as the affordance's identifier string and
/// parses responses back into it.
#[derive(Clone, Copy, Debug, PartialEq, Eq, Structural)]
pub struct ChoiceToken {
    pub invocation: u64,
    pub choice: Choice,
}

/// A pending confirmation: the invocation it belongs to and the instant at
/// which waiting stops.
#[derive(Clone, Copy, Debug, PartialEq, Eq, Structural)]
pub struct ConfirmationRequest {
    pub invocation: u64,
    pub deadline: i64,
}

/// Where a prompt stands: still waiting, answered (exactly once), or timed
/// out untouched.
#[derive(Clone, Copy, Debug, PartialEq, Eq, Structural)]
pub enum ConfirmationState {
    Sent,
    Confirmed(Choice),
    Expired,
}

impl ConfirmationRequest {
    /// The token the "yes" affordance carries.
    pub open spec fn yes_token_spec(self) -> ChoiceToken {
        ChoiceToken { invocation: self.invocation, choice: Choice::Yes }
    }

    /// The token the "no" affordance carries.
    pub open spec fn no_token_spec(self) -> ChoiceToken {
        ChoiceToken { invocation: self.invocation, choice: Choice::No }
    }

    /// Which choice, if any, a response token resolves for this request.
    pub open spec fn matches_spec(self, t: ChoiceToken) -> Option<Choice> {
        if t == self.yes_token_spec() {
            Some(Choice::Yes)
        } else if t == self.no_token_spec() {
            Some(Choice::No)
        } else {
            None
        }
    }

    /// Opens a confirmation for one invocation at time `now`; the wait ends
    /// `CONFIRM_TIMEOUT_SECS` later.
    pub fn new(invocation: u64, now: i64) -> (r: ConfirmationRequest)
        requires
            now + CONFIRM_TIMEOUT_SECS <= i64::MAX,
        ensures
            r.invocation == invocation,
            r.deadline == now + CONFIRM_TIMEOUT_SECS,
    {
        ConfirmationRequest { invocation, deadline: now + CONFIRM_TIMEOUT_SECS }
    }

    /// The two tokens this request's affordances carry, yes first.
    pub fn tokens(&self) -> (r: (ChoiceToken, ChoiceToken))
        ensures
            r.0 == self.yes_token_spec(),
            r.1 == self.no_token_spec(),
    {
        (
            ChoiceToken { invocation: self.invocation, choice: Choice::Yes },
            ChoiceToken { invocation: self.invocation, choice: Choice::No },
        )
    }

    /// Resolves a response token against this request: the matching choice,
    /// or nothing when the token belongs to some other prompt.
    pub fn match_response(&self, t: &ChoiceToken) -> (r: Option<Choice>)
        ensures
            r == self.matches_spec(*t),
    {
        if t.invocation != self.invocation {
            None
        } else {
            match t.choice {
                Choice::Yes => Some(Choice::Yes),
                Choice::No => Some(Choice::No),
            }
        }
    }
}

/// The state after a response bearing `t` arrives: a waiting prompt is
/// confirmed by the first matching token and ignores any other; a prompt
/// already answered or expired never changes again.
pub open spec fn respond_spec(
    s: ConfirmationState,
    req: ConfirmationRequest,
    t: ChoiceToken,
) -> ConfirmationState {
    match s {
        ConfirmationState::Sent => match req.matches_spec(t) {
            Some(c) => ConfirmationState::Confirmed(c),
            None => ConfirmationState::Sent,
        },
        _ => s,
    }
}

/// The state after the wait's deadline passes: a waiting prompt expires;
/// a prompt already answered or expired never changes again.
pub open spec fn expire_spec(s: ConfirmationState) -> ConfirmationState {
    match s {
        ConfirmationState::Sent => ConfirmationState::Expired,
        _ => s,
    }
}

/// A prompt is finished once it is confirmed or expired.
pub open spec fn is_terminal(s: ConfirmationState) -> bool {
    s != ConfirmationState::Sent
}

/// Feeds one response into the prompt's state machine.
pub fn respond(
    s: ConfirmationState,
    req: &ConfirmationRequest,
    t: &ChoiceToken,
) -> (r: ConfirmationState)
    ensures
        r == respond_spec(s, *req, *t),
{
    match s {
        ConfirmationState::Sent => match req.match_response(t) {
            Some(c) => ConfirmationState::Confirmed(c),
            None => ConfirmationState::Sent,
        },
        _ => s,
    }
}

/// Lets the prompt's deadline pass.
pub fn expire(s: ConfirmationState) -> (r: ConfirmationState)
    ensures
        r == expire_spec(s),
{
    match s {
        ConfirmationState::Sent => ConfirmationState::Expired,
        _ => s,
    }
}

/// Correlation: two invocations never share a choice token, and a response
/// bearing one invocation's token never resolves the other's prompt.
pub proof fn law_token_isolation(a: ConfirmationRequest, b: ConfirmationRequest, t: ChoiceToken)
    requires
        a.invocation != b.invocation,
    ensures
        a.yes_token_spec() != b.yes_token_spec(),
        a.yes_token_spec() != b.no_token_spec(),
        a.no_token_spec() != b.yes_token_spec(),
        a.no_token_spec() != b.no_token_spec(),
        a.matches_spec(t) is Some ==> b.matches_spec(t) is None,
{
}

/// A confirmation is consumed exactly once: after the first matching
/// response or the deadline, further responses and further deadlines leave
/// the state untouched.
pub proof fn law_consumed_once(s: ConfirmationState, req: ConfirmationRequest, t: ChoiceToken)
    requires
        is_terminal(s),
    ensures
        respond_spec(s, req, t) == s,
        expire_spec(s) == s,
{
}

/// Every step of the machine lands in one of the three states, and a waiting
/// prompt answered with its own token is confirmed with exactly that choice.
pub proof fn law_first_match_confirms(req: ConfirmationRequest)
    ensures
        respond_spec(ConfirmationState::Sent, req, req.yes_token_spec())
            == ConfirmationState::Confirmed(Choice::Yes),
        respond_spec(ConfirmationState::Sent, req, req.no_token_spec())
            == ConfirmationState::Confirmed(Choice::No),
        expire_spec(ConfirmationState::Sent) == ConfirmationState::Expired,
{
}

} // verus!
