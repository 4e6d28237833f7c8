use vstd::prelude::*;

verus! {

/// Why a call failed.
#[derive(Clone, Debug, PartialEq, Eq)]
pub enum CallError {
    /// The command could not be sent.
    Transport,
    /// No response came within the call timeout.
    Timeout,
    /// The server answered with a failure message.
    Remote(String),
    /// The client was torn down while the call was waiting.
    Cancelled,
}

/// What a completion slot currently holds.
pub enum SlotState<T> {
    /// No caller is waiting.
    Idle,
    /// The caller holding this ticket waits for a response.
    Waiting(u64),
    /// The response for the caller holding this ticket has come and is not yet taken.
    Answered(u64, Result<T, String>),
}

/// What a waiting caller receives for a server response.
pub open spec fn reply_of<T>(response: Result<T, String>) -> Result<T, CallError> {
    match response {
        Ok(v) => Ok(v),
        Err(msg) => Err(CallError::Remote(msg)),
    }
}

/// Whether a resolution hands a server response to the caller.
pub open spec fn carries_response<T>(r: Option<Result<T, CallError>>) -> bool {
    match r {
        Some(Ok(_)) => true,
        Some(Err(CallError::Remote(_))) => true,
        _ => false,
    }
}

/// A response fills the slot only when a caller waits; otherwise it is dropped.
pub open spec fn fulfill_spec<T>(s: SlotState<T>, response: Result<T, String>) -> (SlotState<T>, bool) {
    match s {
        SlotState::Waiting(t) => (SlotState::Answered(t, response), true),
        _ => (s, false),
    }
}

/// How the slot answers the caller holding `ticket`: its response if it has
/// come, else a failure once the caller has timed out or the client is closed,
/// else nothing yet. Only the holder's own resolution empties the slot.
pub open spec fn resolve_spec<T>(s: SlotState<T>, ticket: u64, timed_out: bool, closed: bool) -> (
    SlotState<T>,
    Option<Result<T, CallError>>,
) {
    let failure = if closed { CallError::Cancelled } else { CallError::Timeout };
    match s {
        SlotState::Answered(t, response) => {
            if t == ticket {
                (SlotState::Idle, Some(reply_of(response)))
            } else if timed_out || closed {
                (s, Some(Err(failure)))
            } else {
                (s, None)
            }
        },
        SlotState::Waiting(t) => {
            if timed_out || closed {
                (if t == ticket { SlotState::Idle } else { s }, Some(Err(failure)))
            } else {
                (s, None)
            }
        },
        SlotState::Idle => {
            if timed_out || closed {
                (s, Some(Err(failure)))
            } else {
                (s, None)
            }
        },
    }
}

/// Single-use completion slot of one request kind: at most one caller waits on
/// it, and a newer caller replaces an older one.
pub struct CompletionSlot<T> {
    pub state: SlotState<T>,
    /// Last ticket handed out.
    pub issued: u64,
}

impl<T> CompletionSlot<T> {
    /// The ticket a slot holds matches the last one handed out.
    pub open spec fn wf(&self) -> bool {
        match self.state {
            SlotState::Idle => true,
            SlotState::Waiting(t) => t == self.issued,
            SlotState::Answered(t, _) => t == self.issued,
        }
    }

    pub fn new() -> (s: Self)
        ensures
            s.wf(),
            s.state is Idle,
    {
        CompletionSlot { state: SlotState::Idle, issued: 0 }
    }

    /// Registers a new waiting caller and returns its ticket. Whoever waited
    /// before is orphaned: its ticket no longer matches.
    pub fn install(&mut self) -> (ticket: u64)
        requires
            old(self).wf(),
        ensures
            final(self).wf(),
            final(self).state == SlotState::<T>::Waiting(ticket),
            old(self).state matches SlotState::Waiting(t) ==> t != ticket,
            old(self).state matches SlotState::Answered(t, _) ==> t != ticket,
    {
        let ticket = self.issued.wrapping_add(1);
        self.issued = ticket;
        self.state = SlotState::Waiting(ticket);
        ticket
    }

    /// Hands a server response to the waiting caller, if any; returns whether
    /// it was kept.
    pub fn fulfill(&mut self, response: Result<T, String>) -> (kept: bool)
        requires
            old(self).wf(),
        ensures
            final(self).wf(),
            final(self).issued == old(self).issued,
            (final(self).state, kept) == fulfill_spec(old(self).state, response),
    {
        match self.state {
            SlotState::Waiting(t) => {
                self.state = SlotState::Answered(t, response);
                true
            },
            _ => false,
        }
    }

    /// Resolves the call of the caller holding `ticket`; `None` means it keeps waiting.
    pub fn resolve(&mut self, ticket: u64, timed_out: bool, closed: bool) -> (r: Option<
        Result<T, CallError>,
    >)
        requires
            old(self).wf(),
        ensures
            final(self).wf(),
            final(self).issued == old(self).issued,
            (final(self).state, r) == resolve_spec(old(self).state, ticket, timed_out, closed),
    {
        let failure = if closed {
            CallError::Cancelled
        } else {
            CallError::Timeout
        };
        let holder = match &self.state {
            SlotState::Idle => None,
            SlotState::Waiting(t) => Some(*t),
            SlotState::Answered(t, _) => Some(*t),
        };
        let answered = matches!(self.state, SlotState::Answered(..));
        if answered && holder == Some(ticket) {
            let mut taken = SlotState::Idle;
            std::mem::swap(&mut self.state, &mut taken);
            match taken {
                SlotState::Answered(_, Ok(v)) => Some(Ok(v)),
                SlotState::Answered(_, Err(msg)) => Some(Err(CallError::Remote(msg))),
                _ => None,
            }
        } else if timed_out || closed {
            if !answered && holder == Some(ticket) {
                self.state = SlotState::Idle;
            }
            Some(Err(failure))
        } else {
            None
        }
    }
}

/// A response reaches only the caller that waits when it arrives, and only
/// once: that caller receives it, any other caller (an orphaned earlier one
/// included) never does, and once taken nobody receives it again. A second
/// response for the same wait is dropped.
pub proof fn lemma_single_delivery<T>(
    ticket: u64,
    other: u64,
    response: Result<T, String>,
    second: Result<T, String>,
    timed_out: bool,
    closed: bool,
    later: u64,
)
    requires
        other != ticket,
    ensures
        ({
            let filled = fulfill_spec(SlotState::Waiting(ticket), response).0;
            let taken = resolve_spec(filled, ticket, timed_out, closed);
            &&& fulfill_spec(filled, second).0 == filled
            &&& !carries_response(resolve_spec(filled, other, timed_out, closed).1)
            &&& resolve_spec(filled, other, timed_out, closed).0 == filled
            &&& taken.1 == Some(reply_of(response))
            &&& !carries_response(resolve_spec(taken.0, later, timed_out, closed).1)
        }),
{
}

/// A caller that times out before any response fails with `Timeout` and frees
/// the slot; a response arriving afterwards is dropped and reaches nobody.
pub proof fn lemma_late_response_dropped<T>(ticket: u64, response: Result<T, String>, later: u64)
    ensures
        ({
            let expired = resolve_spec(SlotState::<T>::Waiting(ticket), ticket, true, false);
            &&& expired.1 == Some(Err::<T, CallError>(CallError::Timeout))
            &&& fulfill_spec(expired.0, response) == (expired.0, false)
            &&& !carries_response(resolve_spec(expired.0, later, true, false).1)
        }),
{
}

} // verus!
