use crate::protocol::OpKind;
use crate::room::{ClientRoomState, RoomState};
use crate::slot::{fulfill_spec, resolve_spec, CallError, CompletionSlot, SlotState};
use uuid::Uuid;
use vstd::prelude::*;

verus! {

/// The ticket of the caller a slot state belongs to, if any.
pub open spec fn holder_of<T>(s: SlotState<T>) -> Option<u64> {
    match s {
        SlotState::Idle => None,
        SlotState::Waiting(t) => Some(t),
        SlotState::Answered(t, _) => Some(t),
    }
}

/// A slot after a response was handed to it.
pub open spec fn filled<T>(slot: CompletionSlot<T>, response: Result<T, String>) -> CompletionSlot<T> {
    CompletionSlot { state: fulfill_spec(slot.state, response).0, issued: slot.issued }
}

/// A slot after the caller holding `ticket` asked for its result.
pub open spec fn resolved<T>(slot: CompletionSlot<T>, ticket: u64, timed_out: bool, closed: bool) -> CompletionSlot<T> {
    CompletionSlot { state: resolve_spec(slot.state, ticket, timed_out, closed).0, issued: slot.issued }
}

/// A slot after a new caller registered with `ticket`.
pub open spec fn installed<T>(slot: CompletionSlot<T>, ticket: u64) -> CompletionSlot<T> {
    CompletionSlot { state: SlotState::Waiting(ticket), issued: ticket }
}

/// The correlation table: one completion slot per request kind.
pub struct CallTable {
    pub authorize: CompletionSlot<Option<ClientRoomState>>,
    pub chat: CompletionSlot<()>,
    pub create_room: CompletionSlot<Uuid>,
    pub join_room: CompletionSlot<RoomState>,
    pub leave_room: CompletionSlot<()>,
    pub select_chart: CompletionSlot<()>,
    pub request_start: CompletionSlot<()>,
    pub ready: CompletionSlot<()>,
    pub cancel_ready: CompletionSlot<()>,
    pub played: CompletionSlot<()>,
}

impl CallTable {
    pub open spec fn wf(&self) -> bool {
        &&& self.authorize.wf()
        &&& self.chat.wf()
        &&& self.create_room.wf()
        &&& self.join_room.wf()
        &&& self.leave_room.wf()
        &&& self.select_chart.wf()
        &&& self.request_start.wf()
        &&& self.ready.wf()
        &&& self.cancel_ready.wf()
        &&& self.played.wf()
    }

    /// The slot of a kind whose success carries no value.
    pub open spec fn unit_slot(&self, k: OpKind) -> CompletionSlot<()> {
        match k {
            OpKind::LeaveRoom => self.leave_room,
            OpKind::SelectChart => self.select_chart,
            OpKind::RequestStart => self.request_start,
            OpKind::Ready => self.ready,
            OpKind::CancelReady => self.cancel_ready,
            OpKind::Played => self.played,
            _ => self.chat,
        }
    }

    /// The table with the slot of unit kind `k` replaced.
    pub open spec fn with_unit_slot(self, k: OpKind, s: CompletionSlot<()>) -> CallTable {
        match k {
            OpKind::LeaveRoom => CallTable { leave_room: s, ..self },
            OpKind::SelectChart => CallTable { select_chart: s, ..self },
            OpKind::RequestStart => CallTable { request_start: s, ..self },
            OpKind::Ready => CallTable { ready: s, ..self },
            OpKind::CancelReady => CallTable { cancel_ready: s, ..self },
            OpKind::Played => CallTable { played: s, ..self },
            _ => CallTable { chat: s, ..self },
        }
    }

    /// The ticket of the caller the slot of `k` belongs to, if any.
    pub open spec fn holder(&self, k: OpKind) -> Option<u64> {
        match k {
            OpKind::Authorize => holder_of(self.authorize.state),
            OpKind::CreateRoom => holder_of(self.create_room.state),
            OpKind::JoinRoom => holder_of(self.join_room.state),
            _ => holder_of(self.unit_slot(k).state),
        }
    }

    /// The table after a new caller of kind `k` registered with `ticket`.
    pub open spec fn with_installed(self, k: OpKind, ticket: u64) -> CallTable {
        match k {
            OpKind::Authorize => CallTable { authorize: installed(self.authorize, ticket), ..self },
            OpKind::CreateRoom => CallTable { create_room: installed(self.create_room, ticket), ..self },
            OpKind::JoinRoom => CallTable { join_room: installed(self.join_room, ticket), ..self },
            _ => self.with_unit_slot(k, installed(self.unit_slot(k), ticket)),
        }
    }

    pub fn new() -> (t: CallTable)
        ensures
            t.wf(),
            forall|k: OpKind| #[trigger] t.holder(k) is None,
    {
        CallTable {
            authorize: CompletionSlot::new(),
            chat: CompletionSlot::new(),
            create_room: CompletionSlot::new(),
            join_room: CompletionSlot::new(),
            leave_room: CompletionSlot::new(),
            select_chart: CompletionSlot::new(),
            request_start: CompletionSlot::new(),
            ready: CompletionSlot::new(),
            cancel_ready: CompletionSlot::new(),
            played: CompletionSlot::new(),
        }
    }

    /// Registers a new caller of kind `k`, replacing any earlier one.
    pub fn install(&mut self, k: OpKind) -> (ticket: u64)
        requires
            old(self).wf(),
        ensures
            final(self).wf(),
            *final(self) == old(self).with_installed(k, ticket),
            old(self).holder(k) != Some(ticket),
    {
        match k {
            OpKind::Authorize => self.authorize.install(),
            OpKind::Chat => self.chat.install(),
            OpKind::CreateRoom => self.create_room.install(),
            OpKind::JoinRoom => self.join_room.install(),
            OpKind::LeaveRoom => self.leave_room.install(),
            OpKind::SelectChart => self.select_chart.install(),
            OpKind::RequestStart => self.request_start.install(),
            OpKind::Ready => self.ready.install(),
            OpKind::CancelReady => self.cancel_ready.install(),
            OpKind::Played => self.played.install(),
        }
    }

    /// Hands a response to the slot of unit kind `k`; returns whether it was kept.
    pub fn fulfill_unit(&mut self, k: OpKind, response: Result<(), String>) -> (kept: bool)
        requires
            old(self).wf(),
            k.is_unit(),
        ensures
            final(self).wf(),
            *final(self) == old(self).with_unit_slot(k, filled(old(self).unit_slot(k), response)),
            kept == fulfill_spec(old(self).unit_slot(k).state, response).1,
    {
        match k {
            OpKind::LeaveRoom => self.leave_room.fulfill(response),
            OpKind::SelectChart => self.select_chart.fulfill(response),
            OpKind::RequestStart => self.request_start.fulfill(response),
            OpKind::Ready => self.ready.fulfill(response),
            OpKind::CancelReady => self.cancel_ready.fulfill(response),
            OpKind::Played => self.played.fulfill(response),
            _ => self.chat.fulfill(response),
        }
    }

    /// Resolves the call holding `ticket` on the slot of unit kind `k`.
    pub fn resolve_unit(&mut self, k: OpKind, ticket: u64, timed_out: bool, closed: bool) -> (r: Option<
        Result<(), CallError>,
    >)
        requires
            old(self).wf(),
            k.is_unit(),
        ensures
            final(self).wf(),
            *final(self) == old(self).with_unit_slot(
                k,
                resolved(old(self).unit_slot(k), ticket, timed_out, closed),
            ),
            r == resolve_spec(old(self).unit_slot(k).state, ticket, timed_out, closed).1,
    {
        match k {
            OpKind::LeaveRoom => self.leave_room.resolve(ticket, timed_out, closed),
            OpKind::SelectChart => self.select_chart.resolve(ticket, timed_out, closed),
            OpKind::RequestStart => self.request_start.resolve(ticket, timed_out, closed),
            OpKind::Ready => self.ready.resolve(ticket, timed_out, closed),
            OpKind::CancelReady => self.cancel_ready.resolve(ticket, timed_out, closed),
            OpKind::Played => self.played.resolve(ticket, timed_out, closed),
            _ => self.chat.resolve(ticket, timed_out, closed),
        }
    }
}

} // verus!
