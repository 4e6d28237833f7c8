use crate::calls::{filled, resolved, CallTable};
use crate::heartbeat::{probe_step, Health, ProbeOutcome};
use crate::protocol::{Dispatched, OpKind, ServerCommand};
use crate::queue::PendingQueue;
use crate::room::{ClientRoomState, RoomState};
use crate::slot::{fulfill_spec, resolve_spec, CallError};
use std::time::Duration;
use uuid::Uuid;
use vstd::prelude::*;

verus! {

/// The model of a client's shared state.
pub struct ClientView<F, J, M> {
    /// The room snapshot; `None` while the client is in no room.
    pub room: Option<ClientRoomState>,
    pub calls: CallTable,
    pub health: Health,
    pub touch_frames: Seq<F>,
    pub judges: Seq<J>,
    pub messages: Seq<M>,
    /// Set once the client is torn down.
    pub closed: bool,
}

/// The snapshot with its ready flag set to `ready`, if there is one.
pub open spec fn with_ready(room: Option<ClientRoomState>, ready: bool) -> Option<ClientRoomState> {
    match room {
        Some(s) => Some(ClientRoomState { is_ready: ready, ..s }),
        None => None,
    }
}

/// What success of a call of unit kind `k` does to the snapshot.
pub open spec fn unit_effect(room: Option<ClientRoomState>, k: OpKind) -> Option<ClientRoomState> {
    match k {
        OpKind::LeaveRoom => None,
        OpKind::RequestStart => with_ready(room, true),
        OpKind::Ready => with_ready(room, true),
        OpKind::CancelReady => with_ready(room, false),
        _ => room,
    }
}

/// The snapshot of a room this client has just created.
pub open spec fn created_room(id: Uuid) -> ClientRoomState {
    ClientRoomState { id, state: RoomState::SelectChart(None), is_host: true, is_ready: false }
}

/// The snapshot of a room this client has just joined.
pub open spec fn joined_room(id: Uuid, state: RoomState) -> ClientRoomState {
    ClientRoomState { id, state, is_host: false, is_ready: false }
}

pub open spec fn answered_or_dropped(kept: bool, k: OpKind) -> Dispatched {
    if kept {
        Dispatched::Answered(k)
    } else {
        Dispatched::Dropped(k)
    }
}

/// Effect of processing one inbound event.
pub open spec fn process_spec<F, J, M>(v: ClientView<F, J, M>, cmd: ServerCommand<F, J, M>) -> (
    ClientView<F, J, M>,
    Dispatched,
) {
    match cmd {
        ServerCommand::Pong => (v, Dispatched::Pong),
        ServerCommand::Authorize(res) => (
            ClientView { calls: CallTable { authorize: filled(v.calls.authorize, res), ..v.calls }, ..v },
            answered_or_dropped(fulfill_spec(v.calls.authorize.state, res).1, OpKind::Authorize),
        ),
        ServerCommand::CreateRoom(res) => (
            ClientView { calls: CallTable { create_room: filled(v.calls.create_room, res), ..v.calls }, ..v },
            answered_or_dropped(fulfill_spec(v.calls.create_room.state, res).1, OpKind::CreateRoom),
        ),
        ServerCommand::JoinRoom(res) => (
            ClientView { calls: CallTable { join_room: filled(v.calls.join_room, res), ..v.calls }, ..v },
            answered_or_dropped(fulfill_spec(v.calls.join_room.state, res).1, OpKind::JoinRoom),
        ),
        ServerCommand::Chat(res) => fill_unit_spec(v, OpKind::Chat, res),
        ServerCommand::LeaveRoom(res) => fill_unit_spec(v, OpKind::LeaveRoom, res),
        ServerCommand::SelectChart(res) => fill_unit_spec(v, OpKind::SelectChart, res),
        ServerCommand::RequestStart(res) => fill_unit_spec(v, OpKind::RequestStart, res),
        ServerCommand::Ready(res) => fill_unit_spec(v, OpKind::Ready, res),
        ServerCommand::CancelReady(res) => fill_unit_spec(v, OpKind::CancelReady, res),
        ServerCommand::Played(res) => fill_unit_spec(v, OpKind::Played, res),
        ServerCommand::Touches { frames } => (
            ClientView { touch_frames: v.touch_frames + frames@, ..v },
            Dispatched::Queued,
        ),
        ServerCommand::Judges { judges } => (
            ClientView { judges: v.judges + judges@, ..v },
            Dispatched::Queued,
        ),
        ServerCommand::Message(m) => (
            ClientView { messages: v.messages.push(m), ..v },
            Dispatched::Queued,
        ),
        ServerCommand::ChangeState(state) => match v.room {
            Some(s) => (ClientView { room: Some(ClientRoomState { state, ..s }), ..v }, Dispatched::RoomChanged),
            None => (v, Dispatched::NoRoom),
        },
        ServerCommand::ChangeHost(is_host) => match v.room {
            Some(s) => (ClientView { room: Some(ClientRoomState { is_host, ..s }), ..v }, Dispatched::RoomChanged),
            None => (v, Dispatched::NoRoom),
        },
        ServerCommand::GameEnd => (v, Dispatched::GameEnd),
    }
}

/// Effect of a response to a call of unit kind `k`.
pub open spec fn fill_unit_spec<F, J, M>(v: ClientView<F, J, M>, k: OpKind, res: Result<(), String>) -> (
    ClientView<F, J, M>,
    Dispatched,
) {
    (
        ClientView { calls: v.calls.with_unit_slot(k, filled(v.calls.unit_slot(k), res)), ..v },
        answered_or_dropped(fulfill_spec(v.calls.unit_slot(k).state, res).1, k),
    )
}

/// Effect of resolving an authorization call: on success the snapshot becomes
/// the one the server returned.
pub open spec fn authorize_spec<F, J, M>(v: ClientView<F, J, M>, ticket: u64, timed_out: bool) -> (
    ClientView<F, J, M>,
    Option<Result<(), CallError>>,
) {
    let r = resolve_spec(v.calls.authorize.state, ticket, timed_out, v.closed).1;
    let w = ClientView {
        calls: CallTable { authorize: resolved(v.calls.authorize, ticket, timed_out, v.closed), ..v.calls },
        ..v
    };
    match r {
        Some(Ok(room)) => (ClientView { room, ..w }, Some(Ok(()))),
        Some(Err(e)) => (w, Some(Err(e))),
        None => (w, None),
    }
}

/// Effect of resolving a room creation: on success the client hosts the new room.
pub open spec fn create_room_spec<F, J, M>(v: ClientView<F, J, M>, ticket: u64, timed_out: bool) -> (
    ClientView<F, J, M>,
    Option<Result<Uuid, CallError>>,
) {
    let r = resolve_spec(v.calls.create_room.state, ticket, timed_out, v.closed).1;
    let w = ClientView {
        calls: CallTable { create_room: resolved(v.calls.create_room, ticket, timed_out, v.closed), ..v.calls },
        ..v
    };
    match r {
        Some(Ok(id)) => (ClientView { room: Some(created_room(id)), ..w }, r),
        _ => (w, r),
    }
}

/// Effect of resolving a join of room `id`: on success the client is a guest
/// of it, in the phase the server gave.
pub open spec fn join_room_spec<F, J, M>(v: ClientView<F, J, M>, id: Uuid, ticket: u64, timed_out: bool) -> (
    ClientView<F, J, M>,
    Option<Result<(), CallError>>,
) {
    let r = resolve_spec(v.calls.join_room.state, ticket, timed_out, v.closed).1;
    let w = ClientView {
        calls: CallTable { join_room: resolved(v.calls.join_room, ticket, timed_out, v.closed), ..v.calls },
        ..v
    };
    match r {
        Some(Ok(state)) => (ClientView { room: Some(joined_room(id, state)), ..w }, Some(Ok(()))),
        Some(Err(e)) => (w, Some(Err(e))),
        None => (w, None),
    }
}

/// Effect of resolving a call of unit kind `k`: on success its local update
/// is applied to the snapshot.
pub open spec fn unit_spec<F, J, M>(v: ClientView<F, J, M>, k: OpKind, ticket: u64, timed_out: bool) -> (
    ClientView<F, J, M>,
    Option<Result<(), CallError>>,
) {
    let r = resolve_spec(v.calls.unit_slot(k).state, ticket, timed_out, v.closed).1;
    let w = ClientView {
        calls: v.calls.with_unit_slot(k, resolved(v.calls.unit_slot(k), ticket, timed_out, v.closed)),
        ..v
    };
    match r {
        Some(Ok(())) => (ClientView { room: unit_effect(v.room, k), ..w }, r),
        _ => (w, r),
    }
}

/// The client's shared state: room snapshot, correlation table, heartbeat
/// health and inbound queues.
pub struct ClientState<F, J, M> {
    room: Option<ClientRoomState>,
    calls: CallTable,
    health: Health,
    touch_frames: PendingQueue<F>,
    judges: PendingQueue<J>,
    messages: PendingQueue<M>,
    closed: bool,
}

impl<F, J, M> View for ClientState<F, J, M> {
    type V = ClientView<F, J, M>;

    closed spec fn view(&self) -> ClientView<F, J, M> {
        ClientView {
            room: self.room,
            calls: self.calls,
            health: self.health,
            touch_frames: self.touch_frames@,
            judges: self.judges@,
            messages: self.messages@,
            closed: self.closed,
        }
    }
}

impl<F, J, M> ClientState<F, J, M> {
    pub open spec fn wf(&self) -> bool {
        self@.calls.wf()
    }

    /// A fresh client: in no room, nobody waiting, no probe answered, queues empty.
    pub fn new() -> (c: Self)
        ensures
            c.wf(),
            c@.room is None,
            forall|k: OpKind| #[trigger] c@.calls.holder(k) is None,
            c@.health.delay is None,
            c@.health.fail_count == 0,
            c@.touch_frames.len() == 0,
            c@.judges.len() == 0,
            c@.messages.len() == 0,
            !c@.closed,
    {
        ClientState {
            room: None,
            calls: CallTable::new(),
            health: Health::new(),
            touch_frames: PendingQueue::new(),
            judges: PendingQueue::new(),
            messages: PendingQueue::new(),
            closed: false,
        }
    }
    /// Processes one inbound event, in arrival order: a response goes to the
    /// slot of its kind, telemetry and messages to their queues, phase and
    /// host changes to the snapshot. A room update while no room is tracked is
    /// skipped and reported as `NoRoom`.
    pub fn process(&mut self, cmd: ServerCommand<F, J, M>) -> (r: Dispatched)
        requires
            old(self).wf(),
        ensures
            final(self).wf(),
            (final(self)@, r) == process_spec(old(self)@, cmd),
    {
        match cmd {
            ServerCommand::Pong => Dispatched::Pong,
            ServerCommand::Authorize(res) => {
                let kept = self.calls.authorize.fulfill(res);
                Self::answered(kept, OpKind::Authorize)
            },
            ServerCommand::CreateRoom(res) => {
                let kept = self.calls.create_room.fulfill(res);
                Self::answered(kept, OpKind::CreateRoom)
            },
            ServerCommand::JoinRoom(res) => {
                let kept = self.calls.join_room.fulfill(res);
                Self::answered(kept, OpKind::JoinRoom)
            },
            ServerCommand::Chat(res) => self.fill_unit(OpKind::Chat, res),
            ServerCommand::LeaveRoom(res) => self.fill_unit(OpKind::LeaveRoom, res),
            ServerCommand::SelectChart(res) => self.fill_unit(OpKind::SelectChart, res),
            ServerCommand::RequestStart(res) => self.fill_unit(OpKind::RequestStart, res),
            ServerCommand::Ready(res) => self.fill_unit(OpKind::Ready, res),
            ServerCommand::CancelReady(res) => self.fill_unit(OpKind::CancelReady, res),
            ServerCommand::Played(res) => self.fill_unit(OpKind::Played, res),
            ServerCommand::Touches { frames } => {
                self.touch_frames.append(frames);
                Dispatched::Queued
            },
            ServerCommand::Judges { judges } => {
                self.judges.append(judges);
                Dispatched::Queued
            },
            ServerCommand::Message(m) => {
                self.messages.push(m);
                Dispatched::Queued
            },
            ServerCommand::ChangeState(state) => match self.room {
                Some(s) => {
                    self.room = Some(ClientRoomState { state, ..s });
                    Dispatched::RoomChanged
                },
                None => Dispatched::NoRoom,
            },
            ServerCommand::ChangeHost(is_host) => match self.room {
                Some(s) => {
                    self.room = Some(ClientRoomState { is_host, ..s });
                    Dispatched::RoomChanged
                },
                None => Dispatched::NoRoom,
            },
            ServerCommand::GameEnd => Dispatched::GameEnd,
        }
    }

    fn answered(kept: bool, k: OpKind) -> (r: Dispatched)
        ensures
            r == answered_or_dropped(kept, k),
    {
        if kept {
            Dispatched::Answered(k)
        } else {
            Dispatched::Dropped(k)
        }
    }

    fn fill_unit(&mut self, k: OpKind, res: Result<(), String>) -> (r: Dispatched)
        requires
            old(self).wf(),
            k.is_unit(),
        ensures
            final(self).wf(),
            (final(self)@, r) == fill_unit_spec(old(self)@, k, res),
    {
        let kept = self.calls.fulfill_unit(k, res);
        Self::answered(kept, k)
    }

    /// Registers a caller of kind `k` just after its command was sent, and
    /// returns its ticket. An earlier caller of the same kind is replaced and
    /// can then only time out.
    pub fn begin(&mut self, k: OpKind) -> (ticket: u64)
        requires
            old(self).wf(),
        ensures
            final(self).wf(),
            final(self)@ == (ClientView { calls: old(self)@.calls.with_installed(k, ticket), ..old(self)@ }),
            old(self)@.calls.holder(k) != Some(ticket),
    {
        self.calls.install(k)
    }

    /// Resolves an authorization call; `None` means it keeps waiting.
    pub fn complete_authorize(&mut self, ticket: u64, timed_out: bool) -> (r: Option<Result<(), CallError>>)
        requires
            old(self).wf(),
        ensures
            final(self).wf(),
            (final(self)@, r) == authorize_spec(old(self)@, ticket, timed_out),
    {
        match self.calls.authorize.resolve(ticket, timed_out, self.closed) {
            Some(Ok(room)) => {
                self.room = room;
                Some(Ok(()))
            },
            Some(Err(e)) => Some(Err(e)),
            None => None,
        }
    }

    /// Resolves a room creation; `None` means it keeps waiting.
    pub fn complete_create_room(&mut self, ticket: u64, timed_out: bool) -> (r: Option<Result<Uuid, CallError>>)
        requires
            old(self).wf(),
        ensures
            final(self).wf(),
            (final(self)@, r) == create_room_spec(old(self)@, ticket, timed_out),
    {
        let r = self.calls.create_room.resolve(ticket, timed_out, self.closed);
        if let Some(Ok(id)) = r {
            self.room = Some(ClientRoomState { id, state: RoomState::default(), is_host: true, is_ready: false });
        }
        r
    }

    /// Resolves a join of room `id`; `None` means it keeps waiting.
    pub fn complete_join_room(&mut self, id: Uuid, ticket: u64, timed_out: bool) -> (r: Option<Result<(), CallError>>)
        requires
            old(self).wf(),
        ensures
            final(self).wf(),
            (final(self)@, r) == join_room_spec(old(self)@, id, ticket, timed_out),
    {
        match self.calls.join_room.resolve(ticket, timed_out, self.closed) {
            Some(Ok(state)) => {
                self.room = Some(ClientRoomState { id, state, is_host: false, is_ready: false });
                Some(Ok(()))
            },
            Some(Err(e)) => Some(Err(e)),
            None => None,
        }
    }

    /// Resolves a call of a kind whose success carries no value, applying its
    /// local update on success; `None` means it keeps waiting.
    pub fn complete(&mut self, k: OpKind, ticket: u64, timed_out: bool) -> (r: Option<Result<(), CallError>>)
        requires
            old(self).wf(),
            k.is_unit(),
        ensures
            final(self).wf(),
            (final(self)@, r) == unit_spec(old(self)@, k, ticket, timed_out),
    {
        let r = self.calls.resolve_unit(k, ticket, timed_out, self.closed);
        if let Some(Ok(())) = r {
            match k {
                OpKind::LeaveRoom => {
                    self.room = None;
                },
                OpKind::RequestStart | OpKind::Ready => {
                    self.set_ready(true);
                },
                OpKind::CancelReady => {
                    self.set_ready(false);
                },
                _ => {},
            }
        }
        r
    }

    fn set_ready(&mut self, ready: bool)
        ensures
            final(self)@ == (ClientView { room: with_ready(old(self)@.room, ready), ..old(self)@ }),
    {
        if let Some(s) = self.room {
            self.room = Some(ClientRoomState { is_ready: ready, ..s });
        }
    }

    /// Marks the client torn down: every call still waiting fails with `Cancelled`.
    pub fn close(&mut self)
        requires
            old(self).wf(),
        ensures
            final(self).wf(),
            final(self)@ == (ClientView { closed: true, ..old(self)@ }),
    {
        self.closed = true;
    }

    /// Records how a heartbeat or manual probe ended.
    pub fn record_probe(&mut self, outcome: ProbeOutcome)
        requires
            old(self).wf(),
        ensures
            final(self).wf(),
            final(self)@ == (ClientView { health: probe_step(old(self)@.health, outcome), ..old(self)@ }),
    {
        self.health.on_probe(outcome);
    }

    /// Records the round trip of an acknowledged manual probe; the failure
    /// counter belongs to the periodic heartbeat and is left alone.
    pub fn record_delay(&mut self, delay: Duration)
        requires
            old(self).wf(),
        ensures
            final(self).wf(),
            final(self)@ == (ClientView {
                health: Health { delay: Some(delay), ..old(self)@.health },
                ..old(self)@
            }),
    {
        self.health.delay = Some(delay);
    }

    /// Round trip of the last acknowledged probe.
    pub fn delay(&self) -> (r: Option<Duration>)
        ensures
            r == self@.health.delay,
    {
        self.health.delay
    }

    /// Probes missed in a row since the last acknowledgment.
    pub fn ping_fail_count(&self) -> (r: u8)
        ensures
            r == self@.health.fail_count,
    {
        self.health.fail_count
    }

    /// The whole room snapshot.
    pub fn room(&self) -> (r: Option<ClientRoomState>)
        ensures
            r == self@.room,
    {
        self.room
    }

    pub fn room_id(&self) -> (r: Option<Uuid>)
        ensures
            r == (match self@.room {
                Some(s) => Some(s.id),
                None => None,
            }),
    {
        match self.room {
            Some(s) => Some(s.id),
            None => None,
        }
    }

    pub fn room_state(&self) -> (r: Option<RoomState>)
        ensures
            r == (match self@.room {
                Some(s) => Some(s.state),
                None => None,
            }),
    {
        match self.room {
            Some(s) => Some(s.state),
            None => None,
        }
    }

    pub fn is_host(&self) -> (r: Option<bool>)
        ensures
            r == (match self@.room {
                Some(s) => Some(s.is_host),
                None => None,
            }),
    {
        match self.room {
            Some(s) => Some(s.is_host),
            None => None,
        }
    }

    pub fn is_ready(&self) -> (r: Option<bool>)
        ensures
            r == (match self@.room {
                Some(s) => Some(s.is_ready),
                None => None,
            }),
    {
        match self.room {
            Some(s) => Some(s.is_ready),
            None => None,
        }
    }

    /// Takes every queued touch frame, in arrival order.
    pub fn take_touch_frames(&mut self) -> (r: Vec<F>)
        requires
            old(self).wf(),
        ensures
            final(self).wf(),
            r@ == old(self)@.touch_frames,
            final(self)@ == (ClientView { touch_frames: Seq::empty(), ..old(self)@ }),
    {
        self.touch_frames.drain()
    }

    /// Takes every queued judgment, in arrival order.
    pub fn take_judge_events(&mut self) -> (r: Vec<J>)
        requires
            old(self).wf(),
        ensures
            final(self).wf(),
            r@ == old(self)@.judges,
            final(self)@ == (ClientView { judges: Seq::empty(), ..old(self)@ }),
    {
        self.judges.drain()
    }

    /// Takes every queued message, in arrival order.
    pub fn take_messages(&mut self) -> (r: Vec<M>)
        requires
            old(self).wf(),
        ensures
            final(self).wf(),
            r@ == old(self)@.messages,
            final(self)@ == (ClientView { messages: Seq::empty(), ..old(self)@ }),
    {
        self.messages.drain()
    }
}

/// Creating a room: once the server's answer arrives for the waiting caller,
/// the call returns the new room's id and the snapshot reads host, not ready,
/// default phase, with that id.
pub proof fn lemma_create_room_snapshot<F, J, M>(v: ClientView<F, J, M>, ticket: u64, id: Uuid, timed_out: bool)
    requires
        v.calls.wf(),
        v.calls.create_room.state == crate::slot::SlotState::<Uuid>::Waiting(ticket),
    ensures
        ({
            let (v1, d) = process_spec(v, ServerCommand::CreateRoom(Ok(id)));
            let (v2, r) = create_room_spec(v1, ticket, timed_out);
            &&& d == Dispatched::Answered(OpKind::CreateRoom)
            &&& r == Some(Ok::<Uuid, CallError>(id))
            &&& v2.room == Some(created_room(id))
            &&& v2.calls.create_room.state is Idle
        }),
{
}

/// Joining room `id`: once the server's answer with phase `phase` arrives for
/// the waiting caller, the call succeeds and the snapshot reads guest, not
/// ready, phase `phase`, id `id`.
pub proof fn lemma_join_room_snapshot<F, J, M>(
    v: ClientView<F, J, M>,
    ticket: u64,
    id: Uuid,
    phase: RoomState,
    timed_out: bool,
)
    requires
        v.calls.wf(),
        v.calls.join_room.state == crate::slot::SlotState::<RoomState>::Waiting(ticket),
    ensures
        ({
            let (v1, d) = process_spec(v, ServerCommand::JoinRoom(Ok(phase)));
            let (v2, r) = join_room_spec(v1, id, ticket, timed_out);
            &&& d == Dispatched::Answered(OpKind::JoinRoom)
            &&& r == Some(Ok::<(), CallError>(()))
            &&& v2.room == Some(joined_room(id, phase))
        }),
{
}

/// Ready, then cancel: after a successful ready call the snapshot reads ready,
/// after a successful cancel it reads not ready; the other fields stay, and no
/// push event takes part.
pub proof fn lemma_ready_then_cancel<F, J, M>(
    v: ClientView<F, J, M>,
    ready_ticket: u64,
    cancel_ticket: u64,
    timed_out: bool,
)
    requires
        v.calls.wf(),
        v.room is Some,
        v.calls.ready.state == crate::slot::SlotState::<()>::Waiting(ready_ticket),
    ensures
        ({
            let (v1, _) = process_spec(v, ServerCommand::Ready(Ok(())));
            let (v2, r2) = unit_spec(v1, OpKind::Ready, ready_ticket, timed_out);
            let v3 = ClientView { calls: v2.calls.with_installed(OpKind::CancelReady, cancel_ticket), ..v2 };
            let (v4, _) = process_spec(v3, ServerCommand::CancelReady(Ok(())));
            let (v5, r5) = unit_spec(v4, OpKind::CancelReady, cancel_ticket, timed_out);
            &&& r2 == Some(Ok::<(), CallError>(()))
            &&& v2.room == Some(ClientRoomState { is_ready: true, ..v.room.unwrap() })
            &&& r5 == Some(Ok::<(), CallError>(()))
            &&& v5.room == Some(ClientRoomState { is_ready: false, ..v.room.unwrap() })
        }),
{
}

/// Leaving: once the server's answer arrives for the waiting caller, the call
/// succeeds and no room is tracked any more.
pub proof fn lemma_leave_room_clears<F, J, M>(v: ClientView<F, J, M>, ticket: u64, timed_out: bool)
    requires
        v.calls.wf(),
        v.calls.leave_room.state == crate::slot::SlotState::<()>::Waiting(ticket),
    ensures
        ({
            let (v1, _) = process_spec(v, ServerCommand::LeaveRoom(Ok(())));
            let (v2, r) = unit_spec(v1, OpKind::LeaveRoom, ticket, timed_out);
            &&& r == Some(Ok::<(), CallError>(()))
            &&& v2.room is None
        }),
{
}

} // verus!
