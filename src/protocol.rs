use crate::room::{ClientRoomState, RoomState};
use uuid::Uuid;
use vstd::prelude::*;

verus! {

/// The request kinds that expect a response, one completion slot each.
#[derive(Clone, Copy, Debug, PartialEq, Eq, Structural)]
pub enum OpKind {
    Authorize,
    Chat,
    CreateRoom,
    JoinRoom,
    LeaveRoom,
    SelectChart,
    RequestStart,
    Ready,
    CancelReady,
    Played,
}

impl OpKind {
    /// Kinds whose success carries no value.
    pub open spec fn is_unit(self) -> bool {
        !(self is Authorize || self is CreateRoom || self is JoinRoom)
    }
}

/// Commands sent by the client. `F` and `J` are the telemetry items (touch
/// frames and judgments) that the client may push on its own.
#[derive(Debug)]
pub enum ClientCommand<F, J> {
    Ping,
    Authorize { token: String },
    Chat { message: String },
    Touches { frames: Vec<F> },
    Judges { judges: Vec<J> },
    CreateRoom,
    JoinRoom { id: Uuid },
    LeaveRoom,
    SelectChart { id: i32 },
    RequestStart,
    Ready,
    CancelReady,
    Played { id: i32 },
}

impl<F, J> ClientCommand<F, J> {
    /// The completion slot that the response to this command fills, if it has one.
    pub open spec fn kind_spec(&self) -> Option<OpKind> {
        match self {
            ClientCommand::Authorize { .. } => Some(OpKind::Authorize),
            ClientCommand::Chat { .. } => Some(OpKind::Chat),
            ClientCommand::CreateRoom => Some(OpKind::CreateRoom),
            ClientCommand::JoinRoom { .. } => Some(OpKind::JoinRoom),
            ClientCommand::LeaveRoom => Some(OpKind::LeaveRoom),
            ClientCommand::SelectChart { .. } => Some(OpKind::SelectChart),
            ClientCommand::RequestStart => Some(OpKind::RequestStart),
            ClientCommand::Ready => Some(OpKind::Ready),
            ClientCommand::CancelReady => Some(OpKind::CancelReady),
            ClientCommand::Played { .. } => Some(OpKind::Played),
            _ => None,
        }
    }

    pub fn kind(&self) -> (r: Option<OpKind>)
        ensures
            r == self.kind_spec(),
    {
        match self {
            ClientCommand::Authorize { .. } => Some(OpKind::Authorize),
            ClientCommand::Chat { .. } => Some(OpKind::Chat),
            ClientCommand::CreateRoom => Some(OpKind::CreateRoom),
            ClientCommand::JoinRoom { .. } => Some(OpKind::JoinRoom),
            ClientCommand::LeaveRoom => Some(OpKind::LeaveRoom),
            ClientCommand::SelectChart { .. } => Some(OpKind::SelectChart),
            ClientCommand::RequestStart => Some(OpKind::RequestStart),
            ClientCommand::Ready => Some(OpKind::Ready),
            ClientCommand::CancelReady => Some(OpKind::CancelReady),
            ClientCommand::Played { .. } => Some(OpKind::Played),
            _ => None,
        }
    }
}

/// Events received from the server. `F`, `J` and `M` are the pushed touch
/// frames, judgments and chat or system messages.
#[derive(Debug)]
pub enum ServerCommand<F, J, M> {
    /// Heartbeat acknowledgment.
    Pong,
    Authorize(Result<Option<ClientRoomState>, String>),
    Chat(Result<(), String>),
    Touches { frames: Vec<F> },
    Judges { judges: Vec<J> },
    Message(M),
    ChangeState(RoomState),
    ChangeHost(bool),
    CreateRoom(Result<Uuid, String>),
    JoinRoom(Result<RoomState, String>),
    LeaveRoom(Result<(), String>),
    SelectChart(Result<(), String>),
    RequestStart(Result<(), String>),
    Ready(Result<(), String>),
    CancelReady(Result<(), String>),
    Played(Result<(), String>),
    /// The session ended; nothing to do at this layer.
    GameEnd,
}

/// What processing one inbound event did, for the caller to act on.
#[derive(Clone, Copy, Debug, PartialEq, Eq, Structural)]
pub enum Dispatched {
    /// A heartbeat acknowledgment: wake the probe waiting for it.
    Pong,
    /// A response was stored for the caller waiting on this kind.
    Answered(OpKind),
    /// A response came with nobody waiting on this kind; it was dropped.
    Dropped(OpKind),
    /// Telemetry or a message was queued.
    Queued,
    /// The room snapshot was updated.
    RoomChanged,
    /// A room update came while no room is tracked; it was skipped.
    NoRoom,
    /// The session ended.
    GameEnd,
}

} // verus!
