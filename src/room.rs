use vstd::prelude::*;

verus! {

/// Relies on uuid::Uuid as an opaque room identifier: values of it are only
/// stored and copied; no method of it is called here.
#[verifier::external_type_specification]
#[verifier::external_body]
pub struct ExUuid(uuid::Uuid);

/// Lifecycle phase of a room, as reported by the server.
#[derive(Clone, Copy, Debug, PartialEq, Eq, Structural)]
pub enum RoomState {
    /// Choosing a chart; holds the selected chart, if any.
    SelectChart(Option<i32>),
    WaitingForReady,
    Playing,
}

impl Default for RoomState {
    fn default() -> (r: RoomState)
        ensures
            r == RoomState::SelectChart(None),
    {
        RoomState::SelectChart(None)
    }
}

/// Snapshot of the room this client is in.
#[derive(Clone, Copy, Debug)]
pub struct ClientRoomState {
    pub id: uuid::Uuid,
    pub state: RoomState,
    pub is_host: bool,
    pub is_ready: bool,
}

} // verus!
