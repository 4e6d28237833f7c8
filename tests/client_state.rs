use phira_mp_client::heartbeat::{Health, ProbeOutcome};
use phira_mp_client::protocol::{ClientCommand, Dispatched, OpKind, ServerCommand};
use phira_mp_client::queue::PendingQueue;
use phira_mp_client::room::{ClientRoomState, RoomState};
use phira_mp_client::slot::{CallError, CompletionSlot};
use phira_mp_client::state::ClientState;
use std::time::Duration;
use uuid::Uuid;

type State = ClientState<u32, u16, String>;
type Event = ServerCommand<u32, u16, String>;

fn room_id() -> Uuid {
    Uuid::from_u128(0x1234_5678_9abc_def0_1122_3344_5566_7788)
}

fn joined(state: &mut State, id: Uuid, phase: RoomState) {
    let t = state.begin(OpKind::JoinRoom);
    state.process(Event::JoinRoom(Ok(phase)));
    assert_eq!(state.complete_join_room(id, t, false), Some(Ok(())));
}

#[test]
fn new_state_is_empty() {
    let state = State::new();
    assert!(state.room().is_none());
    assert_eq!(state.room_id(), None);
    assert_eq!(state.room_state(), None);
    assert_eq!(state.is_host(), None);
    assert_eq!(state.is_ready(), None);
    assert_eq!(state.delay(), None);
    assert_eq!(state.ping_fail_count(), 0);
}

#[test]
fn create_room_installs_host_snapshot() {
    let mut state = State::new();
    let id = room_id();
    let t = state.begin(OpKind::CreateRoom);
    assert_eq!(state.complete_create_room(t, false), None);
    assert_eq!(state.process(Event::CreateRoom(Ok(id))), Dispatched::Answered(OpKind::CreateRoom));
    assert_eq!(state.complete_create_room(t, false), Some(Ok(id)));
    assert_eq!(state.room_id(), Some(id));
    assert_eq!(state.is_host(), Some(true));
    assert_eq!(state.is_ready(), Some(false));
    assert_eq!(state.room_state(), Some(RoomState::SelectChart(None)));
}

#[test]
fn join_room_installs_guest_snapshot() {
    let mut state = State::new();
    let id = room_id();
    joined(&mut state, id, RoomState::WaitingForReady);
    assert_eq!(state.room_id(), Some(id));
    assert_eq!(state.is_host(), Some(false));
    assert_eq!(state.is_ready(), Some(false));
    assert_eq!(state.room_state(), Some(RoomState::WaitingForReady));
}

#[test]
fn ready_then_cancel_ready() {
    let mut state = State::new();
    joined(&mut state, room_id(), RoomState::SelectChart(Some(7)));
    let t = state.begin(OpKind::Ready);
    state.process(Event::Ready(Ok(())));
    assert_eq!(state.complete(OpKind::Ready, t, false), Some(Ok(())));
    assert_eq!(state.is_ready(), Some(true));
    let t = state.begin(OpKind::CancelReady);
    state.process(Event::CancelReady(Ok(())));
    assert_eq!(state.complete(OpKind::CancelReady, t, false), Some(Ok(())));
    assert_eq!(state.is_ready(), Some(false));
    assert_eq!(state.room_state(), Some(RoomState::SelectChart(Some(7))));
}

#[test]
fn request_start_sets_ready() {
    let mut state = State::new();
    joined(&mut state, room_id(), RoomState::SelectChart(Some(1)));
    let t = state.begin(OpKind::RequestStart);
    state.process(Event::RequestStart(Ok(())));
    assert_eq!(state.complete(OpKind::RequestStart, t, false), Some(Ok(())));
    assert_eq!(state.is_ready(), Some(true));
}

#[test]
fn leave_room_clears_snapshot() {
    let mut state = State::new();
    joined(&mut state, room_id(), RoomState::Playing);
    let t = state.begin(OpKind::LeaveRoom);
    state.process(Event::LeaveRoom(Ok(())));
    assert_eq!(state.complete(OpKind::LeaveRoom, t, false), Some(Ok(())));
    assert!(state.room().is_none());
    assert_eq!(state.room_id(), None);
    assert_eq!(state.room_state(), None);
    assert_eq!(state.is_host(), None);
    assert_eq!(state.is_ready(), None);
}

#[test]
fn authorize_replaces_snapshot() {
    let mut state = State::new();
    let snapshot = ClientRoomState {
        id: room_id(),
        state: RoomState::Playing,
        is_host: true,
        is_ready: true,
    };
    let t = state.begin(OpKind::Authorize);
    state.process(Event::Authorize(Ok(Some(snapshot))));
    assert_eq!(state.complete_authorize(t, false), Some(Ok(())));
    assert_eq!(state.room_id(), Some(room_id()));
    assert_eq!(state.room_state(), Some(RoomState::Playing));
    assert_eq!(state.is_ready(), Some(true));
    let t = state.begin(OpKind::Authorize);
    state.process(Event::Authorize(Ok(None)));
    assert_eq!(state.complete_authorize(t, false), Some(Ok(())));
    assert!(state.room().is_none());
}

#[test]
fn remote_error_carries_message() {
    let mut state = State::new();
    let t = state.begin(OpKind::Chat);
    state.process(Event::Chat(Err("muted".to_string())));
    assert_eq!(state.complete(OpKind::Chat, t, false), Some(Err(CallError::Remote("muted".to_string()))));
    let t = state.begin(OpKind::JoinRoom);
    state.process(Event::JoinRoom(Err("room full".to_string())));
    assert_eq!(
        state.complete_join_room(room_id(), t, false),
        Some(Err(CallError::Remote("room full".to_string())))
    );
    assert!(state.room().is_none());
}

#[test]
fn timeout_then_late_response_is_dropped() {
    let mut state = State::new();
    let t = state.begin(OpKind::SelectChart);
    assert_eq!(state.complete(OpKind::SelectChart, t, false), None);
    assert_eq!(state.complete(OpKind::SelectChart, t, true), Some(Err(CallError::Timeout)));
    assert_eq!(state.process(Event::SelectChart(Ok(()))), Dispatched::Dropped(OpKind::SelectChart));
    assert_eq!(state.complete(OpKind::SelectChart, t, false), None);
}

#[test]
fn response_without_caller_is_dropped() {
    let mut state = State::new();
    assert_eq!(state.process(Event::Played(Ok(()))), Dispatched::Dropped(OpKind::Played));
    assert_eq!(state.process(Event::CreateRoom(Ok(room_id()))), Dispatched::Dropped(OpKind::CreateRoom));
}

#[test]
fn newer_caller_replaces_older_one() {
    let mut state = State::new();
    let first = state.begin(OpKind::Played);
    let second = state.begin(OpKind::Played);
    assert_ne!(first, second);
    assert_eq!(state.process(Event::Played(Err("late".to_string()))), Dispatched::Answered(OpKind::Played));
    assert_eq!(state.process(Event::Played(Ok(()))), Dispatched::Dropped(OpKind::Played));
    assert_eq!(state.complete(OpKind::Played, first, false), None);
    assert_eq!(state.complete(OpKind::Played, first, true), Some(Err(CallError::Timeout)));
    assert_eq!(
        state.complete(OpKind::Played, second, false),
        Some(Err(CallError::Remote("late".to_string())))
    );
    assert_eq!(state.complete(OpKind::Played, second, false), None);
}

#[test]
fn close_cancels_waiting_calls() {
    let mut state = State::new();
    let t = state.begin(OpKind::CreateRoom);
    state.close();
    assert_eq!(state.complete_create_room(t, false), Some(Err(CallError::Cancelled)));
    let t = state.begin(OpKind::Ready);
    state.process(Event::Ready(Ok(())));
    assert_eq!(state.complete(OpKind::Ready, t, false), Some(Ok(())));
}

#[test]
fn push_events_update_snapshot() {
    let mut state = State::new();
    assert_eq!(state.process(Event::ChangeState(RoomState::Playing)), Dispatched::NoRoom);
    assert_eq!(state.process(Event::ChangeHost(true)), Dispatched::NoRoom);
    assert!(state.room().is_none());
    joined(&mut state, room_id(), RoomState::SelectChart(None));
    assert_eq!(state.process(Event::ChangeState(RoomState::Playing)), Dispatched::RoomChanged);
    assert_eq!(state.process(Event::ChangeHost(true)), Dispatched::RoomChanged);
    assert_eq!(state.room_state(), Some(RoomState::Playing));
    assert_eq!(state.is_host(), Some(true));
    assert_eq!(state.process(Event::Pong), Dispatched::Pong);
    assert_eq!(state.process(Event::GameEnd), Dispatched::GameEnd);
}

#[test]
fn telemetry_keeps_arrival_order() {
    let mut state = State::new();
    state.process(Event::Touches { frames: vec![1, 2] });
    state.process(Event::Judges { judges: vec![9] });
    state.process(Event::Touches { frames: vec![3] });
    state.process(Event::Message("hi".to_string()));
    state.process(Event::Message("bye".to_string()));
    assert_eq!(state.take_touch_frames(), vec![1, 2, 3]);
    assert_eq!(state.take_touch_frames(), Vec::<u32>::new());
    assert_eq!(state.take_judge_events(), vec![9]);
    assert_eq!(state.take_messages(), vec!["hi".to_string(), "bye".to_string()]);
    assert!(state.take_messages().is_empty());
    state.process(Event::Touches { frames: vec![4] });
    assert_eq!(state.take_touch_frames(), vec![4]);
}

#[test]
fn pending_queue_drains_once() {
    let mut q = PendingQueue::new();
    q.append(vec![1u8, 2]);
    q.push(3);
    assert_eq!(q.len(), 3);
    assert_eq!(q.drain(), vec![1, 2, 3]);
    assert_eq!(q.len(), 0);
    assert!(q.drain().is_empty());
}

#[test]
fn heartbeat_counts_misses_and_resets() {
    let mut state = State::new();
    for _ in 0..5 {
        state.record_probe(ProbeOutcome::TimedOut);
    }
    assert_eq!(state.ping_fail_count(), 5);
    assert_eq!(state.delay(), None);
    state.record_probe(ProbeOutcome::SendFailed);
    assert_eq!(state.ping_fail_count(), 5);
    state.record_probe(ProbeOutcome::Acked(Duration::from_millis(40)));
    assert_eq!(state.ping_fail_count(), 0);
    assert_eq!(state.delay(), Some(Duration::from_millis(40)));
    state.record_probe(ProbeOutcome::TimedOut);
    assert_eq!(state.delay(), Some(Duration::from_millis(40)));
    state.record_delay(Duration::from_millis(12));
    assert_eq!(state.delay(), Some(Duration::from_millis(12)));
    assert_eq!(state.ping_fail_count(), 1);
}

#[test]
fn heartbeat_counter_saturates() {
    let mut health = Health::new();
    for _ in 0..300 {
        health.on_probe(ProbeOutcome::TimedOut);
    }
    assert_eq!(health.fail_count, 255);
    health.on_probe(ProbeOutcome::Acked(Duration::from_secs(1)));
    assert_eq!(health.fail_count, 0);
}

#[test]
fn slot_tickets_differ() {
    let mut slot: CompletionSlot<u8> = CompletionSlot::new();
    let a = slot.install();
    let b = slot.install();
    assert_ne!(a, b);
    assert!(slot.fulfill(Ok(5)));
    assert_eq!(slot.resolve(b, false, false), Some(Ok(5)));
}

#[test]
fn command_kinds() {
    let join: ClientCommand<u32, u16> = ClientCommand::JoinRoom { id: room_id() };
    assert_eq!(join.kind(), Some(OpKind::JoinRoom));
    let ping: ClientCommand<u32, u16> = ClientCommand::Ping;
    assert_eq!(ping.kind(), None);
    let touches: ClientCommand<u32, u16> = ClientCommand::Touches { frames: vec![1] };
    assert_eq!(touches.kind(), None);
    let chat: ClientCommand<u32, u16> = ClientCommand::Chat { message: "x".to_string() };
    assert_eq!(chat.kind(), Some(OpKind::Chat));
}
