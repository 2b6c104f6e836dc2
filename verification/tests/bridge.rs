use rysyn::bridge::{Bridge, COMMAND_QUEUE_CAPACITY};
use rysyn::commands::Command;
use rysyn::state::StateSnapshot;

#[test]
fn bridge_starts_empty() {
    let mut bridge = Bridge::new();
    let state = bridge.get_state();
    assert!(state.tracks.is_empty());
    assert!(state.clips.is_empty());
    assert_eq!(state.sample_rate, 0);
    assert_eq!(state.project_name, "");
    assert!(bridge.try_recv_command().is_none());
}

#[test]
fn bridge_default_is_new() {
    let mut bridge = Bridge::default();
    assert!(bridge.try_recv_command().is_none());
    assert_eq!(bridge.get_state().transport.tempo, 0);
}

#[test]
fn commands_received_in_order() {
    let mut bridge = Bridge::new();
    assert!(bridge.send_command(Command::Play).is_ok());
    assert!(bridge.send_command(Command::Stop).is_ok());
    assert!(bridge.send_command(Command::SetTempo { bpm: 140.0f64.to_bits() }).is_ok());
    assert!(matches!(bridge.try_recv_command(), Some(Command::Play)));
    assert!(matches!(bridge.try_recv_command(), Some(Command::Stop)));
    match bridge.try_recv_command() {
        Some(Command::SetTempo { bpm }) => assert_eq!(f64::from_bits(bpm), 140.0),
        other => panic!("unexpected {:?}", other),
    }
    assert!(bridge.try_recv_command().is_none());
}

#[test]
fn full_queue_refuses_commands() {
    let mut bridge = Bridge::new();
    for i in 0..COMMAND_QUEUE_CAPACITY {
        assert!(bridge.send_command(Command::DeleteTrack { track_id: i as u32 }).is_ok());
    }
    let refused = bridge.send_command(Command::Play);
    assert_eq!(refused, Err("sending on a full channel".to_string()));
    assert!(matches!(bridge.try_recv_command(), Some(Command::DeleteTrack { track_id: 0 })));
    assert!(bridge.send_command(Command::Pause).is_ok());
    for i in 1..COMMAND_QUEUE_CAPACITY {
        match bridge.try_recv_command() {
            Some(Command::DeleteTrack { track_id }) => assert_eq!(track_id, i as u32),
            other => panic!("unexpected {:?}", other),
        }
    }
    assert!(matches!(bridge.try_recv_command(), Some(Command::Pause)));
    assert!(bridge.try_recv_command().is_none());
}

#[test]
fn state_read_after_write() {
    let mut bridge = Bridge::new();
    let mut snapshot = StateSnapshot::new();
    snapshot.project_name = "Demo".to_string();
    snapshot.transport.is_playing = true;
    bridge.update_state(snapshot);
    let read = bridge.get_state();
    assert_eq!(read.project_name, "Demo");
    assert!(read.transport.is_playing);
    assert_eq!(f64::from_bits(read.transport.tempo), 120.0);
    assert_eq!(read.sample_rate, 44100);
}

#[test]
fn state_update_leaves_commands() {
    let mut bridge = Bridge::new();
    assert!(bridge.send_command(Command::Undo).is_ok());
    bridge.update_state(StateSnapshot::new());
    assert!(matches!(bridge.try_recv_command(), Some(Command::Undo)));
}
