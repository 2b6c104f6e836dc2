use rysyn::commands::TrackType;
use rysyn::state::{ClipState, MeterLevels, PluginInfo, PluginSlotState, StateSnapshot, TrackState, TransportState};

#[test]
fn snapshot_new_defaults() {
    let s = StateSnapshot::new();
    assert_eq!(f64::from_bits(s.transport.tempo), 120.0);
    assert_eq!(s.transport.time_sig_num, 4);
    assert_eq!(s.transport.time_sig_denom, 4);
    assert_eq!(f64::from_bits(s.transport.loop_end_beats), 8.0);
    assert_eq!(f64::from_bits(s.transport.loop_start_beats), 0.0);
    assert!(!s.transport.is_playing);
    assert_eq!(f32::from_bits(s.master_volume), 1.0);
    assert_eq!(f32::from_bits(s.cpu_load), 0.0);
    assert_eq!(s.sample_rate, 44100);
    assert_eq!(s.buffer_size, 512);
    assert_eq!(s.audio_device_name, "Default");
    assert_eq!(s.project_name, "Untitled");
    assert!(!s.is_modified);
    assert!(s.tracks.is_empty());
}

#[test]
fn snapshot_default_is_empty() {
    let s = StateSnapshot::default();
    assert_eq!(s.transport, TransportState::default());
    assert_eq!(s.sample_rate, 0);
    assert_eq!(s.master_volume, 0);
    assert_eq!(s.audio_device_name, "");
    assert!(s.meters.track_levels_l.is_empty());
}

#[test]
fn track_state_defaults() {
    let t = TrackState::default();
    assert_eq!(t.id, 0);
    assert_eq!(t.name, "");
    assert_eq!(t.color, 0xFF80_8080);
    assert_eq!(f32::from_bits(t.volume), 1.0);
    assert_eq!(f32::from_bits(t.pan), 0.0);
    assert_eq!(t.input_name, "No Input");
    assert_eq!(t.output_name, "Master");
    assert_eq!(t.plugins.len(), 8);
    assert!(t.plugins.iter().all(|p| p.is_none()));
}

#[test]
fn clip_state_defaults() {
    let c = ClipState::default();
    assert_eq!(f64::from_bits(c.length_beats), 4.0);
    assert_eq!(f64::from_bits(c.start_beats), 0.0);
    assert_eq!(c.name, "Clip");
    assert_eq!(c.color, 0xFF64_96FF);
    assert!(!c.is_midi);
}

#[test]
fn track_type_defaults_to_audio() {
    assert_eq!(TrackType::default(), TrackType::Audio);
}

#[test]
fn snapshot_clone_keeps_everything() {
    let mut s = StateSnapshot::new();
    let mut t = TrackState::default();
    t.name = "Lead".to_string();
    t.plugins[2] = Some("Reverb".to_string());
    s.tracks.push(t);
    s.clips.push(ClipState::default());
    s.available_plugins.push(PluginInfo {
        id: "p1".to_string(),
        name: "Synth".to_string(),
        manufacturer: "Acme".to_string(),
        format: "VST3".to_string(),
        path: "/p".to_string(),
        is_instrument: true,
    });
    s.meters = MeterLevels { master_l: 1, master_r: 2, track_levels_l: vec![3], track_levels_r: vec![4] };
    let c = s.clone();
    assert_eq!(c.tracks[0].name, "Lead");
    assert_eq!(c.tracks[0].plugins[2].as_deref(), Some("Reverb"));
    assert_eq!(c.clips[0].name, "Clip");
    assert_eq!(c.available_plugins[0].manufacturer, "Acme");
    assert_eq!(c.meters.track_levels_r, vec![4]);
    let slot = PluginSlotState {
        id: 3,
        name: "EQ".to_string(),
        vendor: "V".to_string(),
        is_bypassed: true,
        is_loaded: true,
        has_editor: false,
    };
    let slot2 = slot.clone();
    assert_eq!(slot2.name, "EQ");
    assert!(slot2.is_bypassed);
}
