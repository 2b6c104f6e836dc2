use rysyn::commands::Command;
use rysyn::panels::inspector::{ClipEdit, InspectorPanel, InspectorTarget, ProjectEdit, TrackEdit};
use rysyn::panels::menu::{menu_command, MenuItem};
use rysyn::panels::mixer::{ChannelAction, MasterAction, MixerPanel};
use rysyn::panels::timeline::clip_lane;
use rysyn::panels::track_list::{TrackHeaderAction, TrackListPanel};
use rysyn::panels::transport::{TransportAction, TransportPanel};
use rysyn::state::{ClipState, StateSnapshot, TrackState, TransportState};

fn track(id: u32, name: &str, midi: bool) -> TrackState {
    let mut t = TrackState::default();
    t.id = id;
    t.name = name.to_string();
    t.is_midi = midi;
    t
}

#[test]
fn track_header_rename_flow() {
    let mut panel = TrackListPanel::default();
    let t = track(7, "Drums", false);
    assert!(panel.handle(&t, TrackHeaderAction::NameDoubleClicked).is_none());
    assert!(panel.is_renaming(7));
    assert_eq!(panel.rename_buffer, "Drums");
    panel.rename_buffer.push_str(" 2");
    match panel.handle(&t, TrackHeaderAction::RenameFinished) {
        Some(Command::RenameTrack { track_id, name }) => {
            assert_eq!(track_id, 7);
            assert_eq!(name, "Drums 2");
        }
        other => panic!("unexpected {:?}", other),
    }
    assert!(!panel.is_renaming(7));
    assert!(panel.handle(&t, TrackHeaderAction::RenameFinished).is_none());
}

#[test]
fn track_header_buttons() {
    let mut panel = TrackListPanel::default();
    let mut t = track(2, "Keys", true);
    t.is_muted = true;
    assert!(matches!(panel.handle(&t, TrackHeaderAction::MuteClicked), Some(Command::SetTrackMute { track_id: 2, muted: false })));
    assert!(matches!(panel.handle(&t, TrackHeaderAction::SoloClicked), Some(Command::SetTrackSolo { track_id: 2, soloed: true })));
    assert!(matches!(panel.handle(&t, TrackHeaderAction::ArmClicked), Some(Command::SetTrackArm { track_id: 2, armed: true })));
    assert!(panel.handle(&track(3, "Vox", false), TrackHeaderAction::ArmClicked).is_none());
    assert!(matches!(panel.handle(&t, TrackHeaderAction::HeaderClicked { ctrl_held: true }), Some(Command::SelectTrack { track_id: 2, exclusive: false })));
    assert!(matches!(panel.handle(&t, TrackHeaderAction::HeaderClicked { ctrl_held: false }), Some(Command::SelectTrack { track_id: 2, exclusive: true })));
    assert!(matches!(panel.handle(&t, TrackHeaderAction::DuplicateChosen), Some(Command::DuplicateTrack { track_id: 2 })));
    assert!(matches!(panel.handle(&t, TrackHeaderAction::DeleteChosen), Some(Command::DeleteTrack { track_id: 2 })));
    let v = 0.5f32.to_bits();
    assert!(matches!(panel.handle(&t, TrackHeaderAction::VolumeChanged { volume: v }), Some(Command::SetTrackVolume { track_id: 2, volume }) if volume == v));
    assert!(matches!(TrackListPanel::add_track_command(true), Command::CreateTrack { ref name, is_midi: true } if name == "MIDI"));
    assert!(matches!(TrackListPanel::add_track_command(false), Command::CreateTrack { ref name, is_midi: false } if name == "Audio"));
}

#[test]
fn mixer_strip_commands() {
    let m = MixerPanel::default();
    let t = track(4, "Bass", false);
    assert!(matches!(m.channel_command(&t, ChannelAction::FaderReset), Some(Command::SetTrackVolume { track_id: 4, volume }) if f32::from_bits(volume) == 1.0));
    let p = (-0.5f32).to_bits();
    assert!(matches!(m.channel_command(&t, ChannelAction::PanChanged { pan: p }), Some(Command::SetTrackPan { track_id: 4, pan }) if pan == p));
    assert!(m.channel_command(&t, ChannelAction::ArmClicked).is_none());
    assert!(matches!(m.channel_command(&t, ChannelAction::MuteClicked), Some(Command::SetTrackMute { track_id: 4, muted: true })));
    assert!(matches!(m.master_command(MasterAction::FaderReset), Command::SetMasterVolume { volume } if f32::from_bits(volume) == 1.0));
    assert!(matches!(m.master_command(MasterAction::VolumeChanged { volume: 9 }), Command::SetMasterVolume { volume: 9 }));
    let levels = vec![0.1f32.to_bits(), 0.2f32.to_bits()];
    assert_eq!(f32::from_bits(m.meter_level(&levels, 1)), 0.2);
    assert_eq!(f32::from_bits(m.meter_level(&levels, 2)), 0.0);
}

#[test]
fn inspector_target_prefers_clip() {
    let insp = InspectorPanel::default();
    let mut state = StateSnapshot::new();
    assert_eq!(insp.target(&state), InspectorTarget::Project);
    state.tracks.push(track(1, "A", false));
    let mut b = track(2, "B", false);
    b.is_selected = true;
    state.tracks.push(b);
    assert_eq!(insp.target(&state), InspectorTarget::Track(1));
    let mut c0 = ClipState::default();
    c0.track_id = 2;
    state.clips.push(c0);
    let mut c1 = ClipState::default();
    c1.is_selected = true;
    state.clips.push(c1);
    assert_eq!(insp.target(&state), InspectorTarget::Clip(1));
    assert_eq!(insp.clip_track_name(&state, &state.clips[0]), "B");
    assert_eq!(insp.clip_track_name(&state, &state.clips[1]), "Unknown");
}

#[test]
fn inspector_commands() {
    let insp = InspectorPanel::default();
    let t = track(5, "Pad", false);
    assert!(matches!(insp.track_command(&t, TrackEdit::ColorPicked { r: 1, g: 2, b: 3 }), Some(Command::SetTrackColor { track_id: 5, color: 0x0102_03FF })));
    assert!(insp.track_command(&t, TrackEdit::ArmSet { armed: true }).is_none());
    assert!(matches!(insp.track_command(&track(6, "M", true), TrackEdit::ArmSet { armed: true }), Some(Command::SetTrackArm { track_id: 6, armed: true })));
    assert!(matches!(insp.track_command(&t, TrackEdit::PluginRemoved { slot: 3 }), Some(Command::RemovePlugin { track_id: 5, slot: 3 })));
    assert!(matches!(insp.track_command(&t, TrackEdit::Renamed { name: "X".to_string() }), Some(Command::RenameTrack { track_id: 5, ref name }) if name == "X"));
    let mut c = ClipState::default();
    c.id = 9;
    assert!(matches!(insp.clip_command(&c, ClipEdit::Moved { start_beats: 2.0f64.to_bits() }), Command::MoveClip { clip_id: 9, start_beats, track_id: None } if f64::from_bits(start_beats) == 2.0));
    assert!(matches!(insp.clip_command(&c, ClipEdit::ColorPicked { r: 255, g: 0, b: 16 }), Command::SetClipColor { clip_id: 9, color: 0xFF00_10FF }));
    assert!(matches!(insp.clip_command(&c, ClipEdit::Deleted), Command::DeleteClip { clip_id: 9 }));
    assert!(matches!(insp.project_command(ProjectEdit::TimeSignatureChanged { numerator: 3, denominator: 4 }), Command::SetTimeSignature { numerator: 3, denominator: 4 }));
    assert!(matches!(insp.project_command(ProjectEdit::AudioSettingsOpened), Command::OpenAudioSettings));
}

#[test]
fn transport_buttons() {
    let p = TransportPanel::default();
    let mut t = TransportState::default();
    assert!(matches!(p.button_command(&t, TransportAction::PlayPause), Command::Play));
    t.is_playing = true;
    assert!(matches!(p.button_command(&t, TransportAction::PlayPause), Command::Pause));
    assert!(matches!(p.button_command(&t, TransportAction::ReturnToStart), Command::SetPlayhead { beats: 0 }));
    assert!(matches!(p.button_command(&t, TransportAction::Record), Command::ToggleRecord));
    assert!(matches!(p.button_command(&t, TransportAction::Loop), Command::ToggleLoop));
    assert!(matches!(p.button_command(&t, TransportAction::Stop), Command::Stop));
}

#[test]
fn tempo_field_edit_and_commit() {
    let mut p = TransportPanel::default();
    assert_eq!(p.tempo_text(&"120.0".to_string()), "120.0");
    p.edit_tempo("98".to_string());
    assert_eq!(p.tempo_text(&"120.0".to_string()), "98");
    let cmd = p.commit_tempo(Some(98.0f64.to_bits()));
    assert!(matches!(cmd, Some(Command::SetTempo { bpm }) if f64::from_bits(bpm) == 98.0));
    assert!(p.bpm_edit.is_none());
    p.edit_tempo("fast".to_string());
    assert!(p.commit_tempo(None).is_none());
    assert!(p.bpm_edit.is_none());
}

#[test]
fn menu_entries() {
    assert!(matches!(menu_command(MenuItem::NewProject), Some(Command::NewProject)));
    assert!(matches!(menu_command(MenuItem::SaveProject), Some(Command::SaveProject { path: None })));
    assert!(matches!(menu_command(MenuItem::AddInstrumentTrack), Some(Command::CreateTrack { ref name, is_midi: true }) if name == "Instrument"));
    assert!(matches!(menu_command(MenuItem::AddAudioTrack), Some(Command::CreateTrack { ref name, is_midi: false }) if name == "Audio"));
    assert!(matches!(menu_command(MenuItem::Undo), Some(Command::Undo)));
    assert!(menu_command(MenuItem::Exit).is_none());
    assert!(menu_command(MenuItem::OpenProject).is_none());
}

#[test]
fn clip_lanes_follow_tracks() {
    let tracks = vec![track(10, "a", false), track(20, "b", false), track(20, "c", false)];
    assert_eq!(clip_lane(&tracks, 20), 1);
    assert_eq!(clip_lane(&tracks, 10), 0);
    assert_eq!(clip_lane(&tracks, 99), 0);
}
