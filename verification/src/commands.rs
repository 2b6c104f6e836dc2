//! Commands that the interface (or a script) sends to the audio core.
//!
//! A field that holds a real number in the workstation (a position in
//! beats, a tempo, a gain, a pan) holds here the IEEE-754 bit pattern of
//! that number: `u64` for double precision, `u32` for single precision.

use vstd::prelude::*;

verus! {

/// All possible commands from the interface to the audio core.
#[derive(Debug)]
#[allow(inconsistent_fields)]
pub enum Command {
    // Transport
    Play,
    Pause,
    Stop,
    ToggleRecord,
    ToggleLoop,
    SetPlayhead { beats: u64 },
    SetTempo { bpm: u64 },
    SetTimeSignature { numerator: u32, denominator: u32 },
    SetLoopRegion { start_beats: u64, end_beats: u64 },
    // Project
    NewProject,
    LoadProject { path: String },
    SaveProject { path: Option<String> },
    SetProjectName { name: String },
    // Master
    SetMasterVolume { volume: u32 },
    // Tracks
    CreateTrack { name: String, is_midi: bool },
    DeleteTrack { track_id: u32 },
    DuplicateTrack { track_id: u32 },
    RenameTrack { track_id: u32, name: String },
    SetTrackVolume { track_id: u32, volume: u32 },
    SetTrackPan { track_id: u32, pan: u32 },
    SetTrackMute { track_id: u32, muted: bool },
    SetTrackSolo { track_id: u32, soloed: bool },
    SetTrackArm { track_id: u32, armed: bool },
    SetTrackColor { track_id: u32, color: u32 },
    MoveTrack { track_id: u32, new_index: u32 },
    SelectTrack { track_id: u32, exclusive: bool },
    // Clips
    ImportAudioFile { path: String },
    CreateAudioClip { track_id: u32, path: String, start_beats: u64 },
    CreateMidiClip { track_id: u32, start_beats: u64, length_beats: u64 },
    DeleteClip { clip_id: u32 },
    MoveClip { clip_id: u32, start_beats: u64, track_id: Option<u32> },
    ResizeClip { clip_id: u32, length_beats: u64 },
    RenameClip { clip_id: u32, name: String },
    SetClipColor { clip_id: u32, color: u32 },
    SplitClip { clip_id: u32, split_beats: u64 },
    DuplicateClip { clip_id: u32 },
    SelectClip { clip_id: u32, add_to_selection: bool },
    DeselectAllClips,
    // MIDI editing
    AddMidiNote { clip_id: u32, note: u8, velocity: u8, start_beats: u64, length_beats: u64 },
    DeleteMidiNote { clip_id: u32, note_id: u32 },
    MoveMidiNote { clip_id: u32, note_id: u32, new_note: u8, new_start_beats: u64 },
    // Plugins
    RescanPlugins,
    LoadPlugin { track_id: u32, plugin_id: String, slot: Option<u32> },
    RemovePlugin { track_id: u32, slot: u32 },
    BypassPlugin { track_id: u32, slot: u32, bypass: bool },
    OpenPluginEditor { track_id: u32, slot: u32 },
    ClosePluginEditor { track_id: u32, slot: u32 },
    SetPluginParameter { track_id: u32, slot: u32, param_id: u32, value: u32 },
    // Audio settings
    OpenAudioSettings,
    SetAudioDevice { device_name: String },
    SetSampleRate { rate: u32 },
    SetBufferSize { size: u32 },
    // Scripting
    RunScript { script: String },
    LoadScriptPlugin { path: String },
    // Edit
    Undo,
    Redo,
    Cut,
    Copy,
    Paste,
    Delete,
    SelectAll,
}

/// The kind of a track to create.
#[derive(Debug, Clone, Copy, PartialEq, Eq, Structural)]
pub enum TrackType {
    Audio,
    Midi,
    Instrument,
    Bus,
    Master,
}

impl Default for TrackType {
    /// A new track is an audio track unless said otherwise.
    fn default() -> (t: Self)
        ensures
            t == TrackType::Audio,
    {
        TrackType::Audio
    }
}

} // verus!
