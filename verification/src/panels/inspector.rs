//! The inspector: the properties of the selected clip, or else of the
//! selected track, or else of the project.

use vstd::prelude::*;

use crate::color::{pack_rgb, packed_rgb};
use crate::commands::Command;
use crate::state::{ClipState, StateSnapshot, TrackState};

verus! {

/// What the inspector shows.
#[derive(Debug, Clone, Copy, PartialEq, Eq, Structural)]
pub enum InspectorTarget {
    /// The clip at this position in the snapshot's clips.
    Clip(usize),
    /// The track at this position in the snapshot's tracks.
    Track(usize),
    /// The project.
    Project,
}

/// What the user did in the track inspector.
#[derive(Debug)]
pub enum TrackEdit {
    Renamed { name: String },
    VolumeChanged { volume: u32 },
    PanChanged { pan: u32 },
    MuteSet { muted: bool },
    SoloSet { soloed: bool },
    /// Set record arm, which MIDI tracks show.
    ArmSet { armed: bool },
    ColorPicked { r: u8, g: u8, b: u8 },
    /// Clicked the remove button of a plugin slot.
    PluginRemoved { slot: u32 },
    /// Clicked the editor button of a plugin slot.
    PluginEditorOpened { slot: u32 },
}

/// What the user did in the clip inspector.
#[derive(Debug)]
pub enum ClipEdit {
    Renamed { name: String },
    Moved { start_beats: u64 },
    Resized { length_beats: u64 },
    ColorPicked { r: u8, g: u8, b: u8 },
    Duplicated,
    Deleted,
}

/// What the user did in the project inspector.
#[derive(Debug)]
pub enum ProjectEdit {
    Renamed { name: String },
    TempoChanged { bpm: u64 },
    TimeSignatureChanged { numerator: u32, denominator: u32 },
    AudioSettingsOpened,
}

/// Whether `i` is the first selected clip.
pub open spec fn is_first_selected_clip(clips: Seq<ClipState>, i: int) -> bool {
    &&& 0 <= i < clips.len()
    &&& clips[i].is_selected
    &&& forall|j: int| 0 <= j < i ==> !(#[trigger] clips[j]).is_selected
}

/// Whether `i` is the first selected track.
pub open spec fn is_first_selected_track(tracks: Seq<TrackState>, i: int) -> bool {
    &&& 0 <= i < tracks.len()
    &&& tracks[i].is_selected
    &&& forall|j: int| 0 <= j < i ==> !(#[trigger] tracks[j]).is_selected
}

/// Whether `i` is the first track with that id.
pub open spec fn is_first_track_with_id(tracks: Seq<TrackState>, id: u32, i: int) -> bool {
    &&& 0 <= i < tracks.len()
    &&& tracks[i].id == id
    &&& forall|j: int| 0 <= j < i ==> (#[trigger] tracks[j]).id != id
}

/// The inspector shows the selected clip that comes first: the clip shown
/// is selected, and no selected clip comes before it.
pub proof fn law_first_selected_clip(clips: Seq<ClipState>, i: int, j: int)
    requires
        is_first_selected_clip(clips, i),
        0 <= j < clips.len(),
        clips[j].is_selected,
    ensures
        0 <= i < clips.len(),
        clips[i].is_selected,
        i <= j,
{
    if j < i {
        assert(!clips[j].is_selected);
    }
}

/// With no clip selected, the inspector shows the selected track that comes
/// first: it is selected, and no selected track comes before it.
pub proof fn law_first_selected_track(tracks: Seq<TrackState>, i: int, j: int)
    requires
        is_first_selected_track(tracks, i),
        0 <= j < tracks.len(),
        tracks[j].is_selected,
    ensures
        0 <= i < tracks.len(),
        tracks[i].is_selected,
        i <= j,
{
    if j < i {
        assert(!tracks[j].is_selected);
    }
}

/// The track a clip is shown on is the first in the list with the clip's
/// track id: it has that id, and so does no track before it.
pub proof fn law_first_track_with_id(tracks: Seq<TrackState>, id: u32, i: int, j: int)
    requires
        is_first_track_with_id(tracks, id, i),
        0 <= j < tracks.len(),
        tracks[j].id == id,
    ensures
        0 <= i < tracks.len(),
        tracks[i].id == id,
        i <= j,
{
    if j < i {
        assert(tracks[j].id != id);
    }
}

/// The state of the inspector.
pub struct InspectorPanel {
    /// A name being edited.
    pub edit_name: String,
}

impl Default for InspectorPanel {
    fn default() -> (p: Self)
        ensures
            p.edit_name@ == Seq::<char>::empty(),
    {
        InspectorPanel { edit_name: String::new() }
    }
}

/// The first selected clip.
fn first_selected_clip(clips: &Vec<ClipState>) -> (r: Option<usize>)
    ensures
        r matches Some(i) ==> is_first_selected_clip(clips@, i as int),
        r is None ==> forall|j: int| 0 <= j < clips@.len() ==> !(#[trigger] clips@[j]).is_selected,
{
    let mut i: usize = 0;
    while i < clips.len()
        invariant
            i <= clips@.len(),
            forall|j: int| 0 <= j < i ==> !(#[trigger] clips@[j]).is_selected,
        decreases clips@.len() - i,
    {
        if clips[i].is_selected {
            return Some(i);
        }
        i = i + 1;
    }
    None
}

/// The first selected track.
fn first_selected_track(tracks: &Vec<TrackState>) -> (r: Option<usize>)
    ensures
        r matches Some(i) ==> is_first_selected_track(tracks@, i as int),
        r is None ==> forall|j: int| 0 <= j < tracks@.len() ==> !(#[trigger] tracks@[j]).is_selected,
{
    let mut i: usize = 0;
    while i < tracks.len()
        invariant
            i <= tracks@.len(),
            forall|j: int| 0 <= j < i ==> !(#[trigger] tracks@[j]).is_selected,
        decreases tracks@.len() - i,
    {
        if tracks[i].is_selected {
            return Some(i);
        }
        i = i + 1;
    }
    None
}

impl InspectorPanel {
    /// What the inspector shows: the first selected clip if any clip is
    /// selected, else the first selected track if any, else the project.
    pub fn target(&self, state: &StateSnapshot) -> (t: InspectorTarget)
        ensures
            t matches InspectorTarget::Clip(i) ==> is_first_selected_clip(state.clips@, i as int),
            t matches InspectorTarget::Track(i) ==> is_first_selected_track(state.tracks@, i as int)
                && forall|j: int| 0 <= j < state.clips@.len() ==> !(#[trigger] state.clips@[j]).is_selected,
            t is Project ==> (forall|j: int|
                0 <= j < state.clips@.len() ==> !(#[trigger] state.clips@[j]).is_selected) && (forall|
                j: int,
            |
                0 <= j < state.tracks@.len() ==> !(#[trigger] state.tracks@[j]).is_selected),
    {
        match first_selected_clip(&state.clips) {
            Some(i) => InspectorTarget::Clip(i),
            None => match first_selected_track(&state.tracks) {
                Some(i) => InspectorTarget::Track(i),
                None => InspectorTarget::Project,
            },
        }
    }

    /// The command an edit in the inspector of `track` sends. Arm is only
    /// offered on MIDI tracks; a picked colour is stored as `0xRRGGBBFF`.
    pub fn track_command(&self, track: &TrackState, edit: TrackEdit) -> (cmd: Option<Command>)
        ensures
            match edit {
                TrackEdit::Renamed { name } => cmd == Some(
                    Command::RenameTrack { track_id: track.id, name },
                ),
                TrackEdit::VolumeChanged { volume } => cmd == Some(
                    Command::SetTrackVolume { track_id: track.id, volume },
                ),
                TrackEdit::PanChanged { pan } => cmd == Some(
                    Command::SetTrackPan { track_id: track.id, pan },
                ),
                TrackEdit::MuteSet { muted } => cmd == Some(
                    Command::SetTrackMute { track_id: track.id, muted },
                ),
                TrackEdit::SoloSet { soloed } => cmd == Some(
                    Command::SetTrackSolo { track_id: track.id, soloed },
                ),
                TrackEdit::ArmSet { armed } => if track.is_midi {
                    cmd == Some(Command::SetTrackArm { track_id: track.id, armed })
                } else {
                    cmd is None
                },
                TrackEdit::ColorPicked { r, g, b } => cmd matches Some(
                    Command::SetTrackColor { track_id, color },
                ) && track_id == track.id && color == packed_rgb(r, g, b),
                TrackEdit::PluginRemoved { slot } => cmd == Some(
                    Command::RemovePlugin { track_id: track.id, slot },
                ),
                TrackEdit::PluginEditorOpened { slot } => cmd == Some(
                    Command::OpenPluginEditor { track_id: track.id, slot },
                ),
            },
    {
        match edit {
            TrackEdit::Renamed { name } => Some(Command::RenameTrack { track_id: track.id, name }),
            TrackEdit::VolumeChanged { volume } => Some(
                Command::SetTrackVolume { track_id: track.id, volume },
            ),
            TrackEdit::PanChanged { pan } => Some(Command::SetTrackPan { track_id: track.id, pan }),
            TrackEdit::MuteSet { muted } => Some(Command::SetTrackMute { track_id: track.id, muted }),
            TrackEdit::SoloSet { soloed } => Some(
                Command::SetTrackSolo { track_id: track.id, soloed },
            ),
            TrackEdit::ArmSet { armed } => {
                if track.is_midi {
                    Some(Command::SetTrackArm { track_id: track.id, armed })
                } else {
                    None
                }
            },
            TrackEdit::ColorPicked { r, g, b } => Some(
                Command::SetTrackColor { track_id: track.id, color: pack_rgb(r, g, b) },
            ),
            TrackEdit::PluginRemoved { slot } => Some(
                Command::RemovePlugin { track_id: track.id, slot },
            ),
            TrackEdit::PluginEditorOpened { slot } => Some(
                Command::OpenPluginEditor { track_id: track.id, slot },
            ),
        }
    }

    /// The command an edit in the inspector of `clip` sends. Moving keeps
    /// the clip on its track; a picked colour is stored as `0xRRGGBBFF`.
    pub fn clip_command(&self, clip: &ClipState, edit: ClipEdit) -> (cmd: Command)
        ensures
            match edit {
                ClipEdit::Renamed { name } => cmd == Command::RenameClip { clip_id: clip.id, name },
                ClipEdit::Moved { start_beats } => cmd == Command::MoveClip {
                    clip_id: clip.id,
                    start_beats,
                    track_id: None,
                },
                ClipEdit::Resized { length_beats } => cmd == Command::ResizeClip {
                    clip_id: clip.id,
                    length_beats,
                },
                ClipEdit::ColorPicked { r, g, b } => cmd matches Command::SetClipColor {
                    clip_id,
                    color,
                } && clip_id == clip.id && color == packed_rgb(r, g, b),
                ClipEdit::Duplicated => cmd == Command::DuplicateClip { clip_id: clip.id },
                ClipEdit::Deleted => cmd == Command::DeleteClip { clip_id: clip.id },
            },
    {
        match edit {
            ClipEdit::Renamed { name } => Command::RenameClip { clip_id: clip.id, name },
            ClipEdit::Moved { start_beats } => Command::MoveClip {
                clip_id: clip.id,
                start_beats,
                track_id: None,
            },
            ClipEdit::Resized { length_beats } => Command::ResizeClip {
                clip_id: clip.id,
                length_beats,
            },
            ClipEdit::ColorPicked { r, g, b } => Command::SetClipColor {
                clip_id: clip.id,
                color: pack_rgb(r, g, b),
            },
            ClipEdit::Duplicated => Command::DuplicateClip { clip_id: clip.id },
            ClipEdit::Deleted => Command::DeleteClip { clip_id: clip.id },
        }
    }

    /// The command an edit in the project inspector sends.
    pub fn project_command(&self, edit: ProjectEdit) -> (cmd: Command)
        ensures
            cmd == match edit {
                ProjectEdit::Renamed { name } => Command::SetProjectName { name },
                ProjectEdit::TempoChanged { bpm } => Command::SetTempo { bpm },
                ProjectEdit::TimeSignatureChanged { numerator, denominator } => Command::SetTimeSignature {
                    numerator,
                    denominator,
                },
                ProjectEdit::AudioSettingsOpened => Command::OpenAudioSettings,
            },
    {
        match edit {
            ProjectEdit::Renamed { name } => Command::SetProjectName { name },
            ProjectEdit::TempoChanged { bpm } => Command::SetTempo { bpm },
            ProjectEdit::TimeSignatureChanged { numerator, denominator } => Command::SetTimeSignature {
                numerator,
                denominator,
            },
            ProjectEdit::AudioSettingsOpened => Command::OpenAudioSettings,
        }
    }

    /// The name of the track a clip is on: that of the first track with the
    /// clip's track id, or "Unknown" when there is none.
    pub fn clip_track_name(&self, state: &StateSnapshot, clip: &ClipState) -> (name: String)
        ensures
            forall|i: int| is_first_track_with_id(state.tracks@, clip.track_id, i) ==> name@
                == state.tracks@[i].name@,
            (forall|j: int|
                0 <= j < state.tracks@.len() ==> (#[trigger] state.tracks@[j]).id != clip.track_id)
                ==> name@ == "Unknown"@,
    {
        let mut i: usize = 0;
        while i < state.tracks.len()
            invariant
                i <= state.tracks@.len(),
                forall|j: int| 0 <= j < i ==> (#[trigger] state.tracks@[j]).id != clip.track_id,
            decreases state.tracks@.len() - i,
        {
            if state.tracks[i].id == clip.track_id {
                proof {
                    assert forall|k: int|
                        is_first_track_with_id(state.tracks@, clip.track_id, k) implies k == i by {
                        if k < i {
                        } else if k > i {
                            assert(state.tracks@[i as int].id == clip.track_id);
                        }
                    }
                }
                return state.tracks[i].name.clone();
            }
            i = i + 1;
        }
        String::from_str("Unknown")
    }
}

} // verus!
