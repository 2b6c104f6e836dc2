//! The track list: a header per track with its name, mute, solo and arm
//! buttons, and a volume slider.

use vstd::prelude::*;

use crate::commands::Command;
use crate::state::TrackState;

verus! {

/// What the user did on a track header.
#[derive(Debug)]
pub enum TrackHeaderAction {
    /// Double-clicked the track's name.
    NameDoubleClicked,
    /// Chose "Rename" in the header's menu.
    RenameChosen,
    /// Left the name field, or pressed Enter in it.
    RenameFinished,
    MuteClicked,
    SoloClicked,
    /// Clicked the record-arm button, which MIDI tracks show.
    ArmClicked,
    /// Moved the volume slider to this gain.
    VolumeChanged { volume: u32 },
    /// Chose "Duplicate" in the header's menu.
    DuplicateChosen,
    /// Chose "Delete" in the header's menu.
    DeleteChosen,
    /// Clicked the header, holding Ctrl or not.
    HeaderClicked { ctrl_held: bool },
}

/// The state of the track list.
pub struct TrackListPanel {
    /// The track whose name is being edited.
    pub renaming_track: Option<u32>,
    /// The name being edited.
    pub rename_buffer: String,
}

impl Default for TrackListPanel {
    /// No name being edited.
    fn default() -> (p: Self)
        ensures
            p.renaming_track is None,
            p.rename_buffer@ == Seq::<char>::empty(),
    {
        TrackListPanel { renaming_track: None, rename_buffer: String::new() }
    }
}

impl TrackListPanel {
    /// Whether the name of that track is being edited.
    pub fn is_renaming(&self, track_id: u32) -> (b: bool)
        ensures
            b == (self.renaming_track == Some(track_id)),
    {
        match self.renaming_track {
            Some(id) => id == track_id,
            None => false,
        }
    }

    /// The command that an "add track" button sends: an audio track named
    /// "Audio", or a MIDI track named "MIDI".
    pub fn add_track_command(is_midi: bool) -> (cmd: Command)
        ensures
            cmd matches Command::CreateTrack { name, is_midi: m } && m == is_midi && (if is_midi {
                name@ == "MIDI"@
            } else {
                name@ == "Audio"@
            }),
    {
        let name = if is_midi {
            String::from_str("MIDI")
        } else {
            String::from_str("Audio")
        };
        Command::CreateTrack { name, is_midi }
    }

    /// What an action on the header of `track` changes and sends.
    ///
    /// Starting a rename copies the track's name into the edit buffer;
    /// finishing the rename of that track sends the buffer as its new name
    /// and ends the edit. The buttons toggle mute, solo and (on MIDI tracks)
    /// record arm; the slider sets the volume; the menu duplicates or
    /// deletes; a click selects the track, alone unless Ctrl is held.
    pub fn handle(&mut self, track: &TrackState, action: TrackHeaderAction) -> (cmd: Option<Command>)
        ensures
            match action {
                TrackHeaderAction::NameDoubleClicked | TrackHeaderAction::RenameChosen => {
                    &&& cmd is None
                    &&& final(self).renaming_track == Some(track.id)
                    &&& final(self).rename_buffer@ == track.name@
                },
                TrackHeaderAction::RenameFinished => if old(self).renaming_track == Some(track.id) {
                    &&& cmd matches Some(Command::RenameTrack { track_id, name }) && track_id
                        == track.id && name@ == old(self).rename_buffer@
                    &&& final(self).renaming_track is None
                    &&& final(self).rename_buffer == old(self).rename_buffer
                } else {
                    cmd is None && *final(self) == *old(self)
                },
                TrackHeaderAction::MuteClicked => *final(self) == *old(self) && cmd == Some(
                    Command::SetTrackMute { track_id: track.id, muted: !track.is_muted },
                ),
                TrackHeaderAction::SoloClicked => *final(self) == *old(self) && cmd == Some(
                    Command::SetTrackSolo { track_id: track.id, soloed: !track.is_soloed },
                ),
                TrackHeaderAction::ArmClicked => *final(self) == *old(self) && if track.is_midi {
                    cmd == Some(Command::SetTrackArm { track_id: track.id, armed: !track.is_armed })
                } else {
                    cmd is None
                },
                TrackHeaderAction::VolumeChanged { volume } => *final(self) == *old(self) && cmd
                    == Some(Command::SetTrackVolume { track_id: track.id, volume }),
                TrackHeaderAction::DuplicateChosen => *final(self) == *old(self) && cmd == Some(
                    Command::DuplicateTrack { track_id: track.id },
                ),
                TrackHeaderAction::DeleteChosen => *final(self) == *old(self) && cmd == Some(
                    Command::DeleteTrack { track_id: track.id },
                ),
                TrackHeaderAction::HeaderClicked { ctrl_held } => *final(self) == *old(self) && cmd
                    == Some(Command::SelectTrack { track_id: track.id, exclusive: !ctrl_held }),
            },
    {
        match action {
            TrackHeaderAction::NameDoubleClicked | TrackHeaderAction::RenameChosen => {
                self.renaming_track = Some(track.id);
                self.rename_buffer = track.name.clone();
                None
            },
            TrackHeaderAction::RenameFinished => {
                if self.is_renaming(track.id) {
                    let name = self.rename_buffer.clone();
                    self.renaming_track = None;
                    Some(Command::RenameTrack { track_id: track.id, name })
                } else {
                    None
                }
            },
            TrackHeaderAction::MuteClicked => Some(
                Command::SetTrackMute { track_id: track.id, muted: !track.is_muted },
            ),
            TrackHeaderAction::SoloClicked => Some(
                Command::SetTrackSolo { track_id: track.id, soloed: !track.is_soloed },
            ),
            TrackHeaderAction::ArmClicked => {
                if track.is_midi {
                    Some(Command::SetTrackArm { track_id: track.id, armed: !track.is_armed })
                } else {
                    None
                }
            },
            TrackHeaderAction::VolumeChanged { volume } => Some(
                Command::SetTrackVolume { track_id: track.id, volume },
            ),
            TrackHeaderAction::DuplicateChosen => Some(
                Command::DuplicateTrack { track_id: track.id },
            ),
            TrackHeaderAction::DeleteChosen => Some(Command::DeleteTrack { track_id: track.id }),
            TrackHeaderAction::HeaderClicked { ctrl_held } => Some(
                Command::SelectTrack { track_id: track.id, exclusive: !ctrl_held },
            ),
        }
    }
}

} // verus!
