//! The mixer: a channel strip per track and the master channel.

use vstd::prelude::*;

use crate::commands::Command;
use crate::state::{BITS_F32_1, TrackState};

verus! {

/// What the user did on a track's channel strip.
#[derive(Debug)]
pub enum ChannelAction {
    MuteClicked,
    SoloClicked,
    /// Clicked the record-arm button, which MIDI tracks show.
    ArmClicked,
    /// Moved the pan slider to this pan.
    PanChanged { pan: u32 },
    /// Moved the fader to this gain.
    VolumeChanged { volume: u32 },
    /// Double-clicked the fader.
    FaderReset,
}

/// What the user did on the master channel.
#[derive(Debug)]
pub enum MasterAction {
    /// Moved the master fader to this gain.
    VolumeChanged { volume: u32 },
    /// Double-clicked the master fader.
    FaderReset,
}

/// The mixer panel.
pub struct MixerPanel;

impl Default for MixerPanel {
    fn default() -> (p: Self) {
        MixerPanel
    }
}

impl MixerPanel {
    /// The command an action on the strip of `track` sends: the buttons
    /// toggle mute, solo and (on MIDI tracks) record arm; the slider and the
    /// fader set pan and volume; a double click resets the volume to unity.
    pub fn channel_command(&self, track: &TrackState, action: ChannelAction) -> (cmd: Option<
        Command,
    >)
        ensures
            match action {
                ChannelAction::MuteClicked => cmd == Some(
                    Command::SetTrackMute { track_id: track.id, muted: !track.is_muted },
                ),
                ChannelAction::SoloClicked => cmd == Some(
                    Command::SetTrackSolo { track_id: track.id, soloed: !track.is_soloed },
                ),
                ChannelAction::ArmClicked => if track.is_midi {
                    cmd == Some(Command::SetTrackArm { track_id: track.id, armed: !track.is_armed })
                } else {
                    cmd is None
                },
                ChannelAction::PanChanged { pan } => cmd == Some(
                    Command::SetTrackPan { track_id: track.id, pan },
                ),
                ChannelAction::VolumeChanged { volume } => cmd == Some(
                    Command::SetTrackVolume { track_id: track.id, volume },
                ),
                ChannelAction::FaderReset => cmd == Some(
                    Command::SetTrackVolume { track_id: track.id, volume: BITS_F32_1 },
                ),
            },
    {
        match action {
            ChannelAction::MuteClicked => Some(
                Command::SetTrackMute { track_id: track.id, muted: !track.is_muted },
            ),
            ChannelAction::SoloClicked => Some(
                Command::SetTrackSolo { track_id: track.id, soloed: !track.is_soloed },
            ),
            ChannelAction::ArmClicked => {
                if track.is_midi {
                    Some(Command::SetTrackArm { track_id: track.id, armed: !track.is_armed })
                } else {
                    None
                }
            },
            ChannelAction::PanChanged { pan } => Some(Command::SetTrackPan { track_id: track.id, pan }),
            ChannelAction::VolumeChanged { volume } => Some(
                Command::SetTrackVolume { track_id: track.id, volume },
            ),
            ChannelAction::FaderReset => Some(
                Command::SetTrackVolume { track_id: track.id, volume: BITS_F32_1 },
            ),
        }
    }

    /// The command an action on the master channel sends.
    pub fn master_command(&self, action: MasterAction) -> (cmd: Command)
        ensures
            match action {
                MasterAction::VolumeChanged { volume } => cmd == Command::SetMasterVolume { volume },
                MasterAction::FaderReset => cmd == Command::SetMasterVolume { volume: BITS_F32_1 },
            },
    {
        match action {
            MasterAction::VolumeChanged { volume } => Command::SetMasterVolume { volume },
            MasterAction::FaderReset => Command::SetMasterVolume { volume: BITS_F32_1 },
        }
    }

    /// The meter level of a track: the level at the track's id in the
    /// per-track levels, or silence (0.0) when there is none there.
    pub fn meter_level(&self, levels: &Vec<u32>, track_id: u32) -> (level: u32)
        ensures
            level == (if (track_id as int) < levels@.len() {
                levels@[track_id as int]
            } else {
                0
            }),
    {
        let i: usize = track_id as usize;
        if i < levels.len() {
            levels[i]
        } else {
            0
        }
    }
}

} // verus!
