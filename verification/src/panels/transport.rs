//! The transport bar: play, pause, stop, record, loop and tempo.

use vstd::prelude::*;

use crate::commands::Command;
use crate::state::TransportState;

verus! {

/// A transport button that the user clicked.
#[derive(Debug, Clone, Copy, PartialEq, Eq, Structural)]
pub enum TransportAction {
    ReturnToStart,
    Stop,
    PlayPause,
    Record,
    Loop,
}

/// The state of the transport bar.
pub struct TransportPanel {
    /// The tempo being edited, as typed.
    pub bpm_edit: Option<String>,
}

impl Default for TransportPanel {
    /// No tempo being edited.
    fn default() -> (p: Self)
        ensures
            p.bpm_edit is None,
    {
        TransportPanel { bpm_edit: None }
    }
}

impl TransportPanel {
    /// The command a transport button sends: return to the start puts the
    /// playhead at beat 0; play/pause pauses while playing and plays
    /// otherwise; the others stop, toggle recording and toggle the loop.
    pub fn button_command(&self, transport: &TransportState, action: TransportAction) -> (cmd:
        Command)
        ensures
            cmd == match action {
                TransportAction::ReturnToStart => Command::SetPlayhead { beats: 0 },
                TransportAction::Stop => Command::Stop,
                TransportAction::PlayPause => if transport.is_playing {
                    Command::Pause
                } else {
                    Command::Play
                },
                TransportAction::Record => Command::ToggleRecord,
                TransportAction::Loop => Command::ToggleLoop,
            },
    {
        match action {
            TransportAction::ReturnToStart => Command::SetPlayhead { beats: 0 },
            TransportAction::Stop => Command::Stop,
            TransportAction::PlayPause => {
                if transport.is_playing {
                    Command::Pause
                } else {
                    Command::Play
                }
            },
            TransportAction::Record => Command::ToggleRecord,
            TransportAction::Loop => Command::ToggleLoop,
        }
    }

    /// The text in the tempo field: the text being edited, or else the
    /// current tempo as shown.
    pub fn tempo_text(&self, shown: &String) -> (text: String)
        ensures
            text@ == (match self.bpm_edit {
                Some(t) => t@,
                None => shown@,
            }),
    {
        match &self.bpm_edit {
            Some(t) => t.clone(),
            None => shown.clone(),
        }
    }

    /// Records the text typed in the tempo field.
    pub fn edit_tempo(&mut self, text: String)
        ensures
            final(self).bpm_edit == Some(text),
    {
        self.bpm_edit = Some(text);
    }

    /// Ends the edit of the tempo field: the tempo typed is sent when the
    /// text read as a number (`parsed`), and the field shows the current
    /// tempo again.
    pub fn commit_tempo(&mut self, parsed: Option<u64>) -> (cmd: Option<Command>)
        ensures
            final(self).bpm_edit is None,
            cmd == match parsed {
                Some(bpm) => Some(Command::SetTempo { bpm }),
                None => None,
            },
    {
        self.bpm_edit = None;
        match parsed {
            Some(bpm) => Some(Command::SetTempo { bpm }),
            None => None,
        }
    }
}

} // verus!
