//! The menu bar of the main window.

use vstd::prelude::*;

use crate::commands::Command;

verus! {

/// A menu entry.
#[derive(Debug, Clone, Copy, PartialEq, Eq, Structural)]
pub enum MenuItem {
    NewProject,
    OpenProject,
    SaveProject,
    Exit,
    Undo,
    Redo,
    AddAudioTrack,
    AddMidiTrack,
    AddInstrumentTrack,
    About,
}

/// Whether `cmd` creates a track with that name and kind.
pub open spec fn creates_track(cmd: Option<Command>, name: Seq<char>, is_midi: bool) -> bool {
    cmd matches Some(Command::CreateTrack { name: n, is_midi: m }) && n@ == name && m == is_midi
}

/// The command a menu entry sends to the audio core. Opening a project,
/// exiting and the about box send none: the window handles them.
pub fn menu_command(item: MenuItem) -> (cmd: Option<Command>)
    ensures
        item == MenuItem::NewProject ==> cmd == Some(Command::NewProject),
        item == MenuItem::SaveProject ==> cmd == Some(Command::SaveProject { path: None }),
        item == MenuItem::Undo ==> cmd == Some(Command::Undo),
        item == MenuItem::Redo ==> cmd == Some(Command::Redo),
        item == MenuItem::AddAudioTrack ==> creates_track(cmd, "Audio"@, false),
        item == MenuItem::AddMidiTrack ==> creates_track(cmd, "MIDI"@, true),
        item == MenuItem::AddInstrumentTrack ==> creates_track(cmd, "Instrument"@, true),
        item == MenuItem::OpenProject || item == MenuItem::Exit || item == MenuItem::About ==> cmd
            is None,
{
    match item {
        MenuItem::NewProject => Some(Command::NewProject),
        MenuItem::SaveProject => Some(Command::SaveProject { path: None }),
        MenuItem::Undo => Some(Command::Undo),
        MenuItem::Redo => Some(Command::Redo),
        MenuItem::AddAudioTrack => Some(
            Command::CreateTrack { name: String::from_str("Audio"), is_midi: false },
        ),
        MenuItem::AddMidiTrack => Some(
            Command::CreateTrack { name: String::from_str("MIDI"), is_midi: true },
        ),
        MenuItem::AddInstrumentTrack => Some(
            Command::CreateTrack { name: String::from_str("Instrument"), is_midi: true },
        ),
        MenuItem::OpenProject | MenuItem::Exit | MenuItem::About => None,
    }
}

} // verus!
