use std::path::PathBuf;
use rysyn::commands::Command;
use rysyn::panels::browser::{
    entry_kind, format_label, is_audio_extension, is_audio_file, listing_order, load_plugin_command,
    BrowserPanel, BrowserTab, EntryKey, EntryKind,
};
use rysyn::state::{PluginInfo, StateSnapshot, TrackState};

fn plugin(id: &str, name: &str, format: &str) -> PluginInfo {
    PluginInfo {
        id: id.to_string(),
        name: name.to_string(),
        manufacturer: "M".to_string(),
        format: format.to_string(),
        path: "/plugins".to_string(),
        is_instrument: false,
    }
}

#[test]
fn audio_files_by_extension() {
    assert!(is_audio_file("song.wav"));
    assert!(is_audio_file("/music/Take 2.FLAC"));
    assert!(is_audio_file("loop.Mp3"));
    assert!(is_audio_file("a.aif"));
    assert!(!is_audio_file("notes.txt"));
    assert!(!is_audio_file("wav"));
    assert!(!is_audio_file(".ogg"));
    assert!(!is_audio_file(""));
    assert!(is_audio_extension("M4A"));
    assert!(is_audio_extension("aiff"));
    assert!(!is_audio_extension("wave"));
}

#[test]
fn browser_defaults() {
    let p = BrowserPanel::default();
    assert_eq!(p.current_tab, BrowserTab::Files);
    assert_eq!(BrowserTab::default(), BrowserTab::Files);
    assert!(p.selected_item.is_none());
    assert_eq!(p.search_query, "");
}

#[test]
fn search_filters_case_insensitively() {
    let mut p = BrowserPanel::default();
    assert!(p.file_listed("readme.txt", false, false));
    p.search_query = "KiCk".to_string();
    assert!(p.file_listed("Big kick.wav", false, true));
    assert!(p.file_listed("KICKS", true, false));
    assert!(!p.file_listed("kick.txt", false, false));
    assert!(!p.file_listed("snare.wav", false, true));
    assert!(p.plugin_listed(&plugin("x", "KickGen", "VST3")));
    assert!(!p.plugin_listed(&plugin("y", "Reverb", "VST3")));
}

#[test]
fn entry_kinds() {
    assert_eq!(entry_kind(true, true), EntryKind::Directory);
    assert_eq!(entry_kind(false, true), EntryKind::AudioFile);
    assert_eq!(entry_kind(false, false), EntryKind::OtherFile);
}

#[test]
fn plugin_format_labels() {
    assert_eq!(format_label(&"VST3".to_string()), "VST3");
    assert_eq!(format_label(&"AU".to_string()), "AU");
    assert_eq!(format_label(&"CLAP".to_string()), "CLAP");
    assert_eq!(format_label(&"LV2".to_string()), "?");
}

#[test]
fn selection_and_double_click() {
    let mut p = BrowserPanel::default();
    p.select("a.wav".to_string());
    assert!(p.is_selected(&"a.wav".to_string()));
    assert!(!p.is_selected(&"b.wav".to_string()));
    let cmd = p.open_entry(PathBuf::from("/m/a.wav"), "/m/a.wav".to_string(), false, true);
    assert!(matches!(cmd, Some(Command::ImportAudioFile { ref path }) if path == "/m/a.wav"));
    assert!(p.is_selected(&"a.wav".to_string()));
    assert!(p.open_entry(PathBuf::from("/m/doc.txt"), "/m/doc.txt".to_string(), false, false).is_none());
    assert_eq!(p.current_path, PathBuf::new());
    let cmd = p.open_entry(PathBuf::from("/m/sub"), "/m/sub".to_string(), true, false);
    assert!(cmd.is_none());
    assert_eq!(p.current_path, PathBuf::from("/m/sub"));
    assert!(p.selected_item.is_none());
}

#[test]
fn plugin_loads_on_first_track() {
    let mut state = StateSnapshot::new();
    let cmd = load_plugin_command(&state, &plugin("id7", "Synth", "CLAP"));
    assert!(matches!(cmd, Command::LoadPlugin { track_id: 0, ref plugin_id, slot: None } if plugin_id == "id7"));
    let mut t = TrackState::default();
    t.id = 42;
    state.tracks.push(t);
    let mut t2 = TrackState::default();
    t2.id = 5;
    state.tracks.push(t2);
    let cmd = load_plugin_command(&state, &plugin("id8", "Synth", "CLAP"));
    assert!(matches!(cmd, Command::LoadPlugin { track_id: 42, .. }));
}

#[test]
fn listing_puts_directories_first_then_names() {
    let keys = vec![
        EntryKey { is_dir: false, name: b"zeta.wav".to_vec() },
        EntryKey { is_dir: true, name: b"samples".to_vec() },
        EntryKey { is_dir: false, name: b"alpha.wav".to_vec() },
        EntryKey { is_dir: true, name: b"Drums".to_vec() },
        EntryKey { is_dir: false, name: b"alpha".to_vec() },
    ];
    assert_eq!(listing_order(&keys), vec![3, 1, 4, 2, 0]);
    assert_eq!(listing_order(&Vec::new()), Vec::<usize>::new());
}

#[test]
fn listing_is_stable_for_equal_keys() {
    let keys = vec![
        EntryKey { is_dir: false, name: b"b".to_vec() },
        EntryKey { is_dir: false, name: b"a".to_vec() },
        EntryKey { is_dir: false, name: b"b".to_vec() },
    ];
    assert_eq!(listing_order(&keys), vec![1, 0, 2]);
}

#[test]
fn audio_file_is_judged_by_its_final_name() {
    assert!(!is_audio_file("takes.wav/notes"));
    assert!(is_audio_file("takes/notes.ogg"));
    assert!(!is_audio_file("dir/.wav"));
    assert!(!is_audio_file("song.wav."));
}

#[test]
fn search_finds_runs_anywhere_in_the_name() {
    let mut p = BrowserPanel::default();
    p.search_query = "wav".to_string();
    assert!(p.matches("a.wav"));
    assert!(p.matches("wave"));
    assert!(!p.matches("wa"));
    assert!(!p.matches("w a v"));
    p.search_query = "über".to_string();
    assert!(p.matches("ÜBERSCHALL.flac"));
    assert!(!p.matches("uber.flac"));
    p.search_query = "aab".to_string();
    assert!(p.matches("aaab"));
}

#[test]
fn audio_files_with_colons_backslashes_and_capitals() {
    assert!(is_audio_file("/audio/10:30 take.wav"));
    assert!(is_audio_file("music\\song.wav"));
    assert!(is_audio_file("a/Song.WAV"));
    assert!(is_audio_file("x.tar.flac"));
    assert!(!is_audio_file("x.txt"));
    assert!(!is_audio_file("take 10:30"));
}

#[test]
fn audio_files_on_drives_and_with_trailing_slashes() {
    assert!(is_audio_file("C:\\music\\a.wav"));
    assert!(is_audio_file("D:/takes/b.FLAC"));
    assert!(!is_audio_file("C:\\music\\notes.txt"));
    assert!(is_audio_file("dir/a.wav/"));
    assert!(!is_audio_file("dir/readme/"));
}
