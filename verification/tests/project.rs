use rysyn::project::{Project, Track};

#[test]
fn project_defaults() {
    let p = Project::default();
    assert_eq!(p.name, "New Project");
    assert_eq!(f32::from_bits(p.bpm), 120.0);
    assert!(!p.is_playing);
    assert_eq!(f64::from_bits(p.playhead_pos), 0.0);
    assert!(p.tracks.is_empty());
}

#[test]
fn track_new_is_fresh() {
    let t = Track::new(3, "Bass".to_string());
    assert_eq!(t.id, 3);
    assert_eq!(t.name, "Bass");
    assert_eq!(f32::from_bits(t.volume), 1.0);
    assert_eq!(f32::from_bits(t.pan), 0.0);
    assert!(!t.mute && !t.solo);
    assert!(t.items.is_empty());
}

#[test]
fn add_track_numbers_tracks() {
    let mut p = Project::default();
    assert_eq!(p.add_track(), "Added Track 1");
    assert_eq!(p.add_track(), "Added Track 2");
    assert_eq!(p.tracks.len(), 2);
    assert_eq!(p.tracks[1].id, 2);
    assert_eq!(p.tracks[1].name, "Track 2");
    for _ in 0..9 {
        p.add_track();
    }
    assert_eq!(p.tracks[10].name, "Track 11");
}

#[test]
fn import_places_item_on_track() {
    let mut p = Project::default();
    p.add_track();
    p.add_track();
    let r = p.import_audio_item(2, "/a/kick.wav".to_string());
    assert_eq!(r, Ok("Imported /a/kick.wav to Track 2".to_string()));
    let r = p.import_audio_item(2, "/a/snare.wav".to_string());
    assert!(r.is_ok());
    let items = &p.tracks[1].items;
    assert_eq!(items.len(), 2);
    assert_eq!(items[0].id, 1);
    assert_eq!(items[1].id, 2);
    assert_eq!(items[1].source_path, "/a/snare.wav");
    assert_eq!(f64::from_bits(items[1].duration), 10.0);
    assert_eq!(f64::from_bits(items[1].start_time), 0.0);
    assert_eq!(f64::from_bits(items[1].start_offset), 0.0);
    assert!(p.tracks[0].items.is_empty());
}

#[test]
fn import_to_missing_track_fails() {
    let mut p = Project::default();
    p.add_track();
    assert_eq!(p.import_audio_item(9, "x.wav".to_string()), Err("Track not found".to_string()));
    assert!(p.tracks[0].items.is_empty());
}

#[test]
fn track_numbers_are_written_in_full() {
    let mut p = Project::default();
    p.tracks.push(Track::new(4294967295, "Last".to_string()));
    p.tracks.push(Track::new(1000, "Round".to_string()));
    p.tracks.push(Track::new(0, "Zero".to_string()));
    assert_eq!(
        p.import_audio_item(4294967295, "x.wav".to_string()),
        Ok("Imported x.wav to Track 4294967295".to_string())
    );
    assert_eq!(p.import_audio_item(1000, "y.wav".to_string()), Ok("Imported y.wav to Track 1000".to_string()));
    assert_eq!(p.import_audio_item(0, "z.wav".to_string()), Ok("Imported z.wav to Track 0".to_string()));
}
