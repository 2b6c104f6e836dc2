//! The project model: tracks of audio items, and the project-level
//! operations that the desktop shell offers.
//!
//! Real-valued fields hold IEEE-754 bit patterns (see the crate's doc):
//! `bpm` and gains in single precision, times in seconds in double.

use vstd::prelude::*;

use crate::text::{decimal, decimal_text};

verus! {

/// The bit pattern of the single-precision number 120.0.
pub const BITS_F32_120: u32 = 0x42F0_0000;

/// The bit pattern of the single-precision number 1.0.
pub const BITS_F32_1: u32 = 0x3F80_0000;

/// The bit pattern of the double-precision number 10.0: the length, in
/// seconds, given to an imported audio item.
pub const BITS_F64_10: u64 = 0x4024_0000_0000_0000;

/// A project.
#[derive(Debug)]
pub struct Project {
    pub name: String,
    pub bpm: u32,
    pub is_playing: bool,
    /// The playhead, in seconds.
    pub playhead_pos: u64,
    pub tracks: Vec<Track>,
}

/// A track of the project.
#[derive(Debug)]
pub struct Track {
    pub id: u32,
    pub name: String,
    /// Linear gain, 1.0 for unity.
    pub volume: u32,
    /// From -1.0 (left) to 1.0 (right).
    pub pan: u32,
    pub mute: bool,
    pub solo: bool,
    pub items: Vec<AudioItem>,
}

/// An audio item placed on a track.
#[derive(Debug)]
pub struct AudioItem {
    pub id: u32,
    /// Seconds.
    pub start_time: u64,
    /// Seconds.
    pub duration: u64,
    pub source_path: String,
    /// The start point in the source file, in seconds.
    pub start_offset: u64,
}

impl Default for Project {
    /// "New Project" at 120 BPM, stopped at the start, with no track.
    fn default() -> (p: Self)
        ensures
            p.name@ == "New Project"@,
            p.bpm == BITS_F32_120,
            !p.is_playing,
            p.playhead_pos == 0,
            p.tracks@.len() == 0,
    {
        Project {
            name: String::from_str("New Project"),
            bpm: BITS_F32_120,
            is_playing: false,
            playhead_pos: 0,
            tracks: Vec::new(),
        }
    }
}

/// Whether `t` is a fresh track with that id and name: unity gain, centred,
/// neither muted nor soloed, and empty.
pub open spec fn is_fresh_track(t: Track, id: u32, name: Seq<char>) -> bool {
    &&& t.id == id
    &&& t.name@ == name
    &&& t.volume == BITS_F32_1
    &&& t.pan == 0
    &&& !t.mute
    &&& !t.solo
    &&& t.items@.len() == 0
}

impl Track {
    /// A fresh track.
    pub fn new(id: u32, name: String) -> (t: Self)
        ensures
            is_fresh_track(t, id, name@),
    {
        Track { id, name, volume: BITS_F32_1, pan: 0, mute: false, solo: false, items: Vec::new() }
    }
}

/// Whether `i` is the first track with that id.
pub open spec fn is_first_with_id(tracks: Seq<Track>, id: u32, i: int) -> bool {
    &&& 0 <= i < tracks.len()
    &&& tracks[i].id == id
    &&& forall|j: int| 0 <= j < i ==> (#[trigger] tracks[j]).id != id
}

/// Whether `item` is an item freshly imported from `path` with that id: at
/// the start of the track, ten seconds long, played from the file's start.
pub open spec fn is_imported_item(item: AudioItem, id: u32, path: Seq<char>) -> bool {
    &&& item.id == id
    &&& item.start_time == 0
    &&& item.duration == BITS_F64_10
    &&& item.source_path@ == path
    &&& item.start_offset == 0
}

impl Project {
    /// Adds a track named "Track n", where n is the number of tracks after
    /// the addition, with id n; answers "Added Track n".
    pub fn add_track(&mut self) -> (msg: String)
        requires
            old(self).tracks@.len() < u32::MAX,
        ensures
            ({
                let n: u32 = (old(self).tracks@.len() + 1) as u32;
                &&& final(self).tracks@.len() == old(self).tracks@.len() + 1
                &&& final(self).tracks@.drop_last() == old(self).tracks@
                &&& is_fresh_track(final(self).tracks@.last(), n, "Track "@ + decimal(n as nat))
                &&& msg@ == "Added Track "@ + decimal(n as nat)
            }),
            final(self).name == old(self).name,
            final(self).bpm == old(self).bpm,
            final(self).is_playing == old(self).is_playing,
            final(self).playhead_pos == old(self).playhead_pos,
    {
        let next_id: u32 = (self.tracks.len() as u32) + 1;
        let digits = decimal_text(next_id);
        let mut name = String::from_str("Track ");
        name.append(digits.as_str());
        let ghost before = self.tracks@;
        self.tracks.push(Track::new(next_id, name));
        assert(self.tracks@.drop_last() =~= before);
        let mut msg = String::from_str("Added Track ");
        msg.append(digits.as_str());
        msg
    }

    /// Places an audio file on the first track with the given id, as an
    /// item numbered one past the track's items, and answers
    /// "Imported <path> to Track <id>"; with no such track, answers
    /// "Track not found" and changes nothing.
    pub fn import_audio_item(&mut self, track_id: u32, path: String) -> (r: Result<String, String>)
        requires
            forall|i: int|
                is_first_with_id(old(self).tracks@, track_id, i) ==> old(self).tracks@[i].items@.len()
                    < u32::MAX,
        ensures
            final(self).name == old(self).name,
            final(self).bpm == old(self).bpm,
            final(self).is_playing == old(self).is_playing,
            final(self).playhead_pos == old(self).playhead_pos,
            (forall|i: int| 0 <= i < old(self).tracks@.len() ==> (#[trigger] old(self).tracks@[i]).id
                != track_id) ==> final(self).tracks@ == old(self).tracks@ && (r matches Err(e)
                && e@ == "Track not found"@),
            forall|i: int|
                is_first_with_id(old(self).tracks@, track_id, i) ==> {
                    let before = old(self).tracks@[i];
                    let after = final(self).tracks@[i];
                    &&& final(self).tracks@.len() == old(self).tracks@.len()
                    &&& forall|j: int|
                        0 <= j < old(self).tracks@.len() && j != i ==> final(self).tracks@[j]
                            == old(self).tracks@[j]
                    &&& after.id == before.id && after.name == before.name
                    &&& after.volume == before.volume && after.pan == before.pan
                    &&& after.mute == before.mute && after.solo == before.solo
                    &&& after.items@.len() == before.items@.len() + 1
                    &&& after.items@.drop_last() == before.items@
                    &&& is_imported_item(
                        after.items@.last(),
                        (before.items@.len() + 1) as u32,
                        path@,
                    )
                    &&& r matches Ok(m) && m@ == "Imported "@ + path@ + " to Track "@ + decimal(
                        track_id as nat,
                    )
                },
    {
        let mut i: usize = 0;
        while i < self.tracks.len()
            invariant
                i <= self.tracks@.len(),
                self.tracks@ == old(self).tracks@,
                self.name == old(self).name,
                self.bpm == old(self).bpm,
                self.is_playing == old(self).is_playing,
                self.playhead_pos == old(self).playhead_pos,
                forall|j: int| 0 <= j < i ==> (#[trigger] self.tracks@[j]).id != track_id,
                forall|k: int|
                    is_first_with_id(old(self).tracks@, track_id, k) ==> old(self).tracks@[k].items@.len()
                        < u32::MAX,
            decreases self.tracks@.len() - i,
        {
            if self.tracks[i].id == track_id {
                assert(is_first_with_id(old(self).tracks@, track_id, i as int));
                let ghost before = self.tracks@;
                let mut track = self.tracks.remove(i);
                let item_id: u32 = (track.items.len() as u32) + 1;
                let ghost items_before = track.items@;
                track.items.push(
                    AudioItem {
                        id: item_id,
                        start_time: 0,
                        duration: BITS_F64_10,
                        source_path: path.clone(),
                        start_offset: 0,
                    },
                );
                assert(track.items@.drop_last() =~= items_before);
                self.tracks.insert(i, track);
                assert forall|j: int| 0 <= j < before.len() && j != i implies self.tracks@[j]
                    == before[j] by {
                    if j < i {
                    } else {
                    }
                }
                let mut msg = String::from_str("Imported ");
                msg.append(path.as_str());
                msg.append(" to Track ");
                msg.append(decimal_text(track_id).as_str());
                proof {
                    assert forall|k: int| is_first_with_id(old(self).tracks@, track_id, k) implies k
                        == i by {
                        if k < i {
                        } else if k > i {
                        }
                    }
                }
                return Ok(msg);
            }
            i = i + 1;
        }
        Err(String::from_str("Track not found"))
    }
}

} // verus!
