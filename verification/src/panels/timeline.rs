//! The timeline: lanes of clips under a ruler.

use vstd::prelude::*;

use crate::state::TrackState;

verus! {

/// The lane a clip is drawn in: the position of the first track with the
/// clip's track id, or the top lane when there is none.
pub fn clip_lane(tracks: &Vec<TrackState>, track_id: u32) -> (lane: usize)
    ensures
        (exists|j: int| 0 <= j < tracks@.len() && (#[trigger] tracks@[j]).id == track_id) ==> {
            &&& lane < tracks@.len()
            &&& tracks@[lane as int].id == track_id
            &&& forall|j: int| 0 <= j < lane ==> (#[trigger] tracks@[j]).id != track_id
        },
        (forall|j: int| 0 <= j < tracks@.len() ==> (#[trigger] tracks@[j]).id != track_id) ==> lane
            == 0,
{
    let mut i: usize = 0;
    while i < tracks.len()
        invariant
            i <= tracks@.len(),
            forall|j: int| 0 <= j < i ==> (#[trigger] tracks@[j]).id != track_id,
        decreases tracks@.len() - i,
    {
        if tracks[i].id == track_id {
            return i;
        }
        i = i + 1;
    }
    0
}

} // verus!
