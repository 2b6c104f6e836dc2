//! Per-track oscillator phases of the built-in synthesiser.
//!
//! A phase is a single-precision number, held as its bit pattern.

use vstd::prelude::*;
use std::collections::HashMap;

verus! {

broadcast use vstd::std_specs::hash::group_hash_axioms;

/// The phase of each track's oscillator, by track id.
pub struct GlobalSynthState {
    phases: HashMap<u32, u32>,
}

impl GlobalSynthState {
    /// The phases recorded so far, by track id.
    pub closed spec fn phases(&self) -> Map<u32, u32> {
        self.phases@
    }

    /// No phase recorded.
    pub fn new() -> (s: Self)
        ensures
            s.phases() == Map::<u32, u32>::empty(),
    {
        GlobalSynthState { phases: HashMap::new() }
    }

    /// The phase of a track: the one last recorded for it, or 0.0 (bit
    /// pattern 0) when none was.
    pub fn get_phase(&self, track_id: u32) -> (phase: u32)
        ensures
            phase == (if self.phases().contains_key(track_id) {
                self.phases()[track_id]
            } else {
                0
            }),
    {
        match self.phases.get(&track_id) {
            Some(p) => *p,
            None => 0,
        }
    }

    /// Records the phase of a track.
    pub fn set_phase(&mut self, track_id: u32, phase: u32)
        ensures
            final(self).phases() == old(self).phases().insert(track_id, phase),
    {
        self.phases.insert(track_id, phase);
    }
}

/// The phase read back for a track is the one last recorded for it, and
/// recording a track's phase leaves every other track's phase as it was.
pub proof fn law_phase_read_after_write(phases: Map<u32, u32>, track_id: u32, phase: u32, other: u32)
    requires
        other != track_id,
    ensures
        phases.insert(track_id, phase).contains_key(track_id),
        phases.insert(track_id, phase)[track_id] == phase,
        phases.insert(track_id, phase).contains_key(other) == phases.contains_key(other),
        phases.contains_key(other) ==> phases.insert(track_id, phase)[other] == phases[other],
{
}

} // verus!
