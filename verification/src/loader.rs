//! The decisions of the audio-file loader.
//!
//! Loading a file alternates reading packets from the container, decoding
//! them, and deciding what to do next. The reading and the decoding stay
//! with the caller; the decisions are here, one function per event.

use vstd::prelude::*;

verus! {

/// What reading the next packet gave.
#[derive(Debug)]
pub enum PacketEvent {
    /// A packet of the track with this id.
    Packet { track_id: u32 },
    /// The stream ended (an input/output error).
    EndOfStream,
    /// The track list changed; the decoder must be made anew.
    ResetRequired,
    /// Any other error, with its text.
    Failed(String),
}

/// What decoding a packet gave.
#[derive(Debug)]
pub enum DecodeEvent {
    /// Samples were decoded: their bit patterns, interleaved.
    Decoded(Vec<u32>),
    /// The stream ended (an input/output error).
    EndOfStream,
    /// The packet was malformed.
    Malformed,
    /// Any other error, with its text.
    Failed(String),
}

/// What the loader does next.
#[derive(Debug)]
pub enum LoaderStep {
    /// Decode the packet just read.
    Decode,
    /// The decoded samples were appended; read on.
    Append,
    /// Drop what was read and read on.
    Skip,
    /// Stop: the samples gathered so far are the result.
    Finish,
    /// Make a new decoder for the first playable track, then read on.
    Reset,
    /// Stop with this error.
    Fail(String),
}

/// Loads audio files into memory.
pub struct AudioLoader;

/// Whether `i` is the first track that has a codec.
pub open spec fn is_first_playable(has_codec: Seq<bool>, i: int) -> bool {
    &&& 0 <= i < has_codec.len()
    &&& has_codec[i]
    &&& forall|j: int| 0 <= j < i ==> !(#[trigger] has_codec[j])
}

/// The track chosen for decoding is the first playable one: it has a
/// codec, and no track before it has one.
pub proof fn law_first_playable(has_codec: Seq<bool>, i: int, j: int)
    requires
        is_first_playable(has_codec, i),
        0 <= j < has_codec.len(),
        has_codec[j],
    ensures
        0 <= i < has_codec.len(),
        has_codec[i],
        i <= j,
{
    if j < i {
        assert(!has_codec[j]);
    }
}

impl AudioLoader {
    /// The first track, by position, that has a codec.
    pub fn first_playable_track(has_codec: &Vec<bool>) -> (r: Option<usize>)
        ensures
            r matches Some(i) ==> is_first_playable(has_codec@, i as int),
            r is None <==> forall|j: int| 0 <= j < has_codec@.len() ==> !(#[trigger] has_codec@[j]),
    {
        let mut i: usize = 0;
        while i < has_codec.len()
            invariant
                i <= has_codec@.len(),
                forall|j: int| 0 <= j < i ==> !(#[trigger] has_codec@[j]),
            decreases has_codec@.len() - i,
        {
            if has_codec[i] {
                return Some(i);
            }
            i = i + 1;
        }
        None
    }

    /// The track to decode when a file is opened: the first playable one,
    /// or the error "no supported audio tracks".
    pub fn select_track(has_codec: &Vec<bool>) -> (r: Result<usize, String>)
        ensures
            r matches Ok(i) ==> is_first_playable(has_codec@, i as int),
            r is Err <==> forall|j: int| 0 <= j < has_codec@.len() ==> !(#[trigger] has_codec@[j]),
            r matches Err(e) ==> e@ == "no supported audio tracks"@,
    {
        match Self::first_playable_track(has_codec) {
            Some(i) => Ok(i),
            None => Err(String::from_str("no supported audio tracks")),
        }
    }

    /// The track to decode after the track list changed: the first
    /// playable one, or the error "No valid audio track found after reset".
    pub fn reselect_track(has_codec: &Vec<bool>) -> (r: Result<usize, String>)
        ensures
            r matches Ok(i) ==> is_first_playable(has_codec@, i as int),
            r is Err <==> forall|j: int| 0 <= j < has_codec@.len() ==> !(#[trigger] has_codec@[j]),
            r matches Err(e) ==> e@ == "No valid audio track found after reset"@,
    {
        match Self::first_playable_track(has_codec) {
            Some(i) => Ok(i),
            None => Err(String::from_str("No valid audio track found after reset")),
        }
    }

    /// The error when no decoder can be made anew after a reset, from the
    /// reason the codec registry gave.
    pub fn recreate_failure(reason: &str) -> (e: String)
        ensures
            e@ == "Failed to recreate decoder: "@ + reason@,
    {
        let mut e = String::from_str("Failed to recreate decoder: ");
        e.append(reason);
        e
    }

    /// What follows reading a packet, while decoding the track `selected`:
    /// its packets are decoded and others skipped; the end of the stream
    /// finishes; a reset request resets; any other error fails with its text.
    pub fn after_packet(selected: u32, event: PacketEvent) -> (step: LoaderStep)
        ensures
            match event {
                PacketEvent::Packet { track_id } => if track_id == selected {
                    step is Decode
                } else {
                    step is Skip
                },
                PacketEvent::EndOfStream => step is Finish,
                PacketEvent::ResetRequired => step is Reset,
                PacketEvent::Failed(msg) => step == LoaderStep::Fail(msg),
            },
    {
        match event {
            PacketEvent::Packet { track_id } => {
                if track_id == selected {
                    LoaderStep::Decode
                } else {
                    LoaderStep::Skip
                }
            },
            PacketEvent::EndOfStream => LoaderStep::Finish,
            PacketEvent::ResetRequired => LoaderStep::Reset,
            PacketEvent::Failed(msg) => LoaderStep::Fail(msg),
        }
    }

    /// What follows decoding a packet: decoded samples are appended to
    /// `samples`; the end of the stream finishes; a malformed packet is
    /// skipped; any other error fails with its text. Only decoded samples
    /// change `samples`.
    pub fn after_decode(samples: &mut Vec<u32>, event: DecodeEvent) -> (step: LoaderStep)
        ensures
            match event {
                DecodeEvent::Decoded(decoded) => step is Append && final(samples)@ == old(
                    samples,
                )@ + decoded@,
                DecodeEvent::EndOfStream => step is Finish && final(samples)@ == old(samples)@,
                DecodeEvent::Malformed => step is Skip && final(samples)@ == old(samples)@,
                DecodeEvent::Failed(msg) => step == LoaderStep::Fail(msg) && final(samples)@
                    == old(samples)@,
            },
    {
        match event {
            DecodeEvent::Decoded(decoded) => {
                let mut decoded = decoded;
                samples.append(&mut decoded);
                LoaderStep::Append
            },
            DecodeEvent::EndOfStream => LoaderStep::Finish,
            DecodeEvent::Malformed => LoaderStep::Skip,
            DecodeEvent::Failed(msg) => LoaderStep::Fail(msg),
        }
    }
}

} // verus!
