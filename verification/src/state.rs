//! The state snapshot: the read-only view of the audio core that the
//! interface draws each frame.
//!
//! Real-valued fields hold IEEE-754 bit patterns (see the crate's doc).

use vstd::prelude::*;

verus! {

/// The bit pattern of the double-precision number 120.0.
pub const BITS_F64_120: u64 = 0x405E_0000_0000_0000;

/// The bit pattern of the double-precision number 8.0.
pub const BITS_F64_8: u64 = 0x4020_0000_0000_0000;

/// The bit pattern of the double-precision number 4.0.
pub const BITS_F64_4: u64 = 0x4010_0000_0000_0000;

/// The bit pattern of the single-precision number 1.0 (unity gain).
pub const BITS_F32_1: u32 = 0x3F80_0000;

/// The colour of a new track, `0xRRGGBBAA`: opaque grey.
pub const DEFAULT_TRACK_COLOR: u32 = 0xFF80_8080;

/// The colour of a new clip, `0xRRGGBBAA`.
pub const DEFAULT_CLIP_COLOR: u32 = 0xFF64_96FF;

/// The number of plugin slots on a track.
pub const PLUGIN_SLOTS: usize = 8;

/// Transport state.
#[derive(Debug, Clone, Copy, PartialEq, Eq, Structural)]
pub struct TransportState {
    pub is_playing: bool,
    pub is_recording: bool,
    pub is_looping: bool,
    pub playhead_beats: u64,
    pub playhead_seconds: u64,
    pub tempo: u64,
    pub time_sig_num: u32,
    pub time_sig_denom: u32,
    pub loop_start_beats: u64,
    pub loop_end_beats: u64,
}

/// The transport at rest: every flag off, every number zero.
pub open spec fn zero_transport() -> TransportState {
    TransportState {
        is_playing: false,
        is_recording: false,
        is_looping: false,
        playhead_beats: 0,
        playhead_seconds: 0,
        tempo: 0,
        time_sig_num: 0,
        time_sig_denom: 0,
        loop_start_beats: 0,
        loop_end_beats: 0,
    }
}

impl Default for TransportState {
    fn default() -> (t: Self)
        ensures
            t == zero_transport(),
    {
        TransportState {
            is_playing: false,
            is_recording: false,
            is_looping: false,
            playhead_beats: 0,
            playhead_seconds: 0,
            tempo: 0,
            time_sig_num: 0,
            time_sig_denom: 0,
            loop_start_beats: 0,
            loop_end_beats: 0,
        }
    }
}

/// Audio meter levels.
#[derive(Debug)]
pub struct MeterLevels {
    pub master_l: u32,
    pub master_r: u32,
    pub track_levels_l: Vec<u32>,
    pub track_levels_r: Vec<u32>,
}

/// What a [`MeterLevels`] holds.
pub struct MeterLevelsModel {
    pub master_l: u32,
    pub master_r: u32,
    pub track_levels_l: Seq<u32>,
    pub track_levels_r: Seq<u32>,
}

impl View for MeterLevels {
    type V = MeterLevelsModel;

    open spec fn view(&self) -> MeterLevelsModel {
        MeterLevelsModel {
            master_l: self.master_l,
            master_r: self.master_r,
            track_levels_l: self.track_levels_l@,
            track_levels_r: self.track_levels_r@,
        }
    }
}

impl Clone for MeterLevels {
    fn clone(&self) -> (m: Self)
        ensures
            m@ == self@,
    {
        let l = self.track_levels_l.clone();
        let r = self.track_levels_r.clone();
        assert(l@ =~= self.track_levels_l@);
        assert(r@ =~= self.track_levels_r@);
        MeterLevels {
            master_l: self.master_l,
            master_r: self.master_r,
            track_levels_l: l,
            track_levels_r: r,
        }
    }
}

impl Default for MeterLevels {
    fn default() -> (m: Self)
        ensures
            m@.master_l == 0,
            m@.master_r == 0,
            m@.track_levels_l.len() == 0,
            m@.track_levels_r.len() == 0,
    {
        MeterLevels {
            master_l: 0,
            master_r: 0,
            track_levels_l: Vec::new(),
            track_levels_r: Vec::new(),
        }
    }
}

/// The text that an optional string holds.
pub open spec fn opt_text(s: Option<String>) -> Option<Seq<char>> {
    match s {
        Some(t) => Some(t@),
        None => None,
    }
}

/// Clones an optional string.
fn clone_opt_text(s: &Option<String>) -> (c: Option<String>)
    ensures
        opt_text(c) == opt_text(*s),
{
    match s {
        Some(t) => Some(t.clone()),
        None => None,
    }
}

/// Track state, as the interface shows it.
#[derive(Debug)]
pub struct TrackState {
    pub id: u32,
    pub name: String,
    /// `0xRRGGBBAA`.
    pub color: u32,
    pub volume: u32,
    pub pan: u32,
    pub is_muted: bool,
    pub is_soloed: bool,
    pub is_armed: bool,
    pub is_midi: bool,
    pub is_selected: bool,
    pub input_name: String,
    pub output_name: String,
    /// The plugin in each slot, `None` for an empty slot.
    pub plugins: Vec<Option<String>>,
}

/// What a [`TrackState`] holds.
pub struct TrackModel {
    pub id: u32,
    pub name: Seq<char>,
    pub color: u32,
    pub volume: u32,
    pub pan: u32,
    pub is_muted: bool,
    pub is_soloed: bool,
    pub is_armed: bool,
    pub is_midi: bool,
    pub is_selected: bool,
    pub input_name: Seq<char>,
    pub output_name: Seq<char>,
    pub plugins: Seq<Option<Seq<char>>>,
}

impl View for TrackState {
    type V = TrackModel;

    open spec fn view(&self) -> TrackModel {
        TrackModel {
            id: self.id,
            name: self.name@,
            color: self.color,
            volume: self.volume,
            pan: self.pan,
            is_muted: self.is_muted,
            is_soloed: self.is_soloed,
            is_armed: self.is_armed,
            is_midi: self.is_midi,
            is_selected: self.is_selected,
            input_name: self.input_name@,
            output_name: self.output_name@,
            plugins: self.plugins@.map_values(|p: Option<String>| opt_text(p)),
        }
    }
}

impl Clone for TrackState {
    fn clone(&self) -> (t: Self)
        ensures
            t@ == self@,
    {
        let mut plugins: Vec<Option<String>> = Vec::new();
        let mut i: usize = 0;
        while i < self.plugins.len()
            invariant
                i <= self.plugins@.len(),
                plugins@.len() == i,
                forall|j: int| 0 <= j < i ==> opt_text(#[trigger] plugins@[j]) == opt_text(self.plugins@[j]),
            decreases self.plugins@.len() - i,
        {
            plugins.push(clone_opt_text(&self.plugins[i]));
            i = i + 1;
        }
        assert(plugins@.map_values(|p: Option<String>| opt_text(p)) =~= self.plugins@.map_values(
            |p: Option<String>| opt_text(p),
        ));
        TrackState {
            id: self.id,
            name: self.name.clone(),
            color: self.color,
            volume: self.volume,
            pan: self.pan,
            is_muted: self.is_muted,
            is_soloed: self.is_soloed,
            is_armed: self.is_armed,
            is_midi: self.is_midi,
            is_selected: self.is_selected,
            input_name: self.input_name.clone(),
            output_name: self.output_name.clone(),
            plugins,
        }
    }
}

impl Default for TrackState {
    /// A new track: unity gain, centred, grey, every flag off, input
    /// "No Input", output "Master", and eight empty plugin slots.
    fn default() -> (t: Self)
        ensures
            t.id == 0,
            t.name@ == Seq::<char>::empty(),
            t.color == DEFAULT_TRACK_COLOR,
            t.volume == BITS_F32_1,
            t.pan == 0,
            !t.is_muted && !t.is_soloed && !t.is_armed && !t.is_midi && !t.is_selected,
            t.input_name@ == "No Input"@,
            t.output_name@ == "Master"@,
            t.plugins@.len() == PLUGIN_SLOTS,
            forall|i: int| 0 <= i < PLUGIN_SLOTS ==> #[trigger] t.plugins@[i] is None,
    {
        let mut plugins: Vec<Option<String>> = Vec::new();
        let mut i: usize = 0;
        while i < PLUGIN_SLOTS
            invariant
                i <= PLUGIN_SLOTS,
                plugins@.len() == i,
                forall|j: int| 0 <= j < i ==> #[trigger] plugins@[j] is None,
            decreases PLUGIN_SLOTS - i,
        {
            plugins.push(None);
            i = i + 1;
        }
        TrackState {
            id: 0,
            name: String::new(),
            color: DEFAULT_TRACK_COLOR,
            volume: BITS_F32_1,
            pan: 0,
            is_muted: false,
            is_soloed: false,
            is_armed: false,
            is_midi: false,
            is_selected: false,
            input_name: String::from_str("No Input"),
            output_name: String::from_str("Master"),
            plugins,
        }
    }
}

/// An available plugin, for the browser.
#[derive(Debug)]
pub struct PluginInfo {
    pub id: String,
    pub name: String,
    pub manufacturer: String,
    /// "VST3", "AU" or "CLAP".
    pub format: String,
    pub path: String,
    pub is_instrument: bool,
}

/// What a [`PluginInfo`] holds.
pub struct PluginInfoModel {
    pub id: Seq<char>,
    pub name: Seq<char>,
    pub manufacturer: Seq<char>,
    pub format: Seq<char>,
    pub path: Seq<char>,
    pub is_instrument: bool,
}

impl View for PluginInfo {
    type V = PluginInfoModel;

    open spec fn view(&self) -> PluginInfoModel {
        PluginInfoModel {
            id: self.id@,
            name: self.name@,
            manufacturer: self.manufacturer@,
            format: self.format@,
            path: self.path@,
            is_instrument: self.is_instrument,
        }
    }
}

impl Clone for PluginInfo {
    fn clone(&self) -> (p: Self)
        ensures
            p@ == self@,
    {
        PluginInfo {
            id: self.id.clone(),
            name: self.name.clone(),
            manufacturer: self.manufacturer.clone(),
            format: self.format.clone(),
            path: self.path.clone(),
            is_instrument: self.is_instrument,
        }
    }
}

/// The state of a plugin slot.
#[derive(Debug)]
pub struct PluginSlotState {
    pub id: u32,
    pub name: String,
    pub vendor: String,
    pub is_bypassed: bool,
    pub is_loaded: bool,
    pub has_editor: bool,
}

/// What a [`PluginSlotState`] holds.
pub struct PluginSlotModel {
    pub id: u32,
    pub name: Seq<char>,
    pub vendor: Seq<char>,
    pub is_bypassed: bool,
    pub is_loaded: bool,
    pub has_editor: bool,
}

impl View for PluginSlotState {
    type V = PluginSlotModel;

    open spec fn view(&self) -> PluginSlotModel {
        PluginSlotModel {
            id: self.id,
            name: self.name@,
            vendor: self.vendor@,
            is_bypassed: self.is_bypassed,
            is_loaded: self.is_loaded,
            has_editor: self.has_editor,
        }
    }
}

impl Clone for PluginSlotState {
    fn clone(&self) -> (p: Self)
        ensures
            p@ == self@,
    {
        PluginSlotState {
            id: self.id,
            name: self.name.clone(),
            vendor: self.vendor.clone(),
            is_bypassed: self.is_bypassed,
            is_loaded: self.is_loaded,
            has_editor: self.has_editor,
        }
    }
}

/// A clip on the timeline.
#[derive(Debug)]
pub struct ClipState {
    pub id: u32,
    pub track_id: u32,
    pub start_beats: u64,
    pub length_beats: u64,
    pub offset_beats: u64,
    pub name: String,
    /// `0xRRGGBBAA`.
    pub color: u32,
    pub is_midi: bool,
    pub is_selected: bool,
}

/// What a [`ClipState`] holds.
pub struct ClipModel {
    pub id: u32,
    pub track_id: u32,
    pub start_beats: u64,
    pub length_beats: u64,
    pub offset_beats: u64,
    pub name: Seq<char>,
    pub color: u32,
    pub is_midi: bool,
    pub is_selected: bool,
}

impl View for ClipState {
    type V = ClipModel;

    open spec fn view(&self) -> ClipModel {
        ClipModel {
            id: self.id,
            track_id: self.track_id,
            start_beats: self.start_beats,
            length_beats: self.length_beats,
            offset_beats: self.offset_beats,
            name: self.name@,
            color: self.color,
            is_midi: self.is_midi,
            is_selected: self.is_selected,
        }
    }
}

impl Clone for ClipState {
    fn clone(&self) -> (c: Self)
        ensures
            c@ == self@,
    {
        ClipState {
            id: self.id,
            track_id: self.track_id,
            start_beats: self.start_beats,
            length_beats: self.length_beats,
            offset_beats: self.offset_beats,
            name: self.name.clone(),
            color: self.color,
            is_midi: self.is_midi,
            is_selected: self.is_selected,
        }
    }
}

impl Default for ClipState {
    /// A new clip: four beats long at the start of track 0, named "Clip".
    fn default() -> (c: Self)
        ensures
            c.id == 0,
            c.track_id == 0,
            c.start_beats == 0,
            c.length_beats == BITS_F64_4,
            c.offset_beats == 0,
            c.name@ == "Clip"@,
            c.color == DEFAULT_CLIP_COLOR,
            !c.is_midi && !c.is_selected,
    {
        ClipState {
            id: 0,
            track_id: 0,
            start_beats: 0,
            length_beats: BITS_F64_4,
            offset_beats: 0,
            name: String::from_str("Clip"),
            color: DEFAULT_CLIP_COLOR,
            is_midi: false,
            is_selected: false,
        }
    }
}

/// The complete state snapshot that the interface reads.
#[derive(Debug)]
pub struct StateSnapshot {
    pub transport: TransportState,
    pub meters: MeterLevels,
    pub tracks: Vec<TrackState>,
    pub clips: Vec<ClipState>,
    pub available_plugins: Vec<PluginInfo>,
    pub master_volume: u32,
    pub cpu_load: u32,
    pub sample_rate: u32,
    pub buffer_size: u32,
    pub audio_device_name: String,
    pub project_name: String,
    pub is_modified: bool,
}

/// What a [`StateSnapshot`] holds.
pub struct SnapshotModel {
    pub transport: TransportState,
    pub meters: MeterLevelsModel,
    pub tracks: Seq<TrackModel>,
    pub clips: Seq<ClipModel>,
    pub available_plugins: Seq<PluginInfoModel>,
    pub master_volume: u32,
    pub cpu_load: u32,
    pub sample_rate: u32,
    pub buffer_size: u32,
    pub audio_device_name: Seq<char>,
    pub project_name: Seq<char>,
    pub is_modified: bool,
}

impl View for StateSnapshot {
    type V = SnapshotModel;

    open spec fn view(&self) -> SnapshotModel {
        SnapshotModel {
            transport: self.transport,
            meters: self.meters@,
            tracks: self.tracks@.map_values(|t: TrackState| t@),
            clips: self.clips@.map_values(|c: ClipState| c@),
            available_plugins: self.available_plugins@.map_values(|p: PluginInfo| p@),
            master_volume: self.master_volume,
            cpu_load: self.cpu_load,
            sample_rate: self.sample_rate,
            buffer_size: self.buffer_size,
            audio_device_name: self.audio_device_name@,
            project_name: self.project_name@,
            is_modified: self.is_modified,
        }
    }
}

/// Clones a list of tracks.
fn clone_tracks(v: &Vec<TrackState>) -> (c: Vec<TrackState>)
    ensures
        c@.map_values(|t: TrackState| t@) == v@.map_values(|t: TrackState| t@),
{
    let mut out: Vec<TrackState> = Vec::new();
    let mut i: usize = 0;
    while i < v.len()
        invariant
            i <= v@.len(),
            out@.len() == i,
            forall|j: int| 0 <= j < i ==> (#[trigger] out@[j])@ == v@[j]@,
        decreases v@.len() - i,
    {
        out.push(v[i].clone());
        i = i + 1;
    }
    assert(out@.map_values(|t: TrackState| t@) =~= v@.map_values(|t: TrackState| t@));
    out
}

/// Clones a list of clips.
fn clone_clips(v: &Vec<ClipState>) -> (c: Vec<ClipState>)
    ensures
        c@.map_values(|t: ClipState| t@) == v@.map_values(|t: ClipState| t@),
{
    let mut out: Vec<ClipState> = Vec::new();
    let mut i: usize = 0;
    while i < v.len()
        invariant
            i <= v@.len(),
            out@.len() == i,
            forall|j: int| 0 <= j < i ==> (#[trigger] out@[j])@ == v@[j]@,
        decreases v@.len() - i,
    {
        out.push(v[i].clone());
        i = i + 1;
    }
    assert(out@.map_values(|t: ClipState| t@) =~= v@.map_values(|t: ClipState| t@));
    out
}

/// Clones a list of plugin descriptions.
fn clone_plugins(v: &Vec<PluginInfo>) -> (c: Vec<PluginInfo>)
    ensures
        c@.map_values(|t: PluginInfo| t@) == v@.map_values(|t: PluginInfo| t@),
{
    let mut out: Vec<PluginInfo> = Vec::new();
    let mut i: usize = 0;
    while i < v.len()
        invariant
            i <= v@.len(),
            out@.len() == i,
            forall|j: int| 0 <= j < i ==> (#[trigger] out@[j])@ == v@[j]@,
        decreases v@.len() - i,
    {
        out.push(v[i].clone());
        i = i + 1;
    }
    assert(out@.map_values(|t: PluginInfo| t@) =~= v@.map_values(|t: PluginInfo| t@));
    out
}

impl Clone for StateSnapshot {
    fn clone(&self) -> (s: Self)
        ensures
            s@ == self@,
    {
        StateSnapshot {
            transport: self.transport,
            meters: self.meters.clone(),
            tracks: clone_tracks(&self.tracks),
            clips: clone_clips(&self.clips),
            available_plugins: clone_plugins(&self.available_plugins),
            master_volume: self.master_volume,
            cpu_load: self.cpu_load,
            sample_rate: self.sample_rate,
            buffer_size: self.buffer_size,
            audio_device_name: self.audio_device_name.clone(),
            project_name: self.project_name.clone(),
            is_modified: self.is_modified,
        }
    }
}

/// The empty snapshot: transport at rest, no tracks, clips or plugins,
/// every number zero and every text empty.
pub open spec fn is_empty_snapshot(s: SnapshotModel) -> bool {
    &&& s.transport == zero_transport()
    &&& s.meters.master_l == 0 && s.meters.master_r == 0
    &&& s.meters.track_levels_l.len() == 0 && s.meters.track_levels_r.len() == 0
    &&& s.tracks.len() == 0 && s.clips.len() == 0 && s.available_plugins.len() == 0
    &&& s.master_volume == 0 && s.cpu_load == 0 && s.sample_rate == 0 && s.buffer_size == 0
    &&& s.audio_device_name.len() == 0 && s.project_name.len() == 0
    &&& !s.is_modified
}

impl Default for StateSnapshot {
    fn default() -> (s: Self)
        ensures
            is_empty_snapshot(s@),
    {
        StateSnapshot {
            transport: TransportState::default(),
            meters: MeterLevels::default(),
            tracks: Vec::new(),
            clips: Vec::new(),
            available_plugins: Vec::new(),
            master_volume: 0,
            cpu_load: 0,
            sample_rate: 0,
            buffer_size: 0,
            audio_device_name: String::new(),
            project_name: String::new(),
            is_modified: false,
        }
    }
}

impl StateSnapshot {
    /// The snapshot of a fresh session: 120 BPM in 4/4 with an eight-beat
    /// loop region, unity master gain, 44100 Hz with 512-sample buffers on
    /// the "Default" device, project "Untitled", and nothing else.
    pub fn new() -> (s: Self)
        ensures
            s.transport == (TransportState {
                tempo: BITS_F64_120,
                time_sig_num: 4,
                time_sig_denom: 4,
                loop_end_beats: BITS_F64_8,
                ..zero_transport()
            }),
            s@.meters.master_l == 0 && s@.meters.master_r == 0,
            s@.meters.track_levels_l.len() == 0 && s@.meters.track_levels_r.len() == 0,
            s@.tracks.len() == 0 && s@.clips.len() == 0 && s@.available_plugins.len() == 0,
            s.master_volume == BITS_F32_1,
            s.cpu_load == 0,
            s.sample_rate == 44100,
            s.buffer_size == 512,
            s.audio_device_name@ == "Default"@,
            s.project_name@ == "Untitled"@,
            !s.is_modified,
    {
        let mut transport = TransportState::default();
        transport.tempo = BITS_F64_120;
        transport.time_sig_num = 4;
        transport.time_sig_denom = 4;
        transport.loop_end_beats = BITS_F64_8;
        StateSnapshot {
            transport,
            meters: MeterLevels::default(),
            tracks: Vec::new(),
            clips: Vec::new(),
            available_plugins: Vec::new(),
            master_volume: BITS_F32_1,
            cpu_load: 0,
            sample_rate: 44100,
            buffer_size: 512,
            audio_device_name: String::from_str("Default"),
            project_name: String::from_str("Untitled"),
            is_modified: false,
        }
    }
}

} // verus!
