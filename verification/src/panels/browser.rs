//! The browser panel: audio files on disk and available plugins.

use vstd::prelude::*;

use std::path::PathBuf;

use crate::commands::Command;
use crate::state::{PluginInfo, StateSnapshot};
use crate::text::{
    follows_dot, final_name, has_infix, begins_alike, is_proper_name, trim_end_slashes, last_segment, lower_text,
    name_extension,
    path_extension, text_contains, to_lowercase,
};

verus! {

/// Whether a lowercase extension is one of the audio formats the
/// workstation imports: wav, mp3, flac, aiff, aif, ogg, m4a.
pub open spec fn is_listed_audio(ext: Seq<char>) -> bool {
    ||| ext == "wav"@
    ||| ext == "mp3"@
    ||| ext == "flac"@
    ||| ext == "aiff"@
    ||| ext == "aif"@
    ||| ext == "ogg"@
    ||| ext == "m4a"@
}

/// The audio formats are exactly seven: wav, mp3, flac, aiff, aif, ogg
/// and m4a. Any other lowercase extension (jpg, txt, ...) is no audio.
pub proof fn law_audio_formats(ext: Seq<char>)
    ensures
        is_listed_audio(ext) <==> set![
            "wav"@,
            "mp3"@,
            "flac"@,
            "aiff"@,
            "aif"@,
            "ogg"@,
            "m4a"@,
        ].contains(ext),
{
}

/// Whether a file extension names an audio format, whatever its case.
pub fn is_audio_extension(ext: &str) -> (b: bool)
    ensures
        b == is_listed_audio(lower_text(ext@)),
{
    let lower = to_lowercase(ext);
    lower == String::from_str("wav") || lower == String::from_str("mp3") || lower
        == String::from_str("flac") || lower == String::from_str("aiff") || lower
        == String::from_str("aif") || lower == String::from_str("ogg") || lower
        == String::from_str("m4a")
}

/// Whether a path names an audio file: its extension, in any case, is one
/// of the audio formats. A path with no extension is no audio file.
pub fn is_audio_file(path: &str) -> (b: bool)
    ensures
        b ==> exists|e: Seq<char>| follows_dot(path@, e) && #[trigger] is_listed_audio(
            lower_text(e),
        ),
        ({
            let q = trim_end_slashes(path@);
            begins_alike(q) && is_proper_name(final_name(q)) ==> match name_extension(
                final_name(q),
            ) {
                Some(x) => b == is_listed_audio(lower_text(x)),
                None => !last_segment(q).contains('\\') ==> !b,
            }
        }),
{
    match path_extension(path) {
        Some(ext) => {
            let b: bool = is_audio_extension(ext.as_str());
            assert(b ==> follows_dot(path@, ext@) && is_listed_audio(lower_text(ext@)));
            b
        },
        None => false,
    }
}

/// The tabs of the browser.
#[derive(Debug, Clone, Copy, PartialEq, Eq, Structural)]
pub enum BrowserTab {
    Files,
    Plugins,
    Presets,
}

impl Default for BrowserTab {
    fn default() -> (t: Self)
        ensures
            t == BrowserTab::Files,
    {
        BrowserTab::Files
    }
}

/// What a listed file is, which decides its icon and its double-click.
#[derive(Debug, Clone, Copy, PartialEq, Eq, Structural)]
pub enum EntryKind {
    Directory,
    AudioFile,
    OtherFile,
}

/// The kind of a listed entry: a directory before anything else.
pub fn entry_kind(is_dir: bool, is_audio: bool) -> (k: EntryKind)
    ensures
        k == (if is_dir {
            EntryKind::Directory
        } else if is_audio {
            EntryKind::AudioFile
        } else {
            EntryKind::OtherFile
        }),
{
    if is_dir {
        EntryKind::Directory
    } else if is_audio {
        EntryKind::AudioFile
    } else {
        EntryKind::OtherFile
    }
}

/// Whether a name matches a search: the search is empty, or its lowercase
/// form occurs in the name's lowercase form.
pub open spec fn matches_search(name: Seq<char>, query: Seq<char>) -> bool {
    query.len() == 0 || has_infix(lower_text(name), lower_text(query))
}

/// A search finds every run of the name: a non-empty query matches a name
/// exactly when the query's lowercase form occurs, at some position and
/// without a gap, in the whole of the name's lowercase form.
pub proof fn law_search_matches_runs(name: Seq<char>, query: Seq<char>)
    requires
        query.len() > 0,
    ensures
        matches_search(name, query) <==> exists|i: int|
            0 <= i && i + lower_text(query).len() <= lower_text(name).len() && #[trigger] lower_text(
                name,
            ).subrange(i, i + lower_text(query).len()) == lower_text(query),
{
}

/// A query found at position `i` of the lowercase name, however far along
/// the name, makes the name match.
pub proof fn law_search_finds_any_position(name: Seq<char>, query: Seq<char>, i: int)
    requires
        query.len() > 0,
        0 <= i,
        i + lower_text(query).len() <= lower_text(name).len(),
        lower_text(name).subrange(i, i + lower_text(query).len()) == lower_text(query),
    ensures
        matches_search(name, query),
{
}

/// The label of a plugin format: "VST3", "AU" or "CLAP" as given, and "?"
/// for any other.
pub open spec fn format_label_text(format: Seq<char>) -> Seq<char> {
    if format == "VST3"@ {
        "VST3"@
    } else if format == "AU"@ {
        "AU"@
    } else if format == "CLAP"@ {
        "CLAP"@
    } else {
        "?"@
    }
}

/// A plugin's format is shown as given when it is one of the three known
/// formats, VST3, AU and CLAP, and as `?` otherwise.
pub proof fn law_format_label(format: Seq<char>)
    ensures
        set!["VST3"@, "AU"@, "CLAP"@].contains(format) ==> format_label_text(format) == format,
        !set!["VST3"@, "AU"@, "CLAP"@].contains(format) ==> format_label_text(format) == "?"@,
{
}

/// The label shown for a plugin format.
pub fn format_label(format: &String) -> (label: String)
    ensures
        label@ == format_label_text(format@),
{
    if *format == String::from_str("VST3") {
        String::from_str("VST3")
    } else if *format == String::from_str("AU") {
        String::from_str("AU")
    } else if *format == String::from_str("CLAP") {
        String::from_str("CLAP")
    } else {
        String::from_str("?")
    }
}

/// A file-system path, carried through as the platform gives it.
#[verifier::external_type_specification]
#[verifier::external_body]
pub struct ExPathBuf(std::path::PathBuf);

/// `PathBuf::new`: an empty path. Nothing is stated of the value, which
/// the library only carries.
pub assume_specification[ std::path::PathBuf::new ]() -> PathBuf;

/// The state of the browser panel.
pub struct BrowserPanel {
    pub current_tab: BrowserTab,
    /// The directory listed in the files tab, as the platform names it.
    pub current_path: PathBuf,
    pub search_query: String,
    /// The name of the selected file, or the id of the selected plugin.
    pub selected_item: Option<String>,
}

impl Default for BrowserPanel {
    /// The files tab, the empty path, no search and no selection.
    fn default() -> (p: Self)
        ensures
            p.current_tab == BrowserTab::Files,
            p.search_query@ == Seq::<char>::empty(),
            p.selected_item is None,
    {
        BrowserPanel {
            current_tab: BrowserTab::Files,
            current_path: PathBuf::new(),
            search_query: String::new(),
            selected_item: None,
        }
    }
}

impl BrowserPanel {
    /// Whether a name matches the panel's search.
    pub fn matches(&self, name: &str) -> (b: bool)
        ensures
            b == matches_search(name@, self.search_query@),
    {
        if self.search_query.as_str().is_empty() {
            true
        } else {
            let lower_name = to_lowercase(name);
            let lower_query = to_lowercase(self.search_query.as_str());
            text_contains(lower_name.as_str(), lower_query.as_str())
        }
    }

    /// Whether the files tab lists an entry: it matches the search, and
    /// while a search is given only directories and audio files are listed.
    pub fn file_listed(&self, name: &str, is_dir: bool, is_audio: bool) -> (b: bool)
        ensures
            b == (matches_search(name@, self.search_query@) && (self.search_query@.len() == 0
                || is_dir || is_audio)),
    {
        self.matches(name) && (self.search_query.as_str().is_empty() || is_dir || is_audio)
    }

    /// Whether the plugins tab lists a plugin: its name matches the search.
    pub fn plugin_listed(&self, plugin: &PluginInfo) -> (b: bool)
        ensures
            b == matches_search(plugin.name@, self.search_query@),
    {
        self.matches(plugin.name.as_str())
    }

    /// Whether the item of that name (or plugin id) is the selected one.
    pub fn is_selected(&self, item: &String) -> (b: bool)
        ensures
            b == (self.selected_item matches Some(s) && s@ == item@),
    {
        match &self.selected_item {
            Some(s) => *s == *item,
            None => false,
        }
    }

    /// A click on an entry or a plugin selects it.
    pub fn select(&mut self, item: String)
        ensures
            final(self).selected_item == Some(item),
            final(self).current_tab == old(self).current_tab,
            final(self).current_path == old(self).current_path,
            final(self).search_query == old(self).search_query,
    {
        self.selected_item = Some(item);
    }

    /// A double click on a file entry: a directory is entered, with the
    /// selection cleared; an audio file is imported, the command carrying
    /// the path as text (`path_text`); any other file is left.
    pub fn open_entry(&mut self, path: PathBuf, path_text: String, is_dir: bool, is_audio: bool) -> (cmd:
        Option<Command>)
        ensures
            final(self).current_tab == old(self).current_tab,
            final(self).search_query == old(self).search_query,
            is_dir ==> cmd is None && final(self).current_path == path
                && final(self).selected_item is None,
            !is_dir ==> final(self).current_path == old(self).current_path
                && final(self).selected_item == old(self).selected_item,
            !is_dir && is_audio ==> cmd == Some(Command::ImportAudioFile { path: path_text }),
            !is_dir && !is_audio ==> cmd is None,
    {
        if is_dir {
            self.current_path = path;
            self.selected_item = None;
            None
        } else if is_audio {
            Some(Command::ImportAudioFile { path: path_text })
        } else {
            None
        }
    }
}

/// The track that a plugin is loaded on from the browser: the first track,
/// or track 0 when there is none.
pub open spec fn first_track_id(state: StateSnapshot) -> u32 {
    if state.tracks@.len() > 0 {
        state.tracks@[0].id
    } else {
        0
    }
}

/// A plugin loaded from the browser goes on the track at position 0 of the
/// snapshot's list, whatever the ids of the others; with no track, on
/// track 0.
pub proof fn law_plugin_on_first_track(state: StateSnapshot)
    ensures
        state.tracks@.len() > 0 ==> first_track_id(state) == state.tracks@[0].id,
        state.tracks@.len() == 0 ==> first_track_id(state) == 0,
{
}

/// A double click on a plugin loads it, into the first free slot, on the
/// first track.
pub fn load_plugin_command(state: &StateSnapshot, plugin: &PluginInfo) -> (cmd: Command)
    ensures
        cmd matches Command::LoadPlugin { track_id, plugin_id, slot } && track_id
            == first_track_id(*state) && plugin_id@ == plugin.id@ && slot is None,
        state.tracks@.len() > 0 ==> (cmd matches Command::LoadPlugin { track_id, .. } && track_id
            == state.tracks@[0].id),
        state.tracks@.len() == 0 ==> (cmd matches Command::LoadPlugin { track_id, .. } && track_id
            == 0),
{
    let track_id: u32 = if state.tracks.len() > 0 {
        state.tracks[0].id
    } else {
        0
    };
    Command::LoadPlugin { track_id, plugin_id: plugin.id.clone(), slot: None }
}

/// What orders a directory listing: whether the entry is a directory, and
/// the bytes of its file name.
pub struct EntryKey {
    pub is_dir: bool,
    pub name: Vec<u8>,
}

/// Byte-wise lexicographic order, as file names compare.
pub open spec fn bytes_lt(a: Seq<u8>, b: Seq<u8>) -> bool
    decreases a.len(),
{
    if b.len() == 0 {
        false
    } else if a.len() == 0 {
        true
    } else if a[0] != b[0] {
        a[0] < b[0]
    } else {
        bytes_lt(a.drop_first(), b.drop_first())
    }
}

/// The order of a listing: directories first, then by file name.
pub open spec fn listed_before(a: (bool, Seq<u8>), b: (bool, Seq<u8>)) -> bool {
    (a.0 && !b.0) || (a.0 == b.0 && bytes_lt(a.1, b.1))
}

/// The key of entry `i`.
pub open spec fn key_of(keys: Seq<EntryKey>, i: int) -> (bool, Seq<u8>) {
    (keys[i].is_dir, keys[i].name@)
}

/// No name comes before itself.
pub proof fn lemma_bytes_lt_irreflexive(a: Seq<u8>)
    ensures
        !bytes_lt(a, a),
    decreases a.len(),
{
    if a.len() > 0 {
        lemma_bytes_lt_irreflexive(a.drop_first());
    }
}

/// Byte-wise order is transitive.
pub proof fn lemma_bytes_lt_transitive(a: Seq<u8>, b: Seq<u8>, c: Seq<u8>)
    requires
        bytes_lt(a, b),
        bytes_lt(b, c),
    ensures
        bytes_lt(a, c),
    decreases a.len(),
{
    if a.len() > 0 && b.len() > 0 && c.len() > 0 && a[0] == b[0] && b[0] == c[0] {
        lemma_bytes_lt_transitive(a.drop_first(), b.drop_first(), c.drop_first());
    }
}

/// Of two different names, one comes before the other.
pub proof fn lemma_bytes_lt_total(a: Seq<u8>, b: Seq<u8>)
    requires
        a != b,
    ensures
        bytes_lt(a, b) || bytes_lt(b, a),
    decreases a.len(),
{
    if a.len() > 0 && b.len() > 0 && a[0] == b[0] {
        if a.drop_first() == b.drop_first() {
            assert(a =~= seq![a[0]] + a.drop_first());
            assert(b =~= seq![b[0]] + b.drop_first());
        }
        lemma_bytes_lt_total(a.drop_first(), b.drop_first());
    } else if a.len() == 0 && b.len() == 0 {
        assert(a =~= b);
    }
}

/// The listing order is a strict order: irreflexive and transitive.
pub proof fn law_listing_order(a: (bool, Seq<u8>), b: (bool, Seq<u8>), c: (bool, Seq<u8>))
    ensures
        !listed_before(a, a),
        listed_before(a, b) && listed_before(b, c) ==> listed_before(a, c),
        a != b ==> listed_before(a, b) || listed_before(b, a),
{
    lemma_bytes_lt_irreflexive(a.1);
    if listed_before(a, b) && listed_before(b, c) && a.0 == b.0 && b.0 == c.0 {
        lemma_bytes_lt_transitive(a.1, b.1, c.1);
    }
    if a != b && a.0 == b.0 {
        lemma_bytes_lt_total(a.1, b.1);
    }
}

/// Whether name `a` comes before name `b`, byte by byte.
fn name_before(a: &Vec<u8>, b: &Vec<u8>) -> (r: bool)
    ensures
        r == bytes_lt(a@, b@),
{
    let mut i: usize = 0;
    assert(a@.skip(0) =~= a@);
    assert(b@.skip(0) =~= b@);
    while i < a.len() && i < b.len() && a[i] == b[i]
        invariant
            i <= a@.len(),
            i <= b@.len(),
            bytes_lt(a@, b@) == bytes_lt(a@.skip(i as int), b@.skip(i as int)),
        decreases a@.len() - i,
    {
        assert(a@.skip(i as int).drop_first() =~= a@.skip(i + 1));
        assert(b@.skip(i as int).drop_first() =~= b@.skip(i + 1));
        i = i + 1;
    }
    if i < b.len() && i < a.len() {
        a[i] < b[i]
    } else {
        i < b.len()
    }
}

/// Whether entry `a` is listed before entry `b`.
fn entry_before(a: &EntryKey, b: &EntryKey) -> (r: bool)
    ensures
        r == listed_before((a.is_dir, a.name@), (b.is_dir, b.name@)),
{
    (a.is_dir && !b.is_dir) || (a.is_dir == b.is_dir && name_before(&a.name, &b.name))
}

/// `order` lists each of the `n` entries exactly once.
pub open spec fn is_permutation_of(order: Seq<usize>, n: int) -> bool {
    &&& order.len() == n
    &&& forall|i: int| 0 <= i < n ==> #[trigger] order[i] < n
    &&& forall|i: int, j: int| 0 <= i < j < n ==> order[i] != order[j]
}

/// `order` lists the entries in listing order, and entries with equal keys
/// in their original order.
pub open spec fn is_listing(keys: Seq<EntryKey>, order: Seq<usize>) -> bool {
    &&& forall|i: int, j: int|
        0 <= i < j < order.len() ==> !listed_before(
            key_of(keys, order[j] as int),
            key_of(keys, order[i] as int),
        )
    &&& forall|i: int, j: int|
        0 <= i < j < order.len() && key_of(keys, order[i] as int) == key_of(keys, order[j] as int)
            ==> order[i] < order[j]
}

/// Where each element of a sequence stands after inserting `v` at `p`.
proof fn lemma_insert_index(s: Seq<usize>, p: int, v: usize)
    requires
        0 <= p <= s.len(),
    ensures
        forall|i: int|
            0 <= i < s.len() + 1 ==> #[trigger] s.insert(p, v)[i] == if i < p {
                s[i]
            } else if i == p {
                v
            } else {
                s[i - 1]
            },
{
}

/// The order in which the files tab lists a directory: directories first,
/// then by file name; a stable sort of the entries.
pub fn listing_order(keys: &Vec<EntryKey>) -> (order: Vec<usize>)
    ensures
        is_permutation_of(order@, keys@.len() as int),
        is_listing(keys@, order@),
{
    let mut order: Vec<usize> = Vec::new();
    let mut k: usize = 0;
    while k < keys.len()
        invariant
            k <= keys@.len(),
            order@.len() == k,
            forall|i: int| 0 <= i < k ==> #[trigger] order@[i] < k,
            forall|i: int, j: int| 0 <= i < j < k ==> order@[i] != order@[j],
            is_listing(keys@, order@),
        decreases keys@.len() - k,
    {
        let mut p: usize = 0;
        while p < order.len() && !entry_before(&keys[k], &keys[order[p]])
            invariant
                p <= order@.len(),
                order@.len() == k,
                k < keys@.len(),
                forall|i: int| 0 <= i < k ==> #[trigger] order@[i] < k,
                forall|q: int|
                    0 <= q < p ==> !listed_before(
                        key_of(keys@, k as int),
                        #[trigger] key_of(keys@, order@[q] as int),
                    ),
            decreases order@.len() - p,
        {
            p = p + 1;
        }
        let ghost old_order = order@;
        let ghost key_k = key_of(keys@, k as int);
        proof {
            assert forall|r: int| p <= r < old_order.len() implies !listed_before(
                #[trigger] key_of(keys@, old_order[r] as int),
                key_k,
            ) && key_of(keys@, old_order[r] as int) != key_k by {
                law_listing_order(
                    key_of(keys@, old_order[r] as int),
                    key_k,
                    key_of(keys@, old_order[p as int] as int),
                );
            }
        }
        order.insert(p, k);
        proof {
            lemma_insert_index(old_order, p as int, k);
        }
        k = k + 1;
    }
    order
}

} // verus!
