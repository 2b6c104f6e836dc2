//! The engine's cache of decoded audio files, by path.
//!
//! Each file is decoded once: a path already in the cache is not loaded
//! again. Samples are held as the bit patterns of their values.

use vstd::prelude::*;

verus! {

/// Decoded samples by file path.
///
/// The cache keeps its paths and their sample lists in two vectors of the
/// same length, with each path once, rather than in a map keyed by text:
/// a search over the vectors is proved to find a path exactly when it is
/// cached, which a map keyed by `String` would leave unproved.
pub struct SampleCache {
    paths: Vec<String>,
    samples: Vec<Vec<u32>>,
    contents: Ghost<Map<Seq<char>, Seq<u32>>>,
}

impl View for SampleCache {
    type V = Map<Seq<char>, Seq<u32>>;

    /// The samples cached for each path.
    closed spec fn view(&self) -> Map<Seq<char>, Seq<u32>> {
        self.contents@
    }
}

impl SampleCache {
    /// The paths and sample lists line up, each path occurs once, and the
    /// cached map is exactly what they hold.
    #[verifier::type_invariant]
    spec fn wf(&self) -> bool {
        &&& self.paths@.len() == self.samples@.len()
        &&& forall|i: int|
            0 <= i < self.paths@.len() ==> #[trigger] self.contents@.contains_key(self.paths@[i]@)
                && self.contents@[self.paths@[i]@] == self.samples@[i]@
        &&& forall|k: Seq<char>|
            #[trigger] self.contents@.contains_key(k) ==> exists|i: int|
                0 <= i < self.paths@.len() && #[trigger] self.paths@[i]@ == k
        &&& forall|i: int, j: int|
            0 <= i < j < self.paths@.len() ==> self.paths@[i]@ != self.paths@[j]@
    }

    /// An empty cache.
    pub fn new() -> (c: Self)
        ensures
            c@ == Map::<Seq<char>, Seq<u32>>::empty(),
    {
        SampleCache { paths: Vec::new(), samples: Vec::new(), contents: Ghost(Map::empty()) }
    }

    /// Whether a file must still be loaded: its path is not cached.
    pub fn needs_load(&self, path: &String) -> (b: bool)
        ensures
            b == !self@.contains_key(path@),
    {
        proof {
            use_type_invariant(self);
        }
        match find_path(&self.paths, path) {
            Some(i) => {
                assert(self@.contains_key(self.paths@[i as int]@));
                false
            },
            None => {
                proof {
                    if self.contents@.contains_key(path@) {
                        let j = choose|j: int|
                            0 <= j < self.paths@.len() && #[trigger] self.paths@[j]@ == path@;
                        assert(self.paths@[j]@ == path@);
                    }
                }
                true
            },
        }
    }

    /// The samples cached for a path.
    pub fn get(&self, path: &String) -> (r: Option<&Vec<u32>>)
        ensures
            r is Some == self@.contains_key(path@),
            r matches Some(v) ==> v@ == self@[path@],
    {
        proof {
            use_type_invariant(self);
        }
        match find_path(&self.paths, path) {
            Some(i) => {
                assert(self@.contains_key(self.paths@[i as int]@));
                Some(&self.samples[i])
            },
            None => {
                proof {
                    if self.contents@.contains_key(path@) {
                        let j = choose|j: int|
                            0 <= j < self.paths@.len() && #[trigger] self.paths@[j]@ == path@;
                        assert(self.paths@[j]@ == path@);
                    }
                }
                None
            },
        }
    }

    /// Records the samples decoded from a path, in place of any cached
    /// before for it.
    pub fn store(&mut self, path: String, samples: Vec<u32>)
        ensures
            final(self)@ == old(self)@.insert(path@, samples@),
    {
        let mut taken = SampleCache::new();
        std::mem::swap(&mut taken, self);
        proof {
            use_type_invariant(&taken);
        }
        let ghost key = path@;
        let ghost vals = samples@;
        let ghost before = taken.contents@;
        let SampleCache { paths: mut paths, samples: mut lists, contents: _ } = taken;
        let ghost old_paths = paths@;
        let ghost old_lists = lists@;
        let ghost after = before.insert(key, vals);
        match find_path(&paths, &path) {
            Some(i) => {
                lists.set(i, samples);
                assert forall|j: int| 0 <= j < paths@.len() implies #[trigger] after.contains_key(
                    paths@[j]@,
                ) && after[paths@[j]@] == lists@[j]@ by {
                    if j != i {
                        assert(old_paths[j]@ != old_paths[i as int]@);
                        assert(before.contains_key(old_paths[j]@));
                    }
                }
                assert forall|k: Seq<char>| #[trigger] after.contains_key(k) implies exists|j: int|
                    0 <= j < paths@.len() && #[trigger] paths@[j]@ == k by {
                    if k == key {
                        assert(paths@[i as int]@ == k);
                    } else {
                        assert(before.contains_key(k));
                    }
                }
                *self = SampleCache { paths, samples: lists, contents: Ghost(after) };
            },
            None => {
                proof {
                    assert(!before.contains_key(key)) by {
                        if before.contains_key(key) {
                            let j = choose|j: int|
                                0 <= j < old_paths.len() && #[trigger] old_paths[j]@ == key;
                            assert(old_paths[j]@ == key);
                        }
                    }
                }
                paths.push(path);
                lists.push(samples);
                let ghost n = old_paths.len() as int;
                assert(paths@[n]@ == key);
                assert forall|j: int| 0 <= j < paths@.len() implies #[trigger] after.contains_key(
                    paths@[j]@,
                ) && after[paths@[j]@] == lists@[j]@ by {
                    if j < n {
                        assert(paths@[j] == old_paths[j]);
                        assert(lists@[j] == old_lists[j]);
                        assert(before.contains_key(old_paths[j]@));
                    }
                }
                assert forall|k: Seq<char>| #[trigger] after.contains_key(k) implies exists|j: int|
                    0 <= j < paths@.len() && #[trigger] paths@[j]@ == k by {
                    if k == key {
                        assert(paths@[n]@ == k);
                    } else {
                        assert(before.contains_key(k));
                        let j = choose|j: int| 0 <= j < old_paths.len() && #[trigger] old_paths[j]@ == k;
                        assert(paths@[j] == old_paths[j]);
                    }
                }
                assert forall|a: int, b: int| 0 <= a < b < paths@.len() implies paths@[a]@
                    != paths@[b]@ by {
                    assert(paths@[a] == old_paths[a]);
                    if b == n {
                        assert(before.contains_key(old_paths[a]@));
                    } else {
                        assert(paths@[b] == old_paths[b]);
                    }
                }
                *self = SampleCache { paths, samples: lists, contents: Ghost(after) };
            },
        }
    }
}

/// The position of `path` among `paths`, if it is there.
fn find_path(paths: &Vec<String>, path: &String) -> (r: Option<usize>)
    ensures
        r matches Some(i) ==> i < paths@.len() && paths@[i as int]@ == path@,
        r is None ==> forall|j: int| 0 <= j < paths@.len() ==> paths@[j]@ != path@,
{
    let mut i: usize = 0;
    while i < paths.len()
        invariant
            i <= paths@.len(),
            forall|j: int| 0 <= j < i ==> paths@[j]@ != path@,
        decreases paths@.len() - i,
    {
        if paths[i] == *path {
            return Some(i);
        }
        i = i + 1;
    }
    None
}

/// A file is loaded at most once: once its samples are stored, the cache
/// asks for it no more, and storing it again with what it holds changes
/// nothing.
pub proof fn law_load_once(cache: Map<Seq<char>, Seq<u32>>, path: Seq<char>, samples: Seq<u32>)
    ensures
        cache.insert(path, samples).contains_key(path),
        cache.insert(path, samples).insert(path, samples) == cache.insert(path, samples),
{
    assert(cache.insert(path, samples).insert(path, samples) =~= cache.insert(path, samples));
}

} // verus!
