//! The bundled assets: a mapping from a relative path to the bytes of the
//! file stored under it, filled once when the server starts and only read
//! afterwards.

use vstd::prelude::*;

verus! {

/// One bundled file: its relative path, with forward slashes and no leading
/// slash, and its contents.
struct Asset {
    path: String,
    data: Vec<u8>,
}

/// The bundled files. No path occurs twice, and a lookup matches a path only
/// letter for letter.
pub struct AssetSet {
    entries: Vec<Asset>,
}

/// Whether `entries` holds a file under `path`.
spec fn holds(entries: Seq<Asset>, path: Seq<char>) -> bool {
    exists|i: int| 0 <= i < entries.len() && #[trigger] entries[i].path@ == path
}

/// A position in `entries` of a file stored under `path`.
spec fn position_of(entries: Seq<Asset>, path: Seq<char>) -> int {
    choose|i: int| 0 <= i < entries.len() && #[trigger] entries[i].path@ == path
}

/// Whether the paths of `entries` are pairwise distinct.
spec fn distinct_paths(entries: Seq<Asset>) -> bool {
    forall|i: int, j: int|
        0 <= i < j < entries.len() ==> #[trigger] entries[i].path@ != #[trigger] entries[j].path@
}

/// Where paths are distinct, the position of a path is the one place that holds it.
proof fn lemma_position_unique(entries: Seq<Asset>, i: int)
    requires
        distinct_paths(entries),
        0 <= i < entries.len(),
    ensures
        holds(entries, entries[i].path@),
        position_of(entries, entries[i].path@) == i,
{
    let path = entries[i].path@;
    assert(entries[i].path@ == path);
    let j = position_of(entries, path);
    assert(0 <= j < entries.len() && entries[j].path@ == path);
    if j != i {
        if j < i {
            assert(entries[j].path@ != entries[i].path@);
        } else {
            assert(entries[i].path@ != entries[j].path@);
        }
    }
}

/// The map that `entries` stand for: each stored path leads to the bytes
/// stored under it.
spec fn map_of(entries: Seq<Asset>) -> Map<Seq<char>, Seq<u8>> {
    Map::new(
        |path: Seq<char>| holds(entries, path),
        |path: Seq<char>| entries[position_of(entries, path)].data@,
    )
}

/// Writing a file at the place of its path, or behind the last entry where
/// its path is new, keeps the paths distinct and stores the file in the map.
proof fn lemma_store(before: Seq<Asset>, after: Seq<Asset>, at: int, stored: Asset)
    requires
        distinct_paths(before),
        0 <= at <= before.len(),
        at < before.len() ==> before[at].path@ == stored.path@ && after == before.update(
            at,
            stored,
        ),
        at == before.len() ==> !holds(before, stored.path@) && after == before.push(stored),
    ensures
        distinct_paths(after),
        map_of(after) == map_of(before).insert(stored.path@, stored.data@),
{
    let key = stored.path@;
    let want = map_of(before).insert(key, stored.data@);
    assert(after[at].path@ == key);
    assert forall|i: int, j: int| 0 <= i < j < after.len() implies #[trigger] after[i].path@
        != #[trigger] after[j].path@ by {
        if j == before.len() {
            assert(before[i].path@ != key);
        } else {
            assert(before[i].path@ != before[j].path@);
        }
    }
    assert forall|path: Seq<char>| map_of(after).contains_key(path) == want.contains_key(
        path,
    ) by {
        if holds(after, path) && path != key {
            let i = position_of(after, path);
            assert(before[i].path@ == path);
        }
        if holds(before, path) {
            let i = position_of(before, path);
            assert(after[i].path@ == path);
        }
    }
    assert forall|path: Seq<char>| map_of(after).contains_key(path) implies map_of(after)[path]
        == want[path] by {
        let i = position_of(after, path);
        lemma_position_unique(after, i);
        if path == key {
            lemma_position_unique(after, at);
        } else {
            assert(before[i].path@ == path);
            lemma_position_unique(before, i);
        }
    }
    assert(map_of(after) =~= want);
}

impl AssetSet {
    #[verifier::type_invariant]
    spec fn well_formed(self) -> bool {
        distinct_paths(self.entries@)
    }

    /// The set as a map from each stored path to the bytes under it.
    pub closed spec fn view(&self) -> Map<Seq<char>, Seq<u8>> {
        map_of(self.entries@)
    }

    /// The empty set.
    pub fn new() -> (r: AssetSet)
        ensures
            r@ == Map::<Seq<char>, Seq<u8>>::empty(),
    {
        let r = AssetSet { entries: Vec::new() };
        assert(r@ =~= Map::<Seq<char>, Seq<u8>>::empty());
        r
    }

    /// The place of `path` among the entries, if it is stored.
    fn position(&self, path: &String) -> (r: Option<usize>)
        ensures
            match r {
                Some(i) => i < self.entries.len() && self.entries[i as int].path@ == path@,
                None => !holds(self.entries@, path@),
            },
    {
        let mut i: usize = 0;
        while i < self.entries.len()
            invariant
                i <= self.entries.len(),
                forall|j: int| 0 <= j < i ==> self.entries[j].path@ != path@,
            decreases self.entries.len() - i,
        {
            if self.entries[i].path == *path {
                return Some(i);
            }
            i += 1;
        }
        None
    }

    /// Stores `data` under `path`, in place of what was stored there before.
    pub fn insert(&mut self, path: String, data: Vec<u8>)
        ensures
            final(self)@ == old(self)@.insert(path@, data@),
    {
        proof {
            use_type_invariant(&*self);
        }
        let found = self.position(&path);
        let mut entries: Vec<Asset> = Vec::new();
        std::mem::swap(&mut entries, &mut self.entries);
        let ghost before = entries@;
        let ghost at = match found {
            Some(i) => i as int,
            None => before.len() as int,
        };
        let ghost stored = Asset { path, data };
        match found {
            Some(i) => {
                entries.set(i, Asset { path, data });
            },
            None => {
                entries.push(Asset { path, data });
            },
        }
        proof {
            lemma_store(before, entries@, at, stored);
        }
        self.entries = entries;
    }

    /// The bytes stored under exactly `path`, if any.
    pub fn get(&self, path: &str) -> (r: Option<&Vec<u8>>)
        ensures
            match r {
                Some(data) => self@.contains_key(path@) && data@ == self@[path@],
                None => !self@.contains_key(path@),
            },
    {
        proof {
            use_type_invariant(self);
        }
        let key = path.to_owned();
        match self.position(&key) {
            Some(i) => {
                proof {
                    lemma_position_unique(self.entries@, i as int);
                }
                Some(&self.entries[i].data)
            },
            None => None,
        }
    }
}

} // verus!
