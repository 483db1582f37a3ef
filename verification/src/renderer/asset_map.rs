//! A map from asset paths to asset records.

use vstd::prelude::*;

verus! {

/// Asset records by path. No path occurs twice; the order in which assets
/// were added plays no part.
pub struct AssetMap<T> {
    keys: Vec<String>,
    values: Vec<T>,
}

impl<T> View for AssetMap<T> {
    type V = Map<Seq<char>, T>;

    /// The records by path.
    closed spec fn view(&self) -> Map<Seq<char>, T> {
        Map::new(
            |path: Seq<char>| self.position(path) is Some,
            |path: Seq<char>| self.values@[self.position(path).unwrap()],
        )
    }
}

impl<T> AssetMap<T> {
    /// Where `path` is kept, if it is.
    closed spec fn position(&self, path: Seq<char>) -> Option<int> {
        if exists|i: int| 0 <= i < self.keys@.len() && (#[trigger] self.keys@[i])@ == path {
            Some(choose|i: int| 0 <= i < self.keys@.len() && (#[trigger] self.keys@[i])@ == path)
        } else {
            None
        }
    }

    /// Every path has its record, and no path occurs twice.
    pub closed spec fn wf(&self) -> bool {
        &&& self.keys@.len() == self.values@.len()
        &&& forall|i: int, j: int|
            0 <= i < j < self.keys@.len() ==> (#[trigger] self.keys@[i])@ != (
            #[trigger] self.keys@[j])@
    }

    proof fn lemma_position(&self, i: int)
        requires
            self.wf(),
            0 <= i < self.keys@.len(),
        ensures
            self.position(self.keys@[i]@) == Some(i),
            self@.contains_key(self.keys@[i]@),
            self@[self.keys@[i]@] == self.values@[i],
    {
        let path = self.keys@[i]@;
        let found = choose|k: int| 0 <= k < self.keys@.len() && (#[trigger] self.keys@[k])@ == path;
        assert(found == i);
    }

    proof fn lemma_absent(&self, path: Seq<char>)
        requires
            forall|i: int| 0 <= i < self.keys@.len() ==> (#[trigger] self.keys@[i])@ != path,
        ensures
            !self@.contains_key(path),
    {
    }

    /// A map with no asset in it.
    pub fn new() -> (map: Self)
        ensures
            map.wf(),
            map@ == Map::<Seq<char>, T>::empty(),
    {
        let map = AssetMap { keys: Vec::new(), values: Vec::new() };
        assert(map@ =~= Map::<Seq<char>, T>::empty());
        map
    }

    /// Whether an asset is kept under `path`.
    pub fn contains_key(&self, path: &String) -> (found: bool)
        requires
            self.wf(),
        ensures
            found == self@.contains_key(path@),
    {
        self.get(path).is_some()
    }

    /// The asset kept under `path`, if there is one.
    pub fn get(&self, path: &String) -> (found: Option<&T>)
        requires
            self.wf(),
        ensures
            match found {
                Some(asset) => self@.contains_key(path@) && *asset == self@[path@],
                None => !self@.contains_key(path@),
            },
    {
        let mut i: usize = 0;
        while i < self.keys.len()
            invariant
                self.wf(),
                i <= self.keys@.len(),
                forall|k: int| 0 <= k < i ==> (#[trigger] self.keys@[k])@ != path@,
            decreases self.keys@.len() - i,
        {
            if self.keys[i] == *path {
                proof {
                    self.lemma_position(i as int);
                }
                return Some(&self.values[i]);
            }
            i = i + 1;
        }
        proof {
            self.lemma_absent(path@);
        }
        None
    }

    /// Keeps `asset` under `path`, which must be free.
    pub fn insert(&mut self, path: String, asset: T)
        requires
            old(self).wf(),
            !old(self)@.contains_key(path@),
        ensures
            final(self).wf(),
            final(self)@ == old(self)@.insert(path@, asset),
    {
        proof {
            assert forall|i: int| 0 <= i < self.keys@.len() implies (#[trigger] self.keys@[i])@
                != path@ by {
                self.lemma_position(i);
            }
        }
        let ghost before = *self;
        self.keys.push(path);
        self.values.push(asset);
        proof {
            assert(self.wf());
            assert forall|p: Seq<char>| #[trigger] self@.contains_key(p) <==> before@.insert(
                path@,
                asset,
            ).contains_key(p) by {
                if p == path@ {
                    self.lemma_position(before.keys@.len() as int);
                } else if before@.contains_key(p) {
                    let i = before.position(p).unwrap();
                    assert(before.keys@[i]@ == p);
                    self.lemma_position(i);
                } else if self@.contains_key(p) {
                    let i = self.position(p).unwrap();
                    assert(self.keys@[i]@ == p);
                    assert(i < before.keys@.len());
                    before.lemma_position(i);
                }
            }
            assert forall|p: Seq<char>| self@.contains_key(p) implies #[trigger] self@[p]
                == before@.insert(path@, asset)[p] by {
                if p == path@ {
                    self.lemma_position(before.keys@.len() as int);
                } else {
                    let i = self.position(p).unwrap();
                    assert(self.keys@[i]@ == p);
                    self.lemma_position(i);
                    before.lemma_position(i);
                }
            }
            assert(self@ =~= before@.insert(path@, asset));
        }
    }

    /// Drops every asset.
    pub fn clear(&mut self)
        ensures
            final(self).wf(),
            final(self)@ == Map::<Seq<char>, T>::empty(),
    {
        self.keys.clear();
        self.values.clear();
        assert(self@ =~= Map::<Seq<char>, T>::empty());
    }
}

} // verus!
