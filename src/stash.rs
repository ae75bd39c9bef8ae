use vstd::prelude::*;

verus! {

/// An in-memory upload stash: the bytes kept under each path. Writing to a
/// path that is taken replaces its bytes, and the write says so.
pub struct FileStash {
    files: Vec<(String, Vec<u8>)>,
}

impl View for FileStash {
    type V = Map<Seq<char>, Seq<u8>>;

    closed spec fn view(&self) -> Map<Seq<char>, Seq<u8>> {
        Map::new(
            |p: Seq<char>| exists|i: int| 0 <= i < self.files@.len() && self.files@[i].0@ == p,
            |p: Seq<char>|
                self.files@[choose|i: int| 0 <= i < self.files@.len() && self.files@[i].0@ == p].1@,
        )
    }
}

impl FileStash {
    /// No path is held twice.
    pub closed spec fn wf(&self) -> bool {
        forall|i: int, j: int|
            0 <= i < j < self.files@.len() ==> (#[trigger] self.files@[i]).0@ != (#[trigger] self.files@[j]).0@
    }

    /// An empty stash.
    pub fn new() -> (r: FileStash)
        ensures
            r.wf(),
            r@ == Map::<Seq<char>, Seq<u8>>::empty(),
    {
        let r = FileStash { files: Vec::new() };
        assert(r@ =~= Map::<Seq<char>, Seq<u8>>::empty());
        r
    }

    /// The index of `path`, if it is held.
    fn find(&self, path: &String) -> (r: Option<usize>)
        requires
            self.wf(),
        ensures
            match r {
                Some(i) => i < self.files@.len() && self.files@[i as int].0@ == path@,
                None => forall|i: int| 0 <= i < self.files@.len() ==> (#[trigger] self.files@[i]).0@ != path@,
            },
    {
        let mut i: usize = 0;
        while i < self.files.len()
            invariant
                i <= self.files@.len(),
                forall|j: int| 0 <= j < i ==> (#[trigger] self.files@[j]).0@ != path@,
            decreases self.files@.len() - i,
        {
            if self.files[i].0 == *path {
                return Some(i);
            }
            i = i + 1;
        }
        None
    }

    proof fn lemma_lookup(&self, i: int)
        requires
            self.wf(),
            0 <= i < self.files@.len(),
        ensures
            self@.contains_key(self.files@[i].0@),
            self@[self.files@[i].0@] == self.files@[i].1@,
    {
        let p = self.files@[i].0@;
        assert(exists|k: int| 0 <= k < self.files@.len() && self.files@[k].0@ == p);
        let k = choose|k: int| 0 <= k < self.files@.len() && self.files@[k].0@ == p;
        assert(k == i);
    }

    /// Stores `bytes` at `path`, replacing what was there; returns whether
    /// something was.
    pub fn put(&mut self, path: String, bytes: Vec<u8>) -> (replaced: bool)
        requires
            old(self).wf(),
        ensures
            final(self).wf(),
            replaced == old(self)@.contains_key(path@),
            final(self)@ == old(self)@.insert(path@, bytes@),
    {
        let found = self.find(&path);
        let ghost p = path@;
        let ghost b = bytes@;
        match found {
            Some(i) => {
                proof {
                    self.lemma_lookup(i as int);
                }
                self.files.set(i, (path, bytes));
                proof {
                    assert forall|q: Seq<char>| #[trigger] self@.contains_key(q) == old(self)@.insert(p, b).contains_key(q) by {
                        if old(self)@.contains_key(q) && q != p {
                            let k = choose|k: int| 0 <= k < old(self).files@.len() && old(self).files@[k].0@ == q;
                            assert(self.files@[k].0@ == q);
                        }
                        if self@.contains_key(q) && q != p {
                            let k = choose|k: int| 0 <= k < self.files@.len() && self.files@[k].0@ == q;
                            assert(old(self).files@[k].0@ == q);
                        }
                        if q == p {
                            assert(self.files@[i as int].0@ == q);
                        }
                    }
                    assert forall|q: Seq<char>| #[trigger] self@.contains_key(q) implies self@[q] == old(self)@.insert(p, b)[q] by {
                        let k = choose|k: int| 0 <= k < self.files@.len() && self.files@[k].0@ == q;
                        self.lemma_lookup(k);
                        if q != p {
                            old(self).lemma_lookup(k);
                        }
                    }
                    assert(self@ =~= old(self)@.insert(p, b));
                }
                true
            },
            None => {
                let ghost n: int = self.files@.len() as int;
                self.files.push((path, bytes));
                proof {
                    assert(!old(self)@.contains_key(p));
                    assert forall|q: Seq<char>| #[trigger] self@.contains_key(q) == old(self)@.insert(p, b).contains_key(q) by {
                        if old(self)@.contains_key(q) {
                            let k = choose|k: int| 0 <= k < old(self).files@.len() && old(self).files@[k].0@ == q;
                            assert(self.files@[k].0@ == q);
                        }
                        if self@.contains_key(q) && q != p {
                            let k = choose|k: int| 0 <= k < self.files@.len() && self.files@[k].0@ == q;
                            assert(k < n);
                            assert(old(self).files@[k].0@ == q);
                        }
                        if q == p {
                            assert(self.files@[n].0@ == q);
                        }
                    }
                    assert forall|q: Seq<char>| #[trigger] self@.contains_key(q) implies self@[q] == old(self)@.insert(p, b)[q] by {
                        let k = choose|k: int| 0 <= k < self.files@.len() && self.files@[k].0@ == q;
                        self.lemma_lookup(k);
                        if q != p {
                            assert(k < n);
                            old(self).lemma_lookup(k);
                        }
                    }
                    assert(self@ =~= old(self)@.insert(p, b));
                }
                false
            },
        }
    }

    /// A copy of the bytes at `path`, if any.
    pub fn get(&self, path: &String) -> (r: Option<Vec<u8>>)
        requires
            self.wf(),
        ensures
            match r {
                Some(v) => self@.contains_key(path@) && v@ == self@[path@],
                None => !self@.contains_key(path@),
            },
    {
        match self.find(path) {
            Some(i) => {
                proof {
                    self.lemma_lookup(i as int);
                }
                Some(self.files[i].1.clone())
            },
            None => None,
        }
    }
}

/// Two uploads to one path in sequence: the second write reports that it
/// replaced something, and the stash then holds the second bytes alone at
/// that path, whatever it held before.
pub proof fn lemma_second_upload_replaces(
    stash: Map<Seq<char>, Seq<u8>>,
    path: Seq<char>,
    first: Seq<u8>,
    second: Seq<u8>,
)
    ensures
        stash.insert(path, first).contains_key(path),
        stash.insert(path, first).insert(path, second)[path] == second,
        stash.insert(path, first).insert(path, second) == stash.insert(path, second),
{
    assert(stash.insert(path, first).insert(path, second) =~= stash.insert(path, second));
}

} // verus!
