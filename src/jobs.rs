use vstd::prelude::*;
use crate::word::Word;

verus! {

/// The ids of the jobs in flight, each held once.
pub struct RunningJobs {
    ids: Vec<Word>,
}

impl RunningJobs {
    pub closed spec fn view(&self) -> Set<Word> {
        self.ids@.to_set()
    }

    pub closed spec fn wf(&self) -> bool {
        self.ids@.no_duplicates()
    }

    pub fn new() -> (r: RunningJobs)
        ensures
            r.wf(),
            r@ == Set::<Word>::empty(),
    {
        let r = RunningJobs { ids: Vec::new() };
        proof {
            assert(r.ids@.to_set() =~= Set::<Word>::empty());
        }
        r
    }

    fn index_of(&self, id: Word) -> (r: Option<usize>)
        ensures
            match r {
                Some(i) => i < self.ids@.len() && self.ids@[i as int] == id,
                None => !self.ids@.contains(id),
            },
    {
        let mut i: usize = 0;
        while i < self.ids.len()
            invariant
                i <= self.ids@.len(),
                forall|j: int| 0 <= j < i ==> self.ids@[j] != id,
            decreases self.ids@.len() - i,
        {
            if self.ids[i] == id {
                return Some(i);
            }
            i = i + 1;
        }
        None
    }

    pub fn contains(&self, id: Word) -> (r: bool)
        ensures
            r == self@.contains(id),
    {
        self.index_of(id).is_some()
    }

    pub fn len(&self) -> (r: usize)
        requires
            self.wf(),
        ensures
            r == self@.len(),
    {
        proof {
            self.ids@.unique_seq_to_set();
        }
        self.ids.len()
    }

    /// Adds `id`; adding an id already held changes nothing.
    pub fn insert(&mut self, id: Word)
        requires
            old(self).wf(),
        ensures
            final(self).wf(),
            final(self)@ == old(self)@.insert(id),
            old(self)@.contains(id) ==> final(self)@ == old(self)@,
    {
        if self.index_of(id).is_none() {
            let ghost before = self.ids@;
            self.ids.push(id);
            proof {
                assert(self.ids@ == before.push(id));
                assert forall|x: Word| self.ids@.contains(x) <==> before.contains(x) || x == id by {
                    if before.contains(x) {
                        let k = choose|k: int| 0 <= k < before.len() && before[k] == x;
                        assert(self.ids@[k] == x);
                    }
                    if x == id {
                        assert(self.ids@[before.len() as int] == x);
                    }
                }
                assert(self.ids@.to_set() =~= old(self)@.insert(id));
            }
        } else {
            proof {
                assert(old(self)@.insert(id) =~= old(self)@);
            }
        }
    }

    /// Takes `id` out, where it is held.
    pub fn remove(&mut self, id: Word)
        requires
            old(self).wf(),
        ensures
            final(self).wf(),
            final(self)@ == old(self)@.remove(id),
    {
        match self.index_of(id) {
            Some(i) => {
                let ghost before = self.ids@;
                self.ids.remove(i);
                proof {
                        assert(self.ids@ =~= before.remove(i as int));
                    assert forall|x: Word| self.ids@.contains(x) <==> before.contains(x) && x != id by {
                        if before.contains(x) && x != id {
                            let k = choose|k: int| 0 <= k < before.len() && before[k] == x;
                            assert(k != i);
                            if k < i {
                                assert(self.ids@[k] == x);
                            } else {
                                assert(self.ids@[k - 1] == x);
                            }
                        }
                    }
                    assert(self.ids@.to_set() =~= old(self)@.remove(id));
                }
            },
            None => {
                proof {
                    assert(old(self)@.remove(id) =~= old(self)@);
                }
            },
        }
    }
}

} // verus!
