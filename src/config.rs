//! The set of installed option ids, as persisted between sessions.

use vstd::prelude::*;
use vstd::string::StringExecFns;

verus! {

/// The set of ids that a sequence of strings holds.
pub open spec fn ids_set(ids: Seq<String>) -> Set<Seq<char>> {
    Set::new(|s: Seq<char>| exists|i: int| 0 <= i < ids.len() && ids[i]@ == s)
}

/// No id occurs twice.
pub open spec fn ids_unique(ids: Seq<String>) -> bool {
    forall|i: int, j: int| 0 <= i < j < ids.len() ==> ids[i]@ != ids[j]@
}

/// A set of installed option ids, kept as a list without repetitions.
pub struct InstalledSet {
    ids: Vec<String>,
}

impl View for InstalledSet {
    type V = Set<Seq<char>>;

    closed spec fn view(&self) -> Set<Seq<char>> {
        ids_set(self.ids@)
    }
}

impl InstalledSet {
    /// The ids in their stored order.
    pub closed spec fn entries(&self) -> Seq<String> {
        self.ids@
    }

    pub closed spec fn wf(&self) -> bool {
        ids_unique(self.ids@)
    }

    /// An empty set.
    pub fn new() -> (r: InstalledSet)
        ensures
            r.wf(),
            r@ == Set::<Seq<char>>::empty(),
    {
        let r = InstalledSet { ids: Vec::new() };
        assert(r@ =~= Set::<Seq<char>>::empty());
        r
    }

    /// Whether `id` is in the set.
    pub fn contains(&self, id: &str) -> (r: bool)
        ensures
            r == self@.contains(id@),
    {
        let key = String::from_str(id);
        let mut i: usize = 0;
        while i < self.ids.len()
            invariant
                key@ == id@,
                i <= self.ids@.len(),
                forall|k: int| 0 <= k < i ==> self.ids@[k]@ != id@,
            decreases self.ids@.len() - i,
        {
            if self.ids[i] == key {
                assert(self@.contains(id@));
                return true;
            }
            i += 1;
        }
        false
    }

    /// The set built from a list of ids; repeated ids count once.
    pub fn from_ids(ids: Vec<String>) -> (r: InstalledSet)
        ensures
            r.wf(),
            r@ == ids_set(ids@),
    {
        let mut r = InstalledSet::new();
        let mut i: usize = 0;
        while i < ids.len()
            invariant
                i <= ids@.len(),
                r.wf(),
                r@ == ids_set(ids@.subrange(0, i as int)),
            decreases ids@.len() - i,
        {
            r.insert(ids[i].as_str());
            proof {
                assert(ids@.subrange(0, i + 1) =~= ids@.subrange(0, i as int).push(ids@[i as int]));
                lemma_ids_set_push(ids@.subrange(0, i as int), ids@[i as int]);
            }
            i += 1;
        }
        assert(ids@.subrange(0, ids@.len() as int) =~= ids@);
        r
    }

    /// Adds `id`; nothing changes where it is there already.
    pub fn insert(&mut self, id: &str)
        requires
            old(self).wf(),
        ensures
            final(self).wf(),
            final(self)@ == old(self)@.insert(id@),
    {
        if !self.contains(id) {
            let ghost before = self.ids@;
            self.ids.push(String::from_str(id));
            proof {
                lemma_ids_set_push(before, self.ids@[before.len() as int]);
            }
        } else {
            assert(self@ =~= self@.insert(id@));
        }
    }

    /// Removes `id`; nothing changes where it is absent.
    pub fn remove(&mut self, id: &str)
        requires
            old(self).wf(),
        ensures
            final(self).wf(),
            final(self)@ == old(self)@.remove(id@),
    {
        let key = String::from_str(id);
        let mut kept: Vec<String> = Vec::new();
        let mut i: usize = 0;
        while i < self.ids.len()
            invariant
                key@ == id@,
                i <= self.ids@.len(),
                ids_unique(self.ids@),
                ids_unique(kept@),
                ids_set(kept@) == ids_set(self.ids@.subrange(0, i as int)).remove(id@),
            decreases self.ids@.len() - i,
        {
            let ghost pre = self.ids@.subrange(0, i as int);
            assert(self.ids@.subrange(0, i + 1) =~= pre.push(self.ids@[i as int]));
            proof {
                lemma_ids_set_push(pre, self.ids@[i as int]);
            }
            if self.ids[i] != key {
                let ghost before = kept@;
                proof {
                    assert forall|k: int| 0 <= k < before.len() implies before[k]@ != self.ids@[i as int]@ by {
                        if before[k]@ == self.ids@[i as int]@ {
                            assert(ids_set(before).contains(before[k]@));
                            let j = choose|j: int| 0 <= j < pre.len() && pre[j]@ == before[k]@;
                            assert(self.ids@[j]@ == self.ids@[i as int]@);
                        }
                    }
                }
                kept.push(self.ids[i].clone());
                proof {
                    lemma_ids_set_push(before, kept@[before.len() as int]);
                }
            }
            i += 1;
        }
        assert(self.ids@.subrange(0, self.ids@.len() as int) =~= self.ids@);
        self.ids = kept;
    }

    /// The ids, each once.
    pub fn to_ids(&self) -> (r: Vec<String>)
        ensures
            r@ == self.entries(),
            ids_set(r@) == self@,
    {
        let mut r: Vec<String> = Vec::new();
        let mut i: usize = 0;
        while i < self.ids.len()
            invariant
                i <= self.ids@.len(),
                r@ == self.ids@.subrange(0, i as int),
            decreases self.ids@.len() - i,
        {
            r.push(self.ids[i].clone());
            assert(r@ =~= self.ids@.subrange(0, i + 1));
            i += 1;
        }
        assert(r@ =~= self.ids@);
        r
    }

    /// How many ids the set holds.
    pub fn len(&self) -> (r: usize)
        requires
            self.wf(),
        ensures
            r == self@.len(),
    {
        proof {
            lemma_unique_len(self.ids@);
        }
        self.ids.len()
    }
}

/// Appending an id to a list adds it to the set that the list holds.
pub proof fn lemma_ids_set_push(ids: Seq<String>, s: String)
    ensures
        ids_set(ids.push(s)) == ids_set(ids).insert(s@),
{
    let a = ids_set(ids.push(s));
    let b = ids_set(ids).insert(s@);
    assert forall|x: Seq<char>| a.contains(x) implies b.contains(x) by {
        let i = choose|i: int| 0 <= i < ids.push(s).len() && ids.push(s)[i]@ == x;
        if i < ids.len() {
            assert(ids[i]@ == x);
        }
    }
    assert forall|x: Seq<char>| b.contains(x) implies a.contains(x) by {
        if x == s@ {
            assert(ids.push(s)[ids.len() as int]@ == x);
        } else {
            let i = choose|i: int| 0 <= i < ids.len() && ids[i]@ == x;
            assert(ids.push(s)[i]@ == x);
        }
    }
    assert(a =~= b);
}

/// A list without repetitions holds as many ids as it is long.
pub proof fn lemma_unique_len(ids: Seq<String>)
    requires
        ids_unique(ids),
    ensures
        ids_set(ids).finite(),
        ids_set(ids).len() == ids.len(),
    decreases ids.len(),
{
    if ids.len() == 0 {
        assert(ids_set(ids) =~= Set::<Seq<char>>::empty());
    } else {
        let pre = ids.drop_last();
        let last = ids.last();
        assert(ids =~= pre.push(last));
        lemma_ids_set_push(pre, last);
        lemma_unique_len(pre);
        assert(!ids_set(pre).contains(last@)) by {
            if ids_set(pre).contains(last@) {
                let j = choose|j: int| 0 <= j < pre.len() && pre[j]@ == last@;
                assert(ids[j]@ == ids[ids.len() - 1]@);
            }
        }
    }
}

/// Loading what was saved gives back the set that was saved: the list that
/// `to_ids` writes out, read back by `from_ids`, holds exactly the same ids,
/// whatever their order.
pub proof fn lemma_save_load_round_trip(s: InstalledSet)
    requires
        s.wf(),
    ensures
        ids_set(s.entries()) == s@,
{
}

/// Loading an empty list of ids gives the empty set.
pub proof fn lemma_load_empty()
    ensures
        ids_set(Seq::<String>::empty()) == Set::<Seq<char>>::empty(),
{
    assert(ids_set(Seq::<String>::empty()) =~= Set::<Seq<char>>::empty());
}

/// Marks `option_id` installed in the set that was loaded from storage; the
/// result is what is stored back.
pub fn mark_installed(loaded: InstalledSet, option_id: &str) -> (r: InstalledSet)
    requires
        loaded.wf(),
    ensures
        r.wf(),
        r@ == loaded@.insert(option_id@),
{
    let mut set = loaded;
    set.insert(option_id);
    set
}

/// Marks `option_id` not installed in the set that was loaded from storage;
/// the result is what is stored back.
pub fn mark_uninstalled(loaded: InstalledSet, option_id: &str) -> (r: InstalledSet)
    requires
        loaded.wf(),
    ensures
        r.wf(),
        r@ == loaded@.remove(option_id@),
{
    let mut set = loaded;
    set.remove(option_id);
    set
}

} // verus!
