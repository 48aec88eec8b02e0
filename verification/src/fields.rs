//! A small map from field names to messages or values, as a form page
//! shows them: one entry per name.
use vstd::prelude::*;

verus! {

pub struct FieldMap {
    entries: Vec<(String, String)>,
    contents: Ghost<Map<Seq<char>, Seq<char>>>,
}

/// Each name occurs once among the entries, and the entries are exactly
/// the map's pairs.
spec fn entries_match(entries: Seq<(String, String)>, contents: Map<Seq<char>, Seq<char>>) -> bool {
    &&& forall|i: int, j: int| 0 <= i < j < entries.len() ==> entries[i].0@ != entries[j].0@
    &&& forall|i: int|
        0 <= i < entries.len() ==> contents.contains_key(#[trigger] entries[i].0@) && contents[entries[i].0@]
            == entries[i].1@
    &&& forall|k: Seq<char>|
        #[trigger] contents.contains_key(k) ==> exists|i: int| 0 <= i < entries.len() && entries[i].0@ == k
}

impl View for FieldMap {
    type V = Map<Seq<char>, Seq<char>>;

    closed spec fn view(&self) -> Map<Seq<char>, Seq<char>> {
        self.contents@
    }
}

impl FieldMap {
    /// Each name occurs once among the entries, and the entries are
    /// exactly the map's pairs.
    #[verifier::type_invariant]
    closed spec fn well_formed(self) -> bool {
        entries_match(self.entries@, self.contents@)
    }

    /// The map with no entry.
    pub fn new() -> (map: FieldMap)
        ensures
            map@ == Map::<Seq<char>, Seq<char>>::empty(),
    {
        FieldMap { entries: Vec::new(), contents: Ghost(Map::empty()) }
    }

    /// Sets the entry of `key` to `value`, in place of any earlier one.
    pub fn insert(&mut self, key: String, value: String)
        ensures
            final(self)@ == old(self)@.insert(key@, value@),
    {
        proof {
            use_type_invariant(&*self);
        }
        let mut taken = FieldMap::new();
        std::mem::swap(&mut taken, self);
        proof {
            use_type_invariant(&taken);
        }
        let ghost before = taken@;
        let ghost new_contents = before.insert(key@, value@);
        let FieldMap { mut entries, contents } = taken;
        let ghost old_entries = entries@;
        let mut i: usize = 0;
        let mut found = false;
        while i < entries.len()
            invariant_except_break
                !found,
            invariant
                0 <= i <= entries@.len(),
                entries@ == old_entries,
                forall|j: int| 0 <= j < i ==> old_entries[j].0@ != key@,
            ensures
                entries@ == old_entries,
                found ==> i < entries@.len() && old_entries[i as int].0@ == key@,
                !found ==> i == entries@.len(),
                forall|j: int| 0 <= j < i ==> old_entries[j].0@ != key@,
            decreases entries@.len() - i,
        {
            if entries[i].0 == key {
                found = true;
                break;
            }
            i = i + 1;
        }
        if found {
            entries.set(i, (key, value));
            proof {
                assert forall|x: int| 0 <= x < entries@.len() implies #[trigger] entries@[x].0@
                    == old_entries[x].0@ by {
                    if x != i {
                        assert(entries@[x] == old_entries[x]);
                    }
                }
                assert forall|k: Seq<char>| #[trigger] new_contents.contains_key(k) implies exists|
                    j: int,
                | 0 <= j < entries@.len() && entries@[j].0@ == k by {
                    if k != key@ {
                        assert(before.contains_key(k));
                        let j = choose|j: int| 0 <= j < old_entries.len() && old_entries[j].0@ == k;
                        assert(entries@[j] == old_entries[j]);
                    } else {
                        assert(entries@[i as int].0@ == k);
                    }
                }
                assert forall|j: int|
                    0 <= j < entries@.len() implies new_contents.contains_key(
                    #[trigger] entries@[j].0@,
                ) && new_contents[entries@[j].0@] == entries@[j].1@ by {
                    if j != i {
                        assert(entries@[j] == old_entries[j]);
                        assert(old_entries[j].0@ != old_entries[i as int].0@);
                    }
                }
                assert forall|a: int, b: int|
                    0 <= a < b < entries@.len() implies entries@[a].0@ != entries@[b].0@ by {
                    assert(old_entries[a].0@ != old_entries[b].0@);
                }
            }
        } else {
            entries.push((key, value));
            proof {
                let n = old_entries.len() as int;
                assert forall|k: Seq<char>| #[trigger] new_contents.contains_key(k) implies exists|
                    j: int,
                | 0 <= j < entries@.len() && entries@[j].0@ == k by {
                    if k != key@ {
                        assert(before.contains_key(k));
                        let j = choose|j: int| 0 <= j < old_entries.len() && old_entries[j].0@ == k;
                        assert(entries@[j] == old_entries[j]);
                    } else {
                        assert(entries@[n].0@ == k);
                    }
                }
                assert forall|j: int|
                    0 <= j < entries@.len() implies new_contents.contains_key(
                    #[trigger] entries@[j].0@,
                ) && new_contents[entries@[j].0@] == entries@[j].1@ by {
                    if j < n {
                        assert(entries@[j] == old_entries[j]);
                    }
                }
                assert forall|a: int, b: int|
                    0 <= a < b < entries@.len() implies entries@[a].0@ != entries@[b].0@ by {
                    assert(entries@[a] == old_entries[a]);
                    if b < n {
                        assert(entries@[b] == old_entries[b]);
                    }
                }
            }
        }
        assert(entries_match(entries@, new_contents));
        let result = FieldMap { entries, contents: Ghost(new_contents) };
        *self = result;
    }

    /// Whether the map has no entry.
    pub fn is_empty(&self) -> (r: bool)
        ensures
            r == (self@ == Map::<Seq<char>, Seq<char>>::empty()),
    {
        proof {
            use_type_invariant(self);
        }
        let r = self.entries.len() == 0;
        proof {
            if r {
                assert(self@ =~= Map::<Seq<char>, Seq<char>>::empty());
            } else {
                assert(self@.contains_key(self.entries@[0].0@));
            }
        }
        r
    }

    /// The entries, one per name.
    pub fn pairs(&self) -> (pairs: &Vec<(String, String)>)
        ensures
            forall|i: int|
                0 <= i < pairs@.len() ==> self@.contains_key(#[trigger] pairs@[i].0@) && self@[pairs@[i].0@]
                    == pairs@[i].1@,
            forall|k: Seq<char>| #[trigger]
                self@.contains_key(k) ==> exists|i: int| 0 <= i < pairs@.len() && pairs@[i].0@ == k,
            forall|i: int, j: int| 0 <= i < j < pairs@.len() ==> pairs@[i].0@ != pairs@[j].0@,
    {
        proof {
            use_type_invariant(self);
        }
        &self.entries
    }
}

} // verus!
