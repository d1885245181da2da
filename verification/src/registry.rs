//! The cache of what the compositor advertises.

use crate::keycode::same_text;
use vstd::prelude::*;

verus! {

/// One advertised object: the id that the compositor gave it, and the version
/// of its interface that the compositor implements.
#[derive(Clone, Copy, Debug, PartialEq, Eq, Structural)]
pub struct Global {
    pub name: u32,
    pub version: u32,
}

/// An interface name with what was advertised under it.
pub struct Entry {
    pub interface: String,
    pub global: Global,
}

/// Whether `entries` holds `interface` at `i`.
pub open spec fn holds_at(entries: Seq<Entry>, interface: Seq<char>, i: int) -> bool {
    0 <= i < entries.len() && entries[i].interface@ == interface
}

/// Whether no interface name stands twice in `entries`.
pub open spec fn names_distinct(entries: Seq<Entry>) -> bool {
    forall|i: int, j: int|
        0 <= i < j < entries.len() ==> entries[i].interface@ != entries[j].interface@
}

/// Whether `names` lists the interfaces of `globals`: each of them, once.
pub open spec fn is_listing(names: Seq<String>, globals: Map<Seq<char>, Global>) -> bool {
    &&& forall|i: int, j: int| 0 <= i < j < names.len() ==> names[i]@ != names[j]@
    &&& forall|i: int| 0 <= i < names.len() ==> globals.contains_key(#[trigger] names[i]@)
    &&& forall|k: Seq<char>|
        globals.contains_key(k) ==> exists|i: int| 0 <= i < names.len() && names[i]@ == k
}

/// The advertised objects, one for each interface name.
pub struct Registry {
    entries: Vec<Entry>,
}

impl Registry {
    #[verifier::type_invariant]
    spec fn well_formed(&self) -> bool {
        names_distinct(self.entries@)
    }

    /// The cache as a map from interface name to advertised object.
    pub closed spec fn view(&self) -> Map<Seq<char>, Global> {
        Map::new(
            |k: Seq<char>| exists|i: int| holds_at(self.entries@, k, i),
            |k: Seq<char>| self.entries@[choose|i: int| holds_at(self.entries@, k, i)].global,
        )
    }

    /// The number of interface names in the cache.
    pub closed spec fn spec_len(&self) -> nat {
        self.entries@.len()
    }

    proof fn lemma_view_at(&self, i: int)
        requires
            names_distinct(self.entries@),
            0 <= i < self.entries@.len(),
        ensures
            self@.contains_key(self.entries@[i].interface@),
            self@[self.entries@[i].interface@] == self.entries@[i].global,
    {
        let k = self.entries@[i].interface@;
        assert(holds_at(self.entries@, k, i));
        let c = choose|c: int| holds_at(self.entries@, k, c);
        assert(c == i);
    }

    /// An empty cache.
    pub fn new() -> (r: Registry)
        ensures
            r@ == Map::<Seq<char>, Global>::empty(),
            r.spec_len() == 0,
    {
        let r = Registry { entries: Vec::new() };
        assert(r@ =~= Map::<Seq<char>, Global>::empty());
        r
    }

    /// The number of interface names in the cache.
    pub fn len(&self) -> (r: usize)
        ensures
            r == self.spec_len(),
    {
        self.entries.len()
    }

    /// Looks an interface up by its name.
    pub fn find(&self, interface: &str) -> (r: Option<Global>)
        ensures
            r == (if self@.contains_key(interface@) {
                Some(self@[interface@])
            } else {
                None
            }),
    {
        proof {
            use_type_invariant(self);
        }
        let mut i: usize = 0;
        while i < self.entries.len()
            invariant
                i <= self.entries@.len(),
                names_distinct(self.entries@),
                forall|j: int| 0 <= j < i ==> self.entries@[j].interface@ != interface@,
            decreases self.entries@.len() - i,
        {
            if same_text(self.entries[i].interface.as_str(), interface) {
                proof {
                    self.lemma_view_at(i as int);
                }
                return Some(self.entries[i].global);
            }
            i = i + 1;
        }
        assert(!self@.contains_key(interface@)) by {
            if self@.contains_key(interface@) {
                let c = choose|c: int| holds_at(self.entries@, interface@, c);
                assert(holds_at(self.entries@, interface@, c));
            }
        }
        None
    }

    /// Records an announcement: the interface now maps to `global`, whether
    /// or not it was in the cache before; every other interface stays.
    pub fn insert(&mut self, interface: String, global: Global)
        ensures
            final(self)@ == old(self)@.insert(interface@, global),
            final(self).spec_len() == (if old(self)@.contains_key(interface@) {
                old(self).spec_len()
            } else {
                old(self).spec_len() + 1
            }),
    {
        proof {
            use_type_invariant(&*self);
        }
        let ghost before = *self;
        let ghost name = interface@;
        let mut out: Vec<Entry> = Vec::new();
        let mut seen = false;
        let mut i: usize = 0;
        while i < self.entries.len()
            invariant
                i <= self.entries@.len(),
                *self == before,
                name == interface@,
                out@.len() == i,
                forall|j: int| 0 <= j < i ==> out@[j].interface@ == before.entries@[j].interface@,
                forall|j: int|
                    0 <= j < i ==> out@[j].global == (if before.entries@[j].interface@ == name {
                        global
                    } else {
                        before.entries@[j].global
                    }),
                seen == (exists|j: int| 0 <= j < i && before.entries@[j].interface@ == name),
            decreases self.entries@.len() - i,
        {
            let kept = self.entries[i].interface.clone();
            if same_text(kept.as_str(), interface.as_str()) {
                seen = true;
                out.push(Entry { interface: kept, global });
            } else {
                out.push(Entry { interface: kept, global: self.entries[i].global });
            }
            i = i + 1;
        }
        if !seen {
            out.push(Entry { interface, global });
        }
        proof {
            let n = before.entries@.len() as int;
            assert(names_distinct(out@));
            assert(before@.contains_key(name) == seen) by {
                if before@.contains_key(name) {
                    let c = choose|c: int| holds_at(before.entries@, name, c);
                    assert(holds_at(before.entries@, name, c));
                }
                if seen {
                    let c = choose|c: int| 0 <= c < n && before.entries@[c].interface@ == name;
                    assert(holds_at(before.entries@, name, c));
                }
            }
        }
        let ghost entries = out@;
        *self = Registry { entries: out };
        proof {
            let n = before.entries@.len() as int;
            assert(self.entries@ == entries);
            assert forall|k: Seq<char>|
                self@.contains_key(k) == before@.insert(name, global).contains_key(k) by {
                if self@.contains_key(k) {
                    let c = choose|c: int| holds_at(entries, k, c);
                    if c < n {
                        assert(holds_at(before.entries@, k, c));
                    }
                }
                if before@.contains_key(k) {
                    let c = choose|c: int| holds_at(before.entries@, k, c);
                    assert(holds_at(entries, k, c));
                }
                if k == name && !seen {
                    assert(holds_at(entries, k, n));
                }
            }
            assert forall|k: Seq<char>| self@.contains_key(k) implies self@[k] == before@.insert(
                name,
                global,
            )[k] by {
                let c = choose|c: int| holds_at(entries, k, c);
                self.lemma_view_at(c);
                if c < n {
                    before.lemma_view_at(c);
                }
            }
            assert(self@ =~= before@.insert(name, global));
        }
    }

    /// The interface names in the cache, each once.
    pub fn names(&self) -> (r: Vec<String>)
        ensures
            r@.len() == self.spec_len(),
            is_listing(r@, self@),
    {
        proof {
            use_type_invariant(self);
        }
        let mut out: Vec<String> = Vec::new();
        let mut i: usize = 0;
        while i < self.entries.len()
            invariant
                i <= self.entries@.len(),
                out@.len() == i,
                forall|j: int| 0 <= j < i ==> out@[j]@ == self.entries@[j].interface@,
            decreases self.entries@.len() - i,
        {
            out.push(self.entries[i].interface.clone());
            i = i + 1;
        }
        proof {
            assert forall|j: int| 0 <= j < out@.len() implies self@.contains_key(
                #[trigger] out@[j]@,
            ) by {
                self.lemma_view_at(j);
            }
            assert forall|k: Seq<char>| self@.contains_key(k) implies exists|j: int|
                0 <= j < out@.len() && out@[j]@ == k by {
                let c = choose|c: int| holds_at(self.entries@, k, c);
                assert(0 <= c < out@.len() && out@[c]@ == k);
            }
        }
        out
    }
}

} // verus!
