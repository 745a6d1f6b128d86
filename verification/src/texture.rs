//! The table of textures that are resident on the GPU for the overlay.

use vstd::prelude::*;

verus! {

/// The name that the overlay gives a texture.
#[derive(Clone, Copy, Debug, PartialEq, Eq, Structural)]
pub enum TextureId {
    /// A texture that the overlay library allocates itself.
    Managed(u64),
    /// A texture that the application registered.
    User(u64),
}

/// The ids of the textures that are resident. Each id is held once.
#[derive(Debug)]
pub struct GpuTextureTable {
    ids: Vec<TextureId>,
}

impl View for GpuTextureTable {
    type V = Set<TextureId>;

    closed spec fn view(&self) -> Set<TextureId> {
        self.ids@.to_set()
    }
}

impl GpuTextureTable {
    #[verifier::type_invariant]
    spec fn well_formed(self) -> bool {
        self.ids@.no_duplicates()
    }

    /// A table with no texture in it.
    pub fn new() -> (table: GpuTextureTable)
        ensures
            table@ == Set::<TextureId>::empty(),
    {
        let table = GpuTextureTable { ids: Vec::new() };
        assert(table.ids@.to_set() =~= Set::<TextureId>::empty());
        table
    }

    /// Whether the texture is resident.
    pub fn contains(&self, id: TextureId) -> (b: bool)
        ensures
            b == self@.contains(id),
    {
        self.position(id).is_some()
    }

    /// How many textures are resident.
    pub fn len(&self) -> (n: usize)
        ensures
            n == self@.len(),
            self@.finite(),
    {
        proof {
            use_type_invariant(self);
            self.ids@.unique_seq_to_set();
            vstd::seq_lib::seq_to_set_is_finite(self.ids@);
        }
        self.ids.len()
    }

    /// Whether no texture is resident.
    pub fn is_empty(&self) -> (b: bool)
        ensures
            b == (self@ == Set::<TextureId>::empty()),
    {
        proof {
            if self.ids@.len() == 0 {
                assert(self.ids@.to_set() =~= Set::<TextureId>::empty());
            } else {
                assert(self.ids@.to_set().contains(self.ids@[0]));
            }
        }
        self.ids.len() == 0
    }

    /// Makes the texture resident. One that is resident already stays so:
    /// its contents are replaced, its entry is not doubled.
    pub fn upload(&mut self, id: TextureId)
        ensures
            final(self)@ == old(self)@.insert(id),
    {
        proof {
            use_type_invariant(&*self);
        }
        if self.position(id).is_none() {
            proof {
                self.ids@.lemma_push_to_set_commute(id);
            }
            let mut ids = self.take_ids();
            ids.push(id);
            self.put_ids(ids);
        } else {
            assert(self.ids@.to_set().insert(id) =~= self.ids@.to_set());
        }
    }

    /// Releases the texture. The result says whether it was resident.
    pub fn free(&mut self, id: TextureId) -> (was_resident: bool)
        ensures
            final(self)@ == old(self)@.remove(id),
            was_resident == old(self)@.contains(id),
    {
        proof {
            use_type_invariant(&*self);
        }
        match self.position(id) {
            Some(i) => {
                proof {
                    lemma_remove_from_unique(self.ids@, i as int);
                }
                let mut ids = self.take_ids();
                ids.remove(i);
                self.put_ids(ids);
                true
            },
            None => {
                assert(self.ids@.to_set().remove(id) =~= self.ids@.to_set());
                false
            },
        }
    }

    /// Releases every texture and names each one that was resident, once.
    pub fn release_all(&mut self) -> (released: Vec<TextureId>)
        ensures
            final(self)@ == Set::<TextureId>::empty(),
            released@.to_set() == old(self)@,
            released@.no_duplicates(),
    {
        proof {
            use_type_invariant(&*self);
        }
        self.take_ids()
    }

    /// Moves the list out and leaves an empty one.
    fn take_ids(&mut self) -> (ids: Vec<TextureId>)
        ensures
            ids == old(self).ids,
            final(self).ids@ == Seq::<TextureId>::empty(),
            final(self)@ == Set::<TextureId>::empty(),
    {
        let mut ids: Vec<TextureId> = Vec::new();
        core::mem::swap(&mut self.ids, &mut ids);
        assert(self.ids@.to_set() =~= Set::<TextureId>::empty());
        ids
    }

    /// Moves a list without repeats in.
    fn put_ids(&mut self, ids: Vec<TextureId>)
        requires
            ids@.no_duplicates(),
        ensures
            final(self).ids == ids,
    {
        let mut ids = ids;
        core::mem::swap(&mut self.ids, &mut ids);
    }

    /// Where in the list the id stands, if it stands there.
    fn position(&self, id: TextureId) -> (at: Option<usize>)
        ensures
            at is Some <==> self.ids@.to_set().contains(id),
            at matches Some(i) ==> i < self.ids.len() && self.ids[i as int] == id,
    {
        let mut i: usize = 0;
        while i < self.ids.len()
            invariant
                i <= self.ids.len(),
                forall|j: int| 0 <= j < i ==> self.ids[j] != id,
            decreases self.ids.len() - i,
        {
            if self.ids[i] == id {
                assert(self.ids@.contains(id));
                return Some(i);
            }
            i += 1;
        }
        assert(!self.ids@.contains(id));
        None
    }
}

/// Taking one item out of a list without repeats takes exactly that item
/// out of the set of its items, and leaves a list without repeats.
proof fn lemma_remove_from_unique(s: Seq<TextureId>, i: int)
    requires
        s.no_duplicates(),
        0 <= i < s.len(),
    ensures
        s.remove(i).no_duplicates(),
        s.remove(i).to_set() == s.to_set().remove(s[i]),
{
    let r = s.remove(i);
    assert forall|a: int, b: int| 0 <= a < r.len() && 0 <= b < r.len() && a != b implies r[a]
        != r[b] by {
        let a0 = if a < i {
            a
        } else {
            a + 1
        };
        let b0 = if b < i {
            b
        } else {
            b + 1
        };
        assert(r[a] == s[a0] && r[b] == s[b0]);
    }
    assert forall|x: TextureId| r.to_set().contains(x) <==> s.to_set().remove(s[i]).contains(
        x,
    ) by {
        if r.contains(x) {
            let a = choose|a: int| 0 <= a < r.len() && r[a] == x;
            let a0 = if a < i {
                a
            } else {
                a + 1
            };
            assert(s[a0] == x);
            assert(s.contains(x));
        }
        if s.contains(x) && x != s[i] {
            let a0 = choose|a0: int| 0 <= a0 < s.len() && s[a0] == x;
            let a = if a0 < i {
                a0
            } else {
                a0 - 1
            };
            assert(r[a] == x);
            assert(r.contains(x));
        }
    }
    assert(r.to_set() =~= s.to_set().remove(s[i]));
}

} // verus!
