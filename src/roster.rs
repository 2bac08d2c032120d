use vstd::prelude::*;

use crate::constants::MAX_ROSTER_LEN;
use crate::identity::Identity;

verus! {

/// A bounded set of identities that keeps the order in which they joined.
#[derive(Clone, Debug)]
pub struct IdentitySet {
    items: Vec<Identity>,
}

impl View for IdentitySet {
    type V = Seq<Identity>;

    closed spec fn view(&self) -> Seq<Identity> {
        self.items@
    }
}

impl IdentitySet {
    /// No identity twice, and no more than the bound.
    pub open spec fn wf(&self) -> bool {
        &&& self@.no_duplicates()
        &&& self@.len() <= MAX_ROSTER_LEN
    }

    pub fn new() -> (r: IdentitySet)
        ensures
            r@ == Seq::<Identity>::empty(),
            r.wf(),
    {
        IdentitySet { items: Vec::new() }
    }

    /// The set holding `items` in order, if they are distinct and within the
    /// bound.
    pub fn from_vec(items: Vec<Identity>) -> (r: Option<IdentitySet>)
        ensures
            match r {
                Some(set) => set@ == items@ && set.wf(),
                None => !(items@.no_duplicates() && items@.len() <= MAX_ROSTER_LEN),
            },
    {
        if items.len() > MAX_ROSTER_LEN {
            return None;
        }
        let mut i: usize = 0;
        while i < items.len()
            invariant
                0 <= i <= items@.len(),
                forall|a: int, b: int| 0 <= a < b < i ==> items@[a] != items@[b],
            decreases items@.len() - i,
        {
            let mut j: usize = 0;
            while j < i
                invariant
                    0 <= j <= i < items@.len(),
                    forall|a: int| 0 <= a < j ==> items@[a] != items@[i as int],
                decreases i - j,
            {
                if items[j] == items[i] {
                    return None;
                }
                j += 1;
            }
            i += 1;
        }
        Some(IdentitySet { items })
    }

    /// The members in the order in which they joined.
    pub fn to_vec(&self) -> (r: Vec<Identity>)
        ensures
            r@ == self@,
    {
        let mut r: Vec<Identity> = Vec::new();
        let mut i: usize = 0;
        while i < self.items.len()
            invariant
                0 <= i <= self.items@.len(),
                r@ == self.items@.subrange(0, i as int),
            decreases self.items@.len() - i,
        {
            r.push(self.items[i]);
            i += 1;
        }
        assert(r@ =~= self.items@);
        r
    }

    pub fn len(&self) -> (n: usize)
        ensures
            n == self@.len(),
    {
        self.items.len()
    }

    pub fn is_full(&self) -> (r: bool)
        ensures
            r == (self@.len() >= MAX_ROSTER_LEN),
    {
        self.items.len() >= MAX_ROSTER_LEN
    }

    /// The position of `id`, if it is in the set.
    fn position(&self, id: Identity) -> (r: Option<usize>)
        ensures
            match r {
                Some(i) => i < self@.len() && self@[i as int] == id && forall|j: int|
                    0 <= j < i ==> self@[j] != id,
                None => !self@.contains(id),
            },
    {
        let mut i: usize = 0;
        while i < self.items.len()
            invariant
                0 <= i <= self.items@.len(),
                forall|j: int| 0 <= j < i ==> self.items@[j] != id,
            decreases self.items@.len() - i,
        {
            if self.items[i] == id {
                return Some(i);
            }
            i += 1;
        }
        None
    }

    pub fn contains(&self, id: Identity) -> (r: bool)
        ensures
            r == self@.contains(id),
    {
        self.position(id).is_some()
    }

    /// Adds `id` at the end; the caller has checked that it is absent and that
    /// there is room.
    pub fn insert(&mut self, id: Identity)
        requires
            !old(self)@.contains(id),
            old(self)@.len() < MAX_ROSTER_LEN,
        ensures
            final(self)@ == old(self)@.push(id),
            old(self).wf() ==> final(self).wf(),
    {
        self.items.push(id);
    }

    /// Takes `id` out; nothing happens if it is absent.
    pub fn remove(&mut self, id: Identity)
        ensures
            final(self)@ == old(self)@.remove_value(id),
            old(self).wf() ==> final(self).wf(),
            final(self)@.len() <= old(self)@.len(),
            !old(self)@.contains(id) ==> final(self)@ == old(self)@,
    {
        match self.position(id) {
            Some(i) => {
                proof {
                    self@.index_of_first_ensures(id);
                }
                self.items.remove(i);
                proof {
                    old(self)@.remove_ensures(i as int);
                }
            },
            None => {
                proof {
                    self@.index_of_first_ensures(id);
                }
            },
        }
    }
}

} // verus!
