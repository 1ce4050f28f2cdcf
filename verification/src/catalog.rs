//! The catalog of named animation definitions that every entity plays from.

use crate::definition::AnimationDefinition;
use std::collections::HashMap;
use std::hash::Hash;
use vstd::prelude::*;
use vstd::std_specs::hash::obeys_key_model;

verus! {

/// A read-mostly mapping from animation keys to their definitions.
///
/// Every definition in a catalog is well formed: `insert` turns the others
/// away, so that playing from a catalog can never fail.
pub struct AnimationSet<T> {
    animations: HashMap<T, AnimationDefinition>,
}

impl<T> View for AnimationSet<T> {
    type V = Map<T, AnimationDefinition>;

    closed spec fn view(&self) -> Map<T, AnimationDefinition> {
        self.animations@
    }
}

impl<T> AnimationSet<T> {
    #[verifier::type_invariant]
    spec fn inv(&self) -> bool {
        self.wf()
    }

    /// The key type hashes and compares as a map key should, and every stored
    /// definition is well formed.
    pub open spec fn wf(&self) -> bool {
        &&& obeys_key_model::<T>()
        &&& self@.dom().finite()
        &&& forall|key: T| self@.contains_key(key) ==> (#[trigger] self@[key]).wf()
    }
}

impl<T: Clone> Clone for AnimationSet<T> {
    /// A catalog with the same definitions under the same keys.
    fn clone(&self) -> (copy: Self)
        ensures
            copy@ == self@,
            copy.wf(),
    {
        proof {
            use_type_invariant(self);
        }
        AnimationSet { animations: self.animations.clone() }
    }
}

impl<T: Eq + Hash> AnimationSet<T> {
    /// An empty catalog, for a key type that hashes and compares as a map key
    /// should: equal keys hash alike, every time.
    pub fn new() -> (set: Self)
        requires
            obeys_key_model::<T>(),
        ensures
            set@ == Map::<T, AnimationDefinition>::empty(),
            set.wf(),
    {
        AnimationSet { animations: HashMap::new() }
    }

    /// Stores `def` under `key`, replacing what was there, if `def` is well
    /// formed; leaves the catalog as it was otherwise. Says which it did.
    pub fn insert(&mut self, key: T, def: AnimationDefinition) -> (accepted: bool)
        ensures
            accepted == def.wf(),
            accepted ==> final(self)@ == old(self)@.insert(key, def),
            !accepted ==> final(self)@ == old(self)@,
            final(self).wf(),
    {
        proof {
            use_type_invariant(&*self);
        }
        if def.is_well_formed() {
            // The map is moved out while it grows, so that the catalog is
            // whole at every point at which it can be seen.
            let mut animations: HashMap<T, AnimationDefinition> = HashMap::new();
            std::mem::swap(&mut self.animations, &mut animations);
            animations.insert(key, def);
            std::mem::swap(&mut self.animations, &mut animations);
            true
        } else {
            false
        }
    }

    /// The definition stored under `key`, if there is one.
    pub fn get(&self, key: &T) -> (def: Option<&AnimationDefinition>)
        ensures
            self.wf(),
            match def {
                Some(d) => self@.contains_key(*key) && *d == self@[*key] && d.wf(),
                None => !self@.contains_key(*key),
            },
    {
        proof {
            use_type_invariant(self);
        }
        self.animations.get(key)
    }

    /// Whether a definition is stored under `key`.
    pub fn contains_key(&self, key: &T) -> (found: bool)
        ensures
            found == self@.contains_key(*key),
    {
        proof {
            use_type_invariant(self);
        }
        self.animations.contains_key(key)
    }

    /// Number of definitions in the catalog.
    pub fn len(&self) -> (count: usize)
        ensures
            count == self@.len(),
    {
        proof {
            use_type_invariant(self);
        }
        self.animations.len()
    }
}

} // verus!
