//! The persisted form of a key ring, and how two of them merge.
use crate::keyring::key_laws;
use crate::template::Template;
use bitcoin::Network;
use std::collections::BTreeMap;
use vstd::prelude::*;
use vstd::std_specs::iter::IteratorSpec;

verus! {

broadcast use vstd::std_specs::btree::group_btree_axioms;

/// What changed in a key ring: the network if it was set, the keychains that
/// were added, and the default keychain.
#[derive(Debug)]
pub struct ChangeSet<K> {
    /// Network.
    pub network: Option<Network>,
    /// Added descriptors.
    pub descriptors: BTreeMap<K, Template>,
    /// Default keychain.
    pub default_keychain: Option<K>,
}

impl<K: Ord> Default for ChangeSet<K> {
    fn default() -> (r: Self)
        ensures
            r.network is None,
            r.descriptors@ == Map::<K, Template>::empty(),
            r.default_keychain is None,
    {
        ChangeSet { network: None, descriptors: BTreeMap::new(), default_keychain: None }
    }
}

/// A changeset seen as its three parts: network, keychains, default keychain.
pub type Parts<K> = (Option<Network>, Map<K, Template>, Option<K>);

/// The parts of the changeset that merging `later` into `earlier` leaves.
pub open spec fn merge_parts<K>(earlier: Parts<K>, later: Parts<K>) -> Parts<K> {
    (
        if earlier.0 is None {
            later.0
        } else {
            earlier.0
        },
        earlier.1.union_prefer_right(later.1),
        later.2,
    )
}

impl<K> ChangeSet<K> {
    /// The changeset's parts.
    pub open spec fn parts(&self) -> Parts<K> {
        (self.network, self.descriptors@, self.default_keychain)
    }

    /// The network, keychains and default keychain of the ring that this
    /// changeset describes; `None` while it records no network or no default.
    pub open spec fn ring_model(&self) -> Option<(Network, Map<K, Template>, K)> {
        match (self.network, self.default_keychain) {
            (Some(network), Some(default)) => Some((network, self.descriptors@, default)),
            _ => None,
        }
    }
}

impl<K: Ord + Clone> ChangeSet<K> {
    /// Folds `other` into `self`: a network already set stays, keychains are
    /// united with `other`'s bindings winning, and `other`'s default keychain
    /// replaces `self`'s, even where `other` has none.
    pub fn merge(&mut self, other: Self)
        requires
            key_laws::<K>(),
        ensures
            final(self).parts() == merge_parts(old(self).parts(), other.parts()),
    {
        if other.network.is_some() && self.network.is_none() {
            self.network = other.network;
        }
        let ghost network = self.network;
        let ChangeSet { network: _, descriptors: mut incoming, default_keychain } = other;
        let ghost start = self.descriptors@;
        let ghost added = incoming@;
        let mut keys: Vec<K> = Vec::new();
        let ghost listed = incoming.keys().remaining().unref();
        for k in it: incoming.keys()
            invariant
                key_laws::<K>(),
                self.network == network,
                listed.to_set() == added.dom(),
                listed.no_duplicates(),
                it.seq().unref() == listed,
                keys@ == listed.take(it.index()),
        {
            keys.push(k.clone());
            assert(it.seq().unref().take(it.index() + 1) == it.seq().unref().take(it.index()).push(*k));
        }
        assert(keys@ == listed);
        let mut i: usize = 0;
        while i < keys.len()
            invariant
                key_laws::<K>(),
                self.network == network,
                i <= keys.len(),
                keys@.to_set() == added.dom(),
                keys@.no_duplicates(),
                incoming@ == added.remove_keys(keys@.take(i as int).to_set()),
                self.descriptors@ == start.union_prefer_right(
                    added.restrict(keys@.take(i as int).to_set()),
                ),
            decreases keys.len() - i,
        {
            let ghost before = keys@.take(i as int).to_set();
            let ghost after = keys@.take(i + 1).to_set();
            assert(keys@.take(i + 1) == keys@.take(i as int).push(keys@[i as int]));
            assert(after == before.insert(keys@[i as int])) by {
                keys@.take(i as int).lemma_push_to_set_commute(keys@[i as int]);
            }
            assert(keys@.to_set().contains(keys@[i as int]));
            assert(!before.contains(keys@[i as int])) by {
                if before.contains(keys@[i as int]) {
                    let j = choose|j: int| 0 <= j < i && keys@.take(i as int)[j] == keys@[i as int];
                    assert(keys@[j] == keys@[i as int]);
                }
            }
            if let Some(v) = incoming.remove(&keys[i]) {
                self.descriptors.insert(keys[i].clone(), v);
            }
            assert(incoming@ =~= added.remove_keys(after));
            assert(self.descriptors@ =~= start.union_prefer_right(added.restrict(after)));
            i = i + 1;
        }
        assert(keys@.take(keys.len() as int) == keys@);
        assert(added.restrict(added.dom()) =~= added);
        self.default_keychain = default_keychain;
    }

    /// True where neither a network nor any keychain is recorded; a default
    /// keychain alone does not count.
    pub fn is_empty(&self) -> (r: bool)
        requires
            key_laws::<K>(),
        ensures
            r == (self.network is None && self.descriptors@.is_empty()),
    {
        self.network.is_none() && self.descriptors.is_empty()
    }
}

} // verus!
