//! The live registry: keychain identifiers bound to single-path descriptors,
//! one network, and one default keychain.
use crate::changeset::ChangeSet;
use crate::template::{
    fingerprint_of, is_multipath, is_publicly_derivable, publicly_derivable, parse_template, parsed_template, single_templates,
    split_template, template_fingerprint, template_is_multipath, Template,
};
use bdk_chain::DescriptorId;
use bitcoin::Network;
use std::collections::BTreeMap;
use vstd::laws_cmp::obeys_cmp;
use vstd::prelude::*;

verus! {

broadcast use vstd::std_specs::btree::group_btree_axioms;

/// What the registry needs of a keychain identifier: its order is a total
/// order whose equality is equality of values, and a clone equals its source.
pub open spec fn key_laws<K: Ord + Clone>() -> bool {
    &&& obeys_cmp::<K>()
    &&& forall|a: K, b: K| #[trigger] call_ensures(K::clone, (&a,), b) ==> a == b
}

/// Why a descriptor could not be registered.
#[derive(Debug, PartialEq, Eq)]
pub enum KeyRingError {
    /// The text does not parse, or a key in it belongs to another network.
    InvalidTemplate(String),
    /// A multi-path descriptor was given where a single-path one is expected.
    NotSinglePath,
    /// A single-path descriptor was given where a multi-path one is expected.
    NotMultiPath,
    /// A path of a multi-path descriptor could not be split off or identified.
    UnusableBranch,
    /// The index of the default path is not below the number of paths.
    BranchOutOfRange,
}

/// The descriptors that a multi-path descriptor splits into, each under its
/// fingerprint, in the order of the paths.
pub open spec fn branch_entries(d: Template) -> Option<Seq<(DescriptorId, Template)>> {
    match single_templates(d) {
        None => None,
        Some(bs) => if forall|i: int| 0 <= i < bs.len() ==> #[trigger] publicly_derivable(bs[i]) {
            Some(bs.map_values(|b: Template| (fingerprint_of(b), b)))
        } else {
            None
        },
    }
}

/// The map that inserting the pairs of `s` one after the other builds: a
/// later pair wins over an earlier one with the same key.
pub open spec fn entries_map<K, V>(s: Seq<(K, V)>) -> Map<K, V>
    decreases s.len(),
{
    if s.len() == 0 {
        Map::empty()
    } else {
        entries_map(s.drop_last()).insert(s.last().0, s.last().1)
    }
}

/// A key ring: a network, a map from keychain identifier to descriptor, and
/// the default keychain.
#[derive(Debug)]
pub struct KeyRing<K> {
    network: Network,
    descriptors: BTreeMap<K, Template>,
    default_keychain: K,
}

impl<K: Ord + Clone> KeyRing<K> {
    /// The network that every descriptor of the ring was checked against.
    pub closed spec fn spec_network(&self) -> Network {
        self.network
    }

    /// The keychains of the ring and their descriptors.
    pub closed spec fn keychains(&self) -> Map<K, Template> {
        self.descriptors@
    }

    /// The default keychain.
    pub closed spec fn spec_default(&self) -> K {
        self.default_keychain
    }

    /// The ring's network, keychains and default keychain.
    pub open spec fn model(&self) -> (Network, Map<K, Template>, K) {
        (self.spec_network(), self.keychains(), self.spec_default())
    }

    /// The ring's invariant: the default keychain is one of its keychains,
    /// and no stored descriptor is multi-path.
    pub open spec fn wf(&self) -> bool {
        &&& self.keychains().contains_key(self.spec_default())
        &&& forall|k: K| #[trigger] self.keychains().contains_key(k) ==> !is_multipath(
            self.keychains()[k],
        )
    }

    /// A ring of one keychain, which is the default, bound to a descriptor
    /// already checked against `network`.
    pub fn with_template(network: Network, default_keychain: (K, Template)) -> (r: Result<
        Self,
        KeyRingError,
    >)
        requires
            key_laws::<K>(),
        ensures
            is_multipath(default_keychain.1) ==> r matches Err(KeyRingError::NotSinglePath),
            !is_multipath(default_keychain.1) ==> (r matches Ok(ring) && {
                &&& ring.spec_network() == network
                &&& ring.keychains() == map![default_keychain.0 => default_keychain.1]
                &&& ring.spec_default() == default_keychain.0
                &&& ring.wf()
            }),
    {
        let (keychain, descriptor) = default_keychain;
        if template_is_multipath(&descriptor) {
            return Err(KeyRingError::NotSinglePath);
        }
        let mut descriptors = BTreeMap::new();
        let default_keychain = keychain.clone();
        descriptors.insert(keychain, descriptor);
        let ring = KeyRing { network, descriptors, default_keychain };
        assert(ring.keychains() =~= map![default_keychain => descriptor]);
        Ok(ring)
    }

    /// A ring of one keychain, which is the default, bound to the descriptor
    /// that `default_keychain.1` denotes on `network`.
    pub fn new(network: Network, default_keychain: (K, &str)) -> (r: Result<Self, KeyRingError>)
        requires
            key_laws::<K>(),
        ensures
            match parsed_template(default_keychain.1@, network) {
                None => r matches Err(KeyRingError::InvalidTemplate(s)) && s@
                    == default_keychain.1@,
                Some(d) => if is_multipath(d) {
                    r matches Err(KeyRingError::NotSinglePath)
                } else {
                    r matches Ok(ring) && {
                        &&& ring.spec_network() == network
                        &&& ring.keychains() == map![default_keychain.0 => d]
                        &&& ring.spec_default() == default_keychain.0
                        &&& ring.wf()
                    }
                },
            },
    {
        let (keychain, text) = default_keychain;
        match parse_template(text, network) {
            None => Err(KeyRingError::InvalidTemplate(text.to_string())),
            Some(descriptor) => Self::with_template(network, (keychain, descriptor)),
        }
    }

    /// Binds `keychain` to a descriptor already checked against the ring's
    /// network, replacing any earlier binding. The keychain becomes the
    /// default where `default` is set or the ring held no keychain.
    pub fn insert_descriptor(&mut self, keychain: K, descriptor: Template, default: bool) -> (r:
        Result<(), KeyRingError>)
        requires
            key_laws::<K>(),
        ensures
            is_multipath(descriptor) ==> (r matches Err(KeyRingError::NotSinglePath) && *final(self)
                == *old(self)),
            !is_multipath(descriptor) ==> {
                &&& r is Ok
                &&& final(self).spec_network() == old(self).spec_network()
                &&& final(self).keychains() == old(self).keychains().insert(keychain, descriptor)
                &&& final(self).spec_default() == if default || old(self).keychains().is_empty() {
                    keychain
                } else {
                    old(self).spec_default()
                }
            },
            old(self).wf() ==> final(self).wf(),
    {
        if template_is_multipath(&descriptor) {
            return Err(KeyRingError::NotSinglePath);
        }
        if default || self.descriptors.is_empty() {
            self.default_keychain = keychain.clone();
        }
        self.descriptors.insert(keychain, descriptor);
        Ok(())
    }

    /// Parses `descriptor` against the ring's network and binds `keychain`
    /// to it, as [`KeyRing::insert_descriptor`] does.
    pub fn add_descriptor(&mut self, keychain: K, descriptor: &str, default: bool) -> (r: Result<
        (),
        KeyRingError,
    >)
        requires
            key_laws::<K>(),
        ensures
            match parsed_template(descriptor@, old(self).spec_network()) {
                None => r matches Err(KeyRingError::InvalidTemplate(s)) && s@ == descriptor@
                    && *final(self) == *old(self),
                Some(d) => if is_multipath(d) {
                    r matches Err(KeyRingError::NotSinglePath) && *final(self) == *old(self)
                } else {
                    &&& r is Ok
                    &&& final(self).spec_network() == old(self).spec_network()
                    &&& final(self).keychains() == old(self).keychains().insert(keychain, d)
                    &&& final(self).spec_default() == if default || old(self).keychains().is_empty() {
                        keychain
                    } else {
                        old(self).spec_default()
                    }
                },
            },
            old(self).wf() ==> final(self).wf(),
    {
        match parse_template(descriptor, self.network) {
            None => Err(KeyRingError::InvalidTemplate(descriptor.to_string())),
            Some(d) => self.insert_descriptor(keychain, d, default),
        }
    }

    /// The default keychain.
    pub fn default_keychain(&self) -> (r: K)
        requires
            key_laws::<K>(),
        ensures
            r == self.spec_default(),
    {
        self.default_keychain.clone()
    }

    /// The network the ring was made for.
    pub fn network(&self) -> (r: Network)
        ensures
            r == self.spec_network(),
    {
        self.network
    }

    /// The keychains of the ring and their descriptors.
    pub fn descriptors(&self) -> (r: &BTreeMap<K, Template>)
        ensures
            r@ == self.keychains(),
    {
        &self.descriptors
    }

    /// Everything the ring holds, as a changeset from which
    /// [`KeyRing::from_changeset`] rebuilds it.
    pub fn initial_changeset(&self) -> (r: ChangeSet<K>)
        requires
            key_laws::<K>(),
        ensures
            r.network == Some(self.spec_network()),
            r.descriptors@ == self.keychains(),
            r.default_keychain == Some(self.spec_default()),
    {
        ChangeSet {
            network: Some(self.network),
            descriptors: self.descriptors.clone(),
            default_keychain: Some(self.default_keychain.clone()),
        }
    }

    /// Rebuilds a ring from a changeset; `None` where the changeset records
    /// no network or no default keychain, that is, no ring yet.
    pub fn from_changeset(changeset: ChangeSet<K>) -> (r: Option<Self>)
        ensures
            match r {
                Some(ring) => changeset.ring_model() == Some(ring.model()),
                None => changeset.ring_model() is None,
            },
    {
        let ChangeSet { network, descriptors, default_keychain } = changeset;
        match (network, default_keychain) {
            (Some(network), Some(default_keychain)) => Some(
                KeyRing { network, descriptors, default_keychain },
            ),
            _ => None,
        }
    }
}

/// Every key of `s` is a key of `entries_map(s)`, and every binding of
/// `entries_map(s)` is one of the pairs of `s`.
pub proof fn lemma_entries_map<K, V>(s: Seq<(K, V)>)
    ensures
        forall|j: int| 0 <= j < s.len() ==> entries_map(s).contains_key(#[trigger] s[j].0),
        forall|k: K| #[trigger]
            entries_map(s).contains_key(k) ==> exists|j: int|
                0 <= j < s.len() && s[j].0 == k && s[j].1 == entries_map(s)[k],
    decreases s.len(),
{
    if s.len() > 0 {
        let p = s.drop_last();
        lemma_entries_map(p);
        assert forall|j: int| 0 <= j < s.len() implies entries_map(s).contains_key(
            #[trigger] s[j].0,
        ) by {
            if j < s.len() - 1 {
                assert(p[j] == s[j]);
            }
        }
        assert forall|k: K| #[trigger] entries_map(s).contains_key(k) implies exists|j: int|
            0 <= j < s.len() && s[j].0 == k && s[j].1 == entries_map(s)[k] by {
            if k == s.last().0 {
                assert(s[s.len() - 1].0 == k);
            } else {
                let j = choose|j: int| 0 <= j < p.len() && p[j].0 == k && p[j].1 == entries_map(p)[k];
                assert(s[j] == p[j]);
            }
        }
    }
}

/// Inserts the pairs of `entries` into `map` in order.
fn insert_entries<K: Ord, V>(map: &mut BTreeMap<K, V>, entries: Vec<(K, V)>)
    requires
        obeys_cmp::<K>(),
    ensures
        final(map)@ == old(map)@.union_prefer_right(entries_map(entries@)),
{
    let ghost start = map@;
    let ghost all = entries@;
    for e in it: entries.into_iter()
        invariant
            obeys_cmp::<K>(),
            it.seq() == all,
            map@ == start.union_prefer_right(entries_map(all.take(it.index()))),
    {
        let ghost n = it.index();
        assert(all.take(n + 1).drop_last() == all.take(n));
        let (k, v) = e;
        map.insert(k, v);
        assert(map@ =~= start.union_prefer_right(entries_map(all.take(n + 1))));
    }
    assert(all.take(all.len() as int) == all);
}

/// Splits a multi-path descriptor into one descriptor per path, in the order
/// of the paths, each paired with its fingerprint.
pub fn split_multipath(descriptor: Template) -> (r: Result<Vec<(DescriptorId, Template)>, KeyRingError>)
    ensures
        !is_multipath(descriptor) ==> r matches Err(KeyRingError::NotMultiPath),
        is_multipath(descriptor) ==> match branch_entries(descriptor) {
            None => r matches Err(KeyRingError::UnusableBranch),
            Some(entries) => r matches Ok(v) && v@ == entries,
        },
        r matches Ok(v) ==> forall|j: int| 0 <= j < v.len() ==> !is_multipath(#[trigger] v@[j].1),
{
    if !template_is_multipath(&descriptor) {
        return Err(KeyRingError::NotMultiPath);
    }
    let ghost whole = descriptor;
    let branches = match split_template(descriptor) {
        None => return Err(KeyRingError::UnusableBranch),
        Some(branches) => branches,
    };
    let ghost bs = branches@;
    let mut entries: Vec<(DescriptorId, Template)> = Vec::new();
    for b in it: branches.into_iter()
        invariant
            it.seq() == bs,
            whole == descriptor,
            is_multipath(whole),
            single_templates(whole) == Some(bs),
            forall|j: int| 0 <= j < bs.len() ==> !is_multipath(#[trigger] bs[j]),
            entries.len() == it.index(),
            forall|j: int|
                0 <= j < it.index() ==> publicly_derivable(bs[j]) && entries@[j] == (
                    #[trigger] fingerprint_of(bs[j]),
                    bs[j],
                ),
    {
        let ghost j = it.index();
        assert(b == bs[j]);
        if !is_publicly_derivable(&b) {
            return Err(KeyRingError::UnusableBranch);
        }
        let ghost before = entries@;
        let id = template_fingerprint(&b);
        entries.push((id, b));
        assert(entries@[j] == (fingerprint_of(bs[j]), bs[j]));
        assert forall|k: int| 0 <= k < j implies entries@[k] == (
            #[trigger] fingerprint_of(bs[k]),
            bs[k],
        ) by {
            assert(entries@[k] == before[k]);
        }
    }
    assert(entries.len() == bs.len());
    let ghost expected = bs.map_values(|b: Template| (fingerprint_of(b), b));
    assert forall|j: int| 0 <= j < bs.len() implies entries@[j] == expected[j] by {
        assert(entries@[j] == (fingerprint_of(bs[j]), bs[j]));
    }
    assert forall|j: int| 0 <= j < bs.len() implies #[trigger] publicly_derivable(bs[j]) by {
        assert(entries@[j] == (fingerprint_of(bs[j]), bs[j]));
    }
    assert(entries@ =~= expected);
    Ok(entries)
}

impl KeyRing<DescriptorId> {
    /// A ring holding every path of a multi-path descriptor, already checked
    /// against `network`, under its fingerprint; the path at `default_keychain`
    /// is the default.
    pub fn from_multipath_template(network: Network, descriptor: Template, default_keychain: usize) -> (r: Result<Self, KeyRingError>)
        requires
            obeys_cmp::<DescriptorId>(),
        ensures
            !is_multipath(descriptor) ==> r matches Err(KeyRingError::NotMultiPath),
            is_multipath(descriptor) ==> match branch_entries(descriptor) {
                None => r matches Err(KeyRingError::UnusableBranch),
                Some(entries) => if default_keychain < entries.len() {
                    r matches Ok(ring) && {
                        &&& ring.spec_network() == network
                        &&& ring.keychains() == entries_map(entries)
                        &&& ring.spec_default() == entries[default_keychain as int].0
                        &&& ring.wf()
                    }
                } else {
                    r matches Err(KeyRingError::BranchOutOfRange)
                },
            },
    {
        let entries = split_multipath(descriptor)?;
        if default_keychain >= entries.len() {
            return Err(KeyRingError::BranchOutOfRange);
        }
        let default_id = entries[default_keychain].0;
        let ghost e = entries@;
        let mut descriptors = BTreeMap::new();
        insert_entries(&mut descriptors, entries);
        proof {
            lemma_entries_map(e);
            assert(descriptors@ =~= entries_map(e));
            assert forall|k: DescriptorId| #[trigger] descriptors@.contains_key(k) implies !is_multipath(descriptors@[k]) by {
                let j = choose|j: int| 0 <= j < e.len() && e[j].0 == k && e[j].1 == entries_map(e)[k];
                assert(!is_multipath(e[j].1));
            }
        }
        Ok(KeyRing { network, descriptors, default_keychain: default_id })
    }

    /// Parses a multi-path descriptor against `network` and builds a ring of
    /// its paths, as [`KeyRing::from_multipath_template`] does.
    pub fn new_multipath(network: Network, descriptor: &str, default_keychain: usize) -> (r: Result<Self, KeyRingError>)
        requires
            obeys_cmp::<DescriptorId>(),
        ensures
            match parsed_template(descriptor@, network) {
                None => r matches Err(KeyRingError::InvalidTemplate(s)) && s@ == descriptor@,
                Some(d) => if !is_multipath(d) {
                    r matches Err(KeyRingError::NotMultiPath)
                } else {
                    match branch_entries(d) {
                        None => r matches Err(KeyRingError::UnusableBranch),
                        Some(entries) => if default_keychain < entries.len() {
                            r matches Ok(ring) && {
                                &&& ring.spec_network() == network
                                &&& ring.keychains() == entries_map(entries)
                                &&& ring.spec_default() == entries[default_keychain as int].0
                                &&& ring.wf()
                            }
                        } else {
                            r matches Err(KeyRingError::BranchOutOfRange)
                        },
                    }
                },
            },
    {
        match parse_template(descriptor, network) {
            None => Err(KeyRingError::InvalidTemplate(descriptor.to_string())),
            Some(d) => Self::from_multipath_template(network, d, default_keychain),
        }
    }

    /// Adds every path of a multi-path descriptor, already checked against
    /// the ring's network, under its fingerprint. The default keychain stays.
    pub fn insert_multipath_template(&mut self, descriptor: Template) -> (r: Result<(), KeyRingError>)
        requires
            obeys_cmp::<DescriptorId>(),
        ensures
            !is_multipath(descriptor) ==> (r matches Err(KeyRingError::NotMultiPath) && *final(self) == *old(self)),
            is_multipath(descriptor) ==> match branch_entries(descriptor) {
                None => r matches Err(KeyRingError::UnusableBranch) && *final(self) == *old(self),
                Some(entries) => {
                    &&& r is Ok
                    &&& final(self).spec_network() == old(self).spec_network()
                    &&& final(self).keychains() == old(self).keychains().union_prefer_right(entries_map(entries))
                    &&& final(self).spec_default() == old(self).spec_default()
                },
            },
            old(self).wf() ==> final(self).wf(),
    {
        let entries = split_multipath(descriptor)?;
        let ghost e = entries@;
        insert_entries(&mut self.descriptors, entries);
        proof {
            lemma_entries_map(e);
            assert forall|k: DescriptorId| #[trigger] self.keychains().contains_key(k) && !old(self).keychains().contains_key(k) implies !is_multipath(self.keychains()[k]) by {
                let j = choose|j: int| 0 <= j < e.len() && e[j].0 == k && e[j].1 == entries_map(e)[k];
                assert(!is_multipath(e[j].1));
            }
            assert forall|k: DescriptorId| #[trigger] entries_map(e).contains_key(k) implies !is_multipath(entries_map(e)[k]) by {
                let j = choose|j: int| 0 <= j < e.len() && e[j].0 == k && e[j].1 == entries_map(e)[k];
                assert(!is_multipath(e[j].1));
            }
        }
        Ok(())
    }

    /// Parses a multi-path descriptor against the ring's network and adds its
    /// paths, as [`KeyRing::insert_multipath_template`] does.
    pub fn add_multipath_descriptor(&mut self, descriptor: &str) -> (r: Result<(), KeyRingError>)
        requires
            obeys_cmp::<DescriptorId>(),
        ensures
            match parsed_template(descriptor@, old(self).spec_network()) {
                None => r matches Err(KeyRingError::InvalidTemplate(s)) && s@ == descriptor@
                    && *final(self) == *old(self),
                Some(d) => if !is_multipath(d) {
                    r matches Err(KeyRingError::NotMultiPath) && *final(self) == *old(self)
                } else {
                    match branch_entries(d) {
                        None => r matches Err(KeyRingError::UnusableBranch) && *final(self) == *old(self),
                        Some(entries) => {
                            &&& r is Ok
                            &&& final(self).spec_network() == old(self).spec_network()
                            &&& final(self).keychains() == old(self).keychains().union_prefer_right(entries_map(entries))
                            &&& final(self).spec_default() == old(self).spec_default()
                        },
                    }
                },
            },
            old(self).wf() ==> final(self).wf(),
    {
        match parse_template(descriptor, self.network) {
            None => Err(KeyRingError::InvalidTemplate(descriptor.to_string())),
            Some(d) => self.insert_multipath_template(d),
        }
    }
}

} // verus!
