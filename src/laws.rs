//! Laws that relate several operations of the key ring and its changesets.
use crate::changeset::{merge_parts, ChangeSet, Parts};
use crate::keyring::{branch_entries, entries_map, KeyRing};
use crate::template::Template;
use bdk_chain::DescriptorId;
use vstd::prelude::*;

verus! {

/// Rebuilding a ring from its initial changeset gives back the ring's
/// network, keychains and default keychain.
pub proof fn lemma_round_trip<K: Ord + Clone>(ring: KeyRing<K>, snapshot: ChangeSet<K>)
    requires
        snapshot.network == Some(ring.spec_network()),
        snapshot.descriptors@ == ring.keychains(),
        snapshot.default_keychain == Some(ring.spec_default()),
    ensures
        snapshot.ring_model() == Some(ring.model()),
{
}

/// Splitting a multi-path descriptor again, for instance after a reload,
/// yields the same pairs: adding them to a ring that already holds them
/// changes nothing.
pub proof fn lemma_split_again_adds_nothing(
    keychains: Map<DescriptorId, Template>,
    descriptor: Template,
)
    requires
        branch_entries(descriptor) is Some,
        entries_map(branch_entries(descriptor)->Some_0).submap_of(keychains),
    ensures
        keychains.union_prefer_right(entries_map(branch_entries(descriptor)->Some_0))
            == keychains,
{
    let added = entries_map(branch_entries(descriptor)->Some_0);
    assert forall|k: DescriptorId| #[trigger] added.contains_key(k) implies keychains.contains_key(k)
        && keychains[k] == added[k] by {}
    assert(keychains.union_prefer_right(added) =~= keychains);
}

/// Where the later changeset binds `k`, the merge binds `k` as it does.
pub proof fn lemma_merge_last_write_wins<K>(earlier: Parts<K>, later: Parts<K>, k: K)
    requires
        later.1.contains_key(k),
    ensures
        merge_parts(earlier, later).1[k] == later.1[k],
{
}

/// Keychains bound only by the earlier changeset keep their binding.
pub proof fn lemma_merge_keeps_earlier<K>(earlier: Parts<K>, later: Parts<K>, k: K)
    requires
        earlier.1.contains_key(k),
        !later.1.contains_key(k),
    ensures
        merge_parts(earlier, later).1[k] == earlier.1[k],
{
}

/// The later changeset's default keychain always wins, absent or not.
pub proof fn lemma_merge_default_override<K>(earlier: Parts<K>, later: Parts<K>)
    ensures
        merge_parts(earlier, later).2 == later.2,
{
}

/// Merging changesets in the order they were produced is associative.
pub proof fn lemma_merge_associative<K>(a: Parts<K>, b: Parts<K>, c: Parts<K>)
    ensures
        merge_parts(merge_parts(a, b), c) == merge_parts(a, merge_parts(b, c)),
{
    assert(a.1.union_prefer_right(b.1).union_prefer_right(c.1) =~= a.1.union_prefer_right(
        b.1.union_prefer_right(c.1),
    ));
}

} // verus!
