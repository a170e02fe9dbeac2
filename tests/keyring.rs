use bdk_chain::{DescriptorExt, DescriptorId};
use bitcoin::Network;
use miniscript::{Descriptor, DescriptorPublicKey};
use multi_keychain_wallet::template::Template;
use multi_keychain_wallet::{ChangeSet, KeyRing, KeyRingError};
use std::collections::BTreeMap;
use std::str::FromStr;

const XPUB: &str = "tpubDDr5nR9j92Ud2yS68JmUTX2pGPxs6fVXxoxAnisvdWSy9QsYypCdzGbTtqqQtjTGG9WmFpDfvKKJNbUeKnKCX2YA9KpP558QBzqFvTa7C9S";

fn single(path: u32) -> String {
    format!("tr({}/{}/*)", XPUB, path)
}

fn multi() -> String {
    format!("tr({}/<0;1>/*)", XPUB)
}

fn id_of(text: &str) -> DescriptorId {
    Descriptor::<DescriptorPublicKey>::from_str(text)
        .expect("descriptor")
        .descriptor_id()
}

fn text_of(ring_descriptors: &BTreeMap<u32, Template>, k: u32) -> String {
    ring_descriptors[&k].to_text()
}

#[test]
fn default_stays_until_set() {
    let mut ring = KeyRing::new(Network::Regtest, (1u32, single(1).as_str())).unwrap();
    ring.add_descriptor(2, &single(2), false).unwrap();
    assert_eq!(ring.default_keychain(), 1);
    ring.add_descriptor(2, &single(2), true).unwrap();
    assert_eq!(ring.default_keychain(), 2);
    assert_eq!(ring.descriptors().len(), 2);
}

#[test]
fn overwrite_replaces_descriptor() {
    let mut ring = KeyRing::new(Network::Regtest, (1u32, single(1).as_str())).unwrap();
    let before = text_of(ring.descriptors(), 1);
    ring.add_descriptor(1, &single(7), false).unwrap();
    assert_eq!(ring.descriptors().len(), 1);
    let after = text_of(ring.descriptors(), 1);
    assert_ne!(before, after);
    assert!(after.starts_with(&single(7)));
}

#[test]
fn multipath_ring_holds_both_paths() {
    let ring = KeyRing::new_multipath(Network::Regtest, &multi(), 0).unwrap();
    let id0 = id_of(&single(0));
    let id1 = id_of(&single(1));
    assert_ne!(id0, id1);
    assert_eq!(ring.descriptors().len(), 2);
    assert!(ring.descriptors().contains_key(&id0));
    assert!(ring.descriptors().contains_key(&id1));
    assert_eq!(ring.default_keychain(), id0);
    assert!(ring.descriptors()[&id1].to_text().starts_with(&single(1)));
    let ring1 = KeyRing::new_multipath(Network::Regtest, &multi(), 1).unwrap();
    assert_eq!(ring1.default_keychain(), id1);
}

#[test]
fn multipath_index_out_of_range() {
    let r = KeyRing::new_multipath(Network::Regtest, &multi(), 2);
    assert_eq!(r.err(), Some(KeyRingError::BranchOutOfRange));
}

#[test]
fn multipath_rejects_single_path() {
    let r = KeyRing::new_multipath(Network::Regtest, &single(0), 0);
    assert_eq!(r.err(), Some(KeyRingError::NotMultiPath));
    let mut ring = KeyRing::new_multipath(Network::Regtest, &multi(), 0).unwrap();
    assert_eq!(
        ring.add_multipath_descriptor(&single(5)),
        Err(KeyRingError::NotMultiPath)
    );
    assert_eq!(ring.descriptors().len(), 2);
}

#[test]
fn single_path_entry_rejects_multipath() {
    let mut ring = KeyRing::new(Network::Regtest, (1u32, single(1).as_str())).unwrap();
    assert_eq!(
        ring.add_descriptor(3, &multi(), false),
        Err(KeyRingError::NotSinglePath)
    );
    assert_eq!(ring.descriptors().len(), 1);
    let r = KeyRing::new(Network::Regtest, (1u32, multi().as_str()));
    assert_eq!(r.err(), Some(KeyRingError::NotSinglePath));
}

#[test]
fn unparseable_text_is_invalid() {
    let mut ring = KeyRing::new(Network::Regtest, (1u32, single(1).as_str())).unwrap();
    assert_eq!(
        ring.add_descriptor(2, "tr(not a key)", true),
        Err(KeyRingError::InvalidTemplate("tr(not a key)".to_string()))
    );
    assert_eq!(ring.default_keychain(), 1);
    assert_eq!(ring.descriptors().len(), 1);
}

#[test]
fn wrong_network_is_invalid() {
    let r = KeyRing::new(Network::Bitcoin, (1u32, single(1).as_str()));
    assert_eq!(r.err(), Some(KeyRingError::InvalidTemplate(single(1))));
    assert!(Template::parse(&single(1), Network::Bitcoin).is_none());
    assert!(Template::parse(&single(1), Network::Testnet).is_some());
}

#[test]
fn hardened_wildcard_path_is_unusable() {
    let text = format!("wpkh({}/<0;1>/*h)", XPUB);
    let t = Template::parse(&text, Network::Regtest).expect("parses");
    assert!(!multi_keychain_wallet::template::is_publicly_derivable(&t));
    assert!(matches!(
        multi_keychain_wallet::keyring::split_multipath(t),
        Err(KeyRingError::UnusableBranch)
    ));
    let r = KeyRing::new_multipath(Network::Regtest, &text, 0);
    assert_eq!(r.err(), Some(KeyRingError::UnusableBranch));
    let plain = Template::parse(&single(3), Network::Regtest).unwrap();
    assert!(multi_keychain_wallet::template::is_publicly_derivable(&plain));
}

#[test]
fn split_twice_gives_same_pairs() {
    let a = multi_keychain_wallet::keyring::split_multipath(
        Template::parse(&multi(), Network::Regtest).unwrap(),
    )
    .unwrap();
    let b = multi_keychain_wallet::keyring::split_multipath(
        Template::parse(&multi(), Network::Regtest).unwrap(),
    )
    .unwrap();
    assert_eq!(a.len(), 2);
    let ka: Vec<(DescriptorId, String)> = a.iter().map(|(k, t)| (*k, t.to_text())).collect();
    let kb: Vec<(DescriptorId, String)> = b.iter().map(|(k, t)| (*k, t.to_text())).collect();
    assert_eq!(ka, kb);
    assert_eq!(ka[0].0, id_of(&single(0)));

    let mut ring = KeyRing::new_multipath(Network::Regtest, &multi(), 1).unwrap();
    let before: Vec<(DescriptorId, String)> =
        ring.descriptors().iter().map(|(k, t)| (*k, t.to_text())).collect();
    ring.add_multipath_descriptor(&multi()).unwrap();
    let after: Vec<(DescriptorId, String)> =
        ring.descriptors().iter().map(|(k, t)| (*k, t.to_text())).collect();
    assert_eq!(before, after);
    assert_eq!(ring.default_keychain(), id_of(&single(1)));
}

#[test]
fn add_multipath_keeps_default() {
    let mut ring = KeyRing::new(Network::Regtest, (id_of(&single(9)), single(9).as_str())).unwrap();
    ring.add_multipath_descriptor(&multi()).unwrap();
    assert_eq!(ring.descriptors().len(), 3);
    assert_eq!(ring.default_keychain(), id_of(&single(9)));
}

#[test]
fn round_trip_through_changeset() {
    let mut ring = KeyRing::new(Network::Regtest, (1u32, single(1).as_str())).unwrap();
    ring.add_descriptor(2, &single(2), true).unwrap();
    let rebuilt = KeyRing::from_changeset(ring.initial_changeset()).unwrap();
    assert_eq!(rebuilt.network(), Network::Regtest);
    assert_eq!(rebuilt.default_keychain(), 2);
    assert_eq!(rebuilt.descriptors().len(), 2);
    assert_eq!(text_of(rebuilt.descriptors(), 1), text_of(ring.descriptors(), 1));
    assert_eq!(text_of(rebuilt.descriptors(), 2), text_of(ring.descriptors(), 2));
}

#[test]
fn from_changeset_needs_network_and_default() {
    let ring = KeyRing::new(Network::Regtest, (1u32, single(1).as_str())).unwrap();
    let mut cs = ring.initial_changeset();
    cs.network = None;
    assert!(KeyRing::from_changeset(cs).is_none());
    let mut cs = ring.initial_changeset();
    cs.default_keychain = None;
    assert!(KeyRing::from_changeset(cs).is_none());
    let cs: ChangeSet<u32> = ChangeSet::default();
    assert!(KeyRing::from_changeset(cs).is_none());
}

fn changeset(network: Option<Network>, pairs: &[(u32, u32)], default: Option<u32>) -> ChangeSet<u32> {
    let mut descriptors = BTreeMap::new();
    for (k, path) in pairs {
        descriptors.insert(*k, Template::parse(&single(*path), Network::Regtest).unwrap());
    }
    ChangeSet { network, descriptors, default_keychain: default }
}

#[test]
fn merge_last_write_wins() {
    let mut a = changeset(Some(Network::Regtest), &[(1, 1), (3, 3)], Some(1));
    let b = changeset(None, &[(1, 2)], Some(3));
    a.merge(b);
    assert_eq!(a.descriptors.len(), 2);
    assert!(a.descriptors[&1].to_text().starts_with(&single(2)));
    assert!(a.descriptors[&3].to_text().starts_with(&single(3)));
    assert_eq!(a.network, Some(Network::Regtest));
    assert_eq!(a.default_keychain, Some(3));
}

#[test]
fn merge_default_override() {
    let mut a = changeset(None, &[(1, 1)], Some(1));
    a.merge(changeset(None, &[], Some(2)));
    assert_eq!(a.default_keychain, Some(2));
    a.merge(changeset(None, &[], None));
    assert_eq!(a.default_keychain, None);
}

#[test]
fn merge_network_first_wins() {
    let mut a = changeset(None, &[], None);
    a.merge(changeset(Some(Network::Testnet), &[], None));
    assert_eq!(a.network, Some(Network::Testnet));
    a.merge(changeset(Some(Network::Signet), &[], None));
    assert_eq!(a.network, Some(Network::Testnet));
}

#[test]
fn default_only_changeset_is_empty() {
    let cs = changeset(None, &[], Some(4));
    assert!(cs.is_empty());
    assert!(!changeset(Some(Network::Regtest), &[], None).is_empty());
    assert!(!changeset(None, &[(1, 1)], None).is_empty());
    assert!(ChangeSet::<u32>::default().is_empty());
}
