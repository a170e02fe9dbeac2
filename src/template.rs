//! Descriptors, networks and descriptor identifiers come from the bitcoin
//! ecosystem crates. This module declares them to the verifier and states
//! what the library relies on of the few calls it makes into them.
use bdk_chain::{DescriptorExt, DescriptorId};
use bdk_wallet::descriptor::IntoWalletDescriptor;
use bitcoin::secp256k1::Secp256k1;
use bitcoin::Network;
use miniscript::descriptor::Wildcard;
use miniscript::{Descriptor, DescriptorPublicKey, ForEachKey};
use vstd::prelude::*;

verus! {

/// A parsed public descriptor, as stored in a key ring. Its contents are
/// miniscript's; the library reads them only through the functions below.
#[verifier::external_body]
#[derive(Debug)]
pub struct Template {
    descriptor: Descriptor<DescriptorPublicKey>,
}

#[verifier::external_type_specification]
#[verifier::external_body]
pub struct ExNetwork(Network);

#[verifier::external_type_specification]
#[verifier::external_body]
pub struct ExDescriptorPublicKey(DescriptorPublicKey);

/// How an extended key's derivation path ends.
#[derive(Debug, Clone, Copy, PartialEq, Eq)]
pub enum KeyWildcard {
    /// No wildcard: the key derives one script.
    Fixed,
    /// A normal child index follows the path.
    Unhardened,
    /// A hardened child index follows the path.
    Hardened,
}

#[verifier::external_type_specification]
#[verifier::external_body]
pub struct ExDescriptorId(DescriptorId);

/// The descriptor that `text` denotes once parsed and checked against
/// `network`, or `None` where it does not parse or its keys belong to another
/// network.
pub uninterp spec fn parsed_template(text: Seq<char>, network: Network) -> Option<Template>;

/// Whether a descriptor holds a key with several parallel derivation paths.
pub uninterp spec fn is_multipath(d: Template) -> bool;

/// The single-path descriptors that a descriptor splits into, in the order of
/// its paths; `None` where the split fails.
pub uninterp spec fn single_templates(d: Template) -> Option<Seq<Template>>;

/// The content-derived identifier of a single-path descriptor.
pub uninterp spec fn fingerprint_of(d: Template) -> DescriptorId;

/// The keys of a descriptor, as miniscript's `ForEachKey` visits them.
pub uninterp spec fn keys_of(d: Template) -> Seq<DescriptorPublicKey>;

/// Whether a key's derivation path holds a hardened step.
pub uninterp spec fn has_hardened_step(k: DescriptorPublicKey) -> bool;

/// How a key's derivation path ends; `Fixed` for a plain public key.
pub uninterp spec fn wildcard_of(k: DescriptorPublicKey) -> KeyWildcard;

/// Whether a descriptor can be derived at index zero with public
/// derivation alone: no key has a hardened step or a hardened wildcard.
pub open spec fn publicly_derivable(d: Template) -> bool {
    forall|i: int| 0 <= i < keys_of(d).len() ==> !blocks_public_derivation(#[trigger] keys_of(d)[i])
}

/// Whether a key's hardened step or hardened wildcard keeps it from being
/// derived from the public key alone.
pub open spec fn blocks_public_derivation(k: DescriptorPublicKey) -> bool {
    has_hardened_step(k) || wildcard_of(k) is Hardened
}

/// The canonical text of a descriptor.
pub uninterp spec fn text_of(d: Template) -> Seq<char>;

/// Relies on bdk_wallet's `IntoWalletDescriptor::into_wallet_descriptor` for
/// `&str`: it parses the text and checks each key against the network; the
/// result depends on those two alone (a fresh secp256k1 context only does the
/// arithmetic).
#[verifier::external_body]
pub(crate) fn parse_template(text: &str, network: Network) -> (r: Option<Template>)
    ensures
        r == parsed_template(text@, network),
{
    match text.into_wallet_descriptor(&Secp256k1::new(), network) {
        Ok((descriptor, _keys)) => Some(Template { descriptor }),
        Err(_) => None,
    }
}

/// Relies on miniscript's `Descriptor::is_multipath`.
#[verifier::external_body]
pub(crate) fn template_is_multipath(d: &Template) -> (r: bool)
    ensures
        r == is_multipath(*d),
{
    d.descriptor.is_multipath()
}

/// Relies on miniscript's `Descriptor::into_single_descriptors`: one
/// descriptor per parallel path, in the order the paths are written, each
/// with the multi-path key replaced by its single key for that path.
#[verifier::external_body]
pub(crate) fn split_template(d: Template) -> (r: Option<Vec<Template>>)
    ensures
        match r {
            Some(v) => single_templates(d) == Some(v@) && forall|i: int|
                0 <= i < v.len() ==> !is_multipath(#[trigger] v@[i]),
            None => single_templates(d) is None,
        },
{
    match d.descriptor.into_single_descriptors() {
        Ok(v) => Some(v.into_iter().map(|descriptor| Template { descriptor }).collect()),
        Err(_) => None,
    }
}

/// Relies on bdk_chain's `DescriptorExt::descriptor_id`, a hash of the
/// script derived at index zero. It unwraps miniscript's
/// `Descriptor::at_derivation_index(0)`, which fails on a multi-path key and
/// panics on a key that a hardened step or wildcard keeps from public
/// derivation; `requires` leaves both out.
#[verifier::external_body]
pub(crate) fn template_fingerprint(d: &Template) -> (r: DescriptorId)
    requires
        !is_multipath(*d),
        publicly_derivable(*d),
    ensures
        r == fingerprint_of(*d),
{
    d.descriptor.descriptor_id()
}

/// Relies on miniscript's `ForEachKey::for_any_key` for descriptors: whether
/// the predicate holds of some key.
#[verifier::external_body]
fn template_any_key_blocks(d: &Template) -> (r: bool)
    ensures
        r == (exists|i: int| 0 <= i < keys_of(*d).len() && blocks_public_derivation(keys_of(*d)[i])),
{
    d.descriptor.for_any_key(|k| key_blocks_public_derivation(k))
}

/// Relies on miniscript's `DescriptorPublicKey::has_hardened_step`.
#[verifier::external_body]
fn key_has_hardened_step(k: &DescriptorPublicKey) -> (r: bool)
    ensures
        r == has_hardened_step(*k),
{
    k.has_hardened_step()
}

/// Reads the `wildcard` field of miniscript's extended keys.
#[verifier::external_body]
fn key_wildcard(k: &DescriptorPublicKey) -> (r: KeyWildcard)
    ensures
        r == wildcard_of(*k),
{
    let w = match k {
        DescriptorPublicKey::Single(_) => return KeyWildcard::Fixed,
        DescriptorPublicKey::XPub(x) => x.wildcard,
        DescriptorPublicKey::MultiXPub(x) => x.wildcard,
    };
    match w {
        Wildcard::None => KeyWildcard::Fixed,
        Wildcard::Unhardened => KeyWildcard::Unhardened,
        Wildcard::Hardened => KeyWildcard::Hardened,
    }
}

/// Whether a key's hardened step or hardened wildcard keeps it from being
/// derived from the public key alone.
pub fn key_blocks_public_derivation(k: &DescriptorPublicKey) -> (r: bool)
    ensures
        r == blocks_public_derivation(*k),
{
    if key_has_hardened_step(k) {
        return true;
    }
    match key_wildcard(k) {
        KeyWildcard::Hardened => true,
        _ => false,
    }
}

/// Whether every key of `d` derives publicly, so that `d` has a fingerprint.
pub fn is_publicly_derivable(d: &Template) -> (r: bool)
    ensures
        r == publicly_derivable(*d),
{
    !template_any_key_blocks(d)
}

/// Relies on miniscript's `Display` for descriptors: the descriptor's text
/// with its checksum.
#[verifier::external_body]
pub(crate) fn template_text(d: &Template) -> (r: String)
    ensures
        r@ == text_of(*d),
{
    d.descriptor.to_string()
}

impl Clone for Template {
    /// Relies on miniscript's derived `Clone` for descriptors: the copy is
    /// the same descriptor.
    #[verifier::external_body]
    fn clone(&self) -> (r: Self)
        ensures
            r == *self,
    {
        Template { descriptor: self.descriptor.clone() }
    }
}

impl Template {
    /// The descriptor that `text` denotes on `network`; `None` where it does
    /// not parse or a key in it belongs to another network.
    pub fn parse(text: &str, network: Network) -> (r: Option<Template>)
        ensures
            r == parsed_template(text@, network),
    {
        parse_template(text, network)
    }

    /// The descriptor written out, checksum included.
    pub fn to_text(&self) -> (r: String)
        ensures
            r@ == text_of(*self),
    {
        template_text(self)
    }
}

} // verus!
