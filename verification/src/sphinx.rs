//! Trusted boundary to the sphinx packet-encoding crate.
//!
//! The routing representation consumed by the encoding layer is
//! `sphinx_packet::route::Node`. The type is opaque here; the two
//! uninterpreted functions below name the bytes such a node carries, and the
//! single trusted constructor states that a node holds exactly the bytes it
//! was built from.

use crate::addressing::ROUTING_ADDRESS_LENGTH;
use vstd::prelude::*;

verus! {

/// `sphinx_packet::route::Node`: the (address, key) pair that the
/// packet-encoding layer consumes for each hop. Opaque to verification.
#[verifier::external_type_specification]
#[verifier::external_body]
pub struct ExRoutingNode(sphinx_packet::route::Node);

/// The fixed-width address bytes a routing node carries.
pub uninterp spec fn routing_node_address(n: sphinx_packet::route::Node) -> Seq<u8>;

/// The public-key bytes a routing node carries.
pub uninterp spec fn routing_node_key(n: sphinx_packet::route::Node) -> Seq<u8>;

/// Relies on `sphinx_packet::route::Node::new`,
/// `sphinx_packet::route::NodeAddressBytes::from_bytes` and
/// `x25519_dalek::PublicKey::from` (re-exported as
/// `sphinx_packet::crypto::PublicKey`): each stores the bytes it is given
/// verbatim, so the returned node carries exactly the given address bytes
/// and key bytes.
#[verifier::external_body]
pub(crate) fn make_routing_node(address: &Vec<u8>, key: &[u8; 32]) -> (r:
    sphinx_packet::route::Node)
    requires
        address@.len() == ROUTING_ADDRESS_LENGTH,
    ensures
        routing_node_address(r) == address@,
        routing_node_key(r) == key@,
{
    let mut address_bytes = [0u8; 32];
    address_bytes.copy_from_slice(address);
    sphinx_packet::route::Node::new(
        sphinx_packet::route::NodeAddressBytes::from_bytes(address_bytes),
        sphinx_packet::crypto::PublicKey::from(*key),
    )
}

} // verus!
