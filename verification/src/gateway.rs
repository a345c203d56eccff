//! One mix node's advertised state, and its projection into the routing
//! representation consumed by the packet-encoding layer.

use crate::addressing::AddressEncodingError;
use crate::addressing::SocketAddress;
use crate::addressing::encode_routing_address;
use crate::addressing::lemma_encode_shape;
use crate::addressing::spec_encode;
use crate::sphinx::make_routing_node;
use crate::sphinx::routing_node_address;
use crate::sphinx::routing_node_key;
use vstd::prelude::*;

verus! {

/// One client currently registered with a gateway node.
#[derive(Debug, Clone)]
pub struct Client {
    /// The client's public key: an opaque string whose format is owned by
    /// the transport layer. Matched byte-exactly, never interpreted.
    pub pub_key: String,
}

/// One mix relay's advertised state: an immutable snapshot, replaced
/// wholesale by the topology-refresh collaborator and never patched in
/// place.
#[derive(Debug, Clone)]
pub struct TopologyNode {
    /// Free-text descriptive label; display only, non-authoritative.
    pub location: String,
    /// Opaque address string of the client-facing listener; its format is
    /// owned by the external transport layer.
    pub client_listener: String,
    /// The socket endpoint for inter-mix traffic: the address the routing
    /// projection encodes.
    pub mixnet_listener: SocketAddress,
    /// The node's long-term signing identity key.
    pub identity_key: [u8; 32],
    /// The node's Diffie-Hellman public key, used for per-hop encryption
    /// key agreement; reinterpreted, never re-derived, by the projection.
    pub sphinx_key: [u8; 32],
    /// Clients currently served by this gateway. Uniqueness of keys is
    /// expected but not enforced: duplicates are a caller error.
    pub registered_clients: Vec<Client>,
    /// Liveness timestamp, written only by the topology-refresh
    /// collaborator.
    pub last_seen: u64,
    /// Free-text software version, consumed by the external
    /// version-compatibility filter and never interpreted here.
    pub version: String,
}

impl TopologyNode {
    /// True iff some entry of the registration list holds exactly this
    /// public key: a linear scan with byte-exact string equality.
    pub fn has_client(&self, client_pub_key: String) -> (r: bool)
        ensures
            r == exists|i: int|
                0 <= i < self.registered_clients@.len()
                    && self.registered_clients@[i].pub_key@ == client_pub_key@,
    {
        let n = self.registered_clients.len();
        let mut i: usize = 0;
        while i < n
            invariant
                i <= n,
                n == self.registered_clients@.len(),
                forall|j: int|
                    0 <= j < i ==> self.registered_clients@[j].pub_key@ != client_pub_key@,
            decreases n - i,
        {
            if self.registered_clients[i].pub_key == client_pub_key {
                return true;
            }
            i += 1;
        }
        false
    }

    /// The advertised software version, handed to the external
    /// version-compatibility filter.
    pub fn version(&self) -> (r: String)
        ensures
            r@ == self.version@,
    {
        self.version.clone()
    }

    /// Projects this node into the routing representation the
    /// packet-encoding layer understands: the mixnet listener encoded into
    /// the fixed-width routing address, paired with this node's sphinx key.
    ///
    /// Every IPv4 or IPv6 listener is representable, so the projection
    /// succeeds on every node; an encoding failure would surface as a
    /// recoverable [`AddressEncodingError`], never an abort.
    pub fn to_routing_node(&self) -> (r: Result<
        sphinx_packet::route::Node,
        AddressEncodingError,
    >)
        ensures
            r matches Ok(n) && routing_node_address(n) == spec_encode(self.mixnet_listener)
                && routing_node_key(n) == self.sphinx_key@,
    {
        let address = match encode_routing_address(&self.mixnet_listener) {
            Ok(v) => v,
            Err(e) => {
                return Err(e);
            },
        };
        proof {
            lemma_encode_shape(self.mixnet_listener);
        }
        Ok(make_routing_node(&address, &self.sphinx_key))
    }
}

} // verus!
