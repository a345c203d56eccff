//! The fixed-width routing-address wire format.
//!
//! A relay address embedded inside an encrypted packet header must have the
//! same width whether the underlying endpoint is IPv4 or IPv6: one tag byte
//! distinguishing the two families, the address octets, a big-endian port,
//! and zero padding up to the fixed width shared with the packet header.

use vstd::prelude::*;

verus! {

broadcast use vstd::array::group_array_axioms;

/// Width in bytes of an encoded routing address; equal to the node-address
/// field of the packet header.
pub const ROUTING_ADDRESS_LENGTH: usize = 32;

/// Tag byte marking an IPv4 endpoint.
pub const V4_TAG: u8 = 4;

/// Tag byte marking an IPv6 endpoint.
pub const V6_TAG: u8 = 6;

/// A byte string cannot be represented in, or read back from, the
/// fixed-width routing-address format. Recoverable: the caller drops the
/// node from its routing candidates, the process never aborts.
#[derive(Clone, Copy, Debug, PartialEq, Eq, Structural)]
pub struct AddressEncodingError;

/// An IPv4 endpoint: four address octets and a port.
#[derive(Clone, Copy, Debug, PartialEq, Eq)]
pub struct SocketAddressV4 {
    /// The address octets, most significant first.
    pub octets: [u8; 4],
    /// The port.
    pub port: u16,
}

/// An IPv6 endpoint: sixteen address octets and a port.
#[derive(Clone, Copy, Debug, PartialEq, Eq)]
pub struct SocketAddressV6 {
    /// The address octets, most significant first.
    pub octets: [u8; 16],
    /// The port.
    pub port: u16,
}

/// A mix node's socket endpoint, held as plain address octets and a port so
/// that the encoding below is a pure function of the value.
#[derive(Clone, Copy, Debug, PartialEq, Eq)]
pub enum SocketAddress {
    /// An IPv4 endpoint.
    V4(SocketAddressV4),
    /// An IPv6 endpoint.
    V6(SocketAddressV6),
}

/// The fixed-width encoding of a socket address: the family tag byte, the
/// address octets, the port in big-endian order, then zero padding up to
/// [`ROUTING_ADDRESS_LENGTH`] bytes.
pub open spec fn spec_encode(a: SocketAddress) -> Seq<u8> {
    match a {
        SocketAddress::V4(v4) => Seq::new(
            ROUTING_ADDRESS_LENGTH as nat,
            |i: int|
                {
                    if i == 0 {
                        V4_TAG
                    } else if 1 <= i < 5 {
                        v4.octets@[i - 1]
                    } else if i == 5 {
                        (v4.port / 256) as u8
                    } else if i == 6 {
                        (v4.port % 256) as u8
                    } else {
                        0u8
                    }
                },
        ),
        SocketAddress::V6(v6) => Seq::new(
            ROUTING_ADDRESS_LENGTH as nat,
            |i: int|
                {
                    if i == 0 {
                        V6_TAG
                    } else if 1 <= i < 17 {
                        v6.octets@[i - 1]
                    } else if i == 17 {
                        (v6.port / 256) as u8
                    } else if i == 18 {
                        (v6.port % 256) as u8
                    } else {
                        0u8
                    }
                },
        ),
    }
}

/// Shape facts of the encoding, for reasoning about an address whose
/// variant is not yet known.
pub proof fn lemma_encode_shape(a: SocketAddress)
    ensures
        spec_encode(a).len() == ROUTING_ADDRESS_LENGTH,
        a is V4 ==> spec_encode(a)[0] == V4_TAG,
        a is V6 ==> spec_encode(a)[0] == V6_TAG,
        a is V4 ==> forall|j: int| 7 <= j < 32 ==> spec_encode(a)[j] == 0u8,
        a is V6 ==> forall|j: int| 19 <= j < 32 ==> spec_encode(a)[j] == 0u8,
{
}

/// Encoding is injective: distinct socket addresses never share an encoded
/// form, so the decoded form of an encoding is exactly the address that
/// produced it (the round-trip law, for IPv4 and IPv6 alike).
pub proof fn lemma_encode_injective(a1: SocketAddress, a2: SocketAddress)
    requires
        spec_encode(a1) == spec_encode(a2),
    ensures
        a1 == a2,
{
    lemma_encode_shape(a1);
    lemma_encode_shape(a2);
    match (a1, a2) {
        (SocketAddress::V4(v1), SocketAddress::V4(v2)) => {
            assert forall|j: int| 0 <= j < 4 implies v1.octets@[j] == v2.octets@[j] by {
                assert(spec_encode(SocketAddress::V4(v1))[j + 1] == v1.octets@[j]);
                assert(spec_encode(SocketAddress::V4(v2))[j + 1] == v2.octets@[j]);
            }
            assert(v1.octets =~= v2.octets);
            assert(spec_encode(SocketAddress::V4(v1))[5] == (v1.port / 256) as u8);
            assert(spec_encode(SocketAddress::V4(v2))[5] == (v2.port / 256) as u8);
            assert(spec_encode(SocketAddress::V4(v1))[6] == (v1.port % 256) as u8);
            assert(spec_encode(SocketAddress::V4(v2))[6] == (v2.port % 256) as u8);
            assert(v1.port / 256 == v2.port / 256);
            assert(v1.port % 256 == v2.port % 256);
            assert(v1.port == (v1.port / 256) * 256 + (v1.port % 256));
            assert(v2.port == (v2.port / 256) * 256 + (v2.port % 256));
            assert(v1 == v2);
        },
        (SocketAddress::V6(v1), SocketAddress::V6(v2)) => {
            assert forall|j: int| 0 <= j < 16 implies v1.octets@[j] == v2.octets@[j] by {
                assert(spec_encode(SocketAddress::V6(v1))[j + 1] == v1.octets@[j]);
                assert(spec_encode(SocketAddress::V6(v2))[j + 1] == v2.octets@[j]);
            }
            assert(v1.octets =~= v2.octets);
            assert(spec_encode(SocketAddress::V6(v1))[17] == (v1.port / 256) as u8);
            assert(spec_encode(SocketAddress::V6(v2))[17] == (v2.port / 256) as u8);
            assert(spec_encode(SocketAddress::V6(v1))[18] == (v1.port % 256) as u8);
            assert(spec_encode(SocketAddress::V6(v2))[18] == (v2.port % 256) as u8);
            assert(v1.port / 256 == v2.port / 256);
            assert(v1.port % 256 == v2.port % 256);
            assert(v1.port == (v1.port / 256) * 256 + (v1.port % 256));
            assert(v2.port == (v2.port / 256) * 256 + (v2.port % 256));
            assert(v1 == v2);
        },
        (SocketAddress::V4(_), SocketAddress::V6(_)) => {
            assert(spec_encode(a1)[0] == spec_encode(a2)[0]);
        },
        (SocketAddress::V6(_), SocketAddress::V4(_)) => {
            assert(spec_encode(a1)[0] == spec_encode(a2)[0]);
        },
    }
}

/// Encodes a socket address into the fixed-width routing-address format.
///
/// Every IPv4 or IPv6 endpoint is representable, so the result is always
/// `Ok`; the `Result` form is the contract with callers, which must treat an
/// encoding failure as recoverable.
pub fn encode_routing_address(a: &SocketAddress) -> (r: Result<Vec<u8>, AddressEncodingError>)
    ensures
        r matches Ok(v) && v@ == spec_encode(*a),
{
    let mut out: Vec<u8> = Vec::new();
    match a {
        SocketAddress::V4(v4) => {
            out.push(V4_TAG);
            let mut i: usize = 0;
            while i < 4
                invariant
                    i <= 4,
                    out@.len() == 1 + i,
                    *a == SocketAddress::V4(*v4),
                    forall|j: int| 0 <= j < out@.len() ==> out@[j] == spec_encode(*a)[j],
                decreases 4 - i,
            {
                out.push(v4.octets[i]);
                i += 1;
            }
            out.push((v4.port / 256) as u8);
            out.push((v4.port % 256) as u8);
        },
        SocketAddress::V6(v6) => {
            out.push(V6_TAG);
            let mut i: usize = 0;
            while i < 16
                invariant
                    i <= 16,
                    out@.len() == 1 + i,
                    *a == SocketAddress::V6(*v6),
                    forall|j: int| 0 <= j < out@.len() ==> out@[j] == spec_encode(*a)[j],
                decreases 16 - i,
            {
                out.push(v6.octets[i]);
                i += 1;
            }
            out.push((v6.port / 256) as u8);
            out.push((v6.port % 256) as u8);
        },
    }
    while out.len() < ROUTING_ADDRESS_LENGTH
        invariant
            out@.len() <= ROUTING_ADDRESS_LENGTH,
            *a is V4 ==> out@.len() >= 7,
            *a is V6 ==> out@.len() >= 19,
            forall|j: int| 0 <= j < out@.len() ==> out@[j] == spec_encode(*a)[j],
        decreases ROUTING_ADDRESS_LENGTH - out@.len(),
    {
        proof {
            lemma_encode_shape(*a);
        }
        out.push(0u8);
    }
    proof {
        lemma_encode_shape(*a);
        assert(out@ =~= spec_encode(*a));
    }
    Ok(out)
}

/// Decodes a fixed-width routing address back into the socket endpoint it
/// encodes. Succeeds exactly on the canonical encodings that
/// [`encode_routing_address`] produces: anything else — wrong length, an
/// unknown family tag, or nonzero padding — is rejected.
pub fn decode_routing_address(b: &Vec<u8>) -> (r: Result<SocketAddress, AddressEncodingError>)
    ensures
        match r {
            Ok(a) => b@ == spec_encode(a),
            Err(_) => forall|a: SocketAddress| b@ != #[trigger] spec_encode(a),
        },
{
    if b.len() != ROUTING_ADDRESS_LENGTH {
        proof {
            assert forall|a: SocketAddress| b@ != #[trigger] spec_encode(a) by {
                lemma_encode_shape(a);
            }
        }
        return Err(AddressEncodingError);
    }
    let tag = b[0];
    if tag == V4_TAG {
        let mut i: usize = 7;
        while i < ROUTING_ADDRESS_LENGTH
            invariant
                7 <= i <= 32,
                b@.len() == 32,
                b@[0] == V4_TAG,
                forall|j: int| 7 <= j < i ==> b@[j] == 0u8,
            decreases 32 - i,
        {
            if b[i] != 0 {
                proof {
                    assert forall|a: SocketAddress| b@ != #[trigger] spec_encode(a) by {
                        lemma_encode_shape(a);
                        if a is V4 {
                            assert(spec_encode(a)[i as int] == 0u8);
                        } else {
                            assert(spec_encode(a)[0] == V6_TAG);
                        }
                    }
                }
                return Err(AddressEncodingError);
            }
            i += 1;
        }
        let octets: [u8; 4] = [b[1], b[2], b[3], b[4]];
        let port: u16 = (b[5] as u16) * 256 + (b[6] as u16);
        let addr = SocketAddress::V4(SocketAddressV4 { octets, port });
        proof {
            assert(port / 256 == b@[5] && port % 256 == b@[6]) by (nonlinear_arith)
                requires
                    port == b@[5] * 256 + b@[6],
                    0 <= b@[5] < 256,
                    0 <= b@[6] < 256,
            ;
            assert(b@ =~= spec_encode(addr));
        }
        Ok(addr)
    } else if tag == V6_TAG {
        let mut i: usize = 19;
        while i < ROUTING_ADDRESS_LENGTH
            invariant
                19 <= i <= 32,
                b@.len() == 32,
                b@[0] == V6_TAG,
                forall|j: int| 19 <= j < i ==> b@[j] == 0u8,
            decreases 32 - i,
        {
            if b[i] != 0 {
                proof {
                    assert forall|a: SocketAddress| b@ != #[trigger] spec_encode(a) by {
                        lemma_encode_shape(a);
                        if a is V6 {
                            assert(spec_encode(a)[i as int] == 0u8);
                        } else {
                            assert(spec_encode(a)[0] == V4_TAG);
                        }
                    }
                }
                return Err(AddressEncodingError);
            }
            i += 1;
        }
        let octets: [u8; 16] = [
            b[1],
            b[2],
            b[3],
            b[4],
            b[5],
            b[6],
            b[7],
            b[8],
            b[9],
            b[10],
            b[11],
            b[12],
            b[13],
            b[14],
            b[15],
            b[16],
        ];
        let port: u16 = (b[17] as u16) * 256 + (b[18] as u16);
        let addr = SocketAddress::V6(SocketAddressV6 { octets, port });
        proof {
            assert(port / 256 == b@[17] && port % 256 == b@[18]) by (nonlinear_arith)
                requires
                    port == b@[17] * 256 + b@[18],
                    0 <= b@[17] < 256,
                    0 <= b@[18] < 256,
            ;
            assert(b@ =~= spec_encode(addr));
        }
        Ok(addr)
    } else {
        proof {
            assert forall|a: SocketAddress| b@ != #[trigger] spec_encode(a) by {
                lemma_encode_shape(a);
                if a is V4 {
                    assert(spec_encode(a)[0] == V4_TAG);
                } else {
                    assert(spec_encode(a)[0] == V6_TAG);
                }
            }
        }
        Err(AddressEncodingError)
    }
}

} // verus!
