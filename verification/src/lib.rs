//! Core primitives for a fixed-size mix-network packet format.
//!
//! Two independent components, composed only by a downstream packet-encoding
//! layer:
//!
//! * [`packet_sizes`] — a closed registry of the permissible wire packet
//!   sizes, with size arithmetic and bidirectional conversion between a
//!   compact numeric tag, a total byte length, and the size class itself.
//!   Every packet on the wire must have one of these few indistinguishable
//!   lengths.
//! * [`gateway`] — the record describing one mix node's advertised state,
//!   together with the projection of that record into the fixed-width
//!   routing target consumed by the packet-encoding layer.
//! * [`addressing`] — the fixed-width routing-address wire format shared
//!   with the packet header: a canonical encoding of an IPv4 or IPv6 socket
//!   endpoint, with its decoder.

pub mod addressing;
pub mod gateway;
pub mod packet_sizes;
pub mod sphinx;
