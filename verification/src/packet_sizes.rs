//! The closed registry of permissible wire packet sizes.
//!
//! Anonymity requires uniform packet lengths: every packet observed on the
//! wire must have exactly one of the three totals defined here. Each total is
//! the fixed header cost plus the fixed cryptographic payload overhead plus a
//! class-specific payload budget.

use vstd::prelude::*;

verus! {

/// Fixed byte cost of the layered packet header, as wired in by the
/// packet-encoding layer (32-byte ephemeral key material, 16-byte integrity
/// MAC, 300 bytes of encrypted routing information).
pub const HEADER_SIZE: usize = 348;

/// Fixed cryptographic expansion added to every payload by the encoding
/// layer (16-byte integrity tag plus one flag byte), independent of the
/// payload class.
pub const PAYLOAD_OVERHEAD_SIZE: usize = 17;

/// Total length of a regular packet: general-purpose messaging payloads.
pub const REGULAR_PACKET_SIZE: usize = HEADER_SIZE + PAYLOAD_OVERHEAD_SIZE + 2048;

/// Total length of an acknowledgment packet: a 16-byte IV plus a 5-byte
/// correlation id, used for delivery receipts.
pub const ACK_PACKET_SIZE: usize = HEADER_SIZE + PAYLOAD_OVERHEAD_SIZE + 21;

/// Total length of an extended packet: bulk or streaming payloads.
pub const EXTENDED_PACKET_SIZE: usize = HEADER_SIZE + PAYLOAD_OVERHEAD_SIZE + 32768;

/// A numeric tag or a total byte length corresponds to no known packet-size
/// class. An incoming frame of unknown length is a malformed or foreign
/// packet to be dropped, never a local fault.
#[derive(Clone, Copy, Debug, PartialEq, Eq, Structural)]
pub struct InvalidPacketSize;

/// The closed set of permissible packet-size classes.
///
/// The numeric tag of each class is a serialization detail: it is produced
/// only by [`PacketSize::tag`] and consumed only by [`PacketSize::try_from`].
#[derive(Clone, Copy, Debug, PartialEq, Eq, Structural)]
pub enum PacketSize {
    /// General-purpose messaging packets.
    RegularPacket,
    /// Small acknowledgment-of-delivery packets.
    ACKPacket,
    /// Bulk or streaming packets.
    ExtendedPacket,
}

impl PacketSize {
    /// The compact numeric tag of this class.
    pub open spec fn spec_tag(self) -> u8 {
        match self {
            PacketSize::RegularPacket => 1,
            PacketSize::ACKPacket => 2,
            PacketSize::ExtendedPacket => 3,
        }
    }

    /// The total wire length of a packet of this class.
    pub open spec fn spec_size(self) -> usize {
        match self {
            PacketSize::RegularPacket => REGULAR_PACKET_SIZE,
            PacketSize::ACKPacket => ACK_PACKET_SIZE,
            PacketSize::ExtendedPacket => EXTENDED_PACKET_SIZE,
        }
    }

    /// The class whose tag is `value`, or failure for a tag outside the
    /// registry.
    pub open spec fn spec_from_tag(value: u8) -> Result<PacketSize, InvalidPacketSize> {
        if value == 1 {
            Ok(PacketSize::RegularPacket)
        } else if value == 2 {
            Ok(PacketSize::ACKPacket)
        } else if value == 3 {
            Ok(PacketSize::ExtendedPacket)
        } else {
            Err(InvalidPacketSize)
        }
    }

    /// The class whose total wire length is `size`, or failure for a length
    /// that matches none of the three totals.
    pub open spec fn spec_from_total_length(size: usize) -> Result<PacketSize, InvalidPacketSize> {
        if size == REGULAR_PACKET_SIZE {
            Ok(PacketSize::RegularPacket)
        } else if size == ACK_PACKET_SIZE {
            Ok(PacketSize::ACKPacket)
        } else if size == EXTENDED_PACKET_SIZE {
            Ok(PacketSize::ExtendedPacket)
        } else {
            Err(InvalidPacketSize)
        }
    }

    /// Maps a numeric tag back to its class; the exact inverse of
    /// [`PacketSize::tag`].
    pub fn try_from(value: u8) -> (r: Result<Self, InvalidPacketSize>)
        ensures
            r == Self::spec_from_tag(value),
    {
        if value == 1 {
            Ok(PacketSize::RegularPacket)
        } else if value == 2 {
            Ok(PacketSize::ACKPacket)
        } else if value == 3 {
            Ok(PacketSize::ExtendedPacket)
        } else {
            Err(InvalidPacketSize)
        }
    }

    /// The compact numeric tag of this class.
    pub fn tag(&self) -> (r: u8)
        ensures
            r == self.spec_tag(),
    {
        match self {
            PacketSize::RegularPacket => 1,
            PacketSize::ACKPacket => 2,
            PacketSize::ExtendedPacket => 3,
        }
    }

    /// The total wire length of a packet of this class.
    pub fn size(&self) -> (r: usize)
        ensures
            r == self.spec_size(),
    {
        match self {
            PacketSize::RegularPacket => REGULAR_PACKET_SIZE,
            PacketSize::ACKPacket => ACK_PACKET_SIZE,
            PacketSize::ExtendedPacket => EXTENDED_PACKET_SIZE,
        }
    }

    /// The number of caller payload bytes that fit in a packet of this class
    /// after both the header and the cryptographic overhead are subtracted.
    pub fn plaintext_size(&self) -> (r: usize)
        ensures
            r == self.spec_size() - HEADER_SIZE - PAYLOAD_OVERHEAD_SIZE,
    {
        self.size() - HEADER_SIZE - PAYLOAD_OVERHEAD_SIZE
    }

    /// The payload region of a packet of this class, including cryptographic
    /// overhead and excluding only the header.
    pub fn payload_size(&self) -> (r: usize)
        ensures
            r == self.spec_size() - HEADER_SIZE,
    {
        self.size() - HEADER_SIZE
    }

    /// Reverse lookup of a class by exact total byte length.
    pub fn get_type(size: usize) -> (r: Result<Self, InvalidPacketSize>)
        ensures
            r == Self::spec_from_total_length(size),
    {
        if PacketSize::RegularPacket.size() == size {
            Ok(PacketSize::RegularPacket)
        } else if PacketSize::ACKPacket.size() == size {
            Ok(PacketSize::ACKPacket)
        } else if PacketSize::ExtendedPacket.size() == size {
            Ok(PacketSize::ExtendedPacket)
        } else {
            Err(InvalidPacketSize)
        }
    }
}

impl Default for PacketSize {
    /// The class used when none is specified.
    fn default() -> (r: Self)
        ensures
            r == PacketSize::RegularPacket,
    {
        PacketSize::RegularPacket
    }
}

/// The three totals are pairwise distinct, and each strictly exceeds the
/// fixed header and overhead costs: a frame length identifies its class
/// unambiguously, and every class leaves room for at least one payload byte.
pub proof fn lemma_totals_distinct()
    ensures
        forall|c1: PacketSize, c2: PacketSize|
            c1.spec_size() == c2.spec_size() ==> c1 == c2,
        forall|c: PacketSize| #[trigger] c.spec_size() > HEADER_SIZE + PAYLOAD_OVERHEAD_SIZE,
{
}

/// Round trip: looking up a class's own total length yields that class back.
pub proof fn lemma_total_length_round_trip(c: PacketSize)
    ensures
        PacketSize::spec_from_total_length(c.spec_size()) == Ok::<PacketSize, InvalidPacketSize>(c),
{
}

/// Round trip: parsing a class's own tag yields that class back.
pub proof fn lemma_tag_round_trip(c: PacketSize)
    ensures
        PacketSize::spec_from_tag(c.spec_tag()) == Ok::<PacketSize, InvalidPacketSize>(c),
{
}

/// A tag outside the registry is rejected.
pub proof fn lemma_unknown_tag_rejected(value: u8)
    requires
        forall|c: PacketSize| value != #[trigger] c.spec_tag(),
    ensures
        PacketSize::spec_from_tag(value) == Err::<PacketSize, InvalidPacketSize>(InvalidPacketSize),
{
    assert(value != PacketSize::RegularPacket.spec_tag());
    assert(value != PacketSize::ACKPacket.spec_tag());
    assert(value != PacketSize::ExtendedPacket.spec_tag());
}

/// A total length that matches none of the three known totals is rejected.
pub proof fn lemma_unknown_total_length_rejected(size: usize)
    requires
        forall|c: PacketSize| size != #[trigger] c.spec_size(),
    ensures
        PacketSize::spec_from_total_length(size) == Err::<PacketSize, InvalidPacketSize>(
            InvalidPacketSize,
        ),
{
    assert(size != PacketSize::RegularPacket.spec_size());
    assert(size != PacketSize::ACKPacket.spec_size());
    assert(size != PacketSize::ExtendedPacket.spec_size());
}

/// Plaintext capacity plus the fixed header and overhead costs restore the
/// total length.
pub proof fn lemma_plaintext_size_complement(c: PacketSize)
    ensures
        (c.spec_size() - HEADER_SIZE - PAYLOAD_OVERHEAD_SIZE) + HEADER_SIZE + PAYLOAD_OVERHEAD_SIZE
            == c.spec_size(),
        c.spec_size() - HEADER_SIZE - PAYLOAD_OVERHEAD_SIZE > 0,
{
}

/// Payload capacity plus the fixed header cost restores the total length.
pub proof fn lemma_payload_size_complement(c: PacketSize)
    ensures
        (c.spec_size() - HEADER_SIZE) + HEADER_SIZE == c.spec_size(),
        c.spec_size() - HEADER_SIZE > PAYLOAD_OVERHEAD_SIZE,
{
}

} // verus!
