//! Card-capacity policy: the two-valued classification of a card and the
//! translation of logical block addresses into protocol addresses.
use vstd::prelude::*;

pub mod command;
pub mod registers;
pub mod response;
pub mod transfer;

verus! {

/// Every data block moved over the wire is exactly this many bytes.
pub const BLOCK_SIZE: usize = 512;

/// Capacity classification of the connected card, fixed at enumeration time.
///
/// A standard-capacity card (`Sdsc`) is byte-addressed: a logical block
/// address must be scaled by the block length before it is placed in a
/// command argument. The carried value is the card's raw block-length shift.
/// A high-capacity card (`Sdhc`) is block-addressed: the logical block
/// address is the protocol address.
#[derive(Clone, Copy, PartialEq, Eq, Structural, Debug)]
pub enum Card {
    Sdsc(u8),
    Sdhc,
}

/// The protocol address a logical block address maps to: the identity for a
/// high-capacity card, the byte offset `lba * 512` for a standard-capacity
/// card.
pub open spec fn spec_protocol_address(card: Card, lba: u32) -> int {
    if card is Sdhc {
        lba as int
    } else {
        lba as int * BLOCK_SIZE as int
    }
}

impl Card {
    /// Whether the card is block-addressed.
    pub fn high_capacity(self) -> (r: bool)
        ensures
            r == (self is Sdhc),
    {
        !matches!(self, Self::Sdsc(_))
    }

    /// Translates a logical block address into the address a command
    /// argument carries, per the capacity policy.
    ///
    /// For a standard-capacity card the byte offset must fit in the 32-bit
    /// command argument; the caller keeps the address below that bound
    /// rather than let it wrap silently.
    pub fn to_protocol_address(self, lba: u32) -> (r: u32)
        requires
            spec_protocol_address(self, lba) <= u32::MAX,
        ensures
            r == spec_protocol_address(self, lba),
    {
        if self.high_capacity() {
            lba
        } else {
            lba * (BLOCK_SIZE as u32)
        }
    }
}

/// Address-translation law: a high-capacity card uses the logical block
/// address unchanged, a standard-capacity card scales it by the fixed
/// 512-byte block size.
pub proof fn lemma_address_translation(card: Card, lba: u32)
    ensures
        card is Sdhc ==> spec_protocol_address(card, lba) == lba,
        card is Sdsc ==> spec_protocol_address(card, lba) == lba * 512,
{
}

} // verus!
