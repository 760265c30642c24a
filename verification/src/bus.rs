//! Transport capability interfaces and the closed error taxonomy every
//! operation reports through. The driver consumes these interfaces; a host
//! supplies the one implementation that speaks to its hardware.
use vstd::prelude::*;

use crate::sd::BLOCK_SIZE;
use crate::sd::response::R1Status;
use crate::sd::transfer::TokenError;

verus! {

/// The closed set of failures an operation can report.
#[derive(PartialEq, Eq, Debug)]
pub enum Error<E> {
    /// Opaque pass-through from the transport capability.
    BUS(E),
    /// No valid status byte within the search window; usually no card is
    /// present.
    NoResponse,
    /// The card failed to reach the idle state during the init handshake.
    NotIdle,
    /// Status flags the card reported in a response.
    Command(R1Status),
    /// A token-layer protocol violation or card-reported transfer failure.
    Transfer(TokenError),
    /// A bounded wait elapsed without the card answering.
    Timeout,
    /// An unclassified failure, such as an unrecognized CSD structure.
    Generic,
}

impl<E> From<R1Status> for Error<E> {
    fn from(status: R1Status) -> (r: Self) {
        Error::Command(status)
    }
}

impl<E> vstd::std_specs::convert::FromSpecImpl<R1Status> for Error<E> {
    open spec fn obeys_from_spec() -> bool {
        true
    }

    open spec fn from_spec(status: R1Status) -> Self {
        Error::Command(status)
    }
}

impl<E> From<TokenError> for Error<E> {
    fn from(e: TokenError) -> (r: Self) {
        Error::Transfer(e)
    }
}

impl<E> vstd::std_specs::convert::FromSpecImpl<TokenError> for Error<E> {
    open spec fn obeys_from_spec() -> bool {
        true
    }

    open spec fn from_spec(e: TokenError) -> Self {
        Error::Transfer(e)
    }
}

/// Chip-select bracketing around every protocol exchange: `before` asserts
/// and settles, `after` deasserts and leaves the transport idle.
pub trait Bus {
    type Error;

    fn before(&mut self) -> Result<(), Error<Self::Error>>;

    fn after(&mut self) -> Result<(), Error<Self::Error>>;
}

/// The reading half of the transport capability.
pub trait Read {
    type Error;

    /// Performs the CSD-read exchange and hands back the raw 16-byte
    /// register; decoding it is the driver's work.
    fn read_csd(&mut self) -> Result<[u8; 16], Error<Self::Error>>;

    /// Reads consecutive blocks starting at the given protocol address into
    /// the supplied buffers. An implementation fills the buffers in place:
    /// the batch keeps its length.
    fn read(&mut self, address: u32, blocks: &mut Vec<[u8; BLOCK_SIZE]>) -> (r: Result<
        (),
        Error<Self::Error>,
    >)
        ensures
            final(blocks)@.len() == old(blocks)@.len(),
    ;
}

/// The writing half of the transport capability.
pub trait Write {
    type Error;

    /// Writes the supplied blocks to consecutive addresses starting at the
    /// given protocol address.
    fn write(&mut self, address: u32, blocks: &Vec<[u8; BLOCK_SIZE]>) -> Result<
        (),
        Error<Self::Error>,
    >;
}

} // verus!
