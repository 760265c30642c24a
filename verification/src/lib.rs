//! Driver core for SD cards spoken to over an SPI-style transport.
//!
//! The crate covers the protocol work that must be bit-exact: command frame
//! encoding with CRC7, response frame decoding, CSD register decoding into
//! card geometry, the data-transfer token classification with its CRC16,
//! and the session logic that turns logical block addresses into
//! protocol-correct addresses. The physical transport and the delay source
//! are capability traits supplied by the host; this crate never implements
//! them.
use vstd::prelude::*;

pub mod bus;
pub mod delay;
pub mod sd;

pub use sd::registers::NumBlocks;

verus! {

use crate::bus::Error;
use crate::sd::Card;
use crate::sd::BLOCK_SIZE;
use crate::sd::spec_protocol_address;
use crate::sd::registers::Csd;

/// A logical block address: the host-side block index.
pub type Lba = u32;

/// Settles what a read or write exchange reports once the after hook has
/// run: a failing after hook never masks an exchange failure, and is
/// reported only when the exchange itself had succeeded.
pub fn conclude<T, E>(exchange: Result<T, Error<E>>, after: Result<(), Error<E>>) -> (r: Result<
    T,
    Error<E>,
>)
    ensures
        exchange is Err ==> r == exchange,
        exchange is Ok && after is Ok ==> r == exchange,
        exchange is Ok ==> (after matches Err(e) ==> r == Err::<T, Error<E>>(e)),
        r is Ok <==> exchange is Ok && after is Ok,
{
    match exchange {
        Err(e) => Err(e),
        Ok(v) => match after {
            Ok(_) => Ok(v),
            Err(e) => Err(e),
        },
    }
}

/// One connected card's session: the capacity classification and decoded
/// geometry, both fixed for the session's lifetime, and exclusive ownership
/// of the transport.
pub struct SD<BUS> {
    bus: BUS,
    card: Card,
    csd: Csd,
}

impl<BUS> SD<BUS> {
    /// The session's capacity classification.
    pub closed spec fn spec_card(self) -> Card {
        self.card
    }

    /// The session's decoded geometry.
    pub closed spec fn spec_csd(self) -> Csd {
        self.csd
    }

    /// The transport the session owns.
    pub closed spec fn spec_bus(self) -> BUS {
        self.bus
    }
}

impl<E, BUS> SD<BUS> where
    BUS: bus::Read<Error = E> + bus::Write<Error = E> + bus::Bus<Error = E>,
 {
    /// Opens a session: brackets the CSD-read exchange in the transport's
    /// before and after hooks and decodes the register into geometry. Any
    /// failure aborts with no session created; an unrecognized CSD
    /// structure is the `Generic` error.
    pub fn init(bus: BUS, card: Card) -> (r: Result<SD<BUS>, Error<E>>)
        ensures
            r matches Ok(sd) ==> sd.spec_card() == card && sd.spec_csd().wf(),
    {
        let mut bus = bus;
        if let Err(e) = bus.before() {
            return Err(e);
        }
        let result = bus.read_csd();
        if let Err(e) = bus.after() {
            return Err(e);
        }
        match result {
            Err(e) => Err(e),
            Ok(raw) => match Csd::decode(&raw) {
                Some(csd) => Ok(SD { bus, card, csd }),
                None => Err(Error::Generic),
            },
        }
    }

    /// The decoded geometry of the session's card.
    pub fn csd(&self) -> (r: Csd)
        ensures
            r == self.spec_csd(),
    {
        self.csd
    }

    /// Borrows the owned transport, for host-side work outside a protocol
    /// exchange.
    pub fn bus(&mut self) -> (r: &mut BUS)
        ensures
            *r == old(self).spec_bus(),
            final(self).spec_bus() == *final(r),
            final(self).spec_card() == old(self).spec_card(),
            final(self).spec_csd() == old(self).spec_csd(),
    {
        &mut self.bus
    }

    /// Reads consecutive blocks starting at a logical block address.
    ///
    /// An empty batch succeeds at once, without touching the transport.
    /// Otherwise the address is translated per the capacity policy, the
    /// exchange is bracketed in the before and after hooks, and the after
    /// hook runs whatever the exchange came to.
    pub fn read(&mut self, address: Lba, blocks: &mut Vec<[u8; BLOCK_SIZE]>) -> (r: Result<
        (),
        Error<E>,
    >)
        requires
            spec_protocol_address(old(self).spec_card(), address) <= u32::MAX,
        ensures
            final(self).spec_card() == old(self).spec_card(),
            final(self).spec_csd() == old(self).spec_csd(),
            final(blocks)@.len() == old(blocks)@.len(),
            old(blocks)@.len() == 0 ==> r is Ok && *final(self) == *old(self) && final(blocks)@
                == old(blocks)@,
    {
        if blocks.len() == 0 {
            return Ok(());
        }
        if let Err(e) = self.bus.before() {
            return Err(e);
        }
        let address = self.card.to_protocol_address(address);
        let result = self.bus.read(address, blocks);
        let after = self.bus.after();
        conclude(result, after)
    }

    /// Writes consecutive blocks starting at a logical block address, with
    /// the same bracketing as `read`.
    pub fn write(&mut self, address: Lba, blocks: &Vec<[u8; BLOCK_SIZE]>) -> (r: Result<
        (),
        Error<E>,
    >)
        requires
            spec_protocol_address(old(self).spec_card(), address) <= u32::MAX,
        ensures
            final(self).spec_card() == old(self).spec_card(),
            final(self).spec_csd() == old(self).spec_csd(),
            blocks@.len() == 0 ==> r is Ok && *final(self) == *old(self),
    {
        if blocks.len() == 0 {
            return Ok(());
        }
        let address = self.card.to_protocol_address(address);
        if let Err(e) = self.bus.before() {
            return Err(e);
        }
        let result = self.bus.write(address, blocks);
        let after = self.bus.after();
        conclude(result, after)
    }

    /// Total block count of the session's card.
    pub fn num_blocks(&self) -> (r: NumBlocks)
        ensures
            r == self.spec_csd().num_blocks,
    {
        self.csd.num_blocks()
    }

    /// Log2 of the card's block length.
    pub fn block_size_shift(&self) -> (r: u8)
        ensures
            r == self.spec_csd().block_size_shift,
    {
        self.csd.block_size_shift()
    }
}

} // verus!
