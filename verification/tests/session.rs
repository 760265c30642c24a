use std::cell::Cell;
use std::rc::Rc;

use sdcard::bus::{Bus, Error, Read, Write};
use sdcard::sd::Card;
use sdcard::{conclude, SD};

#[derive(Default)]
struct Counters {
    before: Cell<u32>,
    after: Cell<u32>,
    read: Cell<u32>,
    write: Cell<u32>,
    last_address: Cell<Option<u32>>,
}

struct FakeBus {
    counters: Rc<Counters>,
    csd_bytes: [u8; 16],
    fail_before: bool,
    fail_exchange: bool,
    fail_after: bool,
}

fn v2_register(c_size: u32) -> [u8; 16] {
    let mut raw = [0u8; 16];
    raw[0] = 0x40;
    raw[7] = ((c_size >> 16) & 0x3F) as u8;
    raw[8] = ((c_size >> 8) & 0xFF) as u8;
    raw[9] = (c_size & 0xFF) as u8;
    raw
}

impl FakeBus {
    fn new() -> (Self, Rc<Counters>) {
        let counters = Rc::new(Counters::default());
        let bus = FakeBus {
            counters: counters.clone(),
            csd_bytes: v2_register(1023),
            fail_before: false,
            fail_exchange: false,
            fail_after: false,
        };
        (bus, counters)
    }
}

impl Bus for FakeBus {
    type Error = u8;

    fn before(&mut self) -> Result<(), Error<u8>> {
        self.counters.before.set(self.counters.before.get() + 1);
        if self.fail_before {
            Err(Error::BUS(1))
        } else {
            Ok(())
        }
    }

    fn after(&mut self) -> Result<(), Error<u8>> {
        self.counters.after.set(self.counters.after.get() + 1);
        if self.fail_after {
            Err(Error::BUS(2))
        } else {
            Ok(())
        }
    }
}

impl Read for FakeBus {
    type Error = u8;

    fn read_csd(&mut self) -> Result<[u8; 16], Error<u8>> {
        if self.fail_exchange {
            Err(Error::Timeout)
        } else {
            Ok(self.csd_bytes)
        }
    }

    fn read(&mut self, address: u32, blocks: &mut Vec<[u8; 512]>) -> Result<(), Error<u8>> {
        self.counters.read.set(self.counters.read.get() + 1);
        self.counters.last_address.set(Some(address));
        if self.fail_exchange {
            return Err(Error::Timeout);
        }
        for block in blocks.iter_mut() {
            block[0] = 0x5A;
        }
        Ok(())
    }
}

impl Write for FakeBus {
    type Error = u8;

    fn write(&mut self, address: u32, _blocks: &Vec<[u8; 512]>) -> Result<(), Error<u8>> {
        self.counters.write.set(self.counters.write.get() + 1);
        self.counters.last_address.set(Some(address));
        if self.fail_exchange {
            return Err(Error::Timeout);
        }
        Ok(())
    }
}

#[test]
fn init_reads_and_decodes_csd() {
    let (bus, counters) = FakeBus::new();
    let mut sd = SD::init(bus, Card::Sdhc).unwrap();
    assert_eq!(counters.before.get(), 1);
    assert_eq!(counters.after.get(), 1);
    assert_eq!(sd.block_size_shift(), 9);
    assert_eq!(sd.num_blocks(), 1024 * 1024);
    let csd = sd.csd();
    assert_eq!(csd.block_size_shift, 9);
    assert_eq!(csd.num_blocks, 1024 * 1024);
    // The session hands its transport back out for host-side work.
    assert!(!sd.bus().fail_before);
}

#[test]
fn init_failure_creates_no_session() {
    let (mut bus, counters) = FakeBus::new();
    bus.fail_exchange = true;
    let r = SD::init(bus, Card::Sdhc);
    assert!(matches!(r, Err(Error::Timeout)));
    assert_eq!(counters.after.get(), 1);
}

#[test]
fn init_unknown_csd_version_is_generic() {
    let (mut bus, _counters) = FakeBus::new();
    bus.csd_bytes[0] = 0x80;
    let r = SD::init(bus, Card::Sdhc);
    assert!(matches!(r, Err(Error::Generic)));
}

#[test]
fn empty_read_short_circuits_without_hooks() {
    let (bus, counters) = FakeBus::new();
    let mut sd = SD::init(bus, Card::Sdhc).unwrap();
    let mut blocks: Vec<[u8; 512]> = Vec::new();
    assert_eq!(sd.read(7, &mut blocks), Ok(()));
    // Only init touched the hooks; the empty batch did not.
    assert_eq!(counters.before.get(), 1);
    assert_eq!(counters.after.get(), 1);
    assert_eq!(counters.read.get(), 0);
}

#[test]
fn empty_write_short_circuits_without_hooks() {
    let (bus, counters) = FakeBus::new();
    let mut sd = SD::init(bus, Card::Sdhc).unwrap();
    let blocks: Vec<[u8; 512]> = Vec::new();
    assert_eq!(sd.write(7, &blocks), Ok(()));
    assert_eq!(counters.before.get(), 1);
    assert_eq!(counters.after.get(), 1);
    assert_eq!(counters.write.get(), 0);
}

#[test]
fn sdhc_read_addresses_by_block() {
    let (bus, counters) = FakeBus::new();
    let mut sd = SD::init(bus, Card::Sdhc).unwrap();
    let mut blocks = vec![[0u8; 512]];
    assert_eq!(sd.read(3, &mut blocks), Ok(()));
    assert_eq!(counters.last_address.get(), Some(3));
    assert_eq!(blocks[0][0], 0x5A);
}

#[test]
fn sdsc_read_addresses_by_byte() {
    let (bus, counters) = FakeBus::new();
    let mut sd = SD::init(bus, Card::Sdsc(9)).unwrap();
    let mut blocks = vec![[0u8; 512]];
    assert_eq!(sd.read(3, &mut blocks), Ok(()));
    assert_eq!(counters.last_address.get(), Some(3 * 512));
}

#[test]
fn sdsc_write_addresses_by_byte() {
    let (bus, counters) = FakeBus::new();
    let mut sd = SD::init(bus, Card::Sdsc(9)).unwrap();
    let blocks = vec![[0u8; 512]];
    assert_eq!(sd.write(5, &blocks), Ok(()));
    assert_eq!(counters.last_address.get(), Some(5 * 512));
    assert_eq!(counters.write.get(), 1);
}

#[test]
fn after_hook_runs_when_exchange_fails() {
    let (bus, counters) = FakeBus::new();
    let mut sd = SD::init(bus, Card::Sdhc).unwrap();
    sd.bus().fail_exchange = true;
    let mut blocks = vec![[0u8; 512]];
    let r = sd.read(0, &mut blocks);
    assert!(matches!(r, Err(Error::Timeout)));
    // Exactly one after-hook invocation for the failed exchange.
    assert_eq!(counters.after.get(), 2);
}

#[test]
fn failing_after_hook_reported_when_exchange_succeeds() {
    let (bus, counters) = FakeBus::new();
    let mut sd = SD::init(bus, Card::Sdhc).unwrap();
    sd.bus().fail_after = true;
    let mut blocks = vec![[0u8; 512]];
    let r = sd.read(0, &mut blocks);
    assert!(matches!(r, Err(Error::BUS(2))));
    assert_eq!(counters.read.get(), 1);
    assert_eq!(counters.after.get(), 2);
}

#[test]
fn failing_after_hook_never_masks_exchange_failure() {
    let (bus, counters) = FakeBus::new();
    let mut sd = SD::init(bus, Card::Sdhc).unwrap();
    sd.bus().fail_exchange = true;
    sd.bus().fail_after = true;
    let blocks = vec![[0u8; 512]];
    let r = sd.write(0, &blocks);
    assert!(matches!(r, Err(Error::Timeout)));
    assert_eq!(counters.after.get(), 2);
}

#[test]
fn before_failure_skips_exchange_and_after_hook() {
    let (bus, counters) = FakeBus::new();
    let mut sd = SD::init(bus, Card::Sdhc).unwrap();
    sd.bus().fail_before = true;
    let mut blocks = vec![[0u8; 512]];
    let r = sd.read(0, &mut blocks);
    assert!(matches!(r, Err(Error::BUS(1))));
    assert_eq!(counters.read.get(), 0);
    assert_eq!(counters.after.get(), 1);
}

#[test]
fn conclude_precedence() {
    let ok: Result<(), Error<u8>> = Ok(());
    assert_eq!(conclude(ok, Ok(())), Ok(()));
    let ok: Result<(), Error<u8>> = Ok(());
    assert_eq!(conclude(ok, Err(Error::BUS(2))), Err(Error::BUS(2)));
    let failed: Result<(), Error<u8>> = Err(Error::Timeout);
    assert_eq!(conclude(failed, Err(Error::BUS(2))), Err(Error::Timeout));
    let failed: Result<(), Error<u8>> = Err(Error::Timeout);
    assert_eq!(conclude(failed, Ok(())), Err(Error::Timeout));
}

#[test]
fn card_classification() {
    assert!(Card::Sdhc.high_capacity());
    assert!(!Card::Sdsc(9).high_capacity());
    assert_eq!(Card::Sdhc.to_protocol_address(123), 123);
    assert_eq!(Card::Sdsc(9).to_protocol_address(123), 123 * 512);
    // The largest in-range standard-capacity address.
    assert_eq!(Card::Sdsc(9).to_protocol_address(0x007F_FFFF), 0xFFFF_FE00);
}
