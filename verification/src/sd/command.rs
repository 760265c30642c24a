//! Frame codec, encoding side: the fixed SD command set, its mapping to
//! (index, argument, expected extended-response size), the CRC7 checksum,
//! and the 6-byte command frame.
use vstd::prelude::*;

verus! {

/// Relative Card Address, carried in command arguments for protocol
/// compatibility; SPI mode does not address by it.
pub type Rca = u16;

/// A protocol address as placed in a command argument: a byte offset on a
/// standard-capacity card, a block index on a high-capacity card.
pub type Address = u32;

/// The four interface-condition fields packed into the low 16 bits of the
/// `SendIfCond` argument.
#[derive(Clone, Copy, PartialEq, Eq, Structural, Debug)]
pub struct SendInterfaceCondition {
    pub pcie_1_2v_suppport: bool,
    pub pcie_availability: bool,
    pub voltage_supplied: bool,
    pub check_pattern: u8,
}

/// The argument bits of an interface condition: PCIe 1.2V support at bit 15,
/// PCIe availability at bit 14, voltage supplied at bit 8, and the check
/// pattern in the low byte.
pub open spec fn spec_sic_argument(sic: SendInterfaceCondition) -> u32 {
    (if sic.pcie_1_2v_suppport {
        0x8000u32
    } else {
        0u32
    }) | (if sic.pcie_availability {
        0x4000u32
    } else {
        0u32
    }) | (if sic.voltage_supplied {
        0x100u32
    } else {
        0u32
    }) | sic.check_pattern as u32
}

impl Default for SendInterfaceCondition {
    /// All fields clear.
    fn default() -> (r: Self)
        ensures
            r == (SendInterfaceCondition {
                pcie_1_2v_suppport: false,
                pcie_availability: false,
                voltage_supplied: false,
                check_pattern: 0,
            }),
    {
        SendInterfaceCondition {
            pcie_1_2v_suppport: false,
            pcie_availability: false,
            voltage_supplied: false,
            check_pattern: 0,
        }
    }
}

impl From<SendInterfaceCondition> for u32 {
    fn from(val: SendInterfaceCondition) -> (r: u32) {
        val.argument()
    }
}

impl vstd::std_specs::convert::FromSpecImpl<SendInterfaceCondition> for u32 {
    open spec fn obeys_from_spec() -> bool {
        true
    }

    open spec fn from_spec(val: SendInterfaceCondition) -> u32 {
        spec_sic_argument(val)
    }
}

impl SendInterfaceCondition {
    /// The canonical probe condition for SPI mode: voltage supplied, check
    /// pattern `0xAA`, the PCIe flags clear.
    pub fn spi() -> (r: Self)
        ensures
            r == (SendInterfaceCondition {
                pcie_1_2v_suppport: false,
                pcie_availability: false,
                voltage_supplied: true,
                check_pattern: 0xAA,
            }),
    {
        SendInterfaceCondition {
            pcie_1_2v_suppport: false,
            pcie_availability: false,
            voltage_supplied: true,
            check_pattern: 0xAA,
        }
    }

    /// The 32-bit command argument this condition packs into.
    pub fn argument(self) -> (r: u32)
        ensures
            r == spec_sic_argument(self),
    {
        (if self.pcie_1_2v_suppport {
            0x8000u32
        } else {
            0u32
        }) | (if self.pcie_availability {
            0x4000u32
        } else {
            0u32
        }) | (if self.voltage_supplied {
            0x100u32
        } else {
            0u32
        }) | self.check_pattern as u32
    }
}

/// Application-specific commands, issued after an `AppCommand` prefix.
#[derive(Clone, Copy, PartialEq, Eq, Structural, Debug)]
pub enum AppCommand {
    /// Carries the host-capacity-support flag.
    SDSendOpCond(bool),
    ReadOCR,
}

/// Protocol command number of an application-specific command.
pub open spec fn spec_app_index(cmd: AppCommand) -> u8 {
    match cmd {
        AppCommand::SDSendOpCond(_) => 41,
        AppCommand::ReadOCR => 58,
    }
}

/// Argument bits of an application-specific command: the host-capacity flag
/// at bit 30 for `SDSendOpCond`, zero for `ReadOCR`.
pub open spec fn spec_app_argument(cmd: AppCommand) -> u32 {
    match cmd {
        AppCommand::SDSendOpCond(hcs) => if hcs {
            0x4000_0000u32
        } else {
            0u32
        },
        AppCommand::ReadOCR => 0u32,
    }
}

/// Extended-response size of an application-specific command: the 4-byte
/// operation-conditions register for `ReadOCR`, none otherwise.
pub open spec fn spec_app_ex_size(cmd: AppCommand) -> usize {
    match cmd {
        AppCommand::ReadOCR => 4usize,
        _ => 0usize,
    }
}

impl AppCommand {
    pub fn index(self) -> (r: u8)
        ensures
            r == spec_app_index(self),
    {
        match self {
            Self::SDSendOpCond(_) => 41,
            Self::ReadOCR => 58,
        }
    }

    pub fn argument(self) -> (r: u32)
        ensures
            r == spec_app_argument(self),
    {
        match self {
            Self::SDSendOpCond(hcs) => if hcs {
                0x4000_0000
            } else {
                0
            },
            Self::ReadOCR => 0,
        }
    }

    pub fn expected_response_ex_size(self) -> (r: usize)
        ensures
            r == spec_app_ex_size(self),
    {
        match self {
            Self::ReadOCR => 4,
            _ => 0,
        }
    }
}

/// The fixed SD command set this driver issues.
#[derive(Clone, Copy, PartialEq, Eq, Structural, Debug)]
pub enum Command {
    GoIdleState,
    SendIfCond(SendInterfaceCondition),
    SendCSD(Rca),
    StopTransmission,
    ReadSingleBlock(Address),
    ReadMultipleBlock(Address),
    WriteBlock(Address),
    WriteMultipleBlock(Address),
    AppCommand(Rca),
    App(AppCommand),
}

/// Protocol command number of a command.
pub open spec fn spec_index(cmd: Command) -> u8 {
    match cmd {
        Command::GoIdleState => 0,
        Command::SendIfCond(_) => 8,
        Command::SendCSD(_) => 9,
        Command::StopTransmission => 12,
        Command::ReadSingleBlock(_) => 17,
        Command::ReadMultipleBlock(_) => 18,
        Command::WriteBlock(_) => 24,
        Command::WriteMultipleBlock(_) => 25,
        Command::AppCommand(_) => 55,
        Command::App(app) => spec_app_index(app),
    }
}

/// 32-bit argument of a command: zero, a packed interface condition, an RCA
/// in the high half, a protocol address, or the inner app-command argument.
pub open spec fn spec_argument(cmd: Command) -> u32 {
    match cmd {
        Command::GoIdleState => 0u32,
        Command::StopTransmission => 0u32,
        Command::SendIfCond(cond) => spec_sic_argument(cond),
        Command::SendCSD(rca) => (rca as u32) << 16,
        Command::AppCommand(rca) => (rca as u32) << 16,
        Command::ReadSingleBlock(address) => address,
        Command::ReadMultipleBlock(address) => address,
        Command::WriteBlock(address) => address,
        Command::WriteMultipleBlock(address) => address,
        Command::App(app) => spec_app_argument(app),
    }
}

/// Size in bytes of the response that follows the 1-byte status: the 4-byte
/// echoed condition for `SendIfCond`, the 1-byte data-response token for the
/// write commands, the inner size for an app command, none otherwise.
pub open spec fn spec_ex_size(cmd: Command) -> usize {
    match cmd {
        Command::SendIfCond(_) => 4usize,
        Command::WriteBlock(_) => 1usize,
        Command::WriteMultipleBlock(_) => 1usize,
        Command::App(app) => spec_app_ex_size(app),
        _ => 0usize,
    }
}

impl Command {
    pub fn index(self) -> (r: u8)
        ensures
            r == spec_index(self),
    {
        match self {
            Self::GoIdleState => 0,
            Self::SendIfCond(_) => 8,
            Self::SendCSD(_) => 9,
            Self::StopTransmission => 12,
            Self::ReadSingleBlock(_) => 17,
            Self::ReadMultipleBlock(_) => 18,
            Self::WriteBlock(_) => 24,
            Self::WriteMultipleBlock(_) => 25,
            Self::AppCommand(_) => 55,
            Self::App(command) => command.index(),
        }
    }

    pub fn argument(self) -> (r: u32)
        ensures
            r == spec_argument(self),
    {
        match self {
            Self::GoIdleState | Self::StopTransmission => 0,
            Self::SendIfCond(cond) => cond.argument(),
            Self::SendCSD(rca) | Self::AppCommand(rca) => (rca as u32) << 16u32,
            Self::ReadSingleBlock(address)
            | Self::ReadMultipleBlock(address)
            | Self::WriteBlock(address)
            | Self::WriteMultipleBlock(address) => address,
            Self::App(command) => command.argument(),
        }
    }

    pub fn expected_response_ex_size(self) -> (r: usize)
        ensures
            r == spec_ex_size(self),
    {
        match self {
            Self::SendIfCond(_) => 4,
            Self::WriteBlock(_) | Self::WriteMultipleBlock(_) => 1,
            Self::App(app_command) => app_command.expected_response_ex_size(),
            _ => 0,
        }
    }
}

/// One bit of the CRC7 accumulation: shift the accumulator left, and if the
/// current input bit (aligned to the top of a byte) differs from the
/// accumulator's top bit, fold in the generator `0x09`.
pub open spec fn spec_crc7_bit(crc: u8, b: u8, i: u8) -> u8 {
    let shifted = crc << 1;
    if (((b << i) & 0x80) ^ (shifted & 0x80)) != 0 {
        shifted ^ 0x09
    } else {
        shifted
    }
}

/// CRC7 accumulation of the bits `i..8` of byte `b`, most significant first.
pub open spec fn spec_crc7_byte(crc: u8, b: u8, i: u8) -> u8
    decreases 8 - i,
{
    if i >= 8 {
        crc
    } else {
        spec_crc7_byte(spec_crc7_bit(crc, b, i), b, (i + 1) as u8)
    }
}

/// CRC7 accumulation of the first `n` bytes of `s`, starting from a zero
/// accumulator.
pub open spec fn spec_crc7_acc(s: Seq<u8>, n: int) -> u8
    decreases n,
{
    if n <= 0 {
        0u8
    } else {
        spec_crc7_byte(spec_crc7_acc(s, n - 1), s[n - 1], 0)
    }
}

/// The CRC7 of a byte sequence with the protocol's stop bit: the accumulator
/// over all bytes, shifted left once, with the low bit set.
pub open spec fn spec_crc7(s: Seq<u8>) -> u8 {
    (spec_crc7_acc(s, s.len() as int) << 1) | 1
}

/// CRC7 with the trailing stop bit, as placed in the last byte of a command
/// frame.
pub fn crc7(data: &[u8]) -> (r: u8)
    ensures
        r == spec_crc7(data@),
{
    let mut crc: u8 = 0;
    let len: usize = data.len();
    let mut j: usize = 0;
    while j < len
        invariant
            len == data@.len(),
            0 <= j <= len,
            crc == spec_crc7_acc(data@, j as int),
        decreases len - j,
    {
        let b: u8 = data[j];
        let ghost crc0 = crc;
        let mut i: u8 = 0;
        while i < 8
            invariant
                0 <= i <= 8,
                spec_crc7_byte(crc, b, i) == spec_crc7_byte(crc0, b, 0),
            decreases 8 - i,
        {
            let shifted: u8 = crc << 1u8;
            if (((b << i) & 0x80) ^ (shifted & 0x80)) != 0 {
                crc = shifted ^ 0x09;
            } else {
                crc = shifted;
            }
            i = i + 1;
        }
        assert(crc == spec_crc7_byte(crc0, b, 0));
        j = j + 1;
        assert(crc == spec_crc7_acc(data@, j as int));
    }
    (crc << 1u8) | 1
}

/// The 6-byte frame of a command: `0x40 | index`, the argument big-endian,
/// and the CRC7 of those five bytes with the stop bit. The sixth byte always
/// equals `spec_crc7` of the first five.
pub open spec fn spec_frame(cmd: Command) -> Seq<u8> {
    let arg = spec_argument(cmd);
    let prefix = seq![
        0x40u8 | spec_index(cmd),
        (arg >> 24) as u8,
        (arg >> 16) as u8,
        (arg >> 8) as u8,
        arg as u8,
    ];
    prefix.push(spec_crc7(prefix))
}

impl From<Command> for [u8; 6] {
    fn from(val: Command) -> (r: [u8; 6]) {
        let r = val.to_bytes();
        proof {
            broadcast use vstd::array::axiom_array_ext_equal;

            let f = choose|f: [u8; 6]| f@ == spec_frame(val);
            assert(r@ == spec_frame(val) && f@ == spec_frame(val));
            assert(r =~= f);
        }
        r
    }
}

impl vstd::std_specs::convert::FromSpecImpl<Command> for [u8; 6] {
    open spec fn obeys_from_spec() -> bool {
        true
    }

    /// The one 6-byte array whose view is the command's frame.
    open spec fn from_spec(val: Command) -> [u8; 6] {
        choose|f: [u8; 6]| f@ == spec_frame(val)
    }
}

impl Command {
    /// Encodes the command into its fixed 6-byte frame.
    pub fn to_bytes(self) -> (r: [u8; 6])
        ensures
            r@ == spec_frame(self),
            r@[5] == spec_crc7(r@.subrange(0, 5)),
    {
        let index = self.index();
        let arg = self.argument();
        let mut prefix: Vec<u8> = Vec::new();
        prefix.push(0x40 | index);
        prefix.push(#[verifier::truncate] ((arg >> 24u32) as u8));
        prefix.push(#[verifier::truncate] ((arg >> 16u32) as u8));
        prefix.push(#[verifier::truncate] ((arg >> 8u32) as u8));
        prefix.push(#[verifier::truncate] (arg as u8));
        let ghost sp = seq![
            0x40u8 | spec_index(self),
            (spec_argument(self) >> 24) as u8,
            (spec_argument(self) >> 16) as u8,
            (spec_argument(self) >> 8) as u8,
            spec_argument(self) as u8,
        ];
        assert(prefix@ =~= sp);
        assert(spec_frame(self) =~= sp.push(spec_crc7(sp)));
        let crc = crc7(prefix.as_slice());
        let r = [prefix[0], prefix[1], prefix[2], prefix[3], prefix[4], crc];
        assert(r@ =~= spec_frame(self));
        assert(r@.subrange(0, 5) =~= sp);
        r
    }
}

} // verus!
