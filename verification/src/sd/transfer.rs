//! Transfer-token layer: the sentinel bytes that frame each 512-byte block
//! on the wire, the closed set of transfer errors a card can signal, and the
//! CRC16 that guards a block's payload.
use vstd::prelude::*;

use crate::sd::BLOCK_SIZE;

verus! {

/// Start token preceding the payload of a read and of a single-block write.
pub const START_BLOCK_TOKEN: u8 = 0xFE;

/// Start token preceding each block of a multiple-block write.
pub const START_MULTI_WRITE_TOKEN: u8 = 0xFC;

/// Stop token sent after the final block of a multiple-block write.
pub const STOP_TRANSMISSION_TOKEN: u8 = 0xFD;

/// The idle filler the card holds the line at while it prepares a block.
pub const BUSY_TOKEN: u8 = 0xFF;

/// The closed set of transfer failures a card can signal around a block:
/// the error-token flags seen in place of a read's start token, the
/// rejection reasons of a write's data response, and a pattern outside the
/// protocol.
#[derive(Clone, Copy, PartialEq, Eq, Structural, Debug)]
pub enum TokenError {
    /// The card's internal controller failed.
    CardError,
    /// The card could not complete the internal transfer.
    CcError,
    /// The card's error correction failed on the data.
    CardEccFailed,
    /// The address lay outside the card's range.
    OutOfRange,
    /// The card is locked.
    CardLocked,
    /// The card rejected a written block for a CRC mismatch.
    CrcRejected,
    /// The card rejected a written block for a write failure.
    WriteRejected,
    /// A byte that is no token of the protocol.
    Unknown,
}

/// One step of polling for a read's start token.
#[derive(Clone, Copy, PartialEq, Eq, Structural, Debug)]
pub enum TokenPoll {
    /// Idle filler: keep sampling, within the iteration budget.
    Pending,
    /// The start token: exactly `BLOCK_SIZE` payload bytes and a 2-byte CRC
    /// follow.
    Start,
    /// An error token or a protocol violation; the batch is aborted.
    Error(TokenError),
}

/// What one sampled byte means while waiting for a read's block: `0xFF` is
/// the busy filler, `0xFE` the start token, a byte with its top three bits
/// clear an error token whose highest-priority set flag names the failure,
/// and anything else a protocol violation.
pub open spec fn spec_classify_read_token(b: u8) -> TokenPoll {
    if b == 0xFF {
        TokenPoll::Pending
    } else if b == 0xFE {
        TokenPoll::Start
    } else if b & 0xE0 == 0 && b != 0 {
        TokenPoll::Error(
            if b & 0x10 != 0 {
                TokenError::CardLocked
            } else if b & 0x08 != 0 {
                TokenError::OutOfRange
            } else if b & 0x04 != 0 {
                TokenError::CardEccFailed
            } else if b & 0x02 != 0 {
                TokenError::CcError
            } else {
                TokenError::CardError
            },
        )
    } else {
        TokenPoll::Error(TokenError::Unknown)
    }
}

/// Classifies one byte sampled while waiting for a read's block.
pub fn classify_read_token(b: u8) -> (r: TokenPoll)
    ensures
        r == spec_classify_read_token(b),
{
    if b == 0xFF {
        TokenPoll::Pending
    } else if b == 0xFE {
        TokenPoll::Start
    } else if b & 0xE0 == 0 && b != 0 {
        TokenPoll::Error(
            if b & 0x10 != 0 {
                TokenError::CardLocked
            } else if b & 0x08 != 0 {
                TokenError::OutOfRange
            } else if b & 0x04 != 0 {
                TokenError::CardEccFailed
            } else if b & 0x02 != 0 {
                TokenError::CcError
            } else {
                TokenError::CardError
            },
        )
    } else {
        TokenPoll::Error(TokenError::Unknown)
    }
}

/// What a write's data-response token answers: the low five bits are
/// `0b00101` for an accepted block, `0b01011` for a CRC rejection,
/// `0b01101` for a write failure, and anything else violates the protocol.
pub open spec fn spec_classify_data_response(b: u8) -> Result<(), TokenError> {
    if b & 0x1F == 0x05 {
        Ok(())
    } else if b & 0x1F == 0x0B {
        Err(TokenError::CrcRejected)
    } else if b & 0x1F == 0x0D {
        Err(TokenError::WriteRejected)
    } else {
        Err(TokenError::Unknown)
    }
}

/// Classifies the data-response token the card answers a written block with.
pub fn classify_data_response(b: u8) -> (r: Result<(), TokenError>)
    ensures
        r == spec_classify_data_response(b),
{
    if b & 0x1F == 0x05 {
        Ok(())
    } else if b & 0x1F == 0x0B {
        Err(TokenError::CrcRejected)
    } else if b & 0x1F == 0x0D {
        Err(TokenError::WriteRejected)
    } else {
        Err(TokenError::Unknown)
    }
}

/// One bit of the CRC16 accumulation, polynomial `0x1021`.
pub open spec fn spec_crc16_bit(crc: u16) -> u16 {
    if crc & 0x8000 != 0 {
        (crc << 1) ^ 0x1021
    } else {
        crc << 1
    }
}

/// The remaining `8 - i` bit steps of one byte's CRC16 accumulation.
pub open spec fn spec_crc16_bits(crc: u16, i: u8) -> u16
    decreases 8 - i,
{
    if i >= 8 {
        crc
    } else {
        spec_crc16_bits(spec_crc16_bit(crc), (i + 1) as u8)
    }
}

/// CRC16 accumulation of one byte: fold the byte into the top of the
/// accumulator, then take the eight bit steps.
pub open spec fn spec_crc16_byte(crc: u16, b: u8) -> u16 {
    spec_crc16_bits(crc ^ (((b as u16) << 8) as u16), 0)
}

/// CRC16 accumulation of the first `n` bytes of `s`, from a zero
/// accumulator.
pub open spec fn spec_crc16_acc(s: Seq<u8>, n: int) -> u16
    decreases n,
{
    if n <= 0 {
        0u16
    } else {
        spec_crc16_byte(spec_crc16_acc(s, n - 1), s[n - 1])
    }
}

/// The CRC16 of a byte sequence as sent after a block's payload.
pub open spec fn spec_crc16(s: Seq<u8>) -> u16 {
    spec_crc16_acc(s, s.len() as int)
}

/// The CRC16 trailing a block's payload on the wire.
pub fn crc16(data: &[u8]) -> (r: u16)
    ensures
        r == spec_crc16(data@),
{
    let mut crc: u16 = 0;
    let len: usize = data.len();
    let mut j: usize = 0;
    while j < len
        invariant
            len == data@.len(),
            0 <= j <= len,
            crc == spec_crc16_acc(data@, j as int),
        decreases len - j,
    {
        let b: u8 = data[j];
        crc = crc ^ ((b as u16) << 8u16);
        let ghost crc0 = crc;
        let mut i: u8 = 0;
        while i < 8
            invariant
                0 <= i <= 8,
                spec_crc16_bits(crc, i) == spec_crc16_bits(crc0, 0),
            decreases 8 - i,
        {
            if crc & 0x8000 != 0 {
                crc = (crc << 1u16) ^ 0x1021;
            } else {
                crc = crc << 1u16;
            }
            i = i + 1;
        }
        j = j + 1;
        assert(crc == spec_crc16_acc(data@, j as int));
    }
    crc
}

/// Whether the two CRC bytes trailing a read block match the payload; a
/// mismatch means the payload was corrupted on the wire.
pub fn crc16_matches(payload: &[u8], hi: u8, lo: u8) -> (r: bool)
    ensures
        r == (((hi as u16) << 8 | lo as u16) == spec_crc16(payload@)),
{
    let crc = crc16(payload);
    ((hi as u16) << 8u16 | (lo as u16)) == crc
}

/// Wraps a block's payload for the wire: the start token for the write
/// command in use, the payload itself, and its CRC16 big-endian.
pub fn frame_block(payload: &[u8; BLOCK_SIZE], multi_write: bool) -> (r: Vec<u8>)
    ensures
        r@.len() == BLOCK_SIZE + 3,
        r@[0] == (if multi_write {
            START_MULTI_WRITE_TOKEN
        } else {
            START_BLOCK_TOKEN
        }),
        r@.subrange(1, BLOCK_SIZE as int + 1) == payload@,
        r@[BLOCK_SIZE as int + 1] == (spec_crc16(payload@) >> 8) as u8,
        r@[BLOCK_SIZE as int + 2] == spec_crc16(payload@) as u8,
{
    let mut frame: Vec<u8> = Vec::new();
    if multi_write {
        frame.push(START_MULTI_WRITE_TOKEN);
    } else {
        frame.push(START_BLOCK_TOKEN);
    }
    let mut k: usize = 0;
    while k < BLOCK_SIZE
        invariant
            0 <= k <= BLOCK_SIZE,
            frame@.len() == k + 1,
            frame@[0] == (if multi_write {
                START_MULTI_WRITE_TOKEN
            } else {
                START_BLOCK_TOKEN
            }),
            frame@.subrange(1, k as int + 1) == payload@.subrange(0, k as int),
        decreases BLOCK_SIZE - k,
    {
        frame.push(payload[k]);
        assert(frame@.subrange(1, k as int + 2) =~= payload@.subrange(0, k as int + 1));
        k = k + 1;
    }
    assert(frame@.subrange(1, BLOCK_SIZE as int + 1) =~= payload@);
    let ghost body = frame@;
    let crc = crc16(payload.as_slice());
    frame.push(#[verifier::truncate] ((crc >> 8u16) as u8));
    frame.push(#[verifier::truncate] (crc as u8));
    assert(frame@.subrange(1, BLOCK_SIZE as int + 1) =~= body.subrange(1, BLOCK_SIZE as int + 1));
    frame
}

} // verus!
