//! Frame codec, decoding side: the R1 status byte and the fixed-size
//! response frames that follow a command.
use vstd::prelude::*;

verus! {

/// The leading status byte of every response, a set of error and state
/// flags.
#[derive(Clone, Copy, PartialEq, Eq, Structural, Debug)]
pub struct R1Status(pub u8);

impl R1Status {
    /// The card is in the idle state.
    pub fn in_idle_state(self) -> (r: bool)
        ensures
            r == ((self.0 & 0x01) != 0),
    {
        (self.0 & 0x01) != 0
    }

    /// An erase sequence was cleared before executing.
    pub fn erase_reset(self) -> (r: bool)
        ensures
            r == ((self.0 & 0x02) != 0),
    {
        (self.0 & 0x02) != 0
    }

    /// The command was illegal for the card's state.
    pub fn illegal_command(self) -> (r: bool)
        ensures
            r == ((self.0 & 0x04) != 0),
    {
        (self.0 & 0x04) != 0
    }

    /// The command's CRC check failed.
    pub fn crc_error(self) -> (r: bool)
        ensures
            r == ((self.0 & 0x08) != 0),
    {
        (self.0 & 0x08) != 0
    }

    /// An error in the sequence of erase commands occurred.
    pub fn erase_sequence_error(self) -> (r: bool)
        ensures
            r == ((self.0 & 0x10) != 0),
    {
        (self.0 & 0x10) != 0
    }

    /// A misaligned address did not match the block length.
    pub fn address_error(self) -> (r: bool)
        ensures
            r == ((self.0 & 0x20) != 0),
    {
        (self.0 & 0x20) != 0
    }

    /// The command's argument was outside the accepted range.
    pub fn parameter_error(self) -> (r: bool)
        ensures
            r == ((self.0 & 0x40) != 0),
    {
        (self.0 & 0x40) != 0
    }

    /// Whether any error flag is set; the idle-state flag is not an error.
    pub fn any_error(self) -> (r: bool)
        ensures
            r == ((self.0 & 0x7E) != 0),
    {
        (self.0 & 0x7E) != 0
    }
}

/// A decoded response frame: the status byte, and the big-endian value of
/// the extended bytes that follow it — the operation-conditions register
/// for an R3 response, the echoed interface condition for an R7 response,
/// the data-response token in the low byte for a write command, and zero
/// when the response is the plain status.
#[derive(Clone, Copy, PartialEq, Eq, Structural, Debug)]
pub struct Response {
    pub status: R1Status,
    pub extension: u32,
}

/// Index of the first byte with its high bit clear — the status byte — or
/// the sequence's length when every byte has it set.
pub open spec fn spec_find_status(s: Seq<u8>) -> int
    decreases s.len(),
{
    if s.len() == 0 {
        0
    } else if s[0] & 0x80 == 0 {
        0
    } else {
        1 + spec_find_status(s.subrange(1, s.len() as int))
    }
}

/// A scan that saw only set high bits up to `i`, and a clear one at `i` if
/// `i` is in range, has found exactly the first status index.
proof fn lemma_find_status_at(s: Seq<u8>, i: int)
    requires
        0 <= i <= s.len(),
        forall|j: int| 0 <= j < i ==> (s[j] & 0x80) != 0,
        i < s.len() ==> (s[i] & 0x80) == 0,
    ensures
        spec_find_status(s) == i,
    decreases s.len(),
{
    if s.len() == 0 {
    } else if i == 0 {
    } else {
        let t = s.subrange(1, s.len() as int);
        assert forall|j: int| 0 <= j < i - 1 implies (t[j] & 0x80) != 0 by {
            assert(t[j] == s[j + 1]);
        }
        assert(i - 1 < t.len() ==> (t[i - 1] & 0x80) == 0);
        lemma_find_status_at(t, i - 1);
    }
}

/// 256 to the power `n`.
pub open spec fn pow256(n: nat) -> int
    decreases n,
{
    if n == 0 {
        1
    } else {
        256 * pow256((n - 1) as nat)
    }
}

/// The big-endian integer value of a byte sequence.
pub open spec fn spec_be_value(s: Seq<u8>) -> int
    decreases s.len(),
{
    if s.len() == 0 {
        0
    } else {
        spec_be_value(s.drop_last()) * 256 + s.last()
    }
}

/// A big-endian value is bounded by 256 to the number of its bytes.
pub proof fn lemma_be_value_bound(s: Seq<u8>)
    ensures
        0 <= spec_be_value(s) < pow256(s.len()),
    decreases s.len(),
{
    if s.len() > 0 {
        lemma_be_value_bound(s.drop_last());
    }
}

/// Decodes a response frame out of the raw bytes sampled after a command.
///
/// The card signals its status byte by a clear high bit; everything sampled
/// before that is bus idle filler. The caller passes the expected
/// extended-response size of the command it sent, and the raw bytes it
/// sampled as the search window. Returns `None` exactly when the window
/// holds no status byte followed by the expected number of extension bytes
/// — the caller reports that as no response from the card.
pub fn decode_response(expected_ex_size: usize, raw: &[u8]) -> (r: Option<Response>)
    requires
        expected_ex_size <= 4,
    ensures
        ({
            let i = spec_find_status(raw@);
            &&& (r is Some <==> i + 1 + expected_ex_size <= raw@.len())
            &&& (r matches Some(resp) ==> resp.status == R1Status(raw@[i]) && resp.extension
                == spec_be_value(raw@.subrange(i + 1, i + 1 + expected_ex_size)))
        }),
{
    let len = raw.len();
    let mut i: usize = 0;
    while i < len && (raw[i] & 0x80) != 0
        invariant
            len == raw@.len(),
            0 <= i <= len,
            forall|j: int| 0 <= j < i ==> (raw@[j] & 0x80) != 0,
        decreases len - i,
    {
        i = i + 1;
    }
    proof {
        lemma_find_status_at(raw@, i as int);
    }
    if i >= len || len - i < 1 + expected_ex_size {
        return None;
    }
    let status = raw[i];
    let mut extension: u32 = 0;
    let mut k: usize = 0;
    while k < expected_ex_size
        invariant
            len == raw@.len(),
            expected_ex_size <= 4,
            i + 1 + expected_ex_size <= len,
            0 <= k <= expected_ex_size,
            extension == spec_be_value(raw@.subrange(i + 1, i + 1 + k)),
        decreases expected_ex_size - k,
    {
        let b = raw[i + 1 + k];
        proof {
            let prev = raw@.subrange(i as int + 1, i as int + 1 + k);
            let next = raw@.subrange(i as int + 1, i as int + 1 + k + 1);
            assert(next.drop_last() =~= prev);
            assert(next.last() == raw@[i as int + 1 + k]);
            lemma_be_value_bound(prev);
            assert(pow256(0) == 1 && pow256(1) == 256 && pow256(2) == 0x1_0000 && pow256(3)
                == 0x100_0000) by {
                reveal_with_fuel(pow256, 4);
            }
        }
        extension = extension * 256 + (b as u32);
        k = k + 1;
    }
    Some(Response { status: R1Status(status), extension })
}

} // verus!
