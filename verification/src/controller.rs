//! The TAP controller: a cursor over the sixteen states, and the command
//! bytes of each operation on it.
//!
//! The controller sends nothing. Each operation returns the bytes to write
//! and records the state that the TAP will be in once they are written;
//! the caller writes them and reports the outcome with `write_done`.

use crate::encoder::{
    append, bits_command, bytes_command, clock_bits, clock_bytes, tms_bytes, tms_command,
    BitOrder, Edge, ShiftMode, MAX_BITS, MAX_BYTES,
};
use crate::error::{EncodingError, JtagError, ProtocolError};
use crate::path::{find_path, lemma_shortest_path, shortest_path};
use crate::state::{replay, TapState};
use crate::wire::{
    bit, bit_cycles, byte_cycles, cycles, lemma_cycles_after_bytes, lemma_cycles_after_short,
    tms_cycles, tms_levels, Cycle,
};
use vstd::prelude::*;

verus! {

/// Number of TMS-high cycles that `force_reset` clocks.
pub const RESET_CYCLES: usize = 7;

/// The value of up to seven TMS levels as the pattern byte of a command:
/// the first level in bit 0.
pub open spec fn pack(bits: Seq<bool>) -> nat
    decreases bits.len(),
{
    if bits.len() == 0 {
        0
    } else {
        (if bits[0] { 1nat } else { 0nat }) + 2 * pack(bits.subrange(1, bits.len() as int))
    }
}

/// The number of cycles of the first command of a TMS sequence.
pub open spec fn chunk_len(tms: Seq<bool>) -> nat {
    if tms.len() < 7 {
        tms.len()
    } else {
        7
    }
}

/// The commands that clock a TMS sequence: seven cycles each, the last one
/// the rest; TMS changes on the falling edge, TDI stays low, nothing is
/// captured.
pub open spec fn path_commands(tms: Seq<bool>) -> Seq<u8>
    decreases tms.len(),
{
    if tms.len() == 0 {
        Seq::empty()
    } else {
        let n = chunk_len(tms);
        tms_command(pack(tms.subrange(0, n as int)) as u8, n as u8, Edge::Negative, false, false)
            + path_commands(tms.subrange(n as int, tms.len() as int))
    }
}

/// The TMS levels of a forced reset: high throughout.
pub open spec fn reset_cycles() -> Seq<bool> {
    Seq::new(RESET_CYCLES as nat, |i: int| true)
}

/// The mode of an instruction shift: least significant bit first, TDI
/// changing on the falling edge, no capture.
pub open spec fn instruction_mode() -> ShiftMode {
    ShiftMode { order: BitOrder::LsbFirst, out_edge: Edge::Negative, capture: false }
}

/// The mode of a data shift: least significant bit first, TDI changing on
/// the falling edge, TDO captured on the rising edge.
pub open spec fn data_mode() -> ShiftMode {
    ShiftMode { order: BitOrder::LsbFirst, out_edge: Edge::Negative, capture: true }
}

/// The commands of an instruction shift of `bit_length` bits, 2 to 8: all
/// bits but the last on TDI alone, then one cycle that holds the last bit on
/// TDI while TMS is high.
pub open spec fn instruction_commands(opcode: u8, bit_length: u8) -> Seq<u8> {
    bits_command(opcode, (bit_length - 1) as u8, instruction_mode()) + tms_command(
        1,
        1,
        Edge::Negative,
        false,
        bit(opcode, (bit_length - 1) as u8),
    )
}

/// The commands of a data shift of two bytes or more: all bytes but the
/// last, then seven bits of the last, then one cycle that holds its eighth
/// bit on TDI while TMS is high. Each of the three captures TDO.
pub open spec fn data_commands(payload: Seq<u8>) -> Seq<u8> {
    bytes_command(payload.drop_last(), data_mode()) + bits_command(payload.last(), 7, data_mode())
        + tms_command(1, 1, Edge::Negative, true, bit(payload.last(), 7))
}

/// The payload-sized capture held in the response to a data shift. The
/// response has one byte more than the payload: the whole bytes as they
/// were captured, then a byte whose bits 1 to 7 hold the seven bits captured
/// next, then a byte whose bit 7 holds the bit captured on the last cycle.
pub open spec fn captured(response: Seq<u8>) -> Seq<u8> {
    let n = response.len() - 1;
    response.subrange(0, n - 1).push((response[n - 1] >> 1) | (response[n] & 0x80))
}

/// An instruction of the target device: an opcode and the number of its
/// bits that the instruction register takes.
#[derive(Clone, Copy, Debug, PartialEq, Eq, Structural)]
pub struct Instruction {
    pub opcode: u8,
    pub bit_length: u8,
}

/// What a data shift asks of the caller.
#[derive(Debug)]
pub struct DataShift {
    /// The bytes to write.
    pub bytes: Vec<u8>,
    /// The number of response bytes to read afterwards.
    pub response_len: usize,
}

/// The cursor over the TAP states.
pub struct TapController {
    cursor: Option<TapState>,
    pending: Option<TapState>,
}

/// Packs up to seven TMS levels of `tms`, from `start` on, into a pattern
/// byte.
pub fn pack_bits(tms: &Vec<bool>, start: usize, count: usize) -> (pattern: u8)
    requires
        count <= 7,
        start + count <= tms.len(),
    ensures
        pattern == pack(tms@.subrange(start as int, start + count)),
        pattern < 128,
{
    let mut acc: u8 = 0;
    let mut i: usize = count;
    while i > 0
        invariant
            i <= count <= 7,
            start + count <= tms.len(),
            acc == pack(tms@.subrange(start + i, start + count)),
            acc < 128,
            count - i <= 6 ==> acc < 64,
            count - i <= 5 ==> acc < 32,
            count - i <= 4 ==> acc < 16,
            count - i <= 3 ==> acc < 8,
            count - i <= 2 ==> acc < 4,
            count - i <= 1 ==> acc < 2,
            count - i <= 0 ==> acc < 1,
        decreases i,
    {
        i -= 1;
        proof {
            let s = tms@.subrange(start + i, start + count);
            assert(s.subrange(1, s.len() as int) =~= tms@.subrange(start + i + 1, start + count));
            assert(s[0] == tms@[start + i]);
        }
        let low: u8 = if tms[start + i] { 1 } else { 0 };
        acc = acc * 2 + low;
    }
    acc
}

/// Encodes a TMS sequence as commands of at most seven cycles each.
pub fn encode_path(tms: &Vec<bool>) -> (bytes: Vec<u8>)
    ensures
        bytes@ == path_commands(tms@),
{
    let mut bytes: Vec<u8> = Vec::new();
    let mut start: usize = 0;
    assert(tms@.subrange(0, tms@.len() as int) =~= tms@);
    while start < tms.len()
        invariant
            start <= tms.len(),
            bytes@ + path_commands(tms@.subrange(start as int, tms@.len() as int))
                =~= path_commands(tms@),
        decreases tms.len() - start,
    {
        let left: usize = tms.len() - start;
        let n: usize = if left < 7 { left } else { 7 };
        let pattern = pack_bits(tms, start, n);
        let command = tms_bytes(pattern, n as u8, Edge::Negative, false, false);
        proof {
            let rest = tms@.subrange(start as int, tms@.len() as int);
            assert(rest.subrange(0, n as int) =~= tms@.subrange(start as int, start + n));
            assert(rest.subrange(n as int, rest.len() as int) =~= tms@.subrange(
                start + n,
                tms@.len() as int,
            ));
            assert(path_commands(rest) == command@ + path_commands(
                tms@.subrange(start + n, tms@.len() as int),
            ));
        }
        append(&mut bytes, &command);
        start += n;
    }
    assert(path_commands(tms@.subrange(start as int, tms@.len() as int)) =~= Seq::<u8>::empty());
    bytes
}

/// Rebuilds the captured payload from the response to a data shift, or
/// returns `None` for a response too short to come from one.
pub fn unpack_capture(response: &[u8]) -> (r: Option<Vec<u8>>)
    ensures
        response@.len() >= 3 ==> r.is_some() && r.unwrap()@ == captured(response@),
        response@.len() < 3 ==> r.is_none(),
{
    if response.len() < 3 {
        return None;
    }
    let n: usize = response.len() - 1;
    let mut out: Vec<u8> = Vec::new();
    let mut i: usize = 0;
    while i < n - 1
        invariant
            n == response.len() - 1,
            n >= 2,
            i <= n - 1,
            out@ == response@.subrange(0, i as int),
        decreases n - 1 - i,
    {
        out.push(response[i]);
        i += 1;
        assert(out@ =~= response@.subrange(0, i as int));
    }
    out.push((response[n - 1] >> 1) | (response[n] & 0x80));
    Some(out)
}

impl Instruction {
    /// Whether the instruction can be shifted: its last bit goes with the
    /// cycle that leaves Shift-IR, the bits before it go in one bit-level
    /// command, so it has two bits at least and eight at most.
    pub open spec fn well_formed(&self) -> bool {
        2 <= self.bit_length <= 8
    }

    /// An instruction of `bit_length` bits. Fewer than two are refused as
    /// too short, more than eight as beyond the encoding.
    pub fn new(opcode: u8, bit_length: u8) -> (r: Result<Instruction, JtagError>)
        ensures
            bit_length < 2 ==> r == Err::<Instruction, JtagError>(
                JtagError::Protocol(ProtocolError::InstructionTooShort),
            ),
            bit_length > 8 ==> r == Err::<Instruction, JtagError>(
                JtagError::Encoding(EncodingError::LengthOutOfRange),
            ),
            2 <= bit_length <= 8 ==> r == Ok::<Instruction, JtagError>(
                (Instruction { opcode, bit_length }),
            ),
    {
        if bit_length < 2 {
            Err(JtagError::Protocol(ProtocolError::InstructionTooShort))
        } else if bit_length > MAX_BITS + 1 {
            Err(JtagError::Encoding(EncodingError::LengthOutOfRange))
        } else {
            Ok(Instruction { opcode, bit_length })
        }
    }
}

impl TapController {
    /// The state that the TAP is known to be in, if any.
    pub closed spec fn state(&self) -> Option<TapState> {
        self.cursor
    }

    /// The state that the TAP enters once the bytes handed out last are
    /// written, if such bytes are outstanding.
    pub closed spec fn in_flight(&self) -> Option<TapState> {
        self.pending
    }

    /// A controller that knows nothing of the TAP yet.
    pub fn new() -> (c: TapController)
        ensures
            c.state().is_none(),
            c.in_flight().is_none(),
    {
        TapController { cursor: None, pending: None }
    }

    /// The state that the TAP is known to be in, if any.
    pub fn current(&self) -> (s: Option<TapState>)
        ensures
            s == self.state(),
    {
        self.cursor
    }

    /// The state that outstanding bytes lead to, if any are outstanding.
    pub fn awaiting(&self) -> (s: Option<TapState>)
        ensures
            s == self.in_flight(),
    {
        self.pending
    }

    /// Reports the outcome of writing the bytes handed out last. After a
    /// successful write the TAP is in the state they lead to; after a
    /// failed one its state is unknown until a reset succeeds.
    pub fn write_done(&mut self, written: bool)
        ensures
            final(self).in_flight().is_none(),
            written ==> final(self).state() == old(self).in_flight(),
            !written ==> final(self).state().is_none(),
    {
        self.cursor = if written { self.pending } else { None };
        self.pending = None;
    }

    /// The bytes that force the TAP into Test-Logic-Reset from any state:
    /// `RESET_CYCLES` cycles with TMS high.
    pub fn force_reset(&mut self) -> (bytes: Vec<u8>)
        ensures
            bytes@ == path_commands(reset_cycles()),
            final(self).state().is_none(),
            final(self).in_flight() == Some(TapState::TestLogicReset),
    {
        let mut tms: Vec<bool> = Vec::new();
        let mut i: usize = 0;
        while i < RESET_CYCLES
            invariant
                i <= RESET_CYCLES,
                tms.len() == i,
                forall|j: int| 0 <= j < i ==> tms[j],
            decreases RESET_CYCLES - i,
        {
            tms.push(true);
            i += 1;
        }
        assert(tms@ =~= reset_cycles());
        self.cursor = None;
        self.pending = Some(TapState::TestLogicReset);
        encode_path(&tms)
    }

    /// The bytes that move the TAP from its current state to `target` in
    /// the fewest cycles.
    pub fn goto_state(&mut self, target: TapState) -> (bytes: Vec<u8>)
        requires
            old(self).state().is_some(),
        ensures
            bytes@ == path_commands(shortest_path(old(self).state().unwrap(), target)),
            final(self).state().is_none(),
            final(self).in_flight() == Some(target),
    {
        let from = match self.cursor {
            Some(s) => s,
            None => target,
        };
        let tms = find_path(from, target);
        self.cursor = None;
        self.pending = Some(target);
        encode_path(&tms)
    }

    /// The bytes that shift the low `bit_length` bits of `opcode` into the
    /// instruction register, least significant bit first, and leave the
    /// TAP in Exit1-IR. Fewer than two bits are refused as too short, more
    /// than eight as beyond the encoding; the controller is then unchanged.
    pub fn shift_instruction(&mut self, opcode: u8, bit_length: u8) -> (r: Result<
        Vec<u8>,
        JtagError,
    >)
        requires
            old(self).state() == Some(TapState::ShiftIr),
        ensures
            bit_length < 2 ==> r == Err::<Vec<u8>, JtagError>(
                JtagError::Protocol(ProtocolError::InstructionTooShort),
            ),
            bit_length > 8 ==> r == Err::<Vec<u8>, JtagError>(
                JtagError::Encoding(EncodingError::LengthOutOfRange),
            ),
            2 <= bit_length <= 8 ==> r.is_ok() && r.unwrap()@ == instruction_commands(
                opcode,
                bit_length,
            ),
            r.is_ok() ==> final(self).state().is_none() && final(self).in_flight() == Some(
                TapState::Exit1Ir,
            ),
            r.is_err() ==> *final(self) == *old(self),
    {
        let insn = match Instruction::new(opcode, bit_length) {
            Ok(i) => i,
            Err(e) => {
                return Err(e);
            },
        };
        let mode = ShiftMode { order: BitOrder::LsbFirst, out_edge: Edge::Negative, capture: false };
        let mut bytes = match clock_bits(insn.opcode, insn.bit_length - 1, mode) {
            Ok(b) => b,
            Err(e) => {
                return Err(JtagError::Encoding(e));
            },
        };
        let last: bool = (opcode >> (bit_length - 1)) & 1 == 1;
        let exit = tms_bytes(1, 1, Edge::Negative, false, last);
        append(&mut bytes, &exit);
        self.cursor = None;
        self.pending = Some(TapState::Exit1Ir);
        Ok(bytes)
    }

    /// The bytes that shift `payload` through the data register, first byte
    /// first and least significant bit first, capturing TDO on every cycle,
    /// and leave the TAP in Exit1-DR. The response to read is one byte
    /// longer than the payload. Fewer than two bytes are refused as too
    /// short, more than `MAX_BYTES + 1` as beyond the encoding; the
    /// controller is then unchanged.
    pub fn shift_data(&mut self, payload: &[u8]) -> (r: Result<DataShift, JtagError>)
        requires
            old(self).state() == Some(TapState::ShiftDr),
        ensures
            payload@.len() < 2 ==> r == Err::<DataShift, JtagError>(
                JtagError::Protocol(ProtocolError::PayloadTooShort),
            ),
            payload@.len() > MAX_BYTES + 1 ==> r == Err::<DataShift, JtagError>(
                JtagError::Encoding(EncodingError::LengthOutOfRange),
            ),
            2 <= payload@.len() <= MAX_BYTES + 1 ==> r.is_ok() && r.unwrap().bytes@
                == data_commands(payload@) && r.unwrap().response_len == payload@.len() + 1,
            r.is_ok() ==> final(self).state().is_none() && final(self).in_flight() == Some(
                TapState::Exit1Dr,
            ),
            r.is_err() ==> *final(self) == *old(self),
    {
        let n: usize = payload.len();
        if n < 2 {
            return Err(JtagError::Protocol(ProtocolError::PayloadTooShort));
        }
        if n > MAX_BYTES + 1 {
            return Err(JtagError::Encoding(EncodingError::LengthOutOfRange));
        }
        let mode = ShiftMode { order: BitOrder::LsbFirst, out_edge: Edge::Negative, capture: true };
        let head = vstd::slice::slice_subrange(payload, 0, n - 1);
        assert(head@ =~= payload@.drop_last());
        let last: u8 = payload[n - 1];
        let mut bytes = match clock_bytes(head, mode) {
            Ok(b) => b,
            Err(e) => {
                return Err(JtagError::Encoding(e));
            },
        };
        let bits = match clock_bits(last, 7, mode) {
            Ok(b) => b,
            Err(e) => {
                return Err(JtagError::Encoding(e));
            },
        };
        let exit = tms_bytes(1, 1, Edge::Negative, true, (last >> 7u8) & 1 == 1);
        append(&mut bytes, &bits);
        append(&mut bytes, &exit);
        self.cursor = None;
        self.pending = Some(TapState::Exit1Dr);
        Ok(DataShift { bytes, response_len: n + 1 })
    }
}

/// The cycles of a forced reset end in Test-Logic-Reset from every state,
/// and fit one command whose pattern has its seven low bits set.
pub proof fn lemma_reset_cycles(s: TapState)
    ensures
        replay(s, reset_cycles()) == TapState::TestLogicReset,
        path_commands(reset_cycles()) =~= seq![0x4Bu8, 6u8, 0x7Fu8],
{
    let p = reset_cycles();
    let rest1 = p.subrange(1, 7);
    let rest2 = rest1.subrange(1, 6);
    let rest3 = rest2.subrange(1, 5);
    let rest4 = rest3.subrange(1, 4);
    let rest5 = rest4.subrange(1, 3);
    let rest6 = rest5.subrange(1, 2);
    let rest7 = rest6.subrange(1, 1);
    let at1 = s.next(true);
    let at2 = at1.next(true);
    let at3 = at2.next(true);
    let at4 = at3.next(true);
    let at5 = at4.next(true);
    let at6 = at5.next(true);
    let at7 = at6.next(true);
    assert(at5 == TapState::TestLogicReset);
    assert(replay(at7, rest7) == at7);
    assert(replay(at6, rest6) == replay(at7, rest7));
    assert(replay(at5, rest5) == replay(at6, rest6));
    assert(replay(at4, rest4) == replay(at5, rest5));
    assert(replay(at3, rest3) == replay(at4, rest4));
    assert(replay(at2, rest2) == replay(at3, rest3));
    assert(replay(at1, rest1) == replay(at2, rest2));
    assert(replay(s, p) == replay(at1, rest1));
    assert(pack(rest7) == 0);
    assert(pack(rest6) == 1);
    assert(pack(rest5) == 3);
    assert(pack(rest4) == 7);
    assert(pack(rest3) == 15);
    assert(pack(rest2) == 31);
    assert(pack(rest1) == 63);
    assert(pack(p) == 127);
    assert(p.subrange(0, 7) =~= p);
    assert(p.subrange(7, 7).len() == 0);
    assert(path_commands(p.subrange(7, 7)) =~= Seq::<u8>::empty());
}

/// Two to the power of `n`.
pub open spec fn two_to(n: nat) -> nat
    decreases n,
{
    if n == 0 {
        1
    } else {
        2 * two_to((n - 1) as nat)
    }
}

/// A pattern byte holds each of its TMS levels in the bit of its position,
/// and nothing above them.
pub proof fn lemma_pack_cycles(bits: Seq<bool>)
    requires
        bits.len() <= 7,
    ensures
        pack(bits) < two_to(bits.len()),
        pack(bits) < 128,
        forall|i: int| 0 <= i < bits.len() ==> bit(pack(bits) as u8, i as u8) == bits[i],
        !bit(pack(bits) as u8, 7),
    decreases bits.len(),
{
    reveal_with_fuel(two_to, 8);
    assert((0u8 >> 7u8) & 1 != 1) by (bit_vector);
    if bits.len() > 0 {
        let rest = bits.subrange(1, bits.len() as int);
        lemma_pack_cycles(rest);
        let v = pack(rest) as u8;
        let p = pack(bits) as u8;
        assert(v < 64);
        assert(p < 128 ==> (p >> 7u8) & 1 != 1) by (bit_vector);
        assert forall|i: int| 0 <= i < bits.len() implies bit(p, i as u8) == bits[i] by {
            let k = i as u8;
            if bits[0] {
                assert(p == 2 * v + 1);
                assert(v < 64 && p == 2 * v + 1 && k < 7 ==> ((p >> k) & 1 == 1) == (if k == 0 {
                    true
                } else {
                    (v >> ((k - 1) as u8)) & 1 == 1
                })) by (bit_vector);
            } else {
                assert(p == 2 * v);
                assert(v < 64 && p == 2 * v && k < 7 ==> ((p >> k) & 1 == 1) == (if k == 0 {
                    false
                } else {
                    (v >> ((k - 1) as u8)) & 1 == 1
                })) by (bit_vector);
            }
            if i > 0 {
                assert(bit(v, (i - 1) as u8) == rest[i - 1]);
                assert(rest[i - 1] == bits[i]);
            }
        }
    }
}

/// Bit `k` of what a data shift captured, in the order of capture, read off
/// the response: the whole bytes hold eight bits each from bit 0 up, the
/// next byte seven bits from bit 1 up, the last byte one bit in bit 7.
pub open spec fn response_bit(response: Seq<u8>, k: int) -> bool {
    let n = response.len() - 1;
    if k < 8 * (n - 1) {
        bit(response[k / 8], (k % 8) as u8)
    } else if k < 8 * n - 1 {
        bit(response[n - 1], (k % 8 + 1) as u8)
    } else {
        bit(response[n], 7)
    }
}

/// The rebuilt capture holds the captured bits in order, eight to a byte,
/// the earliest in bit 0.
pub proof fn lemma_captured_bits(response: Seq<u8>, k: int)
    requires
        response.len() >= 3,
        0 <= k < 8 * (response.len() - 1),
    ensures
        captured(response).len() == response.len() - 1,
        bit(captured(response)[k / 8], (k % 8) as u8) == response_bit(response, k),
{
    let n = response.len() - 1;
    if k >= 8 * (n - 1) {
        let a = response[n - 1];
        let b = response[n];
        let i = (k % 8) as u8;
        assert(k / 8 == n - 1);
        assert(i < 7 ==> ((((a >> 1) | (b & 0x80)) >> i) & 1 == 1) == ((a >> ((i + 1) as u8)) & 1
            == 1)) by (bit_vector);
        assert(i == 7 ==> ((((a >> 1) | (b & 0x80)) >> i) & 1 == 1) == ((b >> 7) & 1 == 1))
            by (bit_vector);
    }
}

/// The cycles that clock a TMS sequence: its levels on TMS, TDI low,
/// nothing captured.
pub open spec fn path_cycles(tms: Seq<bool>) -> Seq<Cycle> {
    Seq::new(tms.len(), |i: int| Cycle { tms: tms[i], tdi: false, capture: false })
}

/// The cycles of a shift of `n` bits: TMS low but on the last.
pub open spec fn shift_levels(n: nat) -> Seq<bool> {
    Seq::new(n, |i: int| i == n - 1)
}

/// The cycles that shift an instruction: bit `i` of the opcode on TDI in
/// cycle `i`, TMS high on the last cycle alone, nothing captured.
pub open spec fn instruction_cycles(opcode: u8, bit_length: u8) -> Seq<Cycle> {
    Seq::new(
        bit_length as nat,
        |i: int| Cycle { tms: i == bit_length - 1, tdi: bit(opcode, i as u8), capture: false },
    )
}

/// The cycles that shift a payload: bit `i % 8` of byte `i / 8` on TDI in
/// cycle `i`, TMS high on the last cycle alone, TDO captured on each.
pub open spec fn data_cycles(payload: Seq<u8>) -> Seq<Cycle> {
    Seq::new(
        8 * payload.len(),
        |i: int|
            Cycle {
                tms: i == 8 * payload.len() - 1,
                tdi: bit(payload[i / 8], (i % 8) as u8),
                capture: true,
            },
    )
}

/// Read off the bytes, the commands of a TMS sequence clock that sequence,
/// with TDI low and nothing captured.
pub proof fn lemma_path_commands_cycles(tms: Seq<bool>)
    ensures
        cycles(path_commands(tms)) =~= path_cycles(tms),
        tms_levels(cycles(path_commands(tms))) =~= tms,
    decreases tms.len(),
{
    if tms.len() > 0 {
        let n = chunk_len(tms);
        let head = tms.subrange(0, n as int);
        let rest = tms.subrange(n as int, tms.len() as int);
        lemma_pack_cycles(head);
        lemma_path_commands_cycles(rest);
        let pattern = pack(head) as u8;
        let command = seq![0x4Bu8, (n - 1) as u8, pattern];
        assert(tms_command(pattern, n as u8, Edge::Negative, false, false) =~= command);
        assert(path_commands(tms) =~= command + path_commands(rest));
        lemma_cycles_after_short(command, path_commands(rest));
        assert(cycles(command.subrange(3, 3)) =~= Seq::<Cycle>::empty());
        assert(cycles(command) =~= tms_cycles(pattern, n, false));
        assert(tms_cycles(pattern, n, false) =~= path_cycles(head));
        assert(path_cycles(head) + path_cycles(rest) =~= path_cycles(tms));
    }
}

/// The bytes of `goto_state`, clocked cycle by cycle through the transition
/// table, end in the target; those of `force_reset` end in Test-Logic-Reset
/// from every state. The former are at most two commands.
pub proof fn lemma_bytes_arrive(from: TapState, target: TapState)
    ensures
        replay(from, tms_levels(cycles(path_commands(shortest_path(from, target))))) == target,
        replay(from, tms_levels(cycles(path_commands(reset_cycles()))))
            == TapState::TestLogicReset,
        path_commands(shortest_path(from, target)).len() <= 6,
{
    lemma_shortest_path(from, target);
    lemma_path_commands_cycles(shortest_path(from, target));
    lemma_reset_cycles(from);
    lemma_path_commands_cycles(reset_cycles());
    let p = shortest_path(from, target);
    if p.len() > 0 {
        let n = chunk_len(p);
        let rest = p.subrange(n as int, p.len() as int);
        if rest.len() > 0 {
            let m = chunk_len(rest);
            let tail = rest.subrange(m as int, rest.len() as int);
            assert(tail.len() == 0);
            assert(path_commands(tail) =~= Seq::<u8>::empty());
            assert(path_commands(rest).len() == 3);
        } else {
            assert(path_commands(rest) =~= Seq::<u8>::empty());
        }
        assert(path_commands(p).len() == 3 + path_commands(rest).len());
    }
}

/// A shift leaves a shift state for its exit state on the last cycle, and
/// not before.
pub proof fn lemma_shift_levels(s: TapState, n: nat)
    requires
        n >= 1,
        s == TapState::ShiftIr || s == TapState::ShiftDr,
    ensures
        replay(s, shift_levels(n)) == s.next(true),
    decreases n,
{
    let p = shift_levels(n);
    if n == 1 {
        assert(p[0]);
        assert(replay(s.next(true), p.subrange(1, 1)) == s.next(true));
    } else {
        assert(!p[0]);
        assert(p.subrange(1, n as int) =~= shift_levels((n - 1) as nat));
        lemma_shift_levels(s, (n - 1) as nat);
    }
}

/// Read off the bytes, the commands of an instruction shift deliver the
/// opcode bit by bit, the last bit on the cycle that leaves Shift-IR for
/// Exit1-IR.
pub proof fn lemma_instruction_cycles(opcode: u8, bit_length: u8)
    requires
        2 <= bit_length <= 8,
    ensures
        cycles(instruction_commands(opcode, bit_length)) =~= instruction_cycles(
            opcode,
            bit_length,
        ),
        replay(TapState::ShiftIr, tms_levels(instruction_cycles(opcode, bit_length)))
            == TapState::Exit1Ir,
{
    let last = bit(opcode, (bit_length - 1) as u8);
    let data: u8 = if last { 0x81 } else { 0x01 };
    assert(1u8 | 0x80u8 == 0x81u8) by (bit_vector);
    assert((0x81u8 >> 0u8) & 1 == 1 && (0x81u8 >> 7u8) & 1 == 1) by (bit_vector);
    assert((0x01u8 >> 0u8) & 1 == 1 && (0x01u8 >> 7u8) & 1 != 1) by (bit_vector);
    let first = seq![0x1Bu8, (bit_length - 2) as u8, opcode];
    let exit = seq![0x4Bu8, 0u8, data];
    assert(bits_command(opcode, (bit_length - 1) as u8, instruction_mode()) =~= first);
    assert(tms_command(1, 1, Edge::Negative, false, last) =~= exit);
    lemma_cycles_after_short(first, exit);
    assert(cycles(first.subrange(3, 3)) =~= Seq::<Cycle>::empty());
    assert(cycles(exit.subrange(3, 3)) =~= Seq::<Cycle>::empty());
    assert(cycles(first) =~= bit_cycles(opcode, (bit_length - 1) as nat, false));
    assert(cycles(exit) =~= tms_cycles(data, 1, false));
    assert(cycles(first + exit) =~= instruction_cycles(opcode, bit_length));
    assert(tms_levels(instruction_cycles(opcode, bit_length)) =~= shift_levels(bit_length as nat));
    lemma_shift_levels(TapState::ShiftIr, bit_length as nat);
}

/// Read off the bytes, the commands of a data shift deliver the payload bit
/// by bit and capture TDO on every cycle, the last bit on the cycle that
/// leaves Shift-DR for Exit1-DR.
pub proof fn lemma_data_cycles(payload: Seq<u8>)
    requires
        2 <= payload.len() <= MAX_BYTES + 1,
    ensures
        cycles(data_commands(payload)) =~= data_cycles(payload),
        replay(TapState::ShiftDr, tms_levels(data_cycles(payload))) == TapState::Exit1Dr,
{
    let n = payload.len();
    let head = payload.drop_last();
    let end = payload.last();
    let last = bit(end, 7);
    let data: u8 = if last { 0x81 } else { 0x01 };
    assert(1u8 | 0x80u8 == 0x81u8) by (bit_vector);
    assert((0x81u8 >> 0u8) & 1 == 1 && (0x81u8 >> 7u8) & 1 == 1) by (bit_vector);
    assert((0x01u8 >> 0u8) & 1 == 1 && (0x01u8 >> 7u8) & 1 != 1) by (bit_vector);
    let low = ((n - 2) % 256) as u8;
    let high = ((n - 2) / 256) as u8;
    let whole = seq![0x39u8, low, high] + head;
    let bits = seq![0x3Bu8, 6u8, end];
    let exit = seq![0x6Bu8, 0u8, data];
    assert(bytes_command(head, data_mode()) =~= whole);
    assert(bits_command(end, 7, data_mode()) =~= bits);
    assert(tms_command(1, 1, Edge::Negative, true, last) =~= exit);
    assert(whole[1] + 256 * whole[2] + 1 == n - 1);
    assert(whole.subrange(3, whole.len() as int) =~= head);
    assert(data_commands(payload) =~= whole + (bits + exit));
    lemma_cycles_after_bytes(whole, bits + exit);
    lemma_cycles_after_short(bits, exit);
    assert(cycles(bits.subrange(3, 3)) =~= Seq::<Cycle>::empty());
    assert(cycles(exit.subrange(3, 3)) =~= Seq::<Cycle>::empty());
    assert(cycles(bits) =~= bit_cycles(end, 7, true));
    assert(cycles(exit) =~= tms_cycles(data, 1, true));
    let all = byte_cycles(head, true) + (bit_cycles(end, 7, true) + tms_cycles(data, 1, true));
    assert(all.len() == 8 * n);
    assert forall|i: int| 0 <= i < 8 * n implies all[i] == data_cycles(payload)[i] by {
        if i < 8 * (n - 1) {
            assert(head[i / 8] == payload[i / 8]);
        } else {
            assert(i / 8 == n - 1);
            assert(i % 8 == i - 8 * (n - 1));
        }
    }
    assert(all =~= data_cycles(payload));
    assert(tms_levels(data_cycles(payload)) =~= shift_levels(8 * n));
    lemma_shift_levels(TapState::ShiftDr, 8 * n);
}

} // verus!
