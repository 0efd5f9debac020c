//! Command bytes of the MPSSE engine.
//!
//! Every function here turns one logical operation into the bytes that the
//! engine executes. Nothing is sent: the caller writes the bytes.

use crate::error::EncodingError;
use ftdi_mpsse::{
    ClockBits, ClockBitsOut, ClockData, ClockDataOut, ClockTMS, ClockTMSOut, MpsseCmdBuilder,
};
use vstd::prelude::*;

verus! {

/// A clock edge.
#[derive(Clone, Copy, Debug, PartialEq, Eq, Structural)]
pub enum Edge {
    Positive,
    Negative,
}

/// Which bit of a byte is clocked first.
#[derive(Clone, Copy, Debug, PartialEq, Eq, Structural)]
pub enum BitOrder {
    MsbFirst,
    LsbFirst,
}

/// How data bits are clocked: their order, the edge on which TDI changes,
/// and whether TDO is captured. Captured bits are sampled on the edge
/// opposite to the one on which TDI changes.
#[derive(Clone, Copy, Debug, PartialEq, Eq, Structural)]
pub struct ShiftMode {
    pub order: BitOrder,
    pub out_edge: Edge,
    pub capture: bool,
}

/// The three switchable modes of the engine.
#[derive(Clone, Copy, Debug, PartialEq, Eq, Structural)]
pub struct EngineFlags {
    pub loopback: bool,
    pub three_phase: bool,
    pub adaptive_clocking: bool,
}

/// Most bits that one bit-level command clocks.
pub const MAX_BITS: u8 = 7;

/// Most bytes that one byte-level command clocks.
pub const MAX_BYTES: usize = 65536;

pub open spec fn flip(edge: Edge) -> Edge {
    match edge {
        Edge::Positive => Edge::Negative,
        Edge::Negative => Edge::Positive,
    }
}

/// Opcode that clocks TMS without capture.
pub open spec fn tms_out_opcode(edge: Edge) -> u8 {
    match edge {
        Edge::Positive => 0x4A,
        Edge::Negative => 0x4B,
    }
}

/// Opcode that clocks TMS and samples TDO.
pub open spec fn tms_capture_opcode(tms: Edge, tdo: Edge) -> u8 {
    match (tms, tdo) {
        (Edge::Positive, Edge::Positive) => 0x6A,
        (Edge::Positive, Edge::Negative) => 0x6E,
        (Edge::Negative, Edge::Positive) => 0x6B,
        (Edge::Negative, Edge::Negative) => 0x6F,
    }
}

/// Opcode that clocks whole bytes out on TDI without capture.
pub open spec fn bytes_out_opcode(order: BitOrder, out_edge: Edge) -> u8 {
    match (order, out_edge) {
        (BitOrder::MsbFirst, Edge::Positive) => 0x10,
        (BitOrder::MsbFirst, Edge::Negative) => 0x11,
        (BitOrder::LsbFirst, Edge::Positive) => 0x18,
        (BitOrder::LsbFirst, Edge::Negative) => 0x19,
    }
}

/// Opcode that clocks whole bytes out on TDI and captures TDO on `in_edge`.
pub open spec fn bytes_capture_opcode(order: BitOrder, in_edge: Edge) -> u8 {
    match (order, in_edge) {
        (BitOrder::MsbFirst, Edge::Positive) => 0x31,
        (BitOrder::MsbFirst, Edge::Negative) => 0x34,
        (BitOrder::LsbFirst, Edge::Positive) => 0x39,
        (BitOrder::LsbFirst, Edge::Negative) => 0x3C,
    }
}

/// Opcode that clocks single bits out on TDI without capture.
pub open spec fn bits_out_opcode(order: BitOrder, out_edge: Edge) -> u8 {
    match (order, out_edge) {
        (BitOrder::MsbFirst, Edge::Positive) => 0x12,
        (BitOrder::MsbFirst, Edge::Negative) => 0x13,
        (BitOrder::LsbFirst, Edge::Positive) => 0x1A,
        (BitOrder::LsbFirst, Edge::Negative) => 0x1B,
    }
}

/// Opcode that clocks single bits out on TDI and captures TDO on `in_edge`.
pub open spec fn bits_capture_opcode(order: BitOrder, in_edge: Edge) -> u8 {
    match (order, in_edge) {
        (BitOrder::MsbFirst, Edge::Positive) => 0x33,
        (BitOrder::MsbFirst, Edge::Negative) => 0x36,
        (BitOrder::LsbFirst, Edge::Positive) => 0x3B,
        (BitOrder::LsbFirst, Edge::Negative) => 0x3E,
    }
}

/// The opcode of a bit-level data command in the given mode.
pub open spec fn bits_opcode(mode: ShiftMode) -> u8 {
    if mode.capture {
        bits_capture_opcode(mode.order, flip(mode.out_edge))
    } else {
        bits_out_opcode(mode.order, mode.out_edge)
    }
}

/// The opcode of a byte-level data command in the given mode.
pub open spec fn bytes_opcode(mode: ShiftMode) -> u8 {
    if mode.capture {
        bytes_capture_opcode(mode.order, flip(mode.out_edge))
    } else {
        bytes_out_opcode(mode.order, mode.out_edge)
    }
}

/// The opcode of a TMS command; captured TDO is sampled on the rising edge.
pub open spec fn tms_opcode(edge: Edge, capture: bool) -> u8 {
    if capture {
        tms_capture_opcode(edge, Edge::Positive)
    } else {
        tms_out_opcode(edge)
    }
}

/// The data byte of a TMS command: the TMS levels in bits 0 to 6, and in
/// bit 7 the level held on TDI meanwhile.
pub open spec fn tms_data(pattern: u8, tdi: bool) -> u8 {
    if tdi {
        pattern | 0x80
    } else {
        pattern
    }
}

/// A bit-level command: opcode, bit count less one, data byte.
pub open spec fn bit_command(opcode: u8, count: u8, data: u8) -> Seq<u8> {
    if count == 0 {
        Seq::empty()
    } else {
        seq![opcode, (count - 1) as u8, data]
    }
}

/// A byte-level command: opcode, byte count less one as two bytes, low byte
/// first, then the data. No bytes make no command.
pub open spec fn byte_command(opcode: u8, data: Seq<u8>) -> Seq<u8> {
    if data.len() == 0 {
        Seq::empty()
    } else {
        seq![opcode, ((data.len() - 1) % 256) as u8, ((data.len() - 1) / 256) as u8] + data
    }
}

/// The bytes of `clock_tms` on valid arguments.
pub open spec fn tms_command(pattern: u8, count: u8, edge: Edge, capture: bool, tdi: bool) -> Seq<u8> {
    bit_command(tms_opcode(edge, capture), count, tms_data(pattern, tdi))
}

/// The bytes of `clock_bits` on valid arguments.
pub open spec fn bits_command(data: u8, count: u8, mode: ShiftMode) -> Seq<u8> {
    bit_command(bits_opcode(mode), count, data)
}

/// The bytes of `clock_bytes` on valid arguments.
pub open spec fn bytes_command(data: Seq<u8>, mode: ShiftMode) -> Seq<u8> {
    byte_command(bytes_opcode(mode), data)
}

/// The bytes of `set_clock`: with `divide_by_five` given, the command that
/// switches the prescaler on or off, then the divisor command with the low
/// sixteen bits of the divisor, low byte first.
pub open spec fn clock_command(divisor: u32, divide_by_five: Option<bool>) -> Seq<u8> {
    let tail = seq![0x86u8, (divisor & 0xFF) as u8, ((divisor >> 8) & 0xFF) as u8];
    match divide_by_five {
        Some(true) => seq![0x8Bu8] + tail,
        Some(false) => seq![0x8Au8] + tail,
        None => tail,
    }
}

/// The bytes of `set_gpio`: levels and directions of the lower bank, then of
/// the upper bank.
pub open spec fn gpio_command(lower_dir: u8, lower_val: u8, upper_dir: u8, upper_val: u8) -> Seq<u8> {
    seq![0x80u8, lower_val, lower_dir, 0x82u8, upper_val, upper_dir]
}

/// The bytes of `configure`: one opcode each for adaptive clocking,
/// three-phase clocking and loopback, in that order.
pub open spec fn flags_command(flags: EngineFlags) -> Seq<u8> {
    seq![
        if flags.adaptive_clocking { 0x96u8 } else { 0x97u8 },
        if flags.three_phase { 0x8Cu8 } else { 0x8Du8 },
        if flags.loopback { 0x84u8 } else { 0x85u8 },
    ]
}

/// Calls `MpsseCmdBuilder::clock_tms_out` on an empty builder and returns the
/// builder's bytes. The builder appends nothing for a count of zero, and
/// otherwise the mode's opcode, the count less one, and the pattern with bit
/// 7 set where `tdi` is; it panics on a count above seven.
#[verifier::external_body]
fn builder_tms_out(edge: Edge, pattern: u8, tdi: bool, count: u8) -> (bytes: Vec<u8>)
    requires
        count <= 7,
    ensures
        bytes@ == bit_command(tms_out_opcode(edge), count, tms_data(pattern, tdi)),
{
    let mode = match edge {
        Edge::Positive => ClockTMSOut::PosEdge,
        Edge::Negative => ClockTMSOut::NegEdge,
    };
    MpsseCmdBuilder::new().clock_tms_out(mode, pattern, tdi, count).0
}

/// Calls `MpsseCmdBuilder::clock_tms` on an empty builder and returns the
/// builder's bytes: as for `clock_tms_out`, with the opcode of the mode that
/// also samples TDO.
#[verifier::external_body]
fn builder_tms(tms: Edge, tdo: Edge, pattern: u8, tdi: bool, count: u8) -> (bytes: Vec<u8>)
    requires
        count <= 7,
    ensures
        bytes@ == bit_command(tms_capture_opcode(tms, tdo), count, tms_data(pattern, tdi)),
{
    let mode = match (tms, tdo) {
        (Edge::Positive, Edge::Positive) => ClockTMS::PosTMSPosTDO,
        (Edge::Positive, Edge::Negative) => ClockTMS::PosTMSNegTDO,
        (Edge::Negative, Edge::Positive) => ClockTMS::NegTMSPosTDO,
        (Edge::Negative, Edge::Negative) => ClockTMS::NegTMSNegTDO,
    };
    MpsseCmdBuilder::new().clock_tms(mode, pattern, tdi, count).0
}

/// Calls `MpsseCmdBuilder::clock_bits_out` on an empty builder and returns
/// the builder's bytes: nothing for a count of zero, otherwise the mode's
/// opcode, the count less one, and the data byte. It panics on a count above
/// eight.
#[verifier::external_body]
fn builder_bits_out(order: BitOrder, out_edge: Edge, data: u8, count: u8) -> (bytes: Vec<u8>)
    requires
        count <= 8,
    ensures
        bytes@ == bit_command(bits_out_opcode(order, out_edge), count, data),
{
    let mode = match (order, out_edge) {
        (BitOrder::MsbFirst, Edge::Positive) => ClockBitsOut::MsbPos,
        (BitOrder::MsbFirst, Edge::Negative) => ClockBitsOut::MsbNeg,
        (BitOrder::LsbFirst, Edge::Positive) => ClockBitsOut::LsbPos,
        (BitOrder::LsbFirst, Edge::Negative) => ClockBitsOut::LsbNeg,
    };
    MpsseCmdBuilder::new().clock_bits_out(mode, data, count).0
}

/// Calls `MpsseCmdBuilder::clock_bits` on an empty builder and returns the
/// builder's bytes: as for `clock_bits_out`, with the opcode of the mode that
/// also samples TDO on `in_edge`.
#[verifier::external_body]
fn builder_bits(order: BitOrder, in_edge: Edge, data: u8, count: u8) -> (bytes: Vec<u8>)
    requires
        count <= 8,
    ensures
        bytes@ == bit_command(bits_capture_opcode(order, in_edge), count, data),
{
    let mode = match (order, in_edge) {
        (BitOrder::MsbFirst, Edge::Positive) => ClockBits::MsbPosIn,
        (BitOrder::MsbFirst, Edge::Negative) => ClockBits::MsbNegIn,
        (BitOrder::LsbFirst, Edge::Positive) => ClockBits::LsbPosIn,
        (BitOrder::LsbFirst, Edge::Negative) => ClockBits::LsbNegIn,
    };
    MpsseCmdBuilder::new().clock_bits(mode, data, count).0
}

/// Calls `MpsseCmdBuilder::clock_data_out` on an empty builder and returns
/// the builder's bytes: nothing for no data, otherwise the mode's opcode,
/// the length less one in two bytes, low byte first, and the data. It panics
/// on more than 65536 bytes.
#[verifier::external_body]
fn builder_data_out(order: BitOrder, out_edge: Edge, data: &[u8]) -> (bytes: Vec<u8>)
    requires
        data@.len() <= 65536,
    ensures
        bytes@ == byte_command(bytes_out_opcode(order, out_edge), data@),
{
    let mode = match (order, out_edge) {
        (BitOrder::MsbFirst, Edge::Positive) => ClockDataOut::MsbPos,
        (BitOrder::MsbFirst, Edge::Negative) => ClockDataOut::MsbNeg,
        (BitOrder::LsbFirst, Edge::Positive) => ClockDataOut::LsbPos,
        (BitOrder::LsbFirst, Edge::Negative) => ClockDataOut::LsbNeg,
    };
    MpsseCmdBuilder::new().clock_data_out(mode, data).0
}

/// Calls `MpsseCmdBuilder::clock_data` on an empty builder and returns the
/// builder's bytes: as for `clock_data_out`, with the opcode of the mode that
/// also samples TDO on `in_edge`.
#[verifier::external_body]
fn builder_data(order: BitOrder, in_edge: Edge, data: &[u8]) -> (bytes: Vec<u8>)
    requires
        data@.len() <= 65536,
    ensures
        bytes@ == byte_command(bytes_capture_opcode(order, in_edge), data@),
{
    let mode = match (order, in_edge) {
        (BitOrder::MsbFirst, Edge::Positive) => ClockData::MsbPosIn,
        (BitOrder::MsbFirst, Edge::Negative) => ClockData::MsbNegIn,
        (BitOrder::LsbFirst, Edge::Positive) => ClockData::LsbPosIn,
        (BitOrder::LsbFirst, Edge::Negative) => ClockData::LsbNegIn,
    };
    MpsseCmdBuilder::new().clock_data(mode, data).0
}

/// Calls `MpsseCmdBuilder::set_clock` on an empty builder and returns the
/// builder's bytes: the prescaler opcode where one is asked for, then the
/// divisor opcode and the two low bytes of the divisor.
#[verifier::external_body]
fn builder_set_clock(divisor: u32, divide_by_five: Option<bool>) -> (bytes: Vec<u8>)
    ensures
        bytes@ == clock_command(divisor, divide_by_five),
{
    MpsseCmdBuilder::new().set_clock(divisor, divide_by_five).0
}

/// Calls `MpsseCmdBuilder::set_gpio_lower` on an empty builder and returns
/// the builder's bytes: the opcode, the levels, the directions.
#[verifier::external_body]
fn builder_gpio_lower(state: u8, direction: u8) -> (bytes: Vec<u8>)
    ensures
        bytes@ == seq![0x80u8, state, direction],
{
    MpsseCmdBuilder::new().set_gpio_lower(state, direction).0
}

/// Calls `MpsseCmdBuilder::set_gpio_upper` on an empty builder and returns
/// the builder's bytes: the opcode, the levels, the directions.
#[verifier::external_body]
fn builder_gpio_upper(state: u8, direction: u8) -> (bytes: Vec<u8>)
    ensures
        bytes@ == seq![0x82u8, state, direction],
{
    MpsseCmdBuilder::new().set_gpio_upper(state, direction).0
}

/// Calls `MpsseCmdBuilder::enable_loopback` on an empty builder and returns
/// the builder's bytes: the one opcode.
#[verifier::external_body]
fn builder_enable_loopback() -> (bytes: Vec<u8>)
    ensures
        bytes@ == seq![0x84u8],
{
    MpsseCmdBuilder::new().enable_loopback().0
}

/// Calls `MpsseCmdBuilder::disable_loopback` on an empty builder and returns
/// the builder's bytes: the one opcode.
#[verifier::external_body]
fn builder_disable_loopback() -> (bytes: Vec<u8>)
    ensures
        bytes@ == seq![0x85u8],
{
    MpsseCmdBuilder::new().disable_loopback().0
}

/// Calls `MpsseCmdBuilder::enable_3phase_data_clocking` on an empty builder
/// and returns the builder's bytes: the one opcode.
#[verifier::external_body]
fn builder_enable_three_phase() -> (bytes: Vec<u8>)
    ensures
        bytes@ == seq![0x8Cu8],
{
    MpsseCmdBuilder::new().enable_3phase_data_clocking().0
}

/// Calls `MpsseCmdBuilder::disable_3phase_data_clocking` on an empty builder
/// and returns the builder's bytes: the one opcode.
#[verifier::external_body]
fn builder_disable_three_phase() -> (bytes: Vec<u8>)
    ensures
        bytes@ == seq![0x8Du8],
{
    MpsseCmdBuilder::new().disable_3phase_data_clocking().0
}

/// Calls `MpsseCmdBuilder::enable_adaptive_data_clocking` on an empty
/// builder and returns the builder's bytes: the one opcode.
#[verifier::external_body]
fn builder_enable_adaptive() -> (bytes: Vec<u8>)
    ensures
        bytes@ == seq![0x96u8],
{
    MpsseCmdBuilder::new().enable_adaptive_data_clocking().0
}

/// Calls `MpsseCmdBuilder::disable_adaptive_data_clocking` on an empty
/// builder and returns the builder's bytes: the one opcode.
#[verifier::external_body]
fn builder_disable_adaptive() -> (bytes: Vec<u8>)
    ensures
        bytes@ == seq![0x97u8],
{
    MpsseCmdBuilder::new().disable_adaptive_data_clocking().0
}

/// The other edge.
pub fn opposite(edge: Edge) -> (r: Edge)
    ensures
        r == flip(edge),
{
    match edge {
        Edge::Positive => Edge::Negative,
        Edge::Negative => Edge::Positive,
    }
}

/// Appends `tail` to `buf`.
pub fn append(buf: &mut Vec<u8>, tail: &Vec<u8>)
    ensures
        final(buf)@ == old(buf)@ + tail@,
{
    let mut i: usize = 0;
    while i < tail.len()
        invariant
            i <= tail.len(),
            buf@ == old(buf)@ + tail@.subrange(0, i as int),
        decreases tail.len() - i,
    {
        buf.push(tail[i]);
        i += 1;
        assert(buf@ =~= old(buf)@ + tail@.subrange(0, i as int));
    }
    assert(tail@.subrange(0, tail@.len() as int) =~= tail@);
}

/// Encodes 1 to 7 cycles of TMS, as `clock_tms` does on a valid count.
pub fn tms_bytes(pattern: u8, count: u8, edge: Edge, capture: bool, tdi: bool) -> (bytes: Vec<u8>)
    requires
        1 <= count <= MAX_BITS,
    ensures
        bytes@ == tms_command(pattern, count, edge, capture, tdi),
        bytes@.len() == 3,
{
    if capture {
        builder_tms(edge, Edge::Positive, pattern, tdi, count)
    } else {
        builder_tms_out(edge, pattern, tdi, count)
    }
}

/// Encodes `count` cycles of TMS, bit 0 of `pattern` first, with TDI held at
/// `tdi`. With `capture`, TDO is sampled on each cycle and one response byte
/// comes back. Counts outside 1 to 7 are refused.
pub fn clock_tms(pattern: u8, count: u8, edge: Edge, capture: bool, tdi: bool) -> (r: Result<
    Vec<u8>,
    EncodingError,
>)
    ensures
        1 <= count <= MAX_BITS ==> r.is_ok() && r.unwrap()@ == tms_command(
            pattern,
            count,
            edge,
            capture,
            tdi,
        ),
        !(1 <= count <= MAX_BITS) ==> r == Err::<Vec<u8>, EncodingError>(
            EncodingError::LengthOutOfRange,
        ),
{
    if count < 1 || count > MAX_BITS {
        return Err(EncodingError::LengthOutOfRange);
    }
    Ok(tms_bytes(pattern, count, edge, capture, tdi))
}

/// Encodes `count` bits of `data` clocked on TDI in the given mode. Counts
/// outside 1 to 7 are refused.
pub fn clock_bits(data: u8, count: u8, mode: ShiftMode) -> (r: Result<Vec<u8>, EncodingError>)
    ensures
        1 <= count <= MAX_BITS ==> r.is_ok() && r.unwrap()@ == bits_command(data, count, mode),
        !(1 <= count <= MAX_BITS) ==> r == Err::<Vec<u8>, EncodingError>(
            EncodingError::LengthOutOfRange,
        ),
{
    if count < 1 || count > MAX_BITS {
        return Err(EncodingError::LengthOutOfRange);
    }
    if mode.capture {
        Ok(builder_bits(mode.order, opposite(mode.out_edge), data, count))
    } else {
        Ok(builder_bits_out(mode.order, mode.out_edge, data, count))
    }
}

/// Encodes whole bytes clocked on TDI in the given mode. No bytes encode to
/// nothing; more than `MAX_BYTES` are refused.
pub fn clock_bytes(data: &[u8], mode: ShiftMode) -> (r: Result<Vec<u8>, EncodingError>)
    ensures
        data@.len() <= MAX_BYTES ==> r.is_ok() && r.unwrap()@ == bytes_command(data@, mode),
        data@.len() > MAX_BYTES ==> r == Err::<Vec<u8>, EncodingError>(
            EncodingError::LengthOutOfRange,
        ),
{
    if data.len() > MAX_BYTES {
        return Err(EncodingError::LengthOutOfRange);
    }
    if mode.capture {
        Ok(builder_data(mode.order, opposite(mode.out_edge), data))
    } else {
        Ok(builder_data_out(mode.order, mode.out_edge, data))
    }
}

/// Encodes the clock divisor, of which the engine takes the low sixteen
/// bits, and, where given, the state of the divide-by-five prescaler.
pub fn set_clock(divisor: u32, divide_by_five: Option<bool>) -> (bytes: Vec<u8>)
    ensures
        bytes@ == clock_command(divisor, divide_by_five),
{
    builder_set_clock(divisor, divide_by_five)
}

/// Encodes directions and levels of both GPIO banks, lower bank first.
pub fn set_gpio(lower_dir: u8, lower_val: u8, upper_dir: u8, upper_val: u8) -> (bytes: Vec<u8>)
    ensures
        bytes@ == gpio_command(lower_dir, lower_val, upper_dir, upper_val),
{
    let mut bytes = builder_gpio_lower(lower_val, lower_dir);
    let upper = builder_gpio_upper(upper_val, upper_dir);
    append(&mut bytes, &upper);
    assert(bytes@ =~= gpio_command(lower_dir, lower_val, upper_dir, upper_val));
    bytes
}

/// Encodes the engine's three mode switches.
pub fn configure(flags: EngineFlags) -> (bytes: Vec<u8>)
    ensures
        bytes@ == flags_command(flags),
{
    let mut bytes = if flags.adaptive_clocking {
        builder_enable_adaptive()
    } else {
        builder_disable_adaptive()
    };
    let phase = if flags.three_phase {
        builder_enable_three_phase()
    } else {
        builder_disable_three_phase()
    };
    let loopback = if flags.loopback {
        builder_enable_loopback()
    } else {
        builder_disable_loopback()
    };
    append(&mut bytes, &phase);
    append(&mut bytes, &loopback);
    assert(bytes@ =~= flags_command(flags));
    bytes
}

} // verus!
