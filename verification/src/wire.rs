//! What a sequence of command bytes makes the engine do, cycle by cycle.
//!
//! This is the reading of the wire format against which the commands of the
//! controller are stated to be right: which level TMS and TDI have on each
//! clock cycle, and whether TDO is captured on it.

use vstd::prelude::*;

verus! {

/// One clock cycle.
pub struct Cycle {
    /// The level on TMS.
    pub tms: bool,
    /// The level on TDI.
    pub tdi: bool,
    /// Whether TDO is sampled.
    pub capture: bool,
}

/// Bit `index` of a byte.
pub open spec fn bit(value: u8, index: u8) -> bool {
    (value >> index) & 1 == 1
}

/// Opcodes that clock TMS from the low bits of a pattern byte.
pub open spec fn is_tms_opcode(opcode: u8) -> bool {
    opcode == 0x4A || opcode == 0x4B || opcode == 0x6A || opcode == 0x6B || opcode == 0x6E
        || opcode == 0x6F
}

/// Opcodes that clock up to eight bits of one byte on TDI, least
/// significant bit first.
pub open spec fn is_bits_opcode(opcode: u8) -> bool {
    opcode == 0x1A || opcode == 0x1B || opcode == 0x3B || opcode == 0x3E
}

/// Opcodes that clock whole bytes on TDI, least significant bit first.
pub open spec fn is_bytes_opcode(opcode: u8) -> bool {
    opcode == 0x18 || opcode == 0x19 || opcode == 0x39 || opcode == 0x3C
}

/// Opcodes that sample TDO.
pub open spec fn captures(opcode: u8) -> bool {
    opcode == 0x6A || opcode == 0x6B || opcode == 0x6E || opcode == 0x6F || opcode == 0x3B
        || opcode == 0x3E || opcode == 0x39 || opcode == 0x3C
}

/// The cycles of a TMS command: TMS follows the pattern from bit 0 up, TDI
/// holds bit 7.
pub open spec fn tms_cycles(data: u8, count: nat, capture: bool) -> Seq<Cycle> {
    Seq::new(count, |i: int| Cycle { tms: bit(data, i as u8), tdi: bit(data, 7), capture })
}

/// The cycles of a bit-level data command: TDI follows the data from bit 0
/// up, TMS stays low.
pub open spec fn bit_cycles(data: u8, count: nat, capture: bool) -> Seq<Cycle> {
    Seq::new(count, |i: int| Cycle { tms: false, tdi: bit(data, i as u8), capture })
}

/// The cycles of a byte-level data command: eight per byte, each byte from
/// bit 0 up, TMS low.
pub open spec fn byte_cycles(data: Seq<u8>, capture: bool) -> Seq<Cycle> {
    Seq::new(
        8 * data.len(),
        |i: int| Cycle { tms: false, tdi: bit(data[i / 8], (i % 8) as u8), capture },
    )
}

/// The cycles that a sequence of commands clocks, in order. Reading stops at
/// the first byte that is none of the opcodes above, and at a command that
/// is cut short.
pub open spec fn cycles(commands: Seq<u8>) -> Seq<Cycle>
    decreases commands.len(),
{
    if commands.len() < 3 {
        Seq::empty()
    } else if is_tms_opcode(commands[0]) {
        tms_cycles(commands[2], (commands[1] + 1) as nat, captures(commands[0])) + cycles(
            commands.subrange(3, commands.len() as int),
        )
    } else if is_bits_opcode(commands[0]) {
        bit_cycles(commands[2], (commands[1] + 1) as nat, captures(commands[0])) + cycles(
            commands.subrange(3, commands.len() as int),
        )
    } else if is_bytes_opcode(commands[0]) {
        let n = commands[1] + 256 * commands[2] + 1;
        if commands.len() < 3 + n {
            Seq::empty()
        } else {
            byte_cycles(commands.subrange(3, 3 + n), captures(commands[0])) + cycles(
                commands.subrange(3 + n, commands.len() as int),
            )
        }
    } else {
        Seq::empty()
    }
}

/// The TMS levels of a sequence of cycles.
pub open spec fn tms_levels(cycles: Seq<Cycle>) -> Seq<bool> {
    Seq::new(cycles.len(), |i: int| cycles[i].tms)
}

/// The cycles of two command sequences, one after the other, where the
/// first is a single TMS or bit-level command.
pub proof fn lemma_cycles_after_short(command: Seq<u8>, rest: Seq<u8>)
    requires
        command.len() == 3,
        is_tms_opcode(command[0]) || is_bits_opcode(command[0]),
    ensures
        cycles(command + rest) =~= cycles(command) + cycles(rest),
{
    let all = command + rest;
    assert(all.subrange(3, all.len() as int) =~= rest);
    assert(command.subrange(3, 3) =~= Seq::<u8>::empty());
    assert(cycles(command.subrange(3, 3)) =~= Seq::<Cycle>::empty());
}

/// The cycles of two command sequences, one after the other, where the
/// first is a single whole byte-level command.
pub proof fn lemma_cycles_after_bytes(command: Seq<u8>, rest: Seq<u8>)
    requires
        command.len() >= 3,
        is_bytes_opcode(command[0]),
        command.len() == 3 + command[1] + 256 * command[2] + 1,
    ensures
        cycles(command + rest) =~= byte_cycles(
            command.subrange(3, command.len() as int),
            captures(command[0]),
        ) + cycles(rest),
{
    let all = command + rest;
    let n = command[1] + 256 * command[2] + 1;
    assert(all.subrange(3 + n, all.len() as int) =~= rest);
    assert(all.subrange(3, 3 + n) =~= command.subrange(3, command.len() as int));
}

} // verus!
