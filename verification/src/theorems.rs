//! Facts about loading and about single instructions, proved from the
//! definition of the instruction cycle.
//!
//! An instruction is named by its opcode, the big-endian number that its two
//! bytes form: `0x1000 + nnn` is the jump to `nnn`.

use vstd::prelude::*;
use crate::font::font_table;
use crate::instruction::Instruction;
use crate::machine::{loaded, Machine, MAX_ROM_LEN};
use crate::screen::blank;

verus! {

/// A freshly loaded machine holds the image at `0x200` and the font at
/// `0x050`, starts at `0x200`, and has zero registers and an empty stack.
pub proof fn theorem_loaded(rom: Seq<u8>)
    requires
        rom.len() <= MAX_ROM_LEN,
    ensures
        loaded(rom).well_formed(),
        loaded(rom).memory.subrange(0x200, 0x200 + rom.len() as int) == rom,
        loaded(rom).memory.subrange(0x050, 0x0A0) == font_table(),
        loaded(rom).pc == 0x200,
        loaded(rom).index == 0,
        forall|r: int| 0 <= r < 16 ==> loaded(rom).registers[r] == 0,
        loaded(rom).stack.len() == 0,
        loaded(rom).display == blank(),
{
    assert(loaded(rom).memory.subrange(0x200, 0x200 + rom.len() as int) =~= rom);
    assert(loaded(rom).memory.subrange(0x050, 0x0A0) =~= font_table());
}

/// An instruction cycle without fault keeps the sizes of memory, registers
/// and display.
pub proof fn theorem_step_well_formed(m: Machine)
    requires
        m.well_formed(),
        m.fault() is None,
    ensures
        m.step().well_formed(),
{
}

/// `00E0` turns every pixel off, whatever the display held, and changes
/// nothing else.
pub proof fn theorem_clear_screen(m: Machine)
    requires
        m.well_formed(),
        m.can_fetch(),
        m.opcode() == 0x00E0,
    ensures
        m.fault() is None,
        m.step() == (Machine { display: blank(), pc: (m.pc + 2) as u16, ..m }),
        forall|r: int| 0 <= r < 32 ==> m.step().display[r] == 0,
{
}

/// `1NNN` leaves the program counter at exactly `nnn`.
pub proof fn theorem_jump(m: Machine, nnn: u16)
    requires
        m.well_formed(),
        m.can_fetch(),
        nnn < 4096,
        m.opcode() == 0x1000 + nnn,
    ensures
        m.fault() is None,
        m.step() == (Machine { pc: nnn, ..m }),
{
}

/// `2NNN` followed by `00EE` at `nnn` continues right behind the call, with
/// the stack as it was before the call.
pub proof fn theorem_call_return(m: Machine, nnn: u16)
    requires
        m.well_formed(),
        m.can_fetch(),
        nnn < 4096,
        m.opcode() == 0x2000 + nnn,
        m.step().can_fetch(),
        m.step().opcode() == 0x00EE,
    ensures
        m.fault() is None,
        m.step().pc == nnn,
        m.step().stack == m.stack.push((m.pc + 2) as u16),
        m.step().fault() is None,
        m.step().step() == (Machine { pc: (m.pc + 2) as u16, ..m }),
{
    let called = m.step();
    assert(called.stack.drop_last() =~= m.stack);
}

/// `3XNN` moves the program counter by 4 if `V[x] == nn`, by 2 otherwise.
pub proof fn theorem_skip_if_equal(m: Machine, x: u8, nn: u8)
    requires
        m.well_formed(),
        m.can_fetch(),
        x < 16,
        m.opcode() == 0x3000 + 256 * x + nn,
    ensures
        m.fault() is None,
        m.step() == (Machine {
            pc: (m.pc + if m.registers[x as int] == nn {
                4int
            } else {
                2int
            }) as u16,
            ..m
        }),
{
}

/// `4XNN` moves the program counter by 4 if `V[x] != nn`, by 2 otherwise.
pub proof fn theorem_skip_if_not_equal(m: Machine, x: u8, nn: u8)
    requires
        m.well_formed(),
        m.can_fetch(),
        x < 16,
        m.opcode() == 0x4000 + 256 * x + nn,
    ensures
        m.fault() is None,
        m.step() == (Machine {
            pc: (m.pc + if m.registers[x as int] != nn {
                4int
            } else {
                2int
            }) as u16,
            ..m
        }),
{
}

/// `5XY0` moves the program counter by 4 if `V[x] == V[y]`, by 2 otherwise.
pub proof fn theorem_skip_if_registers_equal(m: Machine, x: u8, y: u8)
    requires
        m.well_formed(),
        m.can_fetch(),
        x < 16,
        y < 16,
        m.opcode() == 0x5000 + 256 * x + 16 * y,
    ensures
        m.fault() is None,
        m.step() == (Machine {
            pc: (m.pc + if m.registers[x as int] == m.registers[y as int] {
                4int
            } else {
                2int
            }) as u16,
            ..m
        }),
{
}

/// `9XY0` moves the program counter by 4 if `V[x] != V[y]`, by 2 otherwise.
pub proof fn theorem_skip_if_registers_not_equal(m: Machine, x: u8, y: u8)
    requires
        m.well_formed(),
        m.can_fetch(),
        x < 16,
        y < 16,
        m.opcode() == 0x9000 + 256 * x + 16 * y,
    ensures
        m.fault() is None,
        m.step() == (Machine {
            pc: (m.pc + if m.registers[x as int] != m.registers[y as int] {
                4int
            } else {
                2int
            }) as u16,
            ..m
        }),
{
}

/// `7XNN` adds modulo 256 and touches no other register: `VF` is no carry
/// flag here.
pub proof fn theorem_add_immediate(m: Machine, x: u8, nn: u8)
    requires
        m.well_formed(),
        m.can_fetch(),
        x < 16,
        m.opcode() == 0x7000 + 256 * x + nn,
    ensures
        m.fault() is None,
        m.step().registers.len() == 16,
        m.step().registers[x as int] == (m.registers[x as int] + nn) % 256,
        forall|r: int| 0 <= r < 16 && r != x ==> m.step().registers[r] == m.registers[r],
{
}

/// `8XY4` splits the sum of `V[x]` and `V[y]` into its low byte, in `V[x]`,
/// and its carry, in `VF`.
pub proof fn theorem_add_carry(m: Machine, x: u8, y: u8)
    requires
        m.well_formed(),
        m.can_fetch(),
        x < 0xF,
        y < 16,
        m.opcode() == 0x8004 + 256 * x + 16 * y,
    ensures
        m.fault() is None,
        m.step().registers[0xF] <= 1,
        m.step().registers[x as int] + 256 * m.step().registers[0xF] == m.registers[x as int]
            + m.registers[y as int],
{
}

/// Every instruction that sets `VF` as a flag leaves 0 or 1 in it.
pub proof fn theorem_flag_is_bit(m: Machine)
    requires
        m.well_formed(),
        m.fault() is None,
        m.current() is Add || m.current() is Subtract || m.current() is ShiftRight
            || m.current() is SubtractFrom || m.current() is ShiftLeft || m.current() is Draw,
    ensures
        m.step().registers[0xF] <= 1,
{
}

/// `FX33` writes three decimal digits at `I` that spell `V[x]`.
pub proof fn theorem_store_decimal(m: Machine, x: u8)
    requires
        m.well_formed(),
        x < 16,
        m.opcode() == 0xF033 + 256 * x,
        m.fault() is None,
    ensures
        m.step().memory[m.index as int] <= 9,
        m.step().memory[m.index + 1] <= 9,
        m.step().memory[m.index + 2] <= 9,
        100 * m.step().memory[m.index as int] + 10 * m.step().memory[m.index + 1]
            + m.step().memory[m.index + 2] == m.registers[x as int],
{
}

/// `FX55` followed by `FX65` with the same `x` leaves every register as it
/// was.
pub proof fn theorem_store_load(m: Machine, x: u8)
    requires
        m.well_formed(),
        x < 16,
        m.opcode() == 0xF055 + 256 * x,
        m.fault() is None,
        m.step().can_fetch(),
        m.step().opcode() == 0xF065 + 256 * x,
    ensures
        m.step().fault() is None,
        m.step().step().registers == m.registers,
        m.step().step().index == m.index,
{
    assert(m.step().step().registers =~= m.registers);
}

/// Bytes that encode no instruction move the program counter by 2, change
/// nothing else and are reported in one line.
pub proof fn theorem_unknown(m: Machine)
    requires
        m.well_formed(),
        m.can_fetch(),
        m.current() is Unknown,
    ensures
        m.fault() is None,
        m.step() == (Machine { pc: (m.pc + 2) as u16, ..m }),
        m.diagnostics().len() == 1,
{
}

/// `5XYN` encodes no instruction unless `n` is zero.
pub proof fn theorem_unassigned(m: Machine, x: u8, y: u8, n: u8)
    requires
        m.well_formed(),
        m.can_fetch(),
        x < 16,
        y < 16,
        1 <= n < 16,
        m.opcode() == 0x5000 + 256 * x + 16 * y + n,
    ensures
        m.current() == (Instruction::Unknown {
            first: m.memory[m.pc as int],
            second: m.memory[m.pc + 1],
        }),
        m.memory[m.pc as int] == 0x50 + x,
        m.memory[m.pc + 1] == 16 * y + n,
{
}

} // verus!
