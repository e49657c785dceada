//! The machine as a mathematical value, and the meaning of one instruction
//! cycle on it.

use vstd::prelude::*;
use crate::diagnostics::{empty_stack_text, unknown_instruction_text};
use crate::font::{font_table, FONT_BASE, FONT_END};
use crate::instruction::{decode, Instruction};
use crate::screen::{blank, blit, collides, COLUMNS, ROWS};

verus! {

/// Number of addressable bytes.
pub const MEMORY_SIZE: usize = 4096;

/// Address at which a program image starts, and the initial program counter.
pub const PROGRAM_BASE: u16 = 0x200;

/// Length of the longest program image that fits into memory.
pub const MAX_ROM_LEN: usize = 3584;

/// Why an instruction cycle was refused.
#[derive(Clone, Copy, Debug, PartialEq, Eq, Structural)]
pub enum Fault {
    /// The program counter does not address two bytes inside memory.
    Fetch,
    /// The instruction reaches through `I` for a byte outside memory.
    Memory,
}

/// The whole state of the machine.
pub ghost struct Machine {
    /// The 4096 bytes of memory.
    pub memory: Seq<u8>,
    /// The registers `V0` to `VF`.
    pub registers: Seq<u8>,
    /// The index register `I`.
    pub index: u16,
    /// The program counter.
    pub pc: u16,
    /// The return addresses, the most recent call last. Its depth has no
    /// limit.
    pub stack: Seq<u16>,
    /// The 32 rows of the display.
    pub display: Seq<u64>,
}

/// `1` for true, `0` for false: the value a flag takes in `VF`.
pub open spec fn flag(raised: bool) -> u8 {
    if raised {
        1
    } else {
        0
    }
}

/// The memory right after loading `rom`: the font at `0x050`, the image at
/// `0x200`, zero elsewhere.
pub open spec fn initial_memory(rom: Seq<u8>) -> Seq<u8> {
    Seq::new(
        MEMORY_SIZE as nat,
        |a: int|
            if FONT_BASE <= a < FONT_END {
                font_table()[a - FONT_BASE]
            } else if PROGRAM_BASE <= a < PROGRAM_BASE + rom.len() {
                rom[a - PROGRAM_BASE]
            } else {
                0u8
            },
    )
}

/// The machine right after loading `rom`.
pub open spec fn loaded(rom: Seq<u8>) -> Machine {
    Machine {
        memory: initial_memory(rom),
        registers: Seq::new(16, |r: int| 0u8),
        index: 0,
        pc: PROGRAM_BASE,
        stack: Seq::empty(),
        display: blank(),
    }
}

impl Machine {
    /// The three fixed-size parts have their sizes.
    pub open spec fn well_formed(self) -> bool {
        &&& self.memory.len() == MEMORY_SIZE
        &&& self.registers.len() == 16
        &&& self.display.len() == ROWS
    }

    /// The program counter addresses two bytes inside memory.
    pub open spec fn can_fetch(self) -> bool {
        self.pc + 1 < MEMORY_SIZE
    }

    /// The two bytes at the program counter read as one big-endian number.
    pub open spec fn opcode(self) -> int {
        256 * self.memory[self.pc as int] + self.memory[self.pc + 1]
    }

    /// The instruction at the program counter.
    pub open spec fn current(self) -> Instruction {
        decode(self.memory[self.pc as int], self.memory[self.pc + 1])
    }

    /// Every byte that `instruction` reaches through `I` lies inside memory.
    pub open spec fn in_bounds(self, instruction: Instruction) -> bool {
        match instruction {
            Instruction::Draw { rows, .. } => self.index + rows <= MEMORY_SIZE,
            Instruction::StoreDecimal { .. } => self.index + 2 < MEMORY_SIZE,
            Instruction::StoreRegisters { x } | Instruction::LoadRegisters { x } => self.index + x
                < MEMORY_SIZE,
            _ => true,
        }
    }

    /// The fault that the next cycle ends in, if any.
    pub open spec fn fault(self) -> Option<Fault> {
        if !self.can_fetch() {
            Some(Fault::Fetch)
        } else if !self.in_bounds(self.current()) {
            Some(Fault::Memory)
        } else {
            None
        }
    }

    /// The state with `V[x]` replaced.
    pub open spec fn with_register(self, x: u8, value: u8) -> Machine {
        Machine { registers: self.registers.update(x as int, value), ..self }
    }

    /// The state with the program counter moved past one more instruction
    /// if `skip` holds.
    pub open spec fn skip_if(self, skip: bool) -> Machine {
        if skip {
            Machine { pc: (self.pc + 2) as u16, ..self }
        } else {
            self
        }
    }

    /// The sprite that a draw instruction of `rows` rows reads.
    pub open spec fn sprite(self, rows: u8) -> Seq<u8> {
        self.memory.subrange(self.index as int, self.index + rows)
    }

    /// The effect of `instruction` on a state whose program counter already
    /// points past it.
    pub open spec fn execute(self, instruction: Instruction) -> Machine {
        let v = self.registers;
        match instruction {
            Instruction::ClearScreen => Machine { display: blank(), ..self },
            Instruction::Return => if self.stack.len() > 0 {
                Machine { pc: self.stack.last(), stack: self.stack.drop_last(), ..self }
            } else {
                self
            },
            Instruction::Jump { addr } => Machine { pc: addr, ..self },
            Instruction::Call { addr } => Machine {
                pc: addr,
                stack: self.stack.push(self.pc),
                ..self
            },
            Instruction::SkipIfEqual { x, value } => self.skip_if(v[x as int] == value),
            Instruction::SkipIfNotEqual { x, value } => self.skip_if(v[x as int] != value),
            Instruction::SkipIfRegistersEqual { x, y } => self.skip_if(v[x as int] == v[y as int]),
            Instruction::SkipIfRegistersNotEqual { x, y } => self.skip_if(
                v[x as int] != v[y as int],
            ),
            Instruction::Load { x, value } => self.with_register(x, value),
            Instruction::AddImmediate { x, value } => self.with_register(
                x,
                ((v[x as int] + value) % 256) as u8,
            ),
            Instruction::Move { x, y } => self.with_register(x, v[y as int]),
            Instruction::Or { x, y } => self.with_register(x, v[x as int] | v[y as int]),
            Instruction::And { x, y } => self.with_register(x, v[x as int] & v[y as int]),
            Instruction::Xor { x, y } => self.with_register(x, v[x as int] ^ v[y as int]),
            Instruction::Add { x, y } => self.with_register(
                x,
                ((v[x as int] + v[y as int]) % 256) as u8,
            ).with_register(0xF, flag(v[x as int] + v[y as int] > 255)),
            Instruction::Subtract { x, y } => self.with_register(
                x,
                ((v[x as int] - v[y as int]) % 256) as u8,
            ).with_register(0xF, flag(v[x as int] >= v[y as int])),
            Instruction::ShiftRight { x, y } => self.with_register(
                x,
                v[y as int] / 2,
            ).with_register(0xF, v[y as int] % 2),
            Instruction::SubtractFrom { x, y } => self.with_register(
                x,
                ((v[y as int] - v[x as int]) % 256) as u8,
            ).with_register(0xF, flag(v[y as int] >= v[x as int])),
            Instruction::ShiftLeft { x, y } => self.with_register(
                x,
                ((2 * v[y as int]) % 256) as u8,
            ).with_register(0xF, flag(v[y as int] > 0x80)),
            Instruction::LoadIndex { addr } => Machine { index: addr, ..self },
            Instruction::Draw { x, y, rows } => {
                let column = v[x as int] % (COLUMNS as u8);
                let row = v[y as int] % (ROWS as u8);
                Machine {
                    display: blit(self.display, self.sprite(rows), column, row),
                    ..self
                }.with_register(0xF, flag(collides(self.display, self.sprite(rows), column, row)))
            },
            Instruction::StoreDecimal { x } => Machine {
                memory: self.memory.update(self.index as int, v[x as int] / 100).update(
                    self.index + 1,
                    (v[x as int] / 10) % 10,
                ).update(self.index + 2, v[x as int] % 10),
                ..self
            },
            Instruction::StoreRegisters { x } => Machine {
                memory: Seq::new(
                    MEMORY_SIZE as nat,
                    |a: int|
                        if self.index <= a <= self.index + x {
                            v[a - self.index]
                        } else {
                            self.memory[a]
                        },
                ),
                ..self
            },
            Instruction::LoadRegisters { x } => Machine {
                registers: Seq::new(
                    16,
                    |r: int|
                        if r <= x {
                            self.memory[self.index + r]
                        } else {
                            v[r]
                        },
                ),
                ..self
            },
            Instruction::Unknown { .. } => self,
        }
    }

    /// The state with the program counter moved past the current instruction.
    pub open spec fn advance(self) -> Machine {
        Machine { pc: (self.pc + 2) as u16, ..self }
    }

    /// The state after one instruction cycle that ends in no fault: fetch,
    /// move the program counter past the instruction, then execute it.
    pub open spec fn step(self) -> Machine {
        self.advance().execute(self.current())
    }

    /// What executing `instruction` reports.
    pub open spec fn report(self, instruction: Instruction) -> Seq<Seq<char>> {
        match instruction {
            Instruction::Return => if self.stack.len() == 0 {
                seq![empty_stack_text()]
            } else {
                Seq::empty()
            },
            Instruction::Unknown { first, second } => seq![unknown_instruction_text(first, second)],
            _ => Seq::empty(),
        }
    }

    /// What one instruction cycle that ends in no fault reports.
    pub open spec fn diagnostics(self) -> Seq<Seq<char>> {
        self.report(self.current())
    }
}

} // verus!
