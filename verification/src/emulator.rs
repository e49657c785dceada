//! The emulator: the machine state in memory, the loader and the
//! instruction cycle.

use vstd::prelude::*;
use crate::diagnostics::{
    appended, empty_stack_message, lemma_appended_none, lemma_appended_one,
    unknown_instruction_message,
};
use crate::font::{font, FONT_BASE, FONT_END};
use crate::instruction::Instruction;
use crate::machine::{loaded, Fault, Machine, MAX_ROM_LEN, MEMORY_SIZE, PROGRAM_BASE};
use crate::screen::Screen;

verus! {

/// A program image does not fit into memory.
#[derive(Clone, Copy, Debug, PartialEq, Eq, Structural)]
pub struct SizeExceeded {
    /// Length of the refused image.
    pub len: usize,
}

/// A CHIP-8 machine with a program loaded.
#[derive(Debug)]
pub struct Emulator {
    screen: Screen,
    memory: [u8; 4096],
    pc: u16,
    reg_i: u16,
    reg_v: [u8; 16],
    stack: Vec<u16>,
}

impl View for Emulator {
    type V = Machine;

    closed spec fn view(&self) -> Machine {
        Machine {
            memory: self.memory@,
            registers: self.reg_v@,
            index: self.reg_i,
            pc: self.pc,
            stack: self.stack@,
            display: self.screen@,
        }
    }
}

impl Clone for Emulator {
    /// A copy in the same state.
    fn clone(&self) -> (copy: Emulator)
        ensures
            copy@ == self@,
    {
        let copy = Emulator {
            screen: self.screen.clone(),
            memory: self.memory,
            pc: self.pc,
            reg_i: self.reg_i,
            reg_v: self.reg_v,
            stack: self.stack.clone(),
        };
        assert(copy@.stack =~= self@.stack);
        copy
    }
}

impl Emulator {
    /// The state of an emulator always has its fixed sizes.
    pub proof fn lemma_well_formed(&self)
        ensures
            self@.well_formed(),
    {
        self.screen.lemma_rows();
    }

    /// Loads a program image into a fresh machine: the font at `0x050`, the
    /// image at `0x200`, everything else zero, the program counter at the
    /// start of the image. An image of more than 3584 bytes is refused.
    pub fn new(rom: Vec<u8>) -> (result: Result<Emulator, SizeExceeded>)
        ensures
            match result {
                Ok(emulator) => rom@.len() <= MAX_ROM_LEN && emulator@ == loaded(rom@),
                Err(error) => rom@.len() > MAX_ROM_LEN && error.len == rom@.len(),
            },
    {
        if rom.len() > MAX_ROM_LEN {
            return Err(SizeExceeded { len: rom.len() });
        }
        let mut memory = [0u8; 4096];
        let glyphs = font();
        let mut g: usize = 0;
        while g < glyphs.len()
            invariant
                g <= glyphs@.len() == FONT_END - FONT_BASE,
                forall|a: int|
                    0 <= a < MEMORY_SIZE ==> memory@[a] == if FONT_BASE <= a < FONT_BASE + g {
                        glyphs@[a - FONT_BASE]
                    } else {
                        0u8
                    },
            decreases glyphs.len() - g,
        {
            memory[FONT_BASE + g] = glyphs[g];
            g += 1;
        }
        let base = PROGRAM_BASE as usize;
        let mut k: usize = 0;
        while k < rom.len()
            invariant
                k <= rom.len() <= MAX_ROM_LEN,
                base == PROGRAM_BASE,
                glyphs@.len() == FONT_END - FONT_BASE,
                forall|a: int|
                    0 <= a < MEMORY_SIZE ==> memory@[a] == if FONT_BASE <= a < FONT_END {
                        glyphs@[a - FONT_BASE]
                    } else if base <= a < base + k {
                        rom@[a - base]
                    } else {
                        0u8
                    },
            decreases rom.len() - k,
        {
            memory[base + k] = rom[k];
            k += 1;
        }
        let emulator = Emulator {
            screen: Screen::new(),
            memory,
            pc: PROGRAM_BASE,
            reg_i: 0,
            reg_v: [0u8; 16],
            stack: Vec::new(),
        };
        assert(emulator@.memory =~= loaded(rom@).memory);
        assert(emulator@.registers =~= loaded(rom@).registers);
        assert(emulator@.stack =~= loaded(rom@).stack);
        Ok(emulator)
    }

    /// The program counter.
    pub fn pc(&self) -> (pc: u16)
        ensures
            pc == self@.pc,
    {
        self.pc
    }

    /// The index register `I`.
    pub fn index(&self) -> (index: u16)
        ensures
            index == self@.index,
    {
        self.reg_i
    }

    /// The registers `V0` to `VF`.
    pub fn registers(&self) -> (registers: &[u8; 16])
        ensures
            registers@ == self@.registers,
    {
        &self.reg_v
    }

    /// The 4096 bytes of memory.
    pub fn memory(&self) -> (memory: &[u8; 4096])
        ensures
            memory@ == self@.memory,
    {
        &self.memory
    }

    /// The return addresses, the most recent call last.
    pub fn stack(&self) -> (stack: &Vec<u16>)
        ensures
            stack@ == self@.stack,
    {
        &self.stack
    }

    /// The display.
    pub fn screen(&self) -> (screen: &Screen)
        ensures
            screen@ == self@.display,
    {
        &self.screen
    }

    /// Whether every byte that `instruction` reaches through `I` lies inside
    /// memory.
    fn in_bounds(&self, instruction: Instruction) -> (ok: bool)
        ensures
            ok == self@.in_bounds(instruction),
    {
        let index = self.reg_i as usize;
        match instruction {
            Instruction::Draw { rows, .. } => index + rows as usize <= MEMORY_SIZE,
            Instruction::StoreDecimal { .. } => index + 2 < MEMORY_SIZE,
            Instruction::StoreRegisters { x } => index + (x as usize) < MEMORY_SIZE,
            Instruction::LoadRegisters { x } => index + (x as usize) < MEMORY_SIZE,
            _ => true,
        }
    }

    /// `V[x] := value`.
    fn set_register(&mut self, x: u8, value: u8)
        requires
            x < 16,
        ensures
            final(self)@ == old(self)@.with_register(x, value),
    {
        self.reg_v[x as usize] = value;
    }

    /// Moves the program counter past one more instruction if `skip` holds.
    fn skip_if(&mut self, skip: bool)
        requires
            old(self)@.pc <= MEMORY_SIZE,
        ensures
            final(self)@ == old(self)@.skip_if(skip),
    {
        if skip {
            self.pc = self.pc + 2;
        }
    }

    /// Draws the sprite of `rows` bytes at `I` at column `V[x] mod 64`, row
    /// `V[y] mod 32`, and sets `VF` to the collision flag.
    fn draw(&mut self, x: u8, y: u8, rows: u8)
        requires
            x < 16,
            y < 16,
            old(self)@.index + rows <= MEMORY_SIZE,
        ensures
            final(self)@ == old(self)@.execute(Instruction::Draw { x, y, rows }),
    {
        let column = self.reg_v[x as usize] % 64;
        let row = self.reg_v[y as usize] % 32;
        let start = self.reg_i as usize;
        let sprite = &self.memory[start..start + rows as usize];
        let collision = self.screen.draw_sprite(sprite, column, row);
        self.set_register(0xF, if collision { 1 } else { 0 });
    }

    /// Stores the hundreds, tens and units of `V[x]` at `I`, `I + 1`, `I + 2`.
    fn store_decimal(&mut self, x: u8)
        requires
            x < 16,
            old(self)@.index + 2 < MEMORY_SIZE,
        ensures
            final(self)@ == old(self)@.execute(Instruction::StoreDecimal { x }),
    {
        let value = self.reg_v[x as usize];
        let index = self.reg_i as usize;
        self.memory[index] = value / 100;
        self.memory[index + 1] = (value / 10) % 10;
        self.memory[index + 2] = value % 10;
    }

    /// Copies `V[0]` to `V[x]` to memory at `I` onwards.
    fn store_registers(&mut self, x: u8)
        requires
            x < 16,
            old(self)@.index + x < MEMORY_SIZE,
        ensures
            final(self)@ == old(self)@.execute(Instruction::StoreRegisters { x }),
    {
        let index = self.reg_i as usize;
        let mut r: usize = 0;
        while r <= x as usize
            invariant
                r <= x + 1,
                x < 16,
                index == self.reg_i,
                index + x < MEMORY_SIZE,
                self.reg_v == old(self).reg_v,
                self.reg_i == old(self).reg_i,
                self.pc == old(self).pc,
                self.stack == old(self).stack,
                self.screen == old(self).screen,
                forall|a: int|
                    0 <= a < MEMORY_SIZE ==> self.memory@[a] == if index <= a < index + r {
                        self.reg_v@[a - index]
                    } else {
                        old(self).memory@[a]
                    },
            decreases x + 1 - r,
        {
            self.memory[index + r] = self.reg_v[r];
            r += 1;
        }
        assert(self@.memory =~= old(self)@.execute(Instruction::StoreRegisters { x }).memory);
    }

    /// Copies memory at `I` onwards to `V[0]` to `V[x]`.
    fn load_registers(&mut self, x: u8)
        requires
            x < 16,
            old(self)@.index + x < MEMORY_SIZE,
        ensures
            final(self)@ == old(self)@.execute(Instruction::LoadRegisters { x }),
    {
        let index = self.reg_i as usize;
        let mut r: usize = 0;
        while r <= x as usize
            invariant
                r <= x + 1,
                x < 16,
                index == self.reg_i,
                index + x < MEMORY_SIZE,
                self.memory == old(self).memory,
                self.reg_i == old(self).reg_i,
                self.pc == old(self).pc,
                self.stack == old(self).stack,
                self.screen == old(self).screen,
                forall|q: int|
                    0 <= q < 16 ==> self.reg_v@[q] == if q < r {
                        self.memory@[index + q]
                    } else {
                        old(self).reg_v@[q]
                    },
            decreases x + 1 - r,
        {
            self.reg_v[r] = self.memory[index + r];
            r += 1;
        }
        assert(self@.registers =~= old(self)@.execute(Instruction::LoadRegisters { x }).registers);
    }

    /// Pops the return address into the program counter, or reports that
    /// there is none.
    fn return_from_call(&mut self, logs: &mut Vec<String>)
        ensures
            final(self)@ == old(self)@.execute(Instruction::Return),
            appended(old(logs)@, final(logs)@, old(self)@.report(Instruction::Return)),
    {
        match self.stack.pop() {
            Some(pc) => {
                self.pc = pc;
                proof {
                    lemma_appended_none(logs@);
                }
            },
            None => {
                let message = empty_stack_message();
                proof {
                    lemma_appended_one(logs@, message);
                }
                logs.push(message);
            },
        }
    }

    /// Pushes the program counter and continues at `addr`.
    fn call(&mut self, addr: u16)
        ensures
            final(self)@ == old(self)@.execute(Instruction::Call { addr }),
    {
        self.stack.push(self.pc);
        self.pc = addr;
    }

    /// `V[x] := V[x] + V[y]` modulo 256, `VF` := carry.
    fn add_registers(&mut self, x: u8, y: u8)
        requires
            x < 16,
            y < 16,
        ensures
            final(self)@ == old(self)@.execute(Instruction::Add { x, y }),
    {
        let vx = self.reg_v[x as usize];
        let vy = self.reg_v[y as usize];
        let carry = vx as u16 + vy as u16 > 255;
        self.set_register(x, vx.wrapping_add(vy));
        self.set_register(0xF, if carry { 1 } else { 0 });
    }

    /// `V[x] := V[x] - V[y]` modulo 256, `VF` := no borrow.
    fn subtract(&mut self, x: u8, y: u8)
        requires
            x < 16,
            y < 16,
        ensures
            final(self)@ == old(self)@.execute(Instruction::Subtract { x, y }),
    {
        let vx = self.reg_v[x as usize];
        let vy = self.reg_v[y as usize];
        self.set_register(x, vx.wrapping_sub(vy));
        self.set_register(0xF, if vx >= vy { 1 } else { 0 });
    }

    /// `V[x] := V[y] - V[x]` modulo 256, `VF` := no borrow.
    fn subtract_from(&mut self, x: u8, y: u8)
        requires
            x < 16,
            y < 16,
        ensures
            final(self)@ == old(self)@.execute(Instruction::SubtractFrom { x, y }),
    {
        let vx = self.reg_v[x as usize];
        let vy = self.reg_v[y as usize];
        self.set_register(x, vy.wrapping_sub(vx));
        self.set_register(0xF, if vy >= vx { 1 } else { 0 });
    }

    /// `V[x] := V[y] >> 1`, `VF` := the bit shifted out.
    fn shift_right(&mut self, x: u8, y: u8)
        requires
            x < 16,
            y < 16,
        ensures
            final(self)@ == old(self)@.execute(Instruction::ShiftRight { x, y }),
    {
        let vy = self.reg_v[y as usize];
        self.set_register(x, vy / 2);
        self.set_register(0xF, vy % 2);
    }

    /// `V[x] := V[y] << 1` modulo 256, `VF` := whether `V[y] > 0x80`.
    fn shift_left(&mut self, x: u8, y: u8)
        requires
            x < 16,
            y < 16,
        ensures
            final(self)@ == old(self)@.execute(Instruction::ShiftLeft { x, y }),
    {
        let vy = self.reg_v[y as usize];
        self.set_register(x, vy.wrapping_add(vy));
        self.set_register(0xF, if vy > 0x80 { 1 } else { 0 });
    }

    /// Executes an instruction that only moves the program counter or sets a
    /// register, the program counter already pointing past it.
    fn execute_plain(&mut self, instruction: Instruction)
        requires
            instruction.well_formed(),
            old(self)@.pc <= MEMORY_SIZE,
            instruction is Jump || instruction is SkipIfEqual || instruction is SkipIfNotEqual
                || instruction is SkipIfRegistersEqual || instruction is SkipIfRegistersNotEqual
                || instruction is Load || instruction is AddImmediate || instruction is Move
                || instruction is Or || instruction is And || instruction is Xor
                || instruction is LoadIndex,
        ensures
            final(self)@ == old(self)@.execute(instruction),
    {
        match instruction {
            Instruction::Jump { addr } => {
                self.pc = addr;
            },
            Instruction::SkipIfEqual { x, value } => {
                let skip = self.reg_v[x as usize] == value;
                self.skip_if(skip);
            },
            Instruction::SkipIfNotEqual { x, value } => {
                let skip = self.reg_v[x as usize] != value;
                self.skip_if(skip);
            },
            Instruction::SkipIfRegistersEqual { x, y } => {
                let skip = self.reg_v[x as usize] == self.reg_v[y as usize];
                self.skip_if(skip);
            },
            Instruction::SkipIfRegistersNotEqual { x, y } => {
                let skip = self.reg_v[x as usize] != self.reg_v[y as usize];
                self.skip_if(skip);
            },
            Instruction::Load { x, value } => {
                self.set_register(x, value);
            },
            Instruction::AddImmediate { x, value } => {
                let sum = self.reg_v[x as usize].wrapping_add(value);
                self.set_register(x, sum);
            },
            Instruction::Move { x, y } => {
                let value = self.reg_v[y as usize];
                self.set_register(x, value);
            },
            Instruction::Or { x, y } => {
                let value = self.reg_v[x as usize] | self.reg_v[y as usize];
                self.set_register(x, value);
            },
            Instruction::And { x, y } => {
                let value = self.reg_v[x as usize] & self.reg_v[y as usize];
                self.set_register(x, value);
            },
            Instruction::Xor { x, y } => {
                let value = self.reg_v[x as usize] ^ self.reg_v[y as usize];
                self.set_register(x, value);
            },
            Instruction::LoadIndex { addr } => {
                self.reg_i = addr;
            },
            _ => {},
        }
    }

    /// Turns every pixel off.
    fn clear_screen(&mut self)
        ensures
            final(self)@ == old(self)@.execute(Instruction::ClearScreen),
    {
        self.screen.clear();
    }

    /// Reports bytes that encode no instruction.
    fn report_unknown(&self, first: u8, second: u8, logs: &mut Vec<String>)
        ensures
            appended(
                old(logs)@,
                final(logs)@,
                self@.report(Instruction::Unknown { first, second }),
            ),
    {
        let message = unknown_instruction_message(first, second);
        proof {
            lemma_appended_one(logs@, message);
        }
        logs.push(message);
    }

    /// Executes `instruction`, the program counter already pointing past it.
    fn execute(&mut self, instruction: Instruction, logs: &mut Vec<String>)
        requires
            instruction.well_formed(),
            old(self)@.in_bounds(instruction),
            old(self)@.pc <= MEMORY_SIZE,
        ensures
            final(self)@ == old(self)@.execute(instruction),
            appended(old(logs)@, final(logs)@, old(self)@.report(instruction)),
    {
        proof {
            lemma_appended_none(logs@);
        }
        match instruction {
            Instruction::ClearScreen => self.clear_screen(),
            Instruction::Return => self.return_from_call(logs),
            Instruction::Call { addr } => self.call(addr),
            Instruction::Add { x, y } => self.add_registers(x, y),
            Instruction::Subtract { x, y } => self.subtract(x, y),
            Instruction::ShiftRight { x, y } => self.shift_right(x, y),
            Instruction::SubtractFrom { x, y } => self.subtract_from(x, y),
            Instruction::ShiftLeft { x, y } => self.shift_left(x, y),
            Instruction::Draw { x, y, rows } => self.draw(x, y, rows),
            Instruction::StoreDecimal { x } => self.store_decimal(x),
            Instruction::StoreRegisters { x } => self.store_registers(x),
            Instruction::LoadRegisters { x } => self.load_registers(x),
            Instruction::Unknown { first, second } => self.report_unknown(first, second, logs),
            _ => self.execute_plain(instruction),
        }
    }

    /// Runs one instruction cycle: fetches the two bytes at the program
    /// counter, moves the program counter past them and executes the
    /// instruction they encode, appending to `logs` what it reports.
    ///
    /// A cycle that would read or write outside memory is refused with a
    /// [`Fault`]; the machine and the log are then left as they were.
    pub fn tick(&mut self, logs: &mut Vec<String>) -> (result: Result<(), Fault>)
        ensures
            result == match old(self)@.fault() {
                Some(fault) => Err::<(), Fault>(fault),
                None => Ok::<(), Fault>(()),
            },
            old(self)@.fault() is Some ==> final(self)@ == old(self)@ && final(logs)@ == old(
                logs,
            )@,
            old(self)@.fault() is None ==> final(self)@ == old(self)@.step() && appended(
                old(logs)@,
                final(logs)@,
                old(self)@.diagnostics(),
            ),
    {
        let pc = self.pc as usize;
        if pc + 1 >= MEMORY_SIZE {
            return Err(Fault::Fetch);
        }
        let instruction = Instruction::from_bytes(self.memory[pc], self.memory[pc + 1]);
        if !self.in_bounds(instruction) {
            return Err(Fault::Memory);
        }
        self.pc = self.pc + 2;
        self.execute(instruction, logs);
        Ok(())
    }
}

} // verus!
