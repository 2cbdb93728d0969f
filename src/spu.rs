use vstd::prelude::*;
use crate::ram::{Ram, mem_read, mem_write};
use crate::rom::Rom;

verus! {

/// The cycle count at or past which every run stops, budget or not: one more
/// instruction costs at most five cycles, so the count always fits in a `u32`.
pub const CYCLE_CEILING: u32 = 0xFFFF_FFFB;

/// The sixteen operations, one per value of an instruction word's top four bits.
#[derive(Clone, Copy, Debug, PartialEq, Eq, Structural)]
pub enum Opcode {
    Add,
    Sub,
    And,
    Or,
    Xor,
    Not,
    LdxI,
    LdyI,
    Stx,
    Sty,
    Jmp,
    Jic,
    Jiz,
    Hlt,
    LdxA,
    LdyA,
}

/// The operation that a four-bit value selects.
pub open spec fn opcode_of_nibble(n: u16) -> Opcode {
    match n {
        0 => Opcode::Add,
        1 => Opcode::Sub,
        2 => Opcode::And,
        3 => Opcode::Or,
        4 => Opcode::Xor,
        5 => Opcode::Not,
        6 => Opcode::LdxI,
        7 => Opcode::LdyI,
        8 => Opcode::Stx,
        9 => Opcode::Sty,
        10 => Opcode::Jmp,
        11 => Opcode::Jic,
        12 => Opcode::Jiz,
        13 => Opcode::Hlt,
        14 => Opcode::LdxA,
        _ => Opcode::LdyA,
    }
}

/// The operation of an instruction word: its top four bits.
pub open spec fn opcode_of(word: u16) -> Opcode {
    opcode_of_nibble(word / 4096)
}

/// The operand of an instruction word: its low twelve bits.
pub open spec fn operand_of(word: u16) -> u16 {
    word % 4096
}

/// The arithmetic and logic operations, which recompute the zero flag.
pub open spec fn is_alu(op: Opcode) -> bool {
    op == Opcode::Add || op == Opcode::Sub || op == Opcode::And || op == Opcode::Or
        || op == Opcode::Xor || op == Opcode::Not
}

/// `a + 1`, wrapping round at the word width.
pub open spec fn next_address(a: u16) -> u16 {
    ((a + 1) % 0x1_0000) as u16
}

/// The whole state of the machine: control state and both memories.
pub struct MachineState {
    pub pc: u16,
    pub x: u16,
    pub y: u16,
    pub p: u16,
    pub carry: bool,
    pub zero: bool,
    pub rom: Seq<u16>,
    pub ram: Seq<u16>,
}

/// What one instruction does: the state after it, the cycles it costs beyond
/// its one-cycle fetch, and whether it halts the machine.
pub struct Step {
    pub state: MachineState,
    pub extra: nat,
    pub halted: bool,
}

/// The instruction word at the program counter.
pub open spec fn fetched(s: MachineState) -> u16 {
    mem_read(s.rom, s.pc as int)
}

/// Fetching, decoding and executing the instruction at the program counter.
/// The program counter moves past the instruction before it takes effect.
pub open spec fn step(s: MachineState) -> Step {
    let word = fetched(s);
    let arg = operand_of(word);
    let t = MachineState { pc: next_address(s.pc), ..s };
    match opcode_of(word) {
        Opcode::Add => {
            let x = ((s.x + s.y) % 0x1_0000) as u16;
            Step {
                state: MachineState { x, carry: s.x + s.y > 0xFFFF, zero: x == 0, ..t },
                extra: 1,
                halted: false,
            }
        },
        Opcode::Sub => {
            let x = ((s.x - s.y + 0x1_0000) % 0x1_0000) as u16;
            Step {
                state: MachineState { x, carry: s.x < s.y, zero: x == 0, ..t },
                extra: 1,
                halted: false,
            }
        },
        Opcode::And => Step {
            state: MachineState { x: s.x & s.y, zero: s.x & s.y == 0, ..t },
            extra: 1,
            halted: false,
        },
        Opcode::Or => Step {
            state: MachineState { x: s.x | s.y, zero: s.x | s.y == 0, ..t },
            extra: 1,
            halted: false,
        },
        Opcode::Xor => Step {
            state: MachineState { x: s.x ^ s.y, zero: s.x ^ s.y == 0, ..t },
            extra: 1,
            halted: false,
        },
        Opcode::Not => Step {
            state: MachineState { x: !s.x, zero: !s.x == 0, ..t },
            extra: 1,
            halted: false,
        },
        Opcode::LdxI => Step { state: MachineState { x: arg, ..t }, extra: 0, halted: false },
        Opcode::LdyI => Step { state: MachineState { y: arg, ..t }, extra: 0, halted: false },
        Opcode::Stx => Step {
            state: MachineState { p: arg, ram: mem_write(s.ram, arg as int, s.x), ..t },
            extra: 4,
            halted: false,
        },
        Opcode::Sty => Step {
            state: MachineState { p: arg, ram: mem_write(s.ram, arg as int, s.y), ..t },
            extra: 4,
            halted: false,
        },
        Opcode::Jmp => Step { state: MachineState { pc: arg, ..t }, extra: 1, halted: false },
        Opcode::Jic => Step {
            state: MachineState { pc: if s.carry { arg } else { t.pc }, ..t },
            extra: 1,
            halted: false,
        },
        Opcode::Jiz => Step {
            state: MachineState { pc: if s.zero { arg } else { t.pc }, ..t },
            extra: 1,
            halted: false,
        },
        Opcode::Hlt => Step { state: t, extra: 0, halted: true },
        Opcode::LdxA => Step {
            state: MachineState { p: arg, x: mem_read(s.ram, arg as int), ..t },
            extra: 4,
            halted: false,
        },
        Opcode::LdyA => Step {
            state: MachineState { p: arg, y: mem_read(s.ram, arg as int), ..t },
            extra: 4,
            halted: false,
        },
    }
}

/// Running from `s` with `cycles` already counted: instructions execute one
/// after another while the count is below `limit`, until one halts. Gives the
/// final state and the final count.
pub open spec fn run(s: MachineState, cycles: int, limit: int) -> (MachineState, int)
    decreases (if cycles < limit { limit - cycles } else { 0 }),
{
    if cycles >= limit {
        (s, cycles)
    } else {
        let st = step(s);
        if st.halted {
            (st.state, cycles + 1 + st.extra)
        } else {
            run(st.state, cycles + 1 + st.extra, limit)
        }
    }
}

/// The count at which a run with the given budget stops: the budget itself
/// when it is positive and below `CYCLE_CEILING`, else `CYCLE_CEILING`.
pub open spec fn budget(max_cycles: Option<u32>) -> u32 {
    match max_cycles {
        Some(m) => if 0 < m && m < CYCLE_CEILING {
            m
        } else {
            CYCLE_CEILING
        },
        None => CYCLE_CEILING,
    }
}

impl Opcode {
    /// The operation that the four-bit value `n` selects.
    pub fn from_nibble(n: u16) -> (r: Opcode)
        requires
            n < 16,
        ensures
            r == opcode_of_nibble(n),
    {
        match n {
            0 => Opcode::Add,
            1 => Opcode::Sub,
            2 => Opcode::And,
            3 => Opcode::Or,
            4 => Opcode::Xor,
            5 => Opcode::Not,
            6 => Opcode::LdxI,
            7 => Opcode::LdyI,
            8 => Opcode::Stx,
            9 => Opcode::Sty,
            10 => Opcode::Jmp,
            11 => Opcode::Jic,
            12 => Opcode::Jiz,
            13 => Opcode::Hlt,
            14 => Opcode::LdxA,
            _ => Opcode::LdyA,
        }
    }
}

/// The engine: registers, flags and program counter, with the instruction
/// store and the data store that it owns.
pub struct SPU {
    program_counter: u16,
    register_x: u16,
    register_y: u16,
    register_p: u16,
    carry_flag: bool,
    zero_flag: bool,
    rom: Rom,
    ram: Ram,
}

impl View for SPU {
    type V = MachineState;

    closed spec fn view(&self) -> MachineState {
        MachineState {
            pc: self.program_counter,
            x: self.register_x,
            y: self.register_y,
            p: self.register_p,
            carry: self.carry_flag,
            zero: self.zero_flag,
            rom: self.rom@,
            ram: self.ram@,
        }
    }
}

impl SPU {
    /// An engine around the two stores, with every register zero and both
    /// flags clear.
    pub fn new(rom: Rom, ram: Ram) -> (r: SPU)
        ensures
            r@ == (MachineState {
                pc: 0,
                x: 0,
                y: 0,
                p: 0,
                carry: false,
                zero: false,
                rom: rom@,
                ram: ram@,
            }),
    {
        SPU {
            rom: rom,
            ram: ram,
            program_counter: 0u16,
            register_x: 0u16,
            register_y: 0u16,
            register_p: 0u16,
            carry_flag: false,
            zero_flag: false,
        }
    }

    /// Clears the program counter, X, Y and both flags. Register P and both
    /// stores keep their contents.
    pub fn reset(&mut self)
        ensures
            final(self)@ == (MachineState {
                pc: 0,
                x: 0,
                y: 0,
                carry: false,
                zero: false,
                ..old(self)@
            }),
    {
        self.program_counter = 0u16;
        self.register_x = 0u16;
        self.register_y = 0u16;
        self.carry_flag = false;
        self.zero_flag = false;
    }

    /// Fetches the word at the program counter, for one cycle.
    fn get_rom_byte(&self, cycles: &mut u32) -> (r: u16)
        requires
            *old(cycles) < u32::MAX,
        ensures
            r == fetched(self@),
            *final(cycles) == *old(cycles) + 1,
    {
        *cycles = *cycles + 1;
        self.rom.get(self.program_counter)
    }

    /// Reads the data store at register P, for four cycles.
    fn get_ram_value(&self, cycles: &mut u32) -> (r: u16)
        requires
            *old(cycles) + 4 <= u32::MAX,
        ensures
            r == mem_read(self@.ram, self@.p as int),
            *final(cycles) == *old(cycles) + 4,
    {
        *cycles = *cycles + 4;
        self.ram.get(self.register_p)
    }

    /// Writes `value` to the data store at register P, for four cycles.
    fn set_ram_value(&mut self, value: u16, cycles: &mut u32)
        requires
            *old(cycles) + 4 <= u32::MAX,
        ensures
            final(self)@ == (MachineState {
                ram: mem_write(old(self)@.ram, old(self)@.p as int, value),
                ..old(self)@
            }),
            *final(cycles) == *old(cycles) + 4,
    {
        *cycles = *cycles + 4;
        self.ram.set(value, self.register_p);
    }

    /// Sets the zero flag from register X, for one cycle.
    fn update_flags(&mut self, cycles: &mut u32)
        requires
            *old(cycles) < u32::MAX,
        ensures
            final(self)@ == (MachineState { zero: old(self)@.x == 0, ..old(self)@ }),
            *final(cycles) == *old(cycles) + 1,
    {
        self.zero_flag = self.register_x == 0;
        *cycles = *cycles + 1;
    }

    /// Fetches, decodes and executes one instruction, counting its cycles.
    /// Returns whether it was the halt instruction.
    fn step_instruction(&mut self, cycles: &mut u32) -> (halted: bool)
        requires
            *old(cycles) + 5 <= u32::MAX,
        ensures
            final(self)@ == step(old(self)@).state,
            *final(cycles) == *old(cycles) + 1 + step(old(self)@).extra,
            halted == step(old(self)@).halted,
    {
        let instruction_data: u16 = self.get_rom_byte(cycles);
        let argument: u16 = instruction_data % 4096;
        let instruction: Opcode = Opcode::from_nibble(instruction_data / 4096);
        self.program_counter = self.program_counter.wrapping_add(1);
        match instruction {
            Opcode::Add => {
                self.carry_flag = (self.register_x as u32 + self.register_y as u32) > 0xFFFF;
                self.register_x = self.register_x.wrapping_add(self.register_y);
                self.update_flags(cycles);
            },
            Opcode::Sub => {
                self.carry_flag = (self.register_x as u32).wrapping_sub(self.register_y as u32)
                    > 0xFFFF;
                self.register_x = self.register_x.wrapping_sub(self.register_y);
                self.update_flags(cycles);
            },
            Opcode::And => {
                self.register_x = self.register_x & self.register_y;
                self.update_flags(cycles);
            },
            Opcode::Or => {
                self.register_x = self.register_x | self.register_y;
                self.update_flags(cycles);
            },
            Opcode::Xor => {
                self.register_x = self.register_x ^ self.register_y;
                self.update_flags(cycles);
            },
            Opcode::Not => {
                self.register_x = !self.register_x;
                self.update_flags(cycles);
            },
            Opcode::LdxI => {
                self.register_x = argument;
            },
            Opcode::LdyI => {
                self.register_y = argument;
            },
            Opcode::Stx => {
                self.register_p = argument;
                let value: u16 = self.register_x;
                self.set_ram_value(value, cycles);
            },
            Opcode::Sty => {
                self.register_p = argument;
                let value: u16 = self.register_y;
                self.set_ram_value(value, cycles);
            },
            Opcode::Jmp => {
                self.program_counter = argument;
                *cycles = *cycles + 1;
            },
            Opcode::Jic => {
                if self.carry_flag {
                    self.program_counter = argument;
                }
                *cycles = *cycles + 1;
            },
            Opcode::Jiz => {
                if self.zero_flag {
                    self.program_counter = argument;
                }
                *cycles = *cycles + 1;
            },
            Opcode::Hlt => {
                return true;
            },
            Opcode::LdxA => {
                self.register_p = argument;
                self.register_x = self.get_ram_value(cycles);
            },
            Opcode::LdyA => {
                self.register_p = argument;
                self.register_y = self.get_ram_value(cycles);
            },
        }
        false
    }

    /// Runs instructions from the current program counter until one halts or
    /// the cycle count reaches the budget, and returns the count. A budget of
    /// `None` or zero sets no bound of its own; every run stops at
    /// `CYCLE_CEILING` at the latest. The budget is checked before each fetch,
    /// so the last instruction always completes.
    pub fn execute(&mut self, max_cycles: Option<u32>) -> (r: u32)
        ensures
            final(self)@ == run(old(self)@, 0, budget(max_cycles) as int).0,
            r as int == run(old(self)@, 0, budget(max_cycles) as int).1,
    {
        let limit: u32 = match max_cycles {
            Some(m) => if 0 < m && m < CYCLE_CEILING {
                m
            } else {
                CYCLE_CEILING
            },
            None => CYCLE_CEILING,
        };
        let mut cycles: u32 = 0;
        while cycles < limit
            invariant_except_break
                run(self@, cycles as int, limit as int) == run(old(self)@, 0, limit as int),
            invariant
                limit == budget(max_cycles),
                cycles <= limit + 4,
            ensures
                run(old(self)@, 0, limit as int) == (self@, cycles as int),
            decreases (if cycles < limit { limit - cycles } else { 0 }),
        {
            let halted: bool = self.step_instruction(&mut cycles);
            if halted {
                break;
            }
        }
        cycles
    }

    /// The data store.
    pub fn get_ram(&self) -> (r: &Ram)
        ensures
            r@ == self@.ram,
    {
        &self.ram
    }

    /// Whether the zero flag is set.
    pub fn is_zero_flag(&self) -> (r: bool)
        ensures
            r == self@.zero,
    {
        self.zero_flag
    }

    /// Whether the carry flag is set.
    pub fn is_carry_flag(&self) -> (r: bool)
        ensures
            r == self@.carry,
    {
        self.carry_flag
    }

    /// Register X.
    pub fn get_register_x(&self) -> (r: u16)
        ensures
            r == self@.x,
    {
        self.register_x
    }

    /// Register Y.
    pub fn get_register_y(&self) -> (r: u16)
        ensures
            r == self@.y,
    {
        self.register_y
    }

    /// Register P, the address used by the memory instructions.
    pub fn get_register_p(&self) -> (r: u16)
        ensures
            r == self@.p,
    {
        self.register_p
    }

    /// The address of the next instruction to fetch.
    pub fn get_program_counter(&self) -> (r: u16)
        ensures
            r == self@.pc,
    {
        self.program_counter
    }
}

} // verus!
