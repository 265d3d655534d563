//! The machine state as a mathematical value.
use vstd::prelude::*;
use crate::bytes::{high_byte, low_byte, word, wrap16, wrap8};
use crate::cpu::AddressingMode;

verus! {

/// Number of bytes of memory: every 16-bit address names one.
pub const MEMORY_SIZE: usize = 0x1_0000;

/// Where `load` copies a program.
pub const PROGRAM_ROM_MEMORY_ADDRESS_START: u16 = 0x0600;

/// Where the reset vector lies: the little-endian word that `reset` takes
/// the program counter from.
pub const RESET_INTERRUPT_ADDR: u16 = 0xFFFC;

/// The stack pointer after a reset: the top of the stack page.
pub const STACK_STARTING_POINTER: u8 = 0xFF;

/// First address of the stack page.
pub const STACK_PAGE: u16 = 0x0100;

/// The longest program that fits between the load origin and the end of
/// memory.
pub const MAX_PROGRAM_SIZE: usize = 0xFA00;

/// Registers and memory of the processor. This is the view of
/// [`crate::cpu::CPU`], and every contract of the engine is stated on it.
pub struct CpuState {
    pub program_counter: u16,
    pub status: u8,
    pub accumulator: u8,
    pub stack_pointer: u8,
    pub register_x: u8,
    pub register_y: u8,
    pub memory: Seq<u8>,
}

/// The address in the stack page that the stack pointer `sp` names.
pub open spec fn stack_address(sp: u8) -> u16 {
    (STACK_PAGE + sp) as u16
}

impl CpuState {
    /// Memory holds one byte for each address.
    pub open spec fn wf(self) -> bool {
        self.memory.len() == MEMORY_SIZE
    }

    /// The state of a new processor: all zero, but for the stack pointer.
    pub open spec fn initial() -> CpuState {
        CpuState {
            program_counter: 0,
            status: 0,
            accumulator: 0,
            stack_pointer: STACK_STARTING_POINTER,
            register_x: 0,
            register_y: 0,
            memory: Seq::new(MEMORY_SIZE as nat, |i: int| 0u8),
        }
    }

    /// The byte at `addr`.
    pub open spec fn read(self, addr: u16) -> u8 {
        self.memory[addr as int]
    }

    /// The state with `data` at `addr`.
    pub open spec fn write(self, addr: u16, data: u8) -> CpuState {
        CpuState { memory: self.memory.update(addr as int, data), ..self }
    }

    /// The little-endian word at `addr`: low byte at `addr`, high byte at
    /// the next address, which after `0xFFFF` is `0`.
    pub open spec fn read_word(self, addr: u16) -> u16 {
        word(self.read(addr), self.read(wrap16(addr + 1)))
    }

    /// The state with the little-endian word `data` at `addr`.
    pub open spec fn write_word(self, addr: u16, data: u16) -> CpuState {
        self.write(addr, low_byte(data)).write(wrap16(addr + 1), high_byte(data))
    }

    /// The state with the flags `status`.
    pub open spec fn with_status(self, status: u8) -> CpuState {
        CpuState { status, ..self }
    }

    /// The state with the stack pointer at `sp`.
    pub open spec fn with_stack_pointer(self, sp: u8) -> CpuState {
        CpuState { stack_pointer: sp, ..self }
    }

    /// The state with the program counter at `pc`.
    pub open spec fn jump(self, pc: u16) -> CpuState {
        CpuState { program_counter: pc, ..self }
    }

    /// The state after a reset: registers and flags cleared, the stack
    /// pointer at the top of its page, the program counter taken from the
    /// reset vector. Memory is kept.
    pub open spec fn reset(self) -> CpuState {
        CpuState {
            program_counter: self.read_word(RESET_INTERRUPT_ADDR),
            status: 0,
            accumulator: 0,
            stack_pointer: STACK_STARTING_POINTER,
            register_x: 0,
            register_y: 0,
            memory: self.memory,
        }
    }

    /// The state after loading `program`: its bytes lie from the load
    /// origin on, the reset vector points at the origin (and so replaces
    /// what a program of the greatest length had there), and everything
    /// else is kept.
    pub open spec fn load(self, program: Seq<u8>) -> CpuState {
        let start = PROGRAM_ROM_MEMORY_ADDRESS_START as int;
        CpuState {
            memory: Seq::new(
                self.memory.len(),
                |i: int|
                    if start <= i < start + program.len() {
                        program[i - start]
                    } else {
                        self.memory[i]
                    },
            ),
            ..self
        }.write_word(RESET_INTERRUPT_ADDR, PROGRAM_ROM_MEMORY_ADDRESS_START)
    }

    /// The state after pushing `data`: it lies where the stack pointer
    /// named, and the stack pointer is one lower (from 0 it goes to 0xFF).
    pub open spec fn push_byte(self, data: u8) -> CpuState {
        self.with_stack_pointer(wrap8(self.stack_pointer - 1)).write(
            stack_address(self.stack_pointer),
            data,
        )
    }

    /// The byte that the next pull returns: the one above the stack
    /// pointer.
    pub open spec fn top_byte(self) -> u8 {
        self.read(stack_address(wrap8(self.stack_pointer + 1)))
    }

    /// The state after pulling one byte: the stack pointer is one higher
    /// (from 0xFF it goes to 0).
    pub open spec fn drop_byte(self) -> CpuState {
        self.with_stack_pointer(wrap8(self.stack_pointer + 1))
    }

    /// The address of the operand of the instruction whose operand bytes
    /// start at the program counter, or `None` for a mode that has no
    /// operand in memory.
    pub open spec fn operand_address(self, mode: AddressingMode) -> Option<u16> {
        let pc = self.program_counter;
        match mode {
            AddressingMode::Immediate => Some(pc),
            AddressingMode::Relative => Some(pc),
            AddressingMode::ZeroPage => Some(self.read(pc) as u16),
            AddressingMode::ZeroPageX => Some(wrap8(self.read(pc) + self.register_x) as u16),
            AddressingMode::ZeroPageY => Some(wrap8(self.read(pc) + self.register_y) as u16),
            AddressingMode::Absolute => Some(self.read_word(pc)),
            AddressingMode::AbsoluteX => Some(wrap16(self.read_word(pc) + self.register_x)),
            AddressingMode::AbsoluteY => Some(wrap16(self.read_word(pc) + self.register_y)),
            AddressingMode::IndirectX => Some(
                self.read_word(wrap8(self.read(pc) + self.register_x) as u16),
            ),
            AddressingMode::IndirectY => Some(
                wrap16(self.read_word(self.read(pc) as u16) + self.register_y),
            ),
            AddressingMode::Accumulator => None,
            AddressingMode::NoneAddressing => None,
        }
    }
}

} // verus!
