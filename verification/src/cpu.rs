//! The executable engine: registers, memory, and the fetch, decode and
//! execute loop.
use vstd::prelude::*;
use crate::bytes::{make_word, widen, word_high, word_low, wrap8};
use crate::flags::{
    with_carry_overflow, with_flag, with_zero_negative, MathematicalOperation, CARRY_FLAG,
    NEGATIVE_FLAG, OVERFLOW_FLAG, ZERO_FLAG,
};
use crate::opcodes::{descriptor, lemma_descriptor, lookup};
use crate::semantics::{hooked_run, lemma_hooked_run_unfolds, lemma_step_finds_operand, BRK};
use crate::state::{
    stack_address, CpuState, MAX_PROGRAM_SIZE, MEMORY_SIZE, PROGRAM_ROM_MEMORY_ADDRESS_START,
    RESET_INTERRUPT_ADDR, STACK_PAGE, STACK_STARTING_POINTER,
};

verus! {

/// The rule by which an instruction finds its operand.
#[derive(Debug, PartialEq, Eq, Structural, Clone, Copy)]
pub enum AddressingMode {
    Accumulator,
    Relative,
    Immediate,
    ZeroPage,
    ZeroPageX,
    ZeroPageY,
    Absolute,
    AbsoluteX,
    AbsoluteY,
    IndirectX,
    IndirectY,
    NoneAddressing,
}

/// Why the engine stopped without reaching a halt.
#[derive(Debug, PartialEq, Eq, Structural, Clone, Copy)]
pub enum CpuError {
    /// The fetched byte is in no line of the opcode catalogue. The byte
    /// is given.
    UnsupportedOpcode(u8),
    /// An instruction that needs an operand was given a mode without
    /// one.
    InvalidAddressingMode,
}

/// How one turn of the loop ended.
#[derive(Debug, PartialEq, Eq, Structural, Clone, Copy)]
pub enum StepOutcome {
    /// An instruction was executed; the next turn may follow.
    Continue,
    /// BRK was fetched.
    Halted,
}

/// How a run ended.
#[derive(Debug, PartialEq, Eq, Structural, Clone, Copy)]
pub enum RunOutcome {
    /// BRK was fetched.
    Halted,
    /// The hook asked to stop.
    Interrupted,
    /// The greatest number of turns went by.
    StepLimit,
}

/// What the hook of a run asks for.
#[derive(Debug, PartialEq, Eq, Structural, Clone, Copy)]
pub enum HookAction {
    /// Go on with the next instruction.
    Continue,
    /// End the run before the next instruction.
    Halt,
}

/// The host's part in a run. `on_step` is called before each fetch, and
/// may read and change the processor as it likes: it is how the host
/// feeds input into memory and takes output from it.
///
/// `may_answer` is what a hook says of itself, and all that a proof
/// knows of it: which calls of `on_step` are possible. A hook that says
/// nothing says that every call is.
pub trait StepHook {
    /// Whether a call of `on_step` on the hook `self`, with the
    /// processor in the state `before`, may leave the hook as `next` and
    /// the processor in the state `after`, and answer `action`.
    open spec fn may_answer(
        &self,
        before: CpuState,
        next: &Self,
        after: CpuState,
        action: HookAction,
    ) -> bool {
        true
    }

    fn on_step(&mut self, cpu: &mut CPU) -> (action: HookAction)
        ensures
            old(self).may_answer(old(cpu)@, final(self), final(cpu)@, action),
    ;
}

/// The hook that does nothing: it leaves the processor alone and never
/// ends the run.
pub struct NoHook;

impl StepHook for NoHook {
    open spec fn may_answer(
        &self,
        before: CpuState,
        next: &Self,
        after: CpuState,
        action: HookAction,
    ) -> bool {
        after == before && action == HookAction::Continue
    }

    fn on_step(&mut self, cpu: &mut CPU) -> (action: HookAction) {
        HookAction::Continue
    }
}

/// The greatest number of turns of one run. No run goes on for ever: one
/// that neither halts nor fails ends after this many turns.
pub const STEP_LIMIT: u64 = 0xFFFF_FFFF_FFFF_FFFF;

/// The processor: its registers and its memory.
pub struct CPU {
    /// The address of the next instruction byte.
    pub program_counter: u16,
    /// The flags: carry in bit 0, zero in bit 1, overflow in bit 6,
    /// negative in bit 7.
    pub status: u8,
    pub accumulator: u8,
    /// The offset in the stack page of the next free byte.
    pub stack_pointer: u8,
    pub register_x: u8,
    pub register_y: u8,
    /// One byte for each 16-bit address.
    pub memory: [u8; MEMORY_SIZE],
}

impl View for CPU {
    type V = CpuState;

    open spec fn view(&self) -> CpuState {
        CpuState {
            program_counter: self.program_counter,
            status: self.status,
            accumulator: self.accumulator,
            stack_pointer: self.stack_pointer,
            register_x: self.register_x,
            register_y: self.register_y,
            memory: self.memory@,
        }
    }
}

impl Default for CPU {
    fn default() -> (cpu: Self)
        ensures
            cpu@ == CpuState::initial(),
    {
        let memory: [u8; MEMORY_SIZE] = [0; MEMORY_SIZE];
        let cpu = Self {
            program_counter: 0,
            status: 0,
            accumulator: 0,
            stack_pointer: STACK_STARTING_POINTER,
            register_x: 0,
            register_y: 0,
            memory,
        };
        assert(cpu@.memory =~= CpuState::initial().memory);
        cpu
    }
}

impl CPU {
    /// A processor with zeroed registers and memory, and the stack
    /// pointer at the top of its page.
    pub fn new() -> (cpu: Self)
        ensures
            cpu@ == CpuState::initial(),
    {
        Self::default()
    }

    /// The byte at `addr`.
    pub fn mem_read(&self, addr: u16) -> (data: u8)
        ensures
            data == self@.read(addr),
    {
        self.memory[addr as usize]
    }

    /// Puts `data` at `addr`.
    pub fn mem_write(&mut self, addr: u16, data: u8)
        ensures
            final(self)@ == old(self)@.write(addr, data),
    {
        self.memory[addr as usize] = data;
    }

    /// The little-endian word at `addr`.
    pub fn mem_read_u16(&self, addr: u16) -> (data: u16)
        ensures
            data == self@.read_word(addr),
    {
        let lsb = self.mem_read(addr);
        let hsb = self.mem_read(addr.wrapping_add(1));
        make_word(lsb, hsb)
    }

    /// Puts the little-endian word `data` at `addr`.
    pub fn mem_write_u16(&mut self, addr: u16, data: u16)
        ensures
            final(self)@ == old(self)@.write_word(addr, data),
    {
        let lsb = word_low(data);
        let hsb = word_high(data);
        self.mem_write(addr, lsb);
        self.mem_write(addr.wrapping_add(1), hsb);
    }

    /// Clears registers and flags, puts the stack pointer at the top of
    /// its page and takes the program counter from the reset vector.
    pub fn reset(&mut self)
        ensures
            final(self)@ == old(self)@.reset(),
    {
        self.stack_pointer = STACK_STARTING_POINTER;
        self.accumulator = 0;
        self.register_x = 0;
        self.register_y = 0;
        self.status = 0b0000_0000;
        self.program_counter = self.mem_read_u16(RESET_INTERRUPT_ADDR);
    }

    /// Copies `program` to the load origin and points the reset vector
    /// at it. Registers are kept: `reset` comes before a run.
    pub fn load(&mut self, program: Vec<u8>)
        requires
            program@.len() <= MAX_PROGRAM_SIZE,
        ensures
            final(self)@ == old(self)@.load(program@),
    {
        let start = PROGRAM_ROM_MEMORY_ADDRESS_START as usize;
        let mut i: usize = 0;
        while i < program.len()
            invariant
                i <= program@.len() <= MAX_PROGRAM_SIZE,
                start == PROGRAM_ROM_MEMORY_ADDRESS_START,
                self.program_counter == old(self).program_counter,
                self.status == old(self).status,
                self.accumulator == old(self).accumulator,
                self.stack_pointer == old(self).stack_pointer,
                self.register_x == old(self).register_x,
                self.register_y == old(self).register_y,
                forall|j: int|
                    0 <= j < MEMORY_SIZE ==> #[trigger] self.memory@[j] == if start <= j < start + i {
                        program@[j - start]
                    } else {
                        old(self).memory@[j]
                    },
            decreases program@.len() - i,
        {
            self.memory[start + i] = program[i];
            i += 1;
        }
        let ghost copied = self@;
        self.mem_write_u16(RESET_INTERRUPT_ADDR, PROGRAM_ROM_MEMORY_ADDRESS_START);
        proof {
            let loaded = CpuState {
                memory: Seq::new(
                    old(self)@.memory.len(),
                    |j: int|
                        if start <= j < start + program@.len() {
                            program@[j - start]
                        } else {
                            old(self)@.memory[j]
                        },
                ),
                ..old(self)@
            };
            assert(copied.memory =~= loaded.memory);
        }
    }

    /// Sets zero.
    fn set_zero_flag(&mut self)
        ensures
            final(self)@ == old(self)@.with_status(with_flag(old(self).status, ZERO_FLAG, true)),
    {
        self.status |= 0b0000_0010;
    }

    /// Clears zero.
    fn clear_zero_flag(&mut self)
        ensures
            final(self)@ == old(self)@.with_status(with_flag(old(self).status, ZERO_FLAG, false)),
    {
        let status = self.status;
        assert(status & 0b1111_1101 == status & !ZERO_FLAG) by (bit_vector);
        self.status &= 0b1111_1101;
    }

    /// Sets negative iff `result` has its high bit set.
    fn update_negative_flag(&mut self, result: u8)
        ensures
            final(self)@ == old(self)@.with_status(
                with_flag(old(self).status, NEGATIVE_FLAG, result >= 0x80),
            ),
    {
        let status = self.status;
        assert((result & 0b1000_0000 != 0) == (result >= 0x80)) by (bit_vector);
        assert(status & 0b0111_1111 == status & !NEGATIVE_FLAG) by (bit_vector);
        if result & 0b1000_0000 != 0 {
            self.status |= 0b1000_0000;
        } else {
            self.status &= 0b0111_1111;
        }
    }

    /// Sets zero iff `result` is 0, and negative iff it has its high bit
    /// set.
    fn update_negative_and_zero_flags(&mut self, result: u8)
        ensures
            final(self)@ == old(self)@.with_status(with_zero_negative(old(self).status, result)),
    {
        self.update_zero_flag(result);
        self.update_negative_flag(result);
    }

    /// Sets zero iff `result` is 0.
    fn update_zero_flag(&mut self, result: u8)
        ensures
            final(self)@ == old(self)@.with_status(
                with_flag(old(self).status, ZERO_FLAG, result == 0),
            ),
    {
        if result == 0 {
            self.set_zero_flag();
        } else {
            self.clear_zero_flag();
        }
    }

    /// Sets carry.
    fn set_carry_flag(&mut self)
        ensures
            final(self)@ == old(self)@.with_status(with_flag(old(self).status, CARRY_FLAG, true)),
    {
        self.status |= 0b0000_0001;
    }

    /// Clears carry.
    fn clear_carry_flag(&mut self)
        ensures
            final(self)@ == old(self)@.with_status(with_flag(old(self).status, CARRY_FLAG, false)),
    {
        let status = self.status;
        assert(status & 0b1111_1110 == status & !CARRY_FLAG) by (bit_vector);
        self.status &= 0b1111_1110;
    }

    /// Sets overflow.
    fn set_overflow_flag(&mut self)
        ensures
            final(self)@ == old(self)@.with_status(
                with_flag(old(self).status, OVERFLOW_FLAG, true),
            ),
    {
        self.status |= 0b0100_0000;
    }

    /// Clears overflow.
    fn clear_overflow_flag(&mut self)
        ensures
            final(self)@ == old(self)@.with_status(
                with_flag(old(self).status, OVERFLOW_FLAG, false),
            ),
    {
        let status = self.status;
        assert(status & 0b1011_1111 == status & !OVERFLOW_FLAG) by (bit_vector);
        self.status &= 0b1011_1111;
    }

    /// Sets carry and overflow after an addition or a subtraction whose
    /// checked result is `result`: `None` where it left the range of a
    /// byte.
    fn update_carry_and_overflow_flags(&mut self, result: Option<u8>, op: MathematicalOperation)
        ensures
            final(self)@ == old(self)@.with_status(
                with_carry_overflow(old(self).status, result is None, op),
            ),
    {
        match result {
            Some(_e) => {
                self.clear_overflow_flag();
                if op == MathematicalOperation::Sub {
                    self.set_carry_flag();
                } else {
                    self.clear_carry_flag();
                }
            },
            None => {
                self.set_overflow_flag();
                if op == MathematicalOperation::Sub {
                    self.clear_carry_flag();
                } else {
                    self.set_carry_flag();
                }
            },
        }
    }

    /// The little-endian word at `lookup_addr`, for the indirect modes.
    fn get_indirect_lookup(&self, lookup_addr: u16) -> (addr: u16)
        ensures
            addr == self@.read_word(lookup_addr),
    {
        let lsb = self.mem_read(lookup_addr);
        let hsb = self.mem_read(lookup_addr.wrapping_add(1));
        make_word(lsb, hsb)
    }

    /// The address of the operand of the instruction whose operand bytes
    /// start at the program counter. A mode without an operand in memory
    /// is refused.
    pub fn get_operand_addr(&self, mode: &AddressingMode) -> (found: Result<u16, CpuError>)
        ensures
            match self@.operand_address(*mode) {
                Some(addr) => found == Ok::<u16, CpuError>(addr),
                None => found == Err::<u16, CpuError>(CpuError::InvalidAddressingMode),
            },
    {
        match mode {
            AddressingMode::Immediate => Ok(self.program_counter),
            AddressingMode::ZeroPage => Ok(widen(self.mem_read(self.program_counter))),
            AddressingMode::ZeroPageX => {
                let pos = self.mem_read(self.program_counter);
                Ok(widen(pos.wrapping_add(self.register_x)))
            },
            AddressingMode::ZeroPageY => {
                let pos = self.mem_read(self.program_counter);
                Ok(widen(pos.wrapping_add(self.register_y)))
            },
            AddressingMode::Absolute => Ok(self.mem_read_u16(self.program_counter)),
            AddressingMode::AbsoluteX => {
                let pos = self.mem_read_u16(self.program_counter);
                Ok(pos.wrapping_add(widen(self.register_x)))
            },
            AddressingMode::AbsoluteY => {
                let pos = self.mem_read_u16(self.program_counter);
                Ok(pos.wrapping_add(widen(self.register_y)))
            },
            AddressingMode::IndirectX => {
                let base = self.mem_read(self.program_counter);
                let lookup_addr = base.wrapping_add(self.register_x);
                Ok(self.get_indirect_lookup(widen(lookup_addr)))
            },
            AddressingMode::IndirectY => {
                let lookup_addr = self.mem_read(self.program_counter);
                let addr = self.get_indirect_lookup(widen(lookup_addr));
                Ok(addr.wrapping_add(widen(self.register_y)))
            },
            AddressingMode::Relative => Ok(self.program_counter),
            AddressingMode::NoneAddressing => Err(CpuError::InvalidAddressingMode),
            AddressingMode::Accumulator => Err(CpuError::InvalidAddressingMode),
        }
    }

    /// The address in the stack page that the stack pointer names.
    fn get_address_from_stack(&self) -> (addr: u16)
        ensures
            addr == stack_address(self.stack_pointer),
    {
        STACK_PAGE + widen(self.stack_pointer)
    }

    /// The address for the next push; the stack pointer goes down by
    /// one.
    fn insert_address_into_stack(&mut self) -> (addr: u16)
        ensures
            addr == stack_address(old(self).stack_pointer),
            final(self)@ == old(self)@.with_stack_pointer(wrap8(old(self).stack_pointer - 1)),
    {
        let address = self.get_address_from_stack();
        self.stack_pointer = self.stack_pointer.wrapping_sub(1);
        address
    }

    /// The address of the byte to pull; the stack pointer goes up by
    /// one.
    fn remove_address_from_stack(&mut self) -> (addr: u16)
        ensures
            addr == stack_address(final(self).stack_pointer),
            final(self)@ == old(self)@.drop_byte(),
    {
        self.stack_pointer = self.stack_pointer.wrapping_add(1);
        self.get_address_from_stack()
    }

    /// Moves the program counter by `step`, read as a signed byte. The
    /// low byte of the program counter takes the step, and what it
    /// carries or borrows goes to the high byte.
    fn add_relative_displacement_to_program_counter(&mut self, step: u8)
        ensures
            final(self)@ == old(self)@.displace(step),
    {
        let mut lsb_program_counter = word_low(self.program_counter);
        let mut msb_program_counter = word_high(self.program_counter);
        let positive = 0 < step && step < 0x80;
        if positive {
            let wrap = lsb_program_counter.checked_add(step);
            lsb_program_counter = lsb_program_counter.wrapping_add(step);
            match wrap {
                Some(_) => (),
                None => msb_program_counter = msb_program_counter.wrapping_add(1),
            }
        } else {
            let distance = 0u8.wrapping_sub(step);
            let wrap = lsb_program_counter.checked_sub(distance);
            lsb_program_counter = lsb_program_counter.wrapping_sub(distance);
            match wrap {
                Some(_) => (),
                None => msb_program_counter = msb_program_counter.wrapping_sub(1),
            }
        }
        self.program_counter = make_word(lsb_program_counter, msb_program_counter);
    }

    /// ADC: adds the operand to the accumulator.
    pub fn adc(&mut self, mode: &AddressingMode) -> (outcome: Result<(), CpuError>)
        ensures
            match old(self)@.operand_address(*mode) {
                Some(addr) => outcome is Ok && final(self)@ == old(self)@.adc(addr),
                None => outcome == Err::<(), CpuError>(CpuError::InvalidAddressingMode)
                    && final(self)@ == old(self)@,
            },
    {
        let operand_addr = self.get_operand_addr(mode)?;
        let param = self.mem_read(operand_addr);
        let old_accumulator = self.accumulator;
        let result = old_accumulator.wrapping_add(param);
        self.accumulator = result;
        self.update_negative_and_zero_flags(result);
        self.update_carry_and_overflow_flags(
            old_accumulator.checked_add(param),
            MathematicalOperation::Add,
        );
        Ok(())
    }

    /// AND: keeps in the accumulator the bits that the operand has too.
    pub fn and(&mut self, mode: &AddressingMode) -> (outcome: Result<(), CpuError>)
        ensures
            match old(self)@.operand_address(*mode) {
                Some(addr) => outcome is Ok && final(self)@ == old(self)@.and(addr),
                None => outcome == Err::<(), CpuError>(CpuError::InvalidAddressingMode)
                    && final(self)@ == old(self)@,
            },
    {
        let operand_addr = self.get_operand_addr(mode)?;
        let param = self.mem_read(operand_addr);
        let result = self.accumulator & param;
        self.accumulator = result;
        self.update_negative_and_zero_flags(result);
        Ok(())
    }

    /// ASL: shifts the accumulator in accumulator mode, and else the
    /// operand, left by one bit. The result goes to the accumulator, and
    /// the bit that left at the top to carry.
    pub fn asl(&mut self, mode: &AddressingMode) -> (outcome: Result<(), CpuError>)
        ensures
            match old(self)@.asl(*mode) {
                Some(after) => outcome is Ok && final(self)@ == after,
                None => outcome == Err::<(), CpuError>(CpuError::InvalidAddressingMode)
                    && final(self)@ == old(self)@,
            },
    {
        let value = if *mode == AddressingMode::Accumulator {
            self.accumulator
        } else {
            let operand_addr = self.get_operand_addr(mode)?;
            self.mem_read(operand_addr)
        };
        assert(value << 1 == (2 * value) % 0x100) by (bit_vector);
        let result = value << 1;
        self.accumulator = result;
        self.update_negative_and_zero_flags(result);
        if value >= 0x80 {
            self.set_carry_flag();
        } else {
            self.clear_carry_flag();
        }
        Ok(())
    }

    /// BCC: branches where carry is clear.
    pub fn bcc(&mut self, mode: &AddressingMode) -> (outcome: Result<(), CpuError>)
        ensures
            match old(self)@.operand_address(*mode) {
                Some(addr) => outcome is Ok && final(self)@ == old(self)@.bcc(addr),
                None => outcome == Err::<(), CpuError>(CpuError::InvalidAddressingMode)
                    && final(self)@ == old(self)@,
            },
    {
        let operand_addr = self.get_operand_addr(mode)?;
        let param = self.mem_read(operand_addr);
        let step = param.wrapping_add(1);
        if self.status & 0b0000_0001 == 0 {
            self.add_relative_displacement_to_program_counter(step);
        }
        Ok(())
    }

    /// BCS: branches where carry is set.
    pub fn bcs(&mut self, mode: &AddressingMode) -> (outcome: Result<(), CpuError>)
        ensures
            match old(self)@.operand_address(*mode) {
                Some(addr) => outcome is Ok && final(self)@ == old(self)@.bcs(addr),
                None => outcome == Err::<(), CpuError>(CpuError::InvalidAddressingMode)
                    && final(self)@ == old(self)@,
            },
    {
        let operand_addr = self.get_operand_addr(mode)?;
        let param = self.mem_read(operand_addr);
        let step = param.wrapping_add(1);
        if self.status & 0b0000_0001 != 0 {
            self.add_relative_displacement_to_program_counter(step);
        }
        Ok(())
    }

    /// BEQ: branches where zero is set.
    pub fn beq(&mut self, mode: &AddressingMode) -> (outcome: Result<(), CpuError>)
        ensures
            match old(self)@.operand_address(*mode) {
                Some(addr) => outcome is Ok && final(self)@ == old(self)@.beq(addr),
                None => outcome == Err::<(), CpuError>(CpuError::InvalidAddressingMode)
                    && final(self)@ == old(self)@,
            },
    {
        let operand_addr = self.get_operand_addr(mode)?;
        let param = self.mem_read(operand_addr);
        let step = param.wrapping_add(1);
        if self.status & 0b0000_0010 != 0 {
            self.add_relative_displacement_to_program_counter(step);
        }
        Ok(())
    }

    /// BNE: branches where zero is clear.
    pub fn bne(&mut self, mode: &AddressingMode) -> (outcome: Result<(), CpuError>)
        ensures
            match old(self)@.operand_address(*mode) {
                Some(addr) => outcome is Ok && final(self)@ == old(self)@.bne(addr),
                None => outcome == Err::<(), CpuError>(CpuError::InvalidAddressingMode)
                    && final(self)@ == old(self)@,
            },
    {
        let operand_addr = self.get_operand_addr(mode)?;
        let param = self.mem_read(operand_addr);
        let step = param.wrapping_add(1);
        if self.status & 0b0000_0010 == 0 {
            self.add_relative_displacement_to_program_counter(step);
        }
        Ok(())
    }

    /// BPL: branches where negative is clear.
    pub fn bpl(&mut self, mode: &AddressingMode) -> (outcome: Result<(), CpuError>)
        ensures
            match old(self)@.operand_address(*mode) {
                Some(addr) => outcome is Ok && final(self)@ == old(self)@.bpl(addr),
                None => outcome == Err::<(), CpuError>(CpuError::InvalidAddressingMode)
                    && final(self)@ == old(self)@,
            },
    {
        let operand_addr = self.get_operand_addr(mode)?;
        let param = self.mem_read(operand_addr);
        let step = param.wrapping_add(1);
        if self.status & 0b1000_0000 == 0 {
            self.add_relative_displacement_to_program_counter(step);
        }
        Ok(())
    }

    /// CLC: clears carry.
    pub fn clc(&mut self)
        ensures
            final(self)@ == old(self)@.clc(),
    {
        self.clear_carry_flag();
    }

    /// CMP: compares the accumulator with the operand.
    pub fn cmp(&mut self, mode: &AddressingMode) -> (outcome: Result<(), CpuError>)
        ensures
            match old(self)@.operand_address(*mode) {
                Some(addr) => outcome is Ok && final(self)@ == old(self)@.compare(addr),
                None => outcome == Err::<(), CpuError>(CpuError::InvalidAddressingMode)
                    && final(self)@ == old(self)@,
            },
    {
        let operand_addr = self.get_operand_addr(mode)?;
        let param = self.mem_read(operand_addr);
        if self.accumulator >= param {
            self.set_carry_flag();
        } else {
            self.clear_carry_flag();
        }
        self.update_negative_and_zero_flags(self.accumulator.wrapping_sub(param));
        Ok(())
    }

    /// CPX: compares X with the operand. Negative follows X itself.
    pub fn cpx(&mut self, mode: &AddressingMode) -> (outcome: Result<(), CpuError>)
        ensures
            match old(self)@.operand_address(*mode) {
                Some(addr) => outcome is Ok && final(self)@ == old(self)@.cpx(addr),
                None => outcome == Err::<(), CpuError>(CpuError::InvalidAddressingMode)
                    && final(self)@ == old(self)@,
            },
    {
        let operand_addr = self.get_operand_addr(mode)?;
        let param = self.mem_read(operand_addr);
        if self.register_x >= param {
            self.set_carry_flag();
        } else {
            self.clear_carry_flag();
        }
        self.update_zero_flag(self.register_x.wrapping_sub(param));
        self.update_negative_flag(self.register_x);
        Ok(())
    }

    /// DEX: takes one from X.
    pub fn dex(&mut self)
        ensures
            final(self)@ == old(self)@.dex(),
    {
        let result = self.register_x.wrapping_sub(1);
        self.register_x = result;
        self.update_negative_and_zero_flags(result);
    }

    /// INX: adds one to X.
    pub fn inx(&mut self)
        ensures
            final(self)@ == old(self)@.inx(),
    {
        let result = self.register_x.wrapping_add(1);
        self.register_x = result;
        self.update_negative_and_zero_flags(result);
    }

    /// JSR: pushes the address of its own last byte and jumps to the
    /// operand address.
    pub fn jsr(&mut self, mode: &AddressingMode) -> (outcome: Result<(), CpuError>)
        ensures
            match old(self)@.operand_address(*mode) {
                Some(addr) => outcome is Ok && final(self)@ == old(self)@.jsr(addr),
                None => outcome == Err::<(), CpuError>(CpuError::InvalidAddressingMode)
                    && final(self)@ == old(self)@,
            },
    {
        let operand_addr = self.get_operand_addr(mode)?;
        let old_program_counter = self.program_counter.wrapping_add(1);
        let lsb = word_low(old_program_counter);
        let hsb = word_high(old_program_counter);
        let high_addr = self.insert_address_into_stack();
        self.mem_write(high_addr, hsb);
        let low_addr = self.insert_address_into_stack();
        self.mem_write(low_addr, lsb);
        self.program_counter = operand_addr;
        Ok(())
    }

    /// LDA: loads the accumulator from the operand.
    pub fn lda(&mut self, mode: &AddressingMode) -> (outcome: Result<(), CpuError>)
        ensures
            match old(self)@.operand_address(*mode) {
                Some(addr) => outcome is Ok && final(self)@ == old(self)@.lda(addr),
                None => outcome == Err::<(), CpuError>(CpuError::InvalidAddressingMode)
                    && final(self)@ == old(self)@,
            },
    {
        let operand_addr = self.get_operand_addr(mode)?;
        let param = self.mem_read(operand_addr);
        self.accumulator = param;
        self.update_negative_and_zero_flags(param);
        Ok(())
    }

    /// LDX: loads X from the operand.
    pub fn ldx(&mut self, mode: &AddressingMode) -> (outcome: Result<(), CpuError>)
        ensures
            match old(self)@.operand_address(*mode) {
                Some(addr) => outcome is Ok && final(self)@ == old(self)@.ldx(addr),
                None => outcome == Err::<(), CpuError>(CpuError::InvalidAddressingMode)
                    && final(self)@ == old(self)@,
            },
    {
        let operand_addr = self.get_operand_addr(mode)?;
        let param = self.mem_read(operand_addr);
        self.register_x = param;
        self.update_negative_and_zero_flags(param);
        Ok(())
    }

    /// LDY: loads Y from the operand.
    pub fn ldy(&mut self, mode: &AddressingMode) -> (outcome: Result<(), CpuError>)
        ensures
            match old(self)@.operand_address(*mode) {
                Some(addr) => outcome is Ok && final(self)@ == old(self)@.ldy(addr),
                None => outcome == Err::<(), CpuError>(CpuError::InvalidAddressingMode)
                    && final(self)@ == old(self)@,
            },
    {
        let operand_addr = self.get_operand_addr(mode)?;
        let param = self.mem_read(operand_addr);
        self.register_y = param;
        self.update_negative_and_zero_flags(param);
        Ok(())
    }

    /// RTS: pulls an address and jumps to the address after it.
    pub fn rts(&mut self)
        ensures
            final(self)@ == old(self)@.rts(),
    {
        let low_addr = self.remove_address_from_stack();
        let lsb_address = self.mem_read(low_addr);
        let high_addr = self.remove_address_from_stack();
        let msb_address = self.mem_read(high_addr);
        let absolute_address = make_word(lsb_address, msb_address);
        self.program_counter = absolute_address.wrapping_add(1);
    }

    /// SEC: sets carry.
    pub fn sec(&mut self)
        ensures
            final(self)@ == old(self)@.sec(),
    {
        self.set_carry_flag();
    }

    /// SBC: subtracts the operand from the accumulator.
    pub fn sbc(&mut self, mode: &AddressingMode) -> (outcome: Result<(), CpuError>)
        ensures
            match old(self)@.operand_address(*mode) {
                Some(addr) => outcome is Ok && final(self)@ == old(self)@.sbc(addr),
                None => outcome == Err::<(), CpuError>(CpuError::InvalidAddressingMode)
                    && final(self)@ == old(self)@,
            },
    {
        let operand_addr = self.get_operand_addr(mode)?;
        let param = self.mem_read(operand_addr);
        let old_accumulator = self.accumulator;
        let result = old_accumulator.wrapping_sub(param);
        self.accumulator = result;
        self.update_negative_and_zero_flags(result);
        self.update_carry_and_overflow_flags(
            old_accumulator.checked_sub(param),
            MathematicalOperation::Sub,
        );
        Ok(())
    }

    /// STA: stores the accumulator at the operand address.
    pub fn sta(&mut self, mode: &AddressingMode) -> (outcome: Result<(), CpuError>)
        ensures
            match old(self)@.operand_address(*mode) {
                Some(addr) => outcome is Ok && final(self)@ == old(self)@.sta(addr),
                None => outcome == Err::<(), CpuError>(CpuError::InvalidAddressingMode)
                    && final(self)@ == old(self)@,
            },
    {
        let operand_addr = self.get_operand_addr(mode)?;
        self.mem_write(operand_addr, self.accumulator);
        Ok(())
    }

    /// STX: stores X at the operand address.
    pub fn stx(&mut self, mode: &AddressingMode) -> (outcome: Result<(), CpuError>)
        ensures
            match old(self)@.operand_address(*mode) {
                Some(addr) => outcome is Ok && final(self)@ == old(self)@.stx(addr),
                None => outcome == Err::<(), CpuError>(CpuError::InvalidAddressingMode)
                    && final(self)@ == old(self)@,
            },
    {
        let operand_addr = self.get_operand_addr(mode)?;
        self.mem_write(operand_addr, self.register_x);
        Ok(())
    }

    /// STY: stores Y at the operand address.
    pub fn sty(&mut self, mode: &AddressingMode) -> (outcome: Result<(), CpuError>)
        ensures
            match old(self)@.operand_address(*mode) {
                Some(addr) => outcome is Ok && final(self)@ == old(self)@.sty(addr),
                None => outcome == Err::<(), CpuError>(CpuError::InvalidAddressingMode)
                    && final(self)@ == old(self)@,
            },
    {
        let operand_addr = self.get_operand_addr(mode)?;
        self.mem_write(operand_addr, self.register_y);
        Ok(())
    }

    /// TAX: copies the accumulator to X.
    pub fn tax(&mut self)
        ensures
            final(self)@ == old(self)@.tax(),
    {
        let result = self.accumulator;
        self.register_x = result;
        self.update_negative_and_zero_flags(result);
    }

    /// TXA: copies X to the accumulator.
    pub fn txa(&mut self)
        ensures
            final(self)@ == old(self)@.txa(),
    {
        let result = self.register_x;
        self.accumulator = result;
        self.update_negative_and_zero_flags(result);
    }

    /// Executes the instruction that the byte `code` names, with the
    /// program counter at its operand bytes. BRK, which the loop handles
    /// itself, and any byte that names no instruction are refused like a
    /// mode without the operand that the instruction needs.
    fn execute(&mut self, code: u8, mode: &AddressingMode) -> (outcome: Result<(), CpuError>)
        ensures
            match old(self)@.execute(code, *mode) {
                Some(after) => outcome is Ok && final(self)@ == after,
                None => outcome == Err::<(), CpuError>(CpuError::InvalidAddressingMode)
                    && final(self)@ == old(self)@,
            },
    {
        reveal(CpuState::execute);
        match code {
            0x69 | 0x65 | 0x75 | 0x6D | 0x7D | 0x79 | 0x61 | 0x71 => {
                return self.adc(mode);
            },
            0x29 | 0x25 | 0x35 | 0x2D | 0x3D | 0x39 | 0x21 | 0x31 => {
                return self.and(mode);
            },
            0x0A | 0x06 | 0x16 | 0x0E | 0x1E => {
                return self.asl(mode);
            },
            0x90 => {
                return self.bcc(mode);
            },
            0xB0 => {
                return self.bcs(mode);
            },
            0xF0 => {
                return self.beq(mode);
            },
            0xD0 => {
                return self.bne(mode);
            },
            0x10 => {
                return self.bpl(mode);
            },
            0x18 => {
                self.clc();
                return Ok(());
            },
            0xC9 | 0xC5 | 0xD5 | 0xCD | 0xDD | 0xD9 | 0xC1 | 0xD1 => {
                return self.cmp(mode);
            },
            0xE0 | 0xE4 | 0xEC => {
                return self.cpx(mode);
            },
            0xCA => {
                self.dex();
                return Ok(());
            },
            0xE8 => {
                self.inx();
                return Ok(());
            },
            0x20 => {
                return self.jsr(mode);
            },
            0xA9 | 0xA5 | 0xB5 | 0xAD | 0xBD | 0xB9 | 0xA1 | 0xB1 => {
                return self.lda(mode);
            },
            0xA2 | 0xA6 | 0xB6 | 0xAE | 0xBE => {
                return self.ldx(mode);
            },
            0xA0 | 0xA4 | 0xB4 | 0xAC | 0xBC => {
                return self.ldy(mode);
            },
            0x60 => {
                self.rts();
                return Ok(());
            },
            0x38 => {
                self.sec();
                return Ok(());
            },
            0xE9 | 0xE5 | 0xF5 | 0xED | 0xFD | 0xF9 | 0xE1 | 0xF1 => {
                return self.sbc(mode);
            },
            0x85 | 0x95 | 0x8D | 0x9D | 0x99 | 0x81 | 0x91 => {
                return self.sta(mode);
            },
            0x86 | 0x96 | 0x8E => {
                return self.stx(mode);
            },
            0x84 | 0x94 | 0x8C => {
                return self.sty(mode);
            },
            0xAA => {
                self.tax();
                return Ok(());
            },
            0x8A => {
                self.txa();
                return Ok(());
            },
            _ => {
                return Err(CpuError::InvalidAddressingMode);
            },
        }
    }

    /// One turn of the loop: fetches the opcode byte, looks it up,
    /// executes the instruction and moves past its operand. A byte that
    /// the catalogue does not hold ends the turn after the fetch.
    pub fn step(&mut self) -> (outcome: Result<StepOutcome, CpuError>)
        ensures
            (final(self)@, outcome) == old(self)@.step(),
    {
        let code = self.mem_read(self.program_counter);
        self.program_counter = self.program_counter.wrapping_add(1);
        let current_program_counter_state = self.program_counter;
        let current_opcode = lookup(code)?;
        if code == BRK {
            return Ok(StepOutcome::Halted);
        }
        self.execute(code, &current_opcode.addressing_mode)?;
        if current_program_counter_state == self.program_counter {
            proof {
                lemma_descriptor(code);
            }
            self.program_counter = self.program_counter.wrapping_add(
                widen(current_opcode.bytes - 1),
            );
        }
        Ok(StepOutcome::Continue)
    }

    /// One turn of a run, after its hook answered `action`: nothing
    /// where the hook asks to halt, and else one step. `None` says that
    /// the run goes on.
    pub fn turn(&mut self, action: HookAction) -> (ended: Option<Result<RunOutcome, CpuError>>)
        ensures
            (final(self)@, ended) == old(self)@.turn(action),
    {
        match action {
            HookAction::Halt => Some(Ok(RunOutcome::Interrupted)),
            HookAction::Continue => match self.step() {
                Ok(StepOutcome::Continue) => None,
                Ok(StepOutcome::Halted) => Some(Ok(RunOutcome::Halted)),
                Err(error) => Some(Err(error)),
            },
        }
    }

    /// Runs at most `limit` turns of the loop without a hook, and ends
    /// with the first turn that halts or fails.
    pub fn run_steps(&mut self, limit: u64) -> (outcome: Result<RunOutcome, CpuError>)
        ensures
            (final(self)@, outcome) == old(self)@.run(limit as nat),
    {
        let mut left = limit;
        while left > 0
            invariant
                self@.run(left as nat) == old(self)@.run(limit as nat),
            decreases left,
        {
            if let Some(outcome) = self.turn(HookAction::Continue) {
                return outcome;
            }
            left -= 1;
        }
        Ok(RunOutcome::StepLimit)
    }

    /// Runs until BRK or a byte that the catalogue does not hold, for at
    /// most `STEP_LIMIT` turns.
    pub fn run(&mut self) -> (outcome: Result<RunOutcome, CpuError>)
        ensures
            (final(self)@, outcome) == old(self)@.run(STEP_LIMIT as nat),
    {
        self.run_steps(STEP_LIMIT)
    }

    /// Runs like `run`, and calls `hook` before each fetch: in each turn
    /// the hook is called on the processor as the turn before left it,
    /// and `turn` follows with the hook's answer on the processor as the
    /// hook left it. The run ends with the first turn that ends it, and
    /// as `StepLimit` after `STEP_LIMIT` turns. `hooked_run` says so in
    /// terms of what the hook says of itself.
    ///
    /// Whatever the hook did:
    ///
    /// * the run fails only with `UnsupportedOpcode`, the byte is one
    ///   that the catalogue does not hold, and it is the byte just
    ///   before the program counter;
    /// * where the run ends as `Halted`, the byte just before the
    ///   program counter is BRK.
    pub fn run_with_callback<H: StepHook>(&mut self, hook: &mut H) -> (outcome: Result<
        RunOutcome,
        CpuError,
    >)
        ensures
            hooked_run(
                *old(hook),
                old(self)@,
                STEP_LIMIT as nat,
                *final(hook),
                final(self)@,
                outcome,
            ),
            outcome matches Err(error) ==> error == CpuError::UnsupportedOpcode(
                final(self)@.last_fetched(),
            ) && descriptor(final(self)@.last_fetched()) is None,
            outcome == Ok::<RunOutcome, CpuError>(RunOutcome::Halted)
                ==> final(self)@.last_fetched() == BRK,
    {
        let mut left = STEP_LIMIT;
        while left > 0
            invariant
                forall|last_hook: H, last: CpuState, result: Result<RunOutcome, CpuError>|
                    #[trigger] hooked_run(*hook, self@, left as nat, last_hook, last, result)
                        ==> hooked_run(
                        *old(hook),
                        old(self)@,
                        STEP_LIMIT as nat,
                        last_hook,
                        last,
                        result,
                    ),
            decreases left,
        {
            let ghost hook_before = *hook;
            let ghost before = self@;
            let ghost turns = left as nat;
            let action = hook.on_step(self);
            let ghost hooked = self@;
            proof {
                lemma_step_finds_operand(hooked);
                lemma_hooked_run_unfolds(hook_before, before, turns, *hook, hooked, action);
            }
            if let Some(outcome) = self.turn(action) {
                return outcome;
            }
            left -= 1;
            assert forall|last_hook: H, last: CpuState, result: Result<RunOutcome, CpuError>|
                #[trigger] hooked_run(
                    *hook,
                    self@,
                    left as nat,
                    last_hook,
                    last,
                    result,
                ) implies hooked_run(
                *old(hook),
                old(self)@,
                STEP_LIMIT as nat,
                last_hook,
                last,
                result,
            ) by {
                assert(left as nat == (turns - 1) as nat);
                assert(hooked_run(hook_before, before, turns, last_hook, last, result));
            }
        }
        assert(hooked_run(*hook, self@, 0, *hook, self@, Ok(RunOutcome::StepLimit)));
        Ok(RunOutcome::StepLimit)
    }

    /// Loads `program`, resets the processor and runs it.
    pub fn load_and_run(&mut self, program: Vec<u8>) -> (outcome: Result<RunOutcome, CpuError>)
        requires
            program@.len() <= MAX_PROGRAM_SIZE,
        ensures
            (final(self)@, outcome) == old(self)@.load(program@).reset().run(STEP_LIMIT as nat),
    {
        self.load(program);
        self.reset();
        self.run()
    }
}

} // verus!
