//! Laws of the instruction set: what holds for every state, proved from
//! the model.
use vstd::prelude::*;
use crate::bytes::{lemma_word_bytes, signed, wrap16, wrap8};
use crate::cpu::{AddressingMode, CpuError, StepOutcome};
use crate::flags::{
    flag, lemma_carry_overflow, lemma_with_flag, lemma_zero_negative, CARRY_FLAG, NEGATIVE_FLAG,
    OVERFLOW_FLAG, ZERO_FLAG,
};
use crate::opcodes::descriptor;
use crate::semantics::BRK;
use crate::state::{
    CpuState, MAX_PROGRAM_SIZE, PROGRAM_ROM_MEMORY_ADDRESS_START, RESET_INTERRUPT_ADDR,
};

verus! {

/// After a load and a reset the program counter stands at the load
/// origin, and each byte of the program that lies below the reset vector
/// is read where it was put.
pub proof fn law_load_then_reset(s: CpuState, program: Seq<u8>, i: int)
    requires
        s.wf(),
        program.len() <= MAX_PROGRAM_SIZE,
        0 <= i < program.len(),
        PROGRAM_ROM_MEMORY_ADDRESS_START + i < RESET_INTERRUPT_ADDR,
    ensures
        s.load(program).reset().program_counter == PROGRAM_ROM_MEMORY_ADDRESS_START,
        s.load(program).reset().read((PROGRAM_ROM_MEMORY_ADDRESS_START + i) as u16) == program[i],
        s.load(program).reset().wf(),
{
    lemma_word_bytes(0, 0, PROGRAM_ROM_MEMORY_ADDRESS_START);
}

/// What the flags hold after an instruction that produced `value` and
/// leaves carry and overflow alone: zero is set iff the value is 0,
/// negative iff its high bit is set, and carry and overflow are as in
/// `before`.
pub open spec fn flags_follow(before: u8, after: u8, value: u8) -> bool {
    &&& flag(after, ZERO_FLAG) == (value == 0)
    &&& flag(after, NEGATIVE_FLAG) == (value & 0x80 != 0)
    &&& flag(after, CARRY_FLAG) == flag(before, CARRY_FLAG)
    &&& flag(after, OVERFLOW_FLAG) == flag(before, OVERFLOW_FLAG)
}

/// A load puts the operand byte into its register, and the flags follow
/// the byte. The other registers and memory are as before.
pub proof fn law_load(s: CpuState, addr: u16)
    ensures
        s.lda(addr).accumulator == s.read(addr),
        flags_follow(s.status, s.lda(addr).status, s.read(addr)),
        s.lda(addr) == (CpuState {
            accumulator: s.lda(addr).accumulator,
            status: s.lda(addr).status,
            ..s
        }),
        s.ldx(addr).register_x == s.read(addr),
        flags_follow(s.status, s.ldx(addr).status, s.read(addr)),
        s.ldx(addr) == (CpuState {
            register_x: s.ldx(addr).register_x,
            status: s.ldx(addr).status,
            ..s
        }),
        s.ldy(addr).register_y == s.read(addr),
        flags_follow(s.status, s.ldy(addr).status, s.read(addr)),
        s.ldy(addr) == (CpuState {
            register_y: s.ldy(addr).register_y,
            status: s.ldy(addr).status,
            ..s
        }),
{
    let value = s.read(addr);
    lemma_zero_negative(s.status, value);
    assert((value & 0x80 != 0) == (value >= 0x80)) by (bit_vector);
}

/// The state after one ADC for each of `operands`, in turn.
pub open spec fn adc_sequence(s: CpuState, operands: Seq<u16>) -> CpuState
    decreases operands.len(),
{
    if operands.len() == 0 {
        s
    } else {
        adc_sequence(s, operands.drop_last()).adc(operands.last())
    }
}

/// The sum of the bytes that `s` holds at `operands`.
pub open spec fn operand_sum(s: CpuState, operands: Seq<u16>) -> int
    decreases operands.len(),
{
    if operands.len() == 0 {
        0
    } else {
        operand_sum(s, operands.drop_last()) + s.read(operands.last())
    }
}

/// After any sequence of ADCs the accumulator holds the sum of what it
/// held and of all the operands, reduced to a byte. Memory and the other
/// registers are as before.
pub proof fn law_adc_sequence(s: CpuState, operands: Seq<u16>)
    ensures
        adc_sequence(s, operands).accumulator == wrap8(s.accumulator + operand_sum(s, operands)),
        adc_sequence(s, operands).memory == s.memory,
        adc_sequence(s, operands).register_x == s.register_x,
        adc_sequence(s, operands).register_y == s.register_y,
        adc_sequence(s, operands).program_counter == s.program_counter,
        adc_sequence(s, operands).stack_pointer == s.stack_pointer,
    decreases operands.len(),
{
    if operands.len() > 0 {
        law_adc_sequence(s, operands.drop_last());
    }
}

/// After ADC, carry and overflow are set iff the sum of accumulator and
/// operand does not fit in a byte; zero and negative follow the new
/// accumulator.
pub proof fn law_adc_flags(s: CpuState, addr: u16)
    ensures
        s.adc(addr).accumulator == wrap8(s.accumulator + s.read(addr)),
        flag(s.adc(addr).status, CARRY_FLAG) == (s.accumulator + s.read(addr) > 0xFF),
        flag(s.adc(addr).status, OVERFLOW_FLAG) == (s.accumulator + s.read(addr) > 0xFF),
        flag(s.adc(addr).status, ZERO_FLAG) == (s.adc(addr).accumulator == 0),
        flag(s.adc(addr).status, NEGATIVE_FLAG) == (s.adc(addr).accumulator >= 0x80),
{
    let sum = s.accumulator + s.read(addr);
    lemma_zero_negative(s.status, wrap8(sum));
    lemma_carry_overflow(
        crate::flags::with_zero_negative(s.status, wrap8(sum)),
        sum > 0xFF,
        crate::flags::MathematicalOperation::Add,
    );
}

/// After SBC, overflow is set iff the operand is greater than the
/// accumulator, and carry iff it is not; zero and negative follow the new
/// accumulator.
pub proof fn law_sbc_flags(s: CpuState, addr: u16)
    ensures
        s.sbc(addr).accumulator == wrap8(s.accumulator - s.read(addr)),
        flag(s.sbc(addr).status, CARRY_FLAG) == (s.accumulator >= s.read(addr)),
        flag(s.sbc(addr).status, OVERFLOW_FLAG) == (s.accumulator < s.read(addr)),
        flag(s.sbc(addr).status, ZERO_FLAG) == (s.accumulator == s.read(addr)),
        flag(s.sbc(addr).status, NEGATIVE_FLAG) == (s.sbc(addr).accumulator >= 0x80),
{
    let difference = s.accumulator - s.read(addr);
    lemma_zero_negative(s.status, wrap8(difference));
    lemma_carry_overflow(
        crate::flags::with_zero_negative(s.status, wrap8(difference)),
        difference < 0,
        crate::flags::MathematicalOperation::Sub,
    );
}

/// TAX and then INX leave in X one more than the accumulator, reduced to
/// a byte; each further INX adds one more.
pub proof fn law_tax_then_inx(s: CpuState)
    ensures
        s.tax().inx().register_x == wrap8(s.accumulator + 1),
        s.tax().inx().inx().register_x == wrap8(s.accumulator + 2),
        s.tax().inx().accumulator == s.accumulator,
{
}

/// What a store writes, a load from the same address reads.
pub proof fn law_store_then_load(s: CpuState, addr: u16)
    requires
        s.wf(),
    ensures
        s.sta(addr).lda(addr).accumulator == s.accumulator,
        s.stx(addr).ldx(addr).register_x == s.register_x,
        s.sty(addr).ldy(addr).register_y == s.register_y,
        forall|other: u16| other != addr ==> s.sta(addr).read(other) == s.read(other),
        forall|other: u16| other != addr ==> s.stx(addr).read(other) == s.read(other),
        forall|other: u16| other != addr ==> s.sty(addr).read(other) == s.read(other),
{
}

/// A store through an addressing mode and a load through the same mode
/// meet at one address, and the load reads what the store wrote, as long
/// as the store did not overwrite a byte from which the mode computes
/// that address.
pub proof fn law_store_then_load_by_mode(s: CpuState, mode: AddressingMode, addr: u16)
    requires
        s.wf(),
        s.operand_address(mode) == Some(addr),
        s.sta(addr).operand_address(mode) == Some(addr),
    ensures
        s.sta(addr).on_operand(mode, |t: CpuState, a: u16| t.lda(a)) matches Some(after)
            && after.accumulator == s.accumulator,
{
}

/// In the immediate, absolute and zero-page modes without index the
/// store leaves the operand address alone whenever it does not hit the
/// operand bytes themselves.
pub proof fn law_store_keeps_address(s: CpuState, mode: AddressingMode, addr: u16)
    requires
        s.wf(),
        s.operand_address(mode) == Some(addr),
        mode == AddressingMode::ZeroPage || mode == AddressingMode::ZeroPageX || mode
            == AddressingMode::ZeroPageY || mode == AddressingMode::Absolute || mode
            == AddressingMode::AbsoluteX || mode == AddressingMode::AbsoluteY,
        addr != s.program_counter,
        addr != wrap16(s.program_counter + 1),
    ensures
        s.sta(addr).operand_address(mode) == Some(addr),
        s.stx(addr).operand_address(mode) == Some(addr),
        s.sty(addr).operand_address(mode) == Some(addr),
{
}

/// JSR and then RTS bring the program counter to the instruction after
/// the JSR, two bytes past the first operand byte, and the stack pointer
/// back to where it was.
pub proof fn law_jsr_then_rts(s: CpuState, addr: u16)
    requires
        s.wf(),
    ensures
        s.jsr(addr).program_counter == addr,
        s.jsr(addr).rts().program_counter == wrap16(s.program_counter + 2),
        s.jsr(addr).rts().stack_pointer == s.stack_pointer,
{
    let back = wrap16(s.program_counter + 1);
    lemma_word_bytes(0, 0, back);
}

/// The same for two turns of the loop: where the first fetches JSR and
/// the second RTS, the program counter ends at the instruction after the
/// JSR, three bytes past its opcode.
pub proof fn law_call_and_return(s: CpuState)
    requires
        s.wf(),
        s.next_opcode() == 0x20,
        s.step().0.next_opcode() == 0x60,
    ensures
        s.step().1 == Ok::<StepOutcome, CpuError>(StepOutcome::Continue),
        s.step().0.step().1 == Ok::<StepOutcome, CpuError>(StepOutcome::Continue),
        s.step().0.step().0.program_counter == wrap16(s.program_counter + 3),
        s.step().0.step().0.stack_pointer == s.stack_pointer,
{
    let fetched = s.fetched();
    let addr = fetched.read_word(fetched.program_counter);
    let called = fetched.jsr(addr);
    let first = s.step().0;
    assert(descriptor(0x20) matches Some(opcode) && opcode.addressing_mode
        == AddressingMode::Absolute && opcode.bytes == 3) by {
        reveal(descriptor);
    }
    assert(fetched.execute(0x20, AddressingMode::Absolute) == Some(called)) by {
        reveal(CpuState::execute);
    }
    law_jsr_then_rts(fetched, addr);
    let landed = first.fetched();
    assert(descriptor(0x60) matches Some(opcode) && opcode.addressing_mode
        == AddressingMode::NoneAddressing && opcode.bytes == 1) by {
        reveal(descriptor);
    }
    assert(landed.execute(0x60, AddressingMode::NoneAddressing) == Some(landed.rts())) by {
        reveal(CpuState::execute);
    }
}

/// CMP: where accumulator and operand are equal, zero and carry are set;
/// where the accumulator is smaller, carry is clear; where it is
/// greater, carry is set and zero is clear. Negative follows the
/// difference, and nothing but the flags changes.
pub proof fn law_compare(s: CpuState, addr: u16)
    ensures
        flag(s.compare(addr).status, CARRY_FLAG) == (s.accumulator >= s.read(addr)),
        flag(s.compare(addr).status, ZERO_FLAG) == (s.accumulator == s.read(addr)),
        flag(s.compare(addr).status, NEGATIVE_FLAG) == (wrap8(s.accumulator - s.read(addr))
            >= 0x80),
        flag(s.compare(addr).status, OVERFLOW_FLAG) == flag(s.status, OVERFLOW_FLAG),
        s.compare(addr) == s.with_status(s.compare(addr).status),
{
    let operand = s.read(addr);
    let carried = crate::flags::with_flag(s.status, CARRY_FLAG, s.accumulator >= operand);
    lemma_with_flag(s.status, CARRY_FLAG, s.accumulator >= operand, OVERFLOW_FLAG);
    lemma_zero_negative(carried, wrap8(s.accumulator - operand));
}

/// CPX: carry is set iff X is not below the operand, zero iff they are
/// equal, and negative iff X itself has its high bit set.
pub proof fn law_cpx(s: CpuState, addr: u16)
    ensures
        flag(s.cpx(addr).status, CARRY_FLAG) == (s.register_x >= s.read(addr)),
        flag(s.cpx(addr).status, ZERO_FLAG) == (s.register_x == s.read(addr)),
        flag(s.cpx(addr).status, NEGATIVE_FLAG) == (s.register_x >= 0x80),
        flag(s.cpx(addr).status, OVERFLOW_FLAG) == flag(s.status, OVERFLOW_FLAG),
        s.cpx(addr) == s.with_status(s.cpx(addr).status),
{
    let operand = s.read(addr);
    let c = crate::flags::with_flag(s.status, CARRY_FLAG, s.register_x >= operand);
    let z = crate::flags::with_flag(c, ZERO_FLAG, s.register_x == operand);
    lemma_with_flag(s.status, CARRY_FLAG, s.register_x >= operand, OVERFLOW_FLAG);
    lemma_with_flag(c, ZERO_FLAG, s.register_x == operand, CARRY_FLAG);
    lemma_with_flag(c, ZERO_FLAG, s.register_x == operand, OVERFLOW_FLAG);
    lemma_with_flag(z, NEGATIVE_FLAG, s.register_x >= 0x80, CARRY_FLAG);
    lemma_with_flag(z, NEGATIVE_FLAG, s.register_x >= 0x80, ZERO_FLAG);
    lemma_with_flag(z, NEGATIVE_FLAG, s.register_x >= 0x80, OVERFLOW_FLAG);
}

/// Every branch that is taken moves the program counter, which stands at
/// the operand byte, by one more than the operand, read as a signed byte
/// after the one is added. One that is not taken changes nothing, and
/// none changes anything but the program counter. Each of the five
/// branches is this with its own flag.
pub proof fn law_branch(s: CpuState, addr: u16, taken: bool)
    ensures
        taken ==> s.branch(addr, taken).program_counter == wrap16(
            s.program_counter + signed(wrap8(s.read(addr) + 1)),
        ),
        taken && s.read(addr) <= 0x7E ==> s.branch(addr, taken).program_counter == wrap16(
            s.program_counter + s.read(addr) + 1,
        ),
        taken && 0x7F <= s.read(addr) <= 0xFE ==> s.branch(addr, taken).program_counter
            == wrap16(s.program_counter + s.read(addr) + 1 - 0x100),
        taken && s.read(addr) == 0xFF ==> s.branch(addr, taken) == s,
        !taken ==> s.branch(addr, taken) == s,
        s.branch(addr, taken) == s.jump(s.branch(addr, taken).program_counter),
        s.bcc(addr) == s.branch(addr, !flag(s.status, CARRY_FLAG)),
        s.bcs(addr) == s.branch(addr, flag(s.status, CARRY_FLAG)),
        s.beq(addr) == s.branch(addr, flag(s.status, ZERO_FLAG)),
        s.bne(addr) == s.branch(addr, !flag(s.status, ZERO_FLAG)),
        s.bpl(addr) == s.branch(addr, !flag(s.status, NEGATIVE_FLAG)),
{
}

/// BCC with carry clear moves the program counter, which stands at the
/// operand byte, by one more than the operand, read as a signed byte
/// after the one is added: an operand `d` of at most 0x7E moves it
/// forward by `d + 1`. With carry set nothing changes. Nothing but the
/// program counter ever changes.
pub proof fn law_branch_on_carry_clear(s: CpuState, addr: u16)
    ensures
        !flag(s.status, CARRY_FLAG) ==> s.bcc(addr).program_counter == wrap16(
            s.program_counter + signed(wrap8(s.read(addr) + 1)),
        ),
        !flag(s.status, CARRY_FLAG) && s.read(addr) <= 0x7E ==> s.bcc(addr).program_counter
            == wrap16(s.program_counter + s.read(addr) + 1),
        flag(s.status, CARRY_FLAG) ==> s.bcc(addr) == s,
        s.bcc(addr) == s.jump(s.bcc(addr).program_counter),
{
}

/// The same for one turn of the loop that fetches BCC at `p` with
/// carry clear and an operand `d` of at most 0x7E: the program counter
/// ends at `p + 2 + d`, which is `d` bytes past the next instruction.
/// With carry set it ends at the next instruction.
pub proof fn law_branch_step(s: CpuState)
    requires
        s.wf(),
        s.next_opcode() == 0x90,
    ensures
        s.step().1 == Ok::<StepOutcome, CpuError>(StepOutcome::Continue),
        !flag(s.status, CARRY_FLAG) && s.fetched().next_opcode() <= 0x7E
            ==> s.step().0.program_counter == wrap16(
            s.program_counter + 2 + s.fetched().next_opcode(),
        ),
        flag(s.status, CARRY_FLAG) ==> s.step().0.program_counter == wrap16(
            s.program_counter + 2,
        ),
        s.step().0 == s.jump(s.step().0.program_counter),
{
    let fetched = s.fetched();
    assert(descriptor(0x90) matches Some(opcode) && opcode.addressing_mode
        == AddressingMode::Relative && opcode.bytes == 2) by {
        reveal(descriptor);
    }
    assert(fetched.execute(0x90, AddressingMode::Relative) == Some(
        fetched.bcc(fetched.program_counter),
    )) by {
        reveal(CpuState::execute);
    }
    law_branch_on_carry_clear(fetched, fetched.program_counter);
}

/// Whether the byte names a branch, JSR or RTS: the instructions that set
/// the program counter themselves.
pub open spec fn sets_program_counter(code: u8) -> bool {
    code == 0x90 || code == 0xB0 || code == 0xF0 || code == 0xD0 || code == 0x10 || code == 0x20
        || code == 0x60
}

/// Whether the byte names STA, STX, STY or JSR: the instructions that
/// write to memory.
pub open spec fn writes_memory(code: u8) -> bool {
    code == 0x85 || code == 0x95 || code == 0x8D || code == 0x9D || code == 0x99 || code == 0x81
        || code == 0x91 || code == 0x86 || code == 0x96 || code == 0x8E || code == 0x84 || code
        == 0x94 || code == 0x8C || code == 0x20
}

/// The bits of `status` that are no flag, bits 2 to 5.
pub open spec fn reserved_bits(status: u8) -> u8 {
    status & 0b0011_1100
}

/// Setting or clearing one of the four flags keeps the bits that are no
/// flag.
proof fn lemma_flags_keep_reserved_bits(status: u8, mask: u8, on: bool)
    requires
        mask == CARRY_FLAG || mask == ZERO_FLAG || mask == OVERFLOW_FLAG || mask == NEGATIVE_FLAG,
    ensures
        reserved_bits(crate::flags::with_flag(status, mask, on)) == reserved_bits(status),
{
    assert((status | mask) & 0b0011_1100 == status & 0b0011_1100) by (bit_vector)
        requires
            mask == 0x01 || mask == 0x02 || mask == 0x40 || mask == 0x80,
    ;
    assert((status & !mask) & 0b0011_1100 == status & 0b0011_1100) by (bit_vector)
        requires
            mask == 0x01 || mask == 0x02 || mask == 0x40 || mask == 0x80,
    ;
}

/// What no instruction does. An instruction
///
/// * keeps memory at its size, and changes it only if it is a store or
///   JSR;
/// * changes the program counter only if it is a branch, JSR or RTS;
/// * changes the stack pointer only if it is JSR or RTS;
/// * changes no bit of the status register but the four flags.
pub proof fn law_instruction_frame(s: CpuState, code: u8, mode: AddressingMode)
    requires
        s.wf(),
    ensures
        s.execute(code, mode) matches Some(after) ==> {
            &&& after.wf()
            &&& (after.memory == s.memory || writes_memory(code))
            &&& (after.program_counter == s.program_counter || sets_program_counter(code))
            &&& (after.stack_pointer == s.stack_pointer || code == 0x20 || code == 0x60)
            &&& reserved_bits(after.status) == reserved_bits(s.status)
        },
{
    reveal(CpuState::execute);
    assert forall|status: u8, mask: u8, on: bool|
        mask == CARRY_FLAG || mask == ZERO_FLAG || mask == OVERFLOW_FLAG || mask
            == NEGATIVE_FLAG implies reserved_bits(
        #[trigger] crate::flags::with_flag(status, mask, on),
    ) == reserved_bits(status) by {
        lemma_flags_keep_reserved_bits(status, mask, on);
    }
}

/// An instruction that is no branch, JSR or RTS moves the program counter
/// past itself, by its length; and so does a branch that is not taken.
pub proof fn law_step_advances_by_length(s: CpuState)
    requires
        s.wf(),
    ensures
        descriptor(s.next_opcode()) matches Some(opcode) ==> {
            &&& s.next_opcode() != BRK ==> s.step().1 == Ok::<StepOutcome, CpuError>(
                StepOutcome::Continue,
            )
            &&& s.next_opcode() != BRK && !sets_program_counter(s.next_opcode())
                ==> s.step().0.program_counter == wrap16(s.program_counter + opcode.bytes)
            &&& s.next_opcode() == BRK ==> s.step() == (
                s.fetched(),
                Ok::<StepOutcome, CpuError>(StepOutcome::Halted),
            )
        },
{
    let code = s.next_opcode();
    crate::semantics::lemma_step_finds_operand(s);
    crate::opcodes::lemma_descriptor(code);
    if descriptor(code) is Some {
        law_instruction_frame(s.fetched(), code, descriptor(code)->0.addressing_mode);
    }
}

} // verus!
