//! What the instructions do, stated on the mathematical state.
//!
//! Each instruction is a function from the state before it to the state
//! after it. Those that read or write memory take the address of their
//! operand, which [`CpuState::operand_address`] finds. `step` is one turn
//! of the fetch, decode and execute loop, and `run` is a bounded number of
//! such turns.
use vstd::prelude::*;
use crate::bytes::{high_byte, low_byte, signed, word, wrap16, wrap8};
use crate::cpu::{
    AddressingMode, CpuError, HookAction, NoHook, RunOutcome, StepHook, StepOutcome,
};
use crate::flags::{
    flag, with_carry_overflow, with_flag, with_zero_negative, MathematicalOperation, CARRY_FLAG,
    NEGATIVE_FLAG, ZERO_FLAG,
};
use crate::opcodes::descriptor;
use crate::state::CpuState;

verus! {

/// The opcode byte that halts the run.
pub const BRK: u8 = 0x00;

impl CpuState {
    /// ADC: the accumulator becomes the sum of itself and the operand,
    /// reduced to a byte. Zero and negative follow the result; carry and
    /// overflow are set iff the sum left the range of a byte.
    pub open spec fn adc(self, addr: u16) -> CpuState {
        let sum = self.accumulator + self.read(addr);
        CpuState {
            accumulator: wrap8(sum),
            status: with_carry_overflow(
                with_zero_negative(self.status, wrap8(sum)),
                sum > 0xFF,
                MathematicalOperation::Add,
            ),
            ..self
        }
    }

    /// SBC: the accumulator becomes the difference of itself and the
    /// operand, reduced to a byte. Zero and negative follow the result;
    /// overflow is set iff the difference fell below zero, and carry iff
    /// it did not.
    pub open spec fn sbc(self, addr: u16) -> CpuState {
        let difference = self.accumulator - self.read(addr);
        CpuState {
            accumulator: wrap8(difference),
            status: with_carry_overflow(
                with_zero_negative(self.status, wrap8(difference)),
                difference < 0,
                MathematicalOperation::Sub,
            ),
            ..self
        }
    }

    /// AND: the accumulator keeps the bits that the operand has too. Zero
    /// and negative follow the result.
    pub open spec fn and(self, addr: u16) -> CpuState {
        let result = self.accumulator & self.read(addr);
        CpuState {
            accumulator: result,
            status: with_zero_negative(self.status, result),
            ..self
        }
    }

    /// The shift of ASL on `value`: the accumulator becomes twice the
    /// value, reduced to a byte; carry is the bit that left at the top;
    /// zero and negative follow the result.
    pub open spec fn shift_left(self, value: u8) -> CpuState {
        let result = wrap8(2 * value);
        CpuState {
            accumulator: result,
            status: with_flag(with_zero_negative(self.status, result), CARRY_FLAG, value >= 0x80),
            ..self
        }
    }

    /// ASL: shifts the accumulator in accumulator mode, and else the
    /// operand, whose shifted value goes to the accumulator too. `None`
    /// where the mode gives neither.
    pub open spec fn asl(self, mode: AddressingMode) -> Option<CpuState> {
        if mode == AddressingMode::Accumulator {
            Some(self.shift_left(self.accumulator))
        } else {
            match self.operand_address(mode) {
                Some(addr) => Some(self.shift_left(self.read(addr))),
                None => None,
            }
        }
    }

    /// The step of a branch whose operand is `operand`: one more than the
    /// operand, reduced to a byte.
    pub open spec fn branch_step(operand: u8) -> u8 {
        wrap8(operand + 1)
    }

    /// The state with the program counter moved by `step`, read as a
    /// signed byte. The program counter wraps at both ends of memory.
    pub open spec fn displace(self, step: u8) -> CpuState {
        self.jump(wrap16(self.program_counter + signed(step)))
    }

    /// A conditional branch: where `taken`, the program counter moves by
    /// the step of the operand; else nothing changes.
    pub open spec fn branch(self, addr: u16, taken: bool) -> CpuState {
        if taken {
            self.displace(Self::branch_step(self.read(addr)))
        } else {
            self
        }
    }

    /// BCC: branches where carry is clear.
    pub open spec fn bcc(self, addr: u16) -> CpuState {
        self.branch(addr, !flag(self.status, CARRY_FLAG))
    }

    /// BCS: branches where carry is set.
    pub open spec fn bcs(self, addr: u16) -> CpuState {
        self.branch(addr, flag(self.status, CARRY_FLAG))
    }

    /// BEQ: branches where zero is set.
    pub open spec fn beq(self, addr: u16) -> CpuState {
        self.branch(addr, flag(self.status, ZERO_FLAG))
    }

    /// BNE: branches where zero is clear.
    pub open spec fn bne(self, addr: u16) -> CpuState {
        self.branch(addr, !flag(self.status, ZERO_FLAG))
    }

    /// BPL: branches where negative is clear.
    pub open spec fn bpl(self, addr: u16) -> CpuState {
        self.branch(addr, !flag(self.status, NEGATIVE_FLAG))
    }

    /// CLC: clears carry.
    pub open spec fn clc(self) -> CpuState {
        CpuState { status: with_flag(self.status, CARRY_FLAG, false), ..self }
    }

    /// SEC: sets carry.
    pub open spec fn sec(self) -> CpuState {
        CpuState { status: with_flag(self.status, CARRY_FLAG, true), ..self }
    }

    /// The compare of the accumulator with the operand: carry is set iff
    /// the accumulator is not below the operand; zero and negative follow
    /// the difference, reduced to a byte. No register changes.
    pub open spec fn compare(self, addr: u16) -> CpuState {
        let operand = self.read(addr);
        CpuState {
            status: with_zero_negative(
                with_flag(self.status, CARRY_FLAG, self.accumulator >= operand),
                wrap8(self.accumulator - operand),
            ),
            ..self
        }
    }

    /// CPX: carry is set iff X is not below the operand, zero iff the two
    /// are equal, and negative iff X itself has its high bit set. No
    /// register changes.
    pub open spec fn cpx(self, addr: u16) -> CpuState {
        let operand = self.read(addr);
        CpuState {
            status: with_flag(
                with_flag(
                    with_flag(self.status, CARRY_FLAG, self.register_x >= operand),
                    ZERO_FLAG,
                    self.register_x == operand,
                ),
                NEGATIVE_FLAG,
                self.register_x >= 0x80,
            ),
            ..self
        }
    }

    /// The state with `value` in X, and zero and negative following it.
    pub open spec fn set_x(self, value: u8) -> CpuState {
        CpuState {
            register_x: value,
            status: with_zero_negative(self.status, value),
            ..self
        }
    }

    /// The state with `value` in the accumulator, and zero and negative
    /// following it.
    pub open spec fn set_accumulator(self, value: u8) -> CpuState {
        CpuState {
            accumulator: value,
            status: with_zero_negative(self.status, value),
            ..self
        }
    }

    /// DEX: X goes down by one, from 0 to 0xFF.
    pub open spec fn dex(self) -> CpuState {
        self.set_x(wrap8(self.register_x - 1))
    }

    /// INX: X goes up by one, from 0xFF to 0.
    pub open spec fn inx(self) -> CpuState {
        self.set_x(wrap8(self.register_x + 1))
    }

    /// JSR: pushes the address of the last byte of the instruction, high
    /// byte first, and jumps to the operand address.
    pub open spec fn jsr(self, addr: u16) -> CpuState {
        let back = wrap16(self.program_counter + 1);
        self.push_byte(high_byte(back)).push_byte(low_byte(back)).jump(addr)
    }

    /// RTS: pulls an address, low byte first, and jumps to the address
    /// after it.
    pub open spec fn rts(self) -> CpuState {
        let low = self.top_byte();
        let high = self.drop_byte().top_byte();
        self.drop_byte().drop_byte().jump(wrap16(word(low, high) + 1))
    }

    /// LDA: loads the accumulator from the operand.
    pub open spec fn lda(self, addr: u16) -> CpuState {
        self.set_accumulator(self.read(addr))
    }

    /// LDX: loads X from the operand.
    pub open spec fn ldx(self, addr: u16) -> CpuState {
        self.set_x(self.read(addr))
    }

    /// LDY: loads Y from the operand.
    pub open spec fn ldy(self, addr: u16) -> CpuState {
        let value = self.read(addr);
        CpuState {
            register_y: value,
            status: with_zero_negative(self.status, value),
            ..self
        }
    }

    /// STA: stores the accumulator at the operand address.
    pub open spec fn sta(self, addr: u16) -> CpuState {
        self.write(addr, self.accumulator)
    }

    /// STX: stores X at the operand address.
    pub open spec fn stx(self, addr: u16) -> CpuState {
        self.write(addr, self.register_x)
    }

    /// STY: stores Y at the operand address.
    pub open spec fn sty(self, addr: u16) -> CpuState {
        self.write(addr, self.register_y)
    }

    /// TAX: copies the accumulator to X.
    pub open spec fn tax(self) -> CpuState {
        self.set_x(self.accumulator)
    }

    /// TXA: copies X to the accumulator.
    pub open spec fn txa(self) -> CpuState {
        self.set_accumulator(self.register_x)
    }
}

impl CpuState {
    /// The state after an instruction that works on the operand of the
    /// given mode, or `None` where the mode has no operand in memory.
    pub open spec fn on_operand(
        self,
        mode: AddressingMode,
        instruction: spec_fn(CpuState, u16) -> CpuState,
    ) -> Option<CpuState> {
        match self.operand_address(mode) {
            Some(addr) => Some(instruction(self, addr)),
            None => None,
        }
    }

    /// The state after the instruction that the byte `code` names, with
    /// the program counter at its operand bytes. `None` where the byte
    /// names no instruction other than BRK, or where the instruction
    /// needs an operand and `mode` gives none.
    #[verifier::opaque]
    pub open spec fn execute(self, code: u8, mode: AddressingMode) -> Option<CpuState> {
        match code {
            0x69 | 0x65 | 0x75 | 0x6D | 0x7D | 0x79 | 0x61 | 0x71 => self.on_operand(
                mode,
                |s: CpuState, addr: u16| s.adc(addr),
            ),
            0x29 | 0x25 | 0x35 | 0x2D | 0x3D | 0x39 | 0x21 | 0x31 => self.on_operand(
                mode,
                |s: CpuState, addr: u16| s.and(addr),
            ),
            0x0A | 0x06 | 0x16 | 0x0E | 0x1E => self.asl(mode),
            0x90 => self.on_operand(mode, |s: CpuState, addr: u16| s.bcc(addr)),
            0xB0 => self.on_operand(mode, |s: CpuState, addr: u16| s.bcs(addr)),
            0xF0 => self.on_operand(mode, |s: CpuState, addr: u16| s.beq(addr)),
            0xD0 => self.on_operand(mode, |s: CpuState, addr: u16| s.bne(addr)),
            0x10 => self.on_operand(mode, |s: CpuState, addr: u16| s.bpl(addr)),
            0x18 => Some(self.clc()),
            0xC9 | 0xC5 | 0xD5 | 0xCD | 0xDD | 0xD9 | 0xC1 | 0xD1 => self.on_operand(
                mode,
                |s: CpuState, addr: u16| s.compare(addr),
            ),
            0xE0 | 0xE4 | 0xEC => self.on_operand(mode, |s: CpuState, addr: u16| s.cpx(addr)),
            0xCA => Some(self.dex()),
            0xE8 => Some(self.inx()),
            0x20 => self.on_operand(mode, |s: CpuState, addr: u16| s.jsr(addr)),
            0xA9 | 0xA5 | 0xB5 | 0xAD | 0xBD | 0xB9 | 0xA1 | 0xB1 => self.on_operand(
                mode,
                |s: CpuState, addr: u16| s.lda(addr),
            ),
            0xA2 | 0xA6 | 0xB6 | 0xAE | 0xBE => self.on_operand(
                mode,
                |s: CpuState, addr: u16| s.ldx(addr),
            ),
            0xA0 | 0xA4 | 0xB4 | 0xAC | 0xBC => self.on_operand(
                mode,
                |s: CpuState, addr: u16| s.ldy(addr),
            ),
            0x60 => Some(self.rts()),
            0x38 => Some(self.sec()),
            0xE9 | 0xE5 | 0xF5 | 0xED | 0xFD | 0xF9 | 0xE1 | 0xF1 => self.on_operand(
                mode,
                |s: CpuState, addr: u16| s.sbc(addr),
            ),
            0x85 | 0x95 | 0x8D | 0x9D | 0x99 | 0x81 | 0x91 => self.on_operand(
                mode,
                |s: CpuState, addr: u16| s.sta(addr),
            ),
            0x86 | 0x96 | 0x8E => self.on_operand(mode, |s: CpuState, addr: u16| s.stx(addr)),
            0x84 | 0x94 | 0x8C => self.on_operand(mode, |s: CpuState, addr: u16| s.sty(addr)),
            0xAA => Some(self.tax()),
            0x8A => Some(self.txa()),
            _ => None,
        }
    }

    /// The state after the instruction that the mnemonic `name` names,
    /// or `None` where there is no such instruction but BRK, or where it
    /// needs an operand and `mode` gives none.
    pub open spec fn execute_named(self, name: Seq<char>, mode: AddressingMode) -> Option<
        CpuState,
    > {
        if name == "ADC"@ {
            self.on_operand(mode, |s: CpuState, addr: u16| s.adc(addr))
        } else if name == "AND"@ {
            self.on_operand(mode, |s: CpuState, addr: u16| s.and(addr))
        } else if name == "ASL"@ {
            self.asl(mode)
        } else if name == "BCC"@ {
            self.on_operand(mode, |s: CpuState, addr: u16| s.bcc(addr))
        } else if name == "BCS"@ {
            self.on_operand(mode, |s: CpuState, addr: u16| s.bcs(addr))
        } else if name == "BEQ"@ {
            self.on_operand(mode, |s: CpuState, addr: u16| s.beq(addr))
        } else if name == "BNE"@ {
            self.on_operand(mode, |s: CpuState, addr: u16| s.bne(addr))
        } else if name == "BPL"@ {
            self.on_operand(mode, |s: CpuState, addr: u16| s.bpl(addr))
        } else if name == "CLC"@ {
            Some(self.clc())
        } else if name == "CMP"@ {
            self.on_operand(mode, |s: CpuState, addr: u16| s.compare(addr))
        } else if name == "CPX"@ {
            self.on_operand(mode, |s: CpuState, addr: u16| s.cpx(addr))
        } else if name == "DEX"@ {
            Some(self.dex())
        } else if name == "INX"@ {
            Some(self.inx())
        } else if name == "JSR"@ {
            self.on_operand(mode, |s: CpuState, addr: u16| s.jsr(addr))
        } else if name == "LDA"@ {
            self.on_operand(mode, |s: CpuState, addr: u16| s.lda(addr))
        } else if name == "LDX"@ {
            self.on_operand(mode, |s: CpuState, addr: u16| s.ldx(addr))
        } else if name == "LDY"@ {
            self.on_operand(mode, |s: CpuState, addr: u16| s.ldy(addr))
        } else if name == "RTS"@ {
            Some(self.rts())
        } else if name == "SEC"@ {
            Some(self.sec())
        } else if name == "SBC"@ {
            self.on_operand(mode, |s: CpuState, addr: u16| s.sbc(addr))
        } else if name == "STA"@ {
            self.on_operand(mode, |s: CpuState, addr: u16| s.sta(addr))
        } else if name == "STX"@ {
            self.on_operand(mode, |s: CpuState, addr: u16| s.stx(addr))
        } else if name == "STY"@ {
            self.on_operand(mode, |s: CpuState, addr: u16| s.sty(addr))
        } else if name == "TAX"@ {
            Some(self.tax())
        } else if name == "TXA"@ {
            Some(self.txa())
        } else {
            None
        }
    }

    /// The byte just before the program counter: the opcode byte, after
    /// a fetch.
    pub open spec fn last_fetched(self) -> u8 {
        self.read(wrap16(self.program_counter - 1))
    }

    /// The opcode byte that the next step fetches.
    pub open spec fn next_opcode(self) -> u8 {
        self.read(self.program_counter)
    }

    /// The state after the fetch: the program counter is past the opcode
    /// byte.
    pub open spec fn fetched(self) -> CpuState {
        self.jump(wrap16(self.program_counter + 1))
    }

    /// The state after the instruction of length `bytes`, which turned
    /// the fetched state `self` into `after`: where the instruction left
    /// the program counter alone, it moves past the operand bytes.
    pub open spec fn advance(self, after: CpuState, bytes: u8) -> CpuState {
        if after.program_counter == self.program_counter {
            after.jump(wrap16(after.program_counter + bytes - 1))
        } else {
            after
        }
    }

    /// One turn of the loop: fetch the opcode byte, look it up, execute
    /// the instruction, move past its operand.
    ///
    /// * A byte that the catalogue does not hold ends the turn after the
    ///   fetch with `UnsupportedOpcode` of that byte.
    /// * BRK ends it after the fetch with `Halted`.
    /// * An instruction whose mode gives it no operand ends it after the
    ///   fetch with `InvalidAddressingMode`; `lemma_step_finds_operand`
    ///   shows that the catalogue holds no such line.
    pub open spec fn step(self) -> (CpuState, Result<StepOutcome, CpuError>) {
        let code = self.next_opcode();
        let fetched = self.fetched();
        match descriptor(code) {
            None => (fetched, Err(CpuError::UnsupportedOpcode(code))),
            Some(opcode) => if code == BRK {
                (fetched, Ok(StepOutcome::Halted))
            } else {
                match fetched.execute(code, opcode.addressing_mode) {
                    Some(after) => (fetched.advance(after, opcode.bytes), Ok(StepOutcome::Continue)),
                    None => (fetched, Err(CpuError::InvalidAddressingMode)),
                }
            },
        }
    }

    /// One turn of a run, after its hook answered `action`. Where the
    /// hook asks to halt, the run ends as `Interrupted` and nothing
    /// changes. Else one step follows: the run goes on after an
    /// instruction (`None`), and ends with a halt or a failure.
    pub open spec fn turn(self, action: HookAction) -> (
        CpuState,
        Option<Result<RunOutcome, CpuError>>,
    ) {
        match action {
            HookAction::Halt => (self, Some(Ok(RunOutcome::Interrupted))),
            HookAction::Continue => {
                let (next, outcome) = self.step();
                match outcome {
                    Ok(StepOutcome::Continue) => (next, None),
                    Ok(StepOutcome::Halted) => (next, Some(Ok(RunOutcome::Halted))),
                    Err(error) => (next, Some(Err(error))),
                }
            },
        }
    }

    /// At most `limit` turns of a run without a hook: it ends with the
    /// first turn that halts or fails, and as `StepLimit` where `limit`
    /// turns went by without either.
    pub open spec fn run(self, limit: nat) -> (CpuState, Result<RunOutcome, CpuError>)
        decreases limit,
    {
        if limit == 0 {
            (self, Ok(RunOutcome::StepLimit))
        } else {
            let (next, ended) = self.turn(HookAction::Continue);
            match ended {
                None => next.run((limit - 1) as nat),
                Some(outcome) => (next, outcome),
            }
        }
    }
}

/// Whether a run of at most `limit` turns, which starts with the hook
/// `hook` and the processor in the state `s`, may end with the hook as
/// `last_hook`, the processor in the state `last` and the result
/// `outcome`.
///
/// With no turn left the run ends where it stands, as `StepLimit`. Else
/// the hook is called on `s`; `turn` follows, with the hook's answer and
/// on the state in which the hook left the processor; and either that
/// turn ends the run, with its state and its result, or the run goes on
/// from there with one turn less.
pub open spec fn hooked_run<H: StepHook>(
    hook: H,
    s: CpuState,
    limit: nat,
    last_hook: H,
    last: CpuState,
    outcome: Result<RunOutcome, CpuError>,
) -> bool
    decreases limit,
{
    if limit == 0 {
        last_hook == hook && last == s && outcome == Ok::<RunOutcome, CpuError>(
            RunOutcome::StepLimit,
        )
    } else {
        exists|next: H, hooked: CpuState, action: HookAction|
            #[trigger] hook.may_answer(s, &next, hooked, action) && match hooked.turn(action).1 {
                Some(result) => last_hook == next && last == hooked.turn(action).0 && outcome
                    == result,
                None => hooked_run(
                    next,
                    hooked.turn(action).0,
                    (limit - 1) as nat,
                    last_hook,
                    last,
                    outcome,
                ),
            }
    }
}

/// One turn of a run with a hook: where the hook may answer as given,
/// every end of the rest of the run is an end of the run, and a turn
/// that ends the run ends it with its own state and result.
pub proof fn lemma_hooked_run_unfolds<H: StepHook>(
    hook: H,
    s: CpuState,
    limit: nat,
    next: H,
    hooked: CpuState,
    action: HookAction,
)
    requires
        limit > 0,
        hook.may_answer(s, &next, hooked, action),
    ensures
        hooked.turn(action).1 matches Some(result) ==> hooked_run(
            hook,
            s,
            limit,
            next,
            hooked.turn(action).0,
            result,
        ),
        hooked.turn(action).1 is None ==> forall|
            last_hook: H,
            last: CpuState,
            outcome: Result<RunOutcome, CpuError>,
        |
            #[trigger] hooked_run(
                next,
                hooked.turn(action).0,
                (limit - 1) as nat,
                last_hook,
                last,
                outcome,
            ) ==> hooked_run(hook, s, limit, last_hook, last, outcome),
{
}

/// With the hook that does nothing, a run with a hook is the run without
/// one: it can end in one way only, which is the way of `run`.
pub proof fn lemma_run_without_hook(
    s: CpuState,
    limit: nat,
    last: CpuState,
    outcome: Result<RunOutcome, CpuError>,
)
    ensures
        hooked_run(NoHook, s, limit, NoHook, last, outcome) <==> (last, outcome) == s.run(limit),
    decreases limit,
{
    if limit > 0 {
        let after = s.turn(HookAction::Continue).0;
        lemma_run_without_hook(after, (limit - 1) as nat, last, outcome);
        if (last, outcome) == s.run(limit) {
            assert(NoHook.may_answer(s, &NoHook, s, HookAction::Continue));
        }
    }
}

/// What the text of each mnemonic is.
proof fn lemma_mnemonics()
    ensures
        "ADC"@ =~= seq!['A', 'D', 'C'],
        "AND"@ =~= seq!['A', 'N', 'D'],
        "ASL"@ =~= seq!['A', 'S', 'L'],
        "BCC"@ =~= seq!['B', 'C', 'C'],
        "BCS"@ =~= seq!['B', 'C', 'S'],
        "BEQ"@ =~= seq!['B', 'E', 'Q'],
        "BNE"@ =~= seq!['B', 'N', 'E'],
        "BPL"@ =~= seq!['B', 'P', 'L'],
        "BRK"@ =~= seq!['B', 'R', 'K'],
        "CLC"@ =~= seq!['C', 'L', 'C'],
        "CMP"@ =~= seq!['C', 'M', 'P'],
        "CPX"@ =~= seq!['C', 'P', 'X'],
        "DEX"@ =~= seq!['D', 'E', 'X'],
        "INX"@ =~= seq!['I', 'N', 'X'],
        "JSR"@ =~= seq!['J', 'S', 'R'],
        "LDA"@ =~= seq!['L', 'D', 'A'],
        "LDX"@ =~= seq!['L', 'D', 'X'],
        "LDY"@ =~= seq!['L', 'D', 'Y'],
        "RTS"@ =~= seq!['R', 'T', 'S'],
        "SEC"@ =~= seq!['S', 'E', 'C'],
        "SBC"@ =~= seq!['S', 'B', 'C'],
        "STA"@ =~= seq!['S', 'T', 'A'],
        "STX"@ =~= seq!['S', 'T', 'X'],
        "STY"@ =~= seq!['S', 'T', 'Y'],
        "TAX"@ =~= seq!['T', 'A', 'X'],
        "TXA"@ =~= seq!['T', 'X', 'A'],
{
    reveal_strlit("ADC");
    reveal_strlit("AND");
    reveal_strlit("ASL");
    reveal_strlit("BCC");
    reveal_strlit("BCS");
    reveal_strlit("BEQ");
    reveal_strlit("BNE");
    reveal_strlit("BPL");
    reveal_strlit("BRK");
    reveal_strlit("CLC");
    reveal_strlit("CMP");
    reveal_strlit("CPX");
    reveal_strlit("DEX");
    reveal_strlit("INX");
    reveal_strlit("JSR");
    reveal_strlit("LDA");
    reveal_strlit("LDX");
    reveal_strlit("LDY");
    reveal_strlit("RTS");
    reveal_strlit("SEC");
    reveal_strlit("SBC");
    reveal_strlit("STA");
    reveal_strlit("STX");
    reveal_strlit("STY");
    reveal_strlit("TAX");
    reveal_strlit("TXA");
}

/// The loop and the catalogue agree: for a byte of the catalogue other
/// than BRK, the instruction that the loop executes is the one that the
/// catalogue names.
pub proof fn lemma_execute_follows_catalogue(s: CpuState, code: u8)
    ensures
        descriptor(code) matches Some(opcode) ==> if code == BRK {
            opcode.name@ == "BRK"@
        } else {
            s.execute(code, opcode.addressing_mode) == s.execute_named(
                opcode.name@,
                opcode.addressing_mode,
            )
        },
{
    reveal(descriptor);
    reveal(CpuState::execute);
    lemma_mnemonics();
}

/// One turn keeps memory at its size, and so does a run.
pub proof fn lemma_run_wf(s: CpuState, limit: nat)
    requires
        s.wf(),
    ensures
        s.step().0.wf(),
        s.run(limit).0.wf(),
    decreases limit,
{
    reveal(CpuState::execute);
    if limit > 0 {
        lemma_run_wf(s.step().0, (limit - 1) as nat);
    }
}

/// How a run without a hook can end: never as `Interrupted`, and never
/// with `InvalidAddressingMode`. Where it fails, the byte just before the
/// program counter is the cause, and the catalogue does not hold it;
/// where it halts, that byte is BRK.
pub proof fn lemma_run_outcomes(s: CpuState, limit: nat)
    requires
        s.wf(),
    ensures
        s.run(limit).1 != Ok::<RunOutcome, CpuError>(RunOutcome::Interrupted),
        s.run(limit).1 matches Err(error) ==> error == CpuError::UnsupportedOpcode(
            s.run(limit).0.last_fetched(),
        ) && descriptor(s.run(limit).0.last_fetched()) is None,
        s.run(limit).1 == Ok::<RunOutcome, CpuError>(RunOutcome::Halted) ==> s.run(
            limit,
        ).0.last_fetched() == BRK,
    decreases limit,
{
    if limit > 0 {
        lemma_step_finds_operand(s);
        lemma_run_wf(s, 1);
        lemma_run_outcomes(s.step().0, (limit - 1) as nat);
    }
}

/// No line of the catalogue gives an instruction a mode without the
/// operand it needs: one turn never ends with `InvalidAddressingMode`,
/// and it ends with `UnsupportedOpcode` exactly where the catalogue does
/// not hold the fetched byte.
pub proof fn lemma_step_finds_operand(s: CpuState)
    ensures
        s.step().1 != Err::<StepOutcome, CpuError>(CpuError::InvalidAddressingMode),
        s.step().1 is Err <==> descriptor(s.next_opcode()) is None,
        s.step().1 is Err ==> s.step().1 == Err::<StepOutcome, CpuError>(
            CpuError::UnsupportedOpcode(s.next_opcode()),
        ),
{
    reveal(descriptor);
    reveal(CpuState::execute);
}

} // verus!
