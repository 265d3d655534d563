//! The opcode catalogue: for each supported opcode byte its mnemonic, its
//! length, its nominal cycle count and its addressing mode.
use vstd::prelude::*;
use std::collections::HashMap;
use crate::cpu::{AddressingMode, CpuError};

verus! {

broadcast use vstd::std_specs::hash::group_hash_axioms;

/// What the catalogue knows of one opcode byte.
#[derive(Debug, Clone, Copy)]
pub struct Opcode {
    /// The opcode byte.
    pub code: u8,
    /// The mnemonic, three capital letters.
    pub name: &'static str,
    /// The length of the instruction in bytes, the opcode byte included.
    pub bytes: u8,
    /// The nominal number of cycles. The engine keeps no time: this is
    /// for information only.
    pub cycles: u8,
    /// How the instruction finds its operand.
    pub addressing_mode: AddressingMode,
}

impl Opcode {
    /// A descriptor with the given fields.
    pub fn new(
        code: u8,
        name: &'static str,
        bytes: u8,
        cycles: u8,
        addressing_mode: AddressingMode,
    ) -> (opcode: Self)
        ensures
            opcode == (Opcode { code, name, bytes, cycles, addressing_mode }),
    {
        Opcode { code, name, bytes, cycles, addressing_mode }
    }
}

/// One line of the catalogue.
pub open spec fn entry(
    code: u8,
    name: &'static str,
    bytes: u8,
    cycles: u8,
    addressing_mode: AddressingMode,
) -> Option<Opcode> {
    Some(Opcode { code, name, bytes, cycles, addressing_mode })
}

/// The catalogue: the descriptor of `code`, or `None` where the engine
/// does not support that byte. The definition is hidden from proofs
/// until they ask for it with `reveal(descriptor)`.
#[verifier::opaque]
pub open spec fn descriptor(code: u8) -> Option<Opcode> {
    match code {
        0x69 => entry(0x69, "ADC", 2, 2, AddressingMode::Immediate),
        0x65 => entry(0x65, "ADC", 2, 3, AddressingMode::ZeroPage),
        0x75 => entry(0x75, "ADC", 2, 4, AddressingMode::ZeroPageX),
        0x6D => entry(0x6D, "ADC", 3, 4, AddressingMode::Absolute),
        0x7D => entry(0x7D, "ADC", 3, 4, AddressingMode::AbsoluteX),
        0x79 => entry(0x79, "ADC", 3, 4, AddressingMode::AbsoluteY),
        0x61 => entry(0x61, "ADC", 2, 6, AddressingMode::IndirectX),
        0x71 => entry(0x71, "ADC", 2, 5, AddressingMode::IndirectY),
        0x29 => entry(0x29, "AND", 2, 2, AddressingMode::Immediate),
        0x25 => entry(0x25, "AND", 2, 3, AddressingMode::ZeroPage),
        0x35 => entry(0x35, "AND", 2, 4, AddressingMode::ZeroPageX),
        0x2D => entry(0x2D, "AND", 3, 4, AddressingMode::Absolute),
        0x3D => entry(0x3D, "AND", 3, 4, AddressingMode::AbsoluteX),
        0x39 => entry(0x39, "AND", 3, 4, AddressingMode::AbsoluteY),
        0x21 => entry(0x21, "AND", 2, 6, AddressingMode::IndirectX),
        0x31 => entry(0x31, "AND", 2, 5, AddressingMode::IndirectY),
        0x0A => entry(0x0A, "ASL", 1, 2, AddressingMode::Accumulator),
        0x06 => entry(0x06, "ASL", 2, 5, AddressingMode::ZeroPage),
        0x16 => entry(0x16, "ASL", 2, 6, AddressingMode::ZeroPageX),
        0x0E => entry(0x0E, "ASL", 3, 6, AddressingMode::Absolute),
        0x1E => entry(0x1E, "ASL", 3, 7, AddressingMode::AbsoluteX),
        0x90 => entry(0x90, "BCC", 2, 2, AddressingMode::Relative),
        0xB0 => entry(0xB0, "BCS", 2, 2, AddressingMode::Relative),
        0xF0 => entry(0xF0, "BEQ", 2, 2, AddressingMode::Relative),
        0xD0 => entry(0xD0, "BNE", 2, 2, AddressingMode::Relative),
        0x10 => entry(0x10, "BPL", 2, 2, AddressingMode::Relative),
        0x18 => entry(0x18, "CLC", 1, 2, AddressingMode::NoneAddressing),
        0xC9 => entry(0xC9, "CMP", 2, 2, AddressingMode::Immediate),
        0xC5 => entry(0xC5, "CMP", 2, 3, AddressingMode::ZeroPage),
        0xD5 => entry(0xD5, "CMP", 2, 4, AddressingMode::ZeroPageX),
        0xCD => entry(0xCD, "CMP", 3, 4, AddressingMode::Absolute),
        0xDD => entry(0xDD, "CMP", 3, 4, AddressingMode::AbsoluteX),
        0xD9 => entry(0xD9, "CMP", 3, 4, AddressingMode::AbsoluteY),
        0xC1 => entry(0xC1, "CMP", 2, 6, AddressingMode::IndirectX),
        0xD1 => entry(0xD1, "CMP", 2, 5, AddressingMode::IndirectY),
        0xE0 => entry(0xE0, "CPX", 2, 2, AddressingMode::Immediate),
        0xE4 => entry(0xE4, "CPX", 2, 3, AddressingMode::ZeroPage),
        0xEC => entry(0xEC, "CPX", 3, 4, AddressingMode::Absolute),
        0xCA => entry(0xCA, "DEX", 1, 2, AddressingMode::NoneAddressing),
        0xE8 => entry(0xE8, "INX", 1, 2, AddressingMode::NoneAddressing),
        0x20 => entry(0x20, "JSR", 3, 6, AddressingMode::Absolute),
        0xA9 => entry(0xA9, "LDA", 2, 2, AddressingMode::Immediate),
        0xA5 => entry(0xA5, "LDA", 2, 3, AddressingMode::ZeroPage),
        0xB5 => entry(0xB5, "LDA", 2, 4, AddressingMode::ZeroPageX),
        0xAD => entry(0xAD, "LDA", 3, 4, AddressingMode::Absolute),
        0xBD => entry(0xBD, "LDA", 3, 4, AddressingMode::AbsoluteX),
        0xB9 => entry(0xB9, "LDA", 3, 4, AddressingMode::AbsoluteY),
        0xA1 => entry(0xA1, "LDA", 2, 6, AddressingMode::IndirectX),
        0xB1 => entry(0xB1, "LDA", 2, 5, AddressingMode::IndirectY),
        0xA2 => entry(0xA2, "LDX", 2, 2, AddressingMode::Immediate),
        0xA6 => entry(0xA6, "LDX", 2, 3, AddressingMode::ZeroPage),
        0xB6 => entry(0xB6, "LDX", 2, 4, AddressingMode::ZeroPageY),
        0xAE => entry(0xAE, "LDX", 3, 4, AddressingMode::Absolute),
        0xBE => entry(0xBE, "LDX", 3, 4, AddressingMode::AbsoluteY),
        0xA0 => entry(0xA0, "LDY", 2, 2, AddressingMode::Immediate),
        0xA4 => entry(0xA4, "LDY", 2, 3, AddressingMode::ZeroPage),
        0xB4 => entry(0xB4, "LDY", 2, 4, AddressingMode::ZeroPageX),
        0xAC => entry(0xAC, "LDY", 3, 4, AddressingMode::Absolute),
        0xBC => entry(0xBC, "LDY", 3, 4, AddressingMode::AbsoluteX),
        0x60 => entry(0x60, "RTS", 1, 6, AddressingMode::NoneAddressing),
        0x38 => entry(0x38, "SEC", 1, 2, AddressingMode::NoneAddressing),
        0xE9 => entry(0xE9, "SBC", 2, 2, AddressingMode::Immediate),
        0xE5 => entry(0xE5, "SBC", 2, 3, AddressingMode::ZeroPage),
        0xF5 => entry(0xF5, "SBC", 2, 4, AddressingMode::ZeroPageX),
        0xED => entry(0xED, "SBC", 3, 4, AddressingMode::Absolute),
        0xFD => entry(0xFD, "SBC", 3, 4, AddressingMode::AbsoluteX),
        0xF9 => entry(0xF9, "SBC", 3, 4, AddressingMode::AbsoluteY),
        0xE1 => entry(0xE1, "SBC", 2, 6, AddressingMode::IndirectX),
        0xF1 => entry(0xF1, "SBC", 2, 5, AddressingMode::IndirectY),
        0x85 => entry(0x85, "STA", 2, 3, AddressingMode::ZeroPage),
        0x95 => entry(0x95, "STA", 2, 4, AddressingMode::ZeroPageX),
        0x8D => entry(0x8D, "STA", 3, 4, AddressingMode::Absolute),
        0x9D => entry(0x9D, "STA", 3, 5, AddressingMode::AbsoluteX),
        0x99 => entry(0x99, "STA", 3, 5, AddressingMode::AbsoluteY),
        0x81 => entry(0x81, "STA", 2, 6, AddressingMode::IndirectX),
        0x91 => entry(0x91, "STA", 2, 6, AddressingMode::IndirectY),
        0x86 => entry(0x86, "STX", 2, 3, AddressingMode::ZeroPage),
        0x96 => entry(0x96, "STX", 2, 4, AddressingMode::ZeroPageY),
        0x8E => entry(0x8E, "STX", 3, 4, AddressingMode::Absolute),
        0x84 => entry(0x84, "STY", 2, 3, AddressingMode::ZeroPage),
        0x94 => entry(0x94, "STY", 2, 4, AddressingMode::ZeroPageX),
        0x8C => entry(0x8C, "STY", 3, 4, AddressingMode::Absolute),
        0xAA => entry(0xAA, "TAX", 1, 2, AddressingMode::NoneAddressing),
        0x8A => entry(0x8A, "TXA", 1, 2, AddressingMode::NoneAddressing),
        0x00 => entry(0x00, "BRK", 1, 7, AddressingMode::NoneAddressing),
        _ => None,
    }
}

/// The length of an instruction with the given addressing mode: the
/// opcode byte and the bytes of its operand.
pub open spec fn instruction_length(mode: AddressingMode) -> int {
    match mode {
        AddressingMode::Accumulator | AddressingMode::NoneAddressing => 1,
        AddressingMode::Absolute | AddressingMode::AbsoluteX | AddressingMode::AbsoluteY => 3,
        _ => 2,
    }
}

/// The descriptors of the supported bytes below `bound`, by rising byte.
pub open spec fn supported_below(bound: int) -> Seq<Opcode>
    decreases bound,
{
    if bound <= 0 {
        Seq::empty()
    } else {
        match descriptor((bound - 1) as u8) {
            Some(opcode) => supported_below(bound - 1).push(opcode),
            None => supported_below(bound - 1),
        }
    }
}

/// The catalogue as a list: every descriptor, by rising byte.
pub open spec fn opcode_table() -> Seq<Opcode> {
    supported_below(0x100)
}

/// The catalogue as a map from the opcode byte.
pub open spec fn opcode_map() -> Map<u8, Opcode> {
    Map::new(|code: u8| descriptor(code) is Some, |code: u8| descriptor(code)->0)
}

/// A descriptor stands under its own byte, and its length is the one its
/// addressing mode asks for: between one and three bytes.
pub proof fn lemma_descriptor(code: u8)
    ensures
        descriptor(code) matches Some(opcode) ==> opcode.code == code && opcode.bytes
            == instruction_length(opcode.addressing_mode) && 1 <= opcode.bytes <= 3,
{
    reveal(descriptor);
}

/// What the list of the descriptors below `bound` holds: each entry is
/// the descriptor of its byte, the bytes rise, and none below `bound` is
/// missing.
pub proof fn lemma_supported_below(bound: int)
    requires
        0 <= bound <= 0x100,
    ensures
        supported_below(bound).len() <= bound,
        forall|i: int|
            0 <= i < supported_below(bound).len() ==> (#[trigger] supported_below(bound)[i]).code
                < bound && descriptor(supported_below(bound)[i].code) == Some(
                supported_below(bound)[i],
            ),
        forall|i: int, j: int|
            0 <= i < j < supported_below(bound).len() ==> (#[trigger] supported_below(
                bound,
            )[i]).code < (#[trigger] supported_below(bound)[j]).code,
        forall|code: u8|
            code < bound && #[trigger] descriptor(code) is Some ==> exists|i: int|
                0 <= i < supported_below(bound).len() && (#[trigger] supported_below(
                    bound,
                )[i]).code == code,
    decreases bound,
{
    if bound > 0 {
        lemma_supported_below(bound - 1);
        let last = (bound - 1) as u8;
        let before = supported_below(bound - 1);
        let all = supported_below(bound);
        lemma_descriptor(last);
        assert forall|code: u8| code < bound && #[trigger] descriptor(code) is Some implies exists|
            i: int,
        |
            0 <= i < all.len() && (#[trigger] all[i]).code == code by {
            if code == last {
                assert(all[all.len() - 1].code == code);
            } else {
                let i = choose|i: int| 0 <= i < before.len() && (#[trigger] before[i]).code == code;
                assert(all[i].code == code);
            }
        }
    }
}

/// The descriptor of `code`. A byte that the catalogue does not hold is
/// refused as an unsupported opcode, and the error carries the byte.
pub fn lookup(code: u8) -> (found: Result<Opcode, CpuError>)
    ensures
        match descriptor(code) {
            Some(opcode) => found == Ok::<Opcode, CpuError>(opcode),
            None => found == Err::<Opcode, CpuError>(CpuError::UnsupportedOpcode(code)),
        },
{
    reveal(descriptor);
    match code {
        0x69 => Ok(Opcode::new(0x69, "ADC", 2, 2, AddressingMode::Immediate)),
        0x65 => Ok(Opcode::new(0x65, "ADC", 2, 3, AddressingMode::ZeroPage)),
        0x75 => Ok(Opcode::new(0x75, "ADC", 2, 4, AddressingMode::ZeroPageX)),
        0x6D => Ok(Opcode::new(0x6D, "ADC", 3, 4, AddressingMode::Absolute)),
        0x7D => Ok(Opcode::new(0x7D, "ADC", 3, 4, AddressingMode::AbsoluteX)),
        0x79 => Ok(Opcode::new(0x79, "ADC", 3, 4, AddressingMode::AbsoluteY)),
        0x61 => Ok(Opcode::new(0x61, "ADC", 2, 6, AddressingMode::IndirectX)),
        0x71 => Ok(Opcode::new(0x71, "ADC", 2, 5, AddressingMode::IndirectY)),
        0x29 => Ok(Opcode::new(0x29, "AND", 2, 2, AddressingMode::Immediate)),
        0x25 => Ok(Opcode::new(0x25, "AND", 2, 3, AddressingMode::ZeroPage)),
        0x35 => Ok(Opcode::new(0x35, "AND", 2, 4, AddressingMode::ZeroPageX)),
        0x2D => Ok(Opcode::new(0x2D, "AND", 3, 4, AddressingMode::Absolute)),
        0x3D => Ok(Opcode::new(0x3D, "AND", 3, 4, AddressingMode::AbsoluteX)),
        0x39 => Ok(Opcode::new(0x39, "AND", 3, 4, AddressingMode::AbsoluteY)),
        0x21 => Ok(Opcode::new(0x21, "AND", 2, 6, AddressingMode::IndirectX)),
        0x31 => Ok(Opcode::new(0x31, "AND", 2, 5, AddressingMode::IndirectY)),
        0x0A => Ok(Opcode::new(0x0A, "ASL", 1, 2, AddressingMode::Accumulator)),
        0x06 => Ok(Opcode::new(0x06, "ASL", 2, 5, AddressingMode::ZeroPage)),
        0x16 => Ok(Opcode::new(0x16, "ASL", 2, 6, AddressingMode::ZeroPageX)),
        0x0E => Ok(Opcode::new(0x0E, "ASL", 3, 6, AddressingMode::Absolute)),
        0x1E => Ok(Opcode::new(0x1E, "ASL", 3, 7, AddressingMode::AbsoluteX)),
        0x90 => Ok(Opcode::new(0x90, "BCC", 2, 2, AddressingMode::Relative)),
        0xB0 => Ok(Opcode::new(0xB0, "BCS", 2, 2, AddressingMode::Relative)),
        0xF0 => Ok(Opcode::new(0xF0, "BEQ", 2, 2, AddressingMode::Relative)),
        0xD0 => Ok(Opcode::new(0xD0, "BNE", 2, 2, AddressingMode::Relative)),
        0x10 => Ok(Opcode::new(0x10, "BPL", 2, 2, AddressingMode::Relative)),
        0x18 => Ok(Opcode::new(0x18, "CLC", 1, 2, AddressingMode::NoneAddressing)),
        0xC9 => Ok(Opcode::new(0xC9, "CMP", 2, 2, AddressingMode::Immediate)),
        0xC5 => Ok(Opcode::new(0xC5, "CMP", 2, 3, AddressingMode::ZeroPage)),
        0xD5 => Ok(Opcode::new(0xD5, "CMP", 2, 4, AddressingMode::ZeroPageX)),
        0xCD => Ok(Opcode::new(0xCD, "CMP", 3, 4, AddressingMode::Absolute)),
        0xDD => Ok(Opcode::new(0xDD, "CMP", 3, 4, AddressingMode::AbsoluteX)),
        0xD9 => Ok(Opcode::new(0xD9, "CMP", 3, 4, AddressingMode::AbsoluteY)),
        0xC1 => Ok(Opcode::new(0xC1, "CMP", 2, 6, AddressingMode::IndirectX)),
        0xD1 => Ok(Opcode::new(0xD1, "CMP", 2, 5, AddressingMode::IndirectY)),
        0xE0 => Ok(Opcode::new(0xE0, "CPX", 2, 2, AddressingMode::Immediate)),
        0xE4 => Ok(Opcode::new(0xE4, "CPX", 2, 3, AddressingMode::ZeroPage)),
        0xEC => Ok(Opcode::new(0xEC, "CPX", 3, 4, AddressingMode::Absolute)),
        0xCA => Ok(Opcode::new(0xCA, "DEX", 1, 2, AddressingMode::NoneAddressing)),
        0xE8 => Ok(Opcode::new(0xE8, "INX", 1, 2, AddressingMode::NoneAddressing)),
        0x20 => Ok(Opcode::new(0x20, "JSR", 3, 6, AddressingMode::Absolute)),
        0xA9 => Ok(Opcode::new(0xA9, "LDA", 2, 2, AddressingMode::Immediate)),
        0xA5 => Ok(Opcode::new(0xA5, "LDA", 2, 3, AddressingMode::ZeroPage)),
        0xB5 => Ok(Opcode::new(0xB5, "LDA", 2, 4, AddressingMode::ZeroPageX)),
        0xAD => Ok(Opcode::new(0xAD, "LDA", 3, 4, AddressingMode::Absolute)),
        0xBD => Ok(Opcode::new(0xBD, "LDA", 3, 4, AddressingMode::AbsoluteX)),
        0xB9 => Ok(Opcode::new(0xB9, "LDA", 3, 4, AddressingMode::AbsoluteY)),
        0xA1 => Ok(Opcode::new(0xA1, "LDA", 2, 6, AddressingMode::IndirectX)),
        0xB1 => Ok(Opcode::new(0xB1, "LDA", 2, 5, AddressingMode::IndirectY)),
        0xA2 => Ok(Opcode::new(0xA2, "LDX", 2, 2, AddressingMode::Immediate)),
        0xA6 => Ok(Opcode::new(0xA6, "LDX", 2, 3, AddressingMode::ZeroPage)),
        0xB6 => Ok(Opcode::new(0xB6, "LDX", 2, 4, AddressingMode::ZeroPageY)),
        0xAE => Ok(Opcode::new(0xAE, "LDX", 3, 4, AddressingMode::Absolute)),
        0xBE => Ok(Opcode::new(0xBE, "LDX", 3, 4, AddressingMode::AbsoluteY)),
        0xA0 => Ok(Opcode::new(0xA0, "LDY", 2, 2, AddressingMode::Immediate)),
        0xA4 => Ok(Opcode::new(0xA4, "LDY", 2, 3, AddressingMode::ZeroPage)),
        0xB4 => Ok(Opcode::new(0xB4, "LDY", 2, 4, AddressingMode::ZeroPageX)),
        0xAC => Ok(Opcode::new(0xAC, "LDY", 3, 4, AddressingMode::Absolute)),
        0xBC => Ok(Opcode::new(0xBC, "LDY", 3, 4, AddressingMode::AbsoluteX)),
        0x60 => Ok(Opcode::new(0x60, "RTS", 1, 6, AddressingMode::NoneAddressing)),
        0x38 => Ok(Opcode::new(0x38, "SEC", 1, 2, AddressingMode::NoneAddressing)),
        0xE9 => Ok(Opcode::new(0xE9, "SBC", 2, 2, AddressingMode::Immediate)),
        0xE5 => Ok(Opcode::new(0xE5, "SBC", 2, 3, AddressingMode::ZeroPage)),
        0xF5 => Ok(Opcode::new(0xF5, "SBC", 2, 4, AddressingMode::ZeroPageX)),
        0xED => Ok(Opcode::new(0xED, "SBC", 3, 4, AddressingMode::Absolute)),
        0xFD => Ok(Opcode::new(0xFD, "SBC", 3, 4, AddressingMode::AbsoluteX)),
        0xF9 => Ok(Opcode::new(0xF9, "SBC", 3, 4, AddressingMode::AbsoluteY)),
        0xE1 => Ok(Opcode::new(0xE1, "SBC", 2, 6, AddressingMode::IndirectX)),
        0xF1 => Ok(Opcode::new(0xF1, "SBC", 2, 5, AddressingMode::IndirectY)),
        0x85 => Ok(Opcode::new(0x85, "STA", 2, 3, AddressingMode::ZeroPage)),
        0x95 => Ok(Opcode::new(0x95, "STA", 2, 4, AddressingMode::ZeroPageX)),
        0x8D => Ok(Opcode::new(0x8D, "STA", 3, 4, AddressingMode::Absolute)),
        0x9D => Ok(Opcode::new(0x9D, "STA", 3, 5, AddressingMode::AbsoluteX)),
        0x99 => Ok(Opcode::new(0x99, "STA", 3, 5, AddressingMode::AbsoluteY)),
        0x81 => Ok(Opcode::new(0x81, "STA", 2, 6, AddressingMode::IndirectX)),
        0x91 => Ok(Opcode::new(0x91, "STA", 2, 6, AddressingMode::IndirectY)),
        0x86 => Ok(Opcode::new(0x86, "STX", 2, 3, AddressingMode::ZeroPage)),
        0x96 => Ok(Opcode::new(0x96, "STX", 2, 4, AddressingMode::ZeroPageY)),
        0x8E => Ok(Opcode::new(0x8E, "STX", 3, 4, AddressingMode::Absolute)),
        0x84 => Ok(Opcode::new(0x84, "STY", 2, 3, AddressingMode::ZeroPage)),
        0x94 => Ok(Opcode::new(0x94, "STY", 2, 4, AddressingMode::ZeroPageX)),
        0x8C => Ok(Opcode::new(0x8C, "STY", 3, 4, AddressingMode::Absolute)),
        0xAA => Ok(Opcode::new(0xAA, "TAX", 1, 2, AddressingMode::NoneAddressing)),
        0x8A => Ok(Opcode::new(0x8A, "TXA", 1, 2, AddressingMode::NoneAddressing)),
        0x00 => Ok(Opcode::new(0x00, "BRK", 1, 7, AddressingMode::NoneAddressing)),
        _ => Err(CpuError::UnsupportedOpcode(code)),
    }
}

/// The catalogue as a list, by rising opcode byte.
pub fn cpu_op_codes() -> (table: Vec<Opcode>)
    ensures
        table@ == opcode_table(),
{
    let mut table: Vec<Opcode> = Vec::new();
    let mut code: u8 = 0;
    loop
        invariant_except_break
            table@ == supported_below(code as int),
        ensures
            table@ == supported_below(0x100),
        decreases 0x100 - code,
    {
        if let Ok(opcode) = lookup(code) {
            table.push(opcode);
        }
        if code == 0xFF {
            break ;
        }
        code = code + 1;
    }
    table
}

/// The catalogue as a map from the opcode byte to its descriptor.
pub fn opcodes_map() -> (map: HashMap<u8, Opcode>)
    ensures
        map@ == opcode_map(),
{
    let table = cpu_op_codes();
    let mut map: HashMap<u8, Opcode> = HashMap::new();
    let mut i: usize = 0;
    proof {
        lemma_supported_below(0x100);
    }
    while i < table.len()
        invariant
            i <= table.len(),
            table@ == opcode_table(),
            forall|j: int|
                0 <= j < table@.len() ==> descriptor((#[trigger] table@[j]).code) == Some(
                    table@[j],
                ),
            forall|code: u8|
                map@.contains_key(code) <==> exists|j: int|
                    0 <= j < i && (#[trigger] table@[j]).code == code,
            forall|code: u8| #[trigger] map@.contains_key(code) ==> descriptor(code) == Some(map@[code]),
        decreases table.len() - i,
    {
        let opcode = table[i];
        map.insert(opcode.code, opcode);
        i += 1;
    }
    map
}

} // verus!
