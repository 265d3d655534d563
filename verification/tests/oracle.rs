use nes_emulator_rust::cpu::{CpuError, StepOutcome, CPU};
use nes_emulator_rust::opcodes::cpu_op_codes;

// A second interpreter, written as plainly as possible, against which the
// engine is run on programs of random bytes.

#[derive(Clone, Copy, PartialEq, Debug)]
enum Mode {
  Imp,
  Acc,
  Imm,
  Zp,
  Zpx,
  Zpy,
  Abs,
  Abx,
  Aby,
  Inx,
  Iny,
  Rel,
}

struct Machine {
  pc: u32,
  p: u32,
  a: u32,
  sp: u32,
  x: u32,
  y: u32,
  mem: Vec<u8>,
}

const C: u32 = 0x01;
const Z: u32 = 0x02;
const V: u32 = 0x40;
const N: u32 = 0x80;

fn decode(code: u8) -> Option<(&'static str, Mode)> {
  let found = match code {
    0x00 => ("BRK", Mode::Imp),
    0x18 => ("CLC", Mode::Imp),
    0x38 => ("SEC", Mode::Imp),
    0x60 => ("RTS", Mode::Imp),
    0x8A => ("TXA", Mode::Imp),
    0xAA => ("TAX", Mode::Imp),
    0xCA => ("DEX", Mode::Imp),
    0xE8 => ("INX", Mode::Imp),
    0x0A => ("ASL", Mode::Acc),
    0x06 => ("ASL", Mode::Zp),
    0x16 => ("ASL", Mode::Zpx),
    0x0E => ("ASL", Mode::Abs),
    0x1E => ("ASL", Mode::Abx),
    0x10 => ("BPL", Mode::Rel),
    0x90 => ("BCC", Mode::Rel),
    0xB0 => ("BCS", Mode::Rel),
    0xD0 => ("BNE", Mode::Rel),
    0xF0 => ("BEQ", Mode::Rel),
    0x20 => ("JSR", Mode::Abs),
    0xE0 => ("CPX", Mode::Imm),
    0xE4 => ("CPX", Mode::Zp),
    0xEC => ("CPX", Mode::Abs),
    0xA2 => ("LDX", Mode::Imm),
    0xA6 => ("LDX", Mode::Zp),
    0xB6 => ("LDX", Mode::Zpy),
    0xAE => ("LDX", Mode::Abs),
    0xBE => ("LDX", Mode::Aby),
    0xA0 => ("LDY", Mode::Imm),
    0xA4 => ("LDY", Mode::Zp),
    0xB4 => ("LDY", Mode::Zpx),
    0xAC => ("LDY", Mode::Abs),
    0xBC => ("LDY", Mode::Abx),
    0x86 => ("STX", Mode::Zp),
    0x96 => ("STX", Mode::Zpy),
    0x8E => ("STX", Mode::Abs),
    0x84 => ("STY", Mode::Zp),
    0x94 => ("STY", Mode::Zpx),
    0x8C => ("STY", Mode::Abs),
    _ => {
      // the instructions with the eight modes of the accumulator
      let name = match code & 0xE0 {
        0x20 => "AND",
        0x60 => "ADC",
        0x80 => "STA",
        0xA0 => "LDA",
        0xC0 => "CMP",
        0xE0 => "SBC",
        _ => return None,
      };
      let mode = match code & 0x1F {
        0x09 => Mode::Imm,
        0x05 => Mode::Zp,
        0x15 => Mode::Zpx,
        0x0D => Mode::Abs,
        0x1D => Mode::Abx,
        0x19 => Mode::Aby,
        0x01 => Mode::Inx,
        0x11 => Mode::Iny,
        _ => return None,
      };
      if name == "STA" && mode == Mode::Imm {
        return None;
      }
      (name, mode)
    }
  };
  Some(found)
}

impl Machine {
  fn rd(&self, addr: u32) -> u32 {
    self.mem[(addr & 0xFFFF) as usize] as u32
  }

  fn rd16(&self, addr: u32) -> u32 {
    self.rd(addr) + 256 * self.rd(addr + 1)
  }

  fn wr(&mut self, addr: u32, value: u32) {
    self.mem[(addr & 0xFFFF) as usize] = (value & 0xFF) as u8;
  }

  fn flag(&mut self, mask: u32, on: bool) {
    if on {
      self.p |= mask;
    } else {
      self.p &= !mask & 0xFF;
    }
  }

  fn nz(&mut self, value: u32) {
    self.flag(Z, value & 0xFF == 0);
    self.flag(N, value & 0x80 != 0);
  }

  fn operand(&self, mode: Mode) -> u32 {
    let at_pc = self.rd(self.pc);
    let address = match mode {
      Mode::Imm | Mode::Rel => self.pc,
      Mode::Zp => at_pc,
      Mode::Zpx => (at_pc + self.x) % 256,
      Mode::Zpy => (at_pc + self.y) % 256,
      Mode::Abs => self.rd16(self.pc),
      Mode::Abx => self.rd16(self.pc) + self.x,
      Mode::Aby => self.rd16(self.pc) + self.y,
      Mode::Inx => self.rd16((at_pc + self.x) % 256),
      Mode::Iny => self.rd16(at_pc) + self.y,
      Mode::Imp | Mode::Acc => unreachable!(),
    };
    address & 0xFFFF
  }

  fn length(mode: Mode) -> u32 {
    match mode {
      Mode::Imp | Mode::Acc => 1,
      Mode::Abs | Mode::Abx | Mode::Aby => 3,
      _ => 2,
    }
  }

  fn step(&mut self) -> Result<StepOutcome, CpuError> {
    let code = self.rd(self.pc) as u8;
    self.pc = (self.pc + 1) & 0xFFFF;
    let (name, mode) = match decode(code) {
      Some(found) => found,
      None => return Err(CpuError::UnsupportedOpcode(code)),
    };
    if name == "BRK" {
      return Ok(StepOutcome::Halted);
    }
    let before = self.pc;
    let addr = if mode == Mode::Imp || mode == Mode::Acc { 0 } else { self.operand(mode) };
    let m = self.rd(addr);
    match name {
      "ADC" => {
        let sum = self.a + m;
        self.a = sum & 0xFF;
        self.nz(sum);
        self.flag(C, sum > 0xFF);
        self.flag(V, sum > 0xFF);
      }
      "SBC" => {
        let borrow = self.a < m;
        self.a = (self.a + 256 - m) & 0xFF;
        let a = self.a;
        self.nz(a);
        self.flag(C, !borrow);
        self.flag(V, borrow);
      }
      "AND" => {
        self.a &= m;
        let a = self.a;
        self.nz(a);
      }
      "ASL" => {
        let value = if mode == Mode::Acc { self.a } else { m };
        self.a = (value * 2) & 0xFF;
        let a = self.a;
        self.nz(a);
        self.flag(C, value & 0x80 != 0);
      }
      "BCC" | "BCS" | "BEQ" | "BNE" | "BPL" => {
        let taken = match name {
          "BCC" => self.p & C == 0,
          "BCS" => self.p & C != 0,
          "BEQ" => self.p & Z != 0,
          "BNE" => self.p & Z == 0,
          _ => self.p & N == 0,
        };
        if taken {
          let step = (m + 1) & 0xFF;
          let signed = if step >= 0x80 { step + 0x1_0000 - 0x100 } else { step };
          self.pc = (self.pc + signed) & 0xFFFF;
        }
      }
      "CLC" => self.flag(C, false),
      "SEC" => self.flag(C, true),
      "CMP" => {
        self.flag(C, self.a >= m);
        self.nz(self.a + 256 - m);
      }
      "CPX" => {
        self.flag(C, self.x >= m);
        self.flag(Z, self.x == m);
        self.flag(N, self.x & 0x80 != 0);
      }
      "DEX" => {
        self.x = (self.x + 255) & 0xFF;
        let x = self.x;
        self.nz(x);
      }
      "INX" => {
        self.x = (self.x + 1) & 0xFF;
        let x = self.x;
        self.nz(x);
      }
      "JSR" => {
        let back = (self.pc + 1) & 0xFFFF;
        self.wr(0x100 + self.sp, back >> 8);
        self.sp = (self.sp + 255) & 0xFF;
        self.wr(0x100 + self.sp, back);
        self.sp = (self.sp + 255) & 0xFF;
        self.pc = addr;
      }
      "RTS" => {
        self.sp = (self.sp + 1) & 0xFF;
        let low = self.rd(0x100 + self.sp);
        self.sp = (self.sp + 1) & 0xFF;
        let high = self.rd(0x100 + self.sp);
        self.pc = (low + 256 * high + 1) & 0xFFFF;
      }
      "LDA" => {
        self.a = m;
        self.nz(m);
      }
      "LDX" => {
        self.x = m;
        self.nz(m);
      }
      "LDY" => {
        self.y = m;
        self.nz(m);
      }
      "STA" => self.wr(addr, self.a),
      "STX" => self.wr(addr, self.x),
      "STY" => self.wr(addr, self.y),
      "TAX" => {
        self.x = self.a;
        let x = self.x;
        self.nz(x);
      }
      "TXA" => {
        self.a = self.x;
        let a = self.a;
        self.nz(a);
      }
      _ => unreachable!(),
    }
    if self.pc == before {
      self.pc = (self.pc + Self::length(mode) - 1) & 0xFFFF;
    }
    Ok(StepOutcome::Continue)
  }
}

struct Random(u64);

impl Random {
  fn next(&mut self) -> u64 {
    self.0 ^= self.0 << 13;
    self.0 ^= self.0 >> 7;
    self.0 ^= self.0 << 17;
    self.0
  }

  fn byte(&mut self) -> u8 {
    (self.next() >> 24) as u8
  }
}

fn registers(cpu: &CPU) -> [u32; 6] {
  [
    cpu.program_counter as u32,
    cpu.status as u32,
    cpu.accumulator as u32,
    cpu.stack_pointer as u32,
    cpu.register_x as u32,
    cpu.register_y as u32,
  ]
}

fn run_both(random: &mut Random, supported_only: bool, steps: usize) {
  let supported: Vec<u8> = cpu_op_codes().iter().map(|opcode| opcode.code).collect();
  let mut cpu = CPU::new();
  let mut memory = vec![0u8; 0x1_0000];
  for (addr, cell) in memory.iter_mut().enumerate() {
    let byte = if supported_only && random.byte() < 0x60 {
      supported[random.next() as usize % supported.len()]
    } else {
      random.byte()
    };
    *cell = byte;
    cpu.mem_write(addr as u16, byte);
  }
  cpu.program_counter = (random.next() >> 16) as u16;
  cpu.status = random.byte();
  cpu.accumulator = random.byte();
  cpu.stack_pointer = random.byte();
  cpu.register_x = random.byte();
  cpu.register_y = random.byte();
  let [pc, p, a, sp, x, y] = registers(&cpu);
  let mut machine = Machine { pc, p, a, sp, x, y, mem: memory };

  for turn in 0..steps {
    let opcode = machine.rd(machine.pc);
    let expected = machine.step();
    let outcome = cpu.step();
    assert_eq!(outcome, expected, "turn {} opcode {:02x}", turn, opcode);
    assert_eq!(
      registers(&cpu),
      [machine.pc, machine.p, machine.a, machine.sp, machine.x, machine.y],
      "turn {} opcode {:02x}",
      turn,
      opcode
    );
    if outcome != Ok(StepOutcome::Continue) {
      break;
    }
  }
  for addr in 0..=0xFFFFu16 {
    assert_eq!(cpu.mem_read(addr), machine.mem[addr as usize], "address {:04x}", addr);
  }
}

#[test]
fn the_engine_agrees_with_a_plain_interpreter_on_random_memory() {
  let mut random = Random(0x9E37_79B9_7F4A_7C15);
  for _ in 0..150 {
    run_both(&mut random, false, 40);
  }
}

#[test]
fn the_engine_agrees_with_a_plain_interpreter_on_random_programs() {
  let mut random = Random(0x0123_4567_89AB_CDEF);
  for _ in 0..150 {
    run_both(&mut random, true, 400);
  }
}

#[test]
fn the_plain_interpreter_knows_the_bytes_of_the_catalogue() {
  let table = cpu_op_codes();
  for code in 0..=255u8 {
    let listed = table.iter().find(|opcode| opcode.code == code);
    match (decode(code), listed) {
      (Some((name, mode)), Some(opcode)) => {
        assert_eq!(name, opcode.name);
        assert_eq!(Machine::length(mode), opcode.bytes as u32);
      }
      (None, None) => {}
      (mine, _) => panic!("{:02x}: {:?}", code, mine),
    }
  }
}
