use nes_emulator_rust::cpu::CPU;

// A subtraction that needs no borrow sets carry and clears overflow; one
// that borrows sets overflow and clears carry.

#[test]
fn sbc_immediate_without_borrow_sets_carry() {
  let program = vec![0xA9, 0x22, 0xE9, 0x11, 0x00]; // LDA #$22; SBC #$11; BRK
  let mut cpu = CPU::new();

  cpu.load_and_run(program).unwrap();

  assert_eq!(cpu.status, 0b0000_0001);
  assert_eq!(cpu.accumulator, 0x11);
}

#[test]
fn sbc_immediate_with_borrow_sets_overflow_and_negative() {
  let program = vec![0xA9, 0x01, 0xE9, 0x02, 0x00]; // LDA #$01; SBC #$02; BRK
  let mut cpu = CPU::new();

  cpu.load_and_run(program).unwrap();

  assert_eq!(cpu.status, 0b1100_0000);
  assert_eq!(cpu.accumulator, 0xFF);
}

#[test]
fn sbc_immediate_of_equal_values_sets_zero_and_carry() {
  let program = vec![0xA9, 0x40, 0xE9, 0x40, 0x00]; // LDA #$40; SBC #$40; BRK
  let mut cpu = CPU::new();

  cpu.load_and_run(program).unwrap();

  assert_eq!(cpu.status, 0b0000_0011);
  assert_eq!(cpu.accumulator, 0x00);
}

#[test]
fn sbc_zeropage_subtracts_the_byte_in_page_zero() {
  let program = vec![0xA9, 0x22, 0xE5, 0x33, 0x00]; // LDA #$22; SBC $33; BRK
  let mut cpu = CPU::new();
  cpu.mem_write(0x0033, 0x11);

  cpu.load_and_run(program).unwrap();

  assert_eq!(cpu.status, 0b0000_0001);
  assert_eq!(cpu.accumulator, 0x11);
}

#[test]
fn sbc_zeropage_x_subtracts_the_indexed_byte() {
  let program = vec![0xA9, 0x22, 0xA2, 0x03, 0xF5, 0x33, 0x00]; // LDA #$22; LDX #$03; SBC $33,X; BRK
  let mut cpu = CPU::new();
  cpu.mem_write(0x0036, 0x11);

  cpu.load_and_run(program).unwrap();

  assert_eq!(cpu.status, 0b0000_0001);
  assert_eq!(cpu.accumulator, 0x11);
}

#[test]
fn sbc_absolute_subtracts_the_byte_at_the_address() {
  let program = vec![0xA9, 0x22, 0xED, 0x33, 0x44, 0x00]; // LDA #$22; SBC $4433; BRK
  let mut cpu = CPU::new();
  cpu.mem_write(0x4433, 0x11);

  cpu.load_and_run(program).unwrap();

  assert_eq!(cpu.status, 0b0000_0001);
  assert_eq!(cpu.accumulator, 0x11);
}

#[test]
fn sbc_absolute_x_subtracts_the_indexed_byte() {
  let program = vec![0xA9, 0x22, 0xA2, 0x03, 0xFD, 0x33, 0x44, 0x00]; // LDA #$22; LDX #$03; SBC $4433,X; BRK
  let mut cpu = CPU::new();
  cpu.mem_write(0x4436, 0x11);

  cpu.load_and_run(program).unwrap();

  assert_eq!(cpu.status, 0b0000_0001);
  assert_eq!(cpu.accumulator, 0x11);
}

#[test]
fn sbc_absolute_y_subtracts_the_indexed_byte() {
  let program = vec![0xA9, 0x22, 0xA0, 0x03, 0xF9, 0x33, 0x44, 0x00]; // LDA #$22; LDY #$03; SBC $4433,Y; BRK
  let mut cpu = CPU::new();
  cpu.mem_write(0x4436, 0x11);

  cpu.load_and_run(program).unwrap();

  assert_eq!(cpu.status, 0b0000_0001);
  assert_eq!(cpu.accumulator, 0x11);
}

#[test]
fn sbc_indirect_x_twice_reaches_zero() {
  // LDA #$22; LDX #$03; SBC ($33,X); SBC ($33,X); BRK
  let program = vec![0xA9, 0x22, 0xA2, 0x03, 0xE1, 0x33, 0xE1, 0x33, 0x00];
  let mut cpu = CPU::new();
  cpu.mem_write_u16(0x0036, 0x0044);
  cpu.mem_write(0x0044, 0x11);

  cpu.load_and_run(program).unwrap();

  assert_eq!(cpu.status, 0b0000_0011);
  assert_eq!(cpu.accumulator, 0x00);
}

#[test]
fn sbc_indirect_y_subtracts_the_byte_behind_the_pointer() {
  let program = vec![0xA9, 0x22, 0xA0, 0x03, 0xF1, 0x33, 0x00]; // LDA #$22; LDY #$03; SBC ($33),Y; BRK
  let mut cpu = CPU::new();
  cpu.mem_write(0x0033, 0x43);
  cpu.mem_write(0x0046, 0x11);

  cpu.load_and_run(program).unwrap();

  assert_eq!(cpu.status, 0b0000_0001);
  assert_eq!(cpu.accumulator, 0x11);
}
