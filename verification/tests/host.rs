use nes_emulator_rust::cpu::{HookAction, CPU};
use nes_emulator_rust::host::{
  color, handle_user_input, read_screen_state, Color, HostEvent, KEY_ADDR, SCREEN_CELLS,
  SCREEN_START,
};

#[test]
fn each_number_has_its_colour() {
  let expected = [
    Color::Black,
    Color::White,
    Color::Grey,
    Color::Red,
    Color::Green,
    Color::Blue,
    Color::Magenta,
    Color::Yellow,
    Color::Cyan,
    Color::Grey,
    Color::Red,
    Color::Green,
    Color::Blue,
    Color::Magenta,
    Color::Yellow,
    Color::Cyan,
  ];
  for (byte, shown) in expected.iter().enumerate() {
    assert_eq!(color(byte as u8), *shown, "{}", byte);
  }
  for byte in 15..=255u8 {
    assert_eq!(color(byte), Color::Cyan);
  }
}

#[test]
fn the_screen_lies_between_page_one_and_the_load_origin() {
  assert_eq!(SCREEN_START, 0x0200);
  assert_eq!(SCREEN_START as usize + SCREEN_CELLS, 0x0600);
  assert_eq!(SCREEN_CELLS, 32 * 32);
}

#[test]
fn the_frame_follows_the_screen_cells() {
  let mut cpu = CPU::new();
  let mut frame = [Color::Black; SCREEN_CELLS];

  // a screen of zeros is black: nothing to do
  assert!(!read_screen_state(&cpu, &mut frame));

  cpu.mem_write(0x0200, 1);
  cpu.mem_write(0x0321, 3);
  cpu.mem_write(0x05FF, 7);
  // neighbours of the screen are no part of it
  cpu.mem_write(0x01FF, 5);
  cpu.mem_write(0x0600, 5);
  assert!(read_screen_state(&cpu, &mut frame));
  assert_eq!(frame[0], Color::White);
  assert_eq!(frame[0x121], Color::Red);
  assert_eq!(frame[0x3FF], Color::Yellow);
  assert_eq!(frame.iter().filter(|shown| **shown != Color::Black).count(), 3);

  // the same picture again
  assert!(!read_screen_state(&cpu, &mut frame));

  // another number for the same colour changes nothing
  cpu.mem_write(0x0321, 10);
  assert!(!read_screen_state(&cpu, &mut frame));

  cpu.mem_write(0x0321, 0);
  assert!(read_screen_state(&cpu, &mut frame));
  assert_eq!(frame[0x121], Color::Black);
}

#[test]
fn a_program_paints_and_the_frame_shows_it() {
  // LDX #$00; TXA; STA $0200,X; INX; BNE to the TXA; BRK
  let program = vec![0xA2, 0x00, 0x8A, 0x9D, 0x00, 0x02, 0xE8, 0xD0, 0xF9, 0x00];
  let mut cpu = CPU::new();
  cpu.load_and_run(program).unwrap();
  let mut frame = [Color::Black; SCREEN_CELLS];

  assert!(read_screen_state(&cpu, &mut frame));

  for cell in 0..SCREEN_CELLS {
    let expected = if cell < 0x100 { color(cell as u8) } else { Color::Black };
    assert_eq!(frame[cell], expected, "cell {}", cell);
  }
}

#[test]
fn keys_leave_their_letter_for_the_program() {
  let cases = [
    (HostEvent::KeyW, b'w'),
    (HostEvent::KeyS, b's'),
    (HostEvent::KeyA, b'a'),
    (HostEvent::KeyD, b'd'),
  ];
  for (event, letter) in cases {
    let mut cpu = CPU::new();
    assert_eq!(handle_user_input(&mut cpu, &vec![event]), HookAction::Continue);
    assert_eq!(cpu.mem_read(KEY_ADDR), letter);
  }
}

#[test]
fn the_last_key_wins_and_other_events_change_nothing() {
  let mut cpu = CPU::new();
  cpu.mem_write(KEY_ADDR, 0x11);
  assert_eq!(handle_user_input(&mut cpu, &vec![]), HookAction::Continue);
  assert_eq!(handle_user_input(&mut cpu, &vec![HostEvent::Other]), HookAction::Continue);
  assert_eq!(cpu.mem_read(KEY_ADDR), 0x11);

  let events = vec![HostEvent::KeyW, HostEvent::Other, HostEvent::KeyD, HostEvent::Other];
  assert_eq!(handle_user_input(&mut cpu, &events), HookAction::Continue);
  assert_eq!(cpu.mem_read(KEY_ADDR), 0x64);
}

#[test]
fn closing_the_window_or_escape_ends_the_run_at_once() {
  for end in [HostEvent::Quit, HostEvent::Escape] {
    let mut cpu = CPU::new();
    let events = vec![HostEvent::KeyA, end, HostEvent::KeyS];
    assert_eq!(handle_user_input(&mut cpu, &events), HookAction::Halt);
    // the key before is handled, the key after is not
    assert_eq!(cpu.mem_read(KEY_ADDR), 0x61);
  }
}
