//! The host's side of the memory map: the screen that a program paints
//! and the keys that it reads.
//!
//! A program shows a picture by writing colour numbers into the screen
//! cells, one byte for each cell of a square of 32 by 32, and finds the
//! code of the last key in one byte of page zero. The host, which owns
//! the window and the keyboard, calls these functions between two
//! instructions.
use vstd::prelude::*;
use crate::cpu::{HookAction, CPU};
use crate::state::CpuState;

verus! {

/// The first screen cell.
pub const SCREEN_START: u16 = 0x0200;

/// The number of screen cells: the cells end where programs are loaded.
pub const SCREEN_CELLS: usize = 0x0400;

/// The byte in which the program finds the code of the last key.
pub const KEY_ADDR: u16 = 0x00FF;

/// The colours that a screen cell can show.
#[derive(Debug, PartialEq, Eq, Structural, Clone, Copy)]
pub enum Color {
    Black,
    White,
    Grey,
    Red,
    Green,
    Blue,
    Magenta,
    Yellow,
    Cyan,
}

/// What the host saw happen at the window and the keyboard.
#[derive(Debug, PartialEq, Eq, Structural, Clone, Copy)]
pub enum HostEvent {
    /// The window was closed.
    Quit,
    /// Escape was pressed.
    Escape,
    /// W was pressed.
    KeyW,
    /// S was pressed.
    KeyS,
    /// A was pressed.
    KeyA,
    /// D was pressed.
    KeyD,
    /// Anything else.
    Other,
}

/// The colours of the numbers 0 to 14, in turn.
pub open spec fn palette() -> Seq<Color> {
    seq![
        Color::Black,
        Color::White,
        Color::Grey,
        Color::Red,
        Color::Green,
        Color::Blue,
        Color::Magenta,
        Color::Yellow,
        Color::Cyan,
        Color::Grey,
        Color::Red,
        Color::Green,
        Color::Blue,
        Color::Magenta,
        Color::Yellow,
    ]
}

/// The colour that the number `byte` stands for: the one that the
/// palette gives it, and cyan for every number that the palette does not
/// reach.
pub open spec fn color_of(byte: u8) -> Color {
    if byte < palette().len() {
        palette()[byte as int]
    } else {
        Color::Cyan
    }
}

/// The address of the screen cell `index`.
pub open spec fn cell_address(index: int) -> u16 {
    (SCREEN_START + index) as u16
}

/// The picture that the screen cells of `s` show, cell by cell.
pub open spec fn picture(s: CpuState) -> Seq<Color> {
    Seq::new(SCREEN_CELLS as nat, |index: int| color_of(s.read(cell_address(index))))
}

/// The code that a program finds for a key, which is the small letter of
/// the key, or `None` for an event that is no such key.
pub open spec fn key_code(event: HostEvent) -> Option<u8> {
    match event {
        HostEvent::KeyW => Some(0x77),
        HostEvent::KeyS => Some(0x73),
        HostEvent::KeyA => Some(0x61),
        HostEvent::KeyD => Some(0x64),
        _ => None,
    }
}

/// Whether the event ends the run: the window was closed, or Escape was
/// pressed.
pub open spec fn ends_run(event: HostEvent) -> bool {
    event == HostEvent::Quit || event == HostEvent::Escape
}

/// The state after the host handled `events` in turn, and what it asks
/// of the run. The first event that ends the run is the last one
/// handled. Each key before it leaves its code at `KEY_ADDR`.
pub open spec fn after_events(s: CpuState, events: Seq<HostEvent>) -> (CpuState, HookAction)
    decreases events.len(),
{
    if events.len() == 0 {
        (s, HookAction::Continue)
    } else if ends_run(events[0]) {
        (s, HookAction::Halt)
    } else {
        after_events(
            match key_code(events[0]) {
                Some(code) => s.write(KEY_ADDR, code),
                None => s,
            },
            events.skip(1),
        )
    }
}

/// The colour that the number `byte` stands for.
pub fn color(byte: u8) -> (shown: Color)
    ensures
        shown == color_of(byte),
{
    match byte {
        0 => Color::Black,
        1 => Color::White,
        2 | 9 => Color::Grey,
        3 | 10 => Color::Red,
        4 | 11 => Color::Green,
        5 | 12 => Color::Blue,
        6 | 13 => Color::Magenta,
        7 | 14 => Color::Yellow,
        _ => Color::Cyan,
    }
}

/// Brings `frame` up to the picture that the screen cells show, and says
/// whether that changed any cell of it.
pub fn read_screen_state(cpu: &CPU, frame: &mut [Color; SCREEN_CELLS]) -> (update: bool)
    ensures
        final(frame)@ == picture(cpu@),
        update == (old(frame)@ != picture(cpu@)),
{
    let mut update = false;
    let mut index: usize = 0;
    while index < SCREEN_CELLS
        invariant
            index <= SCREEN_CELLS,
            forall|i: int| 0 <= i < index ==> #[trigger] frame@[i] == picture(cpu@)[i],
            forall|i: int| index <= i < SCREEN_CELLS ==> #[trigger] frame@[i] == old(frame)@[i],
            update == exists|i: int| 0 <= i < index && #[trigger] old(frame)@[i] != picture(cpu@)[i],
        decreases SCREEN_CELLS - index,
    {
        let shown = color(cpu.mem_read(SCREEN_START + index as u16));
        if frame[index] != shown {
            frame[index] = shown;
            update = true;
        }
        index += 1;
    }
    assert(update == (old(frame)@ != picture(cpu@))) by {
        if !update {
            assert(old(frame)@ =~= picture(cpu@));
        }
    }
    update
}

/// Handles what happened at the window and the keyboard since the last
/// call: writes the code of each pressed key where the program looks for
/// it, and asks to halt at the first event that ends the run.
pub fn handle_user_input(cpu: &mut CPU, events: &Vec<HostEvent>) -> (action: HookAction)
    ensures
        (final(cpu)@, action) == after_events(old(cpu)@, events@),
{
    let mut index: usize = 0;
    assert(events@.skip(0) =~= events@);
    while index < events.len()
        invariant
            index <= events@.len(),
            after_events(cpu@, events@.skip(index as int)) == after_events(old(cpu)@, events@),
        decreases events@.len() - index,
    {
        let ghost rest = events@.skip(index as int);
        assert(rest.skip(1) =~= events@.skip(index + 1));
        match events[index] {
            HostEvent::Quit | HostEvent::Escape => {
                return HookAction::Halt;
            },
            HostEvent::KeyW => {
                cpu.mem_write(KEY_ADDR, 0x77);
            },
            HostEvent::KeyS => {
                cpu.mem_write(KEY_ADDR, 0x73);
            },
            HostEvent::KeyA => {
                cpu.mem_write(KEY_ADDR, 0x61);
            },
            HostEvent::KeyD => {
                cpu.mem_write(KEY_ADDR, 0x64);
            },
            HostEvent::Other => {},
        }
        index += 1;
    }
    HookAction::Continue
}

} // verus!
