use vstd::prelude::*;
use crate::error::EmulatorError;

verus! {

/// Size of the machine's memory in bytes.
pub const RAM: usize = 4096;

/// Address at which a program image is loaded and execution starts.
pub const ROM_START: usize = 0x200;

/// Address at which the glyph table is installed.
pub const FONT_START: usize = 0x50;

/// Size of the glyph table: sixteen glyphs of five rows each.
pub const FONT_LENGTH: usize = 80;

/// Width of the display in pixels.
pub const SCREEN_WIDTH: usize = 64;

/// Height of the display in pixels.
pub const SCREEN_HEIGHT: usize = 32;

/// Number of pixels of the display.
pub const SCREEN_SIZE: usize = 2048;

/// The largest number of return addresses the call stack holds. A call
/// beyond it fails with `StackOverflow`.
pub const STACK_LIMIT: usize = 16;

/// The timers count down once per this many nanoseconds (sixty times a
/// second).
pub const NANOS_PER_TIMER_TICK: u64 = 16666666;

/// The glyph table: for each hexadecimal digit a sprite of five rows, four
/// pixels wide, in the high nibble of each row.
pub const FONTS: [u8; 80] = [
    0xF0, 0x90, 0x90, 0x90, 0xF0,
    0x20, 0x60, 0x20, 0x20, 0x70,
    0xF0, 0x10, 0xF0, 0x80, 0xF0,
    0xF0, 0x10, 0xF0, 0x10, 0xF0,
    0x90, 0x90, 0xF0, 0x10, 0x10,
    0xF0, 0x80, 0xF0, 0x10, 0xF0,
    0xF0, 0x80, 0xF0, 0x90, 0xF0,
    0xF0, 0x10, 0x20, 0x40, 0x40,
    0xF0, 0x90, 0xF0, 0x90, 0xF0,
    0xF0, 0x90, 0xF0, 0x10, 0xF0,
    0xF0, 0x90, 0xF0, 0x90, 0x90,
    0xE0, 0x90, 0xE0, 0x90, 0xE0,
    0xF0, 0x80, 0x80, 0x80, 0xF0,
    0xE0, 0x90, 0x90, 0x90, 0xE0,
    0xF0, 0x80, 0xF0, 0x80, 0xF0,
    0xF0, 0x80, 0xF0, 0x80, 0x80,
];

/// The whole state of the machine, as mathematics.
#[verifier::ext_equal]
pub struct MachineState {
    /// Memory, `RAM` bytes.
    pub ram: Seq<u8>,
    /// The sixteen general registers `V0..VF`.
    pub regs: Seq<u8>,
    /// The address register `I`. It may point beyond memory: every access
    /// through it is checked.
    pub index: u16,
    /// The program counter. It may leave the program area: the next fetch
    /// is checked.
    pub pc: u16,
    /// The return addresses, the most recent call last.
    pub stack: Seq<u16>,
    /// The display, row by row, one byte (0 or 1) per pixel.
    pub screen: Seq<u8>,
    /// Which of the sixteen keys are held down.
    pub keys: Seq<bool>,
    /// The delay timer.
    pub delay_timer: u8,
    /// The sound timer.
    pub sound_timer: u8,
    /// `Some(x)` while the machine waits for a key to store in `Vx`.
    pub waiting: Option<u8>,
    /// Nanoseconds that have passed since the timers last counted down.
    pub timer_nanos: nat,
}

impl MachineState {
    /// The program counter points at a whole instruction inside the program
    /// area.
    pub open spec fn pc_in_range(self) -> bool {
        ROM_START <= self.pc && self.pc + 1 < RAM
    }

    /// The invariant of the machine: every component has its fixed size,
    /// pixels are 0 or 1, the stack respects its limit, less than one timer
    /// interval is pending, and a machine that waits for a key waits for a
    /// real register at an instruction that can be left.
    pub open spec fn wf(self) -> bool {
        &&& self.ram.len() == RAM
        &&& self.regs.len() == 16
        &&& self.stack.len() <= STACK_LIMIT
        &&& self.screen.len() == SCREEN_SIZE
        &&& forall|p: int| 0 <= p < SCREEN_SIZE ==> #[trigger] self.screen[p] <= 1
        &&& self.keys.len() == 16
        &&& self.timer_nanos < NANOS_PER_TIMER_TICK
        &&& (self.waiting matches Some(x) ==> x < 16 && self.pc_in_range())
    }

    /// The state with the program counter moved forward by `n` bytes.
    pub open spec fn advance(self, n: int) -> MachineState {
        MachineState { pc: (self.pc + n) as u16, ..self }
    }

    /// The state with the program counter set to `addr`.
    pub open spec fn goto(self, addr: int) -> MachineState {
        MachineState { pc: addr as u16, ..self }
    }

    /// The state with register `x` set to `value`.
    pub open spec fn with_reg(self, x: int, value: u8) -> MachineState {
        MachineState { regs: self.regs.update(x, value), ..self }
    }

    /// The state with register `x` set to `value` and then `VF` set to
    /// `flag`: where `x` is `VF` itself, the flag is what remains.
    pub open spec fn with_reg_and_flag(self, x: int, value: u8, flag: u8) -> MachineState {
        MachineState { regs: self.regs.update(x, value).update(0xF, flag), ..self }
    }

    /// The state with the address register set to `value`.
    pub open spec fn with_index(self, value: int) -> MachineState {
        MachineState { index: value as u16, ..self }
    }

    /// The state after the next instruction was or was not skipped.
    pub open spec fn skip_if(self, cond: bool) -> MachineState {
        self.advance(if cond { 4 } else { 2 })
    }
}

/// The glyph table as a sequence.
pub open spec fn fonts() -> Seq<u8> {
    FONTS@
}

/// The state in which the machine starts on the program `rom`: the glyph
/// table at `FONT_START`, the program at `ROM_START`, the program counter on
/// its first instruction and everything else zero.
pub open spec fn boot_state(rom: Seq<u8>) -> MachineState {
    MachineState {
        ram: Seq::new(
            RAM as nat,
            |a: int|
                if FONT_START <= a < FONT_START + FONT_LENGTH {
                    fonts()[a - FONT_START]
                } else if ROM_START <= a < ROM_START + rom.len() {
                    rom[a - ROM_START]
                } else {
                    0u8
                },
        ),
        regs: Seq::new(16, |r: int| 0u8),
        index: 0,
        pc: ROM_START as u16,
        stack: Seq::empty(),
        screen: Seq::new(SCREEN_SIZE as nat, |p: int| 0u8),
        keys: Seq::new(16, |k: int| false),
        delay_timer: 0,
        sound_timer: 0,
        waiting: None,
        timer_nanos: 0,
    }
}

/// The 16-bit word at the program counter, high byte first, or
/// `OutOfBounds` where the program counter does not point at a whole
/// instruction inside the program area.
pub open spec fn fetch_spec(m: MachineState) -> Result<u16, EmulatorError> {
    if m.pc_in_range() {
        Ok((m.ram[m.pc as int] as int * 256 + m.ram[m.pc + 1] as int) as u16)
    } else {
        Err(EmulatorError::OutOfBounds)
    }
}

} // verus!
