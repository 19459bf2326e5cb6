use vstd::prelude::*;
use crate::error::EmulatorError;
use crate::machine::{
    boot_state, fonts, MachineState, FONTS, FONT_LENGTH, FONT_START, RAM, ROM_START, SCREEN_SIZE,
    SCREEN_WIDTH,
};

verus! {

/// The virtual machine: memory, registers, call stack, display, timers and
/// key pad, owned by one value.
#[derive(Debug)]
pub struct Emulator {
    ram: Vec<u8>,
    // Memory address register
    i: u16,
    pc: u16,
    screen: Vec<u8>,
    input: [bool; 16],
    stack: Vec<u16>,
    regs: [u8; 16],
    delay_timer: u8,
    sound_timer: u8,
    wait_for_input: bool,
    wait_register: u8,
    timer_nanos: u64,
}

/// Memory in which `bytes` were written from address `start` on.
pub open spec fn ram_with(ram: Seq<u8>, start: int, bytes: Seq<u8>) -> Seq<u8> {
    Seq::new(
        ram.len(),
        |a: int|
            if start <= a < start + bytes.len() {
                bytes[a - start]
            } else {
                ram[a]
            },
    )
}

impl Emulator {
    /// The machine as mathematics.
    pub closed spec fn view(&self) -> MachineState {
        MachineState {
            ram: self.ram@,
            regs: self.regs@,
            index: self.i,
            pc: self.pc,
            stack: self.stack@,
            screen: self.screen@,
            keys: self.input@,
            delay_timer: self.delay_timer,
            sound_timer: self.sound_timer,
            waiting: if self.wait_for_input {
                Some(self.wait_register)
            } else {
                None
            },
            timer_nanos: self.timer_nanos as nat,
        }
    }

    /// The machine satisfies the invariant of its model.
    pub open spec fn wf(&self) -> bool {
        self@.wf()
    }

    /// Creates a machine with the glyph table installed and `rom` loaded at
    /// the program base, ready to execute its first instruction.
    ///
    /// Fails with `LoadError`, and only then, where `rom` is larger than the
    /// memory above the program base.
    pub fn new(rom: Box<[u8]>) -> (res: Result<Emulator, EmulatorError>)
        ensures
            match res {
                Ok(e) => rom@.len() <= RAM - ROM_START && e.wf() && e@ == boot_state(rom@),
                Err(err) => rom@.len() > RAM - ROM_START && err == EmulatorError::LoadError,
            },
    {
        let mut e = Emulator {
            ram: vec![0u8; RAM],
            i: 0,
            pc: ROM_START as u16,
            stack: Vec::new(),
            screen: vec![0u8; SCREEN_SIZE],
            input: [false; 16],
            regs: [0; 16],
            delay_timer: 0,
            sound_timer: 0,
            wait_for_input: false,
            wait_register: 0,
            timer_nanos: 0,
        };
        e.install_fontset();
        match e.load(&rom) {
            Ok(_) => {
                assert(e@.ram =~= boot_state(rom@).ram);
                assert(e@.regs =~= boot_state(rom@).regs);
                assert(e@.screen =~= boot_state(rom@).screen);
                assert(e@.keys =~= boot_state(rom@).keys);
                assert(e@.stack =~= boot_state(rom@).stack);
                Ok(e)
            },
            Err(err) => Err(err),
        }
    }

    /// Writes the glyph table at `FONT_START`. Nothing else changes.
    pub fn install_fontset(&mut self)
        requires
            old(self)@.ram.len() == RAM,
        ensures
            final(self)@ == (MachineState {
                ram: ram_with(old(self)@.ram, FONT_START as int, fonts()),
                ..old(self)@
            }),
    {
        let mut k: usize = 0;
        while k < FONT_LENGTH
            invariant
                k <= FONT_LENGTH,
                self@ == (MachineState {
                    ram: ram_with(old(self)@.ram, FONT_START as int, fonts().take(k as int)),
                    ..old(self)@
                }),
                old(self)@.ram.len() == RAM,
            decreases FONT_LENGTH - k,
        {
            self.ram[k + FONT_START] = FONTS[k];
            k += 1;
            assert(self@.ram =~= ram_with(
                old(self)@.ram,
                FONT_START as int,
                fonts().take(k as int),
            ));
        }
        assert(fonts().take(FONT_LENGTH as int) =~= fonts());
    }

    /// Writes `program` at `ROM_START`. Nothing else changes.
    ///
    /// Fails with `LoadError`, and only then, where `program` is larger than
    /// the memory above the program base; the machine is then unchanged.
    pub fn load(&mut self, program: &[u8]) -> (res: Result<(), EmulatorError>)
        requires
            old(self).wf(),
        ensures
            final(self).wf(),
            match res {
                Ok(_) => program@.len() <= RAM - ROM_START && final(self)@ == (MachineState {
                    ram: ram_with(old(self)@.ram, ROM_START as int, program@),
                    ..old(self)@
                }),
                Err(err) => program@.len() > RAM - ROM_START && err == EmulatorError::LoadError
                    && final(self)@ == old(self)@,
            },
    {
        if program.len() > RAM - ROM_START {
            return Err(EmulatorError::LoadError);
        }
        let mut k: usize = 0;
        while k < program.len()
            invariant
                k <= program@.len() <= RAM - ROM_START,
                self@ == (MachineState {
                    ram: ram_with(old(self)@.ram, ROM_START as int, program@.take(k as int)),
                    ..old(self)@
                }),
                old(self)@.ram.len() == RAM,
            decreases program@.len() - k,
        {
            self.ram[k + ROM_START] = program[k];
            k += 1;
            assert(self@.ram =~= ram_with(
                old(self)@.ram,
                ROM_START as int,
                program@.take(k as int),
            ));
        }
        assert(program@.take(program@.len() as int) =~= program@);
        Ok(())
    }

    /// The program counter.
    pub fn pc(&self) -> (pc: u16)
        ensures
            pc == self@.pc,
    {
        self.pc
    }

    /// The address register `I`.
    pub fn index(&self) -> (index: u16)
        ensures
            index == self@.index,
    {
        self.i
    }

    /// The general register `Vx`.
    pub fn register(&self, x: u8) -> (value: u8)
        requires
            x < 16,
        ensures
            value == self@.regs[x as int],
            self@.regs.len() == 16,
    {
        self.regs[x as usize]
    }

    /// The delay timer.
    pub fn delay_timer(&self) -> (value: u8)
        ensures
            value == self@.delay_timer,
    {
        self.delay_timer
    }

    /// The sound timer: the host sounds its tone while this is not zero.
    pub fn sound_timer(&self) -> (value: u8)
        ensures
            value == self@.sound_timer,
    {
        self.sound_timer
    }

    /// The number of return addresses on the call stack.
    pub fn stack_depth(&self) -> (depth: usize)
        ensures
            depth == self@.stack.len(),
    {
        self.stack.len()
    }

    /// The register for which the machine awaits a key, if it waits.
    pub fn waiting_for(&self) -> (target: Option<u8>)
        ensures
            target == self@.waiting,
    {
        if self.wait_for_input {
            Some(self.wait_register)
        } else {
            None
        }
    }

    /// Whether key `key` of the pad is held down.
    pub fn key(&self, key: u8) -> (pressed: bool)
        requires
            key < 16,
        ensures
            pressed == self@.keys[key as int],
            self@.keys.len() == 16,
    {
        self.input[key as usize]
    }

    /// Records that key `key` of the pad went down or up. Nothing else
    /// changes.
    pub fn set_key(&mut self, key: u8, pressed: bool)
        requires
            key < 16,
        ensures
            final(self)@ == (MachineState {
                keys: old(self)@.keys.update(key as int, pressed),
                ..old(self)@
            }),
            old(self).wf() ==> final(self).wf(),
    {
        self.input[key as usize] = pressed;
        assert(self@.keys =~= old(self)@.keys.update(key as int, pressed));
    }

    /// The display: `SCREEN_WIDTH` bytes per row, row by row, each 1 for a
    /// lit pixel and 0 for a dark one.
    pub fn screen(&self) -> (pixels: &[u8])
        ensures
            pixels@ == self@.screen,
    {
        self.screen.as_slice()
    }

    /// The pixel in column `x` of row `y`: 1 if it is lit, 0 if not.
    pub fn pixel(&self, x: usize, y: usize) -> (value: u8)
        requires
            self.wf(),
            x < SCREEN_WIDTH,
            y < crate::machine::SCREEN_HEIGHT,
        ensures
            value == self@.screen[crate::display::pixel_index(x as int, y as int)],
            value <= 1,
    {
        self.screen[y * SCREEN_WIDTH + x]
    }

    /// The byte of memory at `addr`, or `OutOfBounds` where `addr` lies
    /// beyond the end of memory.
    pub fn read_memory(&self, addr: u16) -> (res: Result<u8, EmulatorError>)
        requires
            self.wf(),
        ensures
            match res {
                Ok(value) => addr < RAM && value == self@.ram[addr as int],
                Err(err) => addr >= RAM && err == EmulatorError::OutOfBounds,
            },
    {
        if (addr as usize) < RAM {
            Ok(self.ram[addr as usize])
        } else {
            Err(EmulatorError::OutOfBounds)
        }
    }

    /// Stores `value` in memory at `addr`. Fails with `OutOfBounds`, leaving
    /// the machine unchanged, where `addr` lies beyond the end of memory.
    pub fn write_memory(&mut self, addr: u16, value: u8) -> (res: Result<(), EmulatorError>)
        requires
            old(self).wf(),
        ensures
            final(self).wf(),
            match res {
                Ok(_) => addr < RAM && final(self)@ == (MachineState {
                    ram: old(self)@.ram.update(addr as int, value),
                    ..old(self)@
                }),
                Err(err) => addr >= RAM && err == EmulatorError::OutOfBounds && final(self)@
                    == old(self)@,
            },
    {
        if (addr as usize) < RAM {
            self.ram[addr as usize] = value;
            Ok(())
        } else {
            Err(EmulatorError::OutOfBounds)
        }
    }

    /// Sets the program counter; nothing else changes.
    pub(crate) fn set_pc(&mut self, pc: u16)
        ensures
            final(self)@ == (MachineState { pc, ..old(self)@ }),
    {
        self.pc = pc;
    }

    /// Sets the address register; nothing else changes.
    pub(crate) fn set_index(&mut self, index: u16)
        ensures
            final(self)@ == (MachineState { index, ..old(self)@ }),
    {
        self.i = index;
    }

    /// Sets the general register `Vx`; nothing else changes.
    pub(crate) fn set_register(&mut self, x: u8, value: u8)
        requires
            x < 16,
        ensures
            final(self)@ == old(self)@.with_reg(x as int, value),
    {
        self.regs[x as usize] = value;
        assert(self@.regs =~= old(self)@.regs.update(x as int, value));
    }

    /// Sets the delay timer; nothing else changes.
    pub(crate) fn set_delay_timer(&mut self, value: u8)
        ensures
            final(self)@ == (MachineState { delay_timer: value, ..old(self)@ }),
    {
        self.delay_timer = value;
    }

    /// Sets the sound timer; nothing else changes.
    pub(crate) fn set_sound_timer(&mut self, value: u8)
        ensures
            final(self)@ == (MachineState { sound_timer: value, ..old(self)@ }),
    {
        self.sound_timer = value;
    }

    /// The nanoseconds that are pending since the timers last counted down.
    pub(crate) fn timer_nanos(&self) -> (nanos: u64)
        ensures
            nanos == self@.timer_nanos,
    {
        self.timer_nanos
    }

    /// Sets the pending nanoseconds; nothing else changes.
    pub(crate) fn set_timer_nanos(&mut self, nanos: u64)
        ensures
            final(self)@ == (MachineState { timer_nanos: nanos as nat, ..old(self)@ }),
    {
        self.timer_nanos = nanos;
    }

    /// Starts a wait for a key for the given register, or ends the wait;
    /// nothing else changes.
    pub(crate) fn set_waiting(&mut self, target: Option<u8>)
        ensures
            final(self)@ == (MachineState { waiting: target, ..old(self)@ }),
    {
        match target {
            Some(x) => {
                self.wait_register = x;
                self.wait_for_input = true;
            },
            None => {
                self.wait_for_input = false;
            },
        }
    }

    /// Pushes a return address; nothing else changes.
    pub(crate) fn push_return(&mut self, addr: u16)
        ensures
            final(self)@ == (MachineState { stack: old(self)@.stack.push(addr), ..old(self)@ }),
    {
        self.stack.push(addr);
    }

    /// Pops the most recent return address, if there is one; nothing else
    /// changes.
    pub(crate) fn pop_return(&mut self) -> (addr: Option<u16>)
        ensures
            match addr {
                Some(a) => old(self)@.stack.len() > 0 && a == old(self)@.stack.last()
                    && final(self)@ == (MachineState {
                    stack: old(self)@.stack.drop_last(),
                    ..old(self)@
                }),
                None => old(self)@.stack.len() == 0 && final(self)@ == old(self)@,
            },
    {
        let addr = self.stack.pop();
        proof {
            if addr is Some {
                assert(self@.stack =~= old(self)@.stack.drop_last());
            } else {
                assert(self@.stack =~= old(self)@.stack);
            }
        }
        addr
    }

    /// The byte of memory at an address inside memory.
    pub(crate) fn ram_at(&self, addr: usize) -> (value: u8)
        requires
            addr < self@.ram.len(),
        ensures
            value == self@.ram[addr as int],
    {
        self.ram[addr]
    }

    /// Stores a byte at an address inside memory; nothing else changes.
    pub(crate) fn set_ram(&mut self, addr: usize, value: u8)
        requires
            addr < old(self)@.ram.len(),
        ensures
            final(self)@ == (MachineState {
                ram: old(self)@.ram.update(addr as int, value),
                ..old(self)@
            }),
    {
        self.ram[addr] = value;
    }

    /// The pixel at a position inside the display.
    pub(crate) fn pixel_at(&self, p: usize) -> (value: u8)
        requires
            p < self@.screen.len(),
        ensures
            value == self@.screen[p as int],
    {
        self.screen[p]
    }

    /// Sets the pixel at a position inside the display; nothing else
    /// changes.
    pub(crate) fn set_pixel(&mut self, p: usize, value: u8)
        requires
            p < old(self)@.screen.len(),
        ensures
            final(self)@ == (MachineState {
                screen: old(self)@.screen.update(p as int, value),
                ..old(self)@
            }),
    {
        self.screen[p] = value;
    }
}

} // verus!
