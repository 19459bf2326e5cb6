use vstd::prelude::*;
use crate::display::{
    lemma_draw_ends, lemma_draw_pixel, lemma_draw_row_done, lemma_pixel_xor,
    lemma_sprite_bit_bound, partly_collides, partly_drawn_screen, sprite_bit, sprite_target,
};
use crate::emulator::Emulator;
use crate::error::EmulatorError;
use crate::instruction::{decode, decode_spec, Instruction};
use crate::machine::{
    fetch_spec, MachineState, FONT_START, RAM, ROM_START, SCREEN_HEIGHT, SCREEN_SIZE,
    SCREEN_WIDTH, STACK_LIMIT,
};
use crate::random::random_byte;
use crate::semantics::{
    apply_spec, blank_screen, call_spec, draw_spec, execute_spec, load_regs_spec, outcome_is,
    resume_spec, ret_spec, skip_key_spec, step_spec, store_bcd_spec, store_regs_spec,
};

verus! {

/// Two bytes, high byte first, make a 16-bit word.
proof fn lemma_word(hi: u8, lo: u8)
    ensures
        ((hi as u16) << 8 | (lo as u16)) == hi as int * 256 + lo as int,
{
    assert(((hi as u16) << 8 | (lo as u16)) == (hi as u16) * 256 + (lo as u16)) by (bit_vector);
}

/// Shifts of a byte by one place are halving and doubling; the bit that
/// falls out is the parity, or the top bit.
proof fn lemma_shifts(v: u8)
    ensures
        v >> 1 == v / 2,
        v & 1 == v % 2,
        v >> 7 == v / 128,
        (v << 1) as int == (v as int * 2) % 256,
{
    assert(v >> 1 == v / 2) by (bit_vector);
    assert(v & 1 == v % 2) by (bit_vector);
    assert(v >> 7 == v / 128) by (bit_vector);
    assert(v << 1 == ((v as u16 * 2) % 256) as u8) by (bit_vector);
}

/// The sum of two bytes, wrapped to a byte.
fn wrapping_sum(a: u8, b: u8) -> (sum: u8)
    ensures
        sum == (a + b) % 256,
{
    ((a as u16 + b as u16) % 256) as u8
}

/// The difference of two bytes, wrapped to a byte.
fn wrapping_difference(a: u8, b: u8) -> (difference: u8)
    ensures
        difference == (a - b) % 256,
{
    if a >= b {
        a - b
    } else {
        (256 - (b - a) as u16) as u8
    }
}

/// Whether the machine is about to execute `Cxkk`, the one instruction
/// that consumes a random byte.
pub open spec fn draws_random(m: MachineState) -> bool {
    m.waiting is None && fetch_spec(m) is Ok && decode_spec(fetch_spec(m)->Ok_0) matches Ok(
        Instruction::Random { .. },
    )
}

impl Emulator {
    /// Turns every pixel of the display off.
    pub fn clear_screen(&mut self)
        requires
            old(self).wf(),
        ensures
            final(self).wf(),
            final(self)@ == (MachineState { screen: blank_screen(), ..old(self)@ }),
    {
        let mut p: usize = 0;
        while p < SCREEN_SIZE
            invariant
                p <= SCREEN_SIZE,
                old(self).wf(),
                self@ == (MachineState {
                    screen: Seq::new(
                        SCREEN_SIZE as nat,
                        |q: int|
                            if q < p {
                                0u8
                            } else {
                                old(self)@.screen[q]
                            },
                    ),
                    ..old(self)@
                }),
            decreases SCREEN_SIZE - p,
        {
            self.set_pixel(p, 0);
            p += 1;
        }
    }

    /// Returns from a subroutine: the most recent return address leaves the
    /// stack and becomes the program counter.
    ///
    /// Fails with `StackUnderflow`, leaving the machine unchanged, where the
    /// stack is empty.
    pub fn ret(&mut self) -> (res: Result<(), EmulatorError>)
        requires
            old(self).wf(),
            old(self)@.waiting is None,
        ensures
            final(self).wf(),
            outcome_is(old(self)@, final(self)@, res, ret_spec(old(self)@)),
    {
        match self.pop_return() {
            Some(addr) => {
                self.set_pc(addr);
                Ok(())
            },
            None => Err(EmulatorError::StackUnderflow),
        }
    }

    /// Sets the program counter to `addr`.
    pub fn jump(&mut self, addr: u16)
        requires
            old(self).wf(),
            old(self)@.waiting is None,
        ensures
            final(self).wf(),
            final(self)@ == old(self)@.goto(addr as int),
    {
        self.set_pc(addr)
    }

    /// Calls the subroutine at `fn_addr`: the address of the instruction
    /// after the current one is pushed, and `fn_addr` becomes the program
    /// counter.
    ///
    /// Fails with `StackOverflow`, leaving the machine unchanged, where the
    /// stack already holds `STACK_LIMIT` addresses.
    pub fn call(&mut self, fn_addr: u16) -> (res: Result<(), EmulatorError>)
        requires
            old(self).wf(),
            old(self)@.waiting is None,
            old(self)@.pc + 2 <= u16::MAX,
        ensures
            final(self).wf(),
            outcome_is(old(self)@, final(self)@, res, call_spec(old(self)@, fn_addr)),
    {
        if self.stack_depth() >= STACK_LIMIT {
            return Err(EmulatorError::StackOverflow);
        }
        let next: u16 = self.pc() + 2;
        self.push_return(next);
        self.set_pc(fn_addr);
        Ok(())
    }

    /// Moves the program counter over one instruction if `cond` holds, and
    /// leaves it where it is if not.
    pub fn cond(&mut self, cond: bool)
        requires
            old(self).wf(),
            old(self)@.waiting is None,
            old(self)@.pc + 2 <= u16::MAX,
        ensures
            final(self).wf(),
            final(self)@ == old(self)@.advance(
                if cond {
                    2
                } else {
                    0
                },
            ),
    {
        if cond {
            let next: u16 = self.pc() + 2;
            self.set_pc(next);
        }
    }

    /// Draws the sprite of `height` rows stored at `I` with its top left
    /// corner at (`base_x`, `base_y`).
    ///
    /// Each row of the sprite is one byte, its most significant bit the
    /// leftmost pixel. Coordinates wrap around the edges of the display.
    /// Every display pixel under a set sprite pixel is flipped; `VF` becomes
    /// 1 if that turned any lit pixel off and 0 if not.
    ///
    /// Fails with `OutOfBounds`, leaving the machine unchanged, where a row
    /// of the sprite lies outside memory.
    pub fn draw_screen(&mut self, base_x: u8, base_y: u8, height: u8) -> (res: Result<
        (),
        EmulatorError,
    >)
        requires
            old(self).wf(),
            height < 16,
        ensures
            final(self).wf(),
            outcome_is(
                old(self)@,
                final(self)@,
                res,
                draw_spec(old(self)@, base_x, base_y, height),
            ),
    {
        let index: usize = self.index() as usize;
        if height > 0 && index + height as usize > RAM {
            return Err(EmulatorError::OutOfBounds);
        }
        let ghost pre = self@;
        let ghost bx = base_x as int;
        let ghost by = base_y as int;
        let ghost h = height as int;
        proof {
            lemma_draw_ends(pre.screen, pre.ram, index as int, bx, by, h);
        }
        let mut flag: u8 = 0;
        let mut y_i: u8 = 0;
        while y_i < height
            invariant
                y_i <= height < 16,
                pre.wf(),
                pre == old(self)@,
                index == pre.index,
                height > 0 ==> index + height <= RAM,
                bx == base_x,
                by == base_y,
                h == height,
                flag <= 1,
                self@ == (MachineState {
                    screen: partly_drawn_screen(
                        pre.screen,
                        pre.ram,
                        index as int,
                        bx,
                        by,
                        h,
                        y_i as int,
                        0,
                    ),
                    ..pre
                }),
                flag == 1 <==> partly_collides(
                    pre.screen,
                    pre.ram,
                    index as int,
                    bx,
                    by,
                    h,
                    y_i as int,
                    0,
                ),
            decreases height - y_i,
        {
            let y: usize = (base_y as usize + y_i as usize) % SCREEN_HEIGHT;
            let row: u8 = self.ram_at(index + y_i as usize);
            let mut x_i: u8 = 0;
            while x_i < 8
                invariant
                    x_i <= 8,
                    y_i < height < 16,
                    pre.wf(),
                    index == pre.index,
                    index + height <= RAM,
                    bx == base_x,
                    by == base_y,
                    h == height,
                    y == (by + y_i) % (SCREEN_HEIGHT as int),
                    row == pre.ram[index + y_i],
                    flag <= 1,
                    self@ == (MachineState {
                        screen: partly_drawn_screen(
                            pre.screen,
                            pre.ram,
                            index as int,
                            bx,
                            by,
                            h,
                            y_i as int,
                            x_i as int,
                        ),
                        ..pre
                    }),
                    flag == 1 <==> partly_collides(
                        pre.screen,
                        pre.ram,
                        index as int,
                        bx,
                        by,
                        h,
                        y_i as int,
                        x_i as int,
                    ),
                decreases 8 - x_i,
            {
                let x: usize = (base_x as usize + x_i as usize) % SCREEN_WIDTH;
                let pixel_i: u8 = (row >> (7 - x_i)) & 1;
                let p: usize = y * SCREEN_WIDTH + x;
                proof {
                    lemma_draw_pixel(
                        pre.screen,
                        pre.ram,
                        index as int,
                        bx,
                        by,
                        h,
                        y_i as int,
                        x_i as int,
                    );
                    lemma_sprite_bit_bound(row, x_i);
                    assert(pixel_i == sprite_bit(row, x_i));
                    assert(p == sprite_target(bx, by, y_i as int, x_i as int));
                }
                let old_pixel: u8 = self.pixel_at(p);
                proof {
                    lemma_pixel_xor(old_pixel, pixel_i, flag);
                }
                flag = flag | (old_pixel & pixel_i);
                self.set_pixel(p, old_pixel ^ pixel_i);
                x_i += 1;
            }
            proof {
                lemma_draw_row_done(pre.screen, pre.ram, index as int, bx, by, h, y_i as int);
            }
            y_i += 1;
        }
        self.set_register(0xF, flag);
        Ok(())
    }

    /// Reads the instruction word at the program counter, high byte first.
    ///
    /// Fails with `OutOfBounds` where the program counter does not point at
    /// a whole instruction inside the program area.
    pub fn fetch(&self) -> (res: Result<u16, EmulatorError>)
        requires
            self.wf(),
        ensures
            res == fetch_spec(self@),
    {
        let pc: usize = self.pc() as usize;
        if pc < ROM_START || pc + 1 >= RAM {
            return Err(EmulatorError::OutOfBounds);
        }
        let hi: u8 = self.ram_at(pc);
        let lo: u8 = self.ram_at(pc + 1);
        proof {
            lemma_word(hi, lo);
        }
        Ok((hi as u16) << 8 | (lo as u16))
    }

    /// Moves the program counter to the next instruction.
    fn next_instruction(&mut self)
        requires
            old(self).wf(),
            old(self)@.waiting is None,
            old(self)@.pc + 2 <= u16::MAX,
        ensures
            final(self).wf(),
            final(self)@ == old(self)@.advance(2),
    {
        let next: u16 = self.pc() + 2;
        self.set_pc(next);
    }

    /// Skips the next instruction on the state of the key named by `Vx`.
    fn skip_key(&mut self, x: u8, pressed: bool) -> (res: Result<(), EmulatorError>)
        requires
            old(self).wf(),
            old(self)@.waiting is None,
            old(self)@.pc_in_range(),
            x < 16,
        ensures
            final(self).wf(),
            outcome_is(old(self)@, final(self)@, res, skip_key_spec(old(self)@, x, pressed)),
    {
        let key: u8 = self.register(x);
        if key >= 16 {
            return Err(EmulatorError::OutOfBounds);
        }
        let c: bool = self.key(key) == pressed;
        self.cond(c);
        self.next_instruction();
        Ok(())
    }

    /// Stores the three decimal digits of `Vx` at `I`, `I+1` and `I+2`.
    fn store_bcd(&mut self, x: u8) -> (res: Result<(), EmulatorError>)
        requires
            old(self).wf(),
            x < 16,
        ensures
            final(self).wf(),
            outcome_is(old(self)@, final(self)@, res, store_bcd_spec(old(self)@, x)),
    {
        let index: usize = self.index() as usize;
        if index + 2 >= RAM {
            return Err(EmulatorError::OutOfBounds);
        }
        let value: u8 = self.register(x);
        self.set_ram(index, value / 100);
        self.set_ram(index + 1, (value % 100) / 10);
        self.set_ram(index + 2, value % 10);
        Ok(())
    }

    /// Stores `V0..=Vx` in memory from `I` on.
    fn store_regs(&mut self, x: u8) -> (res: Result<(), EmulatorError>)
        requires
            old(self).wf(),
            x < 16,
        ensures
            final(self).wf(),
            outcome_is(old(self)@, final(self)@, res, store_regs_spec(old(self)@, x)),
    {
        let index: usize = self.index() as usize;
        if index + x as usize >= RAM {
            return Err(EmulatorError::OutOfBounds);
        }
        let ghost pre = self@;
        let mut r: u8 = 0;
        while r <= x
            invariant
                r <= x + 1,
                x < 16,
                pre.wf(),
                index == pre.index,
                index + x < RAM,
                self@ == (MachineState {
                    ram: Seq::new(
                        RAM as nat,
                        |a: int|
                            if index <= a < index + r {
                                pre.regs[a - index]
                            } else {
                                pre.ram[a]
                            },
                    ),
                    ..pre
                }),
            decreases x + 1 - r,
        {
            let value: u8 = self.register(r);
            self.set_ram(index + r as usize, value);
            r += 1;
        }
        assert(self@.ram =~= store_regs_spec(pre, x)->Ok_0.ram);
        Ok(())
    }

    /// Loads `V0..=Vx` from memory from `I` on.
    fn load_regs(&mut self, x: u8) -> (res: Result<(), EmulatorError>)
        requires
            old(self).wf(),
            x < 16,
        ensures
            final(self).wf(),
            outcome_is(old(self)@, final(self)@, res, load_regs_spec(old(self)@, x)),
    {
        let index: usize = self.index() as usize;
        if index + x as usize >= RAM {
            return Err(EmulatorError::OutOfBounds);
        }
        let ghost pre = self@;
        let mut r: u8 = 0;
        while r <= x
            invariant
                r <= x + 1,
                x < 16,
                pre.wf(),
                index == pre.index,
                index + x < RAM,
                self@ == (MachineState {
                    regs: Seq::new(
                        16,
                        |q: int|
                            if q < r {
                                pre.ram[index + q]
                            } else {
                                pre.regs[q]
                            },
                    ),
                    ..pre
                }),
            decreases x + 1 - r,
        {
            let value: u8 = self.ram_at(index + r as usize);
            self.set_register(r, value);
            r += 1;
        }
        assert(self@.regs =~= load_regs_spec(pre, x)->Ok_0.regs);
        Ok(())
    }

    /// Executes a register instruction: loads, arithmetic, logic, shifts
    /// and the random number.
    fn arithmetic(&mut self, instr: Instruction, random: u8)
        requires
            old(self).wf(),
            old(self)@.waiting is None,
            old(self)@.pc_in_range(),
            instr.valid(),
            instr.is_arithmetic(),
        ensures
            final(self).wf(),
            apply_spec(old(self)@, instr, random) == Ok::<MachineState, EmulatorError>(
                final(self)@,
            ),
    {
        match instr {
            Instruction::LoadImm { x, kk } => {
                self.set_register(x, kk);
            },
            Instruction::AddImm { x, kk } => {
                let sum: u8 = wrapping_sum(self.register(x), kk);
                self.set_register(x, sum);
            },
            Instruction::Move { x, y } => {
                let vy: u8 = self.register(y);
                self.set_register(x, vy);
            },
            Instruction::Or { x, y } => {
                let value: u8 = self.register(x) | self.register(y);
                self.set_register(x, value);
            },
            Instruction::And { x, y } => {
                let value: u8 = self.register(x) & self.register(y);
                self.set_register(x, value);
            },
            Instruction::Xor { x, y } => {
                let value: u8 = self.register(x) ^ self.register(y);
                self.set_register(x, value);
            },
            Instruction::AddReg { x, y } => {
                let vx: u8 = self.register(x);
                let vy: u8 = self.register(y);
                self.set_register(x, wrapping_sum(vx, vy));
                self.set_register(0xF, if vx as u16 + vy as u16 > 255 { 1 } else { 0 });
            },
            Instruction::SubReg { x, y } => {
                let vx: u8 = self.register(x);
                let vy: u8 = self.register(y);
                self.set_register(x, wrapping_difference(vx, vy));
                self.set_register(0xF, if vx >= vy { 1 } else { 0 });
            },
            Instruction::SubReversed { x, y } => {
                let vx: u8 = self.register(x);
                let vy: u8 = self.register(y);
                self.set_register(x, wrapping_difference(vy, vx));
                self.set_register(0xF, if vy >= vx { 1 } else { 0 });
            },
            Instruction::ShiftRight { x } => {
                let vx: u8 = self.register(x);
                proof {
                    lemma_shifts(vx);
                }
                self.set_register(x, vx >> 1);
                self.set_register(0xF, vx & 1);
            },
            Instruction::ShiftLeft { x } => {
                let vx: u8 = self.register(x);
                proof {
                    lemma_shifts(vx);
                }
                self.set_register(x, vx << 1);
                self.set_register(0xF, vx >> 7);
            },
            Instruction::Random { x, kk } => {
                self.set_register(x, random & kk);
            },
            _ => {},
        }
        self.next_instruction();
    }

    /// Executes an instruction on the address register, the timers, the
    /// key wait or memory.
    fn peripheral(&mut self, instr: Instruction) -> (res: Result<(), EmulatorError>)
        requires
            old(self).wf(),
            old(self)@.waiting is None,
            old(self)@.pc_in_range(),
            instr.valid(),
            instr.is_peripheral(),
        ensures
            final(self).wf(),
            forall|random: u8|
                outcome_is(
                    old(self)@,
                    final(self)@,
                    res,
                    #[trigger] apply_spec(old(self)@, instr, random),
                ),
    {
        match instr {
            Instruction::LoadIndex { addr } => {
                self.set_index(addr);
            },
            Instruction::Draw { x, y, n } => {
                let vx: u8 = self.register(x);
                let vy: u8 = self.register(y);
                match self.draw_screen(vx, vy, n) {
                    Ok(_) => {},
                    Err(e) => {
                        return Err(e);
                    },
                }
            },
            Instruction::ReadDelay { x } => {
                let value: u8 = self.delay_timer();
                self.set_register(x, value);
            },
            Instruction::WaitKey { x } => {
                self.set_waiting(Some(x));
                return Ok(());
            },
            Instruction::SetDelay { x } => {
                let value: u8 = self.register(x);
                self.set_delay_timer(value);
            },
            Instruction::SetSound { x } => {
                let value: u8 = self.register(x);
                self.set_sound_timer(value);
            },
            Instruction::AddIndex { x } => {
                let sum: u32 = self.index() as u32 + self.register(x) as u32;
                self.set_index((sum % 0x10000) as u16);
            },
            Instruction::LoadGlyph { x } => {
                let glyph: u16 = FONT_START as u16 + 5 * (self.register(x) as u16);
                self.set_index(glyph);
            },
            Instruction::StoreBcd { x } => {
                match self.store_bcd(x) {
                    Ok(_) => {},
                    Err(e) => {
                        return Err(e);
                    },
                }
            },
            Instruction::StoreRegs { x } => {
                match self.store_regs(x) {
                    Ok(_) => {},
                    Err(e) => {
                        return Err(e);
                    },
                }
            },
            Instruction::LoadRegs { x } => {
                match self.load_regs(x) {
                    Ok(_) => {},
                    Err(e) => {
                        return Err(e);
                    },
                }
            },
            _ => {},
        }
        self.next_instruction();
        Ok(())
    }

    /// Executes a valid instruction on a running machine whose program
    /// counter is in range.
    fn dispatch(&mut self, instr: Instruction, random: u8) -> (res: Result<(), EmulatorError>)
        requires
            old(self).wf(),
            old(self)@.waiting is None,
            old(self)@.pc_in_range(),
            instr.valid(),
        ensures
            final(self).wf(),
            outcome_is(old(self)@, final(self)@, res, apply_spec(old(self)@, instr, random)),
    {
        match instr {
            Instruction::ClearScreen => {
                self.clear_screen();
                self.next_instruction();
                Ok(())
            },
            Instruction::Return => self.ret(),
            Instruction::Jump { addr } => {
                self.jump(addr);
                Ok(())
            },
            Instruction::Call { addr } => self.call(addr),
            Instruction::SkipEqImm { x, kk } => {
                let c: bool = self.register(x) == kk;
                self.cond(c);
                self.next_instruction();
                Ok(())
            },
            Instruction::SkipNeImm { x, kk } => {
                let c: bool = self.register(x) != kk;
                self.cond(c);
                self.next_instruction();
                Ok(())
            },
            Instruction::SkipEqReg { x, y } => {
                let c: bool = self.register(x) == self.register(y);
                self.cond(c);
                self.next_instruction();
                Ok(())
            },
            Instruction::SkipNeReg { x, y } => {
                let c: bool = self.register(x) != self.register(y);
                self.cond(c);
                self.next_instruction();
                Ok(())
            },
            Instruction::JumpOffset { addr } => {
                let target: u16 = self.register(0) as u16 + addr;
                self.jump(target);
                Ok(())
            },
            Instruction::SkipKeyPressed { x } => self.skip_key(x, true),
            Instruction::SkipKeyNotPressed { x } => self.skip_key(x, false),
            Instruction::LoadImm { .. }
            | Instruction::AddImm { .. }
            | Instruction::Move { .. }
            | Instruction::Or { .. }
            | Instruction::And { .. }
            | Instruction::Xor { .. }
            | Instruction::AddReg { .. }
            | Instruction::SubReg { .. }
            | Instruction::SubReversed { .. }
            | Instruction::ShiftRight { .. }
            | Instruction::ShiftLeft { .. }
            | Instruction::Random { .. } => {
                self.arithmetic(instr, random);
                Ok(())
            },
            Instruction::LoadIndex { .. }
            | Instruction::Draw { .. }
            | Instruction::ReadDelay { .. }
            | Instruction::WaitKey { .. }
            | Instruction::SetDelay { .. }
            | Instruction::SetSound { .. }
            | Instruction::AddIndex { .. }
            | Instruction::LoadGlyph { .. }
            | Instruction::StoreBcd { .. }
            | Instruction::StoreRegs { .. }
            | Instruction::LoadRegs { .. } => self.peripheral(instr),
        }
    }

    /// Executes one instruction on a running machine.
    ///
    /// `random` is the byte that `Cxkk` takes as its random number; no other
    /// instruction looks at it. An instruction with a field out of its
    /// width fails with `InvalidInstruction` and a program counter outside
    /// the program area with `OutOfBounds`; otherwise the machine changes as
    /// the instruction says, or fails with the instruction's own error. On
    /// every failure the machine is unchanged.
    pub fn execute(&mut self, instr: Instruction, random: u8) -> (res: Result<(), EmulatorError>)
        requires
            old(self).wf(),
            old(self)@.waiting is None,
        ensures
            final(self).wf(),
            outcome_is(old(self)@, final(self)@, res, execute_spec(old(self)@, instr, random)),
    {
        if !instr.is_valid() {
            return Err(EmulatorError::InvalidInstruction);
        }
        let pc: usize = self.pc() as usize;
        if pc < ROM_START || pc + 1 >= RAM {
            return Err(EmulatorError::OutOfBounds);
        }
        self.dispatch(instr, random)
    }

    /// Lets a machine that waits for a key go on, if a key came.
    fn resume(&mut self, target: u8, pressed_button: Option<u8>)
        requires
            old(self).wf(),
            old(self)@.waiting == Some(target),
        ensures
            final(self).wf(),
            final(self)@ == resume_spec(old(self)@, target, pressed_button),
    {
        match pressed_button {
            Some(button) => {
                self.set_waiting(None);
                self.set_register(target, button);
                self.next_instruction();
            },
            None => {},
        }
    }

    /// Performs one step of the machine, with `random` as the random byte.
    ///
    /// A machine that waits for a key stores `pressed_button` in the awaited
    /// register, as the byte it is given, stops waiting and moves to the
    /// next instruction; with no key it does nothing. A running machine
    /// does not look at `pressed_button`: it fetches the instruction at the
    /// program counter, decodes and executes it. On every failure the
    /// machine is unchanged.
    pub fn step(&mut self, pressed_button: Option<u8>, random: u8) -> (res: Result<
        (),
        EmulatorError,
    >)
        requires
            old(self).wf(),
        ensures
            final(self).wf(),
            outcome_is(
                old(self)@,
                final(self)@,
                res,
                step_spec(old(self)@, pressed_button, random),
            ),
    {
        match self.waiting_for() {
            Some(target) => {
                self.resume(target, pressed_button);
                Ok(())
            },
            None => {
                let opcode: u16 = match self.fetch() {
                    Ok(opcode) => opcode,
                    Err(e) => {
                        return Err(e);
                    },
                };
                let instr: Instruction = match decode(opcode) {
                    Ok(instr) => instr,
                    Err(e) => {
                        return Err(e);
                    },
                };
                self.dispatch(instr, random)
            },
        }
    }

    /// Performs one step of the machine, drawing the random byte of `Cxkk`
    /// from the thread-local random number generator.
    ///
    /// The step is the one that [`step`](Emulator::step) performs with some
    /// random byte: with every byte alike, unless the instruction at hand is
    /// `Cxkk`.
    pub fn run(&mut self, pressed_button: Option<u8>) -> (res: Result<(), EmulatorError>)
        requires
            old(self).wf(),
        ensures
            final(self).wf(),
            exists|random: u8|
                outcome_is(
                    old(self)@,
                    final(self)@,
                    res,
                    #[trigger] step_spec(old(self)@, pressed_button, random),
                ),
            !draws_random(old(self)@) ==> forall|random: u8|
                outcome_is(
                    old(self)@,
                    final(self)@,
                    res,
                    #[trigger] step_spec(old(self)@, pressed_button, random),
                ),
    {
        match self.waiting_for() {
            Some(target) => {
                self.resume(target, pressed_button);
                assert(outcome_is(
                    old(self)@,
                    self@,
                    Ok(()),
                    step_spec(old(self)@, pressed_button, 0u8),
                ));
                Ok(())
            },
            None => {
                let opcode: u16 = match self.fetch() {
                    Ok(opcode) => opcode,
                    Err(e) => {
                        assert(outcome_is(
                            old(self)@,
                            self@,
                            Err(e),
                            step_spec(old(self)@, pressed_button, 0u8),
                        ));
                        return Err(e);
                    },
                };
                let instr: Instruction = match decode(opcode) {
                    Ok(instr) => instr,
                    Err(e) => {
                        assert(outcome_is(
                            old(self)@,
                            self@,
                            Err(e),
                            step_spec(old(self)@, pressed_button, 0u8),
                        ));
                        return Err(e);
                    },
                };
                let random: u8 = match instr {
                    Instruction::Random { .. } => random_byte(),
                    _ => 0,
                };
                let res = self.dispatch(instr, random);
                assert(outcome_is(
                    old(self)@,
                    self@,
                    res,
                    step_spec(old(self)@, pressed_button, random),
                ));
                res
            },
        }
    }
}

} // verus!
