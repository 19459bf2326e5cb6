use vstd::prelude::*;
use crate::display::{collision_flag, drawn_screen};
use crate::error::EmulatorError;
use crate::instruction::{decode_spec, Instruction};
use crate::machine::{
    fetch_spec, MachineState, FONT_START, NANOS_PER_TIMER_TICK, RAM, SCREEN_SIZE, STACK_LIMIT,
};

verus! {

/// The display with every pixel off.
pub open spec fn blank_screen() -> Seq<u8> {
    Seq::new(SCREEN_SIZE as nat, |p: int| 0u8)
}

/// `00EE`: the most recent return address becomes the program counter.
pub open spec fn ret_spec(m: MachineState) -> Result<MachineState, EmulatorError> {
    if m.stack.len() == 0 {
        Err(EmulatorError::StackUnderflow)
    } else {
        Ok(MachineState { pc: m.stack.last(), stack: m.stack.drop_last(), ..m })
    }
}

/// `2nnn`: the address of the following instruction is pushed and `addr`
/// becomes the program counter.
pub open spec fn call_spec(m: MachineState, addr: u16) -> Result<MachineState, EmulatorError> {
    if m.stack.len() >= STACK_LIMIT {
        Err(EmulatorError::StackOverflow)
    } else {
        Ok(MachineState { pc: addr, stack: m.stack.push((m.pc + 2) as u16), ..m })
    }
}

/// `Dxyn` without the step to the next instruction: the sprite of `height`
/// rows at `I` is drawn at (`base_x`, `base_y`) and `VF` tells whether a lit
/// pixel went out. Fails where a row of the sprite lies outside memory.
pub open spec fn draw_spec(m: MachineState, base_x: u8, base_y: u8, height: u8) -> Result<
    MachineState,
    EmulatorError,
> {
    if height > 0 && m.index + height > RAM {
        Err(EmulatorError::OutOfBounds)
    } else {
        Ok(
            MachineState {
                screen: drawn_screen(
                    m.screen,
                    m.ram,
                    m.index as int,
                    base_x as int,
                    base_y as int,
                    height as int,
                ),
                regs: m.regs.update(
                    0xF,
                    collision_flag(
                        m.screen,
                        m.ram,
                        m.index as int,
                        base_x as int,
                        base_y as int,
                        height as int,
                    ),
                ),
                ..m
            },
        )
    }
}

/// `Ex9E` and `ExA1`: skip on the state of the key named by `Vx`. Fails
/// where `Vx` names no key.
pub open spec fn skip_key_spec(m: MachineState, x: u8, pressed: bool) -> Result<
    MachineState,
    EmulatorError,
> {
    let key = m.regs[x as int];
    if key >= 16 {
        Err(EmulatorError::OutOfBounds)
    } else {
        Ok(m.skip_if(m.keys[key as int] == pressed))
    }
}

/// `Fx33`: the hundreds, tens and ones of `Vx` go to `I`, `I+1`, `I+2`.
pub open spec fn store_bcd_spec(m: MachineState, x: u8) -> Result<MachineState, EmulatorError> {
    let value = m.regs[x as int];
    if m.index + 2 >= RAM {
        Err(EmulatorError::OutOfBounds)
    } else {
        Ok(
            MachineState {
                ram: m.ram.update(m.index as int, value / 100).update(
                    m.index + 1,
                    (value % 100) / 10,
                ).update(m.index + 2, value % 10),
                ..m
            },
        )
    }
}

/// `Fx55`: `V0..=Vx` go to memory from `I` on.
pub open spec fn store_regs_spec(m: MachineState, x: u8) -> Result<MachineState, EmulatorError> {
    if m.index + x >= RAM {
        Err(EmulatorError::OutOfBounds)
    } else {
        Ok(
            MachineState {
                ram: Seq::new(
                    RAM as nat,
                    |a: int|
                        if m.index <= a <= m.index + x {
                            m.regs[a - m.index]
                        } else {
                            m.ram[a]
                        },
                ),
                ..m
            },
        )
    }
}

/// `Fx65`: `V0..=Vx` come from memory from `I` on.
pub open spec fn load_regs_spec(m: MachineState, x: u8) -> Result<MachineState, EmulatorError> {
    if m.index + x >= RAM {
        Err(EmulatorError::OutOfBounds)
    } else {
        Ok(
            MachineState {
                regs: Seq::new(
                    16,
                    |r: int|
                        if r <= x {
                            m.ram[m.index + r]
                        } else {
                            m.regs[r]
                        },
                ),
                ..m
            },
        )
    }
}

/// The result of a fallible part of an instruction followed by the step to
/// the next instruction.
pub open spec fn then_advance(r: Result<MachineState, EmulatorError>) -> Result<
    MachineState,
    EmulatorError,
> {
    match r {
        Ok(m) => Ok(m.advance(2)),
        Err(e) => Err(e),
    }
}

/// What a valid instruction does to a machine whose program counter is in
/// range. `rnd` is the random byte that `Cxkk` consumes; no other
/// instruction looks at it.
pub open spec fn apply_spec(m: MachineState, instr: Instruction, rnd: u8) -> Result<
    MachineState,
    EmulatorError,
> {
    match instr {
        Instruction::ClearScreen => Ok(
            MachineState { screen: blank_screen(), ..m }.advance(2),
        ),
        Instruction::Return => ret_spec(m),
        Instruction::Jump { addr } => Ok(m.goto(addr as int)),
        Instruction::Call { addr } => call_spec(m, addr),
        Instruction::SkipEqImm { x, kk } => Ok(m.skip_if(m.regs[x as int] == kk)),
        Instruction::SkipNeImm { x, kk } => Ok(m.skip_if(m.regs[x as int] != kk)),
        Instruction::SkipEqReg { x, y } => Ok(m.skip_if(m.regs[x as int] == m.regs[y as int])),
        Instruction::SkipNeReg { x, y } => Ok(m.skip_if(m.regs[x as int] != m.regs[y as int])),
        Instruction::LoadImm { x, kk } => Ok(m.with_reg(x as int, kk).advance(2)),
        Instruction::AddImm { x, kk } => Ok(
            m.with_reg(x as int, ((m.regs[x as int] + kk) % 256) as u8).advance(2),
        ),
        Instruction::Move { x, y } => Ok(m.with_reg(x as int, m.regs[y as int]).advance(2)),
        Instruction::Or { x, y } => Ok(
            m.with_reg(x as int, m.regs[x as int] | m.regs[y as int]).advance(2),
        ),
        Instruction::And { x, y } => Ok(
            m.with_reg(x as int, m.regs[x as int] & m.regs[y as int]).advance(2),
        ),
        Instruction::Xor { x, y } => Ok(
            m.with_reg(x as int, m.regs[x as int] ^ m.regs[y as int]).advance(2),
        ),
        Instruction::AddReg { x, y } => {
            let sum = m.regs[x as int] + m.regs[y as int];
            Ok(
                m.with_reg_and_flag(
                    x as int,
                    (sum % 256) as u8,
                    if sum > 255 {
                        1
                    } else {
                        0
                    },
                ).advance(2),
            )
        },
        Instruction::SubReg { x, y } => {
            let vx = m.regs[x as int];
            let vy = m.regs[y as int];
            Ok(
                m.with_reg_and_flag(
                    x as int,
                    ((vx - vy) % 256) as u8,
                    if vx >= vy {
                        1
                    } else {
                        0
                    },
                ).advance(2),
            )
        },
        Instruction::SubReversed { x, y } => {
            let vx = m.regs[x as int];
            let vy = m.regs[y as int];
            Ok(
                m.with_reg_and_flag(
                    x as int,
                    ((vy - vx) % 256) as u8,
                    if vy >= vx {
                        1
                    } else {
                        0
                    },
                ).advance(2),
            )
        },
        Instruction::ShiftRight { x } => {
            let vx = m.regs[x as int];
            Ok(m.with_reg_and_flag(x as int, vx / 2, vx % 2).advance(2))
        },
        Instruction::ShiftLeft { x } => {
            let vx = m.regs[x as int];
            Ok(m.with_reg_and_flag(x as int, ((vx * 2) % 256) as u8, vx / 128).advance(2))
        },
        Instruction::LoadIndex { addr } => Ok(m.with_index(addr as int).advance(2)),
        Instruction::JumpOffset { addr } => Ok(m.goto(m.regs[0] + addr)),
        Instruction::Random { x, kk } => Ok(m.with_reg(x as int, rnd & kk).advance(2)),
        Instruction::Draw { x, y, n } => then_advance(
            draw_spec(m, m.regs[x as int], m.regs[y as int], n),
        ),
        Instruction::SkipKeyPressed { x } => skip_key_spec(m, x, true),
        Instruction::SkipKeyNotPressed { x } => skip_key_spec(m, x, false),
        Instruction::ReadDelay { x } => Ok(m.with_reg(x as int, m.delay_timer).advance(2)),
        Instruction::WaitKey { x } => Ok(MachineState { waiting: Some(x), ..m }),
        Instruction::SetDelay { x } => Ok(
            MachineState { delay_timer: m.regs[x as int], ..m }.advance(2),
        ),
        Instruction::SetSound { x } => Ok(
            MachineState { sound_timer: m.regs[x as int], ..m }.advance(2),
        ),
        Instruction::AddIndex { x } => Ok(
            m.with_index((m.index + m.regs[x as int]) % 0x10000).advance(2),
        ),
        Instruction::LoadGlyph { x } => Ok(
            m.with_index(FONT_START + 5 * m.regs[x as int]).advance(2),
        ),
        Instruction::StoreBcd { x } => then_advance(store_bcd_spec(m, x)),
        Instruction::StoreRegs { x } => then_advance(store_regs_spec(m, x)),
        Instruction::LoadRegs { x } => then_advance(load_regs_spec(m, x)),
    }
}

/// What executing `instr` does to the machine `m`: an instruction with a
/// field out of its width is refused as `InvalidInstruction`, a program
/// counter outside the program area as `OutOfBounds`; otherwise
/// [`apply_spec`] decides.
pub open spec fn execute_spec(m: MachineState, instr: Instruction, rnd: u8) -> Result<
    MachineState,
    EmulatorError,
> {
    if !instr.valid() {
        Err(EmulatorError::InvalidInstruction)
    } else if !m.pc_in_range() {
        Err(EmulatorError::OutOfBounds)
    } else {
        apply_spec(m, instr, rnd)
    }
}

/// A machine that waits for a key: with a key it stores the key in the
/// awaited register, stops waiting and moves to the next instruction;
/// without one it stays as it is.
pub open spec fn resume_spec(m: MachineState, target: u8, pressed: Option<u8>) -> MachineState {
    match pressed {
        Some(key) => MachineState { waiting: None, ..m.with_reg(target as int, key) }.advance(2),
        None => m,
    }
}

/// One step of the machine: a waiting machine resumes or stays; a running
/// machine fetches, decodes and executes one instruction.
pub open spec fn step_spec(m: MachineState, pressed: Option<u8>, rnd: u8) -> Result<
    MachineState,
    EmulatorError,
> {
    match m.waiting {
        Some(target) => Ok(resume_spec(m, target, pressed)),
        None => match fetch_spec(m) {
            Err(e) => Err(e),
            Ok(opcode) => match decode_spec(opcode) {
                Err(e) => Err(e),
                Ok(instr) => execute_spec(m, instr, rnd),
            },
        },
    }
}

/// A timer after `fires` intervals have passed: it counts down to zero and
/// stays there.
pub open spec fn counted_down(timer: u8, fires: int) -> u8 {
    if fires >= timer {
        0
    } else {
        (timer - fires) as u8
    }
}

/// The machine after `elapsed` more nanoseconds of wall-clock time: the
/// pending time grows by `elapsed`, both timers count down once for every
/// whole interval in it, and what is left of an interval stays pending.
pub open spec fn tick_spec(m: MachineState, elapsed: nat) -> MachineState {
    let total = m.timer_nanos + elapsed;
    let fires = total / (NANOS_PER_TIMER_TICK as nat);
    MachineState {
        delay_timer: counted_down(m.delay_timer, fires as int),
        sound_timer: counted_down(m.sound_timer, fires as int),
        timer_nanos: total % (NANOS_PER_TIMER_TICK as nat),
        ..m
    }
}

/// The outcome of an operation that either moves the machine from `pre`
/// to a new state or fails and leaves it alone: `post` and `res` are what
/// `expected` prescribes.
pub open spec fn outcome_is(
    pre: MachineState,
    post: MachineState,
    res: Result<(), EmulatorError>,
    expected: Result<MachineState, EmulatorError>,
) -> bool {
    match expected {
        Ok(next) => res is Ok && post == next,
        Err(e) => res == Err::<(), EmulatorError>(e) && post == pre,
    }
}

} // verus!
