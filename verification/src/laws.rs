use vstd::prelude::*;
use crate::display::{
    draw_collides, drawn_screen, lemma_sprite_target, sprite_bit, sprite_col_at, sprite_covers,
    sprite_row_at, sprite_target,
};
use crate::error::EmulatorError;
use crate::instruction::{decode_spec, Instruction};
use crate::machine::{
    fetch_spec, MachineState, NANOS_PER_TIMER_TICK, SCREEN_HEIGHT, SCREEN_SIZE, STACK_LIMIT,
};
use crate::semantics::{
    blank_screen, call_spec, counted_down, draw_spec, execute_spec, ret_spec, step_spec,
    tick_spec,
};

verus! {

/// `7xkk` adds with wrap-around and touches no other register: `Vx` becomes
/// `(Vx + kk) mod 256`, and every other register, `VF` among them, keeps its
/// value.
pub proof fn law_add_immediate_wraps(m: MachineState, x: u8, kk: u8, random: u8)
    requires
        m.wf(),
        m.pc_in_range(),
        x < 16,
    ensures
        execute_spec(m, Instruction::AddImm { x, kk }, random) matches Ok(next) && {
            &&& next.regs[x as int] == (m.regs[x as int] + kk) % 256
            &&& forall|r: int| 0 <= r < 16 && r != x ==> next.regs[r] == m.regs[r]
            &&& next.pc == m.pc + 2
        },
{
}

/// `8xy4` leaves the carry in `VF`: 1 if and only if `Vx + Vy` exceeds 255,
/// and 0 otherwise, whichever registers are the operands. Unless `x` is `VF`
/// itself, `Vx` holds the sum wrapped to a byte.
pub proof fn law_add_sets_carry(m: MachineState, x: u8, y: u8, random: u8)
    requires
        m.wf(),
        m.pc_in_range(),
        x < 16,
        y < 16,
    ensures
        execute_spec(m, Instruction::AddReg { x, y }, random) matches Ok(next) && {
            &&& next.regs[0xF] == 1 <==> m.regs[x as int] + m.regs[y as int] > 255
            &&& next.regs[0xF] == 0 <==> m.regs[x as int] + m.regs[y as int] <= 255
            &&& x != 0xF ==> next.regs[x as int] == (m.regs[x as int] + m.regs[y as int]) % 256
        },
{
}

/// `8xy5` leaves not-borrow in `VF`: 1 if and only if `Vx >= Vy`, and 0
/// otherwise. Unless `x` is `VF` itself, `Vx` holds the difference `Vx - Vy`
/// wrapped to a byte.
pub proof fn law_sub_sets_not_borrow(m: MachineState, x: u8, y: u8, random: u8)
    requires
        m.wf(),
        m.pc_in_range(),
        x < 16,
        y < 16,
    ensures
        execute_spec(m, Instruction::SubReg { x, y }, random) matches Ok(next) && {
            &&& next.regs[0xF] == 1 <==> m.regs[x as int] >= m.regs[y as int]
            &&& next.regs[0xF] == 0 <==> m.regs[x as int] < m.regs[y as int]
            &&& x != 0xF ==> next.regs[x as int] == (m.regs[x as int] - m.regs[y as int]) % 256
        },
{
}

/// `8xy7` leaves not-borrow in `VF`: 1 if and only if `Vy >= Vx`, and 0
/// otherwise. Unless `x` is `VF` itself, `Vx` holds the difference `Vy - Vx`
/// wrapped to a byte.
pub proof fn law_sub_reversed_sets_not_borrow(m: MachineState, x: u8, y: u8, random: u8)
    requires
        m.wf(),
        m.pc_in_range(),
        x < 16,
        y < 16,
    ensures
        execute_spec(m, Instruction::SubReversed { x, y }, random) matches Ok(next) && {
            &&& next.regs[0xF] == 1 <==> m.regs[y as int] >= m.regs[x as int]
            &&& next.regs[0xF] == 0 <==> m.regs[y as int] < m.regs[x as int]
            &&& x != 0xF ==> next.regs[x as int] == (m.regs[y as int] - m.regs[x as int]) % 256
        },
{
}

/// The shifts leave in `VF` the bit that fell out of the value `Vx` had
/// before the instruction, also where `x` is `VF` itself: the lowest bit for
/// `8xy6`, the highest for `8xyE`. Unless `x` is `VF`, `Vx` holds the shifted
/// value.
pub proof fn law_shifts_capture_bit(m: MachineState, x: u8, random: u8)
    requires
        m.wf(),
        m.pc_in_range(),
        x < 16,
    ensures
        execute_spec(m, Instruction::ShiftRight { x }, random) matches Ok(next) && {
            &&& next.regs[0xF] == m.regs[x as int] % 2
            &&& x != 0xF ==> next.regs[x as int] == m.regs[x as int] / 2
        },
        execute_spec(m, Instruction::ShiftLeft { x }, random) matches Ok(next) && {
            &&& next.regs[0xF] == m.regs[x as int] / 128
            &&& x != 0xF ==> next.regs[x as int] == (m.regs[x as int] * 2) % 256
        },
{
}

/// A sprite pixel lands where the wrapped coordinates say: drawing flips
/// the display pixel at column `(base_x + col) mod 64` of row
/// `(base_y + row) mod 32` if the sprite's pixel (`row`, `col`) is set, and
/// keeps it if not.
pub proof fn law_sprite_pixel_lands(
    screen: Seq<u8>,
    ram: Seq<u8>,
    index: int,
    base_x: int,
    base_y: int,
    height: int,
    row: int,
    col: int,
)
    requires
        screen.len() == SCREEN_SIZE,
        forall|p: int| 0 <= p < SCREEN_SIZE ==> #[trigger] screen[p] <= 1,
        0 <= index,
        index + height <= ram.len(),
        0 <= base_x,
        0 <= base_y,
        0 <= row < height <= SCREEN_HEIGHT,
        0 <= col < 8,
    ensures
        ({
            let t = sprite_target(base_x, base_y, row, col);
            let after = drawn_screen(screen, ram, index, base_x, base_y, height);
            &&& 0 <= t < SCREEN_SIZE
            &&& sprite_bit(ram[index + row], col as u8) == 1 ==> after[t] == 1 - screen[t]
            &&& sprite_bit(ram[index + row], col as u8) != 1 ==> after[t] == screen[t]
        }),
{
    lemma_sprite_target(base_x, base_y, row, col);
}

/// A display pixel on which no pixel of the sprite lands keeps its value.
pub proof fn law_draw_keeps_other_pixels(
    screen: Seq<u8>,
    ram: Seq<u8>,
    index: int,
    base_x: int,
    base_y: int,
    height: int,
    p: int,
)
    requires
        screen.len() == SCREEN_SIZE,
        0 <= base_x,
        0 <= base_y,
        0 <= height <= SCREEN_HEIGHT,
        0 <= p < SCREEN_SIZE,
        forall|row: int, col: int|
            0 <= row < height && 0 <= col < 8 ==> p != #[trigger] sprite_target(
                base_x,
                base_y,
                row,
                col,
            ),
    ensures
        drawn_screen(screen, ram, index, base_x, base_y, height)[p] == screen[p],
{
    let row = sprite_row_at(base_y, p);
    let col = sprite_col_at(base_x, p);
    if row < height && col < 8 {
        lemma_sprite_target(base_x, base_y, row, col);
        assert(p == sprite_target(base_x, base_y, row, col));
    }
}

/// Drawing is its own inverse: the same sprite drawn twice at the same place
/// leaves the display as it was.
pub proof fn law_draw_twice_restores(m: MachineState, base_x: u8, base_y: u8, height: u8)
    requires
        m.wf(),
        height < 16,
        draw_spec(m, base_x, base_y, height) is Ok,
    ensures
        draw_spec(draw_spec(m, base_x, base_y, height)->Ok_0, base_x, base_y, height) matches Ok(
            twice,
        ) && twice.screen == m.screen,
{
    let once = draw_spec(m, base_x, base_y, height)->Ok_0;
    let twice = draw_spec(once, base_x, base_y, height)->Ok_0;
    assert(twice.screen =~= m.screen);
}

/// Whether the sprite of `height` rows at `index` has any set pixel.
pub open spec fn sprite_is_visible(ram: Seq<u8>, index: int, height: int) -> bool {
    exists|row: int, col: int|
        0 <= row < height && 0 <= col < 8 && #[trigger] sprite_bit(ram[index + row], col as u8)
            == 1
}

/// On a blank display the first draw of a sprite reports no collision; the
/// second draw of the same sprite at the same place reports one if the
/// sprite has a set pixel at all, since every pixel it had lit goes out, and
/// the display is blank again.
pub proof fn law_draw_on_blank(m: MachineState, base_x: u8, base_y: u8, height: u8)
    requires
        m.wf(),
        height < 16,
        m.screen == blank_screen(),
        draw_spec(m, base_x, base_y, height) is Ok,
    ensures
        draw_spec(m, base_x, base_y, height)->Ok_0.regs[0xF] == 0,
        draw_spec(draw_spec(m, base_x, base_y, height)->Ok_0, base_x, base_y, height) matches Ok(
            twice,
        ) && {
            &&& twice.screen == blank_screen()
            &&& twice.regs[0xF] == 1 <==> sprite_is_visible(
                m.ram,
                m.index as int,
                height as int,
            )
            &&& twice.regs[0xF] == 0 <==> !sprite_is_visible(
                m.ram,
                m.index as int,
                height as int,
            )
        },
{
    let once = draw_spec(m, base_x, base_y, height)->Ok_0;
    let twice = draw_spec(once, base_x, base_y, height)->Ok_0;
    let index = m.index as int;
    let bx = base_x as int;
    let by = base_y as int;
    let h = height as int;
    law_draw_twice_restores(m, base_x, base_y, height);
    assert(!draw_collides(m.screen, m.ram, index, bx, by, h));
    if sprite_is_visible(m.ram, index, h) {
        let (row, col) = choose|row: int, col: int|
            0 <= row < h && 0 <= col < 8 && #[trigger] sprite_bit(m.ram[index + row], col as u8)
                == 1;
        lemma_sprite_target(bx, by, row, col);
        let t = sprite_target(bx, by, row, col);
        assert(sprite_covers(once.ram, index, bx, by, h, t));
        assert(once.screen[t] == 1);
        assert(draw_collides(once.screen, once.ram, index, bx, by, h));
    }
    if draw_collides(once.screen, once.ram, index, bx, by, h) {
        let p = choose|p: int|
            0 <= p < SCREEN_SIZE && once.screen[p] == 1 && #[trigger] sprite_covers(
                once.ram,
                index,
                bx,
                by,
                h,
                p,
            );
        let row = sprite_row_at(by, p);
        let col = sprite_col_at(bx, p);
        assert(sprite_bit(m.ram[index + row], col as u8) == 1);
        assert(sprite_is_visible(m.ram, index, h));
    }
}

/// The machine after `times` calls of the timers' clock, each with
/// `elapsed` nanoseconds.
pub open spec fn ticked(m: MachineState, elapsed: nat, times: nat) -> MachineState
    decreases times,
{
    if times == 0 {
        m
    } else {
        tick_spec(ticked(m, elapsed, (times - 1) as nat), elapsed)
    }
}

/// Ticks of exactly one timer interval each count both timers down by one
/// per tick, down to zero, where they stay however many ticks follow.
pub proof fn law_timers_count_down(m: MachineState, times: nat)
    requires
        m.wf(),
    ensures
        ticked(m, NANOS_PER_TIMER_TICK as nat, times).delay_timer == counted_down(
            m.delay_timer,
            times as int,
        ),
        ticked(m, NANOS_PER_TIMER_TICK as nat, times).sound_timer == counted_down(
            m.sound_timer,
            times as int,
        ),
        ticked(m, NANOS_PER_TIMER_TICK as nat, times).timer_nanos == m.timer_nanos,
        times >= m.delay_timer ==> ticked(m, NANOS_PER_TIMER_TICK as nat, times).delay_timer == 0,
    decreases times,
{
    if times > 0 {
        law_timers_count_down(m, (times - 1) as nat);
    }
}

/// A timer at zero stays at zero whatever time passes, and no timer ever
/// grows.
pub proof fn law_timers_never_grow(m: MachineState, elapsed: nat)
    ensures
        tick_spec(m, elapsed).delay_timer <= m.delay_timer,
        tick_spec(m, elapsed).sound_timer <= m.sound_timer,
{
}

/// `Fx0A` makes the machine wait for a key for `Vx` without moving the
/// program counter or touching a register. While it waits, a step without a
/// key changes nothing; a step with a key stores the key in the awaited
/// register, moves the program counter by 2 and ends the wait.
pub proof fn law_key_wait(m: MachineState, x: u8, key: u8, random: u8)
    requires
        m.wf(),
        m.pc_in_range(),
        x < 16,
    ensures
        execute_spec(m, Instruction::WaitKey { x }, random) matches Ok(waiting) && {
            &&& waiting.wf()
            &&& waiting.waiting == Some(x)
            &&& waiting.pc == m.pc
            &&& waiting.regs == m.regs
            &&& step_spec(waiting, None, random) == Ok::<MachineState, EmulatorError>(waiting)
            &&& step_spec(waiting, Some(key), random) matches Ok(resumed) && {
                &&& resumed.regs == m.regs.update(x as int, key)
                &&& resumed.pc == m.pc + 2
                &&& resumed.waiting is None
            }
        },
{
}

/// A call followed by a return, with the stack between them as the call
/// left it, brings the program counter to the instruction after the call
/// and the stack to what it was before.
pub proof fn law_call_then_return(m: MachineState, addr: u16, later: MachineState)
    requires
        m.wf(),
        m.pc_in_range(),
        m.stack.len() < STACK_LIMIT,
        call_spec(m, addr) matches Ok(called) && later.stack == called.stack,
    ensures
        ret_spec(later) matches Ok(returned) && returned.pc == m.pc + 2 && returned.stack
            == m.stack,
{
    assert(m.stack.push((m.pc + 2) as u16).drop_last() =~= m.stack);
}

/// The machine after calls of `targets`, one inside the other.
pub open spec fn nested_calls(m: MachineState, targets: Seq<u16>) -> Result<
    MachineState,
    EmulatorError,
>
    decreases targets.len(),
{
    if targets.len() == 0 {
        Ok(m)
    } else {
        match nested_calls(m, targets.drop_last()) {
            Ok(inner) => call_spec(inner, targets.last()),
            Err(e) => Err(e),
        }
    }
}

/// The machine after `depth` returns.
pub open spec fn nested_returns(m: MachineState, depth: nat) -> Result<
    MachineState,
    EmulatorError,
>
    decreases depth,
{
    if depth == 0 {
        Ok(m)
    } else {
        match ret_spec(m) {
            Ok(outer) => nested_returns(outer, (depth - 1) as nat),
            Err(e) => Err(e),
        }
    }
}

/// Calls that fit on the stack succeed, and leave the stack longer by one
/// address each.
proof fn lemma_nested_calls(m: MachineState, targets: Seq<u16>)
    requires
        m.stack.len() + targets.len() <= STACK_LIMIT,
    ensures
        nested_calls(m, targets) matches Ok(called) && called.stack.len() == m.stack.len()
            + targets.len() && (targets.len() > 0 ==> called.stack[m.stack.len() as int] == (m.pc
            + 2) as u16) && called.stack.take(m.stack.len() as int) == m.stack,
    decreases targets.len(),
{
    if targets.len() > 0 {
        lemma_nested_calls(m, targets.drop_last());
        let inner = nested_calls(m, targets.drop_last())->Ok_0;
        let called = call_spec(inner, targets.last())->Ok_0;
        assert(called.stack.take(m.stack.len() as int) =~= inner.stack.take(
            m.stack.len() as int,
        ));
    } else {
        assert(m.stack.take(m.stack.len() as int) =~= m.stack);
    }
}

/// Returns from a stack that holds `depth` addresses above `base`, the
/// lowest of them `first`, end at `first` with the stack `base` again.
proof fn lemma_nested_returns(m: MachineState, base: Seq<u16>, first: u16, depth: nat)
    requires
        depth >= 1,
        m.stack.len() == base.len() + depth,
        m.stack.take(base.len() as int) == base,
        m.stack[base.len() as int] == first,
    ensures
        nested_returns(m, depth) == Ok::<MachineState, EmulatorError>(
            MachineState { pc: first, stack: base, ..m },
        ),
    decreases depth,
{
    let outer = ret_spec(m)->Ok_0;
    if depth == 1 {
        assert(outer.stack =~= base);
        assert(nested_returns(outer, 0) == Ok::<MachineState, EmulatorError>(outer));
    } else {
        assert(outer.stack.take(base.len() as int) =~= base);
        lemma_nested_returns(outer, base, first, (depth - 1) as nat);
    }
}

/// Calls nested to any depth that the stack allows, followed by as many
/// returns, bring the program counter to the instruction after the first
/// call and the stack to what it was before; nothing else has changed.
pub proof fn law_nested_calls_return(m: MachineState, targets: Seq<u16>)
    requires
        m.wf(),
        m.pc_in_range(),
        targets.len() >= 1,
        m.stack.len() + targets.len() <= STACK_LIMIT,
    ensures
        nested_calls(m, targets) matches Ok(called) && nested_returns(called, targets.len())
            == Ok::<MachineState, EmulatorError>(m.advance(2)),
{
    lemma_nested_calls(m, targets);
    let called = nested_calls(m, targets)->Ok_0;
    lemma_calls_touch_only_flow(m, targets);
    lemma_nested_returns(called, m.stack, (m.pc + 2) as u16, targets.len());
}

/// Calls change the program counter and the stack, and nothing else.
proof fn lemma_calls_touch_only_flow(m: MachineState, targets: Seq<u16>)
    requires
        m.stack.len() + targets.len() <= STACK_LIMIT,
    ensures
        nested_calls(m, targets) matches Ok(called) && m == (MachineState {
            pc: m.pc,
            stack: m.stack,
            ..called
        }),
    decreases targets.len(),
{
    if targets.len() > 0 {
        lemma_nested_calls(m, targets.drop_last());
        lemma_calls_touch_only_flow(m, targets.drop_last());
    }
}

/// Whether an address is even.
pub open spec fn is_even(addr: int) -> bool {
    addr % 2 == 0
}

/// The program counter and every return address on the stack are even.
pub open spec fn aligned(m: MachineState) -> bool {
    &&& is_even(m.pc as int)
    &&& forall|k: int| 0 <= k < m.stack.len() ==> is_even(#[trigger] m.stack[k] as int)
}

/// The instruction sends the program counter to no odd address: the target
/// of a jump or call is even.
pub open spec fn targets_even(m: MachineState, instr: Instruction) -> bool {
    match instr {
        Instruction::Jump { addr } | Instruction::Call { addr } => is_even(addr as int),
        Instruction::JumpOffset { addr } => is_even(m.regs[0] + addr),
        _ => true,
    }
}

/// Moving an even program counter by 0, 2 or 4 bytes inside the 16-bit
/// range leaves it even, and changes nothing else.
proof fn lemma_advance_stays_even(m: MachineState, n: int)
    requires
        aligned(m),
        n == 0 || n == 2 || n == 4,
        m.pc + n <= u16::MAX,
    ensures
        aligned(m.advance(n)),
{
    assert(m.advance(n).pc == m.pc + n);
}

/// A program whose jumps and calls go to even addresses keeps the program
/// counter even: after every instruction that completes, the program
/// counter and all return addresses are even again.
pub proof fn law_program_counter_stays_even(m: MachineState, instr: Instruction, random: u8)
    requires
        m.wf(),
        aligned(m),
        targets_even(m, instr),
        execute_spec(m, instr, random) is Ok,
    ensures
        aligned(execute_spec(m, instr, random)->Ok_0),
{
    let next = execute_spec(m, instr, random)->Ok_0;
    match instr {
        Instruction::Return => {
            assert(next.pc == m.stack[m.stack.len() - 1]);
            assert forall|k: int| 0 <= k < next.stack.len() implies is_even(
                #[trigger] next.stack[k] as int,
            ) by {
                assert(next.stack[k] == m.stack[k]);
            }
        },
        Instruction::Call { addr } => {
            assert(next.pc == addr);
            assert forall|k: int| 0 <= k < next.stack.len() implies is_even(
                #[trigger] next.stack[k] as int,
            ) by {
                if k < m.stack.len() {
                    assert(next.stack[k] == m.stack[k]);
                } else {
                    assert(next.stack[k] == m.pc + 2);
                }
            }
        },
        Instruction::Jump { addr } => {
            assert(next == m.goto(addr as int));
        },
        Instruction::JumpOffset { addr } => {
            assert(next == m.goto(m.regs[0] + addr));
            assert(next.pc == m.regs[0] + addr);
        },
        Instruction::WaitKey { .. } => {
            assert(next.pc == m.pc && next.stack == m.stack);
        },
        Instruction::SkipEqImm { .. }
        | Instruction::SkipNeImm { .. }
        | Instruction::SkipEqReg { .. }
        | Instruction::SkipNeReg { .. }
        | Instruction::SkipKeyPressed { .. }
        | Instruction::SkipKeyNotPressed { .. } => {
            assert(next == m.advance(2) || next == m.advance(4));
            lemma_advance_stays_even(m, 2);
            lemma_advance_stays_even(m, 4);
        },
        _ => {
            assert(next.pc == m.pc + 2 && next.stack == m.stack);
        },
    }
}

/// A machine that resumes from a key wait keeps an even program counter
/// even.
pub proof fn law_resume_stays_even(m: MachineState, pressed: Option<u8>, random: u8)
    requires
        m.wf(),
        aligned(m),
        m.waiting is Some,
    ensures
        step_spec(m, pressed, random) matches Ok(next) && aligned(next),
{
    let next = step_spec(m, pressed, random)->Ok_0;
    match pressed {
        Some(key) => {
            assert(next.pc == m.pc + 2 && next.stack == m.stack);
        },
        None => {},
    }
}

/// A fetched word that encodes no instruction stops the machine with
/// `InvalidInstruction`, and a legacy machine-code call with
/// `UnsupportedOpcode`, whatever key or random byte the step is given.
pub proof fn law_undecodable_word_halts(m: MachineState, pressed: Option<u8>, random: u8)
    requires
        m.waiting is None,
        fetch_spec(m) matches Ok(opcode) && decode_spec(opcode) is Err,
    ensures
        step_spec(m, pressed, random) == Err::<MachineState, EmulatorError>(
            decode_spec(fetch_spec(m)->Ok_0)->Err_0,
        ),
{
}

/// Only `Cxkk` looks at the random byte: every other instruction does the
/// same whatever the byte is.
pub proof fn law_random_byte_only_for_random(
    m: MachineState,
    instr: Instruction,
    first: u8,
    second: u8,
)
    requires
        !(instr is Random),
    ensures
        execute_spec(m, instr, first) == execute_spec(m, instr, second),
{
}

} // verus!
