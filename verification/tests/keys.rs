use chip_bert::host::{handle_event, keypad_index, HostEvent, Modifiers};
use chip_bert::{Emulator, EmulatorError, Instruction};

const NONE: Modifiers = Modifiers { shift: false, ctrl: false, alt: false, gui: false };

fn machine(rom: &[u8]) -> Emulator {
    Emulator::new(rom.to_vec().into_boxed_slice()).unwrap()
}

#[test]
fn wait_for_key_suspends_until_a_key_comes() {
    // 6A55 F30A 6B01
    let mut e = machine(&[0x6A, 0x55, 0xF3, 0x0A, 0x6B, 0x01]);
    assert_eq!(e.step(None, 0), Ok(()));
    assert_eq!(e.step(None, 0), Ok(()));
    assert_eq!(e.waiting_for(), Some(3));
    assert_eq!(e.pc(), 0x202);
    for _ in 0..20 {
        assert_eq!(e.step(None, 0), Ok(()));
        assert_eq!(e.pc(), 0x202);
        assert_eq!(e.waiting_for(), Some(3));
        assert_eq!(e.register(3), 0);
        assert_eq!(e.register(0xA), 0x55);
        assert_eq!(e.register(0xB), 0);
    }
    assert_eq!(e.step(Some(7), 0), Ok(()));
    assert_eq!(e.register(3), 7);
    assert_eq!(e.pc(), 0x204);
    assert_eq!(e.waiting_for(), None);
    // the machine runs again
    assert_eq!(e.step(None, 0), Ok(()));
    assert_eq!(e.register(0xB), 1);
    assert_eq!(e.pc(), 0x206);
}

#[test]
fn run_suspends_and_resumes_like_step() {
    let mut e = machine(&[0xF3, 0x0A]);
    assert_eq!(e.run(None), Ok(()));
    assert_eq!(e.waiting_for(), Some(3));
    assert_eq!(e.run(None), Ok(()));
    assert_eq!(e.pc(), 0x200);
    assert_eq!(e.run(Some(7)), Ok(()));
    assert_eq!(e.register(3), 7);
    assert_eq!(e.pc(), 0x202);
    assert_eq!(e.waiting_for(), None);
}

#[test]
fn a_key_given_to_a_running_machine_is_ignored() {
    let mut e = machine(&[0x63, 0x01]);
    assert_eq!(e.step(Some(9), 0), Ok(()));
    assert_eq!(e.register(3), 1);
    assert_eq!(e.waiting_for(), None);
}

#[test]
fn a_wait_at_the_last_instruction_of_memory_resumes_past_the_end() {
    let mut rom = vec![0u8; 0xE00];
    rom[0] = 0x1F;
    rom[1] = 0xFE;
    rom[0xDFE] = 0xF0;
    rom[0xDFF] = 0x0A;
    let mut e = machine(&rom);
    e.step(None, 0).unwrap();
    e.step(None, 0).unwrap();
    assert_eq!(e.waiting_for(), Some(0));
    assert_eq!(e.step(Some(0xC), 0), Ok(()));
    assert_eq!(e.register(0), 0xC);
    assert_eq!(e.pc(), 0x1000);
    assert_eq!(e.step(None, 0), Err(EmulatorError::OutOfBounds));
}

#[test]
fn skip_if_key_pressed() {
    let mut e = machine(&[]);
    e.execute(Instruction::LoadImm { x: 1, kk: 0xB }, 0).unwrap();
    let pc = e.pc();
    assert_eq!(e.execute(Instruction::SkipKeyPressed { x: 1 }, 0), Ok(()));
    assert_eq!(e.pc(), pc + 2);
    e.set_key(0xB, true);
    assert!(e.key(0xB));
    assert_eq!(e.execute(Instruction::SkipKeyPressed { x: 1 }, 0), Ok(()));
    assert_eq!(e.pc(), pc + 6);
    e.set_key(0xB, false);
    assert_eq!(e.execute(Instruction::SkipKeyPressed { x: 1 }, 0), Ok(()));
    assert_eq!(e.pc(), pc + 8);
}

#[test]
fn skip_if_key_not_pressed() {
    let mut e = machine(&[]);
    e.execute(Instruction::LoadImm { x: 1, kk: 0x0 }, 0).unwrap();
    let pc = e.pc();
    assert_eq!(e.execute(Instruction::SkipKeyNotPressed { x: 1 }, 0), Ok(()));
    assert_eq!(e.pc(), pc + 4);
    e.set_key(0, true);
    assert_eq!(e.execute(Instruction::SkipKeyNotPressed { x: 1 }, 0), Ok(()));
    assert_eq!(e.pc(), pc + 6);
}

#[test]
fn a_register_that_names_no_key_is_out_of_bounds() {
    let mut e = machine(&[]);
    e.execute(Instruction::LoadImm { x: 1, kk: 16 }, 0).unwrap();
    let pc = e.pc();
    assert_eq!(
        e.execute(Instruction::SkipKeyPressed { x: 1 }, 0),
        Err(EmulatorError::OutOfBounds)
    );
    assert_eq!(
        e.execute(Instruction::SkipKeyNotPressed { x: 1 }, 0),
        Err(EmulatorError::OutOfBounds)
    );
    assert_eq!(e.pc(), pc);
    e.execute(Instruction::LoadImm { x: 1, kk: 15 }, 0).unwrap();
    assert_eq!(e.execute(Instruction::SkipKeyPressed { x: 1 }, 0), Ok(()));
}

#[test]
fn the_keyboard_block_maps_onto_the_pad() {
    let layout = [
        (b'1', 0x1u8), (b'2', 0x2), (b'3', 0x3), (b'4', 0xC),
        (b'q', 0x4), (b'w', 0x5), (b'e', 0x6), (b'r', 0xD),
        (b'a', 0x7), (b's', 0x8), (b'd', 0x9), (b'f', 0xE),
        (b'z', 0xA), (b'x', 0x0), (b'c', 0xB), (b'v', 0xF),
    ];
    for (key, index) in layout {
        assert_eq!(keypad_index(key), Some(index));
    }
    let mapped = (0..=255u8).filter(|&k| keypad_index(k).is_some()).count();
    assert_eq!(mapped, 16);
    assert_eq!(keypad_index(b'Q'), None);
    assert_eq!(keypad_index(b'5'), None);
    assert_eq!(keypad_index(b' '), None);
    assert_eq!(keypad_index(0), None);
}

#[test]
fn key_down_holds_the_key_and_latches_the_button() {
    let mut e = machine(&[]);
    let mut pressed = None;
    let quit = handle_event(&mut e, &mut pressed, HostEvent::KeyDown { key: b'r', modifiers: NONE });
    assert!(!quit);
    assert_eq!(pressed, Some(0xD));
    assert!(e.key(0xD));
    let quit = handle_event(&mut e, &mut pressed, HostEvent::KeyDown { key: b'x', modifiers: NONE });
    assert!(!quit);
    assert_eq!(pressed, Some(0x0));
    assert!(e.key(0x0));
    assert!(e.key(0xD));
}

#[test]
fn key_up_releases_the_key_and_keeps_the_button() {
    let mut e = machine(&[]);
    let mut pressed = None;
    handle_event(&mut e, &mut pressed, HostEvent::KeyDown { key: b'r', modifiers: NONE });
    let quit = handle_event(&mut e, &mut pressed, HostEvent::KeyUp { key: b'r', modifiers: NONE });
    assert!(!quit);
    assert!(!e.key(0xD));
    assert_eq!(pressed, Some(0xD));
}

#[test]
fn key_events_with_a_modifier_are_ignored() {
    for modifiers in [
        Modifiers { shift: true, ..NONE },
        Modifiers { ctrl: true, ..NONE },
        Modifiers { alt: true, ..NONE },
        Modifiers { gui: true, ..NONE },
    ] {
        let mut e = machine(&[]);
        let mut pressed = None;
        assert!(!handle_event(&mut e, &mut pressed, HostEvent::KeyDown { key: b'q', modifiers }));
        assert_eq!(pressed, None);
        assert!(!e.key(4));
        e.set_key(4, true);
        assert!(!handle_event(&mut e, &mut pressed, HostEvent::KeyUp { key: b'q', modifiers }));
        assert!(e.key(4));
    }
}

#[test]
fn unmapped_keys_and_other_events_are_ignored() {
    let mut e = machine(&[]);
    let mut pressed = Some(3);
    assert!(!handle_event(&mut e, &mut pressed, HostEvent::KeyDown { key: b'p', modifiers: NONE }));
    assert!(!handle_event(&mut e, &mut pressed, HostEvent::KeyUp { key: b'p', modifiers: NONE }));
    assert!(!handle_event(&mut e, &mut pressed, HostEvent::Other));
    assert_eq!(pressed, Some(3));
    for k in 0..16u8 {
        assert!(!e.key(k));
    }
}

#[test]
fn quit_ends_the_session_and_nothing_else_does() {
    let mut e = machine(&[]);
    let mut pressed = None;
    assert!(handle_event(&mut e, &mut pressed, HostEvent::Quit));
    assert_eq!(pressed, None);
}

#[test]
fn the_latched_button_resumes_a_waiting_machine() {
    let mut e = machine(&[0xF5, 0x0A]);
    let mut pressed = None;
    e.run(pressed).unwrap();
    assert_eq!(e.waiting_for(), Some(5));
    handle_event(&mut e, &mut pressed, HostEvent::KeyDown { key: b'v', modifiers: NONE });
    e.run(pressed).unwrap();
    assert_eq!(e.register(5), 0xF);
    assert_eq!(e.waiting_for(), None);
}
