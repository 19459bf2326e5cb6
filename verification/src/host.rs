use vstd::prelude::*;
use crate::emulator::Emulator;
use crate::machine::{MachineState, SCREEN_SIZE};

verus! {

/// Number of bytes that one pixel takes in a rendered image.
pub const BYTES_PER_PIXEL: usize = 4;

/// Number of bytes of a rendered image.
pub const IMAGE_SIZE: usize = 8192;

/// A colour as red, green and blue.
#[derive(Debug, Clone, Copy, PartialEq, Eq, Structural)]
pub struct Color {
    pub r: u8,
    pub g: u8,
    pub b: u8,
}

/// The colour in which a pixel of the given value is shown: white if it is
/// lit, black if it is dark.
pub open spec fn color_of(pixel: u8) -> Color {
    if pixel == 1 {
        Color { r: 255, g: 255, b: 255 }
    } else {
        Color { r: 0, g: 0, b: 0 }
    }
}

/// The display as an image of four bytes per pixel, row by row: blue,
/// green, red, and a fourth byte that is zero.
pub open spec fn image_of(screen: Seq<u8>) -> Seq<u8> {
    Seq::new(
        IMAGE_SIZE as nat,
        |k: int|
            {
                let color = color_of(screen[k / (BYTES_PER_PIXEL as int)]);
                let channel = k % (BYTES_PER_PIXEL as int);
                if channel == 0 {
                    color.b
                } else if channel == 1 {
                    color.g
                } else if channel == 2 {
                    color.r
                } else {
                    0u8
                }
            },
    )
}

/// The keys that modify others, as held down or not.
#[derive(Debug, Clone, Copy, PartialEq, Eq, Structural)]
pub struct Modifiers {
    pub shift: bool,
    pub ctrl: bool,
    pub alt: bool,
    pub gui: bool,
}

impl Modifiers {
    /// Whether any modifier is held down.
    pub open spec fn any(self) -> bool {
        self.shift || self.ctrl || self.alt || self.gui
    }
}

/// What the host reports to the machine. A key is named by the ASCII code of
/// the character on it, letters in lower case.
#[derive(Debug, Clone, Copy, PartialEq, Eq, Structural)]
pub enum HostEvent {
    /// The user asked to end the session.
    Quit,
    /// A key went down.
    KeyDown { key: u8, modifiers: Modifiers },
    /// A key came up.
    KeyUp { key: u8, modifiers: Modifiers },
    /// Anything else.
    Other,
}

/// The key of the pad that a key of the keyboard stands for. The block
/// `1234`, `qwer`, `asdf`, `zxcv` of the keyboard is the pad
/// `123C`, `456D`, `789E`, `A0BF`.
pub open spec fn keypad_index_spec(key: u8) -> Option<u8> {
    if key == '1' as u8 {
        Some(0x1u8)
    } else if key == '2' as u8 {
        Some(0x2u8)
    } else if key == '3' as u8 {
        Some(0x3u8)
    } else if key == '4' as u8 {
        Some(0xCu8)
    } else if key == 'q' as u8 {
        Some(0x4u8)
    } else if key == 'w' as u8 {
        Some(0x5u8)
    } else if key == 'e' as u8 {
        Some(0x6u8)
    } else if key == 'r' as u8 {
        Some(0xDu8)
    } else if key == 'a' as u8 {
        Some(0x7u8)
    } else if key == 's' as u8 {
        Some(0x8u8)
    } else if key == 'd' as u8 {
        Some(0x9u8)
    } else if key == 'f' as u8 {
        Some(0xEu8)
    } else if key == 'z' as u8 {
        Some(0xAu8)
    } else if key == 'x' as u8 {
        Some(0x0u8)
    } else if key == 'c' as u8 {
        Some(0xBu8)
    } else if key == 'v' as u8 {
        Some(0xFu8)
    } else {
        None
    }
}

/// The key of the pad that a key of the keyboard stands for, if any.
pub fn keypad_index(key: u8) -> (index: Option<u8>)
    ensures
        index == keypad_index_spec(key),
        index matches Some(k) ==> k < 16,
{
    match key {
        0x31 => Some(0x1),
        0x32 => Some(0x2),
        0x33 => Some(0x3),
        0x34 => Some(0xC),
        0x71 => Some(0x4),
        0x77 => Some(0x5),
        0x65 => Some(0x6),
        0x72 => Some(0xD),
        0x61 => Some(0x7),
        0x73 => Some(0x8),
        0x64 => Some(0x9),
        0x66 => Some(0xE),
        0x7A => Some(0xA),
        0x78 => Some(0x0),
        0x63 => Some(0xB),
        0x76 => Some(0xF),
        _ => None,
    }
}

/// The change of the pad that an event asks for: the key of the pad and
/// whether it went down. Key events with a modifier held, and keys that
/// stand for no key of the pad, ask for none.
pub open spec fn key_change(event: HostEvent) -> Option<(u8, bool)> {
    match event {
        HostEvent::KeyDown { key, modifiers } => if modifiers.any() {
            None
        } else {
            match keypad_index_spec(key) {
                Some(k) => Some((k, true)),
                None => None,
            }
        },
        HostEvent::KeyUp { key, modifiers } => if modifiers.any() {
            None
        } else {
            match keypad_index_spec(key) {
                Some(k) => Some((k, false)),
                None => None,
            }
        },
        _ => None,
    }
}

/// Takes one event of the host into the machine and tells whether the
/// session ends.
///
/// A key of the pad that goes down is recorded as held and becomes the
/// pressed button that the next step is given; one that comes up is
/// recorded as released. Everything else leaves machine and button alone.
/// The session ends on `Quit` and on nothing else.
pub fn handle_event(
    emulator: &mut Emulator,
    pressed_button: &mut Option<u8>,
    event: HostEvent,
) -> (quit: bool)
    requires
        old(emulator).wf(),
    ensures
        final(emulator).wf(),
        quit == (event is Quit),
        match key_change(event) {
            Some((key, down)) => {
                &&& key < 16
                &&& final(emulator)@ == (MachineState {
                    keys: old(emulator)@.keys.update(key as int, down),
                    ..old(emulator)@
                })
                &&& *final(pressed_button) == (if down {
                    Some(key)
                } else {
                    *old(pressed_button)
                })
            },
            None => final(emulator)@ == old(emulator)@ && *final(pressed_button) == *old(
                pressed_button,
            ),
        },
{
    match event {
        HostEvent::Quit => true,
        HostEvent::KeyDown { key, modifiers } => {
            if !(modifiers.shift || modifiers.ctrl || modifiers.alt || modifiers.gui) {
                match keypad_index(key) {
                    Some(val) => {
                        emulator.set_key(val, true);
                        *pressed_button = Some(val);
                    },
                    None => {},
                }
            }
            false
        },
        HostEvent::KeyUp { key, modifiers } => {
            if !(modifiers.shift || modifiers.ctrl || modifiers.alt || modifiers.gui) {
                match keypad_index(key) {
                    Some(val) => {
                        emulator.set_key(val, false);
                    },
                    None => {},
                }
            }
            false
        },
        HostEvent::Other => false,
    }
}

impl Emulator {
    /// Renders the display as an image of `BYTES_PER_PIXEL` bytes per pixel,
    /// row by row: a lit pixel white, a dark one black, each as blue, green,
    /// red and a zero byte.
    pub fn screen_image(&self) -> (image: Vec<u8>)
        requires
            self.wf(),
        ensures
            image@ == image_of(self@.screen),
    {
        let mut image: Vec<u8> = Vec::with_capacity(IMAGE_SIZE);
        let mut p: usize = 0;
        while p < SCREEN_SIZE
            invariant
                p <= SCREEN_SIZE,
                self.wf(),
                image@.len() == p * BYTES_PER_PIXEL,
                image@ == image_of(self@.screen).take(p * BYTES_PER_PIXEL),
            decreases SCREEN_SIZE - p,
        {
            let shade: u8 = if self.pixel_at(p) == 1 {
                255
            } else {
                0
            };
            image.push(shade);
            image.push(shade);
            image.push(shade);
            image.push(0);
            p += 1;
            assert(image@ =~= image_of(self@.screen).take(p * BYTES_PER_PIXEL));
        }
        assert(image_of(self@.screen).take(IMAGE_SIZE as int) =~= image_of(self@.screen));
        image
    }
}

} // verus!
