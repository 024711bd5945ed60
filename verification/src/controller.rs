//! The standard controller: eight buttons behind a shift register.
//!
//! The controller does not look at a keyboard itself. Whoever owns it says
//! which buttons are down at the moment of each access, as eight flags in the
//! order of `Buttons::id`.
use vstd::prelude::*;
use crate::helper::bit;

verus! {

/// Number of buttons.
pub const BUTTON_COUNT: usize = 8;

/// The buttons of a controller, in the order in which they are shifted out.
#[derive(Clone, Copy, Debug, PartialEq, Eq, Structural)]
pub enum Buttons {
    A,
    B,
    Select,
    Start,
    Up,
    Down,
    Left,
    Right,
}

impl Buttons {
    /// The place of a button in the shift register.
    pub open spec fn index(self) -> int {
        match self {
            Buttons::A => 0,
            Buttons::B => 1,
            Buttons::Select => 2,
            Buttons::Start => 3,
            Buttons::Up => 4,
            Buttons::Down => 5,
            Buttons::Left => 6,
            Buttons::Right => 7,
        }
    }

    /// The place of a button in the shift register.
    pub fn id(&self) -> (n: usize)
        ensures
            n == self.index(),
    {
        match self {
            Buttons::A => 0,
            Buttons::B => 1,
            Buttons::Select => 2,
            Buttons::Start => 3,
            Buttons::Up => 4,
            Buttons::Down => 5,
            Buttons::Left => 6,
            Buttons::Right => 7,
        }
    }
}

/// A controller.
#[derive(Clone, Copy, Debug, PartialEq, Eq, Structural)]
pub struct Controller {
    /// While set, the shift register follows the buttons.
    pub strobe: bool,
    /// The buttons latched, button `i` in bit `i`.
    pub key_state: u32,
}

/// The first `n` buttons as a number: button `i` counts `2^i` when down.
pub open spec fn buttons_mask(pressed: Seq<bool>, n: nat) -> int
    decreases n,
{
    if n == 0 {
        0
    } else {
        buttons_mask(pressed, (n - 1) as nat) + bit(pressed[n - 1]) * (1u32 << ((n - 1) as u32))
    }
}

/// What a read returns: bit 0 is the A button itself while strobe is set,
/// else the lowest bit latched; bit 6 is always set.
pub open spec fn read_value(c: Controller, pressed: Seq<bool>) -> u8 {
    if c.strobe {
        (0x40 + bit(pressed[0])) as u8
    } else {
        (0x40 + c.key_state % 2) as u8
    }
}

/// The controller after a read: the latch moves down by one bit.
pub open spec fn after_read(c: Controller) -> Controller {
    Controller { key_state: c.key_state / 2, ..c }
}

/// The controller after `b` was written to its strobe line: strobe follows
/// bit 0 of `b`, and while strobe is clear the buttons are latched.
pub open spec fn after_strobe(c: Controller, b: u8, pressed: Seq<bool>) -> Controller {
    if b % 2 == 1 {
        Controller { strobe: true, ..c }
    } else {
        Controller { strobe: false, key_state: buttons_mask(pressed, 8) as u32 }
    }
}

/// Setting bit `i` of a number below `2^i`.
proof fn lemma_set_button(state: u32, down: u32, i: u32)
    by (bit_vector)
    requires
        i < 8,
        down <= 1,
        state < (1u32 << i),
    ensures
        state | (down << i) == state + down * (1u32 << i),
        (state | (down << i)) < (1u32 << ((i + 1) as u32)),
{
}

/// Reading one bit of a latch.
proof fn lemma_read_bits(state: u32, low: u8)
    by (bit_vector)
    requires
        low <= 1,
    ensures
        state >> 1 == state / 2,
        state & 1 == state % 2,
        low | 0x40 == 0x40 + low,
{
}

impl Controller {
    /// A controller with strobe clear and nothing latched.
    pub fn new() -> (c: Controller)
        ensures
            c == (Controller { strobe: false, key_state: 0 }),
    {
        Controller { strobe: false, key_state: 0 }
    }

    /// Reads the next button. `pressed` says which buttons are down now.
    pub fn read(&mut self, pressed: &[bool; 8]) -> (value: u8)
        ensures
            value == read_value(*old(self), pressed@),
            *final(self) == after_read(*old(self)),
    {
        let low: u8 = if self.strobe {
            if pressed[Buttons::A.id()] {
                1
            } else {
                0
            }
        } else {
            #[verifier::truncate]
            ((self.key_state & 1) as u8)
        };
        proof {
            lemma_read_bits(self.key_state, if low <= 1 { low } else { 0 });
        }
        self.key_state >>= 1;
        low | 0x40
    }

    /// Writes `b` to the strobe line. `pressed` says which buttons are down
    /// now.
    pub fn set_strobe(&mut self, b: u8, pressed: &[bool; 8])
        ensures
            *final(self) == after_strobe(*old(self), b, pressed@),
    {
        assert(b & 1 == b % 2) by (bit_vector);
        self.strobe = (b & 1) != 0;
        if !self.strobe {
            self.key_state = 0;
            let mut i: usize = 0;
            assert(0 < (1u32 << 0u32)) by (bit_vector);
            while i < BUTTON_COUNT
                invariant
                    i <= BUTTON_COUNT,
                    !self.strobe,
                    self.key_state == buttons_mask(pressed@, i as nat),
                    i < 8 ==> self.key_state < (1u32 << (i as u32)),
                decreases BUTTON_COUNT - i,
            {
                let is_pressed: u32 = if pressed[i] {
                    1
                } else {
                    0
                };
                proof {
                    lemma_set_button(self.key_state, is_pressed, i as u32);
                }
                self.key_state |= is_pressed << (i as u32);
                i += 1;
            }
        }
    }
}

} // verus!
