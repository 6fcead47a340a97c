//! The button board of the Raspberry Pi build: two MCP23017 port expanders,
//! one reading twelve push buttons, one driving their lights.
use crate::ui::bits::{bits_of, bits_repeat, bits_set, Bits};
use vstd::prelude::*;

verus! {

/// The I2C address of the expander that reads the buttons.
pub const BUTTON_ADDRESS: u8 = 0x24;

/// The I2C address of the expander that drives the lights.
pub const LED_ADDRESS: u8 = 0x20;

/// The number of buttons.
pub const BUTTON_COUNT: usize = 12;

/// The expander pin wired to button (and light) `index`.
pub open spec fn spec_button_pin(index: nat) -> u8 {
    if index == 0 { 8 }
    else if index == 1 { 9 }
    else if index == 2 { 10 }
    else if index == 3 { 11 }
    else if index == 4 { 12 }
    else if index == 5 { 13 }
    else if index == 6 { 14 }
    else if index == 7 { 15 }
    else if index == 8 { 0 }
    else if index == 9 { 1 }
    else if index == 10 { 2 }
    else { 4 }
}

/// The expander pin wired to button (and light) `index`; there are
/// `BUTTON_COUNT` of them.
pub fn button_pin(index: usize) -> (pin: u8)
    requires
        index < BUTTON_COUNT,
    ensures
        pin == spec_button_pin(index as nat),
{
    if index == 0 { 8 }
    else if index == 1 { 9 }
    else if index == 2 { 10 }
    else if index == 3 { 11 }
    else if index == 4 { 12 }
    else if index == 5 { 13 }
    else if index == 6 { 14 }
    else if index == 7 { 15 }
    else if index == 8 { 0 }
    else if index == 9 { 1 }
    else if index == 10 { 2 }
    else { 4 }
}

/// Bit `i` of the 16-bit port value `word`, port A in the low byte.
pub open spec fn port_bit(word: u16, i: nat) -> bool {
    (word >> i) & 1u16 == 1u16
}

/// The buttons held down, from the value of the expander's two ports: the
/// inputs are pulled up, so a button reads as a cleared bit while it is
/// pressed; button `i` is bit `i`.
pub fn buttons_from_gpio(word: u16) -> (pressed: Bits)
    ensures
        bits_of(pressed) == Seq::new(BUTTON_COUNT as nat, |i: int| !port_bit(word, i as nat)),
{
    let mut formatted = bits_repeat(false, BUTTON_COUNT);
    let mut i: usize = 0;
    while i < BUTTON_COUNT
        invariant
            i <= BUTTON_COUNT,
            bits_of(formatted).len() == BUTTON_COUNT,
            forall|j: int| 0 <= j < i ==> bits_of(formatted)[j] == !port_bit(word, j as nat),
        decreases BUTTON_COUNT - i,
    {
        let state: bool = (word >> i) & 1u16 == 1u16;
        bits_set(&mut formatted, i, !state);
        i = i + 1;
    }
    assert(bits_of(formatted) =~= Seq::new(BUTTON_COUNT as nat, |i: int| !port_bit(word, i as nat)));
    formatted
}

} // verus!
