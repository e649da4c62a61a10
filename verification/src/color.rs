//! Colours and effect speeds, the values that lighting commands carry.

use vstd::prelude::*;
use crate::hexfmt::{hex_of_bytes, push_hex_byte};

verus! {

/// A 24-bit colour: red, green and blue, in that order.
#[derive(Clone, Copy, Debug, PartialEq, Eq, Structural)]
pub struct RgbColor(pub u8, pub u8, pub u8);

/// The speed of an effect, in the firmware's own unit.
#[derive(Clone, Copy, Debug, PartialEq, Eq, Structural)]
pub struct Speed(pub u16);

impl RgbColor {
    /// The three channels as the bytes that go on the wire.
    pub open spec fn channels(self) -> Seq<u8> {
        seq![self.0, self.1, self.2]
    }

    /// The colour as six hex digits: red, green, blue.
    pub fn to_hex(&self) -> (text: String)
        ensures
            text@ == hex_of_bytes(self.channels()),
    {
        let mut text: String = String::new();
        push_hex_byte(&mut text, self.0);
        push_hex_byte(&mut text, self.1);
        push_hex_byte(&mut text, self.2);
        text
    }
}

} // verus!
