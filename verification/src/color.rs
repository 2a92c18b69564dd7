//! Display colours of bots.

use vstd::prelude::*;
use crate::random::uniform;

verus! {

/// A colour of four channels of eight bits each.
#[derive(Clone, Copy, Debug, PartialEq, Eq, Structural)]
pub struct Color {
    pub red: u8,
    pub green: u8,
    pub blue: u8,
    pub alpha: u8,
}

/// `v` held within the range of a colour channel.
pub open spec fn channel_of(v: int) -> u8 {
    if v < 0 {
        0u8
    } else if v > 255 {
        255u8
    } else {
        v as u8
    }
}

/// `v` held within the range of a colour channel.
pub fn to_channel(v: i64) -> (r: u8)
    ensures
        r == channel_of(v as int),
{
    if v < 0 {
        0
    } else if v > 255 {
        255
    } else {
        v as u8
    }
}

/// Quotient of `a` by a positive `b`, rounded towards zero.
pub open spec fn quotient(a: int, b: int) -> int {
    if a >= 0 {
        a / b
    } else {
        -((-a) / b)
    }
}

impl Color {
    /// Opaque black.
    pub open spec fn spec_black() -> Color {
        Color { red: 0, green: 0, blue: 0, alpha: 255 }
    }

    /// Opaque black.
    pub fn black() -> (c: Color)
        ensures
            c == Color::spec_black(),
    {
        Color { red: 0, green: 0, blue: 0, alpha: 255 }
    }

    /// This colour with one of its first three channels moved by `delta` and
    /// held within the channel's range. Channel 0 is red, 1 is green, 2 is
    /// blue; any other number leaves the colour as it is.
    pub open spec fn spec_shifted(self, channel: u8, delta: int) -> Color {
        if channel == 0 {
            Color { red: channel_of(self.red + delta), ..self }
        } else if channel == 1 {
            Color { green: channel_of(self.green + delta), ..self }
        } else if channel == 2 {
            Color { blue: channel_of(self.blue + delta), ..self }
        } else {
            self
        }
    }

    /// This colour with red, green and blue multiplied by
    /// `numerator / denominator`, each product rounded towards zero and held
    /// within the channel's range.
    pub open spec fn spec_scaled(self, numerator: int, denominator: int) -> Color {
        Color {
            red: channel_of(quotient(self.red * numerator, denominator)),
            green: channel_of(quotient(self.green * numerator, denominator)),
            blue: channel_of(quotient(self.blue * numerator, denominator)),
            alpha: self.alpha,
        }
    }

    /// Creates an opaque colour from its red, green and blue values.
    pub fn new(r: u8, g: u8, b: u8) -> (c: Color)
        ensures
            c == (Color { red: r, green: g, blue: b, alpha: 255 }),
    {
        Color { red: r, green: g, blue: b, alpha: 255 }
    }

    /// The red channel.
    pub fn r(&self) -> (v: u8)
        ensures
            v == self.red,
    {
        self.red
    }

    /// The green channel.
    pub fn g(&self) -> (v: u8)
        ensures
            v == self.green,
    {
        self.green
    }

    /// The blue channel.
    pub fn b(&self) -> (v: u8)
        ensures
            v == self.blue,
    {
        self.blue
    }

    /// The alpha channel.
    pub fn a(&self) -> (v: u8)
        ensures
            v == self.alpha,
    {
        self.alpha
    }

    /// A random opaque colour.
    pub fn new_random() -> (c: Color)
        ensures
            c.alpha == 255,
    {
        let r = uniform(0, 256);
        let g = uniform(0, 256);
        let b = uniform(0, 256);
        Color::new(r as u8, g as u8, b as u8)
    }

    /// Moves one of the first three channels by `delta`, holding it within
    /// the channel's range. Alpha is never touched.
    pub fn shift(&mut self, channel: u8, delta: i16)
        ensures
            *final(self) == old(self).spec_shifted(channel, delta as int),
            final(self).alpha == old(self).alpha,
    {
        if channel == 0 {
            self.red = to_channel(self.red as i64 + delta as i64);
        } else if channel == 1 {
            self.green = to_channel(self.green as i64 + delta as i64);
        } else if channel == 2 {
            self.blue = to_channel(self.blue as i64 + delta as i64);
        }
    }

    /// Changes one randomly chosen channel out of red, green and blue by a
    /// random whole number between `-amount` and `amount`.
    pub fn mutate(&mut self, amount: u8)
        ensures
            exists|channel: u8, delta: int|
                channel < 3 && -amount <= delta <= amount && *final(self) == old(
                    self,
                ).spec_shifted(channel, delta),
            final(self).alpha == old(self).alpha,
    {
        let channel = uniform(0, 3) as u8;
        let delta = uniform(-(amount as i64), amount as i64 + 1) as i16;
        self.shift(channel, delta);
        assert(channel < 3 && -amount <= delta as int <= amount && *self == old(self).spec_shifted(
            channel,
            delta as int,
        ));
    }

    /// This colour with red, green and blue multiplied by
    /// `numerator / denominator`.
    pub fn scaled(&self, numerator: i64, denominator: i64) -> (c: Color)
        requires
            denominator > 0,
        ensures
            c == self.spec_scaled(numerator as int, denominator as int),
    {
        Color {
            red: scale_channel(self.red, numerator, denominator),
            green: scale_channel(self.green, numerator, denominator),
            blue: scale_channel(self.blue, numerator, denominator),
            alpha: self.alpha,
        }
    }
}

/// One channel multiplied by `numerator / denominator`, rounded towards zero
/// and held within the channel's range.
fn scale_channel(value: u8, numerator: i64, denominator: i64) -> (r: u8)
    requires
        denominator > 0,
    ensures
        r == channel_of(quotient(value * numerator, denominator as int)),
{
    assert(-255 * 0x8000_0000_0000_0000 <= value * numerator <= 255 * 0x8000_0000_0000_0000)
        by (nonlinear_arith)
        requires
            0 <= value <= 255,
            -0x8000_0000_0000_0000 <= numerator <= 0x8000_0000_0000_0000,
    ;
    let product: i128 = (value as i128) * (numerator as i128);
    let scaled: i128 = product / (denominator as i128);
    if scaled < 0 {
        0
    } else if scaled > 255 {
        255
    } else {
        scaled as u8
    }
}

} // verus!
