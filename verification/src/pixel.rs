//! One pixel of the output image: three 8-bit channels.

use crate::decimal::{decimal, push_decimal};
use vstd::prelude::*;
use vstd::string::StringExecFns;

verus! {

/// A colour with 8-bit red, green and blue channels.
#[derive(Clone, Copy, Debug)]
pub struct Pix {
    pub r: u8,
    pub g: u8,
    pub b: u8,
}

/// The line of text that stands for `pix` in an image file: the three
/// channels as decimal numerals, separated by single spaces, then a newline.
pub open spec fn pix_text(pix: Pix) -> Seq<char> {
    decimal(pix.r as nat) + seq![' '] + decimal(pix.g as nat) + seq![' '] + decimal(pix.b as nat)
        + seq!['\n']
}

impl Pix {
    /// A black pixel.
    pub fn new() -> (pix: Pix)
        ensures
            pix == (Pix { r: 0, g: 0, b: 0 }),
    {
        Pix { r: 0, g: 0, b: 0 }
    }

    /// Overwrites all three channels.
    pub fn set(&mut self, r: u8, g: u8, b: u8)
        ensures
            *final(self) == (Pix { r, g, b }),
    {
        self.r = r;
        self.g = g;
        self.b = b;
    }

    /// The pixel as a line of text.
    pub fn to_string(&self) -> (text: String)
        ensures
            text@ == pix_text(*self),
    {
        proof {
            reveal_strlit(" ");
            reveal_strlit("\n");
        }
        let mut text = String::new();
        push_decimal(&mut text, self.r as usize);
        text.append(" ");
        push_decimal(&mut text, self.g as usize);
        text.append(" ");
        push_decimal(&mut text, self.b as usize);
        text.append("\n");
        assert(text@ =~= pix_text(*self));
        text
    }
}

impl core::ops::Add for Pix {
    type Output = Pix;

    /// Adds channel by channel.
    fn add(self, other: Pix) -> (sum: Pix) {
        Pix { r: self.r + other.r, g: self.g + other.g, b: self.b + other.b }
    }
}

impl vstd::std_specs::ops::AddSpecImpl for Pix {
    open spec fn obeys_add_spec() -> bool {
        true
    }

    /// No channel may leave the range of eight bits.
    open spec fn add_req(self, other: Pix) -> bool {
        self.r + other.r <= u8::MAX && self.g + other.g <= u8::MAX && self.b + other.b <= u8::MAX
    }

    open spec fn add_spec(self, other: Pix) -> Pix {
        Pix {
            r: (self.r + other.r) as u8,
            g: (self.g + other.g) as u8,
            b: (self.b + other.b) as u8,
        }
    }
}

impl core::ops::Sub for Pix {
    type Output = Pix;

    /// Subtracts channel by channel.
    fn sub(self, other: Pix) -> (difference: Pix) {
        Pix { r: self.r - other.r, g: self.g - other.g, b: self.b - other.b }
    }
}

impl vstd::std_specs::ops::SubSpecImpl for Pix {
    open spec fn obeys_sub_spec() -> bool {
        true
    }

    /// No channel may fall below zero.
    open spec fn sub_req(self, other: Pix) -> bool {
        self.r >= other.r && self.g >= other.g && self.b >= other.b
    }

    open spec fn sub_spec(self, other: Pix) -> Pix {
        Pix {
            r: (self.r - other.r) as u8,
            g: (self.g - other.g) as u8,
            b: (self.b - other.b) as u8,
        }
    }
}

impl core::ops::AddAssign for Pix {
    /// Adds `other` to the pixel, channel by channel.
    fn add_assign(&mut self, other: Pix)
        requires
            old(self).r + other.r <= u8::MAX,
            old(self).g + other.g <= u8::MAX,
            old(self).b + other.b <= u8::MAX,
        ensures
            final(self).r == old(self).r + other.r,
            final(self).g == old(self).g + other.g,
            final(self).b == old(self).b + other.b,
    {
        self.r = self.r + other.r;
        self.g = self.g + other.g;
        self.b = self.b + other.b;
    }
}

impl core::ops::SubAssign for Pix {
    /// Subtracts `other` from the pixel, channel by channel.
    fn sub_assign(&mut self, other: Pix)
        requires
            old(self).r >= other.r,
            old(self).g >= other.g,
            old(self).b >= other.b,
        ensures
            final(self).r == old(self).r - other.r,
            final(self).g == old(self).g - other.g,
            final(self).b == old(self).b - other.b,
    {
        self.r = self.r - other.r;
        self.g = self.g - other.g;
        self.b = self.b - other.b;
    }
}

} // verus!
