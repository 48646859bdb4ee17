//! Colors whose channels are clamped to the unit interval.

use vstd::prelude::*;
use vstd::string::StringExecFns;
use crate::scalar::{Scalar, ONE_BITS, unit_interval_clamp, clamped};

verus! {

/// The lowercase form of a text, as `str::to_lowercase` gives it.
pub uninterp spec fn lowercase_of(text: Seq<char>) -> Seq<char>;

/// `str::to_lowercase` of the standard library: the text with each
/// character replaced by its lowercase form, as Unicode defines it.  The
/// result depends on the text alone; nothing more is claimed of it.
#[verifier::external_body]
fn to_lowercase(text: &str) -> (lower: String)
    ensures
        lower@ == lowercase_of(text@),
{
    text.to_lowercase()
}

/// The colors that have a name.
#[derive(Clone, Copy, Debug, PartialEq, Eq, Structural)]
pub enum ColorName {
    Black,
    White,
    Red,
    Green,
    Blue,
    Yellow,
}

impl ColorName {
    /// The name that a text spells, letter for letter.
    pub open spec fn spelled_by(text: Seq<char>) -> Option<ColorName> {
        if text == "black"@ {
            Some(ColorName::Black)
        } else if text == "white"@ {
            Some(ColorName::White)
        } else if text == "red"@ {
            Some(ColorName::Red)
        } else if text == "green"@ {
            Some(ColorName::Green)
        } else if text == "blue"@ {
            Some(ColorName::Blue)
        } else if text == "yellow"@ {
            Some(ColorName::Yellow)
        } else {
            None
        }
    }

    /// The name that a text spells, letter for letter: one of `black`,
    /// `white`, `red`, `green`, `blue` and `yellow`, in lowercase.
    pub fn from_lowercase(text: &String) -> (name: Option<ColorName>)
        ensures
            name == ColorName::spelled_by(text@),
    {
        if *text == String::from_str("black") {
            Some(ColorName::Black)
        } else if *text == String::from_str("white") {
            Some(ColorName::White)
        } else if *text == String::from_str("red") {
            Some(ColorName::Red)
        } else if *text == String::from_str("green") {
            Some(ColorName::Green)
        } else if *text == String::from_str("blue") {
            Some(ColorName::Blue)
        } else if *text == String::from_str("yellow") {
            Some(ColorName::Yellow)
        } else {
            None
        }
    }
}

/// A color of three channels.  A channel is never below zero nor above
/// one: whatever is stored went through the clamp.
#[derive(Clone, Copy, Debug)]
pub struct Color {
    red: Scalar,
    green: Scalar,
    blue: Scalar,
}

impl Color {
    #[verifier::type_invariant]
    spec fn channels_clamped(self) -> bool {
        &&& clamped(self.red) == self.red
        &&& clamped(self.green) == self.green
        &&& clamped(self.blue) == self.blue
    }

    /// The red channel.
    pub closed spec fn spec_red(&self) -> Scalar {
        self.red
    }

    /// The green channel.
    pub closed spec fn spec_green(&self) -> Scalar {
        self.green
    }

    /// The blue channel.
    pub closed spec fn spec_blue(&self) -> Scalar {
        self.blue
    }

    /// The color with the three given channels, each of them clamped.
    pub open spec fn has_channels(self, red: Scalar, green: Scalar, blue: Scalar) -> bool {
        &&& self.spec_red() == clamped(red)
        &&& self.spec_green() == clamped(green)
        &&& self.spec_blue() == clamped(blue)
    }

    /// Builds a color, clamping each channel into the unit interval.  A
    /// channel that is a NaN stays a NaN; every other one ends up between
    /// zero and one.
    pub fn new(red: Scalar, green: Scalar, blue: Scalar) -> (c: Color)
        ensures
            c.has_channels(red, green, blue),
            !red.nan() ==> c.spec_red().in_unit_interval(),
            !green.nan() ==> c.spec_green().in_unit_interval(),
            !blue.nan() ==> c.spec_blue().in_unit_interval(),
    {
        Color {
            red: unit_interval_clamp(red),
            green: unit_interval_clamp(green),
            blue: unit_interval_clamp(blue),
        }
    }

    /// The red channel.
    #[verifier::when_used_as_spec(spec_red)]
    pub fn red(&self) -> (r: Scalar)
        ensures
            r == self.spec_red(),
            clamped(r) == r,
            r.nan() || r.in_unit_interval(),
    {
        proof {
            use_type_invariant(self);
        }
        self.red
    }

    /// The blue channel.
    #[verifier::when_used_as_spec(spec_blue)]
    pub fn blue(&self) -> (r: Scalar)
        ensures
            r == self.spec_blue(),
            clamped(r) == r,
            r.nan() || r.in_unit_interval(),
    {
        proof {
            use_type_invariant(self);
        }
        self.blue
    }

    /// The green channel.
    #[verifier::when_used_as_spec(spec_green)]
    pub fn green(&self) -> (r: Scalar)
        ensures
            r == self.spec_green(),
            clamped(r) == r,
            r.nan() || r.in_unit_interval(),
    {
        proof {
            use_type_invariant(self);
        }
        self.green
    }

    /// The channels of a named color, as bit patterns of zero and one.
    pub open spec fn channels_of(name: ColorName) -> (u64, u64, u64) {
        match name {
            ColorName::Black => (0, 0, 0),
            ColorName::White => (ONE_BITS, ONE_BITS, ONE_BITS),
            ColorName::Red => (ONE_BITS, 0, 0),
            ColorName::Green => (0, ONE_BITS, 0),
            ColorName::Blue => (0, 0, ONE_BITS),
            ColorName::Yellow => (ONE_BITS, ONE_BITS, 0),
        }
    }

    /// The color has the channels of the named color.
    pub open spec fn is_named(&self, name: ColorName) -> bool {
        &&& self.spec_red().bits == Color::channels_of(name).0
        &&& self.spec_green().bits == Color::channels_of(name).1
        &&& self.spec_blue().bits == Color::channels_of(name).2
    }

    /// A name stands for one color: two colors that both have the channels
    /// of the named color are the same color.
    pub proof fn lemma_named_is_one_color(first: Color, second: Color, name: ColorName)
        requires
            first.is_named(name),
            second.is_named(name),
        ensures
            first == second,
    {
    }

    /// Reads a color from its name, whatever the case of its letters.  A
    /// text that is no name of a color comes back in the error, in
    /// lowercase.
    pub fn from_str(s: &str) -> (color: Result<Color, String>)
        ensures
            match ColorName::spelled_by(lowercase_of(s@)) {
                Some(name) => color matches Ok(c) && c.is_named(name),
                None => color matches Err(message) && message@ == lowercase_of(s@)
                    + " is not a valid color reference"@,
            },
    {
        let lower = to_lowercase(s);
        match ColorName::from_lowercase(&lower) {
            Some(name) => Ok(Color::named(name)),
            None => Err(lower.concat(" is not a valid color reference")),
        }
    }

    /// The color that goes by the given name.
    pub fn named(name: ColorName) -> (c: Color)
        ensures
            c.is_named(name),
    {
        let zero = Scalar { bits: 0 };
        let one = Scalar { bits: ONE_BITS };
        match name {
            ColorName::Black => Color { red: zero, green: zero, blue: zero },
            ColorName::White => Color { red: one, green: one, blue: one },
            ColorName::Red => Color { red: one, green: zero, blue: zero },
            ColorName::Green => Color { red: zero, green: one, blue: zero },
            ColorName::Blue => Color { red: zero, green: zero, blue: one },
            ColorName::Yellow => Color { red: one, green: one, blue: zero },
        }
    }
}

impl Default for Color {
    /// Black.
    fn default() -> (c: Color)
        ensures
            c.spec_red().bits == 0,
            c.spec_green().bits == 0,
            c.spec_blue().bits == 0,
    {
        Color::named(ColorName::Black)
    }
}

} // verus!
