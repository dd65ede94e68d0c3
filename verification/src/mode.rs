//! The modes a lamp can show.

use std::str::FromStr;
use vstd::prelude::*;
use vstd::utf8::is_ascii_chars;

use crate::text::same_text;

verus! {

/// What the tube shows.
#[derive(Debug, Clone, Copy, PartialEq, Eq, Structural)]
pub enum LampMode {
    /// Nothing: every LED is dark.
    Off,
    /// One color on every LED.
    Color,
    /// The colors of the rainbow in turn, each on every LED.
    Rainbow,
    /// The whole rainbow spread along the tube, turning.
    Space,
    /// A bar whose length shows how far something has come.
    Progress,
}

/// A character in lower case, if it is an ASCII letter, and else as it is.
pub open spec fn ascii_lowercase_char(c: char) -> char {
    if 'A' <= c <= 'Z' {
        ((c as u32) + 32) as char
    } else {
        c
    }
}

/// What `str::to_lowercase` makes of a text that is not all ASCII. It goes by the
/// Unicode tables.
pub uninterp spec fn unicode_lowercase(text: Seq<char>) -> Seq<char>;

/// A text in lower case.
pub open spec fn lowercase(text: Seq<char>) -> Seq<char> {
    if is_ascii_chars(text) {
        text.map_values(|c: char| ascii_lowercase_char(c))
    } else {
        unicode_lowercase(text)
    }
}

/// The mode that a lower-case name stands for.
pub open spec fn mode_named(name: Seq<char>) -> Result<LampMode, ()> {
    if name == "off"@ {
        Ok(LampMode::Off)
    } else if name == "color"@ {
        Ok(LampMode::Color)
    } else if name == "rainbow"@ {
        Ok(LampMode::Rainbow)
    } else if name == "space"@ {
        Ok(LampMode::Space)
    } else if name == "progress"@ {
        Ok(LampMode::Progress)
    } else {
        Err(())
    }
}

/// Calls `str::to_lowercase`. Of a text that is all ASCII the contract says that
/// the letters `A` to `Z` become `a` to `z` and everything else stays. Of any
/// other text it says that the result depends on the text alone.
#[verifier::external_body]
fn to_lowercase(text: &str) -> (lower: String)
    ensures
        is_ascii_chars(text@) ==> lower@ == text@.map_values(|c: char| ascii_lowercase_char(c)),
        !is_ascii_chars(text@) ==> lower@ == unicode_lowercase(text@),
{
    text.to_lowercase()
}

impl LampMode {
    /// The mode that a touch on the mode pad switches to.
    pub open spec fn successor(self) -> LampMode {
        match self {
            LampMode::Off => LampMode::Color,
            LampMode::Color => LampMode::Rainbow,
            LampMode::Rainbow => LampMode::Space,
            LampMode::Space => LampMode::Off,
            LampMode::Progress => LampMode::Off,
        }
    }

    /// The mode that a touch on the mode pad switches to.
    pub fn next(&self) -> (mode: LampMode)
        ensures
            mode == self.successor(),
    {
        match self {
            LampMode::Off => LampMode::Color,
            LampMode::Color => LampMode::Rainbow,
            LampMode::Rainbow => LampMode::Space,
            LampMode::Space => LampMode::Off,
            LampMode::Progress => LampMode::Off,
        }
    }

    /// The mode that a lower-case name stands for.
    pub fn from_lowercase(name: &str) -> (mode: Result<LampMode, ()>)
        ensures
            mode == mode_named(name@),
    {
        if same_text(name, "off") {
            Ok(LampMode::Off)
        } else if same_text(name, "color") {
            Ok(LampMode::Color)
        } else if same_text(name, "rainbow") {
            Ok(LampMode::Rainbow)
        } else if same_text(name, "space") {
            Ok(LampMode::Space)
        } else if same_text(name, "progress") {
            Ok(LampMode::Progress)
        } else {
            Err(())
        }
    }
}

impl FromStr for LampMode {
    type Err = ();

    /// The mode that a name stands for, in letters of any case.
    fn from_str(s: &str) -> (mode: Result<LampMode, ()>)
        ensures
            mode == mode_named(lowercase(s@)),
    {
        let name = to_lowercase(s);
        LampMode::from_lowercase(name.as_str())
    }
}

} // verus!
