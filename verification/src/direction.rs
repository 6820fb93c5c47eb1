//! The direction in which data flows through a binding.

use crate::text::same_text;
use vstd::prelude::*;

verus! {

/// Whether a binding supplies data, receives data, or does both.
#[derive(Clone, Copy, Debug, PartialEq, Eq, Structural)]
pub enum Direction {
    In,
    InOut,
    Out,
}

impl Default for Direction {
    fn default() -> (d: Direction)
        ensures
            d == Direction::In,
    {
        Direction::In
    }
}

impl Direction {
    /// The literal that stands for this direction in a descriptor.
    pub open spec fn token_text(self) -> Seq<char> {
        match self {
            Direction::In => "in"@,
            Direction::InOut => "inout"@,
            Direction::Out => "out"@,
        }
    }

    /// The name of this direction's variant, as generated code spells it.
    pub open spec fn variant_text(self) -> Seq<char> {
        match self {
            Direction::In => "In"@,
            Direction::InOut => "InOut"@,
            Direction::Out => "Out"@,
        }
    }

    /// The direction that a descriptor literal stands for, if any.
    pub open spec fn parse_token(text: Seq<char>) -> Option<Direction> {
        if text == "in"@ {
            Some(Direction::In)
        } else if text == "inout"@ {
            Some(Direction::InOut)
        } else if text == "out"@ {
            Some(Direction::Out)
        } else {
            None
        }
    }

    /// Returns `in`, `inout` or `out`.
    pub fn token(&self) -> (text: &'static str)
        ensures
            text@ == self.token_text(),
    {
        match self {
            Direction::In => "in",
            Direction::InOut => "inout",
            Direction::Out => "out",
        }
    }

    /// Reads a descriptor literal back; anything but the three literals is
    /// rejected.
    pub fn from_token(text: &str) -> (parsed: Option<Direction>)
        ensures
            parsed == Direction::parse_token(text@),
    {
        if same_text(text, "in") {
            Some(Direction::In)
        } else if same_text(text, "inout") {
            Some(Direction::InOut)
        } else if same_text(text, "out") {
            Some(Direction::Out)
        } else {
            None
        }
    }

    /// The three literals are pairwise distinct, so a direction survives being
    /// written as its literal and read back.
    pub proof fn token_round_trip(d: Direction)
        ensures
            Direction::parse_token(d.token_text()) == Some(d),
    {
        reveal_strlit("in");
        reveal_strlit("inout");
        reveal_strlit("out");
        assert("in"@.len() == 2 && "inout"@.len() == 5 && "out"@.len() == 3);
    }
}

} // verus!
