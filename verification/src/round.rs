//! A consensus round index with a distinguished nil value.

use vstd::prelude::*;

verus! {

/// A round index within a consensus height. `Nil` stands for "no round":
/// legitimate for a proof-of-lock round, never for the round a proposal is
/// made in.
#[derive(Clone, Copy, Debug, PartialEq, Eq, Structural)]
pub enum Round {
    Nil,
    Val(u32),
}

impl Round {
    /// Whether this is the nil round.
    pub open spec fn is_nil(self) -> bool {
        self is Nil
    }

    /// The optional unsigned value of the round: absent exactly when nil.
    pub open spec fn as_option(self) -> Option<u32> {
        match self {
            Round::Nil => Option::None,
            Round::Val(v) => Option::Some(v),
        }
    }

    /// The round an option stands for: absent means nil.
    pub open spec fn of_option(v: Option<u32>) -> Round {
        match v {
            Option::None => Round::Nil,
            Option::Some(x) => Round::Val(x),
        }
    }

    /// A concrete (never nil) round with the given index.
    pub fn new(v: u32) -> (r: Round)
        ensures
            r == Round::Val(v),
    {
        Round::Val(v)
    }

    /// A round from an optional index: absent yields nil.
    pub fn from_option(v: Option<u32>) -> (r: Round)
        ensures
            r == Round::of_option(v),
    {
        match v {
            Option::None => Round::Nil,
            Option::Some(x) => Round::Val(x),
        }
    }

    /// The unsigned value of the round, absent when nil.
    pub fn as_u32(&self) -> (r: Option<u32>)
        ensures
            r == self.as_option(),
    {
        match self {
            Round::Nil => Option::None,
            Round::Val(v) => Option::Some(*v),
        }
    }
}

} // verus!
