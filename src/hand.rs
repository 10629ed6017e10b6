use std::cmp::Ordering;
use vstd::prelude::*;

verus! {

/// One of the three throws of the game, in cyclic order Rock, Paper, Scissor.
#[derive(Clone, Copy, PartialEq, Eq, Structural, Debug, Hash)]
pub enum Hand {
    Rock,
    Paper,
    Scissor,
}

/// How `a` fares against `b`: `Equal` for the same hand, `Greater` when `a`
/// beats `b`, `Less` otherwise.
pub open spec fn outcome(a: Hand, b: Hand) -> Ordering {
    if a == b {
        Ordering::Equal
    } else if a == b.beater() {
        Ordering::Greater
    } else {
        Ordering::Less
    }
}

/// The outcome seen from the other side.
pub open spec fn flipped(o: Ordering) -> Ordering {
    match o {
        Ordering::Less => Ordering::Greater,
        Ordering::Equal => Ordering::Equal,
        Ordering::Greater => Ordering::Less,
    }
}

impl Hand {
    /// Position of the hand in the cycle.
    pub open spec fn index(self) -> int {
        match self {
            Hand::Rock => 0,
            Hand::Paper => 1,
            Hand::Scissor => 2,
        }
    }

    /// The hand at the next position of the cycle, which beats this one.
    pub open spec fn beater(self) -> Hand {
        match self {
            Hand::Rock => Hand::Paper,
            Hand::Paper => Hand::Scissor,
            Hand::Scissor => Hand::Rock,
        }
    }

    /// Lower-case name of the hand.
    pub open spec fn spec_name(self) -> Seq<char> {
        match self {
            Hand::Rock => seq!['r', 'o', 'c', 'k'],
            Hand::Paper => seq!['p', 'a', 'p', 'e', 'r'],
            Hand::Scissor => seq!['s', 'c', 'i', 's', 's', 'o', 'r'],
        }
    }

    /// The hand that beats `self`.
    pub fn opposite(self) -> (r: Hand)
        ensures
            r == self.beater(),
            r.index() == (self.index() + 1) % 3,
    {
        match self {
            Hand::Rock => Hand::Paper,
            Hand::Paper => Hand::Scissor,
            Hand::Scissor => Hand::Rock,
        }
    }

    /// The single byte that stands for the hand in a commitment.
    pub fn to_byte(self) -> (r: u8)
        ensures
            r as int == self.index(),
    {
        match self {
            Hand::Rock => 0,
            Hand::Paper => 1,
            Hand::Scissor => 2,
        }
    }

    /// Compares two hands by the cyclic rule of the game.
    pub fn compare(&self, other: &Hand) -> (r: Ordering)
        ensures
            r == outcome(*self, *other),
    {
        if *self == *other {
            Ordering::Equal
        } else if *self == other.opposite() {
            Ordering::Greater
        } else {
            Ordering::Less
        }
    }

    /// Lower-case name of the hand, for display.
    pub fn name(self) -> (r: &'static str)
        ensures
            r@ == self.spec_name(),
    {
        match self {
            Hand::Rock => {
                proof {
                    reveal_strlit("rock");
                }
                "rock"
            },
            Hand::Paper => {
                proof {
                    reveal_strlit("paper");
                }
                "paper"
            },
            Hand::Scissor => {
                proof {
                    reveal_strlit("scissor");
                }
                "scissor"
            },
        }
    }
}

/// For any two hands exactly one of `Less`, `Equal`, `Greater` holds, `Equal`
/// precisely for equal hands, and swapping the hands swaps `Less` and `Greater`.
pub proof fn lemma_compare_trichotomy(a: Hand, b: Hand)
    ensures
        outcome(a, b) == Ordering::Less || outcome(a, b) == Ordering::Equal || outcome(a, b)
            == Ordering::Greater,
        outcome(a, b) == Ordering::Equal <==> a == b,
        outcome(a, b) == flipped(outcome(b, a)),
{
}

/// Taking the opposite three times comes back to the same hand.
pub proof fn lemma_opposite_cycle(c: Hand)
    ensures
        c.beater().beater().beater() == c,
{
}

} // verus!
