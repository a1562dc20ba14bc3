//! A bounded study-load percentage: an integer in 0..=100 with validated
//! construction.

use vstd::prelude::*;
use crate::text;

verus! {

/// Construction was refused: the value lies outside 0..=100.
#[derive(Debug, Clone, Copy, PartialEq, Eq, Structural)]
pub struct OutOfRange;

/// A study load in whole percent, always in 0..=100.
#[derive(Debug, Clone, Copy, PartialEq, Eq, Hash, Structural)]
pub struct Percentage {
    value: i8,
}

impl Percentage {
    /// The range invariant: every percentage value lies in 0..=100.
    #[verifier::type_invariant]
    pub closed spec fn inv(self) -> bool {
        0 <= self.value <= 100
    }

    /// The integer the percentage stands for.
    pub closed spec fn spec_value(self) -> int {
        self.value as int
    }

    /// Accepts exactly the values 0..=100; everything else is refused.
    pub fn new(value: i8) -> (r: Result<Percentage, OutOfRange>)
        ensures
            match r {
                Ok(p) => 0 <= value <= 100 && p.spec_value() == value as int,
                Err(_) => !(0 <= value <= 100),
            },
    {
        if 0 <= value && value <= 100 {
            Ok(Percentage { value })
        } else {
            Err(OutOfRange)
        }
    }

    /// The stored integer, always in 0..=100.
    pub fn get(self) -> (r: i8)
        ensures
            r as int == self.spec_value(),
            0 <= r <= 100,
    {
        proof {
            use_type_invariant(self);
        }
        self.value
    }

    /// The display form: the decimal value with a trailing percent sign.
    pub open spec fn spec_render(self) -> Seq<char> {
        text::spec_dec(self.spec_value() as nat) + seq!['%']
    }

    /// Renders the percentage for display, e.g. `50%`.
    pub fn render(self) -> (r: String)
        ensures
            r@ == self.spec_render(),
    {
        proof {
            use_type_invariant(self);
        }
        let mut s = text::u64_to_dec(self.value as u64);
        s.push('%');
        proof {
            assert(s@ =~= self.spec_render());
        }
        s
    }
}

} // verus!
