//! The course record: one immutable row of the catalog, and the credit
//! `Points` value it carries. Points are held in tenths of a point so that
//! values such as 7.5 stay exact integers.

use vstd::prelude::*;
use crate::categories::Categories;
use crate::domain::{Difficulty, Language, Site};
use crate::pace::Pace;
use crate::text;

verus! {

/// A non-negative credit value, counted in tenths of a point.
#[derive(Debug, Clone, Copy, Hash, PartialEq, Eq, Structural)]
pub struct Points {
    pub tenths: u32,
}

impl Points {
    /// Wraps a value in tenths of a point.
    pub fn new(tenths: u32) -> (r: Points)
        ensures
            r.tenths == tenths,
    {
        Points { tenths }
    }

    /// The display form: the whole points, then `.` and the tenth digit
    /// only when it is not zero — `7.5`, but plain `7` for a whole value.
    pub open spec fn spec_render(self) -> Seq<char> {
        if self.tenths % 10 == 0 {
            text::spec_dec((self.tenths / 10) as nat)
        } else {
            text::spec_dec((self.tenths / 10) as nat) + seq!['.']
                + seq![text::spec_digit_char((self.tenths % 10) as nat)]
        }
    }

    /// Renders the credit value in decimal.
    pub fn render(self) -> (r: String)
        ensures
            r@ == self.spec_render(),
    {
        let whole = self.tenths / 10;
        let tenth = self.tenths % 10;
        let mut s = text::u64_to_dec(whole as u64);
        if tenth != 0 {
            s.push('.');
            let d: char = match tenth {
                1 => '1',
                2 => '2',
                3 => '3',
                4 => '4',
                5 => '5',
                6 => '6',
                7 => '7',
                8 => '8',
                _ => '9',
            };
            s.push(d);
        }
        proof {
            assert(s@ =~= self.spec_render());
        }
        s
    }
}

/// One row of the course catalog. Records are created by the external
/// ingestion pipeline and are immutable afterwards; a period range may wrap
/// around the year-end boundary (`period_start > period_end`).
#[derive(Debug, Clone)]
pub struct Course {
    pub code: String,
    pub name_se: String,
    pub name_en: Option<String>,
    pub url: String,
    pub points: Points,
    pub pace: Option<Pace>,
    pub prerequisites: Option<String>,
    pub register_info: Option<String>,
    pub modules: Option<String>,
    pub period_start: Option<i16>,
    pub period_end: Option<i16>,
    pub site: Option<Site>,
    pub language: Option<Language>,
    pub difficulty: Difficulty,
    pub categories: Categories,
    pub conduct: Option<String>,
}

} // verus!
