//! The validated shape of an incoming search request: optional filters over
//! the course attributes, a page number, and the two select modes that
//! refine the period and category filters.

use vstd::prelude::*;
use crate::domain::{Category, Difficulty, Language, Site, UnknownVariant, lemma_char_seq_ne};
use crate::course::Points;
use crate::pace::Pace;
use crate::text;

verus! {

broadcast use vstd::string::group_string_axioms;

// ---------------------------------------------------------------------------
// PeriodSelectMode
// ---------------------------------------------------------------------------

/// How a requested period number constrains a course's period range.
#[derive(Debug, Clone, Copy, Hash, PartialEq, Eq, Structural)]
pub enum PeriodSelectMode {
    /// Start and end both equal the requested period.
    Only,
    /// The start equals the requested period.
    Starts,
    /// The end equals the requested period.
    Ends,
    /// The range, circular over 1..=4, contains the requested period.
    Spans,
}

impl PeriodSelectMode {
    /// The closed set of wire codes, in canonical order.
    pub open spec fn spec_wire_codes() -> Seq<Seq<char>> {
        seq!["only"@, "starts"@, "ends"@, "spans"@]
    }

    /// Wire decoding: a function of the code alone.
    pub open spec fn spec_from_wire(s: Seq<char>) -> Option<PeriodSelectMode> {
        if s == "only"@ {
            Some(PeriodSelectMode::Only)
        } else if s == "starts"@ {
            Some(PeriodSelectMode::Starts)
        } else if s == "ends"@ {
            Some(PeriodSelectMode::Ends)
        } else if s == "spans"@ {
            Some(PeriodSelectMode::Spans)
        } else {
            None
        }
    }

    /// Decodes a short wire code; any string outside the closed alphabet is
    /// rejected with an error naming it and the allowed set.
    pub fn from_wire(s: &str) -> (r: Result<PeriodSelectMode, UnknownVariant>)
        ensures
            match r {
                Ok(v) => PeriodSelectMode::spec_from_wire(s@) == Some(v),
                Err(e) => PeriodSelectMode::spec_from_wire(s@) is None && e.received@ == s@
                    && e.allowed.deep_view() =~= PeriodSelectMode::spec_wire_codes(),
            },
    {
        if text::str_eq(s, "only") {
            Ok(PeriodSelectMode::Only)
        } else if text::str_eq(s, "starts") {
            Ok(PeriodSelectMode::Starts)
        } else if text::str_eq(s, "ends") {
            Ok(PeriodSelectMode::Ends)
        } else if text::str_eq(s, "spans") {
            Ok(PeriodSelectMode::Spans)
        } else {
            let mut allowed: Vec<String> = Vec::new();
            allowed.push("only".to_owned());
            allowed.push("starts".to_owned());
            allowed.push("ends".to_owned());
            allowed.push("spans".to_owned());
            proof {
                assert(allowed.deep_view() =~= PeriodSelectMode::spec_wire_codes());
            }
            Err(UnknownVariant { received: s.to_owned(), allowed })
        }
    }

    /// The wire decoding is total and exhaustive over its closed alphabet.
    pub proof fn lemma_wire_exhaustive()
        ensures
            PeriodSelectMode::spec_from_wire("only"@) == Some(PeriodSelectMode::Only),
            PeriodSelectMode::spec_from_wire("starts"@) == Some(PeriodSelectMode::Starts),
            PeriodSelectMode::spec_from_wire("ends"@) == Some(PeriodSelectMode::Ends),
            PeriodSelectMode::spec_from_wire("spans"@) == Some(PeriodSelectMode::Spans),
            forall|s: Seq<char>|
                PeriodSelectMode::spec_from_wire(s) is Some
                    ==> PeriodSelectMode::spec_wire_codes().contains(s),
    {
        reveal_strlit("only");
        reveal_strlit("starts");
        reveal_strlit("ends");
        reveal_strlit("spans");
        lemma_char_seq_ne("starts"@, "only"@, 0);
        lemma_char_seq_ne("ends"@, "only"@, 0);
        lemma_char_seq_ne("ends"@, "starts"@, 0);
        lemma_char_seq_ne("spans"@, "only"@, 0);
        lemma_char_seq_ne("spans"@, "starts"@, 1);
        lemma_char_seq_ne("spans"@, "ends"@, 0);
        assert forall|s: Seq<char>|
            PeriodSelectMode::spec_from_wire(s) is Some
                implies PeriodSelectMode::spec_wire_codes().contains(s) by {
            let codes = PeriodSelectMode::spec_wire_codes();
            if s == "only"@ {
                assert(codes[0] == s);
            } else if s == "starts"@ {
                assert(codes[1] == s);
            } else if s == "ends"@ {
                assert(codes[2] == s);
            } else {
                assert(codes[3] == s);
            }
        }
    }

    /// Whether a course with period range `start..=end` is selected by this
    /// mode for requested period `p`. For `Spans` the range is circular over
    /// 1..=4: a wrapped range `start > end` contains `p` exactly when
    /// `p >= start` or `p <= end`.
    pub open spec fn spec_matches(self, start: int, end: int, p: int) -> bool {
        match self {
            PeriodSelectMode::Only => start == p && end == p,
            PeriodSelectMode::Starts => start == p,
            PeriodSelectMode::Ends => end == p,
            PeriodSelectMode::Spans => if start <= end {
                start <= p && p <= end
            } else {
                p >= start || p <= end
            },
        }
    }

    /// Tests a course's period range against a requested period.
    pub fn matches(self, start: i16, end: i16, p: u8) -> (r: bool)
        ensures
            r == self.spec_matches(start as int, end as int, p as int),
    {
        let s = start as i32;
        let e = end as i32;
        let q = p as i32;
        match self {
            PeriodSelectMode::Only => s == q && e == q,
            PeriodSelectMode::Starts => s == q,
            PeriodSelectMode::Ends => e == q,
            PeriodSelectMode::Spans => if s <= e {
                s <= q && q <= e
            } else {
                q >= s || q <= e
            },
        }
    }
}

impl Default for PeriodSelectMode {
    /// The default mode: the course lies wholly in the requested period.
    fn default() -> (r: PeriodSelectMode)
        ensures
            r == PeriodSelectMode::Only,
    {
        PeriodSelectMode::Only
    }
}

// ---------------------------------------------------------------------------
// CategorySelectMode
// ---------------------------------------------------------------------------

/// Whether a multi-category filter requires overlap or full containment.
#[derive(Debug, Clone, Copy, Hash, PartialEq, Eq, Structural)]
pub enum CategorySelectMode {
    /// The stored set intersects the requested set.
    Any,
    /// The stored set contains every requested tag.
    All,
}

impl CategorySelectMode {
    /// The closed set of wire codes, in canonical order.
    pub open spec fn spec_wire_codes() -> Seq<Seq<char>> {
        seq!["any"@, "all"@]
    }

    /// Wire decoding: a function of the code alone.
    pub open spec fn spec_from_wire(s: Seq<char>) -> Option<CategorySelectMode> {
        if s == "any"@ {
            Some(CategorySelectMode::Any)
        } else if s == "all"@ {
            Some(CategorySelectMode::All)
        } else {
            None
        }
    }

    /// Decodes a short wire code; any string outside the closed alphabet is
    /// rejected with an error naming it and the allowed set.
    pub fn from_wire(s: &str) -> (r: Result<CategorySelectMode, UnknownVariant>)
        ensures
            match r {
                Ok(v) => CategorySelectMode::spec_from_wire(s@) == Some(v),
                Err(e) => CategorySelectMode::spec_from_wire(s@) is None && e.received@ == s@
                    && e.allowed.deep_view() =~= CategorySelectMode::spec_wire_codes(),
            },
    {
        if text::str_eq(s, "any") {
            Ok(CategorySelectMode::Any)
        } else if text::str_eq(s, "all") {
            Ok(CategorySelectMode::All)
        } else {
            let mut allowed: Vec<String> = Vec::new();
            allowed.push("any".to_owned());
            allowed.push("all".to_owned());
            proof {
                assert(allowed.deep_view() =~= CategorySelectMode::spec_wire_codes());
            }
            Err(UnknownVariant { received: s.to_owned(), allowed })
        }
    }

    /// The wire decoding is total and exhaustive over its closed alphabet.
    pub proof fn lemma_wire_exhaustive()
        ensures
            CategorySelectMode::spec_from_wire("any"@) == Some(CategorySelectMode::Any),
            CategorySelectMode::spec_from_wire("all"@) == Some(CategorySelectMode::All),
            forall|s: Seq<char>|
                CategorySelectMode::spec_from_wire(s) is Some
                    ==> CategorySelectMode::spec_wire_codes().contains(s),
    {
        reveal_strlit("any");
        reveal_strlit("all");
        lemma_char_seq_ne("all"@, "any"@, 1);
        assert forall|s: Seq<char>|
            CategorySelectMode::spec_from_wire(s) is Some
                implies CategorySelectMode::spec_wire_codes().contains(s) by {
            let codes = CategorySelectMode::spec_wire_codes();
            if s == "any"@ {
                assert(codes[0] == s);
            } else {
                assert(codes[1] == s);
            }
        }
    }
}

impl Default for CategorySelectMode {
    /// The default mode: overlap with the requested set suffices.
    fn default() -> (r: CategorySelectMode)
        ensures
            r == CategorySelectMode::Any,
    {
        CategorySelectMode::Any
    }
}

// ---------------------------------------------------------------------------
// FilterRequest
// ---------------------------------------------------------------------------

/// A parsed, per-call search request. Every filter is optional; an empty
/// multi-value set means the filter is absent, never "match nothing".
#[derive(Debug, Clone)]
pub struct FilterRequest {
    /// Result page number; the query offsets by this times the page size.
    pub page: u32,
    /// Course-code pattern; must satisfy the fixed six-character shape.
    pub code_pattern: Option<String>,
    /// Free-text name pattern; sanitized before use.
    pub name_pattern: Option<String>,
    /// Exact credit-points match.
    pub points: Option<Points>,
    /// Acceptable pace values; empty means no pace filter.
    pub paces: Vec<Pace>,
    /// Requested period number, refined by `period_select_mode`.
    pub period: Option<u8>,
    pub period_select_mode: PeriodSelectMode,
    /// Acceptable sites; empty means no site filter.
    pub sites: Vec<Site>,
    /// Acceptable languages; empty means no language filter.
    pub languages: Vec<Language>,
    /// Acceptable difficulty levels; empty means no difficulty filter.
    pub difficulties: Vec<Difficulty>,
    /// Requested category tags, refined by `category_select_mode`.
    pub categories: Vec<Category>,
    pub category_select_mode: CategorySelectMode,
}

impl Default for FilterRequest {
    /// A request with no filters set: first page, no conditions.
    fn default() -> (r: FilterRequest)
        ensures
            r.page == 0,
            r.code_pattern is None,
            r.name_pattern is None,
            r.points is None,
            r.paces@ == Seq::<Pace>::empty(),
            r.period is None,
            r.period_select_mode == PeriodSelectMode::Only,
            r.sites@ == Seq::<Site>::empty(),
            r.languages@ == Seq::<Language>::empty(),
            r.difficulties@ == Seq::<Difficulty>::empty(),
            r.categories@ == Seq::<Category>::empty(),
            r.category_select_mode == CategorySelectMode::Any,
    {
        FilterRequest {
            page: 0,
            code_pattern: None,
            name_pattern: None,
            points: None,
            paces: Vec::new(),
            period: None,
            period_select_mode: PeriodSelectMode::Only,
            sites: Vec::new(),
            languages: Vec::new(),
            difficulties: Vec::new(),
            categories: Vec::new(),
            category_select_mode: CategorySelectMode::Any,
        }
    }
}

} // verus!
