//! The closed domain enumerations of the course catalog. Each carries two
//! textual encodings: a canonical display string (long, localized) and a
//! short wire code (compact, stable). Decoding a wire code outside the
//! closed alphabet is a hard validation error carrying the offending value
//! and the full allowed set.

use vstd::prelude::*;
use crate::text;

verus! {

broadcast use vstd::string::group_string_axioms;

/// A string was not one of a closed set of admitted values. Carries the
/// offending value and the full allowed set, for diagnostics.
#[derive(Debug, Clone, PartialEq, Eq)]
pub struct UnknownVariant {
    pub received: String,
    pub allowed: Vec<String>,
}

// ---------------------------------------------------------------------------
// Time
// ---------------------------------------------------------------------------

/// The study-time mode of a course.
#[derive(Debug, Clone, Copy, Hash, PartialEq, Eq, Structural)]
pub enum Time {
    Day,
    Weekend,
    Mixed,
}

impl Time {
    /// Canonical display string.
    pub open spec fn spec_display(self) -> Seq<char> {
        match self {
            Time::Day => "Dagtid"@,
            Time::Weekend => "Veckoslut"@,
            Time::Mixed => "Blandad undervisningstid"@,
        }
    }

    /// Renders the canonical display string.
    pub fn display_name(self) -> (r: &'static str)
        ensures
            r@ == self.spec_display(),
    {
        match self {
            Time::Day => "Dagtid",
            Time::Weekend => "Veckoslut",
            Time::Mixed => "Blandad undervisningstid",
        }
    }

    /// Display-string decoding, up to ASCII case.
    pub open spec fn spec_from_display(s: Seq<char>) -> Option<Time> {
        if text::spec_ci_eq(s, "Dagtid"@) {
            Some(Time::Day)
        } else if text::spec_ci_eq(s, "Veckoslut"@) {
            Some(Time::Weekend)
        } else if text::spec_ci_eq(s, "Blandad undervisningstid"@) {
            Some(Time::Mixed)
        } else {
            None
        }
    }

    /// The closed set of display strings, in canonical order.
    pub open spec fn spec_display_names() -> Seq<Seq<char>> {
        seq!["Dagtid"@, "Veckoslut"@, "Blandad undervisningstid"@]
    }

    /// Parses a canonical display string, ignoring ASCII case; any other string is
    /// rejected with an error naming it and the allowed set.
    pub fn from_display(s: &str) -> (r: Result<Time, UnknownVariant>)
        ensures
            match r {
                Ok(v) => Time::spec_from_display(s@) == Some(v),
                Err(e) => Time::spec_from_display(s@) is None && e.received@ == s@
                    && e.allowed.deep_view() =~= Time::spec_display_names(),
            },
    {
        if text::str_eq_ignore_ascii_case(s, "Dagtid") {
            Ok(Time::Day)
        } else if text::str_eq_ignore_ascii_case(s, "Veckoslut") {
            Ok(Time::Weekend)
        } else if text::str_eq_ignore_ascii_case(s, "Blandad undervisningstid") {
            Ok(Time::Mixed)
        } else {
            let mut allowed: Vec<String> = Vec::new();
            allowed.push("Dagtid".to_owned());
            allowed.push("Veckoslut".to_owned());
            allowed.push("Blandad undervisningstid".to_owned());
            proof {
                assert(allowed.deep_view() =~= Time::spec_display_names());
            }
            Err(UnknownVariant { received: s.to_owned(), allowed })
        }
    }

    /// Every display string decodes back to the value it renders.
    pub proof fn lemma_display_round_trip(t: Time)
        ensures
            Time::spec_from_display(t.spec_display()) == Some(t),
    {
        reveal_strlit("Dagtid");
        reveal_strlit("Veckoslut");
        reveal_strlit("Blandad undervisningstid");
    }
}

// ---------------------------------------------------------------------------
// Site
// ---------------------------------------------------------------------------

/// The study site of a course.
#[derive(Debug, Clone, Copy, Hash, PartialEq, Eq, Structural)]
pub enum Site {
    Stockholm,
    Pitea,
    Skelleftea,
    Lulea,
    Kiruna,
    LocationIndependent,
}

impl Site {
    /// Canonical display string.
    pub open spec fn spec_display(self) -> Seq<char> {
        match self {
            Site::Stockholm => "Stockholm"@,
            Site::Pitea => "Piteå"@,
            Site::Skelleftea => "Skellefteå"@,
            Site::Lulea => "Luleå"@,
            Site::Kiruna => "Kiruna"@,
            Site::LocationIndependent => "Ortsoberoende"@,
        }
    }

    /// Renders the canonical display string.
    pub fn display_name(self) -> (r: &'static str)
        ensures
            r@ == self.spec_display(),
    {
        match self {
            Site::Stockholm => "Stockholm",
            Site::Pitea => "Piteå",
            Site::Skelleftea => "Skellefteå",
            Site::Lulea => "Luleå",
            Site::Kiruna => "Kiruna",
            Site::LocationIndependent => "Ortsoberoende",
        }
    }

    /// Display-string decoding (exact match).
    pub open spec fn spec_from_display(s: Seq<char>) -> Option<Site> {
        if s == "Stockholm"@ {
            Some(Site::Stockholm)
        } else if s == "Piteå"@ {
            Some(Site::Pitea)
        } else if s == "Skellefteå"@ {
            Some(Site::Skelleftea)
        } else if s == "Luleå"@ {
            Some(Site::Lulea)
        } else if s == "Kiruna"@ {
            Some(Site::Kiruna)
        } else if s == "Ortsoberoende"@ {
            Some(Site::LocationIndependent)
        } else {
            None
        }
    }

    /// The closed set of display strings, in canonical order.
    pub open spec fn spec_display_names() -> Seq<Seq<char>> {
        seq!["Stockholm"@, "Piteå"@, "Skellefteå"@, "Luleå"@, "Kiruna"@, "Ortsoberoende"@]
    }

    /// Parses a canonical display string; any other string is
    /// rejected with an error naming it and the allowed set.
    pub fn from_display(s: &str) -> (r: Result<Site, UnknownVariant>)
        ensures
            match r {
                Ok(v) => Site::spec_from_display(s@) == Some(v),
                Err(e) => Site::spec_from_display(s@) is None && e.received@ == s@
                    && e.allowed.deep_view() =~= Site::spec_display_names(),
            },
    {
        if text::str_eq(s, "Stockholm") {
            Ok(Site::Stockholm)
        } else if text::str_eq(s, "Piteå") {
            Ok(Site::Pitea)
        } else if text::str_eq(s, "Skellefteå") {
            Ok(Site::Skelleftea)
        } else if text::str_eq(s, "Luleå") {
            Ok(Site::Lulea)
        } else if text::str_eq(s, "Kiruna") {
            Ok(Site::Kiruna)
        } else if text::str_eq(s, "Ortsoberoende") {
            Ok(Site::LocationIndependent)
        } else {
            let mut allowed: Vec<String> = Vec::new();
            allowed.push("Stockholm".to_owned());
            allowed.push("Piteå".to_owned());
            allowed.push("Skellefteå".to_owned());
            allowed.push("Luleå".to_owned());
            allowed.push("Kiruna".to_owned());
            allowed.push("Ortsoberoende".to_owned());
            proof {
                assert(allowed.deep_view() =~= Site::spec_display_names());
            }
            Err(UnknownVariant { received: s.to_owned(), allowed })
        }
    }

    /// Every display string decodes back to the value it renders.
    pub proof fn lemma_display_round_trip(v: Site)
        ensures
            Site::spec_from_display(v.spec_display()) == Some(v),
    {
        reveal_strlit("Stockholm");
        reveal_strlit("Piteå");
        reveal_strlit("Skellefteå");
        reveal_strlit("Luleå");
        reveal_strlit("Kiruna");
        reveal_strlit("Ortsoberoende");
        lemma_char_seq_ne("Piteå"@, "Stockholm"@, 0);
        lemma_char_seq_ne("Skellefteå"@, "Stockholm"@, 1);
        lemma_char_seq_ne("Skellefteå"@, "Piteå"@, 0);
        lemma_char_seq_ne("Luleå"@, "Stockholm"@, 0);
        lemma_char_seq_ne("Luleå"@, "Piteå"@, 0);
        lemma_char_seq_ne("Luleå"@, "Skellefteå"@, 0);
        lemma_char_seq_ne("Kiruna"@, "Stockholm"@, 0);
        lemma_char_seq_ne("Kiruna"@, "Piteå"@, 0);
        lemma_char_seq_ne("Kiruna"@, "Skellefteå"@, 0);
        lemma_char_seq_ne("Kiruna"@, "Luleå"@, 0);
        lemma_char_seq_ne("Ortsoberoende"@, "Stockholm"@, 0);
        lemma_char_seq_ne("Ortsoberoende"@, "Piteå"@, 0);
        lemma_char_seq_ne("Ortsoberoende"@, "Skellefteå"@, 0);
        lemma_char_seq_ne("Ortsoberoende"@, "Luleå"@, 0);
        lemma_char_seq_ne("Ortsoberoende"@, "Kiruna"@, 0);
    }

    /// The closed set of wire codes, in canonical order.
    pub open spec fn spec_wire_codes() -> Seq<Seq<char>> {
        seq!["st"@, "pt"@, "sk"@, "lu"@, "kr"@, "li"@]
    }

    /// Wire decoding: a function of the code alone.
    pub open spec fn spec_from_wire(s: Seq<char>) -> Option<Site> {
        if s == "st"@ {
            Some(Site::Stockholm)
        } else if s == "pt"@ {
            Some(Site::Pitea)
        } else if s == "sk"@ {
            Some(Site::Skelleftea)
        } else if s == "lu"@ {
            Some(Site::Lulea)
        } else if s == "kr"@ {
            Some(Site::Kiruna)
        } else if s == "li"@ {
            Some(Site::LocationIndependent)
        } else {
            None
        }
    }

    /// Decodes a short wire code; any string outside the closed alphabet is
    /// rejected with an error naming it and the allowed set.
    pub fn from_wire(s: &str) -> (r: Result<Site, UnknownVariant>)
        ensures
            match r {
                Ok(v) => Site::spec_from_wire(s@) == Some(v),
                Err(e) => Site::spec_from_wire(s@) is None && e.received@ == s@
                    && e.allowed.deep_view() =~= Site::spec_wire_codes(),
            },
    {
        if text::str_eq(s, "st") {
            Ok(Site::Stockholm)
        } else if text::str_eq(s, "pt") {
            Ok(Site::Pitea)
        } else if text::str_eq(s, "sk") {
            Ok(Site::Skelleftea)
        } else if text::str_eq(s, "lu") {
            Ok(Site::Lulea)
        } else if text::str_eq(s, "kr") {
            Ok(Site::Kiruna)
        } else if text::str_eq(s, "li") {
            Ok(Site::LocationIndependent)
        } else {
            let mut allowed: Vec<String> = Vec::new();
            allowed.push("st".to_owned());
            allowed.push("pt".to_owned());
            allowed.push("sk".to_owned());
            allowed.push("lu".to_owned());
            allowed.push("kr".to_owned());
            allowed.push("li".to_owned());
            proof {
                assert(allowed.deep_view() =~= Site::spec_wire_codes());
            }
            Err(UnknownVariant { received: s.to_owned(), allowed })
        }
    }

    /// The wire decoding is total and exhaustive over its closed alphabet:
    /// every code in the declared set decodes, the decoded values are
    /// pairwise distinct, and every string outside the set is refused.
    pub proof fn lemma_wire_exhaustive()
        ensures
            Site::spec_from_wire("st"@) == Some(Site::Stockholm),
            Site::spec_from_wire("pt"@) == Some(Site::Pitea),
            Site::spec_from_wire("sk"@) == Some(Site::Skelleftea),
            Site::spec_from_wire("lu"@) == Some(Site::Lulea),
            Site::spec_from_wire("kr"@) == Some(Site::Kiruna),
            Site::spec_from_wire("li"@) == Some(Site::LocationIndependent),
            forall|s: Seq<char>|
                Site::spec_from_wire(s) is Some ==> Site::spec_wire_codes().contains(s),
    {
        reveal_strlit("st");
        reveal_strlit("pt");
        reveal_strlit("sk");
        reveal_strlit("lu");
        reveal_strlit("kr");
        reveal_strlit("li");
        lemma_char_seq_ne("pt"@, "st"@, 0);
        lemma_char_seq_ne("sk"@, "st"@, 1);
        lemma_char_seq_ne("sk"@, "pt"@, 0);
        lemma_char_seq_ne("lu"@, "st"@, 0);
        lemma_char_seq_ne("lu"@, "pt"@, 0);
        lemma_char_seq_ne("lu"@, "sk"@, 0);
        lemma_char_seq_ne("kr"@, "st"@, 0);
        lemma_char_seq_ne("kr"@, "pt"@, 0);
        lemma_char_seq_ne("kr"@, "sk"@, 0);
        lemma_char_seq_ne("kr"@, "lu"@, 0);
        lemma_char_seq_ne("li"@, "st"@, 0);
        lemma_char_seq_ne("li"@, "pt"@, 0);
        lemma_char_seq_ne("li"@, "sk"@, 0);
        lemma_char_seq_ne("li"@, "lu"@, 1);
        lemma_char_seq_ne("li"@, "kr"@, 0);
        assert forall|s: Seq<char>|
            Site::spec_from_wire(s) is Some implies Site::spec_wire_codes().contains(s) by {
            let codes = Site::spec_wire_codes();
            if s == "st"@ {
                assert(codes[0] == s);
            } else if s == "pt"@ {
                assert(codes[1] == s);
            } else if s == "sk"@ {
                assert(codes[2] == s);
            } else if s == "lu"@ {
                assert(codes[3] == s);
            } else if s == "kr"@ {
                assert(codes[4] == s);
            } else {
                assert(codes[5] == s);
            }
        }
    }
}

// ---------------------------------------------------------------------------
// Language
// ---------------------------------------------------------------------------

/// The teaching language of a course.
#[derive(Debug, Clone, Copy, Hash, PartialEq, Eq, Structural)]
pub enum Language {
    Swedish,
    English,
}

impl Language {
    /// Canonical display string.
    pub open spec fn spec_display(self) -> Seq<char> {
        match self {
            Language::Swedish => "Svenska"@,
            Language::English => "Engelska"@,
        }
    }

    /// Renders the canonical display string.
    pub fn display_name(self) -> (r: &'static str)
        ensures
            r@ == self.spec_display(),
    {
        match self {
            Language::Swedish => "Svenska",
            Language::English => "Engelska",
        }
    }

    /// Display-string decoding (exact match).
    pub open spec fn spec_from_display(s: Seq<char>) -> Option<Language> {
        if s == "Svenska"@ {
            Some(Language::Swedish)
        } else if s == "Engelska"@ {
            Some(Language::English)
        } else {
            None
        }
    }

    /// The closed set of display strings, in canonical order.
    pub open spec fn spec_display_names() -> Seq<Seq<char>> {
        seq!["Svenska"@, "Engelska"@]
    }

    /// Parses a canonical display string; any other string is
    /// rejected with an error naming it and the allowed set.
    pub fn from_display(s: &str) -> (r: Result<Language, UnknownVariant>)
        ensures
            match r {
                Ok(v) => Language::spec_from_display(s@) == Some(v),
                Err(e) => Language::spec_from_display(s@) is None && e.received@ == s@
                    && e.allowed.deep_view() =~= Language::spec_display_names(),
            },
    {
        if text::str_eq(s, "Svenska") {
            Ok(Language::Swedish)
        } else if text::str_eq(s, "Engelska") {
            Ok(Language::English)
        } else {
            let mut allowed: Vec<String> = Vec::new();
            allowed.push("Svenska".to_owned());
            allowed.push("Engelska".to_owned());
            proof {
                assert(allowed.deep_view() =~= Language::spec_display_names());
            }
            Err(UnknownVariant { received: s.to_owned(), allowed })
        }
    }

    /// Every display string decodes back to the value it renders.
    pub proof fn lemma_display_round_trip(v: Language)
        ensures
            Language::spec_from_display(v.spec_display()) == Some(v),
    {
        reveal_strlit("Svenska");
        reveal_strlit("Engelska");
        lemma_char_seq_ne("Engelska"@, "Svenska"@, 0);
    }

    /// The closed set of wire codes, in canonical order.
    pub open spec fn spec_wire_codes() -> Seq<Seq<char>> {
        seq!["sv"@, "en"@]
    }

    /// Wire decoding: a function of the code alone.
    pub open spec fn spec_from_wire(s: Seq<char>) -> Option<Language> {
        if s == "sv"@ {
            Some(Language::Swedish)
        } else if s == "en"@ {
            Some(Language::English)
        } else {
            None
        }
    }

    /// Decodes a short wire code; any string outside the closed alphabet is
    /// rejected with an error naming it and the allowed set.
    pub fn from_wire(s: &str) -> (r: Result<Language, UnknownVariant>)
        ensures
            match r {
                Ok(v) => Language::spec_from_wire(s@) == Some(v),
                Err(e) => Language::spec_from_wire(s@) is None && e.received@ == s@
                    && e.allowed.deep_view() =~= Language::spec_wire_codes(),
            },
    {
        if text::str_eq(s, "sv") {
            Ok(Language::Swedish)
        } else if text::str_eq(s, "en") {
            Ok(Language::English)
        } else {
            let mut allowed: Vec<String> = Vec::new();
            allowed.push("sv".to_owned());
            allowed.push("en".to_owned());
            proof {
                assert(allowed.deep_view() =~= Language::spec_wire_codes());
            }
            Err(UnknownVariant { received: s.to_owned(), allowed })
        }
    }

    /// The wire decoding is total and exhaustive over its closed alphabet:
    /// every code in the declared set decodes, the decoded values are
    /// pairwise distinct, and every string outside the set is refused.
    pub proof fn lemma_wire_exhaustive()
        ensures
            Language::spec_from_wire("sv"@) == Some(Language::Swedish),
            Language::spec_from_wire("en"@) == Some(Language::English),
            forall|s: Seq<char>|
                Language::spec_from_wire(s) is Some ==> Language::spec_wire_codes().contains(s),
    {
        reveal_strlit("sv");
        reveal_strlit("en");
        lemma_char_seq_ne("en"@, "sv"@, 0);
        assert forall|s: Seq<char>|
            Language::spec_from_wire(s) is Some implies Language::spec_wire_codes().contains(s) by {
            let codes = Language::spec_wire_codes();
            if s == "sv"@ {
                assert(codes[0] == s);
            } else {
                assert(codes[1] == s);
            }
        }
    }
}

// ---------------------------------------------------------------------------
// Difficulty
// ---------------------------------------------------------------------------

/// The difficulty level of a course.
#[derive(Debug, Clone, Copy, Hash, PartialEq, Eq, Structural)]
pub enum Difficulty {
    Preparatory,
    Undergraduate,
    Advanced,
    ContinuationUndergraduate,
    ContinuationAdvanced,
    IntroductoryUndergraduate,
}

impl Difficulty {
    /// Canonical display string.
    pub open spec fn spec_display(self) -> Seq<char> {
        match self {
            Difficulty::Preparatory => "Förberedande nivå"@,
            Difficulty::Undergraduate => "Grundnivå"@,
            Difficulty::Advanced => "Avancerad nivå"@,
            Difficulty::ContinuationUndergraduate => "Fortsättningskurs på grundnivå"@,
            Difficulty::ContinuationAdvanced => "Fortsättningskurs på avancerad nivå"@,
            Difficulty::IntroductoryUndergraduate => "Nybörjarkurs på grundnivå"@,
        }
    }

    /// Renders the canonical display string.
    pub fn display_name(self) -> (r: &'static str)
        ensures
            r@ == self.spec_display(),
    {
        match self {
            Difficulty::Preparatory => "Förberedande nivå",
            Difficulty::Undergraduate => "Grundnivå",
            Difficulty::Advanced => "Avancerad nivå",
            Difficulty::ContinuationUndergraduate => "Fortsättningskurs på grundnivå",
            Difficulty::ContinuationAdvanced => "Fortsättningskurs på avancerad nivå",
            Difficulty::IntroductoryUndergraduate => "Nybörjarkurs på grundnivå",
        }
    }

    /// Display-string decoding (exact match).
    pub open spec fn spec_from_display(s: Seq<char>) -> Option<Difficulty> {
        if s == "Förberedande nivå"@ {
            Some(Difficulty::Preparatory)
        } else if s == "Grundnivå"@ {
            Some(Difficulty::Undergraduate)
        } else if s == "Avancerad nivå"@ {
            Some(Difficulty::Advanced)
        } else if s == "Fortsättningskurs på grundnivå"@ {
            Some(Difficulty::ContinuationUndergraduate)
        } else if s == "Fortsättningskurs på avancerad nivå"@ {
            Some(Difficulty::ContinuationAdvanced)
        } else if s == "Nybörjarkurs på grundnivå"@ {
            Some(Difficulty::IntroductoryUndergraduate)
        } else {
            None
        }
    }

    /// The closed set of display strings, in canonical order.
    pub open spec fn spec_display_names() -> Seq<Seq<char>> {
        seq!["Förberedande nivå"@, "Grundnivå"@, "Avancerad nivå"@, "Fortsättningskurs på grundnivå"@, "Fortsättningskurs på avancerad nivå"@, "Nybörjarkurs på grundnivå"@]
    }

    /// Parses a canonical display string; any other string is
    /// rejected with an error naming it and the allowed set.
    pub fn from_display(s: &str) -> (r: Result<Difficulty, UnknownVariant>)
        ensures
            match r {
                Ok(v) => Difficulty::spec_from_display(s@) == Some(v),
                Err(e) => Difficulty::spec_from_display(s@) is None && e.received@ == s@
                    && e.allowed.deep_view() =~= Difficulty::spec_display_names(),
            },
    {
        if text::str_eq(s, "Förberedande nivå") {
            Ok(Difficulty::Preparatory)
        } else if text::str_eq(s, "Grundnivå") {
            Ok(Difficulty::Undergraduate)
        } else if text::str_eq(s, "Avancerad nivå") {
            Ok(Difficulty::Advanced)
        } else if text::str_eq(s, "Fortsättningskurs på grundnivå") {
            Ok(Difficulty::ContinuationUndergraduate)
        } else if text::str_eq(s, "Fortsättningskurs på avancerad nivå") {
            Ok(Difficulty::ContinuationAdvanced)
        } else if text::str_eq(s, "Nybörjarkurs på grundnivå") {
            Ok(Difficulty::IntroductoryUndergraduate)
        } else {
            let mut allowed: Vec<String> = Vec::new();
            allowed.push("Förberedande nivå".to_owned());
            allowed.push("Grundnivå".to_owned());
            allowed.push("Avancerad nivå".to_owned());
            allowed.push("Fortsättningskurs på grundnivå".to_owned());
            allowed.push("Fortsättningskurs på avancerad nivå".to_owned());
            allowed.push("Nybörjarkurs på grundnivå".to_owned());
            proof {
                assert(allowed.deep_view() =~= Difficulty::spec_display_names());
            }
            Err(UnknownVariant { received: s.to_owned(), allowed })
        }
    }

    /// Every display string decodes back to the value it renders.
    pub proof fn lemma_display_round_trip(v: Difficulty)
        ensures
            Difficulty::spec_from_display(v.spec_display()) == Some(v),
    {
        reveal_strlit("Förberedande nivå");
        reveal_strlit("Grundnivå");
        reveal_strlit("Avancerad nivå");
        reveal_strlit("Fortsättningskurs på grundnivå");
        reveal_strlit("Fortsättningskurs på avancerad nivå");
        reveal_strlit("Nybörjarkurs på grundnivå");
        lemma_char_seq_ne("Grundnivå"@, "Förberedande nivå"@, 0);
        lemma_char_seq_ne("Avancerad nivå"@, "Förberedande nivå"@, 0);
        lemma_char_seq_ne("Avancerad nivå"@, "Grundnivå"@, 0);
        lemma_char_seq_ne("Fortsättningskurs på grundnivå"@, "Förberedande nivå"@, 1);
        lemma_char_seq_ne("Fortsättningskurs på grundnivå"@, "Grundnivå"@, 0);
        lemma_char_seq_ne("Fortsättningskurs på grundnivå"@, "Avancerad nivå"@, 0);
        lemma_char_seq_ne("Fortsättningskurs på avancerad nivå"@, "Förberedande nivå"@, 1);
        lemma_char_seq_ne("Fortsättningskurs på avancerad nivå"@, "Grundnivå"@, 0);
        lemma_char_seq_ne("Fortsättningskurs på avancerad nivå"@, "Avancerad nivå"@, 0);
        lemma_char_seq_ne("Fortsättningskurs på avancerad nivå"@, "Fortsättningskurs på grundnivå"@, 21);
        lemma_char_seq_ne("Nybörjarkurs på grundnivå"@, "Förberedande nivå"@, 0);
        lemma_char_seq_ne("Nybörjarkurs på grundnivå"@, "Grundnivå"@, 0);
        lemma_char_seq_ne("Nybörjarkurs på grundnivå"@, "Avancerad nivå"@, 0);
        lemma_char_seq_ne("Nybörjarkurs på grundnivå"@, "Fortsättningskurs på grundnivå"@, 0);
        lemma_char_seq_ne("Nybörjarkurs på grundnivå"@, "Fortsättningskurs på avancerad nivå"@, 0);
    }

    /// The closed set of wire codes, in canonical order.
    pub open spec fn spec_wire_codes() -> Seq<Seq<char>> {
        seq!["pr"@, "ug"@, "ad"@, "cu"@, "ca"@, "iu"@]
    }

    /// Wire decoding: a function of the code alone.
    pub open spec fn spec_from_wire(s: Seq<char>) -> Option<Difficulty> {
        if s == "pr"@ {
            Some(Difficulty::Preparatory)
        } else if s == "ug"@ {
            Some(Difficulty::Undergraduate)
        } else if s == "ad"@ {
            Some(Difficulty::Advanced)
        } else if s == "cu"@ {
            Some(Difficulty::ContinuationUndergraduate)
        } else if s == "ca"@ {
            Some(Difficulty::ContinuationAdvanced)
        } else if s == "iu"@ {
            Some(Difficulty::IntroductoryUndergraduate)
        } else {
            None
        }
    }

    /// Decodes a short wire code; any string outside the closed alphabet is
    /// rejected with an error naming it and the allowed set.
    pub fn from_wire(s: &str) -> (r: Result<Difficulty, UnknownVariant>)
        ensures
            match r {
                Ok(v) => Difficulty::spec_from_wire(s@) == Some(v),
                Err(e) => Difficulty::spec_from_wire(s@) is None && e.received@ == s@
                    && e.allowed.deep_view() =~= Difficulty::spec_wire_codes(),
            },
    {
        if text::str_eq(s, "pr") {
            Ok(Difficulty::Preparatory)
        } else if text::str_eq(s, "ug") {
            Ok(Difficulty::Undergraduate)
        } else if text::str_eq(s, "ad") {
            Ok(Difficulty::Advanced)
        } else if text::str_eq(s, "cu") {
            Ok(Difficulty::ContinuationUndergraduate)
        } else if text::str_eq(s, "ca") {
            Ok(Difficulty::ContinuationAdvanced)
        } else if text::str_eq(s, "iu") {
            Ok(Difficulty::IntroductoryUndergraduate)
        } else {
            let mut allowed: Vec<String> = Vec::new();
            allowed.push("pr".to_owned());
            allowed.push("ug".to_owned());
            allowed.push("ad".to_owned());
            allowed.push("cu".to_owned());
            allowed.push("ca".to_owned());
            allowed.push("iu".to_owned());
            proof {
                assert(allowed.deep_view() =~= Difficulty::spec_wire_codes());
            }
            Err(UnknownVariant { received: s.to_owned(), allowed })
        }
    }

    /// The wire decoding is total and exhaustive over its closed alphabet:
    /// every code in the declared set decodes, the decoded values are
    /// pairwise distinct, and every string outside the set is refused.
    pub proof fn lemma_wire_exhaustive()
        ensures
            Difficulty::spec_from_wire("pr"@) == Some(Difficulty::Preparatory),
            Difficulty::spec_from_wire("ug"@) == Some(Difficulty::Undergraduate),
            Difficulty::spec_from_wire("ad"@) == Some(Difficulty::Advanced),
            Difficulty::spec_from_wire("cu"@) == Some(Difficulty::ContinuationUndergraduate),
            Difficulty::spec_from_wire("ca"@) == Some(Difficulty::ContinuationAdvanced),
            Difficulty::spec_from_wire("iu"@) == Some(Difficulty::IntroductoryUndergraduate),
            forall|s: Seq<char>|
                Difficulty::spec_from_wire(s) is Some ==> Difficulty::spec_wire_codes().contains(s),
    {
        reveal_strlit("pr");
        reveal_strlit("ug");
        reveal_strlit("ad");
        reveal_strlit("cu");
        reveal_strlit("ca");
        reveal_strlit("iu");
        lemma_char_seq_ne("ug"@, "pr"@, 0);
        lemma_char_seq_ne("ad"@, "pr"@, 0);
        lemma_char_seq_ne("ad"@, "ug"@, 0);
        lemma_char_seq_ne("cu"@, "pr"@, 0);
        lemma_char_seq_ne("cu"@, "ug"@, 0);
        lemma_char_seq_ne("cu"@, "ad"@, 0);
        lemma_char_seq_ne("ca"@, "pr"@, 0);
        lemma_char_seq_ne("ca"@, "ug"@, 0);
        lemma_char_seq_ne("ca"@, "ad"@, 0);
        lemma_char_seq_ne("ca"@, "cu"@, 1);
        lemma_char_seq_ne("iu"@, "pr"@, 0);
        lemma_char_seq_ne("iu"@, "ug"@, 0);
        lemma_char_seq_ne("iu"@, "ad"@, 0);
        lemma_char_seq_ne("iu"@, "cu"@, 0);
        lemma_char_seq_ne("iu"@, "ca"@, 0);
        assert forall|s: Seq<char>|
            Difficulty::spec_from_wire(s) is Some implies Difficulty::spec_wire_codes().contains(s) by {
            let codes = Difficulty::spec_wire_codes();
            if s == "pr"@ {
                assert(codes[0] == s);
            } else if s == "ug"@ {
                assert(codes[1] == s);
            } else if s == "ad"@ {
                assert(codes[2] == s);
            } else if s == "cu"@ {
                assert(codes[3] == s);
            } else if s == "ca"@ {
                assert(codes[4] == s);
            } else {
                assert(codes[5] == s);
            }
        }
    }
}

// ---------------------------------------------------------------------------
// Category
// ---------------------------------------------------------------------------

/// A subject category tag of a course.
#[derive(Debug, Clone, Copy, Hash, PartialEq, Eq, Structural)]
pub enum Category {
    Data,
    Economy,
    Environment,
    Health,
    Law,
    Education,
    Music,
    Social,
    Technology,
    Media,
    Interdisciplinary,
    Language,
    Mathematics,
    Information,
    Humanities,
    Behavioral,
}

impl Category {
    /// Canonical display string.
    pub open spec fn spec_display(self) -> Seq<char> {
        match self {
            Category::Data => "Data och IT"@,
            Category::Economy => "Ekonomi, organisation och företagande"@,
            Category::Environment => "Energi, miljö och hållbar utveckling"@,
            Category::Health => "Hälsa, vård och idrott"@,
            Category::Law => "Juridik och rättsvetenskap"@,
            Category::Education => "Lärare, undervisning och pedagogik"@,
            Category::Music => "Musik och teater"@,
            Category::Social => "Samhällsvetenskap"@,
            Category::Technology => "Teknik"@,
            Category::Media => "Media"@,
            Category::Interdisciplinary => "Tvärvetenskap"@,
            Category::Language => "Språk"@,
            Category::Mathematics => "Matematik och naturvetenskap"@,
            Category::Information => "Information och kommunikation"@,
            Category::Humanities => "Humaniora"@,
            Category::Behavioral => "Beteendevetenskap"@,
        }
    }

    /// Renders the canonical display string.
    pub fn display_name(self) -> (r: &'static str)
        ensures
            r@ == self.spec_display(),
    {
        match self {
            Category::Data => "Data och IT",
            Category::Economy => "Ekonomi, organisation och företagande",
            Category::Environment => "Energi, miljö och hållbar utveckling",
            Category::Health => "Hälsa, vård och idrott",
            Category::Law => "Juridik och rättsvetenskap",
            Category::Education => "Lärare, undervisning och pedagogik",
            Category::Music => "Musik och teater",
            Category::Social => "Samhällsvetenskap",
            Category::Technology => "Teknik",
            Category::Media => "Media",
            Category::Interdisciplinary => "Tvärvetenskap",
            Category::Language => "Språk",
            Category::Mathematics => "Matematik och naturvetenskap",
            Category::Information => "Information och kommunikation",
            Category::Humanities => "Humaniora",
            Category::Behavioral => "Beteendevetenskap",
        }
    }

    /// Display-string decoding (exact match).
    pub open spec fn spec_from_display(s: Seq<char>) -> Option<Category> {
        if s == "Data och IT"@ {
            Some(Category::Data)
        } else if s == "Ekonomi, organisation och företagande"@ {
            Some(Category::Economy)
        } else if s == "Energi, miljö och hållbar utveckling"@ {
            Some(Category::Environment)
        } else if s == "Hälsa, vård och idrott"@ {
            Some(Category::Health)
        } else if s == "Juridik och rättsvetenskap"@ {
            Some(Category::Law)
        } else if s == "Lärare, undervisning och pedagogik"@ {
            Some(Category::Education)
        } else if s == "Musik och teater"@ {
            Some(Category::Music)
        } else if s == "Samhällsvetenskap"@ {
            Some(Category::Social)
        } else if s == "Teknik"@ {
            Some(Category::Technology)
        } else if s == "Media"@ {
            Some(Category::Media)
        } else if s == "Tvärvetenskap"@ {
            Some(Category::Interdisciplinary)
        } else if s == "Språk"@ {
            Some(Category::Language)
        } else if s == "Matematik och naturvetenskap"@ {
            Some(Category::Mathematics)
        } else if s == "Information och kommunikation"@ {
            Some(Category::Information)
        } else if s == "Humaniora"@ {
            Some(Category::Humanities)
        } else if s == "Beteendevetenskap"@ {
            Some(Category::Behavioral)
        } else {
            None
        }
    }

    /// The closed set of display strings, in canonical order.
    pub open spec fn spec_display_names() -> Seq<Seq<char>> {
        seq!["Data och IT"@, "Ekonomi, organisation och företagande"@, "Energi, miljö och hållbar utveckling"@, "Hälsa, vård och idrott"@, "Juridik och rättsvetenskap"@, "Lärare, undervisning och pedagogik"@, "Musik och teater"@, "Samhällsvetenskap"@, "Teknik"@, "Media"@, "Tvärvetenskap"@, "Språk"@, "Matematik och naturvetenskap"@, "Information och kommunikation"@, "Humaniora"@, "Beteendevetenskap"@]
    }

    /// Parses a canonical display string; any other string is
    /// rejected with an error naming it and the allowed set.
    pub fn from_display(s: &str) -> (r: Result<Category, UnknownVariant>)
        ensures
            match r {
                Ok(v) => Category::spec_from_display(s@) == Some(v),
                Err(e) => Category::spec_from_display(s@) is None && e.received@ == s@
                    && e.allowed.deep_view() =~= Category::spec_display_names(),
            },
    {
        if text::str_eq(s, "Data och IT") {
            Ok(Category::Data)
        } else if text::str_eq(s, "Ekonomi, organisation och företagande") {
            Ok(Category::Economy)
        } else if text::str_eq(s, "Energi, miljö och hållbar utveckling") {
            Ok(Category::Environment)
        } else if text::str_eq(s, "Hälsa, vård och idrott") {
            Ok(Category::Health)
        } else if text::str_eq(s, "Juridik och rättsvetenskap") {
            Ok(Category::Law)
        } else if text::str_eq(s, "Lärare, undervisning och pedagogik") {
            Ok(Category::Education)
        } else if text::str_eq(s, "Musik och teater") {
            Ok(Category::Music)
        } else if text::str_eq(s, "Samhällsvetenskap") {
            Ok(Category::Social)
        } else if text::str_eq(s, "Teknik") {
            Ok(Category::Technology)
        } else if text::str_eq(s, "Media") {
            Ok(Category::Media)
        } else if text::str_eq(s, "Tvärvetenskap") {
            Ok(Category::Interdisciplinary)
        } else if text::str_eq(s, "Språk") {
            Ok(Category::Language)
        } else if text::str_eq(s, "Matematik och naturvetenskap") {
            Ok(Category::Mathematics)
        } else if text::str_eq(s, "Information och kommunikation") {
            Ok(Category::Information)
        } else if text::str_eq(s, "Humaniora") {
            Ok(Category::Humanities)
        } else if text::str_eq(s, "Beteendevetenskap") {
            Ok(Category::Behavioral)
        } else {
            let mut allowed: Vec<String> = Vec::new();
            allowed.push("Data och IT".to_owned());
            allowed.push("Ekonomi, organisation och företagande".to_owned());
            allowed.push("Energi, miljö och hållbar utveckling".to_owned());
            allowed.push("Hälsa, vård och idrott".to_owned());
            allowed.push("Juridik och rättsvetenskap".to_owned());
            allowed.push("Lärare, undervisning och pedagogik".to_owned());
            allowed.push("Musik och teater".to_owned());
            allowed.push("Samhällsvetenskap".to_owned());
            allowed.push("Teknik".to_owned());
            allowed.push("Media".to_owned());
            allowed.push("Tvärvetenskap".to_owned());
            allowed.push("Språk".to_owned());
            allowed.push("Matematik och naturvetenskap".to_owned());
            allowed.push("Information och kommunikation".to_owned());
            allowed.push("Humaniora".to_owned());
            allowed.push("Beteendevetenskap".to_owned());
            proof {
                assert(allowed.deep_view() =~= Category::spec_display_names());
            }
            Err(UnknownVariant { received: s.to_owned(), allowed })
        }
    }

    /// Every display string decodes back to the value it renders.
    pub proof fn lemma_display_round_trip(v: Category)
        ensures
            Category::spec_from_display(v.spec_display()) == Some(v),
    {
        reveal_strlit("Data och IT");
        reveal_strlit("Ekonomi, organisation och företagande");
        reveal_strlit("Energi, miljö och hållbar utveckling");
        reveal_strlit("Hälsa, vård och idrott");
        reveal_strlit("Juridik och rättsvetenskap");
        reveal_strlit("Lärare, undervisning och pedagogik");
        reveal_strlit("Musik och teater");
        reveal_strlit("Samhällsvetenskap");
        reveal_strlit("Teknik");
        reveal_strlit("Media");
        reveal_strlit("Tvärvetenskap");
        reveal_strlit("Språk");
        reveal_strlit("Matematik och naturvetenskap");
        reveal_strlit("Information och kommunikation");
        reveal_strlit("Humaniora");
        reveal_strlit("Beteendevetenskap");
        lemma_char_seq_ne("Ekonomi, organisation och företagande"@, "Data och IT"@, 0);
        lemma_char_seq_ne("Energi, miljö och hållbar utveckling"@, "Data och IT"@, 0);
        lemma_char_seq_ne("Energi, miljö och hållbar utveckling"@, "Ekonomi, organisation och företagande"@, 1);
        lemma_char_seq_ne("Hälsa, vård och idrott"@, "Data och IT"@, 0);
        lemma_char_seq_ne("Hälsa, vård och idrott"@, "Ekonomi, organisation och företagande"@, 0);
        lemma_char_seq_ne("Hälsa, vård och idrott"@, "Energi, miljö och hållbar utveckling"@, 0);
        lemma_char_seq_ne("Juridik och rättsvetenskap"@, "Data och IT"@, 0);
        lemma_char_seq_ne("Juridik och rättsvetenskap"@, "Ekonomi, organisation och företagande"@, 0);
        lemma_char_seq_ne("Juridik och rättsvetenskap"@, "Energi, miljö och hållbar utveckling"@, 0);
        lemma_char_seq_ne("Juridik och rättsvetenskap"@, "Hälsa, vård och idrott"@, 0);
        lemma_char_seq_ne("Lärare, undervisning och pedagogik"@, "Data och IT"@, 0);
        lemma_char_seq_ne("Lärare, undervisning och pedagogik"@, "Ekonomi, organisation och företagande"@, 0);
        lemma_char_seq_ne("Lärare, undervisning och pedagogik"@, "Energi, miljö och hållbar utveckling"@, 0);
        lemma_char_seq_ne("Lärare, undervisning och pedagogik"@, "Hälsa, vård och idrott"@, 0);
        lemma_char_seq_ne("Lärare, undervisning och pedagogik"@, "Juridik och rättsvetenskap"@, 0);
        lemma_char_seq_ne("Musik och teater"@, "Data och IT"@, 0);
        lemma_char_seq_ne("Musik och teater"@, "Ekonomi, organisation och företagande"@, 0);
        lemma_char_seq_ne("Musik och teater"@, "Energi, miljö och hållbar utveckling"@, 0);
        lemma_char_seq_ne("Musik och teater"@, "Hälsa, vård och idrott"@, 0);
        lemma_char_seq_ne("Musik och teater"@, "Juridik och rättsvetenskap"@, 0);
        lemma_char_seq_ne("Musik och teater"@, "Lärare, undervisning och pedagogik"@, 0);
        lemma_char_seq_ne("Samhällsvetenskap"@, "Data och IT"@, 0);
        lemma_char_seq_ne("Samhällsvetenskap"@, "Ekonomi, organisation och företagande"@, 0);
        lemma_char_seq_ne("Samhällsvetenskap"@, "Energi, miljö och hållbar utveckling"@, 0);
        lemma_char_seq_ne("Samhällsvetenskap"@, "Hälsa, vård och idrott"@, 0);
        lemma_char_seq_ne("Samhällsvetenskap"@, "Juridik och rättsvetenskap"@, 0);
        lemma_char_seq_ne("Samhällsvetenskap"@, "Lärare, undervisning och pedagogik"@, 0);
        lemma_char_seq_ne("Samhällsvetenskap"@, "Musik och teater"@, 0);
        lemma_char_seq_ne("Teknik"@, "Data och IT"@, 0);
        lemma_char_seq_ne("Teknik"@, "Ekonomi, organisation och företagande"@, 0);
        lemma_char_seq_ne("Teknik"@, "Energi, miljö och hållbar utveckling"@, 0);
        lemma_char_seq_ne("Teknik"@, "Hälsa, vård och idrott"@, 0);
        lemma_char_seq_ne("Teknik"@, "Juridik och rättsvetenskap"@, 0);
        lemma_char_seq_ne("Teknik"@, "Lärare, undervisning och pedagogik"@, 0);
        lemma_char_seq_ne("Teknik"@, "Musik och teater"@, 0);
        lemma_char_seq_ne("Teknik"@, "Samhällsvetenskap"@, 0);
        lemma_char_seq_ne("Media"@, "Data och IT"@, 0);
        lemma_char_seq_ne("Media"@, "Ekonomi, organisation och företagande"@, 0);
        lemma_char_seq_ne("Media"@, "Energi, miljö och hållbar utveckling"@, 0);
        lemma_char_seq_ne("Media"@, "Hälsa, vård och idrott"@, 0);
        lemma_char_seq_ne("Media"@, "Juridik och rättsvetenskap"@, 0);
        lemma_char_seq_ne("Media"@, "Lärare, undervisning och pedagogik"@, 0);
        lemma_char_seq_ne("Media"@, "Musik och teater"@, 1);
        lemma_char_seq_ne("Media"@, "Samhällsvetenskap"@, 0);
        lemma_char_seq_ne("Media"@, "Teknik"@, 0);
        lemma_char_seq_ne("Tvärvetenskap"@, "Data och IT"@, 0);
        lemma_char_seq_ne("Tvärvetenskap"@, "Ekonomi, organisation och företagande"@, 0);
        lemma_char_seq_ne("Tvärvetenskap"@, "Energi, miljö och hållbar utveckling"@, 0);
        lemma_char_seq_ne("Tvärvetenskap"@, "Hälsa, vård och idrott"@, 0);
        lemma_char_seq_ne("Tvärvetenskap"@, "Juridik och rättsvetenskap"@, 0);
        lemma_char_seq_ne("Tvärvetenskap"@, "Lärare, undervisning och pedagogik"@, 0);
        lemma_char_seq_ne("Tvärvetenskap"@, "Musik och teater"@, 0);
        lemma_char_seq_ne("Tvärvetenskap"@, "Samhällsvetenskap"@, 0);
        lemma_char_seq_ne("Tvärvetenskap"@, "Teknik"@, 1);
        lemma_char_seq_ne("Tvärvetenskap"@, "Media"@, 0);
        lemma_char_seq_ne("Språk"@, "Data och IT"@, 0);
        lemma_char_seq_ne("Språk"@, "Ekonomi, organisation och företagande"@, 0);
        lemma_char_seq_ne("Språk"@, "Energi, miljö och hållbar utveckling"@, 0);
        lemma_char_seq_ne("Språk"@, "Hälsa, vård och idrott"@, 0);
        lemma_char_seq_ne("Språk"@, "Juridik och rättsvetenskap"@, 0);
        lemma_char_seq_ne("Språk"@, "Lärare, undervisning och pedagogik"@, 0);
        lemma_char_seq_ne("Språk"@, "Musik och teater"@, 0);
        lemma_char_seq_ne("Språk"@, "Samhällsvetenskap"@, 1);
        lemma_char_seq_ne("Språk"@, "Teknik"@, 0);
        lemma_char_seq_ne("Språk"@, "Media"@, 0);
        lemma_char_seq_ne("Språk"@, "Tvärvetenskap"@, 0);
        lemma_char_seq_ne("Matematik och naturvetenskap"@, "Data och IT"@, 0);
        lemma_char_seq_ne("Matematik och naturvetenskap"@, "Ekonomi, organisation och företagande"@, 0);
        lemma_char_seq_ne("Matematik och naturvetenskap"@, "Energi, miljö och hållbar utveckling"@, 0);
        lemma_char_seq_ne("Matematik och naturvetenskap"@, "Hälsa, vård och idrott"@, 0);
        lemma_char_seq_ne("Matematik och naturvetenskap"@, "Juridik och rättsvetenskap"@, 0);
        lemma_char_seq_ne("Matematik och naturvetenskap"@, "Lärare, undervisning och pedagogik"@, 0);
        lemma_char_seq_ne("Matematik och naturvetenskap"@, "Musik och teater"@, 1);
        lemma_char_seq_ne("Matematik och naturvetenskap"@, "Samhällsvetenskap"@, 0);
        lemma_char_seq_ne("Matematik och naturvetenskap"@, "Teknik"@, 0);
        lemma_char_seq_ne("Matematik och naturvetenskap"@, "Media"@, 1);
        lemma_char_seq_ne("Matematik och naturvetenskap"@, "Tvärvetenskap"@, 0);
        lemma_char_seq_ne("Matematik och naturvetenskap"@, "Språk"@, 0);
        lemma_char_seq_ne("Information och kommunikation"@, "Data och IT"@, 0);
        lemma_char_seq_ne("Information och kommunikation"@, "Ekonomi, organisation och företagande"@, 0);
        lemma_char_seq_ne("Information och kommunikation"@, "Energi, miljö och hållbar utveckling"@, 0);
        lemma_char_seq_ne("Information och kommunikation"@, "Hälsa, vård och idrott"@, 0);
        lemma_char_seq_ne("Information och kommunikation"@, "Juridik och rättsvetenskap"@, 0);
        lemma_char_seq_ne("Information och kommunikation"@, "Lärare, undervisning och pedagogik"@, 0);
        lemma_char_seq_ne("Information och kommunikation"@, "Musik och teater"@, 0);
        lemma_char_seq_ne("Information och kommunikation"@, "Samhällsvetenskap"@, 0);
        lemma_char_seq_ne("Information och kommunikation"@, "Teknik"@, 0);
        lemma_char_seq_ne("Information och kommunikation"@, "Media"@, 0);
        lemma_char_seq_ne("Information och kommunikation"@, "Tvärvetenskap"@, 0);
        lemma_char_seq_ne("Information och kommunikation"@, "Språk"@, 0);
        lemma_char_seq_ne("Information och kommunikation"@, "Matematik och naturvetenskap"@, 0);
        lemma_char_seq_ne("Humaniora"@, "Data och IT"@, 0);
        lemma_char_seq_ne("Humaniora"@, "Ekonomi, organisation och företagande"@, 0);
        lemma_char_seq_ne("Humaniora"@, "Energi, miljö och hållbar utveckling"@, 0);
        lemma_char_seq_ne("Humaniora"@, "Hälsa, vård och idrott"@, 1);
        lemma_char_seq_ne("Humaniora"@, "Juridik och rättsvetenskap"@, 0);
        lemma_char_seq_ne("Humaniora"@, "Lärare, undervisning och pedagogik"@, 0);
        lemma_char_seq_ne("Humaniora"@, "Musik och teater"@, 0);
        lemma_char_seq_ne("Humaniora"@, "Samhällsvetenskap"@, 0);
        lemma_char_seq_ne("Humaniora"@, "Teknik"@, 0);
        lemma_char_seq_ne("Humaniora"@, "Media"@, 0);
        lemma_char_seq_ne("Humaniora"@, "Tvärvetenskap"@, 0);
        lemma_char_seq_ne("Humaniora"@, "Språk"@, 0);
        lemma_char_seq_ne("Humaniora"@, "Matematik och naturvetenskap"@, 0);
        lemma_char_seq_ne("Humaniora"@, "Information och kommunikation"@, 0);
        lemma_char_seq_ne("Beteendevetenskap"@, "Data och IT"@, 0);
        lemma_char_seq_ne("Beteendevetenskap"@, "Ekonomi, organisation och företagande"@, 0);
        lemma_char_seq_ne("Beteendevetenskap"@, "Energi, miljö och hållbar utveckling"@, 0);
        lemma_char_seq_ne("Beteendevetenskap"@, "Hälsa, vård och idrott"@, 0);
        lemma_char_seq_ne("Beteendevetenskap"@, "Juridik och rättsvetenskap"@, 0);
        lemma_char_seq_ne("Beteendevetenskap"@, "Lärare, undervisning och pedagogik"@, 0);
        lemma_char_seq_ne("Beteendevetenskap"@, "Musik och teater"@, 0);
        lemma_char_seq_ne("Beteendevetenskap"@, "Samhällsvetenskap"@, 0);
        lemma_char_seq_ne("Beteendevetenskap"@, "Teknik"@, 0);
        lemma_char_seq_ne("Beteendevetenskap"@, "Media"@, 0);
        lemma_char_seq_ne("Beteendevetenskap"@, "Tvärvetenskap"@, 0);
        lemma_char_seq_ne("Beteendevetenskap"@, "Språk"@, 0);
        lemma_char_seq_ne("Beteendevetenskap"@, "Matematik och naturvetenskap"@, 0);
        lemma_char_seq_ne("Beteendevetenskap"@, "Information och kommunikation"@, 0);
        lemma_char_seq_ne("Beteendevetenskap"@, "Humaniora"@, 0);
    }

    /// The closed set of wire codes, in canonical order.
    pub open spec fn spec_wire_codes() -> Seq<Seq<char>> {
        seq!["dat"@, "eco"@, "env"@, "hth"@, "law"@, "edu"@, "mus"@, "soc"@, "tec"@, "med"@, "ind"@, "lng"@, "mat"@, "inf"@, "hum"@, "bhv"@]
    }

    /// Wire decoding: a function of the code alone.
    pub open spec fn spec_from_wire(s: Seq<char>) -> Option<Category> {
        if s == "dat"@ {
            Some(Category::Data)
        } else if s == "eco"@ {
            Some(Category::Economy)
        } else if s == "env"@ {
            Some(Category::Environment)
        } else if s == "hth"@ {
            Some(Category::Health)
        } else if s == "law"@ {
            Some(Category::Law)
        } else if s == "edu"@ {
            Some(Category::Education)
        } else if s == "mus"@ {
            Some(Category::Music)
        } else if s == "soc"@ {
            Some(Category::Social)
        } else if s == "tec"@ {
            Some(Category::Technology)
        } else if s == "med"@ {
            Some(Category::Media)
        } else if s == "ind"@ {
            Some(Category::Interdisciplinary)
        } else if s == "lng"@ {
            Some(Category::Language)
        } else if s == "mat"@ {
            Some(Category::Mathematics)
        } else if s == "inf"@ {
            Some(Category::Information)
        } else if s == "hum"@ {
            Some(Category::Humanities)
        } else if s == "bhv"@ {
            Some(Category::Behavioral)
        } else {
            None
        }
    }

    /// Decodes a short wire code; any string outside the closed alphabet is
    /// rejected with an error naming it and the allowed set.
    pub fn from_wire(s: &str) -> (r: Result<Category, UnknownVariant>)
        ensures
            match r {
                Ok(v) => Category::spec_from_wire(s@) == Some(v),
                Err(e) => Category::spec_from_wire(s@) is None && e.received@ == s@
                    && e.allowed.deep_view() =~= Category::spec_wire_codes(),
            },
    {
        if text::str_eq(s, "dat") {
            Ok(Category::Data)
        } else if text::str_eq(s, "eco") {
            Ok(Category::Economy)
        } else if text::str_eq(s, "env") {
            Ok(Category::Environment)
        } else if text::str_eq(s, "hth") {
            Ok(Category::Health)
        } else if text::str_eq(s, "law") {
            Ok(Category::Law)
        } else if text::str_eq(s, "edu") {
            Ok(Category::Education)
        } else if text::str_eq(s, "mus") {
            Ok(Category::Music)
        } else if text::str_eq(s, "soc") {
            Ok(Category::Social)
        } else if text::str_eq(s, "tec") {
            Ok(Category::Technology)
        } else if text::str_eq(s, "med") {
            Ok(Category::Media)
        } else if text::str_eq(s, "ind") {
            Ok(Category::Interdisciplinary)
        } else if text::str_eq(s, "lng") {
            Ok(Category::Language)
        } else if text::str_eq(s, "mat") {
            Ok(Category::Mathematics)
        } else if text::str_eq(s, "inf") {
            Ok(Category::Information)
        } else if text::str_eq(s, "hum") {
            Ok(Category::Humanities)
        } else if text::str_eq(s, "bhv") {
            Ok(Category::Behavioral)
        } else {
            let mut allowed: Vec<String> = Vec::new();
            allowed.push("dat".to_owned());
            allowed.push("eco".to_owned());
            allowed.push("env".to_owned());
            allowed.push("hth".to_owned());
            allowed.push("law".to_owned());
            allowed.push("edu".to_owned());
            allowed.push("mus".to_owned());
            allowed.push("soc".to_owned());
            allowed.push("tec".to_owned());
            allowed.push("med".to_owned());
            allowed.push("ind".to_owned());
            allowed.push("lng".to_owned());
            allowed.push("mat".to_owned());
            allowed.push("inf".to_owned());
            allowed.push("hum".to_owned());
            allowed.push("bhv".to_owned());
            proof {
                assert(allowed.deep_view() =~= Category::spec_wire_codes());
            }
            Err(UnknownVariant { received: s.to_owned(), allowed })
        }
    }

    /// The wire decoding is total and exhaustive over its closed alphabet:
    /// every code in the declared set decodes, the decoded values are
    /// pairwise distinct, and every string outside the set is refused.
    pub proof fn lemma_wire_exhaustive()
        ensures
            Category::spec_from_wire("dat"@) == Some(Category::Data),
            Category::spec_from_wire("eco"@) == Some(Category::Economy),
            Category::spec_from_wire("env"@) == Some(Category::Environment),
            Category::spec_from_wire("hth"@) == Some(Category::Health),
            Category::spec_from_wire("law"@) == Some(Category::Law),
            Category::spec_from_wire("edu"@) == Some(Category::Education),
            Category::spec_from_wire("mus"@) == Some(Category::Music),
            Category::spec_from_wire("soc"@) == Some(Category::Social),
            Category::spec_from_wire("tec"@) == Some(Category::Technology),
            Category::spec_from_wire("med"@) == Some(Category::Media),
            Category::spec_from_wire("ind"@) == Some(Category::Interdisciplinary),
            Category::spec_from_wire("lng"@) == Some(Category::Language),
            Category::spec_from_wire("mat"@) == Some(Category::Mathematics),
            Category::spec_from_wire("inf"@) == Some(Category::Information),
            Category::spec_from_wire("hum"@) == Some(Category::Humanities),
            Category::spec_from_wire("bhv"@) == Some(Category::Behavioral),
            forall|s: Seq<char>|
                Category::spec_from_wire(s) is Some ==> Category::spec_wire_codes().contains(s),
    {
        reveal_strlit("dat");
        reveal_strlit("eco");
        reveal_strlit("env");
        reveal_strlit("hth");
        reveal_strlit("law");
        reveal_strlit("edu");
        reveal_strlit("mus");
        reveal_strlit("soc");
        reveal_strlit("tec");
        reveal_strlit("med");
        reveal_strlit("ind");
        reveal_strlit("lng");
        reveal_strlit("mat");
        reveal_strlit("inf");
        reveal_strlit("hum");
        reveal_strlit("bhv");
        lemma_char_seq_ne("eco"@, "dat"@, 0);
        lemma_char_seq_ne("env"@, "dat"@, 0);
        lemma_char_seq_ne("env"@, "eco"@, 1);
        lemma_char_seq_ne("hth"@, "dat"@, 0);
        lemma_char_seq_ne("hth"@, "eco"@, 0);
        lemma_char_seq_ne("hth"@, "env"@, 0);
        lemma_char_seq_ne("law"@, "dat"@, 0);
        lemma_char_seq_ne("law"@, "eco"@, 0);
        lemma_char_seq_ne("law"@, "env"@, 0);
        lemma_char_seq_ne("law"@, "hth"@, 0);
        lemma_char_seq_ne("edu"@, "dat"@, 0);
        lemma_char_seq_ne("edu"@, "eco"@, 1);
        lemma_char_seq_ne("edu"@, "env"@, 1);
        lemma_char_seq_ne("edu"@, "hth"@, 0);
        lemma_char_seq_ne("edu"@, "law"@, 0);
        lemma_char_seq_ne("mus"@, "dat"@, 0);
        lemma_char_seq_ne("mus"@, "eco"@, 0);
        lemma_char_seq_ne("mus"@, "env"@, 0);
        lemma_char_seq_ne("mus"@, "hth"@, 0);
        lemma_char_seq_ne("mus"@, "law"@, 0);
        lemma_char_seq_ne("mus"@, "edu"@, 0);
        lemma_char_seq_ne("soc"@, "dat"@, 0);
        lemma_char_seq_ne("soc"@, "eco"@, 0);
        lemma_char_seq_ne("soc"@, "env"@, 0);
        lemma_char_seq_ne("soc"@, "hth"@, 0);
        lemma_char_seq_ne("soc"@, "law"@, 0);
        lemma_char_seq_ne("soc"@, "edu"@, 0);
        lemma_char_seq_ne("soc"@, "mus"@, 0);
        lemma_char_seq_ne("tec"@, "dat"@, 0);
        lemma_char_seq_ne("tec"@, "eco"@, 0);
        lemma_char_seq_ne("tec"@, "env"@, 0);
        lemma_char_seq_ne("tec"@, "hth"@, 0);
        lemma_char_seq_ne("tec"@, "law"@, 0);
        lemma_char_seq_ne("tec"@, "edu"@, 0);
        lemma_char_seq_ne("tec"@, "mus"@, 0);
        lemma_char_seq_ne("tec"@, "soc"@, 0);
        lemma_char_seq_ne("med"@, "dat"@, 0);
        lemma_char_seq_ne("med"@, "eco"@, 0);
        lemma_char_seq_ne("med"@, "env"@, 0);
        lemma_char_seq_ne("med"@, "hth"@, 0);
        lemma_char_seq_ne("med"@, "law"@, 0);
        lemma_char_seq_ne("med"@, "edu"@, 0);
        lemma_char_seq_ne("med"@, "mus"@, 1);
        lemma_char_seq_ne("med"@, "soc"@, 0);
        lemma_char_seq_ne("med"@, "tec"@, 0);
        lemma_char_seq_ne("ind"@, "dat"@, 0);
        lemma_char_seq_ne("ind"@, "eco"@, 0);
        lemma_char_seq_ne("ind"@, "env"@, 0);
        lemma_char_seq_ne("ind"@, "hth"@, 0);
        lemma_char_seq_ne("ind"@, "law"@, 0);
        lemma_char_seq_ne("ind"@, "edu"@, 0);
        lemma_char_seq_ne("ind"@, "mus"@, 0);
        lemma_char_seq_ne("ind"@, "soc"@, 0);
        lemma_char_seq_ne("ind"@, "tec"@, 0);
        lemma_char_seq_ne("ind"@, "med"@, 0);
        lemma_char_seq_ne("lng"@, "dat"@, 0);
        lemma_char_seq_ne("lng"@, "eco"@, 0);
        lemma_char_seq_ne("lng"@, "env"@, 0);
        lemma_char_seq_ne("lng"@, "hth"@, 0);
        lemma_char_seq_ne("lng"@, "law"@, 1);
        lemma_char_seq_ne("lng"@, "edu"@, 0);
        lemma_char_seq_ne("lng"@, "mus"@, 0);
        lemma_char_seq_ne("lng"@, "soc"@, 0);
        lemma_char_seq_ne("lng"@, "tec"@, 0);
        lemma_char_seq_ne("lng"@, "med"@, 0);
        lemma_char_seq_ne("lng"@, "ind"@, 0);
        lemma_char_seq_ne("mat"@, "dat"@, 0);
        lemma_char_seq_ne("mat"@, "eco"@, 0);
        lemma_char_seq_ne("mat"@, "env"@, 0);
        lemma_char_seq_ne("mat"@, "hth"@, 0);
        lemma_char_seq_ne("mat"@, "law"@, 0);
        lemma_char_seq_ne("mat"@, "edu"@, 0);
        lemma_char_seq_ne("mat"@, "mus"@, 1);
        lemma_char_seq_ne("mat"@, "soc"@, 0);
        lemma_char_seq_ne("mat"@, "tec"@, 0);
        lemma_char_seq_ne("mat"@, "med"@, 1);
        lemma_char_seq_ne("mat"@, "ind"@, 0);
        lemma_char_seq_ne("mat"@, "lng"@, 0);
        lemma_char_seq_ne("inf"@, "dat"@, 0);
        lemma_char_seq_ne("inf"@, "eco"@, 0);
        lemma_char_seq_ne("inf"@, "env"@, 0);
        lemma_char_seq_ne("inf"@, "hth"@, 0);
        lemma_char_seq_ne("inf"@, "law"@, 0);
        lemma_char_seq_ne("inf"@, "edu"@, 0);
        lemma_char_seq_ne("inf"@, "mus"@, 0);
        lemma_char_seq_ne("inf"@, "soc"@, 0);
        lemma_char_seq_ne("inf"@, "tec"@, 0);
        lemma_char_seq_ne("inf"@, "med"@, 0);
        lemma_char_seq_ne("inf"@, "ind"@, 2);
        lemma_char_seq_ne("inf"@, "lng"@, 0);
        lemma_char_seq_ne("inf"@, "mat"@, 0);
        lemma_char_seq_ne("hum"@, "dat"@, 0);
        lemma_char_seq_ne("hum"@, "eco"@, 0);
        lemma_char_seq_ne("hum"@, "env"@, 0);
        lemma_char_seq_ne("hum"@, "hth"@, 1);
        lemma_char_seq_ne("hum"@, "law"@, 0);
        lemma_char_seq_ne("hum"@, "edu"@, 0);
        lemma_char_seq_ne("hum"@, "mus"@, 0);
        lemma_char_seq_ne("hum"@, "soc"@, 0);
        lemma_char_seq_ne("hum"@, "tec"@, 0);
        lemma_char_seq_ne("hum"@, "med"@, 0);
        lemma_char_seq_ne("hum"@, "ind"@, 0);
        lemma_char_seq_ne("hum"@, "lng"@, 0);
        lemma_char_seq_ne("hum"@, "mat"@, 0);
        lemma_char_seq_ne("hum"@, "inf"@, 0);
        lemma_char_seq_ne("bhv"@, "dat"@, 0);
        lemma_char_seq_ne("bhv"@, "eco"@, 0);
        lemma_char_seq_ne("bhv"@, "env"@, 0);
        lemma_char_seq_ne("bhv"@, "hth"@, 0);
        lemma_char_seq_ne("bhv"@, "law"@, 0);
        lemma_char_seq_ne("bhv"@, "edu"@, 0);
        lemma_char_seq_ne("bhv"@, "mus"@, 0);
        lemma_char_seq_ne("bhv"@, "soc"@, 0);
        lemma_char_seq_ne("bhv"@, "tec"@, 0);
        lemma_char_seq_ne("bhv"@, "med"@, 0);
        lemma_char_seq_ne("bhv"@, "ind"@, 0);
        lemma_char_seq_ne("bhv"@, "lng"@, 0);
        lemma_char_seq_ne("bhv"@, "mat"@, 0);
        lemma_char_seq_ne("bhv"@, "inf"@, 0);
        lemma_char_seq_ne("bhv"@, "hum"@, 0);
        assert forall|s: Seq<char>|
            Category::spec_from_wire(s) is Some implies Category::spec_wire_codes().contains(s) by {
            let codes = Category::spec_wire_codes();
            if s == "dat"@ {
                assert(codes[0] == s);
            } else if s == "eco"@ {
                assert(codes[1] == s);
            } else if s == "env"@ {
                assert(codes[2] == s);
            } else if s == "hth"@ {
                assert(codes[3] == s);
            } else if s == "law"@ {
                assert(codes[4] == s);
            } else if s == "edu"@ {
                assert(codes[5] == s);
            } else if s == "mus"@ {
                assert(codes[6] == s);
            } else if s == "soc"@ {
                assert(codes[7] == s);
            } else if s == "tec"@ {
                assert(codes[8] == s);
            } else if s == "med"@ {
                assert(codes[9] == s);
            } else if s == "ind"@ {
                assert(codes[10] == s);
            } else if s == "lng"@ {
                assert(codes[11] == s);
            } else if s == "mat"@ {
                assert(codes[12] == s);
            } else if s == "inf"@ {
                assert(codes[13] == s);
            } else if s == "hum"@ {
                assert(codes[14] == s);
            } else {
                assert(codes[15] == s);
            }
        }
    }
}

/// Two character sequences differing at one position are different.
pub proof fn lemma_char_seq_ne(a: Seq<char>, b: Seq<char>, i: int)
    requires
        0 <= i < a.len(),
        0 <= i < b.len(),
        a[i] != b[i],
    ensures
        a != b,
{
    if a == b {
        assert(a[i] == b[i]);
    }
}

} // verus!
