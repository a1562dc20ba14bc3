//! Verified text utilities: exact and ASCII-case-insensitive string
//! comparison, decimal rendering and parsing of integers, joining string
//! fragments, and the character-class checks used to validate and sanitize
//! user-supplied patterns before they may reach query text.

use vstd::prelude::*;
use vstd::string::StrSliceExecFns;
use vstd::string::StringExecFns;

verus! {

/// Relies on std's `String::push`: appends exactly the given character.
pub assume_specification[ String::push ](s: &mut String, ch: char)
    ensures
        final(s)@ == old(s)@.push(ch),
;

// ---------------------------------------------------------------------------
// Decimal rendering
// ---------------------------------------------------------------------------

/// The digit character for a value in 0..=9.
pub open spec fn spec_digit_char(d: nat) -> char {
    if d == 0 { '0' }
    else if d == 1 { '1' }
    else if d == 2 { '2' }
    else if d == 3 { '3' }
    else if d == 4 { '4' }
    else if d == 5 { '5' }
    else if d == 6 { '6' }
    else if d == 7 { '7' }
    else if d == 8 { '8' }
    else if d == 9 { '9' }
    else { '0' }
}

/// Sequence of decimal digit characters of `n`, most significant first.
pub open spec fn spec_dec(n: nat) -> Seq<char>
    decreases n,
{
    if n < 10 {
        seq![spec_digit_char(n)]
    } else {
        spec_dec(n / 10) + seq![spec_digit_char(n % 10)]
    }
}

/// Renders `n` in decimal, most significant digit first.
pub fn u64_to_dec(n: u64) -> (r: String)
    ensures
        r@ == spec_dec(n as nat),
    decreases n,
{
    let digit: char = match n % 10 {
        0 => '0',
        1 => '1',
        2 => '2',
        3 => '3',
        4 => '4',
        5 => '5',
        6 => '6',
        7 => '7',
        8 => '8',
        _ => '9',
    };
    if n < 10 {
        let mut s = String::new();
        s.push(digit);
        assert(s@ =~= spec_dec(n as nat));
        s
    } else {
        let mut s = u64_to_dec(n / 10);
        s.push(digit);
        assert(s@ =~= spec_dec(n as nat));
        s
    }
}

// ---------------------------------------------------------------------------
// String comparison
// ---------------------------------------------------------------------------

/// Character-wise string equality; `r` holds exactly when the two views are
/// equal sequences.
pub fn str_eq(a: &str, b: &str) -> (r: bool)
    ensures
        r == (a@ == b@),
{
    let la = a.unicode_len();
    let lb = b.unicode_len();
    if la != lb {
        return false;
    }
    let mut i: usize = 0;
    while i < la
        invariant
            0 <= i <= la,
            la == a@.len(),
            la == b@.len(),
            forall|j: int| 0 <= j < i ==> a@[j] == b@[j],
        decreases la - i,
    {
        if a.get_char(i) != b.get_char(i) {
            return false;
        }
        i += 1;
    }
    proof {
        assert(a@ =~= b@);
    }
    true
}

/// Code point of `c` with ASCII upper-case letters folded to lower case.
pub open spec fn spec_lower_code(c: char) -> u32 {
    if 65 <= c as u32 && c as u32 <= 90 {
        (c as u32 + 32) as u32
    } else {
        c as u32
    }
}

/// ASCII-case-insensitive equality of two character sequences.
pub open spec fn spec_ci_eq(a: Seq<char>, b: Seq<char>) -> bool {
    a.len() == b.len() && forall|i: int|
        0 <= i < a.len() ==> spec_lower_code(a[i]) == spec_lower_code(b[i])
}

/// String equality up to ASCII case.
pub fn str_eq_ignore_ascii_case(a: &str, b: &str) -> (r: bool)
    ensures
        r == spec_ci_eq(a@, b@),
{
    let la = a.unicode_len();
    let lb = b.unicode_len();
    if la != lb {
        return false;
    }
    let mut i: usize = 0;
    while i < la
        invariant
            0 <= i <= la,
            la == a@.len(),
            la == b@.len(),
            forall|j: int| 0 <= j < i ==> spec_lower_code(a@[j]) == spec_lower_code(b@[j]),
        decreases la - i,
    {
        let ca = a.get_char(i) as u32;
        let cb = b.get_char(i) as u32;
        let fa = if 65 <= ca && ca <= 90 { ca + 32 } else { ca };
        let fb = if 65 <= cb && cb <= 90 { cb + 32 } else { cb };
        if fa != fb {
            return false;
        }
        i += 1;
    }
    true
}

// ---------------------------------------------------------------------------
// Decimal parsing
// ---------------------------------------------------------------------------

/// Whether `c` is an ASCII decimal digit.
pub open spec fn spec_is_digit(c: char) -> bool {
    48 <= c as u32 && c as u32 <= 57
}

/// Numeric value of a digit character.
pub open spec fn spec_digit_val(c: char) -> nat {
    (c as u32 - 48) as nat
}

/// Whether every character of `s` is an ASCII decimal digit.
pub open spec fn spec_all_digits(s: Seq<char>) -> bool {
    forall|i: int| 0 <= i < s.len() ==> spec_is_digit(s[i])
}

/// Value of a digit sequence read in base ten.
pub open spec fn spec_digits_val(s: Seq<char>) -> nat
    decreases s.len(),
{
    if s.len() == 0 {
        0
    } else {
        spec_digits_val(s.drop_last()) * 10 + spec_digit_val(s.last())
    }
}

/// The integer denoted by `s`: an optional leading sign followed by one or
/// more decimal digits, as std's integer parsing accepts it; `None` when the
/// shape is wrong.
pub open spec fn spec_parse_int(s: Seq<char>) -> Option<int> {
    if s.len() > 0 && (s[0] == '+' || s[0] == '-') {
        if s.len() > 1 && spec_all_digits(s.subrange(1, s.len() as int)) {
            if s[0] == '-' {
                Some(-(spec_digits_val(s.subrange(1, s.len() as int)) as int))
            } else {
                Some(spec_digits_val(s.subrange(1, s.len() as int)) as int)
            }
        } else {
            None
        }
    } else if s.len() > 0 && spec_all_digits(s) {
        Some(spec_digits_val(s) as int)
    } else {
        None
    }
}

/// The integer denoted by `s` when it lies in 0..=100, `None` otherwise.
pub open spec fn spec_parse_percent(s: Seq<char>) -> Option<int> {
    match spec_parse_int(s) {
        Some(v) => if 0 <= v <= 100 { Some(v) } else { None },
        None => None,
    }
}

/// Parses `s` as an integer in 0..=100: an optional sign followed by
/// decimal digits whose value lies in range.
#[verifier::loop_isolation(false)]
pub fn parse_percent(s: &str) -> (r: Option<i8>)
    ensures
        match r {
            Some(v) => spec_parse_percent(s@) == Some(v as int),
            None => spec_parse_percent(s@) is None,
        },
{
    let len = s.unicode_len();
    if len == 0 {
        return None;
    }
    let first = s.get_char(0);
    let neg = first == '-';
    let signed = neg || first == '+';
    let start: usize = if signed { 1 } else { 0 };
    if signed && len == 1 {
        return None;
    }
    let mut i: usize = start;
    // Value of the digits read so far, clamped above 100 so it cannot
    // overflow however long the input is.
    let mut acc: u32 = 0;
    while i < len
        invariant
            start <= i <= len,
            start <= 1,
            len == s@.len(),
            start < len,
            spec_all_digits(s@.subrange(start as int, i as int)),
            acc <= 1009,
            spec_digits_val(s@.subrange(start as int, i as int)) <= 100 ==>
                acc == spec_digits_val(s@.subrange(start as int, i as int)),
            spec_digits_val(s@.subrange(start as int, i as int)) > 100 ==> acc > 100,
        decreases len - i,
    {
        let c = s.get_char(i);
        let u = c as u32;
        if u < 48 || u > 57 {
            proof {
                let whole = s@.subrange(start as int, s@.len() as int);
                assert(!spec_is_digit(whole[i - start]));
                assert(!spec_all_digits(whole));
                assert(!spec_all_digits(s@)) by {
                    if spec_all_digits(s@) {
                        assert(spec_is_digit(s@[i as int]));
                    }
                }
            }
            return None;
        }
        let d = u - 48;
        proof {
            let p = s@.subrange(start as int, i as int);
            let q = s@.subrange(start as int, i + 1 as int);
            assert(q.drop_last() =~= p);
            assert(q.last() == s@[i as int]);
            assert(spec_digits_val(q) == spec_digits_val(p) * 10 + d);
        }
        acc = if acc > 100 { 101 } else { acc * 10 + d };
        i += 1;
    }
    proof {
        if signed {
            assert(s@.subrange(start as int, len as int)
                =~= s@.subrange(1, s@.len() as int));
        } else {
            assert(s@.subrange(start as int, len as int) =~= s@);
        }
    }
    if acc > 100 {
        return None;
    }
    if neg && acc != 0 {
        return None;
    }
    Some(acc as i8)
}

// ---------------------------------------------------------------------------
// Joining fragments
// ---------------------------------------------------------------------------

/// The parts of `parts` concatenated with `sep` between neighbours.
pub open spec fn spec_join(parts: Seq<Seq<char>>, sep: Seq<char>) -> Seq<char>
    decreases parts.len(),
{
    if parts.len() == 0 {
        Seq::empty()
    } else if parts.len() == 1 {
        parts[0]
    } else {
        parts[0] + sep + spec_join(parts.subrange(1, parts.len() as int), sep)
    }
}

/// Appending one part to a join extends it by one separator and the part.
pub proof fn lemma_join_push(parts: Seq<Seq<char>>, sep: Seq<char>, x: Seq<char>)
    ensures
        spec_join(parts.push(x), sep) == if parts.len() == 0 {
            x
        } else {
            spec_join(parts, sep) + sep + x
        },
    decreases parts.len(),
{
    if parts.len() == 0 {
        assert(parts.push(x) =~= seq![x]);
        assert(spec_join(seq![x], sep) == x);
    } else {
        let rest = parts.subrange(1, parts.len() as int);
        lemma_join_push(rest, sep, x);
        assert(parts.push(x).subrange(1, parts.push(x).len() as int) =~= rest.push(x));
        assert(parts.push(x)[0] == parts[0]);
        if parts.len() == 1 {
            assert(rest =~= Seq::<Seq<char>>::empty());
            assert(spec_join(parts, sep) == parts[0]);
        }
    }
}

/// Joins the strings of `parts` with `sep` between neighbours.
pub fn join_strings(parts: &Vec<String>, sep: &str) -> (r: String)
    ensures
        r@ == spec_join(parts.deep_view(), sep@),
{
    let mut r = String::new();
    let mut i: usize = 0;
    while i < parts.len()
        invariant
            0 <= i <= parts@.len(),
            parts.deep_view().len() == parts@.len(),
            r@ == spec_join(parts.deep_view().subrange(0, i as int), sep@),
        decreases parts@.len() - i,
    {
        if i > 0 {
            r.append(sep);
        }
        r.append(parts[i].as_str());
        proof {
            let views = parts.deep_view();
            assert(views.subrange(0, i + 1 as int) =~= views.subrange(0, i as int).push(views[i as int]));
            lemma_join_push(views.subrange(0, i as int), sep@, views[i as int]);
            assert(views[i as int] == parts@[i as int]@);
        }
        i += 1;
    }
    proof {
        assert(parts.deep_view().subrange(0, parts@.len() as int) =~= parts.deep_view());
    }
    r
}

// ---------------------------------------------------------------------------
// Character classes, pattern validation and sanitization
// ---------------------------------------------------------------------------

pub uninterp spec fn is_unicode_alphanumeric(c: char) -> bool;

pub uninterp spec fn is_unicode_whitespace(c: char) -> bool;

/// Relies on std's `char::is_alphanumeric`: a fixed classification by
/// Unicode letter and number categories, a function of the character alone.
/// An ASCII apostrophe is punctuation, so it is never alphanumeric.
#[verifier::external_body]
fn char_is_alphanumeric(c: char) -> (r: bool)
    ensures
        r == is_unicode_alphanumeric(c),
{
    c.is_alphanumeric()
}

/// Relies on std's `char::is_whitespace`: a fixed classification by the
/// Unicode white-space property, a function of the character alone.
#[verifier::external_body]
fn char_is_whitespace(c: char) -> (r: bool)
    ensures
        r == is_unicode_whitespace(c),
{
    c.is_whitespace()
}

/// Whether the sanitizer keeps `c`: letters, digits and whitespace pass;
/// everything else is stripped. Quote and backslash are stripped outright,
/// whatever class they fall in, so sanitized text can never close a quoted
/// region of query text.
pub open spec fn spec_keep(c: char) -> bool {
    (is_unicode_alphanumeric(c) || is_unicode_whitespace(c)) && c != '\'' && c != '\\'
}

/// `s` with every character that is not a letter, digit or whitespace
/// removed.
pub open spec fn spec_sanitized(s: Seq<char>) -> Seq<char>
    decreases s.len(),
{
    if s.len() == 0 {
        Seq::empty()
    } else {
        spec_sanitized(s.drop_last()) + if spec_keep(s.last()) {
            seq![s.last()]
        } else {
            Seq::<char>::empty()
        }
    }
}

/// Every character of a sanitized sequence passed the keep test.
pub proof fn lemma_sanitized_chars_kept(s: Seq<char>)
    ensures
        forall|i: int| 0 <= i < spec_sanitized(s).len() ==> spec_keep(#[trigger] spec_sanitized(s)[i]),
    decreases s.len(),
{
    if s.len() > 0 {
        lemma_sanitized_chars_kept(s.drop_last());
        if spec_keep(s.last()) {
            assert(spec_sanitized(s) == spec_sanitized(s.drop_last()) + seq![s.last()]);
        } else {
            assert(spec_sanitized(s) =~= spec_sanitized(s.drop_last()));
        }
    }
}

/// Sanitized text contains no quote and no backslash.
pub proof fn lemma_sanitized_no_quote(s: Seq<char>)
    ensures
        forall|i: int| 0 <= i < spec_sanitized(s).len() ==>
            #[trigger] spec_sanitized(s)[i] != '\'' && spec_sanitized(s)[i] != '\\',
{
    lemma_sanitized_chars_kept(s);
}

/// Strips every character of `s` that is not a letter, a digit or
/// whitespace.
pub fn sanitize(s: &str) -> (r: String)
    ensures
        r@ == spec_sanitized(s@),
{
    let len = s.unicode_len();
    let mut r = String::new();
    let mut i: usize = 0;
    while i < len
        invariant
            0 <= i <= len,
            len == s@.len(),
            r@ == spec_sanitized(s@.subrange(0, i as int)),
        decreases len - i,
    {
        let c = s.get_char(i);
        if (char_is_alphanumeric(c) || char_is_whitespace(c)) && c != '\'' && c != '\\' {
            r.push(c);
        }
        proof {
            let q = s@.subrange(0, i + 1 as int);
            assert(q.drop_last() =~= s@.subrange(0, i as int));
            assert(q.last() == s@[i as int]);
            if spec_keep(s@[i as int]) {
                assert(r@ =~= spec_sanitized(q));
            } else {
                assert(r@ =~= spec_sanitized(q));
            }
        }
        i += 1;
    }
    proof {
        assert(s@.subrange(0, s@.len() as int) =~= s@);
    }
    r
}

/// Whether `c` may appear in a course-code pattern: upper-case ASCII
/// letters, digits and underscore.
pub open spec fn spec_is_code_char(c: char) -> bool {
    (65 <= c as u32 && c as u32 <= 90) || (48 <= c as u32 && c as u32 <= 57) || c == '_'
}

/// A valid course-code pattern: exactly six characters, each an upper-case
/// ASCII letter, a digit or an underscore.
pub open spec fn spec_valid_code_pattern(s: Seq<char>) -> bool {
    s.len() == 6 && forall|i: int| 0 <= i < s.len() ==> spec_is_code_char(#[trigger] s[i])
}

/// A valid code pattern contains no quote and no backslash: its alphabet
/// holds only upper-case letters, digits and underscore, so an accepted
/// pattern can never close a quoted region of query text.
pub proof fn lemma_code_pattern_no_quote(s: Seq<char>)
    requires
        spec_valid_code_pattern(s),
    ensures
        forall|i: int| 0 <= i < s.len() ==> #[trigger] s[i] != '\'' && s[i] != '\\',
{
    assert forall|i: int| 0 <= i < s.len() implies #[trigger] s[i] != '\'' && s[i] != '\\' by {
        assert(spec_is_code_char(s[i]));
    }
}

/// Checks a course-code pattern: six characters drawn from upper-case
/// letters, digits and underscore.
pub fn valid_code_pattern(s: &str) -> (r: bool)
    ensures
        r == spec_valid_code_pattern(s@),
{
    let len = s.unicode_len();
    if len != 6 {
        return false;
    }
    let mut i: usize = 0;
    while i < len
        invariant
            0 <= i <= len,
            len == s@.len(),
            forall|j: int| 0 <= j < i ==> spec_is_code_char(#[trigger] s@[j]),
        decreases len - i,
    {
        let c = s.get_char(i);
        let u = c as u32;
        if !((65 <= u && u <= 90) || (48 <= u && u <= 57) || c == '_') {
            return false;
        }
        i += 1;
    }
    true
}

} // verus!
