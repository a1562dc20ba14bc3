//! The query builder: turns a validated filter request into one
//! deterministic, safely escaped, paginated read query over the course
//! store. Every supplied filter becomes one conjunctive condition; absent
//! filters (and empty multi-value sets) contribute nothing; the expensive
//! name condition is ordered last; results are ordered by row identity and
//! paginated with a fixed page size.
//!
//! Every value interpolated into the query text is either a validated
//! six-character code pattern, a sanitized name pattern, a rendered decimal
//! number, or the fixed display string of a closed enumeration: no raw user
//! string can reach the query text.

use vstd::prelude::*;
use vstd::string::StringExecFns;
use crate::domain::{Category, Difficulty, Language, Site};
use crate::filter::{CategorySelectMode, FilterRequest, PeriodSelectMode};
use crate::pace::Pace;
use crate::text;

verus! {

broadcast use vstd::string::group_string_axioms;

/// The request's code pattern was malformed; it was rejected before any
/// query text was composed.
#[derive(Debug, Clone, Copy, PartialEq, Eq, Structural)]
pub struct InvalidCodePattern;

/// Fixed number of records per result page.
pub const PAGE_SIZE: u32 = 20;

// ---------------------------------------------------------------------------
// Specification of the query text
// ---------------------------------------------------------------------------

/// `s` wrapped in single quotes.
pub open spec fn spec_quoted(s: Seq<char>) -> Seq<char> {
    seq!['\''] + s + seq!['\'']
}

/// An optional condition as a fragment list: one element when present,
/// none when absent.
pub open spec fn opt_frag(o: Option<Seq<char>>) -> Seq<Seq<char>> {
    match o {
        Some(s) => seq![s],
        None => Seq::empty(),
    }
}

/// The view of an optional owned string.
pub open spec fn spec_opt_view(o: Option<String>) -> Option<Seq<char>> {
    match o {
        Some(s) => Some(s@),
        None => None,
    }
}

/// Condition on the course code: a validated pattern match.
pub open spec fn spec_code_cond(req: FilterRequest) -> Option<Seq<char>> {
    match req.code_pattern {
        Some(p) => Some("code ILIKE '"@ + p@ + "'"@),
        None => None,
    }
}

/// Condition on the credit points: an exact match.
pub open spec fn spec_points_cond(req: FilterRequest) -> Option<Seq<char>> {
    match req.points {
        Some(p) => Some("points = "@ + p.spec_render()),
        None => None,
    }
}

/// Condition on the pace: membership in the supplied set; an empty set
/// means no condition.
pub open spec fn spec_paces_cond(req: FilterRequest) -> Option<Seq<char>> {
    if req.paces@.len() == 0 {
        None
    } else {
        Some("pace in ("@
            + text::spec_join(req.paces@.map_values(|p: Pace| spec_quoted(p.spec_render())), ","@)
            + ")"@)
    }
}

/// Condition on the period, according to the select mode. The `Spans` text
/// mirrors `PeriodSelectMode::spec_matches`: a circular range over 1..=4.
pub open spec fn spec_period_cond(req: FilterRequest) -> Option<Seq<char>> {
    match req.period {
        Some(p) => {
            let d = text::spec_dec(p as nat);
            Some(match req.period_select_mode {
                PeriodSelectMode::Only => "period_start = "@ + d + " AND period_end = "@ + d,
                PeriodSelectMode::Starts => "period_start = "@ + d,
                PeriodSelectMode::Ends => "period_end = "@ + d,
                PeriodSelectMode::Spans => "CASE WHEN period_start <= period_end THEN ("@ + d
                    + " >= period_start AND "@ + d + " <= period_end) ELSE ("@ + d
                    + " >= period_start OR "@ + d + " <= period_end) END"@,
            })
        },
        None => None,
    }
}

/// Condition on the site: membership in the supplied set.
pub open spec fn spec_sites_cond(req: FilterRequest) -> Option<Seq<char>> {
    if req.sites@.len() == 0 {
        None
    } else {
        Some("site in ("@
            + text::spec_join(req.sites@.map_values(|x: Site| spec_quoted(x.spec_display())), ","@)
            + ")"@)
    }
}

/// Condition on the language: membership in the supplied set.
pub open spec fn spec_languages_cond(req: FilterRequest) -> Option<Seq<char>> {
    if req.languages@.len() == 0 {
        None
    } else {
        Some("language in ("@
            + text::spec_join(
                req.languages@.map_values(|x: Language| spec_quoted(x.spec_display())),
                ","@,
            ) + ")"@)
    }
}

/// Condition on the difficulty: membership in the supplied set.
pub open spec fn spec_difficulties_cond(req: FilterRequest) -> Option<Seq<char>> {
    if req.difficulties@.len() == 0 {
        None
    } else {
        Some("difficulty in ("@
            + text::spec_join(
                req.difficulties@.map_values(|x: Difficulty| spec_quoted(x.spec_display())),
                ","@,
            ) + ")"@)
    }
}

/// Condition on the categories: overlap (`&&`) or containment (`<@`) of the
/// requested array against the stored array, per the select mode.
pub open spec fn spec_categories_cond(req: FilterRequest) -> Option<Seq<char>> {
    if req.categories@.len() == 0 {
        None
    } else {
        Some("ARRAY["@
            + text::spec_join(
                req.categories@.map_values(|x: Category| spec_quoted(x.spec_display())),
                ","@,
            ) + "]::category_enum[] "@ + match req.category_select_mode {
            CategorySelectMode::Any => "&&"@,
            CategorySelectMode::All => "<@"@,
        } + " categories"@)
    }
}

/// The name condition text over an already sanitized pattern `q`: a
/// case-insensitive substring test against both names, normalized in the
/// store exactly as the pattern was normalized here.
pub open spec fn spec_name_cond_text(q: Seq<char>) -> Seq<char> {
    "(REGEXP_REPLACE(name_se, '[^\\pL\\d\\s]', '', 'g') ILIKE '%"@ + q
        + "%' OR REGEXP_REPLACE(name_en, '[^\\pL\\d\\s]', '', 'g') ILIKE '%"@ + q + "%')"@
}

/// Condition on the names: applied to the sanitized pattern, and ordered
/// last among all conditions because it is the most expensive to evaluate.
pub open spec fn spec_name_cond(req: FilterRequest) -> Option<Seq<char>> {
    match req.name_pattern {
        Some(p) => Some(spec_name_cond_text(text::spec_sanitized(p@))),
        None => None,
    }
}

/// All present conditions, in their fixed order; the name condition last.
pub open spec fn spec_conditions(req: FilterRequest) -> Seq<Seq<char>> {
    opt_frag(spec_code_cond(req)) + opt_frag(spec_points_cond(req))
        + opt_frag(spec_paces_cond(req)) + opt_frag(spec_period_cond(req))
        + opt_frag(spec_sites_cond(req)) + opt_frag(spec_languages_cond(req))
        + opt_frag(spec_difficulties_cond(req)) + opt_frag(spec_categories_cond(req))
        + opt_frag(spec_name_cond(req))
}

/// The `WHERE` clause: empty when no condition is present, otherwise the
/// conditions joined conjunctively.
pub open spec fn spec_where_clause(req: FilterRequest) -> Seq<char> {
    if spec_conditions(req).len() == 0 {
        Seq::empty()
    } else {
        "WHERE "@ + text::spec_join(spec_conditions(req), " AND "@)
    }
}

/// The fixed column list and table of every search query.
pub open spec fn spec_select_base() -> Seq<char> {
    "SELECT code, name_se, name_en, url, points, pace, prerequisites, register_info, modules, period_start, period_end, site, language, difficulty, categories, conduct FROM courses"@
}

/// The fixed ordering and pagination tail: a stable identity order, an
/// offset of page times the page size, and the fixed page size as limit.
pub open spec fn spec_order_tail(page: u32) -> Seq<char> {
    " ORDER BY id OFFSET "@ + text::spec_dec((page as nat) * (PAGE_SIZE as nat)) + " LIMIT 20"@
}

/// The complete query text for a validated request.
pub open spec fn spec_query(req: FilterRequest) -> Seq<char> {
    spec_select_base() + (if spec_conditions(req).len() == 0 {
        Seq::<char>::empty()
    } else {
        seq![' '] + spec_where_clause(req)
    }) + spec_order_tail(req.page)
}

/// Whether the request passes validation: a supplied code pattern must have
/// the fixed six-character shape.
pub open spec fn spec_request_valid(req: FilterRequest) -> bool {
    match req.code_pattern {
        Some(p) => text::spec_valid_code_pattern(p@),
        None => true,
    }
}

// ---------------------------------------------------------------------------
// Executable construction
// ---------------------------------------------------------------------------

/// Wraps a rendered value in single quotes.
fn quoted(s: &str) -> (r: String)
    ensures
        r@ == spec_quoted(s@),
{
    let mut q = String::new();
    q.push('\'');
    q.append(s);
    q.push('\'');
    proof {
        assert(q@ =~= spec_quoted(s@));
    }
    q
}

/// Renders each pace quoted, in order.
fn quoted_pace_list(v: &Vec<Pace>) -> (r: Vec<String>)
    ensures
        r.deep_view() == v@.map_values(|p: Pace| spec_quoted(p.spec_render())),
{
    let mut r: Vec<String> = Vec::new();
    let mut i: usize = 0;
    while i < v.len()
        invariant
            0 <= i <= v@.len(),
            r@.len() == i,
            forall|j: int| 0 <= j < i ==> r.deep_view()[j] == spec_quoted(#[trigger] v@[j].spec_render()),
        decreases v@.len() - i,
    {
        let rendered = v[i].render();
        r.push(quoted(rendered.as_str()));
        i += 1;
    }
    proof {
        assert(r.deep_view() =~~= v@.map_values(|p: Pace| spec_quoted(p.spec_render())));
    }
    r
}

/// Renders each site display name quoted, in order.
fn quoted_site_list(v: &Vec<Site>) -> (r: Vec<String>)
    ensures
        r.deep_view() == v@.map_values(|x: Site| spec_quoted(x.spec_display())),
{
    let mut r: Vec<String> = Vec::new();
    let mut i: usize = 0;
    while i < v.len()
        invariant
            0 <= i <= v@.len(),
            r@.len() == i,
            forall|j: int| 0 <= j < i ==> r.deep_view()[j] == spec_quoted(#[trigger] v@[j].spec_display()),
        decreases v@.len() - i,
    {
        r.push(quoted(v[i].display_name()));
        i += 1;
    }
    proof {
        assert(r.deep_view() =~~= v@.map_values(|x: Site| spec_quoted(x.spec_display())));
    }
    r
}

/// Renders each language display name quoted, in order.
fn quoted_language_list(v: &Vec<Language>) -> (r: Vec<String>)
    ensures
        r.deep_view() == v@.map_values(|x: Language| spec_quoted(x.spec_display())),
{
    let mut r: Vec<String> = Vec::new();
    let mut i: usize = 0;
    while i < v.len()
        invariant
            0 <= i <= v@.len(),
            r@.len() == i,
            forall|j: int| 0 <= j < i ==> r.deep_view()[j] == spec_quoted(#[trigger] v@[j].spec_display()),
        decreases v@.len() - i,
    {
        r.push(quoted(v[i].display_name()));
        i += 1;
    }
    proof {
        assert(r.deep_view() =~~= v@.map_values(|x: Language| spec_quoted(x.spec_display())));
    }
    r
}

/// Renders each difficulty display name quoted, in order.
fn quoted_difficulty_list(v: &Vec<Difficulty>) -> (r: Vec<String>)
    ensures
        r.deep_view() == v@.map_values(|x: Difficulty| spec_quoted(x.spec_display())),
{
    let mut r: Vec<String> = Vec::new();
    let mut i: usize = 0;
    while i < v.len()
        invariant
            0 <= i <= v@.len(),
            r@.len() == i,
            forall|j: int| 0 <= j < i ==> r.deep_view()[j] == spec_quoted(#[trigger] v@[j].spec_display()),
        decreases v@.len() - i,
    {
        r.push(quoted(v[i].display_name()));
        i += 1;
    }
    proof {
        assert(r.deep_view() =~~= v@.map_values(|x: Difficulty| spec_quoted(x.spec_display())));
    }
    r
}

/// Renders each category display name quoted, in order.
fn quoted_category_list(v: &Vec<Category>) -> (r: Vec<String>)
    ensures
        r.deep_view() == v@.map_values(|x: Category| spec_quoted(x.spec_display())),
{
    let mut r: Vec<String> = Vec::new();
    let mut i: usize = 0;
    while i < v.len()
        invariant
            0 <= i <= v@.len(),
            r@.len() == i,
            forall|j: int| 0 <= j < i ==> r.deep_view()[j] == spec_quoted(#[trigger] v@[j].spec_display()),
        decreases v@.len() - i,
    {
        r.push(quoted(v[i].display_name()));
        i += 1;
    }
    proof {
        assert(r.deep_view() =~~= v@.map_values(|x: Category| spec_quoted(x.spec_display())));
    }
    r
}

/// Builds the code condition.
fn code_cond(req: &FilterRequest) -> (r: Option<String>)
    ensures
        spec_opt_view(r) == spec_code_cond(*req),
{
    match &req.code_pattern {
        Some(p) => {
            let mut s = "code ILIKE '".to_owned();
            s.append(p.as_str());
            s.append("'");
            proof {
                assert(s@ =~= "code ILIKE '"@ + p@ + "'"@);
            }
            Some(s)
        },
        None => None,
    }
}

/// Builds the points condition.
fn points_cond(req: &FilterRequest) -> (r: Option<String>)
    ensures
        spec_opt_view(r) == spec_points_cond(*req),
{
    match req.points {
        Some(p) => {
            let mut s = "points = ".to_owned();
            let rendered = p.render();
            s.append(rendered.as_str());
            Some(s)
        },
        None => None,
    }
}

/// Builds the pace condition.
fn paces_cond(req: &FilterRequest) -> (r: Option<String>)
    ensures
        spec_opt_view(r) == spec_paces_cond(*req),
{
    if req.paces.len() == 0 {
        None
    } else {
        let items = quoted_pace_list(&req.paces);
        let inner = text::join_strings(&items, ",");
        let mut s = "pace in (".to_owned();
        s.append(inner.as_str());
        s.append(")");
        Some(s)
    }
}

/// Builds the period condition for the requested select mode.
fn period_cond(req: &FilterRequest) -> (r: Option<String>)
    ensures
        spec_opt_view(r) == spec_period_cond(*req),
{
    match req.period {
        Some(p) => {
            let d = text::u64_to_dec(p as u64);
            let ds = d.as_str();
            let mut s: String;
            match req.period_select_mode {
                PeriodSelectMode::Only => {
                    s = "period_start = ".to_owned();
                    s.append(ds);
                    s.append(" AND period_end = ");
                    s.append(ds);
                },
                PeriodSelectMode::Starts => {
                    s = "period_start = ".to_owned();
                    s.append(ds);
                },
                PeriodSelectMode::Ends => {
                    s = "period_end = ".to_owned();
                    s.append(ds);
                },
                PeriodSelectMode::Spans => {
                    s = "CASE WHEN period_start <= period_end THEN (".to_owned();
                    s.append(ds);
                    s.append(" >= period_start AND ");
                    s.append(ds);
                    s.append(" <= period_end) ELSE (");
                    s.append(ds);
                    s.append(" >= period_start OR ");
                    s.append(ds);
                    s.append(" <= period_end) END");
                },
            }
            Some(s)
        },
        None => None,
    }
}

/// Builds the site condition.
fn sites_cond(req: &FilterRequest) -> (r: Option<String>)
    ensures
        spec_opt_view(r) == spec_sites_cond(*req),
{
    if req.sites.len() == 0 {
        None
    } else {
        let items = quoted_site_list(&req.sites);
        let inner = text::join_strings(&items, ",");
        let mut s = "site in (".to_owned();
        s.append(inner.as_str());
        s.append(")");
        Some(s)
    }
}

/// Builds the language condition.
fn languages_cond(req: &FilterRequest) -> (r: Option<String>)
    ensures
        spec_opt_view(r) == spec_languages_cond(*req),
{
    if req.languages.len() == 0 {
        None
    } else {
        let items = quoted_language_list(&req.languages);
        let inner = text::join_strings(&items, ",");
        let mut s = "language in (".to_owned();
        s.append(inner.as_str());
        s.append(")");
        Some(s)
    }
}

/// Builds the difficulty condition.
fn difficulties_cond(req: &FilterRequest) -> (r: Option<String>)
    ensures
        spec_opt_view(r) == spec_difficulties_cond(*req),
{
    if req.difficulties.len() == 0 {
        None
    } else {
        let items = quoted_difficulty_list(&req.difficulties);
        let inner = text::join_strings(&items, ",");
        let mut s = "difficulty in (".to_owned();
        s.append(inner.as_str());
        s.append(")");
        Some(s)
    }
}

/// Builds the category condition.
fn categories_cond(req: &FilterRequest) -> (r: Option<String>)
    ensures
        spec_opt_view(r) == spec_categories_cond(*req),
{
    if req.categories.len() == 0 {
        None
    } else {
        let items = quoted_category_list(&req.categories);
        let inner = text::join_strings(&items, ",");
        let mut s = "ARRAY[".to_owned();
        s.append(inner.as_str());
        s.append("]::category_enum[] ");
        match req.category_select_mode {
            CategorySelectMode::Any => s.append("&&"),
            CategorySelectMode::All => s.append("<@"),
        }
        s.append(" categories");
        Some(s)
    }
}

/// Builds the name condition over the sanitized pattern.
fn name_cond(req: &FilterRequest) -> (r: Option<String>)
    ensures
        spec_opt_view(r) == spec_name_cond(*req),
{
    match &req.name_pattern {
        Some(p) => {
            let q = text::sanitize(p.as_str());
            let qs = q.as_str();
            let mut s = "(REGEXP_REPLACE(name_se, '[^\\pL\\d\\s]', '', 'g') ILIKE '%".to_owned();
            s.append(qs);
            s.append("%' OR REGEXP_REPLACE(name_en, '[^\\pL\\d\\s]', '', 'g') ILIKE '%");
            s.append(qs);
            s.append("%')");
            Some(s)
        },
        None => None,
    }
}

/// Appends a present condition; an absent one contributes nothing.
fn push_opt(conds: &mut Vec<String>, o: Option<String>)
    ensures
        final(conds).deep_view() == old(conds).deep_view() + opt_frag(spec_opt_view(o)),
{
    let ghost frag = opt_frag(spec_opt_view(o));
    match o {
        Some(s) => {
            conds.push(s);
        },
        None => {},
    }
    proof {
        assert(conds.deep_view() =~~= old(conds).deep_view() + frag);
    }
}

/// Composes the `WHERE` clause of a search request: every supplied filter
/// as one conjunctive condition, in the fixed order, the name condition
/// last; empty when no filter is supplied. A malformed code pattern is
/// rejected here, before any query text is composed.
pub fn format_conditions(req: &FilterRequest) -> (r: Result<String, InvalidCodePattern>)
    ensures
        match r {
            Ok(s) => spec_request_valid(*req) && s@ == spec_where_clause(*req)
                && (s@.len() == 0 <==> spec_conditions(*req).len() == 0),
            Err(_) => !spec_request_valid(*req),
        },
{
    if let Some(p) = &req.code_pattern {
        if !text::valid_code_pattern(p.as_str()) {
            return Err(InvalidCodePattern);
        }
    }
    let mut conds: Vec<String> = Vec::new();
    proof {
        assert(conds.deep_view() =~~= Seq::<Seq<char>>::empty());
    }
    push_opt(&mut conds, code_cond(req));
    proof {
        assert(conds.deep_view() =~~= opt_frag(spec_code_cond(*req)));
    }
    push_opt(&mut conds, points_cond(req));
    push_opt(&mut conds, paces_cond(req));
    push_opt(&mut conds, period_cond(req));
    push_opt(&mut conds, sites_cond(req));
    push_opt(&mut conds, languages_cond(req));
    push_opt(&mut conds, difficulties_cond(req));
    push_opt(&mut conds, categories_cond(req));
    push_opt(&mut conds, name_cond(req));
    proof {
        assert(conds.deep_view() =~~= spec_conditions(*req));
    }
    if conds.len() == 0 {
        Ok(String::new())
    } else {
        let joined = text::join_strings(&conds, " AND ");
        let mut s = "WHERE ".to_owned();
        s.append(joined.as_str());
        proof {
            reveal_strlit("WHERE ");
        }
        Ok(s)
    }
}

/// Composes the complete search query: the fixed column list, the `WHERE`
/// clause of `format_conditions`, a stable identity order, and pagination
/// with offset page times the page size and the fixed limit. A malformed
/// code pattern is rejected before composition.
pub fn build_search_query(req: &FilterRequest) -> (r: Result<String, InvalidCodePattern>)
    ensures
        match r {
            Ok(s) => spec_request_valid(*req) && s@ == spec_query(*req),
            Err(_) => !spec_request_valid(*req),
        },
{
    let wc = match format_conditions(req) {
        Ok(w) => w,
        Err(e) => {
            return Err(e);
        },
    };
    let mut q =
        "SELECT code, name_se, name_en, url, points, pace, prerequisites, register_info, modules, period_start, period_end, site, language, difficulty, categories, conduct FROM courses".to_owned();
    if !wc.as_str().is_empty() {
        q.push(' ');
        q.append(wc.as_str());
    }
    q.append(" ORDER BY id OFFSET ");
    let offset: u64 = (req.page as u64) * (PAGE_SIZE as u64);
    let dec = text::u64_to_dec(offset);
    q.append(dec.as_str());
    q.append(" LIMIT 20");
    proof {
        assert(q@ =~= spec_query(*req));
    }
    Ok(q)
}

/// The single-row lookup query of the course-detail view. The identifier is
/// bound by the store client as a parameter, never interpolated.
pub fn course_by_id_query() -> (r: String)
    ensures
        r@ == "SELECT code, name_se, name_en, url, points, pace, prerequisites, register_info, modules, period_start, period_end, site, language, difficulty, categories, conduct FROM courses WHERE id = $1"@,
{
    "SELECT code, name_se, name_en, url, points, pace, prerequisites, register_info, modules, period_start, period_end, site, language, difficulty, categories, conduct FROM courses WHERE id = $1".to_owned()
}

// ---------------------------------------------------------------------------
// Laws of the query text
// ---------------------------------------------------------------------------

/// A request with no filters set yields a condition-free query that still
/// orders and paginates: the fixed column list, no `WHERE` clause, the
/// stable identity order, an offset of page times the page size, and the
/// fixed limit.
pub proof fn lemma_no_filters_condition_free(req: FilterRequest)
    requires
        req.code_pattern is None,
        req.name_pattern is None,
        req.points is None,
        req.paces@.len() == 0,
        req.period is None,
        req.sites@.len() == 0,
        req.languages@.len() == 0,
        req.difficulties@.len() == 0,
        req.categories@.len() == 0,
    ensures
        spec_conditions(req) =~= Seq::<Seq<char>>::empty(),
        spec_where_clause(req) == Seq::<char>::empty(),
        spec_query(req) == spec_select_base() + spec_order_tail(req.page),
{
    assert(spec_conditions(req) =~= Seq::<Seq<char>>::empty());
    assert(spec_query(req) =~= spec_select_base() + spec_order_tail(req.page));
}

/// Supplying an empty multi-value set is the same as omitting that filter
/// entirely: it contributes no condition, so the generated query text is
/// the text of the request without the filter.
pub proof fn lemma_empty_site_set_no_condition(req: FilterRequest)
    ensures
        req.sites@.len() == 0 ==> spec_sites_cond(req) is None
            && opt_frag(spec_sites_cond(req)) =~= Seq::<Seq<char>>::empty(),
        req.paces@.len() == 0 ==> spec_paces_cond(req) is None,
        req.languages@.len() == 0 ==> spec_languages_cond(req) is None,
        req.difficulties@.len() == 0 ==> spec_difficulties_cond(req) is None,
        req.categories@.len() == 0 ==> spec_categories_cond(req) is None,
{
}

/// Query construction is deterministic: two query texts built from one
/// request are byte-identical, because each equals the one specified text.
pub proof fn lemma_query_idempotent(req: FilterRequest, q1: Seq<char>, q2: Seq<char>)
    requires
        q1 == spec_query(req),
        q2 == spec_query(req),
    ensures
        q1 == q2,
{
}

} // verus!
