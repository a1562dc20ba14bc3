//! A typed domain model for a university course catalog, together with the
//! engine that turns a sparse filter request into a single, safely escaped,
//! paginated data-store query.
//!
//! The domain enumerations carry two textual encodings each: a canonical
//! display string and a short wire code. Both decodings, the composite
//! `Pace` value, the `Categories` matching predicates and the query-text
//! construction are verified; executing the query against a store is left
//! to the surrounding program.

pub mod categories;
pub mod course;
pub mod domain;
pub mod filter;
pub mod pace;
pub mod percentage;
pub mod query;
pub mod text;
