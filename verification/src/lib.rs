//! A pagination combinator for relational queries.
//!
//! A [`paginate::Paginated`] value wraps a caller-supplied query together
//! with a 1-indexed page number, a page size and the derived row offset.
//! Loading a page produces a [`paginate::Page`]: the rows of the requested
//! window plus the total row count and the number of pages it spans.

pub mod models;
pub mod paginate;
