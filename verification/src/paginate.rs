//! The pagination combinator: windowing arithmetic, the paginator itself,
//! and assembly of the two query results into a [`Page`].

use vstd::arithmetic::div_mod::{lemma_fundamental_div_mod, lemma_fundamental_div_mod_converse};
use vstd::prelude::*;

verus! {

/// The page size a paginator starts with before any reconfiguration.
pub const DEFAULT_PER_PAGE: i64 = 10;

/// One bounded slice of a larger result set, together with metadata
/// describing its position within the whole.
#[derive(Clone, Debug, PartialEq, Eq)]
pub struct Page<T> {
    /// The 1-indexed page number that was requested.
    pub page: i64,
    /// Total number of rows the unpaged query matches.
    pub total: i64,
    /// Number of pages the whole result set spans: `ceil(total / per_page)`.
    pub total_page: i64,
    /// The page size used to window the query.
    pub per_page: i64,
    /// The rows of this page, in the order the underlying query returns them.
    pub data: Vec<T>,
}

/// The ceiling of `total / per_page`: how many pages of size `per_page`
/// a result set of `total` rows spans. Meaningful for `total >= 0` and
/// `per_page >= 1`.
pub open spec fn spec_total_pages(total: int, per_page: int) -> int {
    (total + per_page - 1) / per_page
}

/// Number of pages a result set of `total` rows spans at `per_page`
/// rows per page.
pub fn total_pages(total: i64, per_page: i64) -> (r: i64)
    requires
        0 <= total,
        1 <= per_page,
    ensures
        r == spec_total_pages(total as int, per_page as int),
{
    if total == 0 {
        proof {
            lemma_fundamental_div_mod_converse(per_page - 1, per_page as int, 0, per_page - 1);
        }
        0
    } else {
        proof {
            let t = total as int;
            let d = per_page as int;
            lemma_fundamental_div_mod(t - 1, d);
            let q = (t - 1) / d;
            let rm = (t - 1) % d;
            assert(0 <= q && q <= t - 1 && t + d - 1 == (q + 1) * d + rm) by (nonlinear_arith)
                requires
                    t - 1 == d * q + rm,
                    0 <= rm < d,
                    1 <= d,
                    1 <= t,
            ;
            lemma_fundamental_div_mod_converse(t + d - 1, d, q + 1, rm);
        }
        1 + (total - 1) / per_page
    }
}

/// The window of an ordered result set that a paginator selects: the rows
/// from `offset` to `offset + per_page`, both ends clamped to the end of
/// the set. Meaningful for `offset >= 0` and `per_page >= 0`.
pub open spec fn spec_window<U>(rows: Seq<U>, offset: int, per_page: int) -> Seq<U> {
    let start = vstd::math::min(offset, rows.len() as int);
    let end = vstd::math::min(offset + per_page, rows.len() as int);
    rows.subrange(start, end)
}

/// Which of the two queries a `load` issues failed.
#[derive(Debug, Clone, Copy, PartialEq, Eq, Structural)]
pub enum QueryStage {
    /// The windowed data query that fetches the page's rows.
    Data,
    /// The count query that fetches the total row count.
    Count,
}

/// What can go wrong while building a paginator or loading a page.
#[derive(Debug, Clone, PartialEq, Eq)]
pub enum PaginationError<E> {
    /// The caller supplied an invalid page number (`< 1`) or page size
    /// (`< 1`); rejected before any query is dispatched.
    Configuration,
    /// One of the two underlying queries failed at the transport level;
    /// carries which stage failed and the transport error.
    QueryExecution(QueryStage, E),
}

/// Wraps a caller-supplied query together with a 1-indexed page number,
/// a page size and the derived row offset.
#[derive(Debug, Clone, Copy, PartialEq, Eq)]
pub struct Paginated<T> {
    query: T,
    page: i64,
    per_page: i64,
    offset: i64,
}

impl<T> Paginated<T> {
    /// The wrapped query.
    pub closed spec fn spec_query(&self) -> T {
        self.query
    }

    /// The 1-indexed page number.
    pub closed spec fn spec_page(&self) -> i64 {
        self.page
    }

    /// The page size.
    pub closed spec fn spec_per_page(&self) -> i64 {
        self.per_page
    }

    /// The derived row offset.
    pub closed spec fn spec_offset(&self) -> i64 {
        self.offset
    }

    /// The wrapped query, by reference: the caller derives the windowed
    /// data query and the count query from it.
    pub fn query_ref(&self) -> (r: &T)
        ensures
            *r == self.spec_query(),
    {
        &self.query
    }

    /// The 1-indexed page number.
    pub fn page_number(&self) -> (r: i64)
        ensures
            r == self.spec_page(),
    {
        self.page
    }

    /// The page size: the bound of the windowed data query.
    pub fn page_size(&self) -> (r: i64)
        ensures
            r == self.spec_per_page(),
    {
        self.per_page
    }

    /// The derived row offset of the windowed data query.
    pub fn offset(&self) -> (r: i64)
        ensures
            r == self.spec_offset(),
    {
        self.offset
    }

    /// The paginator's invariant: the page number is 1-indexed, the page
    /// size is positive, and the offset is derived from them — it is never
    /// set independently.
    pub open spec fn well_formed(&self) -> bool {
        &&& 1 <= self.spec_page()
        &&& 1 <= self.spec_per_page()
        &&& self.spec_offset() == (self.spec_page() - 1) * self.spec_per_page()
    }
}

/// Anything can be paginated: wrapping never inspects the query.
pub trait Paginate: Sized {
    /// Wrap a query in a paginator for the given 1-indexed page, at the
    /// default page size.
    ///
    /// The query must not already carry a limit or an offset of its own:
    /// composing two windows is undefined, so paginate the unbounded query.
    fn paginate(self, page: i64) -> (r: Paginated<Self>)
        requires
            1 <= page,
            (page - 1) * DEFAULT_PER_PAGE <= i64::MAX,
        ensures
            r.well_formed(),
            r.spec_query() == self,
            r.spec_page() == page,
            r.spec_per_page() == DEFAULT_PER_PAGE,
            r.spec_offset() == (page - 1) * DEFAULT_PER_PAGE,
    {
        Paginated { query: self, page, per_page: DEFAULT_PER_PAGE, offset: (page - 1) * DEFAULT_PER_PAGE }
    }

    /// Like [`Paginate::paginate`], but rejects an invalid page number
    /// (`< 1`) with a [`PaginationError::Configuration`] instead of asking
    /// the caller to rule it out.
    fn try_paginate<E>(self, page: i64) -> (r: Result<Paginated<Self>, PaginationError<E>>)
        requires
            1 <= page ==> (page - 1) * DEFAULT_PER_PAGE <= i64::MAX,
        ensures
            1 <= page ==> (r matches Ok(p)
                && p.well_formed()
                && p.spec_query() == self
                && p.spec_page() == page
                && p.spec_per_page() == DEFAULT_PER_PAGE),
            page < 1 ==> r == Result::<Paginated<Self>, PaginationError<E>>::Err(PaginationError::Configuration),
    {
        if page < 1 {
            Err(PaginationError::Configuration)
        } else {
            Ok(self.paginate(page))
        }
    }
}

impl<T> Paginate for T {
}

impl<T> Paginated<T> {
    /// Reconfigure the page size, keeping the page number: the offset is
    /// recomputed from the existing page number and the new page size, so
    /// the paginator still points at the same logical page, not at the
    /// same absolute rows.
    pub fn per_page(self, per_page: i64) -> (r: Self)
        requires
            1 <= self.spec_page(),
            1 <= per_page,
            (self.spec_page() - 1) * per_page <= i64::MAX,
        ensures
            r.well_formed(),
            r.spec_query() == self.spec_query(),
            r.spec_page() == self.spec_page(),
            r.spec_per_page() == per_page,
            r.spec_offset() == (self.spec_page() - 1) * per_page,
    {
        proof {
            assert(0 <= (self.spec_page() - 1) * per_page) by (nonlinear_arith)
                requires
                    1 <= self.spec_page(),
                    1 <= per_page,
            ;
        }
        Paginated { per_page, offset: (self.page - 1) * per_page, ..self }
    }

    /// Like [`Paginated::per_page`], but rejects an invalid page size
    /// (`< 1`) with a [`PaginationError::Configuration`] instead of asking
    /// the caller to rule it out.
    pub fn checked_per_page<E>(self, per_page: i64) -> (r: Result<Self, PaginationError<E>>)
        requires
            1 <= self.spec_page(),
            1 <= per_page ==> (self.spec_page() - 1) * per_page <= i64::MAX,
        ensures
            1 <= per_page ==> (r matches Ok(p)
                && p.well_formed()
                && p.spec_query() == self.spec_query()
                && p.spec_page() == self.spec_page()
                && p.spec_per_page() == per_page
                && p.spec_offset() == (self.spec_page() - 1) * per_page),
            per_page < 1 ==> r == Result::<Self, PaginationError<E>>::Err(PaginationError::Configuration),
    {
        if per_page < 1 {
            Err(PaginationError::Configuration)
        } else {
            Ok(self.per_page(per_page))
        }
    }

    /// What merging the two query outcomes yields: the first failure, with
    /// the data query's error taking priority over the count query's, or
    /// else a page assembled from the rows and the total.
    pub open spec fn spec_assemble<U, E>(
        &self,
        data: Result<Vec<U>, E>,
        total: Result<i64, E>,
    ) -> Result<Page<U>, PaginationError<E>> {
        match data {
            Result::Err(e) => Result::Err(
                PaginationError::QueryExecution(QueryStage::Data, e),
            ),
            Result::Ok(rows) => match total {
                Result::Err(e) => Result::Err(
                    PaginationError::QueryExecution(QueryStage::Count, e),
                ),
                Result::Ok(t) => Result::Ok(
                    (Page {
                        page: self.spec_page(),
                        total: t,
                        total_page: spec_total_pages(t as int, self.spec_per_page() as int) as i64,
                        per_page: self.spec_per_page(),
                        data: rows,
                    }),
                ),
            },
        }
    }

    /// Merge the outcomes of the two underlying queries into one result.
    ///
    /// Both outcomes are inspected only here, after both queries have run;
    /// if both failed, the data query's error is reported, deterministically.
    pub fn assemble<U, E>(
        &self,
        data: Result<Vec<U>, E>,
        total: Result<i64, E>,
    ) -> (r: Result<Page<U>, PaginationError<E>>)
        requires
            self.well_formed(),
            total matches Ok(t) ==> 0 <= t,
        ensures
            r == self.spec_assemble(data, total),
    {
        match data {
            Err(e) => Err(PaginationError::QueryExecution(QueryStage::Data, e)),
            Ok(rows) => match total {
                Err(e) => Err(PaginationError::QueryExecution(QueryStage::Count, e)),
                Ok(t) => {
                    let total_page: i64 = total_pages(t, self.per_page);
                    Ok(Page {
                        page: self.page,
                        total: t,
                        total_page,
                        per_page: self.per_page,
                        data: rows,
                    })
                },
            },
        }
    }

    /// Load the paginator's page from a fully materialized, ordered result
    /// set: the in-memory form of executing the windowed data query and the
    /// count query against the same unchanged dataset.
    pub fn load<U>(&self, rows: Vec<U>) -> (r: Page<U>)
        requires
            self.well_formed(),
            rows@.len() <= i64::MAX,
        ensures
            loads_to(*self, rows@, r),
    {
        let ghost all = rows@;
        let total: i64 = rows.len() as i64;
        let mut rows = rows;
        let start: usize = if self.offset >= total {
            rows.len()
        } else {
            self.offset as usize
        };
        let mut data = rows.split_off(start);
        if self.per_page < data.len() as i64 {
            data.truncate(self.per_page as usize);
        }
        proof {
            assert(data@ =~= spec_window(all, self.spec_offset() as int, self.spec_per_page() as int));
        }
        let total_page: i64 = total_pages(total, self.per_page);
        Page { page: self.page, total, total_page, per_page: self.per_page, data }
    }
}

/// What it means for a page to be the result of loading paginator `p`
/// against the ordered dataset `rows`: every field is pinned down by `p`
/// and `rows` alone.
pub open spec fn loads_to<T, U>(p: Paginated<T>, rows: Seq<U>, r: Page<U>) -> bool {
    &&& r.page == p.spec_page()
    &&& r.per_page == p.spec_per_page()
    &&& r.total == rows.len()
    &&& r.total_page == spec_total_pages(rows.len() as int, p.spec_per_page() as int)
    &&& r.data@ == spec_window(rows, p.spec_offset() as int, p.spec_per_page() as int)
}

/// Page-count arithmetic: `spec_total_pages(total, per_page)` is the
/// ceiling of `total / per_page` — the least page count whose pages
/// together cover all `total` rows, and zero exactly when there are none.
pub proof fn lemma_total_pages_is_ceiling(total: int, per_page: int)
    requires
        0 <= total,
        1 <= per_page,
    ensures
        spec_total_pages(total, per_page) * per_page >= total,
        (spec_total_pages(total, per_page) - 1) * per_page < total,
        0 <= spec_total_pages(total, per_page) <= total,
        spec_total_pages(total, per_page) == 0 <==> total == 0,
{
    lemma_fundamental_div_mod(total + per_page - 1, per_page);
    let q = (total + per_page - 1) / per_page;
    let rm = (total + per_page - 1) % per_page;
    assert(q * per_page >= total && (q - 1) * per_page < total && 0 <= q <= total && (q == 0
        <==> total == 0)) by (nonlinear_arith)
        requires
            total + per_page - 1 == per_page * q + rm,
            0 <= rm < per_page,
            1 <= per_page,
            0 <= total,
    ;
}

/// Data bound: loading a page of a dataset of `N` rows yields exactly
/// `min(per_page, max(0, N - (page - 1) * per_page))` of them.
pub proof fn lemma_data_bound<T, U>(p: Paginated<T>, rows: Seq<U>, r: Page<U>)
    requires
        p.well_formed(),
        loads_to(p, rows, r),
    ensures
        r.data@.len() == vstd::math::min(
            p.spec_per_page() as int,
            vstd::math::max(0, rows.len() - (p.spec_page() - 1) * p.spec_per_page()),
        ),
{
    assert(0 <= (p.spec_page() - 1) * p.spec_per_page()) by (nonlinear_arith)
        requires
            1 <= p.spec_page(),
            1 <= p.spec_per_page(),
    ;
}

/// Idempotence: two loads of the same paginator against the same unchanged
/// dataset yield identical pages.
pub proof fn lemma_load_deterministic<T, U>(p: Paginated<T>, rows: Seq<U>, r1: Page<U>, r2: Page<U>)
    requires
        loads_to(p, rows, r1),
        loads_to(p, rows, r2),
    ensures
        r1.page == r2.page,
        r1.per_page == r2.per_page,
        r1.total == r2.total,
        r1.total_page == r2.total_page,
        r1.data@ == r2.data@,
{
}

/// Error propagation: a failed query surfaces as `QueryExecution` naming
/// the stage that failed, the data query's error takes priority when both
/// fail, and rows are returned exactly when both queries succeeded — never
/// alongside an error.
pub proof fn lemma_error_propagation<T, U, E>(
    p: Paginated<T>,
    data: Result<Vec<U>, E>,
    total: Result<i64, E>,
)
    ensures
        data is Err ==> p.spec_assemble(data, total) == Result::<
            Page<U>,
            PaginationError<E>,
        >::Err(PaginationError::QueryExecution(QueryStage::Data, data->Err_0)),
        data is Ok && total is Err ==> p.spec_assemble(data, total) == Result::<
            Page<U>,
            PaginationError<E>,
        >::Err(PaginationError::QueryExecution(QueryStage::Count, total->Err_0)),
        p.spec_assemble(data, total) is Ok <==> data is Ok && total is Ok,
{
}

} // verus!
