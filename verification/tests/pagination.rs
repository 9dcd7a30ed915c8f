use pagination::models::{Book, Post};
use pagination::paginate::{
    total_pages, Paginate, Paginated, PaginationError, QueryStage, DEFAULT_PER_PAGE,
};

#[test]
fn offset_arithmetic_example() {
    let p = ().paginate(3);
    assert_eq!(p.page_number(), 3);
    assert_eq!(p.page_size(), 10);
    assert_eq!(p.offset(), 20);
}

#[test]
fn first_page_has_no_offset() {
    let p = ().paginate(1);
    assert_eq!(p.offset(), 0);
    assert_eq!(p.page_size(), DEFAULT_PER_PAGE);
}

#[test]
fn page_count_arithmetic() {
    assert_eq!(total_pages(0, 10), 0);
    assert_eq!(total_pages(25, 10), 3);
    assert_eq!(total_pages(30, 10), 3);
    assert_eq!(total_pages(31, 10), 4);
    assert_eq!(total_pages(1, 10), 1);
    assert_eq!(total_pages(10, 10), 1);
    assert_eq!(total_pages(7, 1), 7);
    assert_eq!(total_pages(i64::MAX, 1), i64::MAX);
}

#[test]
fn reconfiguration_preserves_page_number_not_offset() {
    let p = ().paginate(2);
    assert_eq!(p.offset(), 10);
    let p = p.per_page(20);
    assert_eq!(p.page_number(), 2);
    assert_eq!(p.page_size(), 20);
    assert_eq!(p.offset(), 20);
}

#[test]
fn data_bound_on_each_page() {
    // 25 rows at 10 per page: pages hold 10, 10, 5, 0, 0, ... rows.
    let rows: Vec<i64> = (1..=25).collect();
    for (page, expected) in [(1, 10), (2, 10), (3, 5), (4, 0), (5, 0)] {
        let loaded = ().paginate(page).load(rows.clone());
        assert_eq!(loaded.data.len() as i64, expected);
    }
}

#[test]
fn load_is_idempotent_on_unchanged_data() {
    let rows: Vec<i64> = (1..=25).collect();
    let p = ().paginate(2).per_page(7);
    let a = p.load(rows.clone());
    let b = p.load(rows);
    assert_eq!(a.page, b.page);
    assert_eq!(a.per_page, b.per_page);
    assert_eq!(a.total, b.total);
    assert_eq!(a.total_page, b.total_page);
    assert_eq!(a.data, b.data);
}

#[test]
fn zero_page_size_is_a_configuration_error() {
    let r: Result<_, PaginationError<()>> = ().paginate(2).checked_per_page(0);
    assert_eq!(r, Err(PaginationError::Configuration));
    let r: Result<_, PaginationError<()>> = ().paginate(2).checked_per_page(-3);
    assert_eq!(r, Err(PaginationError::Configuration));
    let r: Result<_, PaginationError<()>> = ().paginate(2).checked_per_page(20);
    assert_eq!(r.map(|p| p.offset()), Ok(20));
}

#[test]
fn invalid_page_number_is_a_configuration_error() {
    let r: Result<Paginated<()>, PaginationError<()>> = ().try_paginate(0);
    assert_eq!(r, Err(PaginationError::Configuration));
    let r: Result<Paginated<()>, PaginationError<()>> = ().try_paginate(-1);
    assert_eq!(r, Err(PaginationError::Configuration));
    let r: Result<Paginated<()>, PaginationError<()>> = ().try_paginate(4);
    assert_eq!(r.map(|p| p.offset()), Ok(30));
}

#[test]
fn count_failure_names_the_count_stage_and_returns_no_rows() {
    let p = ().paginate(1);
    let r = p.assemble(Ok(vec![1, 2, 3]), Err("count timed out"));
    assert_eq!(
        r,
        Err(PaginationError::QueryExecution(
            QueryStage::Count,
            "count timed out"
        ))
    );
}

#[test]
fn data_failure_names_the_data_stage() {
    let p = ().paginate(1);
    let r: Result<_, PaginationError<&str>> =
        p.assemble(Err::<Vec<i64>, _>("data lost"), Ok(3));
    assert_eq!(
        r,
        Err(PaginationError::QueryExecution(QueryStage::Data, "data lost"))
    );
}

#[test]
fn data_failure_takes_priority_when_both_fail() {
    let p = ().paginate(1);
    let r: Result<pagination::paginate::Page<i64>, _> =
        p.assemble(Err("data lost"), Err("count lost"));
    assert_eq!(
        r,
        Err(PaginationError::QueryExecution(QueryStage::Data, "data lost"))
    );
}

#[test]
fn assemble_merges_both_successes() {
    let p = ().paginate(3);
    let r: Result<_, PaginationError<&str>> = p.assemble(Ok(vec![21, 22]), Ok(25));
    let page = r.unwrap();
    assert_eq!(page.page, 3);
    assert_eq!(page.per_page, 10);
    assert_eq!(page.total, 25);
    assert_eq!(page.total_page, 3);
    assert_eq!(page.data, vec![21, 22]);
}

#[test]
fn end_to_end_twenty_five_rows() {
    let rows: Vec<i64> = (1..=25).collect();
    let page = ().paginate(3).per_page(10).load(rows);
    assert_eq!(page.page, 3);
    assert_eq!(page.per_page, 10);
    assert_eq!(page.total, 25);
    assert_eq!(page.total_page, 3);
    assert_eq!(page.data, vec![21, 22, 23, 24, 25]);
}

#[test]
fn loading_an_empty_dataset() {
    let page = ().paginate(1).load(Vec::<i64>::new());
    assert_eq!(page.total, 0);
    assert_eq!(page.total_page, 0);
    assert!(page.data.is_empty());
}

#[test]
fn loading_past_the_end_is_empty() {
    let rows: Vec<i64> = (1..=5).collect();
    let page = ().paginate(100).load(rows);
    assert_eq!(page.total, 5);
    assert_eq!(page.total_page, 1);
    assert!(page.data.is_empty());
}

#[test]
fn page_size_larger_than_dataset() {
    let rows: Vec<i64> = (1..=5).collect();
    let page = ().paginate(1).per_page(100).load(rows);
    assert_eq!(page.data, vec![1, 2, 3, 4, 5]);
    assert_eq!(page.total_page, 1);
}

#[test]
fn paginator_wraps_rows_of_any_shape() {
    let rows = vec![
        (
            Book {
                id: "b1".to_string(),
                name: "first".to_string(),
            },
            Post {
                id: "p1".to_string(),
                book_id: "b1".to_string(),
                name: "hello".to_string(),
            },
        ),
        (
            Book {
                id: "b2".to_string(),
                name: "second".to_string(),
            },
            Post {
                id: "p2".to_string(),
                book_id: "b2".to_string(),
                name: "world".to_string(),
            },
        ),
    ];
    let page = ().paginate(2).per_page(1).load(rows);
    assert_eq!(page.total, 2);
    assert_eq!(page.total_page, 2);
    assert_eq!(page.data.len(), 1);
    assert_eq!(page.data[0].0.id, "b2");
    assert_eq!(page.data[0].1.name, "world");
}
