use fldp_rust_backend_template::pagination::PaginationResult;

#[test]
fn test_pagination_result_calculation() {
    let data = vec![1, 2, 3];
    let result = PaginationResult::new(data, 1, 10, 25);

    assert_eq!(result.total_pages, 3);
    assert_eq!(result.page, 1);
    assert_eq!(result.limit, 10);
}

#[test]
fn test_pagination_exact_division() {
    let result = PaginationResult::new(vec![0u64; 10], 2, 10, 20);
    assert_eq!(result.total_pages, 2);
    assert_eq!(result.total, 20);
}

#[test]
fn test_pagination_zero_total() {
    let result: PaginationResult<u64> = PaginationResult::new(vec![], 1, 10, 0);
    assert_eq!(result.total_pages, 0);
    assert_eq!(result.data.len(), 0);
}

#[test]
fn test_pagination_zero_limit_floored() {
    // A limit of zero is substituted with a floor of one.
    let result: PaginationResult<u64> = PaginationResult::new(vec![], 1, 0, 5);
    assert_eq!(result.limit, 1);
    assert_eq!(result.total_pages, 5);
}
