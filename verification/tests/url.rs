use reverse_deps::fetcher::{PagedFetcher, PageRequest};
use reverse_deps::url::build_url;

#[test]
fn request_url_exact() {
    let f = PagedFetcher::create("serde".to_string());
    let url = f.request_url(&PageRequest {
        page: 2,
        per_page: 10,
    });
    assert_eq!(
        url,
        "https://crates.io/api/v1/crates/serde/reverse_dependencies?page=2&per_page=10"
    );
}

#[test]
fn build_url_multi_digit_numbers() {
    let url = build_url("left-pad", 123, 4567);
    assert_eq!(
        url,
        "https://crates.io/api/v1/crates/left-pad/reverse_dependencies?page=123&per_page=4567"
    );
}

#[test]
fn build_url_zero_and_one() {
    let url = build_url("x", 0, 1);
    assert_eq!(
        url,
        "https://crates.io/api/v1/crates/x/reverse_dependencies?page=0&per_page=1"
    );
}

#[test]
fn build_url_largest_page_number() {
    let url = build_url("y", u32::MAX, 10);
    assert_eq!(
        url,
        "https://crates.io/api/v1/crates/y/reverse_dependencies?page=4294967295&per_page=10"
    );
}
