use decadog::error::Error;
use decadog::paginate::{
    next_page_url, url_from_capture, Advance, GithubSearchResults, PaginatedSearch,
};

#[derive(Debug, PartialEq)]
struct TestItem {
    data: u8,
}

fn page(items: Vec<u8>) -> GithubSearchResults<TestItem> {
    GithubSearchResults {
        incomplete_results: false,
        items: items.into_iter().map(|data| TestItem { data }).collect(),
    }
}

fn item(a: Advance<TestItem>) -> TestItem {
    match a {
        Advance::Item(i) => i,
        _ => panic!("expected an item"),
    }
}

#[test]
fn test_paginated_search() {
    let server = "http://127.0.0.1:1234";
    let page_two_path = "/url-for-page-two";
    let link = format!(r#"<{}{}>; rel="next""#, server, page_two_path);

    // The first page, as its request returned it
    let mut paginated_items = PaginatedSearch::new(page(vec![0, 1]), Some(&link)).ok().unwrap();
    assert_eq!(item(paginated_items.next()), TestItem { data: 0 });
    assert_eq!(item(paginated_items.next()), TestItem { data: 1 });

    // When we run out of items, we should fetch the next page
    let url = match paginated_items.next() {
        Advance::FetchPage(url) => url,
        _ => panic!("expected a page fetch"),
    };
    assert_eq!(url.as_str(), format!("{}{}", server, page_two_path));
    assert!(paginated_items.apply_response(page(vec![2]), None).is_ok());
    assert_eq!(item(paginated_items.next()), TestItem { data: 2 });

    // As the last page didn't have a link, the search is exhausted
    assert!(matches!(paginated_items.next(), Advance::Exhausted));
    assert!(matches!(paginated_items.next(), Advance::Exhausted));
}

#[test]
fn paginate_single_page_without_link() {
    let mut search = PaginatedSearch::new(page(vec![5, 6, 7]), None).ok().unwrap();
    assert_eq!(item(search.next()), TestItem { data: 5 });
    assert_eq!(item(search.next()), TestItem { data: 6 });
    assert_eq!(item(search.next()), TestItem { data: 7 });
    assert!(matches!(search.next(), Advance::Exhausted));
}

#[test]
fn paginate_empty_page_with_link_fetches() {
    let mut search =
        PaginatedSearch::new(page(vec![]), Some(r#"<https://api.example.com/s?page=2>; rel="next""#))
            .ok()
            .unwrap();
    assert!(matches!(search.next(), Advance::FetchPage(_)));
    // the link is used up: without a new page the search ends
    assert!(matches!(search.next(), Advance::Exhausted));
}

#[test]
fn link_header_picks_next_relation() {
    let header = r#"<https://api.example.com/s?page=1>; rel="prev", <https://api.example.com/s?page=3>; rel="next", <https://api.example.com/s?page=9>; rel="last""#;
    let url = next_page_url(Some(header)).ok().unwrap().unwrap();
    assert_eq!(url.as_str(), "https://api.example.com/s?page=3");
}

#[test]
fn link_header_without_next() {
    assert!(next_page_url(None).ok().unwrap().is_none());
    let header = r#"<https://api.example.com/s?page=1>; rel="prev""#;
    assert!(next_page_url(Some(header)).ok().unwrap().is_none());
}

#[test]
fn link_header_with_bad_url_is_an_error() {
    let header = r#"<not a url>; rel="next""#;
    assert!(matches!(next_page_url(Some(header)), Err(Error::Url { .. })));
    let mut search = PaginatedSearch::new(page(vec![1]), None).ok().unwrap();
    assert!(search.apply_response(page(vec![8, 9]), Some(header)).is_err());
    // the failed page left the search as it was
    assert_eq!(item(search.next()), TestItem { data: 1 });
    assert!(matches!(search.next(), Advance::Exhausted));
}

#[test]
fn url_from_captured_text() {
    assert!(url_from_capture(None).ok().unwrap().is_none());
    let u = url_from_capture(Some("https://h.example/p?page=2"))
        .ok()
        .unwrap()
        .unwrap();
    assert_eq!(u.as_str(), "https://h.example/p?page=2");
    assert!(matches!(
        url_from_capture(Some("/relative")),
        Err(Error::Url { .. })
    ));
}
