use org_metrics::error::MetricsError;
use org_metrics::listing::{RepoListing, RepoPage, ReposResponse};

fn page(names: &[Option<&str>], has_next_page: bool, end_cursor: Option<&str>) -> Option<ReposResponse> {
    Some(ReposResponse {
        organization: Some(RepoPage {
            names: names.iter().map(|n| n.map(String::from)).collect(),
            has_next_page,
            end_cursor: end_cursor.map(String::from),
        }),
    })
}

/// Serves `pages` by cursor: the first page for no cursor, page i+1 for cursor "c<i>".
fn walk(pages: &[Option<ReposResponse>]) -> (Result<Vec<String>, MetricsError>, usize, Vec<Option<String>>) {
    let mut listing = RepoListing::new();
    let mut requests = 0usize;
    let mut cursors = Vec::new();
    while !listing.is_done() {
        let cursor = listing.after_cursor();
        cursors.push(cursor.clone());
        let index = match cursor {
            None => 0,
            Some(c) => c[1..].parse::<usize>().unwrap() + 1,
        };
        requests += 1;
        if let Err(e) = listing.absorb(pages[index].clone()) {
            return (Err(e), requests, cursors);
        }
    }
    (Ok(listing.names()), requests, cursors)
}

#[test]
fn pagination_collects_all_pages_in_order() {
    let pages = vec![
        page(&[Some("a"), Some("b")], true, Some("c0")),
        page(&[Some("c"), Some("d")], true, Some("c1")),
        page(&[Some("e")], false, None),
    ];
    let (names, requests, cursors) = walk(&pages);
    assert_eq!(names.unwrap(), vec!["a", "b", "c", "d", "e"]);
    assert_eq!(requests, 3);
    assert_eq!(cursors, vec![None, Some("c0".to_string()), Some("c1".to_string())]);
}

#[test]
fn pagination_single_page() {
    let pages = vec![page(&[Some("only")], false, Some("ignored"))];
    let (names, requests, _) = walk(&pages);
    assert_eq!(names.unwrap(), vec!["only"]);
    assert_eq!(requests, 1);
}

#[test]
fn pagination_absent_organization_is_empty() {
    let pages = vec![Some(ReposResponse { organization: None }), page(&[Some("x")], false, None)];
    let (names, requests, _) = walk(&pages);
    assert_eq!(names.unwrap(), Vec::<String>::new());
    assert_eq!(requests, 1);
}

#[test]
fn pagination_absent_organization_later_keeps_names() {
    let pages = vec![
        page(&[Some("a")], true, Some("c0")),
        Some(ReposResponse { organization: None }),
    ];
    let (names, requests, _) = walk(&pages);
    assert_eq!(names.unwrap(), vec!["a"]);
    assert_eq!(requests, 2);
}

#[test]
fn pagination_skips_absent_edges() {
    let pages = vec![
        page(&[None, Some("a"), None], true, Some("c0")),
        page(&[None], true, Some("c1")),
        page(&[Some("b"), None], false, None),
    ];
    let (names, requests, _) = walk(&pages);
    assert_eq!(names.unwrap(), vec!["a", "b"]);
    assert_eq!(requests, 3);
}

#[test]
fn pagination_missing_payload_is_fatal() {
    let pages = vec![page(&[Some("a")], true, Some("c0")), None];
    let (names, requests, _) = walk(&pages);
    assert_eq!(names, Err(MetricsError::MissingPayload));
    assert_eq!(requests, 2);
}

#[test]
fn pagination_starts_empty() {
    let listing = RepoListing::new();
    assert!(!listing.is_done());
    assert_eq!(listing.after_cursor(), None);
    assert!(listing.names().is_empty());
}
