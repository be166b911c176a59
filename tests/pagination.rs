use smugmug::error::SmugMugError;
use smugmug::pagination::PageStep;
use smugmug::pagination::Pager;

fn first_params() -> Vec<(String, String)> {
    vec![("SortDirection".to_string(), "Ascending".to_string())]
}

/// Pulls up to `limit` items from a pager over pages of the given sizes and
/// returns the items and the requests made.
fn run(sizes: &[u32], page_size: u64, limit: usize) -> (Vec<u32>, Vec<(String, Vec<(String, String)>)>) {
    let mut pager: Pager<u32> = Pager::new(Some("/api/v2/node/abc!children"), &first_params(), page_size);
    let mut items = Vec::new();
    let mut requests = Vec::new();
    let mut next_item: u32 = 0;
    while items.len() < limit {
        match pager.next_step() {
            PageStep::Item(x) => items.push(x),
            PageStep::Fetch(req) => {
                let page = requests.len();
                requests.push((req.url, req.params));
                let size = sizes[page];
                let page_items: Vec<u32> = (next_item..next_item + size).collect();
                next_item += size;
                let cursor = if page + 1 < sizes.len() {
                    Some(format!("/api/v2/node/abc!children?start={}&count=25", next_item + 1))
                } else {
                    None
                };
                pager.receive_page(page_items, cursor.as_deref());
            }
            PageStep::Failed(e) => panic!("unexpected failure {:?}", e),
            PageStep::Done => break,
        }
    }
    (items, requests)
}

#[test]
fn three_pages_yield_every_item_in_order() {
    let (items, requests) = run(&[25, 25, 10], 25, usize::MAX);
    assert_eq!(items, (0..60).collect::<Vec<u32>>());
    assert_eq!(requests.len(), 3);
    assert_eq!(requests[0].0, "https://api.smugmug.com/api/v2/node/abc!children");
    assert_eq!(
        requests[0].1,
        vec![
            ("SortDirection".to_string(), "Ascending".to_string()),
            ("count".to_string(), "25".to_string()),
            ("_verbosity".to_string(), "1".to_string()),
        ]
    );
    assert_eq!(requests[1].0, "https://api.smugmug.com/api/v2/node/abc!children?start=26&count=25");
    assert_eq!(requests[1].1, vec![("_verbosity".to_string(), "1".to_string())]);
}

#[test]
fn stopping_early_fetches_one_page() {
    let (items, requests) = run(&[25, 25, 10], 25, 5);
    assert_eq!(items, vec![0, 1, 2, 3, 4]);
    assert_eq!(requests.len(), 1);
}

#[test]
fn short_page_ends_despite_cursor() {
    let mut pager: Pager<u32> = Pager::new(Some("/api/v2/album/x!images"), &Vec::new(), 25);
    assert!(matches!(pager.next_step(), PageStep::Fetch(_)));
    pager.receive_page(vec![1, 2], Some("/api/v2/album/x!images?start=3&count=25"));
    assert!(matches!(pager.next_step(), PageStep::Item(1)));
    assert!(matches!(pager.next_step(), PageStep::Item(2)));
    assert!(matches!(pager.next_step(), PageStep::Done));
}

#[test]
fn no_first_url_is_empty() {
    let mut pager: Pager<u32> = Pager::new(None, &Vec::new(), 25);
    assert!(matches!(pager.next_step(), PageStep::Done));
}

#[test]
fn empty_page_ends() {
    let mut pager: Pager<u32> = Pager::new(Some("/api/v2/node/y!children"), &Vec::new(), 10);
    assert!(matches!(pager.next_step(), PageStep::Fetch(_)));
    pager.receive_page(Vec::new(), None);
    assert!(matches!(pager.next_step(), PageStep::Done));
}

#[test]
fn bad_cursor_fails_after_the_page() {
    let mut pager: Pager<u32> = Pager::new(Some("/api/v2/node/y!children"), &Vec::new(), 1);
    assert!(matches!(pager.next_step(), PageStep::Fetch(_)));
    pager.receive_page(vec![9], Some("http://[::1"));
    assert!(matches!(pager.next_step(), PageStep::Item(9)));
    assert!(matches!(pager.next_step(), PageStep::Failed(SmugMugError::UrlParsing)));
    assert!(matches!(pager.next_step(), PageStep::Done));
}
