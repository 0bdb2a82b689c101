use klipy::{ack_result, check_status, AdItem, Envelope, Error, Item, Page};

fn ad(content: &str) -> AdItem {
    AdItem { content: content.to_string(), width: 300, height: 250, kind: "ad".to_string() }
}

fn page(data: Vec<Item<u32>>) -> Page<u32> {
    Page { data, current_page: Some(1), per_page: Some(20), has_next: false, meta: None }
}

#[test]
fn item_is_content_or_ad() {
    let c: Item<u32> = Item::Content(7);
    assert_eq!(c.content(), Some(&7));
    assert!(c.ad().is_none());
    let a: Item<u32> = Item::Ad(ad("<p>x</p>"));
    assert!(a.content().is_none());
    assert_eq!(a.ad().unwrap().content, "<p>x</p>");
}

#[test]
fn content_items_skip_ads_in_order() {
    let p = page(vec![
        Item::Content(1),
        Item::Ad(ad("first")),
        Item::Content(2),
        Item::Content(3),
        Item::Ad(ad("second")),
    ]);
    let contents: Vec<u32> = p.content_items().into_iter().copied().collect();
    assert_eq!(contents, vec![1, 2, 3]);
    let ads: Vec<String> = p.ad_items().into_iter().map(|a| a.content.clone()).collect();
    assert_eq!(ads, vec!["first".to_string(), "second".to_string()]);
    assert_eq!(p.content_items().len() + p.ad_items().len(), p.data.len());
}

#[test]
fn empty_page_has_no_items() {
    let p = page(Vec::new());
    assert!(p.content_items().is_empty());
    assert!(p.ad_items().is_empty());
}

#[test]
fn envelope_with_result_and_data_gives_data() {
    let env = Envelope { result: true, data: Some(5u32) };
    assert_eq!(env.into_data().unwrap(), 5);
}

#[test]
fn envelope_reporting_failure_is_unsuccessful() {
    let env = Envelope { result: false, data: Some(5u32) };
    assert_eq!(env.into_data().unwrap_err(), Error::Unsuccessful);
    let env: Envelope<u32> = Envelope { result: true, data: None };
    assert_eq!(env.into_data().unwrap_err(), Error::Unsuccessful);
    let env: Envelope<u32> = Envelope { result: false, data: None };
    assert_eq!(env.into_data().unwrap_err(), Error::Unsuccessful);
}

#[test]
fn acknowledgement() {
    assert_eq!(ack_result(true), Ok(()));
    assert_eq!(ack_result(false), Err(Error::Unsuccessful));
}

#[test]
fn success_statuses_pass() {
    assert_eq!(check_status(200, String::new()), Ok(()));
    assert_eq!(check_status(204, String::new()), Ok(()));
    assert_eq!(check_status(299, String::new()), Ok(()));
}

#[test]
fn other_statuses_keep_status_and_body() {
    assert_eq!(
        check_status(404, "not found".to_string()),
        Err(Error::Status { status: 404, body: "not found".to_string() })
    );
    assert_eq!(
        check_status(199, String::new()),
        Err(Error::Status { status: 199, body: String::new() })
    );
    assert_eq!(
        check_status(300, "moved".to_string()),
        Err(Error::Status { status: 300, body: "moved".to_string() })
    );
    assert_eq!(
        check_status(500, "oops".to_string()),
        Err(Error::Status { status: 500, body: "oops".to_string() })
    );
}

#[test]
fn numbers_that_are_no_status_fail() {
    assert_eq!(check_status(0, String::new()), Err(Error::Status { status: 0, body: String::new() }));
    assert_eq!(
        check_status(1000, String::new()),
        Err(Error::Status { status: 1000, body: String::new() })
    );
}

#[test]
fn filtering_keeps_order_across_pages() {
    let first = vec![Item::Content(1), Item::Ad(ad("a"))];
    let second = vec![Item::Ad(ad("b")), Item::Content(2), Item::Content(3)];
    let mut both = first.clone();
    both.extend(second.clone());
    let c = |d: Vec<Item<u32>>| page(d).content_items().into_iter().copied().collect::<Vec<u32>>();
    let mut expected = c(first.clone());
    expected.extend(c(second.clone()));
    assert_eq!(c(both), expected);
}

#[test]
fn content_and_ads_merge_back_by_position() {
    let p = page(vec![Item::Ad(ad("a")), Item::Content(1), Item::Content(2), Item::Ad(ad("b")), Item::Content(3)]);
    let mut contents = p.content_items().into_iter();
    let mut ads = p.ad_items().into_iter();
    for entry in p.data.iter() {
        match entry {
            Item::Content(c) => assert_eq!(contents.next(), Some(c)),
            Item::Ad(a) => assert_eq!(ads.next().map(|x| x.content.clone()), Some(a.content.clone())),
        }
    }
    assert!(contents.next().is_none());
    assert!(ads.next().is_none());
}
