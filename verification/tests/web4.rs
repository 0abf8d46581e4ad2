use social_preview::web4::Card;
use social_preview::web4::Preload;
use social_preview::web4::Reply;
use social_preview::web4::Resolution;
use social_preview::web4::Web4Request;
use social_preview::web4::Web4Response;

fn preload(url: &str, status: u32) -> Preload {
    Preload {
        url: url.to_string(),
        response: Web4Response::status(status),
        social: None,
        token: None,
        reference: None,
    }
}

fn sample_card() -> Card {
    Card {
        card: "summary".to_string(),
        title: "t".to_string(),
        description: "d".to_string(),
        image: "i".to_string(),
        url: "u".to_string(),
    }
}

#[test]
fn html_response_carries_the_page_as_bytes() {
    let r = Web4Response::html_response("<p>h\u{e9}</p>".to_string());
    assert_eq!(r.content_type, Some("text/html; charset=UTF-8".to_string()));
    assert_eq!(r.body, Some("<p>h\u{e9}</p>".as_bytes().to_vec()));
    assert_eq!(r.status, None);
    assert_eq!(r.body_url, None);
    assert_eq!(r.preload_urls, None);
}

#[test]
fn plain_response_carries_the_text_as_bytes() {
    let r = Web4Response::plain_response("https://x/y.png".to_string());
    assert_eq!(r.content_type, Some("text/plain; charset=UTF-8".to_string()));
    assert_eq!(r.body, Some(b"https://x/y.png".to_vec()));
    assert_eq!(r.status, None);
    assert_eq!(r.body_url, None);
    assert_eq!(r.preload_urls, None);
}

#[test]
fn preload_urls_response_carries_the_urls_only() {
    let r = Web4Response::preload_urls(vec!["a".to_string(), "b".to_string()]);
    assert_eq!(
        r,
        Web4Response {
            preload_urls: Some(vec!["a".to_string(), "b".to_string()]),
            ..Web4Response::default()
        }
    );
}

#[test]
fn body_url_response_carries_the_url_only() {
    let r = Web4Response::body_url("ipfs://x".to_string());
    assert_eq!(r, Web4Response { body_url: Some("ipfs://x".to_string()), ..Web4Response::default() });
}

#[test]
fn status_response_carries_the_status_only() {
    let r = Web4Response::status(404);
    assert_eq!(r, Web4Response { status: Some(404), ..Web4Response::default() });
}

#[test]
fn default_response_is_empty() {
    let r = Web4Response::default();
    assert_eq!(r.content_type, None);
    assert_eq!(r.status, None);
    assert_eq!(r.body, None);
    assert_eq!(r.body_url, None);
    assert_eq!(r.preload_urls, None);
}

#[test]
fn preload_is_found_by_its_exact_url() {
    let request = Web4Request {
        account_id: None,
        path: None,
        params: None,
        query: None,
        preloads: Some(vec![preload("a", 1), preload("b", 2), preload("a", 3), preload("", 4)]),
    };
    assert_eq!(request.preload("a").map(|p| p.response.status), Some(Some(1)));
    assert_eq!(request.preload("b").map(|p| p.response.status), Some(Some(2)));
    assert_eq!(request.preload("").map(|p| p.response.status), Some(Some(4)));
    assert!(request.preload("A").is_none());
    assert!(request.preload("a ").is_none());
    assert!(request.preload("c").is_none());
}

#[test]
fn request_without_preloads_holds_none() {
    let request =
        Web4Request { account_id: None, path: None, params: None, query: None, preloads: None };
    assert!(request.preload("a").is_none());
}

#[test]
fn a_demand_goes_out_as_preload_urls() {
    let r = Resolution::NeedMore(vec!["a".to_string()]);
    assert!(r.card().is_none());
    assert_eq!(
        r.into_response("ignored".to_string()),
        Web4Response::preload_urls(vec!["a".to_string()])
    );
}

#[test]
fn a_status_goes_out_as_a_status() {
    let r = Resolution::Done(Reply::Status(404));
    assert!(r.card().is_none());
    assert_eq!(r.into_response("ignored".to_string()), Web4Response::status(404));
}

#[test]
fn a_text_goes_out_in_plain_text() {
    let r = Resolution::Done(Reply::Plain("hello".to_string()));
    assert!(r.card().is_none());
    assert_eq!(
        r.into_response("ignored".to_string()),
        Web4Response::plain_response("hello".to_string())
    );
}

#[test]
fn a_card_goes_out_as_the_page_rendered_from_it() {
    let r = Resolution::Done(Reply::Html(sample_card()));
    assert_eq!(r.card(), Some(&sample_card()));
    assert_eq!(
        r.into_response("<html>page</html>".to_string()),
        Web4Response::html_response("<html>page</html>".to_string())
    );
}
