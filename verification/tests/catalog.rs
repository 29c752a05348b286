use risibot::risibank::{
    Risibank, RisibankError, RisibankSearchResult, SearchAction, SearchEvent, SearchRequest,
    Sticker, API_BASE_URL,
};
use risibot::status::HttpStatus;

fn sticker(id: u64, ext: &str) -> Sticker {
    Sticker {
        risibank_link: format!("https://risibank.fr/media/{}.{}", id, ext),
        id,
        ext: ext.to_string(),
    }
}

fn status(code: u16) -> HttpStatus {
    HttpStatus::from_u16(code).unwrap()
}

/// What a catalog that stands in for the real one does with a request.
enum Catalog {
    Unreachable(String),
    Answers(u16, Result<RisibankSearchResult, String>),
}

/// Runs one search against `catalog` and returns the requests that were sent
/// and the outcome.
fn search(
    risibank: &Risibank,
    query: &str,
    catalog: Catalog,
) -> (Vec<SearchRequest>, Result<RisibankSearchResult, RisibankError>) {
    let mut sent = Vec::new();
    let mut body = None;
    let mut catalog = Some(catalog);
    let mut event = SearchEvent::Asked(query.to_string());
    loop {
        event = match risibank.search(event) {
            SearchAction::Get(request) => {
                sent.push(request);
                match catalog.take().expect("one request per search") {
                    Catalog::Unreachable(detail) => SearchEvent::Failed(detail),
                    Catalog::Answers(code, decoded) => {
                        body = Some(decoded);
                        SearchEvent::Responded(status(code))
                    }
                }
            }
            SearchAction::Decode => SearchEvent::Decoded(body.take().expect("a response to decode")),
            SearchAction::Return(outcome) => return (sent, outcome),
        };
    }
}

#[test]
fn test_search_success() {
    let response = RisibankSearchResult { stickers: vec![sticker(1, "jpg"), sticker(2, "gif")] };

    let risibank = Risibank::with_base_url("http://127.0.0.1:4000".to_string());
    let (sent, result) = search(&risibank, "test", Catalog::Answers(200, Ok(response)));
    let result = result.unwrap();

    assert_eq!(result.stickers.len(), 2);
    assert_eq!(result.stickers[0].id, 1);
    assert_eq!(result.stickers[0].ext, "jpg");

    assert_eq!(
        sent,
        vec![SearchRequest {
            url: "http://127.0.0.1:4000/search".to_string(),
            query: vec![("search".to_string(), "test".to_string())],
        }]
    );
}

#[test]
fn test_rate_limit() {
    let risibank = Risibank::with_base_url("http://127.0.0.1:4000".to_string());
    let (sent, result) =
        search(&risibank, "test", Catalog::Answers(429, Err("no body".to_string())));

    assert!(matches!(result.unwrap_err(), RisibankError::RateLimit));
    assert_eq!(sent.len(), 1);
}

#[test]
fn default_base_url_is_the_public_catalog() {
    assert_eq!(API_BASE_URL, "https://risibank.fr/api/v0");
    let risibank = Risibank::new();
    assert_eq!(risibank.base_url(), "https://risibank.fr/api/v0");
    assert_eq!(
        risibank.search(SearchEvent::Asked("boomer".to_string())),
        SearchAction::Get(SearchRequest {
            url: "https://risibank.fr/api/v0/search".to_string(),
            query: vec![("search".to_string(), "boomer".to_string())],
        })
    );
}

#[test]
fn query_is_handed_over_as_typed() {
    let risibank = Risibank::new();
    for query in ["a b", "été & co", "x=1&y=2", "日本語", "100%", " "] {
        assert_eq!(
            risibank.search(SearchEvent::Asked(query.to_string())),
            SearchAction::Get(SearchRequest {
                url: "https://risibank.fr/api/v0/search".to_string(),
                query: vec![("search".to_string(), query.to_string())],
            })
        );
    }
}

#[test]
fn every_success_status_asks_for_the_body() {
    let risibank = Risibank::new();
    for code in 200..300u16 {
        assert_eq!(risibank.search(SearchEvent::Responded(status(code))), SearchAction::Decode);
    }
}

#[test]
fn rate_limit_status_ends_the_search() {
    let risibank = Risibank::new();
    assert_eq!(
        risibank.search(SearchEvent::Responded(status(429))),
        SearchAction::Return(Err(RisibankError::RateLimit))
    );
}

#[test]
fn other_statuses_are_invalid_responses() {
    let risibank = Risibank::new();
    let cases = [
        (100u16, "Unexpected status code: 100 Continue"),
        (199, "Unexpected status code: 199 <unknown status code>"),
        (300, "Unexpected status code: 300 Multiple Choices"),
        (301, "Unexpected status code: 301 Moved Permanently"),
        (400, "Unexpected status code: 400 Bad Request"),
        (404, "Unexpected status code: 404 Not Found"),
        (408, "Unexpected status code: 408 Request Timeout"),
        (428, "Unexpected status code: 428 Precondition Required"),
        (430, "Unexpected status code: 430 <unknown status code>"),
        (500, "Unexpected status code: 500 Internal Server Error"),
        (503, "Unexpected status code: 503 Service Unavailable"),
        (999, "Unexpected status code: 999 <unknown status code>"),
    ];
    for (code, detail) in cases {
        assert_eq!(
            risibank.search(SearchEvent::Responded(status(code))),
            SearchAction::Return(Err(RisibankError::InvalidResponse(detail.to_string())))
        );
    }
}

#[test]
fn every_status_is_classed_one_way() {
    let risibank = Risibank::new();
    for code in 100..1000u16 {
        let action = risibank.search(SearchEvent::Responded(status(code)));
        if (200..300).contains(&code) {
            assert_eq!(action, SearchAction::Decode);
        } else if code == 429 {
            assert_eq!(action, SearchAction::Return(Err(RisibankError::RateLimit)));
        } else {
            let shown = reqwest::StatusCode::from_u16(code).unwrap().to_string();
            assert_eq!(
                action,
                SearchAction::Return(Err(RisibankError::InvalidResponse(format!(
                    "Unexpected status code: {}",
                    shown
                ))))
            );
        }
    }
}

#[test]
fn transport_failure_is_a_transport_error() {
    let risibank = Risibank::new();
    let (sent, result) =
        search(&risibank, "boomer", Catalog::Unreachable("connection reset".to_string()));
    assert_eq!(result, Err(RisibankError::Transport("connection reset".to_string())));
    assert_eq!(sent.len(), 1);
}

#[test]
fn undecodable_body_is_an_invalid_response() {
    let risibank = Risibank::new();
    let (sent, result) = search(
        &risibank,
        "boomer",
        Catalog::Answers(200, Err("missing field `stickers`".to_string())),
    );
    assert_eq!(
        result,
        Err(RisibankError::InvalidResponse("missing field `stickers`".to_string()))
    );
    assert_eq!(sent.len(), 1);
}

#[test]
fn empty_catalog_response_is_a_success() {
    let risibank = Risibank::new();
    let (_, result) = search(
        &risibank,
        "nothing",
        Catalog::Answers(200, Ok(RisibankSearchResult { stickers: vec![] })),
    );
    assert_eq!(result, Ok(RisibankSearchResult { stickers: vec![] }));
}

#[test]
fn decoded_response_is_returned_unchanged() {
    let risibank = Risibank::new();
    let found = RisibankSearchResult {
        stickers: vec![sticker(3, "png"), sticker(1, "gif"), sticker(2, "jpg")],
    };
    assert_eq!(
        risibank.search(SearchEvent::Decoded(Ok(found.clone()))),
        SearchAction::Return(Ok(found))
    );
}

#[test]
fn error_messages() {
    assert_eq!(
        RisibankError::Transport("timed out".to_string()).message(),
        "HTTP request failed: timed out"
    );
    assert_eq!(RisibankError::RateLimit.message(), "Rate limit exceeded");
    assert_eq!(
        RisibankError::InvalidResponse("Unexpected status code: 404 Not Found".to_string())
            .message(),
        "Invalid response format: Unexpected status code: 404 Not Found"
    );
    assert_eq!(
        RisibankError::unexpected_status("418 I'm a teapot"),
        RisibankError::InvalidResponse("Unexpected status code: 418 I'm a teapot".to_string())
    );
}

#[test]
fn status_numbers_run_from_100_to_999() {
    assert_eq!(HttpStatus::from_u16(0), None);
    assert_eq!(HttpStatus::from_u16(99), None);
    assert_eq!(HttpStatus::from_u16(1000), None);
    assert_eq!(HttpStatus::from_u16(u16::MAX), None);
    for code in 100..1000u16 {
        let status = HttpStatus::from_u16(code).unwrap();
        assert_eq!(status.as_u16(), code);
        assert_eq!(status.is_success(), (200..300).contains(&code));
        assert_eq!(status.is_server_error(), (500..600).contains(&code));
        assert_eq!(status.is_too_many_requests(), code == 429);
    }
}

#[test]
fn status_text_is_what_reqwest_displays() {
    assert_eq!(status(200).to_text(), "200 OK");
    assert_eq!(status(404).to_text(), "404 Not Found");
    assert_eq!(status(429).to_text(), "429 Too Many Requests");
    for code in 100..1000u16 {
        assert_eq!(
            status(code).to_text(),
            reqwest::StatusCode::from_u16(code).unwrap().to_string()
        );
    }
}
