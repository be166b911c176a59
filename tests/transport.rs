use smugmug::error::SmugMugError;
use smugmug::rate_limit::RateLimitTracker;
use smugmug::rate_limit::RateLimitWindow;
use smugmug::signer::Creds;
use smugmug::signer::HttpMethod;
use smugmug::transport::begin_json_response;
use smugmug::transport::create_req;
use smugmug::transport::error_on_http_status;
use smugmug::transport::finish_json_response;
use smugmug::transport::prepare_request;
use smugmug::transport::ApiErrorCodes;
use smugmug::transport::ResponseBody;
use smugmug::transport::ResponseKind;

fn body(code: u32, message: &str, response: Option<u8>) -> ResponseBody<u8> {
    ResponseBody { code, message: message.to_string(), response }
}

#[test]
fn too_many_requests_with_retry_after() {
    let mut tracker = RateLimitTracker::new();
    let r = begin_json_response(&mut tracker, 100, 429, Some("30"), Some("0"), None);
    assert_eq!(r, Err(SmugMugError::ApiResponseTooManyRequests(30)));
    let snap = tracker.last_window().unwrap();
    assert_eq!(snap.retry_after_seconds(), Some(30));
    assert_eq!(snap.resume_after(), Some(130));
}

#[test]
fn too_many_requests_without_retry_after_is_http_error() {
    let mut tracker = RateLimitTracker::new();
    let r = begin_json_response(&mut tracker, 100, 429, None, Some("0"), None);
    assert_eq!(r, Err(SmugMugError::HttpStatus(429)));
}

#[test]
fn http_status_classes() {
    assert_eq!(error_on_http_status(200, None), Ok(()));
    assert_eq!(error_on_http_status(302, None), Ok(()));
    assert_eq!(error_on_http_status(404, None), Err(SmugMugError::HttpStatus(404)));
    assert_eq!(error_on_http_status(599, None), Err(SmugMugError::HttpStatus(599)));
    assert_eq!(error_on_http_status(600, None), Ok(()));
    let w = RateLimitWindow::from_header_values(0, Some("9"), None, None);
    assert_eq!(error_on_http_status(500, Some(&w)), Err(SmugMugError::HttpStatus(500)));
    assert_eq!(error_on_http_status(429, Some(&w)), Err(SmugMugError::ApiResponseTooManyRequests(9)));
}

#[test]
fn success_records_window_and_returns_it() {
    let mut tracker = RateLimitTracker::new();
    let w = begin_json_response(&mut tracker, 50, 200, None, Some("5"), Some("60")).unwrap();
    assert_eq!(w.num_remaining_requests(), Some(5));
    assert_eq!(tracker.last_window(), Some(w));
}

#[test]
fn unknown_code_is_reported() {
    let w = RateLimitWindow::empty(0);
    let r = finish_json_response(w, Ok(body(999, "odd", Some(1))));
    assert!(matches!(r, Err(SmugMugError::ApiResponseCode(999))));
}

#[test]
fn failure_code_keeps_message() {
    let w = RateLimitWindow::empty(0);
    let r = finish_json_response(w, Ok(body(404, "Not Found", None)));
    assert!(matches!(r, Err(SmugMugError::ApiResponse(404, ref m)) if m == "Not Found"));
}

#[test]
fn success_code_returns_payload() {
    let w = RateLimitWindow::from_header_values(0, None, Some("3"), None);
    let r = finish_json_response(w, Ok(body(201, "Created", Some(7)))).unwrap();
    assert_eq!(r.payload, Some(7));
    assert_eq!(r.rate_limit, Some(w));
    let empty = finish_json_response(w, Ok(body(200, "Ok", None))).unwrap();
    assert_eq!(empty.payload, None);
}

#[test]
fn malformed_body_is_reported() {
    let w = RateLimitWindow::empty(0);
    let r = finish_json_response::<u8>(w, Err("expected value".to_string()));
    assert!(matches!(r, Err(SmugMugError::ApiResponseMalformed(ref m)) if m == "expected value"));
}

#[test]
fn code_set_is_closed() {
    assert_eq!(ApiErrorCodes::from_code(200), Some(ApiErrorCodes::Success));
    assert_eq!(ApiErrorCodes::from_code(503), Some(ApiErrorCodes::ServiceUnavailable));
    assert_eq!(ApiErrorCodes::from_code(999), None);
    assert!(ApiErrorCodes::MovedTemporarily.is_success());
    assert!(!ApiErrorCodes::TooManyRequests.is_success());
    assert_eq!(body(301, "", None).is_success_code(), Ok(true));
    assert_eq!(body(400, "", None).is_success_code(), Ok(false));
    assert_eq!(body(0, "", None).is_success_code(), Err(SmugMugError::ApiResponseCode(0)));
}

#[test]
fn unsigned_request_carries_api_key() {
    let creds = Creds::from_tokens("KEY", None, None, None);
    let params = vec![("_verbosity".to_string(), "1".to_string())];
    let url = create_req(&creds, "https://api.smugmug.com/api/v2/user/apidemo", Some(&params)).unwrap();
    assert_eq!(url, "https://api.smugmug.com/api/v2/user/apidemo?_verbosity=1&APIKey=KEY");
    let p = prepare_request(&creds, HttpMethod::Get, ResponseKind::Json, "https://api.smugmug.com/api/v2/user/apidemo", None)
        .unwrap();
    assert_eq!(p.url, "https://api.smugmug.com/api/v2/user/apidemo?APIKey=KEY");
    assert!(p.authorization.is_none());
    assert_eq!(p.headers, vec![("Accept".to_string(), "application/json".to_string())]);
}

#[test]
fn signed_request_has_no_api_key() {
    let creds = Creds::from_tokens("KEY", Some("S"), Some("T"), Some("TS"));
    let p = prepare_request(&creds, HttpMethod::Get, ResponseKind::Binary, "https://api.smugmug.com/a b", None).unwrap();
    assert_eq!(p.url, "https://api.smugmug.com/a%20b");
    let auth = p.authorization.unwrap();
    assert!(auth.starts_with("OAuth oauth_consumer_key=\"KEY\""));
    assert_eq!(p.headers, vec![("Authorization".to_string(), auth)]);
}

#[test]
fn writes_need_secrets() {
    let creds = Creds::from_tokens("KEY", None, None, None);
    let data_url = "https://api.smugmug.com/api/v2/album/x";
    let r = prepare_request(&creds, HttpMethod::Patch, ResponseKind::Json, data_url, None);
    assert!(matches!(r, Err(SmugMugError::Auth(_))));
}

#[test]
fn bad_url_is_reported() {
    let creds = Creds::from_tokens("KEY", None, None, None);
    assert_eq!(create_req(&creds, "not a url", None), Err(SmugMugError::UrlParsing));
}

#[test]
fn missing_payload_is_reported() {
    let r: smugmug::transport::Response<u8> = smugmug::transport::Response { payload: None, rate_limit: None };
    assert_eq!(r.into_payload(), Err(SmugMugError::ResponseMissing));
    let r = smugmug::transport::Response { payload: Some(3u8), rate_limit: None };
    assert_eq!(r.into_payload(), Ok(3));
}

#[test]
fn writes_send_json_headers() {
    let creds = Creds::from_tokens("KEY", Some("S"), Some("T"), Some("TS"));
    let p = prepare_request(&creds, HttpMethod::Post, ResponseKind::Json, "https://api.smugmug.com/api/v2/node/x", None)
        .unwrap();
    let names: Vec<&str> = p.headers.iter().map(|(k, _)| k.as_str()).collect();
    assert_eq!(names, vec!["Accept", "Content-Type", "Authorization"]);
    assert_eq!(p.headers[1].1, "application/json");
}
