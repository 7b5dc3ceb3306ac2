use request_intake::address::{addr, Address};
use request_intake::errors::MyError;
use request_intake::reply::{ContentType, Reply};

#[test]
fn test_custom_bad_client() {
    let response = MyError::BadClientData.error_response();
    assert!(!(200..300).contains(&response.status));
    assert_eq!(response.body, "bad request");
}

#[test]
fn test_custom_timeout() {
    let response = MyError::Timeout.error_response();
    assert!(!(200..300).contains(&response.status));
    assert_eq!(response.body, "timeout");
}

#[test]
fn test_custom_internal_error() {
    let response = MyError::InternalError.error_response();
    assert!(!(200..300).contains(&response.status));
    assert_eq!(response.body, "internal error");
}

#[test]
fn test_query_extractor_address() {
    let address = Address { street_name: String::from("Bowles"), zip_code: 63026 };
    assert_eq!(addr(&address), "Street Name: Bowles, Zip Code: 63026");
}

#[test]
fn each_error_has_its_status() {
    assert_eq!(MyError::InternalError.status_code(), 500);
    assert_eq!(MyError::BadClientData.status_code(), 400);
    assert_eq!(MyError::Timeout.status_code(), 504);
}

#[test]
fn each_error_has_its_text() {
    assert_eq!(MyError::InternalError.message(), "internal error");
    assert_eq!(MyError::BadClientData.message(), "bad request");
    assert_eq!(MyError::Timeout.message(), "timeout");
}

#[test]
fn an_error_is_answered_with_a_page() {
    let response = MyError::Timeout.error_response();
    assert_eq!(response.status, 504);
    assert_eq!(response.content_type, Some(ContentType::Html));
}

#[test]
fn an_address_shows_the_whole_zip_code() {
    let address = Address { street_name: String::new(), zip_code: 0 };
    assert_eq!(addr(&address), "Street Name: , Zip Code: 0");
    let address = Address { street_name: String::from("Main St"), zip_code: u32::MAX };
    assert_eq!(addr(&address), "Street Name: Main St, Zip Code: 4294967295");
}

#[test]
fn a_bare_reply_has_no_body() {
    let reply = Reply::bare(500);
    assert_eq!(reply.status, 500);
    assert_eq!(reply.content_type, None);
    assert_eq!(reply.body, "");
}

#[test]
fn a_reply_with_a_body_keeps_it() {
    let reply = Reply::with_body(200, ContentType::Json, String::from("{}"));
    assert_eq!(reply.status, 200);
    assert_eq!(reply.content_type, Some(ContentType::Json));
    assert_eq!(reply.body, "{}");
}
