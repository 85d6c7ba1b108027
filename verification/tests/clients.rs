use basket::Basket;
use basket::BasketError;
use basket::Method;
use basket::SubscribeOpts;
use basket::YesNo;
use basket::write_response;
use url::Url;

fn client() -> Basket {
    Basket::new(
        "SECRET-REDACTED".to_string(),
        Url::parse("https://basket.example.com").unwrap(),
    )
}

fn pair(k: &str, v: &str) -> (String, String) {
    (k.to_string(), v.to_string())
}

#[test]
fn subscribe_builds_post_with_form_and_no_credential() {
    let req = client()
        .subscribe_request("x@example.com", &vec!["news1".to_string(), "news2".to_string()], None)
        .unwrap();
    assert!(matches!(req.method, Method::Post));
    assert_eq!(req.url_str(), "https://basket.example.com/news/subscribe/");
    assert!(req.query.is_empty());
    assert_eq!(
        req.form.unwrap(),
        vec![pair("email", "x@example.com"), pair("newsletters", "news1,news2")]
    );
    assert!(write_response(r#"{"status":"ok"}"#).is_ok());
}

#[test]
fn subscribe_private_attaches_api_key_query() {
    let req = client()
        .subscribe_private_request(
            "x@example.com",
            &vec!["news1".to_string()],
            Some(SubscribeOpts { country: Some("gb".to_string()), ..SubscribeOpts::default() }),
        )
        .unwrap();
    assert!(matches!(req.method, Method::Post));
    assert_eq!(req.url_str(), "https://basket.example.com/news/subscribe/");
    assert_eq!(req.query, vec![pair("api-key", "SECRET-REDACTED")]);
    assert_eq!(
        req.form.unwrap(),
        vec![
            pair("email", "x@example.com"),
            pair("newsletters", "news1"),
            pair("country", "gb"),
        ]
    );
}

#[test]
fn unsubscribe_targets_the_token_path() {
    let req = client()
        .unsubscribe_request("abcdef123456", &vec!["news1".to_string()], YesNo::Y)
        .unwrap();
    assert!(matches!(req.method, Method::Post));
    assert_eq!(req.url_str(), "https://basket.example.com/news/unsubscribe/abcdef123456/");
    assert!(req.query.is_empty());
    assert_eq!(
        req.form.unwrap(),
        vec![pair("newsletters", "news1"), pair("optout", "Y")]
    );
}

#[test]
fn unsubscribe_refuses_an_empty_token() {
    let err = client().unsubscribe_request("", &vec!["news1".to_string()], YesNo::N).unwrap_err();
    assert!(matches!(err, BasketError::InvalidTokenFormat));
}

#[test]
fn get_user_accepts_a_hyphenated_token() {
    let req = client().get_user_request("bad-token").unwrap();
    assert!(matches!(req.method, Method::Get));
    assert_eq!(req.url_str(), "https://basket.example.com/news/user/bad-token/");
    assert!(req.query.is_empty());
    assert!(req.form.is_none());
}

#[test]
fn get_user_refuses_a_malformed_token() {
    let err = client().get_user_request("no spaces allowed").unwrap_err();
    assert!(matches!(err, BasketError::InvalidTokenFormat));
}

#[test]
fn update_user_posts_email_and_set_fields_to_token_path() {
    let req = client()
        .update_user_request(
            "x@example.com",
            "0123abcd",
            Some(basket::UpdateUserOpts {
                lang: Some("fr".to_string()),
                ..basket::UpdateUserOpts::default()
            }),
        )
        .unwrap();
    assert!(matches!(req.method, Method::Post));
    assert_eq!(req.url_str(), "https://basket.example.com/news/user/0123abcd/");
    assert_eq!(
        req.form.unwrap(),
        vec![pair("email", "x@example.com"), pair("lang", "fr")]
    );
}

#[test]
fn update_user_refuses_a_malformed_token() {
    let err = client().update_user_request("x@example.com", "bad/token", None).unwrap_err();
    assert!(matches!(err, BasketError::InvalidTokenFormat));
}

#[test]
fn newsletters_is_a_bare_get() {
    let req = client().newsletters_request().unwrap();
    assert!(matches!(req.method, Method::Get));
    assert_eq!(req.url_str(), "https://basket.example.com/news/newsletters/");
    assert!(req.query.is_empty());
    assert!(req.form.is_none());
}

#[test]
fn debug_user_sends_email_and_supertoken_query() {
    let req = client().debug_user_request("x@example.com", "SECRET-REDACTED").unwrap();
    assert!(matches!(req.method, Method::Get));
    assert_eq!(req.url_str(), "https://basket.example.com/news/debug-user/");
    assert_eq!(
        req.query,
        vec![pair("email", "x@example.com"), pair("supertoken", "SECRET-REDACTED")]
    );
    assert!(req.form.is_none());
}

#[test]
fn lookup_user_sends_email_and_api_key_query() {
    let req = client().lookup_user_request("x@example.com").unwrap();
    assert!(matches!(req.method, Method::Get));
    assert_eq!(req.url_str(), "https://basket.example.com/news/lookup-user/");
    assert_eq!(
        req.query,
        vec![pair("email", "x@example.com"), pair("api-key", "SECRET-REDACTED")]
    );
    assert!(req.form.is_none());
    let data = basket::read_response(
        r#"{"status":"ok","email":"x@example.com","newsletters":["news1"]}"#,
    )
    .unwrap();
    let expected: serde_json::Value =
        serde_json::from_str(r#"{"email":"x@example.com","newsletters":["news1"]}"#).unwrap();
    assert_eq!(data, expected);
}

#[test]
fn recover_posts_the_email_alone() {
    let req = client().recover_request("foo@bar.com").unwrap();
    assert!(matches!(req.method, Method::Post));
    assert_eq!(req.url_str(), "https://basket.example.com/news/recover/");
    assert!(req.query.is_empty());
    assert_eq!(req.form.unwrap(), vec![pair("email", "foo@bar.com")]);
}

#[test]
fn token_format_check_accepts_identifiers_only() {
    assert!(basket::client::check_token("0123abcd-ef"));
    assert!(basket::client::check_token("ABC-123"));
    assert!(!basket::client::check_token(""));
    assert!(!basket::client::check_token("has space"));
    assert!(!basket::client::check_token("slash/y"));
    assert!(!basket::client::check_token("dot.ted"));
}

#[test]
fn a_base_that_cannot_take_a_path_is_a_url_failure() {
    let basket = Basket::new(
        "SECRET-REDACTED".to_string(),
        Url::parse("mailto:x@example.com").unwrap(),
    );
    let err = basket.recover_request("foo@bar.com").unwrap_err();
    assert!(matches!(err, BasketError::Url(_)));
    assert_eq!(err.describe(), "base url does not join with the request path");
}
