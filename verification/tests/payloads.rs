use basket::Format;
use basket::Status;
use basket::Subscribe;
use basket::SubscribeOpts;
use basket::Unsubscribe;
use basket::UpdateUser;
use basket::UpdateUserOpts;
use basket::YesNo;
use basket::join_newsletters;

fn pair(k: &str, v: &str) -> (String, String) {
    (k.to_string(), v.to_string())
}

#[test]
fn join_three_newsletters() {
    let names = vec!["a".to_string(), "b".to_string(), "c".to_string()];
    assert_eq!(join_newsletters(&names), "a,b,c");
}

#[test]
fn join_single_newsletter() {
    let names = vec!["news1".to_string()];
    assert_eq!(join_newsletters(&names), "news1");
}

#[test]
fn join_no_newsletters() {
    let names: Vec<String> = Vec::new();
    assert_eq!(join_newsletters(&names), "");
}

#[test]
fn subscribe_without_options_is_minimal() {
    let body = Subscribe {
        email: "x@example.com".to_string(),
        newsletters: "news1,news2".to_string(),
        opts: None,
    };
    assert_eq!(
        body.form_pairs(),
        vec![pair("email", "x@example.com"), pair("newsletters", "news1,news2")]
    );
}

#[test]
fn subscribe_with_unset_options_is_minimal() {
    let body = Subscribe {
        email: "x@example.com".to_string(),
        newsletters: "news1".to_string(),
        opts: Some(SubscribeOpts::default()),
    };
    assert_eq!(
        body.form_pairs(),
        vec![pair("email", "x@example.com"), pair("newsletters", "news1")]
    );
}

#[test]
fn subscribe_with_country_alone_adds_one_field() {
    let body = Subscribe {
        email: "x@example.com".to_string(),
        newsletters: "news1".to_string(),
        opts: Some(SubscribeOpts { country: Some("gb".to_string()), ..SubscribeOpts::default() }),
    };
    assert_eq!(
        body.form_pairs(),
        vec![
            pair("email", "x@example.com"),
            pair("newsletters", "news1"),
            pair("country", "gb"),
        ]
    );
}

#[test]
fn subscribe_with_every_option_set() {
    let body = Subscribe {
        email: "x@example.com".to_string(),
        newsletters: "news1".to_string(),
        opts: Some(SubscribeOpts {
            format: Some(Format::T),
            country: Some("de".to_string()),
            lang: Some("de".to_string()),
            optin: Some(YesNo::Y),
            source_url: Some("https://example.com/".to_string()),
            trigger_welcome: Some(YesNo::N),
            sync: Some(YesNo::Y),
        }),
    };
    assert_eq!(
        body.form_pairs(),
        vec![
            pair("email", "x@example.com"),
            pair("newsletters", "news1"),
            pair("format", "T"),
            pair("country", "de"),
            pair("lang", "de"),
            pair("optin", "Y"),
            pair("source_url", "https://example.com/"),
            pair("trigger_welcome", "N"),
            pair("sync", "Y"),
        ]
    );
}

#[test]
fn unsubscribe_form_has_exactly_two_fields() {
    let body = Unsubscribe { newsletters: "a,b".to_string(), optout: YesNo::Y };
    assert_eq!(
        body.form_pairs(),
        vec![pair("newsletters", "a,b"), pair("optout", "Y")]
    );
}

#[test]
fn update_user_form_omits_unset_fields() {
    let body = UpdateUser {
        email: Some("x@example.com".to_string()),
        opts: Some(UpdateUserOpts {
            newsletters: Some("news2".to_string()),
            ..UpdateUserOpts::default()
        }),
    };
    assert_eq!(
        body.form_pairs(),
        vec![pair("email", "x@example.com"), pair("newsletters", "news2")]
    );
}

#[test]
fn update_user_form_can_be_empty() {
    let body = UpdateUser { email: None, opts: None };
    assert_eq!(body.form_pairs(), Vec::<(String, String)>::new());
}

#[test]
fn format_defaults_to_html() {
    assert_eq!(Format::default(), Format::H);
    assert_eq!(Format::H.as_str(), "H");
    assert_eq!(Format::T.as_str(), "T");
}

#[test]
fn yes_no_defaults_to_no() {
    assert_eq!(YesNo::default(), YesNo::N);
    assert_eq!(YesNo::Y.as_str(), "Y");
    assert_eq!(YesNo::N.as_str(), "N");
}

#[test]
fn status_wire_words_are_lowercase() {
    assert_eq!(Status::Okay.as_str(), "ok");
    assert_eq!(Status::Error.as_str(), "error");
}
