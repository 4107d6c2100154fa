use bionic_reading_api::bionic::{Error, Fixation, Saccade, TransportError};
use bionic_reading_api::client::{Client, Endpoint};
use bionic_reading_api::decimal::decimal_string;
use bionic_reading_api::requests::convert::{Builder, TransportEvent};

#[test]
fn test_set_fixation() {
    let builder = Builder::new(Client::new("api_key"), String::from("Input"));

    let builder = builder.fixation(Fixation::Strongest);

    let actual: u8 = builder.request.fixation.to_code();
    let expected: u8 = Fixation::Strongest.to_code();
    let default: u8 = Fixation::default().to_code();

    assert_ne!(
        actual, default,
        "Fixation was still default after being modified"
    );

    assert_eq!(actual, expected, "Fixation not set to given value");
}

#[test]
fn test_set_saccade() {
    let builder = Builder::new(Client::new("api_key"), String::from("Input"));

    let builder = builder.saccade(Saccade::Most);

    let actual: u8 = builder.request.saccade.to_code();
    let expected: u8 = Saccade::Most.to_code();
    let default: u8 = Saccade::default().to_code();

    assert_ne!(
        actual, default,
        "Saccade was still default after being modified"
    );

    assert_eq!(actual, expected, "Saccade not set to given value");
}

#[test]
fn fixation_codes_round_trip() {
    assert_eq!(Fixation::from_code(Fixation::Weakest.to_code()), Fixation::Weakest);
    assert_eq!(Fixation::from_code(Fixation::Weak.to_code()), Fixation::Weak);
    assert_eq!(Fixation::from_code(Fixation::Strong.to_code()), Fixation::Strong);
    assert_eq!(Fixation::from_code(Fixation::Strongest.to_code()), Fixation::Strongest);
    assert_eq!(Fixation::from_code(3), Fixation::Average);
    assert_eq!(Fixation::from_code(0), Fixation::Average);
    assert_eq!(Fixation::from_code(6), Fixation::Average);
    assert_eq!(Fixation::from_code(255), Fixation::Average);
}

#[test]
fn saccade_codes_round_trip() {
    assert_eq!(Saccade::from_code(Saccade::Fewest.to_code()), Saccade::Fewest);
    assert_eq!(Saccade::from_code(Saccade::Few.to_code()), Saccade::Few);
    assert_eq!(Saccade::from_code(Saccade::More.to_code()), Saccade::More);
    assert_eq!(Saccade::from_code(Saccade::Most.to_code()), Saccade::Most);
    assert_eq!(Saccade::from_code(30), Saccade::Average);
    assert_eq!(Saccade::from_code(0), Saccade::Average);
    assert_eq!(Saccade::from_code(11), Saccade::Average);
    assert_eq!(Saccade::from_code(255), Saccade::Average);
}

#[test]
fn default_builder_codes() {
    let builder = Builder::new(Client::new("api_key"), String::from("Input"));
    assert_eq!(builder.request.fixation.to_code(), 1);
    assert_eq!(builder.request.saccade.to_code(), 10);
}

#[test]
fn fixation_leaves_earlier_builder_unchanged() {
    let first = Builder::new(Client::new("api_key"), String::from("Input"));
    let before: u8 = first.request.fixation.to_code();

    let second = first.clone().fixation(Fixation::Strong);

    assert_eq!(first.request.fixation.to_code(), before);
    assert_eq!(second.request.fixation.to_code(), 4);
}

#[test]
fn saccade_most_differs_from_default() {
    let builder = Builder::new(Client::new("api_key"), String::from("Input"));
    let default_code: u8 = builder.request.saccade.to_code();

    let builder = builder.saccade(Saccade::Most);

    assert_eq!(default_code, 10);
    assert_ne!(builder.request.saccade.to_code(), default_code);
    assert_eq!(builder.request.saccade.to_code(), 50);
}

#[test]
fn input_replaces_text_only() {
    let builder = Client::new("api_key")
        .convert(String::from("first"))
        .fixation(Fixation::Strong)
        .input(String::from("second"));
    assert_eq!(builder.request.input, "second");
    assert_eq!(builder.request.fixation.to_code(), 4);
    assert_eq!(builder.request.saccade.to_code(), 10);
}

#[test]
fn convert_success_as_html_and_markdown() {
    let builder = Client::new("key").convert(String::from("hello"));
    let event = TransportEvent::Response {
        status: 200,
        body: Some(String::from("<b>hel</b>lo")),
    };
    let res = match builder.complete(event) {
        Ok(text) => text,
        Err(_) => panic!("a success status must yield a result"),
    };
    assert_eq!(res.html().unwrap(), "<b>hel</b>lo");
    assert_eq!(res.markdown().unwrap(), "**hel**lo");
}

#[test]
fn convert_failure_status_renders_message() {
    let builder = Client::new("key").convert(String::from("hello"));
    let event = TransportEvent::Response { status: 429, body: None };
    let err = match builder.complete(event) {
        Ok(_) => panic!("a failure status must yield an error"),
        Err(err) => err,
    };
    let rendered = err.render();
    assert!(rendered.starts_with("Failed to convert given text"));
    assert_eq!(
        rendered,
        "Failed to convert given text\n\nCaused by:\n\tHTTP status error: 429\n"
    );
}

#[test]
fn convert_success_without_readable_body() {
    let builder = Client::new("key").convert(String::from("hello"));
    let event = TransportEvent::Response { status: 200, body: None };
    let res = match builder.complete(event) {
        Ok(text) => text,
        Err(_) => panic!("an unreadable body is not an error"),
    };
    assert!(res.html().is_none());
    assert!(res.markdown().is_none());
}

#[test]
fn transport_failure_renders_cause_chain() {
    let failure = TransportError {
        message: String::from("connection reset"),
        causes: vec![String::from("socket closed"), String::from("peer gone")],
    };
    let builder = Client::new("key").convert(String::from("hello"));
    let err = match builder.complete(TransportEvent::Failure(failure)) {
        Ok(_) => panic!("a transport failure must yield an error"),
        Err(err) => err,
    };
    assert_eq!(
        err.render(),
        "Failed to convert given text\n\nCaused by:\n\tconnection reset\nCaused by:\n\tsocket closed\nCaused by:\n\tpeer gone\n"
    );
}

#[test]
fn form_fields_exact_values() {
    let builder = Client::new("key")
        .convert(String::from("hello"))
        .fixation(Fixation::Strong)
        .saccade(Saccade::Few);
    let fields = builder.form_fields();
    let expected: Vec<(String, String)> = vec![
        (String::from("content"), String::from("hello")),
        (String::from("request_type"), String::from("html")),
        (String::from("response_type"), String::from("html")),
        (String::from("fixation"), String::from("4")),
        (String::from("saccade"), String::from("20")),
    ];
    assert_eq!(fields, expected);
}

#[test]
fn headers_exact_values() {
    let builder = Client::new("secret_key").convert(String::from("hello"));
    let headers = builder.headers();
    let expected: Vec<(String, String)> = vec![
        (String::from("X-RapidAPI-Key"), String::from("secret_key")),
        (
            String::from("X-RapidAPI-Host"),
            String::from("bionic-reading1.p.rapidapi.com"),
        ),
        (
            String::from("content_type"),
            String::from("application/x-www-form-urlencoded"),
        ),
    ];
    assert_eq!(headers, expected);
}

#[test]
fn host_falls_back_to_default_domain() {
    let endpoint = Endpoint {
        scheme: String::from("https"),
        domain: None,
        path: String::from("convert"),
    };
    assert_eq!(endpoint.host(), "bionic-reading1.p.rapidapi.com");
    assert_eq!(
        endpoint.url_string(),
        "https://bionic-reading1.p.rapidapi.com/convert"
    );
}

#[test]
fn url_string_uses_own_domain() {
    let builder = Client::new("key").convert(String::from("hello"));
    assert_eq!(
        builder.client.url.url_string(),
        "https://bionic-reading1.p.rapidapi.com/convert"
    );
}

#[test]
fn decimal_strings() {
    assert_eq!(decimal_string(0), "0");
    assert_eq!(decimal_string(7), "7");
    assert_eq!(decimal_string(10), "10");
    assert_eq!(decimal_string(429), "429");
    assert_eq!(decimal_string(65535), "65535");
}

#[test]
fn error_variant_from_failure_status() {
    let builder = Client::new("key").convert(String::from("hello"));
    let event = TransportEvent::Response { status: 500, body: None };
    match builder.complete(event) {
        Err(Error::FailedToConvert(failure)) => {
            assert_eq!(failure.message, "HTTP status error: 500");
            assert!(failure.causes.is_empty());
        }
        Ok(_) => panic!("a failure status must yield an error"),
    }
}
