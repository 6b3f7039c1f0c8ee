use firebaseremoteconfig1::api::exchange::{Action, Advice, Event, Exchange, Phase};
use firebaseremoteconfig1::api::params::remove_params;
use firebaseremoteconfig1::api::{FirebaseRemoteConfig, RemoteConfig};
use firebaseremoteconfig1::Error;

fn started(x: &mut Exchange) {
    assert_eq!(x.step(Event::Proceed), Action::Begin);
    assert_eq!(*x.phase(), Phase::Begun);
    assert_eq!(x.step(Event::Proceed), Action::AskApiKey);
    assert_eq!(*x.phase(), Phase::AwaitingApiKey);
}

fn sending(x: &mut Exchange, key: &str) {
    started(x);
    assert_eq!(x.step(Event::ApiKey(Some(key.to_string()))), Action::PreRequest);
    assert_eq!(*x.phase(), Phase::Prepared);
    assert_eq!(x.step(Event::Proceed), Action::Send);
    assert_eq!(*x.phase(), Phase::Sending);
}

fn get_exchange(hub: &FirebaseRemoteConfig, project: &str) -> Exchange {
    hub.projects().get_remote_config(project).exchange()
}

#[test]
fn missing_api_key_fails_and_notifies() {
    let hub = FirebaseRemoteConfig::new();
    let mut x = get_exchange(&hub, "p");
    started(&mut x);
    assert_eq!(
        x.step(Event::ApiKey(None)),
        Action::Finish { notify: true, result: Err(Error::MissingAPIKey) }
    );
    assert_eq!(*x.phase(), Phase::Done);
}

#[test]
fn free_form_alt_clashes() {
    let hub = FirebaseRemoteConfig::new();
    let mut x = hub.projects().get_remote_config("p").param("alt", "media").exchange();
    assert_eq!(x.step(Event::Proceed), Action::Begin);
    assert_eq!(
        x.step(Event::Proceed),
        Action::Finish { notify: true, result: Err(Error::FieldClash("alt".to_string())) }
    );
}

#[test]
fn first_reserved_name_is_reported() {
    let hub = FirebaseRemoteConfig::new();
    let mut x = hub
        .projects()
        .update_remote_config(RemoteConfig::default(), "p")
        .param("validateOnly", "true")
        .param("project", "q")
        .exchange();
    assert_eq!(x.step(Event::Proceed), Action::Begin);
    assert_eq!(
        x.step(Event::Proceed),
        Action::Finish { notify: true, result: Err(Error::FieldClash("project".to_string())) }
    );
    let mut y = hub
        .projects()
        .update_remote_config(RemoteConfig::default(), "p")
        .param("validateOnly", "true")
        .exchange();
    y.step(Event::Proceed);
    assert_eq!(
        y.step(Event::Proceed),
        Action::Finish { notify: true, result: Err(Error::FieldClash("validateOnly".to_string())) }
    );
}

#[test]
fn validate_only_is_not_reserved_for_get() {
    let hub = FirebaseRemoteConfig::new();
    let mut x = hub.projects().get_remote_config("p").param("validateOnly", "true").exchange();
    sending(&mut x, "k");
    assert_eq!(
        x.url(),
        "https://firebaseremoteconfig.googleapis.com/v1/p/remoteConfig?validateOnly=true&alt=json&key=k"
    );
}

#[test]
fn request_url_of_a_get() {
    let hub = FirebaseRemoteConfig::new();
    let mut x = get_exchange(&hub, "my-project");
    sending(&mut x, "secret");
    assert_eq!(
        x.url(),
        "https://firebaseremoteconfig.googleapis.com/v1/my-project/remoteConfig?alt=json&key=secret"
    );
}

#[test]
fn request_url_of_an_update_with_params() {
    let hub = FirebaseRemoteConfig::new();
    let mut x = hub
        .projects()
        .update_remote_config(RemoteConfig::default(), "projects/42")
        .validate_only(true)
        .param("fields", "a b&c")
        .exchange();
    sending(&mut x, "k");
    assert_eq!(
        x.url(),
        "https://firebaseremoteconfig.googleapis.com/v1/projects/42/remoteConfig?validateOnly=true&fields=a+b%26c&alt=json&key=k"
    );
}

#[test]
fn project_placeholder_value_is_percent_encoded() {
    let hub = FirebaseRemoteConfig::new();
    let mut x = get_exchange(&hub, "a b{c}");
    sending(&mut x, "k");
    assert_eq!(
        x.url(),
        "https://firebaseremoteconfig.googleapis.com/v1/a%20b%7Bc%7D/remoteConfig?alt=json&key=k"
    );
}

#[test]
fn custom_base_url_is_used() {
    let mut hub = FirebaseRemoteConfig::new();
    hub.base_url("http://localhost:8080/".to_string());
    let mut x = get_exchange(&hub, "p");
    sending(&mut x, "k");
    assert_eq!(x.url(), "http://localhost:8080/v1/p/remoteConfig?alt=json&key=k");
}

#[test]
fn unparsable_base_url_stops_the_call() {
    let mut hub = FirebaseRemoteConfig::new();
    hub.base_url("not a url/".to_string());
    let mut x = get_exchange(&hub, "p");
    started(&mut x);
    assert_eq!(
        x.step(Event::ApiKey(Some("k".to_string()))),
        Action::UnusableUrl("not a url/v1/p/remoteConfig".to_string())
    );
    assert_eq!(*x.phase(), Phase::Done);
}

#[test]
fn successful_reply_that_decodes_succeeds() {
    let hub = FirebaseRemoteConfig::new();
    let mut x = get_exchange(&hub, "p");
    sending(&mut x, "k");
    let body = b"{\"conditions\":[]}".to_vec();
    assert_eq!(
        x.step(Event::Replied { status: 200, body }),
        Action::Decode("{\"conditions\":[]}".to_string())
    );
    assert_eq!(x.step(Event::Decoded(true)), Action::Finish { notify: true, result: Ok(()) });
    assert_eq!(*x.phase(), Phase::Done);
}

#[test]
fn successful_reply_that_does_not_decode_fails_without_notice() {
    let hub = FirebaseRemoteConfig::new();
    let mut x = get_exchange(&hub, "p");
    sending(&mut x, "k");
    assert_eq!(
        x.step(Event::Replied { status: 299, body: b"oops".to_vec() }),
        Action::Decode("oops".to_string())
    );
    assert_eq!(
        x.step(Event::Decoded(false)),
        Action::Finish { notify: false, result: Err(Error::JsonDecodeError("oops".to_string())) }
    );
}

#[test]
fn invalid_utf8_body_is_read_lossily() {
    let hub = FirebaseRemoteConfig::new();
    let mut x = get_exchange(&hub, "p");
    sending(&mut x, "k");
    assert_eq!(
        x.step(Event::Replied { status: 200, body: vec![b'a', 0xff, b'b'] }),
        Action::Decode("a\u{FFFD}b".to_string())
    );
}

#[test]
fn failure_status_with_json_body_is_a_bad_request() {
    let hub = FirebaseRemoteConfig::new();
    let mut x = get_exchange(&hub, "p");
    sending(&mut x, "k");
    assert_eq!(
        x.step(Event::Replied { status: 400, body: b"{\"error\":{}}".to_vec() }),
        Action::AskHttpFailureAdvice("{\"error\":{}}".to_string())
    );
    assert_eq!(*x.phase(), Phase::AwaitingFailureAdvice { status: 400, error_is_json: true });
    assert_eq!(
        x.step(Event::HttpFailureAdvice(Advice::Abort)),
        Action::Finish { notify: true, result: Err(Error::BadRequest) }
    );
}

#[test]
fn failure_status_without_json_body_is_a_failure() {
    let hub = FirebaseRemoteConfig::new();
    let mut x = get_exchange(&hub, "p");
    sending(&mut x, "k");
    assert_eq!(
        x.step(Event::Replied { status: 199, body: Vec::new() }),
        Action::AskHttpFailureAdvice(String::new())
    );
    assert_eq!(
        x.step(Event::HttpFailureAdvice(Advice::Abort)),
        Action::Finish { notify: true, result: Err(Error::Failure(199)) }
    );
}

#[test]
fn failure_status_retried_then_succeeds() {
    let hub = FirebaseRemoteConfig::new();
    let mut x = get_exchange(&hub, "p");
    sending(&mut x, "k");
    let url = x.url().clone();
    x.step(Event::Replied { status: 503, body: Vec::new() });
    assert_eq!(
        x.step(Event::HttpFailureAdvice(Advice::RetryAfter { secs: 1, nanos: 5 })),
        Action::Retry { secs: 1, nanos: 5 }
    );
    assert_eq!(*x.phase(), Phase::Waiting);
    assert_eq!(*x.url(), url);
    assert_eq!(x.step(Event::Replied { status: 200, body: Vec::new() }), Action::Ignored);
    assert_eq!(x.step(Event::Proceed), Action::PreRequest);
    assert_eq!(x.step(Event::Proceed), Action::Send);
    assert_eq!(*x.url(), url);
    x.step(Event::Replied { status: 204, body: b"{}".to_vec() });
    assert_eq!(x.step(Event::Decoded(true)), Action::Finish { notify: true, result: Ok(()) });
}

#[test]
fn transport_error_retried_or_abandoned() {
    let hub = FirebaseRemoteConfig::new();
    let mut x = get_exchange(&hub, "p");
    sending(&mut x, "k");
    assert_eq!(x.step(Event::TransportError), Action::AskHttpErrorAdvice);
    assert_eq!(*x.phase(), Phase::AwaitingErrorAdvice);
    assert_eq!(
        x.step(Event::HttpErrorAdvice(Advice::RetryAfter { secs: 0, nanos: 0 })),
        Action::Retry { secs: 0, nanos: 0 }
    );
    assert_eq!(x.step(Event::TransportError), Action::Ignored);
    assert_eq!(x.step(Event::Proceed), Action::PreRequest);
    assert_eq!(x.step(Event::Proceed), Action::Send);
    assert_eq!(x.step(Event::TransportError), Action::AskHttpErrorAdvice);
    assert_eq!(
        x.step(Event::HttpErrorAdvice(Advice::Abort)),
        Action::Finish { notify: true, result: Err(Error::HttpError) }
    );
}

#[test]
fn events_out_of_place_are_ignored() {
    let hub = FirebaseRemoteConfig::new();
    let mut x = get_exchange(&hub, "p");
    assert_eq!(x.step(Event::Decoded(true)), Action::Ignored);
    assert_eq!(*x.phase(), Phase::Created);
    started(&mut x);
    assert_eq!(x.step(Event::TransportError), Action::Ignored);
    assert_eq!(*x.phase(), Phase::AwaitingApiKey);
    assert_eq!(x.step(Event::ApiKey(None)), Action::Finish { notify: true, result: Err(Error::MissingAPIKey) });
    assert_eq!(x.step(Event::Proceed), Action::Ignored);
    assert_eq!(x.step(Event::ApiKey(Some("k".to_string()))), Action::Ignored);
    assert_eq!(*x.phase(), Phase::Done);
}

#[test]
fn remove_params_keeps_order_of_the_rest() {
    let params = vec![
        ("project".to_string(), "p".to_string()),
        ("a".to_string(), "1".to_string()),
        ("project".to_string(), "q".to_string()),
        ("b".to_string(), "2".to_string()),
    ];
    let r = remove_params(params, &vec!["project".to_string()]);
    assert_eq!(r, vec![("a".to_string(), "1".to_string()), ("b".to_string(), "2".to_string())]);
}

#[test]
fn failure_kind_follows_the_body_text() {
    let hub = FirebaseRemoteConfig::new();
    let mut x = get_exchange(&hub, "p");
    sending(&mut x, "k");
    x.step(Event::Replied { status: 500, body: b"<html>down</html>".to_vec() });
    assert_eq!(*x.phase(), Phase::AwaitingFailureAdvice { status: 500, error_is_json: false });
    assert_eq!(
        x.step(Event::HttpFailureAdvice(Advice::Abort)),
        Action::Finish { notify: true, result: Err(Error::Failure(500)) }
    );
    let mut y = get_exchange(&hub, "p");
    sending(&mut y, "k");
    y.step(Event::Replied { status: 412, body: b"[1, 2]".to_vec() });
    assert_eq!(*y.phase(), Phase::AwaitingFailureAdvice { status: 412, error_is_json: true });
    assert_eq!(
        y.step(Event::HttpFailureAdvice(Advice::Abort)),
        Action::Finish { notify: true, result: Err(Error::BadRequest) }
    );
}
