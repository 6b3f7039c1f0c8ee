use firebaseremoteconfig1::api::call::{ProjectGetRemoteConfigCall, ProjectUpdateRemoteConfigCall};
use firebaseremoteconfig1::api::exchange::{Action, Event, Exchange, HttpMethod, Phase};
use firebaseremoteconfig1::api::params::ParamMap;
use firebaseremoteconfig1::api::{
    FirebaseRemoteConfig, RemoteConfig, RemoteConfigCondition, RemoteConfigParameter,
    RemoteConfigParameterValue,
};

const DEFAULT_URL: &str = "https://firebaseremoteconfig.googleapis.com/";

fn pair(a: &str, b: &str) -> (String, String) {
    (a.to_string(), b.to_string())
}

fn run_to_send(x: &mut Exchange, key: &str) {
    assert_eq!(x.step(Event::Proceed), Action::Begin);
    assert_eq!(x.step(Event::Proceed), Action::AskApiKey);
    assert_eq!(x.step(Event::ApiKey(Some(key.to_string()))), Action::PreRequest);
    assert_eq!(x.step(Event::Proceed), Action::Send);
}

#[test]
fn new_hub_has_default_settings() {
    let mut hub = FirebaseRemoteConfig::new();
    assert_eq!(hub.user_agent("agent/1".to_string()), "google-api-rust-client/6.0.0");
    assert_eq!(hub.base_url("https://example.com/".to_string()), DEFAULT_URL);
    assert_eq!(hub.root_url("https://root.example.com/".to_string()), DEFAULT_URL);
}

#[test]
fn setters_return_the_previous_value() {
    let mut hub = FirebaseRemoteConfig::new();
    hub.user_agent("first".to_string());
    assert_eq!(hub.user_agent("second".to_string()), "first");
    assert_eq!(hub.user_agent("third".to_string()), "second");
    hub.base_url("a".to_string());
    assert_eq!(hub.base_url("b".to_string()), "a");
    hub.root_url("c".to_string());
    assert_eq!(hub.root_url("d".to_string()), "c");
}

#[test]
fn get_call_plan_holds_builder_values() {
    let mut hub = FirebaseRemoteConfig::new();
    hub.user_agent("agent/2".to_string());
    let call: ProjectGetRemoteConfigCall = hub.projects().get_remote_config("proj").param("fields", "etag");
    let x = call.exchange();
    let plan = x.plan();
    assert_eq!(plan.id, "firebaseremoteconfig.projects.getRemoteConfig");
    assert_eq!(plan.method, HttpMethod::Get);
    assert_eq!(plan.reserved, vec!["alt".to_string(), "project".to_string()]);
    assert_eq!(plan.leading, vec![pair("project", "proj")]);
    assert_eq!(plan.additional, vec![pair("fields", "etag")]);
    assert_eq!(plan.url_template, "https://firebaseremoteconfig.googleapis.com/v1/{+project}/remoteConfig");
    assert_eq!(plan.user_agent, "agent/2");
    assert_eq!(plan.content_type, None);
    assert_eq!(*x.phase(), Phase::Created);
    assert_eq!(x.url(), "");
}

#[test]
fn update_call_plan_holds_builder_values() {
    let hub = FirebaseRemoteConfig::new();
    let call: ProjectUpdateRemoteConfigCall =
        hub.projects().update_remote_config(RemoteConfig::default(), "proj").validate_only(false);
    let x = call.exchange();
    let plan = x.plan();
    assert_eq!(plan.id, "firebaseremoteconfig.projects.updateRemoteConfig");
    assert_eq!(plan.method, HttpMethod::Put);
    assert_eq!(plan.reserved, vec!["alt".to_string(), "project".to_string(), "validateOnly".to_string()]);
    assert_eq!(plan.leading, vec![pair("project", "proj"), pair("validateOnly", "false")]);
    assert!(plan.additional.is_empty());
    assert_eq!(plan.content_type, Some("application/json".to_string()));
}

#[test]
fn update_without_validate_only_sends_no_such_parameter() {
    let hub = FirebaseRemoteConfig::new();
    let x = hub.projects().update_remote_config(RemoteConfig::default(), "proj").exchange();
    assert_eq!(x.plan().leading, vec![pair("project", "proj")]);
}

#[test]
fn project_setter_replaces_the_project() {
    let hub = FirebaseRemoteConfig::new();
    let mut x = hub.projects().get_remote_config("first").project("second").exchange();
    assert_eq!(x.plan().leading, vec![pair("project", "second")]);
    run_to_send(&mut x, "k");
    assert_eq!(x.url(), "https://firebaseremoteconfig.googleapis.com/v1/second/remoteConfig?alt=json&key=k");
    let mut y = hub
        .projects()
        .update_remote_config(RemoteConfig::default(), "first")
        .project("other")
        .exchange();
    run_to_send(&mut y, "k");
    assert_eq!(y.url(), "https://firebaseremoteconfig.googleapis.com/v1/other/remoteConfig?alt=json&key=k");
}

#[test]
fn request_setter_replaces_the_body() {
    let hub = FirebaseRemoteConfig::new();
    let mut conditions = Vec::new();
    let mut cond = RemoteConfigCondition::default();
    cond.name = Some("c1".to_string());
    conditions.push(cond);
    let mut config = RemoteConfig::default();
    config.conditions = Some(conditions);
    let call = hub.projects().update_remote_config(RemoteConfig::default(), "p").request(config);
    let body = call.body();
    assert_eq!(body.conditions.as_ref().unwrap()[0].name.as_deref(), Some("c1"));
    assert!(body.parameters.is_none());
}

#[test]
fn param_set_twice_keeps_last_value_in_first_place() {
    let hub = FirebaseRemoteConfig::new();
    let x = hub
        .projects()
        .get_remote_config("p")
        .param("fields", "a")
        .param("quotaUser", "q")
        .param("fields", "b")
        .exchange();
    assert_eq!(x.plan().additional, vec![pair("fields", "b"), pair("quotaUser", "q")]);
}

#[test]
fn param_map_inserts_and_replaces() {
    let mut m = ParamMap::new();
    assert!(!m.contains_key(&"a".to_string()));
    m.insert("a".to_string(), "1".to_string());
    m.insert("b".to_string(), "2".to_string());
    m.insert("a".to_string(), "3".to_string());
    assert!(m.contains_key(&"a".to_string()));
    assert!(m.contains_key(&"b".to_string()));
    assert!(!m.contains_key(&"c".to_string()));
    assert_eq!(*m.entries(), vec![pair("a", "3"), pair("b", "2")]);
}

#[test]
fn schema_defaults_are_empty() {
    let c = RemoteConfig::default();
    assert!(c.parameters.is_none() && c.conditions.is_none());
    let p = RemoteConfigParameter::default();
    assert!(p.default_value.is_none() && p.description.is_none() && p.conditional_values.is_none());
    let v = RemoteConfigParameterValue::default();
    assert!(v.value.is_none() && v.use_in_app_default.is_none());
    let k = RemoteConfigCondition::default();
    assert!(k.tag_color.is_none() && k.name.is_none() && k.description.is_none() && k.expression.is_none());
}

#[test]
fn params_set_in_either_order_give_the_same_map() {
    let hub = FirebaseRemoteConfig::new();
    let x = hub.projects().get_remote_config("p").param("a", "1").param("b", "2").exchange();
    let y = hub.projects().get_remote_config("p").param("b", "2").param("a", "1").exchange();
    let mut left = x.plan().additional.clone();
    let mut right = y.plan().additional.clone();
    assert_ne!(left, right);
    left.sort();
    right.sort();
    assert_eq!(left, right);
}

#[test]
fn cloned_hub_keeps_its_settings() {
    let mut hub = FirebaseRemoteConfig::new();
    hub.user_agent("agent/3".to_string());
    let mut other = hub.clone();
    assert_eq!(other.user_agent("x".to_string()), "agent/3");
    assert_eq!(hub.user_agent("y".to_string()), "agent/3");
}
