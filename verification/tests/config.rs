use auth_filter::config::{
    config_from_document, config_from_fields, parse_config, ConfigError, FilterConfig,
};
use auth_filter::json::string_member;
use auth_filter::request::RequestAuthState;
use auth_filter::store::ConfigStore;

fn config(cluster: &str, host: &str) -> FilterConfig {
    FilterConfig::new(cluster.to_string(), host.to_string())
}

fn document(text: &str) -> serde_json::Value {
    serde_json::from_str::<serde_json::Value>(text).unwrap()
}

#[test]
fn unset_config_has_empty_fields() {
    let c = FilterConfig::unset();
    assert_eq!(c.auth_cluster, "");
    assert_eq!(c.auth_host, "");
    assert!(c.is_unset());
}

#[test]
fn new_config_holds_its_fields() {
    let c = config("auth-cluster", "auth.example.com");
    assert_eq!(c.auth_cluster, "auth-cluster");
    assert_eq!(c.auth_host, "auth.example.com");
    assert!(!c.is_unset());
}

#[test]
fn is_unset_goes_by_the_cluster_alone() {
    assert!(config("", "host").is_unset());
    assert!(!config("c", "").is_unset());
    assert!(!config("\u{e9}", "").is_unset());
}

#[test]
fn clone_is_an_equal_and_separate_value() {
    let first = config("c", "h");
    let mut copy = first.clone();
    assert_eq!(copy, first);
    copy.auth_cluster.push_str("-changed");
    assert_eq!(first.auth_cluster, "c");
}

#[test]
fn fields_give_a_config_only_when_both_are_there() {
    assert_eq!(
        config_from_fields(Some("c".to_string()), Some("h".to_string())),
        Ok(config("c", "h"))
    );
    assert_eq!(
        config_from_fields(None, Some("h".to_string())),
        Err(ConfigError::ConfigurationMalformed)
    );
    assert_eq!(
        config_from_fields(Some("c".to_string()), None),
        Err(ConfigError::ConfigurationMalformed)
    );
    assert_eq!(config_from_fields(None, None), Err(ConfigError::ConfigurationMalformed));
}

#[test]
fn string_member_reads_text_of_an_object() {
    let doc = document(r#"{"a": "text", "b": 7, "c": null, "d": ["x"], "e": {"a": "inner"}}"#);
    assert_eq!(string_member(&doc, "a"), Some("text".to_string()));
    assert_eq!(string_member(&doc, "b"), None);
    assert_eq!(string_member(&doc, "c"), None);
    assert_eq!(string_member(&doc, "d"), None);
    assert_eq!(string_member(&doc, "e"), None);
    assert_eq!(string_member(&doc, "missing"), None);
}

#[test]
fn string_member_of_a_value_that_is_no_object_is_none() {
    assert_eq!(string_member(&document(r#""a""#), "a"), None);
    assert_eq!(string_member(&document(r#"["a"]"#), "a"), None);
    assert_eq!(string_member(&document("1"), "a"), None);
    assert_eq!(string_member(&document("null"), "a"), None);
}

#[test]
fn document_with_both_fields_gives_the_config() {
    let doc = document(r#"{"auth_cluster": "cluster-a", "auth_host": "a.example.com"}"#);
    assert_eq!(config_from_document(&doc), Ok(config("cluster-a", "a.example.com")));
}

#[test]
fn document_without_a_field_is_malformed() {
    let doc = document(r#"{"auth_cluster": "cluster-a"}"#);
    assert_eq!(config_from_document(&doc), Err(ConfigError::ConfigurationMalformed));
    let doc = document(r#"{"auth_host": "a.example.com"}"#);
    assert_eq!(config_from_document(&doc), Err(ConfigError::ConfigurationMalformed));
}

#[test]
fn parse_config_reads_a_well_formed_payload() {
    let payload = br#"{"auth_cluster":"auth-cluster","auth_host":"auth.local"}"#;
    assert_eq!(parse_config(payload), Ok(config("auth-cluster", "auth.local")));
}

#[test]
fn parse_config_passes_over_other_members_and_whitespace() {
    let payload = b" {\n \"extra\": [1, 2], \"auth_host\": \"h\",\n \"auth_cluster\": \"c\" }\n";
    assert_eq!(parse_config(payload), Ok(config("c", "h")));
}

#[test]
fn parse_config_decodes_json_escapes() {
    let payload = r#"{"auth_cluster":"caf\u00e9 é","auth_host":"a\"b\\c"}"#;
    assert_eq!(parse_config(payload.as_bytes()), Ok(config("caf\u{e9} \u{e9}", "a\"b\\c")));
}

#[test]
fn parse_config_accepts_empty_strings() {
    let payload = br#"{"auth_cluster":"","auth_host":""}"#;
    assert_eq!(parse_config(payload), Ok(config("", "")));
}

#[test]
fn parse_config_rejects_what_is_not_json() {
    let malformed = Err(ConfigError::ConfigurationMalformed);
    assert_eq!(parse_config(b""), malformed);
    assert_eq!(parse_config(b"not json"), malformed);
    assert_eq!(parse_config(br#"{"auth_cluster":"c","auth_host":"h""#), malformed);
    assert_eq!(parse_config(br#"{"auth_cluster":"c","auth_host":"h"} x"#), malformed);
    assert_eq!(parse_config(&[0xff, 0xfe]), malformed);
}

#[test]
fn parse_config_rejects_fields_that_are_no_strings() {
    let malformed = Err(ConfigError::ConfigurationMalformed);
    assert_eq!(parse_config(br#"{"auth_cluster":1,"auth_host":"h"}"#), malformed);
    assert_eq!(parse_config(br#"{"auth_cluster":"c","auth_host":null}"#), malformed);
    assert_eq!(parse_config(br#"{"auth_cluster":"c","auth_host":["h"]}"#), malformed);
    assert_eq!(parse_config(br#"{"auth_cluster":{"x":"c"},"auth_host":"h"}"#), malformed);
}

#[test]
fn parse_config_rejects_documents_that_are_no_objects() {
    let malformed = Err(ConfigError::ConfigurationMalformed);
    assert_eq!(parse_config(br#"["auth_cluster","auth_host"]"#), malformed);
    assert_eq!(parse_config(br#""auth_cluster""#), malformed);
    assert_eq!(parse_config(b"null"), malformed);
    assert_eq!(parse_config(b"{}"), malformed);
}

#[test]
fn new_store_is_unset_and_ready() {
    let store = ConfigStore::new();
    assert_eq!(*store.config(), FilterConfig::unset());
    assert!(store.on_initialize());
}

#[test]
fn configure_adopts_a_well_formed_payload() {
    let mut store = ConfigStore::new();
    let accepted =
        store.on_configure(Some(br#"{"auth_cluster":"c1","auth_host":"h1"}"#.to_vec()));
    assert!(accepted);
    assert_eq!(*store.config(), config("c1", "h1"));
}

#[test]
fn configure_without_payload_changes_nothing() {
    let mut store = ConfigStore::new();
    assert!(store.on_configure(None));
    assert_eq!(*store.config(), FilterConfig::unset());
}

#[test]
fn configure_with_a_malformed_payload_keeps_the_default_and_succeeds() {
    let mut store = ConfigStore::new();
    assert!(store.on_configure(Some(b"{oops".to_vec())));
    assert_eq!(*store.config(), FilterConfig::unset());
    assert!(store.on_configure(Some(br#"{"auth_cluster":"c"}"#.to_vec())));
    assert_eq!(*store.config(), FilterConfig::unset());
}

#[test]
fn configure_after_a_malformed_payload_still_adopts() {
    let mut store = ConfigStore::new();
    store.on_configure(Some(b"[]".to_vec()));
    store.on_configure(Some(br#"{"auth_cluster":"c","auth_host":"h"}"#.to_vec()));
    assert_eq!(*store.config(), config("c", "h"));
}

#[test]
fn configured_store_keeps_its_pair() {
    let mut store = ConfigStore::new();
    store.on_configure(Some(br#"{"auth_cluster":"c1","auth_host":"h1"}"#.to_vec()));
    assert!(store.on_configure(Some(br#"{"auth_cluster":"c2","auth_host":"h2"}"#.to_vec())));
    assert!(store.on_configure(None));
    assert!(store.on_configure(Some(b"garbage".to_vec())));
    assert_eq!(*store.config(), config("c1", "h1"));
}

#[test]
fn payload_with_an_empty_cluster_can_be_replaced_later() {
    let mut store = ConfigStore::new();
    store.on_configure(Some(br#"{"auth_cluster":"","auth_host":"h1"}"#.to_vec()));
    assert_eq!(*store.config(), config("", "h1"));
    store.on_configure(Some(br#"{"auth_cluster":"c2","auth_host":"h2"}"#.to_vec()));
    assert_eq!(*store.config(), config("c2", "h2"));
}

#[test]
fn adopt_takes_a_config_only_while_unset() {
    let mut store = ConfigStore::new();
    store.adopt(Err(ConfigError::ConfigurationMalformed));
    assert_eq!(*store.config(), FilterConfig::unset());
    store.adopt(Ok(config("c", "h")));
    assert_eq!(*store.config(), config("c", "h"));
    store.adopt(Ok(config("other", "other")));
    assert_eq!(*store.config(), config("c", "h"));
}

#[test]
fn units_are_seeded_with_the_store_configuration() {
    let mut store = ConfigStore::new();
    store.on_configure(Some(br#"{"auth_cluster":"auth","auth_host":"auth.local"}"#.to_vec()));
    let first = store.create_request_unit();
    let second = store.create_request_unit();
    assert_eq!(*first.config(), config("auth", "auth.local"));
    assert_eq!(*second.config(), config("auth", "auth.local"));
    assert_eq!(first.state(), RequestAuthState::AwaitingDispatch);
    assert_eq!(first.dispatch_request().unwrap().upstream, "auth");
    assert_eq!(second.dispatch_request().unwrap().upstream, "auth");
}

#[test]
fn unit_of_an_unset_store_dispatches_to_the_empty_cluster() {
    let store = ConfigStore::new();
    let unit = store.create_request_unit();
    assert_eq!(*unit.config(), FilterConfig::unset());
    assert_eq!(unit.dispatch_request().unwrap().upstream, "");
}
