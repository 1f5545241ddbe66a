//! The identity of the authorization backend, and how it is read from a
//! configuration payload.

use crate::json::{json_model, json_parse, parse_value, string_member, text_member, Json};
use vstd::prelude::*;

verus! {

/// Where authorization queries go: the backend's cluster name and its host.
///
/// Both are empty until a configuration payload has been read.
#[derive(PartialEq, Eq, Debug)]
pub struct FilterConfig {
    pub auth_cluster: String,
    pub auth_host: String,
}

/// A [`FilterConfig`] as a mathematical value.
pub struct FilterConfigView {
    pub auth_cluster: Seq<char>,
    pub auth_host: Seq<char>,
}

impl View for FilterConfig {
    type V = FilterConfigView;

    open spec fn view(&self) -> FilterConfigView {
        FilterConfigView { auth_cluster: self.auth_cluster@, auth_host: self.auth_host@ }
    }
}

/// Why a payload gave no configuration.
#[derive(Clone, Copy, PartialEq, Eq, Structural, Debug)]
pub enum ConfigError {
    /// The payload is not a JSON document, or is not an object that holds
    /// both fields as strings.
    ConfigurationMalformed,
}

/// The configuration that holds no backend yet.
pub open spec fn unset_config() -> FilterConfigView {
    FilterConfigView { auth_cluster: Seq::empty(), auth_host: Seq::empty() }
}

/// The name of the payload field that holds the cluster name.
pub open spec fn cluster_field() -> Seq<char> {
    "auth_cluster"@
}

/// The name of the payload field that holds the host.
pub open spec fn host_field() -> Seq<char> {
    "auth_host"@
}

/// The configuration made of the two fields, which both have to be present.
pub open spec fn fields_config(cluster: Option<Seq<char>>, host: Option<Seq<char>>) -> Result<
    FilterConfigView,
    ConfigError,
> {
    match (cluster, host) {
        (Some(c), Some(h)) => Ok(FilterConfigView { auth_cluster: c, auth_host: h }),
        _ => Err(ConfigError::ConfigurationMalformed),
    }
}

/// The configuration that a JSON document holds: it has to be an object with
/// the string members `auth_cluster` and `auth_host`. Other members are
/// passed over.
pub open spec fn document_config(doc: Json) -> Result<FilterConfigView, ConfigError> {
    fields_config(text_member(doc, cluster_field()), text_member(doc, host_field()))
}

/// The configuration that a payload holds.
pub open spec fn payload_config(bytes: Seq<u8>) -> Result<FilterConfigView, ConfigError> {
    match json_parse(bytes) {
        Some(doc) => document_config(doc),
        None => Err(ConfigError::ConfigurationMalformed),
    }
}

/// `result` holds the same outcome as `expected`.
pub open spec fn config_result_is(
    result: Result<FilterConfig, ConfigError>,
    expected: Result<FilterConfigView, ConfigError>,
) -> bool {
    match result {
        Ok(config) => expected == Ok::<FilterConfigView, ConfigError>(config@),
        Err(e) => expected == Err::<FilterConfigView, ConfigError>(e),
    }
}

impl FilterConfig {
    /// The configuration of the given backend.
    pub fn new(auth_cluster: String, auth_host: String) -> (config: FilterConfig)
        ensures
            config@ == (FilterConfigView { auth_cluster: auth_cluster@, auth_host: auth_host@ }),
    {
        FilterConfig { auth_cluster, auth_host }
    }

    /// The configuration before any payload: both fields empty.
    pub fn unset() -> (config: FilterConfig)
        ensures
            config@ == unset_config(),
    {
        FilterConfig { auth_cluster: String::new(), auth_host: String::new() }
    }

    /// Whether no cluster has been configured yet.
    pub fn is_unset(&self) -> (unset: bool)
        ensures
            unset == (self@.auth_cluster.len() == 0),
    {
        self.auth_cluster.as_str().unicode_len() == 0
    }

}

impl Clone for FilterConfig {
    /// An independent copy: changing one leaves the other as it was.
    fn clone(&self) -> (copy: FilterConfig)
        ensures
            copy@ == self@,
    {
        FilterConfig { auth_cluster: self.auth_cluster.clone(), auth_host: self.auth_host.clone() }
    }
}

/// Builds a configuration from the two fields as they were found.
pub fn config_from_fields(cluster: Option<String>, host: Option<String>) -> (result: Result<
    FilterConfig,
    ConfigError,
>)
    ensures
        config_result_is(
            result,
            fields_config(
                match cluster {
                    Some(c) => Some(c@),
                    None => None,
                },
                match host {
                    Some(h) => Some(h@),
                    None => None,
                },
            ),
        ),
{
    match cluster {
        Some(c) => match host {
            Some(h) => Ok(FilterConfig::new(c, h)),
            None => Err(ConfigError::ConfigurationMalformed),
        },
        None => Err(ConfigError::ConfigurationMalformed),
    }
}

/// Reads the configuration out of a parsed document.
pub fn config_from_document(doc: &serde_json::Value) -> (result: Result<FilterConfig, ConfigError>)
    ensures
        config_result_is(result, document_config(json_model(*doc))),
{
    let cluster = string_member(doc, "auth_cluster");
    let host = string_member(doc, "auth_host");
    config_from_fields(cluster, host)
}

/// Reads the configuration out of a payload.
pub fn parse_config(bytes: &[u8]) -> (result: Result<FilterConfig, ConfigError>)
    ensures
        config_result_is(result, payload_config(bytes@)),
{
    match parse_value(bytes) {
        Ok(doc) => config_from_document(&doc),
        Err(_) => Err(ConfigError::ConfigurationMalformed),
    }
}

} // verus!
