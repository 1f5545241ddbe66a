//! The configuration store: one per plugin lifetime. It reads the backend's
//! identity once and seeds every request unit with a copy of it.

use crate::config::{
    parse_config, payload_config, unset_config, ConfigError, FilterConfig, FilterConfigView,
};
use crate::request::{authorization_call, RequestAuth, RequestAuthState, RequestAuthView};
use vstd::prelude::*;

verus! {

/// Holds the configuration that request units are created from.
#[derive(Debug)]
pub struct ConfigStore {
    config: FilterConfig,
}

impl View for ConfigStore {
    type V = FilterConfigView;

    closed spec fn view(&self) -> FilterConfigView {
        self.config@
    }
}

/// The configuration after the outcome of reading a payload was handed to a
/// store: a configuration that was read is adopted while no cluster is set,
/// and nothing else changes anything.
pub open spec fn adopted(
    current: FilterConfigView,
    parsed: Result<FilterConfigView, ConfigError>,
) -> FilterConfigView {
    match parsed {
        Ok(config) if current.auth_cluster.len() == 0 => config,
        _ => current,
    }
}

/// The configuration after a configuration event with the given payload.
pub open spec fn configured(current: FilterConfigView, payload: Option<Seq<u8>>) -> FilterConfigView {
    match payload {
        Some(bytes) => adopted(current, payload_config(bytes)),
        None => current,
    }
}

/// The configuration after a run of configuration events, the first payload
/// first.
pub open spec fn configured_all(
    current: FilterConfigView,
    payloads: Seq<Option<Seq<u8>>>,
) -> FilterConfigView
    decreases payloads.len(),
{
    if payloads.len() == 0 {
        current
    } else {
        configured(configured_all(current, payloads.drop_last()), payloads.last())
    }
}

/// A store that holds no backend adopts the configuration of a well-formed
/// payload as it is, and a unit seeded with it sends its authorization call
/// to that cluster.
pub proof fn law_first_configuration_is_adopted(payload: Seq<u8>, config: FilterConfigView)
    requires
        payload_config(payload) == Ok::<FilterConfigView, ConfigError>(config),
    ensures
        configured(unset_config(), Some(payload)) == config,
        authorization_call(configured(unset_config(), Some(payload)).auth_cluster).upstream
            == config.auth_cluster,
{
}

/// Once a cluster is set, no configuration event changes the store: every
/// unit created afterwards is seeded with the same pair.
pub proof fn law_configuration_is_kept(current: FilterConfigView, payloads: Seq<Option<Seq<u8>>>)
    requires
        current.auth_cluster.len() > 0,
    ensures
        configured_all(current, payloads) == current,
    decreases payloads.len(),
{
    if payloads.len() > 0 {
        law_configuration_is_kept(current, payloads.drop_last());
    }
}

/// A payload that holds no configuration, or no payload at all, leaves the
/// store as it was.
pub proof fn law_bad_payload_changes_nothing(current: FilterConfigView, payload: Option<Seq<u8>>)
    requires
        payload matches Some(bytes) ==> payload_config(bytes) is Err,
    ensures
        configured(current, payload) == current,
{
}

impl ConfigStore {
    /// A store that holds no backend yet.
    pub fn new() -> (store: ConfigStore)
        ensures
            store@ == unset_config(),
    {
        ConfigStore { config: FilterConfig::unset() }
    }

    /// The configuration as it stands.
    pub fn config(&self) -> (config: &FilterConfig)
        ensures
            config@ == self@,
    {
        &self.config
    }

    /// The store is ready as soon as it exists: always `true`.
    pub fn on_initialize(&self) -> (ready: bool)
        ensures
            ready,
    {
        true
    }

    /// Takes the outcome of reading a payload: see [`adopted`].
    pub fn adopt(&mut self, parsed: Result<FilterConfig, ConfigError>)
        ensures
            final(self)@ == adopted(
                old(self)@,
                match parsed {
                    Ok(config) => Ok(config@),
                    Err(e) => Err(e),
                },
            ),
    {
        if self.config.is_unset() {
            match parsed {
                Ok(config) => {
                    self.config = config;
                },
                Err(_) => {},
            }
        }
    }

    /// A configuration event. While no cluster is set, a payload that holds
    /// a configuration is adopted; a payload that holds none, or no payload,
    /// leaves the store as it was. The host is always told `true`.
    pub fn on_configure(&mut self, payload: Option<Vec<u8>>) -> (accepted: bool)
        ensures
            accepted,
            final(self)@ == configured(
                old(self)@,
                match payload {
                    Some(bytes) => Some(bytes@),
                    None => None,
                },
            ),
    {
        if self.config.is_unset() {
            match payload {
                Some(bytes) => {
                    let parsed = parse_config(bytes.as_slice());
                    self.adopt(parsed);
                },
                None => {},
            }
        }
        true
    }

    /// A unit for a new request, seeded with a copy of the configuration.
    pub fn create_request_unit(&self) -> (unit: RequestAuth)
        ensures
            unit@ == (RequestAuthView { config: self@, state: RequestAuthState::AwaitingDispatch }),
    {
        RequestAuth::new(self.config.clone())
    }
}

} // verus!
