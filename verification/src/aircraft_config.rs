//! The aircraft configuration that pilot clients exchange as a JSON
//! document inside a `{"config": ...}` envelope.

use vstd::prelude::*;
use vstd::string::*;

verus! {

/// Which lights of an aircraft are on. A light that the document does not
/// mention is `None`.
#[derive(Debug, Clone, Copy, PartialEq, Eq, Structural)]
pub struct AircraftLightsConfig {
    pub strobe_on: Option<bool>,
    pub landing_on: Option<bool>,
    pub taxi_on: Option<bool>,
    pub beacon_on: Option<bool>,
    pub nav_on: Option<bool>,
    pub logo_on: Option<bool>,
}

/// The state of one engine.
#[derive(Debug, Clone, Copy, PartialEq, Eq, Structural)]
pub struct AircraftEngine {
    pub on: Option<bool>,
    pub is_reversing: Option<bool>,
}

/// The state of up to four engines.
#[derive(Debug, Clone, Copy, PartialEq, Eq, Structural)]
pub struct AircraftEnginesConfig {
    pub engine_1: Option<AircraftEngine>,
    pub engine_2: Option<AircraftEngine>,
    pub engine_3: Option<AircraftEngine>,
    pub engine_4: Option<AircraftEngine>,
}

/// What stands under the key `config` in a JSON document, written back as
/// compact JSON, as `serde_json` reads and writes it; `None` where the text
/// is no JSON document or the document has no such key.
pub uninterp spec fn config_payload(document: Seq<char>) -> Option<Seq<char>>;

/// Calls `serde_json::from_str` for a `Value`, then `Value::get` with the key
/// `config`, and writes what stands there with `to_string`. The contract
/// only gives that result its name.
#[verifier::external_body]
pub(crate) fn read_config_payload(document: &str) -> (r: Option<String>)
    ensures
        match r {
            Some(payload) => config_payload(document@) == Some(payload@),
            None => config_payload(document@) is None,
        },
{
    match serde_json::from_str::<serde_json::Value>(document) {
        Ok(value) => match value.get("config") {
            Some(inner) => Some(inner.to_string()),
            None => None,
        },
        Err(_) => None,
    }
}

/// The configuration inside a document, as compact JSON.
pub fn unwrap_config(document: &str) -> (r: Option<String>)
    ensures
        match r {
            Some(payload) => config_payload(document@) == Some(payload@),
            None => config_payload(document@) is None,
        },
{
    read_config_payload(document)
}

/// The document that wraps a configuration.
pub open spec fn wrapped_config(payload: Seq<char>) -> Seq<char> {
    "{\"config\":"@ + payload + "}"@
}

/// Wraps a configuration, given as JSON, into its envelope.
pub fn wrap_config(payload: &str) -> (r: String)
    ensures
        r@ == wrapped_config(payload@),
{
    let mut r = "{\"config\":".to_owned();
    r.append(payload);
    r.append("}");
    r
}

} // verus!
