//! The settings of the backend, checked once before a run.
//!
//! Where the settings come from is the caller's matter. Here they arrive as
//! optional texts, and either all of them are in order or one error lists
//! everything that is wrong with them.

use crate::client::CallType;
use crate::text::same_text;
use vstd::prelude::*;

verus! {

/// Where and how to reach the backend.
#[derive(Debug)]
pub struct BackendConfig {
    pub endpoint: String,
    pub credential: String,
    pub model: String,
    pub call_type: CallType,
}

/// Everything that is wrong with the settings that were given.
#[derive(Debug)]
pub struct ConfigError {
    pub missing_endpoint: bool,
    pub missing_credential: bool,
    pub missing_model: bool,
    /// The call type that was given, where it is not a known one.
    pub unknown_call_type: Option<String>,
}

/// The call type that a text names, if it names one.
pub open spec fn call_type_named(text: Seq<char>) -> Option<CallType> {
    if text == "api-key"@ {
        Some(CallType::ApiKey)
    } else if text == "bearer"@ {
        Some(CallType::Bearer)
    } else {
        None
    }
}

/// The call type that the settings ask for: the one named, or the API key
/// where none is named. None where the name is not a known one.
pub open spec fn call_type_wanted(setting: Option<Seq<char>>) -> Option<CallType> {
    match setting {
        None => Some(CallType::ApiKey),
        Some(text) => call_type_named(text),
    }
}

/// The settings are in order: endpoint, credential and model are there, and
/// the call type, if given, is a known one.
pub open spec fn settings_in_order(
    endpoint: Option<Seq<char>>,
    credential: Option<Seq<char>>,
    model: Option<Seq<char>>,
    call_type: Option<Seq<char>>,
) -> bool {
    endpoint is Some && credential is Some && model is Some && call_type_wanted(call_type) is Some
}

/// The character sequence of an optional string.
pub open spec fn setting_view(o: Option<String>) -> Option<Seq<char>> {
    match o {
        Some(s) => Some(s@),
        None => None,
    }
}

/// Reads the name of a call type.
pub fn parse_call_type(text: &str) -> (r: Option<CallType>)
    ensures
        r == call_type_named(text@),
{
    if same_text(text, "api-key") {
        Some(CallType::ApiKey)
    } else if same_text(text, "bearer") {
        Some(CallType::Bearer)
    } else {
        None
    }
}

impl BackendConfig {
    /// Checks the settings and builds the configuration from them. Where
    /// anything is wrong, the error says of each setting whether it is at
    /// fault.
    pub fn from_settings(
        endpoint: Option<String>,
        credential: Option<String>,
        model: Option<String>,
        call_type: Option<String>,
    ) -> (r: Result<BackendConfig, ConfigError>)
        ensures
            r is Ok <==> settings_in_order(
                setting_view(endpoint),
                setting_view(credential),
                setting_view(model),
                setting_view(call_type),
            ),
            r matches Ok(config) ==> ({
                &&& Some(config.endpoint@) == setting_view(endpoint)
                &&& Some(config.credential@) == setting_view(credential)
                &&& Some(config.model@) == setting_view(model)
                &&& Some(config.call_type) == call_type_wanted(setting_view(call_type))
            }),
            r matches Err(error) ==> ({
                &&& error.missing_endpoint == (endpoint is None)
                &&& error.missing_credential == (credential is None)
                &&& error.missing_model == (model is None)
                &&& setting_view(error.unknown_call_type) == (if call_type_wanted(
                    setting_view(call_type),
                ) is None {
                    setting_view(call_type)
                } else {
                    None
                })
            }),
    {
        let wanted: Option<CallType> = match &call_type {
            None => Some(CallType::ApiKey),
            Some(text) => parse_call_type(text.as_str()),
        };
        match (endpoint, credential, model, wanted) {
            (Some(endpoint), Some(credential), Some(model), Some(call_type)) => Ok(
                BackendConfig { endpoint, credential, model, call_type },
            ),
            (endpoint, credential, model, wanted) => Err(
                ConfigError {
                    missing_endpoint: endpoint.is_none(),
                    missing_credential: credential.is_none(),
                    missing_model: model.is_none(),
                    unknown_call_type: match wanted {
                        None => call_type,
                        Some(_) => None,
                    },
                },
            ),
        }
    }
}

} // verus!
