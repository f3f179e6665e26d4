//! The listen binding: address and port, their validation, and their
//! JSON form in the settings store.

use vstd::prelude::*;
use crate::json::{jget, obj2, JsonValue};
use crate::text::{char_count, trim_spec, trim_str};
use vstd::string::StringExecFns;

verus! {

/// Where the listener binds: a host address and a port.
#[derive(Debug, Clone, PartialEq, Eq)]
pub struct HttpSettings {
    pub bind_address: String,
    pub port: u16,
}

impl Default for HttpSettings {
    /// The loopback default used when no stored settings exist.
    fn default() -> (s: Self)
        ensures
            s.bind_address@ == "127.0.0.1"@,
            s.port == 60766,
    {
        HttpSettings { bind_address: String::from_str("127.0.0.1"), port: 60766 }
    }
}

/// The settings can be bound: non-blank address, non-zero port.
pub open spec fn settings_valid(s: HttpSettings) -> bool {
    trim_spec(s.bind_address@).len() > 0 && s.port != 0
}

/// Why a settings update was rejected.
#[derive(Clone, Copy, Debug, PartialEq, Eq, Structural)]
pub enum SettingsError {
    EmptyBindAddress,
    ZeroPort,
}

impl SettingsError {
    /// The message reported to the caller for this rejection.
    pub fn message(&self) -> (m: String)
        ensures
            *self is EmptyBindAddress ==> m@ == "Bind address cannot be empty"@,
            *self is ZeroPort ==> m@ == "Port must be between 1 and 65535"@,
    {
        match self {
            SettingsError::EmptyBindAddress => String::from_str("Bind address cannot be empty"),
            SettingsError::ZeroPort => String::from_str("Port must be between 1 and 65535"),
        }
    }
}

/// Accepts exactly the settings that can be bound: the address must not
/// be blank, and the port must not be zero.
pub fn validate_http_settings(settings: &HttpSettings) -> (r: Result<(), SettingsError>)
    ensures
        r is Ok <==> settings_valid(*settings),
        trim_spec(settings.bind_address@).len() == 0 ==> r == Err::<(), SettingsError>(
            SettingsError::EmptyBindAddress,
        ),
        trim_spec(settings.bind_address@).len() > 0 && settings.port == 0 ==> r == Err::<
            (),
            SettingsError,
        >(SettingsError::ZeroPort),
{
    let trimmed = trim_str(settings.bind_address.as_str());
    if char_count(trimmed.as_str()) == 0 {
        return Err(SettingsError::EmptyBindAddress);
    }
    if settings.port == 0 {
        return Err(SettingsError::ZeroPort);
    }
    Ok(())
}

/// The stored settings when they parsed, and the loopback default when
/// the store was absent or corrupt.
pub fn settings_or_default(loaded: Option<HttpSettings>) -> (s: HttpSettings)
    ensures
        loaded matches Some(l) ==> s == l,
        loaded is None ==> s.bind_address@ == "127.0.0.1"@ && s.port == 60766,
{
    match loaded {
        Some(l) => l,
        None => HttpSettings::default(),
    }
}

/// The binding a stored JSON document describes, if it is well-formed:
/// a string `bind_address` and an integer `port` in the port range.
pub open spec fn settings_of_json(v: JsonValue) -> Option<(Seq<char>, u16)> {
    match jget(v, "bind_address"@) {
        Some(a) => match a {
            JsonValue::Str(addr) => match jget(v, "port"@) {
                Some(p) => match p {
                    JsonValue::Int(n) => if 0 <= n <= u16::MAX {
                        Some((addr@, n as u16))
                    } else {
                        None
                    },
                    _ => None,
                },
                _ => None,
            },
            _ => None,
        },
        _ => None,
    }
}

/// Parses stored settings from their JSON form; a missing member, a
/// wrong type or an out-of-range port parses to nothing, and the caller
/// falls back to the default.
pub fn settings_from_json(v: &JsonValue) -> (r: Option<HttpSettings>)
    ensures
        match r {
            Some(s) => settings_of_json(*v) == Some((s.bind_address@, s.port)),
            None => settings_of_json(*v) is None,
        },
{
    let addr = match v.get("bind_address") {
        Some(a) => match a {
            JsonValue::Str(s) => s.clone(),
            _ => {
                return None;
            },
        },
        None => {
            return None;
        },
    };
    match v.get("port") {
        Some(p) => match p {
            JsonValue::Int(n) => if 0 <= *n && *n <= 65535 {
                Some(HttpSettings { bind_address: addr, port: *n as u16 })
            } else {
                None
            },
            _ => None,
        },
        None => None,
    }
}

/// The settings' JSON form, as the store persists it.
pub fn settings_to_json(s: &HttpSettings) -> (r: JsonValue)
    ensures
        settings_of_json(r) == Some((s.bind_address@, s.port)),
{
    proof {
        reveal_strlit("bind_address");
        reveal_strlit("port");
        assert("bind_address"@.len() == 12);
        assert("port"@.len() == 4);
    }
    obj2(
        "bind_address",
        JsonValue::Str(s.bind_address.clone()),
        "port",
        JsonValue::Int(s.port as i64),
    )
}

} // verus!
