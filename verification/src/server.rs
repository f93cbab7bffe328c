use vstd::prelude::*;

use crate::text::{joined, parse_i64, parse_integer, parse_u16};

verus! {

/// The address to listen on where nothing else is configured.
pub const DEFAULT_HOST: &'static str = "127.0.0.1";

/// The port to listen on where nothing else is configured, as written.
pub const DEFAULT_PORT: &'static str = "3000";

/// The access-token lifetime in seconds where nothing else is configured, as written.
pub const DEFAULT_ACCESS_EXPIRY: &'static str = "900";

/// The text of a setting, or `default` where it is absent.
pub open spec fn setting_or(setting: Option<Seq<char>>, default: Seq<char>) -> Seq<char> {
    match setting {
        Some(s) => s,
        None => default,
    }
}

/// The address to listen on: the configured one, or 127.0.0.1.
pub fn host_setting(setting: Option<String>) -> (r: String)
    ensures
        r@ == setting_or(match setting { Some(s) => Some(s@), None => None }, DEFAULT_HOST@),
{
    match setting {
        Some(s) => s,
        None => DEFAULT_HOST.to_string(),
    }
}

/// The port to listen on: the configured text (3000 where absent) read as a
/// `u16`, or nothing where it does not read as one.
pub fn port_setting(setting: Option<&str>) -> (r: Option<u16>)
    ensures
        ({
            let text = setting_or(match setting { Some(s) => Some(s@), None => None }, DEFAULT_PORT@);
            match parse_integer(vstd::utf8::encode_utf8(text), 0, 65535) {
                Some(v) => r == Some(v as u16),
                None => r is None,
            }
        }),
{
    let text = match setting {
        Some(s) => s,
        None => DEFAULT_PORT,
    };
    parse_u16(text)
}

/// The access-token lifetime in seconds: the configured text (900 where
/// absent) read as an `i64`, or nothing where it does not read as one.
pub fn access_expiry_setting(setting: Option<&str>) -> (r: Option<i64>)
    ensures
        ({
            let text = setting_or(match setting { Some(s) => Some(s@), None => None }, DEFAULT_ACCESS_EXPIRY@);
            match parse_integer(vstd::utf8::encode_utf8(text), i64::MIN as int, i64::MAX as int) {
                Some(v) => r == Some(v as i64),
                None => r is None,
            }
        }),
{
    let text = match setting {
        Some(s) => s,
        None => DEFAULT_ACCESS_EXPIRY,
    };
    parse_i64(text)
}

/// The answer of the health check.
pub struct HealthReport {
    pub status: String,
    pub timestamp: String,
    pub version: String,
    /// `connected` or `disconnected`.
    pub database: String,
}

/// The health report: always "ok", with the time, the version, and whether
/// the database answered.
pub fn health_check(database_reachable: bool, timestamp: String, version: String) -> (r: HealthReport)
    ensures
        r.status@ == "ok"@,
        r.timestamp@ == timestamp@,
        r.version@ == version@,
        r.database@ == if database_reachable { "connected"@ } else { "disconnected"@ },
{
    let database = if database_reachable {
        "connected".to_string()
    } else {
        "disconnected".to_string()
    };
    HealthReport { status: "ok".to_string(), timestamp, version, database }
}

/// The answer to a request that matches no route.
pub fn fallback(method: &str, uri: &str) -> (r: String)
    ensures
        r@ == "No route found for "@ + method@ + " "@ + uri@,
{
    let a = joined("No route found for ", method);
    let b = joined(a.as_str(), " ");
    joined(b.as_str(), uri)
}

} // verus!
