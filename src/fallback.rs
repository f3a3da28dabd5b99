//! The network lookup: coordinates from an IP-geolocation service.
use crate::location::{Location, Timestamp};
use crate::orchestrator::OrchestratorError;
use vstd::prelude::*;

verus! {

/// The lookup endpoint; it answers with a JSON object holding `lat` and `lon`.
pub const IP_LOOKUP_URL: &'static str = "http://ip-api.com/json";

/// The lookup's own deadline, in milliseconds.
pub const IP_LOOKUP_TIMEOUT_MS: u64 = 5000;

/// The binary64 bit pattern of the number stored under `key` in the JSON
/// object that `body` holds; `None` when `body` is no JSON, not an object,
/// or has no number there.
pub uninterp spec fn json_number_field(body: Seq<u8>, key: Seq<char>) -> Option<u64>;

/// Relies on `serde_json::from_slice` into a `serde_json::Value`, then
/// `Value::get` and `Value::as_f64`: the result depends on the bytes and the
/// key alone.
#[verifier::external_body]
fn json_number(body: &[u8], key: &str) -> (r: Option<u64>)
    ensures
        r == json_number_field(body@, key@),
{
    let value: serde_json::Value = match serde_json::from_slice(body) {
        Ok(v) => v,
        Err(_) => return None,
    };
    match value.get(key) {
        Some(field) => field.as_f64().map(|x| x.to_bits()),
        None => None,
    }
}

/// Builds the network lookup's location from the coordinates that its
/// response held, observed at `now`.
pub fn ip_location_from_coordinates(lat: Option<u64>, lon: Option<u64>, now: Timestamp) -> (r:
    Result<Location, OrchestratorError>)
    ensures
        match (lat, lon) {
            (Some(la), Some(lo)) => r matches Ok(l) && l.latitude == la && l.longitude == lo
                && l.accuracy_m is None && l.provider@ == "ip"@ && l.timestamp == now,
            _ => r == Err::<Location, OrchestratorError>(OrchestratorError::Network),
        },
{
    match (lat, lon) {
        (Some(la), Some(lo)) => Ok(Location::new(la, lo, None, "ip", now)),
        _ => Err(OrchestratorError::Network),
    }
}

/// Reads the network lookup's response body. It succeeds exactly when the
/// body holds numbers under `lat` and `lon`; the location is then observed
/// at `now`, the time of acquisition.
pub fn ip_location_from_body(body: &[u8], now: Timestamp) -> (r: Result<Location, OrchestratorError>)
    ensures
        match (json_number_field(body@, "lat"@), json_number_field(body@, "lon"@)) {
            (Some(la), Some(lo)) => r matches Ok(l) && l.latitude == la && l.longitude == lo
                && l.accuracy_m is None && l.provider@ == "ip"@ && l.timestamp == now,
            _ => r == Err::<Location, OrchestratorError>(OrchestratorError::Network),
        },
{
    let lat = json_number(body, "lat");
    let lon = json_number(body, "lon");
    if lat.is_none() || lon.is_none() {
        return Err(OrchestratorError::Network);
    }
    ip_location_from_coordinates(lat, lon, now)
}

} // verus!
