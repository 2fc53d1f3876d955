//! The fixed identifiers of the target peripheral.
use vstd::prelude::*;

verus! {

/// Advertised name of the target peripheral, compared byte for byte.
pub const DEVICE_NAME: &'static str = "3KMC3144";

/// Service (attribute group) the target peripheral exposes.
pub const SERVICE_UUID: &'static str = "1fee6acf-a826-4e37-9635-4d8a01642c5d";

/// Writable characteristic that receives command payloads.
pub const CHARACTERISTIC_UUID: &'static str = "6409d79d-cd28-479c-a639-92f9e1948b43";

/// Length of the advertisement scan window, in seconds.
pub const SCAN_SECONDS: u64 = 4;

/// The 128-bit value that the uuid crate reads from a textual identifier,
/// or `None` where it does not accept the text.
pub uninterp spec fn uuid_text_value(s: Seq<char>) -> Option<u128>;

/// Relies on `uuid::Uuid::parse_str` together with `Uuid::as_u128`: the parse
/// depends on the text alone, and `as_u128` gives the sixteen bytes read big-endian.
#[verifier::external_body]
fn parse_uuid(s: &str) -> (r: Option<u128>)
    ensures
        r == uuid_text_value(s@),
{
    uuid::Uuid::parse_str(s).ok().map(|u| u.as_u128())
}

/// The identifier of the writable characteristic, as a 128-bit value.
pub fn target_characteristic_id() -> (r: Option<u128>)
    ensures
        r == uuid_text_value(CHARACTERISTIC_UUID@),
{
    parse_uuid(CHARACTERISTIC_UUID)
}

/// The identifier of the service the target peripheral exposes, as a 128-bit value.
pub fn target_service_id() -> (r: Option<u128>)
    ensures
        r == uuid_text_value(SERVICE_UUID@),
{
    parse_uuid(SERVICE_UUID)
}

} // verus!
