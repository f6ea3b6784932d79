//! The advertisement envelope: the outer broadcast record that an encoded
//! message payload is wrapped in before it is handed to the external
//! advertising transport.

use vstd::prelude::*;

verus! {

/// The 16-bit vendor identifier that namespaces the manufacturer-data entry.
pub const APPLE_MAGIC: u16 = 0x4c;

/// The kind of broadcast requested from the transport. Every envelope built
/// here is a plain broadcast with no response expected.
#[derive(Clone, Copy, Debug, PartialEq, Eq, Structural)]
pub enum BroadcastType {
    Broadcast,
}

/// The envelope handed to the external advertising transport: broadcast
/// semantics, the device-visible name, advertising interval bounds in
/// milliseconds, and a single vendor-identifier entry holding the encoded
/// message payload. A timeout of zero means "advertise until stopped".
#[derive(Debug)]
pub struct Advertisement {
    pub advertisement_type: BroadcastType,
    pub local_name: Option<String>,
    pub timeout_millis: Option<u64>,
    pub min_interval_millis: Option<u64>,
    pub max_interval_millis: Option<u64>,
    pub manufacturer_id: u16,
    pub manufacturer_data: Vec<u8>,
}

/// What every assembled envelope looks like: broadcast type, the given name,
/// the default interval bounds, and the payload under the vendor identifier.
pub open spec fn is_apple_envelope(env: Advertisement, name: Seq<char>, payload: Seq<u8>) -> bool {
    &&& env.advertisement_type == BroadcastType::Broadcast
    &&& env.local_name matches Some(n) && n@ == name
    &&& env.timeout_millis == Some(0u64)
    &&& env.min_interval_millis == Some(100u64)
    &&& env.max_interval_millis == Some(200u64)
    &&& env.manufacturer_id == APPLE_MAGIC
    &&& env.manufacturer_data@ == payload
}

impl Advertisement {
    /// Build the one envelope shape this crate uses: a broadcast with the
    /// given visible name and the encoded payload under the vendor identifier.
    pub fn apple(local_name: String, payload: Vec<u8>) -> (env: Advertisement)
        ensures
            is_apple_envelope(env, local_name@, payload@),
    {
        Advertisement {
            advertisement_type: BroadcastType::Broadcast,
            local_name: Some(local_name),
            timeout_millis: Some(0),
            min_interval_millis: Some(100),
            max_interval_millis: Some(200),
            manufacturer_id: APPLE_MAGIC,
            manufacturer_data: payload,
        }
    }
}

} // verus!
