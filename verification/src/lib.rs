//! Codec for the short, fixed-layout binary messages that vendor-identified
//! Bluetooth Low Energy advertisements carry in their manufacturer-data field.
//!
//! The crate encodes typed records into exact byte sequences, decodes captured
//! byte sequences back into records, and assembles encoded payloads into
//! advertisement envelopes ready for an external advertising transport.

pub mod advertisement;
pub mod envelope;
pub mod util;
