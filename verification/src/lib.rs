//! Diagnosis of a hardware security key's connection state.
//!
//! The library holds the verified core: APDU request framing and response
//! parsing, card identity decoding, reader classification, and the merge of
//! the two device discovery channels. The transport layers (USB enumeration,
//! PC/SC readers) are consumed as black-box services by the surrounding
//! application, which hands this library plain values and drives the
//! per-reader session it defines.

pub mod apdu;
pub mod identity;
pub mod device;
pub mod reader;
