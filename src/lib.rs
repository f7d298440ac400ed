//! Typed model of a message-broker management API: the broker's vocabulary with
//! stable wire strings, declaration builders and tolerant decoders of server
//! payloads, with their behaviour stated as contracts.

pub mod commons;
pub mod json;
pub mod fields;
pub mod records;
pub mod requests;
pub mod responses;
