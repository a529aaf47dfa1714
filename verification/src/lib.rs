//! Conversion of Wycheproof ECDSA verification test vectors into flat test
//! records.
//!
//! [`ecdsa::generator`] and [`ecdsa::generator_v1`] take the bytes of a suite
//! document, in the first and in the later layout, and give one [`TestInfo`]
//! for each case that is not marked acceptable, in document order. The JSON
//! text is read by `serde_json`; the mapping from the JSON document to the
//! suite ([`schema`]), the tests on each group and the making of the records
//! ([`projection`]) are verified, and [`laws`] states what holds of every
//! generation.

pub mod ecdsa;
pub mod hex;
pub mod json;
pub mod laws;
pub mod model;
pub mod projection;
pub mod schema;
pub mod test_info;
pub mod text;
pub mod wycheproof;

pub use test_info::TestInfo;
