//! Declarations of the outside types that values of this library carry.

use vstd::prelude::*;

verus! {

/// `reqwest::Error`, carried inside transport errors.
#[verifier::external_type_specification]
#[verifier::external_body]
pub struct ExReqwestError(reqwest::Error);

/// `serde_json::Error`, carried inside decode and serialization errors.
#[verifier::external_type_specification]
#[verifier::external_body]
pub struct ExSerdeJsonError(serde_json::Error);

/// `std::io::Error`, carried inside I/O errors.
#[verifier::external_type_specification]
#[verifier::external_body]
pub struct ExIoError(std::io::Error);

} // verus!

verus! {

/// `serde_json::Value`, carried (unread) in metadata maps.
#[verifier::external_type_specification]
#[verifier::external_body]
pub struct ExJsonValue(serde_json::Value);

} // verus!
