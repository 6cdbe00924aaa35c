use vstd::prelude::*;

verus! {

/// Declares serde_json's JSON value type so fields can carry such a value
/// through the document opaquely; nothing here reads inside one.
#[verifier::external_type_specification]
#[verifier::external_body]
pub struct ExJsonValue(serde_json::Value);

/// Declares serde_json's arbitrary-precision number type, carried opaquely
/// by the numeric validation bounds of a schema.
#[verifier::external_type_specification]
#[verifier::external_body]
pub struct ExJsonNumber(serde_json::Number);

} // verus!
