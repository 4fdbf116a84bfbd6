use vstd::prelude::*;

verus! {

/// A JSON value, carried through this library without being inspected.
#[verifier::external_type_specification]
#[verifier::external_body]
pub struct ExValue(serde_json::Value);

/// The error of a failed structural decode.
#[verifier::external_type_specification]
#[verifier::external_body]
pub struct ExError(serde_json::Error);

/// Relies on serde_json::from_value, applied to a copy of `v`: it decodes
/// the value into `T`, or fails, depending on `T`'s `Deserialize` impl.
#[verifier::external_body]
pub(crate) fn decode<T: serde::de::DeserializeOwned>(
    v: &serde_json::Value,
) -> (r: Result<T, serde_json::Error>) {
    serde_json::from_value(v.clone())
}

} // verus!
