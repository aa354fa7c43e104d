//! Value types of other crates that can be stored in a column. They are only
//! carried through; nothing here looks inside them.
use vstd::prelude::*;

verus! {

/// Relies on `chrono::NaiveDate` only as a type name, so that a date field
/// can be described as a `DATE` column.
#[verifier::external_type_specification]
#[verifier::external_body]
pub struct ExNaiveDate(chrono::NaiveDate);

/// Relies on `chrono::NaiveTime` only as a type name, so that a time field
/// can be described as a `TIME` column.
#[verifier::external_type_specification]
#[verifier::external_body]
pub struct ExNaiveTime(chrono::NaiveTime);

/// Relies on `chrono::NaiveDateTime` only as a type name, so that a
/// timestamp field can be described as a `TIMESTAMP` column.
#[verifier::external_type_specification]
#[verifier::external_body]
pub struct ExNaiveDateTime(chrono::NaiveDateTime);

/// Relies on `uuid::Uuid` only as a type name, so that an identifier field
/// can be described as a column.
#[verifier::external_type_specification]
#[verifier::external_body]
pub struct ExUuid(uuid::Uuid);

/// Relies on `serde_json::Value` only as a type name, so that a JSON field
/// can be described as a `JSONB` column, or `JSON` when wrapped.
#[verifier::external_type_specification]
#[verifier::external_body]
pub struct ExValue(serde_json::Value);

} // verus!
