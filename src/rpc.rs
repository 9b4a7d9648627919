use vstd::prelude::*;
use crate::time::Timestamp;

verus! {

/// Relies on serde_json::Value only as a carried value: the message to deliver.
#[verifier::external_type_specification]
#[verifier::external_body]
pub struct ExJsonValue(serde_json::Value);

/// A request to deliver `future_message` on `future_subject` at `time`.
pub struct AddScheduleRequest {
    pub time: Timestamp,
    pub future_subject: String,
    pub future_message: serde_json::Value,
}

/// The answer to an add request: the id the store gave the registration.
#[derive(Clone, Copy, Debug, PartialEq, Eq, Structural)]
pub struct AddScheduleResponse {
    pub id: i64,
}

/// A request to cancel the registration `id`.
#[derive(Clone, Copy, Debug, PartialEq, Eq, Structural)]
pub struct DeleteScheduleRequest {
    pub id: i64,
}

impl AddScheduleRequest {
    /// The bus subject on which add requests arrive.
    pub fn subject() -> (r: &'static str)
        ensures
            r@ == "yggdrasil-scheduler.add"@,
    {
        "yggdrasil-scheduler.add"
    }
}

impl AddScheduleResponse {
    /// The bus subject of the add exchange that this answers.
    pub fn subject() -> (r: &'static str)
        ensures
            r@ == "yggdrasil-scheduler.add"@,
    {
        "yggdrasil-scheduler.add"
    }
}

impl DeleteScheduleRequest {
    /// The bus subject on which delete requests arrive.
    pub fn subject() -> (r: &'static str)
        ensures
            r@ == "yggdrasil-scheduler.delete"@,
    {
        "yggdrasil-scheduler.delete"
    }
}

} // verus!
