//! The error that scheduling can end in.
use vstd::prelude::*;

verus! {

/// Code of a plan that cannot be scheduled.
pub const PLAN_SCHEDULE_ERROR: u16 = 31;

/// An error with a numeric code and a message.
#[derive(Debug, PartialEq, Eq)]
pub struct ErrorCode {
    pub code: u16,
    pub message: String,
}

impl ErrorCode {
    pub fn plan_schedule_error(message: &str) -> (r: ErrorCode)
        ensures
            r.code == PLAN_SCHEDULE_ERROR,
            r.message@ == message@,
    {
        ErrorCode { code: PLAN_SCHEDULE_ERROR, message: String::from_str(message) }
    }

    pub fn code(&self) -> (r: u16)
        ensures
            r == self.code,
    {
        self.code
    }

    pub fn message(&self) -> (r: String)
        ensures
            r@ == self.message@,
    {
        self.message.clone()
    }
}

} // verus!
