use vstd::prelude::*;

verus! {

/// An error reported to the native (ArkTS) side, carrying a reason text.
#[derive(Debug)]
pub struct NativeError {
    pub reason: String,
}

impl NativeError {
    pub fn from_reason(reason: &str) -> (e: NativeError)
        ensures
            e.reason@ == reason@,
    {
        NativeError { reason: reason.to_owned() }
    }
}

} // verus!
