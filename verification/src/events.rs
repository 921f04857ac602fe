use vstd::prelude::*;

verus! {

/// Commands sent from the main thread → inference task.
///
/// `E` is the enrolled speaker embedding handed to the filter.
#[derive(Debug)]
pub enum InferenceCmd<E> {
    StartEnrollment { index: u8 },
    StartFilter { enrolled: E },
    StopFilter,
    StartTest,
    StopTest,
}

} // verus!
