//! Registration of the handler that runs when an interrupt arrives.

use vstd::prelude::*;

verus! {

/// The error type of the `ctrlc` crate. Nothing is known of its contents.
#[verifier::external_type_specification]
#[verifier::external_body]
pub struct ExInterruptError(ctrlc::Error);

/// Calls `ctrlc::set_handler`, which installs `handler` to run on a
/// dedicated thread each time the process is interrupted.
///
/// Nothing is claimed about the outcome: whether the registration succeeds
/// depends on whether this process registered a handler before and on the
/// operating system.
#[verifier::external_body]
pub(crate) fn set_interrupt_handler<F>(handler: F) -> (outcome: Result<(), ctrlc::Error>) where
    F: FnMut() + Send + 'static,
{
    ctrlc::set_handler(handler)
}

} // verus!
