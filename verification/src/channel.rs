//! The consumer side of the single-slot command channel: a non-blocking poll
//! that yields the most recently buffered angle command, if any.

use vstd::prelude::*;

verus! {

#[verifier::external_type_specification]
#[verifier::external_body]
#[verifier::reject_recursive_types(T)]
pub struct ExReceiver<T>(crossbeam_channel::Receiver<T>);

/// Relies on crossbeam_channel::Receiver::try_recv: it returns a buffered
/// message without blocking, or an error when the channel is empty or the
/// sender was dropped. Which of these happens depends on the producer
/// thread, so nothing is promised of the outcome; the caller handles every
/// value of it.
#[verifier::external_body]
pub(crate) fn poll_command(rx: &crossbeam_channel::Receiver<u32>) -> (cmd: Option<u32>)
{
    match rx.try_recv() {
        Ok(angle) => Some(angle),
        Err(_) => None,
    }
}

} // verus!
