//! Trusted declarations for the bounded channels that bridge the session to
//! the process runner's worker threads.

use vstd::prelude::*;

verus! {

#[verifier::external_type_specification]
#[verifier::external_body]
#[verifier::reject_recursive_types(T)]
pub struct ExReceiver<T>(tokio::sync::mpsc::Receiver<T>);

#[verifier::external_type_specification]
#[verifier::external_body]
#[verifier::reject_recursive_types(T)]
pub struct ExSender<T>(tokio::sync::mpsc::Sender<T>);

/// Relies on tokio's bounded mpsc `Receiver::try_recv`: a queued chunk when
/// one is ready now, nothing when the channel is currently empty or closed.
/// What comes back depends on the sending side, so nothing is promised of it.
#[verifier::external_body]
pub(crate) fn try_recv_chunk(rx: &mut tokio::sync::mpsc::Receiver<Vec<u8>>) -> Option<Vec<u8>> {
    match rx.try_recv() {
        Ok(v) => Some(v),
        Err(_) => None,
    }
}

/// Relies on tokio's bounded mpsc `Sender::try_send`: queues the chunk unless
/// the channel is full or closed; on failure the chunk is dropped. Whether it
/// succeeds depends on the receiving side, so nothing is promised of it.
#[verifier::external_body]
pub(crate) fn try_send_chunk(tx: &tokio::sync::mpsc::Sender<Vec<u8>>, data: Vec<u8>) -> bool {
    tx.try_send(data).is_ok()
}

} // verus!
