//! Live output feed of one process: a broadcast channel whose subscribers
//! receive every chunk published after they subscribed. History is not
//! replayed; late viewers read the log instead.

use crate::log_buffer::keep_recent;
use crate::process::Process;
use tokio::sync::broadcast::{Receiver, Sender};
use vstd::prelude::*;

verus! {

#[verifier::external_type_specification]
#[verifier::external_body]
#[verifier::reject_recursive_types(T)]
pub struct ExSender<T>(Sender<T>);

#[verifier::external_type_specification]
#[verifier::external_body]
#[verifier::reject_recursive_types(T)]
pub struct ExReceiver<T>(Receiver<T>);

/// Chunks a subscriber may fall behind by before it starts losing the oldest.
pub const LIVE_QUEUE: usize = 16;

/// Relies on tokio's `broadcast::Sender::new`: a channel with no subscriber,
/// holding up to `capacity` chunks per subscriber. It panics when `capacity`
/// is 0 or above `usize::MAX / 2`.
#[verifier::external_body]
fn open_channel(capacity: usize) -> Sender<Vec<u8>>
    requires
        0 < capacity <= usize::MAX / 2,
{
    Sender::new(capacity)
}

/// Relies on tokio's `broadcast::Sender::subscribe`: a receiver of the chunks
/// sent after this call.
#[verifier::external_body]
fn subscribe_to(tx: &Sender<Vec<u8>>) -> Receiver<Vec<u8>> {
    tx.subscribe()
}

/// Relies on tokio's `broadcast::Sender::receiver_count`: the number of
/// receivers attached at the moment of the call. Others may attach or leave
/// at any time, so nothing is stated about it.
#[verifier::external_body]
fn count_receivers(tx: &Sender<Vec<u8>>) -> usize {
    tx.receiver_count()
}

/// Relies on tokio's `broadcast::Sender::send`: `Ok(n)` with the number of
/// receivers the chunk was queued for, which is at least one; an error, here
/// `None`, when no receiver is attached.
#[verifier::external_body]
fn send_to(tx: &Sender<Vec<u8>>, chunk: Vec<u8>) -> (r: Option<usize>)
    ensures
        r matches Some(n) ==> n > 0,
{
    tx.send(chunk).ok()
}

/// A copy of `bytes`.
fn copy_bytes(bytes: &[u8]) -> (r: Vec<u8>)
    ensures
        r@ == bytes@,
{
    let mut out: Vec<u8> = Vec::new();
    let mut i: usize = 0;
    while i < bytes.len()
        invariant
            0 <= i <= bytes@.len(),
            out@ == bytes@.subrange(0, i as int),
        decreases bytes@.len() - i,
    {
        out.push(bytes[i]);
        assert(bytes@.subrange(0, i + 1) == bytes@.subrange(0, i as int).push(bytes@[i as int]));
        i = i + 1;
    }
    assert(bytes@.subrange(0, bytes@.len() as int) == bytes@);
    out
}

/// The live feed of one process.
pub struct LiveFeed {
    tx: Sender<Vec<u8>>,
}

impl LiveFeed {
    /// A feed with no subscriber.
    pub fn new() -> (r: LiveFeed) {
        LiveFeed { tx: open_channel(LIVE_QUEUE) }
    }

    /// A receiver of every chunk published from now on.
    pub fn subscribe(&self) -> Receiver<Vec<u8>> {
        subscribe_to(&self.tx)
    }

    /// Number of subscribers attached at this moment.
    pub fn subscribers(&self) -> usize {
        count_receivers(&self.tx)
    }

    /// Publishes `chunk` to the subscribers attached now. Returns how many it
    /// was queued for; 0 when there was none.
    pub fn publish(&self, chunk: &[u8]) -> (delivered: usize) {
        match send_to(&self.tx, copy_bytes(chunk)) {
            Some(n) => n,
            None => 0,
        }
    }

    /// Output `chunk` of `process`'s child: it goes to the log, and to the
    /// live subscribers only when there are any at that moment. Returns
    /// whether it was delivered to at least one of them.
    pub fn record_output(&self, process: &mut Process, chunk: &[u8]) -> (delivered: bool)
        ensures
            final(process).log@ == keep_recent(old(process).log@ + chunk@),
            final(process).status == old(process).status,
            final(process).pid == old(process).pid,
            final(process).timestamp == old(process).timestamp,
            final(process).autostart == old(process).autostart,
            final(process).run == old(process).run,
            crate::process::same_identity(*old(process), *final(process)),
    {
        let watching = self.subscribers();
        if process.on_output(chunk, watching) {
            self.publish(chunk) > 0
        } else {
            false
        }
    }
}

} // verus!
