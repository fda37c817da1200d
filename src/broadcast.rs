//! The output broadcaster: one channel on which the raw output of every run
//! is published to whoever subscribes.

use tokio::sync::broadcast::{Receiver, Sender};
use vstd::prelude::*;

verus! {

#[verifier::external_type_specification]
#[verifier::external_body]
#[verifier::reject_recursive_types(T)]
pub struct ExSender<T>(Sender<T>);

#[verifier::external_type_specification]
#[verifier::external_body]
#[verifier::reject_recursive_types(T)]
pub struct ExReceiver<T>(Receiver<T>);

/// The largest buffer depth a channel can be made with.
pub open spec fn max_depth() -> usize {
    (usize::MAX / 2) as usize
}

/// Relies on tokio's `broadcast::Sender::new`, which panics on a capacity of
/// zero or above `usize::MAX / 2`.
#[verifier::external_body]
fn new_sender(capacity: usize) -> Sender<Vec<u8>>
    requires
        0 < capacity <= max_depth(),
{
    Sender::new(capacity)
}

/// Relies on tokio's `broadcast::Sender::send`: it hands `chunk` to the
/// receivers open at that moment and returns how many there were; with none
/// it fails, reported here as zero.
#[verifier::external_body]
fn send_chunk(sender: &Sender<Vec<u8>>, chunk: Vec<u8>) -> usize {
    match sender.send(chunk) {
        Ok(n) => n,
        Err(_) => 0,
    }
}

/// Relies on tokio's `broadcast::Sender::subscribe`: a receiver of every
/// chunk sent after this call and of none sent before it.
#[verifier::external_body]
fn new_receiver(sender: &Sender<Vec<u8>>) -> Receiver<Vec<u8>> {
    sender.subscribe()
}

/// The channel on which each run's output is published, owned by whoever
/// starts the service and handed to every handler.
pub struct Broadcaster {
    sender: Sender<Vec<u8>>,
    depth: usize,
}

impl Broadcaster {
    /// A channel whose subscribers each buffer up to `depth` chunks.
    pub fn new(depth: usize) -> (r: Broadcaster)
        requires
            0 < depth <= max_depth(),
        ensures
            r.depth() == depth,
    {
        Broadcaster { sender: new_sender(depth), depth }
    }

    /// How many chunks each subscriber buffers.
    pub closed spec fn depth(&self) -> usize {
        self.depth
    }

    /// How many chunks each subscriber buffers.
    pub fn buffer_depth(&self) -> (r: usize)
        ensures
            r == self.depth(),
    {
        self.depth
    }

    /// Publishes one chunk to the current subscribers and returns how many
    /// there were; with none, nothing happens and zero is returned.
    pub fn publish(&self, chunk: Vec<u8>) -> usize {
        send_chunk(&self.sender, chunk)
    }

    /// A new subscription, which sees only what is published after it.
    pub fn subscribe(&self) -> Receiver<Vec<u8>> {
        new_receiver(&self.sender)
    }
}

} // verus!
