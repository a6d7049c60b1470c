//! The channel fabric: the only state shared between the ingest worker and
//! the consuming context. One bounded single-producer/single-consumer queue
//! per telemetry stream carries samples toward the consumer, one carries
//! debug text, and one carries outbound commands back toward the worker.
//!
//! Sample publishing is non-blocking and drop-if-full: a full queue
//! discards the new sample and keeps what is already queued, trading
//! completeness for bounded memory and a producer that never stalls.
//! Consumers receive without blocking — an empty queue is "no update this
//! tick", never an error. Commands may be sent non-blocking (the caller
//! handles a full queue) or blocking (for commands that must not be lost);
//! the worker drains them without blocking.
//!
//! The queues are `crossbeam_channel` bounded channels, reached only
//! through the trusted wrappers below. What another thread pushed or popped
//! between two calls is unknowable here, so their contracts state only what
//! holds of every outcome: which value an outcome carries back, never which
//! outcome occurs.

use vstd::prelude::*;
use crate::registry::STREAM_COUNT;
use crate::registry::StreamId;
use crate::window::Measurement;

verus! {

#[verifier::external_type_specification]
#[verifier::external_body]
#[verifier::reject_recursive_types(T)]
pub struct ExSender<T>(crossbeam_channel::Sender<T>);

#[verifier::external_type_specification]
#[verifier::external_body]
#[verifier::reject_recursive_types(T)]
pub struct ExReceiver<T>(crossbeam_channel::Receiver<T>);

/// What a non-blocking push did. A rejected value comes back to the caller.
pub enum PushOutcome<T> {
    /// The queue accepted the value.
    Sent,
    /// The queue was at capacity; the value comes back, what was queued
    /// stays.
    Full(T),
    /// The other endpoint is gone; the value comes back.
    Closed(T),
}

/// What a non-blocking pull found.
pub enum PullOutcome<T> {
    /// The oldest queued value.
    Got(T),
    /// Nothing queued right now.
    Empty,
    /// Nothing queued, and the other endpoint is gone.
    Closed,
}

/// Relies on `crossbeam_channel::bounded`: builds a connected
/// sender/receiver pair over a queue of exactly `cap` slots. The capacity
/// bound keeps clear of the sizes the crate refuses by panic.
#[verifier::external_body]
fn new_bounded<T>(cap: usize) -> (r: (crossbeam_channel::Sender<T>, crossbeam_channel::Receiver<
    T,
>))
    requires
        1 <= cap <= 0x0100_0000,
{
    crossbeam_channel::bounded(cap)
}

/// Relies on `crossbeam_channel::Sender::try_send`: never blocks; either
/// the queue takes the value, or the value comes back with the reason. The
/// concurrent consumer decides which, so nothing promises success.
#[verifier::external_body]
fn try_send_raw<T>(sender: &crossbeam_channel::Sender<T>, value: T) -> (r: PushOutcome<T>)
    ensures
        r is Sent || (r matches PushOutcome::Full(v) && v == value) || (r
            matches PushOutcome::Closed(v) && v == value),
{
    match sender.try_send(value) {
        Ok(()) => PushOutcome::Sent,
        Err(crossbeam_channel::TrySendError::Full(v)) => PushOutcome::Full(v),
        Err(crossbeam_channel::TrySendError::Disconnected(v)) => PushOutcome::Closed(v),
    }
}

/// Relies on `crossbeam_channel::Sender::send`: blocks while the queue is
/// full and the other endpoint lives; returns the value back only when that
/// endpoint is gone. No promise beyond that is possible: what comes of the
/// queue depends on the concurrent consumer.
#[verifier::external_body]
fn send_raw<T>(sender: &crossbeam_channel::Sender<T>, value: T) -> (r: Option<T>)
    ensures
        r matches Some(v) ==> v == value,
{
    match sender.send(value) {
        Ok(()) => None,
        Err(crossbeam_channel::SendError(v)) => Some(v),
    }
}

/// Relies on `crossbeam_channel::Receiver::try_recv`: never blocks; yields
/// the oldest queued value if one is there. Which value that is depends on
/// the concurrent producer, so nothing is stated of it.
#[verifier::external_body]
fn try_recv_raw<T>(receiver: &crossbeam_channel::Receiver<T>) -> (r: PullOutcome<T>) {
    match receiver.try_recv() {
        Ok(v) => PullOutcome::Got(v),
        Err(crossbeam_channel::TryRecvError::Empty) => PullOutcome::Empty,
        Err(crossbeam_channel::TryRecvError::Disconnected) => PullOutcome::Closed,
    }
}

/// Why a command was not queued. The command comes back to the caller, who
/// owed it pre-formatting and may retry.
#[derive(Debug, PartialEq)]
pub enum CommandSendError {
    /// The command queue was at capacity (non-blocking path only).
    Full(String),
    /// The ingest side is gone.
    Closed(String),
}

/// The ingest worker's half of the fabric: it publishes samples and debug
/// text, and drains outbound commands.
pub struct FabricProducer {
    sample_senders: Vec<crossbeam_channel::Sender<Measurement>>,
    debug_sender: crossbeam_channel::Sender<String>,
    command_receiver: crossbeam_channel::Receiver<String>,
}

/// The consuming context's half of the fabric: it pulls samples and debug
/// text, and issues commands.
pub struct FabricConsumer {
    sample_receivers: Vec<crossbeam_channel::Receiver<Measurement>>,
    sample_capacity: usize,
    debug_receiver: crossbeam_channel::Receiver<String>,
    command_sender: crossbeam_channel::Sender<String>,
}

impl FabricProducer {
    /// One sender per registered stream.
    pub closed spec fn wf(&self) -> bool {
        self.sample_senders@.len() == STREAM_COUNT
    }

    /// Publishes one sample to its stream's queue, non-blocking and
    /// drop-if-full: a full queue discards `m` and keeps the samples
    /// already queued but not yet read. Returns whether the queue took it;
    /// callers must not rely on delivery.
    pub fn publish_sample(&self, stream: StreamId, m: Measurement) -> (accepted: bool)
        requires
            self.wf(),
    {
        let slot = stream.slot();
        match try_send_raw(&self.sample_senders[slot], m) {
            PushOutcome::Sent => true,
            PushOutcome::Full(_) => false,
            PushOutcome::Closed(_) => false,
        }
    }

    /// Publishes one debug-text record, non-blocking and drop-if-full.
    pub fn publish_debug(&self, text: String) -> (accepted: bool) {
        match try_send_raw(&self.debug_sender, text) {
            PushOutcome::Sent => true,
            PushOutcome::Full(_) => false,
            PushOutcome::Closed(_) => false,
        }
    }

    /// Takes one pending outbound command without blocking: the ingest
    /// loop must never stall waiting for a command.
    pub fn try_recv_command(&self) -> (r: Option<String>) {
        match try_recv_raw(&self.command_receiver) {
            PullOutcome::Got(c) => Some(c),
            PullOutcome::Empty => None,
            PullOutcome::Closed => None,
        }
    }
}

impl FabricConsumer {
    /// One receiver per registered stream.
    pub closed spec fn wf(&self) -> bool {
        self.sample_receivers@.len() == STREAM_COUNT
    }

    /// Drains the stream's queue without blocking and returns the freshest
    /// sample found, or nothing when no sample waited — "no update this
    /// tick", never an error. At most one queue capacity of samples is
    /// drained per call, so the call is bounded even against a producer
    /// publishing concurrently.
    pub fn try_recv_latest(&self, stream: StreamId) -> (r: Option<Measurement>)
        requires
            self.wf(),
    {
        let slot = stream.slot();
        let mut latest: Option<Measurement> = None;
        let mut i: usize = 0;
        while i < self.sample_capacity
            invariant
                self.wf(),
                slot < STREAM_COUNT,
            decreases self.sample_capacity - i,
        {
            match try_recv_raw(&self.sample_receivers[slot]) {
                PullOutcome::Got(m) => {
                    latest = Some(m);
                },
                PullOutcome::Empty => {
                    return latest;
                },
                PullOutcome::Closed => {
                    return latest;
                },
            }
            i += 1;
        }
        latest
    }

    /// Takes one pending debug-text record without blocking.
    pub fn try_recv_debug(&self) -> (r: Option<String>) {
        match try_recv_raw(&self.debug_receiver) {
            PullOutcome::Got(t) => Some(t),
            PullOutcome::Empty => None,
            PullOutcome::Closed => None,
        }
    }

    /// Queues one outbound command without blocking. A full queue rejects
    /// the command and hands it back — this path may lose a command and
    /// says so.
    pub fn send_command(&self, command: String) -> (r: Result<(), CommandSendError>)
        ensures
            r matches Err(CommandSendError::Full(c)) ==> c == command,
            r matches Err(CommandSendError::Closed(c)) ==> c == command,
    {
        match try_send_raw(&self.command_sender, command) {
            PushOutcome::Sent => Ok(()),
            PushOutcome::Full(c) => Err(CommandSendError::Full(c)),
            PushOutcome::Closed(c) => Err(CommandSendError::Closed(c)),
        }
    }

    /// Queues one outbound command, blocking while the queue is full: for
    /// commands that must not be silently lost. Command issuance is
    /// user-paced, so the wait is brief whenever the ingest side drains.
    pub fn send_command_blocking(&self, command: String) -> (r: Result<(), CommandSendError>)
        ensures
            r matches Err(CommandSendError::Closed(c)) ==> c == command,
            !(r matches Err(CommandSendError::Full(_))),
    {
        match send_raw(&self.command_sender, command) {
            None => Ok(()),
            Some(c) => Err(CommandSendError::Closed(c)),
        }
    }
}

/// Builds the fabric: one bounded sample queue of `sample_capacity` slots
/// per registered stream, a debug-text queue of the same capacity, and a
/// command queue of `command_capacity` slots, each shared by exactly the
/// two halves returned.
#[verifier::loop_isolation(false)]
pub fn new_fabric(sample_capacity: usize, command_capacity: usize) -> (r: (
    FabricProducer,
    FabricConsumer,
))
    requires
        1 <= sample_capacity <= 0x0100_0000,
        1 <= command_capacity <= 0x0100_0000,
    ensures
        r.0.wf(),
        r.1.wf(),
{
    let mut senders: Vec<crossbeam_channel::Sender<Measurement>> = Vec::new();
    let mut receivers: Vec<crossbeam_channel::Receiver<Measurement>> = Vec::new();
    let mut i: usize = 0;
    while i < STREAM_COUNT
        invariant
            senders@.len() == i,
            receivers@.len() == i,
            i <= STREAM_COUNT,
        decreases STREAM_COUNT - i,
    {
        let (s, r) = new_bounded::<Measurement>(sample_capacity);
        senders.push(s);
        receivers.push(r);
        i += 1;
    }
    let (debug_s, debug_r) = new_bounded::<String>(sample_capacity);
    let (command_s, command_r) = new_bounded::<String>(command_capacity);
    (
        FabricProducer {
            sample_senders: senders,
            debug_sender: debug_s,
            command_receiver: command_r,
        },
        FabricConsumer {
            sample_receivers: receivers,
            sample_capacity,
            debug_receiver: debug_r,
            command_sender: command_s,
        },
    )
}

} // verus!
