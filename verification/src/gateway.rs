//! One shard's connection to the gateway: its identity, the commands it
//! sends, the events it receives, and the decisions of its heartbeat and
//! receive loops.
use crate::error::{CodecError, GatewayError};
use crate::gateway_structs::{Identify, IdentifyView, Payload, PayloadView, RawData};
use crate::json::json_rendered;
use std::sync::atomic::{AtomicU32, Ordering};
use std::sync::Arc;
use vstd::prelude::*;

verus! {

/// The opcode of a heartbeat.
pub const OPCODE_HEARTBEAT: u32 = 1;

/// The opcode of the Identify handshake.
pub const OPCODE_IDENTIFY: u32 = 2;

/// The opcode of the gateway's Hello.
pub const OPCODE_HELLO: u32 = 10;

/// Two to the power of 32: the denominator of a jitter.
pub const JITTER_SCALE: u64 = 0x1_0000_0000;

/// The number of commands that the command queue of a shard holds before
/// its producers have to wait.
pub const COMMAND_QUEUE_CAPACITY: usize = 32;

/// The number of events that the event channel of a shard keeps for a
/// subscriber that lags behind.
pub const EVENT_CHANNEL_CAPACITY: usize = 32;

/// The producer's end of tokio's bounded queue.
#[verifier::external_type_specification]
#[verifier::external_body]
#[verifier::reject_recursive_types(T)]
pub struct ExCommandSender<T>(tokio::sync::mpsc::Sender<T>);

/// The consumer's end of tokio's bounded queue.
#[verifier::external_type_specification]
#[verifier::external_body]
#[verifier::reject_recursive_types(T)]
pub struct ExCommandReceiver<T>(tokio::sync::mpsc::Receiver<T>);

/// The sender of tokio's broadcast channel.
#[verifier::external_type_specification]
#[verifier::external_body]
#[verifier::reject_recursive_types(T)]
pub struct ExEventSender<T>(tokio::sync::broadcast::Sender<T>);

/// `Sender::clone` of tokio's bounded channel: another handle to the same
/// channel. Nothing is claimed of it.
pub assume_specification<T>[ <tokio::sync::mpsc::Sender<T> as Clone>::clone ](
    sender: &tokio::sync::mpsc::Sender<T>,
) -> tokio::sync::mpsc::Sender<T>;

/// `Sender::clone` of tokio's broadcast channel: another handle to the same
/// channel. Nothing is claimed of it.
pub assume_specification<T>[ <tokio::sync::broadcast::Sender<T> as Clone>::clone ](
    sender: &tokio::sync::broadcast::Sender<T>,
) -> tokio::sync::broadcast::Sender<T>;

/// `rand::random` at the type `u32`: a number drawn from the thread's
/// generator. Nothing is claimed of it but its type.
#[verifier::external_body]
fn random_jitter() -> u32 {
    rand::random::<u32>()
}

/// `tokio::sync::mpsc::channel`: a new bounded queue, as its two ends. It
/// panics on a capacity of zero and on one above an eighth of `usize::MAX`,
/// so neither is asked for. Nothing is claimed of the ends.
#[verifier::external_body]
fn command_channel(capacity: usize) -> (ends: (
    tokio::sync::mpsc::Sender<GatewayCommand>,
    tokio::sync::mpsc::Receiver<GatewayCommand>,
))
    requires
        0 < capacity <= usize::MAX / 8,
{
    tokio::sync::mpsc::channel(capacity)
}

/// `tokio::sync::broadcast::channel`: a new broadcast channel, of which the
/// sender is kept; receivers subscribe to it. It panics on a capacity of zero
/// and on one above half of `usize::MAX`, so neither is asked for. Nothing is
/// claimed of the sender.
#[verifier::external_body]
fn event_channel(capacity: usize) -> (sender: tokio::sync::broadcast::Sender<GatewayEvent>)
    requires
        0 < capacity <= usize::MAX / 2,
{
    tokio::sync::broadcast::channel(capacity).0
}

/// Commands that a shard sends through the gateway.
#[derive(Debug, Clone, PartialEq, Eq)]
pub enum GatewayCommand {
    /// The keep-alive, which carries the last sequence number or `null`.
    Heartbeat(Payload<Option<u32>>),
    /// The handshake that establishes the shard's identity.
    Identify(Payload<Identify>),
}

/// A [`GatewayCommand`] as a mathematical value.
pub enum GatewayCommandView {
    Heartbeat(PayloadView<Option<u32>>),
    Identify(PayloadView<IdentifyView>),
}

impl View for GatewayCommand {
    type V = GatewayCommandView;

    open spec fn view(&self) -> GatewayCommandView {
        match *self {
            GatewayCommand::Heartbeat(payload) => GatewayCommandView::Heartbeat(payload@),
            GatewayCommand::Identify(payload) => GatewayCommandView::Identify(payload@),
        }
    }
}

/// The heartbeat that carries a sequence number.
pub open spec fn heartbeat_of(sequence: u32) -> GatewayCommandView {
    GatewayCommandView::Heartbeat(
        PayloadView {
            opcode: OPCODE_HEARTBEAT,
            data: Some(sequence),
            sequence_number: None,
            event_name: None,
        },
    )
}

impl GatewayCommand {
    /// Whether a JSON value is the form in which a command is sent.
    pub open spec fn written(command: GatewayCommandView, value: serde_json::Value) -> bool {
        match command {
            GatewayCommandView::Heartbeat(payload) => Payload::<Option<u32>>::written(
                payload,
                value,
            ),
            GatewayCommandView::Identify(payload) => Payload::<Identify>::written(payload, value),
        }
    }

    /// The JSON value that a command is written as: equal commands are
    /// written as the same value.
    pub open spec fn form(command: GatewayCommandView) -> serde_json::Value {
        match command {
            GatewayCommandView::Heartbeat(payload) => Payload::<Option<u32>>::form(payload),
            GatewayCommandView::Identify(payload) => Payload::<Identify>::form(payload),
        }
    }

    /// The frame of a command: the whole text of the JSON value that the
    /// command is written as. Equal commands have the same frame.
    pub open spec fn frame(command: GatewayCommandView) -> Seq<char> {
        json_rendered(Self::form(command))
    }

    /// Whether a text is a frame of a command: the whole text of a JSON value
    /// that is the command's form.
    pub open spec fn is_frame(command: GatewayCommandView, text: Seq<char>) -> bool {
        exists|value: serde_json::Value|
            Self::written(command, value) && text == #[trigger] json_rendered(value)
    }

    /// The heartbeat that carries a sequence number: the value carried is the
    /// number given, whatever it is.
    pub fn heartbeat(sequence: u32) -> (command: Self)
        ensures
            command@ == heartbeat_of(sequence),
    {
        GatewayCommand::Heartbeat(Payload::new(OPCODE_HEARTBEAT, Some(sequence)))
    }

    /// Writes the command as the text of a gateway message: the frame of
    /// the command. Every command can be written.
    pub fn serialize_to_message(&self) -> (res: Result<String, CodecError>)
        ensures
            res matches Ok(text) && text@ == Self::frame(self@),
            Self::written(self@, Self::form(self@)),
            Self::is_frame(self@, Self::frame(self@)),
    {
        match self {
            GatewayCommand::Heartbeat(payload) => payload.serialize_to_message(),
            GatewayCommand::Identify(payload) => payload.serialize_to_message(),
        }
    }
}

/// What a shard receives from the gateway. No event is interpreted here
/// beyond its sequence number.
#[derive(Debug, Clone, PartialEq, Eq)]
pub enum GatewayEvent {
    /// An envelope that is passed on as it came.
    Opaque(Payload<RawData>),
}

/// A [`GatewayEvent`] as a mathematical value.
pub enum GatewayEventView {
    Opaque(PayloadView<serde_json::Value>),
}

impl View for GatewayEvent {
    type V = GatewayEventView;

    open spec fn view(&self) -> GatewayEventView {
        match *self {
            GatewayEvent::Opaque(payload) => GatewayEventView::Opaque(payload@),
        }
    }
}

/// Information about one connection to the gateway: which shard it is, and
/// what its heartbeat needs.
#[derive(Clone)]
pub struct GatewayConnectionIdentifier {
    /// The id of the shard, starting at 0 for the first shard.
    pub shard_id: u32,
    /// The total amount of shards: three shards have a total of 3.
    pub shard_total: u32,
    /// The interval (in milliseconds) the client should heartbeat with.
    pub heartbeat_interval: u32,
    /// The last sequence number received from the gateway, shared by the
    /// loop that receives and the loop that sends heartbeats.
    pub sequence_identifier: Arc<AtomicU32>,
}

impl GatewayConnectionIdentifier {
    /// Whether the shard is one of the shards that there are.
    pub open spec fn well_formed(&self) -> bool {
        self.shard_id < self.shard_total
    }

    /// The identity of a shard on which nothing has been received yet.
    pub fn new(shard_id: u32, shard_total: u32, heartbeat_interval: u32) -> (identifier: Self)
        requires
            shard_id < shard_total,
        ensures
            identifier.shard_id == shard_id,
            identifier.shard_total == shard_total,
            identifier.heartbeat_interval == heartbeat_interval,
            identifier.well_formed(),
    {
        Self {
            shard_id,
            shard_total,
            heartbeat_interval,
            sequence_identifier: Arc::new(AtomicU32::new(0)),
        }
    }

    /// The last sequence number that was recorded, by whichever loop.
    pub fn last_sequence(&self) -> u32 {
        self.sequence_identifier.load(Ordering::Acquire)
    }

    /// Records a sequence number for every loop that shares the identity.
    pub fn record_sequence(&self, sequence: u32) {
        self.sequence_identifier.store(sequence, Ordering::Release)
    }
}

/// The delay before the first heartbeat: the interval times a jitter between
/// zero and one, which is given as a numerator over two to the power of 32.
pub open spec fn first_delay(heartbeat_interval: u32, jitter: u32) -> int {
    (heartbeat_interval as int * jitter as int) / (JITTER_SCALE as int)
}

/// The jitter is a fraction below one: the delay before the first heartbeat
/// is shorter than the interval, or zero where the interval is.
pub proof fn lemma_first_delay_is_below_the_interval(heartbeat_interval: u32, jitter: u32)
    ensures
        0 <= first_delay(heartbeat_interval, jitter) <= heartbeat_interval,
        heartbeat_interval > 0 ==> first_delay(heartbeat_interval, jitter) < heartbeat_interval,
{
    let interval = heartbeat_interval as int;
    let numerator = jitter as int;
    assert({
        &&& 0 <= (interval * numerator) / 0x1_0000_0000 <= interval
        &&& interval > 0 ==> (interval * numerator) / 0x1_0000_0000 < interval
    }) by (nonlinear_arith)
        requires
            0 <= numerator < 0x1_0000_0000,
            0 <= interval,
    ;
}

/// The delay before the first heartbeat, in milliseconds.
pub fn initial_heartbeat_delay(heartbeat_interval: u32, jitter: u32) -> (millis: u64)
    ensures
        millis == first_delay(heartbeat_interval, jitter),
        millis <= heartbeat_interval,
        heartbeat_interval > 0 ==> millis < heartbeat_interval,
{
    let interval = heartbeat_interval as u64;
    let numerator = jitter as u64;
    assert(interval * numerator <= 0xffff_ffff * 0xffff_ffff) by (nonlinear_arith)
        requires
            interval <= 0xffff_ffff,
            numerator <= 0xffff_ffff,
    ;
    proof {
        lemma_first_delay_is_below_the_interval(heartbeat_interval, jitter);
    }
    (interval * numerator) / JITTER_SCALE
}

/// Where the heartbeat loop of a shard stands.
#[derive(Debug, Clone, Copy, PartialEq, Eq, Structural)]
pub enum HeartbeatState {
    /// The loop has not started.
    Idle,
    /// The loop sleeps until the next heartbeat is due.
    Waiting,
    /// A heartbeat has been handed to the command queue.
    Sending,
    /// The loop has ended.
    Stopped,
}

/// What the heartbeat loop learns from outside.
#[derive(Debug, Clone, Copy, PartialEq, Eq, Structural)]
pub enum HeartbeatEvent {
    /// The loop starts, with the jitter that was drawn for it.
    Started { jitter: u32 },
    /// The sleep is over; `sequence` is the sequence number read just now.
    Elapsed { sequence: u32 },
    /// The command queue took the heartbeat.
    Sent,
    /// The command queue is closed.
    SendFailed,
}

impl HeartbeatEvent {
    /// The event that starts the heartbeat loop of a shard, with a jitter
    /// drawn for it: between zero and one, as a numerator over two to the
    /// power of 32. No two shards are meant to draw the same.
    pub fn started() -> (event: Self)
        ensures
            event is Started,
    {
        HeartbeatEvent::Started { jitter: random_jitter() }
    }
}

/// What the heartbeat loop does next.
#[derive(Debug, Clone, PartialEq, Eq)]
pub enum HeartbeatAction {
    /// Sleep for so many milliseconds, then report that the sleep is over.
    Sleep { millis: u64 },
    /// Submit the command to the queue, then report how that went.
    Send(GatewayCommand),
    /// End the loop, and report the failure where there is one: a heartbeat
    /// that the closed queue did not take means that the shard is dead.
    Stop { failure: Option<GatewayError> },
}

/// A [`HeartbeatAction`] as a mathematical value.
pub enum HeartbeatActionView {
    Sleep { millis: u64 },
    Send(GatewayCommandView),
    Stop { failure: Option<GatewayError> },
}

impl View for HeartbeatAction {
    type V = HeartbeatActionView;

    open spec fn view(&self) -> HeartbeatActionView {
        match *self {
            HeartbeatAction::Sleep { millis } => HeartbeatActionView::Sleep { millis },
            HeartbeatAction::Send(command) => HeartbeatActionView::Send(command@),
            HeartbeatAction::Stop { failure } => HeartbeatActionView::Stop { failure },
        }
    }
}

/// The heartbeat loop: it sleeps for the jittered delay, then sends a
/// heartbeat with the sequence number of that moment and sleeps for the
/// interval, in turn, until the queue is closed. A heartbeat that the closed
/// queue did not take ends the loop with the failure to report, a closed
/// channel. An event that does not fit the state ends the loop too, without
/// a failure of the shard; so does every event after the loop has ended.
pub open spec fn heartbeat_next(
    state: HeartbeatState,
    heartbeat_interval: u32,
    event: HeartbeatEvent,
) -> (HeartbeatState, HeartbeatActionView) {
    match (state, event) {
        (HeartbeatState::Idle, HeartbeatEvent::Started { jitter }) => (
            HeartbeatState::Waiting,
            HeartbeatActionView::Sleep { millis: first_delay(heartbeat_interval, jitter) as u64 },
        ),
        (HeartbeatState::Waiting, HeartbeatEvent::Elapsed { sequence }) => (
            HeartbeatState::Sending,
            HeartbeatActionView::Send(heartbeat_of(sequence)),
        ),
        (HeartbeatState::Sending, HeartbeatEvent::Sent) => (
            HeartbeatState::Waiting,
            HeartbeatActionView::Sleep { millis: heartbeat_interval as u64 },
        ),
        (HeartbeatState::Sending, HeartbeatEvent::SendFailed) => (
            HeartbeatState::Stopped,
            HeartbeatActionView::Stop { failure: Some(GatewayError::ChannelClosed) },
        ),
        _ => (HeartbeatState::Stopped, HeartbeatActionView::Stop { failure: None }),
    }
}

/// One step of the heartbeat loop.
pub fn heartbeat_step(state: HeartbeatState, heartbeat_interval: u32, event: HeartbeatEvent) -> (res:
    (HeartbeatState, HeartbeatAction))
    ensures
        res.0 == heartbeat_next(state, heartbeat_interval, event).0,
        res.1@ == heartbeat_next(state, heartbeat_interval, event).1,
{
    match (state, event) {
        (HeartbeatState::Idle, HeartbeatEvent::Started { jitter }) => (
            HeartbeatState::Waiting,
            HeartbeatAction::Sleep { millis: initial_heartbeat_delay(heartbeat_interval, jitter) },
        ),
        (HeartbeatState::Waiting, HeartbeatEvent::Elapsed { sequence }) => (
            HeartbeatState::Sending,
            HeartbeatAction::Send(GatewayCommand::heartbeat(sequence)),
        ),
        (HeartbeatState::Sending, HeartbeatEvent::Sent) => (
            HeartbeatState::Waiting,
            HeartbeatAction::Sleep { millis: heartbeat_interval as u64 },
        ),
        (HeartbeatState::Sending, HeartbeatEvent::SendFailed) => (
            HeartbeatState::Stopped,
            HeartbeatAction::Stop { failure: Some(GatewayError::ChannelClosed) },
        ),
        _ => (HeartbeatState::Stopped, HeartbeatAction::Stop { failure: None }),
    }
}

/// The state of the heartbeat loop after the first `count` of a sequence of
/// events.
pub open spec fn heartbeat_state_after(
    heartbeat_interval: u32,
    events: Seq<HeartbeatEvent>,
    count: nat,
) -> HeartbeatState
    decreases count,
{
    if count == 0 {
        HeartbeatState::Idle
    } else {
        heartbeat_next(
            heartbeat_state_after(heartbeat_interval, events, (count - 1) as nat),
            heartbeat_interval,
            events[count - 1],
        ).0
    }
}

/// What the heartbeat loop does on the event at `index` of a sequence of
/// events.
pub open spec fn heartbeat_action_at(
    heartbeat_interval: u32,
    events: Seq<HeartbeatEvent>,
    index: nat,
) -> HeartbeatActionView {
    heartbeat_next(
        heartbeat_state_after(heartbeat_interval, events, index),
        heartbeat_interval,
        events[index as int],
    ).1
}

/// Whatever the loop is told, in whatever order: a heartbeat carries the
/// sequence number that was read when its sleep ended, and the loop slept
/// just before it, for the jittered delay before the first heartbeat and for
/// the whole interval before every other.
pub proof fn lemma_heartbeat_cadence(
    heartbeat_interval: u32,
    events: Seq<HeartbeatEvent>,
    index: nat,
)
    requires
        index < events.len(),
        heartbeat_action_at(heartbeat_interval, events, index) is Send,
    ensures
        events[index as int] matches HeartbeatEvent::Elapsed { sequence }
            && heartbeat_action_at(heartbeat_interval, events, index)
            == HeartbeatActionView::Send(heartbeat_of(sequence)),
        index >= 1,
        index == 1 ==> (events[0] matches HeartbeatEvent::Started { jitter }
            && heartbeat_action_at(heartbeat_interval, events, 0) == (HeartbeatActionView::Sleep {
            millis: first_delay(heartbeat_interval, jitter) as u64,
        }) && 0 <= first_delay(heartbeat_interval, jitter) <= heartbeat_interval),
        index > 1 ==> heartbeat_action_at(heartbeat_interval, events, (index - 1) as nat) == (
        HeartbeatActionView::Sleep { millis: heartbeat_interval as u64 }),
{
    assert(heartbeat_state_after(heartbeat_interval, events, index) == HeartbeatState::Waiting);
    if index == 1 {
        lemma_first_delay_is_below_the_interval(heartbeat_interval, events[0]->jitter);
    }
    if index > 1 {
        let before = (index - 1) as nat;
        assert(heartbeat_state_after(heartbeat_interval, events, before) != HeartbeatState::Idle);
    }
}

/// A heartbeat that the closed queue did not take ends the loop for good:
/// the failure to report is a closed channel, and whatever the loop is told
/// after that, it builds and submits no further heartbeat.
pub proof fn lemma_failed_heartbeat_ends_the_loop(
    heartbeat_interval: u32,
    events: Seq<HeartbeatEvent>,
    failed: nat,
    index: nat,
)
    requires
        failed < index < events.len(),
        heartbeat_state_after(heartbeat_interval, events, failed) == HeartbeatState::Sending,
        events[failed as int] == HeartbeatEvent::SendFailed,
    ensures
        heartbeat_action_at(heartbeat_interval, events, failed) == (HeartbeatActionView::Stop {
            failure: Some(GatewayError::ChannelClosed),
        }),
        heartbeat_state_after(heartbeat_interval, events, index) == HeartbeatState::Stopped,
        heartbeat_action_at(heartbeat_interval, events, index) == (HeartbeatActionView::Stop {
            failure: None,
        }),
    decreases index,
{
    assert(heartbeat_state_after(heartbeat_interval, events, failed + 1)
        == HeartbeatState::Stopped);
    if index > failed + 1 {
        lemma_failed_heartbeat_ends_the_loop(
            heartbeat_interval,
            events,
            failed,
            (index - 1) as nat,
        );
    }
}

/// What the read half of a connection yields.
#[derive(Debug, Clone, PartialEq, Eq)]
pub enum Inbound {
    /// The text of a frame.
    Frame(String),
    /// The connection was closed.
    Closed,
    /// The transport failed.
    Failed,
}

/// An [`Inbound`] as a mathematical value.
pub enum InboundView {
    Frame(Seq<char>),
    Closed,
    Failed,
}

impl View for Inbound {
    type V = InboundView;

    open spec fn view(&self) -> InboundView {
        match *self {
            Inbound::Frame(text) => InboundView::Frame(text@),
            Inbound::Closed => InboundView::Closed,
            Inbound::Failed => InboundView::Failed,
        }
    }
}

/// What the receive loop of a shard knows: the last sequence number it has
/// seen, and whether the connection still stands.
#[derive(Debug, Clone, Copy, PartialEq, Eq, Structural)]
pub struct ReceiverState {
    /// The last sequence number seen; zero before any.
    pub sequence: u32,
    /// Whether the loop is still running.
    pub alive: bool,
}

impl ReceiverState {
    /// The receive loop of a connection on which nothing has been received
    /// yet.
    pub fn new() -> (state: Self)
        ensures
            state == (ReceiverState { sequence: 0, alive: true }),
    {
        ReceiverState { sequence: 0, alive: true }
    }
}

/// What the receive loop does with what it read.
#[derive(Debug, Clone, PartialEq, Eq)]
pub enum ReceiverAction {
    /// Publish the event to the subscribers of the shard.
    Publish(GatewayEvent),
    /// Report a frame that could not be read, and go on reading.
    Report(CodecError),
    /// End the loop: the shard is dead.
    Shutdown,
}

/// A [`ReceiverAction`] as a mathematical value.
pub enum ReceiverActionView {
    Publish(GatewayEventView),
    Report(CodecError),
    Shutdown,
}

impl View for ReceiverAction {
    type V = ReceiverActionView;

    open spec fn view(&self) -> ReceiverActionView {
        match *self {
            ReceiverAction::Publish(event) => ReceiverActionView::Publish(event@),
            ReceiverAction::Report(error) => ReceiverActionView::Report(error),
            ReceiverAction::Shutdown => ReceiverActionView::Shutdown,
        }
    }
}

/// The receive loop, once a frame has been read as an envelope or not: an
/// envelope is published, and its sequence number, where it has one, becomes
/// the last one seen; a frame that could not be read is reported and changes
/// nothing.
pub open spec fn received_envelope(
    state: ReceiverState,
    envelope: Result<PayloadView<serde_json::Value>, CodecError>,
) -> (ReceiverState, ReceiverActionView) {
    match envelope {
        Ok(payload) => (
            ReceiverState {
                sequence: match payload.sequence_number {
                    Some(sequence) => sequence,
                    None => state.sequence,
                },
                alive: true,
            },
            ReceiverActionView::Publish(GatewayEventView::Opaque(payload)),
        ),
        Err(error) => (state, ReceiverActionView::Report(error)),
    }
}

/// The receive loop: frames are read as envelopes; the end of the connection
/// and a failure of the transport end the loop, and nothing revives it.
pub open spec fn received(state: ReceiverState, inbound: InboundView) -> (
    ReceiverState,
    ReceiverActionView,
) {
    if !state.alive {
        (state, ReceiverActionView::Shutdown)
    } else {
        match inbound {
            InboundView::Frame(text) => received_envelope(
                state,
                Payload::<RawData>::deserialized(text),
            ),
            _ => (
                ReceiverState { sequence: state.sequence, alive: false },
                ReceiverActionView::Shutdown,
            ),
        }
    }
}

/// One step of the receive loop, on a frame that has been read as an
/// envelope or not.
pub fn receive_envelope(state: ReceiverState, envelope: Result<Payload<RawData>, CodecError>) -> (res:
    (ReceiverState, ReceiverAction))
    ensures
        res.0 == received_envelope(
            state,
            match envelope {
                Ok(payload) => Ok(payload@),
                Err(error) => Err(error),
            },
        ).0,
        res.1@ == received_envelope(
            state,
            match envelope {
                Ok(payload) => Ok(payload@),
                Err(error) => Err(error),
            },
        ).1,
{
    match envelope {
        Ok(payload) => {
            let sequence = match payload.sequence_number {
                Some(sequence) => sequence,
                None => state.sequence,
            };
            (
                ReceiverState { sequence, alive: true },
                ReceiverAction::Publish(GatewayEvent::Opaque(payload)),
            )
        },
        Err(error) => (state, ReceiverAction::Report(error)),
    }
}

/// One step of the receive loop.
pub fn receive(state: ReceiverState, inbound: Inbound) -> (res: (ReceiverState, ReceiverAction))
    ensures
        res.0 == received(state, inbound@).0,
        res.1@ == received(state, inbound@).1,
{
    if !state.alive {
        return (state, ReceiverAction::Shutdown);
    }
    match inbound {
        Inbound::Frame(text) => receive_envelope(
            state,
            Payload::<RawData>::deserialize(text.as_str()),
        ),
        _ => (ReceiverState { sequence: state.sequence, alive: false }, ReceiverAction::Shutdown),
    }
}

/// A frame that cannot be read does not end the receive loop: the loop goes
/// on with the sequence number it had, and the next frame that can be read is
/// published and sets the sequence number it carries.
pub proof fn lemma_unreadable_frame_is_survived(
    state: ReceiverState,
    unreadable: Seq<char>,
    readable: Seq<char>,
)
    requires
        state.alive,
        Payload::<RawData>::deserialized(unreadable) is Err,
        Payload::<RawData>::deserialized(readable) is Ok,
    ensures
        received(state, InboundView::Frame(unreadable)).0 == state,
        received(state, InboundView::Frame(unreadable)).1 is Report,
        ({
            let after = received(state, InboundView::Frame(unreadable)).0;
            let envelope = Payload::<RawData>::deserialized(readable)->Ok_0;
            &&& received(after, InboundView::Frame(readable)).1 == ReceiverActionView::Publish(
                GatewayEventView::Opaque(envelope),
            )
            &&& received(after, InboundView::Frame(readable)).0.alive
            &&& envelope.sequence_number matches Some(sequence) ==> received(
                after,
                InboundView::Frame(readable),
            ).0.sequence == sequence
        }),
{
}

/// The handle of one shard: the producer of its command queue, the sender of
/// its event channel, from which receivers subscribe, and its identity.
#[derive(Clone)]
pub struct Gateway {
    /// Takes the commands that the shard is to send through the gateway.
    pub gateway_sink_sender: tokio::sync::mpsc::Sender<GatewayCommand>,
    /// Publishes the events received from the gateway; subscribing to it
    /// creates a receiver.
    pub gateway_stream_sender: tokio::sync::broadcast::Sender<GatewayEvent>,
    /// Which shard this connection belongs to, and what its heartbeat needs.
    pub connection_id: GatewayConnectionIdentifier,
}

impl Gateway {
    /// The handle of a shard with this identity, with a command queue and an
    /// event channel of its own, and the consumer's end of the queue.
    pub fn open(connection_id: GatewayConnectionIdentifier) -> (res: (
        Self,
        tokio::sync::mpsc::Receiver<GatewayCommand>,
    ))
        ensures
            res.0.connection_id == connection_id,
    {
        let (gateway_sink_sender, commands) = command_channel(COMMAND_QUEUE_CAPACITY);
        let gateway_stream_sender = event_channel(EVENT_CHANNEL_CAPACITY);
        (Gateway { gateway_sink_sender, gateway_stream_sender, connection_id }, commands)
    }

    /// The heartbeat to send now: it carries the sequence number that the
    /// identity holds at this moment.
    pub fn heartbeat(&self) -> (command: GatewayCommand)
        ensures
            exists|sequence: u32| command@ == #[trigger] heartbeat_of(sequence),
    {
        let sequence = self.connection_id.last_sequence();
        let command = GatewayCommand::heartbeat(sequence);
        assert(command@ == heartbeat_of(sequence));
        command
    }

    /// One step of the shard's receive loop, which alone writes the sequence
    /// number: the step is that of [`receive`], and the sequence number that
    /// the loop ends with is recorded in the identity, where the heartbeat
    /// loop reads it.
    pub fn recieve_gateway_events(&self, state: ReceiverState, inbound: Inbound) -> (res: (
        ReceiverState,
        ReceiverAction,
    ))
        ensures
            res.0 == received(state, inbound@).0,
            res.1@ == received(state, inbound@).1,
    {
        let (next, action) = receive(state, inbound);
        self.connection_id.record_sequence(next.sequence);
        (next, action)
    }
}

} // verus!
