//! The event bus: one broadcast channel of progress events for each job.
//!
//! The channels are those of `tokio`: bounded, with any number of
//! receivers, each of which is handed what is sent after it was made.
//! Sending never waits for a receiver. What the bus itself keeps account of
//! is which events it has sent on which channel, in order.

use vstd::prelude::*;
use crate::models::{EventView, SseEvent};
use crate::table::Table;

verus! {

/// The sending half of a broadcast channel of `tokio`, carried through as
/// it is.
#[verifier::external_type_specification]
#[verifier::external_body]
#[verifier::reject_recursive_types(T)]
pub struct ExSender<T>(tokio::sync::broadcast::Sender<T>);

/// A receiving half of a broadcast channel of `tokio`, carried through as
/// it is.
#[verifier::external_type_specification]
#[verifier::external_body]
#[verifier::reject_recursive_types(T)]
pub struct ExReceiver<T>(tokio::sync::broadcast::Receiver<T>);

/// The capacity that a job's channel is opened with: the number of events
/// that it keeps at least for a receiver that has not read them yet.
pub const CHANNEL_CAPACITY: usize = 100;

/// Name for the capacity that a broadcast channel was opened with: the
/// number of sent values that it keeps at least for a receiver that has not
/// read them.
pub uninterp spec fn opened_capacity(sender: tokio::sync::broadcast::Sender<SseEvent>) -> nat;

/// Opens a broadcast channel and hands out its sending half.
///
/// Trusted: `tokio::sync::broadcast::channel`, which fails hard on a
/// capacity of zero or of more than half of `usize::MAX`. The channel is
/// opened with the capacity given; of what it holds nothing is claimed.
#[verifier::external_body]
fn open_channel(capacity: usize) -> (sender: tokio::sync::broadcast::Sender<SseEvent>)
    requires
        0 < capacity <= usize::MAX / 2,
    ensures
        opened_capacity(sender) == capacity,
{
    tokio::sync::broadcast::channel(capacity).0
}

/// Sends an event to the receivers of a channel, without waiting for any
/// of them.
///
/// Trusted: `tokio::sync::broadcast::Sender::send`. Who receives the event
/// depends on the receivers that exist and on how far each has read, so
/// nothing is claimed of it; with no receiver the event is dropped.
#[verifier::external_body]
fn send_event(sender: &tokio::sync::broadcast::Sender<SseEvent>, event: SseEvent) {
    let _ = sender.send(event);
}

/// Makes a new receiver of a channel.
///
/// Trusted: `tokio::sync::broadcast::Sender::subscribe`, which is
/// documented to make a receiver of what is sent after the call. Nothing is
/// claimed of the receiver. The call fails hard when the channel has as
/// many receivers as `tokio` can count.
#[verifier::external_body]
fn add_receiver(sender: &tokio::sync::broadcast::Sender<SseEvent>) -> (receiver:
    tokio::sync::broadcast::Receiver<SseEvent>) {
    sender.subscribe()
}

/// View of a [`Channel`].
pub struct ChannelView {
    /// The capacity that the channel was opened with.
    pub capacity: nat,
    /// Every event sent on the channel, oldest first.
    pub sent: Seq<EventView>,
}

impl ChannelView {
    /// A channel of the capacity of a job's channel on which nothing was
    /// sent.
    pub open spec fn fresh() -> ChannelView {
        ChannelView { capacity: CHANNEL_CAPACITY as nat, sent: Seq::empty() }
    }

    /// The channel after `event` was sent on it.
    pub open spec fn published(self, event: EventView) -> ChannelView {
        ChannelView { sent: self.sent.push(event), ..self }
    }
}

/// The channel of one job: its sending half, and the account of what was
/// sent on it.
pub struct Channel {
    sender: tokio::sync::broadcast::Sender<SseEvent>,
    sent: Ghost<Seq<EventView>>,
}

impl View for Channel {
    type V = ChannelView;

    closed spec fn view(&self) -> ChannelView {
        ChannelView { capacity: opened_capacity(self.sender), sent: self.sent@ }
    }
}

impl Channel {
    /// A fresh channel, opened with the capacity of a job's channel, on
    /// which nothing was sent.
    pub fn new() -> (c: Channel)
        ensures
            c@ == ChannelView::fresh(),
    {
        Channel { sender: open_channel(CHANNEL_CAPACITY), sent: Ghost(Seq::empty()) }
    }

    /// Sends `event` to the receivers of the channel. This never waits and
    /// never fails.
    pub fn publish(&mut self, event: SseEvent)
        ensures
            final(self)@ == old(self)@.published(event@),
    {
        proof {
            self.sent@ = self.sent@.push(event@);
        }
        send_event(&self.sender, event);
    }

    /// A new receiver of the channel. It is handed what is sent from now
    /// on, and none of what was sent before.
    pub fn subscribe(&self) -> (receiver: tokio::sync::broadcast::Receiver<SseEvent>) {
        add_receiver(&self.sender)
    }
}

/// The channels of all jobs, by job id.
pub struct EventBus {
    channels: Table<Channel>,
}

impl View for EventBus {
    type V = Map<Seq<char>, ChannelView>;

    /// The channel of each job that has one.
    closed spec fn view(&self) -> Map<Seq<char>, ChannelView> {
        Map::new(
            |job_id: Seq<char>| self.channels@.contains_key(job_id),
            |job_id: Seq<char>| self.channels@[job_id]@,
        )
    }
}

impl EventBus {
    /// A bus without channels.
    pub fn new() -> (bus: EventBus)
        ensures
            bus@ == Map::<Seq<char>, ChannelView>::empty(),
    {
        let bus = EventBus { channels: Table::new() };
        assert(bus@ =~= Map::<Seq<char>, ChannelView>::empty());
        bus
    }

    /// Whether `job_id` has a channel.
    pub fn has_channel(&self, job_id: &str) -> (r: bool)
        ensures
            r == self@.contains_key(job_id@),
    {
        self.channels.contains_key(job_id)
    }

    /// Gives `job_id` a fresh channel, in place of any it had.
    pub fn create_channel(&mut self, job_id: &str)
        ensures
            final(self)@ == old(self)@.insert(job_id@, ChannelView::fresh()),
    {
        let _ = self.channels.insert(job_id.to_string(), Channel::new());
        assert(self@ =~= old(self)@.insert(job_id@, ChannelView::fresh()));
    }

    /// Removes the channel of `job_id`, and says whether there was one. Its
    /// receivers find the channel closed once they have read what is left
    /// for them.
    pub fn evict(&mut self, job_id: &str) -> (r: bool)
        ensures
            r == old(self)@.contains_key(job_id@),
            final(self)@ == old(self)@.remove(job_id@),
    {
        let taken = self.channels.remove(job_id);
        assert(self@ =~= old(self)@.remove(job_id@));
        taken.is_some()
    }

    /// Sends `event` on the channel of `job_id`, and says whether the job
    /// has a channel. Without one nothing happens.
    pub fn publish(&mut self, job_id: &str, event: SseEvent) -> (r: bool)
        ensures
            r == old(self)@.contains_key(job_id@),
            final(self)@ == if r {
                old(self)@.insert(job_id@, old(self)@[job_id@].published(event@))
            } else {
                old(self)@
            },
    {
        match self.channels.remove(job_id) {
            Some(channel) => {
                let mut channel = channel;
                channel.publish(event);
                let _ = self.channels.insert(job_id.to_string(), channel);
                assert(self@ =~= old(self)@.insert(job_id@, old(self)@[job_id@].published(event@)));
                true
            },
            None => {
                assert(self@ =~= old(self)@);
                false
            },
        }
    }

    /// A new receiver of the channel of `job_id`; `None` if the job has no
    /// channel.
    pub fn subscribe(&self, job_id: &str) -> (r: Option<tokio::sync::broadcast::Receiver<SseEvent>>)
        ensures
            r is Some == self@.contains_key(job_id@),
    {
        match self.channels.get(job_id) {
            Some(channel) => Some(channel.subscribe()),
            None => None,
        }
    }
}

} // verus!
