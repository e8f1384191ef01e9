//! The events a worker logs and the updates they are turned into.
use vstd::prelude::*;

verus! {

/// By how much an update changes the count of a record.
pub type Diff = i64;

/// An operator was created.
#[derive(Clone, Debug, PartialEq, Eq)]
pub struct OperatesEvent {
    /// The worker-unique id of the operator.
    pub id: usize,
    /// The path of the operator from the root scope.
    pub addr: Vec<usize>,
    /// The name of the operator.
    pub name: String,
}

/// The mathematical value of an [`OperatesEvent`].
pub struct OperatesView {
    pub id: usize,
    pub addr: Seq<usize>,
    pub name: Seq<char>,
}

impl View for OperatesEvent {
    type V = OperatesView;

    open spec fn view(&self) -> OperatesView {
        OperatesView { id: self.id, addr: self.addr@, name: self.name@ }
    }
}

/// A channel between two operators was created.
#[derive(Clone, Debug, PartialEq, Eq)]
pub struct ChannelsEvent {
    /// The worker-unique id of the channel.
    pub id: usize,
    /// The path of the scope that holds the channel.
    pub scope_addr: Vec<usize>,
    /// The operator the channel leaves from.
    pub source_node: usize,
    /// The port of that operator.
    pub source_port: usize,
    /// The operator the channel leads to.
    pub target_node: usize,
    /// The port of that operator.
    pub target_port: usize,
}

/// The mathematical value of a [`ChannelsEvent`].
pub struct ChannelsView {
    pub id: usize,
    pub scope_addr: Seq<usize>,
    pub source_node: usize,
    pub source_port: usize,
    pub target_node: usize,
    pub target_port: usize,
}

impl View for ChannelsEvent {
    type V = ChannelsView;

    open spec fn view(&self) -> ChannelsView {
        ChannelsView {
            id: self.id,
            scope_addr: self.scope_addr@,
            source_node: self.source_node,
            source_port: self.source_port,
            target_node: self.target_node,
            target_port: self.target_port,
        }
    }
}

impl DeepView for ChannelsEvent {
    type V = ChannelsView;

    open spec fn deep_view(&self) -> ChannelsView {
        self@
    }
}

/// Messages were sent or received over a channel.
#[derive(Clone, Copy, Debug, PartialEq, Eq, Structural)]
pub struct MessagesEvent {
    /// Whether the messages were sent, not received.
    pub is_send: bool,
    /// The id of the channel.
    pub channel: usize,
    /// The worker that sent.
    pub source: usize,
    /// The worker that received.
    pub target: usize,
    /// The number of messages.
    pub length: usize,
}

/// An event logged by a worker.
#[derive(Clone, Debug, PartialEq, Eq)]
pub enum TimelyEvent {
    Operates(OperatesEvent),
    Channels(ChannelsEvent),
    /// The operator with the given id was shut down.
    Shutdown { id: usize },
    /// The worker parked, perhaps for a requested time in nanoseconds.
    Park { requested: Option<u128> },
    /// The worker woke up.
    Unpark,
    Messages(MessagesEvent),
    /// The operator with the given id was started or stopped.
    Schedule { id: usize, start: bool },
    /// An event that changes none of the collections.
    Other,
}

/// The mathematical value of a [`TimelyEvent`].
pub enum EventView {
    Operates(OperatesView),
    Channels(ChannelsView),
    Shutdown { id: usize },
    Park { requested: Option<u128> },
    Unpark,
    Messages(MessagesEvent),
    Schedule { id: usize, start: bool },
    Other,
}

impl View for TimelyEvent {
    type V = EventView;

    open spec fn view(&self) -> EventView {
        match *self {
            TimelyEvent::Operates(event) => EventView::Operates(event@),
            TimelyEvent::Channels(event) => EventView::Channels(event@),
            TimelyEvent::Shutdown { id } => EventView::Shutdown { id },
            TimelyEvent::Park { requested } => EventView::Park { requested },
            TimelyEvent::Unpark => EventView::Unpark,
            TimelyEvent::Messages(event) => EventView::Messages(event),
            TimelyEvent::Schedule { id, start } => EventView::Schedule { id, start },
            TimelyEvent::Other => EventView::Other,
        }
    }
}

/// A change to one of the collections that describe a worker.
#[derive(Clone, Debug, PartialEq, Eq)]
pub enum LogUpdate {
    /// An operator and its name.
    Operates { id: usize, worker: usize, name: String, diff: Diff },
    /// A channel and the ports it connects.
    Channels {
        id: usize,
        worker: usize,
        source_node: usize,
        source_port: usize,
        target_node: usize,
        target_port: usize,
        diff: Diff,
    },
    /// The address of an operator or channel.
    Addresses { id: usize, worker: usize, address: Vec<usize>, diff: Diff },
    /// A park of a worker, by the buckets of its duration and of the
    /// duration that was requested.
    Parks { worker: usize, duration: u128, requested: Option<u128>, diff: Diff },
    /// Messages sent over a channel from one worker to another.
    MessagesSent { channel: usize, source: usize, target: usize, diff: Diff },
    /// Messages received over a channel by one worker from another.
    MessagesReceived { channel: usize, source: usize, target: usize, diff: Diff },
    /// Time for which an operator was scheduled, in nanoseconds.
    SchedulesDuration { id: usize, worker: usize, diff: Diff },
    /// A scheduling of an operator, by the bucket of its duration.
    SchedulesHistogram { id: usize, worker: usize, duration: u128, diff: Diff },
}

/// The mathematical value of a [`LogUpdate`].
pub enum UpdateView {
    Operates { id: usize, worker: usize, name: Seq<char>, diff: Diff },
    Channels {
        id: usize,
        worker: usize,
        source_node: usize,
        source_port: usize,
        target_node: usize,
        target_port: usize,
        diff: Diff,
    },
    Addresses { id: usize, worker: usize, address: Seq<usize>, diff: Diff },
    Parks { worker: usize, duration: u128, requested: Option<u128>, diff: Diff },
    MessagesSent { channel: usize, source: usize, target: usize, diff: Diff },
    MessagesReceived { channel: usize, source: usize, target: usize, diff: Diff },
    SchedulesDuration { id: usize, worker: usize, diff: Diff },
    SchedulesHistogram { id: usize, worker: usize, duration: u128, diff: Diff },
}

impl View for LogUpdate {
    type V = UpdateView;

    open spec fn view(&self) -> UpdateView {
        match *self {
            LogUpdate::Operates { id, worker, name, diff } => UpdateView::Operates {
                id,
                worker,
                name: name@,
                diff,
            },
            LogUpdate::Channels {
                id,
                worker,
                source_node,
                source_port,
                target_node,
                target_port,
                diff,
            } => UpdateView::Channels {
                id,
                worker,
                source_node,
                source_port,
                target_node,
                target_port,
                diff,
            },
            LogUpdate::Addresses { id, worker, address, diff } => UpdateView::Addresses {
                id,
                worker,
                address: address@,
                diff,
            },
            LogUpdate::Parks { worker, duration, requested, diff } => UpdateView::Parks {
                worker,
                duration,
                requested,
                diff,
            },
            LogUpdate::MessagesSent { channel, source, target, diff } => UpdateView::MessagesSent {
                channel,
                source,
                target,
                diff,
            },
            LogUpdate::MessagesReceived {
                channel,
                source,
                target,
                diff,
            } => UpdateView::MessagesReceived { channel, source, target, diff },
            LogUpdate::SchedulesDuration { id, worker, diff } => UpdateView::SchedulesDuration {
                id,
                worker,
                diff,
            },
            LogUpdate::SchedulesHistogram {
                id,
                worker,
                duration,
                diff,
            } => UpdateView::SchedulesHistogram { id, worker, duration, diff },
        }
    }
}

impl DeepView for LogUpdate {
    type V = UpdateView;

    open spec fn deep_view(&self) -> UpdateView {
        self@
    }
}

/// Why an event could not be turned into updates.
#[derive(Clone, Copy, Debug, PartialEq, Eq, Structural)]
pub enum DemuxError {
    /// A channel was announced without the address of its scope.
    EmptyScopeAddress,
    /// A worker woke up that was not known to be parked.
    ParkDataMissing,
    /// An operator was stopped that was not known to be started.
    StartEventAbsent,
    /// An interval ends before it starts.
    ClockWentBackwards,
    /// A duration is too long to be counted.
    DurationTooLong,
    /// More messages than can be counted.
    LengthTooLarge,
    /// Messages for a worker that is no peer.
    PeerOutOfRange,
    /// A count has grown out of its range.
    CountOverflow,
}

/// The end of the interval a time falls in, in milliseconds: the next
/// multiple of the interval's length after the time. An interval is at
/// least a millisecond long.
pub open spec fn interval_end(time_ms: nat, interval_ms: nat) -> nat {
    if interval_ms == 0 {
        time_ms + 1
    } else {
        (time_ms / interval_ms + 1) * interval_ms
    }
}

/// Rounds a time up to the end of its interval, or hands back nothing when
/// that end is beyond what a timestamp can hold.
pub fn round_up_to_interval(time_ms: u128, interval_ms: u128) -> (end: Option<u64>)
    ensures
        match end {
            Some(end) => end == interval_end(time_ms as nat, interval_ms as nat),
            None => interval_end(time_ms as nat, interval_ms as nat) > u64::MAX,
        },
{
    let length: u128 = if interval_ms == 0 {
        1
    } else {
        interval_ms
    };
    let limit: u128 = 0xffff_ffff_ffff_ffff;
    let whole: u128 = time_ms / length;
    assert(interval_end(time_ms as nat, interval_ms as nat) == (whole + 1) * length) by {
        if interval_ms == 0 {
            assert(time_ms / 1 == time_ms);
            assert((time_ms + 1) * 1 == time_ms + 1);
        }
    }
    if whole >= limit || length > limit {
        assert((whole + 1) * length > limit) by (nonlinear_arith)
            requires
                length >= 1,
                whole >= limit || length > limit,
                whole >= 0,
        ;
        return None;
    }
    assert((whole + 1) * length <= limit * limit) by (nonlinear_arith)
        requires
            whole + 1 <= limit,
            length <= limit,
            whole >= 0,
            length >= 1,
    ;
    let end: u128 = (whole + 1) * length;
    if end > limit {
        None
    } else {
        Some(end as u64)
    }
}

} // verus!
