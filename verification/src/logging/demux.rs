//! The bookkeeping that turns logged events into updates.
//!
//! What is announced is remembered, so that it can be taken back when the
//! operator that it belongs to is shut down: the operator itself, the
//! channels of its dataflow, the messages counted on them, and the times
//! for which it was scheduled.
use vstd::prelude::*;
use crate::logging::buckets::{bucket_of, next_power_of_two, power_of_two};
use crate::logging::events::{
    ChannelsEvent, ChannelsView, DemuxError, Diff, EventView, LogUpdate, MessagesEvent,
    OperatesEvent, OperatesView, TimelyEvent, UpdateView,
};
use crate::table::{Key, Table};

verus! {

/// The number of buckets in which the schedulings of an operator are
/// counted.
pub const HISTOGRAM_BUCKETS: usize = 64;

/// The mathematical value of a [`Demux`].
pub struct DemuxView {
    /// The number of workers.
    pub peers: usize,
    /// The operators that were announced, by id and worker.
    pub operates: Map<Key, OperatesView>,
    /// The channels that were announced, by dataflow and worker.
    pub channels: Map<Key, Seq<ChannelsView>>,
    /// When each parked worker parked, and for how long it asked to.
    pub parks: Map<Key, (u128, Option<u128>)>,
    /// When each running operator was started, by id and worker.
    pub schedules_stash: Map<Key, u128>,
    /// The messages sent, by channel and sender, for each receiver.
    pub messages_sent: Map<Key, Seq<Diff>>,
    /// The messages received, by channel and receiver, for each sender.
    pub messages_received: Map<Key, Seq<Diff>>,
    /// How often and for how long each operator was scheduled, by the
    /// bucket of the duration.
    pub schedules: Map<Key, Seq<(i64, Diff)>>,
}

/// Whether message counts are kept for every peer and none is negative.
pub open spec fn counts_in_order(counts: Seq<Diff>, peers: usize) -> bool {
    &&& counts.len() == peers
    &&& forall|i: int| 0 <= i < counts.len() ==> 0 <= #[trigger] counts[i]
}

/// Whether scheduling counts are kept for every bucket and none is
/// negative.
pub open spec fn buckets_in_order(buckets: Seq<(i64, Diff)>) -> bool {
    &&& buckets.len() == HISTOGRAM_BUCKETS
    &&& forall|i: int| 0 <= i < buckets.len() ==> 0 <= (#[trigger] buckets[i]).0 && 0 <= buckets[i].1
}

/// The updates that take back the messages counted on a channel.
pub open spec fn message_retractions(
    is_send: bool,
    channel: usize,
    worker: usize,
    counts: Seq<Diff>,
) -> Seq<UpdateView> {
    Seq::new(
        counts.len(),
        |i: int|
            if is_send {
                UpdateView::MessagesSent {
                    channel,
                    source: worker,
                    target: i as usize,
                    diff: (-counts[i]) as Diff,
                }
            } else {
                UpdateView::MessagesReceived {
                    channel,
                    source: i as usize,
                    target: worker,
                    diff: (-counts[i]) as Diff,
                }
            },
    )
}

/// The updates that take back the schedulings of an operator: for every
/// bucket that was hit, the time spent in it and the number of hits.
pub open spec fn schedule_retractions(id: usize, worker: usize, buckets: Seq<(i64, Diff)>) -> Seq<
    UpdateView,
>
    decreases buckets.len(),
{
    if buckets.len() == 0 {
        Seq::empty()
    } else {
        let earlier = schedule_retractions(id, worker, buckets.drop_last());
        let bucket = (buckets.len() - 1) as nat;
        if buckets.last().0 != 0 {
            earlier + seq![
                UpdateView::SchedulesDuration { id, worker, diff: (-buckets.last().1) as Diff },
                UpdateView::SchedulesHistogram {
                    id,
                    worker,
                    duration: power_of_two(bucket) as u128,
                    diff: (-buckets.last().0) as Diff,
                },
            ]
        } else {
            earlier
        }
    }
}

/// The updates that announce a channel, or take it back.
pub open spec fn channel_updates(worker: usize, channel: ChannelsView, diff: Diff) -> (
    UpdateView,
    UpdateView,
) {
    (
        UpdateView::Channels {
            id: channel.id,
            worker,
            source_node: channel.source_node,
            source_port: channel.source_port,
            target_node: channel.target_node,
            target_port: channel.target_port,
            diff,
        },
        UpdateView::Addresses { id: channel.id, worker, address: channel.scope_addr, diff },
    )
}

/// What becomes of the message counts when the channels of a dataflow are
/// taken back, and the updates that do it.
pub struct ChannelRetractions {
    pub updates: Seq<UpdateView>,
    pub messages_sent: Map<Key, Seq<Diff>>,
    pub messages_received: Map<Key, Seq<Diff>>,
}

/// Takes back the channels of a dataflow, in the order in which they were
/// announced: for each, the channel itself, the messages sent and received
/// on it, whose counts are dropped, and its address.
pub open spec fn channel_retractions(
    worker: usize,
    channels: Seq<ChannelsView>,
    messages_sent: Map<Key, Seq<Diff>>,
    messages_received: Map<Key, Seq<Diff>>,
) -> ChannelRetractions
    decreases channels.len(),
{
    if channels.len() == 0 {
        ChannelRetractions { updates: Seq::empty(), messages_sent, messages_received }
    } else {
        let earlier = channel_retractions(
            worker,
            channels.drop_last(),
            messages_sent,
            messages_received,
        );
        let channel = channels.last();
        let key = (channel.id, worker);
        let sent = if earlier.messages_sent.contains_key(key) {
            message_retractions(true, channel.id, worker, earlier.messages_sent[key])
        } else {
            Seq::empty()
        };
        let received = if earlier.messages_received.contains_key(key) {
            message_retractions(false, channel.id, worker, earlier.messages_received[key])
        } else {
            Seq::empty()
        };
        ChannelRetractions {
            updates: earlier.updates + seq![channel_updates(worker, channel, -1i64).0] + sent
                + received + seq![channel_updates(worker, channel, -1i64).1],
            messages_sent: earlier.messages_sent.remove(key),
            messages_received: earlier.messages_received.remove(key),
        }
    }
}

impl DemuxView {
    /// The state in which nothing has been announced.
    pub open spec fn empty(peers: usize) -> DemuxView {
        DemuxView {
            peers,
            operates: Map::empty(),
            channels: Map::empty(),
            parks: Map::empty(),
            schedules_stash: Map::empty(),
            messages_sent: Map::empty(),
            messages_received: Map::empty(),
            schedules: Map::empty(),
        }
    }

    /// Whether every count that is kept is in order.
    pub open spec fn well_formed(self) -> bool {
        &&& forall|key: Key| #[trigger]
            self.messages_sent.contains_key(key) ==> counts_in_order(
                self.messages_sent[key],
                self.peers,
            )
        &&& forall|key: Key| #[trigger]
            self.messages_received.contains_key(key) ==> counts_in_order(
                self.messages_received[key],
                self.peers,
            )
        &&& forall|key: Key| #[trigger]
            self.schedules.contains_key(key) ==> buckets_in_order(self.schedules[key])
    }

    /// An operator is announced: it is remembered, and it and its address
    /// are added.
    pub open spec fn operates(self, worker: usize, event: OperatesView) -> (
        DemuxView,
        Seq<UpdateView>,
    ) {
        (
            DemuxView { operates: self.operates.insert((event.id, worker), event), ..self },
            seq![
                UpdateView::Operates { id: event.id, worker, name: event.name, diff: 1 },
                UpdateView::Addresses { id: event.id, worker, address: event.addr, diff: 1 },
            ],
        )
    }

    /// The channels remembered for a dataflow.
    pub open spec fn channels_of(self, key: Key) -> Seq<ChannelsView> {
        if self.channels.contains_key(key) {
            self.channels[key]
        } else {
            Seq::empty()
        }
    }

    /// A channel is announced: it is remembered with the dataflow it
    /// belongs to, which is the first step of its scope's address, and it
    /// and its address are added.
    pub open spec fn channel(self, worker: usize, event: ChannelsView) -> Result<
        (DemuxView, Seq<UpdateView>),
        DemuxError,
    > {
        if event.scope_addr.len() == 0 {
            Err(DemuxError::EmptyScopeAddress)
        } else {
            let key = (event.scope_addr[0], worker);
            Ok(
                (
                    DemuxView {
                        channels: self.channels.insert(key, self.channels_of(key).push(event)),
                        ..self
                    },
                    seq![
                        channel_updates(worker, event, 1).0,
                        channel_updates(worker, event, 1).1,
                    ],
                ),
            )
        }
    }

    /// A worker parks: the time and the duration it asked for are
    /// remembered.
    pub open spec fn park(self, worker: usize, time_ns: u128, requested: Option<u128>) -> (
        DemuxView,
        Seq<UpdateView>,
    ) {
        (
            DemuxView { parks: self.parks.insert((worker, 0), (time_ns, requested)), ..self },
            Seq::empty(),
        )
    }

    /// A worker wakes up: the park is forgotten and added by the buckets of
    /// its duration and of the duration that was asked for.
    pub open spec fn unpark(self, worker: usize, time_ns: u128) -> Result<
        (DemuxView, Seq<UpdateView>),
        DemuxError,
    > {
        match park_ended(self.parks, worker, time_ns) {
            Ok(update) => Ok(
                (DemuxView { parks: self.parks.remove((worker, 0usize)), ..self }, seq![update]),
            ),
            Err(error) => Err(error),
        }
    }
}

impl DemuxView {
    /// Messages are logged: they are counted with their channel and the
    /// worker that logged them, and added.
    pub open spec fn messages(self, event: MessagesEvent) -> Result<
        (DemuxView, Seq<UpdateView>),
        DemuxError,
    > {
        let key = messages_key(event);
        if event.is_send {
            match messages_counted(counts_of(self.messages_sent, key, self.peers), event) {
                Ok((counts, update)) => Ok(
                    (
                        DemuxView { messages_sent: self.messages_sent.insert(key, counts), ..self },
                        seq![update],
                    ),
                ),
                Err(error) => Err(error),
            }
        } else {
            match messages_counted(counts_of(self.messages_received, key, self.peers), event) {
                Ok((counts, update)) => Ok(
                    (
                        DemuxView {
                            messages_received: self.messages_received.insert(key, counts),
                            ..self
                        },
                        seq![update],
                    ),
                ),
                Err(error) => Err(error),
            }
        }
    }

    /// An operator is started or stopped. The start is remembered; with the
    /// stop the scheduling is counted and added.
    pub open spec fn schedule(self, worker: usize, time_ns: u128, id: usize, start: bool) -> Result<
        (DemuxView, Seq<UpdateView>),
        DemuxError,
    > {
        let key = (id, worker);
        if start {
            Ok(
                (
                    DemuxView { schedules_stash: self.schedules_stash.insert(key, time_ns), ..self },
                    Seq::empty(),
                ),
            )
        } else {
            match schedule_stopped(
                begun_at(self.schedules_stash, key),
                buckets_of(self.schedules, key),
                id,
                worker,
                time_ns,
            ) {
                Ok((buckets, updates)) => Ok(
                    (
                        DemuxView {
                            schedules_stash: self.schedules_stash.remove(key),
                            schedules: self.schedules.insert(key, buckets),
                            ..self
                        },
                        updates,
                    ),
                ),
                Err(error) => Err(error),
            }
        }
    }

    /// An operator is shut down. If it was announced, it is forgotten and
    /// taken back, with everything that was counted for it: its operator
    /// record, its schedulings, and, if it is a dataflow, which is an
    /// operator whose address has one step, the channels of the dataflow
    /// with their messages; last, its address. An operator that was never
    /// announced changes nothing.
    pub open spec fn shutdown(self, worker: usize, id: usize) -> (DemuxView, Seq<UpdateView>) {
        let key = (id, worker);
        if !self.operates.contains_key(key) {
            (self, Seq::empty())
        } else {
            let operator = self.operates[key];
            let own = (operator.id, worker);
            let schedulings = if self.schedules.contains_key(own) {
                schedule_retractions(operator.id, worker, self.schedules[own])
            } else {
                Seq::empty()
            };
            let is_dataflow = operator.addr.len() == 1;
            let dataflow = (operator.addr[0], worker);
            let taken = if is_dataflow && self.channels.contains_key(dataflow) {
                channel_retractions(
                    worker,
                    self.channels[dataflow],
                    self.messages_sent,
                    self.messages_received,
                )
            } else {
                ChannelRetractions {
                    updates: Seq::empty(),
                    messages_sent: self.messages_sent,
                    messages_received: self.messages_received,
                }
            };
            (
                DemuxView {
                    operates: self.operates.remove(key),
                    schedules: self.schedules.remove(own),
                    channels: if is_dataflow {
                        self.channels.remove(dataflow)
                    } else {
                        self.channels
                    },
                    messages_sent: taken.messages_sent,
                    messages_received: taken.messages_received,
                    ..self
                },
                seq![
                    UpdateView::Operates {
                        id: operator.id,
                        worker,
                        name: operator.name,
                        diff: -1i64,
                    },
                ] + schedulings + taken.updates + seq![
                    UpdateView::Addresses {
                        id: operator.id,
                        worker,
                        address: operator.addr,
                        diff: -1i64,
                    },
                ],
            )
        }
    }

    /// What an event logged by `worker` at `time_ns` does to the state, and
    /// the updates it is turned into.
    pub open spec fn step(self, worker: usize, time_ns: u128, event: EventView) -> Result<
        (DemuxView, Seq<UpdateView>),
        DemuxError,
    > {
        match event {
            EventView::Operates(event) => Ok(self.operates(worker, event)),
            EventView::Channels(event) => self.channel(worker, event),
            EventView::Shutdown { id } => Ok(self.shutdown(worker, id)),
            EventView::Park { requested } => Ok(self.park(worker, time_ns, requested)),
            EventView::Unpark => self.unpark(worker, time_ns),
            EventView::Messages(event) => self.messages(event),
            EventView::Schedule { id, start } => self.schedule(worker, time_ns, id, start),
            EventView::Other => Ok((self, Seq::empty())),
        }
    }
}

/// The bound of the bucket of a duration.
pub open spec fn bucket_bound(duration: u128) -> u128 {
    power_of_two(bucket_of(duration as nat)) as u128
}

/// The update that adds the park of a worker that wakes up at `time_ns`.
/// The worker must be known to be parked, not after it wakes up, and the
/// durations must not be too long for their buckets.
pub open spec fn park_ended(parks: Map<Key, (u128, Option<u128>)>, worker: usize, time_ns: u128) -> Result<
    UpdateView,
    DemuxError,
> {
    let key = (worker, 0usize);
    if !parks.contains_key(key) {
        Err(DemuxError::ParkDataMissing)
    } else if time_ns < parks[key].0 {
        Err(DemuxError::ClockWentBackwards)
    } else if time_ns - parks[key].0 > power_of_two(127) {
        Err(DemuxError::DurationTooLong)
    } else {
        match parks[key].1 {
            Some(requested) => if requested > power_of_two(127) {
                Err(DemuxError::DurationTooLong)
            } else {
                Ok(
                    UpdateView::Parks {
                        worker,
                        duration: bucket_bound((time_ns - parks[key].0) as u128),
                        requested: Some(bucket_bound(requested)),
                        diff: 1,
                    },
                )
            },
            None => Ok(
                UpdateView::Parks {
                    worker,
                    duration: bucket_bound((time_ns - parks[key].0) as u128),
                    requested: None,
                    diff: 1,
                },
            ),
        }
    }
}

/// The state of the bookkeeping.
pub struct Demux {
    peers: usize,
    operates: Table<OperatesEvent>,
    channels: Table<Vec<ChannelsEvent>>,
    parks: Table<(u128, Option<u128>)>,
    schedules_stash: Table<u128>,
    messages_sent: Table<Vec<Diff>>,
    messages_received: Table<Vec<Diff>>,
    schedules: Table<Vec<(i64, Diff)>>,
}

/// The announced operators as values.
spec fn operates_view(table: Map<Key, OperatesEvent>) -> Map<Key, OperatesView> {
    table.map_values(|event: OperatesEvent| event@)
}

/// The announced channels as values.
spec fn channels_view(table: Map<Key, Vec<ChannelsEvent>>) -> Map<Key, Seq<ChannelsView>> {
    table.map_values(|events: Vec<ChannelsEvent>| events.deep_view())
}

/// Message counts as values.
spec fn counts_view(table: Map<Key, Vec<Diff>>) -> Map<Key, Seq<Diff>> {
    table.map_values(|counts: Vec<Diff>| counts@)
}

/// Scheduling counts as values.
spec fn buckets_view(table: Map<Key, Vec<(i64, Diff)>>) -> Map<Key, Seq<(i64, Diff)>> {
    table.map_values(|buckets: Vec<(i64, Diff)>| buckets@)
}

impl View for Demux {
    type V = DemuxView;

    closed spec fn view(&self) -> DemuxView {
        DemuxView {
            peers: self.peers,
            operates: operates_view(self.operates@),
            channels: channels_view(self.channels@),
            parks: self.parks@,
            schedules_stash: self.schedules_stash@,
            messages_sent: counts_view(self.messages_sent@),
            messages_received: counts_view(self.messages_received@),
            schedules: buckets_view(self.schedules@),
        }
    }
}

fn copy_address(address: &Vec<usize>) -> (copy: Vec<usize>)
    ensures
        copy@ == address@,
{
    let copy = address.clone();
    assert(copy@ =~= address@);
    copy
}

fn copy_channel(channel: &ChannelsEvent) -> (copy: ChannelsEvent)
    ensures
        copy@ == channel@,
{
    ChannelsEvent {
        id: channel.id,
        scope_addr: copy_address(&channel.scope_addr),
        source_node: channel.source_node,
        source_port: channel.source_port,
        target_node: channel.target_node,
        target_port: channel.target_port,
    }
}

fn handle_operates(operates: &mut Table<OperatesEvent>, worker: usize, event: OperatesEvent) -> (updates:
    Vec<LogUpdate>)
    ensures
        operates_view(final(operates)@) == operates_view(old(operates)@).insert(
            (event.id, worker),
            event@,
        ),
        updates.deep_view() == seq![
            UpdateView::Operates { id: event.id, worker, name: event.name@, diff: 1 },
            UpdateView::Addresses { id: event.id, worker, address: event.addr@, diff: 1 },
        ],
{
    let key = (event.id, worker);
    let stored = OperatesEvent {
        id: event.id,
        addr: copy_address(&event.addr),
        name: event.name.clone(),
    };
    operates.insert(key, stored);
    assert(operates_view(operates@) =~= operates_view(old(operates)@).insert(key, event@));
    let mut updates: Vec<LogUpdate> = Vec::new();
    updates.push(LogUpdate::Operates { id: event.id, worker, name: event.name, diff: 1 });
    updates.push(LogUpdate::Addresses { id: event.id, worker, address: event.addr, diff: 1 });
    assert(updates.deep_view() =~= seq![
        UpdateView::Operates { id: event.id, worker, name: event.name@, diff: 1 },
        UpdateView::Addresses { id: event.id, worker, address: event.addr@, diff: 1 },
    ]);
    updates
}

fn handle_channels(channels: &mut Table<Vec<ChannelsEvent>>, worker: usize, event: ChannelsEvent) -> (r:
    Result<Vec<LogUpdate>, DemuxError>)
    ensures
        match r {
            Ok(updates) => {
                let key = (event.scope_addr@[0], worker);
                let before = channels_view(old(channels)@);
                &&& event.scope_addr@.len() > 0
                &&& channels_view(final(channels)@) == before.insert(
                    key,
                    (if before.contains_key(key) {
                        before[key]
                    } else {
                        Seq::empty()
                    }).push(event@),
                )
                &&& updates.deep_view() == seq![
                    channel_updates(worker, event@, 1).0,
                    channel_updates(worker, event@, 1).1,
                ]
            },
            Err(error) => {
                &&& event.scope_addr@.len() == 0
                &&& error == DemuxError::EmptyScopeAddress
                &&& final(channels)@ == old(channels)@
            },
        },
{
    if event.scope_addr.len() == 0 {
        return Err(DemuxError::EmptyScopeAddress);
    }
    let key = (event.scope_addr[0], worker);
    let ghost before = channels_view(channels@);
    let mut listed = match channels.remove(key) {
        Some(listed) => listed,
        None => Vec::new(),
    };
    let ghost earlier = listed.deep_view();
    assert(earlier =~= if before.contains_key(key) {
        before[key]
    } else {
        Seq::empty()
    });
    listed.push(copy_channel(&event));
    assert(listed.deep_view() =~= earlier.push(event@));
    channels.insert(key, listed);
    assert(channels_view(channels@) =~= before.insert(key, earlier.push(event@)));
    let mut updates: Vec<LogUpdate> = Vec::new();
    updates.push(
        LogUpdate::Channels {
            id: event.id,
            worker,
            source_node: event.source_node,
            source_port: event.source_port,
            target_node: event.target_node,
            target_port: event.target_port,
            diff: 1,
        },
    );
    updates.push(LogUpdate::Addresses { id: event.id, worker, address: event.scope_addr, diff: 1 });
    assert(updates.deep_view() =~= seq![
        channel_updates(worker, event@, 1).0,
        channel_updates(worker, event@, 1).1,
    ]);
    Ok(updates)
}

fn handle_unpark(parks: &mut Table<(u128, Option<u128>)>, worker: usize, time_ns: u128) -> (r: Result<
    Vec<LogUpdate>,
    DemuxError,
>)
    ensures
        match r {
            Ok(updates) => {
                &&& park_ended(old(parks)@, worker, time_ns) is Ok
                &&& updates.deep_view() == seq![park_ended(old(parks)@, worker, time_ns)->Ok_0]
                &&& final(parks)@ == old(parks)@.remove((worker, 0usize))
            },
            Err(error) => {
                &&& park_ended(old(parks)@, worker, time_ns) == Err::<UpdateView, DemuxError>(error)
                &&& final(parks)@ == old(parks)@
            },
        },
{
    let key = (worker, 0usize);
    let (start_ns, requested) = match parks.get(key) {
        Some(parked) => *parked,
        None => {
            return Err(DemuxError::ParkDataMissing);
        },
    };
    if time_ns < start_ns {
        return Err(DemuxError::ClockWentBackwards);
    }
    let duration = match next_power_of_two(time_ns - start_ns) {
        Some((power, _)) => power,
        None => {
            return Err(DemuxError::DurationTooLong);
        },
    };
    let requested = match requested {
        Some(requested) => match next_power_of_two(requested) {
            Some((power, _)) => Some(power),
            None => {
                return Err(DemuxError::DurationTooLong);
            },
        },
        None => None,
    };
    parks.remove(key);
    let mut updates: Vec<LogUpdate> = Vec::new();
    updates.push(LogUpdate::Parks { worker, duration, requested, diff: 1 });
    assert(updates.deep_view() =~= seq![updates[0]@]);
    Ok(updates)
}

/// Appends an update.
fn push_update(updates: &mut Vec<LogUpdate>, update: LogUpdate)
    ensures
        final(updates).deep_view() == old(updates).deep_view().push(update@),
{
    updates.push(update);
    assert(updates.deep_view() =~= old(updates).deep_view().push(update@));
}

/// Counts of nothing, for every peer.
fn no_messages(peers: usize) -> (counts: Vec<Diff>)
    ensures
        counts@ == Seq::new(peers as nat, |i: int| 0i64),
{
    let mut counts: Vec<Diff> = Vec::new();
    let mut i: usize = 0;
    while i < peers
        invariant
            i <= peers,
            counts@ == Seq::new(i as nat, |i: int| 0i64),
        decreases peers - i,
    {
        counts.push(0);
        i += 1;
        assert(counts@ =~= Seq::new(i as nat, |i: int| 0i64));
    }
    counts
}

/// Counts of nothing, for every bucket.
fn no_schedules() -> (buckets: Vec<(i64, Diff)>)
    ensures
        buckets@ == Seq::new(HISTOGRAM_BUCKETS as nat, |i: int| (0i64, 0i64)),
{
    let mut buckets: Vec<(i64, Diff)> = Vec::new();
    let mut i: usize = 0;
    while i < HISTOGRAM_BUCKETS
        invariant
            i <= HISTOGRAM_BUCKETS,
            buckets@ == Seq::new(i as nat, |i: int| (0i64, 0i64)),
        decreases HISTOGRAM_BUCKETS - i,
    {
        buckets.push((0, 0));
        i += 1;
        assert(buckets@ =~= Seq::new(i as nat, |i: int| (0i64, 0i64)));
    }
    buckets
}

/// The counts kept under a key, or counts of nothing.
pub open spec fn counts_of(table: Map<Key, Seq<Diff>>, key: Key, peers: usize) -> Seq<Diff> {
    if table.contains_key(key) {
        table[key]
    } else {
        Seq::new(peers as nat, |i: int| 0i64)
    }
}

/// The key under which messages are counted: the channel and the worker
/// that logged them.
pub open spec fn messages_key(event: MessagesEvent) -> Key {
    if event.is_send {
        (event.channel, event.source)
    } else {
        (event.channel, event.target)
    }
}

/// The peer at the other end of the messages.
pub open spec fn messages_peer(event: MessagesEvent) -> usize {
    if event.is_send {
        event.target
    } else {
        event.source
    }
}

/// The counts after messages were logged, and the update that adds them.
/// The number of messages must be countable, the peer must be one, and the
/// count must stay in range.
pub open spec fn messages_counted(counts: Seq<Diff>, event: MessagesEvent) -> Result<
    (Seq<Diff>, UpdateView),
    DemuxError,
> {
    let peer = messages_peer(event) as int;
    if event.length > i64::MAX {
        Err(DemuxError::LengthTooLarge)
    } else if peer >= counts.len() {
        Err(DemuxError::PeerOutOfRange)
    } else if counts[peer] + event.length > i64::MAX {
        Err(DemuxError::CountOverflow)
    } else {
        Ok(
            (
                counts.update(peer, (counts[peer] + event.length) as Diff),
                if event.is_send {
                    UpdateView::MessagesSent {
                        channel: event.channel,
                        source: event.source,
                        target: event.target,
                        diff: event.length as Diff,
                    }
                } else {
                    UpdateView::MessagesReceived {
                        channel: event.channel,
                        source: event.source,
                        target: event.target,
                        diff: event.length as Diff,
                    }
                },
            ),
        )
    }
}

/// Whether every list of counts in a table is in order.
pub open spec fn all_counts_in_order(table: Map<Key, Seq<Diff>>, peers: usize) -> bool {
    forall|key: Key| #[trigger] table.contains_key(key) ==> counts_in_order(table[key], peers)
}

/// Whether every list of buckets in a table is in order.
pub open spec fn all_buckets_in_order(table: Map<Key, Seq<(i64, Diff)>>) -> bool {
    forall|key: Key| #[trigger] table.contains_key(key) ==> buckets_in_order(table[key])
}

fn handle_messages(table: &mut Table<Vec<Diff>>, peers: usize, event: MessagesEvent) -> (r: Result<
    Vec<LogUpdate>,
    DemuxError,
>)
    requires
        all_counts_in_order(counts_view(old(table)@), peers),
    ensures
        all_counts_in_order(counts_view(final(table)@), peers),
        ({
            let before = counts_view(old(table)@);
            let key = messages_key(event);
            let counted = messages_counted(counts_of(before, key, peers), event);
            match r {
                Ok(updates) => {
                    &&& counted is Ok
                    &&& counts_view(final(table)@) == before.insert(key, counted->Ok_0.0)
                    &&& updates.deep_view() == seq![counted->Ok_0.1]
                },
                Err(error) => {
                    &&& counted == Err::<(Seq<Diff>, UpdateView), DemuxError>(error)
                    &&& final(table)@ == old(table)@
                },
            }
        }),
{
    let (key, peer) = if event.is_send {
        ((event.channel, event.source), event.target)
    } else {
        ((event.channel, event.target), event.source)
    };
    let ghost before = counts_view(table@);
    if event.length as u128 > 0x7fff_ffff_ffff_ffff {
        return Err(DemuxError::LengthTooLarge);
    }
    let length: Diff = event.length as Diff;
    match table.get(key) {
        Some(counts) => {
            assert(before.contains_key(key) && before[key] == counts@);
            if peer >= counts.len() {
                return Err(DemuxError::PeerOutOfRange);
            }
            if counts[peer] > i64::MAX - length {
                return Err(DemuxError::CountOverflow);
            }
        },
        None => {
            assert(!before.contains_key(key));
            if peer >= peers {
                return Err(DemuxError::PeerOutOfRange);
            }
        },
    }
    let mut counts = match table.remove(key) {
        Some(counts) => counts,
        None => no_messages(peers),
    };
    let ghost earlier = counts@;
    assert(earlier == counts_of(before, key, peers));
    let sum: Diff = counts[peer] + length;
    counts.set(peer, sum);
    table.insert(key, counts);
    assert(counts_view(table@) =~= before.insert(key, earlier.update(peer as int, sum)));
    let mut updates: Vec<LogUpdate> = Vec::new();
    let update = if event.is_send {
        LogUpdate::MessagesSent {
            channel: event.channel,
            source: event.source,
            target: event.target,
            diff: length,
        }
    } else {
        LogUpdate::MessagesReceived {
            channel: event.channel,
            source: event.source,
            target: event.target,
            diff: length,
        }
    };
    push_update(&mut updates, update);
    assert(updates.deep_view() =~= seq![update@]);
    Ok(updates)
}

/// The buckets kept under a key, or buckets of nothing.
pub open spec fn buckets_of(table: Map<Key, Seq<(i64, Diff)>>, key: Key) -> Seq<(i64, Diff)> {
    if table.contains_key(key) {
        table[key]
    } else {
        Seq::new(HISTOGRAM_BUCKETS as nat, |i: int| (0i64, 0i64))
    }
}

/// The buckets after an operator that was started at `begun` is stopped at
/// `time_ns`, and the updates that add the scheduling: the time it took,
/// and one hit in the bucket of that time. The operator must be known to be
/// started, not after it is stopped; the time must be countable, and the
/// counts must stay in range.
pub open spec fn schedule_stopped(
    begun: Option<u128>,
    buckets: Seq<(i64, Diff)>,
    id: usize,
    worker: usize,
    time_ns: u128,
) -> Result<(Seq<(i64, Diff)>, Seq<UpdateView>), DemuxError> {
    match begun {
        None => Err(DemuxError::StartEventAbsent),
        Some(begun) => {
            let elapsed = time_ns - begun;
            let bucket = bucket_of(elapsed as nat) as int;
            if time_ns < begun {
                Err(DemuxError::ClockWentBackwards)
            } else if elapsed > i64::MAX || bucket >= buckets.len() {
                Err(DemuxError::DurationTooLong)
            } else if buckets[bucket].0 + 1 > i64::MAX || buckets[bucket].1 + elapsed > i64::MAX {
                Err(DemuxError::CountOverflow)
            } else {
                Ok(
                    (
                        buckets.update(
                            bucket,
                            ((buckets[bucket].0 + 1) as i64, (buckets[bucket].1 + elapsed) as Diff),
                        ),
                        seq![
                            UpdateView::SchedulesDuration { id, worker, diff: elapsed as Diff },
                            UpdateView::SchedulesHistogram {
                                id,
                                worker,
                                duration: power_of_two(bucket as nat) as u128,
                                diff: 1,
                            },
                        ],
                    ),
                )
            }
        },
    }
}

/// The time at which an operator was started, if it is known to be.
pub open spec fn begun_at(stash: Map<Key, u128>, key: Key) -> Option<u128> {
    if stash.contains_key(key) {
        Some(stash[key])
    } else {
        None
    }
}

fn handle_schedule_stop(
    stash: &mut Table<u128>,
    schedules: &mut Table<Vec<(i64, Diff)>>,
    id: usize,
    worker: usize,
    time_ns: u128,
) -> (r: Result<Vec<LogUpdate>, DemuxError>)
    requires
        all_buckets_in_order(buckets_view(old(schedules)@)),
    ensures
        all_buckets_in_order(buckets_view(final(schedules)@)),
        ({
            let key = (id, worker);
            let before = buckets_view(old(schedules)@);
            let stopped = schedule_stopped(
                begun_at(old(stash)@, key),
                buckets_of(before, key),
                id,
                worker,
                time_ns,
            );
            match r {
                Ok(updates) => {
                    &&& stopped is Ok
                    &&& final(stash)@ == old(stash)@.remove(key)
                    &&& buckets_view(final(schedules)@) == before.insert(key, stopped->Ok_0.0)
                    &&& updates.deep_view() == stopped->Ok_0.1
                },
                Err(error) => {
                    &&& stopped == Err::<(Seq<(i64, Diff)>, Seq<UpdateView>), DemuxError>(error)
                    &&& final(stash)@ == old(stash)@
                    &&& final(schedules)@ == old(schedules)@
                },
            }
        }),
{
    let key = (id, worker);
    let ghost before = buckets_view(schedules@);
    let begun = match stash.get(key) {
        Some(begun) => *begun,
        None => {
            return Err(DemuxError::StartEventAbsent);
        },
    };
    if time_ns < begun {
        return Err(DemuxError::ClockWentBackwards);
    }
    let elapsed_ns: u128 = time_ns - begun;
    if elapsed_ns > 0x7fff_ffff_ffff_ffff {
        return Err(DemuxError::DurationTooLong);
    }
    let elapsed: Diff = elapsed_ns as Diff;
    proof {
        crate::logging::buckets::power_of_two_is_bounded();
        crate::logging::buckets::bucket_is_least(elapsed_ns as nat, 63);
    }
    let (power, bucket) = match next_power_of_two(elapsed_ns) {
        Some(found) => found,
        None => {
            return Err(DemuxError::DurationTooLong);
        },
    };
    assert(bucket < HISTOGRAM_BUCKETS);
    match schedules.get(key) {
        Some(buckets) => {
            assert(before.contains_key(key) && before[key] == buckets@);
            let (count, duration) = buckets[bucket];
            if count == i64::MAX || duration > i64::MAX - elapsed {
                return Err(DemuxError::CountOverflow);
            }
        },
        None => {
            assert(!before.contains_key(key));
        },
    }
    stash.remove(key);
    let mut buckets = match schedules.remove(key) {
        Some(buckets) => buckets,
        None => no_schedules(),
    };
    let ghost earlier = buckets@;
    assert(earlier == buckets_of(before, key));
    let (count, duration) = buckets[bucket];
    let hit: (i64, Diff) = (count + 1, duration + elapsed);
    buckets.set(bucket, hit);
    schedules.insert(key, buckets);
    assert(buckets_view(schedules@) =~= before.insert(key, earlier.update(bucket as int, hit)));
    let mut updates: Vec<LogUpdate> = Vec::new();
    push_update(&mut updates, LogUpdate::SchedulesDuration { id, worker, diff: elapsed });
    push_update(
        &mut updates,
        LogUpdate::SchedulesHistogram { id, worker, duration: power, diff: 1 },
    );
    assert(updates.deep_view() =~= seq![
        UpdateView::SchedulesDuration { id, worker, diff: elapsed },
        UpdateView::SchedulesHistogram { id, worker, duration: power, diff: 1 },
    ]);
    Ok(updates)
}

/// Takes back the messages counted on a channel.
fn retract_messages(
    is_send: bool,
    channel: usize,
    worker: usize,
    counts: &Vec<Diff>,
    updates: &mut Vec<LogUpdate>,
)
    requires
        forall|i: int| 0 <= i < counts@.len() ==> 0 <= #[trigger] counts@[i],
    ensures
        final(updates).deep_view() == old(updates).deep_view() + message_retractions(
            is_send,
            channel,
            worker,
            counts@,
        ),
{
    let ghost base = updates.deep_view();
    let ghost all = message_retractions(is_send, channel, worker, counts@);
    let mut i: usize = 0;
    while i < counts.len()
        invariant
            i <= counts.len(),
            all == message_retractions(is_send, channel, worker, counts@),
            forall|i: int| 0 <= i < counts@.len() ==> 0 <= #[trigger] counts@[i],
            updates.deep_view() == base + all.take(i as int),
        decreases counts.len() - i,
    {
        let diff: Diff = -counts[i];
        let update = if is_send {
            LogUpdate::MessagesSent { channel, source: worker, target: i, diff }
        } else {
            LogUpdate::MessagesReceived { channel, source: i, target: worker, diff }
        };
        assert(update@ == all[i as int]);
        push_update(updates, update);
        assert(base + all.take(i as int + 1) =~= (base + all.take(i as int)).push(all[i as int]));
        i += 1;
    }
    assert(all.take(counts.len() as int) =~= all);
}

/// Takes back the schedulings of an operator.
fn retract_schedules(
    id: usize,
    worker: usize,
    buckets: &Vec<(i64, Diff)>,
    updates: &mut Vec<LogUpdate>,
)
    requires
        buckets_in_order(buckets@),
    ensures
        final(updates).deep_view() == old(updates).deep_view() + schedule_retractions(
            id,
            worker,
            buckets@,
        ),
{
    let ghost base = updates.deep_view();
    let mut power: u128 = 1;
    let mut i: usize = 0;
    assert(base + schedule_retractions(id, worker, buckets@.take(0)) =~= base);
    while i < buckets.len()
        invariant
            i <= buckets.len(),
            buckets_in_order(buckets@),
            power == power_of_two(i as nat),
            updates.deep_view() == base + schedule_retractions(id, worker, buckets@.take(i as int)),
        decreases buckets.len() - i,
    {
        let ghost earlier = schedule_retractions(id, worker, buckets@.take(i as int));
        let ghost next = buckets@.take(i as int + 1);
        proof {
            assert(next.drop_last() =~= buckets@.take(i as int));
            assert(next.last() == buckets@[i as int]);
            crate::logging::buckets::power_of_two_is_bounded();
            crate::logging::buckets::power_of_two_grows((i + 1) as nat, 64);
        }
        let (hits, elapsed) = buckets[i];
        if hits != 0 {
            push_update(updates, LogUpdate::SchedulesDuration { id, worker, diff: -elapsed });
            push_update(
                updates,
                LogUpdate::SchedulesHistogram { id, worker, duration: power, diff: -hits },
            );
            assert(updates.deep_view() =~= base + (earlier + seq![
                UpdateView::SchedulesDuration { id, worker, diff: (-elapsed) as Diff },
                UpdateView::SchedulesHistogram {
                    id,
                    worker,
                    duration: power_of_two(i as nat) as u128,
                    diff: (-hits) as Diff,
                },
            ]));
        }
        power = power * 2;
        i += 1;
    }
    assert(buckets@.take(buckets.len() as int) =~= buckets@);
}

/// Takes back the channels of a dataflow and drops the message counts that
/// were kept for them.
fn retract_channels(
    worker: usize,
    channels: &Vec<ChannelsEvent>,
    messages_sent: &mut Table<Vec<Diff>>,
    messages_received: &mut Table<Vec<Diff>>,
    peers: usize,
    updates: &mut Vec<LogUpdate>,
)
    requires
        all_counts_in_order(counts_view(old(messages_sent)@), peers),
        all_counts_in_order(counts_view(old(messages_received)@), peers),
    ensures
        all_counts_in_order(counts_view(final(messages_sent)@), peers),
        all_counts_in_order(counts_view(final(messages_received)@), peers),
        ({
            let taken = channel_retractions(
                worker,
                channels.deep_view(),
                counts_view(old(messages_sent)@),
                counts_view(old(messages_received)@),
            );
            &&& final(updates).deep_view() == old(updates).deep_view() + taken.updates
            &&& counts_view(final(messages_sent)@) == taken.messages_sent
            &&& counts_view(final(messages_received)@) == taken.messages_received
        }),
{
    let ghost base = updates.deep_view();
    let ghost all = channels.deep_view();
    let ghost sent = counts_view(messages_sent@);
    let ghost received = counts_view(messages_received@);
    let mut i: usize = 0;
    assert(base + channel_retractions(worker, all.take(0), sent, received).updates =~= base);
    while i < channels.len()
        invariant
            i <= channels.len(),
            all == channels.deep_view(),
            all_counts_in_order(counts_view(messages_sent@), peers),
            all_counts_in_order(counts_view(messages_received@), peers),
            updates.deep_view() == base + channel_retractions(
                worker,
                all.take(i as int),
                sent,
                received,
            ).updates,
            counts_view(messages_sent@) == channel_retractions(
                worker,
                all.take(i as int),
                sent,
                received,
            ).messages_sent,
            counts_view(messages_received@) == channel_retractions(
                worker,
                all.take(i as int),
                sent,
                received,
            ).messages_received,
        decreases channels.len() - i,
    {
        let ghost earlier = channel_retractions(worker, all.take(i as int), sent, received);
        let ghost next = all.take(i as int + 1);
        let channel = &channels[i];
        proof {
            assert(next.drop_last() =~= all.take(i as int));
            assert(next.last() == channel@);
        }
        let key = (channel.id, worker);
        push_update(
            updates,
            LogUpdate::Channels {
                id: channel.id,
                worker,
                source_node: channel.source_node,
                source_port: channel.source_port,
                target_node: channel.target_node,
                target_port: channel.target_port,
                diff: -1,
            },
        );
        let ghost sent_now = counts_view(messages_sent@);
        let ghost received_now = counts_view(messages_received@);
        match messages_sent.remove(key) {
            Some(counts) => {
                assert(sent_now.contains_key(key) && sent_now[key] == counts@);
                retract_messages(true, channel.id, worker, &counts, updates);
            },
            None => {
                assert(!sent_now.contains_key(key));
            },
        }
        assert(counts_view(messages_sent@) =~= sent_now.remove(key));
        match messages_received.remove(key) {
            Some(counts) => {
                assert(received_now.contains_key(key) && received_now[key] == counts@);
                retract_messages(false, channel.id, worker, &counts, updates);
            },
            None => {
                assert(!received_now.contains_key(key));
            },
        }
        assert(counts_view(messages_received@) =~= received_now.remove(key));
        push_update(
            updates,
            LogUpdate::Addresses {
                id: channel.id,
                worker,
                address: copy_address(&channel.scope_addr),
                diff: -1,
            },
        );
        assert(updates.deep_view() =~= base + channel_retractions(
            worker,
            next,
            sent,
            received,
        ).updates);
        i += 1;
    }
    assert(all.take(channels.len() as int) =~= all);
}

/// Forgets an operator and takes back what was counted for it.
fn handle_shutdown(
    operates: &mut Table<OperatesEvent>,
    schedules: &mut Table<Vec<(i64, Diff)>>,
    channels: &mut Table<Vec<ChannelsEvent>>,
    messages_sent: &mut Table<Vec<Diff>>,
    messages_received: &mut Table<Vec<Diff>>,
    peers: usize,
    worker: usize,
    id: usize,
) -> (updates: Vec<LogUpdate>)
    requires
        all_buckets_in_order(buckets_view(old(schedules)@)),
        all_counts_in_order(counts_view(old(messages_sent)@), peers),
        all_counts_in_order(counts_view(old(messages_received)@), peers),
    ensures
        all_buckets_in_order(buckets_view(final(schedules)@)),
        all_counts_in_order(counts_view(final(messages_sent)@), peers),
        all_counts_in_order(counts_view(final(messages_received)@), peers),
        ({
            let before = DemuxView {
                peers,
                operates: operates_view(old(operates)@),
                channels: channels_view(old(channels)@),
                parks: Map::empty(),
                schedules_stash: Map::empty(),
                messages_sent: counts_view(old(messages_sent)@),
                messages_received: counts_view(old(messages_received)@),
                schedules: buckets_view(old(schedules)@),
            };
            let after = before.shutdown(worker, id).0;
            &&& operates_view(final(operates)@) == after.operates
            &&& channels_view(final(channels)@) == after.channels
            &&& counts_view(final(messages_sent)@) == after.messages_sent
            &&& counts_view(final(messages_received)@) == after.messages_received
            &&& buckets_view(final(schedules)@) == after.schedules
            &&& updates.deep_view() == before.shutdown(worker, id).1
        }),
{
    let ghost operators = operates_view(operates@);
    let ghost scheduled = buckets_view(schedules@);
    let ghost listed = channels_view(channels@);
    let mut updates: Vec<LogUpdate> = Vec::new();
    let operator = match operates.remove((id, worker)) {
        Some(operator) => operator,
        None => {
            assert(!operators.contains_key((id, worker)));
            assert(updates.deep_view() =~= Seq::empty());
            return updates;
        },
    };
    assert(operators.contains_key((id, worker)) && operators[(id, worker)] == operator@);
    assert(operates_view(operates@) =~= operators.remove((id, worker)));
    let own = (operator.id, worker);
    push_update(
        &mut updates,
        LogUpdate::Operates { id: operator.id, worker, name: operator.name, diff: -1 },
    );
    match schedules.remove(own) {
        Some(buckets) => {
            assert(scheduled.contains_key(own) && scheduled[own] == buckets@);
            retract_schedules(operator.id, worker, &buckets, &mut updates);
        },
        None => {
            assert(!scheduled.contains_key(own));
        },
    }
    assert(buckets_view(schedules@) =~= scheduled.remove(own));
    if operator.addr.len() == 1 {
        let dataflow = (operator.addr[0], worker);
        match channels.remove(dataflow) {
            Some(events) => {
                assert(listed.contains_key(dataflow) && listed[dataflow] == events.deep_view());
                retract_channels(
                    worker,
                    &events,
                    messages_sent,
                    messages_received,
                    peers,
                    &mut updates,
                );
            },
            None => {
                assert(!listed.contains_key(dataflow));
            },
        }
        assert(channels_view(channels@) =~= listed.remove(dataflow));
    }
    push_update(
        &mut updates,
        LogUpdate::Addresses { id: operator.id, worker, address: operator.addr, diff: -1 },
    );
    updates
}

impl Demux {
    #[verifier::type_invariant]
    spec fn counts_are_in_order(&self) -> bool {
        self@.well_formed()
    }

    /// The bookkeeping of a worker among `peers` workers, with nothing
    /// announced yet.
    pub fn new(peers: usize) -> (demux: Demux)
        ensures
            demux@ == DemuxView::empty(peers),
    {
        let demux = Demux {
            peers,
            operates: Table::new(),
            channels: Table::new(),
            parks: Table::new(),
            schedules_stash: Table::new(),
            messages_sent: Table::new(),
            messages_received: Table::new(),
            schedules: Table::new(),
        };
        assert(demux@.operates =~= Map::empty());
        assert(demux@.channels =~= Map::empty());
        assert(demux@.messages_sent =~= Map::empty());
        assert(demux@.messages_received =~= Map::empty());
        assert(demux@.schedules =~= Map::empty());
        demux
    }

    /// The number of workers.
    pub fn peers(&self) -> (peers: usize)
        ensures
            peers == self@.peers,
    {
        self.peers
    }

    /// Takes an event that `worker` logged at `time_ns`, brings the
    /// bookkeeping up to date and hands back the updates the event is
    /// turned into. An event that cannot be accounted for changes nothing.
    pub fn handle(self, worker: usize, time_ns: u128, event: TimelyEvent) -> (r: (
        Demux,
        Result<Vec<LogUpdate>, DemuxError>,
    ))
        ensures
            r.0@.well_formed(),
            match r.1 {
                Ok(updates) => self@.step(worker, time_ns, event@) == Ok::<
                    (DemuxView, Seq<UpdateView>),
                    DemuxError,
                >((r.0@, updates.deep_view())),
                Err(error) => self@.step(worker, time_ns, event@) == Err::<
                    (DemuxView, Seq<UpdateView>),
                    DemuxError,
                >(error) && r.0@ == self@,
            },
    {
        proof {
            use_type_invariant(&self);
        }
        let Demux {
            peers,
            mut operates,
            mut channels,
            mut parks,
            mut schedules_stash,
            mut messages_sent,
            mut messages_received,
            mut schedules,
        } = self;
        let result = match event {
            TimelyEvent::Operates(event) => Ok(handle_operates(&mut operates, worker, event)),
            TimelyEvent::Channels(event) => handle_channels(&mut channels, worker, event),
            TimelyEvent::Shutdown { id } => Ok(
                handle_shutdown(
                    &mut operates,
                    &mut schedules,
                    &mut channels,
                    &mut messages_sent,
                    &mut messages_received,
                    peers,
                    worker,
                    id,
                ),
            ),
            TimelyEvent::Park { requested } => {
                parks.insert((worker, 0), (time_ns, requested));
                let updates: Vec<LogUpdate> = Vec::new();
                assert(updates.deep_view() =~= Seq::empty());
                Ok(updates)
            },
            TimelyEvent::Unpark => handle_unpark(&mut parks, worker, time_ns),
            TimelyEvent::Messages(event) => if event.is_send {
                handle_messages(&mut messages_sent, peers, event)
            } else {
                handle_messages(&mut messages_received, peers, event)
            },
            TimelyEvent::Schedule { id, start } => if start {
                schedules_stash.insert((id, worker), time_ns);
                let updates: Vec<LogUpdate> = Vec::new();
                assert(updates.deep_view() =~= Seq::empty());
                Ok(updates)
            } else {
                handle_schedule_stop(&mut schedules_stash, &mut schedules, id, worker, time_ns)
            },
            TimelyEvent::Other => {
                let updates: Vec<LogUpdate> = Vec::new();
                assert(updates.deep_view() =~= Seq::empty());
                Ok(updates)
            },
        };
        let next = Demux {
            peers,
            operates,
            channels,
            parks,
            schedules_stash,
            messages_sent,
            messages_received,
            schedules,
        };
        (next, result)
    }
}

} // verus!
