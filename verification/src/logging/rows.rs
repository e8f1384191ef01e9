//! The rows under which the updates of a worker's logs are listed.
use vstd::prelude::*;
use crate::logging::events::{LogUpdate, UpdateView};

verus! {

/// A value of a row of a log collection.
#[derive(Clone, Debug, PartialEq, Eq)]
pub enum LogDatum {
    Null,
    UInt64(u64),
    String(String),
    List(Vec<u64>),
}

/// The mathematical value of a [`LogDatum`].
pub enum LogDatumView {
    Null,
    UInt64(u64),
    String(Seq<char>),
    List(Seq<u64>),
}

impl View for LogDatum {
    type V = LogDatumView;

    open spec fn view(&self) -> LogDatumView {
        match *self {
            LogDatum::Null => LogDatumView::Null,
            LogDatum::UInt64(n) => LogDatumView::UInt64(n),
            LogDatum::String(text) => LogDatumView::String(text@),
            LogDatum::List(items) => LogDatumView::List(items@),
        }
    }
}

impl DeepView for LogDatum {
    type V = LogDatumView;

    open spec fn deep_view(&self) -> LogDatumView {
        self@
    }
}

/// The steps of an address as values of a row.
pub open spec fn address_steps(address: Seq<usize>) -> Seq<u64> {
    address.map_values(|step: usize| step as u64)
}

/// The row of an address: the id, the worker and the steps of the address.
pub open spec fn address_row(id: usize, worker: usize, address: Seq<usize>) -> Seq<LogDatumView> {
    seq![
        LogDatumView::UInt64(id as u64),
        LogDatumView::UInt64(worker as u64),
        LogDatumView::List(address_steps(address)),
    ]
}

/// Builds the row of an address.
pub fn create_address_row(id: usize, worker: usize, address: &[usize]) -> (row: Vec<LogDatum>)
    ensures
        row.deep_view() == address_row(id, worker, address@),
{
    let mut steps: Vec<u64> = Vec::with_capacity(address.len());
    let mut i: usize = 0;
    while i < address.len()
        invariant
            i <= address.len(),
            steps@ == address_steps(address@.take(i as int)),
        decreases address.len() - i,
    {
        steps.push(address[i] as u64);
        assert(steps@ =~= address_steps(address@.take(i as int + 1)));
        i += 1;
    }
    assert(address@.take(address.len() as int) =~= address@);
    let mut row: Vec<LogDatum> = Vec::with_capacity(3);
    row.push(LogDatum::UInt64(id as u64));
    row.push(LogDatum::UInt64(worker as u64));
    row.push(LogDatum::List(steps));
    assert(row.deep_view() =~= address_row(id, worker, address@));
    row
}

/// The row under which an update is listed, or nothing when the bound of a
/// bucket is too large for a row. The count of the update is no part of
/// the row.
pub open spec fn row_of(update: UpdateView) -> Option<Seq<LogDatumView>> {
    match update {
        UpdateView::Operates { id, worker, name, diff } => Some(
            seq![
                LogDatumView::UInt64(id as u64),
                LogDatumView::UInt64(worker as u64),
                LogDatumView::String(name),
            ],
        ),
        UpdateView::Channels {
            id,
            worker,
            source_node,
            source_port,
            target_node,
            target_port,
            diff,
        } => Some(
            seq![
                LogDatumView::UInt64(id as u64),
                LogDatumView::UInt64(worker as u64),
                LogDatumView::UInt64(source_node as u64),
                LogDatumView::UInt64(source_port as u64),
                LogDatumView::UInt64(target_node as u64),
                LogDatumView::UInt64(target_port as u64),
            ],
        ),
        UpdateView::Addresses { id, worker, address, diff } => Some(
            address_row(id, worker, address),
        ),
        UpdateView::Parks { worker, duration, requested, diff } => if duration > u64::MAX || (
        requested is Some && requested->0 > u64::MAX) {
            None
        } else {
            Some(
                seq![
                    LogDatumView::UInt64(worker as u64),
                    LogDatumView::UInt64(duration as u64),
                    match requested {
                        Some(requested) => LogDatumView::UInt64(requested as u64),
                        None => LogDatumView::Null,
                    },
                ],
            )
        },
        UpdateView::MessagesSent { channel, source, target, diff } => Some(
            seq![
                LogDatumView::UInt64(channel as u64),
                LogDatumView::UInt64(source as u64),
                LogDatumView::UInt64(target as u64),
            ],
        ),
        UpdateView::MessagesReceived { channel, source, target, diff } => Some(
            seq![
                LogDatumView::UInt64(channel as u64),
                LogDatumView::UInt64(source as u64),
                LogDatumView::UInt64(target as u64),
            ],
        ),
        UpdateView::SchedulesDuration { id, worker, diff } => Some(
            seq![LogDatumView::UInt64(id as u64), LogDatumView::UInt64(worker as u64)],
        ),
        UpdateView::SchedulesHistogram { id, worker, duration, diff } => if duration > u64::MAX {
            None
        } else {
            Some(
                seq![
                    LogDatumView::UInt64(id as u64),
                    LogDatumView::UInt64(worker as u64),
                    LogDatumView::UInt64(duration as u64),
                ],
            )
        },
    }
}

/// The view of a row that may be missing.
pub open spec fn row_view(row: Option<Vec<LogDatum>>) -> Option<Seq<LogDatumView>> {
    match row {
        Some(row) => Some(row.deep_view()),
        None => None,
    }
}

fn numbers(values: &[usize]) -> (row: Vec<LogDatum>)
    ensures
        row.deep_view() == values@.map_values(|value: usize| LogDatumView::UInt64(value as u64)),
{
    let mut row: Vec<LogDatum> = Vec::with_capacity(values.len());
    let mut i: usize = 0;
    while i < values.len()
        invariant
            i <= values.len(),
            row.len() == i,
            forall|k: int| 0 <= k < i ==> row[k]@ == LogDatumView::UInt64(values@[k] as u64),
        decreases values.len() - i,
    {
        row.push(LogDatum::UInt64(values[i] as u64));
        i += 1;
    }
    assert(row.deep_view() =~= values@.map_values(
        |value: usize| LogDatumView::UInt64(value as u64),
    ));
    row
}

/// Builds the row under which an update is listed.
pub fn pack_update(update: &LogUpdate) -> (row: Option<Vec<LogDatum>>)
    ensures
        row_view(row) == row_of(update@),
{
    let limit: u128 = 0xffff_ffff_ffff_ffff;
    match update {
        LogUpdate::Operates { id, worker, name, diff: _ } => {
            let mut row = numbers(&[*id, *worker]);
            let ghost before = row.deep_view();
            row.push(LogDatum::String(name.clone()));
            assert(row.deep_view() =~= before.push(LogDatumView::String(name@)));
            assert(row.deep_view() =~= row_of(update@)->0);
            Some(row)
        },
        LogUpdate::Channels {
            id,
            worker,
            source_node,
            source_port,
            target_node,
            target_port,
            diff: _,
        } => {
            let row = numbers(&[*id, *worker, *source_node, *source_port, *target_node, *target_port]);
            assert(row.deep_view() =~= row_of(update@)->0);
            Some(row)
        },
        LogUpdate::Addresses { id, worker, address, diff: _ } => Some(
            create_address_row(*id, *worker, address.as_slice()),
        ),
        LogUpdate::Parks { worker, duration, requested, diff: _ } => {
            if *duration > limit {
                return None;
            }
            let requested = match requested {
                Some(requested) => {
                    if *requested > limit {
                        return None;
                    }
                    LogDatum::UInt64(*requested as u64)
                },
                None => LogDatum::Null,
            };
            let mut row: Vec<LogDatum> = Vec::with_capacity(3);
            row.push(LogDatum::UInt64(*worker as u64));
            row.push(LogDatum::UInt64(*duration as u64));
            row.push(requested);
            assert(row.deep_view() =~= row_of(update@)->0);
            Some(row)
        },
        LogUpdate::MessagesSent { channel, source, target, diff: _ } => {
            let row = numbers(&[*channel, *source, *target]);
            assert(row.deep_view() =~= row_of(update@)->0);
            Some(row)
        },
        LogUpdate::MessagesReceived { channel, source, target, diff: _ } => {
            let row = numbers(&[*channel, *source, *target]);
            assert(row.deep_view() =~= row_of(update@)->0);
            Some(row)
        },
        LogUpdate::SchedulesDuration { id, worker, diff: _ } => {
            let row = numbers(&[*id, *worker]);
            assert(row.deep_view() =~= row_of(update@)->0);
            Some(row)
        },
        LogUpdate::SchedulesHistogram { id, worker, duration, diff: _ } => {
            if *duration > limit {
                return None;
            }
            let mut row = numbers(&[*id, *worker]);
            let ghost before = row.deep_view();
            row.push(LogDatum::UInt64(*duration as u64));
            assert(row.deep_view() =~= before.push(LogDatumView::UInt64(*duration as u64)));
            assert(row.deep_view() =~= row_of(update@)->0);
            Some(row)
        },
    }
}

} // verus!
