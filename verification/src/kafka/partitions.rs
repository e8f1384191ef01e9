//! Reading the partitions of a topic out of the metadata a broker returned.
use vstd::prelude::*;
use vstd::string::*;
use crate::kafka::decimal::{decimal, to_decimal};
use crate::kafka::text::same_text;

verus! {

/// Id of a partition in a topic.
pub type PartitionId = i32;

/// The error a broker attached to a piece of metadata.
#[derive(Clone, Copy, Debug, PartialEq, Eq, Structural)]
pub enum MetadataErrorCode {
    /// The topic is unknown.
    UnknownTopic,
    /// The topic or partition is unknown.
    UnknownTopicOrPartition,
    /// Any other error, by its code.
    Other(i32),
}

/// What the metadata says about one partition.
#[derive(Clone, Copy, Debug, PartialEq, Eq, Structural)]
pub struct PartitionMetadata {
    pub id: PartitionId,
    pub error: Option<MetadataErrorCode>,
}

/// What the metadata says about one topic.
#[derive(Clone, Debug, PartialEq, Eq)]
pub struct TopicMetadata {
    pub name: String,
    pub error: Option<MetadataErrorCode>,
    pub partitions: Vec<PartitionMetadata>,
}

/// The mathematical value of a [`TopicMetadata`].
pub struct TopicMetadataView {
    pub name: Seq<char>,
    pub error: Option<MetadataErrorCode>,
    pub partitions: Seq<PartitionMetadata>,
}

impl View for TopicMetadata {
    type V = TopicMetadataView;

    open spec fn view(&self) -> TopicMetadataView {
        TopicMetadataView { name: self.name@, error: self.error, partitions: self.partitions@ }
    }
}

impl DeepView for TopicMetadata {
    type V = TopicMetadataView;

    open spec fn deep_view(&self) -> TopicMetadataView {
        self@
    }
}

/// Why the partitions of a topic could not be had.
#[derive(Clone, Debug, PartialEq, Eq)]
pub enum GetPartitionsError {
    /// The specified topic does not exist.
    TopicDoesNotExist,
    /// The metadata holds another number of entries than the one asked for.
    UnexpectedEntries { count: usize },
    /// The broker reported an error other than an unknown topic.
    Code(i32),
    /// The metadata is about another topic.
    WrongTopic { name: String },
}

/// The mathematical value of a [`GetPartitionsError`].
pub enum GetPartitionsErrorView {
    TopicDoesNotExist,
    UnexpectedEntries { count: usize },
    Code(i32),
    WrongTopic { name: Seq<char> },
}

impl View for GetPartitionsError {
    type V = GetPartitionsErrorView;

    open spec fn view(&self) -> GetPartitionsErrorView {
        match *self {
            GetPartitionsError::TopicDoesNotExist => GetPartitionsErrorView::TopicDoesNotExist,
            GetPartitionsError::UnexpectedEntries { count } => GetPartitionsErrorView::UnexpectedEntries {
                count,
            },
            GetPartitionsError::Code(code) => GetPartitionsErrorView::Code(code),
            GetPartitionsError::WrongTopic { name } => GetPartitionsErrorView::WrongTopic {
                name: name@,
            },
        }
    }
}

/// The failure that an error in the metadata amounts to: an unknown topic
/// means that the topic does not exist, anything else is passed on by its
/// code.
pub open spec fn failure_of(code: MetadataErrorCode) -> GetPartitionsErrorView {
    match code {
        MetadataErrorCode::UnknownTopic | MetadataErrorCode::UnknownTopicOrPartition => GetPartitionsErrorView::TopicDoesNotExist,
        MetadataErrorCode::Other(code) => GetPartitionsErrorView::Code(code),
    }
}

/// The error of the first partition that has one.
pub open spec fn first_partition_error(partitions: Seq<PartitionMetadata>) -> Option<
    MetadataErrorCode,
>
    decreases partitions.len(),
{
    if partitions.len() == 0 {
        None
    } else if partitions[0].error is Some {
        partitions[0].error
    } else {
        first_partition_error(partitions.drop_first())
    }
}

/// The ids of the partitions, in order.
pub open spec fn ids_of(partitions: Seq<PartitionMetadata>) -> Seq<PartitionId> {
    partitions.map_values(|partition: PartitionMetadata| partition.id)
}

/// The partitions of `topic` according to the metadata, or why they cannot
/// be had. The metadata must hold exactly one entry, free of errors, about
/// the topic asked for, with at least one partition and no partition in
/// error; the checks are made in this order.
pub open spec fn partitions_of(topics: Seq<TopicMetadataView>, topic: Seq<char>) -> Result<
    Seq<PartitionId>,
    GetPartitionsErrorView,
> {
    if topics.len() != 1 {
        Err(GetPartitionsErrorView::UnexpectedEntries { count: topics.len() as usize })
    } else if topics[0].error is Some {
        Err(failure_of(topics[0].error->0))
    } else if topics[0].name != topic {
        Err(GetPartitionsErrorView::WrongTopic { name: topics[0].name })
    } else if first_partition_error(topics[0].partitions) is Some {
        Err(failure_of(first_partition_error(topics[0].partitions)->0))
    } else if topics[0].partitions.len() == 0 {
        Err(GetPartitionsErrorView::TopicDoesNotExist)
    } else {
        Ok(ids_of(topics[0].partitions))
    }
}

/// The view of the result of [`get_partitions`].
pub open spec fn partitions_view(result: Result<Vec<PartitionId>, GetPartitionsError>) -> Result<
    Seq<PartitionId>,
    GetPartitionsErrorView,
> {
    match result {
        Ok(ids) => Ok(ids@),
        Err(error) => Err(error@),
    }
}

fn check_err(error: Option<MetadataErrorCode>) -> (r: Result<(), GetPartitionsError>)
    ensures
        match r {
            Ok(_) => error is None,
            Err(failure) => error is Some && failure@ == failure_of(error->0),
        },
{
    match error {
        Some(MetadataErrorCode::UnknownTopic | MetadataErrorCode::UnknownTopicOrPartition) => Err(
            GetPartitionsError::TopicDoesNotExist,
        ),
        Some(MetadataErrorCode::Other(code)) => Err(GetPartitionsError::Code(code)),
        None => Ok(()),
    }
}

proof fn first_partition_error_skips_clean_prefix(partitions: Seq<PartitionMetadata>, clean: int)
    requires
        0 <= clean <= partitions.len(),
        forall|k: int| 0 <= k < clean ==> partitions[k].error is None,
    ensures
        first_partition_error(partitions) == first_partition_error(
            partitions.subrange(clean, partitions.len() as int),
        ),
    decreases clean,
{
    if clean == 0 {
        assert(partitions.subrange(0, partitions.len() as int) =~= partitions);
    } else {
        let rest = partitions.drop_first();
        assert forall|k: int| 0 <= k < clean - 1 implies rest[k].error is None by {
            assert(rest[k] == partitions[k + 1]);
        }
        first_partition_error_skips_clean_prefix(rest, clean - 1);
        assert(rest.subrange(clean - 1, rest.len() as int) =~= partitions.subrange(
            clean,
            partitions.len() as int,
        ));
    }
}

/// Retrieves the partitions of `topic` from the metadata fetched for it.
#[verifier::loop_isolation(false)]
pub fn get_partitions(topics: &Vec<TopicMetadata>, topic: &str) -> (result: Result<
    Vec<PartitionId>,
    GetPartitionsError,
>)
    ensures
        partitions_view(result) == partitions_of(topics.deep_view(), topic@),
{
    if topics.len() != 1 {
        return Err(GetPartitionsError::UnexpectedEntries { count: topics.len() });
    }
    let meta_topic = &topics[0];
    assert(topics.deep_view()[0] == meta_topic@);
    match check_err(meta_topic.error) {
        Err(failure) => {
            return Err(failure);
        },
        Ok(_) => {},
    }
    if !same_text(meta_topic.name.as_str(), topic) {
        return Err(GetPartitionsError::WrongTopic { name: meta_topic.name.clone() });
    }
    let ghost partitions = meta_topic.partitions@;
    let mut partition_ids: Vec<PartitionId> = Vec::with_capacity(meta_topic.partitions.len());
    let mut i: usize = 0;
    while i < meta_topic.partitions.len()
        invariant
            i <= meta_topic.partitions.len(),
            partitions == meta_topic.partitions@,
            forall|k: int| 0 <= k < i ==> partitions[k].error is None,
            partition_ids@ == ids_of(partitions.take(i as int)),
        decreases meta_topic.partitions.len() - i,
    {
        let partition_meta = &meta_topic.partitions[i];
        match check_err(partition_meta.error) {
            Err(failure) => {
                proof {
                    first_partition_error_skips_clean_prefix(partitions, i as int);
                    assert(partitions.subrange(i as int, partitions.len() as int)[0]
                        == partitions[i as int]);
                }
                return Err(failure);
            },
            Ok(_) => {},
        }
        partition_ids.push(partition_meta.id);
        assert(partition_ids@ =~= ids_of(partitions.take(i as int + 1)));
        i += 1;
    }
    proof {
        first_partition_error_skips_clean_prefix(partitions, partitions.len() as int);
        assert(partitions.take(partitions.len() as int) =~= partitions);
    }
    if partition_ids.len() == 0 {
        return Err(GetPartitionsError::TopicDoesNotExist);
    }
    Ok(partition_ids)
}

/// The text an error is shown as, given the topic that was asked for.
pub open spec fn failure_text(error: GetPartitionsErrorView, topic: Seq<char>) -> Seq<char> {
    match error {
        GetPartitionsErrorView::TopicDoesNotExist => "Topic does not exist"@,
        GetPartitionsErrorView::UnexpectedEntries { count } => "topic "@ + topic + " has "@
            + decimal(count as nat) + " metadata entries; expected 1"@,
        GetPartitionsErrorView::Code(code) => "broker error code "@ + (if code < 0 {
            "-"@ + decimal((-code) as nat)
        } else {
            decimal(code as nat)
        }),
        GetPartitionsErrorView::WrongTopic { name } => "got results for wrong topic "@ + name
            + " (expected "@ + topic + ")"@,
    }
}

impl GetPartitionsError {
    /// The text the error is shown as, given the topic that was asked for.
    pub fn message(&self, topic: &str) -> (text: String)
        ensures
            text@ == failure_text(self@, topic@),
    {
        match self {
            GetPartitionsError::TopicDoesNotExist => String::from_str("Topic does not exist"),
            GetPartitionsError::UnexpectedEntries { count } => {
                let mut text = String::from_str("topic ");
                text.append(topic);
                text.append(" has ");
                text.append(to_decimal(*count as u128).as_str());
                text.append(" metadata entries; expected 1");
                text
            },
            GetPartitionsError::Code(code) => {
                let mut text = String::from_str("broker error code ");
                if *code < 0 {
                    text.append("-");
                    let magnitude: u128 = (-(*code as i64)) as u128;
                    text.append(to_decimal(magnitude).as_str());
                    assert(text@ =~= "broker error code "@ + ("-"@ + decimal((-*code) as nat)));
                } else {
                    text.append(to_decimal(*code as u128).as_str());
                }
                text
            },
            GetPartitionsError::WrongTopic { name } => {
                let mut text = String::from_str("got results for wrong topic ");
                text.append(name.as_str());
                text.append(" (expected ");
                text.append(topic);
                text.append(")");
                text
            },
        }
    }
}

} // verus!
