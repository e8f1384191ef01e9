//! Decoding raw records into rows.
//!
//! A record arrives as bytes. A decoder either takes the bytes of a record
//! as they are, or cuts a stream of bytes into records at a delimiter; each
//! record is then decoded by a format into a row of values.
use vstd::prelude::*;
use vstd::slice::{slice_subrange, slice_to_vec};
use vstd::string::*;
use vstd::utf8::{decode_utf8, valid_utf8};
use crate::kafka::decimal::{decimal, to_decimal};

verus! {

/// A value of a decoded row.
#[derive(Clone, Debug, PartialEq, Eq)]
pub enum Datum {
    Null,
    Bytes(Vec<u8>),
    String(String),
}

/// The mathematical value of a [`Datum`].
pub enum DatumView {
    Null,
    Bytes(Seq<u8>),
    String(Seq<char>),
}

impl View for Datum {
    type V = DatumView;

    open spec fn view(&self) -> DatumView {
        match *self {
            Datum::Null => DatumView::Null,
            Datum::Bytes(bytes) => DatumView::Bytes(bytes@),
            Datum::String(text) => DatumView::String(text@),
        }
    }
}

impl DeepView for Datum {
    type V = DatumView;

    open spec fn deep_view(&self) -> DatumView {
        self@
    }
}

/// A decoded row: its values in order.
pub type Row = Vec<Datum>;

/// Why a record could not be decoded.
#[derive(Clone, Debug, PartialEq, Eq)]
pub enum DecodeErrorKind {
    Text(String),
    Bytes(String),
}

/// The mathematical value of a [`DecodeErrorKind`].
pub enum DecodeErrorKindView {
    Text(Seq<char>),
    Bytes(Seq<char>),
}

impl View for DecodeErrorKind {
    type V = DecodeErrorKindView;

    open spec fn view(&self) -> DecodeErrorKindView {
        match *self {
            DecodeErrorKind::Text(reason) => DecodeErrorKindView::Text(reason@),
            DecodeErrorKind::Bytes(reason) => DecodeErrorKindView::Bytes(reason@),
        }
    }
}

/// A decoding failure together with the bytes that could not be decoded.
#[derive(Clone, Debug, PartialEq, Eq)]
pub struct DecodeError {
    pub kind: DecodeErrorKind,
    pub raw: Vec<u8>,
}

/// A format that decodes the bytes of one record, already cut out of its
/// stream.
#[derive(Clone, Debug, PartialEq, Eq)]
pub enum PreDelimitedFormat {
    /// The record is one value of bytes.
    Bytes,
    /// The record is one value of text, encoded in UTF-8.
    Text,
    /// The record is text, and its values are the capture groups of a
    /// regular expression.
    Regex(String),
}

/// The mathematical value of a [`PreDelimitedFormat`].
pub enum FormatView {
    Bytes,
    Text,
    Regex(Seq<char>),
}

impl View for PreDelimitedFormat {
    type V = FormatView;

    open spec fn view(&self) -> FormatView {
        match *self {
            PreDelimitedFormat::Bytes => FormatView::Bytes,
            PreDelimitedFormat::Text => FormatView::Text,
            PreDelimitedFormat::Regex(pattern) => FormatView::Regex(pattern@),
        }
    }
}

/// What matching `text` against `pattern` captures: nothing at all when the
/// pattern is no valid expression; otherwise nothing when the text does not
/// match, and else the capture groups of the first match, the whole match
/// first, each with the text it captured if it took part in the match.
pub uninterp spec fn captured(pattern: Seq<char>, text: Seq<char>) -> Option<
    Option<Seq<Option<Seq<char>>>>,
>;

/// Compiles `pattern` with `regex::Regex::new` and matches `text` with
/// `regex::Regex::captures`, copying out the text of every group. The
/// result depends on the two strings alone and is named [`captured`].
#[verifier::external_body]
fn captures(pattern: &str, text: &str) -> (groups: Option<Option<Vec<Option<String>>>>)
    ensures
        groups.deep_view() == captured(pattern@, text@),
{
    match regex::Regex::new(pattern) {
        Ok(regex) => Some(
            regex.captures(text).map(
                |found| found.iter().map(|group| group.map(|m| m.as_str().to_owned())).collect(),
            ),
        ),
        Err(_) => None,
    }
}

/// `std::str::from_utf8`: the text that the bytes encode, if they are valid
/// UTF-8.
#[verifier::external_body]
fn from_utf8(bytes: &[u8]) -> (text: Option<&str>)
    ensures
        match text {
            Some(text) => valid_utf8(bytes@) && text@ == decode_utf8(bytes@),
            None => !valid_utf8(bytes@),
        },
{
    match std::str::from_utf8(bytes) {
        Ok(text) => Some(text),
        Err(_) => None,
    }
}

/// The value of a capture group: its text, or null if the group took no
/// part in the match.
pub open spec fn group_value(group: Option<Seq<char>>) -> DatumView {
    match group {
        Some(text) => DatumView::String(text),
        None => DatumView::Null,
    }
}

/// The row of a match: one value for each capture group but the first,
/// which is the whole match.
pub open spec fn row_of_groups(groups: Seq<Option<Seq<char>>>) -> Seq<DatumView> {
    Seq::new(
        if groups.len() == 0 {
            0nat
        } else {
            (groups.len() - 1) as nat
        },
        |i: int| group_value(groups[i + 1]),
    )
}

/// What a format makes of text, given what its expression captured.
pub open spec fn decoded_text(captured: Option<Option<Seq<Option<Seq<char>>>>>) -> Result<
    Option<Seq<DatumView>>,
    DecodeErrorKindView,
> {
    match captured {
        None => Err(DecodeErrorKindView::Text("Failed to compile regular expression"@)),
        Some(None) => Ok(None),
        Some(Some(groups)) => Ok(Some(row_of_groups(groups))),
    }
}

/// What a format makes of the bytes of a record: a row, nothing if the
/// record is to be skipped, or a failure.
pub open spec fn decoded(format: FormatView, bytes: Seq<u8>) -> Result<
    Option<Seq<DatumView>>,
    DecodeErrorKindView,
> {
    match format {
        FormatView::Bytes => Ok(Some(seq![DatumView::Bytes(bytes)])),
        FormatView::Text => if valid_utf8(bytes) {
            Ok(Some(seq![DatumView::String(decode_utf8(bytes))]))
        } else {
            Err(DecodeErrorKindView::Text("Failed to decode UTF-8"@))
        },
        FormatView::Regex(pattern) => if valid_utf8(bytes) {
            decoded_text(captured(pattern, decode_utf8(bytes)))
        } else {
            Err(DecodeErrorKindView::Text("Failed to decode UTF-8"@))
        },
    }
}

/// The mathematical value of the result of decoding a record.
pub open spec fn outcome_view(result: Result<Option<Row>, DecodeErrorKind>) -> Result<
    Option<Seq<DatumView>>,
    DecodeErrorKindView,
> {
    match result {
        Ok(Some(row)) => Ok(Some(row.deep_view())),
        Ok(None) => Ok(None),
        Err(kind) => Err(kind@),
    }
}

/// Builds the row of a match from its capture groups.
pub fn row_from_groups(groups: &Vec<Option<String>>) -> (row: Row)
    ensures
        row.deep_view() == row_of_groups(groups.deep_view()),
{
    let mut row: Row = Vec::new();
    let mut i: usize = 1;
    while i < groups.len()
        invariant
            1 <= i,
            i == 1 || i <= groups.len(),
            row.len() == i - 1,
            forall|k: int| 0 <= k < row.len() ==> row[k]@ == group_value(groups.deep_view()[k + 1]),
        decreases groups.len() - i,
    {
        let datum = match &groups[i] {
            Some(text) => Datum::String(text.clone()),
            None => Datum::Null,
        };
        assert(groups.deep_view()[i as int] == groups[i as int].deep_view());
        row.push(datum);
        i += 1;
    }
    assert(groups.deep_view().len() == groups.len());
    assert(row.deep_view().len() == row.len());
    assert forall|k: int| 0 <= k < row.len() implies row.deep_view()[k] == row_of_groups(
        groups.deep_view(),
    )[k] by {
        assert(row.deep_view()[k] == row[k]@);
    }
    assert(row.deep_view() =~= row_of_groups(groups.deep_view()));
    row
}

/// Turns what an expression captured into the outcome of decoding.
pub fn decode_captures(groups: Option<Option<Vec<Option<String>>>>) -> (result: Result<
    Option<Row>,
    DecodeErrorKind,
>)
    ensures
        outcome_view(result) == decoded_text(groups.deep_view()),
{
    match groups {
        None => Err(
            DecodeErrorKind::Text(String::from_str("Failed to compile regular expression")),
        ),
        Some(None) => Ok(None),
        Some(Some(groups)) => Ok(Some(row_from_groups(&groups))),
    }
}

impl PreDelimitedFormat {
    /// Decodes the bytes of one record.
    pub fn decode(&self, bytes: &[u8]) -> (result: Result<Option<Row>, DecodeErrorKind>)
        ensures
            outcome_view(result) == decoded(self@, bytes@),
    {
        match self {
            PreDelimitedFormat::Bytes => {
                let mut row: Row = Vec::new();
                row.push(Datum::Bytes(slice_to_vec(bytes)));
                assert(row.deep_view() =~= seq![DatumView::Bytes(bytes@)]);
                Ok(Some(row))
            },
            PreDelimitedFormat::Text => match from_utf8(bytes) {
                Some(text) => {
                    let mut row: Row = Vec::new();
                    row.push(Datum::String(text.to_owned()));
                    assert(row.deep_view() =~= seq![DatumView::String(decode_utf8(bytes@))]);
                    Ok(Some(row))
                },
                None => Err(DecodeErrorKind::Text(String::from_str("Failed to decode UTF-8"))),
            },
            PreDelimitedFormat::Regex(pattern) => match from_utf8(bytes) {
                Some(text) => decode_captures(captures(pattern.as_str(), text)),
                None => Err(DecodeErrorKind::Text(String::from_str("Failed to decode UTF-8"))),
            },
        }
    }
}

/// How a decoder finds the records in the bytes it is given.
#[derive(Clone, Debug, PartialEq, Eq)]
pub enum DataDecoderInner {
    /// The bytes are a stream of records, each ended by the delimiter.
    DelimitedBytes { delimiter: u8, format: PreDelimitedFormat },
    /// The bytes are one record.
    PreDelimited(PreDelimitedFormat),
}

/// A decoder of records.
#[derive(Clone, Debug, PartialEq, Eq)]
pub struct DataDecoder {
    pub inner: DataDecoderInner,
}

/// Whether `at` is the position of the first `delimiter` in `bytes`.
pub open spec fn first_delimiter(bytes: Seq<u8>, delimiter: u8, at: int) -> bool {
    &&& 0 <= at < bytes.len()
    &&& bytes[at] == delimiter
    &&& forall|k: int| 0 <= k < at ==> bytes[k] != delimiter
}

/// Whether `delimiter` occurs in `bytes`.
pub open spec fn has_delimiter(bytes: Seq<u8>, delimiter: u8) -> bool {
    exists|at: int| 0 <= at < bytes.len() && bytes[at] == delimiter
}

/// Finds the first `delimiter` in `bytes`.
pub fn find_delimiter(bytes: &[u8], delimiter: u8) -> (position: Option<usize>)
    ensures
        match position {
            Some(at) => first_delimiter(bytes@, delimiter, at as int),
            None => !has_delimiter(bytes@, delimiter),
        },
{
    let mut i: usize = 0;
    while i < bytes.len()
        invariant
            i <= bytes.len(),
            forall|k: int| 0 <= k < i ==> bytes@[k] != delimiter,
        decreases bytes.len() - i,
    {
        if bytes[i] == delimiter {
            return Some(i);
        }
        i += 1;
    }
    None
}

/// The kinds of encoding that are decoded record by record.
#[derive(Clone, Debug, PartialEq, Eq)]
pub enum DataEncoding {
    Text,
    Bytes,
    Regex(String),
}

/// The decoder for an encoding. A connection that hands over whole records
/// needs no delimiter; otherwise records end at a line feed.
pub fn get_decoder(encoding: DataEncoding, is_connection_delimited: bool) -> (decoder:
    DataDecoder)
    ensures
        ({
            let format = match encoding {
                DataEncoding::Text => PreDelimitedFormat::Text,
                DataEncoding::Bytes => PreDelimitedFormat::Bytes,
                DataEncoding::Regex(pattern) => PreDelimitedFormat::Regex(pattern),
            };
            decoder.inner == if is_connection_delimited {
                DataDecoderInner::PreDelimited(format)
            } else {
                DataDecoderInner::DelimitedBytes { delimiter: 10u8, format }
            }
        }),
{
    let after_delimiting = match encoding {
        DataEncoding::Regex(pattern) => PreDelimitedFormat::Regex(pattern),
        DataEncoding::Bytes => PreDelimitedFormat::Bytes,
        DataEncoding::Text => PreDelimitedFormat::Text,
    };
    let inner = if is_connection_delimited {
        DataDecoderInner::PreDelimited(after_delimiting)
    } else {
        DataDecoderInner::DelimitedBytes { delimiter: 10u8, format: after_delimiting }
    };
    DataDecoder { inner }
}

impl DataDecoder {
    /// Decodes the next record of `bytes` and hands back what is left of
    /// them. A delimited decoder takes the bytes up to the first delimiter
    /// and drops the delimiter; without a delimiter it takes nothing. A
    /// decoder of whole records takes everything.
    pub fn next<'a>(&self, bytes: &'a [u8]) -> (r: (Result<Option<Row>, DecodeErrorKind>, &'a [u8]))
        ensures
            match self.inner {
                DataDecoderInner::DelimitedBytes { delimiter, format } => {
                    if has_delimiter(bytes@, delimiter) {
                        exists|at: int|
                            {
                                &&& #[trigger] first_delimiter(bytes@, delimiter, at)
                                &&& outcome_view(r.0) == decoded(format@, bytes@.subrange(0, at))
                                &&& r.1@ == bytes@.subrange(at + 1, bytes@.len() as int)
                            }
                    } else {
                        outcome_view(r.0) == Ok::<
                            Option<Seq<DatumView>>,
                            DecodeErrorKindView,
                        >(None) && r.1@ == bytes@
                    }
                },
                DataDecoderInner::PreDelimited(format) => {
                    &&& outcome_view(r.0) == decoded(format@, bytes@)
                    &&& r.1@.len() == 0
                },
            },
    {
        match &self.inner {
            DataDecoderInner::DelimitedBytes { delimiter, format } => {
                match find_delimiter(bytes, *delimiter) {
                    Some(chunk_idx) => {
                        let len = bytes.len();
                        assert(chunk_idx < len);
                        let data = slice_subrange(bytes, 0, chunk_idx);
                        let rest = slice_subrange(bytes, chunk_idx + 1, len);
                        (format.decode(data), rest)
                    },
                    None => (Ok(None), bytes),
                }
            },
            DataDecoderInner::PreDelimited(format) => {
                let result = format.decode(bytes);
                (result, slice_subrange(bytes, 0, 0))
            },
        }
    }

    /// Decodes what is left when the stream has ended. A delimited decoder
    /// decodes the rest as a last record, unless nothing is left; it takes
    /// all of it. A decoder of whole records has nothing left to do.
    pub fn eof<'a>(&self, bytes: &'a [u8]) -> (r: (Result<Option<Row>, DecodeErrorKind>, &'a [u8]))
        ensures
            match self.inner {
                DataDecoderInner::DelimitedBytes { delimiter, format } => {
                    &&& r.1@.len() == 0
                    &&& outcome_view(r.0) == if bytes@.len() == 0 {
                        Ok::<Option<Seq<DatumView>>, DecodeErrorKindView>(None)
                    } else {
                        decoded(format@, bytes@)
                    }
                },
                DataDecoderInner::PreDelimited(_) => {
                    &&& outcome_view(r.0) == Ok::<Option<Seq<DatumView>>, DecodeErrorKindView>(None)
                    &&& r.1@ == bytes@
                },
            },
    {
        match &self.inner {
            DataDecoderInner::DelimitedBytes { delimiter: _, format } => {
                let rest = slice_subrange(bytes, 0, 0);
                if bytes.len() == 0 {
                    (Ok(None), rest)
                } else {
                    (format.decode(bytes), rest)
                }
            },
            DataDecoderInner::PreDelimited(_) => (Ok(None), bytes),
        }
    }
}

/// The bytes as they are shown in a message: their decimal values,
/// separated by commas, in square brackets.
pub open spec fn shown_bytes(bytes: Seq<u8>) -> Seq<char> {
    "["@ + listed_bytes(bytes) + "]"@
}

/// The decimal values of the bytes, separated by commas.
pub open spec fn listed_bytes(bytes: Seq<u8>) -> Seq<char>
    decreases bytes.len(),
{
    if bytes.len() == 0 {
        Seq::empty()
    } else if bytes.len() == 1 {
        decimal(bytes[0] as nat)
    } else {
        listed_bytes(bytes.drop_last()) + ", "@ + decimal(bytes.last() as nat)
    }
}

/// Shows bytes for a message.
pub fn show_bytes(bytes: &[u8]) -> (text: String)
    ensures
        text@ == shown_bytes(bytes@),
{
    let mut listed = String::new();
    let mut i: usize = 0;
    while i < bytes.len()
        invariant
            i <= bytes.len(),
            listed@ == listed_bytes(bytes@.take(i as int)),
        decreases bytes.len() - i,
    {
        proof {
            assert(bytes@.take(i as int + 1).drop_last() =~= bytes@.take(i as int));
            assert(bytes@.take(i as int + 1).last() == bytes@[i as int]);
        }
        let ghost before = listed@;
        if i > 0 {
            listed.append(", ");
        }
        listed.append(to_decimal(bytes[i] as u128).as_str());
        proof {
            if i == 0 {
                assert(before =~= Seq::<char>::empty());
                assert(listed@ =~= decimal(bytes@[0] as nat));
            }
        }
        i += 1;
    }
    assert(bytes@.take(bytes.len() as int) =~= bytes@);
    let mut text = String::from_str("[");
    text.append(listed.as_str());
    text.append("]");
    text
}

/// What decoding one record with `decoder` gives, where `first` is what
/// [`DataDecoder::next`] made of the record and left of it, and `last` is
/// what [`DataDecoder::eof`] makes of an empty rest. A record must be used
/// up: a failure is passed on; bytes left over are a failure of their own;
/// with nothing left over the row is the result, and where there is no row
/// the end of the record gets its turn.
pub open spec fn record_outcome(
    first: Result<Option<Seq<DatumView>>, DecodeErrorKindView>,
    left: Seq<u8>,
    last: Result<Option<Seq<DatumView>>, DecodeErrorKindView>,
) -> Result<Option<Seq<DatumView>>, DecodeErrorKindView> {
    match first {
        Err(kind) => Err(kind),
        Ok(value) => if left.len() == 0 {
            match value {
                Some(row) => Ok(Some(row)),
                None => last,
            }
        } else {
            Err(
                DecodeErrorKindView::Text(
                    "Unexpected bytes remaining for decoded value: "@ + shown_bytes(left),
                ),
            )
        },
    }
}

/// Decodes one record that the connection has already cut out. On failure
/// the bytes of the whole record are kept with the error.
pub fn decode_delimited(decoder: &DataDecoder, buf: &[u8]) -> (result: Result<
    Option<Row>,
    DecodeError,
>)
    ensures
        match result {
            Ok(_) => true,
            Err(error) => error.raw@ == buf@,
        },
        match decoder.inner {
            DataDecoderInner::PreDelimited(format) => match result {
                Ok(Some(row)) => decoded(format@, buf@) == Ok::<
                    Option<Seq<DatumView>>,
                    DecodeErrorKindView,
                >(Some(row.deep_view())),
                Ok(None) => decoded(format@, buf@) == Ok::<
                    Option<Seq<DatumView>>,
                    DecodeErrorKindView,
                >(None),
                Err(error) => decoded(format@, buf@) == Err::<
                    Option<Seq<DatumView>>,
                    DecodeErrorKindView,
                >(error.kind@),
            },
            DataDecoderInner::DelimitedBytes { delimiter, format } => {
                let outcome = match result {
                    Ok(Some(row)) => Ok(Some(row.deep_view())),
                    Ok(None) => Ok(None),
                    Err(error) => Err(error.kind@),
                };
                if has_delimiter(buf@, delimiter) {
                    exists|at: int|
                        {
                            &&& #[trigger] first_delimiter(buf@, delimiter, at)
                            &&& outcome == record_outcome(
                                decoded(format@, buf@.subrange(0, at)),
                                buf@.subrange(at + 1, buf@.len() as int),
                                Ok(None),
                            )
                        }
                } else {
                    outcome == record_outcome(
                        Ok(None),
                        buf@,
                        Ok(None),
                    )
                }
            },
        },
{
    let (value, remaining_buf) = decoder.next(buf);
    let result = match value {
        Ok(value) => {
            if remaining_buf.len() == 0 {
                match value {
                    Some(value) => Ok(Some(value)),
                    None => decoder.eof(remaining_buf).0,
                }
            } else {
                let mut reason = String::from_str("Unexpected bytes remaining for decoded value: ");
                reason.append(show_bytes(remaining_buf).as_str());
                Err(DecodeErrorKind::Text(reason))
            }
        },
        Err(err) => Err(err),
    };
    match result {
        Ok(row) => Ok(row),
        Err(kind) => Err(DecodeError { kind, raw: slice_to_vec(buf) }),
    }
}

/// How a decoded record counts in the statistics.
#[derive(Clone, Copy, Debug, PartialEq, Eq, Structural)]
pub enum Tally {
    /// The key or the value failed to decode.
    Error,
    /// The value was decoded, and the key did not fail.
    Success,
    /// There was no value, and the key did not fail.
    Neither,
}

/// Counts a record: as an error if its key or its value failed to decode,
/// else as a success if it has a value.
pub fn tally<K, V, E>(key: &Option<Result<K, E>>, value: &Option<Result<V, E>>) -> (t: Tally)
    ensures
        t == if (key matches Some(Err(_))) || (value matches Some(Err(_))) {
            Tally::Error
        } else if value matches Some(Ok(_)) {
            Tally::Success
        } else {
            Tally::Neither
        },
{
    let key_failed = match key {
        Some(Err(_)) => true,
        _ => false,
    };
    match value {
        Some(Err(_)) => Tally::Error,
        Some(Ok(_)) => if key_failed {
            Tally::Error
        } else {
            Tally::Success
        },
        None => if key_failed {
            Tally::Error
        } else {
            Tally::Neither
        },
    }
}

/// The name of the operator that decodes records with the given encodings:
/// the name of the key's encoding, if there is a key, the name of the
/// value's encoding, and `DecodeDelimited`.
pub fn operator_name(key_encoding: Option<&str>, value_encoding: &str) -> (name: String)
    ensures
        name@ == (match key_encoding {
            Some(key) => key@,
            None => Seq::<char>::empty(),
        }) + value_encoding@ + "DecodeDelimited"@,
{
    let mut name = String::new();
    match key_encoding {
        Some(key) => {
            name.append(key);
        },
        None => {},
    }
    name.append(value_encoding);
    name.append("DecodeDelimited");
    name
}

} // verus!
