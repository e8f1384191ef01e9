//! The errors that a Kafka client reports through its logs, as structured
//! values.
use vstd::prelude::*;
use vstd::string::*;
use crate::kafka::pattern::{is_match, search};
use crate::kafka::text::{after_first, after_first_at, contains, occurs_in, split_once};

verus! {

/// A structured error for what the client library reports through its logs.
#[derive(Clone, Debug, PartialEq, Eq)]
pub enum MzKafkaError {
    /// Invalid username or password.
    InvalidCredentials,
    /// Missing CA certificate.
    InvalidCACertificate,
    /// The broker might require SSL encryption.
    SSLEncryptionMaybeRequired,
    /// The broker does not support SSL connections.
    SSLUnsupported,
    /// The broker did not provide a certificate.
    BrokerCertificateMissing,
    /// The broker's certificate could not be verified.
    InvalidBrokerCertificate,
    /// The connection was reset.
    ConnectionReset(String),
    /// The connection timed out.
    ConnectionTimeout,
    /// The hostname could not be resolved.
    HostnameResolutionFailed,
    /// The SASL mechanism is not supported.
    UnsupportedSASLMechanism,
    /// The broker's version is not supported.
    UnsupportedBrokerVersion,
    /// The connection to the broker failed.
    BrokerTransportFailure,
    /// All brokers are down.
    AllBrokersDown,
    /// SASL authentication is required.
    SASLAuthenticationRequired,
    /// SSL authentication is required.
    SSLAuthenticationRequired,
    /// The topic or partition is unknown.
    UnknownTopicOrPartition,
    /// An error that has no structure of its own.
    Internal(String),
}

/// The mathematical value of an [`MzKafkaError`].
pub enum KafkaErrorView {
    InvalidCredentials,
    InvalidCACertificate,
    SSLEncryptionMaybeRequired,
    SSLUnsupported,
    BrokerCertificateMissing,
    InvalidBrokerCertificate,
    ConnectionReset(Seq<char>),
    ConnectionTimeout,
    HostnameResolutionFailed,
    UnsupportedSASLMechanism,
    UnsupportedBrokerVersion,
    BrokerTransportFailure,
    AllBrokersDown,
    SASLAuthenticationRequired,
    SSLAuthenticationRequired,
    UnknownTopicOrPartition,
    Internal(Seq<char>),
}

impl View for MzKafkaError {
    type V = KafkaErrorView;

    open spec fn view(&self) -> KafkaErrorView {
        match *self {
            MzKafkaError::InvalidCredentials => KafkaErrorView::InvalidCredentials,
            MzKafkaError::InvalidCACertificate => KafkaErrorView::InvalidCACertificate,
            MzKafkaError::SSLEncryptionMaybeRequired => KafkaErrorView::SSLEncryptionMaybeRequired,
            MzKafkaError::SSLUnsupported => KafkaErrorView::SSLUnsupported,
            MzKafkaError::BrokerCertificateMissing => KafkaErrorView::BrokerCertificateMissing,
            MzKafkaError::InvalidBrokerCertificate => KafkaErrorView::InvalidBrokerCertificate,
            MzKafkaError::ConnectionReset(detail) => KafkaErrorView::ConnectionReset(detail@),
            MzKafkaError::ConnectionTimeout => KafkaErrorView::ConnectionTimeout,
            MzKafkaError::HostnameResolutionFailed => KafkaErrorView::HostnameResolutionFailed,
            MzKafkaError::UnsupportedSASLMechanism => KafkaErrorView::UnsupportedSASLMechanism,
            MzKafkaError::UnsupportedBrokerVersion => KafkaErrorView::UnsupportedBrokerVersion,
            MzKafkaError::BrokerTransportFailure => KafkaErrorView::BrokerTransportFailure,
            MzKafkaError::AllBrokersDown => KafkaErrorView::AllBrokersDown,
            MzKafkaError::SASLAuthenticationRequired => KafkaErrorView::SASLAuthenticationRequired,
            MzKafkaError::SSLAuthenticationRequired => KafkaErrorView::SSLAuthenticationRequired,
            MzKafkaError::UnknownTopicOrPartition => KafkaErrorView::UnknownTopicOrPartition,
            MzKafkaError::Internal(detail) => KafkaErrorView::Internal(detail@),
        }
    }
}

/// The expression that recognizes the report that all brokers are down: a
/// number of brokers, a slash, and the same number again.
pub const ALL_BROKERS_DOWN_PATTERN: &'static str = "(\\d+)/\\1 brokers are down";

/// The error that the marks found before the broker count stand for, if any
/// of them is in the message. The first mark in this order decides.
pub open spec fn classify_before_broker_count(message: Seq<char>) -> Option<KafkaErrorView> {
    if occurs_in(message, "Authentication failed: Invalid username or password"@) {
        Some(KafkaErrorView::InvalidCredentials)
    } else if occurs_in(message, "broker certificate could not be verified"@) {
        Some(KafkaErrorView::InvalidCACertificate)
    } else if occurs_in(message, "connecting to a SSL listener?"@) {
        Some(KafkaErrorView::SSLEncryptionMaybeRequired)
    } else if occurs_in(message, "client SSL authentication might be required"@) {
        Some(KafkaErrorView::SSLAuthenticationRequired)
    } else if occurs_in(message, "connecting to a PLAINTEXT broker listener"@) {
        Some(KafkaErrorView::SSLUnsupported)
    } else if occurs_in(message, "Broker did not provide a certificate"@) {
        Some(KafkaErrorView::BrokerCertificateMissing)
    } else if occurs_in(message, "Failed to verify broker certificate: "@) {
        Some(KafkaErrorView::InvalidBrokerCertificate)
    } else if occurs_in(message, "Send failed: "@) {
        Some(KafkaErrorView::ConnectionReset(after_first(message, "Send failed: "@)))
    } else if occurs_in(message, "Receive failed: "@) {
        Some(KafkaErrorView::ConnectionReset(after_first(message, "Receive failed: "@)))
    } else if occurs_in(message, "request(s) timed out: disconnect"@) {
        Some(KafkaErrorView::ConnectionTimeout)
    } else if occurs_in(message, "Failed to resolve"@) {
        Some(KafkaErrorView::HostnameResolutionFailed)
    } else if occurs_in(message, "mechanism handshake failed:"@) {
        Some(KafkaErrorView::UnsupportedSASLMechanism)
    } else if occurs_in(
        message,
        "verify that security.protocol is correctly configured, broker might require SASL authentication"@,
    ) {
        Some(KafkaErrorView::SASLAuthenticationRequired)
    } else if occurs_in(
        message,
        "incorrect security.protocol configuration (connecting to a SSL listener?)"@,
    ) {
        Some(KafkaErrorView::SSLAuthenticationRequired)
    } else if occurs_in(message, "probably due to broker version < 0.10"@) {
        Some(KafkaErrorView::UnsupportedBrokerVersion)
    } else if occurs_in(message, "Disconnected while requesting ApiVersion"@) || occurs_in(
        message,
        "Broker transport failure"@,
    ) {
        Some(KafkaErrorView::BrokerTransportFailure)
    } else {
        None
    }
}

/// The error a log message stands for, if it has one. `broker_count` is
/// what the search for [`ALL_BROKERS_DOWN_PATTERN`] in the message gave; a
/// search that gave nothing counts as no match.
pub open spec fn classify(message: Seq<char>, broker_count: Option<bool>) -> Option<
    KafkaErrorView,
> {
    if classify_before_broker_count(message) is Some {
        classify_before_broker_count(message)
    } else if broker_count == Some(true) {
        Some(KafkaErrorView::AllBrokersDown)
    } else if occurs_in(message, "Unknown topic or partition"@) || occurs_in(
        message,
        "Unknown partition"@,
    ) {
        Some(KafkaErrorView::UnknownTopicOrPartition)
    } else {
        None
    }
}

/// The text an error is shown as.
pub open spec fn message_of(error: KafkaErrorView) -> Seq<char> {
    match error {
        KafkaErrorView::InvalidCredentials => "Invalid username or password"@,
        KafkaErrorView::InvalidCACertificate => "Invalid CA certificate"@,
        KafkaErrorView::SSLEncryptionMaybeRequired => "Disconnected during handshake; broker might require SSL encryption"@,
        KafkaErrorView::SSLUnsupported => "Broker does not support SSL connections"@,
        KafkaErrorView::BrokerCertificateMissing => "Broker did not provide a certificate"@,
        KafkaErrorView::InvalidBrokerCertificate => "Failed to verify broker certificate"@,
        KafkaErrorView::ConnectionReset(detail) => "Connection reset: "@ + detail,
        KafkaErrorView::ConnectionTimeout => "Connection timeout"@,
        KafkaErrorView::HostnameResolutionFailed => "Failed to resolve hostname"@,
        KafkaErrorView::UnsupportedSASLMechanism => "Unsupported SASL mechanism"@,
        KafkaErrorView::UnsupportedBrokerVersion => "Unsupported broker version"@,
        KafkaErrorView::BrokerTransportFailure => "Broker transport failure"@,
        KafkaErrorView::AllBrokersDown => "All brokers down"@,
        KafkaErrorView::SASLAuthenticationRequired => "SASL authentication required"@,
        KafkaErrorView::SSLAuthenticationRequired => "SSL authentication required"@,
        KafkaErrorView::UnknownTopicOrPartition => "Unknown topic or partition"@,
        KafkaErrorView::Internal(detail) => "Internal kafka error: "@ + detail,
    }
}

/// The view of a parsed error.
pub open spec fn parsed_view(parsed: Result<MzKafkaError, ()>) -> Option<KafkaErrorView> {
    match parsed {
        Ok(error) => Some(error@),
        Err(_) => None,
    }
}

impl MzKafkaError {
    /// The part of the message after the first occurrence of `mark`, as a
    /// connection reset, if the mark occurs.
    fn connection_reset_after(message: &str, mark: &str) -> (r: Option<MzKafkaError>)
        ensures
            match r {
                Some(error) => occurs_in(message@, mark@) && error@
                    == KafkaErrorView::ConnectionReset(after_first(message@, mark@)),
                None => !occurs_in(message@, mark@),
            },
    {
        match split_once(message, mark) {
            Some((before, inner)) => {
                proof {
                    after_first_at(message@, mark@, before@.len() as int);
                }
                Some(MzKafkaError::ConnectionReset(inner.to_owned()))
            },
            None => None,
        }
    }

    /// Recognizes the marks that are looked for before the broker count.
    fn classify_marks(s: &str) -> (r: Option<MzKafkaError>)
        ensures
            match r {
                Some(error) => classify_before_broker_count(s@) == Some(error@),
                None => classify_before_broker_count(s@) is None,
            },
    {
        if contains(s, "Authentication failed: Invalid username or password") {
            Some(MzKafkaError::InvalidCredentials)
        } else if contains(s, "broker certificate could not be verified") {
            Some(MzKafkaError::InvalidCACertificate)
        } else if contains(s, "connecting to a SSL listener?") {
            Some(MzKafkaError::SSLEncryptionMaybeRequired)
        } else if contains(s, "client SSL authentication might be required") {
            Some(MzKafkaError::SSLAuthenticationRequired)
        } else if contains(s, "connecting to a PLAINTEXT broker listener") {
            Some(MzKafkaError::SSLUnsupported)
        } else if contains(s, "Broker did not provide a certificate") {
            Some(MzKafkaError::BrokerCertificateMissing)
        } else if contains(s, "Failed to verify broker certificate: ") {
            Some(MzKafkaError::InvalidBrokerCertificate)
        } else if let Some(reset) = Self::connection_reset_after(s, "Send failed: ") {
            Some(reset)
        } else if let Some(reset) = Self::connection_reset_after(s, "Receive failed: ") {
            Some(reset)
        } else if contains(s, "request(s) timed out: disconnect") {
            Some(MzKafkaError::ConnectionTimeout)
        } else if contains(s, "Failed to resolve") {
            Some(MzKafkaError::HostnameResolutionFailed)
        } else if contains(s, "mechanism handshake failed:") {
            Some(MzKafkaError::UnsupportedSASLMechanism)
        } else if contains(
            s,
            "verify that security.protocol is correctly configured, broker might require SASL authentication",
        ) {
            Some(MzKafkaError::SASLAuthenticationRequired)
        } else if contains(
            s,
            "incorrect security.protocol configuration (connecting to a SSL listener?)",
        ) {
            Some(MzKafkaError::SSLAuthenticationRequired)
        } else if contains(s, "probably due to broker version < 0.10") {
            Some(MzKafkaError::UnsupportedBrokerVersion)
        } else if contains(s, "Disconnected while requesting ApiVersion") || contains(
            s,
            "Broker transport failure",
        ) {
            Some(MzKafkaError::BrokerTransportFailure)
        } else {
            None
        }
    }

    /// Parses a log message, given what the search for
    /// [`ALL_BROKERS_DOWN_PATTERN`] in it gave.
    pub fn from_str_with(s: &str, broker_count: Option<bool>) -> (r: Result<MzKafkaError, ()>)
        ensures
            parsed_view(r) == classify(s@, broker_count),
    {
        if let Some(error) = Self::classify_marks(s) {
            return Ok(error);
        }
        let all_down = match broker_count {
            Some(found) => found,
            None => false,
        };
        if all_down {
            Ok(MzKafkaError::AllBrokersDown)
        } else if contains(s, "Unknown topic or partition") || contains(s, "Unknown partition") {
            Ok(MzKafkaError::UnknownTopicOrPartition)
        } else {
            Err(())
        }
    }

    /// Parses a log message into the error it stands for. A message that
    /// bears none of the known marks is no error.
    pub fn from_str(s: &str) -> (r: Result<MzKafkaError, ()>)
        ensures
            parsed_view(r) == classify(s@, search(ALL_BROKERS_DOWN_PATTERN@, s@)),
    {
        Self::from_str_with(s, is_match(ALL_BROKERS_DOWN_PATTERN, s))
    }

    /// The error a log message is recorded as: the error it parses to, or an
    /// internal error that keeps the whole message.
    pub fn from_log_message(message: &str) -> (error: MzKafkaError)
        ensures
            error@ == match classify(message@, search(ALL_BROKERS_DOWN_PATTERN@, message@)) {
                Some(parsed) => parsed,
                None => KafkaErrorView::Internal(message@),
            },
    {
        match Self::from_str(message) {
            Ok(error) => error,
            Err(_) => MzKafkaError::Internal(message.to_owned()),
        }
    }

    /// The text the error is shown as.
    pub fn message(&self) -> (text: String)
        ensures
            text@ == message_of(self@),
    {
        match self {
            MzKafkaError::InvalidCredentials => String::from_str("Invalid username or password"),
            MzKafkaError::InvalidCACertificate => String::from_str("Invalid CA certificate"),
            MzKafkaError::SSLEncryptionMaybeRequired => String::from_str(
                "Disconnected during handshake; broker might require SSL encryption",
            ),
            MzKafkaError::SSLUnsupported => String::from_str(
                "Broker does not support SSL connections",
            ),
            MzKafkaError::BrokerCertificateMissing => String::from_str(
                "Broker did not provide a certificate",
            ),
            MzKafkaError::InvalidBrokerCertificate => String::from_str(
                "Failed to verify broker certificate",
            ),
            MzKafkaError::ConnectionReset(detail) => String::from_str("Connection reset: ").concat(
                detail.as_str(),
            ),
            MzKafkaError::ConnectionTimeout => String::from_str("Connection timeout"),
            MzKafkaError::HostnameResolutionFailed => String::from_str(
                "Failed to resolve hostname",
            ),
            MzKafkaError::UnsupportedSASLMechanism => String::from_str(
                "Unsupported SASL mechanism",
            ),
            MzKafkaError::UnsupportedBrokerVersion => String::from_str(
                "Unsupported broker version",
            ),
            MzKafkaError::BrokerTransportFailure => String::from_str("Broker transport failure"),
            MzKafkaError::AllBrokersDown => String::from_str("All brokers down"),
            MzKafkaError::SASLAuthenticationRequired => String::from_str(
                "SASL authentication required",
            ),
            MzKafkaError::SSLAuthenticationRequired => String::from_str(
                "SSL authentication required",
            ),
            MzKafkaError::UnknownTopicOrPartition => String::from_str(
                "Unknown topic or partition",
            ),
            MzKafkaError::Internal(detail) => String::from_str("Internal kafka error: ").concat(
                detail.as_str(),
            ),
        }
    }
}

} // verus!
