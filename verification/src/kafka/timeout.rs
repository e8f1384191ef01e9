//! Timeouts of Kafka connections and the rules that keep them in range.
use vstd::prelude::*;

verus! {

/// Nanoseconds in a second.
pub const NANOS_PER_SEC: u32 = 1_000_000_000;

/// Nanoseconds in a millisecond.
pub const NANOS_PER_MILLI: u32 = 1_000_000;

/// A span of time: whole seconds and a rest of less than a second, in
/// nanoseconds.
#[derive(Clone, Copy, Debug, PartialEq, Eq, Structural)]
pub struct Duration {
    secs: u64,
    nanos: u32,
}

impl Duration {
    /// The whole seconds of the span.
    pub closed spec fn secs(self) -> nat {
        self.secs as nat
    }

    /// The rest of the span below a second, in nanoseconds.
    pub closed spec fn subsec_nanos(self) -> nat {
        self.nanos as nat
    }

    /// The rest is always less than a second.
    #[verifier::type_invariant]
    closed spec fn rest_below_a_second(self) -> bool {
        self.nanos < NANOS_PER_SEC
    }

    /// The span in nanoseconds.
    pub open spec fn total_nanos(self) -> nat {
        self.secs() * 1_000_000_000 + self.subsec_nanos()
    }

    /// The span in whole milliseconds, rounded down.
    pub open spec fn millis(self) -> nat {
        self.secs() * 1000 + self.subsec_nanos() / 1_000_000
    }

    /// Whether `self` is strictly shorter than `other`.
    pub open spec fn shorter_than(self, other: Duration) -> bool {
        self.total_nanos() < other.total_nanos()
    }

    /// The span of `secs` whole seconds.
    pub closed spec fn seconds(secs: u64) -> Duration {
        Duration { secs, nanos: 0 }
    }

    /// A span of whole seconds.
    pub fn from_secs(secs: u64) -> (d: Duration)
        ensures
            d == Duration::seconds(secs),
            d.secs() == secs,
            d.subsec_nanos() == 0,
    {
        Duration { secs, nanos: 0 }
    }

    /// A span of milliseconds.
    pub fn from_millis(millis: u64) -> (d: Duration)
        ensures
            d.secs() == millis / 1000,
            d.subsec_nanos() == (millis % 1000) * 1_000_000,
            d.millis() == millis,
    {
        let rest: u32 = (millis % 1000) as u32;
        Duration { secs: millis / 1000, nanos: rest * NANOS_PER_MILLI }
    }

    /// A span of seconds and nanoseconds, or `None` if the nanoseconds
    /// carried into the seconds overflow them.
    pub fn new(secs: u64, nanos: u32) -> (d: Option<Duration>)
        ensures
            match d {
                Some(d) => d.total_nanos() == secs * 1_000_000_000 + nanos,
                None => secs + nanos / 1_000_000_000 > u64::MAX,
            },
    {
        let carry: u64 = (nanos / NANOS_PER_SEC) as u64;
        if secs > u64::MAX - carry {
            None
        } else {
            Some(Duration { secs: secs + carry, nanos: nanos % NANOS_PER_SEC })
        }
    }

    /// The whole seconds of the span.
    pub fn as_secs(&self) -> (s: u64)
        ensures
            s == self.secs(),
    {
        self.secs
    }

    /// The rest of the span below a second, in nanoseconds.
    pub fn subsec(&self) -> (n: u32)
        ensures
            n == self.subsec_nanos(),
            n < 1_000_000_000,
    {
        proof {
            use_type_invariant(self);
        }
        self.nanos
    }

    /// The span in whole milliseconds, rounded down.
    pub fn as_millis(&self) -> (m: u128)
        ensures
            m == self.millis(),
    {
        let secs: u128 = self.secs as u128;
        let rest: u128 = (self.nanos / NANOS_PER_MILLI) as u128;
        secs * 1000 + rest
    }

    /// Whether `self` is strictly shorter than `other`.
    pub fn is_shorter_than(&self, other: &Duration) -> (r: bool)
        ensures
            r == self.shorter_than(*other),
    {
        proof {
            use_type_invariant(self);
            use_type_invariant(other);
        }
        if self.secs != other.secs {
            self.secs < other.secs
        } else {
            self.nanos < other.nanos
        }
    }
}

/// Keepalives have no downside, so they are on by default.
pub const DEFAULT_KEEPALIVE: bool = true;

/// The default socket timeout, in seconds.
pub const DEFAULT_SOCKET_TIMEOUT_SECS: u64 = 60;

/// The default transaction timeout, in seconds.
pub const DEFAULT_TRANSACTION_TIMEOUT_SECS: u64 = 60;

/// The default timeout for setting up a connection, in seconds.
pub const DEFAULT_SOCKET_CONNECTION_SETUP_TIMEOUT_SECS: u64 = 30;

/// The default timeout for fetching metadata or partitions, in seconds.
pub const DEFAULT_FETCH_METADATA_TIMEOUT_SECS: u64 = 10;

/// The default timeout for reading records from the progress topic, in
/// seconds: a little longer than the transaction timeout, to wait out stuck
/// producers.
pub const DEFAULT_PROGRESS_RECORD_FETCH_TIMEOUT_SECS: u64 = 90;

/// The default interval at which topic metadata is refreshed, in seconds.
pub const DEFAULT_TOPIC_METADATA_REFRESH_INTERVAL_SECS: u64 = 30;

/// The largest timeout the client accepts, in milliseconds.
pub const MAX_TIMEOUT_MILLIS: u128 = 2147483647;

/// The largest socket timeout the client accepts, in milliseconds.
pub const MAX_SOCKET_TIMEOUT_MILLIS: u128 = 300000;

/// By how many milliseconds the socket timeout may exceed the transaction
/// timeout.
pub const SOCKET_TIMEOUT_SLACK_MILLIS: u128 = 100;

/// Configurable timeouts for Kafka connections.
#[derive(Clone, Copy, Debug, PartialEq, Eq, Structural)]
pub struct TimeoutConfig {
    /// Whether TCP keepalives are enabled.
    pub keepalive: bool,
    /// The timeout for network requests.
    pub socket_timeout: Duration,
    /// The timeout for transactions.
    pub transaction_timeout: Duration,
    /// The timeout for setting up network connections.
    pub socket_connection_setup_timeout: Duration,
    /// The timeout for fetching metadata from upstream.
    pub fetch_metadata_timeout: Duration,
    /// The timeout for reading records from the progress topic.
    pub progress_record_fetch_timeout: Duration,
}

/// The transaction timeout that is used: the default when the requested one
/// is longer than the client accepts or when the requested socket timeout is
/// under a second, the requested one otherwise.
pub open spec fn checked_transaction_timeout(
    transaction_timeout: Duration,
    socket_timeout: Duration,
) -> Duration {
    if transaction_timeout.millis() > MAX_TIMEOUT_MILLIS || socket_timeout.millis() < 1000 {
        Duration::seconds(DEFAULT_TRANSACTION_TIMEOUT_SECS)
    } else {
        transaction_timeout
    }
}

/// The progress record fetch timeout that is used: the default when the
/// requested one is shorter than the transaction timeout in use, and that
/// transaction timeout otherwise.
pub open spec fn checked_progress_record_fetch_timeout(
    progress_record_fetch_timeout: Duration,
    transaction_timeout: Duration,
) -> Duration {
    if progress_record_fetch_timeout.shorter_than(transaction_timeout) {
        Duration::seconds(DEFAULT_PROGRESS_RECORD_FETCH_TIMEOUT_SECS)
    } else {
        transaction_timeout
    }
}

/// The longest socket timeout that goes with a transaction timeout, in
/// milliseconds.
pub open spec fn socket_timeout_limit(transaction_timeout: Duration) -> nat {
    if transaction_timeout.millis() + SOCKET_TIMEOUT_SLACK_MILLIS < MAX_SOCKET_TIMEOUT_MILLIS {
        transaction_timeout.millis() + SOCKET_TIMEOUT_SLACK_MILLIS as nat
    } else {
        MAX_SOCKET_TIMEOUT_MILLIS as nat
    }
}

/// The socket timeout that is used: the default when the requested one is
/// over the limit that goes with the transaction timeout in use or under
/// ten milliseconds, the requested one otherwise.
pub open spec fn checked_socket_timeout(
    socket_timeout: Duration,
    transaction_timeout: Duration,
) -> Duration {
    if socket_timeout.millis() > socket_timeout_limit(transaction_timeout)
        || socket_timeout.millis() < 10 {
        Duration::seconds(DEFAULT_SOCKET_TIMEOUT_SECS)
    } else {
        socket_timeout
    }
}

/// The connection setup timeout that is used: the default when the
/// requested one is longer than the client accepts or when the socket
/// timeout in use is under ten milliseconds, the requested one otherwise.
pub open spec fn checked_socket_connection_setup_timeout(
    socket_connection_setup_timeout: Duration,
    socket_timeout: Duration,
) -> Duration {
    if socket_connection_setup_timeout.millis() > MAX_TIMEOUT_MILLIS || socket_timeout.millis()
        < 10 {
        Duration::seconds(DEFAULT_SOCKET_CONNECTION_SETUP_TIMEOUT_SECS)
    } else {
        socket_connection_setup_timeout
    }
}

impl Default for TimeoutConfig {
    /// The default configuration.
    fn default() -> (config: TimeoutConfig)
        ensures
            config == TimeoutConfig::defaults(),
    {
        TimeoutConfig {
            keepalive: DEFAULT_KEEPALIVE,
            socket_timeout: Duration::from_secs(DEFAULT_SOCKET_TIMEOUT_SECS),
            transaction_timeout: Duration::from_secs(DEFAULT_TRANSACTION_TIMEOUT_SECS),
            socket_connection_setup_timeout: Duration::from_secs(
                DEFAULT_SOCKET_CONNECTION_SETUP_TIMEOUT_SECS,
            ),
            fetch_metadata_timeout: Duration::from_secs(DEFAULT_FETCH_METADATA_TIMEOUT_SECS),
            progress_record_fetch_timeout: Duration::from_secs(
                DEFAULT_PROGRESS_RECORD_FETCH_TIMEOUT_SECS,
            ),
        }
    }
}

impl TimeoutConfig {
    /// The configuration in which every timeout has its default.
    pub open spec fn defaults() -> TimeoutConfig {
        TimeoutConfig {
            keepalive: DEFAULT_KEEPALIVE,
            socket_timeout: Duration::seconds(DEFAULT_SOCKET_TIMEOUT_SECS),
            transaction_timeout: Duration::seconds(DEFAULT_TRANSACTION_TIMEOUT_SECS),
            socket_connection_setup_timeout: Duration::seconds(
                DEFAULT_SOCKET_CONNECTION_SETUP_TIMEOUT_SECS,
            ),
            fetch_metadata_timeout: Duration::seconds(DEFAULT_FETCH_METADATA_TIMEOUT_SECS),
            progress_record_fetch_timeout: Duration::seconds(
                DEFAULT_PROGRESS_RECORD_FETCH_TIMEOUT_SECS,
            ),
        }
    }

    /// The configuration that [`TimeoutConfig::build`] makes of the
    /// requested values. Each rule works with the timeouts already settled
    /// by the rules before it.
    pub open spec fn checked(
        keepalive: bool,
        socket_timeout: Duration,
        transaction_timeout: Duration,
        socket_connection_setup_timeout: Duration,
        fetch_metadata_timeout: Duration,
        progress_record_fetch_timeout: Duration,
    ) -> TimeoutConfig {
        let transaction = checked_transaction_timeout(transaction_timeout, socket_timeout);
        let socket = checked_socket_timeout(socket_timeout, transaction);
        TimeoutConfig {
            keepalive,
            socket_timeout: socket,
            transaction_timeout: transaction,
            socket_connection_setup_timeout: checked_socket_connection_setup_timeout(
                socket_connection_setup_timeout,
                socket,
            ),
            fetch_metadata_timeout,
            progress_record_fetch_timeout: checked_progress_record_fetch_timeout(
                progress_record_fetch_timeout,
                transaction,
            ),
        }
    }

    /// Builds a configuration from the requested values. A value outside
    /// the range the client supports is replaced by its default; nothing is
    /// refused. The timeouts that come out are within the client's limits:
    /// the transaction and connection setup timeouts are not longer than the
    /// client accepts, and the socket timeout is at least ten milliseconds.
    pub fn build(
        keepalive: bool,
        socket_timeout: Duration,
        transaction_timeout: Duration,
        socket_connection_setup_timeout: Duration,
        fetch_metadata_timeout: Duration,
        progress_record_fetch_timeout: Duration,
    ) -> (config: TimeoutConfig)
        ensures
            config == TimeoutConfig::checked(
                keepalive,
                socket_timeout,
                transaction_timeout,
                socket_connection_setup_timeout,
                fetch_metadata_timeout,
                progress_record_fetch_timeout,
            ),
            config.transaction_timeout.millis() <= MAX_TIMEOUT_MILLIS,
            config.socket_connection_setup_timeout.millis() <= MAX_TIMEOUT_MILLIS,
            config.socket_timeout.millis() >= 10,
    {
        let transaction_timeout = if transaction_timeout.as_millis() > MAX_TIMEOUT_MILLIS {
            Duration::from_secs(DEFAULT_TRANSACTION_TIMEOUT_SECS)
        } else if socket_timeout.as_millis() < 1000 {
            Duration::from_secs(DEFAULT_TRANSACTION_TIMEOUT_SECS)
        } else {
            transaction_timeout
        };

        let progress_record_fetch_timeout = if progress_record_fetch_timeout.is_shorter_than(
            &transaction_timeout,
        ) {
            Duration::from_secs(DEFAULT_PROGRESS_RECORD_FETCH_TIMEOUT_SECS)
        } else {
            transaction_timeout
        };

        let transaction_millis: u128 = transaction_timeout.as_millis();
        let limit: u128 = if transaction_millis + SOCKET_TIMEOUT_SLACK_MILLIS
            < MAX_SOCKET_TIMEOUT_MILLIS {
            transaction_millis + SOCKET_TIMEOUT_SLACK_MILLIS
        } else {
            MAX_SOCKET_TIMEOUT_MILLIS
        };
        let socket_timeout = if socket_timeout.as_millis() > limit {
            Duration::from_secs(DEFAULT_SOCKET_TIMEOUT_SECS)
        } else if socket_timeout.as_millis() < 10 {
            Duration::from_secs(DEFAULT_SOCKET_TIMEOUT_SECS)
        } else {
            socket_timeout
        };

        let socket_connection_setup_timeout = if socket_connection_setup_timeout.as_millis()
            > MAX_TIMEOUT_MILLIS {
            Duration::from_secs(DEFAULT_SOCKET_CONNECTION_SETUP_TIMEOUT_SECS)
        } else if socket_timeout.as_millis() < 10 {
            Duration::from_secs(DEFAULT_SOCKET_CONNECTION_SETUP_TIMEOUT_SECS)
        } else {
            socket_connection_setup_timeout
        };

        TimeoutConfig {
            keepalive,
            socket_timeout,
            transaction_timeout,
            socket_connection_setup_timeout,
            fetch_metadata_timeout,
            progress_record_fetch_timeout,
        }
    }
}

} // verus!
