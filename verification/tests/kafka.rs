use durable_catalog::kafka::config::{
    create_new_client_config, create_new_client_config_simple, is_error_event, log_line, LogLevel,
    Setting, Verbosity,
};
use durable_catalog::kafka::decimal::to_decimal;
use durable_catalog::kafka::error::MzKafkaError;
use durable_catalog::kafka::partitions::{
    get_partitions, GetPartitionsError, MetadataErrorCode, PartitionMetadata, TopicMetadata,
};
use durable_catalog::kafka::rewrite::{
    combine, plan_rewrite, record_failed_tunnel, status_without_tunnel, store_connected_tunnel,
    tunnel_status, unresolvable_addr, BrokerAddr, BrokerRewrite, RewriteKind, RewritePlan,
    SshTunnelStatus, TunnelUpdate,
};
use durable_catalog::kafka::timeout::{Duration, TimeoutConfig};

fn secs(n: u64) -> Duration {
    Duration::from_secs(n)
}

fn millis(n: u64) -> Duration {
    Duration::from_millis(n)
}

#[test]
fn durations() {
    assert_eq!(secs(60).as_millis(), 60_000);
    assert_eq!(secs(60).as_secs(), 60);
    assert_eq!(millis(1_999).as_secs(), 1);
    assert_eq!(millis(1_999).subsec(), 999_000_000);
    assert_eq!(millis(1_999).as_millis(), 1_999);
    assert_eq!(Duration::new(1, 2_500_000_000).unwrap(), Duration::new(3, 500_000_000).unwrap());
    assert_eq!(Duration::new(0, 1_999_999).unwrap().as_millis(), 1);
    assert_eq!(Duration::new(u64::MAX, 999_999_999).unwrap().as_millis(), 18_446_744_073_709_551_615_999);
    assert_eq!(Duration::new(u64::MAX, 1_000_000_000), None);
    assert!(millis(999).is_shorter_than(&secs(1)));
    assert!(!secs(1).is_shorter_than(&secs(1)));
    assert!(Duration::new(1, 1).unwrap().is_shorter_than(&Duration::new(1, 2).unwrap()));
    assert!(!secs(2).is_shorter_than(&Duration::new(1, 999_999_999).unwrap()));
}

#[test]
fn default_timeouts() {
    let config = TimeoutConfig::default();
    assert!(config.keepalive);
    assert_eq!(config.socket_timeout, secs(60));
    assert_eq!(config.transaction_timeout, secs(60));
    assert_eq!(config.socket_connection_setup_timeout, secs(30));
    assert_eq!(config.fetch_metadata_timeout, secs(10));
    assert_eq!(config.progress_record_fetch_timeout, secs(90));
}

#[test]
fn build_keeps_values_in_range() {
    let config = TimeoutConfig::build(false, secs(20), secs(30), secs(5), secs(7), secs(45));
    assert_eq!(
        config,
        TimeoutConfig {
            keepalive: false,
            socket_timeout: secs(20),
            transaction_timeout: secs(30),
            socket_connection_setup_timeout: secs(5),
            fetch_metadata_timeout: secs(7),
            // A fetch timeout that is long enough is replaced by the transaction timeout.
            progress_record_fetch_timeout: secs(30),
        }
    );
}

#[test]
fn build_defaults_transaction_timeout_out_of_range() {
    // Longer than the client accepts.
    let config =
        TimeoutConfig::build(true, secs(20), millis(2_147_483_648), secs(5), secs(7), secs(90));
    assert_eq!(config.transaction_timeout, secs(60));
    // The largest accepted value stays.
    let config =
        TimeoutConfig::build(true, secs(20), millis(2_147_483_647), secs(5), secs(7), secs(90));
    assert_eq!(config.transaction_timeout, millis(2_147_483_647));
    assert_eq!(config.progress_record_fetch_timeout, secs(90));
    // A socket timeout under a second defaults the transaction timeout.
    let config = TimeoutConfig::build(true, millis(999), secs(30), secs(5), secs(7), secs(90));
    assert_eq!(config.transaction_timeout, secs(60));
    assert_eq!(config.socket_timeout, millis(999));
    let config = TimeoutConfig::build(true, millis(1000), secs(30), secs(5), secs(7), secs(90));
    assert_eq!(config.transaction_timeout, secs(30));
}

#[test]
fn build_defaults_progress_record_fetch_timeout_shorter_than_transaction() {
    let config = TimeoutConfig::build(true, secs(20), secs(30), secs(5), secs(7), secs(29));
    assert_eq!(config.progress_record_fetch_timeout, secs(90));
    let config = TimeoutConfig::build(true, secs(20), secs(30), secs(5), secs(7), secs(30));
    assert_eq!(config.progress_record_fetch_timeout, secs(30));
}

#[test]
fn build_defaults_socket_timeout_out_of_range() {
    // More than 100 ms over the transaction timeout.
    let config = TimeoutConfig::build(true, millis(30_101), secs(30), secs(5), secs(7), secs(90));
    assert_eq!(config.socket_timeout, secs(60));
    let config = TimeoutConfig::build(true, millis(30_100), secs(30), secs(5), secs(7), secs(90));
    assert_eq!(config.socket_timeout, millis(30_100));
    // Over the client's own maximum.
    let config = TimeoutConfig::build(true, millis(300_001), secs(400), secs(5), secs(7), secs(900));
    assert_eq!(config.socket_timeout, secs(60));
    let config = TimeoutConfig::build(true, millis(300_000), secs(400), secs(5), secs(7), secs(900));
    assert_eq!(config.socket_timeout, millis(300_000));
    // Under ten milliseconds; the transaction timeout is defaulted first.
    let config = TimeoutConfig::build(true, millis(9), secs(30), secs(5), secs(7), secs(90));
    assert_eq!(config.socket_timeout, secs(60));
    assert_eq!(config.transaction_timeout, secs(60));
}

#[test]
fn build_defaults_connection_setup_timeout_out_of_range() {
    let config =
        TimeoutConfig::build(true, secs(20), secs(30), millis(2_147_483_648), secs(7), secs(90));
    assert_eq!(config.socket_connection_setup_timeout, secs(30));
    let config =
        TimeoutConfig::build(true, secs(20), secs(30), millis(2_147_483_647), secs(7), secs(90));
    assert_eq!(config.socket_connection_setup_timeout, millis(2_147_483_647));
    // The socket timeout in use is never under ten milliseconds, so a short one has no effect.
    let config = TimeoutConfig::build(true, millis(5), secs(30), millis(3), secs(7), secs(90));
    assert_eq!(config.socket_connection_setup_timeout, millis(3));
}

#[test]
fn decimal_notation() {
    assert_eq!(to_decimal(0), "0");
    assert_eq!(to_decimal(7), "7");
    assert_eq!(to_decimal(10), "10");
    assert_eq!(to_decimal(1337), "1337");
    assert_eq!(to_decimal(9_876_543_210), "9876543210");
    assert_eq!(to_decimal(u128::MAX), u128::MAX.to_string());
}

#[test]
fn parses_marked_messages() {
    let cases: Vec<(&str, MzKafkaError)> = vec![
        (
            "SASL: Authentication failed: Invalid username or password",
            MzKafkaError::InvalidCredentials,
        ),
        ("the broker certificate could not be verified", MzKafkaError::InvalidCACertificate),
        ("are you connecting to a SSL listener?", MzKafkaError::SSLEncryptionMaybeRequired),
        (
            "client SSL authentication might be required",
            MzKafkaError::SSLAuthenticationRequired,
        ),
        ("connecting to a PLAINTEXT broker listener", MzKafkaError::SSLUnsupported),
        ("Broker did not provide a certificate", MzKafkaError::BrokerCertificateMissing),
        ("Failed to verify broker certificate: expired", MzKafkaError::InvalidBrokerCertificate),
        ("4 request(s) timed out: disconnect", MzKafkaError::ConnectionTimeout),
        ("Failed to resolve 'kafka:9092'", MzKafkaError::HostnameResolutionFailed),
        ("SASL PLAIN mechanism handshake failed:", MzKafkaError::UnsupportedSASLMechanism),
        (
            "verify that security.protocol is correctly configured, broker might require SASL authentication",
            MzKafkaError::SASLAuthenticationRequired,
        ),
        ("probably due to broker version < 0.10", MzKafkaError::UnsupportedBrokerVersion),
        ("Disconnected while requesting ApiVersion", MzKafkaError::BrokerTransportFailure),
        ("Local: Broker transport failure", MzKafkaError::BrokerTransportFailure),
        ("Unknown topic or partition", MzKafkaError::UnknownTopicOrPartition),
        ("Broker: Unknown partition", MzKafkaError::UnknownTopicOrPartition),
    ];
    for (message, expected) in cases {
        assert_eq!(MzKafkaError::from_str(message), Ok(expected), "{}", message);
    }
}

#[test]
fn earlier_marks_win() {
    assert_eq!(
        MzKafkaError::from_str(
            "incorrect security.protocol configuration (connecting to a SSL listener?)"
        ),
        Ok(MzKafkaError::SSLEncryptionMaybeRequired)
    );
    assert_eq!(
        MzKafkaError::from_str("Unknown partition; 2/2 brokers are down"),
        Ok(MzKafkaError::AllBrokersDown)
    );
    assert_eq!(
        MzKafkaError::from_str("2/2 brokers are down: Broker transport failure"),
        Ok(MzKafkaError::BrokerTransportFailure)
    );
}

#[test]
fn connection_reset_keeps_what_follows_the_first_mark() {
    assert_eq!(
        MzKafkaError::from_str("kafka:9092: Send failed: Broken pipe"),
        Ok(MzKafkaError::ConnectionReset("Broken pipe".to_string()))
    );
    assert_eq!(
        MzKafkaError::from_str("Receive failed: reset: Receive failed: again"),
        Ok(MzKafkaError::ConnectionReset("reset: Receive failed: again".to_string()))
    );
    assert_eq!(
        MzKafkaError::from_str("Receive failed: a Send failed: b"),
        Ok(MzKafkaError::ConnectionReset("b".to_string()))
    );
    assert_eq!(
        MzKafkaError::from_str("Send failed: "),
        Ok(MzKafkaError::ConnectionReset(String::new()))
    );
}

#[test]
fn all_brokers_down_needs_the_same_number_twice() {
    assert_eq!(MzKafkaError::from_str("3/3 brokers are down"), Ok(MzKafkaError::AllBrokersDown));
    assert_eq!(MzKafkaError::from_str("12/12 brokers are down"), Ok(MzKafkaError::AllBrokersDown));
    assert_eq!(MzKafkaError::from_str("2/3 brokers are down"), Err(()));
    assert_eq!(MzKafkaError::from_str("brokers are down"), Err(()));
}

#[test]
fn unmarked_message_is_no_error() {
    assert_eq!(MzKafkaError::from_str(""), Err(()));
    assert_eq!(MzKafkaError::from_str("everything is fine"), Err(()));
    assert_eq!(MzKafkaError::from_str("send failed: lower case"), Err(()));
}

#[test]
fn from_str_with_takes_the_broker_count_as_given() {
    assert_eq!(
        MzKafkaError::from_str_with("nothing to see", Some(true)),
        Ok(MzKafkaError::AllBrokersDown)
    );
    assert_eq!(MzKafkaError::from_str_with("3/3 brokers are down", Some(false)), Err(()));
    assert_eq!(MzKafkaError::from_str_with("3/3 brokers are down", None), Err(()));
    assert_eq!(
        MzKafkaError::from_str_with("Unknown partition", None),
        Ok(MzKafkaError::UnknownTopicOrPartition)
    );
    assert_eq!(
        MzKafkaError::from_str_with("Failed to resolve", Some(true)),
        Ok(MzKafkaError::HostnameResolutionFailed)
    );
}

#[test]
fn unparsed_log_message_is_recorded_as_internal() {
    assert_eq!(
        MzKafkaError::from_log_message("something odd"),
        MzKafkaError::Internal("something odd".to_string())
    );
    assert_eq!(
        MzKafkaError::from_log_message("1/1 brokers are down"),
        MzKafkaError::AllBrokersDown
    );
}

#[test]
fn error_messages() {
    assert_eq!(MzKafkaError::InvalidCredentials.message(), "Invalid username or password");
    assert_eq!(MzKafkaError::InvalidCACertificate.message(), "Invalid CA certificate");
    assert_eq!(
        MzKafkaError::SSLEncryptionMaybeRequired.message(),
        "Disconnected during handshake; broker might require SSL encryption"
    );
    assert_eq!(MzKafkaError::SSLUnsupported.message(), "Broker does not support SSL connections");
    assert_eq!(
        MzKafkaError::BrokerCertificateMissing.message(),
        "Broker did not provide a certificate"
    );
    assert_eq!(
        MzKafkaError::InvalidBrokerCertificate.message(),
        "Failed to verify broker certificate"
    );
    assert_eq!(
        MzKafkaError::ConnectionReset("Broken pipe".to_string()).message(),
        "Connection reset: Broken pipe"
    );
    assert_eq!(MzKafkaError::ConnectionTimeout.message(), "Connection timeout");
    assert_eq!(MzKafkaError::HostnameResolutionFailed.message(), "Failed to resolve hostname");
    assert_eq!(MzKafkaError::UnsupportedSASLMechanism.message(), "Unsupported SASL mechanism");
    assert_eq!(MzKafkaError::UnsupportedBrokerVersion.message(), "Unsupported broker version");
    assert_eq!(MzKafkaError::BrokerTransportFailure.message(), "Broker transport failure");
    assert_eq!(MzKafkaError::AllBrokersDown.message(), "All brokers down");
    assert_eq!(MzKafkaError::SASLAuthenticationRequired.message(), "SASL authentication required");
    assert_eq!(MzKafkaError::SSLAuthenticationRequired.message(), "SSL authentication required");
    assert_eq!(MzKafkaError::UnknownTopicOrPartition.message(), "Unknown topic or partition");
    assert_eq!(
        MzKafkaError::Internal("boom".to_string()).message(),
        "Internal kafka error: boom"
    );
}

fn addr(host: &str, port: &str) -> BrokerAddr {
    BrokerAddr { host: host.to_string(), port: port.to_string() }
}

#[test]
fn rewrite_replaces_host_and_named_port() {
    let broker = addr("kafka-1", "9092");
    let with_port = BrokerRewrite { host: "127.0.0.1".to_string(), port: Some(40123) };
    assert_eq!(with_port.apply(&broker), addr("127.0.0.1", "40123"));
    let without_port = BrokerRewrite { host: "proxy".to_string(), port: None };
    assert_eq!(without_port.apply(&broker), addr("proxy", "9092"));
    let zero = BrokerRewrite { host: "h".to_string(), port: Some(0) };
    assert_eq!(zero.apply(&broker), addr("h", "0"));
    let max = BrokerRewrite { host: "h".to_string(), port: Some(u16::MAX) };
    assert_eq!(max.apply(&broker), addr("h", "65535"));
    assert_eq!(unresolvable_addr(), addr("failed-ssh-tunnel.dev.materialize.com", "1337"));
}

#[test]
fn rewrite_plans() {
    for has_default in [false, true] {
        assert_eq!(plan_rewrite(Some(RewriteKind::Simple), has_default), RewritePlan::UseEntry);
        assert_eq!(plan_rewrite(Some(RewriteKind::SshTunnel), has_default), RewritePlan::UseEntry);
    }
    assert_eq!(plan_rewrite(None, true), RewritePlan::ConnectDefaultTunnel);
    assert_eq!(plan_rewrite(None, false), RewritePlan::KeepAddress);
    assert_eq!(
        plan_rewrite(Some(RewriteKind::FailedDefaultSshTunnel), true),
        RewritePlan::ConnectDefaultTunnel
    );
    assert_eq!(
        plan_rewrite(Some(RewriteKind::FailedDefaultSshTunnel), false),
        RewritePlan::KeepAddress
    );
    assert_eq!(store_connected_tunnel(None), TunnelUpdate::StoreTunnel);
    assert_eq!(
        store_connected_tunnel(Some(RewriteKind::FailedDefaultSshTunnel)),
        TunnelUpdate::StoreTunnel
    );
    assert_eq!(store_connected_tunnel(Some(RewriteKind::Simple)), TunnelUpdate::KeepEntry);
    assert_eq!(store_connected_tunnel(Some(RewriteKind::SshTunnel)), TunnelUpdate::KeepEntry);
    assert!(record_failed_tunnel(None));
    assert!(!record_failed_tunnel(Some(RewriteKind::Simple)));
    assert!(!record_failed_tunnel(Some(RewriteKind::FailedDefaultSshTunnel)));
}

#[test]
fn tunnel_statuses_are_consolidated_in_order() {
    let errored = |reason: &str| SshTunnelStatus::Errored(reason.to_string());
    assert_eq!(tunnel_status(&Vec::new()), SshTunnelStatus::Running);
    assert_eq!(
        tunnel_status(&vec![SshTunnelStatus::Running, SshTunnelStatus::Running]),
        SshTunnelStatus::Running
    );
    assert_eq!(
        tunnel_status(&vec![SshTunnelStatus::Running, errored("a"), SshTunnelStatus::Running]),
        errored("a")
    );
    assert_eq!(
        tunnel_status(&vec![errored("a"), SshTunnelStatus::Running, errored("b"), errored("c")]),
        errored("a, b, c")
    );
    assert_eq!(combine(errored("x"), errored("y")), errored("x, y"));
    assert_eq!(combine(SshTunnelStatus::Running, errored("y")), errored("y"));
    assert_eq!(combine(errored("x"), SshTunnelStatus::Running), errored("x"));
    assert_eq!(status_without_tunnel(None), SshTunnelStatus::Running);
    assert_eq!(status_without_tunnel(Some(&"down".to_string())), errored("down"));
}

fn topic(name: &str, error: Option<MetadataErrorCode>, partitions: Vec<PartitionMetadata>) -> TopicMetadata {
    TopicMetadata { name: name.to_string(), error, partitions }
}

fn partition(id: i32) -> PartitionMetadata {
    PartitionMetadata { id, error: None }
}

#[test]
fn partitions_of_a_healthy_topic() {
    let topics = vec![topic("t", None, vec![partition(0), partition(1), partition(5)])];
    assert_eq!(get_partitions(&topics, "t"), Ok(vec![0, 1, 5]));
}

#[test]
fn partitions_errors() {
    assert_eq!(
        get_partitions(&Vec::new(), "t"),
        Err(GetPartitionsError::UnexpectedEntries { count: 0 })
    );
    let two = vec![topic("t", None, vec![partition(0)]), topic("u", None, vec![partition(0)])];
    assert_eq!(get_partitions(&two, "t"), Err(GetPartitionsError::UnexpectedEntries { count: 2 }));

    for code in [MetadataErrorCode::UnknownTopic, MetadataErrorCode::UnknownTopicOrPartition] {
        let topics = vec![topic("t", Some(code), vec![partition(0)])];
        assert_eq!(get_partitions(&topics, "t"), Err(GetPartitionsError::TopicDoesNotExist));
    }
    let topics = vec![topic("other", Some(MetadataErrorCode::Other(7)), vec![])];
    assert_eq!(get_partitions(&topics, "t"), Err(GetPartitionsError::Code(7)));

    let topics = vec![topic("other", None, vec![partition(0)])];
    assert_eq!(
        get_partitions(&topics, "t"),
        Err(GetPartitionsError::WrongTopic { name: "other".to_string() })
    );

    let topics = vec![topic(
        "t",
        None,
        vec![
            partition(0),
            PartitionMetadata { id: 1, error: Some(MetadataErrorCode::Other(-3)) },
            PartitionMetadata { id: 2, error: Some(MetadataErrorCode::UnknownTopic) },
        ],
    )];
    assert_eq!(get_partitions(&topics, "t"), Err(GetPartitionsError::Code(-3)));

    let topics = vec![topic("t", None, vec![])];
    assert_eq!(get_partitions(&topics, "t"), Err(GetPartitionsError::TopicDoesNotExist));
}

#[test]
fn partitions_error_messages() {
    assert_eq!(GetPartitionsError::TopicDoesNotExist.message("t"), "Topic does not exist");
    assert_eq!(
        GetPartitionsError::UnexpectedEntries { count: 2 }.message("t"),
        "topic t has 2 metadata entries; expected 1"
    );
    assert_eq!(
        GetPartitionsError::WrongTopic { name: "u".to_string() }.message("t"),
        "got results for wrong topic u (expected t)"
    );
    assert_eq!(GetPartitionsError::Code(17).message("t"), "broker error code 17");
    assert_eq!(GetPartitionsError::Code(-195).message("t"), "broker error code -195");
    assert_eq!(
        GetPartitionsError::Code(i32::MIN).message("t"),
        "broker error code -2147483648"
    );
}

fn setting(key: &str, value: &str) -> Setting {
    Setting { key: key.to_string(), value: value.to_string() }
}

#[test]
fn client_config_settings() {
    let timeouts = TimeoutConfig::build(true, secs(20), secs(30), millis(1500), secs(7), secs(90));
    let config = create_new_client_config(Verbosity::Debug, timeouts);
    assert_eq!(config.log_level, LogLevel::Debug);
    assert_eq!(
        config.settings,
        vec![
            setting("debug", "all"),
            setting("socket.keepalive.enable", "true"),
            setting("socket.timeout.ms", "20000"),
            setting("transaction.timeout.ms", "30000"),
            setting("socket.connection.setup.timeout.ms", "1500"),
        ]
    );
    let quiet = TimeoutConfig { keepalive: false, ..timeouts };
    let config = create_new_client_config(Verbosity::Warn, quiet);
    assert_eq!(config.log_level, LogLevel::Warning);
    assert_eq!(
        config.settings,
        vec![
            setting("socket.timeout.ms", "20000"),
            setting("transaction.timeout.ms", "30000"),
            setting("socket.connection.setup.timeout.ms", "1500"),
        ]
    );
    assert_eq!(create_new_client_config(Verbosity::Trace, quiet).log_level, LogLevel::Debug);
    assert_eq!(create_new_client_config(Verbosity::Trace, quiet).settings[0], setting("debug", "all"));
    assert_eq!(create_new_client_config(Verbosity::Info, quiet).log_level, LogLevel::Info);
    assert_eq!(create_new_client_config(Verbosity::Error, quiet).log_level, LogLevel::Error);
}

#[test]
fn simple_client_config_uses_defaults() {
    let config = create_new_client_config_simple();
    assert_eq!(config.log_level, LogLevel::Info);
    assert_eq!(
        config.settings,
        vec![
            setting("socket.keepalive.enable", "true"),
            setting("socket.timeout.ms", "60000"),
            setting("transaction.timeout.ms", "60000"),
            setting("socket.connection.setup.timeout.ms", "30000"),
        ]
    );
}

#[test]
fn logged_events() {
    for level in [LogLevel::Emerg, LogLevel::Alert, LogLevel::Critical, LogLevel::Error] {
        assert!(is_error_event(level, "ANY"));
        assert_eq!(level.severity(), Verbosity::Warn);
        assert_eq!(log_line(level, "FAC", "message"), "error: FAC message");
    }
    for level in [LogLevel::Warning, LogLevel::Notice, LogLevel::Info, LogLevel::Debug] {
        assert!(!is_error_event(level, "ANY"));
        assert!(!is_error_event(level, "fail"));
        assert!(is_error_event(level, "FAIL"));
    }
    assert_eq!(LogLevel::Warning.severity(), Verbosity::Warn);
    assert_eq!(LogLevel::Notice.severity(), Verbosity::Info);
    assert_eq!(LogLevel::Info.severity(), Verbosity::Info);
    assert_eq!(LogLevel::Debug.severity(), Verbosity::Debug);
    assert_eq!(log_line(LogLevel::Warning, "FAC", "message"), "warning: FAC message");
    assert_eq!(log_line(LogLevel::Notice, "FAC", "message"), "FAC message");
    assert_eq!(log_line(LogLevel::Debug, "", ""), " ");
}
