use trippy_config::duration::{read_duration, within_digit_bound};
use trippy_config::validate::validate_multi;
use trippy_config::config::{max_rounds, resolve_port_direction, Args, ParsedDurations, TrippyConfig};
use trippy_config::types::{
    AddressMode, ConfigError, DnsResolveMethod, DurationField, ErrorKind, IpAddress, Mode,
    PortDirection, Span, TraceProtocol, TracerAddrFamily, TracerProtocol,
};

fn default_args() -> Args {
    Args {
        targets: vec!["example.com".to_string()],
        mode: Mode::Tui,
        protocol: TraceProtocol::Icmp,
        ipv4: false,
        ipv6: false,
        target_port: None,
        source_port: None,
        source_address: None,
        interface: None,
        min_round_duration: "1s".to_string(),
        max_round_duration: "1s".to_string(),
        initial_sequence: 33000,
        grace_duration: "100ms".to_string(),
        max_inflight: 24,
        first_ttl: 1,
        max_ttl: 64,
        packet_size: 84,
        payload_pattern: 0,
        tos: 0,
        dns_resolve_method: DnsResolveMethod::System,
        dns_timeout: "5s".to_string(),
        dns_lookup_as_info: false,
        tui_address_mode: AddressMode::Host,
        tui_max_addrs: None,
        tui_max_samples: 256,
        tui_preserve_screen: false,
        tui_refresh_rate: "100ms".to_string(),
        report_cycles: 10,
    }
}

fn build(args: Args) -> Result<TrippyConfig, ConfigError> {
    TrippyConfig::try_from((args, 4000), None)
}

fn err_of(args: Args) -> ConfigError {
    build(args).unwrap_err()
}

fn millis(ms: u32) -> Span {
    Span { secs: 0, nanos: ms * 1_000_000 }
}

fn all_durations() -> ParsedDurations {
    ParsedDurations {
        min_round_duration: Some(Span { secs: 1, nanos: 0 }),
        max_round_duration: Some(Span { secs: 1, nanos: 0 }),
        grace_duration: Some(millis(100)),
        tui_refresh_rate: Some(millis(100)),
        dns_timeout: Some(Span { secs: 5, nanos: 0 }),
    }
}

#[test]
fn defaults_give_a_configuration() {
    let c = build(default_args()).unwrap();
    assert_eq!(c.targets, vec!["example.com".to_string()]);
    assert_eq!(c.protocol, TracerProtocol::Icmp);
    assert_eq!(c.addr_family, TracerAddrFamily::Ipv4);
    assert_eq!(c.port_direction, PortDirection::NoPort);
    assert_eq!(c.first_ttl, 1);
    assert_eq!(c.max_ttl, 64);
    assert_eq!(c.initial_sequence, 33000);
    assert_eq!(c.tui_max_samples, 256);
    assert_eq!(c.max_rounds, None);
    assert_eq!(c.source_addr, None);
}

#[test]
fn durations_are_read_by_humantime() {
    let mut args = default_args();
    args.min_round_duration = "250ms".to_string();
    args.max_round_duration = "2s".to_string();
    args.dns_timeout = "1m 30s".to_string();
    let c = build(args).unwrap();
    assert_eq!(c.min_round_duration, millis(250));
    assert_eq!(c.max_round_duration, Span { secs: 2, nanos: 0 });
    assert_eq!(c.grace_duration, millis(100));
    assert_eq!(c.tui_refresh_rate, millis(100));
    assert_eq!(c.dns_timeout, Span { secs: 90, nanos: 0 });
}

#[test]
fn first_ttl_above_max_ttl_is_a_range_error() {
    let mut args = default_args();
    args.first_ttl = 10;
    args.max_ttl = 5;
    let e = err_of(args);
    assert_eq!(e, ConfigError::FirstTtlAboveMaxTtl { first_ttl: 10, max_ttl: 5 });
    assert_eq!(e.kind(), ErrorKind::Range);
}

#[test]
fn ttl_one_to_sixty_four_is_accepted() {
    let mut args = default_args();
    args.first_ttl = 1;
    args.max_ttl = 64;
    assert!(build(args).is_ok());
}

#[test]
fn zero_ttls_are_range_errors() {
    let mut args = default_args();
    args.first_ttl = 0;
    assert_eq!(err_of(args), ConfigError::FirstTtlOutOfRange { first_ttl: 0 });
    let mut args = default_args();
    args.first_ttl = 1;
    args.max_ttl = 0;
    assert_eq!(err_of(args), ConfigError::MaxTtlOutOfRange { max_ttl: 0 });
    let mut args = default_args();
    args.first_ttl = 255;
    args.max_ttl = 255;
    assert!(build(args).is_ok());
}

#[test]
fn udp_default_source_port_is_floored() {
    assert_eq!(
        resolve_port_direction(TraceProtocol::Udp, None, None, 500),
        Ok(PortDirection::FixedSrc(1024))
    );
    assert_eq!(
        resolve_port_direction(TraceProtocol::Udp, None, None, 2000),
        Ok(PortDirection::FixedSrc(2000))
    );
    let mut args = default_args();
    args.protocol = TraceProtocol::Udp;
    let c = TrippyConfig::try_from((args, 500), None).unwrap();
    assert_eq!(c.port_direction, PortDirection::FixedSrc(1024));
    assert_eq!(c.protocol, TracerProtocol::Udp);
}

#[test]
fn tcp_default_is_destination_eighty() {
    assert_eq!(
        resolve_port_direction(TraceProtocol::Tcp, None, None, 4000),
        Ok(PortDirection::FixedDest(80))
    );
    let mut args = default_args();
    args.protocol = TraceProtocol::Tcp;
    assert_eq!(build(args).unwrap().port_direction, PortDirection::FixedDest(80));
}

#[test]
fn explicit_ports() {
    assert_eq!(
        resolve_port_direction(TraceProtocol::Udp, Some(5000), None, 4000),
        Ok(PortDirection::FixedSrc(5000))
    );
    assert_eq!(
        resolve_port_direction(TraceProtocol::Udp, Some(80), None, 4000),
        Err(ConfigError::SourcePortTooLow { source_port: 80 })
    );
    assert_eq!(
        resolve_port_direction(TraceProtocol::Tcp, Some(80), None, 4000),
        Ok(PortDirection::FixedSrc(80))
    );
    assert_eq!(
        resolve_port_direction(TraceProtocol::Udp, None, Some(53), 4000),
        Ok(PortDirection::FixedDest(53))
    );
    assert_eq!(
        resolve_port_direction(TraceProtocol::Icmp, Some(80), Some(443), 4000),
        Ok(PortDirection::NoPort)
    );
}

#[test]
fn two_fixed_ports_conflict() {
    for protocol in [TraceProtocol::Udp, TraceProtocol::Tcp] {
        let mut args = default_args();
        args.protocol = protocol;
        args.source_port = Some(80);
        args.target_port = Some(443);
        args.first_ttl = 10;
        args.max_ttl = 5;
        args.packet_size = 1;
        let e = err_of(args);
        assert_eq!(e, ConfigError::ConflictingPorts);
        assert_eq!(e.kind(), ErrorKind::Conflict);
    }
}

#[test]
fn packet_size_bounds() {
    for (size, ok) in [(27u16, false), (28, true), (1024, true), (1025, false)] {
        let mut args = default_args();
        args.packet_size = size;
        let r = build(args);
        if ok {
            assert_eq!(r.unwrap().packet_size, size);
        } else {
            let e = r.unwrap_err();
            assert_eq!(e, ConfigError::PacketSizeOutOfRange { packet_size: size });
            assert_eq!(e.kind(), ErrorKind::Range);
        }
    }
}

#[test]
fn as_lookup_needs_another_resolver() {
    let mut args = default_args();
    args.dns_lookup_as_info = true;
    let e = err_of(args);
    assert_eq!(e, ConfigError::AsLookupUnsupported);
    assert_eq!(e.kind(), ErrorKind::UnsupportedCombination);
    let mut args = default_args();
    args.dns_resolve_method = DnsResolveMethod::Google;
    args.dns_lookup_as_info = true;
    assert!(build(args).is_ok());
}

#[test]
fn several_targets() {
    let two = vec!["a".to_string(), "b".to_string()];
    let mut args = default_args();
    args.targets = two.clone();
    args.mode = Mode::Csv;
    let e = err_of(args);
    assert_eq!(e, ConfigError::MultipleTargetsForMode);
    assert_eq!(e.kind(), ErrorKind::UnsupportedCombination);

    for mode in [Mode::Tui, Mode::Stream] {
        let mut args = default_args();
        args.targets = two.clone();
        args.mode = mode;
        args.protocol = TraceProtocol::Icmp;
        assert_eq!(build(args).unwrap().targets, two);
    }
    for mode in [Mode::Pretty, Mode::Markdown, Mode::Json] {
        let mut args = default_args();
        args.targets = two.clone();
        args.mode = mode;
        assert_eq!(err_of(args), ConfigError::MultipleTargetsForMode);
    }

    for mode in [Mode::Tui, Mode::Stream, Mode::Pretty, Mode::Markdown, Mode::Csv, Mode::Json] {
        let mut args = default_args();
        args.targets = two.clone();
        args.mode = mode;
        args.protocol = TraceProtocol::Tcp;
        assert_eq!(err_of(args).kind(), ErrorKind::UnsupportedCombination);
    }
    let mut args = default_args();
    args.targets = two;
    args.protocol = TraceProtocol::Udp;
    assert_eq!(err_of(args), ConfigError::MultipleTargetsForProtocol);
}

#[test]
fn same_input_same_result() {
    let mut args = default_args();
    args.protocol = TraceProtocol::Udp;
    assert_eq!(
        TrippyConfig::try_from((args.clone(), 700), None),
        TrippyConfig::try_from((args, 700), None)
    );
    let mut args = default_args();
    args.packet_size = 2000;
    assert_eq!(build(args.clone()), build(args));
}

#[test]
fn round_cap_follows_the_mode() {
    for (mode, cap) in [
        (Mode::Tui, None),
        (Mode::Stream, None),
        (Mode::Pretty, Some(7)),
        (Mode::Markdown, Some(7)),
        (Mode::Csv, Some(7)),
        (Mode::Json, Some(7)),
    ] {
        assert_eq!(max_rounds(mode, 7), cap);
        let mut args = default_args();
        args.mode = mode;
        args.report_cycles = 7;
        assert_eq!(build(args).unwrap().max_rounds, cap);
    }
}

#[test]
fn zero_report_cycles_only_matter_in_report_modes() {
    let mut args = default_args();
    args.mode = Mode::Json;
    args.report_cycles = 0;
    assert_eq!(err_of(args), ConfigError::ZeroReportCycles);
    let mut args = default_args();
    args.mode = Mode::Stream;
    args.report_cycles = 0;
    assert!(build(args).is_ok());
}

#[test]
fn tcp_over_ipv6_is_unsupported() {
    let mut args = default_args();
    args.protocol = TraceProtocol::Tcp;
    args.ipv6 = true;
    assert_eq!(err_of(args), ConfigError::TcpOverIpv6);
    let mut args = default_args();
    args.ipv6 = true;
    assert_eq!(build(args).unwrap().addr_family, TracerAddrFamily::Ipv6);
}

#[test]
fn zero_max_inflight_is_rejected() {
    let mut args = default_args();
    args.max_inflight = 0;
    assert_eq!(err_of(args), ConfigError::ZeroMaxInflight);
}

#[test]
fn round_durations_must_be_ordered() {
    let mut args = default_args();
    args.min_round_duration = "2s".to_string();
    let e = err_of(args);
    assert_eq!(
        e,
        ConfigError::RoundDurationOrder {
            min_round_duration: Span { secs: 2, nanos: 0 },
            max_round_duration: Span { secs: 1, nanos: 0 },
        }
    );
    assert_eq!(e.kind(), ErrorKind::Range);
}

#[test]
fn grace_duration_bounds() {
    for (text, ok) in [("9ms", false), ("10ms", true), ("1s", true), ("1001ms", false)] {
        let mut args = default_args();
        args.grace_duration = text.to_string();
        let r = build(args);
        if ok {
            assert!(r.is_ok());
        } else {
            assert!(matches!(r, Err(ConfigError::GraceDurationOutOfRange { .. })));
        }
    }
}

#[test]
fn refresh_rate_bounds() {
    for (text, ok) in [("49ms", false), ("50ms", true), ("1000ms", true), ("2s", false)] {
        let mut args = default_args();
        args.tui_refresh_rate = text.to_string();
        let r = build(args);
        if ok {
            assert!(r.is_ok());
        } else {
            assert!(matches!(r, Err(ConfigError::RefreshRateOutOfRange { .. })));
        }
    }
}

#[test]
fn malformed_durations_name_their_field() {
    let mut args = default_args();
    args.grace_duration = "soon".to_string();
    let e = err_of(args);
    assert_eq!(e, ConfigError::InvalidDuration { field: DurationField::GraceDuration });
    assert_eq!(e.kind(), ErrorKind::Parse);
    let mut args = default_args();
    args.dns_timeout = "5 parsecs".to_string();
    assert_eq!(
        err_of(args),
        ConfigError::InvalidDuration { field: DurationField::DnsTimeout }
    );
    let mut args = default_args();
    args.min_round_duration = String::new();
    assert_eq!(
        err_of(args),
        ConfigError::InvalidDuration { field: DurationField::MinRoundDuration }
    );
}

#[test]
fn source_address_is_kept_or_rejected() {
    let addr = IpAddress::V4([192, 168, 1, 1]);
    let mut args = default_args();
    args.source_address = Some("192.168.1.1".to_string());
    let c = TrippyConfig::try_from((args.clone(), 4000), Some(addr)).unwrap();
    assert_eq!(c.source_addr, Some(addr));
    assert_eq!(
        TrippyConfig::try_from((args, 4000), None).unwrap_err(),
        ConfigError::InvalidSourceAddress
    );
    let c = TrippyConfig::try_from((default_args(), 4000), Some(addr)).unwrap();
    assert_eq!(c.source_addr, None);
}

#[test]
fn from_parsed_reports_the_first_failure() {
    let mut d = all_durations();
    d.max_round_duration = None;
    d.dns_timeout = None;
    assert_eq!(
        TrippyConfig::from_parsed(default_args(), 4000, d, None),
        Err(ConfigError::InvalidDuration { field: DurationField::MaxRoundDuration })
    );
    let mut d = all_durations();
    d.grace_duration = Some(Span { secs: 0, nanos: 10_000_000 });
    let c = TrippyConfig::from_parsed(default_args(), 4000, d, None).unwrap();
    assert_eq!(c.grace_duration, millis(10));
}

#[test]
fn stream_mode_with_several_icmp_targets_reaches_the_ttl_rule() {
    let two = vec!["a".to_string(), "b".to_string()];
    assert_eq!(validate_multi(Mode::Stream, TraceProtocol::Icmp, &two), Ok(()));
    assert_eq!(
        validate_multi(Mode::Stream, TraceProtocol::Udp, &two),
        Err(ConfigError::MultipleTargetsForProtocol)
    );
    let mut args = default_args();
    args.targets = two;
    args.mode = Mode::Stream;
    args.first_ttl = 10;
    args.max_ttl = 5;
    let e = err_of(args);
    assert_eq!(e, ConfigError::FirstTtlAboveMaxTtl { first_ttl: 10, max_ttl: 5 });
    assert_eq!(e.kind(), ErrorKind::Range);
}

#[test]
fn source_address_with_interface_conflicts() {
    let mut args = default_args();
    args.source_address = Some("10.0.0.1".to_string());
    args.interface = Some("eth0".to_string());
    let e = TrippyConfig::try_from((args, 4000), Some(IpAddress::V4([10, 0, 0, 1]))).unwrap_err();
    assert_eq!(e, ConfigError::SourceAddressWithInterface);
    assert_eq!(e.kind(), ErrorKind::Conflict);
    let mut args = default_args();
    args.interface = Some("eth0".to_string());
    assert_eq!(build(args).unwrap().interface, Some("eth0".to_string()));
}

#[test]
fn every_text_is_read_before_the_port_policy() {
    let mut args = default_args();
    args.protocol = TraceProtocol::Udp;
    args.source_port = Some(80);
    args.target_port = Some(443);
    args.tui_refresh_rate = "fast".to_string();
    assert_eq!(
        err_of(args),
        ConfigError::InvalidDuration { field: DurationField::TuiRefreshRate }
    );
    let mut args = default_args();
    args.protocol = TraceProtocol::Tcp;
    args.source_port = Some(80);
    args.target_port = Some(443);
    args.source_address = Some("nowhere".to_string());
    assert_eq!(
        TrippyConfig::try_from((args, 4000), None).unwrap_err(),
        ConfigError::InvalidSourceAddress
    );
}

#[test]
fn duration_texts_with_too_many_digits_are_refused() {
    assert!(within_digit_bound("1s"));
    assert!(within_digit_bound("12345678901ms"));
    assert!(!within_digit_bound("123456789012ms"));
    assert!(!within_digit_bound("18446744073709551615s 1000ms"));
    assert_eq!(read_duration("1h 2m 3s"), Some(Span { secs: 3723, nanos: 0 }));
    assert_eq!(read_duration("4.2s"), Some(Span { secs: 4, nanos: 200_000_000 }));
    assert_eq!(read_duration("123456789012ms"), None);
    let mut args = default_args();
    args.max_round_duration = "18446744073709551615s 1000ms".to_string();
    assert_eq!(
        err_of(args),
        ConfigError::InvalidDuration { field: DurationField::MaxRoundDuration }
    );
}
