use vstd::prelude::*;
use crate::types::{
    ConfigError, DnsResolveMethod, Mode, Span, TraceProtocol, TracerAddrFamily, MAX_HOPS,
    MAX_GRACE_DURATION_MS, MAX_PACKET_SIZE, MIN_GRACE_DURATION_MS, MIN_PACKET_SIZE,
    MIN_SOURCE_PORT, NANOS_PER_MILLI, TUI_MAX_REFRESH_RATE_MS, TUI_MIN_REFRESH_RATE_MS,
};

verus! {

/// A rule's verdict as a result: passing when no violation is found.
pub open spec fn verdict(violation: Option<ConfigError>) -> Result<(), ConfigError> {
    match violation {
        Some(e) => Err(e),
        None => Ok(()),
    }
}

/// Whether a span lies within `lo_ms..=hi_ms` milliseconds.
pub open spec fn within_millis(d: Span, lo_ms: u64, hi_ms: u64) -> bool {
    lo_ms * NANOS_PER_MILLI <= d.total_nanos() && d.total_nanos() <= hi_ms * NANOS_PER_MILLI
}

pub open spec fn addr_family_violation(
    protocol: TraceProtocol,
    addr_family: TracerAddrFamily,
) -> Option<ConfigError> {
    if addr_family == TracerAddrFamily::Ipv6 && protocol == TraceProtocol::Tcp {
        Some(ConfigError::TcpOverIpv6)
    } else {
        None
    }
}

/// Several targets are allowed only in the continuous modes (interactive and
/// stream), and only for ICMP.
pub open spec fn multi_violation(mode: Mode, protocol: TraceProtocol, n_targets: nat) -> Option<
    ConfigError,
> {
    if n_targets > 1 && !(mode == Mode::Tui || mode == Mode::Stream) {
        Some(ConfigError::MultipleTargetsForMode)
    } else if n_targets > 1 && protocol != TraceProtocol::Icmp {
        Some(ConfigError::MultipleTargetsForProtocol)
    } else {
        None
    }
}

pub open spec fn ttl_violation(first_ttl: u8, max_ttl: u8) -> Option<ConfigError> {
    if first_ttl < 1 || first_ttl > MAX_HOPS {
        Some(ConfigError::FirstTtlOutOfRange { first_ttl })
    } else if max_ttl < 1 || max_ttl > MAX_HOPS {
        Some(ConfigError::MaxTtlOutOfRange { max_ttl })
    } else if first_ttl > max_ttl {
        Some(ConfigError::FirstTtlAboveMaxTtl { first_ttl, max_ttl })
    } else {
        None
    }
}

pub open spec fn max_inflight_violation(max_inflight: u8) -> Option<ConfigError> {
    if max_inflight == 0 {
        Some(ConfigError::ZeroMaxInflight)
    } else {
        None
    }
}

pub open spec fn round_duration_violation(min_round_duration: Span, max_round_duration: Span) -> Option<
    ConfigError,
> {
    if min_round_duration.total_nanos() > max_round_duration.total_nanos() {
        Some(ConfigError::RoundDurationOrder { min_round_duration, max_round_duration })
    } else {
        None
    }
}

pub open spec fn grace_duration_violation(grace_duration: Span) -> Option<ConfigError> {
    if within_millis(grace_duration, MIN_GRACE_DURATION_MS, MAX_GRACE_DURATION_MS) {
        None
    } else {
        Some(ConfigError::GraceDurationOutOfRange { grace_duration })
    }
}

pub open spec fn packet_size_violation(packet_size: u16) -> Option<ConfigError> {
    if MIN_PACKET_SIZE <= packet_size && packet_size <= MAX_PACKET_SIZE {
        None
    } else {
        Some(ConfigError::PacketSizeOutOfRange { packet_size })
    }
}

pub open spec fn source_port_violation(source_port: u16) -> Option<ConfigError> {
    if source_port < MIN_SOURCE_PORT {
        Some(ConfigError::SourcePortTooLow { source_port })
    } else {
        None
    }
}

pub open spec fn tui_refresh_rate_violation(tui_refresh_rate: Span) -> Option<ConfigError> {
    if within_millis(tui_refresh_rate, TUI_MIN_REFRESH_RATE_MS, TUI_MAX_REFRESH_RATE_MS) {
        None
    } else {
        Some(ConfigError::RefreshRateOutOfRange { tui_refresh_rate })
    }
}

pub open spec fn report_cycles_violation(report_cycles: usize) -> Option<ConfigError> {
    if report_cycles == 0 {
        Some(ConfigError::ZeroReportCycles)
    } else {
        None
    }
}

/// AS lookup needs a resolver other than the system one.
pub open spec fn dns_violation(dns_resolve_method: DnsResolveMethod, dns_lookup_as_info: bool) -> Option<
    ConfigError,
> {
    if dns_resolve_method == DnsResolveMethod::System && dns_lookup_as_info {
        Some(ConfigError::AsLookupUnsupported)
    } else {
        None
    }
}

fn span_within_millis(d: Span, lo_ms: u64, hi_ms: u64) -> (r: bool)
    ensures
        r == within_millis(d, lo_ms, hi_ms),
{
    let n = d.as_nanos();
    proof {
        assert(lo_ms * NANOS_PER_MILLI <= 0xffff_ffff_ffff_ffff * NANOS_PER_MILLI) by (nonlinear_arith);
        assert(hi_ms * NANOS_PER_MILLI <= 0xffff_ffff_ffff_ffff * NANOS_PER_MILLI) by (nonlinear_arith);
    }
    (lo_ms as u128) * (NANOS_PER_MILLI as u128) <= n && n <= (hi_ms as u128) * (
    NANOS_PER_MILLI as u128)
}

/// Validate that the protocol and address family are supported.
pub fn validate_addr_family(protocol: TraceProtocol, addr_family: TracerAddrFamily) -> (r: Result<
    (),
    ConfigError,
>)
    ensures
        r == verdict(addr_family_violation(protocol, addr_family)),
{
    match (addr_family, protocol) {
        (TracerAddrFamily::Ipv6, TraceProtocol::Tcp) => Err(ConfigError::TcpOverIpv6),
        _ => Ok(()),
    }
}

/// Only the continuous modes (interactive and stream) with ICMP tracing allow
/// several targets.
pub fn validate_multi(mode: Mode, protocol: TraceProtocol, targets: &[String]) -> (r: Result<
    (),
    ConfigError,
>)
    ensures
        r == verdict(multi_violation(mode, protocol, targets@.len())),
{
    if targets.len() > 1 {
        match (mode, protocol) {
            (Mode::Tui | Mode::Stream, TraceProtocol::Icmp) => Ok(()),
            (Mode::Tui | Mode::Stream, _) => Err(ConfigError::MultipleTargetsForProtocol),
            _ => Err(ConfigError::MultipleTargetsForMode),
        }
    } else {
        Ok(())
    }
}

/// Validate `first_ttl` and `max_ttl`.
pub fn validate_ttl(first_ttl: u8, max_ttl: u8) -> (r: Result<(), ConfigError>)
    ensures
        r == verdict(ttl_violation(first_ttl, max_ttl)),
        r is Ok <==> 1 <= first_ttl <= max_ttl,
{
    if (first_ttl as usize) < 1 || (first_ttl as usize) > MAX_HOPS {
        Err(ConfigError::FirstTtlOutOfRange { first_ttl })
    } else if (max_ttl as usize) < 1 || (max_ttl as usize) > MAX_HOPS {
        Err(ConfigError::MaxTtlOutOfRange { max_ttl })
    } else if first_ttl > max_ttl {
        Err(ConfigError::FirstTtlAboveMaxTtl { first_ttl, max_ttl })
    } else {
        Ok(())
    }
}

/// Validate `max_inflight`.
pub fn validate_max_inflight(max_inflight: u8) -> (r: Result<(), ConfigError>)
    ensures
        r == verdict(max_inflight_violation(max_inflight)),
{
    if max_inflight == 0 {
        Err(ConfigError::ZeroMaxInflight)
    } else {
        Ok(())
    }
}

/// Validate `min_round_duration` and `max_round_duration`.
pub fn validate_round_duration(min_round_duration: Span, max_round_duration: Span) -> (r: Result<
    (),
    ConfigError,
>)
    ensures
        r == verdict(round_duration_violation(min_round_duration, max_round_duration)),
{
    if min_round_duration.as_nanos() > max_round_duration.as_nanos() {
        Err(ConfigError::RoundDurationOrder { min_round_duration, max_round_duration })
    } else {
        Ok(())
    }
}

/// Validate `grace_duration`.
pub fn validate_grace_duration(grace_duration: Span) -> (r: Result<(), ConfigError>)
    ensures
        r == verdict(grace_duration_violation(grace_duration)),
{
    if span_within_millis(grace_duration, MIN_GRACE_DURATION_MS, MAX_GRACE_DURATION_MS) {
        Ok(())
    } else {
        Err(ConfigError::GraceDurationOutOfRange { grace_duration })
    }
}

/// Validate `packet_size`.
pub fn validate_packet_size(packet_size: u16) -> (r: Result<(), ConfigError>)
    ensures
        r == verdict(packet_size_violation(packet_size)),
{
    if MIN_PACKET_SIZE <= packet_size && packet_size <= MAX_PACKET_SIZE {
        Ok(())
    } else {
        Err(ConfigError::PacketSizeOutOfRange { packet_size })
    }
}

/// Validate an explicit `source_port`.
pub fn validate_source_port(source_port: u16) -> (r: Result<(), ConfigError>)
    ensures
        r == verdict(source_port_violation(source_port)),
{
    if source_port < MIN_SOURCE_PORT {
        Err(ConfigError::SourcePortTooLow { source_port })
    } else {
        Ok(())
    }
}

/// Validate `tui_refresh_rate`.
pub fn validate_tui_refresh_rate(tui_refresh_rate: Span) -> (r: Result<(), ConfigError>)
    ensures
        r == verdict(tui_refresh_rate_violation(tui_refresh_rate)),
{
    if span_within_millis(tui_refresh_rate, TUI_MIN_REFRESH_RATE_MS, TUI_MAX_REFRESH_RATE_MS) {
        Ok(())
    } else {
        Err(ConfigError::RefreshRateOutOfRange { tui_refresh_rate })
    }
}

/// Validate `report_cycles`.
pub fn validate_report_cycles(report_cycles: usize) -> (r: Result<(), ConfigError>)
    ensures
        r == verdict(report_cycles_violation(report_cycles)),
{
    if report_cycles == 0 {
        Err(ConfigError::ZeroReportCycles)
    } else {
        Ok(())
    }
}

/// Validate `dns_resolve_method` and `dns_lookup_as_info`.
pub fn validate_dns(dns_resolve_method: DnsResolveMethod, dns_lookup_as_info: bool) -> (r: Result<
    (),
    ConfigError,
>)
    ensures
        r == verdict(dns_violation(dns_resolve_method, dns_lookup_as_info)),
{
    match dns_resolve_method {
        DnsResolveMethod::System if dns_lookup_as_info => Err(ConfigError::AsLookupUnsupported),
        _ => Ok(()),
    }
}

} // verus!
