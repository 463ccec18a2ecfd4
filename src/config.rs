use vstd::prelude::*;
use crate::duration::{duration_of_text, read_duration};
use crate::types::{
    AddressMode, ConfigError, DnsResolveMethod, DurationField, IpAddress, Mode, PortDirection,
    Span, TraceProtocol, TracerAddrFamily, TracerProtocol, DEFAULT_TCP_PORT, MAX_GRACE_DURATION_MS,
    MAX_PACKET_SIZE, MIN_GRACE_DURATION_MS, MIN_PACKET_SIZE, MIN_SOURCE_PORT,
    TUI_MAX_REFRESH_RATE_MS, TUI_MIN_REFRESH_RATE_MS,
};
use crate::validate::{
    addr_family_violation, dns_violation, grace_duration_violation, max_inflight_violation,
    multi_violation, packet_size_violation, report_cycles_violation, round_duration_violation,
    source_port_violation, ttl_violation, tui_refresh_rate_violation, validate_addr_family,
    validate_dns, validate_grace_duration, validate_max_inflight, validate_multi,
    validate_packet_size, validate_report_cycles, validate_round_duration, validate_source_port,
    validate_ttl, validate_tui_refresh_rate, within_millis,
};

verus! {

/// The raw input: each field as the command line gave it.
#[derive(Debug, Clone)]
pub struct Args {
    /// The hostnames and IPs to trace.
    pub targets: Vec<String>,
    pub mode: Mode,
    pub protocol: TraceProtocol,
    /// Use IPv4 only.
    pub ipv4: bool,
    /// Use IPv6 only.
    pub ipv6: bool,
    pub target_port: Option<u16>,
    pub source_port: Option<u16>,
    /// The source IP address, as text.
    pub source_address: Option<String>,
    pub interface: Option<String>,
    pub min_round_duration: String,
    pub max_round_duration: String,
    pub initial_sequence: u16,
    pub grace_duration: String,
    pub max_inflight: u8,
    pub first_ttl: u8,
    pub max_ttl: u8,
    pub packet_size: u16,
    pub payload_pattern: u8,
    pub tos: u8,
    pub dns_resolve_method: DnsResolveMethod,
    pub dns_timeout: String,
    pub dns_lookup_as_info: bool,
    pub tui_address_mode: AddressMode,
    pub tui_max_addrs: Option<u8>,
    pub tui_max_samples: usize,
    pub tui_preserve_screen: bool,
    pub tui_refresh_rate: String,
    pub report_cycles: usize,
}

/// The duration fields of the input after parsing: `None` where the text is
/// malformed.
#[derive(Debug, Clone, Copy, PartialEq, Eq)]
pub struct ParsedDurations {
    pub min_round_duration: Option<Span>,
    pub max_round_duration: Option<Span>,
    pub grace_duration: Option<Span>,
    pub tui_refresh_rate: Option<Span>,
    pub dns_timeout: Option<Span>,
}

/// Fully parsed and validated configuration.
#[derive(Debug, Clone, PartialEq, Eq)]
pub struct TrippyConfig {
    pub targets: Vec<String>,
    pub protocol: TracerProtocol,
    pub addr_family: TracerAddrFamily,
    pub first_ttl: u8,
    pub max_ttl: u8,
    pub min_round_duration: Span,
    pub max_round_duration: Span,
    pub grace_duration: Span,
    pub max_inflight: u8,
    pub initial_sequence: u16,
    pub tos: u8,
    pub packet_size: u16,
    pub payload_pattern: u8,
    pub source_addr: Option<IpAddress>,
    pub interface: Option<String>,
    pub port_direction: PortDirection,
    pub dns_timeout: Span,
    pub dns_resolve_method: DnsResolveMethod,
    pub dns_lookup_as_info: bool,
    pub tui_max_samples: usize,
    pub tui_preserve_screen: bool,
    pub tui_refresh_rate: Span,
    pub tui_address_mode: AddressMode,
    pub tui_max_addrs: Option<u8>,
    pub mode: Mode,
    pub report_cycles: usize,
    pub max_rounds: Option<usize>,
}

/// The port policy: ICMP has none, UDP fixes a source port (the seed, at
/// least 1024, by default), TCP fixes destination port 80 by default, an
/// explicit port is fixed, and two explicit ports conflict.
pub open spec fn port_direction_for(
    protocol: TraceProtocol,
    source_port: Option<u16>,
    target_port: Option<u16>,
    seed: u16,
) -> Result<PortDirection, ConfigError> {
    match (protocol, source_port, target_port) {
        (TraceProtocol::Icmp, _, _) => Ok(PortDirection::NoPort),
        (TraceProtocol::Udp, None, None) => Ok(
            PortDirection::FixedSrc(if seed < MIN_SOURCE_PORT { MIN_SOURCE_PORT } else { seed }),
        ),
        (TraceProtocol::Udp, Some(src), None) => match source_port_violation(src) {
            Some(e) => Err(e),
            None => Ok(PortDirection::FixedSrc(src)),
        },
        (TraceProtocol::Tcp, None, None) => Ok(PortDirection::FixedDest(DEFAULT_TCP_PORT)),
        (TraceProtocol::Tcp, Some(src), None) => Ok(PortDirection::FixedSrc(src)),
        (_, None, Some(dest)) => Ok(PortDirection::FixedDest(dest)),
        (_, Some(_), Some(_)) => Err(ConfigError::ConflictingPorts),
    }
}

/// Whether a mode runs a bounded number of cycles and then ends.
pub open spec fn is_finite_mode(mode: Mode) -> bool {
    !(mode == Mode::Tui || mode == Mode::Stream)
}

/// The cap on rounds: the report cycles in a finite mode, none otherwise.
pub open spec fn max_rounds_for(mode: Mode, report_cycles: usize) -> Option<usize> {
    if is_finite_mode(mode) {
        Some(report_cycles)
    } else {
        None
    }
}

pub open spec fn addr_family_of(ipv6: bool) -> TracerAddrFamily {
    if ipv6 {
        TracerAddrFamily::Ipv6
    } else {
        TracerAddrFamily::Ipv4
    }
}

pub open spec fn tracer_protocol_of(protocol: TraceProtocol) -> TracerProtocol {
    match protocol {
        TraceProtocol::Icmp => TracerProtocol::Icmp,
        TraceProtocol::Udp => TracerProtocol::Udp,
        TraceProtocol::Tcp => TracerProtocol::Tcp,
    }
}

/// The first of two findings.
pub open spec fn or_else(a: Option<ConfigError>, b: Option<ConfigError>) -> Option<ConfigError> {
    if a is Some {
        a
    } else {
        b
    }
}

/// The validation rules over the parsed and derived fields, in their order:
/// the first one broken is reported. Report cycles count in finite modes only.
pub open spec fn rule_violation(
    args: Args,
    min_round_duration: Span,
    max_round_duration: Span,
    grace_duration: Span,
    tui_refresh_rate: Span,
) -> Option<ConfigError> {
    or_else(
        addr_family_violation(args.protocol, addr_family_of(args.ipv6)),
        or_else(
            multi_violation(args.mode, args.protocol, args.targets@.len()),
            or_else(
                ttl_violation(args.first_ttl, args.max_ttl),
                or_else(
                    max_inflight_violation(args.max_inflight),
                    or_else(
                        round_duration_violation(min_round_duration, max_round_duration),
                        or_else(
                            grace_duration_violation(grace_duration),
                            or_else(
                                packet_size_violation(args.packet_size),
                                or_else(
                                    tui_refresh_rate_violation(tui_refresh_rate),
                                    or_else(
                                        if is_finite_mode(args.mode) {
                                            report_cycles_violation(args.report_cycles)
                                        } else {
                                            None
                                        },
                                        dns_violation(
                                            args.dns_resolve_method,
                                            args.dns_lookup_as_info,
                                        ),
                                    ),
                                ),
                            ),
                        ),
                    ),
                ),
            ),
        ),
    )
}

/// Whether the source address was given and could not be read.
pub open spec fn bad_source_address(args: Args, source_addr: Option<IpAddress>) -> bool {
    args.source_address is Some && source_addr is None
}

/// Whether both a source address and an interface were given.
pub open spec fn address_with_interface(args: Args) -> bool {
    args.source_address is Some && args.interface is Some
}

/// What fails before the validation rules run. Every text is read first (the
/// five durations, then the source address); then a source address with an
/// interface conflicts; then the port policy is derived.
pub open spec fn derivation_error(
    args: Args,
    seed: u16,
    d: ParsedDurations,
    source_addr: Option<IpAddress>,
) -> Option<ConfigError> {
    if d.min_round_duration is None {
        Some(ConfigError::InvalidDuration { field: DurationField::MinRoundDuration })
    } else if d.max_round_duration is None {
        Some(ConfigError::InvalidDuration { field: DurationField::MaxRoundDuration })
    } else if d.grace_duration is None {
        Some(ConfigError::InvalidDuration { field: DurationField::GraceDuration })
    } else if d.tui_refresh_rate is None {
        Some(ConfigError::InvalidDuration { field: DurationField::TuiRefreshRate })
    } else if d.dns_timeout is None {
        Some(ConfigError::InvalidDuration { field: DurationField::DnsTimeout })
    } else if bad_source_address(args, source_addr) {
        Some(ConfigError::InvalidSourceAddress)
    } else if address_with_interface(args) {
        Some(ConfigError::SourceAddressWithInterface)
    } else if port_direction_for(args.protocol, args.source_port, args.target_port, seed) is Err {
        Some(port_direction_for(args.protocol, args.source_port, args.target_port, seed)->Err_0)
    } else {
        None
    }
}

/// The single failure that the input gives, if any.
pub open spec fn config_error(
    args: Args,
    seed: u16,
    d: ParsedDurations,
    source_addr: Option<IpAddress>,
) -> Option<ConfigError> {
    or_else(
        derivation_error(args, seed, d, source_addr),
        rule_violation(
            args,
            d.min_round_duration->Some_0,
            d.max_round_duration->Some_0,
            d.grace_duration->Some_0,
            d.tui_refresh_rate->Some_0,
        ),
    )
}

/// The configuration assembled from the input and what was derived from it.
pub open spec fn assembled(
    args: Args,
    seed: u16,
    d: ParsedDurations,
    source_addr: Option<IpAddress>,
) -> TrippyConfig {
    TrippyConfig {
        targets: args.targets,
        protocol: tracer_protocol_of(args.protocol),
        addr_family: addr_family_of(args.ipv6),
        first_ttl: args.first_ttl,
        max_ttl: args.max_ttl,
        min_round_duration: d.min_round_duration->Some_0,
        max_round_duration: d.max_round_duration->Some_0,
        grace_duration: d.grace_duration->Some_0,
        max_inflight: args.max_inflight,
        initial_sequence: args.initial_sequence,
        tos: args.tos,
        packet_size: args.packet_size,
        payload_pattern: args.payload_pattern,
        source_addr: if args.source_address is Some {
            source_addr
        } else {
            None
        },
        interface: args.interface,
        port_direction: port_direction_for(
            args.protocol,
            args.source_port,
            args.target_port,
            seed,
        )->Ok_0,
        dns_timeout: d.dns_timeout->Some_0,
        dns_resolve_method: args.dns_resolve_method,
        dns_lookup_as_info: args.dns_lookup_as_info,
        tui_max_samples: args.tui_max_samples,
        tui_preserve_screen: args.tui_preserve_screen,
        tui_refresh_rate: d.tui_refresh_rate->Some_0,
        tui_address_mode: args.tui_address_mode,
        tui_max_addrs: args.tui_max_addrs,
        mode: args.mode,
        report_cycles: args.report_cycles,
        max_rounds: max_rounds_for(args.mode, args.report_cycles),
    }
}

/// The result of the transformation: the first failure, or the configuration.
pub open spec fn outcome(
    args: Args,
    seed: u16,
    d: ParsedDurations,
    source_addr: Option<IpAddress>,
) -> Result<TrippyConfig, ConfigError> {
    match config_error(args, seed, d, source_addr) {
        Some(e) => Err(e),
        None => Ok(assembled(args, seed, d, source_addr)),
    }
}

/// The durations of the input as `read_duration` reads them.
pub open spec fn parsed_durations(args: Args) -> ParsedDurations {
    ParsedDurations {
        min_round_duration: duration_of_text(args.min_round_duration@),
        max_round_duration: duration_of_text(args.max_round_duration@),
        grace_duration: duration_of_text(args.grace_duration@),
        tui_refresh_rate: duration_of_text(args.tui_refresh_rate@),
        dns_timeout: duration_of_text(args.dns_timeout@),
    }
}

/// Derive the port policy from the protocol, the explicit ports and a seed
/// (the process identity) that stands in for a default source port.
pub fn resolve_port_direction(
    protocol: TraceProtocol,
    source_port: Option<u16>,
    target_port: Option<u16>,
    seed: u16,
) -> (r: Result<PortDirection, ConfigError>)
    ensures
        r == port_direction_for(protocol, source_port, target_port, seed),
{
    match (protocol, source_port, target_port) {
        (TraceProtocol::Icmp, _, _) => Ok(PortDirection::NoPort),
        (TraceProtocol::Udp, None, None) => Ok(
            PortDirection::FixedSrc(if seed < MIN_SOURCE_PORT { MIN_SOURCE_PORT } else { seed }),
        ),
        (TraceProtocol::Udp, Some(src), None) => match validate_source_port(src) {
            Err(e) => Err(e),
            Ok(()) => Ok(PortDirection::FixedSrc(src)),
        },
        (TraceProtocol::Tcp, None, None) => Ok(PortDirection::FixedDest(DEFAULT_TCP_PORT)),
        (TraceProtocol::Tcp, Some(src), None) => Ok(PortDirection::FixedSrc(src)),
        (_, None, Some(dest)) => Ok(PortDirection::FixedDest(dest)),
        (_, Some(_), Some(_)) => Err(ConfigError::ConflictingPorts),
    }
}

/// The cap on rounds for a mode.
pub fn max_rounds(mode: Mode, report_cycles: usize) -> (r: Option<usize>)
    ensures
        r == max_rounds_for(mode, report_cycles),
{
    match mode {
        Mode::Stream | Mode::Tui => None,
        Mode::Pretty | Mode::Markdown | Mode::Csv | Mode::Json => Some(report_cycles),
    }
}

impl TrippyConfig {
    /// What holds of every configuration that the transformation produces.
    pub open spec fn well_formed(self) -> bool {
        &&& 1 <= self.first_ttl <= self.max_ttl
        &&& self.max_inflight > 0
        &&& self.min_round_duration.total_nanos() <= self.max_round_duration.total_nanos()
        &&& within_millis(self.grace_duration, MIN_GRACE_DURATION_MS, MAX_GRACE_DURATION_MS)
        &&& MIN_PACKET_SIZE <= self.packet_size <= MAX_PACKET_SIZE
        &&& within_millis(self.tui_refresh_rate, TUI_MIN_REFRESH_RATE_MS, TUI_MAX_REFRESH_RATE_MS)
        &&& is_finite_mode(self.mode) ==> self.report_cycles > 0
        &&& self.protocol == TracerProtocol::Udp ==> match self.port_direction {
            PortDirection::FixedSrc(p) => p >= MIN_SOURCE_PORT,
            _ => true,
        }
        &&& self.targets@.len() > 1 ==> !is_finite_mode(self.mode) && self.protocol
            == TracerProtocol::Icmp
        &&& !(self.protocol == TracerProtocol::Tcp && self.addr_family == TracerAddrFamily::Ipv6)
        &&& self.dns_lookup_as_info ==> self.dns_resolve_method != DnsResolveMethod::System
        &&& !(self.source_addr is Some && self.interface is Some)
    }

    /// Build the configuration from the raw input, the seed of the default
    /// source port, the durations as parsed, and the source address as read
    /// from its text (`None` where it could not be read).
    pub fn from_parsed(
        args: Args,
        seed: u16,
        durations: ParsedDurations,
        source_addr: Option<IpAddress>,
    ) -> (r: Result<TrippyConfig, ConfigError>)
        ensures
            r == outcome(args, seed, durations, source_addr),
    {
        let min_round_duration = match durations.min_round_duration {
            Some(d) => d,
            None => {
                return Err(ConfigError::InvalidDuration { field: DurationField::MinRoundDuration });
            },
        };
        let max_round_duration = match durations.max_round_duration {
            Some(d) => d,
            None => {
                return Err(ConfigError::InvalidDuration { field: DurationField::MaxRoundDuration });
            },
        };
        let grace_duration = match durations.grace_duration {
            Some(d) => d,
            None => {
                return Err(ConfigError::InvalidDuration { field: DurationField::GraceDuration });
            },
        };
        let tui_refresh_rate = match durations.tui_refresh_rate {
            Some(d) => d,
            None => {
                return Err(ConfigError::InvalidDuration { field: DurationField::TuiRefreshRate });
            },
        };
        let dns_timeout = match durations.dns_timeout {
            Some(d) => d,
            None => {
                return Err(ConfigError::InvalidDuration { field: DurationField::DnsTimeout });
            },
        };
        let source_addr = match &args.source_address {
            Some(_) => match source_addr {
                Some(a) => Some(a),
                None => {
                    return Err(ConfigError::InvalidSourceAddress);
                },
            },
            None => None,
        };
        if args.source_address.is_some() && args.interface.is_some() {
            return Err(ConfigError::SourceAddressWithInterface);
        }
        let port_direction = resolve_port_direction(
            args.protocol,
            args.source_port,
            args.target_port,
            seed,
        )?;
        let protocol = match args.protocol {
            TraceProtocol::Icmp => TracerProtocol::Icmp,
            TraceProtocol::Udp => TracerProtocol::Udp,
            TraceProtocol::Tcp => TracerProtocol::Tcp,
        };
        let addr_family = if args.ipv6 {
            TracerAddrFamily::Ipv6
        } else {
            TracerAddrFamily::Ipv4
        };
        let max_rounds = max_rounds(args.mode, args.report_cycles);
        validate_addr_family(args.protocol, addr_family)?;
        validate_multi(args.mode, args.protocol, args.targets.as_slice())?;
        validate_ttl(args.first_ttl, args.max_ttl)?;
        validate_max_inflight(args.max_inflight)?;
        validate_round_duration(min_round_duration, max_round_duration)?;
        validate_grace_duration(grace_duration)?;
        validate_packet_size(args.packet_size)?;
        validate_tui_refresh_rate(tui_refresh_rate)?;
        if max_rounds.is_some() {
            validate_report_cycles(args.report_cycles)?;
        }
        validate_dns(args.dns_resolve_method, args.dns_lookup_as_info)?;
        Ok(TrippyConfig {
            targets: args.targets,
            protocol,
            addr_family,
            first_ttl: args.first_ttl,
            max_ttl: args.max_ttl,
            min_round_duration,
            max_round_duration,
            grace_duration,
            max_inflight: args.max_inflight,
            initial_sequence: args.initial_sequence,
            tos: args.tos,
            packet_size: args.packet_size,
            payload_pattern: args.payload_pattern,
            source_addr,
            interface: args.interface,
            port_direction,
            dns_timeout,
            dns_resolve_method: args.dns_resolve_method,
            dns_lookup_as_info: args.dns_lookup_as_info,
            tui_max_samples: args.tui_max_samples,
            tui_preserve_screen: args.tui_preserve_screen,
            tui_refresh_rate,
            tui_address_mode: args.tui_address_mode,
            tui_max_addrs: args.tui_max_addrs,
            mode: args.mode,
            report_cycles: args.report_cycles,
            max_rounds,
        })
    }

    /// Build the configuration from the raw input and the process identity,
    /// reading each duration text with humantime; a text with more than
    /// `MAX_DURATION_DIGITS` digits counts as malformed. `source_addr` is the source
    /// address as read from its text (`None` where it could not be read).
    pub fn try_from(data: (Args, u16), source_addr: Option<IpAddress>) -> (r: Result<
        TrippyConfig,
        ConfigError,
    >)
        ensures
            r == outcome(data.0, data.1, parsed_durations(data.0), source_addr),
    {
        let (args, pid) = data;
        let durations = ParsedDurations {
            min_round_duration: read_duration(args.min_round_duration.as_str()),
            max_round_duration: read_duration(args.max_round_duration.as_str()),
            grace_duration: read_duration(args.grace_duration.as_str()),
            tui_refresh_rate: read_duration(args.tui_refresh_rate.as_str()),
            dns_timeout: read_duration(args.dns_timeout.as_str()),
        };
        Self::from_parsed(args, pid, durations, source_addr)
    }
}

} // verus!
