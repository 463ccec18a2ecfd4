use vstd::prelude::*;

verus! {

/// The maximum number of hops: a ttl of zero is of no use, so a `u8` gives 255.
pub const MAX_HOPS: usize = 255;

/// The smallest packet size allowed.
pub const MIN_PACKET_SIZE: u16 = 28;

/// The largest packet size allowed.
pub const MAX_PACKET_SIZE: u16 = 1024;

/// The smallest explicit source port allowed.
pub const MIN_SOURCE_PORT: u16 = 1024;

/// The default destination port of TCP tracing.
pub const DEFAULT_TCP_PORT: u16 = 80;

/// Bounds of the grace duration, in milliseconds.
pub const MIN_GRACE_DURATION_MS: u64 = 10;

pub const MAX_GRACE_DURATION_MS: u64 = 1000;

/// Bounds of the interface refresh rate, in milliseconds.
pub const TUI_MIN_REFRESH_RATE_MS: u64 = 50;

pub const TUI_MAX_REFRESH_RATE_MS: u64 = 1000;

pub const NANOS_PER_MILLI: u64 = 1_000_000;

pub const NANOS_PER_SEC: u64 = 1_000_000_000;

/// The tool mode.
#[derive(Debug, Clone, Copy, PartialEq, Eq, Structural)]
pub enum Mode {
    /// Display interactive TUI.
    Tui,
    /// Display a continuous stream of tracing data.
    Stream,
    /// Generate a pretty text table report for N cycles.
    Pretty,
    /// Generate a markdown text table report for N cycles.
    Markdown,
    /// Generate a CSV report for N cycles.
    Csv,
    /// Generate a JSON report for N cycles.
    Json,
}

/// The tracing protocol, as the user chose it.
#[derive(Debug, Clone, Copy, PartialEq, Eq, Structural)]
pub enum TraceProtocol {
    Icmp,
    Udp,
    Tcp,
}

/// How to render the addresses.
#[derive(Debug, Clone, Copy, PartialEq, Eq, Structural)]
pub enum AddressMode {
    /// Show IP address only.
    IP,
    /// Show reverse-lookup DNS hostname only.
    Host,
    /// Show both IP address and reverse-lookup DNS hostname.
    Both,
}

/// How DNS queries will be resolved.
#[derive(Debug, Clone, Copy, PartialEq, Eq, Structural)]
pub enum DnsResolveMethod {
    /// Resolve using the OS resolver.
    System,
    /// Resolve using the `/etc/resolv.conf` DNS configuration.
    Resolv,
    /// Resolve using the Google `8.8.8.8` DNS service.
    Google,
    /// Resolve using the Cloudflare `1.1.1.1` DNS service.
    Cloudflare,
}

/// The protocol handed to the tracer.
#[derive(Debug, Clone, Copy, PartialEq, Eq, Structural)]
pub enum TracerProtocol {
    Icmp,
    Udp,
    Tcp,
}

/// The address family handed to the tracer.
#[derive(Debug, Clone, Copy, PartialEq, Eq, Structural)]
pub enum TracerAddrFamily {
    Ipv4,
    Ipv6,
}

/// Which of the source and destination port the tracer holds fixed.
#[derive(Debug, Clone, Copy, PartialEq, Eq, Structural)]
pub enum PortDirection {
    /// No port semantics (ICMP).
    NoPort,
    /// The source port is fixed.
    FixedSrc(u16),
    /// The destination port is fixed.
    FixedDest(u16),
}

/// A span of time, as whole seconds and nanoseconds.
#[derive(Debug, Clone, Copy, PartialEq, Eq, Structural)]
pub struct Span {
    pub secs: u64,
    pub nanos: u32,
}

impl Span {
    /// The length of the span in nanoseconds.
    pub open spec fn total_nanos(self) -> nat {
        (self.secs * NANOS_PER_SEC + self.nanos) as nat
    }

    pub fn as_nanos(&self) -> (r: u128)
        ensures
            r == self.total_nanos(),
    {
        proof {
            assert(self.secs * NANOS_PER_SEC <= 0xffff_ffff_ffff_ffff * NANOS_PER_SEC)
                by (nonlinear_arith);
        }
        (self.secs as u128) * (NANOS_PER_SEC as u128) + (self.nanos as u128)
    }
}

/// A parsed IP address.
#[derive(Debug, Clone, Copy, PartialEq, Eq)]
pub enum IpAddress {
    V4([u8; 4]),
    V6([u16; 8]),
}

/// Which duration field of the input failed to parse.
#[derive(Debug, Clone, Copy, PartialEq, Eq, Structural)]
pub enum DurationField {
    MinRoundDuration,
    MaxRoundDuration,
    GraceDuration,
    TuiRefreshRate,
    DnsTimeout,
}

/// The four kinds of failure.
#[derive(Debug, Clone, Copy, PartialEq, Eq, Structural)]
pub enum ErrorKind {
    /// Malformed duration or address text.
    Parse,
    /// A numeric field outside its allowed interval.
    Range,
    /// Two mutually exclusive options both set.
    Conflict,
    /// A combination of options that is not supported.
    UnsupportedCombination,
}

/// The first rule that the input breaks, with the values involved.
#[derive(Debug, Clone, Copy, PartialEq, Eq, Structural)]
pub enum ConfigError {
    InvalidDuration { field: DurationField },
    InvalidSourceAddress,
    ConflictingPorts,
    SourceAddressWithInterface,
    SourcePortTooLow { source_port: u16 },
    TcpOverIpv6,
    MultipleTargetsForMode,
    MultipleTargetsForProtocol,
    FirstTtlOutOfRange { first_ttl: u8 },
    MaxTtlOutOfRange { max_ttl: u8 },
    FirstTtlAboveMaxTtl { first_ttl: u8, max_ttl: u8 },
    ZeroMaxInflight,
    RoundDurationOrder { min_round_duration: Span, max_round_duration: Span },
    GraceDurationOutOfRange { grace_duration: Span },
    PacketSizeOutOfRange { packet_size: u16 },
    RefreshRateOutOfRange { tui_refresh_rate: Span },
    ZeroReportCycles,
    AsLookupUnsupported,
}

impl ConfigError {
    pub open spec fn kind_of(self) -> ErrorKind {
        match self {
            ConfigError::InvalidDuration { .. } | ConfigError::InvalidSourceAddress => ErrorKind::Parse,
            ConfigError::ConflictingPorts | ConfigError::SourceAddressWithInterface => ErrorKind::Conflict,
            ConfigError::TcpOverIpv6
            | ConfigError::MultipleTargetsForMode
            | ConfigError::MultipleTargetsForProtocol
            | ConfigError::AsLookupUnsupported => ErrorKind::UnsupportedCombination,
            _ => ErrorKind::Range,
        }
    }

    /// The kind of this failure.
    pub fn kind(&self) -> (r: ErrorKind)
        ensures
            r == self.kind_of(),
    {
        match self {
            ConfigError::InvalidDuration { .. } | ConfigError::InvalidSourceAddress => ErrorKind::Parse,
            ConfigError::ConflictingPorts | ConfigError::SourceAddressWithInterface => ErrorKind::Conflict,
            ConfigError::TcpOverIpv6
            | ConfigError::MultipleTargetsForMode
            | ConfigError::MultipleTargetsForProtocol
            | ConfigError::AsLookupUnsupported => ErrorKind::UnsupportedCombination,
            _ => ErrorKind::Range,
        }
    }
}

} // verus!
