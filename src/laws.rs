use vstd::prelude::*;
use crate::config::{
    addr_family_of, address_with_interface, bad_source_address, derivation_error, outcome, parsed_durations, Args,
    ParsedDurations, TrippyConfig,
};
use crate::types::{ConfigError, ErrorKind, IpAddress, Mode, TraceProtocol};
use crate::validate::{addr_family_violation, multi_violation};

verus! {

/// Every configuration produced satisfies the invariants of `well_formed`.
pub proof fn lemma_config_well_formed(
    args: Args,
    seed: u16,
    d: ParsedDurations,
    source_addr: Option<IpAddress>,
)
    ensures
        outcome(args, seed, d, source_addr) matches Ok(c) ==> c.well_formed(),
{
}

/// A first ttl above the max ttl always makes construction fail, and the
/// failure is a range error unless parsing, the port policy, the address
/// family or the target count failed first.
pub proof fn lemma_ttl_order_rejected(
    args: Args,
    seed: u16,
    d: ParsedDurations,
    source_addr: Option<IpAddress>,
)
    requires
        args.first_ttl > args.max_ttl,
    ensures
        outcome(args, seed, d, source_addr) is Err,
        derivation_error(args, seed, d, source_addr) is None && addr_family_violation(
            args.protocol,
            addr_family_of(args.ipv6),
        ) is None && multi_violation(args.mode, args.protocol, args.targets@.len()) is None
            ==> outcome(args, seed, d, source_addr)->Err_0.kind_of() == ErrorKind::Range,
{
}

/// For UDP and TCP, two explicit ports always make construction fail, with a
/// conflict error once every text has been read and no source address stands
/// beside an interface.
pub proof fn lemma_both_ports_conflict(
    args: Args,
    seed: u16,
    d: ParsedDurations,
    source_addr: Option<IpAddress>,
)
    requires
        args.protocol != TraceProtocol::Icmp,
        args.source_port is Some,
        args.target_port is Some,
    ensures
        outcome(args, seed, d, source_addr) is Err,
        d.min_round_duration is Some && d.max_round_duration is Some && d.grace_duration is Some
            && d.tui_refresh_rate is Some && d.dns_timeout is Some && !bad_source_address(
            args,
            source_addr,
        ) && !address_with_interface(args) ==> outcome(args, seed, d, source_addr)
            == Err::<TrippyConfig, ConfigError>(ConfigError::ConflictingPorts),
{
}

/// Several targets with TCP always make construction fail, with an
/// unsupported-combination error once parsing and the port policy succeed.
pub proof fn lemma_multi_target_tcp_rejected(
    args: Args,
    seed: u16,
    d: ParsedDurations,
    source_addr: Option<IpAddress>,
)
    requires
        args.targets@.len() > 1,
        args.protocol == TraceProtocol::Tcp,
    ensures
        outcome(args, seed, d, source_addr) is Err,
        derivation_error(args, seed, d, source_addr) is None ==> outcome(
            args,
            seed,
            d,
            source_addr,
        )->Err_0.kind_of() == ErrorKind::UnsupportedCombination,
{
}

/// The transformation is a function of its input: on identical input it
/// gives the identical configuration or the identical error.
pub proof fn lemma_deterministic(
    args1: Args,
    seed1: u16,
    source_addr1: Option<IpAddress>,
    args2: Args,
    seed2: u16,
    source_addr2: Option<IpAddress>,
)
    requires
        args1 == args2,
        seed1 == seed2,
        source_addr1 == source_addr2,
    ensures
        outcome(args1, seed1, parsed_durations(args1), source_addr1) == outcome(
            args2,
            seed2,
            parsed_durations(args2),
            source_addr2,
        ),
{
}

/// The round cap is absent in the interactive and stream modes and equals
/// the report cycles in the report modes.
pub proof fn lemma_round_cap(
    args: Args,
    seed: u16,
    d: ParsedDurations,
    source_addr: Option<IpAddress>,
)
    requires
        outcome(args, seed, d, source_addr) is Ok,
    ensures
        args.mode == Mode::Tui || args.mode == Mode::Stream ==> outcome(
            args,
            seed,
            d,
            source_addr,
        )->Ok_0.max_rounds is None,
        args.mode == Mode::Pretty || args.mode == Mode::Markdown || args.mode == Mode::Csv
            || args.mode == Mode::Json ==> outcome(args, seed, d, source_addr)->Ok_0.max_rounds
            == Some(args.report_cycles),
{
}

} // verus!
