//! The configuration record and its resolution rules.
//!
//! The front end collects raw option values — command-line text, environment
//! flags, the host's CPU list — and the functions here turn them into a
//! validated [`Parameter`] record: the memory size is parsed and clamped, a
//! command-line flag wins over its environment shadow, the CPU affinity list
//! must match the vCPU count exactly, and the debug stub is only allowed on a
//! single-vCPU machine.  Reading the environment and querying the host cores
//! happen behind trusted seams; every decision taken on what they return is
//! verified.

use crate::mem::{clamp_mem_size, DEFAULT_GUEST_SIZE, MIN_GUEST_SIZE};
use crate::parse::{dec_value, all_digits, parse_dec_u16};
use vstd::prelude::*;

verus! {

/// A configuration the hypervisor refuses at startup.
#[derive(Clone, Copy, Debug, PartialEq, Eq, Structural)]
pub enum ConfigError {
    /// The memory size option did not parse as a byte count.
    InvalidMemSize,
    /// The affinity list does not select exactly one host core per vCPU.
    AffinityCountMismatch,
    /// The host reports no cores to pin onto.
    NoHostCores,
    /// The debug stub is limited to a single vCPU.
    GdbWithMultipleCpus,
    /// The debug port option did not parse as a port number.
    InvalidGdbPort,
    /// An address option did not parse as a dotted-quad IPv4 address.
    InvalidAddress,
}

/// The configuration record handed to the VM builder.
#[derive(Debug)]
pub struct Parameter {
    /// Bytes of guest RAM, already clamped to the minimum.
    pub mem_size: u64,
    /// Number of vCPUs to spawn.
    pub num_cpus: u32,
    /// Surface the guest kernel log.
    pub verbose: bool,
    /// Advise the host to back the mapping with transparent huge pages.
    pub hugepage: bool,
    /// Advise the host to merge identical pages.
    pub mergeable: bool,
    /// Guest IPv4 address text, if networking is configured.
    pub ip: Option<Vec<u8>>,
    /// Gateway address text.
    pub gateway: Option<Vec<u8>>,
    /// Network mask text.
    pub mask: Option<Vec<u8>>,
    /// Name of the host TAP interface; absent means no NIC.
    pub nic: Option<String>,
    /// TCP port of the remote-debug stub; requires a single vCPU.
    pub gdb_port: Option<u16>,
}

/// What `byte_unit` denotes for a size string such as "64 MiB", as a byte
/// count when it parses and fits in a `u64`.
pub uninterp spec fn parsed_byte_size(s: Seq<char>) -> Option<u64>;

/// Relies on `byte_unit::Byte::from_str` and `Byte::get_bytes`: the parsed
/// byte count depends on the characters alone.
#[verifier::external_body]
fn parse_byte_size(s: &str) -> (r: Option<u64>)
    ensures
        r == parsed_byte_size(s@),
{
    match byte_unit::Byte::from_str(s) {
        Ok(b) => u64::try_from(b.get_bytes()).ok(),
        Err(_) => None,
    }
}

/// Resolve the guest memory size from the option text: absent means the
/// default, unparsable text is refused, and a parsed size is clamped to the
/// minimum.  The boolean reports that the request was raised, so the caller
/// can warn.
pub fn resolve_mem_size(arg: &Option<String>) -> (r: Result<(u64, bool), ConfigError>)
    ensures
        arg is None ==> r == Ok::<(u64, bool), ConfigError>((DEFAULT_GUEST_SIZE, false)),
        arg matches Some(s) ==> r == (match parsed_byte_size(s@) {
            Some(b) => if b < MIN_GUEST_SIZE {
                Ok::<(u64, bool), ConfigError>((MIN_GUEST_SIZE, true))
            } else {
                Ok::<(u64, bool), ConfigError>((b, false))
            },
            None => Err::<(u64, bool), ConfigError>(ConfigError::InvalidMemSize),
        }),
        r matches Ok(v) ==> v.0 >= MIN_GUEST_SIZE,
{
    match arg {
        None => Ok((DEFAULT_GUEST_SIZE, false)),
        Some(s) => {
            match parse_byte_size(s.as_str()) {
                Some(b) => Ok(clamp_mem_size(b)),
                None => Err(ConfigError::InvalidMemSize),
            }
        },
    }
}

/// The debug stub supports exactly one vCPU: gate the combination.
pub fn check_gdb_support(num_cpus: u32, gdb_port: &Option<u16>) -> (r: bool)
    ensures
        r == (gdb_port is None || num_cpus == 1),
{
    match gdb_port {
        None => true,
        Some(_) => num_cpus == 1,
    }
}

/// Whether `v` holds `x`.
fn contains_usize(v: &Vec<usize>, x: usize) -> (r: bool)
    ensures
        r == v@.contains(x),
{
    let mut i: usize = 0;
    while i < v.len()
        invariant
            i <= v@.len(),
            forall|j: int| 0 <= j < i ==> v@[j] != x,
        decreases v@.len() - i,
    {
        if v[i] == x {
            return true;
        }
        i = i + 1;
    }
    proof {
        if v@.contains(x) {
            let w = choose|j: int| 0 <= j < v@.len() && v@[j] == x;
            assert(v@[w] == x);
        }
    }
    false
}

/// The host cores the affinity option selects, in the host's order.
pub open spec fn selected_cores(parsed: Seq<usize>, available: Seq<usize>) -> Seq<usize> {
    available.filter(|c: usize| parsed.contains(c))
}

/// Keep the available host cores the affinity list names, and insist the
/// selection pins exactly one core per vCPU; a mismatch is refused before
/// any vCPU is spawned.
pub fn select_affinity(parsed: &Vec<usize>, available: &Vec<usize>, num_cpus: u32) -> (r: Result<
    Vec<usize>,
    ConfigError,
>)
    ensures
        r matches Ok(v) ==> v@ == selected_cores(parsed@, available@) && v@.len() == num_cpus,
        r is Err ==> r == Err::<Vec<usize>, ConfigError>(ConfigError::AffinityCountMismatch),
        (r is Ok) <==> selected_cores(parsed@, available@).len() == num_cpus,
{
    broadcast use Seq::lemma_filter_push;

    let mut out: Vec<usize> = Vec::new();
    let mut i: usize = 0;
    proof {
        assert(available@.take(0).filter(|c: usize| parsed@.contains(c)) =~= Seq::<
            usize,
        >::empty());
    }
    while i < available.len()
        invariant
            i <= available@.len(),
            out@ == available@.take(i as int).filter(|c: usize| parsed@.contains(c)),
        decreases available@.len() - i,
    {
        let c = available[i];
        proof {
            assert(available@.take(i + 1) =~= available@.take(i as int).push(available@[i as int]));
            available@.take(i as int).lemma_filter_push(c, |x: usize| parsed@.contains(x));
        }
        if contains_usize(parsed, c) {
            out.push(c);
        }
        i = i + 1;
    }
    proof {
        assert(available@.take(available@.len() as int) =~= available@);
    }
    if out.len() == num_cpus as usize {
        Ok(out)
    } else {
        Err(ConfigError::AffinityCountMismatch)
    }
}

/// Relies on `core_affinity::get_core_ids`: the cores the current process is
/// allowed to run on, if the host reports any.  The result depends on the
/// host's scheduler state, so nothing is promised of it.
#[verifier::external_body]
fn host_core_ids() -> (r: Option<Vec<usize>>) {
    core_affinity::get_core_ids().map(|v| v.into_iter().map(|c| c.id).collect())
}

/// Resolve the CPU affinity against the host: query the allowed cores and
/// keep those the option names.  Whatever the host reports, the selection is
/// accepted only when it pins exactly one core per vCPU.
pub fn resolve_affinity(parsed: &Vec<usize>, num_cpus: u32) -> (r: Result<Vec<usize>, ConfigError>)
    ensures
        r matches Ok(v) ==> v@.len() == num_cpus,
        r is Err ==> r == Err::<Vec<usize>, ConfigError>(ConfigError::AffinityCountMismatch) || r
            == Err::<Vec<usize>, ConfigError>(ConfigError::NoHostCores),
{
    match host_core_ids() {
        Some(available) => select_affinity(parsed, &available, num_cpus),
        None => Err(ConfigError::NoHostCores),
    }
}

/// A command-line switch wins over the environment shadow it overrides.
pub fn flag_value(cli_set: bool, env_value: bool) -> (r: bool)
    ensures
        r == (cli_set || env_value),
{
    cli_set || env_value
}

/// Relies on `envmnt::is_or`: the boolean value of an environment variable,
/// or the default when it is unset.  The result depends on the environment,
/// so nothing is promised of it.
#[verifier::external_body]
fn env_is_or(name: &str, default: bool) -> (r: bool) {
    envmnt::is_or(name, default)
}

/// Resolve an enabling flag: the command-line switch forces it on, otherwise
/// the environment shadow (with the given default) decides.
pub fn resolve_flag(cli_set: bool, env_name: &str, default: bool) -> (r: bool)
    ensures
        cli_set ==> r,
{
    let env_value = env_is_or(env_name, default);
    flag_value(cli_set, env_value)
}

/// Resolve a disabling flag: the command-line switch forces it off, otherwise
/// the environment shadow (with the given default) decides.
pub fn resolve_flag_disable(cli_disable: bool, env_name: &str, default: bool) -> (r: bool)
    ensures
        cli_disable ==> !r,
{
    if cli_disable {
        false
    } else {
        env_is_or(env_name, default)
    }
}

/// Relies on `envmnt::exists`: whether the environment variable is set.
#[verifier::external_body]
fn env_exists(name: &str) -> (r: bool) {
    envmnt::exists(name)
}

/// Relies on `envmnt::get_or`: the value of the environment variable as
/// bytes, or the default when it is unset.
#[verifier::external_body]
fn env_get_or(name: &str, default: &str) -> (r: Vec<u8>) {
    envmnt::get_or(name, default).into_bytes()
}

/// Resolve the debug-stub port: the command-line text wins and must be a
/// decimal port number; otherwise the environment shadow is consulted and
/// must parse the same way when set.
pub fn resolve_gdb_port(cli: &Option<Vec<u8>>, env_name: &str) -> (r: Result<
    Option<u16>,
    ConfigError,
>)
    ensures
        (match cli {
            Some(s) => r == (if s@.len() > 0 && all_digits(s@) && dec_value(s@) <= u16::MAX {
                Ok::<Option<u16>, ConfigError>(Some(dec_value(s@) as u16))
            } else {
                Err::<Option<u16>, ConfigError>(ConfigError::InvalidGdbPort)
            }),
            None => true,
        }),
{
    match cli {
        Some(s) => {
            match parse_dec_u16(s) {
                Some(p) => Ok(Some(p)),
                None => Err(ConfigError::InvalidGdbPort),
            }
        },
        None => {
            if env_exists(env_name) {
                let v = env_get_or(env_name, "");
                match parse_dec_u16(&v) {
                    Some(p) => Ok(Some(p)),
                    None => Err(ConfigError::InvalidGdbPort),
                }
            } else {
                Ok(None)
            }
        },
    }
}

} // verus!
