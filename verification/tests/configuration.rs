//! Configuration resolution: parsing, affinity, debug-stub gating, builder.

use uhyve::config::{
    check_gdb_support, flag_value, resolve_affinity, resolve_flag, resolve_gdb_port,
    select_affinity, ConfigError, Parameter,
};
use uhyve::mem::MIN_GUEST_SIZE;
use uhyve::parse::{parse_dec_u16, parse_dec_u64, parse_ipv4, parse_thp_enabled, Ipv4};
use uhyve::vm::{align_up, BootInfo, Uhyve};

const HOST_BASE: u64 = 0x7f00_0000_0000;

fn params(mem_size: u64, num_cpus: u32) -> Parameter {
    Parameter {
        mem_size,
        num_cpus,
        verbose: false,
        hugepage: false,
        mergeable: false,
        ip: None,
        gateway: None,
        mask: None,
        nic: None,
        gdb_port: None,
    }
}

#[test]
fn affinity_count_mismatch_is_rejected() {
    // `--cpus 2 --affinity 0`: one pinned core for two vCPUs fails up front
    let parsed = vec![0usize];
    let available = vec![0usize, 1, 2, 3];
    let r = select_affinity(&parsed, &available, 2);
    assert_eq!(r, Err(ConfigError::AffinityCountMismatch));
}

#[test]
fn affinity_exact_match_is_accepted() {
    let parsed = vec![0usize, 2];
    let available = vec![0usize, 1, 2, 3];
    let r = select_affinity(&parsed, &available, 2);
    assert_eq!(r, Ok(vec![0usize, 2]));
}

#[test]
fn affinity_keeps_host_order_and_drops_unavailable() {
    let parsed = vec![5usize, 2, 0];
    let available = vec![0usize, 1, 2, 3];
    // core 5 is not available, so only 0 and 2 are selected, host order kept
    assert_eq!(select_affinity(&parsed, &available, 2), Ok(vec![0usize, 2]));
    assert_eq!(select_affinity(&parsed, &available, 3), Err(ConfigError::AffinityCountMismatch));
}

#[test]
fn gdb_needs_single_cpu() {
    // `--cpus 2 --gdb_port 1234` is rejected at startup
    assert!(!check_gdb_support(2, &Some(1234)));
    assert!(check_gdb_support(1, &Some(1234)));
    assert!(check_gdb_support(2, &None));
    let mut p = params(64 * 1024 * 1024, 2);
    p.gdb_port = Some(1234);
    let r = Uhyve::new("kernel".to_string(), p, HOST_BASE);
    assert!(matches!(r, Err(ConfigError::GdbWithMultipleCpus)));
}

#[test]
fn gdb_port_resolution() {
    assert_eq!(resolve_gdb_port(&Some(b"1234".to_vec()), "HERMIT_GDB_PORT"), Ok(Some(1234)));
    assert_eq!(
        resolve_gdb_port(&Some(b"65536".to_vec()), "HERMIT_GDB_PORT"),
        Err(ConfigError::InvalidGdbPort)
    );
    assert_eq!(
        resolve_gdb_port(&Some(b"12x4".to_vec()), "HERMIT_GDB_PORT"),
        Err(ConfigError::InvalidGdbPort)
    );
    // without the option and with the shadow unset, no stub is configured
    assert_eq!(resolve_gdb_port(&None, "UHYVE_TEST_SURELY_UNSET_SHADOW"), Ok(None));
}

#[test]
fn affinity_resolves_against_the_host() {
    // an empty selection needs zero vCPUs, whatever cores the host reports
    assert_eq!(resolve_affinity(&Vec::new(), 0), Ok(Vec::new()));
}

#[test]
fn flag_switch_wins_over_environment() {
    // with the switch given the environment shadow cannot matter
    assert!(resolve_flag(true, "UHYVE_TEST_SURELY_UNSET_FLAG", false));
}

#[test]
fn flag_precedence() {
    assert!(flag_value(true, false));
    assert!(flag_value(true, true));
    assert!(flag_value(false, true));
    assert!(!flag_value(false, false));
}

#[test]
fn decimal_parsing() {
    assert_eq!(parse_dec_u64(&b"0".to_vec()), Some(0));
    assert_eq!(parse_dec_u64(&b"4".to_vec()), Some(4));
    assert_eq!(parse_dec_u64(&b"18446744073709551615".to_vec()), Some(u64::MAX));
    assert_eq!(parse_dec_u64(&b"18446744073709551616".to_vec()), None);
    assert_eq!(parse_dec_u64(&b"".to_vec()), None);
    assert_eq!(parse_dec_u64(&b"12a".to_vec()), None);
    assert_eq!(parse_dec_u64(&b"-3".to_vec()), None);
    assert_eq!(parse_dec_u16(&b"65535".to_vec()), Some(65535));
    assert_eq!(parse_dec_u16(&b"65536".to_vec()), None);
}

#[test]
fn ipv4_parsing() {
    assert_eq!(parse_ipv4(&b"10.0.5.1".to_vec()), Some(Ipv4 { a: 10, b: 0, c: 5, d: 1 }));
    assert_eq!(parse_ipv4(&b"0.0.0.0".to_vec()), Some(Ipv4 { a: 0, b: 0, c: 0, d: 0 }));
    assert_eq!(
        parse_ipv4(&b"255.255.255.255".to_vec()),
        Some(Ipv4 { a: 255, b: 255, c: 255, d: 255 })
    );
    assert_eq!(parse_ipv4(&b"256.0.0.1".to_vec()), None);
    assert_eq!(parse_ipv4(&b"1.2.3".to_vec()), None);
    assert_eq!(parse_ipv4(&b"1.2.3.4.5".to_vec()), None);
    assert_eq!(parse_ipv4(&b"01.2.3.4".to_vec()), None);
    assert_eq!(parse_ipv4(&b"1..2.3".to_vec()), None);
    assert_eq!(parse_ipv4(&b"".to_vec()), None);
}

#[test]
fn thp_state_parsing() {
    assert_eq!(parse_thp_enabled(&b"always [madvise] never".to_vec()), Some(true));
    assert_eq!(parse_thp_enabled(&b"[always] madvise never".to_vec()), Some(true));
    assert_eq!(parse_thp_enabled(&b"always madvise [never]".to_vec()), Some(false));
    assert_eq!(parse_thp_enabled(&b"garbage".to_vec()), None);
    assert_eq!(parse_thp_enabled(&b"half [open".to_vec()), None);
}

#[test]
fn builder_clamps_memory_and_keeps_config() {
    let mut p = params(1024 * 1024, 1);
    p.verbose = true;
    p.ip = Some(b"10.0.5.2".to_vec());
    p.gateway = Some(b"10.0.5.1".to_vec());
    p.mask = Some(b"255.255.255.0".to_vec());
    p.nic = Some("tap0".to_string());
    let vm = Uhyve::new("hello_world".to_string(), p, HOST_BASE).expect("valid configuration");
    assert_eq!(vm.guest_mem(), (HOST_BASE, MIN_GUEST_SIZE));
    assert_eq!(vm.num_cpus(), 1);
    assert!(vm.verbose());
    assert_eq!(vm.kernel_path().as_str(), "hello_world");
    assert_eq!(vm.get_ip(), Some(Ipv4 { a: 10, b: 0, c: 5, d: 2 }));
    assert_eq!(vm.get_gateway(), Some(Ipv4 { a: 10, b: 0, c: 5, d: 1 }));
    assert_eq!(vm.get_mask(), Some(Ipv4 { a: 255, b: 255, c: 255, d: 0 }));
    assert_eq!(vm.get_offset(), 0);
    assert_eq!(vm.get_entry_point(), 0);
}

#[test]
fn builder_rejects_bad_address() {
    let mut p = params(64 * 1024 * 1024, 1);
    p.ip = Some(b"300.0.0.1".to_vec());
    let r = Uhyve::new("kernel".to_string(), p, HOST_BASE);
    assert!(matches!(r, Err(ConfigError::InvalidAddress)));
}

#[test]
fn builder_tracks_boot_info() {
    let p = params(64 * 1024 * 1024, 1);
    let mut vm = Uhyve::new("kernel".to_string(), p, HOST_BASE).expect("valid configuration");
    assert_eq!(vm.cpu_online(), 0);
    vm.set_boot_info(BootInfo { entry_point: 0x40_0000, cpu_online: 1 });
    assert_eq!(vm.cpu_online(), 1);
    vm.set_entry_point(0x40_0000);
    assert_eq!(vm.get_entry_point(), 0x40_0000);
    vm.set_offset(0x20_0000);
    assert_eq!(vm.get_offset(), 0x20_0000);
}

#[test]
fn align_up_rounds_to_multiples() {
    assert_eq!(align_up(0, 64), 0);
    assert_eq!(align_up(1, 64), 64);
    assert_eq!(align_up(64, 64), 64);
    assert_eq!(align_up(100, 64), 128);
    assert_eq!(align_up(65, 1), 65);
}
