use stat_client::assemble::assemble;
use stat_client::cache::{apply_refresh_outcome, ClientConfig};
use stat_client::model::{skip_iface, Args, DynamicMetrics, IpInfo, StatRequest, SysInfo};
use stat_client::scheduler::{plan_tick, schedule_after, TransportError, INTERVAL_MS};
use stat_client::startup::build_stat_base;
use stat_client::transport::{
    apply_connectivity, auth_for, build_report_request, host_port_of, select_channel, Channel,
    ConfigError,
};

fn base_args() -> Args {
    Args {
        addr: "http://127.0.0.1:8080/report".to_string(),
        user: "h1".to_string(),
        pass: "p1".to_string(),
        vnstat: false,
        disable_extra: false,
        json: false,
        ipv6: false,
        gid: "".to_string(),
        alias: "unknown".to_string(),
        weight: 0,
        disable_notify: false,
        host_type: "".to_string(),
        location: "".to_string(),
        iface: vec![],
        exclude_iface: vec![
            "lo".to_string(),
            "docker".to_string(),
            "vnet".to_string(),
            "veth".to_string(),
            "vmbr".to_string(),
            "kube".to_string(),
            "br-".to_string(),
        ],
    }
}

fn zero_metrics() -> DynamicMetrics {
    DynamicMetrics {
        cpu_percent: 0,
        network_rx: 0,
        network_tx: 0,
        ping_ct: 0,
        ping_cm: 0,
        ping_cu: 0,
        time_ct: 0,
        time_cm: 0,
        time_cu: 0,
    }
}

fn sample_ip_info() -> IpInfo {
    IpInfo {
        query: "203.0.113.9".to_string(),
        country: "NL".to_string(),
        isp: "ExampleNet".to_string(),
    }
}

fn sample_sys_info() -> SysInfo {
    SysInfo {
        host_name: "host-a".to_string(),
        os_name: "linux".to_string(),
        version: "1.0.0".to_string(),
    }
}

#[test]
fn skip_iface_include_list_exact_match_only() {
    let mut args = base_args();
    args.iface = vec!["eth0".to_string(), "eth1".to_string()];
    assert!(!skip_iface("eth0", &args));
    assert!(!skip_iface("eth1", &args));
    // substring of an entry is not an exact match
    assert!(skip_iface("eth", &args));
    assert!(skip_iface("eth2", &args));
    // exclusions are ignored while the include list is non-empty
    assert!(skip_iface("lo", &args));
}

#[test]
fn skip_iface_empty_include_uses_exclude_substrings() {
    let args = base_args();
    assert!(skip_iface("lo", &args));
    assert!(skip_iface("docker0", &args));
    assert!(skip_iface("br-42aa11", &args));
    assert!(skip_iface("vethX3", &args));
    assert!(!skip_iface("eth0", &args));
    assert!(!skip_iface("enp3s0", &args));
}

#[test]
fn skip_iface_both_lists_empty_skips_nothing() {
    let mut args = base_args();
    args.exclude_iface = vec![];
    assert!(!skip_iface("anything", &args));
    assert!(!skip_iface("", &args));
}

#[test]
fn cache_fields_are_independent() {
    let mut cache = ClientConfig::default();
    assert!(cache.ip_info.is_none());
    assert!(cache.sys_info.is_none());
    cache.set_sys_info(sample_sys_info());
    assert!(cache.ip_info.is_none());
    assert_eq!(cache.sys_info.as_ref().unwrap().host_name, "host-a");
    cache.set_ip_info(sample_ip_info());
    assert_eq!(cache.ip_info.as_ref().unwrap().query, "203.0.113.9");
    assert_eq!(cache.sys_info.as_ref().unwrap().host_name, "host-a");
    let snap = cache.snapshot();
    assert_eq!(snap.ip_info.as_ref().unwrap().country, "NL");
    assert_eq!(snap.sys_info.as_ref().unwrap().os_name, "linux");
}

#[test]
fn refresh_failure_keeps_cached_ip_info() {
    let mut cache = ClientConfig::default();
    cache.set_ip_info(sample_ip_info());
    cache.set_sys_info(sample_sys_info());
    // a failed lookup leaves the previous value untouched
    apply_refresh_outcome(&mut cache, None);
    assert_eq!(cache.ip_info.as_ref().unwrap().query, "203.0.113.9");
    assert_eq!(cache.sys_info.as_ref().unwrap().host_name, "host-a");
    // a successful one replaces it wholesale
    let newer = IpInfo {
        query: "198.51.100.7".to_string(),
        country: "DE".to_string(),
        isp: "OtherNet".to_string(),
    };
    apply_refresh_outcome(&mut cache, Some(newer));
    assert_eq!(cache.ip_info.as_ref().unwrap().query, "198.51.100.7");
    assert_eq!(cache.sys_info.as_ref().unwrap().host_name, "host-a");
}

#[test]
fn refresh_failure_on_empty_cache_stays_empty() {
    let mut cache = ClientConfig::default();
    apply_refresh_outcome(&mut cache, None);
    assert!(cache.ip_info.is_none());
    assert!(cache.sys_info.is_none());
}

#[test]
fn assemble_disabled_extra_never_carries_aux() {
    let args = base_args();
    let base = build_stat_base(&args, "sysid", true, false, "1.2.3");
    let mut cache = ClientConfig::default();
    cache.set_ip_info(sample_ip_info());
    cache.set_sys_info(sample_sys_info());
    let rec = assemble(&base, &zero_metrics(), &cache, false, 1700000000);
    assert!(rec.ip_info.is_none());
    assert!(rec.sys_info.is_none());
    assert_eq!(rec.latest_ts, 1700000000);
}

#[test]
fn assemble_enabled_extra_carries_cache_contents() {
    let args = base_args();
    let base = build_stat_base(&args, "sysid", true, false, "1.2.3");
    let mut cache = ClientConfig::default();
    cache.set_ip_info(sample_ip_info());
    let rec = assemble(&base, &zero_metrics(), &cache, true, 42);
    assert_eq!(rec.ip_info.as_ref().unwrap().query, "203.0.113.9");
    assert!(rec.sys_info.is_none());
    assert_eq!(rec.name, "h1");
    assert_eq!(rec.frame, "data");
    assert_eq!(rec.latest_ts, 42);
}

#[test]
fn assemble_timestamps_nondecreasing_over_ticks() {
    let args = base_args();
    let base = build_stat_base(&args, "sysid", true, false, "1.2.3");
    let cache = ClientConfig::default();
    let mut last = 0u64;
    for tick in 0..5u64 {
        let now = 1700000000 + tick;
        let rec = assemble(&base, &zero_metrics(), &cache, true, now);
        assert!(rec.latest_ts >= last);
        last = rec.latest_ts;
    }
}

#[test]
fn select_channel_by_scheme_prefix() {
    assert_eq!(select_channel("http://h:8080/report"), Ok(Channel::HttpPush));
    assert_eq!(select_channel("https://h/report"), Ok(Channel::HttpPush));
    assert_eq!(select_channel("grpc://h:9394"), Ok(Channel::GrpcRpc));
    assert_eq!(select_channel("ftp://h/x"), Err(ConfigError::UnsupportedScheme));
    assert_eq!(select_channel(""), Err(ConfigError::UnsupportedScheme));
}

#[test]
fn host_port_keeps_explicit_port_and_defaults_the_rest() {
    assert_eq!(host_port_of("http://h:8080/report").unwrap(), "h:8080");
    assert_eq!(host_port_of("http://example.com/report").unwrap(), "example.com:80");
    assert_eq!(host_port_of("https://example.com/report").unwrap(), "example.com:443");
    assert_eq!(
        host_port_of("nonsense"),
        Err(ConfigError::UnresolvableHost)
    );
}

#[test]
fn connectivity_only_raises_flags() {
    let args = base_args();
    let mut base = build_stat_base(&args, "sysid", false, false, "1.2.3");
    apply_connectivity(&mut base, true, false);
    assert!(base.online4);
    assert!(!base.online6);
    // an unreachable family never lowers a flag already set
    apply_connectivity(&mut base, false, true);
    assert!(base.online4);
    assert!(base.online6);
}

#[test]
fn auth_mode_follows_group_id() {
    let mut args = base_args();
    let (user, mode) = auth_for(&args);
    assert_eq!(user, "h1");
    assert_eq!(mode, "single");
    args.gid = "g1".to_string();
    let (user, mode) = auth_for(&args);
    assert_eq!(user, "g1");
    assert_eq!(mode, "group");
}

#[test]
fn single_host_write_request_carries_configured_credentials() {
    // destination http://h:8080/report, user h1, password p1, no group id
    let mut args = base_args();
    args.addr = "http://h:8080/report".to_string();
    let base = build_stat_base(&args, "sysid", true, false, "1.2.3");
    let rec = assemble(&base, &zero_metrics(), &ClientConfig::default(), true, 7);
    let req = build_report_request(&args, &rec);
    assert_eq!(req.url, "http://h:8080/report");
    assert_eq!(host_port_of(&args.addr).unwrap(), "h:8080");
    assert_eq!(req.auth_user, "h1");
    assert_eq!(req.auth_pass, "p1");
    assert_eq!(req.auth_mode, "single");
}

#[test]
fn grouped_default_alias_mirrors_generated_identity() {
    // group id g1, alias left at its default placeholder
    let mut args = base_args();
    args.gid = "g1".to_string();
    let base = build_stat_base(&args, "generated-id-7", true, false, "1.2.3");
    assert_eq!(base.gid, "g1");
    assert_eq!(base.name, "generated-id-7");
    assert_eq!(base.alias, "generated-id-7");
}

#[test]
fn grouped_explicit_name_and_alias_are_kept() {
    let mut args = base_args();
    args.gid = "g1".to_string();
    args.user = "node-9".to_string();
    args.alias = "rack-3".to_string();
    let base = build_stat_base(&args, "generated-id-7", true, false, "1.2.3");
    assert_eq!(base.name, "node-9");
    assert_eq!(base.alias, "rack-3");
}

#[test]
fn single_host_template_keeps_user_name() {
    let args = base_args();
    let base = build_stat_base(&args, "generated-id-7", true, true, "1.2.3");
    assert_eq!(base.name, "h1");
    assert_eq!(base.gid, "");
    assert_eq!(base.alias, "");
    assert!(base.notify);
    assert_eq!(base.weight, 0);
    assert_eq!(base.version, "1.2.3");
}

#[test]
fn scheduler_keeps_cadence_through_ten_failed_deliveries() {
    // destination unreachable for 10 consecutive ticks: the tick plan and the
    // cache never change, and the sleep stays at the fixed interval
    let args = base_args();
    let base = build_stat_base(&args, "sysid", true, false, "1.2.3");
    let mut cache = ClientConfig::default();
    cache.set_ip_info(sample_ip_info());
    let metrics = zero_metrics();
    let snap_before = cache.snapshot();
    let first = plan_tick(&args, &base, &metrics, &cache);
    for _ in 0..10 {
        let (req, sleep_ms) = plan_tick(&args, &base, &metrics, &cache);
        assert_eq!(sleep_ms, INTERVAL_MS);
        // every delivery attempt fails; the outcome is only logged
        let outcome: Result<(), TransportError> = Err(TransportError::Timeout);
        assert_eq!(schedule_after(&outcome), INTERVAL_MS);
        // the plan itself is unaffected by the failures
        assert_eq!(req.url, first.0.url);
        assert_eq!(req.auth_user, first.0.auth_user);
        assert_eq!(req.auth_pass, first.0.auth_pass);
        assert_eq!(req.auth_mode, first.0.auth_mode);
        assert_eq!(req.content_type, first.0.content_type);
    }
    assert_eq!(
        cache.snapshot().ip_info.as_ref().unwrap().query,
        snap_before.ip_info.as_ref().unwrap().query
    );
    assert_eq!(cache.snapshot().sys_info.is_none(), snap_before.sys_info.is_none());
}
