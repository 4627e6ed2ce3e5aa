use zpool_status_exporter::fmt::{format_metrics, DeviceTreeName};
use zpool_status_exporter::meta::{metric, write_prefix_label, MetricWrite, Type, Values};
use zpool_status_exporter::zfs::{
    DeviceMetrics, DeviceStatus, ErrorStatus, PoolMetrics, PoolStatusDescription, ScanStatus,
    ScanTime,
};
use zpool_status_exporter::AppContext;

fn text(v: &[char]) -> String {
    v.iter().collect()
}

#[test]
fn metric_and_values() {
    let m = metric("scan_age", "Scan age in hours");
    assert_eq!(m.metric_name, "scan_age");
    assert_eq!(m.help, "Scan age in hours");
    assert_eq!(m.ty, Type::Gauge);
    assert_eq!(m.metric_type().label(), "gauge");
    let v = m.with_values(Values::ErrorStatus);
    assert_eq!(v.base, m);
    assert_eq!(v.values, Values::ErrorStatus);
    let mut out = Vec::new();
    v.write_help(&mut out);
    assert_eq!(
        text(&out),
        "Scan age in hours: UnknownMissing = 0, Unrecognized = 1, Ok = 10, DataErrors = 50"
    );
}

#[test]
fn prefix_label() {
    let mut out = Vec::new();
    write_prefix_label(&metric("dev_state", "Device state"), &mut out);
    assert_eq!(text(&out), "zpool_dev_state");
}

#[test]
fn device_tree_name_stack() {
    let mut tree = DeviceTreeName::new();
    tree.update(0, "tank".to_string());
    assert!(tree.names.is_empty());
    tree.update(1, "mirror-0".to_string());
    tree.update(2, "sda".to_string());
    assert_eq!(tree.names, vec!["mirror-0".to_string(), "sda".to_string()]);
    tree.update(2, "sdb".to_string());
    assert_eq!(tree.names, vec!["mirror-0".to_string(), "sdb".to_string()]);
    tree.update(1, "mirror-1".to_string());
    assert_eq!(tree.names, vec!["mirror-1".to_string()]);
    let mut out = Vec::new();
    tree.update(2, "sdc".to_string());
    tree.write_joined(&mut out);
    assert_eq!(text(&out), "mirror-1/sdc");
}

fn pool(name: &str) -> PoolMetrics {
    PoolMetrics {
        name: name.to_string(),
        state: Some(DeviceStatus::Suspended),
        pool_status: Some(PoolStatusDescription::Unrecognized),
        scan_status: Some((
            ScanStatus::Resilvered,
            ScanTime { civil_second: 7200, offset_seconds: 7200 },
        )),
        devices: vec![DeviceMetrics {
            depth: 1,
            name: "nvme0".to_string(),
            state: DeviceStatus::Unavail,
            errors_read: 4294967295,
            errors_write: 7,
            errors_checksum: 0,
        }],
        error: Some(ErrorStatus::DataErrors),
    }
}

#[test]
fn formats_codes_counters_and_ages() {
    let out = format_metrics(vec![pool("p")], 3600 * 5, 500_000_000, None);
    let has = |l: &str| out.lines().any(|x| x == l);
    assert!(has("zpool_pool_state{pool=\"p\"} 70"));
    assert!(has("zpool_pool_status_desc{pool=\"p\"} 1"));
    assert!(has("zpool_scan_state{pool=\"p\"} 15"));
    assert!(has("zpool_scan_age{pool=\"p\"} 5.000139"));
    assert!(has("zpool_error_state{pool=\"p\"} 50"));
    assert!(has("zpool_dev_state{pool=\"p\",dev=\"nvme0\"} 100"));
    assert!(has("zpool_dev_errors_read{pool=\"p\",dev=\"nvme0\"} 4294967295"));
    assert!(has("zpool_dev_errors_write{pool=\"p\",dev=\"nvme0\"} 7"));
}

#[test]
fn lookup_duration_in_seconds() {
    let out = format_metrics(Vec::new(), 0, 0, Some(1_500_000_000));
    assert_eq!(
        out,
        "# no pools reported\n# HELP zpool_lookup total duration of the lookup in seconds\n# TYPE zpool_lookup gauge\nzpool_lookup 1.500000\n"
    );
    let out = format_metrics(Vec::new(), 0, 0, Some(2_000_000_000));
    assert!(out.ends_with("zpool_lookup 2\n"));
}

#[test]
fn one_help_and_type_line_per_metric() {
    let out = format_metrics(vec![pool("a"), pool("b")], 0, 0, Some(1));
    for name in [
        "pool_state",
        "pool_status_desc",
        "scan_state",
        "scan_age",
        "error_state",
        "dev_state",
        "dev_errors_read",
        "dev_errors_write",
        "dev_errors_checksum",
        "lookup",
    ] {
        let help = format!("# HELP zpool_{name} ");
        let ty = format!("# TYPE zpool_{name} gauge");
        assert_eq!(out.lines().filter(|l| l.starts_with(&help)).count(), 1, "{name}");
        assert_eq!(out.lines().filter(|l| *l == ty).count(), 1, "{name}");
    }
    assert_eq!(out.lines().filter(|l| l.starts_with("# HELP")).count(), 10);
}

#[test]
fn pools_in_input_order_in_every_block() {
    let out = format_metrics(vec![pool("a"), pool("b")], 0, 0, None);
    let a = out.find("zpool_pool_state{pool=\"a\"}").expect("a");
    let b = out.find("zpool_pool_state{pool=\"b\"}").expect("b");
    assert!(a < b);
}

#[test]
fn system_zone_context() {
    let ctx = AppContext::new();
    assert_eq!(ctx.name_suffix, "");
    let ts = ctx.timestamp_at(1, 2, None);
    assert_eq!((ts.now_s, ts.now_ns), (1, 2));
}
