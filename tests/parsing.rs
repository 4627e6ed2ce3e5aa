use zpool_status_exporter::error::{
    DeviceErrorKind, ErrorKind, HeaderErrorKind, Previous,
};
use zpool_status_exporter::zfs::{
    DeviceStatus, ErrorStatus, PoolStatusDescription, ScanStatus, ScanTime,
};
use zpool_status_exporter::row::parse_row_exec;
use zpool_status_exporter::{AppContext, ParseError};

/// 2024-10-28T15:14:51Z
const NOW: i64 = 1730128491;

fn metrics(input: &str, now: i64) -> (Result<String, ParseError>, Vec<String>) {
    let ctx = AppContext::new_assume_local_is_utc();
    let ts = ctx.timestamp_at_unix_utc(now, None).expect("in range");
    let mut notes = Vec::new();
    let out = ts.get_metrics_for_output(input, &mut notes);
    (out, notes)
}

fn ok(input: &str) -> String {
    let (out, _) = metrics(input, NOW);
    out.expect("parses")
}

fn err(input: &str) -> ParseError {
    let (out, _) = metrics(input, NOW);
    out.expect_err("fails")
}

fn has_line(out: &str, line: &str) -> bool {
    out.lines().any(|l| l == line)
}

const HEALTHY: &str = "  pool: tank
 state: ONLINE
  scan: scrub repaired 0B in 00:05:00 with 0 errors on Sun Oct 27 15:14:51 2024
config:

\tNAME        STATE     READ WRITE CKSUM
\ttank        ONLINE       0     0     0
\t  sda       ONLINE       0     0     0

errors: No known data errors
";

#[test]
fn no_pools_available() {
    let out = ok("no pools available\n");
    assert!(out.starts_with("# no pools reported"));
    assert!(!out.contains("zpool_pool_state"));
    assert_eq!(out, "# no pools reported\n");
}

#[test]
fn empty_input_reports_no_pools() {
    assert_eq!(ok(""), "# no pools reported\n");
}

#[test]
fn empty_input_with_lookup_block() {
    let ctx = AppContext::new_assume_local_is_utc();
    let ts = ctx
        .timestamp_at_unix_utc(NOW, Some(std::time::Instant::now()))
        .expect("in range");
    let mut notes = Vec::new();
    let out = ts.get_metrics_for_output("", &mut notes).expect("parses");
    let lines: Vec<&str> = out.lines().collect();
    assert_eq!(lines.len(), 4);
    assert_eq!(lines[0], "# no pools reported");
    assert_eq!(lines[1], "# HELP zpool_lookup total duration of the lookup in seconds");
    assert_eq!(lines[2], "# TYPE zpool_lookup gauge");
    assert!(lines[3].starts_with("zpool_lookup "));
}

#[test]
fn single_healthy_pool_full_document() {
    let expected = "\
# HELP zpool_pool_state Pool state: UnknownMissing = 0, Unrecognized = 1, Online = 10, Offline = 25, Split = 26, Degraded = 50, Faulted = 60, Suspended = 70, Removed = 80, Unavail = 100
# TYPE zpool_pool_state gauge
zpool_pool_state{pool=\"tank\"} 10
# HELP zpool_pool_status_desc Pool status description: UnknownMissing = 0, Unrecognized = 1, FeaturesAvailable = 5, SufficientReplicasForMissing = 10, DeviceRemoved = 15, DataCorruption = 50
# TYPE zpool_pool_status_desc gauge
zpool_pool_status_desc{pool=\"tank\"} 0
# HELP zpool_scan_state Scan status: UnknownMissing = 0, Unrecognized = 1, ScrubRepaired = 10, Resilvered = 15, ScrubInProgress = 30
# TYPE zpool_scan_state gauge
zpool_scan_state{pool=\"tank\"} 10
# HELP zpool_scan_age Scan age in hours
# TYPE zpool_scan_age gauge
zpool_scan_age{pool=\"tank\"} 24
# HELP zpool_error_state Error status: UnknownMissing = 0, Unrecognized = 1, Ok = 10, DataErrors = 50
# TYPE zpool_error_state gauge
zpool_error_state{pool=\"tank\"} 10
# HELP zpool_dev_state Device state: UnknownMissing = 0, Unrecognized = 1, Online = 10, Offline = 25, Split = 26, Degraded = 50, Faulted = 60, Suspended = 70, Removed = 80, Unavail = 100
# TYPE zpool_dev_state gauge
zpool_dev_state{pool=\"tank\",dev=\"\"} 10
zpool_dev_state{pool=\"tank\",dev=\"sda\"} 10
# HELP zpool_dev_errors_read Read error count
# TYPE zpool_dev_errors_read gauge
zpool_dev_errors_read{pool=\"tank\",dev=\"\"} 0
zpool_dev_errors_read{pool=\"tank\",dev=\"sda\"} 0
# HELP zpool_dev_errors_write Write error count
# TYPE zpool_dev_errors_write gauge
zpool_dev_errors_write{pool=\"tank\",dev=\"\"} 0
zpool_dev_errors_write{pool=\"tank\",dev=\"sda\"} 0
# HELP zpool_dev_errors_checksum Checksum error count
# TYPE zpool_dev_errors_checksum gauge
zpool_dev_errors_checksum{pool=\"tank\",dev=\"\"} 0
zpool_dev_errors_checksum{pool=\"tank\",dev=\"sda\"} 0
";
    assert_eq!(ok(HEALTHY), expected);
}

#[test]
fn single_healthy_pool_key_lines() {
    let out = ok(HEALTHY);
    assert!(has_line(&out, "zpool_pool_state{pool=\"tank\"} 10"));
    assert!(has_line(&out, "zpool_scan_state{pool=\"tank\"} 10"));
    assert!(has_line(&out, "zpool_scan_age{pool=\"tank\"} 24"));
    assert!(has_line(&out, "zpool_error_state{pool=\"tank\"} 10"));
    assert!(has_line(&out, "zpool_dev_state{pool=\"tank\",dev=\"sda\"} 10"));
}

#[test]
fn scan_age_fractional_hours() {
    // 90 minutes and one second after the scan
    let (out, _) = metrics(HEALTHY, 1730042091 + 5401);
    let out = out.expect("parses");
    assert!(has_line(&out, "zpool_scan_age{pool=\"tank\"} 1.500278"));
}

#[test]
fn scan_in_the_future_is_negative() {
    let (out, _) = metrics(HEALTHY, 1730042091 - 1800);
    let out = out.expect("parses");
    assert!(has_line(&out, "zpool_scan_age{pool=\"tank\"} -0.500000"));
}

#[test]
fn degraded_mirror() {
    let input = "  pool: tank
 state: DEGRADED
config:

\tNAME        STATE     READ WRITE CKSUM
\ttank        DEGRADED     0     0     0
\t  mirror-0  DEGRADED     0     0     0
\t    sdb     DEGRADED     0     0     3
\t    sdc     ONLINE       0     0     0
";
    let out = ok(input);
    assert!(has_line(&out, "zpool_pool_state{pool=\"tank\"} 50"));
    assert!(has_line(&out, "zpool_dev_state{pool=\"tank\",dev=\"mirror-0\"} 50"));
    assert!(has_line(&out, "zpool_dev_state{pool=\"tank\",dev=\"mirror-0/sdb\"} 50"));
    assert!(has_line(&out, "zpool_dev_errors_checksum{pool=\"tank\",dev=\"mirror-0/sdb\"} 3"));
    assert!(has_line(&out, "zpool_dev_state{pool=\"tank\",dev=\"mirror-0/sdc\"} 10"));
    assert!(has_line(&out, "zpool_scan_state{pool=\"tank\"} 0"));
    assert!(has_line(&out, "zpool_scan_age{pool=\"tank\"} 0"));
    assert!(has_line(&out, "zpool_error_state{pool=\"tank\"} 0"));
}

#[test]
fn resilver_in_progress() {
    let input = "  pool: tank
 state: DEGRADED
status: One or more devices has been removed by the administrator.
\tSufficient replicas exist for the pool to continue functioning in a
\tdegraded state.
action: Online the device using zpool online' or replace the device with
\t'zpool replace'.
  scan: scrub in progress since Mon Jan 01 00:00:00 2024
";
    let out = ok(input);
    assert!(has_line(&out, "zpool_scan_state{pool=\"tank\"} 30"));
    assert!(has_line(&out, "zpool_pool_status_desc{pool=\"tank\"} 15"));
}

#[test]
fn unknown_device_status() {
    let input = "  pool: tank
config:

\tNAME        STATE     READ WRITE CKSUM
\ttank        ONLINE       0     0     0
\t  sda       NOTSURE?     0     0     0
";
    let (out, notes) = metrics(input, NOW);
    let out = out.expect("parses");
    assert!(has_line(&out, "zpool_dev_state{pool=\"tank\",dev=\"sda\"} 1"));
    assert_eq!(notes, vec!["Unrecognized DeviceStatus: \"NOTSURE?\"".to_string()]);
}

#[test]
fn data_corruption() {
    let input = "  pool: tank
 state: ONLINE
status: One or more devices has experienced an error resulting in data
\tcorruption.  Applications may be affected.
errors: 3 data errors, use '-v' for a list
";
    let out = ok(input);
    assert!(has_line(&out, "zpool_error_state{pool=\"tank\"} 50"));
    assert!(has_line(&out, "zpool_pool_status_desc{pool=\"tank\"} 50"));
}

#[test]
fn device_mounts_missing() {
    let e = err("/dev/zfs and /proc/self/mounts are required.\n");
    assert_eq!(e.kind, ErrorKind::NeedsZfsDeviceMounts);
    assert_eq!(e.line_number, 1);
    assert_eq!(e.line, "/dev/zfs and /proc/self/mounts are required.");
    assert!(e.message_lines()[0].contains("zpool requires access to /dev/zfs and /proc/self/mounts"));
}

#[test]
fn header_before_pool() {
    let e = err("state: ONLINE\n  pool: tank\n");
    assert_eq!(e.line_number, 1);
    assert_eq!(e.kind, ErrorKind::HeaderBeforePool { label: "state".to_string() });
}

#[test]
fn duplicate_state() {
    let e = err("  pool: tank\n state: ONLINE\n state: DEGRADED\n");
    assert_eq!(e.line_number, 3);
    match e.kind {
        ErrorKind::MetricsLineHeader(h) => {
            assert_eq!(h.label, "state");
            assert_eq!(h.content, "DEGRADED");
            assert_eq!(
                h.kind,
                HeaderErrorKind::DuplicateEntry { previous: Previous::State(DeviceStatus::Online) }
            );
        }
        other => panic!("unexpected {other:?}"),
    }
}

#[test]
fn non_numeric_checksum_counter() {
    let input = "  pool: tank
config:

\tNAME        STATE     READ WRITE CKSUM
\ttank        ONLINE       0     0     x1
";
    let e = err(input);
    assert_eq!(e.line_number, 5);
    match e.kind {
        ErrorKind::DeviceMetrics(d) => {
            assert_eq!(d.device_name, Some("tank".to_string()));
            assert_eq!(d.kind, DeviceErrorKind::InvalidCount { cell: "x1".to_string() });
        }
        other => panic!("unexpected {other:?}"),
    }
}

#[test]
fn unrecognized_status_narrative() {
    let input = "  pool: tank\nstatus: Something new happened.\n";
    let (out, notes) = metrics(input, NOW);
    let out = out.expect("parses");
    assert!(has_line(&out, "zpool_pool_status_desc{pool=\"tank\"} 1"));
    assert_eq!(
        notes,
        vec!["Unrecognized PoolStatusDescription: \"Something new happened.\"".to_string()]
    );
}

#[test]
fn features_available_both_wordings() {
    let a = "  pool: a\nstatus: Some supported and requested features are not enabled on the pool.\n\tThe pool can still be used, but some features are unavailable.\n";
    let b = "  pool: b\nstatus: Some supported features are not enabled on the pool. The pool can\n\tstill be used, but some features are unavailable.\n";
    assert!(has_line(&ok(a), "zpool_pool_status_desc{pool=\"a\"} 5"));
    assert!(has_line(&ok(b), "zpool_pool_status_desc{pool=\"b\"} 5"));
}

#[test]
fn sufficient_replicas_narrative() {
    let input = "  pool: p\nstatus: One or more devices could not be used because the label is missing or\n\tinvalid.  Sufficient replicas exist for the pool to continue\n\tfunctioning in a degraded state.\n";
    assert!(has_line(&ok(input), "zpool_pool_status_desc{pool=\"p\"} 10"));
}

#[test]
fn resilvered_and_unknown_scan() {
    let a = "  pool: a\n  scan: resilvered 1M in 00:00:01 with 0 errors on Sun Oct 27 15:14:51 2024\n";
    assert!(has_line(&ok(a), "zpool_scan_state{pool=\"a\"} 15"));
    let b = "  pool: b\n  scan: trimmed everything on Sun Oct 27 15:14:51 2024\n";
    let (out, notes) = metrics(b, NOW);
    assert!(has_line(&out.expect("parses"), "zpool_scan_state{pool=\"b\"} 1"));
    assert_eq!(notes, vec!["Unrecognized ScanStatus: \"trimmed everything\"".to_string()]);
}

#[test]
fn unknown_error_status() {
    let (out, notes) = metrics("  pool: a\nerrors: something odd\n", NOW);
    assert!(has_line(&out.expect("parses"), "zpool_error_state{pool=\"a\"} 1"));
    assert_eq!(notes, vec!["Unrecognized ErrorStatus: \"something odd\"".to_string()]);
}

#[test]
fn missing_timestamp_separator() {
    let e = err("  pool: a\n  scan: none requested\n");
    match e.kind {
        ErrorKind::MetricsLineHeader(h) => {
            assert_eq!(h.label, "scan");
            assert_eq!(h.kind, HeaderErrorKind::MissingTimestampSeparator);
        }
        other => panic!("unexpected {other:?}"),
    }
}

#[test]
fn invalid_scan_timestamp() {
    let e = err("  pool: a\n  scan: scrub repaired 0B on yesterday\n");
    match e.kind {
        ErrorKind::MetricsLineHeader(h) => match h.kind {
            HeaderErrorKind::ParseTimestamp { timestamp, .. } => assert_eq!(timestamp, "yesterday"),
            other => panic!("unexpected {other:?}"),
        },
        other => panic!("unexpected {other:?}"),
    }
}

#[test]
fn unknown_label_and_expected_empty() {
    let e = err("  pool: a\nweather: sunny\n");
    match e.kind {
        ErrorKind::MetricsLineHeader(h) => assert_eq!(h.kind, HeaderErrorKind::UnknownLabel),
        other => panic!("unexpected {other:?}"),
    }
    let e = err("  pool: a\nconfig: something\n");
    match e.kind {
        ErrorKind::MetricsLineHeader(h) => assert_eq!(h.kind, HeaderErrorKind::ExpectedEmpty),
        other => panic!("unexpected {other:?}"),
    }
}

#[test]
fn unknown_header_line() {
    let e = err("  pool: a\nwhat is this\n");
    assert_eq!(e.kind, ErrorKind::UnknownHeader);
    assert_eq!(e.line_number, 2);
}

#[test]
fn device_table_transitions() {
    assert_eq!(
        err("  pool: a\nconfig:\nNAME\n").kind,
        ErrorKind::MissingBlankForDevices
    );
    assert_eq!(
        err("  pool: a\nconfig:\n\nNAME\n").kind,
        ErrorKind::InvalidDeviceTableLabels
    );
    assert_eq!(err("  pool: a\nconfig:\n\n").kind, ErrorKind::MissingDeviceTableLabels);
}

fn row_error(row: &str) -> zpool_status_exporter::error::DeviceError {
    let input = format!("  pool: a\nconfig:\n\n\tNAME STATE READ WRITE CKSUM\n{row}\n");
    match err(&input).kind {
        ErrorKind::DeviceMetrics(d) => d,
        other => panic!("unexpected {other:?}"),
    }
}

#[test]
fn device_row_errors() {
    let mut notes = Vec::new();
    let e = parse_row_exec(&"\t  ".chars().collect(), &mut notes).unwrap_err();
    assert_eq!(e.kind, DeviceErrorKind::MissingName);
    assert_eq!(e.device_name, None);
    assert_eq!(row_error("\t  sda").kind, DeviceErrorKind::MissingState);
    assert_eq!(row_error("\t  sda ONLINE").kind, DeviceErrorKind::MissingReadErrorCount);
    assert_eq!(row_error("\t  sda ONLINE 0").kind, DeviceErrorKind::MissingWriteErrorCount);
    assert_eq!(row_error("\t  sda ONLINE 0 0").kind, DeviceErrorKind::MissingChecksumErrorCount);
    assert_eq!(
        row_error("\t  sda ONLINE -1 0 0").kind,
        DeviceErrorKind::InvalidCount { cell: "-1".to_string() }
    );
    assert_eq!(
        row_error("\t  sda ONLINE 4294967296 0 0").kind,
        DeviceErrorKind::InvalidCount { cell: "4294967296".to_string() }
    );
}

#[test]
fn device_row_without_leading_tab_is_refused() {
    let mut notes = Vec::new();
    let e = parse_row_exec(&" sda ONLINE 0 0 0".chars().collect(), &mut notes).unwrap_err();
    assert_eq!(e.kind, DeviceErrorKind::MissingLeadingWhitespace);
    let e = parse_row_exec(&" \tsda ONLINE 0 0 0".chars().collect(), &mut notes).unwrap_err();
    assert_eq!(e.kind, DeviceErrorKind::InvalidLeadingWhitespace);
    let d = parse_row_exec(&"\t     sda ONLINE +7 4294967295 0 extra".chars().collect(), &mut notes)
        .unwrap();
    assert_eq!(d.depth, 2);
    assert_eq!(d.name, "sda");
    assert_eq!(d.errors_read, 7);
    assert_eq!(d.errors_write, 4294967295);
    assert!(notes.is_empty());
}

#[test]
fn parsed_model_in_input_order() {
    let input = "  pool: first
 state: ONLINE
  scan: scrub repaired 0B in 00:00:01 with 0 errors on Sun Oct 27 15:14:51 2024
config:

\tNAME        STATE     READ WRITE CKSUM
\tfirst       ONLINE       0     0     0
\t  sda       ONLINE       1     2     3
what is interrupting
  pool: second
 state: FAULTED
errors: No known data errors
";
    let ctx = AppContext::new_assume_local_is_utc();
    let mut notes = Vec::new();
    let pools = ctx.parse_zfs_metrics(input, &mut notes).expect("parses");
    assert_eq!(pools.len(), 2);
    assert_eq!(pools[0].name, "first");
    assert_eq!(pools[1].name, "second");
    assert_eq!(pools[0].state, Some(DeviceStatus::Online));
    assert_eq!(
        pools[0].scan_status,
        Some((
            ScanStatus::ScrubRepaired,
            ScanTime { civil_second: 1730042091, offset_seconds: 0 }
        ))
    );
    assert_eq!(pools[0].devices.len(), 2);
    assert_eq!(pools[0].devices[1].errors_checksum, 3);
    assert_eq!(pools[1].state, Some(DeviceStatus::Faulted));
    assert_eq!(pools[1].error, Some(ErrorStatus::NoKnownErrors));
    assert_eq!(pools[1].pool_status, None::<PoolStatusDescription>);
    assert_eq!(
        notes,
        vec!["ignoring line interrupting devices table: \"what is interrupting\"".to_string()]
    );
}

#[test]
fn crlf_line_endings() {
    let out = ok("  pool: tank\r\n state: ONLINE\r\n");
    assert!(has_line(&out, "zpool_pool_state{pool=\"tank\"} 10"));
}

#[test]
fn pool_names_are_escaped() {
    let out = ok("  pool: ta\"nk\n");
    assert!(has_line(&out, "zpool_pool_state{pool=\"ta\\\"nk\"} 0"));
}

#[test]
fn timestamp_range() {
    let ctx = AppContext::new_assume_local_is_utc();
    assert!(ctx.timestamp_at_unix_utc(253402207200, None).is_some());
    assert!(ctx.timestamp_at_unix_utc(253402207201, None).is_none());
    assert!(ctx.timestamp_at_unix_utc(-377705023201, None).is_some());
    assert!(ctx.timestamp_at_unix_utc(-377705023202, None).is_none());
}

#[test]
fn app_version_suffix() {
    let mut ctx = AppContext::new_assume_local_is_utc();
    ctx.set_app_version(Some("1.2.3"));
    assert_eq!(ctx.name_suffix, " v1.2.3");
    ctx.set_app_version(None);
    assert_eq!(ctx.name_suffix, "");
}

#[test]
fn error_messages() {
    let e = err("  pool: a\nwhat is this\n");
    assert_eq!(
        e.message_lines(),
        vec!["unknown header on zpool-status output line 2: \"what is this\"".to_string()]
    );
    let e = err("/dev/zfs and /proc/self/mounts is needed, yada-yada...\n");
    assert_eq!(
        e.message_lines()[0],
        "zpool requires access to /dev/zfs and /proc/self/mounts on zpool-status output line 1: \"/dev/zfs and /proc/self/mounts is needed, yada-yada...\""
    );
    let e = err("  pool: tank\n state: ONLINE\n state: DEGRADED\n");
    assert_eq!(
        e.message_lines(),
        vec![
            "unexpected metrics header on zpool-status output line 3: \" state: DEGRADED\"".to_string(),
            "duplicate state: \"Online\" and \"DEGRADED\"".to_string(),
        ]
    );
    let e = err("  pool: a\nconfig:\n\n\tNAME STATE READ WRITE CKSUM\n\tsda ONLINE 0 0 x\n");
    assert_eq!(
        e.message_lines()[1],
        "invalid count \"x\" for device \"sda\""
    );
    let e = err("  pool: a\n  scan: none requested\n");
    assert_eq!(
        e.message_lines()[2],
        "expected timestamp separator token (one of [\" on \", \" since \"])"
    );
}

#[test]
fn device_labels_are_escaped() {
    let input = "  pool: p\nconfig:\n\n\tNAME STATE READ WRITE CKSUM\n\t  we\"ird ONLINE 0 0 0\n";
    let out = ok(input);
    assert!(has_line(&out, "zpool_dev_state{pool=\"p\",dev=\"we\\\"ird\"} 10"));
}

#[test]
fn zoned_scan_time_in_system_zone() {
    let ctx = AppContext::new();
    let mut notes = Vec::new();
    let pools = ctx
        .parse_zfs_metrics(
            "  pool: a\n  scan: scrub repaired 0B on Sun Oct 27 15:14:51 2024\n",
            &mut notes,
        )
        .expect("parses");
    let (_, t) = pools[0].scan_status.expect("scan");
    assert_eq!(t.civil_second, 1730042091);
    assert!(t.offset_seconds.abs() <= 93599);
}

#[test]
fn scan_time_outside_supported_instants() {
    let e = err("  pool: a\n  scan: scrub repaired 0B on Fri Dec 31 23:59:59 9999\n");
    assert_eq!(e.line_number, 2);
    match e.kind {
        ErrorKind::MetricsLineHeader(h) => match h.kind {
            HeaderErrorKind::ParseTimestamp { timestamp, .. } => {
                assert_eq!(timestamp, "Fri Dec 31 23:59:59 9999")
            }
            other => panic!("unexpected {other:?}"),
        },
        other => panic!("unexpected {other:?}"),
    }
    // the last whole second that jiff supports still parses
    let out = ok("  pool: a\n  scan: scrub repaired 0B on Thu Dec 30 22:00:00 9999\n");
    assert!(has_line(&out, "zpool_scan_state{pool=\"a\"} 10"));
}
