//! Metric metadata: names, help text and the `# HELP` / `# TYPE` lines.
use vstd::prelude::*;
use crate::text::{dec, push_dec, push_str};
use crate::zfs::{DeviceStatus, ErrorStatus, PoolStatusDescription, ScanStatus};

verus! {

/// Prefix of every metric name.
pub open spec fn prefix() -> Seq<char> {
    "zpool_"@
}

/// Prometheus metric type.
#[derive(Clone, Copy, Debug, PartialEq, Eq, Structural)]
pub enum Type {
    Gauge,
}

pub open spec fn type_label(t: Type) -> Seq<char> {
    match t {
        Type::Gauge => "gauge"@,
    }
}

impl Type {
    /// The type's name in the exposition format.
    pub fn label(&self) -> (r: &'static str)
        ensures
            r@ == type_label(*self),
    {
        match self {
            Type::Gauge => "gauge",
        }
    }
}

/// `# HELP` and `# TYPE` lines of a metric.
pub open spec fn meta_lines(name: Seq<char>, help: Seq<char>, t: Type) -> Seq<char> {
    "# HELP "@ + prefix() + name + " "@ + help + "\n"@ + "# TYPE "@ + prefix() + name + " "@
        + type_label(t) + "\n"@
}

/// What a metric block needs to describe itself.
pub trait MetricWrite {
    spec fn name_spec(&self) -> Seq<char>;

    spec fn help_spec(&self) -> Seq<char>;

    spec fn type_spec(&self) -> Type;

    fn metric_name(&self) -> (r: &str)
        ensures
            r@ == self.name_spec(),
    ;

    fn metric_type(&self) -> (r: Type)
        ensures
            r == self.type_spec(),
    ;

    /// Appends the help text.
    fn write_help(&self, out: &mut Vec<char>)
        ensures
            final(out)@ == old(out)@ + self.help_spec(),
    ;
}

/// Appends the metric's full name, `zpool_<name>`.
pub fn write_prefix_label<T: MetricWrite>(key: &T, out: &mut Vec<char>)
    ensures
        final(out)@ == old(out)@ + prefix() + key.name_spec(),
{
    push_str(out, "zpool_");
    push_str(out, key.metric_name());
    proof {
        reveal_strlit("zpool_");
    }
    assert(out@ =~= old(out)@ + prefix() + key.name_spec());
}

/// Appends the `# HELP` and `# TYPE` lines of the metric.
pub fn write_meta<T: MetricWrite>(key: &T, out: &mut Vec<char>)
    ensures
        final(out)@ == old(out)@ + meta_lines(key.name_spec(), key.help_spec(), key.type_spec()),
{
    push_str(out, "# HELP ");
    write_prefix_label(key, out);
    push_str(out, " ");
    key.write_help(out);
    push_str(out, "\n");
    push_str(out, "# TYPE ");
    write_prefix_label(key, out);
    push_str(out, " ");
    push_str(out, key.metric_type().label());
    push_str(out, "\n");
    assert(out@ =~= old(out)@ + meta_lines(key.name_spec(), key.help_spec(), key.type_spec()));
}

/// A metric with a name and a help text.
#[derive(Clone, Copy, Debug, PartialEq, Eq)]
pub struct SimpleMetric {
    pub metric_name: &'static str,
    pub help: &'static str,
    pub ty: Type,
}

/// A gauge named `zpool_<metric_name>`.
pub fn metric(metric_name: &'static str, help: &'static str) -> (r: SimpleMetric)
    ensures
        r.metric_name@ == metric_name@,
        r.help@ == help@,
        r.ty == Type::Gauge,
{
    SimpleMetric { metric_name, help, ty: Type::Gauge }
}

impl MetricWrite for SimpleMetric {
    open spec fn name_spec(&self) -> Seq<char> {
        self.metric_name@
    }

    open spec fn help_spec(&self) -> Seq<char> {
        self.help@
    }

    open spec fn type_spec(&self) -> Type {
        self.ty
    }

    fn metric_name(&self) -> (r: &str) {
        self.metric_name
    }

    fn metric_type(&self) -> (r: Type) {
        self.ty
    }

    fn write_help(&self, out: &mut Vec<char>) {
        push_str(out, self.help);
    }
}

/// The enumerations whose variants a metric's value encodes.
#[derive(Clone, Copy, Debug, PartialEq, Eq, Structural)]
pub enum Values {
    DeviceStatus,
    PoolStatusDescription,
    ScanStatus,
    ErrorStatus,
}

/// A metric whose value is the code of a variant; its help line lists every
/// variant with its code.
#[derive(Clone, Copy, Debug, PartialEq, Eq)]
pub struct ValuesMetric {
    pub base: SimpleMetric,
    pub values: Values,
}

impl SimpleMetric {
    pub fn with_values(self, values: Values) -> (r: ValuesMetric)
        ensures
            r.base == self,
            r.values == values,
    {
        ValuesMetric { base: self, values }
    }
}

// The code of each variant. The values are part of the exposition format:
// they never change once assigned, larger is worse, and the gaps leave room
// for new variants. `None` (the field was absent) is `UnknownMissing`.
pub open spec fn device_code(s: Option<DeviceStatus>) -> u32 {
    match s {
        None => 0,
        Some(DeviceStatus::Unrecognized) => 1,
        Some(DeviceStatus::Online) => 10,
        Some(DeviceStatus::Offline) => 25,
        Some(DeviceStatus::Split) => 26,
        Some(DeviceStatus::Degraded) => 50,
        Some(DeviceStatus::Faulted) => 60,
        Some(DeviceStatus::Suspended) => 70,
        Some(DeviceStatus::Removed) => 80,
        Some(DeviceStatus::Unavail) => 100,
    }
}

pub open spec fn pool_status_code(s: Option<PoolStatusDescription>) -> u32 {
    match s {
        None => 0,
        Some(PoolStatusDescription::Unrecognized) => 1,
        Some(PoolStatusDescription::FeaturesAvailable) => 5,
        Some(PoolStatusDescription::SufficientReplicasForMissing) => 10,
        Some(PoolStatusDescription::DeviceRemoved) => 15,
        Some(PoolStatusDescription::DataCorruption) => 50,
    }
}

pub open spec fn scan_code(s: Option<ScanStatus>) -> u32 {
    match s {
        None => 0,
        Some(ScanStatus::Unrecognized) => 1,
        Some(ScanStatus::ScrubRepaired) => 10,
        Some(ScanStatus::Resilvered) => 15,
        Some(ScanStatus::ScrubInProgress) => 30,
    }
}

pub open spec fn error_code(s: Option<ErrorStatus>) -> u32 {
    match s {
        None => 0,
        Some(ErrorStatus::Unrecognized) => 1,
        Some(ErrorStatus::NoKnownErrors) => 10,
        Some(ErrorStatus::DataErrors) => 50,
    }
}

pub fn device_value(s: Option<DeviceStatus>) -> (r: u32)
    ensures
        r == device_code(s),
{
    match s {
        None => 0,
        Some(DeviceStatus::Unrecognized) => 1,
        Some(DeviceStatus::Online) => 10,
        Some(DeviceStatus::Offline) => 25,
        Some(DeviceStatus::Split) => 26,
        Some(DeviceStatus::Degraded) => 50,
        Some(DeviceStatus::Faulted) => 60,
        Some(DeviceStatus::Suspended) => 70,
        Some(DeviceStatus::Removed) => 80,
        Some(DeviceStatus::Unavail) => 100,
    }
}

pub fn pool_status_value(s: Option<PoolStatusDescription>) -> (r: u32)
    ensures
        r == pool_status_code(s),
{
    match s {
        None => 0,
        Some(PoolStatusDescription::Unrecognized) => 1,
        Some(PoolStatusDescription::FeaturesAvailable) => 5,
        Some(PoolStatusDescription::SufficientReplicasForMissing) => 10,
        Some(PoolStatusDescription::DeviceRemoved) => 15,
        Some(PoolStatusDescription::DataCorruption) => 50,
    }
}

pub fn scan_value(s: Option<ScanStatus>) -> (r: u32)
    ensures
        r == scan_code(s),
{
    match s {
        None => 0,
        Some(ScanStatus::Unrecognized) => 1,
        Some(ScanStatus::ScrubRepaired) => 10,
        Some(ScanStatus::Resilvered) => 15,
        Some(ScanStatus::ScrubInProgress) => 30,
    }
}

pub fn error_value(s: Option<ErrorStatus>) -> (r: u32)
    ensures
        r == error_code(s),
{
    match s {
        None => 0,
        Some(ErrorStatus::Unrecognized) => 1,
        Some(ErrorStatus::NoKnownErrors) => 10,
        Some(ErrorStatus::DataErrors) => 50,
    }
}

/// Name and code of each variant, in declaration order.
pub open spec fn entries(v: Values) -> Seq<(Seq<char>, u32)> {
    match v {
        Values::DeviceStatus => seq![
            ("UnknownMissing"@, device_code(None)),
            ("Unrecognized"@, device_code(Some(DeviceStatus::Unrecognized))),
            ("Online"@, device_code(Some(DeviceStatus::Online))),
            ("Offline"@, device_code(Some(DeviceStatus::Offline))),
            ("Split"@, device_code(Some(DeviceStatus::Split))),
            ("Degraded"@, device_code(Some(DeviceStatus::Degraded))),
            ("Faulted"@, device_code(Some(DeviceStatus::Faulted))),
            ("Suspended"@, device_code(Some(DeviceStatus::Suspended))),
            ("Removed"@, device_code(Some(DeviceStatus::Removed))),
            ("Unavail"@, device_code(Some(DeviceStatus::Unavail))),
        ],
        Values::PoolStatusDescription => seq![
            ("UnknownMissing"@, pool_status_code(None)),
            ("Unrecognized"@, pool_status_code(Some(PoolStatusDescription::Unrecognized))),
            ("FeaturesAvailable"@, pool_status_code(Some(PoolStatusDescription::FeaturesAvailable))),
            (
                "SufficientReplicasForMissing"@,
                pool_status_code(Some(PoolStatusDescription::SufficientReplicasForMissing)),
            ),
            ("DeviceRemoved"@, pool_status_code(Some(PoolStatusDescription::DeviceRemoved))),
            ("DataCorruption"@, pool_status_code(Some(PoolStatusDescription::DataCorruption))),
        ],
        Values::ScanStatus => seq![
            ("UnknownMissing"@, scan_code(None)),
            ("Unrecognized"@, scan_code(Some(ScanStatus::Unrecognized))),
            ("ScrubRepaired"@, scan_code(Some(ScanStatus::ScrubRepaired))),
            ("Resilvered"@, scan_code(Some(ScanStatus::Resilvered))),
            ("ScrubInProgress"@, scan_code(Some(ScanStatus::ScrubInProgress))),
        ],
        Values::ErrorStatus => seq![
            ("UnknownMissing"@, error_code(None)),
            ("Unrecognized"@, error_code(Some(ErrorStatus::Unrecognized))),
            ("Ok"@, error_code(Some(ErrorStatus::NoKnownErrors))),
            ("DataErrors"@, error_code(Some(ErrorStatus::DataErrors))),
        ],
    }
}

/// `Name = code` for each entry, separated by `", "`.
pub open spec fn summary(e: Seq<(Seq<char>, u32)>) -> Seq<char>
    decreases e.len(),
{
    if e.len() == 0 {
        seq![]
    } else if e.len() == 1 {
        e[0].0 + " = "@ + dec(e[0].1 as nat)
    } else {
        summary(e.drop_last()) + ", "@ + e.last().0 + " = "@ + dec(e.last().1 as nat)
    }
}

pub open spec fn entries_view(v: Seq<(&'static str, u32)>) -> Seq<(Seq<char>, u32)> {
    v.map_values(|p: (&'static str, u32)| (p.0@, p.1))
}

fn entries_exec(v: Values) -> (r: Vec<(&'static str, u32)>)
    ensures
        entries_view(r@) == entries(v),
{
    let r = match v {
        Values::DeviceStatus => vec![
            ("UnknownMissing", device_value(None)),
            ("Unrecognized", device_value(Some(DeviceStatus::Unrecognized))),
            ("Online", device_value(Some(DeviceStatus::Online))),
            ("Offline", device_value(Some(DeviceStatus::Offline))),
            ("Split", device_value(Some(DeviceStatus::Split))),
            ("Degraded", device_value(Some(DeviceStatus::Degraded))),
            ("Faulted", device_value(Some(DeviceStatus::Faulted))),
            ("Suspended", device_value(Some(DeviceStatus::Suspended))),
            ("Removed", device_value(Some(DeviceStatus::Removed))),
            ("Unavail", device_value(Some(DeviceStatus::Unavail))),
        ],
        Values::PoolStatusDescription => vec![
            ("UnknownMissing", pool_status_value(None)),
            ("Unrecognized", pool_status_value(Some(PoolStatusDescription::Unrecognized))),
            ("FeaturesAvailable", pool_status_value(Some(PoolStatusDescription::FeaturesAvailable))),
            (
                "SufficientReplicasForMissing",
                pool_status_value(Some(PoolStatusDescription::SufficientReplicasForMissing)),
            ),
            ("DeviceRemoved", pool_status_value(Some(PoolStatusDescription::DeviceRemoved))),
            ("DataCorruption", pool_status_value(Some(PoolStatusDescription::DataCorruption))),
        ],
        Values::ScanStatus => vec![
            ("UnknownMissing", scan_value(None)),
            ("Unrecognized", scan_value(Some(ScanStatus::Unrecognized))),
            ("ScrubRepaired", scan_value(Some(ScanStatus::ScrubRepaired))),
            ("Resilvered", scan_value(Some(ScanStatus::Resilvered))),
            ("ScrubInProgress", scan_value(Some(ScanStatus::ScrubInProgress))),
        ],
        Values::ErrorStatus => vec![
            ("UnknownMissing", error_value(None)),
            ("Unrecognized", error_value(Some(ErrorStatus::Unrecognized))),
            ("Ok", error_value(Some(ErrorStatus::NoKnownErrors))),
            ("DataErrors", error_value(Some(ErrorStatus::DataErrors))),
        ],
    };
    assert(entries_view(r@) =~= entries(v));
    r
}

/// Appends the list of variants of `v` with their codes.
pub fn write_summary(v: Values, out: &mut Vec<char>)
    ensures
        final(out)@ == old(out)@ + summary(entries(v)),
{
    let e = entries_exec(v);
    let ghost ev = entries_view(e@);
    let mut k: usize = 0;
    while k < e.len()
        invariant
            k <= e@.len(),
            ev == entries_view(e@),
            ev == entries(v),
            out@ == old(out)@ + summary(ev.subrange(0, k as int)),
        decreases e@.len() - k,
    {
        let ghost before = out@;
        if k > 0 {
            push_str(out, ", ");
        }
        push_str(out, e[k].0);
        push_str(out, " = ");
        push_dec(out, e[k].1 as u128);
        proof {
            let s = ev.subrange(0, k + 1);
            assert(s.drop_last() =~= ev.subrange(0, k as int));
            if k == 0 {
                assert(out@ =~= old(out)@ + summary(s));
            } else {
                assert(out@ =~= old(out)@ + summary(s));
            }
        }
        k = k + 1;
    }
    assert(ev.subrange(0, k as int) =~= ev);
}

impl MetricWrite for ValuesMetric {
    open spec fn name_spec(&self) -> Seq<char> {
        self.base.metric_name@
    }

    open spec fn help_spec(&self) -> Seq<char> {
        self.base.help@ + ": "@ + summary(entries(self.values))
    }

    open spec fn type_spec(&self) -> Type {
        self.base.ty
    }

    fn metric_name(&self) -> (r: &str) {
        self.base.metric_name
    }

    fn metric_type(&self) -> (r: Type) {
        self.base.ty
    }

    fn write_help(&self, out: &mut Vec<char>) {
        push_str(out, self.base.help);
        push_str(out, ": ");
        write_summary(self.values, out);
        assert(out@ =~= old(out)@ + self.help_spec());
    }
}

} // verus!
