//! The Prometheus exposition document for a list of pools.
use vstd::prelude::*;
use crate::meta::{
    device_code, device_value, entries, error_code, error_value, meta_lines, metric,
    pool_status_code, pool_status_value, prefix, scan_code, scan_value, summary, write_meta,
    write_prefix_label, MetricWrite, SimpleMetric, Type, Values,
};
use crate::text::{
    debug_quote, debug_quoted, dec, dec_padded, push_dec, push_dec_padded, push_str,
    string_from_chars,
};
use crate::zfs::{devices_view, scan_kind, DeviceMetrics, DeviceView, PoolMetrics};

verus! {

/// Nanoseconds in an hour.
pub const NANOS_PER_HOUR: u64 = 3_600_000_000_000;

/// Nanoseconds in a second.
pub const NANOS_PER_SECOND: u64 = 1_000_000_000;

/// Bound on the numerators that `write_ratio` renders.
pub const RATIO_NUM_BOUND: i128 = 1_000_000_000_000_000_000_000_000_000_000;

/// The decimal text of `num / den`: the integer when the division is exact,
/// otherwise the value rounded half up to six digits after the point.
pub open spec fn render_ratio(num: int, den: int) -> Seq<char> {
    let m = if num < 0 {
        -num
    } else {
        num
    };
    let sign = if num < 0 {
        "-"@
    } else {
        seq![]
    };
    if m % den == 0 {
        sign + dec((m / den) as nat)
    } else {
        let scaled = (m * 2_000_000 + den) / (2 * den);
        sign + dec((scaled / 1_000_000) as nat) + "."@ + dec_padded((scaled % 1_000_000) as nat, 6)
    }
}

/// Appends the decimal text of `num / den`.
pub fn write_ratio(out: &mut Vec<char>, num: i128, den: u64)
    requires
        den > 0,
        -RATIO_NUM_BOUND <= num <= RATIO_NUM_BOUND,
    ensures
        final(out)@ == old(out)@ + render_ratio(num as int, den as int),
{
    let m: u128 = if num < 0 {
        (-num) as u128
    } else {
        num as u128
    };
    if num < 0 {
        push_str(out, "-");
    }
    let d = den as u128;
    if m % d == 0 {
        push_dec(out, m / d);
    } else {
        assert(m * 2_000_000 + d <= 3_000_000_000_000_000_000_000_000_000_000_000_000) by (
        nonlinear_arith)
            requires
                m <= 1_000_000_000_000_000_000_000_000_000_000,
                d <= u64::MAX,
        ;
        let scaled = (m * 2_000_000 + d) / (2 * d);
        push_dec(out, scaled / 1_000_000);
        push_str(out, ".");
        push_dec_padded(out, scaled % 1_000_000, 6);
    }
    proof {
        reveal_strlit("-");
    }
    assert(out@ =~= old(out)@ + render_ratio(num as int, den as int));
}

/// The labels of a value line.
pub trait WriteKeyValue {
    spec fn context_spec(&self) -> Seq<char>;

    /// Appends the labels (with their braces), if any.
    fn fmt_context(&self, out: &mut Vec<char>)
        ensures
            final(out)@ == old(out)@ + self.context_spec(),
    ;
}

/// One value line: full name, labels, value.
pub open spec fn value_line(name: Seq<char>, context: Seq<char>, value: Seq<char>) -> Seq<char> {
    prefix() + name + context + " "@ + value + "\n"@
}

/// Appends the line of `key` with the labels of `ctx` and the value
/// `num / den`.
pub fn write_kv<C: WriteKeyValue, T: MetricWrite>(
    ctx: &C,
    out: &mut Vec<char>,
    key: &T,
    num: i128,
    den: u64,
)
    requires
        den > 0,
        -RATIO_NUM_BOUND <= num <= RATIO_NUM_BOUND,
    ensures
        final(out)@ == old(out)@ + value_line(
            key.name_spec(),
            ctx.context_spec(),
            render_ratio(num as int, den as int),
        ),
{
    write_prefix_label(key, out);
    ctx.fmt_context(out);
    push_str(out, " ");
    write_ratio(out, num, den);
    push_str(out, "\n");
    assert(out@ =~= old(out)@ + value_line(
        key.name_spec(),
        ctx.context_spec(),
        render_ratio(num as int, den as int),
    ));
}

/// No labels.
pub struct Empty;

impl WriteKeyValue for Empty {
    open spec fn context_spec(&self) -> Seq<char> {
        seq![]
    }

    fn fmt_context(&self, out: &mut Vec<char>) {
        assert(out@ =~= old(out)@ + Seq::<char>::empty());
    }
}

pub open spec fn pool_context(pool: Seq<char>) -> Seq<char> {
    "{pool="@ + debug_quoted(pool) + "}"@
}

/// The `pool` label.
pub struct Pool<'a> {
    pub pool_name: &'a str,
}

impl WriteKeyValue for Pool<'_> {
    open spec fn context_spec(&self) -> Seq<char> {
        pool_context(self.pool_name@)
    }

    fn fmt_context(&self, out: &mut Vec<char>) {
        push_str(out, "{pool=");
        let quoted = debug_quote(self.pool_name);
        push_str(out, quoted.as_str());
        push_str(out, "}");
        assert(out@ =~= old(out)@ + pool_context(self.pool_name@));
    }
}

/// The names on a device path, joined by `/`.
pub open spec fn join_slash(p: Seq<Seq<char>>) -> Seq<char>
    decreases p.len(),
{
    if p.len() == 0 {
        seq![]
    } else if p.len() == 1 {
        p[0]
    } else {
        join_slash(p.drop_last()) + "/"@ + p.last()
    }
}

pub open spec fn device_context(pool: Seq<char>, path: Seq<Seq<char>>) -> Seq<char> {
    "{pool="@ + debug_quoted(pool) + ",dev="@ + debug_quoted(join_slash(path)) + "}"@
}

/// Path of a device within the device tree, from the pool's children down;
/// the pool itself (depth 0) is left out.
#[derive(Debug)]
pub struct DeviceTreeName {
    pub names: Vec<String>,
}

pub open spec fn names_view(v: Seq<String>) -> Seq<Seq<char>> {
    v.map_values(|s: String| s@)
}

/// The path after a device of depth `depth` named `name`, from path `p`.
pub open spec fn path_update(p: Seq<Seq<char>>, depth: nat, name: Seq<char>) -> Seq<Seq<char>> {
    if depth == 0 {
        seq![]
    } else if depth - 1 < p.len() {
        p.take(depth - 1).push(name)
    } else {
        p.push(name)
    }
}

/// The path after the first `k` devices of a pool.
pub open spec fn path_after(devs: Seq<DeviceView>, k: int) -> Seq<Seq<char>>
    decreases k,
{
    if k <= 0 {
        seq![]
    } else {
        path_update(path_after(devs, k - 1), devs[k - 1].depth, devs[k - 1].name)
    }
}

impl DeviceTreeName {
    pub open spec fn view_names(&self) -> Seq<Seq<char>> {
        names_view(self.names@)
    }

    pub fn new() -> (r: Self)
        ensures
            r.view_names() == Seq::<Seq<char>>::empty(),
    {
        let r = DeviceTreeName { names: Vec::new() };
        assert(r.view_names() =~= Seq::<Seq<char>>::empty());
        r
    }

    /// Moves to the device of depth `depth` named `name`.
    pub fn update(&mut self, depth: usize, name: String)
        ensures
            final(self).view_names() == path_update(old(self).view_names(), depth as nat, name@),
    {
        if depth == 0 {
            self.names.clear();
            assert(self.view_names() =~= Seq::<Seq<char>>::empty());
            return;
        }
        let keep = depth - 1;
        let ghost before = self.view_names();
        self.names.truncate(keep);
        self.names.push(name);
        proof {
            if keep < before.len() {
                assert(self.view_names() =~= before.take(keep as int).push(name@));
            } else {
                assert(self.view_names() =~= before.push(name@));
            }
        }
    }

    /// Appends the path, names joined by `/`.
    pub fn write_joined(&self, out: &mut Vec<char>)
        ensures
            final(out)@ == old(out)@ + join_slash(self.view_names()),
    {
        let ghost v = self.view_names();
        let mut k: usize = 0;
        while k < self.names.len()
            invariant
                k <= self.names@.len(),
                v == self.view_names(),
                out@ == old(out)@ + join_slash(v.subrange(0, k as int)),
            decreases self.names@.len() - k,
        {
            if k > 0 {
                push_str(out, "/");
            }
            push_str(out, self.names[k].as_str());
            proof {
                let s = v.subrange(0, k + 1);
                assert(s.drop_last() =~= v.subrange(0, k as int));
                if k == 0 {
                    assert(join_slash(v.subrange(0, 0)) =~= Seq::<char>::empty());
                }
                assert(out@ =~= old(out)@ + join_slash(s));
            }
            k = k + 1;
        }
        assert(v.subrange(0, k as int) =~= v);
    }
}

/// The `pool` and `dev` labels.
pub struct Device<'a> {
    pub pool_name: &'a str,
    pub dev_name: &'a DeviceTreeName,
}

impl WriteKeyValue for Device<'_> {
    open spec fn context_spec(&self) -> Seq<char> {
        device_context(self.pool_name@, self.dev_name.view_names())
    }

    fn fmt_context(&self, out: &mut Vec<char>) {
        push_str(out, "{pool=");
        let quoted = debug_quote(self.pool_name);
        push_str(out, quoted.as_str());
        push_str(out, ",dev=");
        let mut joined: Vec<char> = Vec::new();
        self.dev_name.write_joined(&mut joined);
        assert(joined@ =~= join_slash(self.dev_name.view_names()));
        let dev = debug_quote(string_from_chars(&joined).as_str());
        push_str(out, dev.as_str());
        push_str(out, "}");
        assert(out@ =~= old(out)@ + self.context_spec());
    }
}

/// The pool-wide metrics, in output order.
#[derive(Clone, Copy, Debug, PartialEq, Eq, Structural)]
pub enum PoolSections {
    PoolState,
    PoolStatusDescription,
    ScanState,
    ScanAge,
    ErrorState,
}

/// The per-device metrics, in output order.
#[derive(Clone, Copy, Debug, PartialEq, Eq, Structural)]
pub enum DeviceSections {
    State,
    ErrorsRead,
    ErrorsWrite,
    ErrorsChecksum,
}

pub open spec fn pool_sections() -> Seq<PoolSections> {
    seq![
        PoolSections::PoolState,
        PoolSections::PoolStatusDescription,
        PoolSections::ScanState,
        PoolSections::ScanAge,
        PoolSections::ErrorState,
    ]
}

pub open spec fn device_sections() -> Seq<DeviceSections> {
    seq![
        DeviceSections::State,
        DeviceSections::ErrorsRead,
        DeviceSections::ErrorsWrite,
        DeviceSections::ErrorsChecksum,
    ]
}

pub open spec fn pool_name_of(s: PoolSections) -> Seq<char> {
    match s {
        PoolSections::PoolState => "pool_state"@,
        PoolSections::PoolStatusDescription => "pool_status_desc"@,
        PoolSections::ScanState => "scan_state"@,
        PoolSections::ScanAge => "scan_age"@,
        PoolSections::ErrorState => "error_state"@,
    }
}

pub open spec fn pool_help_of(s: PoolSections) -> Seq<char> {
    match s {
        PoolSections::PoolState => "Pool state"@,
        PoolSections::PoolStatusDescription => "Pool status description"@,
        PoolSections::ScanState => "Scan status"@,
        PoolSections::ScanAge => "Scan age in hours"@,
        PoolSections::ErrorState => "Error status"@,
    }
}

pub open spec fn pool_values_of(s: PoolSections) -> Option<Values> {
    match s {
        PoolSections::PoolState => Some(Values::DeviceStatus),
        PoolSections::PoolStatusDescription => Some(Values::PoolStatusDescription),
        PoolSections::ScanState => Some(Values::ScanStatus),
        PoolSections::ScanAge => None,
        PoolSections::ErrorState => Some(Values::ErrorStatus),
    }
}

pub open spec fn device_name_of(s: DeviceSections) -> Seq<char> {
    match s {
        DeviceSections::State => "dev_state"@,
        DeviceSections::ErrorsRead => "dev_errors_read"@,
        DeviceSections::ErrorsWrite => "dev_errors_write"@,
        DeviceSections::ErrorsChecksum => "dev_errors_checksum"@,
    }
}

pub open spec fn device_help_of(s: DeviceSections) -> Seq<char> {
    match s {
        DeviceSections::State => "Device state"@,
        DeviceSections::ErrorsRead => "Read error count"@,
        DeviceSections::ErrorsWrite => "Write error count"@,
        DeviceSections::ErrorsChecksum => "Checksum error count"@,
    }
}

pub open spec fn device_values_of(s: DeviceSections) -> Option<Values> {
    match s {
        DeviceSections::State => Some(Values::DeviceStatus),
        _ => None,
    }
}

/// The full help text: for a metric of codes, followed by the list of codes.
pub open spec fn full_help(help: Seq<char>, values: Option<Values>) -> Seq<char> {
    match values {
        Some(v) => help + ": "@ + summary(entries(v)),
        None => help,
    }
}

fn pool_key(s: PoolSections) -> (r: (SimpleMetric, Option<Values>))
    ensures
        r.0.metric_name@ == pool_name_of(s),
        r.0.help@ == pool_help_of(s),
        r.0.ty == Type::Gauge,
        r.1 == pool_values_of(s),
{
    match s {
        PoolSections::PoolState => (metric("pool_state", "Pool state"), Some(Values::DeviceStatus)),
        PoolSections::PoolStatusDescription => (
            metric("pool_status_desc", "Pool status description"),
            Some(Values::PoolStatusDescription),
        ),
        PoolSections::ScanState => (metric("scan_state", "Scan status"), Some(Values::ScanStatus)),
        PoolSections::ScanAge => (metric("scan_age", "Scan age in hours"), None),
        PoolSections::ErrorState => (metric("error_state", "Error status"), Some(Values::ErrorStatus)),
    }
}

fn device_key(s: DeviceSections) -> (r: (SimpleMetric, Option<Values>))
    ensures
        r.0.metric_name@ == device_name_of(s),
        r.0.help@ == device_help_of(s),
        r.0.ty == Type::Gauge,
        r.1 == device_values_of(s),
{
    match s {
        DeviceSections::State => (metric("dev_state", "Device state"), Some(Values::DeviceStatus)),
        DeviceSections::ErrorsRead => (metric("dev_errors_read", "Read error count"), None),
        DeviceSections::ErrorsWrite => (metric("dev_errors_write", "Write error count"), None),
        DeviceSections::ErrorsChecksum => (
            metric("dev_errors_checksum", "Checksum error count"),
            None,
        ),
    }
}

/// Writes the `# HELP` and `# TYPE` lines of `key`, with the list of codes
/// when the metric has one.
fn write_key_meta(key: &SimpleMetric, values: Option<Values>, out: &mut Vec<char>)
    ensures
        final(out)@ == old(out)@ + meta_lines(
            key.metric_name@,
            full_help(key.help@, values),
            key.ty,
        ),
{
    match values {
        Some(v) => write_meta(&key.with_values(v), out),
        None => write_meta(key, out),
    }
}

/// The value of a pool-wide metric, as a numerator and a denominator.
pub open spec fn pool_ratio(s: PoolSections, p: PoolMetrics, now_s: i64, now_ns: u32) -> (int, int) {
    match s {
        PoolSections::PoolState => (device_code(p.state) as int, 1),
        PoolSections::PoolStatusDescription => (pool_status_code(p.pool_status) as int, 1),
        PoolSections::ScanState => (scan_code(scan_kind(p.scan_status)) as int, 1),
        PoolSections::ScanAge => match p.scan_status {
            None => (0, 1),
            Some((_, t)) => (
                (now_s - t.instant()) * NANOS_PER_SECOND + now_ns,
                NANOS_PER_HOUR as int,
            ),
        },
        PoolSections::ErrorState => (error_code(p.error) as int, 1),
    }
}

/// The value lines of a pool-wide metric for the first `k` pools.
pub open spec fn pool_lines(s: PoolSections, pools: Seq<PoolMetrics>, k: int, now_s: i64, now_ns: u32) -> Seq<char>
    decreases k,
{
    if k <= 0 {
        seq![]
    } else {
        let p = pools[k - 1];
        let (num, den) = pool_ratio(s, p, now_s, now_ns);
        pool_lines(s, pools, k - 1, now_s, now_ns) + value_line(
            pool_name_of(s),
            pool_context(p.name@),
            render_ratio(num, den),
        )
    }
}

#[verifier::opaque]
pub open spec fn pool_block(s: PoolSections, pools: Seq<PoolMetrics>, now_s: i64, now_ns: u32) -> Seq<char> {
    meta_lines(pool_name_of(s), full_help(pool_help_of(s), pool_values_of(s)), Type::Gauge)
        + pool_lines(s, pools, pools.len() as int, now_s, now_ns)
}

/// The blocks of the first `k` pool-wide metrics.
pub open spec fn pool_blocks(pools: Seq<PoolMetrics>, k: int, now_s: i64, now_ns: u32) -> Seq<char>
    decreases k,
{
    if k <= 0 {
        seq![]
    } else {
        pool_blocks(pools, k - 1, now_s, now_ns) + pool_block(pool_sections()[k - 1], pools, now_s, now_ns)
    }
}

pub open spec fn device_ratio(s: DeviceSections, d: DeviceMetrics) -> int {
    match s {
        DeviceSections::State => device_code(Some(d.state)) as int,
        DeviceSections::ErrorsRead => d.errors_read as int,
        DeviceSections::ErrorsWrite => d.errors_write as int,
        DeviceSections::ErrorsChecksum => d.errors_checksum as int,
    }
}

/// The value lines of a per-device metric for the first `k` devices of a
/// pool.
pub open spec fn device_lines(s: DeviceSections, pool: Seq<char>, devs: Seq<DeviceMetrics>, k: int) -> Seq<char>
    decreases k,
{
    if k <= 0 {
        seq![]
    } else {
        device_lines(s, pool, devs, k - 1) + value_line(
            device_name_of(s),
            device_context(pool, path_after(devices_view(devs), k)),
            render_ratio(device_ratio(s, devs[k - 1]), 1),
        )
    }
}

/// The value lines of a per-device metric for the first `k` pools.
pub open spec fn device_pools_lines(s: DeviceSections, pools: Seq<PoolMetrics>, k: int) -> Seq<char>
    decreases k,
{
    if k <= 0 {
        seq![]
    } else {
        let p = pools[k - 1];
        device_pools_lines(s, pools, k - 1) + device_lines(s, p.name@, p.devices@, p.devices@.len() as int)
    }
}

#[verifier::opaque]
pub open spec fn device_block(s: DeviceSections, pools: Seq<PoolMetrics>) -> Seq<char> {
    meta_lines(device_name_of(s), full_help(device_help_of(s), device_values_of(s)), Type::Gauge)
        + device_pools_lines(s, pools, pools.len() as int)
}

/// The blocks of the first `k` per-device metrics.
pub open spec fn device_blocks(pools: Seq<PoolMetrics>, k: int) -> Seq<char>
    decreases k,
{
    if k <= 0 {
        seq![]
    } else {
        device_blocks(pools, k - 1) + device_block(device_sections()[k - 1], pools)
    }
}

pub open spec fn lookup_block(lookup_nanos: Option<u128>) -> Seq<char> {
    match lookup_nanos {
        None => seq![],
        Some(ns) => meta_lines("lookup"@, "total duration of the lookup in seconds"@, Type::Gauge)
            + value_line("lookup"@, seq![], render_ratio(ns as int, NANOS_PER_SECOND as int)),
    }
}

/// The whole document: the pool-wide blocks then the per-device blocks (or a
/// comment when there is no pool), then the lookup duration when given.
pub open spec fn render(pools: Seq<PoolMetrics>, now_s: i64, now_ns: u32, lookup_nanos: Option<u128>) -> Seq<char> {
    (if pools.len() == 0 {
        "# no pools reported\n"@
    } else {
        pool_blocks(pools, 5, now_s, now_ns) + device_blocks(pools, 4)
    }) + lookup_block(lookup_nanos)
}

fn pool_num(s: PoolSections, p: &PoolMetrics, now_s: i64, now_ns: u32) -> (r: (i128, u64))
    ensures
        r.0 as int == pool_ratio(s, *p, now_s, now_ns).0,
        r.1 as int == pool_ratio(s, *p, now_s, now_ns).1,
        r.1 > 0,
        -RATIO_NUM_BOUND <= r.0 <= RATIO_NUM_BOUND,
{
    match s {
        PoolSections::PoolState => (device_value(p.state) as i128, 1),
        PoolSections::PoolStatusDescription => (pool_status_value(p.pool_status) as i128, 1),
        PoolSections::ScanState => {
            let k = match p.scan_status {
                Some((k, _)) => Some(k),
                None => None,
            };
            (scan_value(k) as i128, 1)
        },
        PoolSections::ScanAge => match p.scan_status {
            None => (0, 1),
            Some((_, t)) => {
                let secs: i128 = now_s as i128 - (t.civil_second as i128 - t.offset_seconds as i128);
                assert(-40_000_000_000_000_000_000_000_000_000 <= secs * 1_000_000_000 + now_ns <= 40_000_000_000_000_000_000_000_000_000) by (nonlinear_arith)
                    requires
                        -30_000_000_000_000_000_000 <= secs <= 30_000_000_000_000_000_000,
                        0 <= now_ns <= u32::MAX,
                ;
                (secs * 1_000_000_000 + now_ns as i128, NANOS_PER_HOUR)
            },
        },
        PoolSections::ErrorState => (error_value(p.error) as i128, 1),
    }
}

fn write_pool_block(s: PoolSections, pools: &Vec<PoolMetrics>, now_s: i64, now_ns: u32, out: &mut Vec<char>)
    ensures
        final(out)@ == old(out)@ + pool_block(s, pools@, now_s, now_ns),
{
    let (key, values) = pool_key(s);
    write_key_meta(&key, values, out);
    let ghost start = out@;
    let mut k: usize = 0;
    while k < pools.len()
        invariant
            k <= pools@.len(),
            key.metric_name@ == pool_name_of(s),
            out@ == start + pool_lines(s, pools@, k as int, now_s, now_ns),
        decreases pools@.len() - k,
    {
        let p = &pools[k];
        let (num, den) = pool_num(s, p, now_s, now_ns);
        write_kv(&Pool { pool_name: p.name.as_str() }, out, &key, num, den);
        k = k + 1;
    }
    proof {
        reveal(pool_block);
    }
    assert(out@ =~= old(out)@ + pool_block(s, pools@, now_s, now_ns));
}

fn device_num(s: DeviceSections, d: &DeviceMetrics) -> (r: i128)
    ensures
        r as int == device_ratio(s, *d),
        -RATIO_NUM_BOUND <= r <= RATIO_NUM_BOUND,
{
    match s {
        DeviceSections::State => device_value(Some(d.state)) as i128,
        DeviceSections::ErrorsRead => d.errors_read as i128,
        DeviceSections::ErrorsWrite => d.errors_write as i128,
        DeviceSections::ErrorsChecksum => d.errors_checksum as i128,
    }
}

fn write_device_lines(s: DeviceSections, key: &SimpleMetric, p: &PoolMetrics, out: &mut Vec<char>)
    requires
        key.metric_name@ == device_name_of(s),
    ensures
        final(out)@ == old(out)@ + device_lines(s, p.name@, p.devices@, p.devices@.len() as int),
{
    let mut tree = DeviceTreeName::new();
    let ghost dv = devices_view(p.devices@);
    let mut k: usize = 0;
    while k < p.devices.len()
        invariant
            k <= p.devices@.len(),
            dv == devices_view(p.devices@),
            key.metric_name@ == device_name_of(s),
            tree.view_names() == path_after(dv, k as int),
            out@ == old(out)@ + device_lines(s, p.name@, p.devices@, k as int),
        decreases p.devices@.len() - k,
    {
        let d = &p.devices[k];
        tree.update(d.depth, d.name.clone());
        let num = device_num(s, d);
        write_kv(&Device { pool_name: p.name.as_str(), dev_name: &tree }, out, key, num, 1);
        k = k + 1;
    }
}

fn write_device_block(s: DeviceSections, pools: &Vec<PoolMetrics>, out: &mut Vec<char>)
    ensures
        final(out)@ == old(out)@ + device_block(s, pools@),
{
    let (key, values) = device_key(s);
    write_key_meta(&key, values, out);
    let ghost start = out@;
    let mut k: usize = 0;
    while k < pools.len()
        invariant
            k <= pools@.len(),
            key.metric_name@ == device_name_of(s),
            out@ == start + device_pools_lines(s, pools@, k as int),
        decreases pools@.len() - k,
    {
        write_device_lines(s, &key, &pools[k], out);
        k = k + 1;
    }
    proof {
        reveal(device_block);
    }
    assert(out@ =~= old(out)@ + device_block(s, pools@));
}

/// Returns the exposition document for `pools`, at the instant `now_s`
/// seconds and `now_ns` nanoseconds after the Unix epoch. The lookup
/// duration is reported when given, in nanoseconds.
pub fn format_metrics(pools: Vec<PoolMetrics>, now_s: i64, now_ns: u32, lookup_nanos: Option<u128>) -> (r: String)
    requires
        lookup_nanos matches Some(ns) ==> ns <= RATIO_NUM_BOUND,
    ensures
        r@ == render(pools@, now_s, now_ns, lookup_nanos),
{
    let mut out: Vec<char> = Vec::new();
    if pools.len() == 0 {
        push_str(&mut out, "# no pools reported\n");
    } else {
        let sections = vec![
            PoolSections::PoolState,
            PoolSections::PoolStatusDescription,
            PoolSections::ScanState,
            PoolSections::ScanAge,
            PoolSections::ErrorState,
        ];
        let mut k: usize = 0;
        while k < sections.len()
            invariant
                k <= sections@.len(),
                sections@ == pool_sections(),
                out@ == pool_blocks(pools@, k as int, now_s, now_ns),
            decreases sections@.len() - k,
        {
            write_pool_block(sections[k], &pools, now_s, now_ns, &mut out);
            k = k + 1;
        }
        let devs = vec![
            DeviceSections::State,
            DeviceSections::ErrorsRead,
            DeviceSections::ErrorsWrite,
            DeviceSections::ErrorsChecksum,
        ];
        let ghost mid = out@;
        let mut k: usize = 0;
        while k < devs.len()
            invariant
                k <= devs@.len(),
                devs@ == device_sections(),
                out@ == mid + device_blocks(pools@, k as int),
            decreases devs@.len() - k,
        {
            write_device_block(devs[k], &pools, &mut out);
            proof {
                assert(out@ =~= mid + device_blocks(pools@, k + 1));
            }
            k = k + 1;
        }
    }
    let ghost body = out@;
    match lookup_nanos {
        Some(ns) => {
            let key = metric("lookup", "total duration of the lookup in seconds");
            write_meta(&key, &mut out);
            write_kv(&Empty, &mut out, &key, ns as i128, NANOS_PER_SECOND);
        },
        None => {},
    }
    assert(out@ =~= body + lookup_block(lookup_nanos));
    string_from_chars(&out)
}

} // verus!
