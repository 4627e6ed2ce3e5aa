//! The typed model of `zpool status` output, and the tables that turn its
//! tokens and narratives into enumerated variants.
//!
//! Text that matches no known token becomes `Unrecognized`: the pipeline keeps
//! running across ZFS releases, and the caller hears of the text through the
//! diagnostic lines that the parser emits.
use vstd::prelude::*;
use crate::text::{
    chars_of, copy_range, debug_quote, debug_quoted, find_char, find_char_exec, push_str,
    starts_with, starts_with_exec, string_from_chars,
};

verus! {

/// State of a pool or of a device.
#[derive(Clone, Copy, Debug, PartialEq, Eq, Structural)]
pub enum DeviceStatus {
    Unrecognized,
    Online,
    Offline,
    Split,
    Degraded,
    Faulted,
    /// Reported for pools only.
    Suspended,
    Removed,
    Unavail,
}

/// Classification of the free-form `status:` narrative of a pool.
#[derive(Clone, Copy, Debug, PartialEq, Eq, Structural)]
pub enum PoolStatusDescription {
    Unrecognized,
    FeaturesAvailable,
    SufficientReplicasForMissing,
    DeviceRemoved,
    DataCorruption,
}

/// Kind of the last scan that `scan:` reports.
#[derive(Clone, Copy, Debug, PartialEq, Eq, Structural)]
pub enum ScanStatus {
    Unrecognized,
    ScrubRepaired,
    Resilvered,
    ScrubInProgress,
}

/// Classification of the `errors:` line.
#[derive(Clone, Copy, Debug, PartialEq, Eq, Structural)]
pub enum ErrorStatus {
    Unrecognized,
    /// "No known data errors".
    NoKnownErrors,
    DataErrors,
}

/// One row of the device table.
#[derive(Debug, PartialEq, Eq)]
pub struct DeviceMetrics {
    /// Depth within the device tree, 0 for the pool's own row.
    pub depth: usize,
    pub name: String,
    pub state: DeviceStatus,
    pub errors_read: u32,
    pub errors_write: u32,
    pub errors_checksum: u32,
}

/// What the parser gathered about one pool.
#[derive(Debug, PartialEq, Eq)]
pub struct PoolMetrics {
    pub name: String,
    pub state: Option<DeviceStatus>,
    pub pool_status: Option<PoolStatusDescription>,
    /// The kind of the last scan, with the zoned time of the event that it
    /// reports.
    pub scan_status: Option<(ScanStatus, ScanTime)>,
    /// Rows of the device table, in the order of the input.
    pub devices: Vec<DeviceMetrics>,
    pub error: Option<ErrorStatus>,
}

/// A zoned time: a civil date-time, as seconds from 1970-01-01T00:00:00 on
/// its own clock, and the zone's offset (seconds east of UTC) at that time.
#[derive(Clone, Copy, Debug, PartialEq, Eq, Structural)]
pub struct ScanTime {
    pub civil_second: i64,
    pub offset_seconds: i32,
}

impl ScanTime {
    /// The Unix second of this time.
    pub open spec fn instant(&self) -> int {
        self.civil_second - self.offset_seconds
    }
}

/// A device row as a mathematical value.
pub struct DeviceView {
    pub depth: nat,
    pub name: Seq<char>,
    pub state: DeviceStatus,
    pub errors_read: u32,
    pub errors_write: u32,
    pub errors_checksum: u32,
}

/// A pool as a mathematical value.
pub struct ParsedPool {
    pub name: Seq<char>,
    pub state: Option<DeviceStatus>,
    pub pool_status: Option<PoolStatusDescription>,
    /// The scan's kind, its civil date-time in seconds, and the zone offset
    /// in force then.
    pub scan: Option<(ScanStatus, int, int)>,
    pub devices: Seq<DeviceView>,
    pub error: Option<ErrorStatus>,
}

impl View for DeviceMetrics {
    type V = DeviceView;

    open spec fn view(&self) -> DeviceView {
        DeviceView {
            depth: self.depth as nat,
            name: self.name@,
            state: self.state,
            errors_read: self.errors_read,
            errors_write: self.errors_write,
            errors_checksum: self.errors_checksum,
        }
    }
}

pub open spec fn devices_view(d: Seq<DeviceMetrics>) -> Seq<DeviceView> {
    d.map_values(|x: DeviceMetrics| x@)
}

pub open spec fn scan_kind(s: Option<(ScanStatus, ScanTime)>) -> Option<ScanStatus> {
    match s {
        Some((k, _)) => Some(k),
        None => None,
    }
}

pub open spec fn scan_parsed(s: Option<(ScanStatus, ScanTime)>) -> Option<(ScanStatus, int, int)> {
    match s {
        Some((k, t)) => Some((k, t.civil_second as int, t.offset_seconds as int)),
        None => None,
    }
}

/// The offset of a pool's scan time is one that jiff can return, and it is
/// zero when the zone is UTC.
pub open spec fn offset_fits(p: PoolMetrics, utc: bool) -> bool {
    match p.scan_status {
        Some((_, t)) => -93599 <= t.offset_seconds <= 93599 && (utc ==> t.offset_seconds == 0),
        None => true,
    }
}

pub open spec fn offsets_fit(ps: Seq<PoolMetrics>, utc: bool) -> bool {
    forall|i: int| 0 <= i < ps.len() ==> offset_fits(#[trigger] ps[i], utc)
}

impl PoolMetrics {
    pub open spec fn parsed(&self) -> ParsedPool {
        ParsedPool {
            name: self.name@,
            state: self.state,
            pool_status: self.pool_status,
            scan: scan_parsed(self.scan_status),
            devices: devices_view(self.devices@),
            error: self.error,
        }
    }

    pub fn new(name: String) -> (r: Self)
        ensures
            r.parsed() == new_pool(name@),
    {
        let r = PoolMetrics {
            name,
            state: None,
            pool_status: None,
            scan_status: None,
            devices: Vec::new(),
            error: None,
        };
        assert(r.parsed().devices =~= Seq::<DeviceView>::empty());
        r
    }
}

pub open spec fn new_pool(name: Seq<char>) -> ParsedPool {
    ParsedPool {
        name,
        state: None,
        pool_status: None,
        scan: None,
        devices: seq![],
        error: None,
    }
}

pub open spec fn pools_parsed(p: Seq<PoolMetrics>) -> Seq<ParsedPool> {
    p.map_values(|x: PoolMetrics| x.parsed())
}

pub open spec fn device_status_of(s: Seq<char>) -> DeviceStatus {
    if s == "ONLINE"@ {
        DeviceStatus::Online
    } else if s == "OFFLINE"@ {
        DeviceStatus::Offline
    } else if s == "SPLIT"@ {
        DeviceStatus::Split
    } else if s == "DEGRADED"@ {
        DeviceStatus::Degraded
    } else if s == "FAULTED"@ {
        DeviceStatus::Faulted
    } else if s == "SUSPENDED"@ {
        DeviceStatus::Suspended
    } else if s == "REMOVED"@ {
        DeviceStatus::Removed
    } else if s == "UNAVAIL"@ {
        DeviceStatus::Unavail
    } else {
        DeviceStatus::Unrecognized
    }
}

pub open spec fn sufficient_replicas_text() -> Seq<char> {
    "One or more devices could not be used because the label is missing or\ninvalid.  Sufficient replicas exist for the pool to continue\nfunctioning in a degraded state"@
}

pub open spec fn data_corruption_text() -> Seq<char> {
    "One or more devices has experienced an error resulting in data\ncorruption.  Applications may be affected"@
}

pub open spec fn features_requested_text() -> Seq<char> {
    "Some supported and requested features are not enabled on the pool.\nThe pool can still be used, but some features are unavailable."@
}

pub open spec fn features_supported_text() -> Seq<char> {
    "Some supported features are not enabled on the pool. The pool can\nstill be used, but some features are unavailable."@
}

pub open spec fn device_removed_text() -> Seq<char> {
    "One or more devices has been removed by the administrator.\nSufficient replicas exist for the pool to continue functioning in a\ndegraded state."@
}

pub open spec fn pool_status_of(s: Seq<char>) -> PoolStatusDescription {
    if starts_with(s, sufficient_replicas_text()) {
        PoolStatusDescription::SufficientReplicasForMissing
    } else if starts_with(s, data_corruption_text()) {
        PoolStatusDescription::DataCorruption
    } else if starts_with(s, features_requested_text()) || starts_with(
        s,
        features_supported_text(),
    ) {
        PoolStatusDescription::FeaturesAvailable
    } else if starts_with(s, device_removed_text()) {
        PoolStatusDescription::DeviceRemoved
    } else {
        PoolStatusDescription::Unrecognized
    }
}

pub open spec fn scan_status_of(s: Seq<char>) -> ScanStatus {
    if starts_with(s, "scrub repaired"@) {
        ScanStatus::ScrubRepaired
    } else if starts_with(s, "resilvered"@) {
        ScanStatus::Resilvered
    } else if starts_with(s, "scrub in progress"@) {
        ScanStatus::ScrubInProgress
    } else {
        ScanStatus::Unrecognized
    }
}

/// What follows the first space of `s` (empty if there is none).
pub open spec fn after_first_word(s: Seq<char>) -> Seq<char> {
    let k = find_char(s, ' ', 0, s.len() as int);
    if k < s.len() {
        s.subrange(k + 1, s.len() as int)
    } else {
        seq![]
    }
}

pub open spec fn error_status_of(s: Seq<char>) -> ErrorStatus {
    if starts_with(s, "No known data errors"@) {
        ErrorStatus::NoKnownErrors
    } else if starts_with(after_first_word(s), "data errors"@) {
        ErrorStatus::DataErrors
    } else {
        ErrorStatus::Unrecognized
    }
}

/// The diagnostic line for text of category `category` that matched no known
/// token.
pub open spec fn unrecognized_note(category: Seq<char>, raw: Seq<char>) -> Seq<char> {
    "Unrecognized "@ + category + ": "@ + debug_quoted(raw)
}

/// Whether the characters `[lo, hi)` of `s` are exactly `p`.
pub fn equals_exec(s: &Vec<char>, lo: usize, hi: usize, p: &str) -> (r: bool)
    requires
        lo <= hi <= s@.len(),
    ensures
        r == (s@.subrange(lo as int, hi as int) == p@),
{
    let pc = chars_of(p);
    if pc.len() != hi - lo {
        return false;
    }
    let r = starts_with_exec(s, lo, hi, &pc);
    proof {
        let t = s@.subrange(lo as int, hi as int);
        assert(t.subrange(0, pc@.len() as int) =~= t);
    }
    r
}

/// Whether the characters `[lo, hi)` of `s` begin with `p`.
pub fn starts_with_str(s: &Vec<char>, lo: usize, hi: usize, p: &str) -> (r: bool)
    requires
        lo <= hi <= s@.len(),
    ensures
        r == starts_with(s@.subrange(lo as int, hi as int), p@),
{
    let pc = chars_of(p);
    starts_with_exec(s, lo, hi, &pc)
}

impl DeviceStatus {
    /// Maps a state token; the token `[lo, hi)` of `s` must match exactly.
    pub fn classify(s: &Vec<char>, lo: usize, hi: usize) -> (r: Self)
        requires
            lo <= hi <= s@.len(),
        ensures
            r == device_status_of(s@.subrange(lo as int, hi as int)),
    {
        if equals_exec(s, lo, hi, "ONLINE") {
            DeviceStatus::Online
        } else if equals_exec(s, lo, hi, "OFFLINE") {
            DeviceStatus::Offline
        } else if equals_exec(s, lo, hi, "SPLIT") {
            DeviceStatus::Split
        } else if equals_exec(s, lo, hi, "DEGRADED") {
            DeviceStatus::Degraded
        } else if equals_exec(s, lo, hi, "FAULTED") {
            DeviceStatus::Faulted
        } else if equals_exec(s, lo, hi, "SUSPENDED") {
            DeviceStatus::Suspended
        } else if equals_exec(s, lo, hi, "REMOVED") {
            DeviceStatus::Removed
        } else if equals_exec(s, lo, hi, "UNAVAIL") {
            DeviceStatus::Unavail
        } else {
            DeviceStatus::Unrecognized
        }
    }
}

impl PoolStatusDescription {
    /// Classifies a narrative by the known prefixes.
    pub fn classify(s: &Vec<char>, lo: usize, hi: usize) -> (r: Self)
        requires
            lo <= hi <= s@.len(),
        ensures
            r == pool_status_of(s@.subrange(lo as int, hi as int)),
    {
        if starts_with_str(
            s,
            lo,
            hi,
            "One or more devices could not be used because the label is missing or\ninvalid.  Sufficient replicas exist for the pool to continue\nfunctioning in a degraded state",
        ) {
            PoolStatusDescription::SufficientReplicasForMissing
        } else if starts_with_str(
            s,
            lo,
            hi,
            "One or more devices has experienced an error resulting in data\ncorruption.  Applications may be affected",
        ) {
            PoolStatusDescription::DataCorruption
        } else if starts_with_str(
            s,
            lo,
            hi,
            "Some supported and requested features are not enabled on the pool.\nThe pool can still be used, but some features are unavailable.",
        ) || starts_with_str(
            s,
            lo,
            hi,
            "Some supported features are not enabled on the pool. The pool can\nstill be used, but some features are unavailable.",
        ) {
            PoolStatusDescription::FeaturesAvailable
        } else if starts_with_str(
            s,
            lo,
            hi,
            "One or more devices has been removed by the administrator.\nSufficient replicas exist for the pool to continue functioning in a\ndegraded state.",
        ) {
            PoolStatusDescription::DeviceRemoved
        } else {
            PoolStatusDescription::Unrecognized
        }
    }
}

impl ScanStatus {
    /// Classifies the message of a `scan:` line by its prefix.
    pub fn classify(s: &Vec<char>, lo: usize, hi: usize) -> (r: Self)
        requires
            lo <= hi <= s@.len(),
        ensures
            r == scan_status_of(s@.subrange(lo as int, hi as int)),
    {
        if starts_with_str(s, lo, hi, "scrub repaired") {
            ScanStatus::ScrubRepaired
        } else if starts_with_str(s, lo, hi, "resilvered") {
            ScanStatus::Resilvered
        } else if starts_with_str(s, lo, hi, "scrub in progress") {
            ScanStatus::ScrubInProgress
        } else {
            ScanStatus::Unrecognized
        }
    }
}

impl ErrorStatus {
    /// Classifies the content of an `errors:` line.
    pub fn classify(s: &Vec<char>, lo: usize, hi: usize) -> (r: Self)
        requires
            lo <= hi <= s@.len(),
        ensures
            r == error_status_of(s@.subrange(lo as int, hi as int)),
    {
        if starts_with_str(s, lo, hi, "No known data errors") {
            return ErrorStatus::NoKnownErrors;
        }
        let ghost t = s@.subrange(lo as int, hi as int);
        let k = find_char_exec(s, ' ', lo, hi);
        proof {
            lemma_find_char_shift(s@, ' ', lo as int, hi as int, lo as int);
        }
        let data_errors = if k < hi {
            let r = starts_with_str(s, k + 1, hi, "data errors");
            assert(s@.subrange(k + 1, hi as int) =~= t.subrange(k - lo + 1, t.len() as int));
            r
        } else {
            let empty: Vec<char> = Vec::new();
            let r = starts_with_str(&empty, 0, 0, "data errors");
            assert(empty@.subrange(0, 0) =~= Seq::<char>::empty());
            r
        };
        if data_errors {
            ErrorStatus::DataErrors
        } else {
            ErrorStatus::Unrecognized
        }
    }
}

/// Searching a window of `s` is searching the same characters taken apart.
pub proof fn lemma_find_char_shift(s: Seq<char>, c: char, lo: int, hi: int, i: int)
    requires
        0 <= lo <= i <= hi <= s.len(),
    ensures
        find_char(s, c, i, hi) - lo == find_char(s.subrange(lo, hi), c, i - lo, hi - lo),
    decreases hi - i,
{
    if i < hi && s[i] != c {
        lemma_find_char_shift(s, c, lo, hi, i + 1);
    }
}

pub open spec fn notes_view(v: Seq<String>) -> Seq<Seq<char>> {
    v.map_values(|s: String| s@)
}

/// Emits the diagnostic line for the characters `[lo, hi)` of `raw`, which
/// matched no known token of `category`.
pub fn push_note(notes: &mut Vec<String>, category: &str, raw: &Vec<char>, lo: usize, hi: usize)
    requires
        lo <= hi <= raw@.len(),
    ensures
        notes_view(final(notes)@) == notes_view(old(notes)@).push(
            unrecognized_note(category@, raw@.subrange(lo as int, hi as int)),
        ),
{
    let token = copy_range(raw, lo, hi);
    let shown = debug_quote(string_from_chars(&token).as_str());
    let mut note = chars_of("Unrecognized ");
    push_str(&mut note, category);
    push_str(&mut note, ": ");
    push_str(&mut note, shown.as_str());
    let line = string_from_chars(&note);
    proof {
        assert(line@ =~= unrecognized_note(category@, token@));
    }
    notes.push(line);
    assert(notes_view(notes@) =~= notes_view(old(notes)@).push(line@));
}

} // verus!
