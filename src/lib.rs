//! Prometheus-style metrics for the health of ZFS pools, computed from the
//! text that `zpool status -p` prints.
//!
//! The text is parsed into typed pool and device records (`zfs`, `parse`),
//! which are rendered as an exposition document (`fmt`). Text that matches no
//! known token becomes `Unrecognized` and is reported through diagnostic
//! lines, so the metrics keep flowing across ZFS releases; only structurally
//! broken text is refused.
use vstd::prelude::*;

pub mod text;
pub mod zfs;
pub mod clock;
pub mod error;
pub mod row;
pub mod header;
pub mod parse;
pub mod meta;
pub mod fmt;
pub mod laws;
pub mod auth;
pub mod message;

use crate::clock::{elapsed_nanos, system_zone, unix_second_supported, UNIX_SECOND_MAX, UNIX_SECOND_MIN};
use crate::error::Failure;
use crate::fmt::{format_metrics, render};
use crate::parse::{offsets_allowed, parse_outcome, parse_text, parse_zfs_metrics};
use crate::zfs::{notes_view, offsets_fit, pools_parsed, ParsedPool, PoolMetrics};

pub use crate::error::Error as ParseError;

verus! {

/// Signal to terminate cleanly after the current request, if any.
pub struct Shutdown;

/// Signal that the server is ready to receive requests.
pub struct Ready;

/// The time zone that scan timestamps are read in, and the version shown on
/// the landing page.
pub struct AppContext {
    /// The zone of scan timestamps; `None` is UTC.
    pub timezone: Option<jiff::tz::TimeZone>,
    pub name_suffix: String,
}

impl AppContext {
    /// A context in the system's time zone.
    pub fn new() -> (r: Self)
        ensures
            r.name_suffix@ == Seq::<char>::empty(),
            r.timezone is Some,
    {
        AppContext { timezone: Some(system_zone()), name_suffix: String::new() }
    }

    /// A context that reads every timestamp as UTC, whatever the system's
    /// zone.
    pub fn new_assume_local_is_utc() -> (r: Self)
        ensures
            r.name_suffix@ == Seq::<char>::empty(),
            r.timezone is None,
    {
        AppContext { timezone: None, name_suffix: String::new() }
    }

    /// Sets the version shown on the landing page (`" v<version>"`), or
    /// clears it.
    pub fn set_app_version(&mut self, app_version: Option<&str>)
        ensures
            final(self).name_suffix@ == match app_version {
                Some(v) => " v"@ + v@,
                None => Seq::<char>::empty(),
            },
    {
        match app_version {
            Some(v) => {
                let suffix = String::from_str(" v");
                self.name_suffix = suffix.concat(v);
            },
            None => {
                self.name_suffix = String::new();
            },
        }
    }

    /// Extracts the pools from the output of `zpool status`; see
    /// `parse::parse_zfs_metrics`.
    pub fn parse_zfs_metrics(&self, zpool_output: &str, notes: &mut Vec<String>) -> (r: Result<
        Vec<PoolMetrics>,
        ParseError,
    >)
        ensures
            exists|offs: spec_fn(int) -> int|
                offsets_allowed(offs, self.timezone is None) && #[trigger] parse_outcome(
                    zpool_output@,
                    offs,
                    r,
                    notes_view(old(notes)@),
                    notes_view(final(notes)@),
                ),
            r matches Ok(p) ==> offsets_fit(p@, self.timezone is None),
    {
        parse_zfs_metrics(zpool_output, &self.timezone, notes)
    }

    /// The instant `now_s` seconds and `now_ns` nanoseconds after the Unix
    /// epoch; the lookup duration is measured from `compute_time_start` when
    /// given.
    pub fn timestamp_at(
        &self,
        now_s: i64,
        now_ns: u32,
        compute_time_start: Option<std::time::Instant>,
    ) -> (r: Timestamp<'_>)
        ensures
            r.now_s == now_s,
            r.now_ns == now_ns,
            r.compute_time_start == compute_time_start,
    {
        Timestamp { app_context: self, now_s, now_ns, compute_time_start }
    }

    /// The instant of a Unix second, or `None` outside the range of
    /// instants that jiff supports.
    pub fn timestamp_at_unix_utc(
        &self,
        unix_utc_timestamp: i64,
        compute_time_start: Option<std::time::Instant>,
    ) -> (r: Option<Timestamp<'_>>)
        ensures
            r is Some == (UNIX_SECOND_MIN <= unix_utc_timestamp <= UNIX_SECOND_MAX),
            r matches Some(t) ==> t.now_s == unix_utc_timestamp && t.now_ns == 0
                && t.compute_time_start == compute_time_start,
    {
        if unix_second_supported(unix_utc_timestamp) {
            Some(self.timestamp_at(unix_utc_timestamp, 0, compute_time_start))
        } else {
            None
        }
    }
}

impl Default for AppContext {
    fn default() -> (r: Self)
        ensures
            r.name_suffix@ == Seq::<char>::empty(),
    {
        Self::new()
    }
}

/// The instant that durations are measured to, for one snapshot.
pub struct Timestamp<'a> {
    pub app_context: &'a AppContext,
    pub now_s: i64,
    /// Nanoseconds past `now_s`.
    pub now_ns: u32,
    /// When present, the start of the computation, whose duration is then
    /// reported.
    pub compute_time_start: Option<std::time::Instant>,
}

impl Timestamp<'_> {
    /// Parses the output of `zpool status` and returns the exposition
    /// document for it. Diagnostic lines go to `notes`.
    ///
    /// On success the document is that of pools whose text-determined part
    /// is what the parser specifies; only the zone offsets of their scan
    /// times are left to the time zone (zero for UTC).
    pub fn get_metrics_for_output(&self, zpool_output: &str, notes: &mut Vec<String>) -> (r:
        Result<String, ParseError>)
        ensures
            exists|offs: spec_fn(int) -> int|
                offsets_allowed(offs, self.app_context.timezone is None) && #[trigger] self.outcome(
                    zpool_output@,
                    offs,
                    r,
                    notes_view(old(notes)@),
                    notes_view(final(notes)@),
                ),
    {
        let ghost before = notes_view(notes@);
        let parsed = self.app_context.parse_zfs_metrics(zpool_output, notes);
        let ghost offs = choose|offs: spec_fn(int) -> int|
            offsets_allowed(offs, self.app_context.timezone is None) && #[trigger] parse_outcome(
                zpool_output@,
                offs,
                parsed,
                before,
                notes_view(notes@),
            );
        match parsed {
            Err(e) => {
                assert(self.outcome(zpool_output@, offs, Err::<String, ParseError>(e), before, notes_view(notes@)));
                Err(e)
            },
            Ok(pools) => {
                let ghost snapshot = pools@;
                let lookup = match &self.compute_time_start {
                    Some(start) => Some(elapsed_nanos(start)),
                    None => None,
                };
                let out = format_metrics(pools, self.now_s, self.now_ns, lookup);
                assert(self.outcome(zpool_output@, offs, Ok::<String, ParseError>(out), before, notes_view(notes@))) by {
                    assert(offsets_fit(snapshot, self.app_context.timezone is None));
                }
                Ok(out)
            },
        }
    }

    /// What a snapshot returned, with `scan:` lines placed at offsets
    /// `offs`, given the diagnostic lines before and after: on success the
    /// document of pools whose value is what `parse_text` gives.
    pub open spec fn outcome(
        &self,
        s: Seq<char>,
        offs: spec_fn(int) -> int,
        r: Result<String, ParseError>,
        before: Seq<Seq<char>>,
        after: Seq<Seq<char>>,
    ) -> bool {
        match r {
            Ok(out) => parse_text(s, offs) matches Ok((ps, n)) && after == before + n && exists|
                pools: Seq<PoolMetrics>,
                lookup: Option<u128>,
            |
                pools_parsed(pools) == ps && offsets_fit(pools, self.app_context.timezone is None)
                    && (lookup is None <==> self.compute_time_start is None) && out@ == render(
                    pools,
                    self.now_s,
                    self.now_ns,
                    lookup,
                ),
            Err(e) => parse_text(s, offs) == Err::<(Seq<ParsedPool>, Seq<Seq<char>>), Failure>(
                e@,
            ),
        }
    }
}

} // verus!
