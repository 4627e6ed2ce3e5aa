//! Labeled header lines of a pool (`state:`, `status:`, `scan:`, ...).
use vstd::prelude::*;
use crate::clock::{
    civil_fields, civil_seconds, civil_seconds_exec, compatible_offset_exec, parse_civil,
    zone_offsets, UNIX_SECOND_MAX, UNIX_SECOND_MIN,
};
use crate::error::{header_fault_of, HeaderError, HeaderErrorKind, HeaderFault, Previous};
use crate::text::{
    chars_of, copy_range, find_char, find_char_exec, find_sub, find_sub_exec, lemma_find_sub_bounds,
    string_from_chars,
};
use crate::zfs::{
    device_status_of, equals_exec, error_status_of, lemma_find_char_shift, notes_view,
    offset_fits, pool_status_of, push_note, scan_status_of, unrecognized_note, DeviceStatus,
    ErrorStatus, ParsedPool, PoolMetrics, PoolStatusDescription, ScanStatus, ScanTime,
};

verus! {

/// Region of the `zpool status` text that the next line belongs to.
#[derive(Clone, Copy, Debug, PartialEq, Eq, Structural)]
pub enum Section {
    Header,
    BlankBeforeDevices,
    Devices,
}

/// The first line of `s`.
pub open spec fn first_line(s: Seq<char>) -> Seq<char> {
    s.subrange(0, find_char(s, '\n', 0, s.len() as int))
}

/// Message and timestamp of a scan line, split at the first `" on "`, or
/// failing that at the first `" since "`.
pub open spec fn scan_split(c: Seq<char>) -> Option<(Seq<char>, Seq<char>)> {
    match find_sub(c, " on "@, 0) {
        Some(k) => Some((c.subrange(0, k), c.subrange(k + " on "@.len(), c.len() as int))),
        None => match find_sub(c, " since "@, 0) {
            Some(k) => Some((c.subrange(0, k), c.subrange(k + " since "@.len(), c.len() as int))),
            None => None,
        },
    }
}

/// strftime-style format of the timestamp of a `scan:` line, e.g.
/// "Sun Oct 27 15:14:51 2024".
pub open spec fn scan_time_format() -> Seq<char> {
    "%a %b %d %T %Y"@
}

pub open spec fn note_if(unrecognized: bool, category: Seq<char>, raw: Seq<char>) -> Seq<Seq<char>> {
    if unrecognized {
        seq![unrecognized_note(category, raw)]
    } else {
        seq![]
    }
}

/// Whether a civil date-time in seconds, placed at zone offset `offset`,
/// is an instant that jiff supports.
pub open spec fn placeable(civil: int, offset: int) -> bool {
    UNIX_SECOND_MIN <= civil - offset <= UNIX_SECOND_MAX
}

/// The content of a `scan:` header, placed at zone offset `offset`: the
/// scan's kind, its civil date-time in seconds, and the diagnostic lines.
pub open spec fn scan_content(content: Seq<char>, offset: int) -> Result<
    (ScanStatus, int, Seq<Seq<char>>),
    HeaderFault,
> {
    match scan_split(first_line(content)) {
        None => Err(HeaderFault::MissingTimestampSeparator),
        Some((msg, ts)) => if civil_fields(scan_time_format(), ts) is Some && placeable(
            civil_seconds(civil_fields(scan_time_format(), ts)->Some_0),
            offset,
        ) {
            Ok(
                (
                    scan_status_of(msg),
                    civil_seconds(civil_fields(scan_time_format(), ts)->Some_0),
                    note_if(scan_status_of(msg) == ScanStatus::Unrecognized, "ScanStatus"@, msg),
                ),
            )
        } else {
            Err(HeaderFault::ParseTimestamp { timestamp: ts })
        },
    }
}

/// Applies one labeled header line to the pool, a `scan:` line placed at
/// zone offset `offset`: the updated pool, the region that the text enters
/// next (if it changes), and the diagnostic lines.
pub open spec fn header_step(pool: ParsedPool, label: Seq<char>, content: Seq<char>, offset: int) -> Result<
    (ParsedPool, Option<Section>, Seq<Seq<char>>),
    HeaderFault,
> {
    if label == "status"@ {
        match pool.pool_status {
            Some(p) => Err(HeaderFault::DuplicateEntry { previous: Previous::Status(p) }),
            None => Ok(
                (
                    ParsedPool { pool_status: Some(pool_status_of(content)), ..pool },
                    None,
                    note_if(
                        pool_status_of(content) == PoolStatusDescription::Unrecognized,
                        "PoolStatusDescription"@,
                        content,
                    ),
                ),
            ),
        }
    } else if label == "state"@ {
        match pool.state {
            Some(p) => Err(HeaderFault::DuplicateEntry { previous: Previous::State(p) }),
            None => Ok(
                (
                    ParsedPool { state: Some(device_status_of(content)), ..pool },
                    None,
                    note_if(
                        device_status_of(content) == DeviceStatus::Unrecognized,
                        "DeviceStatus"@,
                        content,
                    ),
                ),
            ),
        }
    } else if label == "scan"@ {
        match scan_content(content, offset) {
            Err(f) => Err(f),
            Ok((kind, second, notes)) => match pool.scan {
                Some((p, _, _)) => Err(HeaderFault::DuplicateEntry { previous: Previous::Scan(p) }),
                None => Ok((ParsedPool { scan: Some((kind, second, offset)), ..pool }, None, notes)),
            },
        }
    } else if label == "config"@ {
        if content.len() == 0 {
            Ok((pool, Some(Section::BlankBeforeDevices), seq![]))
        } else {
            Err(HeaderFault::ExpectedEmpty)
        }
    } else if label == "errors"@ {
        match pool.error {
            Some(p) => Err(HeaderFault::DuplicateEntry { previous: Previous::Errors(p) }),
            None => Ok(
                (
                    ParsedPool { error: Some(error_status_of(content)), ..pool },
                    None,
                    note_if(
                        error_status_of(content) == ErrorStatus::Unrecognized,
                        "ErrorStatus"@,
                        content,
                    ),
                ),
            ),
        }
    } else if label == "action"@ || label == "see"@ {
        Ok((pool, None, seq![]))
    } else {
        Err(HeaderFault::UnknownLabel)
    }
}

/// A zone offset that jiff can return; zero in UTC.
pub open spec fn offset_allowed(o: int, utc: bool) -> bool {
    -93599 <= o <= 93599 && (utc ==> o == 0)
}

/// What parsing the content `c` of a `scan:` header returned, placed at
/// offset `o`, given the diagnostic lines before and after.
pub open spec fn scan_outcome(
    c: Seq<char>,
    o: int,
    r: Result<(ScanStatus, ScanTime), HeaderErrorKind>,
    before: Seq<Seq<char>>,
    after: Seq<Seq<char>>,
) -> bool {
    match r {
        Ok((k, t)) => scan_content(c, o) matches Ok((k2, second, n)) && k2 == k && t.civil_second
            == second && t.offset_seconds == o && after == before + n,
        Err(e) => scan_content(c, o) == Err::<(ScanStatus, int, Seq<Seq<char>>), HeaderFault>(
            header_fault_of(e),
        ),
    }
}

/// What applying a header line returned, a `scan:` line placed at offset
/// `o`.
pub open spec fn header_outcome(
    old_pool: PoolMetrics,
    new_pool: PoolMetrics,
    label: Seq<char>,
    content: Seq<char>,
    o: int,
    r: Result<Option<Section>, HeaderError>,
    before: Seq<Seq<char>>,
    after: Seq<Seq<char>>,
) -> bool {
    match r {
        Ok(next) => header_step(old_pool.parsed(), label, content, o) matches Ok((p, nx, n)) && p
            == new_pool.parsed() && nx == next && after == before + n,
        Err(e) => e.label@ == label && e.content@ == content && header_step(
            old_pool.parsed(),
            label,
            content,
            o,
        ) == Err::<(ParsedPool, Option<Section>, Seq<Seq<char>>), HeaderFault>(
            header_fault_of(e.kind),
        ),
    }
}

fn make_header_error(line: &Vec<char>, l0: usize, l1: usize, c0: usize, c1: usize, kind: HeaderErrorKind) -> (r: HeaderError)
    requires
        l0 <= l1 <= line@.len(),
        c0 <= c1 <= line@.len(),
    ensures
        r.label@ == line@.subrange(l0 as int, l1 as int),
        r.content@ == line@.subrange(c0 as int, c1 as int),
        r.kind == kind,
{
    HeaderError {
        label: string_from_chars(&copy_range(line, l0, l1)),
        content: string_from_chars(&copy_range(line, c0, c1)),
        kind,
    }
}

/// Parses the content `[c0, c1)` of `line` as that of a `scan:` header: the
/// scan's kind, and the time of its timestamp, placed in the zone `tz`
/// (`None`: UTC).
pub fn parse_scan_content(
    line: &Vec<char>,
    c0: usize,
    c1: usize,
    tz: &Option<jiff::tz::TimeZone>,
    notes: &mut Vec<String>,
) -> (r: Result<(ScanStatus, ScanTime), HeaderErrorKind>)
    requires
        c0 <= c1 <= line@.len(),
    ensures
        exists|o: int|
            offset_allowed(o, tz is None) && #[trigger] scan_outcome(
                line@.subrange(c0 as int, c1 as int),
                o,
                r,
                notes_view(old(notes)@),
                notes_view(final(notes)@),
            ),
{
    let ghost c = line@.subrange(c0 as int, c1 as int);
    let e = find_char_exec(line, '\n', c0, c1);
    proof {
        lemma_find_char_shift(line@, '\n', c0 as int, c1 as int, c0 as int);
    }
    let fl = copy_range(line, c0, e);
    assert(fl@ =~= first_line(c));
    assert(fl@.subrange(0, fl@.len() as int) =~= fl@);
    let on = chars_of(" on ");
    let since = chars_of(" since ");
    let (k, w) = match find_sub_exec(&fl, fl.len(), &on) {
        Some(k) => {
            proof {
                lemma_find_sub_bounds(fl@, on@, 0);
            }
            (k, on.len())
        },
        None => match find_sub_exec(&fl, fl.len(), &since) {
            Some(k) => {
                proof {
                    lemma_find_sub_bounds(fl@, since@, 0);
                }
                (k, since.len())
            },
            None => {
                assert(scan_outcome(c, 0, Err(HeaderErrorKind::MissingTimestampSeparator), notes_view(old(notes)@), notes_view(notes@)));
            return Err(HeaderErrorKind::MissingTimestampSeparator);
            },
        },
    };
    assert(scan_split(fl@) == Some((fl@.subrange(0, k as int), fl@.subrange(k + w, fl@.len() as int))));
    let status = ScanStatus::classify(&fl, 0, k);
    if matches!(status, ScanStatus::Unrecognized) {
        push_note(notes, "ScanStatus", &fl, 0, k);
    }
    let ts = string_from_chars(&copy_range(&fl, k + w, fl.len()));
    assert(ts@ == fl@.subrange(k + w, fl@.len() as int));
    match parse_civil("%a %b %d %T %Y", ts.as_str()) {
        Err(cause) => {
            let r = Err(HeaderErrorKind::ParseTimestamp { timestamp: ts, cause });
            assert(scan_outcome(c, 0, r, notes_view(old(notes)@), notes_view(notes@)));
            r
        },
        Ok((dt, civil)) => {
            let civil_second = civil_seconds_exec(civil);
            let offset_seconds = match tz {
                None => 0,
                Some(zone) => compatible_offset_exec(zone_offsets(dt, zone)),
            };
            let instant = civil_second - offset_seconds as i64;
            if instant < UNIX_SECOND_MIN || instant > UNIX_SECOND_MAX {
                let r = Err(
                    HeaderErrorKind::ParseTimestamp {
                        timestamp: ts,
                        cause: String::from_str("the time lies outside the supported range of instants"),
                    },
                );
                assert(scan_outcome(c, offset_seconds as int, r, notes_view(old(notes)@), notes_view(notes@)));
                return r;
            }
            assert(notes_view(notes@) =~= notes_view(old(notes)@) + note_if(
                status == ScanStatus::Unrecognized,
                "ScanStatus"@,
                fl@.subrange(0, k as int),
            ));
            let r = Ok((status, ScanTime { civil_second, offset_seconds }));
            assert(scan_outcome(c, offset_seconds as int, r, notes_view(old(notes)@), notes_view(notes@)));
            r
        },
    }
}

/// Applies the header line whose label is `[l0, l1)` and content `[c0, c1)`
/// of `line` to `pool`. Returns the region that the text enters next, if the
/// header changes it.
pub fn add_line_header(
    pool: &mut PoolMetrics,
    line: &Vec<char>,
    l0: usize,
    l1: usize,
    c0: usize,
    c1: usize,
    tz: &Option<jiff::tz::TimeZone>,
    notes: &mut Vec<String>,
) -> (r: Result<Option<Section>, HeaderError>)
    requires
        l0 <= l1 <= line@.len(),
        c0 <= c1 <= line@.len(),
    ensures
        exists|o: int|
            offset_allowed(o, tz is None) && #[trigger] header_outcome(
                *old(pool),
                *final(pool),
                line@.subrange(l0 as int, l1 as int),
                line@.subrange(c0 as int, c1 as int),
                o,
                r,
                notes_view(old(notes)@),
                notes_view(final(notes)@),
            ),
        r is Err ==> *final(pool) == *old(pool),
        r is Ok && line@.subrange(l0 as int, l1 as int) != "scan"@ ==> final(pool).scan_status
            == old(pool).scan_status,
        offset_fits(*old(pool), tz is None) ==> offset_fits(*final(pool), tz is None),
{
    let ghost label = line@.subrange(l0 as int, l1 as int);
    let ghost content = line@.subrange(c0 as int, c1 as int);
    let ghost mut o: int = 0;
    let r: Result<Option<Section>, HeaderError> = if equals_exec(line, l0, l1, "status") {
        if let Some(p) = pool.pool_status {
            Err(make_header_error(line, l0, l1, c0, c1, HeaderErrorKind::DuplicateEntry { previous: Previous::Status(p) }))
        } else {
            let v = PoolStatusDescription::classify(line, c0, c1);
            if matches!(v, PoolStatusDescription::Unrecognized) {
                push_note(notes, "PoolStatusDescription", line, c0, c1);
            }
            pool.pool_status = Some(v);
            assert(notes_view(notes@) =~= notes_view(old(notes)@) + note_if(v == PoolStatusDescription::Unrecognized, "PoolStatusDescription"@, content));
            Ok(None)
        }
    } else if equals_exec(line, l0, l1, "state") {
        if let Some(p) = pool.state {
            Err(make_header_error(line, l0, l1, c0, c1, HeaderErrorKind::DuplicateEntry { previous: Previous::State(p) }))
        } else {
            let v = DeviceStatus::classify(line, c0, c1);
            if matches!(v, DeviceStatus::Unrecognized) {
                push_note(notes, "DeviceStatus", line, c0, c1);
            }
            pool.state = Some(v);
            assert(notes_view(notes@) =~= notes_view(old(notes)@) + note_if(v == DeviceStatus::Unrecognized, "DeviceStatus"@, content));
            Ok(None)
        }
    } else if equals_exec(line, l0, l1, "scan") {
        let ghost before = notes_view(notes@);
        let scanned = parse_scan_content(line, c0, c1, tz, notes);
        proof {
            o = choose|o: int| offset_allowed(o, tz is None) && #[trigger] scan_outcome(content, o, scanned, before, notes_view(notes@));
        }
        match scanned {
            Err(kind) => Err(make_header_error(line, l0, l1, c0, c1, kind)),
            Ok(v) => {
                if let Some((p, _)) = pool.scan_status {
                    Err(make_header_error(line, l0, l1, c0, c1, HeaderErrorKind::DuplicateEntry { previous: Previous::Scan(p) }))
                } else {
                    pool.scan_status = Some(v);
                    Ok(None)
                }
            },
        }
    } else if equals_exec(line, l0, l1, "config") {
        if c0 == c1 {
            assert(notes_view(notes@) =~= notes_view(old(notes)@) + Seq::<Seq<char>>::empty());
            Ok(Some(Section::BlankBeforeDevices))
        } else {
            Err(make_header_error(line, l0, l1, c0, c1, HeaderErrorKind::ExpectedEmpty))
        }
    } else if equals_exec(line, l0, l1, "errors") {
        if let Some(p) = pool.error {
            Err(make_header_error(line, l0, l1, c0, c1, HeaderErrorKind::DuplicateEntry { previous: Previous::Errors(p) }))
        } else {
            let v = ErrorStatus::classify(line, c0, c1);
            if matches!(v, ErrorStatus::Unrecognized) {
                push_note(notes, "ErrorStatus", line, c0, c1);
            }
            pool.error = Some(v);
            assert(notes_view(notes@) =~= notes_view(old(notes)@) + note_if(v == ErrorStatus::Unrecognized, "ErrorStatus"@, content));
            Ok(None)
        }
    } else if equals_exec(line, l0, l1, "action") || equals_exec(line, l0, l1, "see") {
        assert(notes_view(notes@) =~= notes_view(old(notes)@) + Seq::<Seq<char>>::empty());
        Ok(None)
    } else {
        Err(make_header_error(line, l0, l1, c0, c1, HeaderErrorKind::UnknownLabel))
    };
    assert(header_outcome(*old(pool), *pool, label, content, o, r, notes_view(old(notes)@), notes_view(notes@)));
    r
}

} // verus!
