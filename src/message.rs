//! The text of a parse failure: one line for the failure and its place,
//! then one line for each underlying reason.
use vstd::prelude::*;
use crate::error::{DeviceError, DeviceErrorKind, Error, ErrorKind, HeaderError, HeaderErrorKind, Previous};
use crate::text::{chars_of, debug_quote, debug_quoted, dec, push_dec, push_str, string_from_chars};
use crate::zfs::{notes_view, DeviceStatus, ErrorStatus, PoolStatusDescription, ScanStatus};

verus! {

/// The name of the value that a repeated header field had set.
pub open spec fn previous_text(p: Previous) -> Seq<char> {
    match p {
        Previous::State(DeviceStatus::Unrecognized) => "Unrecognized"@,
        Previous::State(DeviceStatus::Online) => "Online"@,
        Previous::State(DeviceStatus::Offline) => "Offline"@,
        Previous::State(DeviceStatus::Split) => "Split"@,
        Previous::State(DeviceStatus::Degraded) => "Degraded"@,
        Previous::State(DeviceStatus::Faulted) => "Faulted"@,
        Previous::State(DeviceStatus::Suspended) => "Suspended"@,
        Previous::State(DeviceStatus::Removed) => "Removed"@,
        Previous::State(DeviceStatus::Unavail) => "Unavail"@,
        Previous::Status(PoolStatusDescription::Unrecognized) => "Unrecognized"@,
        Previous::Status(PoolStatusDescription::FeaturesAvailable) => "FeaturesAvailable"@,
        Previous::Status(PoolStatusDescription::SufficientReplicasForMissing) => "SufficientReplicasForMissing"@,
        Previous::Status(PoolStatusDescription::DeviceRemoved) => "DeviceRemoved"@,
        Previous::Status(PoolStatusDescription::DataCorruption) => "DataCorruption"@,
        Previous::Scan(ScanStatus::Unrecognized) => "Unrecognized"@,
        Previous::Scan(ScanStatus::ScrubRepaired) => "ScrubRepaired"@,
        Previous::Scan(ScanStatus::Resilvered) => "Resilvered"@,
        Previous::Scan(ScanStatus::ScrubInProgress) => "ScrubInProgress"@,
        Previous::Errors(ErrorStatus::Unrecognized) => "Unrecognized"@,
        Previous::Errors(ErrorStatus::NoKnownErrors) => "Ok"@,
        Previous::Errors(ErrorStatus::DataErrors) => "DataErrors"@,
    }
}

pub fn previous_name(p: Previous) -> (r: &'static str)
    ensures
        r@ == previous_text(p),
{
    match p {
        Previous::State(DeviceStatus::Unrecognized) => "Unrecognized",
        Previous::State(DeviceStatus::Online) => "Online",
        Previous::State(DeviceStatus::Offline) => "Offline",
        Previous::State(DeviceStatus::Split) => "Split",
        Previous::State(DeviceStatus::Degraded) => "Degraded",
        Previous::State(DeviceStatus::Faulted) => "Faulted",
        Previous::State(DeviceStatus::Suspended) => "Suspended",
        Previous::State(DeviceStatus::Removed) => "Removed",
        Previous::State(DeviceStatus::Unavail) => "Unavail",
        Previous::Status(PoolStatusDescription::Unrecognized) => "Unrecognized",
        Previous::Status(PoolStatusDescription::FeaturesAvailable) => "FeaturesAvailable",
        Previous::Status(PoolStatusDescription::SufficientReplicasForMissing) => "SufficientReplicasForMissing",
        Previous::Status(PoolStatusDescription::DeviceRemoved) => "DeviceRemoved",
        Previous::Status(PoolStatusDescription::DataCorruption) => "DataCorruption",
        Previous::Scan(ScanStatus::Unrecognized) => "Unrecognized",
        Previous::Scan(ScanStatus::ScrubRepaired) => "ScrubRepaired",
        Previous::Scan(ScanStatus::Resilvered) => "Resilvered",
        Previous::Scan(ScanStatus::ScrubInProgress) => "ScrubInProgress",
        Previous::Errors(ErrorStatus::Unrecognized) => "Unrecognized",
        Previous::Errors(ErrorStatus::NoKnownErrors) => "Ok",
        Previous::Errors(ErrorStatus::DataErrors) => "DataErrors",
    }
}

pub open spec fn quoted(s: String) -> Seq<char> {
    debug_quoted(s@)
}

/// Appends `s` quoted and escaped.
fn push_quoted(out: &mut Vec<char>, s: &str)
    ensures
        final(out)@ == old(out)@ + debug_quoted(s@),
{
    let q = debug_quote(s);
    push_str(out, q.as_str());
}

/// The lines for a header line that could not be taken.
pub open spec fn header_lines(h: HeaderError) -> Seq<Seq<char>> {
    let label = h.label@;
    let content = quoted(h.content);
    match h.kind {
        HeaderErrorKind::DuplicateEntry { previous } => seq![
            "duplicate "@ + label + ": "@ + debug_quoted(previous_text(previous)) + " and "@ + content,
        ],
        HeaderErrorKind::MissingTimestampSeparator => seq![
            "invalid "@ + label + " content "@ + content,
            "expected timestamp separator token (one of [\" on \", \" since \"])"@,
        ],
        HeaderErrorKind::ParseTimestamp { timestamp, cause } => seq![
            "invalid "@ + label + " content "@ + content,
            "invalid timestamp "@ + quoted(timestamp),
            cause@,
        ],
        HeaderErrorKind::ExpectedEmpty => seq![
            "expected empty line for "@ + label + ", found "@ + content,
        ],
        HeaderErrorKind::UnknownLabel => seq![
            "unknown label "@ + quoted(h.label) + " with content "@ + content,
        ],
    }
}

pub open spec fn device_description(k: DeviceErrorKind) -> Seq<char> {
    match k {
        DeviceErrorKind::MissingLeadingWhitespace => "expected leading table whitespace"@,
        DeviceErrorKind::MissingName => "expected device name"@,
        DeviceErrorKind::MissingState => "expected device state"@,
        DeviceErrorKind::MissingReadErrorCount => "expected read error count"@,
        DeviceErrorKind::MissingWriteErrorCount => "expected write error count"@,
        DeviceErrorKind::MissingChecksumErrorCount => "expected checksum error count"@,
        DeviceErrorKind::InvalidLeadingWhitespace => "invalid leading whitespace in table"@,
        DeviceErrorKind::InvalidCount { cell } => "invalid count "@ + quoted(cell),
    }
}

/// The line for a malformed device row.
pub open spec fn device_line_text(d: DeviceError) -> Seq<char> {
    match d.device_name {
        Some(name) => device_description(d.kind) + " for device "@ + quoted(name),
        None => device_description(d.kind),
    }
}

pub open spec fn head_text(k: ErrorKind) -> Seq<char> {
    match k {
        ErrorKind::HeaderBeforePool { label } => "unexpected header "@ + quoted(label)
            + " before pool label"@,
        ErrorKind::MetricsLineHeader(_) => "unexpected metrics header"@,
        ErrorKind::DeviceMetrics(_) => "unexpected device metrics"@,
        ErrorKind::NeedsZfsDeviceMounts => "zpool requires access to /dev/zfs and /proc/self/mounts"@,
        ErrorKind::UnknownHeader => "unknown header"@,
        ErrorKind::InvalidDeviceTableLabels => "invalid device table labels"@,
        ErrorKind::MissingDeviceTableLabels => "missing device table labels"@,
        ErrorKind::MissingBlankForDevices => "expect blank line before devices"@,
    }
}

/// The lines that describe a parse failure, outermost first; the first one
/// ends with the number and the text of the line at fault.
pub open spec fn error_lines(e: Error) -> Seq<Seq<char>> {
    let first = head_text(e.kind) + " on zpool-status output line "@ + dec(e.line_number as nat)
        + ": "@ + quoted(e.line);
    match e.kind {
        ErrorKind::MetricsLineHeader(h) => seq![first] + header_lines(h),
        ErrorKind::DeviceMetrics(d) => seq![first, device_line_text(d)],
        _ => seq![first],
    }
}

fn line_string(v: &Vec<char>) -> (r: String)
    ensures
        r@ == v@,
{
    string_from_chars(v)
}

fn header_lines_exec(h: &HeaderError) -> (r: Vec<String>)
    ensures
        notes_view(r@) == header_lines(*h),
{
    let mut out: Vec<String> = Vec::new();
    match &h.kind {
        HeaderErrorKind::DuplicateEntry { previous } => {
            let mut l = chars_of("duplicate ");
            push_str(&mut l, h.label.as_str());
            push_str(&mut l, ": ");
            push_quoted(&mut l, previous_name(*previous));
            push_str(&mut l, " and ");
            push_quoted(&mut l, h.content.as_str());
            out.push(line_string(&l));
        },
        HeaderErrorKind::MissingTimestampSeparator => {
            let mut l = chars_of("invalid ");
            push_str(&mut l, h.label.as_str());
            push_str(&mut l, " content ");
            push_quoted(&mut l, h.content.as_str());
            out.push(line_string(&l));
            out.push(String::from_str("expected timestamp separator token (one of [\" on \", \" since \"])"));
        },
        HeaderErrorKind::ParseTimestamp { timestamp, cause } => {
            let mut l = chars_of("invalid ");
            push_str(&mut l, h.label.as_str());
            push_str(&mut l, " content ");
            push_quoted(&mut l, h.content.as_str());
            out.push(line_string(&l));
            let mut t = chars_of("invalid timestamp ");
            push_quoted(&mut t, timestamp.as_str());
            out.push(line_string(&t));
            out.push(cause.clone());
        },
        HeaderErrorKind::ExpectedEmpty => {
            let mut l = chars_of("expected empty line for ");
            push_str(&mut l, h.label.as_str());
            push_str(&mut l, ", found ");
            push_quoted(&mut l, h.content.as_str());
            out.push(line_string(&l));
        },
        HeaderErrorKind::UnknownLabel => {
            let mut l = chars_of("unknown label ");
            push_quoted(&mut l, h.label.as_str());
            push_str(&mut l, " with content ");
            push_quoted(&mut l, h.content.as_str());
            out.push(line_string(&l));
        },
    }
    assert(notes_view(out@) =~= header_lines(*h));
    out
}

fn device_line_exec(d: &DeviceError) -> (r: String)
    ensures
        r@ == device_line_text(*d),
{
    let mut l: Vec<char> = match &d.kind {
        DeviceErrorKind::MissingLeadingWhitespace => chars_of("expected leading table whitespace"),
        DeviceErrorKind::MissingName => chars_of("expected device name"),
        DeviceErrorKind::MissingState => chars_of("expected device state"),
        DeviceErrorKind::MissingReadErrorCount => chars_of("expected read error count"),
        DeviceErrorKind::MissingWriteErrorCount => chars_of("expected write error count"),
        DeviceErrorKind::MissingChecksumErrorCount => chars_of("expected checksum error count"),
        DeviceErrorKind::InvalidLeadingWhitespace => chars_of("invalid leading whitespace in table"),
        DeviceErrorKind::InvalidCount { cell } => {
            let mut c = chars_of("invalid count ");
            push_quoted(&mut c, cell.as_str());
            c
        },
    };
    match &d.device_name {
        Some(name) => {
            push_str(&mut l, " for device ");
            push_quoted(&mut l, name.as_str());
        },
        None => {},
    }
    line_string(&l)
}

impl Error {
    /// The lines that describe this failure, outermost first.
    pub fn message_lines(&self) -> (r: Vec<String>)
        ensures
            notes_view(r@) == error_lines(*self),
    {
        let mut first: Vec<char> = match &self.kind {
            ErrorKind::HeaderBeforePool { label } => {
                let mut l = chars_of("unexpected header ");
                push_quoted(&mut l, label.as_str());
                push_str(&mut l, " before pool label");
                l
            },
            ErrorKind::MetricsLineHeader(_) => chars_of("unexpected metrics header"),
            ErrorKind::DeviceMetrics(_) => chars_of("unexpected device metrics"),
            ErrorKind::NeedsZfsDeviceMounts => chars_of("zpool requires access to /dev/zfs and /proc/self/mounts"),
            ErrorKind::UnknownHeader => chars_of("unknown header"),
            ErrorKind::InvalidDeviceTableLabels => chars_of("invalid device table labels"),
            ErrorKind::MissingDeviceTableLabels => chars_of("missing device table labels"),
            ErrorKind::MissingBlankForDevices => chars_of("expect blank line before devices"),
        };
        push_str(&mut first, " on zpool-status output line ");
        push_dec(&mut first, self.line_number as u128);
        push_str(&mut first, ": ");
        push_quoted(&mut first, self.line.as_str());
        let mut out: Vec<String> = Vec::new();
        out.push(line_string(&first));
        assert(notes_view(out@) =~= seq![first@]);
        match &self.kind {
            ErrorKind::MetricsLineHeader(h) => {
                let rest = header_lines_exec(h);
                let mut k: usize = 0;
                while k < rest.len()
                    invariant
                        k <= rest@.len(),
                        notes_view(out@) == seq![first@] + notes_view(rest@).subrange(0, k as int),
                    decreases rest@.len() - k,
                {
                    let ghost before = out@;
                    let c = rest[k].clone();
                    assert(c@ == notes_view(rest@)[k as int]);
                    out.push(c);
                    assert(notes_view(out@) =~= notes_view(before).push(c@));
                    assert(notes_view(out@) =~= seq![first@] + notes_view(rest@).subrange(0, k + 1));
                    k = k + 1;
                }
                assert(notes_view(rest@).subrange(0, k as int) =~= notes_view(rest@));
            },
            ErrorKind::DeviceMetrics(d) => {
                out.push(device_line_exec(d));
                assert(notes_view(out@) =~= seq![first@, device_line_text(*d)]);
            },
            _ => {},
        }
        out
    }
}

} // verus!
