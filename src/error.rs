//! Why the text of `zpool status` was refused, and the mathematical view of
//! each reason.
use vstd::prelude::*;
use crate::zfs::{DeviceStatus, ErrorStatus, PoolStatusDescription, ScanStatus};

verus! {

/// The value that a repeated header field had already set.
#[derive(Clone, Copy, Debug, PartialEq, Eq, Structural)]
pub enum Previous {
    State(DeviceStatus),
    Status(PoolStatusDescription),
    Scan(ScanStatus),
    Errors(ErrorStatus),
}

#[derive(Debug, PartialEq, Eq)]
pub enum DeviceErrorKind {
    MissingLeadingWhitespace,
    InvalidLeadingWhitespace,
    MissingName,
    MissingState,
    MissingReadErrorCount,
    MissingWriteErrorCount,
    MissingChecksumErrorCount,
    InvalidCount { cell: String },
}

/// A malformed row of the device table.
#[derive(Debug, PartialEq, Eq)]
pub struct DeviceError {
    /// The device's name, once the row got that far.
    pub device_name: Option<String>,
    pub kind: DeviceErrorKind,
}

#[derive(Debug, PartialEq, Eq)]
pub enum HeaderErrorKind {
    DuplicateEntry { previous: Previous },
    MissingTimestampSeparator,
    /// The timestamp text, and jiff's message.
    ParseTimestamp { timestamp: String, cause: String },
    ExpectedEmpty,
    UnknownLabel,
}

/// A labeled header line that cannot be taken.
#[derive(Debug, PartialEq, Eq)]
pub struct HeaderError {
    pub label: String,
    pub content: String,
    pub kind: HeaderErrorKind,
}

#[derive(Debug, PartialEq, Eq)]
pub enum ErrorKind {
    MetricsLineHeader(HeaderError),
    DeviceMetrics(DeviceError),
    HeaderBeforePool { label: String },
    NeedsZfsDeviceMounts,
    UnknownHeader,
    InvalidDeviceTableLabels,
    MissingDeviceTableLabels,
    MissingBlankForDevices,
}

/// Error parsing the output of `zpool status`: the line at fault, its
/// 1-based number, and the reason.
#[derive(Debug, PartialEq, Eq)]
pub struct Error {
    pub line: String,
    pub line_number: usize,
    pub kind: ErrorKind,
}

pub enum DeviceFault {
    MissingLeadingWhitespace,
    InvalidLeadingWhitespace,
    MissingName,
    MissingState,
    MissingReadErrorCount,
    MissingWriteErrorCount,
    MissingChecksumErrorCount,
    InvalidCount { cell: Seq<char> },
}

pub struct DeviceFailure {
    pub device_name: Option<Seq<char>>,
    pub kind: DeviceFault,
}

pub enum HeaderFault {
    DuplicateEntry { previous: Previous },
    MissingTimestampSeparator,
    ParseTimestamp { timestamp: Seq<char> },
    ExpectedEmpty,
    UnknownLabel,
}

pub struct HeaderFailure {
    pub label: Seq<char>,
    pub content: Seq<char>,
    pub kind: HeaderFault,
}

pub enum Fault {
    Header(HeaderFailure),
    Device(DeviceFailure),
    HeaderBeforePool { label: Seq<char> },
    NeedsZfsDeviceMounts,
    UnknownHeader,
    InvalidDeviceTableLabels,
    MissingDeviceTableLabels,
    MissingBlankForDevices,
}

pub struct Failure {
    pub line: Seq<char>,
    pub line_number: nat,
    pub kind: Fault,
}

pub open spec fn opt_string_view(s: Option<String>) -> Option<Seq<char>> {
    match s {
        Some(x) => Some(x@),
        None => None,
    }
}

impl View for DeviceError {
    type V = DeviceFailure;

    open spec fn view(&self) -> DeviceFailure {
        DeviceFailure {
            device_name: opt_string_view(self.device_name),
            kind: match self.kind {
                DeviceErrorKind::MissingLeadingWhitespace => DeviceFault::MissingLeadingWhitespace,
                DeviceErrorKind::InvalidLeadingWhitespace => DeviceFault::InvalidLeadingWhitespace,
                DeviceErrorKind::MissingName => DeviceFault::MissingName,
                DeviceErrorKind::MissingState => DeviceFault::MissingState,
                DeviceErrorKind::MissingReadErrorCount => DeviceFault::MissingReadErrorCount,
                DeviceErrorKind::MissingWriteErrorCount => DeviceFault::MissingWriteErrorCount,
                DeviceErrorKind::MissingChecksumErrorCount => DeviceFault::MissingChecksumErrorCount,
                DeviceErrorKind::InvalidCount { cell } => DeviceFault::InvalidCount { cell: cell@ },
            },
        }
    }
}

pub open spec fn header_fault_of(k: HeaderErrorKind) -> HeaderFault {
    match k {
        HeaderErrorKind::DuplicateEntry { previous } => HeaderFault::DuplicateEntry { previous },
        HeaderErrorKind::MissingTimestampSeparator => HeaderFault::MissingTimestampSeparator,
        HeaderErrorKind::ParseTimestamp { timestamp, cause: _ } => HeaderFault::ParseTimestamp {
            timestamp: timestamp@,
        },
        HeaderErrorKind::ExpectedEmpty => HeaderFault::ExpectedEmpty,
        HeaderErrorKind::UnknownLabel => HeaderFault::UnknownLabel,
    }
}

impl View for HeaderError {
    type V = HeaderFailure;

    open spec fn view(&self) -> HeaderFailure {
        HeaderFailure {
            label: self.label@,
            content: self.content@,
            kind: header_fault_of(self.kind),
        }
    }
}

impl View for Error {
    type V = Failure;

    open spec fn view(&self) -> Failure {
        Failure {
            line: self.line@,
            line_number: self.line_number as nat,
            kind: match self.kind {
                ErrorKind::MetricsLineHeader(h) => Fault::Header(h@),
                ErrorKind::DeviceMetrics(d) => Fault::Device(d@),
                ErrorKind::HeaderBeforePool { label } => Fault::HeaderBeforePool { label: label@ },
                ErrorKind::NeedsZfsDeviceMounts => Fault::NeedsZfsDeviceMounts,
                ErrorKind::UnknownHeader => Fault::UnknownHeader,
                ErrorKind::InvalidDeviceTableLabels => Fault::InvalidDeviceTableLabels,
                ErrorKind::MissingDeviceTableLabels => Fault::MissingDeviceTableLabels,
                ErrorKind::MissingBlankForDevices => Fault::MissingBlankForDevices,
            },
        }
    }
}

} // verus!
