//! Rows of the device table: `\t<indent>name state read write checksum`.
use vstd::prelude::*;
use crate::error::{DeviceError, DeviceErrorKind, DeviceFailure, DeviceFault};
use crate::text::{
    copy_range, find_char, find_char_exec, is_ws, lemma_skip_non_ws_bounds,
    lemma_skip_spaces_bounds, lemma_skip_ws_bounds, skip_non_ws, skip_non_ws_exec, skip_spaces,
    skip_spaces_exec, skip_ws, skip_ws_exec, string_from_chars,
};
use crate::zfs::{
    device_status_of, notes_view, push_note, unrecognized_note, DeviceMetrics, DeviceStatus,
    DeviceView,
};

verus! {

pub open spec fn is_digit(c: char) -> bool {
    '0' <= c && c <= '9'
}

/// Value of a string of decimal digits.
pub open spec fn digits_value(s: Seq<char>) -> nat
    decreases s.len(),
{
    if s.len() == 0 {
        0
    } else {
        digits_value(s.drop_last()) * 10 + (s.last() as nat - '0' as nat) as nat
    }
}

pub open spec fn all_digits(d: Seq<char>) -> bool {
    forall|i: int| 0 <= i < d.len() ==> is_digit(#[trigger] d[i])
}

/// The digits of a counter: the text without one leading `+`.
pub open spec fn digits_part(s: Seq<char>) -> Seq<char> {
    if s.len() > 0 && s[0] == '+' {
        s.drop_first()
    } else {
        s
    }
}

/// A non-negative decimal integer that fits in `u32`, as `u32::from_str`
/// reads one: an optional `+`, then at least one digit.
pub open spec fn parse_u32(s: Seq<char>) -> Option<u32> {
    let d = digits_part(s);
    if d.len() > 0 && all_digits(d) && digits_value(d) <= u32::MAX {
        Some(digits_value(d) as u32)
    } else {
        None
    }
}

pub fn parse_u32_exec(s: &Vec<char>, lo: usize, hi: usize) -> (r: Option<u32>)
    requires
        lo <= hi <= s@.len(),
    ensures
        r == parse_u32(s@.subrange(lo as int, hi as int)),
{
    let ghost t = s@.subrange(lo as int, hi as int);
    let start = if lo < hi && s[lo] == '+' {
        lo + 1
    } else {
        lo
    };
    let ghost d = s@.subrange(start as int, hi as int);
    assert(d =~= digits_part(t));
    if start == hi {
        assert(d.len() == 0);
        return None;
    }
    let mut k = start;
    let mut acc: u64 = 0;
    let mut big = false;
    while k < hi
        invariant
            start <= k <= hi <= s@.len(),
            d == s@.subrange(start as int, hi as int),
            t == s@.subrange(lo as int, hi as int),
            d == digits_part(t),
            forall|i: int| start <= i < k ==> is_digit(#[trigger] s@[i]),
            !big ==> acc == digits_value(s@.subrange(start as int, k as int)),
            !big ==> acc <= u32::MAX,
            big ==> digits_value(s@.subrange(start as int, k as int)) > u32::MAX,
        decreases hi - k,
    {
        let c = s[k];
        if !('0' <= c && c <= '9') {
            assert(d[k - start] == s@[k as int]);
            assert(!is_digit(d[k - start]));
            assert(!all_digits(d));
            return None;
        }
        let ghost pre = s@.subrange(start as int, k as int);
        let ghost next = s@.subrange(start as int, k + 1);
        assert(next.drop_last() =~= pre);
        let v = (c as u32 - '0' as u32) as u64;
        if !big {
            acc = acc * 10 + v;
            if acc > u32::MAX as u64 {
                big = true;
            }
        } else {
            assert(digits_value(next) >= digits_value(pre)) by (nonlinear_arith)
                requires
                    digits_value(next) == digits_value(pre) * 10 + (c as nat - '0' as nat) as nat,
            ;
        }
        k = k + 1;
    }
    assert(s@.subrange(start as int, k as int) =~= d);
    if big {
        None
    } else {
        Some(acc as u32)
    }
}

/// A cell of the row: the token that starts at the first non-whitespace at or
/// after `i`, as `(start, end)`, or `None` when the row has no more tokens.
pub open spec fn cell(l: Seq<char>, i: int) -> Option<(int, int)> {
    let a = skip_ws(l, i, l.len() as int);
    if a == l.len() {
        None
    } else {
        Some((a, skip_non_ws(l, a, l.len() as int)))
    }
}

/// Parses a counter cell, or fails with the missing- or invalid-count error.
pub open spec fn count_cell(l: Seq<char>, c: Option<(int, int)>, name: Seq<char>, missing: DeviceFault) -> Result<u32, DeviceFailure> {
    match c {
        None => Err(DeviceFailure { device_name: Some(name), kind: missing }),
        Some((a, b)) => match parse_u32(l.subrange(a, b)) {
            Some(v) => Ok(v),
            None => Err(DeviceFailure {
                device_name: Some(name),
                kind: DeviceFault::InvalidCount { cell: l.subrange(a, b) },
            }),
        },
    }
}

pub open spec fn cell_end(c: Option<(int, int)>) -> int {
    match c {
        Some((_, b)) => b,
        None => 0,
    }
}

/// The diagnostic lines for a state token.
pub open spec fn state_notes(token: Seq<char>) -> Seq<Seq<char>> {
    if device_status_of(token) == DeviceStatus::Unrecognized {
        seq![unrecognized_note("DeviceStatus"@, token)]
    } else {
        seq![]
    }
}

/// A device row: exactly one leading tab, `2 * depth` spaces (an odd one is
/// dropped), then whitespace-separated name, state and three counters.
/// Further cells are ignored.
pub open spec fn parse_row(l: Seq<char>) -> Result<(DeviceView, Seq<Seq<char>>), DeviceFailure> {
    let n = l.len() as int;
    let tab = find_char(l, '\t', 0, n);
    if tab == n {
        Err(DeviceFailure { device_name: None, kind: DeviceFault::MissingLeadingWhitespace })
    } else if tab != 0 {
        Err(DeviceFailure { device_name: None, kind: DeviceFault::InvalidLeadingWhitespace })
    } else {
        let body = skip_spaces(l, 1, n);
        let depth = ((body - 1) / 2) as nat;
        match cell(l, body) {
            None => Err(DeviceFailure { device_name: None, kind: DeviceFault::MissingName }),
            Some((n0, n1)) => {
                let name = l.subrange(n0, n1);
                match cell(l, n1) {
                    None => Err(
                        DeviceFailure { device_name: Some(name), kind: DeviceFault::MissingState },
                    ),
                    Some((s0, s1)) => {
                        let token = l.subrange(s0, s1);
                        let rc = cell(l, s1);
                        let wc = cell(l, cell_end(rc));
                        let cc = cell(l, cell_end(wc));
                        match count_cell(l, rc, name, DeviceFault::MissingReadErrorCount) {
                            Err(e) => Err(e),
                            Ok(read) => match count_cell(
                                l,
                                wc,
                                name,
                                DeviceFault::MissingWriteErrorCount,
                            ) {
                                Err(e) => Err(e),
                                Ok(write) => match count_cell(
                                    l,
                                    cc,
                                    name,
                                    DeviceFault::MissingChecksumErrorCount,
                                ) {
                                    Err(e) => Err(e),
                                    Ok(checksum) => Ok(
                                        (
                                            DeviceView {
                                                depth,
                                                name,
                                                state: device_status_of(token),
                                                errors_read: read,
                                                errors_write: write,
                                                errors_checksum: checksum,
                                            },
                                            state_notes(token),
                                        ),
                                    ),
                                },
                            },
                        }
                    },
                }
            },
        }
    }
}

fn cell_exec(l: &Vec<char>, i: usize) -> (r: Option<(usize, usize)>)
    requires
        i <= l@.len(),
    ensures
        r matches Some((a, b)) ==> cell(l@, i as int) == Some((a as int, b as int)) && i <= a < b
            <= l@.len(),
        r is None ==> cell(l@, i as int) is None,
{
    let a = skip_ws_exec(l, i, l.len());
    if a == l.len() {
        None
    } else {
        let b = skip_non_ws_exec(l, a, l.len());
        proof {
            lemma_skip_ws_bounds(l@, i as int, l@.len() as int);
            assert(!is_ws(l@[a as int]));
            lemma_skip_non_ws_bounds(l@, a + 1, l@.len() as int);
        }
        Some((a, b))
    }
}

fn count_cell_exec(
    l: &Vec<char>,
    c: Option<(usize, usize)>,
    name: &Vec<char>,
    missing: DeviceErrorKind,
) -> (r: Result<u32, DeviceError>)
    requires
        c matches Some((a, b)) ==> a <= b <= l@.len(),
        !(missing is InvalidCount),
    ensures
        r matches Ok(v) ==> count_cell(l@, opt_pair(c), name@, fault_of(missing)) == Ok::<
            u32,
            DeviceFailure,
        >(v),
        r matches Err(e) ==> count_cell(l@, opt_pair(c), name@, fault_of(missing)) == Err::<
            u32,
            DeviceFailure,
        >(e@),
{
    match c {
        None => Err(DeviceError { device_name: Some(string_from_chars(name)), kind: missing }),
        Some((a, b)) => match parse_u32_exec(l, a, b) {
            Some(v) => Ok(v),
            None => {
                let cell = copy_range(l, a, b);
                Err(
                    DeviceError {
                        device_name: Some(string_from_chars(name)),
                        kind: DeviceErrorKind::InvalidCount { cell: string_from_chars(&cell) },
                    },
                )
            },
        },
    }
}

pub open spec fn opt_pair(c: Option<(usize, usize)>) -> Option<(int, int)> {
    match c {
        Some((a, b)) => Some((a as int, b as int)),
        None => None,
    }
}

pub open spec fn fault_of(k: DeviceErrorKind) -> DeviceFault {
    (DeviceError { device_name: None, kind: k })@.kind
}

/// Parses one row of the device table. A state token that matches no known
/// state yields `Unrecognized`, and one diagnostic line in `notes`.
pub fn parse_row_exec(l: &Vec<char>, notes: &mut Vec<String>) -> (r: Result<
    DeviceMetrics,
    DeviceError,
>)
    ensures
        r matches Ok(d) ==> parse_row(l@) matches Ok((v, n)) && v == d@ && notes_view(final(notes)@)
            == notes_view(old(notes)@) + n,
        r matches Err(e) ==> parse_row(l@) == Err::<(DeviceView, Seq<Seq<char>>), DeviceFailure>(
            e@,
        ),
{
    let n = l.len();
    let tab = find_char_exec(l, '\t', 0, n);
    if tab == n {
        return Err(
            DeviceError { device_name: None, kind: DeviceErrorKind::MissingLeadingWhitespace },
        );
    }
    if tab != 0 {
        return Err(
            DeviceError { device_name: None, kind: DeviceErrorKind::InvalidLeadingWhitespace },
        );
    }
    let body = skip_spaces_exec(l, 1, n);
    let depth = (body - 1) / 2;
    let (n0, n1) = match cell_exec(l, body) {
        None => {
            return Err(DeviceError { device_name: None, kind: DeviceErrorKind::MissingName });
        },
        Some(p) => p,
    };
    let name = copy_range(l, n0, n1);
    let (s0, s1) = match cell_exec(l, n1) {
        None => {
            return Err(
                DeviceError {
                    device_name: Some(string_from_chars(&name)),
                    kind: DeviceErrorKind::MissingState,
                },
            );
        },
        Some(p) => p,
    };
    let state = DeviceStatus::classify(l, s0, s1);
    let rc = cell_exec(l, s1);
    let rend = match rc {
        Some((_, b)) => b,
        None => 0,
    };
    let wc = cell_exec(l, rend);
    let wend = match wc {
        Some((_, b)) => b,
        None => 0,
    };
    let cc = cell_exec(l, wend);
    let read = count_cell_exec(l, rc, &name, DeviceErrorKind::MissingReadErrorCount)?;
    let write = count_cell_exec(l, wc, &name, DeviceErrorKind::MissingWriteErrorCount)?;
    let checksum = count_cell_exec(l, cc, &name, DeviceErrorKind::MissingChecksumErrorCount)?;
    if matches!(state, DeviceStatus::Unrecognized) {
        push_note(notes, "DeviceStatus", l, s0, s1);
    }
    let d = DeviceMetrics {
        depth,
        name: string_from_chars(&name),
        state,
        errors_read: read,
        errors_write: write,
        errors_checksum: checksum,
    };
    proof {
        lemma_skip_spaces_bounds(l@, 1, n as int);
        assert(notes_view(notes@) =~= notes_view(old(notes)@) + state_notes(
            l@.subrange(s0 as int, s1 as int),
        ));
    }
    Ok(d)
}

} // verus!
