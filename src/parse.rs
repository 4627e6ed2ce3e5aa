//! The section driver: walks the lines of `zpool status`, joins header
//! continuations, and hands each line to the header or device-row parser.
use vstd::prelude::*;
use crate::error::{Error, ErrorKind, Failure, Fault, HeaderFailure};
use crate::header::{add_line_header, header_outcome, header_step, offset_allowed, Section};
use crate::row::{parse_row, parse_row_exec};
use crate::text::{
    chars_of, copy_range, debug_quote, debug_quoted, find_char, find_char_exec, lines_of,
    lines_view, push_all, push_str, split_lines, starts_with, string_from_chars, trim, trim_exec,
    trimmed,
};
use crate::zfs::{
    equals_exec, new_pool, notes_view, offsets_fit, pools_parsed, starts_with_str, DeviceView,
    ParsedPool,
    PoolMetrics,
};

verus! {

/// Where the driver stands between two lines.
pub struct ParseState {
    pub section: Section,
    pub pools: Seq<ParsedPool>,
}

/// What one step yields: the index of the next line to read, the new state,
/// and the diagnostic lines emitted on the way.
pub type Step = Result<(int, ParseState, Seq<Seq<char>>), Failure>;

pub open spec fn tab_led(s: Seq<char>) -> bool {
    s.len() > 0 && s[0] == '\t'
}

/// One past the last line that continues the header line `i` (a following
/// line that begins with a tab continues it).
pub open spec fn cont_end(lines: Seq<Seq<char>>, i: int) -> int
    decreases lines.len() - i,
{
    if 0 <= i && i + 1 < lines.len() && tab_led(lines[i + 1]) {
        cont_end(lines, i + 1)
    } else {
        i + 1
    }
}

/// Line `i` with its continuations `i + 1 .. j`, each without its tab and
/// after a newline.
pub open spec fn joined(lines: Seq<Seq<char>>, i: int, j: int) -> Seq<char>
    decreases j - i,
{
    if j <= i + 1 {
        lines[i]
    } else {
        joined(lines, i, j - 1) + seq!['\n'] + lines[j - 1].drop_first()
    }
}

/// Label and content of a header line: split at the first colon, both
/// trimmed.
pub open spec fn split_label(l: Seq<char>) -> Option<(Seq<char>, Seq<char>)> {
    let k = find_char(l, ':', 0, l.len() as int);
    if k == l.len() {
        None
    } else {
        Some((trimmed(l, 0, k), trimmed(l, k + 1, l.len() as int)))
    }
}

pub open spec fn fail(lines: Seq<Seq<char>>, i: int, kind: Fault) -> Failure {
    Failure { line: lines[i], line_number: (i + 1) as nat, kind }
}

pub open spec fn set_last(pools: Seq<ParsedPool>, p: ParsedPool) -> Seq<ParsedPool> {
    pools.update(pools.len() - 1, p)
}

pub open spec fn header_line(lines: Seq<Seq<char>>, i: int, pools: Seq<ParsedPool>, offset: int) -> Step {
    let j = cont_end(lines, i);
    let l = joined(lines, i, j);
    match split_label(l) {
        Some((label, content)) => if label == "pool"@ {
            Ok((j, ParseState { section: Section::Header, pools: pools.push(new_pool(content)) }, seq![]))
        } else if pools.len() == 0 {
            Err(fail(lines, i, Fault::HeaderBeforePool { label }))
        } else {
            match header_step(pools.last(), label, content, offset) {
                Err(h) => Err(
                    fail(lines, i, Fault::Header(HeaderFailure { label, content, kind: h })),
                ),
                Ok((p, next, n)) => Ok(
                    (
                        j,
                        ParseState {
                            section: match next {
                                Some(s) => s,
                                None => Section::Header,
                            },
                            pools: set_last(pools, p),
                        },
                        n,
                    ),
                ),
            }
        },
        None => if trim(l).len() == 0 || l == "no pools available"@ {
            Ok((j, ParseState { section: Section::Header, pools }, seq![]))
        } else if starts_with(l, "/dev/zfs and /proc/self/mounts"@) {
            Err(fail(lines, i, Fault::NeedsZfsDeviceMounts))
        } else {
            Err(fail(lines, i, Fault::UnknownHeader))
        },
    }
}

pub open spec fn blank_line(lines: Seq<Seq<char>>, i: int, pools: Seq<ParsedPool>) -> Step {
    if trim(lines[i]).len() == 0 {
        if i + 1 < lines.len() {
            if starts_with(lines[i + 1], "\tNAME "@) {
                Ok((i + 2, ParseState { section: Section::Devices, pools }, seq![]))
            } else {
                Err(fail(lines, i, Fault::InvalidDeviceTableLabels))
            }
        } else {
            Err(fail(lines, i, Fault::MissingDeviceTableLabels))
        }
    } else {
        Err(fail(lines, i, Fault::MissingBlankForDevices))
    }
}

/// The diagnostic line for a line that ends the device table without being
/// blank.
pub open spec fn interrupt_note(l: Seq<char>) -> Seq<char> {
    "ignoring line interrupting devices table: "@ + debug_quoted(l)
}

pub open spec fn add_device(pools: Seq<ParsedPool>, d: DeviceView) -> Seq<ParsedPool> {
    set_last(pools, ParsedPool { devices: pools.last().devices.push(d), ..pools.last() })
}

pub open spec fn device_line(lines: Seq<Seq<char>>, i: int, pools: Seq<ParsedPool>) -> Step {
    let l = lines[i];
    if !tab_led(l) || trim(l).len() == 0 {
        Ok(
            (
                i + 1,
                ParseState { section: Section::Header, pools },
                if trim(l).len() == 0 {
                    seq![]
                } else {
                    seq![interrupt_note(l)]
                },
            ),
        )
    } else if pools.len() == 0 {
        Ok((i + 1, ParseState { section: Section::Devices, pools }, seq![]))
    } else {
        match parse_row(l) {
            Err(d) => Err(fail(lines, i, Fault::Device(d))),
            Ok((dev, n)) => Ok(
                (i + 1, ParseState { section: Section::Devices, pools: add_device(pools, dev) }, n),
            ),
        }
    }
}

/// One step of the driver at line `i`; `offs(i)` is the zone offset at
/// which a `scan:` header on that line is placed.
pub open spec fn step(lines: Seq<Seq<char>>, i: int, st: ParseState, offs: spec_fn(int) -> int) -> Step {
    match st.section {
        Section::Header => header_line(lines, i, st.pools, offs(i)),
        Section::BlankBeforeDevices => blank_line(lines, i, st.pools),
        Section::Devices => device_line(lines, i, st.pools),
    }
}

/// The pools and diagnostic lines that the lines from `i` on yield from state
/// `st`, or the first failure.
pub open spec fn run(lines: Seq<Seq<char>>, i: int, st: ParseState, offs: spec_fn(int) -> int) -> Result<
    (Seq<ParsedPool>, Seq<Seq<char>>),
    Failure,
>
    decreases lines.len() - i,
{
    if 0 <= i < lines.len() {
        match step(lines, i, st, offs) {
            Err(e) => Err(e),
            Ok((j, st2, n)) => if i < j <= lines.len() {
                match run(lines, j, st2, offs) {
                    Err(e) => Err(e),
                    Ok((p, n2)) => Ok((p, n + n2)),
                }
            } else {
                Ok((st2.pools, n))
            },
        }
    } else {
        Ok((st.pools, seq![]))
    }
}

/// What the whole text yields when the `scan:` header on line `i` is
/// placed at zone offset `offs(i)`: its pools in order and the diagnostic
/// lines, or the first failure.
pub open spec fn parse_text(s: Seq<char>, offs: spec_fn(int) -> int) -> Result<
    (Seq<ParsedPool>, Seq<Seq<char>>),
    Failure,
> {
    run(lines_of(s), 0, ParseState { section: Section::Header, pools: seq![] }, offs)
}

/// Zone offsets that jiff can return; all zero in UTC.
pub open spec fn offsets_allowed(offs: spec_fn(int) -> int, utc: bool) -> bool {
    forall|k: int| #[trigger] offset_allowed(offs(k), utc)
}

/// What reading header line `i` returned, a `scan:` header placed at
/// offset `o`.
pub open spec fn line_outcome(
    lines: Seq<Seq<char>>,
    i: int,
    old_pools: Seq<ParsedPool>,
    new_pools: Seq<ParsedPool>,
    o: int,
    r: Result<(usize, Section), Error>,
    before: Seq<Seq<char>>,
    after: Seq<Seq<char>>,
) -> bool {
    match r {
        Ok((j, sec)) => header_line(lines, i, old_pools, o) matches Ok((j2, st2, n)) && j2 == j
            && st2 == (ParseState { section: sec, pools: new_pools }) && after == before + n,
        Err(e) => header_line(lines, i, old_pools, o) == Err::<
            (int, ParseState, Seq<Seq<char>>),
            Failure,
        >(e@),
    }
}

/// `r` with the diagnostic lines `acc` put before its own.
pub open spec fn after_notes(
    acc: Seq<Seq<char>>,
    r: Result<(Seq<ParsedPool>, Seq<Seq<char>>), Failure>,
) -> Result<(Seq<ParsedPool>, Seq<Seq<char>>), Failure> {
    match r {
        Ok((p, n)) => Ok((p, acc + n)),
        Err(e) => Err(e),
    }
}

pub proof fn lemma_cont_end_bounds(lines: Seq<Seq<char>>, i: int)
    requires
        0 <= i < lines.len(),
    ensures
        i < cont_end(lines, i) <= lines.len(),
    decreases lines.len() - i,
{
    if i + 1 < lines.len() && tab_led(lines[i + 1]) {
        lemma_cont_end_bounds(lines, i + 1);
    }
}

fn make_error(lines: &Vec<Vec<char>>, i: usize, kind: ErrorKind) -> (r: Error)
    requires
        i < lines@.len(),
    ensures
        r.line@ == lines@[i as int]@,
        r.line_number == i + 1,
        r.kind == kind,
{
    let count = lines.len();
    assert(i < count);
    Error { line: string_from_chars(&lines[i]), line_number: i + 1, kind }
}

fn header_line_exec(
    lines: &Vec<Vec<char>>,
    i: usize,
    pools: &mut Vec<PoolMetrics>,
    tz: &Option<jiff::tz::TimeZone>,
    notes: &mut Vec<String>,
) -> (r: Result<(usize, Section), Error>)
    requires
        i < lines@.len(),
    ensures
        exists|o: int|
            offset_allowed(o, tz is None) && #[trigger] line_outcome(
                lines_view(lines@),
                i as int,
                pools_parsed(old(pools)@),
                pools_parsed(final(pools)@),
                o,
                r,
                notes_view(old(notes)@),
                notes_view(final(notes)@),
            ),
        offsets_fit(old(pools)@, tz is None) ==> offsets_fit(final(pools)@, tz is None),
{
    let ghost ls = lines_view(lines@);
    let ghost ps = pools_parsed(pools@);
    let mut l = copy_range(&lines[i], 0, lines[i].len());
    let count = lines.len();
    assert(i < count);
    let mut j = i + 1;
    assert(l@ =~= ls[i as int]);
    while j < lines.len() && lines[j].len() > 0 && lines[j][0] == '\t'
        invariant
            i < j <= lines@.len(),
            ls == lines_view(lines@),
            l@ == joined(ls, i as int, j as int),
            cont_end(ls, i as int) == cont_end(ls, j - 1),
        decreases lines@.len() - j,
    {
        let rest = copy_range(&lines[j], 1, lines[j].len());
        l.push('\n');
        push_all(&mut l, &rest);
        assert(rest@ =~= ls[j as int].drop_first());
        assert(l@ =~= joined(ls, i as int, j + 1));
        j = j + 1;
    }
    assert(cont_end(ls, i as int) == j);
    let n = l.len();
    let k = find_char_exec(&l, ':', 0, n);
    if k < n {
        let (l0, l1) = trim_exec(&l, 0, k);
        let (c0, c1) = trim_exec(&l, k + 1, n);
        if equals_exec(&l, l0, l1, "pool") {
            let name = string_from_chars(&copy_range(&l, c0, c1));
            let p = PoolMetrics::new(name);
            pools.push(p);
            assert(pools_parsed(pools@) =~= ps.push(new_pool(l@.subrange(c0 as int, c1 as int))));
            assert(notes_view(notes@) =~= notes_view(old(notes)@) + Seq::<Seq<char>>::empty());
            assert(line_outcome(ls, i as int, ps, pools_parsed(pools@), 0, Ok((j, Section::Header)), notes_view(old(notes)@), notes_view(notes@)));
            return Ok((j, Section::Header));
        }
        if pools.len() == 0 {
            let label = string_from_chars(&copy_range(&l, l0, l1));
            let r = Err(make_error(lines, i, ErrorKind::HeaderBeforePool { label }));
            assert(line_outcome(ls, i as int, ps, pools_parsed(pools@), 0, r, notes_view(old(notes)@), notes_view(notes@)));
            return r;
        }
        let mut pool = match pools.pop() {
            Some(p) => p,
            None => {
                return Err(make_error(lines, i, ErrorKind::UnknownHeader));
            },
        };
        assert(ps.last() == pool.parsed());
        let ghost old_pool = pool;
        let ghost before = notes_view(notes@);
        let res = add_line_header(&mut pool, &l, l0, l1, c0, c1, tz, notes);
        let ghost o = choose|o: int| offset_allowed(o, tz is None) && #[trigger] header_outcome(
            old_pool,
            pool,
            l@.subrange(l0 as int, l1 as int),
            l@.subrange(c0 as int, c1 as int),
            o,
            res,
            before,
            notes_view(notes@),
        );
        pools.push(pool);
        assert(pools_parsed(pools@) =~= set_last(ps, pool.parsed()));
        let r = match res {
            Ok(next) => {
                let sec = match next {
                    Some(s) => s,
                    None => Section::Header,
                };
                Ok((j, sec))
            },
            Err(h) => Err(make_error(lines, i, ErrorKind::MetricsLineHeader(h))),
        };
        assert(line_outcome(ls, i as int, ps, pools_parsed(pools@), o, r, notes_view(old(notes)@), notes_view(notes@)));
        r
    } else {
        let (a, b) = trim_exec(&l, 0, n);
        assert(l@.subrange(0, n as int) =~= l@);
        let r = if a == b || equals_exec(&l, 0, n, "no pools available") {
            assert(notes_view(notes@) =~= notes_view(old(notes)@) + Seq::<Seq<char>>::empty());
            Ok((j, Section::Header))
        } else if starts_with_str(&l, 0, n, "/dev/zfs and /proc/self/mounts") {
            Err(make_error(lines, i, ErrorKind::NeedsZfsDeviceMounts))
        } else {
            Err(make_error(lines, i, ErrorKind::UnknownHeader))
        };
        assert(line_outcome(ls, i as int, ps, pools_parsed(pools@), 0, r, notes_view(old(notes)@), notes_view(notes@)));
        r
    }
}

fn blank_line_exec(lines: &Vec<Vec<char>>, i: usize) -> (r: Result<usize, Error>)
    requires
        i < lines@.len(),
    ensures
        r matches Ok(j) ==> forall|ps: Seq<ParsedPool>|
            #[trigger] blank_line(lines_view(lines@), i as int, ps) == Ok::<
                (int, ParseState, Seq<Seq<char>>),
                Failure,
            >((j as int, ParseState { section: Section::Devices, pools: ps }, seq![])),
        r matches Err(e) ==> forall|ps: Seq<ParsedPool>|
            #[trigger] blank_line(lines_view(lines@), i as int, ps) == Err::<
                (int, ParseState, Seq<Seq<char>>),
                Failure,
            >(e@),
{
    let l = &lines[i];
    let (a, b) = trim_exec(l, 0, l.len());
    assert(l@.subrange(0, l@.len() as int) =~= l@);
    if a != b {
        return Err(make_error(lines, i, ErrorKind::MissingBlankForDevices));
    }
    let count = lines.len();
    assert(i < count);
    if i + 1 >= count {
        return Err(make_error(lines, i, ErrorKind::MissingDeviceTableLabels));
    }
    let next = &lines[i + 1];
    let labels = starts_with_str(next, 0, next.len(), "\tNAME ");
    assert(next@.subrange(0, next@.len() as int) =~= next@);
    if labels {
        Ok(i + 2)
    } else {
        Err(make_error(lines, i, ErrorKind::InvalidDeviceTableLabels))
    }
}

fn device_line_exec(
    lines: &Vec<Vec<char>>,
    i: usize,
    pools: &mut Vec<PoolMetrics>,
    notes: &mut Vec<String>,
) -> (r: Result<Section, Error>)
    requires
        i < lines@.len(),
    ensures
        r matches Ok(sec) ==> device_line(lines_view(lines@), i as int, pools_parsed(old(pools)@))
            matches Ok((j2, st2, n)) && j2 == i + 1 && st2 == (ParseState {
            section: sec,
            pools: pools_parsed(final(pools)@),
        }) && notes_view(final(notes)@) == notes_view(old(notes)@) + n,
        r matches Err(e) ==> device_line(lines_view(lines@), i as int, pools_parsed(old(pools)@))
            == Err::<(int, ParseState, Seq<Seq<char>>), Failure>(e@),
        forall|utc: bool| offsets_fit(old(pools)@, utc) ==> offsets_fit(final(pools)@, utc),
{
    let ghost ls = lines_view(lines@);
    let ghost ps = pools_parsed(pools@);
    let l = &lines[i];
    let (a, b) = trim_exec(l, 0, l.len());
    assert(l@.subrange(0, l@.len() as int) =~= l@);
    let row = l.len() > 0 && l[0] == '\t';
    if !row || a == b {
        if a != b {
            let shown = debug_quote(string_from_chars(l).as_str());
            let mut note = chars_of("ignoring line interrupting devices table: ");
            push_str(&mut note, shown.as_str());
            let text = string_from_chars(&note);
            notes.push(text);
            assert(notes_view(notes@) =~= notes_view(old(notes)@) + seq![interrupt_note(ls[i as int])]);
        } else {
            assert(notes_view(notes@) =~= notes_view(old(notes)@) + Seq::<Seq<char>>::empty());
        }
        return Ok(Section::Header);
    }
    let mut pool = match pools.pop() {
        Some(p) => p,
        None => {
            assert(notes_view(notes@) =~= notes_view(old(notes)@) + Seq::<Seq<char>>::empty());
            return Ok(Section::Devices);
        },
    };
    assert(ps.last() == pool.parsed());
    match parse_row_exec(l, notes) {
        Ok(d) => {
            pool.devices.push(d);
            assert(pool.parsed().devices =~= ps.last().devices.push(d@));
            pools.push(pool);
            assert(pools_parsed(pools@) =~= add_device(ps, d@));
            Ok(Section::Devices)
        },
        Err(e) => Err(make_error(lines, i, ErrorKind::DeviceMetrics(e))),
    }
}

/// Extracts the pools from the output of `zpool status`, in input order.
/// Timestamps of `scan:` lines are placed in the zone `tz` (`None`: UTC).
/// Each text that matches no known token adds one diagnostic line to
/// `notes`.
///
/// The result is what `parse_text` gives for the zone offsets that jiff
/// returned for the `scan:` lines: offsets that jiff can return, all zero in
/// UTC.
pub fn parse_zfs_metrics(input: &str, tz: &Option<jiff::tz::TimeZone>, notes: &mut Vec<String>) -> (r:
    Result<Vec<PoolMetrics>, Error>)
    ensures
        exists|offs: spec_fn(int) -> int|
            offsets_allowed(offs, tz is None) && #[trigger] parse_outcome(
                input@,
                offs,
                r,
                notes_view(old(notes)@),
                notes_view(final(notes)@),
            ),
        r matches Ok(p) ==> offsets_fit(p@, tz is None),
{
    let chars = chars_of(input);
    let lines = split_lines(&chars);
    let ghost ls = lines_view(lines@);
    let ghost acc: Seq<Seq<char>> = seq![];
    let ghost utc = tz is None;
    let ghost mut cur: spec_fn(int) -> int = |k: int| 0int;
    let mut pools: Vec<PoolMetrics> = Vec::new();
    let mut section = Section::Header;
    let mut i: usize = 0;
    assert(pools_parsed(pools@) =~= Seq::<ParsedPool>::empty());
    assert(notes_view(notes@) =~= notes_view(old(notes)@) + acc);
    assert(offsets_allowed(cur, utc));
    while i < lines.len()
        invariant
            ls == lines_view(lines@),
            ls == lines_of(input@),
            i <= lines@.len(),
            utc == (tz is None),
            notes_view(notes@) == notes_view(old(notes)@) + acc,
            offsets_fit(pools@, utc),
            offsets_allowed(cur, utc),
            forall|offs: spec_fn(int) -> int|
                agree(offs, cur, i as int) ==> #[trigger] parse_text(input@, offs) == after_notes(
                    acc,
                    run(ls, i as int, ParseState { section, pools: pools_parsed(pools@) }, offs),
                ),
        decreases lines@.len() - i,
    {
        let ghost st = ParseState { section, pools: pools_parsed(pools@) };
        let ghost before = notes_view(notes@);
        let ghost old_cur = cur;
        let ghost old_acc = acc;
        match section {
            Section::Header => {
                let res = header_line_exec(&lines, i, &mut pools, tz, notes);
                let ghost o = choose|o: int| offset_allowed(o, utc) && #[trigger] line_outcome(
                    ls,
                    i as int,
                    st.pools,
                    pools_parsed(pools@),
                    o,
                    res,
                    before,
                    notes_view(notes@),
                );
                proof {
                    cur = |k: int| if k == i { o } else { old_cur(k) };
                    lemma_cont_end_bounds(ls, i as int);
                }
                match res {
                    Ok((j, sec)) => {
                        proof {
                            let n = match header_line(ls, i as int, st.pools, o) {
                                Ok((_, _, n)) => n,
                                Err(_) => seq![],
                            };
                            let st2 = ParseState { section: sec, pools: pools_parsed(pools@) };
                            assert forall|offs: spec_fn(int) -> int|
                                agree(offs, cur, j as int) implies #[trigger] parse_text(input@, offs)
                                == after_notes(acc + n, run(ls, j as int, st2, offs)) by {
                                assert(agree(offs, old_cur, i as int));
                                assert(offs(i as int) == o);
                                assert(run(ls, i as int, st, offs) == match run(ls, j as int, st2, offs) {
                                    Err(e) => Err(e),
                                    Ok((p, n2)) => Ok((p, n + n2)),
                                });
                                lemma_after_notes(acc, n, run(ls, j as int, st2, offs));
                            }
                            acc = acc + n;
                        }
                        section = sec;
                        i = j;
                    },
                    Err(e) => {
                        proof {
                            assert(agree(cur, old_cur, i as int));
                            assert(run(ls, i as int, st, cur) == Err::<(Seq<ParsedPool>, Seq<Seq<char>>), Failure>(e@));
                            assert(parse_outcome(input@, cur, Err::<Vec<PoolMetrics>, Error>(e), notes_view(old(notes)@), notes_view(notes@)));
                        }
                        return Err(e);
                    },
                }
            },
            Section::BlankBeforeDevices => {
                match blank_line_exec(&lines, i) {
                    Ok(j) => {
                        proof {
                            let ps = pools_parsed(pools@);
                            assert(blank_line(ls, i as int, ps) == Ok::<
                                (int, ParseState, Seq<Seq<char>>),
                                Failure,
                            >((j as int, ParseState { section: Section::Devices, pools: ps }, seq![])));
                            let st2 = ParseState { section: Section::Devices, pools: ps };
                            assert forall|offs: spec_fn(int) -> int|
                                agree(offs, cur, j as int) implies #[trigger] parse_text(input@, offs)
                                == after_notes(acc, run(ls, j as int, st2, offs)) by {
                                assert(agree(offs, cur, i as int));
                                lemma_after_notes(acc, seq![], run(ls, j as int, st2, offs));
                                assert(acc + Seq::<Seq<char>>::empty() =~= acc);
                            }
                        }
                        section = Section::Devices;
                        i = j;
                    },
                    Err(e) => {
                        proof {
                            assert(agree(cur, cur, i as int));
                            assert(parse_outcome(input@, cur, Err::<Vec<PoolMetrics>, Error>(e), notes_view(old(notes)@), notes_view(notes@)));
                        }
                        return Err(e);
                    },
                }
            },
            Section::Devices => {
                match device_line_exec(&lines, i, &mut pools, notes) {
                    Ok(sec) => {
                        proof {
                            let n = match device_line(ls, i as int, st.pools) {
                                Ok((_, _, n)) => n,
                                Err(_) => seq![],
                            };
                            let st2 = ParseState { section: sec, pools: pools_parsed(pools@) };
                            assert forall|offs: spec_fn(int) -> int|
                                agree(offs, cur, i + 1) implies #[trigger] parse_text(input@, offs)
                                == after_notes(acc + n, run(ls, i + 1, st2, offs)) by {
                                assert(agree(offs, cur, i as int));
                                assert(run(ls, i as int, st, offs) == match run(ls, i + 1, st2, offs) {
                                    Err(e) => Err(e),
                                    Ok((p, n2)) => Ok((p, n + n2)),
                                });
                                lemma_after_notes(acc, n, run(ls, i + 1, st2, offs));
                            }
                            acc = acc + n;
                        }
                        section = sec;
                        i = i + 1;
                    },
                    Err(e) => {
                        proof {
                            assert(agree(cur, cur, i as int));
                            assert(parse_outcome(input@, cur, Err::<Vec<PoolMetrics>, Error>(e), notes_view(old(notes)@), notes_view(notes@)));
                        }
                        return Err(e);
                    },
                }
            },
        }
    }
    proof {
        assert(agree(cur, cur, i as int));
        assert(acc + Seq::<Seq<char>>::empty() =~= acc);
        assert(parse_outcome(input@, cur, Ok::<Vec<PoolMetrics>, Error>(pools), notes_view(old(notes)@), notes_view(notes@)));
    }
    Ok(pools)
}

/// `offs` and `cur` agree on the lines before `i`.
pub open spec fn agree(offs: spec_fn(int) -> int, cur: spec_fn(int) -> int, i: int) -> bool {
    forall|k: int| 0 <= k < i ==> #[trigger] offs(k) == cur(k)
}

/// What parsing `s` returned, with `scan:` lines placed at offsets `offs`,
/// given the diagnostic lines before and after.
pub open spec fn parse_outcome(
    s: Seq<char>,
    offs: spec_fn(int) -> int,
    r: Result<Vec<PoolMetrics>, Error>,
    before: Seq<Seq<char>>,
    after: Seq<Seq<char>>,
) -> bool {
    match r {
        Ok(p) => parse_text(s, offs) matches Ok((ps, n)) && ps == pools_parsed(p@) && after
            == before + n,
        Err(e) => parse_text(s, offs) == Err::<(Seq<ParsedPool>, Seq<Seq<char>>), Failure>(e@),
    }
}

pub proof fn lemma_after_notes(
    acc: Seq<Seq<char>>,
    n: Seq<Seq<char>>,
    r: Result<(Seq<ParsedPool>, Seq<Seq<char>>), Failure>,
)
    ensures
        after_notes(acc, match r {
            Err(e) => Err(e),
            Ok((p, n2)) => Ok((p, n + n2)),
        }) == after_notes(acc + n, r),
{
    match r {
        Ok((p, n2)) => {
            assert(acc + (n + n2) =~= acc + n + n2);
        },
        Err(_) => {},
    }
}

/// A header line with its continuations begins with the line itself.
pub proof fn lemma_joined_prefix(lines: Seq<Seq<char>>, i: int, j: int)
    requires
        0 <= i < j <= lines.len(),
    ensures
        joined(lines, i, j).len() >= lines[i].len(),
        forall|k: int| 0 <= k < lines[i].len() ==> #[trigger] joined(lines, i, j)[k] == lines[i][k],
    decreases j - i,
{
    if j > i + 1 {
        lemma_joined_prefix(lines, i, j - 1);
    }
}

} // verus!
