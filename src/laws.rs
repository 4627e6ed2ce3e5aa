//! Properties that hold of every input, proved over the specifications of
//! the parser and the formatter.
use vstd::prelude::*;
use crate::error::{DeviceFailure, DeviceFault, Failure, Fault, HeaderFault, Previous};
use crate::fmt::{
    device_block, device_blocks, device_name_of, lookup_block, path_after,
    device_sections, pool_block, pool_blocks, pool_name_of, pool_sections, render, render_ratio,
    DeviceSections, PoolSections,
};
use crate::header::{header_step, Section};
use crate::meta::{device_code, error_code, pool_status_code, scan_code};
use crate::parse::{
    cont_end, joined, lemma_cont_end_bounds, lemma_joined_prefix, parse_text, run, split_label,
    step, tab_led, ParseState,
};
use crate::row::{cell, parse_row, parse_u32};
use crate::text::{
    dec, find_char, lemma_find_char_agree, lemma_find_char_bounds, lemma_find_char_extend,
    lemma_skip_spaces_bounds, lemma_trimmed_agree, lines_of, skip_spaces, trim, trimmed,
};
use crate::zfs::{
    device_status_of, error_status_of, pool_status_of, scan_status_of, unrecognized_note,
    DeviceStatus, DeviceView, ErrorStatus, ParsedPool, PoolMetrics, PoolStatusDescription,
    ScanStatus,
};

verus! {

/// Text that the parser maps to `Unrecognized` is reported with code 1, in
/// every category, and a field that the text left out is reported with
/// code 0; the formatter writes these codes as `1` and `0`.
pub proof fn lemma_unrecognized_and_missing_codes(s: Seq<char>)
    ensures
        device_status_of(s) == DeviceStatus::Unrecognized ==> device_code(
            Some(device_status_of(s)),
        ) == 1,
        pool_status_of(s) == PoolStatusDescription::Unrecognized ==> pool_status_code(
            Some(pool_status_of(s)),
        ) == 1,
        scan_status_of(s) == ScanStatus::Unrecognized ==> scan_code(Some(scan_status_of(s))) == 1,
        error_status_of(s) == ErrorStatus::Unrecognized ==> error_code(Some(error_status_of(s)))
            == 1,
        device_code(None) == 0,
        pool_status_code(None) == 0,
        scan_code(None) == 0,
        error_code(None) == 0,
        render_ratio(1, 1) == seq!['1'],
        render_ratio(0, 1) == seq!['0'],
{
    assert(dec(1) == seq![(48 + 1) as char]);
    assert(dec(0) == seq![(48 + 0) as char]);
    assert(Seq::<char>::empty() + seq!['1'] =~= seq!['1']);
    assert(Seq::<char>::empty() + seq!['0'] =~= seq!['0']);
}

/// Empty input yields no pools and no diagnostic lines, and a document
/// without pools is the single comment line (followed by the lookup block
/// only when a duration is given).
pub proof fn lemma_empty_input(now_s: i64, now_ns: u32, offs: spec_fn(int) -> int)
    ensures
        parse_text(seq![], offs) == Ok::<(Seq<ParsedPool>, Seq<Seq<char>>), Failure>(
            (seq![], seq![]),
        ),
        render(Seq::<PoolMetrics>::empty(), now_s, now_ns, None) == "# no pools reported\n"@,
{
    assert(lines_of(seq![]) =~= Seq::<Seq<char>>::empty());
    assert("# no pools reported\n"@ + Seq::<char>::empty() =~= "# no pools reported\n"@);
}

/// A second `state:` line within a pool is refused, naming the state that
/// the first one set.
pub proof fn lemma_duplicate_state(pool: ParsedPool, content: Seq<char>, offset: int)
    requires
        pool.state is Some,
    ensures
        header_step(pool, "state"@, content, offset) == Err::<
            (ParsedPool, Option<Section>, Seq<Seq<char>>),
            HeaderFault,
        >(HeaderFault::DuplicateEntry { previous: Previous::State(pool.state->0) }),
{
    reveal_strlit("state");
    reveal_strlit("status");
    assert("state"@ != "status"@) by {
        assert("state"@.len() != "status"@.len());
    }
}

/// A `status:` narrative that matches no known prefix is no error: the pool
/// gets `Unrecognized` (code 1) and one diagnostic line names the text.
pub proof fn lemma_unrecognized_status_is_kept(pool: ParsedPool, content: Seq<char>, offset: int)
    requires
        pool.pool_status is None,
        pool_status_of(content) == PoolStatusDescription::Unrecognized,
    ensures
        header_step(pool, "status"@, content, offset) == Ok::<
            (ParsedPool, Option<Section>, Seq<Seq<char>>),
            HeaderFault,
        >(
            (
                ParsedPool { pool_status: Some(PoolStatusDescription::Unrecognized), ..pool },
                None,
                seq![unrecognized_note("PoolStatusDescription"@, content)],
            ),
        ),
        pool_status_code(Some(PoolStatusDescription::Unrecognized)) == 1,
{
}

/// Leading spaces after the tab of a device row.
pub open spec fn leading_spaces(l: Seq<char>) -> int {
    skip_spaces(l, 1, l.len() as int) - 1
}

/// The depth of a device row is half its leading spaces, rounded down.
pub proof fn lemma_row_depth(l: Seq<char>)
    requires
        parse_row(l) is Ok,
    ensures
        parse_row(l)->Ok_0.0.depth == leading_spaces(l) / 2,
{
    lemma_find_char_bounds(l, '\t', 0, l.len() as int);
    lemma_skip_spaces_bounds(l, 1, l.len() as int);
}

/// A row whose counters are all present, and whose read and write counters
/// parse, fails on a checksum cell that is not a counter with
/// `InvalidCount` carrying that cell's text.
pub proof fn lemma_invalid_checksum_cell(l: Seq<char>)
    requires
        find_char(l, '\t', 0, l.len() as int) == 0,
        cell(l, skip_spaces(l, 1, l.len() as int)) is Some,
        ({
            let name = cell(l, skip_spaces(l, 1, l.len() as int))->Some_0;
            let state = cell(l, name.1);
            &&& state is Some
            &&& cell(l, state->Some_0.1) is Some
            &&& parse_u32(l.subrange(cell(l, state->Some_0.1)->Some_0.0, cell(l, state->Some_0.1)->Some_0.1)) is Some
            &&& cell(l, cell(l, state->Some_0.1)->Some_0.1) is Some
            &&& parse_u32(l.subrange(cell(l, cell(l, state->Some_0.1)->Some_0.1)->Some_0.0, cell(l, cell(l, state->Some_0.1)->Some_0.1)->Some_0.1)) is Some
            &&& cell(l, cell(l, cell(l, state->Some_0.1)->Some_0.1)->Some_0.1) is Some
        }),
    ensures
        ({
            let name = cell(l, skip_spaces(l, 1, l.len() as int))->Some_0;
            let state = cell(l, name.1)->Some_0;
            let read = cell(l, state.1)->Some_0;
            let write = cell(l, read.1)->Some_0;
            let checksum = cell(l, write.1)->Some_0;
            let text = l.subrange(checksum.0, checksum.1);
            parse_u32(text) is None ==> parse_row(l) == Err::<
                (DeviceView, Seq<Seq<char>>),
                DeviceFailure,
            >(
                DeviceFailure {
                    device_name: Some(l.subrange(name.0, name.1)),
                    kind: DeviceFault::InvalidCount { cell: text },
                },
            )
        }),
{
}

/// A row with a leading tab, then a name, a state and three counters that
/// parse, is taken, at depth half its leading spaces (rounded down).
pub proof fn lemma_well_formed_row_parses(l: Seq<char>)
    requires
        find_char(l, '\t', 0, l.len() as int) == 0,
        cell(l, skip_spaces(l, 1, l.len() as int)) is Some,
        ({
            let name = cell(l, skip_spaces(l, 1, l.len() as int))->Some_0;
            let state = cell(l, name.1);
            &&& state is Some
            &&& cell(l, state->Some_0.1) is Some
            &&& parse_u32(l.subrange(cell(l, state->Some_0.1)->Some_0.0, cell(l, state->Some_0.1)->Some_0.1)) is Some
            &&& cell(l, cell(l, state->Some_0.1)->Some_0.1) is Some
            &&& parse_u32(l.subrange(cell(l, cell(l, state->Some_0.1)->Some_0.1)->Some_0.0, cell(l, cell(l, state->Some_0.1)->Some_0.1)->Some_0.1)) is Some
            &&& cell(l, cell(l, cell(l, state->Some_0.1)->Some_0.1)->Some_0.1) is Some
            &&& parse_u32(l.subrange(cell(l, cell(l, cell(l, state->Some_0.1)->Some_0.1)->Some_0.1)->Some_0.0, cell(l, cell(l, cell(l, state->Some_0.1)->Some_0.1)->Some_0.1)->Some_0.1)) is Some
        }),
    ensures
        parse_row(l) is Ok,
        parse_row(l)->Ok_0.0.depth == leading_spaces(l) / 2,
{
    assert(parse_row(l) is Ok);
    lemma_row_depth(l);
}

/// Depths that grow by at most one from row to row, from a first row of
/// depth 0 or 1.
pub open spec fn well_nested(devs: Seq<DeviceView>) -> bool {
    forall|k: int|
        0 <= k < devs.len() ==> #[trigger] devs[k].depth <= (if k == 0 {
            0
        } else {
            devs[k - 1].depth as int
        }) + 1
}

/// On a well-nested device table, the `dev` label of each row has exactly
/// as many components as the row's depth.
pub proof fn lemma_path_has_depth_components(devs: Seq<DeviceView>, k: int)
    requires
        well_nested(devs),
        1 <= k <= devs.len(),
    ensures
        path_after(devs, k).len() == devs[k - 1].depth,
    decreases k,
{
    let prev = path_after(devs, k - 1);
    if k > 1 {
        lemma_path_has_depth_components(devs, k - 1);
    }
    assert(devs[k - 1].depth <= (if k - 1 == 0 {
        0
    } else {
        devs[k - 2].depth as int
    }) + 1);
}

/// A labeled header line (other than `pool:`) before any `pool:` line is
/// refused with `HeaderBeforePool`, on line 1, whatever follows it.
pub proof fn lemma_header_before_pool(s: Seq<char>, offs: spec_fn(int) -> int)
    requires
        lines_of(s).len() > 0,
        find_char(lines_of(s)[0], ':', 0, lines_of(s)[0].len() as int) < lines_of(s)[0].len(),
        trimmed(
            lines_of(s)[0],
            0,
            find_char(lines_of(s)[0], ':', 0, lines_of(s)[0].len() as int),
        ) != "pool"@,
    ensures
        parse_text(s, offs) == Err::<(Seq<ParsedPool>, Seq<Seq<char>>), Failure>(
            Failure {
                line: lines_of(s)[0],
                line_number: 1,
                kind: Fault::HeaderBeforePool {
                    label: trimmed(
                        lines_of(s)[0],
                        0,
                        find_char(lines_of(s)[0], ':', 0, lines_of(s)[0].len() as int),
                    ),
                },
            },
        ),
{
    let lines = lines_of(s);
    let l0 = lines[0];
    let k0 = find_char(l0, ':', 0, l0.len() as int);
    lemma_cont_end_bounds(lines, 0);
    let j = cont_end(lines, 0);
    let l = joined(lines, 0, j);
    lemma_joined_prefix(lines, 0, j);
    lemma_find_char_agree(l, l0, ':', 0, l0.len() as int);
    lemma_find_char_extend(l, ':', 0, l0.len() as int, l.len() as int);
    lemma_find_char_bounds(l0, ':', 0, l0.len() as int);
    lemma_trimmed_agree(l, l0, 0, k0);
    assert(split_label(l) == Some((trimmed(l0, 0, k0), trimmed(l, k0 + 1, l.len() as int))));
}

pub open spec fn pool_names(ps: Seq<ParsedPool>) -> Seq<Seq<char>> {
    ps.map_values(|p: ParsedPool| p.name)
}

/// The contents of the `pool:` header lines from line `i` on, in region
/// `sec`: the regions follow the driver's (a `config:` header opens the
/// device table, a blank or untabbed line closes it).
pub open spec fn pool_lines_from(lines: Seq<Seq<char>>, i: int, sec: Section) -> Seq<Seq<char>>
    decreases lines.len() - i,
{
    if 0 <= i < lines.len() {
        match sec {
            Section::Header => {
                let j = cont_end(lines, i);
                if i < j <= lines.len() {
                    match split_label(joined(lines, i, j)) {
                        Some((label, content)) => (if label == "pool"@ {
                            seq![content]
                        } else {
                            seq![]
                        }) + pool_lines_from(
                            lines,
                            j,
                            if label == "config"@ {
                                Section::BlankBeforeDevices
                            } else {
                                Section::Header
                            },
                        ),
                        None => pool_lines_from(lines, j, Section::Header),
                    }
                } else {
                    seq![]
                }
            },
            Section::BlankBeforeDevices => if i + 2 <= lines.len() {
                pool_lines_from(lines, i + 2, Section::Devices)
            } else {
                seq![]
            },
            Section::Devices => pool_lines_from(
                lines,
                i + 1,
                if !tab_led(lines[i]) || trim(lines[i]).len() == 0 {
                    Section::Header
                } else {
                    Section::Devices
                },
            ),
        }
    } else {
        seq![]
    }
}

/// A header line that is taken keeps the pool's name, and moves to the
/// device table exactly when it is `config:`.
pub proof fn lemma_header_step_keeps_name(
    pool: ParsedPool,
    label: Seq<char>,
    content: Seq<char>,
    offset: int,
)
    ensures
        header_step(pool, label, content, offset) matches Ok((p, next, _)) ==> p.name == pool.name && next
            == (if label == "config"@ {
            Some(Section::BlankBeforeDevices)
        } else {
            None::<Section>
        }),
{
    reveal_strlit("status");
    reveal_strlit("state");
    reveal_strlit("scan");
    reveal_strlit("config");
    reveal_strlit("errors");
    reveal_strlit("action");
    reveal_strlit("see");
    if label == "status"@ || label == "state"@ || label == "scan"@ || label == "errors"@ {
        assert(label != "config"@) by {
            if label == "status"@ {
                assert(label[1] != "config"@[1]);
            } else if label == "state"@ {
                assert(label[1] != "config"@[1]);
            } else if label == "scan"@ {
                assert(label.len() != "config"@.len());
            } else {
                assert(label[0] != "config"@[0]);
            }
        }
    }
}

pub proof fn lemma_run_pool_names(
    lines: Seq<Seq<char>>,
    i: int,
    st: ParseState,
    offs: spec_fn(int) -> int,
)
    ensures
        run(lines, i, st, offs) matches Ok((ps, _)) ==> pool_names(ps) == pool_names(st.pools)
            + pool_lines_from(lines, i, st.section),
    decreases lines.len() - i,
{
    if 0 <= i < lines.len() {
        if let Ok((j, st2, n)) = step(lines, i, st, offs) {
            if st.section == Section::Header {
                lemma_cont_end_bounds(lines, i);
            }
            if i < j <= lines.len() {
                lemma_run_pool_names(lines, j, st2, offs);
                match st.section {
                    Section::Header => {
                        let l = joined(lines, i, j);
                        if let Some((label, content)) = split_label(l) {
                            reveal_strlit("pool");
                            reveal_strlit("config");
                            if label == "pool"@ {
                                assert(label != "config"@) by {
                                    assert(label[0] != "config"@[0]);
                                }
                                assert(pool_names(st2.pools) =~= pool_names(st.pools) + seq![
                                    content,
                                ]);
                                assert(pool_names(st.pools) + seq![content] + pool_lines_from(
                                    lines,
                                    j,
                                    Section::Header,
                                ) =~= pool_names(st.pools) + (seq![content] + pool_lines_from(
                                    lines,
                                    j,
                                    Section::Header,
                                )));
                            } else {
                                lemma_header_step_keeps_name(st.pools.last(), label, content, offs(i));
                                assert(pool_names(st2.pools) =~= pool_names(st.pools));
                                assert(Seq::<Seq<char>>::empty() + pool_lines_from(
                                    lines,
                                    j,
                                    st2.section,
                                ) =~= pool_lines_from(lines, j, st2.section));
                            }
                        }
                    },
                    Section::BlankBeforeDevices => {},
                    Section::Devices => {
                        assert(pool_names(st2.pools) =~= pool_names(st.pools));
                    },
                }
            }
        }
    } else {
        assert(pool_names(st.pools) + Seq::<Seq<char>>::empty() =~= pool_names(st.pools));
    }
}

/// Every pool named by a `pool:` header line appears in the parsed model,
/// in input order, with the same name, and no other pool does.
pub proof fn lemma_pools_in_input_order(s: Seq<char>, offs: spec_fn(int) -> int)
    ensures
        parse_text(s, offs) matches Ok((ps, _)) ==> pool_names(ps) == pool_lines_from(
            lines_of(s),
            0,
            Section::Header,
        ),
{
    let st = ParseState { section: Section::Header, pools: seq![] };
    lemma_run_pool_names(lines_of(s), 0, st, offs);
    assert(pool_names(st.pools) =~= Seq::<Seq<char>>::empty());
    assert(Seq::<Seq<char>>::empty() + pool_lines_from(lines_of(s), 0, Section::Header) =~= pool_lines_from(lines_of(s), 0, Section::Header));
}

/// Name of each metric block, in document order.
pub open spec fn block_names() -> Seq<Seq<char>> {
    seq![
        pool_name_of(PoolSections::PoolState),
        pool_name_of(PoolSections::PoolStatusDescription),
        pool_name_of(PoolSections::ScanState),
        pool_name_of(PoolSections::ScanAge),
        pool_name_of(PoolSections::ErrorState),
        device_name_of(DeviceSections::State),
        device_name_of(DeviceSections::ErrorsRead),
        device_name_of(DeviceSections::ErrorsWrite),
        device_name_of(DeviceSections::ErrorsChecksum),
        "lookup"@,
    ]
}

/// A document with pools is one block per metric, in a fixed order, each
/// opening with its own `# HELP` and `# TYPE` lines followed by value lines
/// only; the blocks' metric names are pairwise distinct, so each metric has
/// exactly one `# HELP` and one `# TYPE` line.
pub proof fn lemma_one_block_per_metric(pools: Seq<PoolMetrics>, now_s: i64, now_ns: u32, lookup: Option<u128>)
    requires
        pools.len() > 0,
    ensures
        render(pools, now_s, now_ns, lookup) == pool_block(PoolSections::PoolState, pools, now_s, now_ns)
            + pool_block(PoolSections::PoolStatusDescription, pools, now_s, now_ns) + pool_block(
            PoolSections::ScanState,
            pools,
            now_s,
            now_ns,
        ) + pool_block(PoolSections::ScanAge, pools, now_s, now_ns) + pool_block(
            PoolSections::ErrorState,
            pools,
            now_s,
            now_ns,
        ) + device_block(DeviceSections::State, pools) + device_block(
            DeviceSections::ErrorsRead,
            pools,
        ) + device_block(DeviceSections::ErrorsWrite, pools) + device_block(
            DeviceSections::ErrorsChecksum,
            pools,
        ) + lookup_block(lookup),
        forall|a: int, b: int|
            0 <= a < b < block_names().len() ==> block_names()[a] != block_names()[b],
{
    lemma_block_names_distinct();
    let b0 = pool_block(PoolSections::PoolState, pools, now_s, now_ns);
    let b1 = pool_block(PoolSections::PoolStatusDescription, pools, now_s, now_ns);
    let b2 = pool_block(PoolSections::ScanState, pools, now_s, now_ns);
    let b3 = pool_block(PoolSections::ScanAge, pools, now_s, now_ns);
    let b4 = pool_block(PoolSections::ErrorState, pools, now_s, now_ns);
    let d0 = device_block(DeviceSections::State, pools);
    let d1 = device_block(DeviceSections::ErrorsRead, pools);
    let d2 = device_block(DeviceSections::ErrorsWrite, pools);
    let d3 = device_block(DeviceSections::ErrorsChecksum, pools);
    assert(pool_sections()[0] == PoolSections::PoolState);
    assert(pool_sections()[1] == PoolSections::PoolStatusDescription);
    assert(pool_sections()[2] == PoolSections::ScanState);
    assert(pool_sections()[3] == PoolSections::ScanAge);
    assert(pool_sections()[4] == PoolSections::ErrorState);
    assert(device_sections()[0] == DeviceSections::State);
    assert(device_sections()[1] == DeviceSections::ErrorsRead);
    assert(device_sections()[2] == DeviceSections::ErrorsWrite);
    assert(device_sections()[3] == DeviceSections::ErrorsChecksum);
    assert(pool_blocks(pools, 0, now_s, now_ns) == Seq::<char>::empty());
    assert(device_blocks(pools, 0) == Seq::<char>::empty());
    assert(pool_blocks(pools, 1, now_s, now_ns) =~= b0);
    assert(pool_blocks(pools, 2, now_s, now_ns) =~= b0 + b1);
    assert(pool_blocks(pools, 3, now_s, now_ns) =~= b0 + b1 + b2);
    assert(pool_blocks(pools, 4, now_s, now_ns) =~= b0 + b1 + b2 + b3);
    assert(pool_blocks(pools, 5, now_s, now_ns) =~= b0 + b1 + b2 + b3 + b4);
    assert(device_blocks(pools, 1) =~= d0);
    assert(device_blocks(pools, 2) =~= d0 + d1);
    assert(device_blocks(pools, 3) =~= d0 + d1 + d2);
    assert(device_blocks(pools, 4) =~= d0 + d1 + d2 + d3);
}

proof fn lemma_block_names_distinct()
    ensures
        forall|a: int, b: int|
            0 <= a < b < block_names().len() ==> block_names()[a] != block_names()[b],
{
    reveal_strlit("pool_state");
    reveal_strlit("pool_status_desc");
    reveal_strlit("scan_state");
    reveal_strlit("scan_age");
    reveal_strlit("error_state");
    reveal_strlit("dev_state");
    reveal_strlit("dev_errors_read");
    reveal_strlit("dev_errors_write");
    reveal_strlit("dev_errors_checksum");
    reveal_strlit("lookup");
    let n = block_names();
    assert forall|a: int, b: int| 0 <= a < b < n.len() implies n[a] != n[b] by {
        if n[a].len() == n[b].len() {
            assert(n[a][0] != n[b][0] || n[a][4] != n[b][4]);
        }
    }
}

pub proof fn lemma_run_failure_line(
    lines: Seq<Seq<char>>,
    i: int,
    st: ParseState,
    offs: spec_fn(int) -> int,
)
    ensures
        run(lines, i, st, offs) matches Err(f) ==> 1 <= f.line_number <= lines.len() && f.line
            == lines[f.line_number - 1],
    decreases lines.len() - i,
{
    if 0 <= i < lines.len() {
        if let Ok((j, st2, _)) = step(lines, i, st, offs) {
            if i < j <= lines.len() {
                lemma_run_failure_line(lines, j, st2, offs);
            }
        }
    }
}

/// Every failure names a line of the input by its 1-based number, and
/// carries that line's text.
pub proof fn lemma_failure_names_its_line(s: Seq<char>, offs: spec_fn(int) -> int)
    ensures
        parse_text(s, offs) matches Err(f) ==> 1 <= f.line_number <= lines_of(s).len() && f.line
            == lines_of(s)[f.line_number - 1],
{
    lemma_run_failure_line(
        lines_of(s),
        0,
        ParseState { section: Section::Header, pools: seq![] },
        offs,
    );
}

} // verus!
