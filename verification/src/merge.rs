//! The fold of several tables into one merged table.
//!
//! The tables are folded in one at a time, in order. Every row that the
//! output holds when a table's turn begins looks for its match among the rows
//! of that table; a match is written into the row, and the rest of the table
//! is appended or dropped as the join mode says. The accumulator decides;
//! its caller measures: for each lookup it is handed the proxies of the
//! candidates, and for each candidate picked, the measurement between the row
//! and that candidate.
use vstd::prelude::*;
use crate::data_frame::{texts, DataFrame, Table};
use crate::error::ConfigError;
use crate::matching::{
    confirm_match, confirmed, select_candidate, selected_row, selection_is_eligible, Lookup,
    MatchCandidate, Selection,
};

verus! {

/// Which rows without a match survive a merge.
#[derive(Clone, Copy, Debug, PartialEq, Eq, Structural)]
pub enum MatchMode {
    /// The rows of the first table, each with whatever matched it.
    Left,
    /// The rows that were matched at least once.
    Inner,
    /// Every row of every table.
    Outer,
}

/// What the caller measured between a row of the output and the candidate
/// picked for it.
#[derive(Clone, Debug)]
pub struct Measurement {
    /// The great-circle distance between the two, as the bit pattern of a
    /// double, in the unit of the radius.
    pub distance: u64,
    /// That distance written out in decimal.
    pub distance_text: String,
    /// The mean of the two latitudes.
    pub lat: u64,
    /// The mean of the two longitudes.
    pub lng: u64,
}

/// The lookup that the accumulator waits for.
#[derive(Clone, Copy, Debug, PartialEq, Eq, Structural)]
pub struct Pending {
    /// The table whose rows are the candidates.
    pub table: usize,
    /// The row of the output that looks for a match.
    pub row: usize,
    /// The latitude of that row.
    pub lat: u64,
    /// The longitude of that row.
    pub lng: u64,
    /// The candidate picked for the row, where one awaits its measurement.
    pub candidate: Option<usize>,
}

/// What each table holds.
pub open spec fn views(tables: Seq<DataFrame>) -> Seq<Table> {
    Seq::new(tables.len(), |t: int| tables[t]@)
}

/// The number of output columns of the first `upto` tables: the output
/// column at which the slice of table `upto` begins.
pub open spec fn slice_start(tables: Seq<Table>, upto: int) -> nat
    decreases upto,
{
    if upto <= 0 {
        0
    } else {
        slice_start(tables, upto - 1) + tables[upto - 1].output_cols.len()
    }
}

/// The number of rows of the first `upto` tables.
pub open spec fn rows_upto(tables: Seq<Table>, upto: int) -> nat
    decreases upto,
{
    if upto <= 0 {
        0
    } else {
        rows_upto(tables, upto - 1) + tables[upto - 1].rows
    }
}

/// The output headers of the first `upto` tables, in table order.
pub open spec fn headers_upto(tables: Seq<Table>, upto: int) -> Seq<Seq<char>>
    decreases upto,
{
    if upto <= 0 {
        Seq::empty()
    } else {
        headers_upto(tables, upto - 1) + tables[upto - 1].output_headers()
    }
}

/// The number of flags that are set.
pub open spec fn count_true(flags: Seq<bool>) -> nat
    decreases flags.len(),
{
    if flags.len() == 0 {
        0
    } else {
        count_true(flags.drop_last()) + if flags.last() {
            1nat
        } else {
            0nat
        }
    }
}

/// The number of columns that the mode adds: one for the distance of a
/// match, under `Left`.
pub open spec fn extra_columns(mode: MatchMode) -> nat {
    if mode == MatchMode::Left {
        1
    } else {
        0
    }
}

/// The number of columns of the merged table.
pub open spec fn merged_width(tables: Seq<Table>, mode: MatchMode) -> nat {
    slice_start(tables, tables.len() as int) + extra_columns(mode)
}

/// The headers of the merged table: the output headers of each table, in
/// table order, and under `Left` a last column for the distance.
pub open spec fn merged_headers(tables: Seq<Table>, mode: MatchMode) -> Seq<Seq<char>> {
    if mode == MatchMode::Left {
        headers_upto(tables, tables.len() as int).push("distance"@)
    } else {
        headers_upto(tables, tables.len() as int)
    }
}

/// Whether every table is well formed and has its coordinates.
pub open spec fn all_ready(tables: Seq<Table>) -> bool {
    forall|t: int| 0 <= t < tables.len() ==> (#[trigger] tables[t]).ready_to_match()
}

/// Whether every table is well formed.
pub open spec fn all_wf(tables: Seq<Table>) -> bool {
    forall|t: int| 0 <= t < tables.len() ==> (#[trigger] tables[t]).wf()
}

/// Why a merge of these tables cannot begin, if it cannot: a table without
/// coordinates, no column to write, or more columns or rows than can be
/// indexed.
pub open spec fn refusal(tables: Seq<Table>, mode: MatchMode) -> Option<ConfigError> {
    if !all_ready(tables) {
        Some(ConfigError::NotReady)
    } else if merged_width(tables, mode) == 0 {
        Some(ConfigError::NoOutputColumns)
    } else if merged_width(tables, mode) > usize::MAX || rows_upto(tables, tables.len() as int)
        > usize::MAX {
        Some(ConfigError::TooLarge)
    } else {
        None
    }
}

/// Whether row `i` of a table is appended when the table's turn ends: unless
/// matching is exclusive and a match has consumed the row.
pub open spec fn is_left_over(written: Seq<bool>, exclusive: bool, i: int) -> bool {
    !exclusive || !written[i]
}

/// Row `i` of table `t` as a row of the merged table: the row's output cells
/// in the slice of the table, and blanks in every other column.
pub open spec fn padded_row(t: Table, i: int, col_index: int, width: nat) -> Seq<Seq<char>> {
    Seq::new(
        width,
        |c: int|
            if col_index <= c < col_index + t.output_cols.len() {
                t.output_row(i)[c - col_index]
            } else {
                Seq::empty()
            },
    )
}

/// The output after the rows left over among the first `upto` rows of `t`
/// were appended, each with its own coordinates.
pub open spec fn appended(
    out: Table,
    t: Table,
    written: Seq<bool>,
    exclusive: bool,
    col_index: int,
    upto: int,
) -> Table
    decreases upto,
{
    if upto <= 0 {
        out
    } else {
        let before = appended(out, t, written, exclusive, col_index, upto - 1);
        if is_left_over(written, exclusive, upto - 1) {
            before.with_row(
                padded_row(t, upto - 1, col_index, out.width()),
                t.lat->0[upto - 1],
                t.lng->0[upto - 1],
            )
        } else {
            before
        }
    }
}

/// The flags of the output rows once the output has `rows` rows: a new row
/// has not been matched.
pub open spec fn extended(mask: Seq<bool>, rows: nat) -> Seq<bool> {
    Seq::new(rows, |r: int| r < mask.len() && mask[r])
}

/// The output after row `row` was matched to row `c` of table `t`: the cells
/// of `c` stand in the slice of `t`, the distance in the last column where
/// there is one, and the coordinates are those given.
pub open spec fn recorded(
    out: Table,
    t: Table,
    col_index: int,
    row: int,
    c: int,
    distance: Option<Seq<char>>,
    lat: u64,
    lng: u64,
) -> Table {
    Table {
        columns: Seq::new(
            out.columns.len(),
            |k: int|
                if col_index <= k < col_index + t.output_cols.len() {
                    out.columns[k].update(row, t.output_row(c)[k - col_index])
                } else if distance is Some && k == out.columns.len() - 1 {
                    out.columns[k].update(row, distance->0)
                } else {
                    out.columns[k]
                },
        ),
        lat: Some(out.lat->0.update(row, lat)),
        lng: Some(out.lng->0.update(row, lng)),
        ..out
    }
}

/// The distance that a match is written with: `0` for an exact match, and
/// what was measured for any other.
pub open spec fn written_distance(selection: Selection, measured: Seq<char>) -> Seq<char> {
    if selection is Exact {
        "0"@
    } else {
        measured
    }
}

/// A merge in progress, as mathematical values.
pub struct MergeView {
    /// The tables to fold in, in order.
    pub tables: Seq<Table>,
    pub mode: MatchMode,
    pub exclusive: bool,
    /// The radius, as the bit pattern of a double.
    pub radius: u64,
    /// The merged table so far.
    pub output: Table,
    /// For each row of the output, whether it was ever matched.
    pub match_mask: Seq<bool>,
    /// For each row of the table whose turn it is, whether a match has
    /// consumed it.
    pub written: Seq<bool>,
    /// The table whose turn it is; the number of tables once all are folded in.
    pub table: nat,
    /// The row of the output that looks for its match next.
    pub row: nat,
    /// The output column at which the slice of the current table begins.
    pub col_index: nat,
    /// The candidate picked for `row`, while its measurement is awaited.
    pub chosen: Selection,
    /// For each row that has had its lookup in this turn, the candidate that
    /// it was matched to.
    pub assigned: Seq<Option<usize>>,
    /// The number of rows of the tables whose turn is over.
    pub folded: nat,
    /// The number of matches made so far.
    pub merged: nat,
}

impl MergeView {
    /// Whether every table has had its turn.
    pub open spec fn finished(self) -> bool {
        self.table >= self.tables.len()
    }

    /// The table whose turn it is.
    pub open spec fn current(self) -> Table {
        self.tables[self.table as int]
    }

    /// Whether the turn of the current table is over: every row that the
    /// output held when it began has had its lookup.
    pub open spec fn turn_over(self) -> bool {
        self.row >= self.output.rows
    }

    /// The lookup of the row whose turn it is, given the proxies.
    pub open spec fn lookup(self, proxies: Seq<u64>) -> Lookup {
        Lookup {
            lat: self.output.lat->0[self.row as int],
            lng: self.output.lng->0[self.row as int],
            compare: self.output.compare_row(self.row as int),
            table: self.current(),
            written: self.written,
            exclusive: self.exclusive,
            proxies,
        }
    }

    /// Whether the rows of the current table are appended at the end of its
    /// turn: always for the first table, and for a later one unless the mode
    /// is `Left`.
    pub open spec fn appends(self) -> bool {
        self.mode != MatchMode::Left || self.table == 0
    }

    /// The merge before anything is folded in.
    pub open spec fn initial(tables: Seq<Table>, mode: MatchMode, exclusive: bool, radius: u64) -> MergeView {
        MergeView {
            tables,
            mode,
            exclusive,
            radius,
            output: Table::for_output(merged_headers(tables, mode)),
            match_mask: Seq::empty(),
            written: if tables.len() > 0 {
                Seq::new(tables[0].rows, |i: int| false)
            } else {
                Seq::empty()
            },
            table: 0,
            row: 0,
            col_index: 0,
            chosen: Selection::Unmatched,
            assigned: Seq::empty(),
            folded: 0,
            merged: 0,
        }
    }

    /// The merge after the turn of the current table has ended: its rows left
    /// over are appended where the mode has them appended, and the next
    /// table's turn begins with a fresh set of flags.
    pub open spec fn folded_in(self) -> MergeView {
        let t = self.current();
        let output = if self.appends() {
            appended(self.output, t, self.written, self.exclusive, self.col_index as int, t.rows as int)
        } else {
            self.output
        };
        let next = self.table + 1;
        MergeView {
            output,
            match_mask: extended(self.match_mask, output.rows),
            written: if next < self.tables.len() {
                Seq::new(self.tables[next as int].rows, |i: int| false)
            } else {
                Seq::empty()
            },
            table: next,
            row: 0,
            col_index: self.col_index + t.output_cols.len(),
            chosen: Selection::Unmatched,
            assigned: Seq::empty(),
            folded: self.folded + t.rows,
            ..self
        }
    }

    /// The merge once every turn that is over has ended: either a lookup is
    /// due, or the merge is finished.
    pub open spec fn settled(self) -> MergeView
        decreases self.tables.len() - self.table,
    {
        if self.finished() || !self.turn_over() {
            self
        } else {
            self.folded_in().settled()
        }
    }

    /// The merge right after the row whose turn it was found no match.
    pub open spec fn passed(self) -> MergeView {
        MergeView {
            row: self.row + 1,
            chosen: Selection::Unmatched,
            assigned: self.assigned.push(None),
            ..self
        }
    }

    /// The merge after the row whose turn it was found no match.
    pub open spec fn skipped(self) -> MergeView {
        self.passed().settled()
    }

    /// The merge after the row whose turn it was matched row `c` of the
    /// current table.
    pub open spec fn matched(self, c: usize, distance: Seq<char>, lat: u64, lng: u64) -> MergeView {
        self.marked(c, distance, lat, lng).settled()
    }

    /// The merge right after the row whose turn it was matched row `c` of
    /// the current table: the cells of `c` are written into the row, the row
    /// is flagged as matched, and `c` as consumed.
    pub open spec fn marked(self, c: usize, distance: Seq<char>, lat: u64, lng: u64) -> MergeView {
        MergeView {
            output: recorded(
                self.output,
                self.current(),
                self.col_index as int,
                self.row as int,
                c as int,
                if self.mode == MatchMode::Left {
                    Some(distance)
                } else {
                    None
                },
                lat,
                lng,
            ),
            match_mask: self.match_mask.update(self.row as int, true),
            written: self.written.update(c as int, true),
            row: self.row + 1,
            chosen: Selection::Unmatched,
            assigned: self.assigned.push(Some(c)),
            merged: self.merged + 1,
            ..self
        }
    }

    /// The merge after the candidates of the row whose turn it is were
    /// ranked: the candidate picked awaits its measurement, and where none
    /// was picked the row is done.
    pub open spec fn ranked(self, proxies: Seq<u64>) -> MergeView {
        let selection = self.lookup(proxies).selection();
        if selection is Unmatched {
            self.skipped()
        } else {
            MergeView { chosen: selection, ..self }
        }
    }

    /// The merge after the candidate picked was measured: it is a match
    /// unless it was picked as the nearest and lies beyond the radius.
    pub open spec fn measured(self, distance: u64, distance_text: Seq<char>, lat: u64, lng: u64) -> MergeView {
        match confirmed(self.chosen, distance, self.radius) {
            Some(found) => self.matched(
                found.row,
                written_distance(self.chosen, distance_text),
                lat,
                lng,
            ),
            None => self.skipped(),
        }
    }

    /// Whether row `r` of the output is written out: every row, but under
    /// `Inner` those only that were matched.
    pub open spec fn survives(self, r: int) -> bool {
        self.mode != MatchMode::Inner || self.match_mask[r]
    }

    /// The rows among the first `upto` of the output that are written out,
    /// in order.
    pub open spec fn survivors(self, upto: int) -> Seq<usize>
        decreases upto,
    {
        if upto <= 0 {
            Seq::empty()
        } else if self.survives(upto - 1) {
            self.survivors(upto - 1).push((upto - 1) as usize)
        } else {
            self.survivors(upto - 1)
        }
    }

    /// What the tables and the output must satisfy at every moment.
    pub open spec fn frame(self) -> bool {
        &&& all_wf(self.tables)
        &&& all_ready(self.tables)
        &&& rows_upto(self.tables, self.tables.len() as int) <= usize::MAX
        &&& merged_width(self.tables, self.mode) <= usize::MAX
        &&& self.output.wf()
        &&& self.output.ready_to_match()
        &&& self.output.width() == merged_width(self.tables, self.mode)
        &&& self.output.output_cols == Seq::new(self.output.width(), |c: int| c as usize)
        &&& self.output.headers == merged_headers(self.tables, self.mode)
        &&& self.output.prefix.len() == 0
        &&& self.match_mask.len() == self.output.rows
        &&& self.table <= self.tables.len()
        &&& self.col_index == slice_start(self.tables, self.table as int)
        &&& self.output.rows <= rows_upto(self.tables, self.table as int)
        &&& self.folded == rows_upto(self.tables, self.table as int)
        &&& self.assigned.len() == self.row
        &&& self.row <= self.output.rows
        &&& if self.finished() {
            self.written.len() == 0 && self.chosen is Unmatched && self.row == 0
        } else {
            &&& self.written.len() == self.current().rows
            &&& match selected_row(self.chosen) {
                Some(c) => c < self.current().rows && self.row < self.output.rows && (self.exclusive
                    ==> !self.written[c as int]),
                None => true,
            }
        }
        &&& self.table == 0 ==> self.output.rows == 0 && self.merged == 0 && forall|i: int|
            0 <= i < self.written.len() ==> !#[trigger] self.written[i]
    }

    /// With exclusive matching, no row of the current table was matched
    /// twice in this turn, and every row matched has its flag set.
    pub open spec fn no_candidate_twice(self) -> bool {
        self.exclusive ==> {
            &&& forall|r: int|
                0 <= r < self.assigned.len() && (#[trigger] self.assigned[r]) is Some ==> self.assigned[r]->0
                    < self.written.len() && self.written[self.assigned[r]->0 as int]
            &&& forall|r: int, s: int|
                0 <= r < s < self.assigned.len() && (#[trigger] self.assigned[r]) is Some ==> self.assigned[r]
                    != #[trigger] self.assigned[s]
        }
    }

    /// Under `Left`, once the first table is folded in, the output has the
    /// rows of the first table, row for row, and the slice of the first table
    /// holds their output cells.
    pub open spec fn keeps_first_table(self) -> bool {
        self.mode == MatchMode::Left && self.table >= 1 ==> {
            &&& self.output.rows == self.tables[0].rows
            &&& forall|r: int, k: int|
                0 <= r < self.tables[0].rows && 0 <= k < self.tables[0].output_cols.len()
                    ==> #[trigger] self.output.columns[k][r] == self.tables[0].output_row(r)[k]
        }
    }

    /// With exclusive matching and a mode that appends, every row folded in
    /// so far is in the output once: a row of its own, or merged into the
    /// row that it matched.
    pub open spec fn every_row_once(self) -> bool {
        self.exclusive && self.mode != MatchMode::Left ==> self.output.rows + self.merged
            == self.folded + count_true(self.written)
    }

    /// The invariant of a merge between two steps.
    pub open spec fn inv(self) -> bool {
        &&& self.frame()
        &&& self.no_candidate_twice()
        &&& self.keeps_first_table()
        &&& self.every_row_once()
    }

    /// The invariant of a merge that waits for its caller: every turn that is
    /// over has ended.
    pub open spec fn wf(self) -> bool {
        self.inv() && (self.finished() || !self.turn_over())
    }
}

/// A shorter prefix of the tables has no more output columns.
pub proof fn slice_start_grows(tables: Seq<Table>, a: int, b: int)
    requires
        a <= b,
    ensures
        slice_start(tables, a) <= slice_start(tables, b),
    decreases b - a,
{
    if a < b {
        slice_start_grows(tables, a, b - 1);
    }
}

/// A shorter prefix of the tables has no more rows.
pub proof fn rows_upto_grows(tables: Seq<Table>, a: int, b: int)
    requires
        a <= b,
    ensures
        rows_upto(tables, a) <= rows_upto(tables, b),
    decreases b - a,
{
    if a < b {
        rows_upto_grows(tables, a, b - 1);
    }
}

/// The output headers of a prefix of the tables are as many as its output
/// columns.
pub proof fn headers_upto_len(tables: Seq<Table>, upto: int)
    ensures
        headers_upto(tables, upto).len() == slice_start(tables, upto),
    decreases upto,
{
    if upto > 0 {
        headers_upto_len(tables, upto - 1);
    }
}

/// Where no flag is set, none is counted.
pub proof fn count_true_of_none(flags: Seq<bool>)
    requires
        forall|i: int| 0 <= i < flags.len() ==> !#[trigger] flags[i],
    ensures
        count_true(flags) == 0,
    decreases flags.len(),
{
    if flags.len() > 0 {
        count_true_of_none(flags.drop_last());
    }
}

/// Setting a flag that was clear adds one to the count.
pub proof fn count_true_of_update(flags: Seq<bool>, i: int)
    requires
        0 <= i < flags.len(),
        !flags[i],
    ensures
        count_true(flags.update(i, true)) == count_true(flags) + 1,
    decreases flags.len(),
{
    let after = flags.update(i, true);
    if i == flags.len() - 1 {
        assert(after.drop_last() =~= flags.drop_last());
    } else {
        count_true_of_update(flags.drop_last(), i);
        assert(after.drop_last() =~= flags.drop_last().update(i, true));
    }
}

/// The rows written out are the rows that survive, each once and in order.
pub proof fn survivors_are_exact(m: MergeView, upto: int)
    requires
        0 <= upto <= usize::MAX,
    ensures
        forall|k: int|
            0 <= k < m.survivors(upto).len() ==> (#[trigger] m.survivors(upto)[k]) < upto && m.survives(
                m.survivors(upto)[k] as int,
            ),
        forall|j: int, k: int|
            0 <= j < k < m.survivors(upto).len() ==> m.survivors(upto)[j] < m.survivors(upto)[k],
        forall|r: int|
            0 <= r < upto && #[trigger] m.survives(r) ==> m.survivors(upto).contains(r as usize),
        m.mode != MatchMode::Inner ==> m.survivors(upto) == Seq::new(upto as nat, |r: int| r as usize),
    decreases upto,
{
    if upto > 0 {
        survivors_are_exact(m, upto - 1);
        let before = m.survivors(upto - 1);
        let now = m.survivors(upto);
        if m.survives(upto - 1) {
            assert(now[before.len() as int] == (upto - 1) as usize);
            assert forall|r: int| 0 <= r < upto && #[trigger] m.survives(r) implies now.contains(
                r as usize,
            ) by {
                if r < upto - 1 {
                    let k = choose|k: int| 0 <= k < before.len() && before[k] == r as usize;
                    assert(now[k] == r as usize);
                }
            }
        }
    }
}

/// With exclusive matching, the candidate picked for a row is one that no
/// row before it was matched to in this turn: no candidate is returned as a
/// match twice in one pass over a table.
pub proof fn exclusive_pick_is_fresh(m: MergeView, proxies: Seq<u64>, r: int)
    requires
        m.wf(),
        !m.finished(),
        m.exclusive,
        proxies.len() == m.current().rows,
        0 <= r < m.assigned.len(),
    ensures
        match selected_row(m.lookup(proxies).selection()) {
            Some(c) => !m.written[c as int] && m.assigned[r] != Some(c),
            None => true,
        },
        forall|s: int| r < s < m.assigned.len() && m.assigned[r] is Some ==> m.assigned[r] != m.assigned[s],
{
    selection_is_eligible(m.lookup(proxies));
}

/// Under `Left`, every row of the first table is a row of the finished
/// merge, in its place and once: the output has as many rows as the first
/// table, each holds the output cells of the row of the first table with its
/// number, and each is written out once.
pub proof fn left_keeps_every_first_row(m: MergeView)
    requires
        m.wf(),
        m.finished(),
        m.mode == MatchMode::Left,
        m.tables.len() > 0,
    ensures
        m.output.rows == m.tables[0].rows,
        m.survivors(m.output.rows as int) == Seq::new(m.output.rows, |r: int| r as usize),
        forall|r: int, k: int|
            0 <= r < m.tables[0].rows && 0 <= k < m.tables[0].output_cols.len()
                ==> #[trigger] m.output.columns[k][r] == m.tables[0].output_row(r)[k],
{
    survivors_are_exact(m, m.output.rows as int);
}

/// Under `Inner`, a row of the merge is written out if and only if it was
/// matched, and no row is written out twice.
pub proof fn inner_keeps_matched_rows(m: MergeView, r: int)
    requires
        m.wf(),
        m.mode == MatchMode::Inner,
        0 <= r < m.output.rows,
    ensures
        m.survivors(m.output.rows as int).contains(r as usize) <==> m.match_mask[r],
        forall|j: int, k: int|
            0 <= j < k < m.survivors(m.output.rows as int).len() ==> m.survivors(m.output.rows as int)[j]
                != m.survivors(m.output.rows as int)[k],
{
    survivors_are_exact(m, m.output.rows as int);
    if m.match_mask[r] {
        assert(m.survives(r));
    }
}

/// Under `Outer` with exclusive matching, every row of every table is in the
/// finished merge once, as a row of its own or merged into the row that it
/// matched: the rows of the output and the matches made add up to the rows of
/// the tables, and every row of the output is written out.
pub proof fn outer_holds_every_row_once(m: MergeView)
    requires
        m.wf(),
        m.finished(),
        m.exclusive,
        m.mode == MatchMode::Outer,
    ensures
        m.output.rows + m.merged == rows_upto(m.tables, m.tables.len() as int),
        m.survivors(m.output.rows as int).len() == m.output.rows,
{
    survivors_are_exact(m, m.output.rows as int);
}

/// What a merge is told in one step.
pub enum Answer {
    /// The proxies of the candidates of the row whose turn it is.
    Ranking(Seq<u64>),
    /// What was measured between the row whose turn it is and the candidate
    /// picked for it: the distance, the distance written out, and the
    /// latitude and the longitude midway.
    Measured(u64, Seq<char>, u64, u64),
}

impl MergeView {
    /// Whether the merge waits for this answer: for one proxy per candidate
    /// while no candidate is picked, and for a measurement once one is.
    pub open spec fn awaits(self, answer: Answer) -> bool {
        match answer {
            Answer::Ranking(proxies) => !self.finished() && self.chosen is Unmatched && proxies.len()
                == self.current().rows,
            Answer::Measured(_, _, _, _) => !(self.chosen is Unmatched),
        }
    }

    /// The merge after one answer.
    pub open spec fn told(self, answer: Answer) -> MergeView {
        match answer {
            Answer::Ranking(proxies) => self.ranked(proxies),
            Answer::Measured(distance, text, lat, lng) => self.measured(distance, text, lat, lng),
        }
    }

    /// The merge after a run of answers, each given when its turn came.
    pub open spec fn told_all(self, answers: Seq<Answer>) -> MergeView
        decreases answers.len(),
    {
        if answers.len() == 0 {
            self
        } else {
            self.told_all(answers.drop_last()).told(answers.last())
        }
    }

    /// Whether each of the answers was awaited when it was given.
    pub open spec fn awaited_all(self, answers: Seq<Answer>) -> bool
        decreases answers.len(),
    {
        answers.len() == 0 || (self.awaited_all(answers.drop_last()) && self.told_all(
            answers.drop_last(),
        ).awaits(answers.last()))
    }
}

/// Ending the turns that are over changes nothing but what a turn's end
/// changes, and either leaves the merge as it is or moves on to a later
/// table.
pub proof fn settled_moves_on(m: MergeView)
    ensures
        m.settled().tables == m.tables,
        m.settled().mode == m.mode,
        m.settled().exclusive == m.exclusive,
        m.settled().radius == m.radius,
        m.settled() == m || m.settled().table > m.table,
    decreases m.tables.len() - m.table,
{
    if !(m.finished() || !m.turn_over()) {
        settled_moves_on(m.folded_in());
    }
}

/// What a merge has measured for it: whoever runs a merge to its end brings
/// the arithmetic on coordinates. Nothing is assumed of what an
/// implementation hands back: `Merge::run` is proved for every one, and a
/// merge is well formed whatever the answers.
pub trait Geometry {
    /// For each row of `candidates`, in row order, its rank by planar
    /// distance to the point (`lat`, `lng`): the smaller, the nearer.
    fn proxies(&self, lat: u64, lng: u64, candidates: &DataFrame) -> Vec<u64>;

    /// What lies between the point (`lat`, `lng`) and the candidate at
    /// (`candidate_lat`, `candidate_lng`): the great-circle distance in the
    /// unit of the radius, that distance written out, and the point midway.
    fn measure(&self, lat: u64, lng: u64, candidate_lat: u64, candidate_lng: u64) -> Measurement;
}

/// As many clear flags as asked for.
fn falses(n: usize) -> (r: Vec<bool>)
    ensures
        r@ == Seq::new(n as nat, |i: int| false),
{
    let mut r: Vec<bool> = Vec::with_capacity(n);
    let mut i: usize = 0;
    while i < n
        invariant
            i <= n,
            r@.len() == i,
            forall|j: int| 0 <= j < i ==> !#[trigger] r@[j],
        decreases n - i,
    {
        r.push(false);
        i += 1;
    }
    r
}

/// Row `i` of a table as a row of a merged table of `width` columns in which
/// the slice of the table begins at `col_index`.
fn padded_cells(t: &DataFrame, i: usize, col_index: usize, width: usize) -> (r: Vec<String>)
    requires
        t.wf(),
        i < t@.rows,
        col_index + t@.output_cols.len() <= width,
    ensures
        texts(r@) == padded_row(t@, i as int, col_index as int, width as nat),
{
    let mut cells: Vec<String> = Vec::with_capacity(width);
    let mut own: Vec<String> = t.output_row(i);
    let ghost own_texts = texts(own@);
    let cols: usize = own.len();
    assert(own_texts.len() == cols && cols == t@.output_cols.len());
    let mut c: usize = 0;
    while c < col_index
        invariant
            c <= col_index,
            cells@.len() == c,
            forall|j: int| 0 <= j < c ==> (#[trigger] cells@[j])@ == Seq::<char>::empty(),
        decreases col_index - c,
    {
        cells.push(String::new());
        c += 1;
    }
    let ghost blanks = cells@;
    cells.append(&mut own);
    let end: usize = col_index + cols;
    let mut c: usize = end;
    while c < width
        invariant
            end <= c <= width,
            end == col_index + cols,
            cells@.len() == c,
            blanks.len() == col_index,
            own_texts.len() == cols,
            forall|j: int| 0 <= j < col_index ==> (#[trigger] cells@[j])@ == Seq::<char>::empty(),
            forall|j: int| col_index <= j < end ==> (#[trigger] cells@[j])@ == own_texts[j - col_index],
            forall|j: int| end <= j < c ==> (#[trigger] cells@[j])@ == Seq::<char>::empty(),
        decreases width - c,
    {
        cells.push(String::new());
        c += 1;
    }
    cells
}

/// A merge in progress. It borrows the tables, owns the merged table, and
/// keeps the flags of both.
pub struct Merge<'a> {
    tables: &'a Vec<DataFrame>,
    mode: MatchMode,
    exclusive: bool,
    radius: u64,
    output: DataFrame,
    match_mask: Vec<bool>,
    written_mask: Vec<bool>,
    table: usize,
    row: usize,
    col_index: usize,
    chosen: Selection,
    assigned: Ghost<Seq<Option<usize>>>,
    folded: Ghost<nat>,
    merged: Ghost<nat>,
}

impl<'a> View for Merge<'a> {
    type V = MergeView;

    closed spec fn view(&self) -> MergeView {
        MergeView {
            tables: views(self.tables@),
            mode: self.mode,
            exclusive: self.exclusive,
            radius: self.radius,
            output: self.output@,
            match_mask: self.match_mask@,
            written: self.written_mask@,
            table: self.table as nat,
            row: self.row as nat,
            col_index: self.col_index as nat,
            chosen: self.chosen,
            assigned: self.assigned@,
            folded: self.folded@,
            merged: self.merged@,
        }
    }
}

impl<'a> Merge<'a> {
    /// The invariant of a merge that waits for its caller.
    pub open spec fn wf(&self) -> bool {
        self@.wf()
    }

    /// Begins the merge of the tables, and folds in every table that needs no
    /// lookup: the first one at least.
    pub fn begin(tables: &'a Vec<DataFrame>, mode: MatchMode, exclusive: bool, radius: u64) -> (r:
        Result<Merge<'a>, ConfigError>)
        requires
            all_wf(views(tables@)),
        ensures
            match r {
                Ok(merge) => refusal(views(tables@), mode) is None && merge.wf() && merge@
                    == MergeView::initial(views(tables@), mode, exclusive, radius).settled(),
                Err(e) => refusal(views(tables@), mode) == Some(e),
            },
    {
        let ghost all = views(tables@);
        let n: usize = tables.len();
        let mut t: usize = 0;
        while t < n
            invariant
                t <= n,
                n == tables@.len(),
                all == views(tables@),
                forall|j: int| 0 <= j < t ==> (#[trigger] all[j]).ready_to_match(),
            decreases n - t,
        {
            if !tables[t].ready_to_match() {
                assert(!all[t as int].ready_to_match());
                return Err(ConfigError::NotReady);
            }
            t += 1;
        }
        let mut width: usize = 0;
        let mut height: usize = 0;
        let mut too_wide: bool = false;
        let mut too_tall: bool = false;
        let mut t: usize = 0;
        while t < n
            invariant
                t <= n,
                n == tables@.len(),
                all == views(tables@),
                if too_wide {
                    slice_start(all, t as int) > usize::MAX
                } else {
                    width == slice_start(all, t as int)
                },
                if too_tall {
                    rows_upto(all, t as int) > usize::MAX
                } else {
                    height == rows_upto(all, t as int)
                },
            decreases n - t,
        {
            let w: usize = tables[t].output_width();
            let h: usize = tables[t].rows();
            if !too_wide {
                if w > usize::MAX - width {
                    too_wide = true;
                } else {
                    width = width + w;
                }
            }
            if !too_tall {
                if h > usize::MAX - height {
                    too_tall = true;
                } else {
                    height = height + h;
                }
            }
            t += 1;
        }
        if mode == MatchMode::Left && !too_wide {
            if width == usize::MAX {
                too_wide = true;
            } else {
                width = width + 1;
            }
        }
        if !too_wide && width == 0 {
            return Err(ConfigError::NoOutputColumns);
        }
        if too_wide || too_tall {
            return Err(ConfigError::TooLarge);
        }
        let mut headers: Vec<String> = Vec::with_capacity(width);
        let mut t: usize = 0;
        while t < n
            invariant
                t <= n,
                n == tables@.len(),
                all == views(tables@),
                all_wf(all),
                texts(headers@) == headers_upto(all, t as int),
            decreases n - t,
        {
            assert(all[t as int] == tables@[t as int]@);
            let mut own: Vec<String> = tables[t].output_headers();
            headers.append(&mut own);
            t += 1;
        }
        if mode == MatchMode::Left {
            let ghost before = headers@;
            headers.push("distance".to_owned());
            assert(texts(headers@) =~= texts(before).push("distance"@));
        }
        proof {
            headers_upto_len(all, n as int);
        }
        let output = DataFrame::for_output(headers, height);
        let written_mask: Vec<bool> = if n > 0 {
            falses(tables[0].rows())
        } else {
            Vec::new()
        };
        let mut merge = Merge {
            tables,
            mode,
            exclusive,
            radius,
            output,
            match_mask: Vec::new(),
            written_mask,
            table: 0,
            row: 0,
            col_index: 0,
            chosen: Selection::Unmatched,
            assigned: Ghost(Seq::empty()),
            folded: Ghost(0),
            merged: Ghost(0),
        };
        proof {
            count_true_of_none(merge@.written);
        }
        merge.settle_turns();
        Ok(merge)
    }

    /// Ends the turn of the current table.
    fn fold_in(&mut self)
        requires
            old(self)@.inv(),
            !old(self)@.finished(),
            old(self)@.turn_over(),
        ensures
            final(self)@ == old(self)@.folded_in(),
            final(self)@.inv(),
    {
        let ghost before = self@;
        let ghost all = before.tables;
        let tables: &'a Vec<DataFrame> = self.tables;
        let t: &DataFrame = &tables[self.table];
        let ghost tv = t@;
        let cols: usize = t.output_width();
        let rows: usize = t.rows();
        let width: usize = self.output.shape().0;
        proof {
            slice_start_grows(all, self.table as int + 1, all.len() as int);
            rows_upto_grows(all, self.table as int + 1, all.len() as int);
        }
        if self.mode != MatchMode::Left || self.table == 0 {
            let lats: &Vec<u64> = t.lat().unwrap();
            let lngs: &Vec<u64> = t.lng().unwrap();
            let mut i: usize = 0;
            while i < rows
                invariant
                    i <= rows,
                    rows == tv.rows,
                    tv == t@,
                    t.wf(),
                    before.written.len() == rows,
                    tv.lat == Some(lats@),
                    tv.lng == Some(lngs@),
                    cols == tv.output_cols.len(),
                    before.inv(),
                    before.col_index + cols <= width,
                    width == before.output.width(),
                    rows_upto(before.tables, before.table as int) + rows <= usize::MAX,
                    self@ == (MergeView { output: self@.output, match_mask: self@.match_mask, ..before }),
                    self@.output == appended(
                        before.output,
                        tv,
                        before.written,
                        before.exclusive,
                        before.col_index as int,
                        i as int,
                    ),
                    self@.output == (Table {
                        columns: self@.output.columns,
                        rows: self@.output.rows,
                        lat: self@.output.lat,
                        lng: self@.output.lng,
                        ..before.output
                    }),
                    self@.output.wf(),
                    self@.output.ready_to_match(),
                    self@.match_mask == extended(before.match_mask, self@.output.rows),
                    before.output.rows <= self@.output.rows <= before.output.rows + i,
                    before.exclusive ==> self@.output.rows - before.output.rows + count_true(
                        before.written.take(i as int),
                    ) == i,
                    before.table == 0 ==> self@.output.rows == i,
                    before.table == 0 ==> forall|r: int, k: int|
                        0 <= r < i && 0 <= k < cols ==> #[trigger] self@.output.columns[k][r]
                            == tv.output_row(r)[k],
                decreases rows - i,
            {
                proof {
                    assert(before.written.take(i as int + 1).drop_last() =~= before.written.take(
                        i as int,
                    ));
                }
                if !self.exclusive || !self.written_mask[i] {
                    let cells: Vec<String> = padded_cells(t, i, self.col_index, width);
                    assert(texts(cells@).len() == cells@.len());
                    self.output.push_row(cells, lats[i], lngs[i]);
                    self.match_mask.push(false);
                    proof {
                        if before.table == 0 {
                            assert forall|r: int, k: int| 0 <= r < i + 1 && 0 <= k < cols implies #[trigger] self@.output.columns[k][r]
                                == tv.output_row(r)[k] by {
                            }
                        }
                    }
                }
                i += 1;
            }
            assert(before.written.take(rows as int) =~= before.written);
        }
        let n: usize = tables.len();
        self.col_index = self.col_index + cols;
        self.table = self.table + 1;
        self.row = 0;
        self.chosen = Selection::Unmatched;
        self.written_mask = if self.table < n {
            falses(tables[self.table].rows())
        } else {
            Vec::new()
        };
        proof {
            self.assigned = Ghost(Seq::empty());
            self.folded = Ghost(before.folded + tv.rows);
            let after = before.folded_in();
            assert(self@.match_mask =~= after.match_mask);
            count_true_of_none(self@.written);
        }
    }

    /// Ends every turn that is over.
    fn settle_turns(&mut self)
        requires
            old(self)@.inv(),
        ensures
            final(self)@ == old(self)@.settled(),
            final(self)@.wf(),
    {
        let ghost start = self@;
        while self.table < self.tables.len() && self.row >= self.output.rows()
            invariant
                self@.inv(),
                self@.settled() == start.settled(),
            decreases self@.tables.len() - self@.table,
        {
            self.fold_in();
        }
    }

    /// Tells whether every table is folded in.
    pub fn is_finished(&self) -> (r: bool)
        requires
            self.wf(),
        ensures
            r == self@.finished(),
    {
        self.table >= self.tables.len()
    }

    /// The lookup that the merge waits for, if it is not finished.
    pub fn pending(&self) -> (r: Option<Pending>)
        requires
            self.wf(),
        ensures
            match r {
                Some(p) => !self@.finished() && p == (Pending {
                    table: self@.table as usize,
                    row: self@.row as usize,
                    lat: self@.output.lat->0[self@.row as int],
                    lng: self@.output.lng->0[self@.row as int],
                    candidate: selected_row(self@.chosen),
                }),
                None => self@.finished(),
            },
    {
        if self.table >= self.tables.len() {
            return None;
        }
        let lats: &Vec<u64> = self.output.lat().unwrap();
        let lngs: &Vec<u64> = self.output.lng().unwrap();
        let candidate: Option<usize> = match self.chosen {
            Selection::Exact(c) => Some(c),
            Selection::Nearest(c) => Some(c),
            Selection::Unmatched => None,
        };
        Some(
            Pending { table: self.table, row: self.row, lat: lats[self.row], lng: lngs[self.row], candidate },
        )
    }

    /// The merged table so far.
    pub fn output(&self) -> (r: &DataFrame)
        ensures
            r@ == self@.output,
    {
        &self.output
    }

    /// For each row of the merged table, whether it was ever matched.
    pub fn match_mask(&self) -> (r: &Vec<bool>)
        ensures
            r@ == self@.match_mask,
    {
        &self.match_mask
    }

    /// For each row of the current table, whether a match has consumed it.
    pub fn written_mask(&self) -> (r: &Vec<bool>)
        ensures
            r@ == self@.written,
    {
        &self.written_mask
    }

    /// Moves on from a row that found no match.
    fn pass(&mut self)
        requires
            old(self)@.wf(),
            !old(self)@.finished(),
        ensures
            final(self)@ == old(self)@.skipped(),
            final(self)@.wf(),
    {
        let ghost before = self@;
        self.row = self.row + 1;
        self.chosen = Selection::Unmatched;
        proof {
            self.assigned = Ghost(before.assigned.push(None));
        }
        self.settle_turns();
    }

    /// Writes a match into the row whose turn it is, and moves on.
    fn mark(&mut self, c: usize, distance: String, lat: u64, lng: u64)
        requires
            old(self)@.wf(),
            !old(self)@.finished(),
            c < old(self)@.current().rows,
            old(self)@.exclusive ==> !old(self)@.written[c as int],
        ensures
            final(self)@ == old(self)@.matched(c, distance@, lat, lng),
            final(self)@.wf(),
    {
        let ghost before = self@;
        let ghost all = before.tables;
        let tables: &'a Vec<DataFrame> = self.tables;
        let t: &DataFrame = &tables[self.table];
        let ghost tv = t@;
        let row: usize = self.row;
        let cols: usize = t.output_width();
        let width: usize = self.output.shape().0;
        let col_index: usize = self.col_index;
        proof {
            slice_start_grows(all, self.table as int + 1, all.len() as int);
            slice_start_grows(all, 1, self.table as int);
        }
        let cells: Vec<String> = t.output_row(c);
        assert(texts(cells@).len() == cells@.len());
        let mut k: usize = 0;
        while k < cols
            invariant
                k <= cols,
                cols == tv.output_cols.len(),
                cells@.len() == cols,
                texts(cells@) == tv.output_row(c as int),
                col_index + cols <= width,
                width == before.output.width(),
                row < before.output.rows,
                before.output.wf(),
                self@ == (MergeView { output: self@.output, ..before }),
                self@.output.wf(),
                self@.output == (Table { columns: self@.output.columns, ..before.output }),
                self@.output.columns.len() == width,
                forall|j: int|
                    0 <= j < width ==> #[trigger] self@.output.columns[j] == if col_index <= j < col_index
                        + k {
                        before.output.columns[j].update(row as int, tv.output_row(c as int)[j - col_index])
                    } else {
                        before.output.columns[j]
                    },
            decreases cols - k,
        {
            self.output.set_cell(col_index + k, row, cells[k].clone());
            k += 1;
        }
        if self.mode == MatchMode::Left {
            self.output.set_cell(width - 1, row, distance);
        }
        self.output.set_point(row, lat, lng);
        self.match_mask.set(row, true);
        self.written_mask.set(c, true);
        self.row = row + 1;
        self.chosen = Selection::Unmatched;
        proof {
            self.assigned = Ghost(before.assigned.push(Some(c)));
            self.merged = Ghost(before.merged + 1);
            let after = before.marked(c, distance@, lat, lng);
            assert(self@.output.columns =~= after.output.columns);
            if before.exclusive {
                count_true_of_update(before.written, c as int);
            }
        }
        self.settle_turns();
    }

    /// Ranks the candidates of the row whose turn it is. `proxies` holds, for
    /// each row of the current table, its rank by distance to that row: the
    /// smaller, the nearer. Where a candidate is picked, the merge waits for
    /// its measurement; where none is, the row is done.
    pub fn rank(&mut self, proxies: &Vec<u64>) -> (r: Result<Selection, ConfigError>)
        requires
            old(self).wf(),
        ensures
            final(self).wf(),
            match r {
                Ok(selection) => {
                    &&& !old(self)@.finished()
                    &&& proxies@.len() == old(self)@.current().rows
                    &&& selection == old(self)@.lookup(proxies@).selection()
                    &&& final(self)@ == old(self)@.ranked(proxies@)
                },
                Err(e) => {
                    &&& final(self)@ == old(self)@
                    &&& if old(self)@.finished() {
                        e == ConfigError::Finished
                    } else {
                        proxies@.len() != old(self)@.current().rows && e == ConfigError::WrongLength
                    }
                },
            },
    {
        let ghost before = self@;
        let tables: &'a Vec<DataFrame> = self.tables;
        if self.table >= tables.len() {
            return Err(ConfigError::Finished);
        }
        let t: &DataFrame = &tables[self.table];
        if proxies.len() != t.rows() {
            return Err(ConfigError::WrongLength);
        }
        let lats: &Vec<u64> = self.output.lat().unwrap();
        let lngs: &Vec<u64> = self.output.lng().unwrap();
        let compare: Vec<String> = self.output.compare_row(self.row);
        let selection = select_candidate(
            lats[self.row],
            lngs[self.row],
            &compare,
            t,
            &self.written_mask,
            self.exclusive,
            proxies,
        );
        proof {
            selection_is_eligible(before.lookup(proxies@));
        }
        match selection {
            Selection::Unmatched => {
                self.pass();
            },
            _ => {
                self.chosen = selection;
            },
        }
        Ok(selection)
    }

    /// Settles the candidate picked for the row whose turn it is, given what
    /// was measured between the two. An exact match stands; the nearest
    /// candidate stands unless its distance exceeds the radius. The row is
    /// done either way.
    pub fn settle(&mut self, measurement: &Measurement) -> (r: Result<Option<MatchCandidate>, ConfigError>)
        requires
            old(self).wf(),
        ensures
            final(self).wf(),
            match r {
                Ok(found) => {
                    &&& !(old(self)@.chosen is Unmatched)
                    &&& found == confirmed(old(self)@.chosen, measurement.distance, old(self)@.radius)
                    &&& final(self)@ == old(self)@.measured(
                        measurement.distance,
                        measurement.distance_text@,
                        measurement.lat,
                        measurement.lng,
                    )
                },
                Err(e) => {
                    &&& old(self)@.chosen is Unmatched
                    &&& e == ConfigError::NothingPicked
                    &&& final(self)@ == old(self)@
                },
            },
    {
        let exact: bool = match self.chosen {
            Selection::Exact(_) => true,
            Selection::Nearest(_) => false,
            Selection::Unmatched => {
                return Err(ConfigError::NothingPicked);
            },
        };
        let found = confirm_match(self.chosen, measurement.distance, self.radius);
        match found {
            Some(candidate) => {
                let text: String = if exact {
                    "0".to_owned()
                } else {
                    measurement.distance_text.clone()
                };
                self.mark(candidate.row, text, measurement.lat, measurement.lng);
            },
            None => {
                self.pass();
            },
        }
        Ok(found)
    }

    /// The headers of the merged table.
    pub fn headers(&self) -> (r: Vec<String>)
        requires
            self.wf(),
        ensures
            texts(r@) == merged_headers(self@.tables, self@.mode),
    {
        let r = self.output.output_headers();
        r
    }

    /// The rows of the merged table that are written out, in order: every
    /// row, but under `Inner` those only that were matched.
    pub fn rows(&self) -> (r: Vec<Vec<String>>)
        requires
            self.wf(),
        ensures
            r@.len() == self@.survivors(self@.output.rows as int).len(),
            forall|k: int|
                0 <= k < r@.len() ==> texts(#[trigger] r@[k]@) == self@.output.columns_at(
                    self@.survivors(self@.output.rows as int)[k] as int,
                ),
    {
        let n: usize = self.output.rows();
        let mut out: Vec<Vec<String>> = Vec::new();
        let mut i: usize = 0;
        while i < n
            invariant
                i <= n,
                n == self@.output.rows,
                self.wf(),
                out@.len() == self@.survivors(i as int).len(),
                forall|k: int|
                    0 <= k < out@.len() ==> texts(#[trigger] out@[k]@) == self@.output.columns_at(
                        self@.survivors(i as int)[k] as int,
                    ),
            decreases n - i,
        {
            let keep: bool = match self.mode {
                MatchMode::Inner => self.match_mask[i],
                _ => true,
            };
            if keep {
                let cells: Vec<String> = self.output.output_row(i);
                out.push(cells);
            }
            i += 1;
        }
        out
    }

    /// Runs the merge to its end: for each lookup that is due, asks
    /// `geometry` for the proxies of the candidates, and for each candidate
    /// picked, for the measurement between the row and the candidate. The
    /// merge is what those answers make it, step by step, and nothing else.
    /// Stops with an error, and with the lookup still due, if `geometry` does
    /// not hand back one proxy per candidate.
    pub fn run<G: Geometry>(&mut self, geometry: &G) -> (r: Result<(), ConfigError>)
        requires
            old(self).wf(),
        ensures
            final(self).wf(),
            final(self)@.tables == old(self)@.tables,
            final(self)@.mode == old(self)@.mode,
            final(self)@.exclusive == old(self)@.exclusive,
            final(self)@.radius == old(self)@.radius,
            exists|answers: Seq<Answer>| #[trigger]
                old(self)@.awaited_all(answers) && final(self)@ == old(self)@.told_all(answers),
            match r {
                Ok(_) => final(self)@.finished(),
                Err(e) => e == ConfigError::WrongLength && !final(self)@.finished(),
            },
    {
        let ghost start = self@;
        let ghost mut answers: Seq<Answer> = Seq::empty();
        let tables: &'a Vec<DataFrame> = self.tables;
        loop
            invariant
                self.wf(),
                start == old(self)@,
                start.awaited_all(answers),
                self@ == start.told_all(answers),
                views(tables@) == self@.tables,
                self@.tables == start.tables,
                self@.mode == start.mode,
                self@.exclusive == start.exclusive,
                self@.radius == start.radius,
            ensures
                self@.finished(),
                start.awaited_all(answers),
                self@ == start.told_all(answers),
            decreases
                self@.tables.len() - self@.table,
                self@.output.rows - self@.row,
                if self@.chosen is Unmatched { 1nat } else { 0nat },
        {
            let ghost before = self@;
            let pending = match self.pending() {
                Some(pending) => pending,
                None => {
                    break ;
                },
            };
            let table: &DataFrame = &tables[pending.table];
            match pending.candidate {
                None => {
                    let proxies: Vec<u64> = geometry.proxies(pending.lat, pending.lng, table);
                    proof {
                        settled_moves_on(before.passed());
                    }
                    match self.rank(&proxies) {
                        Ok(_) => {
                            proof {
                                let answer = Answer::Ranking(proxies@);
                                assert(answers.push(answer).drop_last() =~= answers);
                                answers = answers.push(answer);
                            }
                        },
                        Err(e) => {
                            return Err(e);
                        },
                    }
                },
                Some(c) => {
                    let lats: &Vec<u64> = table.lat().unwrap();
                    let lngs: &Vec<u64> = table.lng().unwrap();
                    let measurement: Measurement = geometry.measure(
                        pending.lat,
                        pending.lng,
                        lats[c],
                        lngs[c],
                    );
                    proof {
                        settled_moves_on(before.passed());
                        settled_moves_on(
                            before.marked(
                                c,
                                written_distance(before.chosen, measurement.distance_text@),
                                measurement.lat,
                                measurement.lng,
                            ),
                        );
                    }
                    let settled = self.settle(&measurement);
                    assert(settled is Ok);
                    proof {
                        let answer = Answer::Measured(
                            measurement.distance,
                            measurement.distance_text@,
                            measurement.lat,
                            measurement.lng,
                        );
                        assert(answers.push(answer).drop_last() =~= answers);
                        answers = answers.push(answer);
                    }
                },
            }
        }
        Ok(())
    }
}

} // verus!
