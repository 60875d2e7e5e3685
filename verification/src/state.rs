//! The configuration of a run: the tables, the join mode, the radius and the
//! exclusivity of matches, and the commands that set them.
use vstd::prelude::*;
use crate::coords::{is_positive, positive};
use crate::data_frame::{texts, DataFrame, Table};
use crate::error::{Argument, ConfigError, Fault};
use crate::geocode::{fetch_refusal, geocoded, quota_ran_out, Resolution};
use crate::merge::{all_wf, refusal, views, MatchMode, Merge, MergeView};
use crate::text::{folded, index_of_text, join_from, joined, parse_index, same_folded, same_text};

verus! {

/// The radius of a new configuration: a quarter of a mile, as the bit
/// pattern of the double 0.25.
pub const DEFAULT_RADIUS: u64 = 0x3fd0_0000_0000_0000;

/// A configuration as mathematical values.
pub struct StateView {
    /// The tables, in the order in which they were added.
    pub frames: Seq<Table>,
    pub mode: MatchMode,
    /// The caller's key for the geocoding service.
    pub api_key: Seq<char>,
    /// The radius, as the bit pattern of a double.
    pub radius: u64,
    pub exclusive: bool,
}

/// The words of a command.
pub open spec fn words(input: Seq<&str>) -> Seq<Seq<char>> {
    input.map_values(|w: &str| w@)
}

/// The join mode that a word names.
pub open spec fn mode_named(word: Seq<char>) -> Option<MatchMode> {
    if word == "left"@ {
        Some(MatchMode::Left)
    } else if word == "inner"@ {
        Some(MatchMode::Inner)
    } else if word == "outer"@ {
        Some(MatchMode::Outer)
    } else {
        None
    }
}

/// The flag that a word names, whatever its case.
pub open spec fn flag_named(word: Seq<char>) -> Option<bool> {
    if folded(word) == folded("true"@) {
        Some(true)
    } else if folded(word) == folded("false"@) {
        Some(false)
    } else {
        None
    }
}

/// The parameters of a table that a command can set.
#[derive(Clone, Copy, Debug, PartialEq, Eq, Structural)]
pub enum Param {
    Addr1,
    Addr2,
    City,
    State,
    Zipcode,
    Lat,
    Lng,
}

/// The parameter that a word names, whatever its case.
pub open spec fn param_named(word: Seq<char>) -> Option<Param> {
    if folded(word) == folded("addr1"@) {
        Some(Param::Addr1)
    } else if folded(word) == folded("addr2"@) {
        Some(Param::Addr2)
    } else if folded(word) == folded("city"@) {
        Some(Param::City)
    } else if folded(word) == folded("state"@) {
        Some(Param::State)
    } else if folded(word) == folded("zipcode"@) {
        Some(Param::Zipcode)
    } else if folded(word) == folded("lat"@) {
        Some(Param::Lat)
    } else if folded(word) == folded("lng"@) {
        Some(Param::Lng)
    } else {
        None
    }
}

/// The parameter that a word names.
pub fn param_of(word: &str) -> (r: Option<Param>)
    ensures
        r == param_named(word@),
{
    if same_folded(word, "addr1") {
        Some(Param::Addr1)
    } else if same_folded(word, "addr2") {
        Some(Param::Addr2)
    } else if same_folded(word, "city") {
        Some(Param::City)
    } else if same_folded(word, "state") {
        Some(Param::State)
    } else if same_folded(word, "zipcode") {
        Some(Param::Zipcode)
    } else if same_folded(word, "lat") {
        Some(Param::Lat)
    } else if same_folded(word, "lng") {
        Some(Param::Lng)
    } else {
        None
    }
}

/// A table after a parameter was set to the column `col`.
pub open spec fn with_param(table: Table, param: Param, col: usize, values: Option<Seq<u64>>) -> Table {
    match param {
        Param::Addr1 => Table { addr1: Some(col), ..table },
        Param::Addr2 => Table { addr2: Some(col), ..table },
        Param::City => Table { city: Some(col), ..table },
        Param::State => Table { state: Some(col), ..table },
        Param::Zipcode => Table { zipcode: Some(col), ..table },
        Param::Lat => table.with_lat_from(col as int, values->0),
        Param::Lng => table.with_lng_from(col as int, values->0),
    }
}

impl StateView {
    /// Why the command `method <mode>` is refused, if it is.
    pub open spec fn method_refusal(self, input: Seq<Seq<char>>) -> Option<Fault> {
        if input.len() < 2 {
            Some(Fault::Missing(Argument::Method))
        } else if mode_named(input[1]) is None {
            Some(Fault::InvalidMatchMode)
        } else {
            None
        }
    }

    /// Why the command `exclusive <flag>` is refused, if it is.
    pub open spec fn exclusive_refusal(self, input: Seq<Seq<char>>) -> Option<Fault> {
        if input.len() < 2 {
            Some(Fault::Missing(Argument::Value))
        } else if flag_named(input[1]) is None {
            Some(Fault::InvalidFlag)
        } else {
            None
        }
    }

    /// Why the command `radius <number>` is refused, if it is: `value` is the
    /// number that the command's argument writes, if it writes one.
    pub open spec fn radius_refusal(self, input: Seq<Seq<char>>, value: Option<u64>) -> Option<Fault> {
        if input.len() < 2 {
            Some(Fault::Missing(Argument::Radius))
        } else if value is None || !is_positive(value->0) {
            Some(Fault::InvalidRadius)
        } else {
            None
        }
    }

    /// Why the command `prefix <table> <prefix>` is refused, if it is.
    pub open spec fn prefix_refusal(self, input: Seq<Seq<char>>) -> Option<Fault> {
        if input.len() < 2 {
            Some(Fault::Missing(Argument::FileIndex))
        } else if index_of_text(input[1]) is None {
            Some(Fault::InvalidIndex)
        } else if input.len() < 3 {
            Some(Fault::Missing(Argument::Prefix))
        } else if index_of_text(input[1])->0 >= self.frames.len() {
            Some(Fault::IndexOutOfBounds)
        } else {
            None
        }
    }

    /// Why the command `list <table>` is refused, if it is.
    pub open spec fn columns_refusal(self, input: Seq<Seq<char>>) -> Option<Fault> {
        if input.len() < 2 {
            Some(Fault::Missing(Argument::FileIndex))
        } else if index_of_text(input[1]) is None {
            Some(Fault::InvalidIndex)
        } else if index_of_text(input[1])->0 >= self.frames.len() {
            Some(Fault::IndexOutOfBounds)
        } else {
            None
        }
    }

    /// Why the command `add <table> <kind> <column>` is refused, if it is.
    /// The name of the column is every word from the fourth on.
    pub open spec fn column_refusal(self, input: Seq<Seq<char>>) -> Option<Fault> {
        if input.len() < 2 {
            Some(Fault::Missing(Argument::FileIndex))
        } else if index_of_text(input[1]) is None {
            Some(Fault::InvalidIndex)
        } else if input.len() < 3 {
            Some(Fault::Missing(Argument::Kind))
        } else if input.len() < 4 {
            Some(Fault::Missing(Argument::Column))
        } else if index_of_text(input[1])->0 >= self.frames.len() {
            Some(Fault::IndexOutOfBounds)
        } else if input[2] != "output"@ && input[2] != "compare"@ {
            Some(Fault::InvalidKind)
        } else if self.frames[index_of_text(input[1])->0 as int].column_named(joined(input, 3)) is None {
            Some(Fault::UnknownColumn(joined(input, 3)))
        } else {
            None
        }
    }

    /// The configuration after the command `add <table> <kind> <column>`.
    pub open spec fn with_column(self, input: Seq<Seq<char>>) -> StateView {
        let index = index_of_text(input[1])->0 as int;
        let table = self.frames[index];
        let col = table.column_named(joined(input, 3))->0;
        let changed = if input[2] == "output"@ {
            Table { output_cols: table.output_cols.push(col), ..table }
        } else {
            Table { compare_cols: table.compare_cols.push(col), ..table }
        };
        StateView { frames: self.frames.update(index, changed), ..self }
    }

    /// Why the command `set <table> <key> <column>` is refused, if it is.
    /// The name of the column is every word from the fourth on; `values`
    /// holds the numbers that the column writes, where the caller read them.
    /// A key that names no parameter is not refused: it changes nothing.
    pub open spec fn param_refusal(self, input: Seq<Seq<char>>, values: Option<Seq<u64>>) -> Option<Fault> {
        if input.len() < 2 {
            Some(Fault::Missing(Argument::Index))
        } else if input.len() < 3 {
            Some(Fault::Missing(Argument::Key))
        } else if index_of_text(input[1]) is None {
            Some(Fault::InvalidIndex)
        } else if index_of_text(input[1])->0 >= self.frames.len() {
            Some(Fault::IndexOutOfBounds)
        } else {
            let table = self.frames[index_of_text(input[1])->0 as int];
            match param_named(input[2]) {
                None => None,
                Some(param) => if table.column_named(joined(input, 3)) is None {
                    Some(Fault::UnknownColumn(joined(input, 3)))
                } else if (param == Param::Lat || param == Param::Lng) && values is None {
                    Some(Fault::Missing(Argument::Value))
                } else if (param == Param::Lat || param == Param::Lng) && values->0.len() != table.rows {
                    Some(Fault::WrongLength)
                } else {
                    None
                },
            }
        }
    }

    /// The column that the command `set <table> <key> <column>` turns into an
    /// axis, if the command names a table, one of the keys `lat` and `lng`,
    /// and a column of the table.
    pub open spec fn axis_source(self, input: Seq<Seq<char>>) -> Option<Seq<Seq<char>>> {
        if input.len() < 3 || index_of_text(input[1]) is None || index_of_text(input[1])->0
            >= self.frames.len() {
            None
        } else {
            let index = index_of_text(input[1])->0 as int;
            let column = self.frames[index].column_named(joined(input, 3));
            if (param_named(input[2]) == Some(Param::Lat) || param_named(input[2]) == Some(Param::Lng))
                && column is Some {
                Some(self.frames[index].columns[column->0 as int])
            } else {
                None
            }
        }
    }

    /// The configuration after the command `set <table> <key> <column>`.
    pub open spec fn with_param(self, input: Seq<Seq<char>>, values: Option<Seq<u64>>) -> StateView {
        let index = index_of_text(input[1])->0 as int;
        let table = self.frames[index];
        match param_named(input[2]) {
            None => self,
            Some(param) => StateView {
                frames: self.frames.update(
                    index,
                    with_param(table, param, table.column_named(joined(input, 3))->0, values),
                ),
                ..self
            },
        }
    }

    /// Why the tables cannot take these outcomes of geocoding, if they
    /// cannot: the outcomes are not one list per table, or some table
    /// refuses its list. The first table that refuses gives the reason.
    pub open spec fn fetch_refusal(self, resolutions: Seq<Seq<Resolution>>, upto: int) -> Option<ConfigError>
        decreases upto,
    {
        if resolutions.len() != self.frames.len() {
            Some(ConfigError::WrongLength)
        } else if upto <= 0 {
            None
        } else if self.fetch_refusal(resolutions, upto - 1) is Some {
            self.fetch_refusal(resolutions, upto - 1)
        } else {
            fetch_refusal(self.frames[upto - 1], resolutions[upto - 1])
        }
    }

    /// The configuration once every table is geocoded.
    pub open spec fn geocoded(self, resolutions: Seq<Seq<Resolution>>) -> StateView {
        StateView {
            frames: Seq::new(self.frames.len(), |t: int| geocoded(self.frames[t], resolutions[t])),
            ..self
        }
    }

    /// Whether the quota ran out while some table was geocoded.
    pub open spec fn quota_ran_out(self, resolutions: Seq<Seq<Resolution>>) -> bool {
        exists|t: int| 0 <= t < self.frames.len() && #[trigger] quota_ran_out(self.frames[t], resolutions[t])
    }

    /// Whether every table has its address roles bound.
    pub open spec fn ready_to_fetch(self) -> bool {
        forall|t: int| 0 <= t < self.frames.len() ==> (#[trigger] self.frames[t]).ready_to_fetch()
    }

    /// Whether every table has its coordinates.
    pub open spec fn ready_to_match(self) -> bool {
        forall|t: int| 0 <= t < self.frames.len() ==> (#[trigger] self.frames[t]).ready_to_match()
    }
}

/// A refusal among the first tables is the refusal of the whole, and where
/// the whole is not refused no table refuses its list.
pub proof fn fetch_refusal_is_first(state: StateView, resolutions: Seq<Seq<Resolution>>, a: int, b: int)
    requires
        0 <= a <= b,
    ensures
        state.fetch_refusal(resolutions, a) is Some ==> state.fetch_refusal(resolutions, b)
            == state.fetch_refusal(resolutions, a),
        state.fetch_refusal(resolutions, b) is None ==> forall|t: int|
            0 <= t < b ==> fetch_refusal(#[trigger] state.frames[t], resolutions[t]) is None,
    decreases b,
{
    if a < b {
        fetch_refusal_is_first(state, resolutions, a, b - 1);
    }
    if b > 0 {
        fetch_refusal_is_first(state, resolutions, 0, b - 1);
    }
}

/// The outcomes of geocoding, list by list.
pub open spec fn outcomes(resolutions: Seq<Vec<Resolution>>) -> Seq<Seq<Resolution>> {
    Seq::new(resolutions.len(), |t: int| resolutions[t]@)
}

/// The configuration of a run.
pub struct State {
    data_frames: Vec<DataFrame>,
    match_mode: MatchMode,
    api_key: String,
    radius: u64,
    exclusive: bool,
}

impl View for State {
    type V = StateView;

    closed spec fn view(&self) -> StateView {
        StateView {
            frames: views(self.data_frames@),
            mode: self.match_mode,
            api_key: self.api_key@,
            radius: self.radius,
            exclusive: self.exclusive,
        }
    }
}

impl State {
    /// The invariant of a configuration: every table is well formed.
    pub open spec fn wf(&self) -> bool {
        all_wf(self@.frames)
    }

    /// A configuration without tables: matches are exclusive, within a
    /// quarter of a mile, and the mode is `Left`.
    pub fn new(api_key: String) -> (r: State)
        ensures
            r.wf(),
            r@ == (StateView {
                frames: Seq::empty(),
                mode: MatchMode::Left,
                api_key: api_key@,
                radius: DEFAULT_RADIUS,
                exclusive: true,
            }),
    {
        let r = State {
            data_frames: Vec::new(),
            match_mode: MatchMode::Left,
            api_key,
            radius: DEFAULT_RADIUS,
            exclusive: true,
        };
        assert(r@.frames =~= Seq::empty());
        r
    }

    /// Tells whether every table has its address roles bound.
    pub fn ready_to_fetch(&self) -> (r: bool)
        ensures
            r == self@.ready_to_fetch(),
    {
        let n: usize = self.data_frames.len();
        let mut t: usize = 0;
        while t < n
            invariant
                t <= n,
                n == self.data_frames@.len(),
                forall|j: int| 0 <= j < t ==> (#[trigger] self@.frames[j]).ready_to_fetch(),
            decreases n - t,
        {
            if !self.data_frames[t].ready_to_fetch() {
                assert(!self@.frames[t as int].ready_to_fetch());
                return false;
            }
            t += 1;
        }
        true
    }

    /// Tells whether every table has its coordinates.
    pub fn ready_to_match(&self) -> (r: bool)
        ensures
            r == self@.ready_to_match(),
    {
        let n: usize = self.data_frames.len();
        let mut t: usize = 0;
        while t < n
            invariant
                t <= n,
                n == self.data_frames@.len(),
                forall|j: int| 0 <= j < t ==> (#[trigger] self@.frames[j]).ready_to_match(),
            decreases n - t,
        {
            if !self.data_frames[t].ready_to_match() {
                assert(!self@.frames[t as int].ready_to_match());
                return false;
            }
            t += 1;
        }
        true
    }

    /// Adds a table after those added before.
    pub fn add_file(&mut self, frame: DataFrame)
        requires
            old(self).wf(),
            frame.wf(),
        ensures
            final(self).wf(),
            final(self)@ == (StateView { frames: old(self)@.frames.push(frame@), ..old(self)@ }),
    {
        self.data_frames.push(frame);
        assert(self@.frames =~= old(self)@.frames.push(frame@));
    }

    /// The number of tables.
    pub fn file_count(&self) -> (r: usize)
        ensures
            r == self@.frames.len(),
    {
        self.data_frames.len()
    }

    /// The table with the given index.
    pub fn get_dataframe(&self, index: usize) -> (r: &DataFrame)
        requires
            index < self@.frames.len(),
        ensures
            r@ == self@.frames[index as int],
    {
        &self.data_frames[index]
    }

    /// The join mode.
    pub fn match_mode(&self) -> (r: MatchMode)
        ensures
            r == self@.mode,
    {
        self.match_mode
    }

    /// The radius, as the bit pattern of a double.
    pub fn radius(&self) -> (r: u64)
        ensures
            r == self@.radius,
    {
        self.radius
    }

    /// Whether a match consumes its candidate.
    pub fn exclusive(&self) -> (r: bool)
        ensures
            r == self@.exclusive,
    {
        self.exclusive
    }

    /// The caller's key for the geocoding service.
    pub fn api_key(&self) -> (r: &String)
        ensures
            r@ == self@.api_key,
    {
        &self.api_key
    }

    /// Runs the command `method <mode>`: sets the join mode to `left`,
    /// `inner` or `outer`.
    pub fn set_method(&mut self, input: Vec<&str>) -> (r: Result<(), ConfigError>)
        ensures
            match r {
                Ok(_) => old(self)@.method_refusal(words(input@)) is None && final(self)@ == (StateView {
                    mode: mode_named(words(input@)[1])->0,
                    ..old(self)@
                }),
                Err(e) => old(self)@.method_refusal(words(input@)) == Some(e@) && final(self)@ == old(
                    self,
                )@,
            },
    {
        if input.len() < 2 {
            return Err(ConfigError::Missing(Argument::Method));
        }
        let word: &str = input[1];
        if same_text(word, "left") {
            self.match_mode = MatchMode::Left;
        } else if same_text(word, "inner") {
            self.match_mode = MatchMode::Inner;
        } else if same_text(word, "outer") {
            self.match_mode = MatchMode::Outer;
        } else {
            return Err(ConfigError::InvalidMatchMode);
        }
        Ok(())
    }

    /// Runs the command `exclusive <flag>`: sets whether a match consumes
    /// its candidate, to `true` or `false` in any case of letters.
    pub fn set_exclusive(&mut self, input: Vec<&str>) -> (r: Result<(), ConfigError>)
        ensures
            match r {
                Ok(_) => old(self)@.exclusive_refusal(words(input@)) is None && final(self)@ == (StateView {
                    exclusive: flag_named(words(input@)[1])->0,
                    ..old(self)@
                }),
                Err(e) => old(self)@.exclusive_refusal(words(input@)) == Some(e@) && final(self)@
                    == old(self)@,
            },
    {
        if input.len() < 2 {
            return Err(ConfigError::Missing(Argument::Value));
        }
        let word: &str = input[1];
        if same_folded(word, "true") {
            self.exclusive = true;
        } else if same_folded(word, "false") {
            self.exclusive = false;
        } else {
            return Err(ConfigError::InvalidFlag);
        }
        Ok(())
    }

    /// Runs the command `radius <number>`: sets the radius within which the
    /// nearest candidate is a match. `value` is the number that the command's
    /// argument writes, as the bit pattern of a double, if it writes one.
    pub fn set_radius(&mut self, input: Vec<&str>, value: Option<u64>) -> (r: Result<(), ConfigError>)
        ensures
            match r {
                Ok(_) => old(self)@.radius_refusal(words(input@), value) is None && final(self)@ == (StateView {
                    radius: value->0,
                    ..old(self)@
                }),
                Err(e) => old(self)@.radius_refusal(words(input@), value) == Some(e@) && final(self)@
                    == old(self)@,
            },
    {
        if input.len() < 2 {
            return Err(ConfigError::Missing(Argument::Radius));
        }
        match value {
            Some(bits) => {
                if !positive(bits) {
                    return Err(ConfigError::InvalidRadius);
                }
                self.radius = bits;
                Ok(())
            },
            None => Err(ConfigError::InvalidRadius),
        }
    }

    /// Runs the command `prefix <table> <prefix>`: sets the prefix that the
    /// output headers of a table carry.
    pub fn set_prefix(&mut self, input: Vec<&str>) -> (r: Result<(), ConfigError>)
        requires
            old(self).wf(),
        ensures
            final(self).wf(),
            match r {
                Ok(_) => {
                    &&& old(self)@.prefix_refusal(words(input@)) is None
                    &&& final(self)@ == (StateView {
                        frames: old(self)@.frames.update(
                            index_of_text(words(input@)[1])->0 as int,
                            (Table {
                                prefix: words(input@)[2],
                                ..old(self)@.frames[index_of_text(words(input@)[1])->0 as int]
                            }),
                        ),
                        ..old(self)@
                    })
                },
                Err(e) => old(self)@.prefix_refusal(words(input@)) == Some(e@) && final(self)@ == old(
                    self,
                )@,
            },
    {
        if input.len() < 2 {
            return Err(ConfigError::Missing(Argument::FileIndex));
        }
        let index: usize = match parse_index(input[1]) {
            Some(index) => index,
            None => {
                return Err(ConfigError::InvalidIndex);
            },
        };
        if input.len() < 3 {
            return Err(ConfigError::Missing(Argument::Prefix));
        }
        if index >= self.data_frames.len() {
            return Err(ConfigError::IndexOutOfBounds);
        }
        let ghost before = self@;
        let frame = &mut self.data_frames[index];
        frame.set_prefix(input[2]);
        proof {
            let changed = Table { prefix: input@[2]@, ..before.frames[index as int] };
            assert(self@.frames =~= before.frames.update(index as int, changed));
        }
        Ok(())
    }

    /// Runs the command `list <table>`: the names of the columns of a table.
    pub fn get_columns(&self, input: Vec<&str>) -> (r: Result<&Vec<String>, ConfigError>)
        ensures
            match r {
                Ok(headers) => self@.columns_refusal(words(input@)) is None && texts(headers@)
                    == self@.frames[index_of_text(words(input@)[1])->0 as int].headers,
                Err(e) => self@.columns_refusal(words(input@)) == Some(e@),
            },
    {
        if input.len() < 2 {
            return Err(ConfigError::Missing(Argument::FileIndex));
        }
        let index: usize = match parse_index(input[1]) {
            Some(index) => index,
            None => {
                return Err(ConfigError::InvalidIndex);
            },
        };
        if index >= self.data_frames.len() {
            return Err(ConfigError::IndexOutOfBounds);
        }
        Ok(self.data_frames[index].get_headers())
    }

    /// Runs the command `add <table> <kind> <column>`: selects a column of a
    /// table for output, or for the comparison of rows at one location.
    pub fn add_match_column(&mut self, input: Vec<&str>) -> (r: Result<(), ConfigError>)
        requires
            old(self).wf(),
        ensures
            final(self).wf(),
            match r {
                Ok(_) => old(self)@.column_refusal(words(input@)) is None && final(self)@ == old(
                    self,
                )@.with_column(words(input@)),
                Err(e) => old(self)@.column_refusal(words(input@)) == Some(e@) && final(self)@ == old(
                    self,
                )@,
            },
    {
        if input.len() < 2 {
            return Err(ConfigError::Missing(Argument::FileIndex));
        }
        let index: usize = match parse_index(input[1]) {
            Some(index) => index,
            None => {
                return Err(ConfigError::InvalidIndex);
            },
        };
        if input.len() < 3 {
            return Err(ConfigError::Missing(Argument::Kind));
        }
        if input.len() < 4 {
            return Err(ConfigError::Missing(Argument::Column));
        }
        let name: String = join_from(&input, 3);
        if index >= self.data_frames.len() {
            return Err(ConfigError::IndexOutOfBounds);
        }
        let ghost before = self@;
        let output: bool = same_text(input[2], "output");
        if !output && !same_text(input[2], "compare") {
            return Err(ConfigError::InvalidKind);
        }
        let frame = &mut self.data_frames[index];
        let done = if output {
            frame.add_output_column(name.as_str())
        } else {
            frame.add_compare_column(name.as_str())
        };
        match done {
            Ok(_) => {
                proof {
                    assert(self@.frames =~= before.with_column(words(input@)).frames);
                }
                Ok(())
            },
            Err(e) => {
                proof {
                    assert(self@.frames =~= before.frames);
                }
                Err(e)
            },
        }
    }

    /// The cells of the column that the command `set <table> <key> <column>`
    /// turns into an axis, for the caller to read as numbers: there are some
    /// if the command names a table, one of the keys `lat` and `lng`, and a
    /// column of the table.
    pub fn axis_source(&self, input: &Vec<&str>) -> (r: Option<&Vec<String>>)
        requires
            self.wf(),
        ensures
            match r {
                Some(cells) => self@.axis_source(words(input@)) == Some(texts(cells@)),
                None => self@.axis_source(words(input@)) is None,
            },
    {
        if input.len() < 3 {
            return None;
        }
        let index: usize = match parse_index(input[1]) {
            Some(index) => index,
            None => {
                return None;
            },
        };
        if index >= self.data_frames.len() {
            return None;
        }
        match param_of(input[2]) {
            Some(Param::Lat) => {},
            Some(Param::Lng) => {},
            _ => {
                return None;
            },
        }
        let name: String = join_from(input, 3);
        let frame: &DataFrame = &self.data_frames[index];
        match frame.get_col_index(name.as_str()) {
            Ok(c) => {
                Some(&frame.data()[c])
            },
            Err(_) => None,
        }
    }

    /// Runs the command `set <table> <key> <column>`: binds a role of a
    /// table to a column, or turns a column into the latitudes or the
    /// longitudes. For the keys `lat` and `lng`, `values` holds the number
    /// that each cell of the column writes, as the bit pattern of a double.
    pub fn set_param(&mut self, input: Vec<&str>, values: Option<Vec<u64>>) -> (r: Result<(), ConfigError>)
        requires
            old(self).wf(),
        ensures
            final(self).wf(),
            match r {
                Ok(_) => old(self)@.param_refusal(words(input@), crate::data_frame::axis(values)) is None
                    && final(self)@ == old(self)@.with_param(
                    words(input@),
                    crate::data_frame::axis(values),
                ),
                Err(e) => old(self)@.param_refusal(words(input@), crate::data_frame::axis(values))
                    == Some(e@) && final(self)@ == old(self)@,
            },
    {
        if input.len() < 2 {
            return Err(ConfigError::Missing(Argument::Index));
        }
        if input.len() < 3 {
            return Err(ConfigError::Missing(Argument::Key));
        }
        let name: String = join_from(&input, 3);
        let index: usize = match parse_index(input[1]) {
            Some(index) => index,
            None => {
                return Err(ConfigError::InvalidIndex);
            },
        };
        if index >= self.data_frames.len() {
            return Err(ConfigError::IndexOutOfBounds);
        }
        let param: Param = match param_of(input[2]) {
            Some(param) => param,
            None => {
                return Ok(());
            },
        };
        let ghost before = self@;
        let frame = &mut self.data_frames[index];
        let done = match param {
            Param::Addr1 => frame.set_addr1(name.as_str()),
            Param::Addr2 => frame.set_addr2(name.as_str()),
            Param::City => frame.set_city(name.as_str()),
            Param::State => frame.set_state(name.as_str()),
            Param::Zipcode => frame.set_zipcode(name.as_str()),
            Param::Lat => match (frame.get_col_index(name.as_str()), values) {
                (Err(e), _) => Err(e),
                (Ok(_), None) => Err(ConfigError::Missing(Argument::Value)),
                (Ok(_), Some(numbers)) => frame.set_lat(name.as_str(), numbers),
            },
            Param::Lng => match (frame.get_col_index(name.as_str()), values) {
                (Err(e), _) => Err(e),
                (Ok(_), None) => Err(ConfigError::Missing(Argument::Value)),
                (Ok(_), Some(numbers)) => frame.set_lng(name.as_str(), numbers),
            },
        };
        match done {
            Ok(_) => {
                proof {
                    assert(self@.frames =~= before.with_param(
                        words(input@),
                        crate::data_frame::axis(values),
                    ).frames);
                }
                Ok(())
            },
            Err(e) => {
                proof {
                    assert(self@.frames =~= before.frames);
                }
                Err(e)
            },
        }
    }

    /// Takes the outcomes of geocoding, one list per table and one outcome
    /// per row. Tells whether the quota ran out.
    pub fn fetch(&mut self, resolutions: &Vec<Vec<Resolution>>) -> (r: Result<bool, ConfigError>)
        requires
            old(self).wf(),
        ensures
            final(self).wf(),
            match r {
                Ok(over) => {
                    &&& old(self)@.fetch_refusal(outcomes(resolutions@), old(self)@.frames.len() as int) is None
                    &&& final(self)@ == old(self)@.geocoded(outcomes(resolutions@))
                    &&& over == old(self)@.quota_ran_out(outcomes(resolutions@))
                },
                Err(e) => old(self)@.fetch_refusal(outcomes(resolutions@), old(self)@.frames.len() as int)
                    == Some(e) && final(self)@ == old(self)@,
            },
    {
        let ghost before = self@;
        let ghost lists = outcomes(resolutions@);
        let n: usize = self.data_frames.len();
        if resolutions.len() != n {
            return Err(ConfigError::WrongLength);
        }
        let mut t: usize = 0;
        while t < n
            invariant
                t <= n,
                n == self.data_frames@.len(),
                n == resolutions@.len(),
                before == self@,
                self.wf(),
                lists == outcomes(resolutions@),
                before.fetch_refusal(lists, t as int) is None,
            decreases n - t,
        {
            proof {
                fetch_refusal_is_first(before, lists, t as int + 1, n as int);
            }
            if !self.data_frames[t].ready_to_fetch() {
                return Err(ConfigError::NotReady);
            }
            if resolutions[t].len() != self.data_frames[t].rows() {
                return Err(ConfigError::WrongLength);
            }
            t += 1;
        }
        proof {
            fetch_refusal_is_first(before, lists, 0, n as int);
        }
        let mut over: bool = false;
        let mut t: usize = 0;
        while t < n
            invariant
                t <= n,
                n == self.data_frames@.len(),
                n == resolutions@.len(),
                n == before.frames.len(),
                lists == outcomes(resolutions@),
                all_wf(before.frames),
                self.wf(),
                forall|j: int| 0 <= j < n ==> fetch_refusal(#[trigger] before.frames[j], lists[j]) is None,
                self@ == (StateView { frames: self@.frames, ..before }),
                forall|j: int| 0 <= j < t ==> #[trigger] self@.frames[j] == geocoded(before.frames[j], lists[j]),
                forall|j: int| t <= j < n ==> #[trigger] self@.frames[j] == before.frames[j],
                over == exists|j: int| 0 <= j < t && #[trigger] quota_ran_out(before.frames[j], lists[j]),
            decreases n - t,
        {
            let ghost prior = self@.frames;
            assert(prior[t as int].wf());
            let frame = &mut self.data_frames[t];
            let done = frame.fetch(&resolutions[t]);
            match done {
                Ok(ran_out) => {
                    if ran_out {
                        over = true;
                    }
                },
                Err(_) => {},
            }
            proof {
                assert(self@.frames =~= prior.update(t as int, geocoded(before.frames[t as int], lists[t as int])));
            }
            t += 1;
        }
        proof {
            assert(self@.frames =~= before.geocoded(lists).frames);
        }
        Ok(over)
    }

    /// Begins the merge of the tables under the configured mode, radius and
    /// exclusivity, and folds in every table that needs no lookup.
    pub fn find_matches(&self) -> (r: Result<Merge<'_>, ConfigError>)
        requires
            self.wf(),
        ensures
            match r {
                Ok(merge) => refusal(self@.frames, self@.mode) is None && merge.wf() && merge@
                    == MergeView::initial(
                    self@.frames,
                    self@.mode,
                    self@.exclusive,
                    self@.radius,
                ).settled(),
                Err(e) => refusal(self@.frames, self@.mode) == Some(e),
            },
    {
        Merge::begin(&self.data_frames, self.match_mode, self.exclusive, self.radius)
    }
}

} // verus!
