//! A table of text columns with an optional pair of coordinate columns.
use vstd::prelude::*;
use crate::error::ConfigError;
use crate::roles::{infer_roles, last_with_is_within, roles_of, Role};
use crate::text::{blank, is_blank, join_from, joined, same_text};

verus! {

/// What a table holds, as mathematical values.
pub struct Table {
    /// Where the table was read from.
    pub path: Seq<char>,
    /// The name of each text column.
    pub headers: Seq<Seq<char>>,
    /// The field delimiter of the table's source.
    pub delimiter: char,
    /// The prefix that the table's output headers carry.
    pub prefix: Seq<char>,
    /// The text columns: `columns[c][r]` is the cell of column `c` in row `r`.
    pub columns: Seq<Seq<Seq<char>>>,
    /// The number of rows.
    pub rows: nat,
    pub id: Option<usize>,
    pub addr1: Option<usize>,
    pub addr2: Option<usize>,
    pub city: Option<usize>,
    pub state: Option<usize>,
    pub zipcode: Option<usize>,
    /// The latitude of each row, as the bit pattern of a double.
    pub lat: Option<Seq<u64>>,
    /// The longitude of each row, as the bit pattern of a double.
    pub lng: Option<Seq<u64>>,
    /// The columns selected for output, in output order.
    pub output_cols: Seq<usize>,
    /// The columns compared to tell apart rows at one location.
    pub compare_cols: Seq<usize>,
}

/// Whether a role is unbound or bound to one of `width` columns.
pub open spec fn binding_ok(role: Option<usize>, width: nat) -> bool {
    match role {
        Some(c) => c < width,
        None => true,
    }
}

/// Whether an axis is absent or has one value per row.
pub open spec fn axis_ok(axis: Option<Seq<u64>>, rows: nat) -> bool {
    match axis {
        Some(values) => values.len() == rows,
        None => true,
    }
}

impl Table {
    /// The number of text columns.
    pub open spec fn width(self) -> nat {
        self.columns.len()
    }

    /// The invariant of a table: one header per column, one cell per column
    /// and row, one value per row on each axis that is present, every binding
    /// and selection within the columns, and no more rows than can be
    /// indexed.
    pub open spec fn wf(self) -> bool {
        &&& self.headers.len() == self.columns.len()
        &&& self.rows <= usize::MAX
        &&& forall|c: int| 0 <= c < self.columns.len() ==> (#[trigger] self.columns[c]).len() == self.rows
        &&& axis_ok(self.lat, self.rows)
        &&& axis_ok(self.lng, self.rows)
        &&& binding_ok(self.id, self.width())
        &&& binding_ok(self.addr1, self.width())
        &&& binding_ok(self.addr2, self.width())
        &&& binding_ok(self.city, self.width())
        &&& binding_ok(self.state, self.width())
        &&& binding_ok(self.zipcode, self.width())
        &&& forall|k: int| 0 <= k < self.output_cols.len() ==> (#[trigger] self.output_cols[k]) < self.width()
        &&& forall|k: int| 0 <= k < self.compare_cols.len() ==> (#[trigger] self.compare_cols[k]) < self.width()
    }

    /// The column bound to a role, if one is bound.
    pub open spec fn bound_to(self, role: Role) -> Option<usize> {
        match role {
            Role::Id => self.id,
            Role::Addr1 => self.addr1,
            Role::Addr2 => self.addr2,
            Role::City => self.city,
            Role::State => self.state,
            Role::Zipcode => self.zipcode,
            Role::Lat => None,
            Role::Lng => None,
        }
    }

    /// Whether the roles that an address needs are bound.
    pub open spec fn ready_to_fetch(self) -> bool {
        self.addr1 is Some && self.city is Some && self.state is Some
    }

    /// Whether both coordinate axes are present.
    pub open spec fn ready_to_match(self) -> bool {
        self.lat is Some && self.lng is Some
    }

    /// The cells of the given columns in one row.
    pub open spec fn cells(self, cols: Seq<usize>, row: int) -> Seq<Seq<char>> {
        Seq::new(cols.len(), |k: int| self.columns[cols[k] as int][row])
    }

    /// The cells of a row in every column.
    pub open spec fn columns_at(self, row: int) -> Seq<Seq<char>> {
        Seq::new(self.columns.len(), |c: int| self.columns[c][row])
    }

    /// The cells of a row in the output columns.
    pub open spec fn output_row(self, row: int) -> Seq<Seq<char>> {
        self.cells(self.output_cols, row)
    }

    /// The cells of a row in the compare columns.
    pub open spec fn compare_row(self, row: int) -> Seq<Seq<char>> {
        self.cells(self.compare_cols, row)
    }

    /// The header under which a column is written out: its name, after the
    /// prefix and an underscore where the prefix is not empty.
    pub open spec fn output_header(self, col: int) -> Seq<char> {
        if self.prefix.len() == 0 {
            self.headers[col]
        } else {
            self.prefix + seq!['_'] + self.headers[col]
        }
    }

    /// The headers of the output columns.
    pub open spec fn output_headers(self) -> Seq<Seq<char>> {
        Seq::new(self.output_cols.len(), |k: int| self.output_header(self.output_cols[k] as int))
    }

    /// The first column with the given name, if there is one.
    pub open spec fn column_named(self, name: Seq<char>) -> Option<usize> {
        first_named(self.headers, name, 0)
    }

    /// A table of `width` unnamed columns without rows, with both axes
    /// present and nothing bound or selected.
    pub open spec fn empty(width: nat) -> Table {
        Table {
            path: Seq::empty(),
            headers: Seq::new(width, |c: int| Seq::empty()),
            delimiter: '\0',
            prefix: Seq::empty(),
            columns: Seq::new(width, |c: int| Seq::empty()),
            rows: 0,
            id: None,
            addr1: None,
            addr2: None,
            city: None,
            state: None,
            zipcode: None,
            lat: Some(Seq::empty()),
            lng: Some(Seq::empty()),
            output_cols: Seq::empty(),
            compare_cols: Seq::empty(),
        }
    }

    /// A table with the given column names, without rows, with both axes
    /// present and every column an output column.
    pub open spec fn for_output(headers: Seq<Seq<char>>) -> Table {
        Table {
            headers,
            output_cols: Seq::new(headers.len(), |c: int| c as usize),
            ..Table::empty(headers.len())
        }
    }

    /// The table without one column: the bindings and selections of the
    /// column are dropped, and those of later columns follow them.
    pub open spec fn without_column(self, col: int) -> Table {
        Table {
            headers: self.headers.remove(col),
            columns: self.columns.remove(col),
            id: shifted_binding(self.id, col),
            addr1: shifted_binding(self.addr1, col),
            addr2: shifted_binding(self.addr2, col),
            city: shifted_binding(self.city, col),
            state: shifted_binding(self.state, col),
            zipcode: shifted_binding(self.zipcode, col),
            output_cols: shifted_cols(self.output_cols, col),
            compare_cols: shifted_cols(self.compare_cols, col),
            ..self
        }
    }

    /// The table after a text column became the latitudes.
    pub open spec fn with_lat_from(self, col: int, values: Seq<u64>) -> Table {
        Table { lat: Some(values), ..self.without_column(col) }
    }

    /// The table after a text column became the longitudes.
    pub open spec fn with_lng_from(self, col: int, values: Seq<u64>) -> Table {
        Table { lng: Some(values), ..self.without_column(col) }
    }

    /// The address of a row as it is sent for geocoding: the first address
    /// line, the second where one is bound, the city, the state, and the
    /// postal code where one is bound, with single spaces between them. A
    /// row with a blank first address line, city or state has no address.
    pub open spec fn address(self, row: int) -> Option<Seq<char>> {
        let addr1 = self.columns[self.addr1->0 as int][row];
        let city = self.columns[self.city->0 as int][row];
        let state = self.columns[self.state->0 as int][row];
        if is_blank(addr1) || is_blank(city) || is_blank(state) {
            None
        } else {
            Some(joined(self.address_parts(row), 0))
        }
    }

    /// The parts of the address of a row, in order.
    pub open spec fn address_parts(self, row: int) -> Seq<Seq<char>> {
        let addr1 = seq![self.columns[self.addr1->0 as int][row]];
        let addr2 = match self.addr2 {
            Some(c) => seq![self.columns[c as int][row]],
            None => Seq::empty(),
        };
        let rest = seq![self.columns[self.city->0 as int][row], self.columns[self.state->0 as int][row]];
        let zipcode = match self.zipcode {
            Some(c) => seq![self.columns[c as int][row]],
            None => Seq::empty(),
        };
        addr1 + addr2 + rest + zipcode
    }

    /// The table after geocoding: the coordinates of every row, and one more
    /// column, `norm_address`, with the address as the service wrote it.
    pub open spec fn fetched(self, lat: Seq<u64>, lng: Seq<u64>, addresses: Seq<Seq<char>>) -> Table {
        Table {
            headers: self.headers.push("norm_address"@),
            columns: self.columns.push(addresses),
            lat: Some(lat),
            lng: Some(lng),
            ..self
        }
    }

    /// A table as it is read: one column per header, bound to the role that
    /// its header gives it, and nothing selected.
    pub open spec fn read(
        path: Seq<char>,
        delimiter: char,
        headers: Seq<Seq<char>>,
        records: Seq<Seq<Seq<char>>>,
    ) -> Table {
        let roles = roles_of(headers);
        Table {
            path,
            headers,
            delimiter,
            prefix: Seq::empty(),
            columns: Seq::new(headers.len(), |c: int| Seq::new(records.len(), |r: int| records[r][c])),
            rows: records.len(),
            id: roles.id,
            addr1: roles.addr1,
            addr2: roles.addr2,
            city: roles.city,
            state: roles.state,
            zipcode: roles.zipcode,
            lat: None,
            lng: None,
            output_cols: Seq::empty(),
            compare_cols: Seq::empty(),
        }
    }

    /// A table made from the records of the file at `path`: as it is read, but with the
    /// columns that the headers name as latitude and longitude taken out of
    /// the text and replaced by the numbers given for them.
    pub open spec fn from_path(
        path: Seq<char>,
        delimiter: char,
        headers: Seq<Seq<char>>,
        records: Seq<Seq<Seq<char>>>,
        lat: Option<Seq<u64>>,
        lng: Option<Seq<u64>>,
    ) -> Table {
        let roles = roles_of(headers);
        let raw = Table::read(path, delimiter, headers, records);
        let first = match roles.lat {
            Some(c) => raw.with_lat_from(c as int, lat->0),
            None => raw,
        };
        match roles.lng {
            Some(c) => first.with_lng_from(moved(c as int, roles.lat), lng->0),
            None => first,
        }
    }

    /// The table with one more row.
    pub open spec fn with_row(self, cells: Seq<Seq<char>>, lat: u64, lng: u64) -> Table {
        Table {
            columns: Seq::new(self.columns.len(), |c: int| self.columns[c].push(cells[c])),
            rows: self.rows + 1,
            lat: Some(self.lat->0.push(lat)),
            lng: Some(self.lng->0.push(lng)),
            ..self
        }
    }

    /// The table with one cell replaced.
    pub open spec fn with_cell(self, col: int, row: int, text: Seq<char>) -> Table {
        Table { columns: self.columns.update(col, self.columns[col].update(row, text)), ..self }
    }

    /// The table with the coordinates of one row replaced.
    pub open spec fn with_point(self, row: int, lat: u64, lng: u64) -> Table {
        Table {
            lat: Some(self.lat->0.update(row, lat)),
            lng: Some(self.lng->0.update(row, lng)),
            ..self
        }
    }

    /// The table without one row.
    pub open spec fn without_row(self, row: int) -> Table {
        Table {
            columns: Seq::new(self.columns.len(), |c: int| self.columns[c].remove(row)),
            rows: (self.rows - 1) as nat,
            lat: match self.lat {
                Some(values) => Some(values.remove(row)),
                None => None,
            },
            lng: match self.lng {
                Some(values) => Some(values.remove(row)),
                None => None,
            },
            ..self
        }
    }
}

/// The first position from `from` on at which `name` stands among `headers`.
pub open spec fn first_named(headers: Seq<Seq<char>>, name: Seq<char>, from: int) -> Option<usize>
    decreases headers.len() - from,
{
    if from < 0 || from >= headers.len() {
        None
    } else if headers[from] == name {
        Some(from as usize)
    } else {
        first_named(headers, name, from + 1)
    }
}

/// A binding after column `col` was removed: dropped if it was to `col`, and
/// one less if it was to a later column.
pub open spec fn shifted_binding(role: Option<usize>, col: int) -> Option<usize> {
    match role {
        Some(c) => if c == col {
            None
        } else if c > col {
            Some((c - 1) as usize)
        } else {
            Some(c)
        },
        None => None,
    }
}

/// A selection of columns after column `col` was removed.
pub open spec fn shifted_cols(cols: Seq<usize>, col: int) -> Seq<usize>
    decreases cols.len(),
{
    if cols.len() == 0 {
        Seq::empty()
    } else {
        let rest = shifted_cols(cols.drop_last(), col);
        let c = cols.last();
        if c == col {
            rest
        } else if c > col {
            rest.push((c - 1) as usize)
        } else {
            rest.push(c)
        }
    }
}

/// Where column `c` stands once the column `removed` is gone.
pub open spec fn moved(c: int, removed: Option<usize>) -> int {
    match removed {
        Some(gone) => if gone < c {
            c - 1
        } else {
            c
        },
        None => c,
    }
}

/// Whether an axis is given if and only if a column is named for it, with
/// one value per record.
pub open spec fn axis_fits(column: Option<usize>, values: Option<Seq<u64>>, rows: nat) -> bool {
    match column {
        Some(_) => values is Some && values->0.len() == rows,
        None => values is None,
    }
}

/// Why no table can be made from these records, if none can: a record
/// without one field per header, or numbers for an axis that are not one per
/// record, or are missing or superfluous.
pub open spec fn records_refusal(
    headers: Seq<Seq<char>>,
    records: Seq<Seq<Seq<char>>>,
    lat: Option<Seq<u64>>,
    lng: Option<Seq<u64>>,
) -> Option<ConfigError> {
    if exists|r: int| 0 <= r < records.len() && (#[trigger] records[r]).len() != headers.len() {
        Some(ConfigError::RaggedRecord)
    } else if !axis_fits(roles_of(headers).lat, lat, records.len()) || !axis_fits(
        roles_of(headers).lng,
        lng,
        records.len(),
    ) {
        Some(ConfigError::WrongLength)
    } else {
        None
    }
}

/// A selection stays within the columns when a column is removed.
pub proof fn shifted_cols_are_within(cols: Seq<usize>, col: int, width: nat)
    requires
        0 <= col < width,
        forall|k: int| 0 <= k < cols.len() ==> (#[trigger] cols[k]) < width,
    ensures
        forall|k: int|
            0 <= k < shifted_cols(cols, col).len() ==> (#[trigger] shifted_cols(cols, col)[k]) < width - 1,
    decreases cols.len(),
{
    if cols.len() > 0 {
        let init = cols.drop_last();
        shifted_cols_are_within(init, col, width);
        let rest = shifted_cols(init, col);
        let all = shifted_cols(cols, col);
        assert forall|k: int| 0 <= k < all.len() implies (#[trigger] all[k]) < width - 1 by {
            if k < rest.len() {
                assert(all[k] == rest[k]);
            }
        }
    }
}

/// The characters of each text.
pub open spec fn texts(v: Seq<String>) -> Seq<Seq<char>> {
    Seq::new(v.len(), |i: int| v[i]@)
}

/// The characters of each cell of each column.
pub open spec fn grid(v: Seq<Vec<String>>) -> Seq<Seq<Seq<char>>> {
    Seq::new(v.len(), |c: int| texts(v[c]@))
}

/// The values of an axis, if it is present.
pub open spec fn axis(v: Option<Vec<u64>>) -> Option<Seq<u64>> {
    match v {
        Some(values) => Some(values@),
        None => None,
    }
}

/// A table of text columns. Coordinates are kept apart from the text, one
/// latitude and one longitude per row once they are known; a coordinate that
/// is not a number stands for a row that could not be resolved.
#[derive(Clone, Debug)]
pub struct DataFrame {
    path: String,
    headers: Vec<String>,
    rows: usize,
    delimiter: char,
    prefix: String,
    data: Vec<Vec<String>>,
    id: Option<usize>,
    addr1: Option<usize>,
    addr2: Option<usize>,
    city: Option<usize>,
    state: Option<usize>,
    zipcode: Option<usize>,
    lat: Option<Vec<u64>>,
    lng: Option<Vec<u64>>,
    output_cols: Vec<usize>,
    compare_cols: Vec<usize>,
}

impl View for DataFrame {
    type V = Table;

    closed spec fn view(&self) -> Table {
        Table {
            path: self.path@,
            headers: texts(self.headers@),
            delimiter: self.delimiter,
            prefix: self.prefix@,
            columns: grid(self.data@),
            rows: self.rows as nat,
            id: self.id,
            addr1: self.addr1,
            addr2: self.addr2,
            city: self.city,
            state: self.state,
            zipcode: self.zipcode,
            lat: axis(self.lat),
            lng: axis(self.lng),
            output_cols: self.output_cols@,
            compare_cols: self.compare_cols@,
        }
    }
}

impl DataFrame {
    /// The invariant of a table, on what it holds.
    pub open spec fn wf(&self) -> bool {
        self@.wf()
    }

    /// A table of `width` unnamed columns without rows, with room for
    /// `height` rows and with both coordinate axes present.
    pub fn with_capacity(width: usize, height: usize) -> (r: DataFrame)
        ensures
            r@ == Table::empty(width as nat),
            r.wf(),
    {
        let mut data: Vec<Vec<String>> = Vec::with_capacity(width);
        let mut headers: Vec<String> = Vec::with_capacity(width);
        let mut c: usize = 0;
        while c < width
            invariant
                c <= width,
                data@.len() == c,
                headers@.len() == c,
                forall|i: int| 0 <= i < c ==> (#[trigger] data@[i])@.len() == 0,
                forall|i: int| 0 <= i < c ==> (#[trigger] headers@[i])@.len() == 0,
            decreases width - c,
        {
            data.push(Vec::with_capacity(height));
            headers.push(String::new());
            c += 1;
        }
        let r = DataFrame {
            path: String::new(),
            headers,
            rows: 0,
            delimiter: '\0',
            prefix: String::new(),
            data,
            id: None,
            addr1: None,
            addr2: None,
            city: None,
            state: None,
            zipcode: None,
            lat: Some(Vec::with_capacity(height)),
            lng: Some(Vec::with_capacity(height)),
            output_cols: Vec::new(),
            compare_cols: Vec::new(),
        };
        proof {
            assert(r@.headers =~~= Table::empty(width as nat).headers);
            assert(r@.columns =~~= Table::empty(width as nat).columns);
        }
        r
    }

    /// A table with the given column names, without rows and with room for
    /// `height` of them, with both coordinate axes present and every column
    /// an output column.
    pub fn for_output(headers: Vec<String>, height: usize) -> (r: DataFrame)
        ensures
            r@ == Table::for_output(texts(headers@)),
            r.wf(),
    {
        let width: usize = headers.len();
        let mut r = DataFrame::with_capacity(width, height);
        let mut output_cols: Vec<usize> = Vec::with_capacity(width);
        let mut c: usize = 0;
        while c < width
            invariant
                c <= width,
                output_cols@.len() == c,
                forall|i: int| 0 <= i < c ==> #[trigger] output_cols@[i] == i,
            decreases width - c,
        {
            output_cols.push(c);
            c += 1;
        }
        r.headers = headers;
        r.output_cols = output_cols;
        assert(r@.output_cols =~= Table::for_output(texts(headers@)).output_cols);
        r
    }

    /// The number of text columns and the number of rows.
    pub fn shape(&self) -> (r: (usize, usize))
        ensures
            r.0 == self@.width(),
            r.1 == self@.rows,
    {
        (self.data.len(), self.rows)
    }

    /// Where the table was read from.
    pub fn path(&self) -> (r: &String)
        ensures
            r@ == self@.path,
    {
        &self.path
    }

    /// The field delimiter of the table's source.
    pub fn delimiter(&self) -> (r: char)
        ensures
            r == self@.delimiter,
    {
        self.delimiter
    }

    /// The prefix that the output headers carry.
    pub fn prefix(&self) -> (r: &String)
        ensures
            r@ == self@.prefix,
    {
        &self.prefix
    }

    /// The column bound to a role, if one is bound. The coordinates are no
    /// columns: `Lat` and `Lng` are never bound.
    pub fn role_column(&self, role: Role) -> (r: Option<usize>)
        ensures
            r == self@.bound_to(role),
    {
        match role {
            Role::Id => self.id,
            Role::Addr1 => self.addr1,
            Role::Addr2 => self.addr2,
            Role::City => self.city,
            Role::State => self.state,
            Role::Zipcode => self.zipcode,
            Role::Lat => None,
            Role::Lng => None,
        }
    }

    /// The columns selected for output, in output order.
    pub fn output_cols(&self) -> (r: &Vec<usize>)
        ensures
            r@ == self@.output_cols,
    {
        &self.output_cols
    }

    /// The columns selected for the comparison of rows at one location.
    pub fn compare_cols(&self) -> (r: &Vec<usize>)
        ensures
            r@ == self@.compare_cols,
    {
        &self.compare_cols
    }

    /// The number of output columns.
    pub fn output_width(&self) -> (r: usize)
        ensures
            r == self@.output_cols.len(),
    {
        self.output_cols.len()
    }

    /// The number of rows.
    pub fn rows(&self) -> (r: usize)
        ensures
            r == self@.rows,
    {
        self.rows
    }

    /// Tells whether the address line, the city and the state are bound.
    pub fn ready_to_fetch(&self) -> (r: bool)
        ensures
            r == self@.ready_to_fetch(),
    {
        self.addr1.is_some() && self.city.is_some() && self.state.is_some()
    }

    /// Tells whether latitudes and longitudes are present.
    pub fn ready_to_match(&self) -> (r: bool)
        ensures
            r == self@.ready_to_match(),
    {
        self.lat.is_some() && self.lng.is_some()
    }

    /// The names of the text columns.
    pub fn get_headers(&self) -> (r: &Vec<String>)
        ensures
            texts(r@) == self@.headers,
    {
        &self.headers
    }

    /// The latitudes, if they are present.
    pub fn lat(&self) -> (r: Option<&Vec<u64>>)
        ensures
            match r {
                Some(values) => self@.lat == Some(values@),
                None => self@.lat is None,
            },
    {
        match &self.lat {
            Some(values) => Some(values),
            None => None,
        }
    }

    /// The longitudes, if they are present.
    pub fn lng(&self) -> (r: Option<&Vec<u64>>)
        ensures
            match r {
                Some(values) => self@.lng == Some(values@),
                None => self@.lng is None,
            },
    {
        match &self.lng {
            Some(values) => Some(values),
            None => None,
        }
    }

    /// The latitudes, to be changed in place. The table is well formed
    /// afterwards if there is still one latitude per row.
    pub fn lat_mut(&mut self) -> (r: Option<&mut Vec<u64>>)
        ensures
            match r {
                Some(values) => old(self)@.lat == Some(values@) && final(self)@ == (Table {
                    lat: Some(final(values)@),
                    ..old(self)@
                }),
                None => old(self)@.lat is None && final(self)@ == old(self)@,
            },
    {
        match &mut self.lat {
            Some(values) => Some(values),
            None => None,
        }
    }

    /// The longitudes, to be changed in place. The table is well formed
    /// afterwards if there is still one longitude per row.
    pub fn lng_mut(&mut self) -> (r: Option<&mut Vec<u64>>)
        ensures
            match r {
                Some(values) => old(self)@.lng == Some(values@) && final(self)@ == (Table {
                    lng: Some(final(values)@),
                    ..old(self)@
                }),
                None => old(self)@.lng is None && final(self)@ == old(self)@,
            },
    {
        match &mut self.lng {
            Some(values) => Some(values),
            None => None,
        }
    }

    /// The text columns, to be changed in place. The table is well formed
    /// afterwards if there is still one cell per column and row, and one
    /// column per header.
    pub fn data_mut(&mut self) -> (r: &mut Vec<Vec<String>>)
        ensures
            grid(r@) == old(self)@.columns,
            final(self)@ == (Table { columns: grid(final(r)@), ..old(self)@ }),
    {
        &mut self.data
    }

    /// The text columns.
    pub fn data(&self) -> (r: &Vec<Vec<String>>)
        ensures
            grid(r@) == self@.columns,
    {
        &self.data
    }

    /// The cells of one row in the given columns.
    fn cells(&self, cols: &Vec<usize>, row: usize) -> (r: Vec<String>)
        requires
            self.wf(),
            row < self@.rows,
            forall|k: int| 0 <= k < cols@.len() ==> (#[trigger] cols@[k]) < self@.width(),
        ensures
            texts(r@) == self@.cells(cols@, row as int),
    {
        let mut out: Vec<String> = Vec::new();
        let mut k: usize = 0;
        while k < cols.len()
            invariant
                k <= cols@.len(),
                self.wf(),
                row < self@.rows,
                forall|j: int| 0 <= j < cols@.len() ==> (#[trigger] cols@[j]) < self@.width(),
                out@.len() == k,
                forall|j: int| 0 <= j < k ==> (#[trigger] out@[j])@ == self@.columns[cols@[j] as int][row as int],
            decreases cols@.len() - k,
        {
            let c: usize = cols[k];
            assert(self@.columns[c as int].len() == self@.rows);
            out.push(self.data[c][row].clone());
            k += 1;
        }
        out
    }

    /// The cells of a row in every column, in column order.
    pub fn row(&self, row: usize) -> (r: Vec<String>)
        requires
            self.wf(),
            row < self@.rows,
        ensures
            texts(r@) == self@.columns_at(row as int),
    {
        let width: usize = self.data.len();
        let mut out: Vec<String> = Vec::with_capacity(width);
        let mut c: usize = 0;
        while c < width
            invariant
                c <= width,
                width == self.data@.len(),
                self.wf(),
                row < self@.rows,
                out@.len() == c,
                forall|j: int| 0 <= j < c ==> (#[trigger] out@[j])@ == self@.columns[j][row as int],
            decreases width - c,
        {
            assert(self@.columns[c as int].len() == self@.rows);
            out.push(self.data[c][row].clone());
            c += 1;
        }
        out
    }

    /// The cells of a row in the output columns, in output order.
    pub fn output_row(&self, row: usize) -> (r: Vec<String>)
        requires
            self.wf(),
            row < self@.rows,
        ensures
            texts(r@) == self@.output_row(row as int),
    {
        assert(self@.output_cols == self.output_cols@);
        self.cells(&self.output_cols, row)
    }

    /// The cells of a row in the compare columns.
    pub fn compare_row(&self, row: usize) -> (r: Vec<String>)
        requires
            self.wf(),
            row < self@.rows,
        ensures
            texts(r@) == self@.compare_row(row as int),
    {
        self.cells(&self.compare_cols, row)
    }

    /// The headers of the output columns, each after the table's prefix and
    /// an underscore where the prefix is not empty.
    pub fn output_headers(&self) -> (r: Vec<String>)
        requires
            self.wf(),
        ensures
            texts(r@) == self@.output_headers(),
    {
        let mut out: Vec<String> = Vec::new();
        let mut k: usize = 0;
        while k < self.output_cols.len()
            invariant
                k <= self.output_cols@.len(),
                self.wf(),
                out@.len() == k,
                forall|j: int| 0 <= j < k ==> (#[trigger] out@[j])@ == self@.output_header(self@.output_cols[j] as int),
            decreases self.output_cols@.len() - k,
        {
            let c: usize = self.output_cols[k];
            assert(self@.output_cols[k as int] < self@.width());
            if self.prefix.as_str().unicode_len() == 0 {
                out.push(self.headers[c].clone());
            } else {
                let mut name: String = self.prefix.clone();
                name.append("_");
                name.append(self.headers[c].as_str());
                proof {
                    reveal_strlit("_");
                }
                out.push(name);
            }
            k += 1;
        }
        out
    }

    /// Finds the first column with the given name.
    pub fn get_col_index(&self, col: &str) -> (r: Result<usize, ConfigError>)
        ensures
            match r {
                Ok(c) => self@.column_named(col@) == Some(c) && c < self@.headers.len()
                    && self@.headers[c as int] == col@,
                Err(e) => self@.column_named(col@) is None && e.is_unknown_column(col@),
            },
    {
        let n: usize = self.headers.len();
        let ghost names = self@.headers;
        let mut i: usize = 0;
        while i < n
            invariant
                i <= n,
                n == self.headers@.len(),
                names == texts(self.headers@),
                first_named(names, col@, 0) == first_named(names, col@, i as int),
            decreases n - i,
        {
            if same_text(self.headers[i].as_str(), col) {
                return Ok(i);
            }
            i += 1;
        }
        Err(ConfigError::UnknownColumn(col.to_owned()))
    }

    /// The cells of the column bound to a role, if one is bound.
    fn bound_column(&self, role: Option<usize>) -> (r: Option<&Vec<String>>)
        requires
            self.wf(),
            binding_ok(role, self@.width()),
        ensures
            match r {
                Some(cells) => role is Some && texts(cells@) == self@.columns[role->0 as int],
                None => role is None,
            },
    {
        match role {
            Some(c) => Some(&self.data[c]),
            None => None,
        }
    }

    /// The column of identifiers, if one is bound.
    pub fn id(&self) -> (r: Option<&Vec<String>>)
        requires
            self.wf(),
        ensures
            match r {
                Some(cells) => self@.id is Some && texts(cells@) == self@.columns[self@.id->0 as int],
                None => self@.id is None,
            },
    {
        self.bound_column(self.id)
    }

    /// The column of first address lines, if one is bound.
    pub fn addr1(&self) -> (r: Option<&Vec<String>>)
        requires
            self.wf(),
        ensures
            match r {
                Some(cells) => self@.addr1 is Some && texts(cells@) == self@.columns[self@.addr1->0 as int],
                None => self@.addr1 is None,
            },
    {
        self.bound_column(self.addr1)
    }

    /// The column of second address lines, if one is bound.
    pub fn addr2(&self) -> (r: Option<&Vec<String>>)
        requires
            self.wf(),
        ensures
            match r {
                Some(cells) => self@.addr2 is Some && texts(cells@) == self@.columns[self@.addr2->0 as int],
                None => self@.addr2 is None,
            },
    {
        self.bound_column(self.addr2)
    }

    /// The column of cities, if one is bound.
    pub fn city(&self) -> (r: Option<&Vec<String>>)
        requires
            self.wf(),
        ensures
            match r {
                Some(cells) => self@.city is Some && texts(cells@) == self@.columns[self@.city->0 as int],
                None => self@.city is None,
            },
    {
        self.bound_column(self.city)
    }

    /// The column of states, if one is bound.
    pub fn state(&self) -> (r: Option<&Vec<String>>)
        requires
            self.wf(),
        ensures
            match r {
                Some(cells) => self@.state is Some && texts(cells@) == self@.columns[self@.state->0 as int],
                None => self@.state is None,
            },
    {
        self.bound_column(self.state)
    }

    /// The column of postal codes, if one is bound.
    pub fn zipcode(&self) -> (r: Option<&Vec<String>>)
        requires
            self.wf(),
        ensures
            match r {
                Some(cells) => self@.zipcode is Some && texts(cells@) == self@.columns[self@.zipcode->0 as int],
                None => self@.zipcode is None,
            },
    {
        self.bound_column(self.zipcode)
    }

    /// Names the text columns anew.
    pub fn set_headers(&mut self, headers: Vec<String>)
        requires
            old(self).wf(),
            headers@.len() == old(self)@.width(),
        ensures
            final(self)@ == (Table { headers: texts(headers@), ..old(self)@ }),
            final(self).wf(),
    {
        self.headers = headers;
    }

    /// Sets the prefix that the output headers carry.
    pub fn set_prefix(&mut self, prefix: &str)
        ensures
            final(self)@ == (Table { prefix: prefix@, ..old(self)@ }),
    {
        self.prefix = prefix.to_owned();
    }

    /// Selects the column of the given name for output, after those selected
    /// before.
    pub fn add_output_column(&mut self, col: &str) -> (r: Result<(), ConfigError>)
        requires
            old(self).wf(),
        ensures
            final(self).wf(),
            match r {
                Ok(_) => old(self)@.column_named(col@) is Some && final(self)@ == (Table {
                    output_cols: old(self)@.output_cols.push(old(self)@.column_named(col@)->0),
                    ..old(self)@
                }),
                Err(e) => old(self)@.column_named(col@) is None && e.is_unknown_column(col@)
                    && final(self)@ == old(self)@,
            },
    {
        match self.get_col_index(col) {
            Ok(c) => {
                self.output_cols.push(c);
                Ok(())
            },
            Err(e) => Err(e),
        }
    }

    /// Selects the column of the given name for the comparison of rows at
    /// one location, after those selected before.
    pub fn add_compare_column(&mut self, col: &str) -> (r: Result<(), ConfigError>)
        requires
            old(self).wf(),
        ensures
            final(self).wf(),
            match r {
                Ok(_) => old(self)@.column_named(col@) is Some && final(self)@ == (Table {
                    compare_cols: old(self)@.compare_cols.push(old(self)@.column_named(col@)->0),
                    ..old(self)@
                }),
                Err(e) => old(self)@.column_named(col@) is None && e.is_unknown_column(col@)
                    && final(self)@ == old(self)@,
            },
    {
        match self.get_col_index(col) {
            Ok(c) => {
                self.compare_cols.push(c);
                Ok(())
            },
            Err(e) => Err(e),
        }
    }

    /// Binds the identifier to the column of the given name.
    pub fn set_id(&mut self, col: &str) -> (r: Result<(), ConfigError>)
        requires
            old(self).wf(),
        ensures
            final(self).wf(),
            match r {
                Ok(_) => old(self)@.column_named(col@) is Some && final(self)@ == (Table {
                    id: old(self)@.column_named(col@),
                    ..old(self)@
                }),
                Err(e) => old(self)@.column_named(col@) is None && e.is_unknown_column(col@)
                    && final(self)@ == old(self)@,
            },
    {
        match self.get_col_index(col) {
            Ok(c) => {
                self.id = Some(c);
                Ok(())
            },
            Err(e) => Err(e),
        }
    }

    /// Binds the first address line to the column of the given name.
    pub fn set_addr1(&mut self, col: &str) -> (r: Result<(), ConfigError>)
        requires
            old(self).wf(),
        ensures
            final(self).wf(),
            match r {
                Ok(_) => old(self)@.column_named(col@) is Some && final(self)@ == (Table {
                    addr1: old(self)@.column_named(col@),
                    ..old(self)@
                }),
                Err(e) => old(self)@.column_named(col@) is None && e.is_unknown_column(col@)
                    && final(self)@ == old(self)@,
            },
    {
        match self.get_col_index(col) {
            Ok(c) => {
                self.addr1 = Some(c);
                Ok(())
            },
            Err(e) => Err(e),
        }
    }

    /// Binds the second address line to the column of the given name.
    pub fn set_addr2(&mut self, col: &str) -> (r: Result<(), ConfigError>)
        requires
            old(self).wf(),
        ensures
            final(self).wf(),
            match r {
                Ok(_) => old(self)@.column_named(col@) is Some && final(self)@ == (Table {
                    addr2: old(self)@.column_named(col@),
                    ..old(self)@
                }),
                Err(e) => old(self)@.column_named(col@) is None && e.is_unknown_column(col@)
                    && final(self)@ == old(self)@,
            },
    {
        match self.get_col_index(col) {
            Ok(c) => {
                self.addr2 = Some(c);
                Ok(())
            },
            Err(e) => Err(e),
        }
    }

    /// Binds the city to the column of the given name.
    pub fn set_city(&mut self, col: &str) -> (r: Result<(), ConfigError>)
        requires
            old(self).wf(),
        ensures
            final(self).wf(),
            match r {
                Ok(_) => old(self)@.column_named(col@) is Some && final(self)@ == (Table {
                    city: old(self)@.column_named(col@),
                    ..old(self)@
                }),
                Err(e) => old(self)@.column_named(col@) is None && e.is_unknown_column(col@)
                    && final(self)@ == old(self)@,
            },
    {
        match self.get_col_index(col) {
            Ok(c) => {
                self.city = Some(c);
                Ok(())
            },
            Err(e) => Err(e),
        }
    }

    /// Binds the state to the column of the given name.
    pub fn set_state(&mut self, col: &str) -> (r: Result<(), ConfigError>)
        requires
            old(self).wf(),
        ensures
            final(self).wf(),
            match r {
                Ok(_) => old(self)@.column_named(col@) is Some && final(self)@ == (Table {
                    state: old(self)@.column_named(col@),
                    ..old(self)@
                }),
                Err(e) => old(self)@.column_named(col@) is None && e.is_unknown_column(col@)
                    && final(self)@ == old(self)@,
            },
    {
        match self.get_col_index(col) {
            Ok(c) => {
                self.state = Some(c);
                Ok(())
            },
            Err(e) => Err(e),
        }
    }

    /// Binds the postal code to the column of the given name.
    pub fn set_zipcode(&mut self, col: &str) -> (r: Result<(), ConfigError>)
        requires
            old(self).wf(),
        ensures
            final(self).wf(),
            match r {
                Ok(_) => old(self)@.column_named(col@) is Some && final(self)@ == (Table {
                    zipcode: old(self)@.column_named(col@),
                    ..old(self)@
                }),
                Err(e) => old(self)@.column_named(col@) is None && e.is_unknown_column(col@)
                    && final(self)@ == old(self)@,
            },
    {
        match self.get_col_index(col) {
            Ok(c) => {
                self.zipcode = Some(c);
                Ok(())
            },
            Err(e) => Err(e),
        }
    }

    /// Removes a row from every column and from both axes.
    pub fn remove_row(&mut self, row: usize)
        requires
            old(self).wf(),
            row < old(self)@.rows,
        ensures
            final(self)@ == old(self)@.without_row(row as int),
            final(self).wf(),
    {
        let ghost before = self@;
        let width: usize = self.data.len();
        let mut c: usize = 0;
        while c < width
            invariant
                c <= width,
                width == self.data@.len(),
                before.wf(),
                row < before.rows,
                before.columns.len() == width,
                self@ == (Table { columns: self@.columns, ..before }),
                forall|i: int| 0 <= i < c ==> (#[trigger] self@.columns[i]) == before.columns[i].remove(row as int),
                forall|i: int| c <= i < width ==> (#[trigger] self@.columns[i]) == before.columns[i],
            decreases width - c,
        {
            let ghost prior = self.data@;
            assert(self@.columns[c as int].len() == self.data@[c as int]@.len());
            let column = &mut self.data[c];
            column.remove(row);
            proof {
                assert forall|i: int| 0 <= i < width && i != c implies (#[trigger] grid(
                    self.data@,
                )[i]) == grid(prior)[i] by {
                }
            }
            c += 1;
        }
        match &mut self.lat {
            Some(values) => {
                values.remove(row);
            },
            None => {},
        }
        match &mut self.lng {
            Some(values) => {
                values.remove(row);
            },
            None => {},
        }
        self.rows = self.rows - 1;
        proof {
            let want = before.without_row(row as int);
            assert(self@.columns =~= want.columns);
        }
    }

    /// A binding after a column was removed.
    fn shift_binding(role: Option<usize>, col: usize) -> (r: Option<usize>)
        ensures
            r == shifted_binding(role, col as int),
    {
        match role {
            Some(c) => if c == col {
                None
            } else if c > col {
                Some(c - 1)
            } else {
                Some(c)
            },
            None => None,
        }
    }

    /// A selection of columns after a column was removed.
    fn shift_cols(cols: &Vec<usize>, col: usize) -> (r: Vec<usize>)
        ensures
            r@ == shifted_cols(cols@, col as int),
    {
        let n: usize = cols.len();
        let mut out: Vec<usize> = Vec::with_capacity(n);
        let mut k: usize = 0;
        while k < n
            invariant
                k <= n,
                n == cols@.len(),
                out@ == shifted_cols(cols@.take(k as int), col as int),
            decreases n - k,
        {
            assert(cols@.take(k as int + 1).drop_last() =~= cols@.take(k as int));
            let c: usize = cols[k];
            if c > col {
                out.push(c - 1);
            } else if c < col {
                out.push(c);
            }
            k += 1;
        }
        assert(cols@.take(n as int) =~= cols@);
        out
    }

    /// Removes a text column.
    fn remove_column(&mut self, col: usize)
        requires
            old(self).wf(),
            col < old(self)@.width(),
        ensures
            final(self)@ == old(self)@.without_column(col as int),
            final(self).wf(),
    {
        let ghost before = self@;
        self.data.remove(col);
        self.headers.remove(col);
        self.id = Self::shift_binding(self.id, col);
        self.addr1 = Self::shift_binding(self.addr1, col);
        self.addr2 = Self::shift_binding(self.addr2, col);
        self.city = Self::shift_binding(self.city, col);
        self.state = Self::shift_binding(self.state, col);
        self.zipcode = Self::shift_binding(self.zipcode, col);
        self.output_cols = Self::shift_cols(&self.output_cols, col);
        self.compare_cols = Self::shift_cols(&self.compare_cols, col);
        proof {
            let want = before.without_column(col as int);
            assert(self@.columns =~= want.columns);
            assert(self@.headers =~= want.headers);
            shifted_cols_are_within(before.output_cols, col as int, before.width());
            shifted_cols_are_within(before.compare_cols, col as int, before.width());
            assert forall|c: int| 0 <= c < self@.columns.len() implies (#[trigger] self@.columns[c]).len()
                == self@.rows by {
            }
        }
    }

    /// Turns the text column of the given name into the latitudes. `values`
    /// holds the number that each cell of the column writes, as the bit
    /// pattern of a double, and the pattern of not-a-number for a cell that
    /// writes none. The column leaves the text columns; bindings and
    /// selections follow the columns that they name.
    pub fn set_lat(&mut self, col: &str, values: Vec<u64>) -> (r: Result<(), ConfigError>)
        requires
            old(self).wf(),
        ensures
            final(self).wf(),
            match r {
                Ok(_) => {
                    &&& old(self)@.column_named(col@) is Some
                    &&& values@.len() == old(self)@.rows
                    &&& final(self)@ == old(self)@.with_lat_from(
                        old(self)@.column_named(col@)->0 as int,
                        values@,
                    )
                },
                Err(e) => {
                    &&& final(self)@ == old(self)@
                    &&& if old(self)@.column_named(col@) is None {
                        e.is_unknown_column(col@)
                    } else {
                        values@.len() != old(self)@.rows && e == ConfigError::WrongLength
                    }
                },
            },
    {
        match self.get_col_index(col) {
            Ok(c) => {
                if values.len() != self.rows {
                    return Err(ConfigError::WrongLength);
                }
                self.remove_column(c);
                self.lat = Some(values);
                Ok(())
            },
            Err(e) => Err(e),
        }
    }

    /// Turns the text column of the given name into the longitudes, as
    /// `set_lat` does for the latitudes.
    pub fn set_lng(&mut self, col: &str, values: Vec<u64>) -> (r: Result<(), ConfigError>)
        requires
            old(self).wf(),
        ensures
            final(self).wf(),
            match r {
                Ok(_) => {
                    &&& old(self)@.column_named(col@) is Some
                    &&& values@.len() == old(self)@.rows
                    &&& final(self)@ == old(self)@.with_lng_from(
                        old(self)@.column_named(col@)->0 as int,
                        values@,
                    )
                },
                Err(e) => {
                    &&& final(self)@ == old(self)@
                    &&& if old(self)@.column_named(col@) is None {
                        e.is_unknown_column(col@)
                    } else {
                        values@.len() != old(self)@.rows && e == ConfigError::WrongLength
                    }
                },
            },
    {
        match self.get_col_index(col) {
            Ok(c) => {
                if values.len() != self.rows {
                    return Err(ConfigError::WrongLength);
                }
                self.remove_column(c);
                self.lng = Some(values);
                Ok(())
            },
            Err(e) => Err(e),
        }
    }

    /// The address of a row as it is sent for geocoding, if the row has one.
    pub fn get_address(&self, row: usize) -> (r: Option<String>)
        requires
            self.wf(),
            self@.ready_to_fetch(),
            row < self@.rows,
        ensures
            match r {
                Some(address) => self@.address(row as int) == Some(address@),
                None => self@.address(row as int) is None,
            },
    {
        let a: usize = self.addr1.unwrap();
        let c: usize = self.city.unwrap();
        let s: usize = self.state.unwrap();
        assert(self@.columns[c as int].len() == self@.rows);
        assert(self@.columns[s as int].len() == self@.rows);
        let addr1: &str = self.data[a][row].as_str();
        let city: &str = self.data[c][row].as_str();
        let state: &str = self.data[s][row].as_str();
        if blank(addr1) || blank(city) || blank(state) {
            return None;
        }
        let mut parts: Vec<&str> = Vec::new();
        parts.push(addr1);
        match self.addr2 {
            Some(c2) => {
                parts.push(self.data[c2][row].as_str());
            },
            None => {},
        }
        parts.push(city);
        parts.push(state);
        match self.zipcode {
            Some(z) => {
                parts.push(self.data[z][row].as_str());
            },
            None => {},
        }
        let address: String = join_from(&parts, 0);
        assert(parts@.map_values(|p: &str| p@) =~= self@.address_parts(row as int));
        Some(address)
    }

    /// The address of every row, in row order.
    pub fn addresses(&self) -> (r: Vec<Option<String>>)
        requires
            self.wf(),
            self@.ready_to_fetch(),
        ensures
            r@.len() == self@.rows,
            forall|row: int|
                0 <= row < self@.rows ==> match #[trigger] r@[row] {
                    Some(address) => self@.address(row) == Some(address@),
                    None => self@.address(row) is None,
                },
    {
        let n: usize = self.rows;
        let mut out: Vec<Option<String>> = Vec::with_capacity(n);
        let mut row: usize = 0;
        while row < n
            invariant
                row <= n,
                n == self@.rows,
                self.wf(),
                self@.ready_to_fetch(),
                out@.len() == row,
                forall|j: int|
                    0 <= j < row ==> match #[trigger] out@[j] {
                        Some(address) => self@.address(j) == Some(address@),
                        None => self@.address(j) is None,
                    },
            decreases n - row,
        {
            out.push(self.get_address(row));
            row += 1;
        }
        out
    }

    /// Installs the outcome of geocoding: the coordinates of every row, and
    /// a new last column, `norm_address`, with the address of every row as
    /// the service wrote it.
    pub fn set_coordinates(&mut self, lat: Vec<u64>, lng: Vec<u64>, addresses: Vec<String>)
        requires
            old(self).wf(),
            lat@.len() == old(self)@.rows,
            lng@.len() == old(self)@.rows,
            addresses@.len() == old(self)@.rows,
        ensures
            final(self)@ == old(self)@.fetched(lat@, lng@, texts(addresses@)),
            final(self).wf(),
    {
        let ghost before = self@;
        self.lat = Some(lat);
        self.lng = Some(lng);
        self.headers.push("norm_address".to_owned());
        self.data.push(addresses);
        proof {
            let want = before.fetched(lat@, lng@, texts(addresses@));
            assert(self@.headers =~= want.headers);
            assert(self@.columns =~= want.columns);
            assert forall|c: int| 0 <= c < self@.columns.len() implies (#[trigger] self@.columns[c]).len()
                == self@.rows by {
            }
        }
    }

    /// Makes a table from what the file at `path` holds: its delimiter, its
    /// headers and its records. The headers bind the roles; the columns that
    /// they name as latitude and longitude leave the text, and `lat` and
    /// `lng` hold the numbers that their cells write, one per record, as bit
    /// patterns of doubles.
    pub fn from_path(
        path: &str,
        delimiter: char,
        headers: Vec<String>,
        records: &Vec<Vec<String>>,
        lat: Option<Vec<u64>>,
        lng: Option<Vec<u64>>,
    ) -> (r: Result<DataFrame, ConfigError>)
        ensures
            match r {
                Ok(frame) => {
                    &&& records_refusal(texts(headers@), grid(records@), axis(lat), axis(lng)) is None
                    &&& frame.wf()
                    &&& frame@ == Table::from_path(
                        path@,
                        delimiter,
                        texts(headers@),
                        grid(records@),
                        axis(lat),
                        axis(lng),
                    )
                },
                Err(e) => records_refusal(texts(headers@), grid(records@), axis(lat), axis(lng)) == Some(e),
            },
    {
        let ghost names = texts(headers@);
        let ghost fields = grid(records@);
        let width: usize = headers.len();
        let height: usize = records.len();
        let mut r: usize = 0;
        while r < height
            invariant
                r <= height,
                height == records@.len(),
                width == headers@.len(),
                names == texts(headers@),
                fields == grid(records@),
                forall|j: int| 0 <= j < r ==> (#[trigger] fields[j]).len() == names.len(),
            decreases height - r,
        {
            assert(fields[r as int].len() == records@[r as int]@.len());
            if records[r].len() != width {
                return Err(ConfigError::RaggedRecord);
            }
            r += 1;
        }
        let roles = infer_roles(&headers);
        proof {
            last_with_is_within(names, Role::Id, width as int);
            last_with_is_within(names, Role::Addr1, width as int);
            last_with_is_within(names, Role::Addr2, width as int);
            last_with_is_within(names, Role::City, width as int);
            last_with_is_within(names, Role::State, width as int);
            last_with_is_within(names, Role::Zipcode, width as int);
            last_with_is_within(names, Role::Lat, width as int);
            last_with_is_within(names, Role::Lng, width as int);
        }
        let lat_fits: bool = match (&roles.lat, &lat) {
            (Some(_), Some(values)) => values.len() == height,
            (None, None) => true,
            _ => false,
        };
        let lng_fits: bool = match (&roles.lng, &lng) {
            (Some(_), Some(values)) => values.len() == height,
            (None, None) => true,
            _ => false,
        };
        if !lat_fits || !lng_fits {
            return Err(ConfigError::WrongLength);
        }
        let mut data: Vec<Vec<String>> = Vec::with_capacity(width);
        let mut c: usize = 0;
        while c < width
            invariant
                c <= width,
                height == records@.len(),
                width == headers@.len(),
                names == texts(headers@),
                fields == grid(records@),
                forall|j: int| 0 <= j < height ==> (#[trigger] fields[j]).len() == width,
                data@.len() == c,
                forall|i: int|
                    0 <= i < c ==> texts((#[trigger] data@[i])@) == Seq::new(
                        height as nat,
                        |j: int| fields[j][i],
                    ),
            decreases width - c,
        {
            let mut column: Vec<String> = Vec::with_capacity(height);
            let mut r: usize = 0;
            while r < height
                invariant
                    r <= height,
                    c < width,
                    height == records@.len(),
                    fields == grid(records@),
                    forall|j: int| 0 <= j < height ==> (#[trigger] fields[j]).len() == width,
                    column@.len() == r,
                    forall|j: int| 0 <= j < r ==> (#[trigger] column@[j])@ == fields[j][c as int],
                decreases height - r,
            {
                assert(fields[r as int].len() == records@[r as int]@.len());
                column.push(records[r][c].clone());
                r += 1;
            }
            data.push(column);
            c += 1;
        }
        let mut frame = DataFrame {
            path: path.to_owned(),
            headers,
            rows: height,
            delimiter,
            prefix: String::new(),
            data,
            id: roles.id,
            addr1: roles.addr1,
            addr2: roles.addr2,
            city: roles.city,
            state: roles.state,
            zipcode: roles.zipcode,
            lat: None,
            lng: None,
            output_cols: Vec::new(),
            compare_cols: Vec::new(),
        };
        proof {
            let raw = Table::read(path@, delimiter, names, fields);
            assert(frame@.columns =~~= raw.columns);
        }
        match roles.lat {
            Some(c) => {
                frame.remove_column(c);
                frame.lat = lat;
            },
            None => {},
        }
        match roles.lng {
            Some(c) => {
                let at: usize = match roles.lat {
                    Some(gone) => if gone < c {
                        c - 1
                    } else {
                        c
                    },
                    None => c,
                };
                frame.remove_column(at);
                frame.lng = lng;
            },
            None => {},
        }
        Ok(frame)
    }

    /// Appends a row: one cell per column and the row's coordinates.
    pub fn push_row(&mut self, cells: Vec<String>, lat: u64, lng: u64)
        requires
            old(self).wf(),
            old(self)@.ready_to_match(),
            cells@.len() == old(self)@.width(),
            old(self)@.rows < usize::MAX,
        ensures
            final(self)@ == old(self)@.with_row(texts(cells@), lat, lng),
            final(self).wf(),
    {
        let width: usize = self.data.len();
        let ghost before = self@;
        let mut c: usize = 0;
        while c < width
            invariant
                c <= width,
                width == self.data@.len(),
                width == cells@.len(),
                before.wf(),
                before.columns.len() == width,
                self@ == (Table { columns: self@.columns, ..before }),
                forall|i: int| 0 <= i < c ==> (#[trigger] self@.columns[i]) == before.columns[i].push(cells@[i]@),
                forall|i: int| c <= i < width ==> (#[trigger] self@.columns[i]) == before.columns[i],
            decreases width - c,
        {
            let ghost prior = self.data@;
            let text: String = cells[c].clone();
            let column = &mut self.data[c];
            column.push(text);
            proof {
                assert forall|i: int| 0 <= i < width && i != c implies (#[trigger] grid(
                    self.data@,
                )[i]) == grid(prior)[i] by {
                }
                assert(grid(self.data@)[c as int] =~= grid(prior)[c as int].push(cells@[c as int]@));
            }
            c += 1;
        }
        match &mut self.lat {
            Some(values) => values.push(lat),
            None => {},
        }
        match &mut self.lng {
            Some(values) => values.push(lng),
            None => {},
        }
        self.rows = self.rows + 1;
        proof {
            let want = before.with_row(texts(cells@), lat, lng);
            assert(self@.columns =~= want.columns);
        }
    }

    /// Replaces one cell.
    pub fn set_cell(&mut self, col: usize, row: usize, text: String)
        requires
            old(self).wf(),
            col < old(self)@.width(),
            row < old(self)@.rows,
        ensures
            final(self)@ == old(self)@.with_cell(col as int, row as int, text@),
            final(self).wf(),
    {
        let ghost before = self@;
        let ghost prior = self.data@;
        self.data[col][row] = text;
        proof {
            assert(grid(self.data@)[col as int] =~= grid(prior)[col as int].update(row as int, text@));
            assert(self@.columns =~= before.with_cell(col as int, row as int, text@).columns);
        }
    }

    /// Replaces the coordinates of one row.
    pub fn set_point(&mut self, row: usize, lat: u64, lng: u64)
        requires
            old(self).wf(),
            old(self)@.ready_to_match(),
            row < old(self)@.rows,
        ensures
            final(self)@ == old(self)@.with_point(row as int, lat, lng),
            final(self).wf(),
    {
        match &mut self.lat {
            Some(values) => values.set(row, lat),
            None => {},
        }
        match &mut self.lng {
            Some(values) => values.set(row, lng),
            None => {},
        }
    }
}

} // verus!
