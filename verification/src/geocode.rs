//! The geocoding of a table: which rows are asked about, how the answer of
//! the service is read, and what a table holds once every row is answered.
use vstd::prelude::*;
use crate::coords::{is_nan, UNRESOLVED};
use crate::data_frame::{texts, DataFrame, Table};
use crate::error::ConfigError;
use crate::text::same_text;

verus! {

/// Where the geocoding service is asked.
pub const ENDPOINT: &'static str = "https://maps.googleapis.com/maps/api/geocode/json";

/// The status with which the service says that the quota is used up.
pub const OVER_QUERY_LIMIT: &'static str = "OVER_QUERY_LIMIT";

/// How many requests are sent per second, unless the caller says otherwise.
pub const REQUESTS_PER_SECOND: u64 = 30;

/// How many requests may be under way at one time, unless the caller says
/// otherwise.
pub const MAX_IN_FLIGHT: usize = 30;

/// One step into a JSON document: to the member of an object under a key,
/// or to the element of an array at an index.
pub enum Step {
    Key(Seq<char>),
    Index(nat),
}

/// A number or a text in a JSON document. A number is held as the bit
/// pattern of the double that stands for it.
pub enum Leaf {
    Number(u64),
    Text(Seq<char>),
}

/// A JSON value of `serde_json`.
#[verifier::external_type_specification]
#[verifier::external_body]
pub struct ExValue(serde_json::Value);

/// The error with which `serde_json` refuses a text.
#[verifier::external_type_specification]
#[verifier::external_body]
pub struct ExJsonError(serde_json::Error);

/// The numbers and the texts that a JSON value holds, each under the steps
/// that lead to it from the value: under no step, where the value itself is
/// a number or a text.
pub uninterp spec fn json_leaves(value: serde_json::Value) -> Map<Seq<Step>, Leaf>;

/// The numbers and the texts of the JSON document that a text writes, if it
/// writes one.
pub uninterp spec fn json_document(text: Seq<char>) -> Option<Map<Seq<Step>, Leaf>>;

/// What of some leaves lies beyond one step, under the steps that lead on
/// from there.
pub open spec fn below(leaves: Map<Seq<Step>, Leaf>, step: Step) -> Map<Seq<Step>, Leaf> {
    Map::new(
        |path: Seq<Step>| leaves.dom().contains(seq![step] + path),
        |path: Seq<Step>| leaves[seq![step] + path],
    )
}

/// The number that stands under no step, if one does.
pub open spec fn number_here(leaves: Map<Seq<Step>, Leaf>) -> Option<u64> {
    if leaves.dom().contains(Seq::empty()) {
        match leaves[Seq::empty()] {
            Leaf::Number(bits) => Some(bits),
            Leaf::Text(_) => None,
        }
    } else {
        None
    }
}

/// The text that stands under no step, if one does.
pub open spec fn text_here(leaves: Map<Seq<Step>, Leaf>) -> Option<Seq<char>> {
    if leaves.dom().contains(Seq::empty()) {
        match leaves[Seq::empty()] {
            Leaf::Number(_) => None,
            Leaf::Text(text) => Some(text),
        }
    } else {
        None
    }
}

/// The characters of a text, if there is one.
pub open spec fn text_view(text: Option<String>) -> Option<Seq<char>> {
    match text {
        Some(text) => Some(text@),
        None => None,
    }
}

/// Calls `serde_json::from_str` for a `Value`. Not proved: that the value is
/// the document that the text writes, and that there is an error exactly
/// where the text writes none.
#[verifier::external_body]
fn parse_document(text: &str) -> (r: Result<serde_json::Value, serde_json::Error>)
    ensures
        match r {
            Ok(document) => json_document(text@) == Some(json_leaves(document)),
            Err(_) => json_document(text@) is None,
        },
{
    serde_json::from_str(text)
}

/// Indexes a `serde_json::Value` by a key. Not proved: that the result holds
/// what the value holds under the key. The crate hands back the null value,
/// which holds nothing, where the value is no object or has no such member.
#[verifier::external_body]
fn member<'a>(value: &'a serde_json::Value, key: &str) -> (r: &'a serde_json::Value)
    ensures
        json_leaves(*r) == below(json_leaves(*value), Step::Key(key@)),
{
    &value[key]
}

/// Indexes a `serde_json::Value` by a position. Not proved: that the result
/// holds what the value holds at the position. The crate hands back the null
/// value, which holds nothing, where the value is no array or is too short.
#[verifier::external_body]
fn element<'a>(value: &'a serde_json::Value, index: usize) -> (r: &'a serde_json::Value)
    ensures
        json_leaves(*r) == below(json_leaves(*value), Step::Index(index as nat)),
{
    &value[index]
}

/// Calls `serde_json::Value::as_f64` and hands the number on as its bit
/// pattern. Not proved: that the result is the number that the value is.
#[verifier::external_body]
fn number_bits(value: &serde_json::Value) -> (r: Option<u64>)
    ensures
        r == number_here(json_leaves(*value)),
{
    match value.as_f64() {
        Some(number) => Some(number.to_bits()),
        None => None,
    }
}

/// Calls `serde_json::Value::as_str` and copies the text. Not proved: that
/// the result is the text that the value is.
#[verifier::external_body]
fn text_of(value: &serde_json::Value) -> (r: Option<String>)
    ensures
        text_view(r) == text_here(json_leaves(*value)),
{
    match value.as_str() {
        Some(text) => Some(text.to_string()),
        None => None,
    }
}

/// What an answer of the service holds where the library reads it.
#[derive(Clone, Debug, PartialEq, Eq)]
pub struct GeocodeReply {
    /// The latitude of the first result, if there is one and it is a number.
    pub lat: Option<u64>,
    /// The longitude of the first result, likewise.
    pub lng: Option<u64>,
    /// The address of the first result as the service writes it.
    pub formatted_address: Option<String>,
    /// The status of the answer.
    pub status: Option<String>,
}

/// What became of the request for one row.
#[derive(Clone, Debug, PartialEq, Eq)]
pub enum Resolution {
    /// The service found the address.
    Found { lat: u64, lng: u64, address: String },
    /// The service answered without a result.
    NotFound,
    /// The service answered that the quota is used up.
    OverQuota,
    /// There was no answer, or none that could be read.
    Failed,
}

/// An answer as mathematical values.
pub struct ReplyView {
    pub lat: Option<u64>,
    pub lng: Option<u64>,
    pub formatted_address: Option<Seq<char>>,
    pub status: Option<Seq<char>>,
}

impl View for GeocodeReply {
    type V = ReplyView;

    open spec fn view(&self) -> ReplyView {
        ReplyView {
            lat: self.lat,
            lng: self.lng,
            formatted_address: match self.formatted_address {
                Some(text) => Some(text@),
                None => None,
            },
            status: match self.status {
                Some(text) => Some(text@),
                None => None,
            },
        }
    }
}

/// What a row resolves to: its coordinates and its address as the service
/// wrote it.
pub struct Point {
    pub lat: u64,
    pub lng: u64,
    pub address: Seq<char>,
}

/// The point of a row that is not resolved: no number on either axis, and an
/// empty address.
pub open spec fn nowhere() -> Point {
    Point { lat: UNRESOLVED, lng: UNRESOLVED, address: Seq::empty() }
}

impl Resolution {
    /// The point that the outcome of a request gives its row.
    pub open spec fn point(self) -> Point {
        match self {
            Resolution::Found { lat, lng, address } => Point { lat, lng, address: address@ },
            _ => nowhere(),
        }
    }

    /// The coordinates and the address that the outcome gives its row.
    pub fn to_point(&self) -> (r: (u64, u64, String))
        ensures
            r.0 == self.point().lat,
            r.1 == self.point().lng,
            r.2@ == self.point().address,
    {
        match self {
            Resolution::Found { lat, lng, address } => (*lat, *lng, address.clone()),
            _ => (UNRESOLVED, UNRESOLVED, String::new()),
        }
    }
}

/// The point that an answer gives its row: with both coordinates, those and
/// the address, an empty one where the answer has none; with fewer, nowhere.
pub open spec fn resolved(reply: ReplyView) -> Point {
    match (reply.lat, reply.lng) {
        (Some(lat), Some(lng)) => Point {
            lat,
            lng,
            address: match reply.formatted_address {
                Some(text) => text,
                None => Seq::empty(),
            },
        },
        _ => nowhere(),
    }
}

/// Whether an answer without coordinates says that the quota is used up.
pub open spec fn says_over_quota(reply: ReplyView) -> bool {
    reply.lat is None && reply.lng is None && reply.status == Some(OVER_QUERY_LIMIT@)
}

/// Settles what an answer of the service means for its row. With both
/// coordinates it is a find. With neither it is the end of the quota where
/// the status says so, and no find otherwise. With one coordinate only, the
/// answer cannot be read.
pub fn resolve(reply: &GeocodeReply) -> (r: Resolution)
    ensures
        r.point() == resolved(reply@),
        r is Found <==> reply.lat is Some && reply.lng is Some,
        r is OverQuota <==> says_over_quota(reply@),
        r is NotFound <==> reply.lat is None && reply.lng is None && !says_over_quota(reply@),
        r is Failed <==> (reply.lat is Some) != (reply.lng is Some),
{
    match (reply.lat, reply.lng) {
        (Some(lat), Some(lng)) => {
            let address: String = match &reply.formatted_address {
                Some(text) => text.clone(),
                None => String::new(),
            };
            Resolution::Found { lat, lng, address }
        },
        (None, None) => {
            let over: bool = match &reply.status {
                Some(status) => same_text(status.as_str(), OVER_QUERY_LIMIT),
                None => false,
            };
            if over {
                Resolution::OverQuota
            } else {
                Resolution::NotFound
            }
        },
        _ => Resolution::Failed,
    }
}

/// What a document holds where the library reads it: the coordinates of the
/// first result under `results`, `geometry`, `location`, its address under
/// `formatted_address`, and the `status` of the whole.
pub open spec fn reply_in(document: Map<Seq<Step>, Leaf>) -> ReplyView {
    let first = below(below(document, Step::Key("results"@)), Step::Index(0));
    let location = below(below(first, Step::Key("geometry"@)), Step::Key("location"@));
    ReplyView {
        lat: number_here(below(location, Step::Key("lat"@))),
        lng: number_here(below(location, Step::Key("lng"@))),
        formatted_address: text_here(below(first, Step::Key("formatted_address"@))),
        status: text_here(below(document, Step::Key("status"@))),
    }
}

/// What the text of an answer resolves to: nothing where it writes no JSON
/// document, and else what the document resolves to.
pub open spec fn resolved_text(text: Seq<char>) -> Point {
    match json_document(text) {
        Some(document) => resolved(reply_in(document)),
        None => nowhere(),
    }
}

/// Reads from the text of an answer what the library goes by: the
/// coordinates and the address of the first result, and the status.
pub fn read_reply(text: &str) -> (r: Option<GeocodeReply>)
    ensures
        match r {
            Some(reply) => json_document(text@) is Some && reply@ == reply_in(json_document(text@)->0),
            None => json_document(text@) is None,
        },
{
    match parse_document(text) {
        Ok(document) => {
            let first = element(member(&document, "results"), 0);
            let location = member(member(first, "geometry"), "location");
            Some(
                GeocodeReply {
                    lat: number_bits(member(location, "lat")),
                    lng: number_bits(member(location, "lng")),
                    formatted_address: text_of(member(first, "formatted_address")),
                    status: text_of(member(&document, "status")),
                },
            )
        },
        Err(_) => None,
    }
}

/// Settles what the text of an answer means for its row. A text that is no
/// JSON document is a failure; any other goes by what `read_reply` finds in
/// it.
pub fn interpret(text: &str) -> (r: Resolution)
    ensures
        r.point() == resolved_text(text@),
        r is Failed <==> json_document(text@) is None || (reply_in(json_document(text@)->0).lat is Some)
            != (reply_in(json_document(text@)->0).lng is Some),
        r is OverQuota <==> json_document(text@) is Some && says_over_quota(
            reply_in(json_document(text@)->0),
        ),
        r is Found <==> json_document(text@) is Some && reply_in(json_document(text@)->0).lat is Some
            && reply_in(json_document(text@)->0).lng is Some,
{
    match read_reply(text) {
        Some(reply) => resolve(&reply),
        None => Resolution::Failed,
    }
}

/// What the request for a row comes to: nothing for a row without an
/// address, whatever is offered for it, and else what its outcome gives.
pub open spec fn outcome(table: Table, resolutions: Seq<Resolution>, row: int) -> Point {
    if table.address(row) is None {
        nowhere()
    } else {
        resolutions[row].point()
    }
}

/// The table once every row is answered.
pub open spec fn geocoded(table: Table, resolutions: Seq<Resolution>) -> Table {
    table.fetched(
        Seq::new(table.rows, |row: int| outcome(table, resolutions, row).lat),
        Seq::new(table.rows, |row: int| outcome(table, resolutions, row).lng),
        Seq::new(table.rows, |row: int| outcome(table, resolutions, row).address),
    )
}

/// Whether the service turned down a row that was asked about because the
/// quota is used up.
pub open spec fn quota_ran_out(table: Table, resolutions: Seq<Resolution>) -> bool {
    exists|row: int|
        0 <= row < table.rows && table.address(row) is Some && (#[trigger] resolutions[row]) is OverQuota
}

/// Why a table cannot take these outcomes, if it cannot: its address roles
/// are not bound, or the outcomes are not one per row.
pub open spec fn fetch_refusal(table: Table, resolutions: Seq<Resolution>) -> Option<ConfigError> {
    if !table.ready_to_fetch() {
        Some(ConfigError::NotReady)
    } else if resolutions.len() != table.rows {
        Some(ConfigError::WrongLength)
    } else {
        None
    }
}

/// A table whose rows are all without an address asks for no request, and
/// once geocoded has no number on either axis of any row, and an empty
/// address in every row, whatever outcomes are offered.
pub proof fn blank_table_stays_unresolved(table: Table, resolutions: Seq<Resolution>, row: int)
    requires
        forall|r: int| 0 <= r < table.rows ==> table.address(r) is None,
        0 <= row < table.rows,
    ensures
        table.address(row) is None,
        is_nan(geocoded(table, resolutions).lat->0[row]),
        is_nan(geocoded(table, resolutions).lng->0[row]),
        geocoded(table, resolutions).columns.last()[row] == Seq::<char>::empty(),
{
}

/// The query of the request for an address: the address, and the caller's
/// key.
pub fn request_query(address: &str, key: &str) -> (r: Vec<(String, String)>)
    ensures
        r@.len() == 2,
        r@[0].0@ == "address"@,
        r@[0].1@ == address@,
        r@[1].0@ == "key"@,
        r@[1].1@ == key@,
{
    let mut query: Vec<(String, String)> = Vec::with_capacity(2);
    query.push(("address".to_owned(), address.to_owned()));
    query.push(("key".to_owned(), key.to_owned()));
    query
}

/// The time between two requests, in nanoseconds, at `rate` requests per
/// second.
pub fn tick_nanos(rate: u64) -> (r: u64)
    requires
        rate > 0,
    ensures
        r == 1_000_000_000int / (rate as int),
{
    1_000_000_000 / rate
}

impl DataFrame {
    /// Takes the outcome of the request for every row: the table gets its
    /// coordinates and a last column, `norm_address`. A row without an
    /// address was not asked about and stays unresolved; so does a row whose
    /// request found nothing or failed. Tells whether the quota ran out.
    pub fn fetch(&mut self, resolutions: &Vec<Resolution>) -> (r: Result<bool, ConfigError>)
        requires
            old(self).wf(),
        ensures
            final(self).wf(),
            match r {
                Ok(over) => {
                    &&& fetch_refusal(old(self)@, resolutions@) is None
                    &&& final(self)@ == geocoded(old(self)@, resolutions@)
                    &&& over == quota_ran_out(old(self)@, resolutions@)
                },
                Err(e) => fetch_refusal(old(self)@, resolutions@) == Some(e) && final(self)@ == old(self)@,
            },
    {
        if !self.ready_to_fetch() {
            return Err(ConfigError::NotReady);
        }
        let n: usize = self.rows();
        if resolutions.len() != n {
            return Err(ConfigError::WrongLength);
        }
        let ghost table = self@;
        let mut lat: Vec<u64> = Vec::with_capacity(n);
        let mut lng: Vec<u64> = Vec::with_capacity(n);
        let mut addresses: Vec<String> = Vec::with_capacity(n);
        let mut over: bool = false;
        let mut row: usize = 0;
        while row < n
            invariant
                row <= n,
                n == table.rows,
                n == resolutions@.len(),
                table == self@,
                self.wf(),
                table.ready_to_fetch(),
                lat@.len() == row,
                lng@.len() == row,
                addresses@.len() == row,
                forall|j: int| 0 <= j < row ==> #[trigger] lat@[j] == outcome(table, resolutions@, j).lat,
                forall|j: int| 0 <= j < row ==> #[trigger] lng@[j] == outcome(table, resolutions@, j).lng,
                forall|j: int|
                    0 <= j < row ==> (#[trigger] addresses@[j])@ == outcome(table, resolutions@, j).address,
                over == exists|j: int|
                    0 <= j < row && table.address(j) is Some && (#[trigger] resolutions@[j]) is OverQuota,
            decreases n - row,
        {
            let asked: bool = self.get_address(row).is_some();
            if asked {
                let (a, b, text) = resolutions[row].to_point();
                lat.push(a);
                lng.push(b);
                addresses.push(text);
                match &resolutions[row] {
                    Resolution::OverQuota => {
                        over = true;
                    },
                    _ => {},
                }
            } else {
                lat.push(UNRESOLVED);
                lng.push(UNRESOLVED);
                addresses.push(String::new());
            }
            row += 1;
        }
        proof {
            let want = geocoded(table, resolutions@);
            assert(lat@ =~= want.lat->0);
            assert(lng@ =~= want.lng->0);
            assert(texts(addresses@) =~= want.columns.last());
        }
        self.set_coordinates(lat, lng, addresses);
        Ok(over)
    }
}

} // verus!
