//! The roles that a column can play, and how the text of a header gives a
//! column its role.
use vstd::prelude::*;
use crate::data_frame::texts;
use crate::text::{squeezed, squeezes_to};

verus! {

/// A role that one column of a table can play.
#[derive(Clone, Copy, Debug, PartialEq, Eq, Structural)]
pub enum Role {
    Id,
    Addr1,
    Addr2,
    City,
    State,
    Zipcode,
    Lat,
    Lng,
}

/// The column, if any, that plays each role.
#[derive(Clone, Copy, Debug, PartialEq, Eq, Structural)]
pub struct Roles {
    pub id: Option<usize>,
    pub addr1: Option<usize>,
    pub addr2: Option<usize>,
    pub city: Option<usize>,
    pub state: Option<usize>,
    pub zipcode: Option<usize>,
    pub lat: Option<usize>,
    pub lng: Option<usize>,
}

/// The role that a header gives its column, if it gives one. Case and white
/// space do not count.
pub open spec fn role_of(header: Seq<char>) -> Option<Role> {
    let name = squeezed(header);
    if name == "id"@ {
        Some(Role::Id)
    } else if name == "addr1"@ || name == "address"@ || name == "addr"@ {
        Some(Role::Addr1)
    } else if name == "addr2"@ || name == "address2"@ {
        Some(Role::Addr2)
    } else if name == "city"@ {
        Some(Role::City)
    } else if name == "state"@ {
        Some(Role::State)
    } else if name == "zipcode"@ || name == "zip"@ || name == "postalcode"@ {
        Some(Role::Zipcode)
    } else if name == "lat"@ || name == "latitude"@ {
        Some(Role::Lat)
    } else if name == "lng"@ || name == "longitude"@ {
        Some(Role::Lng)
    } else {
        None
    }
}

/// The last of the first `upto` headers that gives its column the role.
pub open spec fn last_with(headers: Seq<Seq<char>>, role: Role, upto: int) -> Option<usize>
    decreases upto,
{
    if upto <= 0 {
        None
    } else if role_of(headers[upto - 1]) == Some(role) {
        Some((upto - 1) as usize)
    } else {
        last_with(headers, role, upto - 1)
    }
}

/// The roles that the first `upto` headers give: where several headers give
/// one role, the last of them has it.
pub open spec fn roles_upto(headers: Seq<Seq<char>>, upto: int) -> Roles {
    Roles {
        id: last_with(headers, Role::Id, upto),
        addr1: last_with(headers, Role::Addr1, upto),
        addr2: last_with(headers, Role::Addr2, upto),
        city: last_with(headers, Role::City, upto),
        state: last_with(headers, Role::State, upto),
        zipcode: last_with(headers, Role::Zipcode, upto),
        lat: last_with(headers, Role::Lat, upto),
        lng: last_with(headers, Role::Lng, upto),
    }
}

/// The roles that the headers of a table give.
pub open spec fn roles_of(headers: Seq<Seq<char>>) -> Roles {
    roles_upto(headers, headers.len() as int)
}

/// The delimiter of a file whose header line splits into `comma_fields`
/// fields at commas and into `pipe_fields` fields at pipes: the one that
/// gives more fields, and the comma where neither does.
pub open spec fn delimiter_of(comma_fields: usize, pipe_fields: usize) -> char {
    if pipe_fields > comma_fields {
        '|'
    } else {
        ','
    }
}

/// A role that is given is given by one of the headers.
pub proof fn last_with_is_within(headers: Seq<Seq<char>>, role: Role, upto: int)
    requires
        0 <= upto <= headers.len(),
        upto <= usize::MAX,
    ensures
        match last_with(headers, role, upto) {
            Some(c) => c < upto && role_of(headers[c as int]) == Some(role),
            None => true,
        },
    decreases upto,
{
    if upto > 0 && role_of(headers[upto - 1]) != Some(role) {
        last_with_is_within(headers, role, upto - 1);
    }
}

/// Picks the delimiter of a file from the number of fields that its header
/// line has under each.
pub fn choose_delimiter(comma_fields: usize, pipe_fields: usize) -> (r: char)
    ensures
        r == delimiter_of(comma_fields, pipe_fields),
{
    if pipe_fields > comma_fields {
        '|'
    } else {
        ','
    }
}

/// The role that a header gives its column.
pub fn header_role(header: &str) -> (r: Option<Role>)
    ensures
        r == role_of(header@),
{
    if squeezes_to(header, "id") {
        Some(Role::Id)
    } else if squeezes_to(header, "addr1") || squeezes_to(header, "address") || squeezes_to(
        header,
        "addr",
    ) {
        Some(Role::Addr1)
    } else if squeezes_to(header, "addr2") || squeezes_to(header, "address2") {
        Some(Role::Addr2)
    } else if squeezes_to(header, "city") {
        Some(Role::City)
    } else if squeezes_to(header, "state") {
        Some(Role::State)
    } else if squeezes_to(header, "zipcode") || squeezes_to(header, "zip") || squeezes_to(
        header,
        "postalcode",
    ) {
        Some(Role::Zipcode)
    } else if squeezes_to(header, "lat") || squeezes_to(header, "latitude") {
        Some(Role::Lat)
    } else if squeezes_to(header, "lng") || squeezes_to(header, "longitude") {
        Some(Role::Lng)
    } else {
        None
    }
}

/// The roles that the headers of a table give.
pub fn infer_roles(headers: &Vec<String>) -> (r: Roles)
    ensures
        r == roles_of(texts(headers@)),
{
    let ghost names = texts(headers@);
    let n: usize = headers.len();
    let mut roles = Roles {
        id: None,
        addr1: None,
        addr2: None,
        city: None,
        state: None,
        zipcode: None,
        lat: None,
        lng: None,
    };
    let mut i: usize = 0;
    while i < n
        invariant
            i <= n,
            n == headers@.len(),
            names == texts(headers@),
            roles == roles_upto(names, i as int),
        decreases n - i,
    {
        match header_role(headers[i].as_str()) {
            Some(Role::Id) => {
                roles.id = Some(i);
            },
            Some(Role::Addr1) => {
                roles.addr1 = Some(i);
            },
            Some(Role::Addr2) => {
                roles.addr2 = Some(i);
            },
            Some(Role::City) => {
                roles.city = Some(i);
            },
            Some(Role::State) => {
                roles.state = Some(i);
            },
            Some(Role::Zipcode) => {
                roles.zipcode = Some(i);
            },
            Some(Role::Lat) => {
                roles.lat = Some(i);
            },
            Some(Role::Lng) => {
                roles.lng = Some(i);
            },
            None => {},
        }
        i += 1;
    }
    roles
}

} // verus!
