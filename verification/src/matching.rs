//! The lookup of the best candidate for one row among the rows of a table.
//!
//! A candidate at the very coordinates of the row is an exact match; among
//! several of them the descriptive text decides. Failing that, the nearest
//! candidate is taken, if it lies within the radius. The caller supplies what
//! takes arithmetic on real numbers: a proxy by which to rank the candidates,
//! and the true distance of the one that was picked.
use vstd::prelude::*;
use crate::coords::{exceeds, greater, is_nan, unresolved, ZERO};
use crate::data_frame::{texts, DataFrame, Table};
use crate::fuzzy::{row_score, score};

verus! {

/// The outcome of a lookup: the row of the candidate, and its distance.
#[derive(Clone, Copy, Debug, PartialEq, Eq, Structural)]
pub struct MatchCandidate {
    /// The row of the candidate in its table.
    pub row: usize,
    /// The distance to it, as the bit pattern of a double: zero for an exact
    /// match, else the great-circle distance in the unit of the radius.
    pub distance: u64,
}

/// The candidate that a lookup picks, before any distance is measured.
#[derive(Clone, Copy, Debug, PartialEq, Eq, Structural)]
pub enum Selection {
    /// A candidate at the very coordinates of the row. It matches whatever
    /// the radius.
    Exact(usize),
    /// The nearest candidate by proxy. It matches if its true distance does
    /// not exceed the radius.
    Nearest(usize),
    /// No candidate can be matched.
    Unmatched,
}

/// One lookup, as mathematical values.
pub struct Lookup {
    /// The latitude of the row that looks for a match.
    pub lat: u64,
    /// The longitude of that row.
    pub lng: u64,
    /// The values of that row in its compare columns.
    pub compare: Seq<Seq<char>>,
    /// The table of candidates.
    pub table: Table,
    /// For each candidate, whether an earlier match has consumed it.
    pub written: Seq<bool>,
    /// Whether a consumed candidate is out of the running.
    pub exclusive: bool,
    /// For each candidate, its rank by planar distance to the row: the
    /// smaller, the nearer.
    pub proxies: Seq<u64>,
}

impl Lookup {
    /// Whether candidate `i` is in the running: not consumed where that
    /// counts, and with both coordinates resolved.
    pub open spec fn eligible(self, i: int) -> bool {
        &&& 0 <= i < self.table.rows
        &&& !(self.exclusive && self.written[i])
        &&& !is_nan(self.table.lat->0[i])
        &&& !is_nan(self.table.lng->0[i])
    }

    /// Whether candidate `i` lies at the very coordinates of the row.
    pub open spec fn same_point(self, i: int) -> bool {
        self.table.lat->0[i] == self.lat && self.table.lng->0[i] == self.lng
    }

    /// Whether candidate `i` is an exact match.
    pub open spec fn is_exact(self, i: int) -> bool {
        self.eligible(i) && self.same_point(i)
    }

    /// Whether candidate `i` is in the running without being exact.
    pub open spec fn is_near(self, i: int) -> bool {
        self.eligible(i) && !self.same_point(i)
    }

    /// The score of candidate `i` against the row's compare values.
    pub open spec fn score_of(self, i: int) -> int {
        score(self.compare, self.table.compare_row(i))
    }

    /// Whether `c` is the exact match to take: none scores lower, and none
    /// before it scores as low.
    pub open spec fn is_best_exact(self, c: int) -> bool {
        &&& self.is_exact(c)
        &&& forall|j: int| #[trigger]
            self.is_exact(j) ==> self.score_of(c) <= self.score_of(j) && (j < c ==> self.score_of(c)
                < self.score_of(j))
    }

    /// Whether `b` is the nearest candidate: none has a smaller proxy, and
    /// none before it has one as small.
    pub open spec fn is_nearest(self, b: int) -> bool {
        &&& self.is_near(b)
        &&& forall|j: int| #[trigger]
            self.is_near(j) ==> self.proxies[b] <= self.proxies[j] && (j < b ==> self.proxies[b]
                < self.proxies[j])
    }

    /// The candidate that the lookup picks. A row without coordinates picks
    /// none. Else exact matches go first, and the best of them is picked;
    /// without any, the nearest candidate is.
    pub open spec fn selection(self) -> Selection {
        if is_nan(self.lat) || is_nan(self.lng) {
            Selection::Unmatched
        } else if exists|c: int| self.is_exact(c) {
            Selection::Exact((choose|c: int| self.is_best_exact(c)) as usize)
        } else if exists|b: int| self.is_near(b) {
            Selection::Nearest((choose|b: int| self.is_nearest(b)) as usize)
        } else {
            Selection::Unmatched
        }
    }

    /// Whether the lookup has what it reads: both axes of the table, a flag
    /// per candidate where flags count, and a proxy per candidate.
    pub open spec fn wf(self) -> bool {
        &&& self.table.wf()
        &&& self.table.ready_to_match()
        &&& self.exclusive ==> self.written.len() == self.table.rows
        &&& self.proxies.len() == self.table.rows
    }
}

/// What a selection comes to once the distance to the selected candidate is
/// known: an exact match stands with distance zero, and the nearest
/// candidate stands unless its distance exceeds the radius.
pub open spec fn confirmed(selection: Selection, distance: u64, radius: u64) -> Option<
    MatchCandidate,
> {
    match selection {
        Selection::Exact(row) => Some(MatchCandidate { row, distance: ZERO }),
        Selection::Nearest(row) => if exceeds(distance, radius) {
            None
        } else {
            Some(MatchCandidate { row, distance })
        },
        Selection::Unmatched => None,
    }
}

/// The row that a selection names, if it names one.
pub open spec fn selected_row(selection: Selection) -> Option<usize> {
    match selection {
        Selection::Exact(row) => Some(row),
        Selection::Nearest(row) => Some(row),
        Selection::Unmatched => None,
    }
}

/// The match of a lookup for which the distance to every candidate is known.
pub open spec fn best_match(lookup: Lookup, distances: Seq<u64>, radius: u64) -> Option<
    MatchCandidate,
> {
    match lookup.selection() {
        Selection::Exact(row) => confirmed(Selection::Exact(row), ZERO, radius),
        Selection::Nearest(row) => confirmed(Selection::Nearest(row), distances[row as int], radius),
        Selection::Unmatched => None,
    }
}

/// There is one best exact match at most.
pub proof fn best_exact_is_unique(lookup: Lookup, c: int, d: int)
    requires
        lookup.is_best_exact(c),
        lookup.is_best_exact(d),
    ensures
        c == d,
{
}

/// There is one nearest candidate at most.
pub proof fn nearest_is_unique(lookup: Lookup, a: int, b: int)
    requires
        lookup.is_nearest(a),
        lookup.is_nearest(b),
    ensures
        a == b,
{
}

/// A selection names a candidate that is in the running: with exclusive
/// matching, never one that an earlier match has consumed.
pub proof fn selection_is_eligible(lookup: Lookup)
    requires
        lookup.wf(),
    ensures
        match lookup.selection() {
            Selection::Exact(row) => lookup.is_best_exact(row as int),
            Selection::Nearest(row) => lookup.is_nearest(row as int) && forall|c: int|
                !lookup.is_exact(c),
            Selection::Unmatched => true,
        },
        match selected_row(lookup.selection()) {
            Some(row) => lookup.eligible(row as int) && (lookup.exclusive ==> !lookup.written[row as int]),
            None => true,
        },
{
    if exists|c: int| lookup.is_exact(c) {
        least_score_exists(lookup, choose|c: int| lookup.is_exact(c));
    } else if exists|b: int| lookup.is_near(b) {
        least_proxy_exists(lookup, choose|b: int| lookup.is_near(b));
    }
}

/// Among the exact matches up to `upto` there is a best one.
proof fn least_score_upto(lookup: Lookup, upto: int) -> (c: int)
    requires
        exists|j: int| 0 <= j < upto && lookup.is_exact(j),
    ensures
        0 <= c < upto,
        lookup.is_exact(c),
        forall|j: int|
            0 <= j < upto && #[trigger] lookup.is_exact(j) ==> lookup.score_of(c) <= lookup.score_of(j)
                && (j < c ==> lookup.score_of(c) < lookup.score_of(j)),
    decreases upto,
{
    let last = upto - 1;
    if exists|j: int| 0 <= j < last && lookup.is_exact(j) {
        let c = least_score_upto(lookup, last);
        if lookup.is_exact(last) && lookup.score_of(last) < lookup.score_of(c) {
            last
        } else {
            c
        }
    } else {
        last
    }
}

/// Where a candidate is exact, some candidate is the best exact match.
pub proof fn least_score_exists(lookup: Lookup, c: int)
    requires
        lookup.is_exact(c),
    ensures
        exists|b: int| lookup.is_best_exact(b),
{
    let b = least_score_upto(lookup, lookup.table.rows as int);
    assert(lookup.is_best_exact(b));
}

/// Among the near candidates up to `upto` there is a nearest one.
proof fn least_proxy_upto(lookup: Lookup, upto: int) -> (b: int)
    requires
        exists|j: int| 0 <= j < upto && lookup.is_near(j),
    ensures
        0 <= b < upto,
        lookup.is_near(b),
        forall|j: int|
            0 <= j < upto && #[trigger] lookup.is_near(j) ==> lookup.proxies[b] <= lookup.proxies[j]
                && (j < b ==> lookup.proxies[b] < lookup.proxies[j]),
    decreases upto,
{
    let last = upto - 1;
    if exists|j: int| 0 <= j < last && lookup.is_near(j) {
        let b = least_proxy_upto(lookup, last);
        if lookup.is_near(last) && lookup.proxies[last] < lookup.proxies[b] {
            last
        } else {
            b
        }
    } else {
        last
    }
}

/// Where a candidate is near, some candidate is the nearest.
pub proof fn least_proxy_exists(lookup: Lookup, b: int)
    requires
        lookup.is_near(b),
    ensures
        exists|n: int| lookup.is_nearest(n),
{
    let n = least_proxy_upto(lookup, lookup.table.rows as int);
    assert(lookup.is_nearest(n));
}

/// A row with resolved coordinates that shares them, bit for bit, with one
/// candidate in the running and no other is matched to that candidate at
/// distance zero, whatever the radius, the proxies and the measured distance.
pub proof fn single_exact_match_wins(lookup: Lookup, c: int, distance: u64, radius: u64)
    requires
        !is_nan(lookup.lat),
        !is_nan(lookup.lng),
        lookup.is_exact(c),
        forall|j: int| #[trigger] lookup.is_exact(j) ==> j == c,
    ensures
        lookup.selection() == Selection::Exact(c as usize),
        confirmed(lookup.selection(), distance, radius) == Some(
            MatchCandidate { row: c as usize, distance: ZERO },
        ),
{
    best_exact_is_unique(lookup, c, choose|d: int| lookup.is_best_exact(d));
}

/// A row with resolved coordinates that shares them with several candidates
/// in the running is matched to one of them at distance zero, whatever the
/// radius and the measured distance: to the one of lowest score, and among
/// equals to the first. The inputs determine that candidate.
pub proof fn tie_break_is_determined(lookup: Lookup, c: int, distance: u64, radius: u64)
    requires
        lookup.wf(),
        !is_nan(lookup.lat),
        !is_nan(lookup.lng),
        lookup.is_exact(c),
    ensures
        lookup.selection() is Exact,
        lookup.is_best_exact(lookup.selection()->Exact_0 as int),
        forall|d: int| lookup.is_best_exact(d) ==> d == lookup.selection()->Exact_0,
        confirmed(lookup.selection(), distance, radius) == Some(
            MatchCandidate { row: lookup.selection()->Exact_0, distance: ZERO },
        ),
{
    selection_is_eligible(lookup);
}

/// The radius bounds the distance of a nearest candidate from above, and the
/// bound is inclusive: a candidate at a distance that exceeds the radius is
/// no match, one exactly at the radius is.
pub proof fn radius_is_inclusive(row: usize, distance: u64, radius: u64)
    ensures
        exceeds(distance, radius) ==> confirmed(Selection::Nearest(row), distance, radius) is None,
        !exceeds(distance, radius) ==> confirmed(Selection::Nearest(row), distance, radius) == Some(
            MatchCandidate { row, distance },
        ),
        confirmed(Selection::Nearest(row), radius, radius) == Some(
            MatchCandidate { row, distance: radius },
        ),
{
}

/// Picks the candidate for a row at (`lat`, `lng`) with the compare values
/// `compare` among the rows of `candidates`.
pub fn select_candidate(
    lat: u64,
    lng: u64,
    compare: &Vec<String>,
    candidates: &DataFrame,
    written_mask: &Vec<bool>,
    exclusive: bool,
    proxies: &Vec<u64>,
) -> (r: Selection)
    requires
        (Lookup {
            lat,
            lng,
            compare: texts(compare@),
            table: candidates@,
            written: written_mask@,
            exclusive,
            proxies: proxies@,
        }).wf(),
    ensures
        r == (Lookup {
            lat,
            lng,
            compare: texts(compare@),
            table: candidates@,
            written: written_mask@,
            exclusive,
            proxies: proxies@,
        }).selection(),
{
    let ghost lookup = Lookup {
        lat,
        lng,
        compare: texts(compare@),
        table: candidates@,
        written: written_mask@,
        exclusive,
        proxies: proxies@,
    };
    if unresolved(lat) || unresolved(lng) {
        return Selection::Unmatched;
    }
    let lats: &Vec<u64> = candidates.lat().unwrap();
    let lngs: &Vec<u64> = candidates.lng().unwrap();
    let n: usize = candidates.rows();
    let mut exact: Vec<usize> = Vec::new();
    let mut nearest: Option<usize> = None;
    let mut i: usize = 0;
    while i < n
        invariant
            i <= n,
            n == lookup.table.rows,
            lookup.wf(),
            lookup.table.lat == Some(lats@),
            lookup.table.lng == Some(lngs@),
            lookup.written == written_mask@,
            lookup.proxies == proxies@,
            lookup.exclusive == exclusive,
            lookup.lat == lat,
            lookup.lng == lng,
            forall|k: int| 0 <= k < exact@.len() ==> lookup.is_exact(#[trigger] exact@[k] as int) && exact@[k] < i,
            forall|k: int, m: int| 0 <= k < m < exact@.len() ==> exact@[k] < exact@[m],
            forall|j: int| 0 <= j < i && #[trigger] lookup.is_exact(j) ==> exists|k: int| 0 <= k < exact@.len() && exact@[k] == j,
            match nearest {
                Some(b) => b < i && lookup.is_near(b as int) && forall|j: int|
                    0 <= j < i && #[trigger] lookup.is_near(j) ==> lookup.proxies[b as int]
                        <= lookup.proxies[j] && (j < b ==> lookup.proxies[b as int]
                        < lookup.proxies[j]),
                None => forall|j: int| 0 <= j < i ==> !#[trigger] lookup.is_near(j),
            },
        decreases n - i,
    {
        let consumed: bool = exclusive && written_mask[i];
        if !consumed && !unresolved(lats[i]) && !unresolved(lngs[i]) {
            if lats[i] == lat && lngs[i] == lng {
                let ghost before = exact@;
                exact.push(i);
                assert forall|j: int| 0 <= j < i + 1 && #[trigger] lookup.is_exact(j) implies exists|
                    k: int,
                | 0 <= k < exact@.len() && exact@[k] == j by {
                    if j < i {
                        let k = choose|k: int| 0 <= k < before.len() && before[k] == j;
                        assert(exact@[k] == j);
                    } else {
                        assert(exact@[before.len() as int] == j);
                    }
                }
            } else {
                match nearest {
                    Some(b) => {
                        if proxies[i] < proxies[b] {
                            nearest = Some(i);
                        }
                    },
                    None => {
                        nearest = Some(i);
                    },
                }
            }
        }
        i += 1;
    }
    if exact.len() > 0 {
        let mut chosen: usize = exact[0];
        if exact.len() > 1 {
            let mut low: u128 = row_score(compare, &candidates.compare_row(chosen));
            let mut k: usize = 1;
            while k < exact.len()
                invariant
                    1 <= k <= exact@.len(),
                    lookup.wf(),
                    lookup.table == candidates@,
                    lookup.compare == texts(compare@),
                    candidates.wf(),
                    forall|m: int| 0 <= m < exact@.len() ==> lookup.is_exact(#[trigger] exact@[m] as int),
                    forall|m: int, p: int| 0 <= m < p < exact@.len() ==> exact@[m] < exact@[p],
                    lookup.is_exact(chosen as int),
                    low == lookup.score_of(chosen as int),
                    forall|m: int|
                        0 <= m < k ==> low <= lookup.score_of(#[trigger] exact@[m] as int) && (exact@[m]
                            < chosen ==> low < lookup.score_of(exact@[m] as int)),
                    exists|m: int| 0 <= m < k && exact@[m] == chosen,
                decreases exact@.len() - k,
            {
                let row: usize = exact[k];
                let s: u128 = row_score(compare, &candidates.compare_row(row));
                if s < low {
                    chosen = row;
                    low = s;
                }
                k += 1;
            }
        }
        proof {
            assert forall|j: int| #[trigger] lookup.is_exact(j) implies lookup.score_of(chosen as int)
                <= lookup.score_of(j) && (j < chosen ==> lookup.score_of(chosen as int)
                < lookup.score_of(j)) by {
            }
            assert(lookup.is_best_exact(chosen as int));
            best_exact_is_unique(lookup, choose|c: int| lookup.is_best_exact(c), chosen as int);
        }
        return Selection::Exact(chosen);
    }
    match nearest {
        Some(b) => {
            proof {
                assert(lookup.is_nearest(b as int));
                nearest_is_unique(lookup, choose|n: int| lookup.is_nearest(n), b as int);
            }
            Selection::Nearest(b)
        },
        None => {
            Selection::Unmatched
        },
    }
}

/// Settles a selection once the distance to the selected candidate is known.
pub fn confirm_match(selection: Selection, distance: u64, radius: u64) -> (r: Option<MatchCandidate>)
    ensures
        r == confirmed(selection, distance, radius),
{
    match selection {
        Selection::Exact(row) => Some(MatchCandidate { row, distance: ZERO }),
        Selection::Nearest(row) => {
            if greater(distance, radius) {
                None
            } else {
                Some(MatchCandidate { row, distance })
            }
        },
        Selection::Unmatched => None,
    }
}

/// Finds the match for a row among the rows of `candidates`, given the proxy
/// of every candidate and the distance to every candidate.
pub fn find_best_match(
    lat: u64,
    lng: u64,
    compare: &Vec<String>,
    candidates: &DataFrame,
    written_mask: &Vec<bool>,
    exclusive: bool,
    radius: u64,
    proxies: &Vec<u64>,
    distances: &Vec<u64>,
) -> (r: Option<MatchCandidate>)
    requires
        (Lookup {
            lat,
            lng,
            compare: texts(compare@),
            table: candidates@,
            written: written_mask@,
            exclusive,
            proxies: proxies@,
        }).wf(),
        distances@.len() == candidates@.rows,
    ensures
        r == best_match(
            (Lookup {
                lat,
                lng,
                compare: texts(compare@),
                table: candidates@,
                written: written_mask@,
                exclusive,
                proxies: proxies@,
            }),
            distances@,
            radius,
        ),
{
    let ghost lookup = Lookup {
        lat,
        lng,
        compare: texts(compare@),
        table: candidates@,
        written: written_mask@,
        exclusive,
        proxies: proxies@,
    };
    let selection = select_candidate(lat, lng, compare, candidates, written_mask, exclusive, proxies);
    proof {
        selection_is_eligible(lookup);
    }
    match selection {
        Selection::Exact(row) => confirm_match(selection, ZERO, radius),
        Selection::Nearest(row) => confirm_match(selection, distances[row], radius),
        Selection::Unmatched => None,
    }
}

} // verus!
