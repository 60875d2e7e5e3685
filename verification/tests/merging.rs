use geomatch::data_frame::DataFrame;
use geomatch::error::ConfigError;
use geomatch::matching::Selection;
use geomatch::merge::{Geometry, MatchMode, Measurement, Merge};
use geomatch::state::State;

fn text(s: &str) -> String {
    s.to_string()
}

fn haversine(lat1: f64, lng1: f64, lat2: f64, lng2: f64) -> f64 {
    let delta_lat = (lat2 - lat1).to_radians();
    let delta_lng = (lng2 - lng1).to_radians();
    let a = (delta_lat * 0.5).sin().powi(2)
        + lat1.to_radians().cos() * lat2.to_radians().cos() * (delta_lng * 0.5).sin().powi(2);
    let c = 2.0 * a.sqrt().atan2((1.0 - a).sqrt());
    3958.8 * c
}

struct Earth;

impl Geometry for Earth {
    fn proxies(&self, lat: u64, lng: u64, candidates: &DataFrame) -> Vec<u64> {
        let lats = candidates.lat().unwrap();
        let lngs = candidates.lng().unwrap();
        (0..lats.len())
            .map(|i| {
                let a = f64::from_bits(lats[i]) - f64::from_bits(lat);
                let b = f64::from_bits(lngs[i]) - f64::from_bits(lng);
                (a * a + b * b).to_bits()
            })
            .collect()
    }

    fn measure(&self, lat: u64, lng: u64, candidate_lat: u64, candidate_lng: u64) -> Measurement {
        let (a, b) = (f64::from_bits(lat), f64::from_bits(lng));
        let (c, d) = (f64::from_bits(candidate_lat), f64::from_bits(candidate_lng));
        let distance = haversine(a, b, c, d);
        Measurement {
            distance: distance.to_bits(),
            distance_text: distance.to_string(),
            lat: ((a + c) * 0.5).to_bits(),
            lng: ((b + d) * 0.5).to_bits(),
        }
    }
}

/// A table of addresses with coordinates, all of whose text columns are
/// output columns.
fn table(path: &str, rows: &[(&str, &str, &str, f64, f64)]) -> DataFrame {
    let headers = vec![text("addr1"), text("city"), text("state"), text("lat"), text("lng")];
    let records: Vec<Vec<String>> = rows
        .iter()
        .map(|r| vec![text(r.0), text(r.1), text(r.2), r.3.to_string(), r.4.to_string()])
        .collect();
    let lat: Vec<u64> = rows.iter().map(|r| r.3.to_bits()).collect();
    let lng: Vec<u64> = rows.iter().map(|r| r.4.to_bits()).collect();
    let mut frame =
        DataFrame::from_path(path, ',', headers, &records, Some(lat), Some(lng)).unwrap();
    frame.add_output_column("addr1").unwrap();
    frame.add_output_column("city").unwrap();
    frame
}

fn merged(tables: &Vec<DataFrame>, mode: MatchMode, exclusive: bool, radius: f64) -> (Vec<String>, Vec<Vec<String>>) {
    let mut merge = Merge::begin(tables, mode, exclusive, radius.to_bits()).unwrap();
    merge.run(&Earth).unwrap();
    assert!(merge.is_finished());
    (merge.headers(), merge.rows())
}

fn row(cells: &[&str]) -> Vec<String> {
    cells.iter().map(|c| c.to_string()).collect()
}

#[test]
fn identical_rows_merge_into_one_under_left() {
    let a = table("a.csv", &[("1 Main St", "Springfield", "IL", 39.78, -89.65)]);
    let b = table("b.csv", &[("1 Main St", "Springfield", "IL", 39.78, -89.65)]);
    let (headers, rows) = merged(&vec![a, b], MatchMode::Left, true, 0.25);
    assert_eq!(headers, row(&["addr1", "city", "addr1", "city", "distance"]));
    assert_eq!(rows, vec![row(&["1 Main St", "Springfield", "1 Main St", "Springfield", "0"])]);
}

#[test]
fn rows_beyond_the_radius_stay_apart() {
    let distance = haversine(40.0, -75.0, 40.01, -75.01);
    assert!((distance - 0.87).abs() < 0.01, "{}", distance);
    let tables = vec![
        table("a.csv", &[("10 Elm St", "Philadelphia", "PA", 40.0, -75.0)]),
        table("b.csv", &[("99 Oak Ave", "Camden", "NJ", 40.01, -75.01)]),
    ];
    let (_, outer) = merged(&tables, MatchMode::Outer, true, 0.25);
    assert_eq!(
        outer,
        vec![
            row(&["10 Elm St", "Philadelphia", "", ""]),
            row(&["", "", "99 Oak Ave", "Camden"]),
        ]
    );
    let (_, inner) = merged(&tables, MatchMode::Inner, true, 0.25);
    assert_eq!(inner, Vec::<Vec<String>>::new());
    let (_, left) = merged(&tables, MatchMode::Left, true, 0.25);
    assert_eq!(left, vec![row(&["10 Elm St", "Philadelphia", "", "", ""])]);
}

#[test]
fn near_rows_merge_with_their_distance_and_the_midpoint() {
    let tables = vec![
        table("a.csv", &[("10 Elm St", "Philadelphia", "PA", 40.0, -75.0)]),
        table("b.csv", &[("10 Elm Street", "Phila", "PA", 40.001, -75.001)]),
    ];
    let distance = haversine(40.0, -75.0, 40.001, -75.001);
    assert!(distance < 0.25);
    let mut merge = Merge::begin(&tables, MatchMode::Left, true, 0.25f64.to_bits()).unwrap();
    merge.run(&Earth).unwrap();
    assert_eq!(
        merge.rows(),
        vec![vec![
            text("10 Elm St"),
            text("Philadelphia"),
            text("10 Elm Street"),
            text("Phila"),
            distance.to_string()
        ]]
    );
    assert_eq!(merge.output().lat().unwrap()[0], ((40.0f64 + 40.001) * 0.5).to_bits());
    assert_eq!(merge.output().lng().unwrap()[0], ((-75.0f64 + -75.001) * 0.5).to_bits());
    assert_eq!(merge.match_mask(), &vec![true]);
}

#[test]
fn exclusive_match_consumes_its_candidate() {
    let tables = vec![
        table(
            "a.csv",
            &[("1 A St", "X", "PA", 40.0, -75.0), ("2 A St", "X", "PA", 40.0001, -75.0001)],
        ),
        table("b.csv", &[("B", "Y", "PA", 40.00005, -75.00005)]),
    ];
    let (_, outer) = merged(&tables, MatchMode::Outer, true, 0.25);
    assert_eq!(
        outer,
        vec![row(&["1 A St", "X", "B", "Y"]), row(&["2 A St", "X", "", ""])]
    );
    let (_, inner) = merged(&tables, MatchMode::Inner, true, 0.25);
    assert_eq!(inner, vec![row(&["1 A St", "X", "B", "Y"])]);
}

#[test]
fn without_exclusivity_one_candidate_serves_many_rows() {
    let tables = vec![
        table(
            "a.csv",
            &[("1 A St", "X", "PA", 40.0, -75.0), ("2 A St", "X", "PA", 40.0001, -75.0001)],
        ),
        table("b.csv", &[("B", "Y", "PA", 40.00005, -75.00005)]),
    ];
    let (_, left) = merged(&tables, MatchMode::Left, false, 0.25);
    assert_eq!(left.len(), 2);
    assert_eq!(left[0][..4], row(&["1 A St", "X", "B", "Y"])[..]);
    assert_eq!(left[1][..4], row(&["2 A St", "X", "B", "Y"])[..]);
    let (_, outer) = merged(&tables, MatchMode::Outer, false, 0.25);
    assert_eq!(
        outer,
        vec![
            row(&["1 A St", "X", "B", "Y"]),
            row(&["2 A St", "X", "B", "Y"]),
            row(&["", "", "B", "Y"]),
        ]
    );
}

#[test]
fn left_keeps_every_row_of_the_first_table_once() {
    let tables = vec![
        table(
            "a.csv",
            &[
                ("1 A St", "X", "PA", 40.0, -75.0),
                ("2 A St", "X", "PA", 41.0, -76.0),
                ("3 A St", "X", "PA", f64::NAN, f64::NAN),
            ],
        ),
        table(
            "b.csv",
            &[("B1", "Y", "PA", 41.0, -76.0), ("B2", "Y", "PA", 10.0, 10.0)],
        ),
        table("c.csv", &[("C1", "Z", "PA", 40.0, -75.0)]),
    ];
    let (headers, rows) = merged(&tables, MatchMode::Left, true, 0.25);
    assert_eq!(headers.len(), 7);
    assert_eq!(
        rows,
        vec![
            row(&["1 A St", "X", "", "", "C1", "Z", "0"]),
            row(&["2 A St", "X", "B1", "Y", "", "", "0"]),
            row(&["3 A St", "X", "", "", "", "", ""]),
        ]
    );
}

#[test]
fn outer_holds_every_row_of_every_table_once() {
    let tables = vec![
        table(
            "a.csv",
            &[("1 A St", "X", "PA", 40.0, -75.0), ("2 A St", "X", "PA", 41.0, -76.0)],
        ),
        table(
            "b.csv",
            &[("B1", "Y", "PA", 41.0, -76.0), ("B2", "Y", "PA", 10.0, 10.0)],
        ),
        table(
            "c.csv",
            &[("C1", "Z", "PA", 10.0, 10.0), ("C2", "Z", "PA", 50.0, 50.0)],
        ),
    ];
    let (_, rows) = merged(&tables, MatchMode::Outer, true, 0.25);
    assert_eq!(
        rows,
        vec![
            row(&["1 A St", "X", "", "", "", ""]),
            row(&["2 A St", "X", "B1", "Y", "", ""]),
            row(&["", "", "B2", "Y", "C1", "Z"]),
            row(&["", "", "", "", "C2", "Z"]),
        ]
    );
    let (_, inner) = merged(&tables, MatchMode::Inner, true, 0.25);
    assert_eq!(
        inner,
        vec![
            row(&["2 A St", "X", "B1", "Y", "", ""]),
            row(&["", "", "B2", "Y", "C1", "Z"]),
        ]
    );
}

#[test]
fn merge_goes_step_by_step() {
    let tables = vec![
        table("a.csv", &[("1 A St", "X", "PA", 40.0, -75.0)]),
        table("b.csv", &[("B1", "Y", "PA", 40.0, -75.0), ("B2", "Y", "PA", 40.0, -75.0)]),
    ];
    let mut merge = Merge::begin(&tables, MatchMode::Outer, true, 0.25f64.to_bits()).unwrap();
    let pending = merge.pending().unwrap();
    assert_eq!((pending.table, pending.row, pending.candidate), (1, 0, None));
    assert_eq!((pending.lat, pending.lng), (40.0f64.to_bits(), (-75.0f64).to_bits()));
    assert_eq!(merge.rank(&vec![0]), Err(ConfigError::WrongLength));
    assert_eq!(merge.settle(&Earth.measure(0, 0, 0, 0)), Err(ConfigError::NothingPicked));
    assert_eq!(merge.rank(&vec![0, 0]), Ok(Selection::Exact(0)));
    assert_eq!(merge.pending().unwrap().candidate, Some(0));
    assert_eq!(merge.written_mask(), &vec![false, false]);
    let found = merge.settle(&Earth.measure(pending.lat, pending.lng, pending.lat, pending.lng));
    assert_eq!(found.unwrap().unwrap().row, 0);
    assert!(merge.is_finished());
    assert_eq!(merge.pending(), None);
    assert_eq!(merge.rank(&vec![0, 0]), Err(ConfigError::Finished));
    assert_eq!(
        merge.rows(),
        vec![row(&["1 A St", "X", "B1", "Y"]), row(&["", "", "B2", "Y"])]
    );
}

#[test]
fn merge_needs_columns_and_coordinates() {
    let headers = vec![text("addr1"), text("city")];
    let records = vec![vec![text("1 A St"), text("X")]];
    let bare = DataFrame::from_path("a.csv", ',', headers, &records, None, None).unwrap();
    let tables = vec![bare];
    assert!(matches!(
        Merge::begin(&tables, MatchMode::Outer, true, 0.25f64.to_bits()),
        Err(ConfigError::NotReady)
    ));
    let mut plain = table("a.csv", &[("1 A St", "X", "PA", 40.0, -75.0)]);
    plain = {
        let headers = vec![text("addr1"), text("lat"), text("lng")];
        let records = vec![vec![text("1 A St"), text("40"), text("-75")]];
        let _ = plain;
        DataFrame::from_path(
            "a.csv",
            ',',
            headers,
            &records,
            Some(vec![40.0f64.to_bits()]),
            Some(vec![(-75.0f64).to_bits()]),
        )
        .unwrap()
    };
    let tables = vec![plain];
    assert!(matches!(
        Merge::begin(&tables, MatchMode::Outer, true, 0.25f64.to_bits()),
        Err(ConfigError::NoOutputColumns)
    ));
    let merge = Merge::begin(&tables, MatchMode::Left, true, 0.25f64.to_bits()).unwrap();
    assert_eq!(merge.headers(), vec![text("distance")]);
    assert_eq!(merge.rows(), vec![vec![text("")]]);
}

#[test]
fn prefixes_mark_the_headers_of_their_table() {
    let mut state = State::new(text("key"));
    state.add_file(table("a.csv", &[("1 A St", "X", "PA", 40.0, -75.0)]));
    state.add_file(table("b.csv", &[("B1", "Y", "PA", 40.0, -75.0)]));
    state.set_prefix(vec!["prefix", "1", "b"]).unwrap();
    state.set_method(vec!["method", "inner"]).unwrap();
    let mut merge = state.find_matches().unwrap();
    merge.run(&Earth).unwrap();
    assert_eq!(merge.headers(), row(&["addr1", "city", "b_addr1", "b_city"]));
    assert_eq!(merge.rows(), vec![row(&["1 A St", "X", "B1", "Y"])]);
}

struct Silent;

impl Geometry for Silent {
    fn proxies(&self, _lat: u64, _lng: u64, _candidates: &DataFrame) -> Vec<u64> {
        Vec::new()
    }

    fn measure(&self, _lat: u64, _lng: u64, _candidate_lat: u64, _candidate_lng: u64) -> Measurement {
        Measurement { distance: 0, distance_text: text("0"), lat: 0, lng: 0 }
    }
}

#[test]
fn run_stops_where_proxies_are_missing() {
    let tables = vec![
        table("a.csv", &[("1 A St", "X", "PA", 40.0, -75.0)]),
        table("b.csv", &[("B1", "Y", "PA", 40.0, -75.0)]),
    ];
    let mut merge = Merge::begin(&tables, MatchMode::Outer, true, 0.25f64.to_bits()).unwrap();
    assert_eq!(merge.run(&Silent), Err(ConfigError::WrongLength));
    assert!(!merge.is_finished());
    assert_eq!(merge.pending().unwrap().row, 0);
    assert_eq!(merge.run(&Earth), Ok(()));
    assert_eq!(merge.rows(), vec![row(&["1 A St", "X", "B1", "Y"])]);
}

#[test]
fn merge_of_no_tables_is_empty() {
    let tables: Vec<DataFrame> = Vec::new();
    assert!(matches!(
        Merge::begin(&tables, MatchMode::Inner, true, 0.25f64.to_bits()),
        Err(ConfigError::NoOutputColumns)
    ));
    let merge = Merge::begin(&tables, MatchMode::Left, true, 0.25f64.to_bits()).unwrap();
    assert!(merge.is_finished());
    assert_eq!(merge.headers(), vec![text("distance")]);
    assert_eq!(merge.rows(), Vec::<Vec<String>>::new());
}
