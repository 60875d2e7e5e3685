use geomatch::coords::{UNRESOLVED, ZERO};
use geomatch::data_frame::DataFrame;
use geomatch::matching::{
    confirm_match, find_best_match, select_candidate, MatchCandidate, Selection,
};

fn bits(x: f64) -> u64 {
    x.to_bits()
}

fn text(s: &str) -> String {
    s.to_string()
}

/// A table with the columns `name` and `unit`, compared by both.
fn candidates(rows: &[(&str, &str, f64, f64)]) -> DataFrame {
    let headers = vec![text("name"), text("unit"), text("lat"), text("lng")];
    let records: Vec<Vec<String>> = rows
        .iter()
        .map(|r| vec![text(r.0), text(r.1), r.2.to_string(), r.3.to_string()])
        .collect();
    let lat: Vec<u64> = rows.iter().map(|r| bits(r.2)).collect();
    let lng: Vec<u64> = rows.iter().map(|r| bits(r.3)).collect();
    let mut frame =
        DataFrame::from_path("b.csv", ',', headers, &records, Some(lat), Some(lng)).unwrap();
    frame.add_compare_column("name").unwrap();
    frame.add_compare_column("unit").unwrap();
    frame
}

fn planar(lat: f64, lng: f64, frame: &DataFrame) -> Vec<u64> {
    let lats = frame.lat().unwrap();
    let lngs = frame.lng().unwrap();
    (0..lats.len())
        .map(|i| {
            let a = f64::from_bits(lats[i]) - lat;
            let b = f64::from_bits(lngs[i]) - lng;
            (a * a + b * b).to_bits()
        })
        .collect()
}

#[test]
fn single_exact_match_has_distance_zero_whatever_the_radius() {
    let table = candidates(&[("a", "1", 10.0, 20.0), ("b", "2", 39.78, -89.65), ("c", "3", 39.0, -89.0)]);
    let mask = vec![false, false, false];
    let proxies = planar(39.78, -89.65, &table);
    for radius in [0.25f64, 1e-300, 0.0, 1e300] {
        let distances = vec![bits(500.0), bits(77.0), bits(60.0)];
        let found = find_best_match(
            bits(39.78),
            bits(-89.65),
            &Vec::new(),
            &table,
            &mask,
            true,
            bits(radius),
            &proxies,
            &distances,
        );
        assert_eq!(found, Some(MatchCandidate { row: 1, distance: ZERO }));
    }
}

#[test]
fn several_exact_matches_are_told_apart_by_their_text() {
    let table = candidates(&[
        ("Acme Dental", "Suite 100", 39.78, -89.65),
        ("Main Street Bakery", "Suite 200", 39.78, -89.65),
        ("Corner Books", "Suite 300", 39.78, -89.65),
    ]);
    let mask = vec![false, false, false];
    let proxies = planar(39.78, -89.65, &table);
    let ours = vec![text("bakery main street"), text("suite 200")];
    let first = select_candidate(bits(39.78), bits(-89.65), &ours, &table, &mask, true, &proxies);
    assert_eq!(first, Selection::Exact(1));
    let again = select_candidate(bits(39.78), bits(-89.65), &ours, &table, &mask, true, &proxies);
    assert_eq!(again, first);
    assert_eq!(
        confirm_match(first, bits(123.0), bits(0.25)),
        Some(MatchCandidate { row: 1, distance: ZERO })
    );
}

#[test]
fn equal_scores_go_to_the_first_exact_match() {
    let table = candidates(&[
        ("x", "1", 1.0, 1.0),
        ("same", "unit", 2.0, 2.0),
        ("same", "unit", 2.0, 2.0),
    ]);
    let mask = vec![false, false, false];
    let proxies = planar(2.0, 2.0, &table);
    let ours = vec![text("same")];
    let picked = select_candidate(bits(2.0), bits(2.0), &ours, &table, &mask, true, &proxies);
    assert_eq!(picked, Selection::Exact(1));
    let none: Vec<String> = Vec::new();
    let picked = select_candidate(bits(2.0), bits(2.0), &none, &table, &mask, true, &proxies);
    assert_eq!(picked, Selection::Exact(1));
}

#[test]
fn nearest_candidate_is_the_first_of_least_proxy() {
    let table = candidates(&[("a", "1", 10.0, 10.0), ("b", "2", 1.0, 1.0), ("c", "3", 1.0, 1.0)]);
    let mask = vec![false, false, false];
    let proxies = planar(0.0, 0.0, &table);
    let none: Vec<String> = Vec::new();
    let picked = select_candidate(bits(0.0), bits(0.0), &none, &table, &mask, true, &proxies);
    assert_eq!(picked, Selection::Nearest(1));
}

#[test]
fn radius_is_an_inclusive_bound() {
    let radius = bits(0.25);
    assert_eq!(
        confirm_match(Selection::Nearest(4), bits(0.25), radius),
        Some(MatchCandidate { row: 4, distance: bits(0.25) })
    );
    assert_eq!(confirm_match(Selection::Nearest(4), bits(0.2500000001), radius), None);
    assert_eq!(
        confirm_match(Selection::Nearest(4), bits(0.24), radius),
        Some(MatchCandidate { row: 4, distance: bits(0.24) })
    );
    assert_eq!(confirm_match(Selection::Unmatched, bits(0.0), radius), None);
}

#[test]
fn nearest_beyond_the_radius_is_no_match() {
    let table = candidates(&[("a", "1", 40.01, -75.01)]);
    let mask = vec![false];
    let proxies = planar(40.0, -75.0, &table);
    let distances = vec![bits(0.87)];
    let none: Vec<String> = Vec::new();
    let found = find_best_match(
        bits(40.0), bits(-75.0), &none, &table, &mask, true, bits(0.25), &proxies, &distances,
    );
    assert_eq!(found, None);
    let found = find_best_match(
        bits(40.0), bits(-75.0), &none, &table, &mask, true, bits(1.0), &proxies, &distances,
    );
    assert_eq!(found, Some(MatchCandidate { row: 0, distance: bits(0.87) }));
}

#[test]
fn unresolved_row_never_matches() {
    let table = candidates(&[("a", "1", 1.0, 1.0)]);
    let mask = vec![false];
    let proxies = vec![0u64];
    let none: Vec<String> = Vec::new();
    let picked = select_candidate(UNRESOLVED, bits(1.0), &none, &table, &mask, true, &proxies);
    assert_eq!(picked, Selection::Unmatched);
    let picked = select_candidate(bits(1.0), f64::NAN.to_bits(), &none, &table, &mask, false, &proxies);
    assert_eq!(picked, Selection::Unmatched);
}

#[test]
fn unresolved_and_consumed_candidates_are_passed_over() {
    let table = candidates(&[("a", "1", f64::NAN, 1.0), ("b", "2", 5.0, 5.0), ("c", "3", 9.0, 9.0)]);
    let none: Vec<String> = Vec::new();
    let proxies = vec![0u64, 1, 2];
    let free = vec![false, false, false];
    let picked = select_candidate(bits(5.1), bits(5.1), &none, &table, &free, true, &proxies);
    assert_eq!(picked, Selection::Nearest(1));
    let used = vec![false, true, false];
    let picked = select_candidate(bits(5.1), bits(5.1), &none, &table, &used, true, &proxies);
    assert_eq!(picked, Selection::Nearest(2));
    let picked = select_candidate(bits(5.1), bits(5.1), &none, &table, &used, false, &proxies);
    assert_eq!(picked, Selection::Nearest(1));
    let picked = select_candidate(bits(5.0), bits(5.0), &none, &table, &used, true, &proxies);
    assert_eq!(picked, Selection::Nearest(2));
    let all = vec![true, true, true];
    let picked = select_candidate(bits(5.0), bits(5.0), &none, &table, &all, true, &proxies);
    assert_eq!(picked, Selection::Unmatched);
}
