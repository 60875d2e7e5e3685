use geomatch::coords::{unresolved, UNRESOLVED};
use geomatch::data_frame::DataFrame;
use geomatch::error::ConfigError;
use geomatch::geocode::{
    interpret, read_reply, request_query, resolve, tick_nanos, GeocodeReply, Resolution, ENDPOINT,
    MAX_IN_FLIGHT, REQUESTS_PER_SECOND,
};
use geomatch::state::State;

fn text(s: &str) -> String {
    s.to_string()
}

fn row(cells: &[&str]) -> Vec<String> {
    cells.iter().map(|c| c.to_string()).collect()
}

const FOUND: &str = r#"{
  "results": [
    {
      "formatted_address": "1 Main St, Springfield, IL 62701, USA",
      "geometry": { "location": { "lat": 39.78, "lng": -89.65 }, "location_type": "ROOFTOP" }
    },
    {
      "formatted_address": "elsewhere",
      "geometry": { "location": { "lat": 1.0, "lng": 2.0 } }
    }
  ],
  "status": "OK"
}"#;

fn addresses() -> DataFrame {
    let headers = row(&["addr", "city", "state"]);
    let records = vec![
        row(&["1 Main St", "Springfield", "IL"]),
        row(&["", "Springfield", "IL"]),
        row(&["2 Main St", "Springfield", "IL"]),
        row(&["3 Main St", "Springfield", "IL"]),
    ];
    DataFrame::from_path("t.csv", ',', headers, &records, None, None).unwrap()
}

#[test]
fn answer_with_a_result_is_a_find() {
    let reply = read_reply(FOUND).unwrap();
    assert_eq!(
        reply,
        GeocodeReply {
            lat: Some(39.78f64.to_bits()),
            lng: Some((-89.65f64).to_bits()),
            formatted_address: Some(text("1 Main St, Springfield, IL 62701, USA")),
            status: Some(text("OK")),
        }
    );
    assert_eq!(
        interpret(FOUND),
        Resolution::Found {
            lat: 39.78f64.to_bits(),
            lng: (-89.65f64).to_bits(),
            address: text("1 Main St, Springfield, IL 62701, USA"),
        }
    );
}

#[test]
fn answer_without_a_result_is_no_find() {
    assert_eq!(interpret(r#"{"results": [], "status": "ZERO_RESULTS"}"#), Resolution::NotFound);
    assert_eq!(interpret(r#"{"status": 7}"#), Resolution::NotFound);
    assert_eq!(interpret("[]"), Resolution::NotFound);
}

#[test]
fn used_up_quota_is_told_apart() {
    assert_eq!(
        interpret(r#"{"results": [], "status": "OVER_QUERY_LIMIT", "error_message": "quota"}"#),
        Resolution::OverQuota
    );
    assert_eq!(interpret(r#"{"results": [], "status": "over_query_limit"}"#), Resolution::NotFound);
}

#[test]
fn unreadable_answer_is_a_failure() {
    assert_eq!(interpret("<html>502</html>"), Resolution::Failed);
    assert_eq!(interpret(""), Resolution::Failed);
    assert_eq!(read_reply("{"), None);
    assert_eq!(
        interpret(r#"{"results": [{"geometry": {"location": {"lat": 1.5}}}], "status": "OK"}"#),
        Resolution::Failed
    );
}

#[test]
fn find_without_an_address_has_an_empty_one() {
    let reply = GeocodeReply { lat: Some(1), lng: Some(2), formatted_address: None, status: None };
    assert_eq!(resolve(&reply), Resolution::Found { lat: 1, lng: 2, address: text("") });
    assert_eq!(resolve(&reply).to_point(), (1, 2, text("")));
    assert_eq!(Resolution::OverQuota.to_point(), (UNRESOLVED, UNRESOLVED, text("")));
    let reply = GeocodeReply {
        lat: Some(1),
        lng: Some(2),
        formatted_address: None,
        status: Some(text("OVER_QUERY_LIMIT")),
    };
    assert_eq!(resolve(&reply), Resolution::Found { lat: 1, lng: 2, address: text("") });
}

#[test]
fn geocoded_table_gets_coordinates_and_addresses() {
    let mut frame = addresses();
    let outcomes = vec![
        Resolution::Found { lat: 11, lng: 12, address: text("1 MAIN ST") },
        Resolution::Found { lat: 21, lng: 22, address: text("never asked") },
        Resolution::NotFound,
        Resolution::Failed,
    ];
    assert_eq!(frame.fetch(&outcomes), Ok(false));
    assert_eq!(frame.get_headers(), &row(&["addr", "city", "state", "norm_address"]));
    assert_eq!(frame.lat().unwrap(), &vec![11, UNRESOLVED, UNRESOLVED, UNRESOLVED]);
    assert_eq!(frame.lng().unwrap(), &vec![12, UNRESOLVED, UNRESOLVED, UNRESOLVED]);
    assert_eq!(frame.data()[3], row(&["1 MAIN ST", "", "", ""]));
    assert_eq!(frame.shape(), (4, 4));
    assert!(frame.ready_to_match());
}

#[test]
fn blank_table_asks_nothing_and_stays_unresolved() {
    let headers = row(&["addr", "city", "state"]);
    let records = vec![row(&["", "", ""]), row(&["  ", "Troy", "NY"]), row(&["1 A St", "Troy", "\n"])];
    let mut frame = DataFrame::from_path("t.csv", ',', headers, &records, None, None).unwrap();
    assert_eq!(frame.addresses(), vec![None, None, None]);
    let outcomes = vec![
        Resolution::Found { lat: 1, lng: 2, address: text("x") },
        Resolution::OverQuota,
        Resolution::NotFound,
    ];
    assert_eq!(frame.fetch(&outcomes), Ok(false));
    for r in 0..3 {
        assert!(unresolved(frame.lat().unwrap()[r]));
        assert!(unresolved(frame.lng().unwrap()[r]));
        assert!(f64::from_bits(frame.lat().unwrap()[r]).is_nan());
        assert_eq!(frame.data()[3][r], "");
    }
}

#[test]
fn quota_that_ran_out_is_reported() {
    let mut frame = addresses();
    let outcomes = vec![
        Resolution::NotFound,
        Resolution::NotFound,
        Resolution::OverQuota,
        Resolution::NotFound,
    ];
    assert_eq!(frame.fetch(&outcomes), Ok(true));
    assert_eq!(frame.lat().unwrap(), &vec![UNRESOLVED; 4]);
}

#[test]
fn fetch_needs_roles_and_one_outcome_per_row() {
    let mut frame = addresses();
    assert_eq!(frame.fetch(&vec![Resolution::NotFound]), Err(ConfigError::WrongLength));
    assert_eq!(frame.shape(), (3, 4));
    let headers = row(&["street", "city", "state"]);
    let records = vec![row(&["1 Main St", "Springfield", "IL"])];
    let mut bare = DataFrame::from_path("t.csv", ',', headers, &records, None, None).unwrap();
    assert_eq!(bare.fetch(&vec![Resolution::NotFound]), Err(ConfigError::NotReady));
}

#[test]
fn every_table_of_a_configuration_is_geocoded() {
    let mut state = State::new(text("key"));
    state.add_file(addresses());
    state.add_file(addresses());
    assert!(state.ready_to_fetch());
    assert!(!state.ready_to_match());
    let quiet = vec![Resolution::NotFound, Resolution::NotFound, Resolution::NotFound, Resolution::NotFound];
    let short = vec![Resolution::NotFound];
    assert_eq!(state.fetch(&vec![quiet.clone()]), Err(ConfigError::WrongLength));
    assert_eq!(state.fetch(&vec![quiet.clone(), short]), Err(ConfigError::WrongLength));
    assert_eq!(state.get_dataframe(0).shape(), (3, 4));
    let mut loud = quiet.clone();
    loud[3] = Resolution::OverQuota;
    assert_eq!(state.fetch(&vec![quiet, loud]), Ok(true));
    assert!(state.ready_to_match());
    assert_eq!(state.get_dataframe(1).shape(), (4, 4));
}

#[test]
fn requests_are_spaced_by_the_rate() {
    assert_eq!(REQUESTS_PER_SECOND, 30);
    assert_eq!(MAX_IN_FLIGHT, 30);
    assert_eq!(tick_nanos(REQUESTS_PER_SECOND), 33_333_333);
    assert_eq!(tick_nanos(1), 1_000_000_000);
    assert_eq!(tick_nanos(50), 20_000_000);
}

#[test]
fn request_carries_the_address_and_the_key() {
    assert_eq!(ENDPOINT, "https://maps.googleapis.com/maps/api/geocode/json");
    assert_eq!(
        request_query("1 Main St Springfield IL", "k3y"),
        vec![(text("address"), text("1 Main St Springfield IL")), (text("key"), text("k3y"))]
    );
}
