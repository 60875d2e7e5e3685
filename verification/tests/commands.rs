use geomatch::data_frame::DataFrame;
use geomatch::error::{Argument, ConfigError};
use geomatch::merge::MatchMode;
use geomatch::state::{State, DEFAULT_RADIUS};
use geomatch::text::{blank, join_from, parse_index, same_folded, same_text, squeezes_to};

fn text(s: &str) -> String {
    s.to_string()
}

fn row(cells: &[&str]) -> Vec<String> {
    cells.iter().map(|c| c.to_string()).collect()
}

fn state() -> State {
    let mut state = State::new(text("key"));
    let headers = row(&["street name", "town", "st", "y", "x"]);
    let records = vec![row(&["1 A St", "Troy", "NY", "40.5", "-73.5"])];
    state.add_file(DataFrame::from_path("a.csv", ',', headers, &records, None, None).unwrap());
    state
}

#[test]
fn new_configuration_has_its_defaults() {
    let state = State::new(text("k3y"));
    assert_eq!(state.api_key(), "k3y");
    assert_eq!(state.radius(), 0.25f64.to_bits());
    assert_eq!(state.radius(), DEFAULT_RADIUS);
    assert_eq!(state.match_mode(), MatchMode::Left);
    assert!(state.exclusive());
    assert_eq!(state.file_count(), 0);
    assert!(state.ready_to_fetch());
    assert!(state.ready_to_match());
}

#[test]
fn method_sets_the_join_mode() {
    let mut state = state();
    state.set_method(vec!["method", "outer"]).unwrap();
    assert_eq!(state.match_mode(), MatchMode::Outer);
    state.set_method(vec!["method", "inner"]).unwrap();
    assert_eq!(state.match_mode(), MatchMode::Inner);
    state.set_method(vec!["method", "left", "more"]).unwrap();
    assert_eq!(state.match_mode(), MatchMode::Left);
    assert_eq!(state.set_method(vec!["method"]), Err(ConfigError::Missing(Argument::Method)));
    assert_eq!(state.set_method(vec!["method", "Outer"]), Err(ConfigError::InvalidMatchMode));
    assert_eq!(state.set_method(vec!["method", "full"]), Err(ConfigError::InvalidMatchMode));
    assert_eq!(state.match_mode(), MatchMode::Left);
    assert_eq!(ConfigError::Missing(Argument::Method).message(), "method required");
    assert_eq!(ConfigError::InvalidMatchMode.message(), "Invalid match mode");
}

#[test]
fn exclusive_takes_true_or_false_in_any_case() {
    let mut state = state();
    state.set_exclusive(vec!["exclusive", "FALSE"]).unwrap();
    assert!(!state.exclusive());
    state.set_exclusive(vec!["exclusive", "True"]).unwrap();
    assert!(state.exclusive());
    assert_eq!(state.set_exclusive(vec!["exclusive"]), Err(ConfigError::Missing(Argument::Value)));
    assert_eq!(state.set_exclusive(vec!["exclusive", "yes"]), Err(ConfigError::InvalidFlag));
    assert!(state.exclusive());
    assert_eq!(ConfigError::InvalidFlag.message(), "val must be true or false");
    assert_eq!(ConfigError::Missing(Argument::Value).message(), "val required");
}

#[test]
fn radius_must_be_a_positive_number() {
    let mut state = state();
    state.set_radius(vec!["radius", "1.5"], Some(1.5f64.to_bits())).unwrap();
    assert_eq!(state.radius(), 1.5f64.to_bits());
    state.set_radius(vec!["radius", "inf"], Some(f64::INFINITY.to_bits())).unwrap();
    assert_eq!(state.radius(), f64::INFINITY.to_bits());
    assert_eq!(state.set_radius(vec!["radius"], None), Err(ConfigError::Missing(Argument::Radius)));
    assert_eq!(state.set_radius(vec!["radius", "abc"], None), Err(ConfigError::InvalidRadius));
    for bad in [0.0f64, -0.0, -1.0, f64::NAN, f64::NEG_INFINITY] {
        assert_eq!(
            state.set_radius(vec!["radius", "x"], Some(bad.to_bits())),
            Err(ConfigError::InvalidRadius)
        );
    }
    assert_eq!(state.radius(), f64::INFINITY.to_bits());
}

#[test]
fn prefix_is_set_on_the_table_named() {
    let mut state = state();
    state.set_prefix(vec!["prefix", "0", "left"]).unwrap();
    state.add_match_column(vec!["add", "0", "output", "town"]).unwrap();
    assert_eq!(state.get_dataframe(0).output_headers(), row(&["left_town"]));
    assert_eq!(state.set_prefix(vec!["prefix"]), Err(ConfigError::Missing(Argument::FileIndex)));
    assert_eq!(state.set_prefix(vec!["prefix", "zero", "p"]), Err(ConfigError::InvalidIndex));
    assert_eq!(state.set_prefix(vec!["prefix", "0"]), Err(ConfigError::Missing(Argument::Prefix)));
    assert_eq!(state.set_prefix(vec!["prefix", "1", "p"]), Err(ConfigError::IndexOutOfBounds));
    assert_eq!(ConfigError::IndexOutOfBounds.message(), "Index out of Bounds");
}

#[test]
fn columns_are_listed_by_table() {
    let state = state();
    assert_eq!(
        state.get_columns(vec!["list", "0"]),
        Ok(&row(&["street name", "town", "st", "y", "x"]))
    );
    assert_eq!(state.get_columns(vec!["list"]), Err(ConfigError::Missing(Argument::FileIndex)));
    assert_eq!(state.get_columns(vec!["list", "-1"]), Err(ConfigError::InvalidIndex));
    assert_eq!(state.get_columns(vec!["list", "3"]), Err(ConfigError::IndexOutOfBounds));
}

#[test]
fn columns_are_added_for_output_or_comparison() {
    let mut state = state();
    state.add_match_column(vec!["add", "0", "output", "street", "name"]).unwrap();
    state.add_match_column(vec!["add", "0", "compare", "town"]).unwrap();
    state.add_match_column(vec!["add", "+0", "output", "st"]).unwrap();
    assert_eq!(state.get_dataframe(0).output_headers(), row(&["street name", "st"]));
    assert_eq!(state.get_dataframe(0).compare_row(0), row(&["Troy"]));
    assert_eq!(state.add_match_column(vec!["add"]), Err(ConfigError::Missing(Argument::FileIndex)));
    assert_eq!(state.add_match_column(vec!["add", "x"]), Err(ConfigError::InvalidIndex));
    assert_eq!(state.add_match_column(vec!["add", "0"]), Err(ConfigError::Missing(Argument::Kind)));
    assert_eq!(
        state.add_match_column(vec!["add", "0", "output"]),
        Err(ConfigError::Missing(Argument::Column))
    );
    assert_eq!(
        state.add_match_column(vec!["add", "9", "output", "town"]),
        Err(ConfigError::IndexOutOfBounds)
    );
    assert_eq!(
        state.add_match_column(vec!["add", "0", "hidden", "town"]),
        Err(ConfigError::InvalidKind)
    );
    assert_eq!(
        state.add_match_column(vec!["add", "0", "output", "street"]),
        Err(ConfigError::UnknownColumn(text("street")))
    );
    assert_eq!(state.get_dataframe(0).output_width(), 2);
    assert_eq!(ConfigError::Missing(Argument::Column).message(), "output_col required");
    assert_eq!(ConfigError::Missing(Argument::Kind).message(), "type required");
    assert_eq!(ConfigError::InvalidKind.message(), "Invalid type");
}

#[test]
fn parameters_bind_roles_and_axes() {
    let mut state = state();
    assert!(!state.ready_to_fetch());
    state.set_param(vec!["set", "0", "addr1", "street", "name"], None).unwrap();
    state.set_param(vec!["set", "0", "CITY", "town"], None).unwrap();
    state.set_param(vec!["set", "0", "state", "st"], None).unwrap();
    assert!(state.ready_to_fetch());
    assert_eq!(state.get_dataframe(0).get_address(0), Some(text("1 A St Troy NY")));
    state.set_param(vec!["set", "0", "zipcode", "st"], None).unwrap();
    state.set_param(vec!["set", "0", "addr2", "town"], None).unwrap();
    assert_eq!(state.get_dataframe(0).get_address(0), Some(text("1 A St Troy Troy NY NY")));
    state.set_param(vec!["set", "0", "colour", "town"], None).unwrap();
    assert!(!state.ready_to_match());
    state.set_param(vec!["set", "0", "lat", "y"], Some(vec![40.5f64.to_bits()])).unwrap();
    state.set_param(vec!["set", "0", "Lng", "x"], Some(vec![(-73.5f64).to_bits()])).unwrap();
    assert!(state.ready_to_match());
    assert_eq!(state.get_dataframe(0).get_headers(), &row(&["street name", "town", "st"]));
    assert_eq!(state.get_dataframe(0).lat().unwrap(), &vec![40.5f64.to_bits()]);
}

#[test]
fn parameters_are_refused_with_their_reason() {
    let mut state = state();
    assert_eq!(state.set_param(vec!["set"], None), Err(ConfigError::Missing(Argument::Index)));
    assert_eq!(state.set_param(vec!["set", "0"], None), Err(ConfigError::Missing(Argument::Key)));
    assert_eq!(state.set_param(vec!["set", "a", "city", "town"], None), Err(ConfigError::InvalidIndex));
    assert_eq!(state.set_param(vec!["set", "2", "city", "town"], None), Err(ConfigError::IndexOutOfBounds));
    assert_eq!(
        state.set_param(vec!["set", "0", "city", "village"], None),
        Err(ConfigError::UnknownColumn(text("village")))
    );
    assert_eq!(
        state.set_param(vec!["set", "0", "city"], None),
        Err(ConfigError::UnknownColumn(text("")))
    );
    assert_eq!(
        state.set_param(vec!["set", "0", "lat", "y"], None),
        Err(ConfigError::Missing(Argument::Value))
    );
    assert_eq!(
        state.set_param(vec!["set", "0", "lat", "y"], Some(vec![1, 2])),
        Err(ConfigError::WrongLength)
    );
    assert_eq!(
        state.set_param(vec!["set", "0", "lng", "z"], Some(vec![1])),
        Err(ConfigError::UnknownColumn(text("z")))
    );
    assert_eq!(
        state.set_param(vec!["set", "0", "lng", "z"], None),
        Err(ConfigError::UnknownColumn(text("z")))
    );
    assert_eq!(state.get_dataframe(0).shape(), (5, 1));
    assert_eq!(ConfigError::Missing(Argument::Index).message(), "index is required");
    assert_eq!(ConfigError::Missing(Argument::Key).message(), "key is required");
}

#[test]
fn merge_of_a_configuration_without_columns_is_refused() {
    let mut state = state();
    assert!(matches!(state.find_matches(), Err(ConfigError::NotReady)));
    state.set_param(vec!["set", "0", "lat", "y"], Some(vec![40.5f64.to_bits()])).unwrap();
    state.set_param(vec!["set", "0", "lng", "x"], Some(vec![(-73.5f64).to_bits()])).unwrap();
    state.set_method(vec!["method", "outer"]).unwrap();
    let refused = state.find_matches().err().unwrap();
    assert_eq!(refused, ConfigError::NoOutputColumns);
    assert_eq!(refused.message(), "No output columns supplied");
}

#[test]
fn index_is_read_from_decimal_digits() {
    assert_eq!(parse_index("0"), Some(0));
    assert_eq!(parse_index("007"), Some(7));
    assert_eq!(parse_index("+12"), Some(12));
    assert_eq!(parse_index("18446744073709551615"), "18446744073709551615".parse::<usize>().ok());
    assert_eq!(parse_index("18446744073709551616"), None);
    assert_eq!(parse_index("99999999999999999999999"), None);
    for bad in ["", "+", "-1", "1 ", " 1", "1.0", "1e3", "++1", "0x10", "١"] {
        assert_eq!(parse_index(bad), None, "{:?}", bad);
        assert_eq!(bad.parse::<usize>().ok(), None);
    }
}

#[test]
fn words_are_joined_by_single_spaces() {
    assert_eq!(join_from(&vec!["add", "0", "output", "street", "name"], 3), "street name");
    assert_eq!(join_from(&vec!["a", "b", "c"], 0), "a b c");
    assert_eq!(join_from(&vec!["a", "b", "c"], 2), "c");
    assert_eq!(join_from(&vec!["a", "b", "c"], 3), "");
    assert_eq!(join_from(&vec!["a", "b", "c"], 9), "");
    assert_eq!(join_from(&Vec::new(), 0), "");
}

#[test]
fn texts_are_compared_as_they_should() {
    assert!(same_text("left", "left"));
    assert!(!same_text("left", "Left"));
    assert!(same_folded("TrUe", "true"));
    assert!(!same_folded("true ", "true"));
    assert!(!same_folded("trüe", "true"));
    assert!(blank(""));
    assert!(blank(" \t\r\n\u{a0}\u{2003}\u{3000}"));
    assert!(!blank(" a "));
    assert!(!blank("\u{200b}"));
    assert!(squeezes_to(" Zip Code ", "zipcode"));
    assert!(squeezes_to("ZIP\tcode", "zipcode"));
    assert!(!squeezes_to("zipcodes", "zipcode"));
    for c in (0..=0x3100u32).filter_map(char::from_u32) {
        assert_eq!(blank(&c.to_string()), c.is_whitespace(), "{:?}", c);
    }
}

#[test]
fn axis_column_is_offered_for_reading() {
    let state = state();
    assert_eq!(state.axis_source(&vec!["set", "0", "lat", "y"]), Some(&row(&["40.5"])));
    assert_eq!(state.axis_source(&vec!["set", "0", "LNG", "x"]), Some(&row(&["-73.5"])));
    assert_eq!(state.axis_source(&vec!["set", "0", "lat", "street", "name"]), Some(&row(&["1 A St"])));
    assert_eq!(state.axis_source(&vec!["set", "0", "city", "town"]), None);
    assert_eq!(state.axis_source(&vec!["set", "0", "lat", "z"]), None);
    assert_eq!(state.axis_source(&vec!["set", "1", "lat", "y"]), None);
    assert_eq!(state.axis_source(&vec!["set", "x", "lat", "y"]), None);
    assert_eq!(state.axis_source(&vec!["set", "0", "lat"]), None);
    assert_eq!(state.axis_source(&vec!["set", "0"]), None);
}
