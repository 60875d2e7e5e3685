use geomatch::data_frame::DataFrame;
use geomatch::error::ConfigError;
use geomatch::roles::{choose_delimiter, header_role, infer_roles, Role};

fn text(s: &str) -> String {
    s.to_string()
}

fn row(cells: &[&str]) -> Vec<String> {
    cells.iter().map(|c| c.to_string()).collect()
}

fn sample() -> DataFrame {
    let headers = row(&["Id", "Latitude", "Address", "Addr2", "City", "Longitude", "State", "Zip Code", "Name"]);
    let records = vec![
        row(&["7", "39.78", "1 Main St", "Apt 2", "Springfield", "-89.65", "IL", "62701", "Ann"]),
        row(&["8", "bad", " ", "", "Chicago", "-87.6", "IL", "60601", "Bob"]),
    ];
    let lat = vec![39.78f64.to_bits(), f64::NAN.to_bits()];
    let lng = vec![(-89.65f64).to_bits(), (-87.6f64).to_bits()];
    DataFrame::from_path("dir/sample.csv", '|', headers, &records, Some(lat), Some(lng)).unwrap()
}

#[test]
fn headers_give_roles_whatever_their_case_and_spacing() {
    assert_eq!(header_role("ID"), Some(Role::Id));
    assert_eq!(header_role(" Address "), Some(Role::Addr1));
    assert_eq!(header_role("addr"), Some(Role::Addr1));
    assert_eq!(header_role("Addr1"), Some(Role::Addr1));
    assert_eq!(header_role("Address 2"), Some(Role::Addr2));
    assert_eq!(header_role("addr2"), Some(Role::Addr2));
    assert_eq!(header_role("City"), Some(Role::City));
    assert_eq!(header_role("STATE"), Some(Role::State));
    assert_eq!(header_role("Zip Code"), Some(Role::Zipcode));
    assert_eq!(header_role("zip"), Some(Role::Zipcode));
    assert_eq!(header_role("Postal Code"), Some(Role::Zipcode));
    assert_eq!(header_role("lat"), Some(Role::Lat));
    assert_eq!(header_role("Latitude"), Some(Role::Lat));
    assert_eq!(header_role("LNG"), Some(Role::Lng));
    assert_eq!(header_role("longitude"), Some(Role::Lng));
    assert_eq!(header_role("name"), None);
    assert_eq!(header_role(""), None);
    assert_eq!(header_role("latitudes"), None);
}

#[test]
fn last_header_of_a_role_has_it() {
    let roles = infer_roles(&row(&["city", "x", "City", "lat"]));
    assert_eq!(roles.city, Some(2));
    assert_eq!(roles.lat, Some(3));
    assert_eq!(roles.lng, None);
    assert_eq!(roles.id, None);
}

#[test]
fn delimiter_with_more_fields_wins() {
    assert_eq!(choose_delimiter(5, 1), ',');
    assert_eq!(choose_delimiter(1, 5), '|');
    assert_eq!(choose_delimiter(3, 3), ',');
}

#[test]
fn coordinate_columns_leave_the_text() {
    let frame = sample();
    assert_eq!(frame.shape(), (7, 2));
    assert_eq!(frame.rows(), 2);
    assert_eq!(
        frame.get_headers(),
        &row(&["Id", "Address", "Addr2", "City", "State", "Zip Code", "Name"])
    );
    assert_eq!(frame.lat().unwrap(), &vec![39.78f64.to_bits(), f64::NAN.to_bits()]);
    assert_eq!(frame.lng().unwrap(), &vec![(-89.65f64).to_bits(), (-87.6f64).to_bits()]);
    assert!(frame.ready_to_match());
    assert!(frame.ready_to_fetch());
    assert_eq!(frame.data().len(), 7);
    assert_eq!(frame.data()[6], row(&["Ann", "Bob"]));
}

#[test]
fn roles_follow_their_columns() {
    let frame = sample();
    assert_eq!(frame.id().unwrap(), &row(&["7", "8"]));
    assert_eq!(frame.addr1().unwrap(), &row(&["1 Main St", " "]));
    assert_eq!(frame.addr2().unwrap(), &row(&["Apt 2", ""]));
    assert_eq!(frame.city().unwrap(), &row(&["Springfield", "Chicago"]));
    assert_eq!(frame.state().unwrap(), &row(&["IL", "IL"]));
    assert_eq!(frame.zipcode().unwrap(), &row(&["62701", "60601"]));
}

#[test]
fn address_joins_its_parts_in_order() {
    let frame = sample();
    assert_eq!(frame.get_address(0), Some(text("1 Main St Apt 2 Springfield IL 62701")));
    assert_eq!(frame.get_address(1), None);
    assert_eq!(
        frame.addresses(),
        vec![Some(text("1 Main St Apt 2 Springfield IL 62701")), None]
    );
}

#[test]
fn address_without_optional_parts() {
    let headers = row(&["addr", "city", "state"]);
    let records = vec![row(&["5 Oak Ave", "Troy", "NY"]), row(&["5 Oak Ave", "\t ", "NY"])];
    let frame = DataFrame::from_path("t.csv", ',', headers, &records, None, None).unwrap();
    assert_eq!(frame.get_address(0), Some(text("5 Oak Ave Troy NY")));
    assert_eq!(frame.get_address(1), None);
    assert!(!frame.ready_to_match());
    assert_eq!(frame.lat(), None);
}

#[test]
fn records_must_fit_their_headers() {
    let headers = row(&["addr", "city", "lat"]);
    let ragged = vec![row(&["a", "b", "1"]), row(&["a", "b"])];
    assert!(matches!(
        DataFrame::from_path("t.csv", ',', headers.clone(), &ragged, Some(vec![0, 0]), None),
        Err(ConfigError::RaggedRecord)
    ));
    let records = vec![row(&["a", "b", "1"])];
    assert!(matches!(
        DataFrame::from_path("t.csv", ',', headers.clone(), &records, None, None),
        Err(ConfigError::WrongLength)
    ));
    assert!(matches!(
        DataFrame::from_path("t.csv", ',', headers.clone(), &records, Some(vec![1, 2]), None),
        Err(ConfigError::WrongLength)
    ));
    assert!(matches!(
        DataFrame::from_path("t.csv", ',', headers.clone(), &records, Some(vec![1]), Some(vec![1])),
        Err(ConfigError::WrongLength)
    ));
    let frame = DataFrame::from_path("t.csv", ',', headers, &records, Some(vec![1]), None).unwrap();
    assert_eq!(frame.get_headers(), &row(&["addr", "city"]));
    assert_eq!(frame.lat().unwrap(), &vec![1]);
    assert_eq!(frame.lng(), None);
}

#[test]
fn output_columns_come_in_the_order_selected() {
    let mut frame = sample();
    frame.add_output_column("Name").unwrap();
    frame.add_output_column("City").unwrap();
    frame.add_compare_column("Id").unwrap();
    assert_eq!(frame.output_width(), 2);
    assert_eq!(frame.output_headers(), row(&["Name", "City"]));
    assert_eq!(frame.output_row(1), row(&["Bob", "Chicago"]));
    assert_eq!(frame.row(1), row(&["8", " ", "", "Chicago", "IL", "60601", "Bob"]));
    assert_eq!(frame.compare_row(0), row(&["7"]));
    frame.set_prefix("left");
    assert_eq!(frame.output_headers(), row(&["left_Name", "left_City"]));
}

#[test]
fn unknown_column_is_refused_by_name() {
    let mut frame = sample();
    let refused = frame.add_output_column("Phone").unwrap_err();
    assert_eq!(refused, ConfigError::UnknownColumn(text("Phone")));
    assert_eq!(refused.message(), "No column named Phone");
    assert_eq!(frame.output_width(), 0);
    assert_eq!(frame.set_city("Town"), Err(ConfigError::UnknownColumn(text("Town"))));
    assert_eq!(frame.get_col_index("Name"), Ok(6));
    assert_eq!(frame.get_col_index("name"), Err(ConfigError::UnknownColumn(text("name"))));
}

#[test]
fn roles_are_bound_by_name() {
    let mut frame = sample();
    frame.set_id("Name").unwrap();
    frame.set_addr1("City").unwrap();
    frame.set_addr2("State").unwrap();
    frame.set_city("Address").unwrap();
    frame.set_state("Id").unwrap();
    frame.set_zipcode("Addr2").unwrap();
    assert_eq!(frame.id().unwrap(), &row(&["Ann", "Bob"]));
    assert_eq!(frame.get_address(0), Some(text("Springfield IL 1 Main St 7 Apt 2")));
}

#[test]
fn column_becomes_an_axis() {
    let headers = row(&["addr", "y", "city", "x", "state"]);
    let records = vec![row(&["1 A St", "40.5", "Troy", "-73.5", "NY"])];
    let mut frame = DataFrame::from_path("t.csv", ',', headers, &records, None, None).unwrap();
    frame.add_output_column("x").unwrap();
    frame.add_output_column("state").unwrap();
    frame.add_output_column("addr").unwrap();
    assert_eq!(frame.set_lat("y", vec![1, 2]), Err(ConfigError::WrongLength));
    assert_eq!(frame.set_lat("z", vec![1]), Err(ConfigError::UnknownColumn(text("z"))));
    frame.set_lat("y", vec![40.5f64.to_bits()]).unwrap();
    assert_eq!(frame.get_headers(), &row(&["addr", "city", "x", "state"]));
    assert_eq!(frame.output_headers(), row(&["x", "state", "addr"]));
    assert_eq!(frame.get_address(0), Some(text("1 A St Troy NY")));
    frame.set_lng("x", vec![(-73.5f64).to_bits()]).unwrap();
    assert_eq!(frame.get_headers(), &row(&["addr", "city", "state"]));
    assert_eq!(frame.output_headers(), row(&["state", "addr"]));
    assert_eq!(frame.output_row(0), row(&["NY", "1 A St"]));
    assert_eq!(frame.get_address(0), Some(text("1 A St Troy NY")));
    assert!(frame.ready_to_match());
    assert_eq!(frame.lat().unwrap(), &vec![40.5f64.to_bits()]);
}

#[test]
fn removing_a_row_keeps_text_and_coordinates_in_step() {
    let mut frame = sample();
    frame.remove_row(0);
    assert_eq!(frame.shape(), (7, 1));
    assert_eq!(frame.data()[6], row(&["Bob"]));
    assert_eq!(frame.lng().unwrap(), &vec![(-87.6f64).to_bits()]);
    assert_eq!(frame.lat().unwrap().len(), 1);
}

#[test]
fn empty_table_grows_row_by_row() {
    let mut frame = DataFrame::with_capacity(2, 4);
    assert_eq!(frame.shape(), (2, 0));
    assert!(frame.ready_to_match());
    assert!(!frame.ready_to_fetch());
    frame.set_headers(row(&["a", "b"]));
    frame.push_row(row(&["1", "2"]), 5, 6);
    frame.push_row(row(&["3", "4"]), 7, 8);
    frame.set_cell(1, 0, text("two"));
    frame.set_point(1, 9, 10);
    assert_eq!(frame.data(), &vec![row(&["1", "3"]), row(&["two", "4"])]);
    assert_eq!(frame.lat().unwrap(), &vec![5, 9]);
    assert_eq!(frame.lng().unwrap(), &vec![6, 10]);
    frame.lat_mut().unwrap()[0] = 1;
    frame.lng_mut().unwrap()[0] = 2;
    frame.data_mut()[0][1] = text("three");
    assert_eq!(frame.lat().unwrap(), &vec![1, 9]);
    assert_eq!(frame.lng().unwrap(), &vec![2, 10]);
    assert_eq!(frame.data()[0], row(&["1", "three"]));
    let all = DataFrame::for_output(row(&["a", "b"]), 0);
    assert_eq!(all.output_headers(), row(&["a", "b"]));
}

#[test]
fn longitude_may_come_before_latitude() {
    let headers = row(&["lng", "city", "lat", "addr", "state"]);
    let records = vec![row(&["-73.5", "Troy", "40.5", "1 A St", "NY"])];
    let frame = DataFrame::from_path(
        "t.csv",
        ',',
        headers,
        &records,
        Some(vec![40.5f64.to_bits()]),
        Some(vec![(-73.5f64).to_bits()]),
    )
    .unwrap();
    assert_eq!(frame.get_headers(), &row(&["city", "addr", "state"]));
    assert_eq!(frame.lat().unwrap(), &vec![40.5f64.to_bits()]);
    assert_eq!(frame.lng().unwrap(), &vec![(-73.5f64).to_bits()]);
    assert_eq!(frame.get_address(0), Some(text("1 A St Troy NY")));
    assert_eq!(frame.path(), "t.csv");
    assert_eq!(frame.delimiter(), ',');
    assert_eq!(frame.prefix(), "");
    assert_eq!(frame.role_column(Role::City), Some(0));
    assert_eq!(frame.role_column(Role::Addr1), Some(1));
    assert_eq!(frame.role_column(Role::State), Some(2));
    assert_eq!(frame.role_column(Role::Zipcode), None);
    assert_eq!(frame.role_column(Role::Lat), None);
    assert_eq!(frame.output_cols(), &Vec::<usize>::new());
    assert_eq!(frame.compare_cols(), &Vec::<usize>::new());
}
