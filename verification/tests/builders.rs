use rocket_launch_live::{
    CompanyParamsBuilder, Date, Direction, LaunchParamsBuilder, LocationParamsBuilder,
    MissionParamsBuilder, PadParamsBuilder, RocketLaunchLive, TagParamsBuilder, Time,
    VehicleParamsBuilder,
};

fn entries(params: &rocket_launch_live::Params) -> Vec<String> {
    let mut out = Vec::new();
    let mut i = 0;
    while i < params.len() {
        out.push(params.get(i).clone());
        i += 1;
    }
    out
}

#[test]
fn empty_builders_render_no_params() {
    assert_eq!(CompanyParamsBuilder::new().build().len(), 0);
    assert_eq!(LaunchParamsBuilder::new().build().len(), 0);
    assert_eq!(LocationParamsBuilder::new().build().len(), 0);
    assert_eq!(MissionParamsBuilder::new().build().len(), 0);
    assert_eq!(PadParamsBuilder::new().build().len(), 0);
    assert_eq!(TagParamsBuilder::new().build().len(), 0);
    assert_eq!(VehicleParamsBuilder::new().build().len(), 0);
}

#[test]
fn single_field_renders_single_entry() {
    let mut b = CompanyParamsBuilder::new();
    b.id(7);
    assert_eq!(entries(&b.build()), vec!["id=7".to_string()]);

    let mut b = CompanyParamsBuilder::new();
    b.inactive(true);
    assert_eq!(entries(&b.build()), vec!["inactive=true".to_string()]);

    let mut b = LaunchParamsBuilder::new();
    b.search("ISS");
    assert_eq!(entries(&b.build()), vec!["search=ISS".to_string()]);

    let mut b = LocationParamsBuilder::new();
    b.state_abbr("FL");
    assert_eq!(entries(&b.build()), vec!["state_abbr=FL".to_string()]);

    let mut b = MissionParamsBuilder::new();
    b.name("Artemis");
    assert_eq!(entries(&b.build()), vec!["name=Artemis".to_string()]);

    let mut b = PadParamsBuilder::new();
    b.country_code("US");
    assert_eq!(entries(&b.build()), vec!["country_code=US".to_string()]);

    let mut b = TagParamsBuilder::new();
    b.text("crewed");
    assert_eq!(entries(&b.build()), vec!["text=crewed".to_string()]);

    let mut b = VehicleParamsBuilder::new();
    b.page(-3);
    assert_eq!(entries(&b.build()), vec!["page=-3".to_string()]);
}

#[test]
fn build_is_idempotent() {
    let mut b = LaunchParamsBuilder::new();
    b.country_code("US");
    b.limit(10);
    let first = b.build();
    let second = b.build();
    assert_eq!(entries(&first), entries(&second));
    assert_eq!(first.query_string(), second.query_string());
}

#[test]
fn setting_a_field_twice_keeps_the_last_value() {
    let mut b = CompanyParamsBuilder::new();
    b.name("Alpha");
    b.name("Beta");
    assert_eq!(entries(&b.build()), vec!["name=Beta".to_string()]);

    let mut b = LaunchParamsBuilder::new();
    b.limit(5);
    b.limit(10);
    assert_eq!(entries(&b.build()), vec!["limit=10".to_string()]);

    let mut b = LaunchParamsBuilder::new();
    b.direction(Direction::Ascending);
    b.direction(Direction::Descending);
    assert_eq!(entries(&b.build()), vec!["direction=desc".to_string()]);
}

#[test]
fn valid_after_date_renders_calendar_date() {
    let mut b = LaunchParamsBuilder::new();
    let r = b.after_date(Date::from_ymd_opt(2023, 9, 1));
    assert!(r.is_ok());
    assert_eq!(entries(&b.build()), vec!["after_date=2023-09-01".to_string()]);
}

#[test]
fn absent_date_is_rejected_without_mutation() {
    let mut b = LaunchParamsBuilder::new();
    b.country_code("US");
    let before = entries(&b.build());

    let r = b.after_date(None);
    assert_eq!(r, Err("Could not parse date."));
    assert_eq!(entries(&b.build()), before);

    let r = b.before_date(Date::from_ymd_opt(2023, 2, 30));
    assert_eq!(r, Err("Could not parse date."));
    assert_eq!(entries(&b.build()), before);

    let r = b.modified_since(Date::from_ymd_opt(2023, 9, 1), Time::from_hms_opt(24, 0, 0));
    assert_eq!(r, Err("Could not parse time."));
    assert_eq!(entries(&b.build()), before);

    let r = b.modified_since(None, Time::from_hms_opt(0, 0, 0));
    assert_eq!(r, Err("Could not parse date."));
    assert_eq!(entries(&b.build()), before);
}

#[test]
fn calendar_date_validation() {
    assert!(Date::from_ymd_opt(2023, 9, 1).is_some());
    assert!(Date::from_ymd_opt(2024, 2, 29).is_some());
    assert!(Date::from_ymd_opt(2023, 2, 29).is_none());
    assert!(Date::from_ymd_opt(1900, 2, 29).is_none());
    assert!(Date::from_ymd_opt(2000, 2, 29).is_some());
    assert!(Date::from_ymd_opt(2023, 4, 31).is_none());
    assert!(Date::from_ymd_opt(2023, 13, 1).is_none());
    assert!(Date::from_ymd_opt(2023, 0, 1).is_none());
    assert!(Date::from_ymd_opt(2023, 1, 0).is_none());
    assert!(Date::from_ymd_opt(-1, 1, 1).is_none());
    assert!(Date::from_ymd_opt(10000, 1, 1).is_none());
    assert!(Time::from_hms_opt(23, 59, 59).is_some());
    assert!(Time::from_hms_opt(24, 0, 0).is_none());
    assert!(Time::from_hms_opt(0, 60, 0).is_none());
    assert!(Time::from_hms_opt(0, 0, 60).is_none());
}

#[test]
fn direction_renders_asc_and_desc() {
    let mut b = LaunchParamsBuilder::new();
    b.direction(Direction::Descending);
    assert_eq!(entries(&b.build()), vec!["direction=desc".to_string()]);

    let mut b = LaunchParamsBuilder::new();
    b.direction(Direction::Ascending);
    assert_eq!(entries(&b.build()), vec!["direction=asc".to_string()]);
}

#[test]
fn modified_since_renders_date_time_literal() {
    let mut b = LaunchParamsBuilder::new();
    let r = b.modified_since(Date::from_ymd_opt(2023, 9, 1), Time::from_hms_opt(0, 0, 0));
    assert!(r.is_ok());
    assert_eq!(
        entries(&b.build()),
        vec!["modified_since=2023-09-01T00:00:00Z".to_string()]
    );
}

#[test]
fn launch_scenario_produces_fixed_query_string() {
    let mut b = LaunchParamsBuilder::new();
    b.country_code("US");
    b.after_date(Date::from_ymd_opt(2023, 9, 1)).unwrap();
    b.search("ISS");
    b.direction(Direction::Descending);
    b.limit(10);
    let params = b.build();
    assert_eq!(
        params.query_string(),
        "country_code=US&after_date=2023-09-01&search=ISS&limit=10&direction=desc"
    );

    let client = RocketLaunchLive::new("KEY");
    let url = client.request_url("launches", Some(params));
    assert_eq!(
        url,
        "https://fdo.rocketlaunch.live/json/launches?country_code=US&after_date=2023-09-01&search=ISS&limit=10&direction=desc"
    );
}

#[test]
fn integer_rendering_covers_extremes() {
    let mut b = LaunchParamsBuilder::new();
    b.id(i64::MIN);
    b.limit(i64::MAX);
    b.page(0);
    assert_eq!(
        entries(&b.build()),
        vec![
            "id=-9223372036854775808".to_string(),
            "limit=9223372036854775807".to_string(),
            "page=0".to_string(),
        ]
    );
}

#[test]
fn date_rendering_pads_small_components() {
    let mut b = LaunchParamsBuilder::new();
    b.after_date(Date::from_ymd_opt(1, 1, 2)).unwrap();
    assert_eq!(entries(&b.build()), vec!["after_date=0001-01-02".to_string()]);
}

#[test]
fn client_without_params_requests_bare_endpoint() {
    let client = RocketLaunchLive::new("secret");
    assert_eq!(
        client.request_url("companies", None),
        "https://fdo.rocketlaunch.live/json/companies?"
    );
    assert_eq!(client.auth_header_value(), "Bearer secret");
}

#[test]
fn company_builder_renders_fields_in_fixed_order() {
    let mut b = CompanyParamsBuilder::new();
    b.page(2);
    b.slug("spacex");
    b.inactive(false);
    b.country_code("US");
    b.name("SpaceX");
    b.id(1);
    let params = b.build();
    assert_eq!(
        params.query_string(),
        "id=1&name=SpaceX&country_code=US&slug=spacex&inactive=false&page=2"
    );
}

#[test]
fn launch_builder_renders_all_fields_in_fixed_order() {
    let mut b = LaunchParamsBuilder::new();
    b.id(11);
    b.cospar_id("2023-001");
    b.state_abbr("FL");
    b.country_code("US");
    b.after_date(Date::from_ymd_opt(2023, 1, 1)).unwrap();
    b.before_date(Date::from_ymd_opt(2023, 12, 31)).unwrap();
    b.location_id(1);
    b.pad_id(2);
    b.provider_id(3);
    b.tag_id(4);
    b.vehicle_id(5);
    b.search("starlink");
    b.slug("falcon-9");
    b.limit(25);
    b.page(2);
    b.modified_since(Date::from_ymd_opt(2023, 6, 1), Time::from_hms_opt(12, 30, 5))
        .unwrap();
    b.direction(Direction::Ascending);
    assert_eq!(
        b.build().query_string(),
        "id=11&cospar_id=2023-001&state_abbr=FL&country_code=US&after_date=2023-01-01&\
         before_date=2023-12-31&location_id=1&pad_id=2&provider_id=3&tag_id=4&vehicle_id=5&\
         search=starlink&slug=falcon-9&limit=25&page=2&modified_since=2023-06-01T12:30:05Z&\
         direction=asc"
    );
}
