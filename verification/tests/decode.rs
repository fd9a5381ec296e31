use rocket_launch_live::api_models::{
    company_response, envelope_from_json, launch_response, location_response, mission_response,
    pad_response, tag_response, vehicle_response, DecodeError,
};
use rocket_launch_live::decode::decode_envelope;
use rocket_launch_live::Json;

#[test]
fn minimal_valid_envelope_decodes_to_zero_records() {
    let resp = decode_envelope("{\"valid_auth\": true, \"result\": []}").unwrap();
    assert!(resp.valid_auth);
    assert!(resp.errors.is_none());
    assert_eq!(resp.result.len(), 0);
    assert_eq!(resp.count, None);
    assert_eq!(resp.limit, None);
    assert_eq!(resp.total, None);
    assert_eq!(resp.last_page, None);
}

#[test]
fn failed_auth_envelope_surfaces_errors_and_empty_result() {
    let resp = decode_envelope(
        "{\"valid_auth\": false, \"errors\": [\"bad key\", \"expired\"]}",
    )
    .unwrap();
    assert!(!resp.valid_auth);
    assert_eq!(
        resp.errors,
        Some(vec!["bad key".to_string(), "expired".to_string()])
    );
    assert_eq!(resp.result.len(), 0);
}

#[test]
fn malformed_json_is_a_decode_error() {
    assert_eq!(decode_envelope("not json at all"), Err(DecodeError));
    assert_eq!(decode_envelope(""), Err(DecodeError));
}

#[test]
fn wrongly_shaped_envelopes_are_decode_errors() {
    // valid_auth missing or not a boolean
    assert_eq!(decode_envelope("{\"result\": []}"), Err(DecodeError));
    assert_eq!(
        decode_envelope("{\"valid_auth\": 1, \"result\": []}"),
        Err(DecodeError)
    );
    // the envelope must be an object
    assert_eq!(decode_envelope("[]"), Err(DecodeError));
    // errors must be a list of strings when present
    assert_eq!(
        decode_envelope("{\"valid_auth\": true, \"errors\": [7]}"),
        Err(DecodeError)
    );
    assert_eq!(
        decode_envelope("{\"valid_auth\": true, \"errors\": \"oops\"}"),
        Err(DecodeError)
    );
    // counters must be integers or null when present
    assert_eq!(
        decode_envelope("{\"valid_auth\": true, \"count\": \"3\"}"),
        Err(DecodeError)
    );
    // result must be a list when present
    assert_eq!(
        decode_envelope("{\"valid_auth\": true, \"result\": {}}"),
        Err(DecodeError)
    );
}

#[test]
fn envelope_counters_and_null_fields_decode() {
    let resp = decode_envelope(
        "{\"errors\": null, \"valid_auth\": true, \"count\": 2, \"limit\": 25, \
         \"total\": 100, \"last_page\": 4, \"result\": [1, 2]}",
    )
    .unwrap();
    assert!(resp.errors.is_none());
    assert_eq!(resp.count, Some(2));
    assert_eq!(resp.limit, Some(25));
    assert_eq!(resp.total, Some(100));
    assert_eq!(resp.last_page, Some(4));
    assert_eq!(resp.result, vec![Json::Int(1), Json::Int(2)]);
}

#[test]
fn company_records_decode_from_result_list() {
    let resp = decode_envelope(
        "{\"valid_auth\": true, \"count\": 1, \"result\": [ \
            {\"id\": 3, \"name\": \"Rocket Lab\", \"inactive\": false, \
             \"country\": {\"name\": \"United States\", \"code\": \"US\"}} ]}",
    )
    .unwrap();
    let companies = company_response(resp);
    assert_eq!(companies.count, Some(1));
    assert_eq!(companies.result.len(), 1);
    let c = &companies.result[0];
    assert_eq!(c.id, Some(3));
    assert_eq!(c.name, "Rocket Lab");
    assert!(!c.inactive);
    assert_eq!(c.country.name, "United States");
    assert_eq!(c.country.code, "US");
}

#[test]
fn missing_record_fields_fall_back_to_not_present_values() {
    let resp = decode_envelope("{\"valid_auth\": true, \"result\": [{}]}").unwrap();
    let companies = company_response(resp);
    let c = &companies.result[0];
    assert_eq!(c.id, None);
    assert_eq!(c.name, "");
    assert!(!c.inactive);
    assert_eq!(c.country.name, "");
    assert_eq!(c.country.code, "");
}

#[test]
fn any_record_type_can_be_extracted_from_any_result() {
    // The caller selects the record type; no cross-check against the resource.
    let body = "{\"valid_auth\": true, \"result\": [{\"id\": 9, \"name\": \"X\"}]}";
    let as_missions = mission_response(decode_envelope(body).unwrap());
    assert_eq!(as_missions.result[0].id, Some(9));
    assert_eq!(as_missions.result[0].name, "X");
    let as_vehicles = vehicle_response(decode_envelope(body).unwrap());
    assert_eq!(as_vehicles.result[0].name, "X");
    assert_eq!(as_vehicles.result[0].slug, "");
    let as_locations = location_response(decode_envelope(body).unwrap());
    assert_eq!(as_locations.result[0].state, None);
    let as_pads = pad_response(decode_envelope(body).unwrap());
    assert_eq!(as_pads.result[0].location.country, "");
    let as_tags = tag_response(decode_envelope(body).unwrap());
    assert_eq!(as_tags.result[0].text, "");
}

#[test]
fn launch_record_decodes_nested_structures() {
    let resp = decode_envelope(
        "{\"valid_auth\": true, \"result\": [{ \
            \"id\": 101, \"cospar_id\": \"2023-042\", \"sort_date\": \"1693526400\", \
            \"name\": \"Crew-9\", \
            \"provider\": {\"id\": 1, \"name\": \"SpaceX\", \"slug\": \"spacex\"}, \
            \"vehicle\": {\"id\": 2, \"name\": \"Falcon 9\", \"company_id\": 1, \"slug\": \"falcon-9\"}, \
            \"pad\": {\"id\": 5, \"name\": \"LC-39A\", \
                      \"location\": {\"id\": 6, \"name\": \"Kennedy Space Center\", \
                                     \"state\": \"FL\", \"statename\": \"Florida\", \
                                     \"country\": \"United States\", \"slug\": \"ksc\"}}, \
            \"missions\": [{\"id\": 7, \"name\": \"ISS rotation\", \"description\": null}], \
            \"mission_description\": null, \
            \"launch_description\": \"A crew rotation flight\", \
            \"win_open\": \"2023-09-01T00:00Z\", \"t0\": null, \"win_close\": null, \
            \"est_date\": {\"month\": 9, \"day\": 1, \"year\": 2023, \"quarter\": null}, \
            \"date_str\": \"Sep 01\", \
            \"tags\": [{\"id\": 8, \"text\": \"crewed\"}], \
            \"slug\": \"crew-9\", \
            \"weather_summary\": null, \"weather_temp\": 21.5, \
            \"weather_condition\": \"clear\", \"weather_wind_mph\": 5, \
            \"weather_icon\": null, \"weather_updated\": null, \
            \"quicktext\": \"Crew-9 - Sep 01\", \
            \"media\": [{\"id\": 12, \"media_url\": null, \"youtube_vidid\": \"abc\", \
                         \"featured\": true, \"ldfeatured\": false, \"approved\": true}], \
            \"result\": -1, \"suborbital\": false, \"modified\": \"2023-08-30\" }]}",
    )
    .unwrap();
    let launches = launch_response(resp);
    assert_eq!(launches.result.len(), 1);
    let l = &launches.result[0];
    assert_eq!(l.id, Some(101));
    assert_eq!(l.cospar_id, Some("2023-042".to_string()));
    assert_eq!(l.name, "Crew-9");
    assert_eq!(l.provider.name, "SpaceX");
    assert_eq!(l.vehicle.slug, "falcon-9");
    assert_eq!(l.pad.location.statename, Some("Florida".to_string()));
    assert_eq!(l.missions.len(), 1);
    assert_eq!(l.missions[0].name, "ISS rotation");
    assert_eq!(l.missions[0].description, None);
    assert_eq!(l.launch_description, "A crew rotation flight");
    assert_eq!(l.win_open, Json::Text("2023-09-01T00:00Z".to_string()));
    assert_eq!(l.t0, None);
    assert_eq!(l.win_close, Json::Null);
    assert_eq!(l.est_date.year, Some(2023));
    assert_eq!(l.est_date.quarter, Json::Null);
    assert_eq!(l.tags[0].text, "crewed");
    // A floating-point number is carried as the opaque not-an-integer value.
    assert_eq!(l.weather_temp, Json::Other);
    assert_eq!(l.weather_condition, Json::Text("clear".to_string()));
    assert_eq!(l.weather_wind_mph, Json::Int(5));
    assert_eq!(l.media[0].youtube_vidid, "abc");
    assert!(l.media[0].featured);
    assert_eq!(l.result, Some(-1));
    assert!(!l.suborbital);
    assert_eq!(l.modified, "2023-08-30");
}

#[test]
fn envelope_extraction_from_a_constructed_tree() {
    let tree = Json::Object(vec![
        ("valid_auth".to_string(), Json::Bool(true)),
        ("count".to_string(), Json::Int(1)),
        ("result".to_string(), Json::Array(vec![Json::Null])),
    ]);
    let resp = envelope_from_json(&tree).unwrap();
    assert!(resp.valid_auth);
    assert_eq!(resp.count, Some(1));
    assert_eq!(resp.result, vec![Json::Null]);

    let bad = Json::Object(vec![("valid_auth".to_string(), Json::Null)]);
    assert_eq!(envelope_from_json(&bad), Err(DecodeError));
}

#[test]
fn json_lookup_finds_first_match() {
    let tree = Json::Object(vec![
        ("a".to_string(), Json::Int(1)),
        ("a".to_string(), Json::Int(2)),
    ]);
    assert_eq!(tree.get("a"), Some(&Json::Int(1)));
    assert_eq!(tree.get("b"), None);
    assert_eq!(Json::Null.get("a"), None);
}

#[test]
fn deep_clone_copies_the_whole_tree() {
    let tree = Json::Object(vec![
        ("k".to_string(), Json::Array(vec![Json::Text("v".to_string()), Json::Bool(false)])),
        ("n".to_string(), Json::Other),
    ]);
    assert_eq!(tree.deep_clone(), tree);
}
