//! API model type definitions: the response envelope and the record schemas.
//!
//! The envelope wraps every reply: an optional error-message list, the
//! authentication-validity flag, optional pagination counters, and the result
//! list. A reply whose fields have the wrong shape is rejected as a whole;
//! a field that is merely absent (or `null` where the schema allows it)
//! decodes to its not-present representation. Record extraction, by contrast,
//! is total: every record field falls back to its not-present value, so a
//! caller may extract any record type from any result list.

use vstd::prelude::*;

verus! {

broadcast use vstd::seq::group_seq_axioms;

use crate::json::{Json, JsonView, json_view, sj_field, sj_int, sj_str, sj_opt_str, sj_bool,
    sj_arr, sj_json, lemma_view_variant, field_int, field_str, field_opt_str, field_bool,
    field_json, field_arr};

/// The decoded response envelope, generic over the record type of `result`.
#[derive(Debug, Clone, PartialEq)]
pub struct Response<T> {
    pub errors: Option<Vec<String>>,
    pub valid_auth: bool,
    pub count: Option<i64>,
    pub limit: Option<i64>,
    pub total: Option<i64>,
    pub last_page: Option<i64>,
    pub result: Vec<T>,
}

/// A reply that could not be decoded: malformed JSON or an envelope whose
/// fields have the wrong shape. Transport and decode failures are not
/// distinguished further.
#[derive(Debug, Clone, Copy, PartialEq, Eq, Structural)]
pub struct DecodeError;

/// The `errors` field may be absent, `null`, or a list of strings.
pub open spec fn errors_field_ok(v: Option<JsonView>) -> bool {
    match v {
        None => true,
        Some(JsonView::Null) => true,
        Some(JsonView::Array(a)) => forall|i: int| 0 <= i < a.len() ==> a[i] is Text,
        Some(_) => false,
    }
}

/// A pagination counter may be absent, `null`, or an integer.
pub open spec fn counter_field_ok(v: Option<JsonView>) -> bool {
    match v {
        None => true,
        Some(JsonView::Null) => true,
        Some(JsonView::Int(_)) => true,
        Some(_) => false,
    }
}

/// The `result` field may be absent or a list.
pub open spec fn result_field_ok(v: Option<JsonView>) -> bool {
    match v {
        None => true,
        Some(JsonView::Array(_)) => true,
        Some(_) => false,
    }
}

/// A well-formed envelope: an object whose `valid_auth` is a boolean and
/// whose remaining fields, where present, have the shapes of the schema.
pub open spec fn envelope_ok(j: JsonView) -> bool {
    &&& j is Object
    &&& sj_field(j, "valid_auth"@) matches Some(v) && v is Bool
    &&& errors_field_ok(sj_field(j, "errors"@))
    &&& counter_field_ok(sj_field(j, "count"@))
    &&& counter_field_ok(sj_field(j, "limit"@))
    &&& counter_field_ok(sj_field(j, "total"@))
    &&& counter_field_ok(sj_field(j, "last_page"@))
    &&& result_field_ok(sj_field(j, "result"@))
}

/// The decoded error list of a well-formed envelope: `None` when absent or
/// `null`, otherwise the strings of the list.
pub open spec fn spec_errors(j: JsonView) -> Option<Seq<Seq<char>>> {
    match sj_field(j, "errors"@) {
        Some(JsonView::Array(a)) => Some(
            Seq::new(
                a.len(),
                |i: int|
                    if 0 <= i < a.len() && a[i] is Text {
                        a[i]->Text_0
                    } else {
                        Seq::empty()
                    },
            ),
        ),
        _ => None,
    }
}

/// The envelope `r` is the decoding of the document `j`: each field of the
/// envelope equals the corresponding field of the document, with the result
/// list carried over verbatim (empty when absent).
pub open spec fn response_matches(r: Response<Json>, j: JsonView) -> bool {
    &&& r.errors.deep_view() == spec_errors(j)
    &&& r.valid_auth == sj_bool(j, "valid_auth"@)
    &&& r.count == sj_int(j, "count"@)
    &&& r.limit == sj_int(j, "limit"@)
    &&& r.total == sj_int(j, "total"@)
    &&& r.last_page == sj_int(j, "last_page"@)
    &&& r.result.deep_view() == sj_arr(j, "result"@)
}

/// Extract the envelope from a decoded document. Succeeds exactly on a
/// well-formed envelope, and then every envelope field equals the
/// corresponding document field.
#[verifier::loop_isolation(false)]
pub fn envelope_from_json(j: &Json) -> (r: Result<Response<Json>, DecodeError>)
    ensures
        r is Ok <==> envelope_ok(j@),
        r matches Ok(resp) ==> response_matches(resp, j@),
{
    proof {
        lemma_view_variant(*j);
    }
    if !matches!(j, Json::Object(_)) {
        return Err(DecodeError);
    }
    let valid_auth: bool = match j.get("valid_auth") {
        Some(v) => {
            proof {
                lemma_view_variant(*v);
            }
            match v {
                Json::Bool(b) => *b,
                _ => {
                    return Err(DecodeError);
                },
            }
        },
        None => {
            return Err(DecodeError);
        },
    };
    let errors: Option<Vec<String>> = match j.get("errors") {
        Some(v) => {
            proof {
                lemma_view_variant(*v);
            }
            match v {
                Json::Null => None,
                Json::Array(a) => {
                    let mut out: Vec<String> = Vec::new();
                    let n = a.len();
                    let mut i: usize = 0;
                    while i < n
                        invariant
                            i <= n,
                            out@.len() == i,
                            forall|k: int| 0 <= k < i ==> (#[trigger] json_view(a@[k])) is Text,
                            forall|k: int|
                                0 <= k < i ==> out@[k]@ == (#[trigger] json_view(a@[k]))->Text_0,
                        decreases n - i,
                    {
                        proof {
                            lemma_view_variant(a@[i as int]);
                            assert(json_view(*v)->Array_0[i as int] == json_view(a@[i as int]));
                        }
                        let item = &a[i];
                        match text_of(item) {
                            Ok(e) => {
                                out.push(e);
                            },
                            Err(err) => {
                                return Err(err);
                            },
                        }
                        i += 1;
                    }
                    proof {
                        assert(forall|k: int|
                            0 <= k < n ==> json_view(*v)->Array_0[k] == json_view(a@[k]));
                        assert(spec_errors(j@) matches Some(s) && out.deep_view() =~= s);
                    }
                    Some(out)
                },
                _ => {
                    return Err(DecodeError);
                },
            }
        },
        None => None,
    };
    let count: Option<i64> = match counter_field(j, "count") {
        Ok(c) => c,
        Err(e) => {
            return Err(e);
        },
    };
    let limit: Option<i64> = match counter_field(j, "limit") {
        Ok(c) => c,
        Err(e) => {
            return Err(e);
        },
    };
    let total: Option<i64> = match counter_field(j, "total") {
        Ok(c) => c,
        Err(e) => {
            return Err(e);
        },
    };
    let last_page: Option<i64> = match counter_field(j, "last_page") {
        Ok(c) => c,
        Err(e) => {
            return Err(e);
        },
    };
    let result: Vec<Json> = match j.get("result") {
        Some(v) => match v {
            Json::Array(a) => {
                let r = crate::json::clone_json_vec(a);
                proof {
                    assert(json_view(*v)->Array_0 =~= a.deep_view());
                }
                r
            },
            _ => {
                proof {
                    lemma_view_variant(*v);
                }
                return Err(DecodeError);
            },
        },
        None => {
            let r: Vec<Json> = Vec::new();
            proof {
                assert(r.deep_view() =~= Seq::<JsonView>::empty());
            }
            r
        },
    };
    Ok(Response { errors, valid_auth, count, limit, total, last_page, result })
}

/// Read one pagination counter: absent or `null` is `None`, an integer is
/// itself, anything else is a decode failure.
fn counter_field(j: &Json, key: &str) -> (r: Result<Option<i64>, DecodeError>)
    ensures
        r is Ok <==> counter_field_ok(sj_field(j@, key@)),
        r matches Ok(c) ==> c == sj_int(j@, key@),
{
    match j.get(key) {
        Some(v) => match v {
            Json::Null => {
                proof {
                    lemma_view_variant(*v);
                }
                Ok(None)
            },
            Json::Int(i) => Ok(Some(*i)),
            _ => {
                proof {
                    lemma_view_variant(*v);
                }
                Err(DecodeError)
            },
        },
        None => Ok(None),
    }
}


/// The text of a tree that is text, or a decode failure.
fn text_of(v: &Json) -> (r: Result<String, DecodeError>)
    ensures
        r is Ok <==> v@ is Text,
        r matches Ok(s) ==> s@ == v@->Text_0,
{
    proof {
        lemma_view_variant(*v);
    }
    match v {
        Json::Text(s) => Ok(s.clone()),
        _ => Err(DecodeError),
    }
}


/// One country record, as decoded from a result list.
#[derive(Debug, Clone, PartialEq)]
pub struct Country {
    pub name: String,
    pub code: String,
}

/// The record `r` is the extraction of the document `j`: each field holds
/// the value under its own name, or its not-present value.
pub open spec fn country_matches(r: Country, j: JsonView) -> bool {
    &&& r.name@ == sj_str(j, "name"@)
    &&& r.code@ == sj_str(j, "code"@)
}

/// Each record of `rs` is the extraction of the corresponding document.
pub open spec fn country_seq_matches(rs: Seq<Country>, arr: Seq<JsonView>) -> bool {
    rs.len() == arr.len() && (forall|i: int|
        0 <= i < rs.len() ==> #[trigger] country_matches(rs[i], arr[i]))
}

/// Extract one country record. Extraction is total: a field that is
/// absent or has an unexpected shape falls back to its not-present value.
#[verifier::loop_isolation(false)]
pub fn country_from_json(j: &Json) -> (r: Country)
    ensures
        country_matches(r, j@),
{
    Country {
        name: field_str(j, "name"),
        code: field_str(j, "code"),
    }
}

/// One provider record, as decoded from a result list.
#[derive(Debug, Clone, PartialEq)]
pub struct Provider {
    pub id: Option<i64>,
    pub name: String,
    pub slug: Option<String>,
}

/// The record `r` is the extraction of the document `j`: each field holds
/// the value under its own name, or its not-present value.
pub open spec fn provider_matches(r: Provider, j: JsonView) -> bool {
    &&& r.id == sj_int(j, "id"@)
    &&& r.name@ == sj_str(j, "name"@)
    &&& r.slug.deep_view() == sj_opt_str(j, "slug"@)
}

/// Each record of `rs` is the extraction of the corresponding document.
pub open spec fn provider_seq_matches(rs: Seq<Provider>, arr: Seq<JsonView>) -> bool {
    rs.len() == arr.len() && (forall|i: int|
        0 <= i < rs.len() ==> #[trigger] provider_matches(rs[i], arr[i]))
}

/// Extract one provider record. Extraction is total: a field that is
/// absent or has an unexpected shape falls back to its not-present value.
#[verifier::loop_isolation(false)]
pub fn provider_from_json(j: &Json) -> (r: Provider)
    ensures
        provider_matches(r, j@),
{
    Provider {
        id: field_int(j, "id"),
        name: field_str(j, "name"),
        slug: field_opt_str(j, "slug"),
    }
}

/// One vehicle record, as decoded from a result list.
#[derive(Debug, Clone, PartialEq)]
pub struct Vehicle {
    pub id: Option<i64>,
    pub name: String,
    pub company_id: Option<i64>,
    pub slug: String,
}

/// The record `r` is the extraction of the document `j`: each field holds
/// the value under its own name, or its not-present value.
pub open spec fn vehicle_matches(r: Vehicle, j: JsonView) -> bool {
    &&& r.id == sj_int(j, "id"@)
    &&& r.name@ == sj_str(j, "name"@)
    &&& r.company_id == sj_int(j, "company_id"@)
    &&& r.slug@ == sj_str(j, "slug"@)
}

/// Each record of `rs` is the extraction of the corresponding document.
pub open spec fn vehicle_seq_matches(rs: Seq<Vehicle>, arr: Seq<JsonView>) -> bool {
    rs.len() == arr.len() && (forall|i: int|
        0 <= i < rs.len() ==> #[trigger] vehicle_matches(rs[i], arr[i]))
}

/// Extract one vehicle record. Extraction is total: a field that is
/// absent or has an unexpected shape falls back to its not-present value.
#[verifier::loop_isolation(false)]
pub fn vehicle_from_json(j: &Json) -> (r: Vehicle)
    ensures
        vehicle_matches(r, j@),
{
    Vehicle {
        id: field_int(j, "id"),
        name: field_str(j, "name"),
        company_id: field_int(j, "company_id"),
        slug: field_str(j, "slug"),
    }
}

/// One location record, as decoded from a result list.
#[derive(Debug, Clone, PartialEq)]
pub struct Location {
    pub id: Option<i64>,
    pub name: String,
    pub state: Option<String>,
    pub statename: Option<String>,
    pub country: String,
    pub slug: String,
}

/// The record `r` is the extraction of the document `j`: each field holds
/// the value under its own name, or its not-present value.
pub open spec fn location_matches(r: Location, j: JsonView) -> bool {
    &&& r.id == sj_int(j, "id"@)
    &&& r.name@ == sj_str(j, "name"@)
    &&& r.state.deep_view() == sj_opt_str(j, "state"@)
    &&& r.statename.deep_view() == sj_opt_str(j, "statename"@)
    &&& r.country@ == sj_str(j, "country"@)
    &&& r.slug@ == sj_str(j, "slug"@)
}

/// Each record of `rs` is the extraction of the corresponding document.
pub open spec fn location_seq_matches(rs: Seq<Location>, arr: Seq<JsonView>) -> bool {
    rs.len() == arr.len() && (forall|i: int|
        0 <= i < rs.len() ==> #[trigger] location_matches(rs[i], arr[i]))
}

/// Extract one location record. Extraction is total: a field that is
/// absent or has an unexpected shape falls back to its not-present value.
#[verifier::loop_isolation(false)]
pub fn location_from_json(j: &Json) -> (r: Location)
    ensures
        location_matches(r, j@),
{
    Location {
        id: field_int(j, "id"),
        name: field_str(j, "name"),
        state: field_opt_str(j, "state"),
        statename: field_opt_str(j, "statename"),
        country: field_str(j, "country"),
        slug: field_str(j, "slug"),
    }
}

/// One pad record, as decoded from a result list.
#[derive(Debug, Clone, PartialEq)]
pub struct Pad {
    pub id: Option<i64>,
    pub name: String,
    pub location: Location,
}

/// The record `r` is the extraction of the document `j`: each field holds
/// the value under its own name, or its not-present value.
pub open spec fn pad_matches(r: Pad, j: JsonView) -> bool {
    &&& r.id == sj_int(j, "id"@)
    &&& r.name@ == sj_str(j, "name"@)
    &&& location_matches(r.location, sj_json(j, "location"@))
}

/// Each record of `rs` is the extraction of the corresponding document.
pub open spec fn pad_seq_matches(rs: Seq<Pad>, arr: Seq<JsonView>) -> bool {
    rs.len() == arr.len() && (forall|i: int|
        0 <= i < rs.len() ==> #[trigger] pad_matches(rs[i], arr[i]))
}

/// Extract one pad record. Extraction is total: a field that is
/// absent or has an unexpected shape falls back to its not-present value.
#[verifier::loop_isolation(false)]
pub fn pad_from_json(j: &Json) -> (r: Pad)
    ensures
        pad_matches(r, j@),
{
    let sub_location = field_json(j, "location");
    let v_location = location_from_json(&sub_location);
    Pad {
        id: field_int(j, "id"),
        name: field_str(j, "name"),
        location: v_location,
    }
}

/// One mission record, as decoded from a result list.
#[derive(Debug, Clone, PartialEq)]
pub struct Mission {
    pub id: Option<i64>,
    pub name: String,
    pub description: Option<String>,
}

/// The record `r` is the extraction of the document `j`: each field holds
/// the value under its own name, or its not-present value.
pub open spec fn mission_matches(r: Mission, j: JsonView) -> bool {
    &&& r.id == sj_int(j, "id"@)
    &&& r.name@ == sj_str(j, "name"@)
    &&& r.description.deep_view() == sj_opt_str(j, "description"@)
}

/// Each record of `rs` is the extraction of the corresponding document.
pub open spec fn mission_seq_matches(rs: Seq<Mission>, arr: Seq<JsonView>) -> bool {
    rs.len() == arr.len() && (forall|i: int|
        0 <= i < rs.len() ==> #[trigger] mission_matches(rs[i], arr[i]))
}

/// Extract one mission record. Extraction is total: a field that is
/// absent or has an unexpected shape falls back to its not-present value.
#[verifier::loop_isolation(false)]
pub fn mission_from_json(j: &Json) -> (r: Mission)
    ensures
        mission_matches(r, j@),
{
    Mission {
        id: field_int(j, "id"),
        name: field_str(j, "name"),
        description: field_opt_str(j, "description"),
    }
}

/// One est date record, as decoded from a result list.
#[derive(Debug, PartialEq)]
pub struct EstDate {
    pub month: Option<i64>,
    pub day: Option<i64>,
    pub year: Option<i64>,
    pub quarter: Json,
}

/// The record `r` is the extraction of the document `j`: each field holds
/// the value under its own name, or its not-present value.
pub open spec fn est_date_matches(r: EstDate, j: JsonView) -> bool {
    &&& r.month == sj_int(j, "month"@)
    &&& r.day == sj_int(j, "day"@)
    &&& r.year == sj_int(j, "year"@)
    &&& r.quarter@ == sj_json(j, "quarter"@)
}

/// Each record of `rs` is the extraction of the corresponding document.
pub open spec fn est_date_seq_matches(rs: Seq<EstDate>, arr: Seq<JsonView>) -> bool {
    rs.len() == arr.len() && (forall|i: int|
        0 <= i < rs.len() ==> #[trigger] est_date_matches(rs[i], arr[i]))
}

/// Extract one est date record. Extraction is total: a field that is
/// absent or has an unexpected shape falls back to its not-present value.
#[verifier::loop_isolation(false)]
pub fn est_date_from_json(j: &Json) -> (r: EstDate)
    ensures
        est_date_matches(r, j@),
{
    EstDate {
        month: field_int(j, "month"),
        day: field_int(j, "day"),
        year: field_int(j, "year"),
        quarter: field_json(j, "quarter"),
    }
}

/// One tag record, as decoded from a result list.
#[derive(Debug, Clone, PartialEq)]
pub struct Tag {
    pub id: Option<i64>,
    pub text: String,
}

/// The record `r` is the extraction of the document `j`: each field holds
/// the value under its own name, or its not-present value.
pub open spec fn tag_matches(r: Tag, j: JsonView) -> bool {
    &&& r.id == sj_int(j, "id"@)
    &&& r.text@ == sj_str(j, "text"@)
}

/// Each record of `rs` is the extraction of the corresponding document.
pub open spec fn tag_seq_matches(rs: Seq<Tag>, arr: Seq<JsonView>) -> bool {
    rs.len() == arr.len() && (forall|i: int|
        0 <= i < rs.len() ==> #[trigger] tag_matches(rs[i], arr[i]))
}

/// Extract one tag record. Extraction is total: a field that is
/// absent or has an unexpected shape falls back to its not-present value.
#[verifier::loop_isolation(false)]
pub fn tag_from_json(j: &Json) -> (r: Tag)
    ensures
        tag_matches(r, j@),
{
    Tag {
        id: field_int(j, "id"),
        text: field_str(j, "text"),
    }
}

/// One medum record, as decoded from a result list.
#[derive(Debug, Clone, PartialEq)]
pub struct Medum {
    pub id: Option<i64>,
    pub media_url: Option<String>,
    pub youtube_vidid: String,
    pub featured: bool,
    pub ldfeatured: bool,
    pub approved: bool,
}

/// The record `r` is the extraction of the document `j`: each field holds
/// the value under its own name, or its not-present value.
pub open spec fn medum_matches(r: Medum, j: JsonView) -> bool {
    &&& r.id == sj_int(j, "id"@)
    &&& r.media_url.deep_view() == sj_opt_str(j, "media_url"@)
    &&& r.youtube_vidid@ == sj_str(j, "youtube_vidid"@)
    &&& r.featured == sj_bool(j, "featured"@)
    &&& r.ldfeatured == sj_bool(j, "ldfeatured"@)
    &&& r.approved == sj_bool(j, "approved"@)
}

/// Each record of `rs` is the extraction of the corresponding document.
pub open spec fn medum_seq_matches(rs: Seq<Medum>, arr: Seq<JsonView>) -> bool {
    rs.len() == arr.len() && (forall|i: int|
        0 <= i < rs.len() ==> #[trigger] medum_matches(rs[i], arr[i]))
}

/// Extract one medum record. Extraction is total: a field that is
/// absent or has an unexpected shape falls back to its not-present value.
#[verifier::loop_isolation(false)]
pub fn medum_from_json(j: &Json) -> (r: Medum)
    ensures
        medum_matches(r, j@),
{
    Medum {
        id: field_int(j, "id"),
        media_url: field_opt_str(j, "media_url"),
        youtube_vidid: field_str(j, "youtube_vidid"),
        featured: field_bool(j, "featured"),
        ldfeatured: field_bool(j, "ldfeatured"),
        approved: field_bool(j, "approved"),
    }
}

/// One company record, as decoded from a result list.
#[derive(Debug, Clone, PartialEq)]
pub struct Company {
    pub id: Option<i64>,
    pub name: String,
    pub inactive: bool,
    pub country: Country,
}

/// The record `r` is the extraction of the document `j`: each field holds
/// the value under its own name, or its not-present value.
pub open spec fn company_matches(r: Company, j: JsonView) -> bool {
    &&& r.id == sj_int(j, "id"@)
    &&& r.name@ == sj_str(j, "name"@)
    &&& r.inactive == sj_bool(j, "inactive"@)
    &&& country_matches(r.country, sj_json(j, "country"@))
}

/// Each record of `rs` is the extraction of the corresponding document.
pub open spec fn company_seq_matches(rs: Seq<Company>, arr: Seq<JsonView>) -> bool {
    rs.len() == arr.len() && (forall|i: int|
        0 <= i < rs.len() ==> #[trigger] company_matches(rs[i], arr[i]))
}

/// Extract one company record. Extraction is total: a field that is
/// absent or has an unexpected shape falls back to its not-present value.
#[verifier::loop_isolation(false)]
pub fn company_from_json(j: &Json) -> (r: Company)
    ensures
        company_matches(r, j@),
{
    let sub_country = field_json(j, "country");
    let v_country = country_from_json(&sub_country);
    Company {
        id: field_int(j, "id"),
        name: field_str(j, "name"),
        inactive: field_bool(j, "inactive"),
        country: v_country,
    }
}

/// One launch record, as decoded from a result list.
#[derive(Debug, PartialEq)]
pub struct Launch {
    pub id: Option<i64>,
    pub cospar_id: Option<String>,
    pub sort_date: String,
    pub name: String,
    pub provider: Provider,
    pub vehicle: Vehicle,
    pub pad: Pad,
    pub missions: Vec<Mission>,
    pub mission_description: Option<String>,
    pub launch_description: String,
    pub win_open: Json,
    pub t0: Option<String>,
    pub win_close: Json,
    pub est_date: EstDate,
    pub date_str: String,
    pub tags: Vec<Tag>,
    pub slug: String,
    pub weather_summary: Json,
    pub weather_temp: Json,
    pub weather_condition: Json,
    pub weather_wind_mph: Json,
    pub weather_icon: Json,
    pub weather_updated: Json,
    pub quicktext: String,
    pub media: Vec<Medum>,
    pub result: Option<i64>,
    pub suborbital: bool,
    pub modified: String,
}

/// The record `r` is the extraction of the document `j`: each field holds
/// the value under its own name, or its not-present value.
pub open spec fn launch_matches(r: Launch, j: JsonView) -> bool {
    &&& r.id == sj_int(j, "id"@)
    &&& r.cospar_id.deep_view() == sj_opt_str(j, "cospar_id"@)
    &&& r.sort_date@ == sj_str(j, "sort_date"@)
    &&& r.name@ == sj_str(j, "name"@)
    &&& provider_matches(r.provider, sj_json(j, "provider"@))
    &&& vehicle_matches(r.vehicle, sj_json(j, "vehicle"@))
    &&& pad_matches(r.pad, sj_json(j, "pad"@))
    &&& mission_seq_matches(r.missions@, sj_arr(j, "missions"@))
    &&& r.mission_description.deep_view() == sj_opt_str(j, "mission_description"@)
    &&& r.launch_description@ == sj_str(j, "launch_description"@)
    &&& r.win_open@ == sj_json(j, "win_open"@)
    &&& r.t0.deep_view() == sj_opt_str(j, "t0"@)
    &&& r.win_close@ == sj_json(j, "win_close"@)
    &&& est_date_matches(r.est_date, sj_json(j, "est_date"@))
    &&& r.date_str@ == sj_str(j, "date_str"@)
    &&& tag_seq_matches(r.tags@, sj_arr(j, "tags"@))
    &&& r.slug@ == sj_str(j, "slug"@)
    &&& r.weather_summary@ == sj_json(j, "weather_summary"@)
    &&& r.weather_temp@ == sj_json(j, "weather_temp"@)
    &&& r.weather_condition@ == sj_json(j, "weather_condition"@)
    &&& r.weather_wind_mph@ == sj_json(j, "weather_wind_mph"@)
    &&& r.weather_icon@ == sj_json(j, "weather_icon"@)
    &&& r.weather_updated@ == sj_json(j, "weather_updated"@)
    &&& r.quicktext@ == sj_str(j, "quicktext"@)
    &&& medum_seq_matches(r.media@, sj_arr(j, "media"@))
    &&& r.result == sj_int(j, "result"@)
    &&& r.suborbital == sj_bool(j, "suborbital"@)
    &&& r.modified@ == sj_str(j, "modified"@)
}

/// Each record of `rs` is the extraction of the corresponding document.
pub open spec fn launch_seq_matches(rs: Seq<Launch>, arr: Seq<JsonView>) -> bool {
    rs.len() == arr.len() && (forall|i: int|
        0 <= i < rs.len() ==> #[trigger] launch_matches(rs[i], arr[i]))
}

/// Extract one launch record. Extraction is total: a field that is
/// absent or has an unexpected shape falls back to its not-present value.
#[verifier::loop_isolation(false)]
pub fn launch_from_json(j: &Json) -> (r: Launch)
    ensures
        launch_matches(r, j@),
{
    let sub_provider = field_json(j, "provider");
    let v_provider = provider_from_json(&sub_provider);
    let sub_vehicle = field_json(j, "vehicle");
    let v_vehicle = vehicle_from_json(&sub_vehicle);
    let sub_pad = field_json(j, "pad");
    let v_pad = pad_from_json(&sub_pad);
    let arr_missions = field_arr(j, "missions");
    let mut v_missions: Vec<Mission> = Vec::new();
    let n_missions = arr_missions.len();
    let mut i_missions: usize = 0;
    while i_missions < n_missions
        invariant
            i_missions <= n_missions,
            v_missions@.len() == i_missions,
            arr_missions.deep_view() == sj_arr(j@, "missions"@),
            forall|k: int|
                0 <= k < i_missions ==> #[trigger] mission_matches(
                    v_missions@[k],
                    arr_missions.deep_view()[k],
                ),
        decreases n_missions - i_missions,
    {
        let e = mission_from_json(&arr_missions[i_missions]);
        proof {
            assert(arr_missions.deep_view()[i_missions as int] == json_view(arr_missions@[i_missions as int]));
        }
        v_missions.push(e);
        i_missions += 1;
    }
    let sub_est_date = field_json(j, "est_date");
    let v_est_date = est_date_from_json(&sub_est_date);
    let arr_tags = field_arr(j, "tags");
    let mut v_tags: Vec<Tag> = Vec::new();
    let n_tags = arr_tags.len();
    let mut i_tags: usize = 0;
    while i_tags < n_tags
        invariant
            i_tags <= n_tags,
            v_tags@.len() == i_tags,
            arr_tags.deep_view() == sj_arr(j@, "tags"@),
            forall|k: int|
                0 <= k < i_tags ==> #[trigger] tag_matches(
                    v_tags@[k],
                    arr_tags.deep_view()[k],
                ),
        decreases n_tags - i_tags,
    {
        let e = tag_from_json(&arr_tags[i_tags]);
        proof {
            assert(arr_tags.deep_view()[i_tags as int] == json_view(arr_tags@[i_tags as int]));
        }
        v_tags.push(e);
        i_tags += 1;
    }
    let arr_media = field_arr(j, "media");
    let mut v_media: Vec<Medum> = Vec::new();
    let n_media = arr_media.len();
    let mut i_media: usize = 0;
    while i_media < n_media
        invariant
            i_media <= n_media,
            v_media@.len() == i_media,
            arr_media.deep_view() == sj_arr(j@, "media"@),
            forall|k: int|
                0 <= k < i_media ==> #[trigger] medum_matches(
                    v_media@[k],
                    arr_media.deep_view()[k],
                ),
        decreases n_media - i_media,
    {
        let e = medum_from_json(&arr_media[i_media]);
        proof {
            assert(arr_media.deep_view()[i_media as int] == json_view(arr_media@[i_media as int]));
        }
        v_media.push(e);
        i_media += 1;
    }
    Launch {
        id: field_int(j, "id"),
        cospar_id: field_opt_str(j, "cospar_id"),
        sort_date: field_str(j, "sort_date"),
        name: field_str(j, "name"),
        provider: v_provider,
        vehicle: v_vehicle,
        pad: v_pad,
        missions: v_missions,
        mission_description: field_opt_str(j, "mission_description"),
        launch_description: field_str(j, "launch_description"),
        win_open: field_json(j, "win_open"),
        t0: field_opt_str(j, "t0"),
        win_close: field_json(j, "win_close"),
        est_date: v_est_date,
        date_str: field_str(j, "date_str"),
        tags: v_tags,
        slug: field_str(j, "slug"),
        weather_summary: field_json(j, "weather_summary"),
        weather_temp: field_json(j, "weather_temp"),
        weather_condition: field_json(j, "weather_condition"),
        weather_wind_mph: field_json(j, "weather_wind_mph"),
        weather_icon: field_json(j, "weather_icon"),
        weather_updated: field_json(j, "weather_updated"),
        quicktext: field_str(j, "quicktext"),
        media: v_media,
        result: field_int(j, "result"),
        suborbital: field_bool(j, "suborbital"),
        modified: field_str(j, "modified"),
    }
}

/// Extract company records from a decoded envelope, keeping its
/// metadata. The caller selects the record type; no cross-check against the
/// resource is made.
#[verifier::loop_isolation(false)]
pub fn company_response(resp: Response<Json>) -> (out: Response<Company>)
    ensures
        out.errors == resp.errors,
        out.valid_auth == resp.valid_auth,
        out.count == resp.count,
        out.limit == resp.limit,
        out.total == resp.total,
        out.last_page == resp.last_page,
        company_seq_matches(out.result@, resp.result.deep_view()),
{
    let Response { errors, valid_auth, count, limit, total, last_page, result } = resp;
    let mut records: Vec<Company> = Vec::new();
    let n = result.len();
    let mut i: usize = 0;
    while i < n
        invariant
            i <= n,
            records@.len() == i,
            forall|k: int|
                0 <= k < i ==> #[trigger] company_matches(records@[k], result.deep_view()[k]),
        decreases n - i,
    {
        let e = company_from_json(&result[i]);
        proof {
            assert(result.deep_view()[i as int] == json_view(result@[i as int]));
        }
        records.push(e);
        i += 1;
    }
    Response { errors, valid_auth, count, limit, total, last_page, result: records }
}

/// Extract launch records from a decoded envelope, keeping its
/// metadata. The caller selects the record type; no cross-check against the
/// resource is made.
#[verifier::loop_isolation(false)]
pub fn launch_response(resp: Response<Json>) -> (out: Response<Launch>)
    ensures
        out.errors == resp.errors,
        out.valid_auth == resp.valid_auth,
        out.count == resp.count,
        out.limit == resp.limit,
        out.total == resp.total,
        out.last_page == resp.last_page,
        launch_seq_matches(out.result@, resp.result.deep_view()),
{
    let Response { errors, valid_auth, count, limit, total, last_page, result } = resp;
    let mut records: Vec<Launch> = Vec::new();
    let n = result.len();
    let mut i: usize = 0;
    while i < n
        invariant
            i <= n,
            records@.len() == i,
            forall|k: int|
                0 <= k < i ==> #[trigger] launch_matches(records@[k], result.deep_view()[k]),
        decreases n - i,
    {
        let e = launch_from_json(&result[i]);
        proof {
            assert(result.deep_view()[i as int] == json_view(result@[i as int]));
        }
        records.push(e);
        i += 1;
    }
    Response { errors, valid_auth, count, limit, total, last_page, result: records }
}

/// Extract location records from a decoded envelope, keeping its
/// metadata. The caller selects the record type; no cross-check against the
/// resource is made.
#[verifier::loop_isolation(false)]
pub fn location_response(resp: Response<Json>) -> (out: Response<Location>)
    ensures
        out.errors == resp.errors,
        out.valid_auth == resp.valid_auth,
        out.count == resp.count,
        out.limit == resp.limit,
        out.total == resp.total,
        out.last_page == resp.last_page,
        location_seq_matches(out.result@, resp.result.deep_view()),
{
    let Response { errors, valid_auth, count, limit, total, last_page, result } = resp;
    let mut records: Vec<Location> = Vec::new();
    let n = result.len();
    let mut i: usize = 0;
    while i < n
        invariant
            i <= n,
            records@.len() == i,
            forall|k: int|
                0 <= k < i ==> #[trigger] location_matches(records@[k], result.deep_view()[k]),
        decreases n - i,
    {
        let e = location_from_json(&result[i]);
        proof {
            assert(result.deep_view()[i as int] == json_view(result@[i as int]));
        }
        records.push(e);
        i += 1;
    }
    Response { errors, valid_auth, count, limit, total, last_page, result: records }
}

/// Extract mission records from a decoded envelope, keeping its
/// metadata. The caller selects the record type; no cross-check against the
/// resource is made.
#[verifier::loop_isolation(false)]
pub fn mission_response(resp: Response<Json>) -> (out: Response<Mission>)
    ensures
        out.errors == resp.errors,
        out.valid_auth == resp.valid_auth,
        out.count == resp.count,
        out.limit == resp.limit,
        out.total == resp.total,
        out.last_page == resp.last_page,
        mission_seq_matches(out.result@, resp.result.deep_view()),
{
    let Response { errors, valid_auth, count, limit, total, last_page, result } = resp;
    let mut records: Vec<Mission> = Vec::new();
    let n = result.len();
    let mut i: usize = 0;
    while i < n
        invariant
            i <= n,
            records@.len() == i,
            forall|k: int|
                0 <= k < i ==> #[trigger] mission_matches(records@[k], result.deep_view()[k]),
        decreases n - i,
    {
        let e = mission_from_json(&result[i]);
        proof {
            assert(result.deep_view()[i as int] == json_view(result@[i as int]));
        }
        records.push(e);
        i += 1;
    }
    Response { errors, valid_auth, count, limit, total, last_page, result: records }
}

/// Extract pad records from a decoded envelope, keeping its
/// metadata. The caller selects the record type; no cross-check against the
/// resource is made.
#[verifier::loop_isolation(false)]
pub fn pad_response(resp: Response<Json>) -> (out: Response<Pad>)
    ensures
        out.errors == resp.errors,
        out.valid_auth == resp.valid_auth,
        out.count == resp.count,
        out.limit == resp.limit,
        out.total == resp.total,
        out.last_page == resp.last_page,
        pad_seq_matches(out.result@, resp.result.deep_view()),
{
    let Response { errors, valid_auth, count, limit, total, last_page, result } = resp;
    let mut records: Vec<Pad> = Vec::new();
    let n = result.len();
    let mut i: usize = 0;
    while i < n
        invariant
            i <= n,
            records@.len() == i,
            forall|k: int|
                0 <= k < i ==> #[trigger] pad_matches(records@[k], result.deep_view()[k]),
        decreases n - i,
    {
        let e = pad_from_json(&result[i]);
        proof {
            assert(result.deep_view()[i as int] == json_view(result@[i as int]));
        }
        records.push(e);
        i += 1;
    }
    Response { errors, valid_auth, count, limit, total, last_page, result: records }
}

/// Extract tag records from a decoded envelope, keeping its
/// metadata. The caller selects the record type; no cross-check against the
/// resource is made.
#[verifier::loop_isolation(false)]
pub fn tag_response(resp: Response<Json>) -> (out: Response<Tag>)
    ensures
        out.errors == resp.errors,
        out.valid_auth == resp.valid_auth,
        out.count == resp.count,
        out.limit == resp.limit,
        out.total == resp.total,
        out.last_page == resp.last_page,
        tag_seq_matches(out.result@, resp.result.deep_view()),
{
    let Response { errors, valid_auth, count, limit, total, last_page, result } = resp;
    let mut records: Vec<Tag> = Vec::new();
    let n = result.len();
    let mut i: usize = 0;
    while i < n
        invariant
            i <= n,
            records@.len() == i,
            forall|k: int|
                0 <= k < i ==> #[trigger] tag_matches(records@[k], result.deep_view()[k]),
        decreases n - i,
    {
        let e = tag_from_json(&result[i]);
        proof {
            assert(result.deep_view()[i as int] == json_view(result@[i as int]));
        }
        records.push(e);
        i += 1;
    }
    Response { errors, valid_auth, count, limit, total, last_page, result: records }
}

/// Extract vehicle records from a decoded envelope, keeping its
/// metadata. The caller selects the record type; no cross-check against the
/// resource is made.
#[verifier::loop_isolation(false)]
pub fn vehicle_response(resp: Response<Json>) -> (out: Response<Vehicle>)
    ensures
        out.errors == resp.errors,
        out.valid_auth == resp.valid_auth,
        out.count == resp.count,
        out.limit == resp.limit,
        out.total == resp.total,
        out.last_page == resp.last_page,
        vehicle_seq_matches(out.result@, resp.result.deep_view()),
{
    let Response { errors, valid_auth, count, limit, total, last_page, result } = resp;
    let mut records: Vec<Vehicle> = Vec::new();
    let n = result.len();
    let mut i: usize = 0;
    while i < n
        invariant
            i <= n,
            records@.len() == i,
            forall|k: int|
                0 <= k < i ==> #[trigger] vehicle_matches(records@[k], result.deep_view()[k]),
        decreases n - i,
    {
        let e = vehicle_from_json(&result[i]);
        proof {
            assert(result.deep_view()[i as int] == json_view(result@[i as int]));
        }
        records.push(e);
        i += 1;
    }
    Response { errors, valid_auth, count, limit, total, last_page, result: records }
}

} // verus!
