//! Parameter builders, one per resource collection.
//!
//! A builder accumulates optional filter values through its setters and
//! renders them with `build` into a [`Params`] set. Only fields that were set
//! are rendered, in the fixed order given by each `*_entries` specification
//! function; `build` reads the builder without changing it, so repeated calls
//! yield identical parameter sets, and setting a field again overwrites the
//! earlier value.

use vstd::prelude::*;

verus! {

use crate::datetime::{Date, DateTime, Time, date_str, time_str};
use crate::params::{
    Direction,
    Params,
    direction_str,
    eq_join,
    opt_bool_param,
    opt_date_param,
    opt_direction_param,
    opt_int_param,
    opt_modified_since_param,
    opt_str_param,
    push_opt_bool,
    push_opt_date,
    push_opt_direction,
    push_opt_int,
    push_opt_modified_since,
    push_opt_str,
};
use crate::render::{bool_str, int_str};
use vstd::string::StringExecFns;

/// Parameters used by multiple builders by composition.
pub struct CommonParams {
    pub id: Option<i64>,
    pub name: Option<String>,
    pub state_abbr: Option<String>,
    pub country_code: Option<String>,
    pub slug: Option<String>,
    pub page: Option<i64>,
}

/// The abstract value of a [`CommonParams`]: each text field as a sequence of
/// characters.
pub struct CommonParamsView {
    pub id: Option<i64>,
    pub name: Option<Seq<char>>,
    pub state_abbr: Option<Seq<char>>,
    pub country_code: Option<Seq<char>>,
    pub slug: Option<Seq<char>>,
    pub page: Option<i64>,
}

impl View for CommonParams {
    type V = CommonParamsView;

    open spec fn view(&self) -> CommonParamsView {
        CommonParamsView {
            id: self.id,
            name: self.name.deep_view(),
            state_abbr: self.state_abbr.deep_view(),
            country_code: self.country_code.deep_view(),
            slug: self.slug.deep_view(),
            page: self.page,
        }
    }
}

impl CommonParamsView {
    /// The state of a fresh builder: nothing set.
    pub open spec fn empty() -> CommonParamsView {
        CommonParamsView {
            id: None,
            name: None,
            state_abbr: None,
            country_code: None,
            slug: None,
            page: None,
        }
    }
}

impl CommonParams {
    /// A fresh value with nothing set.
    pub(crate) fn new() -> (r: CommonParams)
        ensures
            r@ == CommonParamsView::empty(),
    {
        CommonParams {
            id: None,
            name: None,
            state_abbr: None,
            country_code: None,
            slug: None,
            page: None,
        }
    }
}

/// Builder to generate the API parameters to filter calls to the companies
/// endpoint.
pub struct CompanyParamsBuilder {
    pub common_params: CommonParams,
    pub inactive: Option<bool>,
}

/// The abstract value of a [`CompanyParamsBuilder`].
pub struct CompanyParamsView {
    pub common_params: CommonParamsView,
    pub inactive: Option<bool>,
}

impl View for CompanyParamsBuilder {
    type V = CompanyParamsView;

    open spec fn view(&self) -> CompanyParamsView {
        CompanyParamsView { common_params: self.common_params@, inactive: self.inactive }
    }
}

impl CompanyParamsView {
    /// The state of a fresh builder: nothing set.
    pub open spec fn empty() -> CompanyParamsView {
        CompanyParamsView { common_params: CommonParamsView::empty(), inactive: None }
    }
}

/// The parameter set a company builder in state `v` renders: the fields that
/// are set, in the fixed order id, name, country_code, slug, inactive, page.
pub open spec fn company_entries(v: CompanyParamsView) -> Seq<Seq<char>> {
    opt_int_param("id"@, v.common_params.id) + opt_str_param("name"@, v.common_params.name)
        + opt_str_param("country_code"@, v.common_params.country_code) + opt_str_param(
        "slug"@,
        v.common_params.slug,
    ) + opt_bool_param("inactive"@, v.inactive) + opt_int_param("page"@, v.common_params.page)
}

impl CompanyParamsBuilder {
    /// Create a new builder for the company parameters.
    pub fn new() -> (r: Self)
        ensures
            r@ == CompanyParamsView::empty(),
    {
        CompanyParamsBuilder { common_params: CommonParams::new(), inactive: None }
    }

    /// Set the company id parameter.
    pub fn id(&mut self, id: i64)
        ensures
            final(self)@ == (CompanyParamsView {
                common_params: CommonParamsView { id: Some(id), ..old(self)@.common_params },
                ..old(self)@
            }),
    {
        self.common_params.id = Some(id);
    }

    /// Set the company name parameter.
    pub fn name(&mut self, name: &str)
        ensures
            final(self)@ == (CompanyParamsView {
                common_params: CommonParamsView { name: Some(name@), ..old(self)@.common_params },
                ..old(self)@
            }),
    {
        self.common_params.name = Some(name.to_owned());
    }

    /// Set the company country_code parameter.
    pub fn country_code(&mut self, country_code: &str)
        ensures
            final(self)@ == (CompanyParamsView {
                common_params: CommonParamsView {
                    country_code: Some(country_code@),
                    ..old(self)@.common_params
                },
                ..old(self)@
            }),
    {
        self.common_params.country_code = Some(country_code.to_owned());
    }

    /// Set the company slug parameter.
    pub fn slug(&mut self, slug: &str)
        ensures
            final(self)@ == (CompanyParamsView {
                common_params: CommonParamsView { slug: Some(slug@), ..old(self)@.common_params },
                ..old(self)@
            }),
    {
        self.common_params.slug = Some(slug.to_owned());
    }

    /// Set the company inactive parameter.
    pub fn inactive(&mut self, inactive: bool)
        ensures
            final(self)@ == (CompanyParamsView { inactive: Some(inactive), ..old(self)@ }),
    {
        self.inactive = Some(inactive);
    }

    /// Set the company page parameter.
    pub fn page(&mut self, page: i64)
        ensures
            final(self)@ == (CompanyParamsView {
                common_params: CommonParamsView { page: Some(page), ..old(self)@.common_params },
                ..old(self)@
            }),
    {
        self.common_params.page = Some(page);
    }

    /// Build the low level company parameters from all the set parameters.
    pub fn build(&self) -> (r: Params)
        ensures
            r@ == company_entries(self@),
    {
        let mut params: Vec<String> = Vec::new();
        push_opt_int(&mut params, "id", &self.common_params.id);
        push_opt_str(&mut params, "name", &self.common_params.name);
        push_opt_str(&mut params, "country_code", &self.common_params.country_code);
        push_opt_str(&mut params, "slug", &self.common_params.slug);
        push_opt_bool(&mut params, "inactive", &self.inactive);
        push_opt_int(&mut params, "page", &self.common_params.page);
        proof {
            assert(params.deep_view() =~= company_entries(self@));
        }
        Params(params)
    }
}


/// Builder to generate the API parameters to filter calls to the launches
/// endpoint.
pub struct LaunchParamsBuilder {
    pub common_params: CommonParams,
    pub cospar_id: Option<String>,
    pub after_date: Option<Date>,
    pub before_date: Option<Date>,
    pub modified_since: Option<DateTime>,
    pub location_id: Option<i64>,
    pub pad_id: Option<i64>,
    pub provider_id: Option<i64>,
    pub tag_id: Option<i64>,
    pub vehicle_id: Option<i64>,
    pub search: Option<String>,
    pub limit: Option<i64>,
    pub direction: Option<Direction>,
}

/// The abstract value of a [`LaunchParamsBuilder`].
pub struct LaunchParamsView {
    pub common_params: CommonParamsView,
    pub cospar_id: Option<Seq<char>>,
    pub after_date: Option<Date>,
    pub before_date: Option<Date>,
    pub modified_since: Option<DateTime>,
    pub location_id: Option<i64>,
    pub pad_id: Option<i64>,
    pub provider_id: Option<i64>,
    pub tag_id: Option<i64>,
    pub vehicle_id: Option<i64>,
    pub search: Option<Seq<char>>,
    pub limit: Option<i64>,
    pub direction: Option<Direction>,
}

impl View for LaunchParamsBuilder {
    type V = LaunchParamsView;

    open spec fn view(&self) -> LaunchParamsView {
        LaunchParamsView {
            common_params: self.common_params@,
            cospar_id: self.cospar_id.deep_view(),
            after_date: self.after_date,
            before_date: self.before_date,
            modified_since: self.modified_since,
            location_id: self.location_id,
            pad_id: self.pad_id,
            provider_id: self.provider_id,
            tag_id: self.tag_id,
            vehicle_id: self.vehicle_id,
            search: self.search.deep_view(),
            limit: self.limit,
            direction: self.direction,
        }
    }
}

impl LaunchParamsView {
    /// The state of a fresh builder: nothing set.
    pub open spec fn empty() -> LaunchParamsView {
        LaunchParamsView {
            common_params: CommonParamsView::empty(),
            cospar_id: None,
            after_date: None,
            before_date: None,
            modified_since: None,
            location_id: None,
            pad_id: None,
            provider_id: None,
            tag_id: None,
            vehicle_id: None,
            search: None,
            limit: None,
            direction: None,
        }
    }
}

/// The parameter set a launch builder in state `v` renders: the fields that
/// are set, in the fixed order id, cospar_id, state_abbr, country_code,
/// after_date, before_date, location_id, pad_id, provider_id, tag_id,
/// vehicle_id, search, slug, limit, page, modified_since, direction.
pub open spec fn launch_entries(v: LaunchParamsView) -> Seq<Seq<char>> {
    opt_int_param("id"@, v.common_params.id) + opt_str_param("cospar_id"@, v.cospar_id)
        + opt_str_param("state_abbr"@, v.common_params.state_abbr) + opt_str_param(
        "country_code"@,
        v.common_params.country_code,
    ) + opt_date_param("after_date"@, v.after_date) + opt_date_param(
        "before_date"@,
        v.before_date,
    ) + opt_int_param("location_id"@, v.location_id) + opt_int_param("pad_id"@, v.pad_id)
        + opt_int_param("provider_id"@, v.provider_id) + opt_int_param("tag_id"@, v.tag_id)
        + opt_int_param("vehicle_id"@, v.vehicle_id) + opt_str_param("search"@, v.search)
        + opt_str_param("slug"@, v.common_params.slug) + opt_int_param("limit"@, v.limit)
        + opt_int_param("page"@, v.common_params.page) + opt_modified_since_param(v.modified_since)
        + opt_direction_param(v.direction)
}

impl LaunchParamsBuilder {
    /// Create a new builder for the launch parameters.
    pub fn new() -> (r: Self)
        ensures
            r@ == LaunchParamsView::empty(),
    {
        LaunchParamsBuilder {
            common_params: CommonParams::new(),
            cospar_id: None,
            after_date: None,
            before_date: None,
            modified_since: None,
            location_id: None,
            pad_id: None,
            provider_id: None,
            tag_id: None,
            vehicle_id: None,
            search: None,
            limit: None,
            direction: None,
        }
    }

    /// Set the launch id parameter.
    pub fn id(&mut self, id: i64)
        ensures
            final(self)@ == (LaunchParamsView {
                common_params: CommonParamsView { id: Some(id), ..old(self)@.common_params },
                ..old(self)@
            }),
    {
        self.common_params.id = Some(id);
    }

    /// Set the launch cospar_id parameter.
    pub fn cospar_id(&mut self, cospar_id: &str)
        ensures
            final(self)@ == (LaunchParamsView { cospar_id: Some(cospar_id@), ..old(self)@ }),
    {
        self.cospar_id = Some(cospar_id.to_owned());
    }

    /// Set the launch after_date parameter. An absent date is rejected before
    /// any request is attempted and leaves the builder unchanged.
    pub fn after_date(&mut self, after_date: Option<Date>) -> (r: Result<(), &'static str>)
        ensures
            match after_date {
                Some(d) => r is Ok && final(self)@ == (LaunchParamsView {
                    after_date: Some(d),
                    ..old(self)@
                }),
                None => *final(self) == *old(self) && (r matches Err(m) && m@
                    == "Could not parse date."@),
            },
    {
        match after_date {
            Some(date) => {
                self.after_date = Some(date);
                Ok(())
            },
            None => Err("Could not parse date."),
        }
    }

    /// Set the launch before_date parameter. An absent date is rejected before
    /// any request is attempted and leaves the builder unchanged.
    pub fn before_date(&mut self, before_date: Option<Date>) -> (r: Result<(), &'static str>)
        ensures
            match before_date {
                Some(d) => r is Ok && final(self)@ == (LaunchParamsView {
                    before_date: Some(d),
                    ..old(self)@
                }),
                None => *final(self) == *old(self) && (r matches Err(m) && m@
                    == "Could not parse date."@),
            },
    {
        match before_date {
            Some(date) => {
                self.before_date = Some(date);
                Ok(())
            },
            None => Err("Could not parse date."),
        }
    }

    /// Set the launch modified_since parameter. An absent date or time is
    /// rejected before any request is attempted and leaves the builder
    /// unchanged.
    pub fn modified_since(&mut self, date: Option<Date>, time: Option<Time>) -> (r: Result<
        (),
        &'static str,
    >)
        ensures
            match (date, time) {
                (Some(d), Some(t)) => r is Ok && final(self)@ == (LaunchParamsView {
                    modified_since: Some(DateTime { date: d, time: t }),
                    ..old(self)@
                }),
                (Some(d), None) => *final(self) == *old(self) && (r matches Err(m) && m@
                    == "Could not parse time."@),
                (None, _) => *final(self) == *old(self) && (r matches Err(m) && m@
                    == "Could not parse date."@),
            },
    {
        match date {
            Some(date) => match time {
                Some(time) => {
                    self.modified_since = Some(DateTime::new(date, time));
                    Ok(())
                },
                None => Err("Could not parse time."),
            },
            None => Err("Could not parse date."),
        }
    }

    /// Set the launch location_id parameter.
    pub fn location_id(&mut self, location_id: i64)
        ensures
            final(self)@ == (LaunchParamsView { location_id: Some(location_id), ..old(self)@ }),
    {
        self.location_id = Some(location_id);
    }

    /// Set the launch pad_id parameter.
    pub fn pad_id(&mut self, pad_id: i64)
        ensures
            final(self)@ == (LaunchParamsView { pad_id: Some(pad_id), ..old(self)@ }),
    {
        self.pad_id = Some(pad_id);
    }

    /// Set the launch provider_id parameter.
    pub fn provider_id(&mut self, provider_id: i64)
        ensures
            final(self)@ == (LaunchParamsView { provider_id: Some(provider_id), ..old(self)@ }),
    {
        self.provider_id = Some(provider_id);
    }

    /// Set the launch tag_id parameter.
    pub fn tag_id(&mut self, tag_id: i64)
        ensures
            final(self)@ == (LaunchParamsView { tag_id: Some(tag_id), ..old(self)@ }),
    {
        self.tag_id = Some(tag_id);
    }

    /// Set the launch vehicle_id parameter.
    pub fn vehicle_id(&mut self, vehicle_id: i64)
        ensures
            final(self)@ == (LaunchParamsView { vehicle_id: Some(vehicle_id), ..old(self)@ }),
    {
        self.vehicle_id = Some(vehicle_id);
    }

    /// Set the launch state_abbr parameter.
    pub fn state_abbr(&mut self, state_abbr: &str)
        ensures
            final(self)@ == (LaunchParamsView {
                common_params: CommonParamsView {
                    state_abbr: Some(state_abbr@),
                    ..old(self)@.common_params
                },
                ..old(self)@
            }),
    {
        self.common_params.state_abbr = Some(state_abbr.to_owned());
    }

    /// Set the launch country_code parameter.
    pub fn country_code(&mut self, country_code: &str)
        ensures
            final(self)@ == (LaunchParamsView {
                common_params: CommonParamsView {
                    country_code: Some(country_code@),
                    ..old(self)@.common_params
                },
                ..old(self)@
            }),
    {
        self.common_params.country_code = Some(country_code.to_owned());
    }

    /// Set the launch search parameter.
    pub fn search(&mut self, search: &str)
        ensures
            final(self)@ == (LaunchParamsView { search: Some(search@), ..old(self)@ }),
    {
        self.search = Some(search.to_owned());
    }

    /// Set the launch slug parameter.
    pub fn slug(&mut self, slug: &str)
        ensures
            final(self)@ == (LaunchParamsView {
                common_params: CommonParamsView { slug: Some(slug@), ..old(self)@.common_params },
                ..old(self)@
            }),
    {
        self.common_params.slug = Some(slug.to_owned());
    }

    /// Set the launch limit parameter.
    pub fn limit(&mut self, limit: i64)
        ensures
            final(self)@ == (LaunchParamsView { limit: Some(limit), ..old(self)@ }),
    {
        self.limit = Some(limit);
    }

    /// Set the launch direction parameter.
    pub fn direction(&mut self, direction: Direction)
        ensures
            final(self)@ == (LaunchParamsView { direction: Some(direction), ..old(self)@ }),
    {
        self.direction = Some(direction);
    }

    /// Set the launch page parameter.
    pub fn page(&mut self, page: i64)
        ensures
            final(self)@ == (LaunchParamsView {
                common_params: CommonParamsView { page: Some(page), ..old(self)@.common_params },
                ..old(self)@
            }),
    {
        self.common_params.page = Some(page);
    }

    /// Build the low level launch parameters from all the set parameters.
    pub fn build(&self) -> (r: Params)
        ensures
            r@ == launch_entries(self@),
    {
        let mut params: Vec<String> = Vec::new();
        push_opt_int(&mut params, "id", &self.common_params.id);
        push_opt_str(&mut params, "cospar_id", &self.cospar_id);
        push_opt_str(&mut params, "state_abbr", &self.common_params.state_abbr);
        push_opt_str(&mut params, "country_code", &self.common_params.country_code);
        push_opt_date(&mut params, "after_date", &self.after_date);
        push_opt_date(&mut params, "before_date", &self.before_date);
        push_opt_int(&mut params, "location_id", &self.location_id);
        push_opt_int(&mut params, "pad_id", &self.pad_id);
        push_opt_int(&mut params, "provider_id", &self.provider_id);
        push_opt_int(&mut params, "tag_id", &self.tag_id);
        push_opt_int(&mut params, "vehicle_id", &self.vehicle_id);
        push_opt_str(&mut params, "search", &self.search);
        push_opt_str(&mut params, "slug", &self.common_params.slug);
        push_opt_int(&mut params, "limit", &self.limit);
        push_opt_int(&mut params, "page", &self.common_params.page);
        push_opt_modified_since(&mut params, &self.modified_since);
        push_opt_direction(&mut params, &self.direction);
        proof {
            assert(params.deep_view() =~= launch_entries(self@));
        }
        Params(params)
    }
}


/// Builder to generate the API parameters to filter calls to the locations
/// endpoint.
pub struct LocationParamsBuilder {
    pub common_params: CommonParams,
}

/// The abstract value of a [`LocationParamsBuilder`].
pub struct LocationParamsView {
    pub common_params: CommonParamsView,
}

impl View for LocationParamsBuilder {
    type V = LocationParamsView;

    open spec fn view(&self) -> LocationParamsView {
        LocationParamsView {
            common_params: self.common_params@,
        }
    }
}

impl LocationParamsView {
    /// The state of a fresh builder: nothing set.
    pub open spec fn empty() -> LocationParamsView {
        LocationParamsView {
            common_params: CommonParamsView::empty(),
        }
    }
}

/// The parameter set a location builder in state `v` renders: the fields
/// that are set, in the fixed order id, name, state_abbr, country_code, page.
pub open spec fn location_entries(v: LocationParamsView) -> Seq<Seq<char>> {
    opt_int_param("id"@, v.common_params.id) + opt_str_param("name"@, v.common_params.name) + opt_str_param("state_abbr"@, v.common_params.state_abbr) + opt_str_param("country_code"@, v.common_params.country_code) + opt_int_param("page"@, v.common_params.page)
}

impl LocationParamsBuilder {
    /// Create a new builder for the location parameters.
    pub fn new() -> (r: Self)
        ensures
            r@ == LocationParamsView::empty(),
    {
        LocationParamsBuilder {
            common_params: CommonParams::new(),
        }
    }

    /// Set the location id parameter.
    pub fn id(&mut self, id: i64)
        ensures
            final(self)@ == (LocationParamsView {
                common_params: CommonParamsView { id: Some(id), ..old(self)@.common_params },
                ..old(self)@
            }),
    {
        self.common_params.id = Some(id);
    }

    /// Set the location name parameter.
    pub fn name(&mut self, name: &str)
        ensures
            final(self)@ == (LocationParamsView {
                common_params: CommonParamsView { name: Some(name@), ..old(self)@.common_params },
                ..old(self)@
            }),
    {
        self.common_params.name = Some(name.to_owned());
    }

    /// Set the location state_abbr parameter.
    pub fn state_abbr(&mut self, state_abbr: &str)
        ensures
            final(self)@ == (LocationParamsView {
                common_params: CommonParamsView { state_abbr: Some(state_abbr@), ..old(self)@.common_params },
                ..old(self)@
            }),
    {
        self.common_params.state_abbr = Some(state_abbr.to_owned());
    }

    /// Set the location country_code parameter.
    pub fn country_code(&mut self, country_code: &str)
        ensures
            final(self)@ == (LocationParamsView {
                common_params: CommonParamsView { country_code: Some(country_code@), ..old(self)@.common_params },
                ..old(self)@
            }),
    {
        self.common_params.country_code = Some(country_code.to_owned());
    }

    /// Set the location page parameter.
    pub fn page(&mut self, page: i64)
        ensures
            final(self)@ == (LocationParamsView {
                common_params: CommonParamsView { page: Some(page), ..old(self)@.common_params },
                ..old(self)@
            }),
    {
        self.common_params.page = Some(page);
    }

    /// Build the low level location parameters from all the set parameters.
    pub fn build(&self) -> (r: Params)
        ensures
            r@ == location_entries(self@),
    {
        let mut params: Vec<String> = Vec::new();
        push_opt_int(&mut params, "id", &self.common_params.id);
        push_opt_str(&mut params, "name", &self.common_params.name);
        push_opt_str(&mut params, "state_abbr", &self.common_params.state_abbr);
        push_opt_str(&mut params, "country_code", &self.common_params.country_code);
        push_opt_int(&mut params, "page", &self.common_params.page);
        proof {
            assert(params.deep_view() =~= location_entries(self@));
        }
        Params(params)
    }
}

/// Builder to generate the API parameters to filter calls to the missions
/// endpoint.
pub struct MissionParamsBuilder {
    pub common_params: CommonParams,
}

/// The abstract value of a [`MissionParamsBuilder`].
pub struct MissionParamsView {
    pub common_params: CommonParamsView,
}

impl View for MissionParamsBuilder {
    type V = MissionParamsView;

    open spec fn view(&self) -> MissionParamsView {
        MissionParamsView {
            common_params: self.common_params@,
        }
    }
}

impl MissionParamsView {
    /// The state of a fresh builder: nothing set.
    pub open spec fn empty() -> MissionParamsView {
        MissionParamsView {
            common_params: CommonParamsView::empty(),
        }
    }
}

/// The parameter set a mission builder in state `v` renders: the fields
/// that are set, in the fixed order id, name, page.
pub open spec fn mission_entries(v: MissionParamsView) -> Seq<Seq<char>> {
    opt_int_param("id"@, v.common_params.id) + opt_str_param("name"@, v.common_params.name) + opt_int_param("page"@, v.common_params.page)
}

impl MissionParamsBuilder {
    /// Create a new builder for the mission parameters.
    pub fn new() -> (r: Self)
        ensures
            r@ == MissionParamsView::empty(),
    {
        MissionParamsBuilder {
            common_params: CommonParams::new(),
        }
    }

    /// Set the mission id parameter.
    pub fn id(&mut self, id: i64)
        ensures
            final(self)@ == (MissionParamsView {
                common_params: CommonParamsView { id: Some(id), ..old(self)@.common_params },
                ..old(self)@
            }),
    {
        self.common_params.id = Some(id);
    }

    /// Set the mission name parameter.
    pub fn name(&mut self, name: &str)
        ensures
            final(self)@ == (MissionParamsView {
                common_params: CommonParamsView { name: Some(name@), ..old(self)@.common_params },
                ..old(self)@
            }),
    {
        self.common_params.name = Some(name.to_owned());
    }

    /// Set the mission page parameter.
    pub fn page(&mut self, page: i64)
        ensures
            final(self)@ == (MissionParamsView {
                common_params: CommonParamsView { page: Some(page), ..old(self)@.common_params },
                ..old(self)@
            }),
    {
        self.common_params.page = Some(page);
    }

    /// Build the low level mission parameters from all the set parameters.
    pub fn build(&self) -> (r: Params)
        ensures
            r@ == mission_entries(self@),
    {
        let mut params: Vec<String> = Vec::new();
        push_opt_int(&mut params, "id", &self.common_params.id);
        push_opt_str(&mut params, "name", &self.common_params.name);
        push_opt_int(&mut params, "page", &self.common_params.page);
        proof {
            assert(params.deep_view() =~= mission_entries(self@));
        }
        Params(params)
    }
}

/// Builder to generate the API parameters to filter calls to the pads
/// endpoint.
pub struct PadParamsBuilder {
    pub common_params: CommonParams,
}

/// The abstract value of a [`PadParamsBuilder`].
pub struct PadParamsView {
    pub common_params: CommonParamsView,
}

impl View for PadParamsBuilder {
    type V = PadParamsView;

    open spec fn view(&self) -> PadParamsView {
        PadParamsView {
            common_params: self.common_params@,
        }
    }
}

impl PadParamsView {
    /// The state of a fresh builder: nothing set.
    pub open spec fn empty() -> PadParamsView {
        PadParamsView {
            common_params: CommonParamsView::empty(),
        }
    }
}

/// The parameter set a pad builder in state `v` renders: the fields
/// that are set, in the fixed order id, name, state_abbr, country_code, page.
pub open spec fn pad_entries(v: PadParamsView) -> Seq<Seq<char>> {
    opt_int_param("id"@, v.common_params.id) + opt_str_param("name"@, v.common_params.name) + opt_str_param("state_abbr"@, v.common_params.state_abbr) + opt_str_param("country_code"@, v.common_params.country_code) + opt_int_param("page"@, v.common_params.page)
}

impl PadParamsBuilder {
    /// Create a new builder for the pad parameters.
    pub fn new() -> (r: Self)
        ensures
            r@ == PadParamsView::empty(),
    {
        PadParamsBuilder {
            common_params: CommonParams::new(),
        }
    }

    /// Set the pad id parameter.
    pub fn id(&mut self, id: i64)
        ensures
            final(self)@ == (PadParamsView {
                common_params: CommonParamsView { id: Some(id), ..old(self)@.common_params },
                ..old(self)@
            }),
    {
        self.common_params.id = Some(id);
    }

    /// Set the pad name parameter.
    pub fn name(&mut self, name: &str)
        ensures
            final(self)@ == (PadParamsView {
                common_params: CommonParamsView { name: Some(name@), ..old(self)@.common_params },
                ..old(self)@
            }),
    {
        self.common_params.name = Some(name.to_owned());
    }

    /// Set the pad state_abbr parameter.
    pub fn state_abbr(&mut self, state_abbr: &str)
        ensures
            final(self)@ == (PadParamsView {
                common_params: CommonParamsView { state_abbr: Some(state_abbr@), ..old(self)@.common_params },
                ..old(self)@
            }),
    {
        self.common_params.state_abbr = Some(state_abbr.to_owned());
    }

    /// Set the pad country_code parameter.
    pub fn country_code(&mut self, country_code: &str)
        ensures
            final(self)@ == (PadParamsView {
                common_params: CommonParamsView { country_code: Some(country_code@), ..old(self)@.common_params },
                ..old(self)@
            }),
    {
        self.common_params.country_code = Some(country_code.to_owned());
    }

    /// Set the pad page parameter.
    pub fn page(&mut self, page: i64)
        ensures
            final(self)@ == (PadParamsView {
                common_params: CommonParamsView { page: Some(page), ..old(self)@.common_params },
                ..old(self)@
            }),
    {
        self.common_params.page = Some(page);
    }

    /// Build the low level pad parameters from all the set parameters.
    pub fn build(&self) -> (r: Params)
        ensures
            r@ == pad_entries(self@),
    {
        let mut params: Vec<String> = Vec::new();
        push_opt_int(&mut params, "id", &self.common_params.id);
        push_opt_str(&mut params, "name", &self.common_params.name);
        push_opt_str(&mut params, "state_abbr", &self.common_params.state_abbr);
        push_opt_str(&mut params, "country_code", &self.common_params.country_code);
        push_opt_int(&mut params, "page", &self.common_params.page);
        proof {
            assert(params.deep_view() =~= pad_entries(self@));
        }
        Params(params)
    }
}

/// Builder to generate the API parameters to filter calls to the tags
/// endpoint.
pub struct TagParamsBuilder {
    pub common_params: CommonParams,
    pub text: Option<String>,
}

/// The abstract value of a [`TagParamsBuilder`].
pub struct TagParamsView {
    pub common_params: CommonParamsView,
    pub text: Option<Seq<char>>,
}

impl View for TagParamsBuilder {
    type V = TagParamsView;

    open spec fn view(&self) -> TagParamsView {
        TagParamsView {
            common_params: self.common_params@,
            text: self.text.deep_view(),
        }
    }
}

impl TagParamsView {
    /// The state of a fresh builder: nothing set.
    pub open spec fn empty() -> TagParamsView {
        TagParamsView {
            common_params: CommonParamsView::empty(),
            text: None,
        }
    }
}

/// The parameter set a tag builder in state `v` renders: the fields
/// that are set, in the fixed order id, text, page.
pub open spec fn tag_entries(v: TagParamsView) -> Seq<Seq<char>> {
    opt_int_param("id"@, v.common_params.id) + opt_str_param("text"@, v.text) + opt_int_param("page"@, v.common_params.page)
}

impl TagParamsBuilder {
    /// Create a new builder for the tag parameters.
    pub fn new() -> (r: Self)
        ensures
            r@ == TagParamsView::empty(),
    {
        TagParamsBuilder {
            common_params: CommonParams::new(),
            text: None,
        }
    }

    /// Set the tag id parameter.
    pub fn id(&mut self, id: i64)
        ensures
            final(self)@ == (TagParamsView {
                common_params: CommonParamsView { id: Some(id), ..old(self)@.common_params },
                ..old(self)@
            }),
    {
        self.common_params.id = Some(id);
    }

    /// Set the tag text parameter.
    pub fn text(&mut self, text: &str)
        ensures
            final(self)@ == (TagParamsView { text: Some(text@), ..old(self)@ }),
    {
        self.text = Some(text.to_owned());
    }

    /// Set the tag page parameter.
    pub fn page(&mut self, page: i64)
        ensures
            final(self)@ == (TagParamsView {
                common_params: CommonParamsView { page: Some(page), ..old(self)@.common_params },
                ..old(self)@
            }),
    {
        self.common_params.page = Some(page);
    }

    /// Build the low level tag parameters from all the set parameters.
    pub fn build(&self) -> (r: Params)
        ensures
            r@ == tag_entries(self@),
    {
        let mut params: Vec<String> = Vec::new();
        push_opt_int(&mut params, "id", &self.common_params.id);
        push_opt_str(&mut params, "text", &self.text);
        push_opt_int(&mut params, "page", &self.common_params.page);
        proof {
            assert(params.deep_view() =~= tag_entries(self@));
        }
        Params(params)
    }
}

/// Builder to generate the API parameters to filter calls to the vehicles
/// endpoint.
pub struct VehicleParamsBuilder {
    pub common_params: CommonParams,
}

/// The abstract value of a [`VehicleParamsBuilder`].
pub struct VehicleParamsView {
    pub common_params: CommonParamsView,
}

impl View for VehicleParamsBuilder {
    type V = VehicleParamsView;

    open spec fn view(&self) -> VehicleParamsView {
        VehicleParamsView {
            common_params: self.common_params@,
        }
    }
}

impl VehicleParamsView {
    /// The state of a fresh builder: nothing set.
    pub open spec fn empty() -> VehicleParamsView {
        VehicleParamsView {
            common_params: CommonParamsView::empty(),
        }
    }
}

/// The parameter set a vehicle builder in state `v` renders: the fields
/// that are set, in the fixed order id, name, page.
pub open spec fn vehicle_entries(v: VehicleParamsView) -> Seq<Seq<char>> {
    opt_int_param("id"@, v.common_params.id) + opt_str_param("name"@, v.common_params.name) + opt_int_param("page"@, v.common_params.page)
}

impl VehicleParamsBuilder {
    /// Create a new builder for the vehicle parameters.
    pub fn new() -> (r: Self)
        ensures
            r@ == VehicleParamsView::empty(),
    {
        VehicleParamsBuilder {
            common_params: CommonParams::new(),
        }
    }

    /// Set the vehicle id parameter.
    pub fn id(&mut self, id: i64)
        ensures
            final(self)@ == (VehicleParamsView {
                common_params: CommonParamsView { id: Some(id), ..old(self)@.common_params },
                ..old(self)@
            }),
    {
        self.common_params.id = Some(id);
    }

    /// Set the vehicle name parameter.
    pub fn name(&mut self, name: &str)
        ensures
            final(self)@ == (VehicleParamsView {
                common_params: CommonParamsView { name: Some(name@), ..old(self)@.common_params },
                ..old(self)@
            }),
    {
        self.common_params.name = Some(name.to_owned());
    }

    /// Set the vehicle page parameter.
    pub fn page(&mut self, page: i64)
        ensures
            final(self)@ == (VehicleParamsView {
                common_params: CommonParamsView { page: Some(page), ..old(self)@.common_params },
                ..old(self)@
            }),
    {
        self.common_params.page = Some(page);
    }

    /// Build the low level vehicle parameters from all the set parameters.
    pub fn build(&self) -> (r: Params)
        ensures
            r@ == vehicle_entries(self@),
    {
        let mut params: Vec<String> = Vec::new();
        push_opt_int(&mut params, "id", &self.common_params.id);
        push_opt_str(&mut params, "name", &self.common_params.name);
        push_opt_int(&mut params, "page", &self.common_params.page);
        proof {
            assert(params.deep_view() =~= vehicle_entries(self@));
        }
        Params(params)
    }
}


/// A builder on which no setter was invoked renders the empty parameter
/// set: `build` yields no entries at all.
pub proof fn lemma_empty_build()
    ensures
        company_entries(CompanyParamsView::empty()) == Seq::<Seq<char>>::empty(),
        launch_entries(LaunchParamsView::empty()) == Seq::<Seq<char>>::empty(),
        location_entries(LocationParamsView::empty()) == Seq::<Seq<char>>::empty(),
        mission_entries(MissionParamsView::empty()) == Seq::<Seq<char>>::empty(),
        pad_entries(PadParamsView::empty()) == Seq::<Seq<char>>::empty(),
        tag_entries(TagParamsView::empty()) == Seq::<Seq<char>>::empty(),
        vehicle_entries(VehicleParamsView::empty()) == Seq::<Seq<char>>::empty(),
{
    assert(company_entries(CompanyParamsView::empty()) =~= Seq::<Seq<char>>::empty());
    assert(launch_entries(LaunchParamsView::empty()) =~= Seq::<Seq<char>>::empty());
    assert(location_entries(LocationParamsView::empty()) =~= Seq::<Seq<char>>::empty());
    assert(mission_entries(MissionParamsView::empty()) =~= Seq::<Seq<char>>::empty());
    assert(pad_entries(PadParamsView::empty()) =~= Seq::<Seq<char>>::empty());
    assert(tag_entries(TagParamsView::empty()) =~= Seq::<Seq<char>>::empty());
    assert(vehicle_entries(VehicleParamsView::empty()) =~= Seq::<Seq<char>>::empty());
}

/// Setting exactly one field on a fresh company builder and building
/// yields exactly one entry, that field under its own name with its rendered
/// value.
pub proof fn lemma_company_single_param(x1: i64, s1: Seq<char>, b1: bool)
    ensures
        company_entries((CompanyParamsView { common_params: CommonParamsView { id: Some(x1), ..CompanyParamsView::empty().common_params }, ..CompanyParamsView::empty() })) == seq![eq_join("id"@, int_str(x1 as int))],
        company_entries((CompanyParamsView { common_params: CommonParamsView { name: Some(s1), ..CompanyParamsView::empty().common_params }, ..CompanyParamsView::empty() })) == seq![eq_join("name"@, s1)],
        company_entries((CompanyParamsView { common_params: CommonParamsView { country_code: Some(s1), ..CompanyParamsView::empty().common_params }, ..CompanyParamsView::empty() })) == seq![eq_join("country_code"@, s1)],
        company_entries((CompanyParamsView { common_params: CommonParamsView { slug: Some(s1), ..CompanyParamsView::empty().common_params }, ..CompanyParamsView::empty() })) == seq![eq_join("slug"@, s1)],
        company_entries((CompanyParamsView { inactive: Some(b1), ..CompanyParamsView::empty() })) == seq![eq_join("inactive"@, bool_str(b1))],
        company_entries((CompanyParamsView { common_params: CommonParamsView { page: Some(x1), ..CompanyParamsView::empty().common_params }, ..CompanyParamsView::empty() })) == seq![eq_join("page"@, int_str(x1 as int))],
{
    assert(company_entries((CompanyParamsView { common_params: CommonParamsView { id: Some(x1), ..CompanyParamsView::empty().common_params }, ..CompanyParamsView::empty() })) =~= seq![eq_join("id"@, int_str(x1 as int))]);
    assert(company_entries((CompanyParamsView { common_params: CommonParamsView { name: Some(s1), ..CompanyParamsView::empty().common_params }, ..CompanyParamsView::empty() })) =~= seq![eq_join("name"@, s1)]);
    assert(company_entries((CompanyParamsView { common_params: CommonParamsView { country_code: Some(s1), ..CompanyParamsView::empty().common_params }, ..CompanyParamsView::empty() })) =~= seq![eq_join("country_code"@, s1)]);
    assert(company_entries((CompanyParamsView { common_params: CommonParamsView { slug: Some(s1), ..CompanyParamsView::empty().common_params }, ..CompanyParamsView::empty() })) =~= seq![eq_join("slug"@, s1)]);
    assert(company_entries((CompanyParamsView { inactive: Some(b1), ..CompanyParamsView::empty() })) =~= seq![eq_join("inactive"@, bool_str(b1))]);
    assert(company_entries((CompanyParamsView { common_params: CommonParamsView { page: Some(x1), ..CompanyParamsView::empty().common_params }, ..CompanyParamsView::empty() })) =~= seq![eq_join("page"@, int_str(x1 as int))]);
}

/// Setting exactly one field on a fresh launch builder and building
/// yields exactly one entry, that field under its own name with its rendered
/// value.
pub proof fn lemma_launch_single_param(x1: i64, s1: Seq<char>, d1: Date, dt1: DateTime, dir1: Direction)
    ensures
        launch_entries((LaunchParamsView { common_params: CommonParamsView { id: Some(x1), ..LaunchParamsView::empty().common_params }, ..LaunchParamsView::empty() })) == seq![eq_join("id"@, int_str(x1 as int))],
        launch_entries((LaunchParamsView { cospar_id: Some(s1), ..LaunchParamsView::empty() })) == seq![eq_join("cospar_id"@, s1)],
        launch_entries((LaunchParamsView { after_date: Some(d1), ..LaunchParamsView::empty() })) == seq![eq_join("after_date"@, date_str(d1))],
        launch_entries((LaunchParamsView { before_date: Some(d1), ..LaunchParamsView::empty() })) == seq![eq_join("before_date"@, date_str(d1))],
        launch_entries((LaunchParamsView { modified_since: Some(dt1), ..LaunchParamsView::empty() })) == seq![eq_join("modified_since"@, date_str(dt1.date) + seq!['T'] + time_str(dt1.time) + seq!['Z'])],
        launch_entries((LaunchParamsView { location_id: Some(x1), ..LaunchParamsView::empty() })) == seq![eq_join("location_id"@, int_str(x1 as int))],
        launch_entries((LaunchParamsView { pad_id: Some(x1), ..LaunchParamsView::empty() })) == seq![eq_join("pad_id"@, int_str(x1 as int))],
        launch_entries((LaunchParamsView { provider_id: Some(x1), ..LaunchParamsView::empty() })) == seq![eq_join("provider_id"@, int_str(x1 as int))],
        launch_entries((LaunchParamsView { tag_id: Some(x1), ..LaunchParamsView::empty() })) == seq![eq_join("tag_id"@, int_str(x1 as int))],
        launch_entries((LaunchParamsView { vehicle_id: Some(x1), ..LaunchParamsView::empty() })) == seq![eq_join("vehicle_id"@, int_str(x1 as int))],
        launch_entries((LaunchParamsView { common_params: CommonParamsView { state_abbr: Some(s1), ..LaunchParamsView::empty().common_params }, ..LaunchParamsView::empty() })) == seq![eq_join("state_abbr"@, s1)],
        launch_entries((LaunchParamsView { common_params: CommonParamsView { country_code: Some(s1), ..LaunchParamsView::empty().common_params }, ..LaunchParamsView::empty() })) == seq![eq_join("country_code"@, s1)],
        launch_entries((LaunchParamsView { search: Some(s1), ..LaunchParamsView::empty() })) == seq![eq_join("search"@, s1)],
        launch_entries((LaunchParamsView { common_params: CommonParamsView { slug: Some(s1), ..LaunchParamsView::empty().common_params }, ..LaunchParamsView::empty() })) == seq![eq_join("slug"@, s1)],
        launch_entries((LaunchParamsView { limit: Some(x1), ..LaunchParamsView::empty() })) == seq![eq_join("limit"@, int_str(x1 as int))],
        launch_entries((LaunchParamsView { direction: Some(dir1), ..LaunchParamsView::empty() })) == seq![eq_join("direction"@, direction_str(dir1))],
        launch_entries((LaunchParamsView { common_params: CommonParamsView { page: Some(x1), ..LaunchParamsView::empty().common_params }, ..LaunchParamsView::empty() })) == seq![eq_join("page"@, int_str(x1 as int))],
{
    assert(launch_entries((LaunchParamsView { common_params: CommonParamsView { id: Some(x1), ..LaunchParamsView::empty().common_params }, ..LaunchParamsView::empty() })) =~= seq![eq_join("id"@, int_str(x1 as int))]);
    assert(launch_entries((LaunchParamsView { cospar_id: Some(s1), ..LaunchParamsView::empty() })) =~= seq![eq_join("cospar_id"@, s1)]);
    assert(launch_entries((LaunchParamsView { after_date: Some(d1), ..LaunchParamsView::empty() })) =~= seq![eq_join("after_date"@, date_str(d1))]);
    assert(launch_entries((LaunchParamsView { before_date: Some(d1), ..LaunchParamsView::empty() })) =~= seq![eq_join("before_date"@, date_str(d1))]);
    assert(launch_entries((LaunchParamsView { modified_since: Some(dt1), ..LaunchParamsView::empty() })) =~= seq![eq_join("modified_since"@, date_str(dt1.date) + seq!['T'] + time_str(dt1.time) + seq!['Z'])]);
    assert(launch_entries((LaunchParamsView { location_id: Some(x1), ..LaunchParamsView::empty() })) =~= seq![eq_join("location_id"@, int_str(x1 as int))]);
    assert(launch_entries((LaunchParamsView { pad_id: Some(x1), ..LaunchParamsView::empty() })) =~= seq![eq_join("pad_id"@, int_str(x1 as int))]);
    assert(launch_entries((LaunchParamsView { provider_id: Some(x1), ..LaunchParamsView::empty() })) =~= seq![eq_join("provider_id"@, int_str(x1 as int))]);
    assert(launch_entries((LaunchParamsView { tag_id: Some(x1), ..LaunchParamsView::empty() })) =~= seq![eq_join("tag_id"@, int_str(x1 as int))]);
    assert(launch_entries((LaunchParamsView { vehicle_id: Some(x1), ..LaunchParamsView::empty() })) =~= seq![eq_join("vehicle_id"@, int_str(x1 as int))]);
    assert(launch_entries((LaunchParamsView { common_params: CommonParamsView { state_abbr: Some(s1), ..LaunchParamsView::empty().common_params }, ..LaunchParamsView::empty() })) =~= seq![eq_join("state_abbr"@, s1)]);
    assert(launch_entries((LaunchParamsView { common_params: CommonParamsView { country_code: Some(s1), ..LaunchParamsView::empty().common_params }, ..LaunchParamsView::empty() })) =~= seq![eq_join("country_code"@, s1)]);
    assert(launch_entries((LaunchParamsView { search: Some(s1), ..LaunchParamsView::empty() })) =~= seq![eq_join("search"@, s1)]);
    assert(launch_entries((LaunchParamsView { common_params: CommonParamsView { slug: Some(s1), ..LaunchParamsView::empty().common_params }, ..LaunchParamsView::empty() })) =~= seq![eq_join("slug"@, s1)]);
    assert(launch_entries((LaunchParamsView { limit: Some(x1), ..LaunchParamsView::empty() })) =~= seq![eq_join("limit"@, int_str(x1 as int))]);
    assert(launch_entries((LaunchParamsView { direction: Some(dir1), ..LaunchParamsView::empty() })) =~= seq![eq_join("direction"@, direction_str(dir1))]);
    assert(launch_entries((LaunchParamsView { common_params: CommonParamsView { page: Some(x1), ..LaunchParamsView::empty().common_params }, ..LaunchParamsView::empty() })) =~= seq![eq_join("page"@, int_str(x1 as int))]);
}

/// Setting exactly one field on a fresh location builder and building
/// yields exactly one entry, that field under its own name with its rendered
/// value.
pub proof fn lemma_location_single_param(x1: i64, s1: Seq<char>)
    ensures
        location_entries((LocationParamsView { common_params: CommonParamsView { id: Some(x1), ..LocationParamsView::empty().common_params }, ..LocationParamsView::empty() })) == seq![eq_join("id"@, int_str(x1 as int))],
        location_entries((LocationParamsView { common_params: CommonParamsView { name: Some(s1), ..LocationParamsView::empty().common_params }, ..LocationParamsView::empty() })) == seq![eq_join("name"@, s1)],
        location_entries((LocationParamsView { common_params: CommonParamsView { state_abbr: Some(s1), ..LocationParamsView::empty().common_params }, ..LocationParamsView::empty() })) == seq![eq_join("state_abbr"@, s1)],
        location_entries((LocationParamsView { common_params: CommonParamsView { country_code: Some(s1), ..LocationParamsView::empty().common_params }, ..LocationParamsView::empty() })) == seq![eq_join("country_code"@, s1)],
        location_entries((LocationParamsView { common_params: CommonParamsView { page: Some(x1), ..LocationParamsView::empty().common_params }, ..LocationParamsView::empty() })) == seq![eq_join("page"@, int_str(x1 as int))],
{
    assert(location_entries((LocationParamsView { common_params: CommonParamsView { id: Some(x1), ..LocationParamsView::empty().common_params }, ..LocationParamsView::empty() })) =~= seq![eq_join("id"@, int_str(x1 as int))]);
    assert(location_entries((LocationParamsView { common_params: CommonParamsView { name: Some(s1), ..LocationParamsView::empty().common_params }, ..LocationParamsView::empty() })) =~= seq![eq_join("name"@, s1)]);
    assert(location_entries((LocationParamsView { common_params: CommonParamsView { state_abbr: Some(s1), ..LocationParamsView::empty().common_params }, ..LocationParamsView::empty() })) =~= seq![eq_join("state_abbr"@, s1)]);
    assert(location_entries((LocationParamsView { common_params: CommonParamsView { country_code: Some(s1), ..LocationParamsView::empty().common_params }, ..LocationParamsView::empty() })) =~= seq![eq_join("country_code"@, s1)]);
    assert(location_entries((LocationParamsView { common_params: CommonParamsView { page: Some(x1), ..LocationParamsView::empty().common_params }, ..LocationParamsView::empty() })) =~= seq![eq_join("page"@, int_str(x1 as int))]);
}

/// Setting exactly one field on a fresh mission builder and building
/// yields exactly one entry, that field under its own name with its rendered
/// value.
pub proof fn lemma_mission_single_param(x1: i64, s1: Seq<char>)
    ensures
        mission_entries((MissionParamsView { common_params: CommonParamsView { id: Some(x1), ..MissionParamsView::empty().common_params }, ..MissionParamsView::empty() })) == seq![eq_join("id"@, int_str(x1 as int))],
        mission_entries((MissionParamsView { common_params: CommonParamsView { name: Some(s1), ..MissionParamsView::empty().common_params }, ..MissionParamsView::empty() })) == seq![eq_join("name"@, s1)],
        mission_entries((MissionParamsView { common_params: CommonParamsView { page: Some(x1), ..MissionParamsView::empty().common_params }, ..MissionParamsView::empty() })) == seq![eq_join("page"@, int_str(x1 as int))],
{
    assert(mission_entries((MissionParamsView { common_params: CommonParamsView { id: Some(x1), ..MissionParamsView::empty().common_params }, ..MissionParamsView::empty() })) =~= seq![eq_join("id"@, int_str(x1 as int))]);
    assert(mission_entries((MissionParamsView { common_params: CommonParamsView { name: Some(s1), ..MissionParamsView::empty().common_params }, ..MissionParamsView::empty() })) =~= seq![eq_join("name"@, s1)]);
    assert(mission_entries((MissionParamsView { common_params: CommonParamsView { page: Some(x1), ..MissionParamsView::empty().common_params }, ..MissionParamsView::empty() })) =~= seq![eq_join("page"@, int_str(x1 as int))]);
}

/// Setting exactly one field on a fresh pad builder and building
/// yields exactly one entry, that field under its own name with its rendered
/// value.
pub proof fn lemma_pad_single_param(x1: i64, s1: Seq<char>)
    ensures
        pad_entries((PadParamsView { common_params: CommonParamsView { id: Some(x1), ..PadParamsView::empty().common_params }, ..PadParamsView::empty() })) == seq![eq_join("id"@, int_str(x1 as int))],
        pad_entries((PadParamsView { common_params: CommonParamsView { name: Some(s1), ..PadParamsView::empty().common_params }, ..PadParamsView::empty() })) == seq![eq_join("name"@, s1)],
        pad_entries((PadParamsView { common_params: CommonParamsView { state_abbr: Some(s1), ..PadParamsView::empty().common_params }, ..PadParamsView::empty() })) == seq![eq_join("state_abbr"@, s1)],
        pad_entries((PadParamsView { common_params: CommonParamsView { country_code: Some(s1), ..PadParamsView::empty().common_params }, ..PadParamsView::empty() })) == seq![eq_join("country_code"@, s1)],
        pad_entries((PadParamsView { common_params: CommonParamsView { page: Some(x1), ..PadParamsView::empty().common_params }, ..PadParamsView::empty() })) == seq![eq_join("page"@, int_str(x1 as int))],
{
    assert(pad_entries((PadParamsView { common_params: CommonParamsView { id: Some(x1), ..PadParamsView::empty().common_params }, ..PadParamsView::empty() })) =~= seq![eq_join("id"@, int_str(x1 as int))]);
    assert(pad_entries((PadParamsView { common_params: CommonParamsView { name: Some(s1), ..PadParamsView::empty().common_params }, ..PadParamsView::empty() })) =~= seq![eq_join("name"@, s1)]);
    assert(pad_entries((PadParamsView { common_params: CommonParamsView { state_abbr: Some(s1), ..PadParamsView::empty().common_params }, ..PadParamsView::empty() })) =~= seq![eq_join("state_abbr"@, s1)]);
    assert(pad_entries((PadParamsView { common_params: CommonParamsView { country_code: Some(s1), ..PadParamsView::empty().common_params }, ..PadParamsView::empty() })) =~= seq![eq_join("country_code"@, s1)]);
    assert(pad_entries((PadParamsView { common_params: CommonParamsView { page: Some(x1), ..PadParamsView::empty().common_params }, ..PadParamsView::empty() })) =~= seq![eq_join("page"@, int_str(x1 as int))]);
}

/// Setting exactly one field on a fresh tag builder and building
/// yields exactly one entry, that field under its own name with its rendered
/// value.
pub proof fn lemma_tag_single_param(x1: i64, s1: Seq<char>)
    ensures
        tag_entries((TagParamsView { common_params: CommonParamsView { id: Some(x1), ..TagParamsView::empty().common_params }, ..TagParamsView::empty() })) == seq![eq_join("id"@, int_str(x1 as int))],
        tag_entries((TagParamsView { text: Some(s1), ..TagParamsView::empty() })) == seq![eq_join("text"@, s1)],
        tag_entries((TagParamsView { common_params: CommonParamsView { page: Some(x1), ..TagParamsView::empty().common_params }, ..TagParamsView::empty() })) == seq![eq_join("page"@, int_str(x1 as int))],
{
    assert(tag_entries((TagParamsView { common_params: CommonParamsView { id: Some(x1), ..TagParamsView::empty().common_params }, ..TagParamsView::empty() })) =~= seq![eq_join("id"@, int_str(x1 as int))]);
    assert(tag_entries((TagParamsView { text: Some(s1), ..TagParamsView::empty() })) =~= seq![eq_join("text"@, s1)]);
    assert(tag_entries((TagParamsView { common_params: CommonParamsView { page: Some(x1), ..TagParamsView::empty().common_params }, ..TagParamsView::empty() })) =~= seq![eq_join("page"@, int_str(x1 as int))]);
}

/// Setting exactly one field on a fresh vehicle builder and building
/// yields exactly one entry, that field under its own name with its rendered
/// value.
pub proof fn lemma_vehicle_single_param(x1: i64, s1: Seq<char>)
    ensures
        vehicle_entries((VehicleParamsView { common_params: CommonParamsView { id: Some(x1), ..VehicleParamsView::empty().common_params }, ..VehicleParamsView::empty() })) == seq![eq_join("id"@, int_str(x1 as int))],
        vehicle_entries((VehicleParamsView { common_params: CommonParamsView { name: Some(s1), ..VehicleParamsView::empty().common_params }, ..VehicleParamsView::empty() })) == seq![eq_join("name"@, s1)],
        vehicle_entries((VehicleParamsView { common_params: CommonParamsView { page: Some(x1), ..VehicleParamsView::empty().common_params }, ..VehicleParamsView::empty() })) == seq![eq_join("page"@, int_str(x1 as int))],
{
    assert(vehicle_entries((VehicleParamsView { common_params: CommonParamsView { id: Some(x1), ..VehicleParamsView::empty().common_params }, ..VehicleParamsView::empty() })) =~= seq![eq_join("id"@, int_str(x1 as int))]);
    assert(vehicle_entries((VehicleParamsView { common_params: CommonParamsView { name: Some(s1), ..VehicleParamsView::empty().common_params }, ..VehicleParamsView::empty() })) =~= seq![eq_join("name"@, s1)]);
    assert(vehicle_entries((VehicleParamsView { common_params: CommonParamsView { page: Some(x1), ..VehicleParamsView::empty().common_params }, ..VehicleParamsView::empty() })) =~= seq![eq_join("page"@, int_str(x1 as int))]);
}

/// Setting the same field twice keeps only the last value: the builder state
/// after two writes to one field equals the state after the second write
/// alone.
pub proof fn lemma_company_last_write_wins(v: CompanyParamsView, x1: i64, x2: i64, s1: Seq<char>, s2: Seq<char>, b1: bool, b2: bool)
    ensures
        (CompanyParamsView { common_params: CommonParamsView { id: Some(x2), ..(CompanyParamsView { common_params: CommonParamsView { id: Some(x1), ..v.common_params }, ..v }).common_params }, ..(CompanyParamsView { common_params: CommonParamsView { id: Some(x1), ..v.common_params }, ..v }) }) == (CompanyParamsView { common_params: CommonParamsView { id: Some(x2), ..v.common_params }, ..v }),
        (CompanyParamsView { common_params: CommonParamsView { name: Some(s2), ..(CompanyParamsView { common_params: CommonParamsView { name: Some(s1), ..v.common_params }, ..v }).common_params }, ..(CompanyParamsView { common_params: CommonParamsView { name: Some(s1), ..v.common_params }, ..v }) }) == (CompanyParamsView { common_params: CommonParamsView { name: Some(s2), ..v.common_params }, ..v }),
        (CompanyParamsView { common_params: CommonParamsView { country_code: Some(s2), ..(CompanyParamsView { common_params: CommonParamsView { country_code: Some(s1), ..v.common_params }, ..v }).common_params }, ..(CompanyParamsView { common_params: CommonParamsView { country_code: Some(s1), ..v.common_params }, ..v }) }) == (CompanyParamsView { common_params: CommonParamsView { country_code: Some(s2), ..v.common_params }, ..v }),
        (CompanyParamsView { common_params: CommonParamsView { slug: Some(s2), ..(CompanyParamsView { common_params: CommonParamsView { slug: Some(s1), ..v.common_params }, ..v }).common_params }, ..(CompanyParamsView { common_params: CommonParamsView { slug: Some(s1), ..v.common_params }, ..v }) }) == (CompanyParamsView { common_params: CommonParamsView { slug: Some(s2), ..v.common_params }, ..v }),
        (CompanyParamsView { inactive: Some(b2), ..(CompanyParamsView { inactive: Some(b1), ..v }) }) == (CompanyParamsView { inactive: Some(b2), ..v }),
        (CompanyParamsView { common_params: CommonParamsView { page: Some(x2), ..(CompanyParamsView { common_params: CommonParamsView { page: Some(x1), ..v.common_params }, ..v }).common_params }, ..(CompanyParamsView { common_params: CommonParamsView { page: Some(x1), ..v.common_params }, ..v }) }) == (CompanyParamsView { common_params: CommonParamsView { page: Some(x2), ..v.common_params }, ..v }),
{
}

/// Setting the same field twice keeps only the last value: the builder state
/// after two writes to one field equals the state after the second write
/// alone.
pub proof fn lemma_launch_last_write_wins(v: LaunchParamsView, x1: i64, x2: i64, s1: Seq<char>, s2: Seq<char>, d1: Date, d2: Date, dt1: DateTime, dt2: DateTime, dir1: Direction, dir2: Direction)
    ensures
        (LaunchParamsView { common_params: CommonParamsView { id: Some(x2), ..(LaunchParamsView { common_params: CommonParamsView { id: Some(x1), ..v.common_params }, ..v }).common_params }, ..(LaunchParamsView { common_params: CommonParamsView { id: Some(x1), ..v.common_params }, ..v }) }) == (LaunchParamsView { common_params: CommonParamsView { id: Some(x2), ..v.common_params }, ..v }),
        (LaunchParamsView { cospar_id: Some(s2), ..(LaunchParamsView { cospar_id: Some(s1), ..v }) }) == (LaunchParamsView { cospar_id: Some(s2), ..v }),
        (LaunchParamsView { after_date: Some(d2), ..(LaunchParamsView { after_date: Some(d1), ..v }) }) == (LaunchParamsView { after_date: Some(d2), ..v }),
        (LaunchParamsView { before_date: Some(d2), ..(LaunchParamsView { before_date: Some(d1), ..v }) }) == (LaunchParamsView { before_date: Some(d2), ..v }),
        (LaunchParamsView { modified_since: Some(dt2), ..(LaunchParamsView { modified_since: Some(dt1), ..v }) }) == (LaunchParamsView { modified_since: Some(dt2), ..v }),
        (LaunchParamsView { location_id: Some(x2), ..(LaunchParamsView { location_id: Some(x1), ..v }) }) == (LaunchParamsView { location_id: Some(x2), ..v }),
        (LaunchParamsView { pad_id: Some(x2), ..(LaunchParamsView { pad_id: Some(x1), ..v }) }) == (LaunchParamsView { pad_id: Some(x2), ..v }),
        (LaunchParamsView { provider_id: Some(x2), ..(LaunchParamsView { provider_id: Some(x1), ..v }) }) == (LaunchParamsView { provider_id: Some(x2), ..v }),
        (LaunchParamsView { tag_id: Some(x2), ..(LaunchParamsView { tag_id: Some(x1), ..v }) }) == (LaunchParamsView { tag_id: Some(x2), ..v }),
        (LaunchParamsView { vehicle_id: Some(x2), ..(LaunchParamsView { vehicle_id: Some(x1), ..v }) }) == (LaunchParamsView { vehicle_id: Some(x2), ..v }),
        (LaunchParamsView { common_params: CommonParamsView { state_abbr: Some(s2), ..(LaunchParamsView { common_params: CommonParamsView { state_abbr: Some(s1), ..v.common_params }, ..v }).common_params }, ..(LaunchParamsView { common_params: CommonParamsView { state_abbr: Some(s1), ..v.common_params }, ..v }) }) == (LaunchParamsView { common_params: CommonParamsView { state_abbr: Some(s2), ..v.common_params }, ..v }),
        (LaunchParamsView { common_params: CommonParamsView { country_code: Some(s2), ..(LaunchParamsView { common_params: CommonParamsView { country_code: Some(s1), ..v.common_params }, ..v }).common_params }, ..(LaunchParamsView { common_params: CommonParamsView { country_code: Some(s1), ..v.common_params }, ..v }) }) == (LaunchParamsView { common_params: CommonParamsView { country_code: Some(s2), ..v.common_params }, ..v }),
        (LaunchParamsView { search: Some(s2), ..(LaunchParamsView { search: Some(s1), ..v }) }) == (LaunchParamsView { search: Some(s2), ..v }),
        (LaunchParamsView { common_params: CommonParamsView { slug: Some(s2), ..(LaunchParamsView { common_params: CommonParamsView { slug: Some(s1), ..v.common_params }, ..v }).common_params }, ..(LaunchParamsView { common_params: CommonParamsView { slug: Some(s1), ..v.common_params }, ..v }) }) == (LaunchParamsView { common_params: CommonParamsView { slug: Some(s2), ..v.common_params }, ..v }),
        (LaunchParamsView { limit: Some(x2), ..(LaunchParamsView { limit: Some(x1), ..v }) }) == (LaunchParamsView { limit: Some(x2), ..v }),
        (LaunchParamsView { direction: Some(dir2), ..(LaunchParamsView { direction: Some(dir1), ..v }) }) == (LaunchParamsView { direction: Some(dir2), ..v }),
        (LaunchParamsView { common_params: CommonParamsView { page: Some(x2), ..(LaunchParamsView { common_params: CommonParamsView { page: Some(x1), ..v.common_params }, ..v }).common_params }, ..(LaunchParamsView { common_params: CommonParamsView { page: Some(x1), ..v.common_params }, ..v }) }) == (LaunchParamsView { common_params: CommonParamsView { page: Some(x2), ..v.common_params }, ..v }),
{
}

/// Setting the same field twice keeps only the last value: the builder state
/// after two writes to one field equals the state after the second write
/// alone.
pub proof fn lemma_location_last_write_wins(v: LocationParamsView, x1: i64, x2: i64, s1: Seq<char>, s2: Seq<char>)
    ensures
        (LocationParamsView { common_params: CommonParamsView { id: Some(x2), ..(LocationParamsView { common_params: CommonParamsView { id: Some(x1), ..v.common_params }, ..v }).common_params }, ..(LocationParamsView { common_params: CommonParamsView { id: Some(x1), ..v.common_params }, ..v }) }) == (LocationParamsView { common_params: CommonParamsView { id: Some(x2), ..v.common_params }, ..v }),
        (LocationParamsView { common_params: CommonParamsView { name: Some(s2), ..(LocationParamsView { common_params: CommonParamsView { name: Some(s1), ..v.common_params }, ..v }).common_params }, ..(LocationParamsView { common_params: CommonParamsView { name: Some(s1), ..v.common_params }, ..v }) }) == (LocationParamsView { common_params: CommonParamsView { name: Some(s2), ..v.common_params }, ..v }),
        (LocationParamsView { common_params: CommonParamsView { state_abbr: Some(s2), ..(LocationParamsView { common_params: CommonParamsView { state_abbr: Some(s1), ..v.common_params }, ..v }).common_params }, ..(LocationParamsView { common_params: CommonParamsView { state_abbr: Some(s1), ..v.common_params }, ..v }) }) == (LocationParamsView { common_params: CommonParamsView { state_abbr: Some(s2), ..v.common_params }, ..v }),
        (LocationParamsView { common_params: CommonParamsView { country_code: Some(s2), ..(LocationParamsView { common_params: CommonParamsView { country_code: Some(s1), ..v.common_params }, ..v }).common_params }, ..(LocationParamsView { common_params: CommonParamsView { country_code: Some(s1), ..v.common_params }, ..v }) }) == (LocationParamsView { common_params: CommonParamsView { country_code: Some(s2), ..v.common_params }, ..v }),
        (LocationParamsView { common_params: CommonParamsView { page: Some(x2), ..(LocationParamsView { common_params: CommonParamsView { page: Some(x1), ..v.common_params }, ..v }).common_params }, ..(LocationParamsView { common_params: CommonParamsView { page: Some(x1), ..v.common_params }, ..v }) }) == (LocationParamsView { common_params: CommonParamsView { page: Some(x2), ..v.common_params }, ..v }),
{
}

/// Setting the same field twice keeps only the last value: the builder state
/// after two writes to one field equals the state after the second write
/// alone.
pub proof fn lemma_mission_last_write_wins(v: MissionParamsView, x1: i64, x2: i64, s1: Seq<char>, s2: Seq<char>)
    ensures
        (MissionParamsView { common_params: CommonParamsView { id: Some(x2), ..(MissionParamsView { common_params: CommonParamsView { id: Some(x1), ..v.common_params }, ..v }).common_params }, ..(MissionParamsView { common_params: CommonParamsView { id: Some(x1), ..v.common_params }, ..v }) }) == (MissionParamsView { common_params: CommonParamsView { id: Some(x2), ..v.common_params }, ..v }),
        (MissionParamsView { common_params: CommonParamsView { name: Some(s2), ..(MissionParamsView { common_params: CommonParamsView { name: Some(s1), ..v.common_params }, ..v }).common_params }, ..(MissionParamsView { common_params: CommonParamsView { name: Some(s1), ..v.common_params }, ..v }) }) == (MissionParamsView { common_params: CommonParamsView { name: Some(s2), ..v.common_params }, ..v }),
        (MissionParamsView { common_params: CommonParamsView { page: Some(x2), ..(MissionParamsView { common_params: CommonParamsView { page: Some(x1), ..v.common_params }, ..v }).common_params }, ..(MissionParamsView { common_params: CommonParamsView { page: Some(x1), ..v.common_params }, ..v }) }) == (MissionParamsView { common_params: CommonParamsView { page: Some(x2), ..v.common_params }, ..v }),
{
}

/// Setting the same field twice keeps only the last value: the builder state
/// after two writes to one field equals the state after the second write
/// alone.
pub proof fn lemma_pad_last_write_wins(v: PadParamsView, x1: i64, x2: i64, s1: Seq<char>, s2: Seq<char>)
    ensures
        (PadParamsView { common_params: CommonParamsView { id: Some(x2), ..(PadParamsView { common_params: CommonParamsView { id: Some(x1), ..v.common_params }, ..v }).common_params }, ..(PadParamsView { common_params: CommonParamsView { id: Some(x1), ..v.common_params }, ..v }) }) == (PadParamsView { common_params: CommonParamsView { id: Some(x2), ..v.common_params }, ..v }),
        (PadParamsView { common_params: CommonParamsView { name: Some(s2), ..(PadParamsView { common_params: CommonParamsView { name: Some(s1), ..v.common_params }, ..v }).common_params }, ..(PadParamsView { common_params: CommonParamsView { name: Some(s1), ..v.common_params }, ..v }) }) == (PadParamsView { common_params: CommonParamsView { name: Some(s2), ..v.common_params }, ..v }),
        (PadParamsView { common_params: CommonParamsView { state_abbr: Some(s2), ..(PadParamsView { common_params: CommonParamsView { state_abbr: Some(s1), ..v.common_params }, ..v }).common_params }, ..(PadParamsView { common_params: CommonParamsView { state_abbr: Some(s1), ..v.common_params }, ..v }) }) == (PadParamsView { common_params: CommonParamsView { state_abbr: Some(s2), ..v.common_params }, ..v }),
        (PadParamsView { common_params: CommonParamsView { country_code: Some(s2), ..(PadParamsView { common_params: CommonParamsView { country_code: Some(s1), ..v.common_params }, ..v }).common_params }, ..(PadParamsView { common_params: CommonParamsView { country_code: Some(s1), ..v.common_params }, ..v }) }) == (PadParamsView { common_params: CommonParamsView { country_code: Some(s2), ..v.common_params }, ..v }),
        (PadParamsView { common_params: CommonParamsView { page: Some(x2), ..(PadParamsView { common_params: CommonParamsView { page: Some(x1), ..v.common_params }, ..v }).common_params }, ..(PadParamsView { common_params: CommonParamsView { page: Some(x1), ..v.common_params }, ..v }) }) == (PadParamsView { common_params: CommonParamsView { page: Some(x2), ..v.common_params }, ..v }),
{
}

/// Setting the same field twice keeps only the last value: the builder state
/// after two writes to one field equals the state after the second write
/// alone.
pub proof fn lemma_tag_last_write_wins(v: TagParamsView, x1: i64, x2: i64, s1: Seq<char>, s2: Seq<char>)
    ensures
        (TagParamsView { common_params: CommonParamsView { id: Some(x2), ..(TagParamsView { common_params: CommonParamsView { id: Some(x1), ..v.common_params }, ..v }).common_params }, ..(TagParamsView { common_params: CommonParamsView { id: Some(x1), ..v.common_params }, ..v }) }) == (TagParamsView { common_params: CommonParamsView { id: Some(x2), ..v.common_params }, ..v }),
        (TagParamsView { text: Some(s2), ..(TagParamsView { text: Some(s1), ..v }) }) == (TagParamsView { text: Some(s2), ..v }),
        (TagParamsView { common_params: CommonParamsView { page: Some(x2), ..(TagParamsView { common_params: CommonParamsView { page: Some(x1), ..v.common_params }, ..v }).common_params }, ..(TagParamsView { common_params: CommonParamsView { page: Some(x1), ..v.common_params }, ..v }) }) == (TagParamsView { common_params: CommonParamsView { page: Some(x2), ..v.common_params }, ..v }),
{
}

/// Setting the same field twice keeps only the last value: the builder state
/// after two writes to one field equals the state after the second write
/// alone.
pub proof fn lemma_vehicle_last_write_wins(v: VehicleParamsView, x1: i64, x2: i64, s1: Seq<char>, s2: Seq<char>)
    ensures
        (VehicleParamsView { common_params: CommonParamsView { id: Some(x2), ..(VehicleParamsView { common_params: CommonParamsView { id: Some(x1), ..v.common_params }, ..v }).common_params }, ..(VehicleParamsView { common_params: CommonParamsView { id: Some(x1), ..v.common_params }, ..v }) }) == (VehicleParamsView { common_params: CommonParamsView { id: Some(x2), ..v.common_params }, ..v }),
        (VehicleParamsView { common_params: CommonParamsView { name: Some(s2), ..(VehicleParamsView { common_params: CommonParamsView { name: Some(s1), ..v.common_params }, ..v }).common_params }, ..(VehicleParamsView { common_params: CommonParamsView { name: Some(s1), ..v.common_params }, ..v }) }) == (VehicleParamsView { common_params: CommonParamsView { name: Some(s2), ..v.common_params }, ..v }),
        (VehicleParamsView { common_params: CommonParamsView { page: Some(x2), ..(VehicleParamsView { common_params: CommonParamsView { page: Some(x1), ..v.common_params }, ..v }).common_params }, ..(VehicleParamsView { common_params: CommonParamsView { page: Some(x1), ..v.common_params }, ..v }) }) == (VehicleParamsView { common_params: CommonParamsView { page: Some(x2), ..v.common_params }, ..v }),
{
}

} // verus!
