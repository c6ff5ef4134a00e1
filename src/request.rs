//! Parameters of the API's requests, and the query fields they stand for.

use vstd::prelude::*;

use crate::datetime::{date_text, date_to_str, datetime_text, datetime_to_str, Date, DateTime};
use crate::enums::{AccountSortBy, MeterType, SiteSortBy, SiteStatus, SortOrder, SystemUnits, TimeUnit};
use crate::query::{
    comma_joined, field, fields_appear_once, is_form_plain_text, lemma_plain_value_text, value_text, keys_distinct, lemma_fields_appear_once, present_pairs,
    present_pairs_of, single, FieldView, QueryField, QueryPair,
};
use crate::text::{decimal, decimal_text};

verus! {

/// The wire tokens of a list of site statuses.
pub open spec fn site_status_tokens(l: Seq<SiteStatus>) -> Seq<Seq<char>> {
    l.map_values(|x: SiteStatus| x.spec_token())
}

/// The wire tokens of a list of meter types.
pub open spec fn meter_type_tokens(l: Seq<MeterType>) -> Seq<Seq<char>> {
    l.map_values(|x: MeterType| x.spec_token())
}

/// The texts of a list of strings.
pub open spec fn texts(l: Seq<String>) -> Seq<Seq<char>> {
    l.map_values(|x: String| x@)
}

proof fn lemma_site_status_token_plain(v: SiteStatus)
    ensures
        is_form_plain_text(v.spec_token()),
{
    match v {
        SiteStatus::Active => {
            reveal_strlit("Active");
            assert("Active"@ =~= seq!['A', 'c', 't', 'i', 'v', 'e']);
        },
        SiteStatus::Pending => {
            reveal_strlit("Pending");
            assert("Pending"@ =~= seq!['P', 'e', 'n', 'd', 'i', 'n', 'g']);
        },
        SiteStatus::Disabled => {
            reveal_strlit("Disabled");
            assert("Disabled"@ =~= seq!['D', 'i', 's', 'a', 'b', 'l', 'e', 'd']);
        },
        SiteStatus::All => {
            reveal_strlit("All");
            assert("All"@ =~= seq!['A', 'l', 'l']);
        },
    }
}

/// A list of site statuses appears in a query string as its wire tokens joined by
/// literal commas: no token and no comma is encoded, and nothing brackets the list.
pub proof fn lemma_site_status_list_text(l: Seq<SiteStatus>)
    ensures
        value_text(site_status_tokens(l)) == comma_joined(site_status_tokens(l)),
{
    assert forall|i: int| 0 <= i < l.len() implies is_form_plain_text(#[trigger] site_status_tokens(l)[i]) by {
        lemma_site_status_token_plain(l[i]);
    }
    lemma_plain_value_text(site_status_tokens(l));
}

proof fn lemma_meter_type_token_plain(v: MeterType)
    ensures
        is_form_plain_text(v.spec_token()),
{
    match v {
        MeterType::Production => {
            reveal_strlit("Production");
            assert("Production"@ =~= seq!['P', 'r', 'o', 'd', 'u', 'c', 't', 'i', 'o', 'n']);
        },
        MeterType::Consumption => {
            reveal_strlit("Consumption");
            assert("Consumption"@ =~= seq!['C', 'o', 'n', 's', 'u', 'm', 'p', 't', 'i', 'o', 'n']);
        },
        MeterType::SelfConsumption => {
            reveal_strlit("SelfConsumption");
            assert("SelfConsumption"@ =~= seq!['S', 'e', 'l', 'f', 'C', 'o', 'n', 's', 'u', 'm', 'p', 't', 'i', 'o', 'n']);
        },
        MeterType::FeedIn => {
            reveal_strlit("FeedIn");
            assert("FeedIn"@ =~= seq!['F', 'e', 'e', 'd', 'I', 'n']);
        },
        MeterType::Purchased => {
            reveal_strlit("Purchased");
            assert("Purchased"@ =~= seq!['P', 'u', 'r', 'c', 'h', 'a', 's', 'e', 'd']);
        },
    }
}

/// A list of meter types appears in a query string as its wire tokens joined by
/// literal commas: no token and no comma is encoded, and nothing brackets the list.
pub proof fn lemma_meter_type_list_text(l: Seq<MeterType>)
    ensures
        value_text(meter_type_tokens(l)) == comma_joined(meter_type_tokens(l)),
{
    assert forall|i: int| 0 <= i < l.len() implies is_form_plain_text(#[trigger] meter_type_tokens(l)[i]) by {
        lemma_meter_type_token_plain(l[i]);
    }
    lemma_plain_value_text(meter_type_tokens(l));
}

/// The wire tokens of site statuses, as the parts of a list value.
pub fn site_status_parts(l: &[SiteStatus]) -> (r: Vec<String>)
    ensures
        r.deep_view() == site_status_tokens(l@),
{
    let mut v: Vec<String> = Vec::new();
    let mut i: usize = 0;
    while i < l.len()
        invariant
            i <= l@.len(),
            v.deep_view() == site_status_tokens(l@.take(i as int)),
        decreases l@.len() - i,
    {
        let ghost before = v.deep_view();
        v.push(String::from_str(l[i].token()));
        assert(v.deep_view() =~= before.push(l@[i as int].spec_token()));
        assert(site_status_tokens(l@.take(i + 1)) =~= site_status_tokens(l@.take(i as int)).push(
            l@[i as int].spec_token(),
        ));
        i = i + 1;
    }
    assert(l@.take(l@.len() as int) =~= l@);
    v
}

/// The wire tokens of meter types, as the parts of a list value.
pub fn meter_type_parts(l: &[MeterType]) -> (r: Vec<String>)
    ensures
        r.deep_view() == meter_type_tokens(l@),
{
    let mut v: Vec<String> = Vec::new();
    let mut i: usize = 0;
    while i < l.len()
        invariant
            i <= l@.len(),
            v.deep_view() == meter_type_tokens(l@.take(i as int)),
        decreases l@.len() - i,
    {
        let ghost before = v.deep_view();
        v.push(String::from_str(l[i].token()));
        assert(v.deep_view() =~= before.push(l@[i as int].spec_token()));
        assert(meter_type_tokens(l@.take(i + 1)) =~= meter_type_tokens(l@.take(i as int)).push(
            l@[i as int].spec_token(),
        ));
        i = i + 1;
    }
    assert(l@.take(l@.len() as int) =~= l@);
    v
}

/// Strings, as the parts of a list value.
pub fn text_parts(l: &[String]) -> (r: Vec<String>)
    ensures
        r.deep_view() == texts(l@),
{
    let mut v: Vec<String> = Vec::new();
    let mut i: usize = 0;
    while i < l.len()
        invariant
            i <= l@.len(),
            v.deep_view() == texts(l@.take(i as int)),
        decreases l@.len() - i,
    {
        let ghost before = v.deep_view();
        v.push(String::from_str(l[i].as_str()));
        assert(v.deep_view() =~= before.push(l@[i as int]@));
        assert(texts(l@.take(i + 1)) =~= texts(l@.take(i as int)).push(l@[i as int]@));
        i = i + 1;
    }
    assert(l@.take(l@.len() as int) =~= l@);
    v
}

/// Filter, paging and order of the site listing.
#[derive(Clone, Copy, Debug, Default)]
pub struct SitesList<'r> {
    /// The maximum number of sites returned by this call (at most 100; default 100).
    pub size: Option<u32>,
    /// The first site index to be returned in the results (default 0).
    pub start_index: Option<u32>,
    /// Search text: name, notes, address, city, zip code, full address or country.
    pub search_text: Option<&'r str>,
    /// A sorting option for this site list, based on one of its properties.
    pub sort_property: Option<SiteSortBy>,
    /// Sort order for the sort property (default `ASC`).
    pub sort_order: Option<SortOrder>,
    /// Select the sites to be included in the list by their status (default `Active,Pending`).
    pub status: Option<&'r [SiteStatus]>,
}

impl<'r> SitesList<'r> {
    /// Its fields, in order, with the wire form of their values.
    pub open spec fn spec_fields(&self) -> Seq<FieldView> {
        seq![
            ("size"@, match self.size {
                Some(n) => Some(seq![decimal_text(n as nat)]),
                None => None,
            }),
            ("startIndex"@, match self.start_index {
                Some(n) => Some(seq![decimal_text(n as nat)]),
                None => None,
            }),
            ("searchText"@, match self.search_text {
                Some(t) => Some(seq![t@]),
                None => None,
            }),
            ("sortProperty"@, match self.sort_property {
                Some(t) => Some(seq![t.spec_token()]),
                None => None,
            }),
            ("sortOrder"@, match self.sort_order {
                Some(t) => Some(seq![t.spec_token()]),
                None => None,
            }),
            ("status"@, match self.status {
                Some(l) => Some(site_status_tokens(l@)),
                None => None,
            }),
        ]
    }

    /// Its fields, in order, with the wire form of their values.
    pub fn query_fields(&self) -> (r: Vec<QueryField>)
        ensures
            r.deep_view() == self.spec_fields(),
    {
        let mut v: Vec<QueryField> = Vec::new();
        v.push(field("size", match self.size {
            Some(n) => Some(single(decimal(n as u64))),
            None => None,
        }));
        v.push(field("startIndex", match self.start_index {
            Some(n) => Some(single(decimal(n as u64))),
            None => None,
        }));
        v.push(field("searchText", match self.search_text {
            Some(t) => Some(single(String::from_str(t))),
            None => None,
        }));
        v.push(field("sortProperty", match self.sort_property {
            Some(t) => Some(single(String::from_str(t.token()))),
            None => None,
        }));
        v.push(field("sortOrder", match self.sort_order {
            Some(t) => Some(single(String::from_str(t.token()))),
            None => None,
        }));
        v.push(field("status", match self.status {
            Some(l) => Some(site_status_parts(l)),
            None => None,
        }));
        assert(v.deep_view() =~= self.spec_fields());
        v
    }

    /// The query pairs of its present fields, in order.
    pub fn query_pairs(&self) -> (r: Vec<QueryPair>)
        ensures
            r.deep_view() == present_pairs(self.spec_fields()),
    {
        present_pairs_of(self.query_fields())
    }
}

/// Each present field of a `SitesList` appears in its query exactly once, with its
/// value; an absent field never appears.
pub proof fn lemma_sites_list_fields_appear_once(p: SitesList)
    ensures
        fields_appear_once(p.spec_fields()),
{
    reveal_strlit("size");
    reveal_strlit("startIndex");
    reveal_strlit("searchText");
    reveal_strlit("sortProperty");
    reveal_strlit("sortOrder");
    reveal_strlit("status");
    assert("size"@.len() == 4);
    assert("startIndex"@.len() == 10);
    assert("startIndex"@[1] == 't');
    assert("searchText"@.len() == 10);
    assert("searchText"@[1] == 'e');
    assert("sortProperty"@.len() == 12);
    assert("sortOrder"@.len() == 9);
    assert("status"@.len() == 6);
    let fs = p.spec_fields();
    assert(keys_distinct(fs));
    lemma_fields_appear_once(fs);
}

/// Period and granularity of site energy measurements.
#[derive(Clone, Copy, Debug)]
pub struct SiteEnergy {
    /// The start date to return energy measurement
    pub start_date: Date,
    /// The end date return energy measurement
    pub end_date: Date,
    /// Aggregation granularity (default `DAY`).
    pub time_unit: Option<TimeUnit>,
}

impl SiteEnergy {
    /// Its dates are valid.
    pub open spec fn wf(&self) -> bool {
        self.start_date.wf() && self.end_date.wf()
    }

    /// Whether its dates are valid.
    pub fn is_valid(&self) -> (r: bool)
        ensures
            r == self.wf(),
    {
        self.start_date.is_valid() && self.end_date.is_valid()
    }

    /// Its fields, in order, with the wire form of their values.
    pub open spec fn spec_fields(&self) -> Seq<FieldView> {
        seq![
            ("startDate"@, Some(seq![date_text(self.start_date)])),
            ("endDate"@, Some(seq![date_text(self.end_date)])),
            ("timeUnit"@, match self.time_unit {
                Some(t) => Some(seq![t.spec_token()]),
                None => None,
            }),
        ]
    }

    /// Its fields, in order, with the wire form of their values.
    pub fn query_fields(&self) -> (r: Vec<QueryField>)
        requires
            self.wf(),
        ensures
            r.deep_view() == self.spec_fields(),
    {
        let mut v: Vec<QueryField> = Vec::new();
        v.push(field("startDate", Some(single(date_to_str(&self.start_date)))));
        v.push(field("endDate", Some(single(date_to_str(&self.end_date)))));
        v.push(field("timeUnit", match self.time_unit {
            Some(t) => Some(single(String::from_str(t.token()))),
            None => None,
        }));
        assert(v.deep_view() =~= self.spec_fields());
        v
    }

    /// The query pairs of its present fields, in order.
    pub fn query_pairs(&self) -> (r: Vec<QueryPair>)
        requires
            self.wf(),
        ensures
            r.deep_view() == present_pairs(self.spec_fields()),
    {
        present_pairs_of(self.query_fields())
    }
}

/// Each present field of a `SiteEnergy` appears in its query exactly once, with its
/// value; an absent field never appears.
pub proof fn lemma_site_energy_fields_appear_once(p: SiteEnergy)
    ensures
        fields_appear_once(p.spec_fields()),
{
    reveal_strlit("startDate");
    reveal_strlit("endDate");
    reveal_strlit("timeUnit");
    assert("startDate"@.len() == 9);
    assert("endDate"@.len() == 7);
    assert("timeUnit"@.len() == 8);
    let fs = p.spec_fields();
    assert(keys_distinct(fs));
    lemma_fields_appear_once(fs);
}

/// Period of a site's total energy.
#[derive(Clone, Copy, Debug)]
pub struct SiteTotalEnergy {
    /// The start date to calculate energy generation
    pub start_date: Date,
    /// The end date to calculate energy generation
    pub end_date: Date,
}

impl SiteTotalEnergy {
    /// Its dates are valid.
    pub open spec fn wf(&self) -> bool {
        self.start_date.wf() && self.end_date.wf()
    }

    /// Whether its dates are valid.
    pub fn is_valid(&self) -> (r: bool)
        ensures
            r == self.wf(),
    {
        self.start_date.is_valid() && self.end_date.is_valid()
    }

    /// Its fields, in order, with the wire form of their values.
    pub open spec fn spec_fields(&self) -> Seq<FieldView> {
        seq![
            ("startDate"@, Some(seq![date_text(self.start_date)])),
            ("endDate"@, Some(seq![date_text(self.end_date)])),
        ]
    }

    /// Its fields, in order, with the wire form of their values.
    pub fn query_fields(&self) -> (r: Vec<QueryField>)
        requires
            self.wf(),
        ensures
            r.deep_view() == self.spec_fields(),
    {
        let mut v: Vec<QueryField> = Vec::new();
        v.push(field("startDate", Some(single(date_to_str(&self.start_date)))));
        v.push(field("endDate", Some(single(date_to_str(&self.end_date)))));
        assert(v.deep_view() =~= self.spec_fields());
        v
    }

    /// The query pairs of its present fields, in order.
    pub fn query_pairs(&self) -> (r: Vec<QueryPair>)
        requires
            self.wf(),
        ensures
            r.deep_view() == present_pairs(self.spec_fields()),
    {
        present_pairs_of(self.query_fields())
    }
}

/// Each present field of a `SiteTotalEnergy` appears in its query exactly once, with its
/// value; an absent field never appears.
pub proof fn lemma_site_total_energy_fields_appear_once(p: SiteTotalEnergy)
    ensures
        fields_appear_once(p.spec_fields()),
{
    reveal_strlit("startDate");
    reveal_strlit("endDate");
    assert("startDate"@.len() == 9);
    assert("endDate"@.len() == 7);
    let fs = p.spec_fields();
    assert(keys_distinct(fs));
    lemma_fields_appear_once(fs);
}

/// A period given by its first and last moment.
#[derive(Clone, Copy, Debug)]
pub struct DateTimeRange {
    /// The start (date + time) to get power measurements
    pub start_time: DateTime,
    /// The end (date + time) to get power measurements
    pub end_time: DateTime,
}

impl DateTimeRange {
    /// Its dates are valid.
    pub open spec fn wf(&self) -> bool {
        self.start_time.wf() && self.end_time.wf()
    }

    /// Whether its dates are valid.
    pub fn is_valid(&self) -> (r: bool)
        ensures
            r == self.wf(),
    {
        self.start_time.is_valid() && self.end_time.is_valid()
    }

    /// Its fields, in order, with the wire form of their values.
    pub open spec fn spec_fields(&self) -> Seq<FieldView> {
        seq![
            ("startTime"@, Some(seq![datetime_text(self.start_time)])),
            ("endTime"@, Some(seq![datetime_text(self.end_time)])),
        ]
    }

    /// Its fields, in order, with the wire form of their values.
    pub fn query_fields(&self) -> (r: Vec<QueryField>)
        requires
            self.wf(),
        ensures
            r.deep_view() == self.spec_fields(),
    {
        let mut v: Vec<QueryField> = Vec::new();
        v.push(field("startTime", Some(single(datetime_to_str(&self.start_time)))));
        v.push(field("endTime", Some(single(datetime_to_str(&self.end_time)))));
        assert(v.deep_view() =~= self.spec_fields());
        v
    }

    /// The query pairs of its present fields, in order.
    pub fn query_pairs(&self) -> (r: Vec<QueryPair>)
        requires
            self.wf(),
        ensures
            r.deep_view() == present_pairs(self.spec_fields()),
    {
        present_pairs_of(self.query_fields())
    }
}

/// Each present field of a `DateTimeRange` appears in its query exactly once, with its
/// value; an absent field never appears.
pub proof fn lemma_date_time_range_fields_appear_once(p: DateTimeRange)
    ensures
        fields_appear_once(p.spec_fields()),
{
    reveal_strlit("startTime");
    reveal_strlit("endTime");
    assert("startTime"@.len() == 9);
    assert("endTime"@.len() == 7);
    let fs = p.spec_fields();
    assert(keys_distinct(fs));
    lemma_fields_appear_once(fs);
}

/// Period and meters of detailed site power measurements.
#[derive(Clone, Copy, Debug)]
pub struct SitePowerDetails<'r> {
    /// The power measured start time
    pub start_time: DateTime,
    /// The power measured end time
    pub end_time: DateTime,
    /// Select specific meters only. If this value is omitted, all meter readings are returned.
    pub meters: Option<&'r [MeterType]>,
}

impl<'r> SitePowerDetails<'r> {
    /// Its dates are valid.
    pub open spec fn wf(&self) -> bool {
        self.start_time.wf() && self.end_time.wf()
    }

    /// Whether its dates are valid.
    pub fn is_valid(&self) -> (r: bool)
        ensures
            r == self.wf(),
    {
        self.start_time.is_valid() && self.end_time.is_valid()
    }

    /// Its fields, in order, with the wire form of their values.
    pub open spec fn spec_fields(&self) -> Seq<FieldView> {
        seq![
            ("startTime"@, Some(seq![datetime_text(self.start_time)])),
            ("endTime"@, Some(seq![datetime_text(self.end_time)])),
            ("meters"@, match self.meters {
                Some(l) => Some(meter_type_tokens(l@)),
                None => None,
            }),
        ]
    }

    /// Its fields, in order, with the wire form of their values.
    pub fn query_fields(&self) -> (r: Vec<QueryField>)
        requires
            self.wf(),
        ensures
            r.deep_view() == self.spec_fields(),
    {
        let mut v: Vec<QueryField> = Vec::new();
        v.push(field("startTime", Some(single(datetime_to_str(&self.start_time)))));
        v.push(field("endTime", Some(single(datetime_to_str(&self.end_time)))));
        v.push(field("meters", match self.meters {
            Some(l) => Some(meter_type_parts(l)),
            None => None,
        }));
        assert(v.deep_view() =~= self.spec_fields());
        v
    }

    /// The query pairs of its present fields, in order.
    pub fn query_pairs(&self) -> (r: Vec<QueryPair>)
        requires
            self.wf(),
        ensures
            r.deep_view() == present_pairs(self.spec_fields()),
    {
        present_pairs_of(self.query_fields())
    }
}

/// Each present field of a `SitePowerDetails` appears in its query exactly once, with its
/// value; an absent field never appears.
pub proof fn lemma_site_power_details_fields_appear_once(p: SitePowerDetails)
    ensures
        fields_appear_once(p.spec_fields()),
{
    reveal_strlit("startTime");
    reveal_strlit("endTime");
    reveal_strlit("meters");
    assert("startTime"@.len() == 9);
    assert("endTime"@.len() == 7);
    assert("meters"@.len() == 6);
    let fs = p.spec_fields();
    assert(keys_distinct(fs));
    lemma_fields_appear_once(fs);
}

/// Period, granularity and meters of meter readings.
#[derive(Clone, Copy, Debug)]
pub struct MetersDateTimeRange<'r> {
    /// The energy measured start time
    pub start_time: DateTime,
    /// The energy measured end time
    pub end_time: DateTime,
    /// Aggregation granularity (default `DAY`).
    pub time_unit: Option<TimeUnit>,
    /// Select specific meters only. If this value is omitted, all meter readings are returned.
    pub meters: Option<&'r [MeterType]>,
}

impl<'r> MetersDateTimeRange<'r> {
    /// Its dates are valid.
    pub open spec fn wf(&self) -> bool {
        self.start_time.wf() && self.end_time.wf()
    }

    /// Whether its dates are valid.
    pub fn is_valid(&self) -> (r: bool)
        ensures
            r == self.wf(),
    {
        self.start_time.is_valid() && self.end_time.is_valid()
    }

    /// Its fields, in order, with the wire form of their values.
    pub open spec fn spec_fields(&self) -> Seq<FieldView> {
        seq![
            ("startTime"@, Some(seq![datetime_text(self.start_time)])),
            ("endTime"@, Some(seq![datetime_text(self.end_time)])),
            ("timeUnit"@, match self.time_unit {
                Some(t) => Some(seq![t.spec_token()]),
                None => None,
            }),
            ("meters"@, match self.meters {
                Some(l) => Some(meter_type_tokens(l@)),
                None => None,
            }),
        ]
    }

    /// Its fields, in order, with the wire form of their values.
    pub fn query_fields(&self) -> (r: Vec<QueryField>)
        requires
            self.wf(),
        ensures
            r.deep_view() == self.spec_fields(),
    {
        let mut v: Vec<QueryField> = Vec::new();
        v.push(field("startTime", Some(single(datetime_to_str(&self.start_time)))));
        v.push(field("endTime", Some(single(datetime_to_str(&self.end_time)))));
        v.push(field("timeUnit", match self.time_unit {
            Some(t) => Some(single(String::from_str(t.token()))),
            None => None,
        }));
        v.push(field("meters", match self.meters {
            Some(l) => Some(meter_type_parts(l)),
            None => None,
        }));
        assert(v.deep_view() =~= self.spec_fields());
        v
    }

    /// The query pairs of its present fields, in order.
    pub fn query_pairs(&self) -> (r: Vec<QueryPair>)
        requires
            self.wf(),
        ensures
            r.deep_view() == present_pairs(self.spec_fields()),
    {
        present_pairs_of(self.query_fields())
    }
}

/// Each present field of a `MetersDateTimeRange` appears in its query exactly once, with its
/// value; an absent field never appears.
pub proof fn lemma_meters_date_time_range_fields_appear_once(p: MetersDateTimeRange)
    ensures
        fields_appear_once(p.spec_fields()),
{
    reveal_strlit("startTime");
    reveal_strlit("endTime");
    reveal_strlit("timeUnit");
    reveal_strlit("meters");
    assert("startTime"@.len() == 9);
    assert("endTime"@.len() == 7);
    assert("timeUnit"@.len() == 8);
    assert("meters"@.len() == 6);
    let fs = p.spec_fields();
    assert(keys_distinct(fs));
    lemma_fields_appear_once(fs);
}

/// Period of sensor data.
#[derive(Clone, Copy, Debug)]
pub struct SensorsDateTimeRange {
    /// The start (date + time) to get sensor data
    pub start_date: DateTime,
    /// The end (date + time) to get sensor data
    pub end_date: DateTime,
}

impl SensorsDateTimeRange {
    /// Its dates are valid.
    pub open spec fn wf(&self) -> bool {
        self.start_date.wf() && self.end_date.wf()
    }

    /// Whether its dates are valid.
    pub fn is_valid(&self) -> (r: bool)
        ensures
            r == self.wf(),
    {
        self.start_date.is_valid() && self.end_date.is_valid()
    }

    /// Its fields, in order, with the wire form of their values.
    pub open spec fn spec_fields(&self) -> Seq<FieldView> {
        seq![
            ("startDate"@, Some(seq![datetime_text(self.start_date)])),
            ("endDate"@, Some(seq![datetime_text(self.end_date)])),
        ]
    }

    /// Its fields, in order, with the wire form of their values.
    pub fn query_fields(&self) -> (r: Vec<QueryField>)
        requires
            self.wf(),
        ensures
            r.deep_view() == self.spec_fields(),
    {
        let mut v: Vec<QueryField> = Vec::new();
        v.push(field("startDate", Some(single(datetime_to_str(&self.start_date)))));
        v.push(field("endDate", Some(single(datetime_to_str(&self.end_date)))));
        assert(v.deep_view() =~= self.spec_fields());
        v
    }

    /// The query pairs of its present fields, in order.
    pub fn query_pairs(&self) -> (r: Vec<QueryPair>)
        requires
            self.wf(),
        ensures
            r.deep_view() == present_pairs(self.spec_fields()),
    {
        present_pairs_of(self.query_fields())
    }
}

/// Each present field of a `SensorsDateTimeRange` appears in its query exactly once, with its
/// value; an absent field never appears.
pub proof fn lemma_sensors_date_time_range_fields_appear_once(p: SensorsDateTimeRange)
    ensures
        fields_appear_once(p.spec_fields()),
{
    reveal_strlit("startDate");
    reveal_strlit("endDate");
    assert("startDate"@.len() == 9);
    assert("endDate"@.len() == 7);
    let fs = p.spec_fields();
    assert(keys_distinct(fs));
    lemma_fields_appear_once(fs);
}

/// Period and batteries of storage data.
#[derive(Clone, Copy, Debug)]
pub struct SiteStorageData<'r> {
    /// Storage power measured start time
    pub start_time: DateTime,
    /// Storage power measured end time
    pub end_time: DateTime,
    /// Return data only for specific battery serial numbers. If omitted, the response includes all the batteries in the site.
    pub serials: Option<&'r [String]>,
}

impl<'r> SiteStorageData<'r> {
    /// Its dates are valid.
    pub open spec fn wf(&self) -> bool {
        self.start_time.wf() && self.end_time.wf()
    }

    /// Whether its dates are valid.
    pub fn is_valid(&self) -> (r: bool)
        ensures
            r == self.wf(),
    {
        self.start_time.is_valid() && self.end_time.is_valid()
    }

    /// Its fields, in order, with the wire form of their values.
    pub open spec fn spec_fields(&self) -> Seq<FieldView> {
        seq![
            ("startTime"@, Some(seq![datetime_text(self.start_time)])),
            ("endTime"@, Some(seq![datetime_text(self.end_time)])),
            ("serials"@, match self.serials {
                Some(l) => Some(texts(l@)),
                None => None,
            }),
        ]
    }

    /// Its fields, in order, with the wire form of their values.
    pub fn query_fields(&self) -> (r: Vec<QueryField>)
        requires
            self.wf(),
        ensures
            r.deep_view() == self.spec_fields(),
    {
        let mut v: Vec<QueryField> = Vec::new();
        v.push(field("startTime", Some(single(datetime_to_str(&self.start_time)))));
        v.push(field("endTime", Some(single(datetime_to_str(&self.end_time)))));
        v.push(field("serials", match self.serials {
            Some(l) => Some(text_parts(l)),
            None => None,
        }));
        assert(v.deep_view() =~= self.spec_fields());
        v
    }

    /// The query pairs of its present fields, in order.
    pub fn query_pairs(&self) -> (r: Vec<QueryPair>)
        requires
            self.wf(),
        ensures
            r.deep_view() == present_pairs(self.spec_fields()),
    {
        present_pairs_of(self.query_fields())
    }
}

/// Each present field of a `SiteStorageData` appears in its query exactly once, with its
/// value; an absent field never appears.
pub proof fn lemma_site_storage_data_fields_appear_once(p: SiteStorageData)
    ensures
        fields_appear_once(p.spec_fields()),
{
    reveal_strlit("startTime");
    reveal_strlit("endTime");
    reveal_strlit("serials");
    assert("startTime"@.len() == 9);
    assert("endTime"@.len() == 7);
    assert("endTime"@[0] == 'e');
    assert("serials"@.len() == 7);
    assert("serials"@[0] == 's');
    let fs = p.spec_fields();
    assert(keys_distinct(fs));
    lemma_fields_appear_once(fs);
}

/// Scaling and cache hash of the site image.
#[derive(Clone, Copy, Debug, Default)]
pub struct SiteImage {
    /// The maximum width to scale this image
    pub max_width: Option<u16>,
    /// The maximum height to scale this image
    pub max_height: Option<u16>,
    /// The image hash
    pub hash: Option<u32>,
}

impl SiteImage {
    /// Its fields, in order, with the wire form of their values.
    pub open spec fn spec_fields(&self) -> Seq<FieldView> {
        seq![
            ("maxWidth"@, match self.max_width {
                Some(n) => Some(seq![decimal_text(n as nat)]),
                None => None,
            }),
            ("maxHeight"@, match self.max_height {
                Some(n) => Some(seq![decimal_text(n as nat)]),
                None => None,
            }),
            ("hash"@, match self.hash {
                Some(n) => Some(seq![decimal_text(n as nat)]),
                None => None,
            }),
        ]
    }

    /// Its fields, in order, with the wire form of their values.
    pub fn query_fields(&self) -> (r: Vec<QueryField>)
        ensures
            r.deep_view() == self.spec_fields(),
    {
        let mut v: Vec<QueryField> = Vec::new();
        v.push(field("maxWidth", match self.max_width {
            Some(n) => Some(single(decimal(n as u64))),
            None => None,
        }));
        v.push(field("maxHeight", match self.max_height {
            Some(n) => Some(single(decimal(n as u64))),
            None => None,
        }));
        v.push(field("hash", match self.hash {
            Some(n) => Some(single(decimal(n as u64))),
            None => None,
        }));
        assert(v.deep_view() =~= self.spec_fields());
        v
    }

    /// The query pairs of its present fields, in order.
    pub fn query_pairs(&self) -> (r: Vec<QueryPair>)
        ensures
            r.deep_view() == present_pairs(self.spec_fields()),
    {
        present_pairs_of(self.query_fields())
    }
}

/// Each present field of a `SiteImage` appears in its query exactly once, with its
/// value; an absent field never appears.
pub proof fn lemma_site_image_fields_appear_once(p: SiteImage)
    ensures
        fields_appear_once(p.spec_fields()),
{
    reveal_strlit("maxWidth");
    reveal_strlit("maxHeight");
    reveal_strlit("hash");
    assert("maxWidth"@.len() == 8);
    assert("maxHeight"@.len() == 9);
    assert("hash"@.len() == 4);
    let fs = p.spec_fields();
    assert(keys_distinct(fs));
    lemma_fields_appear_once(fs);
}

/// Unit system of environmental benefits.
#[derive(Clone, Copy, Debug, Default)]
pub struct SiteEnvBenefits {
    /// The system units used when returning gas emission savings; if absent, the logged in user's units are used.
    pub system_units: Option<SystemUnits>,
}

impl SiteEnvBenefits {
    /// Its fields, in order, with the wire form of their values.
    pub open spec fn spec_fields(&self) -> Seq<FieldView> {
        seq![
            ("systemUnits"@, match self.system_units {
                Some(t) => Some(seq![t.spec_token()]),
                None => None,
            }),
        ]
    }

    /// Its fields, in order, with the wire form of their values.
    pub fn query_fields(&self) -> (r: Vec<QueryField>)
        ensures
            r.deep_view() == self.spec_fields(),
    {
        let mut v: Vec<QueryField> = Vec::new();
        v.push(field("systemUnits", match self.system_units {
            Some(t) => Some(single(String::from_str(t.token()))),
            None => None,
        }));
        assert(v.deep_view() =~= self.spec_fields());
        v
    }

    /// The query pairs of its present fields, in order.
    pub fn query_pairs(&self) -> (r: Vec<QueryPair>)
        ensures
            r.deep_view() == present_pairs(self.spec_fields()),
    {
        present_pairs_of(self.query_fields())
    }
}

/// Each present field of a `SiteEnvBenefits` appears in its query exactly once, with its
/// value; an absent field never appears.
pub proof fn lemma_site_env_benefits_fields_appear_once(p: SiteEnvBenefits)
    ensures
        fields_appear_once(p.spec_fields()),
{
    reveal_strlit("systemUnits");
    assert("systemUnits"@.len() == 11);
    let fs = p.spec_fields();
    assert(keys_distinct(fs));
    lemma_fields_appear_once(fs);
}

/// Filter, paging and order of the account listing.
#[derive(Clone, Copy, Debug, Default)]
pub struct AccountsList<'r> {
    /// The maximum number of accounts returned by this call (default 100).
    pub size: Option<u8>,
    /// The first account index to be returned in the results (default 0).
    pub start_index: Option<u8>,
    /// Search text: name, notes, email, country, state, city, zip or full address.
    pub search_text: Option<&'r str>,
    /// A sorting option for this account list, based on one of its properties.
    pub sort_property: Option<AccountSortBy>,
    /// Sort order for the sort property.
    pub sort_order: Option<SortOrder>,
}

impl<'r> AccountsList<'r> {
    /// Its fields, in order, with the wire form of their values.
    pub open spec fn spec_fields(&self) -> Seq<FieldView> {
        seq![
            ("size"@, match self.size {
                Some(n) => Some(seq![decimal_text(n as nat)]),
                None => None,
            }),
            ("startIndex"@, match self.start_index {
                Some(n) => Some(seq![decimal_text(n as nat)]),
                None => None,
            }),
            ("searchText"@, match self.search_text {
                Some(t) => Some(seq![t@]),
                None => None,
            }),
            ("sortProperty"@, match self.sort_property {
                Some(t) => Some(seq![t.spec_token()]),
                None => None,
            }),
            ("sortOrder"@, match self.sort_order {
                Some(t) => Some(seq![t.spec_token()]),
                None => None,
            }),
        ]
    }

    /// Its fields, in order, with the wire form of their values.
    pub fn query_fields(&self) -> (r: Vec<QueryField>)
        ensures
            r.deep_view() == self.spec_fields(),
    {
        let mut v: Vec<QueryField> = Vec::new();
        v.push(field("size", match self.size {
            Some(n) => Some(single(decimal(n as u64))),
            None => None,
        }));
        v.push(field("startIndex", match self.start_index {
            Some(n) => Some(single(decimal(n as u64))),
            None => None,
        }));
        v.push(field("searchText", match self.search_text {
            Some(t) => Some(single(String::from_str(t))),
            None => None,
        }));
        v.push(field("sortProperty", match self.sort_property {
            Some(t) => Some(single(String::from_str(t.token()))),
            None => None,
        }));
        v.push(field("sortOrder", match self.sort_order {
            Some(t) => Some(single(String::from_str(t.token()))),
            None => None,
        }));
        assert(v.deep_view() =~= self.spec_fields());
        v
    }

    /// The query pairs of its present fields, in order.
    pub fn query_pairs(&self) -> (r: Vec<QueryPair>)
        ensures
            r.deep_view() == present_pairs(self.spec_fields()),
    {
        present_pairs_of(self.query_fields())
    }
}

/// Each present field of a `AccountsList` appears in its query exactly once, with its
/// value; an absent field never appears.
pub proof fn lemma_accounts_list_fields_appear_once(p: AccountsList)
    ensures
        fields_appear_once(p.spec_fields()),
{
    reveal_strlit("size");
    reveal_strlit("startIndex");
    reveal_strlit("searchText");
    reveal_strlit("sortProperty");
    reveal_strlit("sortOrder");
    assert("size"@.len() == 4);
    assert("startIndex"@.len() == 10);
    assert("startIndex"@[1] == 't');
    assert("searchText"@.len() == 10);
    assert("searchText"@[1] == 'e');
    assert("sortProperty"@.len() == 12);
    assert("sortOrder"@.len() == 9);
    let fs = p.spec_fields();
    assert(keys_distinct(fs));
    lemma_fields_appear_once(fs);
}
} // verus!
