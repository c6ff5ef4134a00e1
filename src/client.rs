//! The client's configuration and the requests of the API's operations: the path of
//! each operation, its query string, and the API key, either as a query parameter or
//! as a header. Sending a request is left to the caller's HTTP transport.

use vstd::prelude::*;

use crate::query::{comma_joined, encode_query, percent_byte, present_pairs, query_text, single, PairView, QueryPair};
use crate::request::{
    AccountsList, DateTimeRange, MetersDateTimeRange, SensorsDateTimeRange, SiteEnergy,
    SiteEnvBenefits, SiteImage, SitePowerDetails, SiteStorageData, SiteTotalEnergy, SitesList,
};
use crate::text::{decimal, decimal_text};
use vstd::string::StrSliceExecFns;
use vstd::utf8::encode_utf8;

verus! {

/// The API's address.
pub const BASE_URL: &'static str = "https://monitoringapi.solaredge.com";

/// How the API key travels with each request.
#[derive(Clone, Copy, Debug, PartialEq, Eq, Structural)]
pub enum ApiKeyPlacement {
    /// In the `X-API-Key` header.
    Header,
    /// As the last query parameter, `api_key`.
    Query,
}

/// The view of a request: its URL and its headers.
pub type RequestView = (Seq<char>, Seq<(Seq<char>, Seq<char>)>);

/// A GET request with an empty body.
#[derive(Clone, Debug)]
pub struct Request {
    pub url: String,
    /// Name and value of each header.
    pub headers: Vec<(String, String)>,
}

impl DeepView for Request {
    type V = RequestView;

    open spec fn deep_view(&self) -> RequestView {
        (self.url@, self.headers.deep_view())
    }
}

/// What url makes of a base URL and a path: the URL that the path resolves to against
/// the base, or `None` when either cannot be parsed.
pub uninterp spec fn joined_url(base: Seq<char>, path: Seq<char>) -> Option<Seq<char>>;

#[verifier::external_type_specification]
#[verifier::external_body]
pub struct ExUrlParseError(url::ParseError);

/// Relies on url's `Url::parse` of the base and `Url::join` of the path: the outcome
/// depends on the two texts alone.
#[verifier::external_body]
fn join_url(base: &str, path: &str) -> (r: Result<String, url::ParseError>)
    ensures
        match r {
            Ok(u) => joined_url(base@, path@) == Some(u@),
            Err(_) => joined_url(base@, path@) is None,
        },
{
    match url::Url::parse(base) {
        Ok(b) => match b.join(path) {
            Ok(u) => Ok(u.to_string()),
            Err(e) => Err(e),
        },
        Err(e) => Err(e),
    }
}

/// Whether a byte is an ASCII letter or digit.
pub open spec fn is_ascii_alphanumeric(b: u8) -> bool {
    ||| 48 <= b <= 57
    ||| 65 <= b <= 90
    ||| 97 <= b <= 122
}

/// The bytes `bs` with every byte but ASCII letters and digits as `%XX`.
pub open spec fn path_bytes(bs: Seq<u8>) -> Seq<char>
    decreases bs.len(),
{
    if bs.len() == 0 {
        Seq::empty()
    } else {
        let b = bs.last();
        path_bytes(bs.drop_last()) + if is_ascii_alphanumeric(b) {
            seq![b as char]
        } else {
            percent_byte(b)
        }
    }
}

/// A text as a path segment: its UTF-8 bytes, all but ASCII letters and digits as `%XX`.
pub open spec fn path_encoded(s: Seq<char>) -> Seq<char> {
    path_bytes(encode_utf8(s))
}

/// Relies on percent_encoding's `utf8_percent_encode` with `NON_ALPHANUMERIC`: every
/// byte of the UTF-8 form but ASCII letters and digits becomes `%XX`.
#[verifier::external_body]
fn percent_encode_segment(s: &str) -> (r: String)
    ensures
        r@ == path_encoded(s@),
{
    percent_encoding::utf8_percent_encode(s, percent_encoding::NON_ALPHANUMERIC).to_string()
}

/// Site ids as one path segment: decimal, joined by commas.
pub open spec fn ids_text(ids: Seq<u64>) -> Seq<char> {
    comma_joined(ids.map_values(|id: u64| decimal_text(id as nat)))
}

/// Joins site ids in decimal with commas, for the path of a bulk operation.
pub fn join_site_ids(ids: &[u64]) -> (r: String)
    ensures
        r@ == ids_text(ids@),
{
    let ghost ds = ids@.map_values(|id: u64| decimal_text(id as nat));
    let mut out = String::new();
    let mut i: usize = 0;
    while i < ids.len()
        invariant
            ds == ids@.map_values(|id: u64| decimal_text(id as nat)),
            i <= ids@.len(),
            out@ == comma_joined(ds.take(i as int)),
        decreases ids@.len() - i,
    {
        proof {
            assert(ds.take(i + 1).drop_last() =~= ds.take(i as int));
            reveal_strlit(",");
        }
        if i > 0 {
            out.append(",");
        } else {
            assert(ds.take(1) =~= seq![ds[0]]);
        }
        let d = decimal(ids[i]);
        out.append(d.as_str());
        i = i + 1;
    }
    assert(ds.take(ids@.len() as int) =~= ds);
    out
}

/// `/site/{site_id}/{leaf}`
pub open spec fn site_path_text(site_id: u64, leaf: Seq<char>) -> Seq<char> {
    "/site/"@ + decimal_text(site_id as nat) + "/"@ + leaf
}

/// `/sites/{site_ids}/{leaf}`, the ids joined by commas.
pub open spec fn sites_path_text(site_ids: Seq<u64>, leaf: Seq<char>) -> Seq<char> {
    "/sites/"@ + ids_text(site_ids) + "/"@ + leaf
}

/// `/equipment/{site_id}/{leaf}`
pub open spec fn equipment_path_text(site_id: u64, leaf: Seq<char>) -> Seq<char> {
    "/equipment/"@ + decimal_text(site_id as nat) + "/"@ + leaf
}

/// `/equipment/{site_id}/{serial_number}/{leaf}`, the serial number percent-encoded.
pub open spec fn serial_path_text(site_id: u64, serial_number: Seq<char>, leaf: Seq<char>) -> Seq<char> {
    "/equipment/"@ + decimal_text(site_id as nat) + "/"@ + path_encoded(serial_number) + "/"@ + leaf
}

/// The path of a site's resource.
pub fn site_path(site_id: u64, leaf: &str) -> (r: String)
    ensures
        r@ == site_path_text(site_id, leaf@),
{
    let mut s = String::from_str("/site/");
    s.append(decimal(site_id).as_str());
    s.append("/");
    s.append(leaf);
    s
}

/// The path of a resource of several sites.
pub fn sites_path(site_ids: &[u64], leaf: &str) -> (r: String)
    ensures
        r@ == sites_path_text(site_ids@, leaf@),
{
    let mut s = String::from_str("/sites/");
    s.append(join_site_ids(site_ids).as_str());
    s.append("/");
    s.append(leaf);
    s
}

/// The path of a site's equipment resource.
pub fn equipment_path(site_id: u64, leaf: &str) -> (r: String)
    ensures
        r@ == equipment_path_text(site_id, leaf@),
{
    let mut s = String::from_str("/equipment/");
    s.append(decimal(site_id).as_str());
    s.append("/");
    s.append(leaf);
    s
}

/// The path of a resource of one piece of equipment, by its serial number.
pub fn serial_path(site_id: u64, serial_number: &str, leaf: &str) -> (r: String)
    ensures
        r@ == serial_path_text(site_id, serial_number@, leaf@),
{
    let mut s = String::from_str("/equipment/");
    s.append(decimal(site_id).as_str());
    s.append("/");
    s.append(percent_encode_segment(serial_number).as_str());
    s.append("/");
    s.append(leaf);
    s
}

/// A URL with a query string: unchanged for an empty query, else joined by `?`.
pub open spec fn with_query(url: Seq<char>, query: Seq<char>) -> Seq<char> {
    if query.len() == 0 {
        url
    } else {
        url + "?"@ + query
    }
}

/// Configuration of the API's client: base URL, API key and where the key travels.
/// It is never changed after it is made. It has no `Debug`, which would show the key.
#[derive(Clone)]
pub struct Client {
    base_url: String,
    api_key: String,
    key_placement: ApiKeyPlacement,
}

impl Client {
    pub closed spec fn spec_base_url(&self) -> Seq<char> {
        self.base_url@
    }

    pub closed spec fn spec_api_key(&self) -> Seq<char> {
        self.api_key@
    }

    pub closed spec fn spec_key_placement(&self) -> ApiKeyPlacement {
        self.key_placement
    }

    /// A client of the API at its usual address, sending the key in a header.
    pub fn new(api_key: &str) -> (r: Client)
        ensures
            r.spec_base_url() == BASE_URL@,
            r.spec_api_key() == api_key@,
            r.spec_key_placement() == ApiKeyPlacement::Header,
    {
        Client {
            base_url: String::from_str(BASE_URL),
            api_key: String::from_str(api_key),
            key_placement: ApiKeyPlacement::Header,
        }
    }

    /// A client of the API at `base_url`, sending the key as `key_placement` says.
    pub fn new_with_base_url(base_url: &str, api_key: &str, key_placement: ApiKeyPlacement) -> (r: Client)
        ensures
            r.spec_base_url() == base_url@,
            r.spec_api_key() == api_key@,
            r.spec_key_placement() == key_placement,
    {
        Client {
            base_url: String::from_str(base_url),
            api_key: String::from_str(api_key),
            key_placement,
        }
    }

    /// The query pairs of a request: the parameters' pairs, then the key when it
    /// travels in the query.
    pub open spec fn spec_pairs_with_key(&self, ps: Seq<PairView>) -> Seq<PairView> {
        if self.spec_key_placement() == ApiKeyPlacement::Query {
            ps.push(("api_key"@, seq![self.spec_api_key()]))
        } else {
            ps
        }
    }

    /// The headers of a request: the key when it travels in a header.
    pub open spec fn spec_headers(&self) -> Seq<(Seq<char>, Seq<char>)> {
        if self.spec_key_placement() == ApiKeyPlacement::Header {
            seq![("X-API-Key"@, self.spec_api_key())]
        } else {
            Seq::empty()
        }
    }

    /// The request of `path` with the query pairs `ps`, or `None` when no URL can be
    /// formed from the base URL and the path.
    pub open spec fn spec_request(&self, path: Seq<char>, ps: Seq<PairView>) -> Option<RequestView> {
        match joined_url(self.spec_base_url(), path) {
            None => None,
            Some(u) => Some(
                (with_query(u, query_text(self.spec_pairs_with_key(ps))), self.spec_headers()),
            ),
        }
    }

    /// `r` is the request of `path` with the query pairs `ps`, or the error when there
    /// is none.
    pub open spec fn request_matches(
        &self,
        r: Result<Request, url::ParseError>,
        path: Seq<char>,
        ps: Seq<PairView>,
    ) -> bool {
        match r {
            Ok(q) => self.spec_request(path, ps) == Some(q.deep_view()),
            Err(_) => self.spec_request(path, ps) is None,
        }
    }

    /// The URL of `path` with the query pairs `pairs`, and the key when it travels in
    /// the query.
    pub fn prepare_url(&self, path: &str, pairs: Vec<QueryPair>) -> (r: Result<String, url::ParseError>)
        ensures
            match r {
                Ok(u) => self.spec_request(path@, pairs.deep_view()) matches Some(q) && q.0 == u@,
                Err(_) => self.spec_request(path@, pairs.deep_view()) is None,
            },
    {
        let joined = match join_url(self.base_url.as_str(), path) {
            Ok(u) => u,
            Err(e) => {
                return Err(e);
            },
        };
        let ghost ps = pairs.deep_view();
        let mut pairs = pairs;
        if self.key_placement == ApiKeyPlacement::Query {
            pairs.push(QueryPair { key: String::from_str("api_key"), parts: single(self.api_key.clone()) });
            assert(pairs.deep_view() =~= ps.push(("api_key"@, seq![self.api_key@])));
        }
        let query = encode_query(&pairs);
        if query.as_str().unicode_len() == 0 {
            Ok(joined)
        } else {
            let mut url = joined;
            url.append("?");
            url.append(query.as_str());
            Ok(url)
        }
    }

    /// The request of `path` with the query pairs `pairs`.
    pub fn prepare_request(&self, path: &str, pairs: Vec<QueryPair>) -> (r: Result<Request, url::ParseError>)
        ensures
            self.request_matches(r, path@, pairs.deep_view()),
    {
        let url = match self.prepare_url(path, pairs) {
            Ok(u) => u,
            Err(e) => {
                return Err(e);
            },
        };
        let mut headers: Vec<(String, String)> = Vec::new();
        if self.key_placement == ApiKeyPlacement::Header {
            headers.push((String::from_str("X-API-Key"), self.api_key.clone()));
            assert(headers.deep_view() =~= seq![("X-API-Key"@, self.api_key@)]);
        } else {
            assert(headers.deep_view() =~= Seq::<(Seq<char>, Seq<char>)>::empty());
        }
        Ok(Request { url, headers })
    }

    /// Request for the most recent API version.
    pub fn version_current_request(&self) -> (r: Result<Request, url::ParseError>)
        ensures
            self.request_matches(r, "/version/current.json"@, Seq::empty()),
    {
        let path = String::from_str("/version/current.json");
        self.prepare_request(path.as_str(), Vec::new())
    }

    /// Request for the supported API versions.
    pub fn version_supported_request(&self) -> (r: Result<Request, url::ParseError>)
        ensures
            self.request_matches(r, "/version/supported.json"@, Seq::empty()),
    {
        let path = String::from_str("/version/supported.json");
        self.prepare_request(path.as_str(), Vec::new())
    }

    /// Request for the sites of the account that the API key belongs to.
    pub fn sites_list_request(&self, params: &SitesList<'_>) -> (r: Result<Request, url::ParseError>)
        ensures
            self.request_matches(r, "/sites/list.json"@, present_pairs(params.spec_fields())),
    {
        let path = String::from_str("/sites/list.json");
        self.prepare_request(path.as_str(), params.query_pairs())
    }

    /// Request for the details of a site: name, location, status and so on.
    pub fn site_details_request(&self, site_id: u64) -> (r: Result<Request, url::ParseError>)
        ensures
            self.request_matches(r, site_path_text(site_id, "details.json"@), Seq::empty()),
    {
        let path = site_path(site_id, "details.json");
        self.prepare_request(path.as_str(), Vec::new())
    }

    /// Request for the first and last day of a site's energy production.
    pub fn site_data_period_request(&self, site_id: u64) -> (r: Result<Request, url::ParseError>)
        ensures
            self.request_matches(r, site_path_text(site_id, "dataPeriod.json"@), Seq::empty()),
    {
        let path = site_path(site_id, "dataPeriod.json");
        self.prepare_request(path.as_str(), Vec::new())
    }

    /// Request for the first and last day of energy production of several sites.
    pub fn site_data_period_bulk_request(&self, site_ids: &[u64]) -> (r: Result<Request, url::ParseError>)
        ensures
            self.request_matches(r, sites_path_text(site_ids@, "dataPeriod.json"@), Seq::empty()),
    {
        let path = sites_path(site_ids, "dataPeriod.json");
        self.prepare_request(path.as_str(), Vec::new())
    }

    /// Request for a site's energy measurements over a period.
    pub fn site_energy_request(&self, site_id: u64, params: &SiteEnergy) -> (r: Result<Request, url::ParseError>)
        requires
            params.wf(),
        ensures
            self.request_matches(r, site_path_text(site_id, "energy.json"@), present_pairs(params.spec_fields())),
    {
        let path = site_path(site_id, "energy.json");
        self.prepare_request(path.as_str(), params.query_pairs())
    }

    /// Request for the energy measurements of several sites over a period.
    pub fn site_energy_bulk_request(&self, site_ids: &[u64], params: &SiteEnergy) -> (r: Result<Request, url::ParseError>)
        requires
            params.wf(),
        ensures
            self.request_matches(r, sites_path_text(site_ids@, "energy.json"@), present_pairs(params.spec_fields())),
    {
        let path = sites_path(site_ids, "energy.json");
        self.prepare_request(path.as_str(), params.query_pairs())
    }

    /// Request for a site's total energy over a period.
    pub fn site_time_frame_energy_request(&self, site_id: u64, params: &SiteTotalEnergy) -> (r: Result<Request, url::ParseError>)
        requires
            params.wf(),
        ensures
            self.request_matches(r, site_path_text(site_id, "timeFrameEnergy.json"@), present_pairs(params.spec_fields())),
    {
        let path = site_path(site_id, "timeFrameEnergy.json");
        self.prepare_request(path.as_str(), params.query_pairs())
    }

    /// Request for the total energy of several sites over a period.
    pub fn site_time_frame_energy_bulk_request(&self, site_ids: &[u64], params: &SiteTotalEnergy) -> (r: Result<Request, url::ParseError>)
        requires
            params.wf(),
        ensures
            self.request_matches(r, sites_path_text(site_ids@, "timeFrameEnergy.json"@), present_pairs(params.spec_fields())),
    {
        let path = sites_path(site_ids, "timeFrameEnergy.json");
        self.prepare_request(path.as_str(), params.query_pairs())
    }

    /// Request for a site's power measurements in 15 minute steps.
    pub fn site_power_request(&self, site_id: u64, params: &DateTimeRange) -> (r: Result<Request, url::ParseError>)
        requires
            params.wf(),
        ensures
            self.request_matches(r, site_path_text(site_id, "power.json"@), present_pairs(params.spec_fields())),
    {
        let path = site_path(site_id, "power.json");
        self.prepare_request(path.as_str(), params.query_pairs())
    }

    /// Request for the power measurements of several sites in 15 minute steps.
    pub fn site_power_bulk_request(&self, site_ids: &[u64], params: &DateTimeRange) -> (r: Result<Request, url::ParseError>)
        requires
            params.wf(),
        ensures
            self.request_matches(r, sites_path_text(site_ids@, "power.json"@), present_pairs(params.spec_fields())),
    {
        let path = sites_path(site_ids, "power.json");
        self.prepare_request(path.as_str(), params.query_pairs())
    }

    /// Request for a site's overview.
    pub fn site_overview_request(&self, site_id: u64) -> (r: Result<Request, url::ParseError>)
        ensures
            self.request_matches(r, site_path_text(site_id, "overview.json"@), Seq::empty()),
    {
        let path = site_path(site_id, "overview.json");
        self.prepare_request(path.as_str(), Vec::new())
    }

    /// Request for the overviews of several sites.
    pub fn site_overview_bulk_request(&self, site_ids: &[u64]) -> (r: Result<Request, url::ParseError>)
        ensures
            self.request_matches(r, sites_path_text(site_ids@, "overview.json"@), Seq::empty()),
    {
        let path = sites_path(site_ids, "overview.json");
        self.prepare_request(path.as_str(), Vec::new())
    }

    /// Request for a site's power measurements per meter.
    pub fn site_power_details_request(&self, site_id: u64, params: &SitePowerDetails<'_>) -> (r: Result<Request, url::ParseError>)
        requires
            params.wf(),
        ensures
            self.request_matches(r, site_path_text(site_id, "powerDetails.json"@), present_pairs(params.spec_fields())),
    {
        let path = site_path(site_id, "powerDetails.json");
        self.prepare_request(path.as_str(), params.query_pairs())
    }

    /// Request for a site's energy measurements per meter.
    pub fn site_energy_details_request(&self, site_id: u64, params: &MetersDateTimeRange<'_>) -> (r: Result<Request, url::ParseError>)
        requires
            params.wf(),
        ensures
            self.request_matches(r, site_path_text(site_id, "energyDetails.json"@), present_pairs(params.spec_fields())),
    {
        let path = site_path(site_id, "energyDetails.json");
        self.prepare_request(path.as_str(), params.query_pairs())
    }

    /// Request for the current power flow between grid, load, PV array and storage.
    pub fn site_current_power_flow_request(&self, site_id: u64) -> (r: Result<Request, url::ParseError>)
        ensures
            self.request_matches(r, site_path_text(site_id, "currentPowerFlow.json"@), Seq::empty()),
    {
        let path = site_path(site_id, "currentPowerFlow.json");
        self.prepare_request(path.as_str(), Vec::new())
    }

    /// Request for storage data of a site's batteries.
    pub fn site_storage_data_request(&self, site_id: u64, params: &SiteStorageData<'_>) -> (r: Result<Request, url::ParseError>)
        requires
            params.wf(),
        ensures
            self.request_matches(r, site_path_text(site_id, "storageData.json"@), present_pairs(params.spec_fields())),
    {
        let path = site_path(site_id, "storageData.json");
        self.prepare_request(path.as_str(), params.query_pairs())
    }

    /// Request for the site image as uploaded by the user (an image, not JSON).
    pub fn site_image_request(&self, site_id: u64, params: &SiteImage) -> (r: Result<Request, url::ParseError>)
        ensures
            self.request_matches(r, site_path_text(site_id, "siteImage/image.jpg"@), present_pairs(params.spec_fields())),
    {
        let path = site_path(site_id, "siteImage/image.jpg");
        self.prepare_request(path.as_str(), params.query_pairs())
    }

    /// Request for a site's environmental benefits.
    pub fn site_env_benefits_request(&self, site_id: u64, params: &SiteEnvBenefits) -> (r: Result<Request, url::ParseError>)
        ensures
            self.request_matches(r, site_path_text(site_id, "envBenefits.json"@), present_pairs(params.spec_fields())),
    {
        let path = site_path(site_id, "envBenefits.json");
        self.prepare_request(path.as_str(), params.query_pairs())
    }

    /// Request for the installer logo of a site (an image, not JSON).
    pub fn site_installer_image_request(&self, site_id: u64) -> (r: Result<Request, url::ParseError>)
        ensures
            self.request_matches(r, site_path_text(site_id, "installerImage/image.jpg"@), Seq::empty()),
    {
        let path = site_path(site_id, "installerImage/image.jpg");
        self.prepare_request(path.as_str(), Vec::new())
    }

    /// Request for the equipment of a site.
    pub fn site_inventory_request(&self, site_id: u64) -> (r: Result<Request, url::ParseError>)
        ensures
            self.request_matches(r, site_path_text(site_id, "inventory.json"@), Seq::empty()),
    {
        let path = site_path(site_id, "inventory.json");
        self.prepare_request(path.as_str(), Vec::new())
    }

    /// Request for each meter's lifetime energy reading and the device it is connected to.
    pub fn site_meters_request(&self, site_id: u64, params: &MetersDateTimeRange<'_>) -> (r: Result<Request, url::ParseError>)
        requires
            params.wf(),
        ensures
            self.request_matches(r, site_path_text(site_id, "meters.json"@), present_pairs(params.spec_fields())),
    {
        let path = site_path(site_id, "meters.json");
        self.prepare_request(path.as_str(), params.query_pairs())
    }

    /// Request for the data of a site's sensors, by gateway.
    pub fn site_sensor_data_request(&self, site_id: u64, params: &SensorsDateTimeRange) -> (r: Result<Request, url::ParseError>)
        requires
            params.wf(),
        ensures
            self.request_matches(r, site_path_text(site_id, "sensors.json"@), present_pairs(params.spec_fields())),
    {
        let path = site_path(site_id, "sensors.json");
        self.prepare_request(path.as_str(), params.query_pairs())
    }

    /// Request for the inverters of a site.
    pub fn equipment_list_request(&self, site_id: u64) -> (r: Result<Request, url::ParseError>)
        ensures
            self.request_matches(r, equipment_path_text(site_id, "list.json"@), Seq::empty()),
    {
        let path = equipment_path(site_id, "list.json");
        self.prepare_request(path.as_str(), Vec::new())
    }

    /// Request for the sensors of a site, by gateway.
    pub fn equipment_sensors_request(&self, site_id: u64) -> (r: Result<Request, url::ParseError>)
        ensures
            self.request_matches(r, equipment_path_text(site_id, "sensors.json"@), Seq::empty()),
    {
        let path = equipment_path(site_id, "sensors.json");
        self.prepare_request(path.as_str(), Vec::new())
    }

    /// Request for the data of one inverter over a period.
    pub fn equipment_data_request(&self, site_id: u64, serial_number: &str, params: &DateTimeRange) -> (r: Result<Request, url::ParseError>)
        requires
            params.wf(),
        ensures
            self.request_matches(r, serial_path_text(site_id, serial_number@, "data.json"@), present_pairs(params.spec_fields())),
    {
        let path = serial_path(site_id, serial_number, "data.json");
        self.prepare_request(path.as_str(), params.query_pairs())
    }

    /// Request for the replacements of one piece of equipment.
    pub fn equipment_changelog_request(&self, site_id: u64, serial_number: &str) -> (r: Result<Request, url::ParseError>)
        ensures
            self.request_matches(r, serial_path_text(site_id, serial_number@, "changeLog.json"@), Seq::empty()),
    {
        let path = serial_path(site_id, serial_number, "changeLog.json");
        self.prepare_request(path.as_str(), Vec::new())
    }

    /// Request for the accounts of the API key's owner.
    pub fn accounts_list_request(&self, params: &AccountsList<'_>) -> (r: Result<Request, url::ParseError>)
        ensures
            self.request_matches(r, "/accounts/list.json"@, present_pairs(params.spec_fields())),
    {
        let path = String::from_str("/accounts/list.json");
        self.prepare_request(path.as_str(), params.query_pairs())
    }
}

} // verus!
