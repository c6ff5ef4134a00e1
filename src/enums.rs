//! The vendor's enumerations and their wire tokens.

use vstd::prelude::*;

use crate::text::text_eq;

verus! {

/// Order of a sorted listing.
#[derive(Clone, Copy, Debug, PartialEq, Eq, Structural)]
pub enum SortOrder {
    Ascending,
    Descending,
}

impl SortOrder {
    /// The vendor's wire token of the value.
    pub open spec fn spec_token(self) -> Seq<char> {
        match self {
            SortOrder::Ascending => "ASC"@,
            SortOrder::Descending => "DESC"@,
        }
    }

    pub fn token(&self) -> (r: &'static str)
        ensures
            r@ == self.spec_token(),
    {
        match self {
            SortOrder::Ascending => "ASC",
            SortOrder::Descending => "DESC",
        }
    }

    /// The display text of the value, which is its wire token.
    pub fn to_string(&self) -> (r: String)
        ensures
            r@ == self.spec_token(),
    {
        String::from_str(self.token())
    }
}

/// Property by which a site listing is sorted.
#[derive(Clone, Copy, Debug, PartialEq, Eq, Structural)]
pub enum SiteSortBy {
    /// sort by site name
    Name,
    /// sort by site country
    Country,
    /// sort by site state
    State,
    /// sort by site city
    City,
    /// sort by site address
    Address,
    /// sort by site zip code
    Zip,
    /// sort by site status
    Status,
    /// sort by peak power
    PeakPower,
    /// sort by installation date
    InstallationDate,
    /// sort by amount of alerts
    Amount,
    /// sort by alert severity
    MaxSeverity,
    /// sort by site creation time
    CreationTime,
}

impl SiteSortBy {
    /// The vendor's wire token of the value.
    pub open spec fn spec_token(self) -> Seq<char> {
        match self {
            SiteSortBy::Name => "Name"@,
            SiteSortBy::Country => "Country"@,
            SiteSortBy::State => "State"@,
            SiteSortBy::City => "City"@,
            SiteSortBy::Address => "Address"@,
            SiteSortBy::Zip => "Zip"@,
            SiteSortBy::Status => "Status"@,
            SiteSortBy::PeakPower => "PeakPower"@,
            SiteSortBy::InstallationDate => "InstallationDate"@,
            SiteSortBy::Amount => "Amount"@,
            SiteSortBy::MaxSeverity => "MaxSeverity"@,
            SiteSortBy::CreationTime => "CreationTime"@,
        }
    }

    pub fn token(&self) -> (r: &'static str)
        ensures
            r@ == self.spec_token(),
    {
        match self {
            SiteSortBy::Name => "Name",
            SiteSortBy::Country => "Country",
            SiteSortBy::State => "State",
            SiteSortBy::City => "City",
            SiteSortBy::Address => "Address",
            SiteSortBy::Zip => "Zip",
            SiteSortBy::Status => "Status",
            SiteSortBy::PeakPower => "PeakPower",
            SiteSortBy::InstallationDate => "InstallationDate",
            SiteSortBy::Amount => "Amount",
            SiteSortBy::MaxSeverity => "MaxSeverity",
            SiteSortBy::CreationTime => "CreationTime",
        }
    }

    /// The display text of the value, which is its wire token.
    pub fn to_string(&self) -> (r: String)
        ensures
            r@ == self.spec_token(),
    {
        String::from_str(self.token())
    }
}

/// Site status accepted by site filters.
#[derive(Clone, Copy, Debug, PartialEq, Eq, Structural)]
pub enum FilterSiteStatus {
    Active,
    Pending,
    PendingCommunication,
    Disabled,
    All,
}

impl FilterSiteStatus {
    /// The vendor's wire token of the value.
    pub open spec fn spec_token(self) -> Seq<char> {
        match self {
            FilterSiteStatus::Active => "Active"@,
            FilterSiteStatus::Pending => "Pending"@,
            FilterSiteStatus::PendingCommunication => "PendingCommunication"@,
            FilterSiteStatus::Disabled => "Disabled"@,
            FilterSiteStatus::All => "All"@,
        }
    }

    /// The variant whose wire token is `s`, if there is one.
    pub open spec fn spec_from_token(s: Seq<char>) -> Option<Self> {
        if s == "Active"@ {
            Some(FilterSiteStatus::Active)
        } else if s == "Pending"@ {
            Some(FilterSiteStatus::Pending)
        } else if s == "PendingCommunication"@ {
            Some(FilterSiteStatus::PendingCommunication)
        } else if s == "Disabled"@ {
            Some(FilterSiteStatus::Disabled)
        } else if s == "All"@ {
            Some(FilterSiteStatus::All)
        } else {
            None
        }
    }

    pub fn token(&self) -> (r: &'static str)
        ensures
            r@ == self.spec_token(),
    {
        match self {
            FilterSiteStatus::Active => "Active",
            FilterSiteStatus::Pending => "Pending",
            FilterSiteStatus::PendingCommunication => "PendingCommunication",
            FilterSiteStatus::Disabled => "Disabled",
            FilterSiteStatus::All => "All",
        }
    }

    /// The display text of the value, which is its wire token.
    pub fn to_string(&self) -> (r: String)
        ensures
            r@ == self.spec_token(),
    {
        String::from_str(self.token())
    }

    pub fn from_token(s: &str) -> (r: Option<Self>)
        ensures
            r == FilterSiteStatus::spec_from_token(s@),
    {
        if text_eq(s, "Active") {
            Some(FilterSiteStatus::Active)
        } else if text_eq(s, "Pending") {
            Some(FilterSiteStatus::Pending)
        } else if text_eq(s, "PendingCommunication") {
            Some(FilterSiteStatus::PendingCommunication)
        } else if text_eq(s, "Disabled") {
            Some(FilterSiteStatus::Disabled)
        } else if text_eq(s, "All") {
            Some(FilterSiteStatus::All)
        } else {
            None
        }
    }
}

/// Reading back the wire token of a variant gives that variant.
pub proof fn lemma_filter_site_status_token_round_trip(v: FilterSiteStatus)
    ensures
        FilterSiteStatus::spec_from_token(v.spec_token()) == Some(v),
{
    reveal_strlit("Active");
    reveal_strlit("Pending");
    reveal_strlit("PendingCommunication");
    reveal_strlit("Disabled");
    reveal_strlit("All");
    assert("Active"@.len() == 6);
    assert("Pending"@.len() == 7);
    assert("PendingCommunication"@.len() == 20);
    assert("Disabled"@.len() == 8);
    assert("All"@.len() == 3);
}

/// Status of a site.
#[derive(Clone, Copy, Debug, PartialEq, Eq, Structural)]
pub enum SiteStatus {
    Active,
    Pending,
    Disabled,
    All,
}

impl SiteStatus {
    /// The vendor's wire token of the value.
    pub open spec fn spec_token(self) -> Seq<char> {
        match self {
            SiteStatus::Active => "Active"@,
            SiteStatus::Pending => "Pending"@,
            SiteStatus::Disabled => "Disabled"@,
            SiteStatus::All => "All"@,
        }
    }

    /// The variant whose wire token is `s`, if there is one.
    pub open spec fn spec_from_token(s: Seq<char>) -> Option<Self> {
        if s == "Active"@ {
            Some(SiteStatus::Active)
        } else if s == "Pending"@ {
            Some(SiteStatus::Pending)
        } else if s == "Disabled"@ {
            Some(SiteStatus::Disabled)
        } else if s == "All"@ {
            Some(SiteStatus::All)
        } else {
            None
        }
    }

    pub fn token(&self) -> (r: &'static str)
        ensures
            r@ == self.spec_token(),
    {
        match self {
            SiteStatus::Active => "Active",
            SiteStatus::Pending => "Pending",
            SiteStatus::Disabled => "Disabled",
            SiteStatus::All => "All",
        }
    }

    /// The display text of the value, which is its wire token.
    pub fn to_string(&self) -> (r: String)
        ensures
            r@ == self.spec_token(),
    {
        String::from_str(self.token())
    }

    pub fn from_token(s: &str) -> (r: Option<Self>)
        ensures
            r == SiteStatus::spec_from_token(s@),
    {
        if text_eq(s, "Active") {
            Some(SiteStatus::Active)
        } else if text_eq(s, "Pending") {
            Some(SiteStatus::Pending)
        } else if text_eq(s, "Disabled") {
            Some(SiteStatus::Disabled)
        } else if text_eq(s, "All") {
            Some(SiteStatus::All)
        } else {
            None
        }
    }
}

/// Reading back the wire token of a variant gives that variant.
pub proof fn lemma_site_status_token_round_trip(v: SiteStatus)
    ensures
        SiteStatus::spec_from_token(v.spec_token()) == Some(v),
{
    reveal_strlit("Active");
    reveal_strlit("Pending");
    reveal_strlit("Disabled");
    reveal_strlit("All");
    assert("Active"@.len() == 6);
    assert("Pending"@.len() == 7);
    assert("Disabled"@.len() == 8);
    assert("All"@.len() == 3);
}

/// Aggregation granularity of measurements.
#[derive(Clone, Copy, Debug, PartialEq, Eq, Structural)]
pub enum TimeUnit {
    QuarterOfAnHour,
    Hour,
    Day,
    Week,
    Month,
    Year,
}

impl TimeUnit {
    /// The vendor's wire token of the value.
    pub open spec fn spec_token(self) -> Seq<char> {
        match self {
            TimeUnit::QuarterOfAnHour => "QUARTER_OF_AN_HOUR"@,
            TimeUnit::Hour => "HOUR"@,
            TimeUnit::Day => "DAY"@,
            TimeUnit::Week => "WEEK"@,
            TimeUnit::Month => "MONTH"@,
            TimeUnit::Year => "YEAR"@,
        }
    }

    /// The variant whose wire token is `s`, if there is one.
    pub open spec fn spec_from_token(s: Seq<char>) -> Option<Self> {
        if s == "QUARTER_OF_AN_HOUR"@ {
            Some(TimeUnit::QuarterOfAnHour)
        } else if s == "HOUR"@ {
            Some(TimeUnit::Hour)
        } else if s == "DAY"@ {
            Some(TimeUnit::Day)
        } else if s == "WEEK"@ {
            Some(TimeUnit::Week)
        } else if s == "MONTH"@ {
            Some(TimeUnit::Month)
        } else if s == "YEAR"@ {
            Some(TimeUnit::Year)
        } else {
            None
        }
    }

    pub fn token(&self) -> (r: &'static str)
        ensures
            r@ == self.spec_token(),
    {
        match self {
            TimeUnit::QuarterOfAnHour => "QUARTER_OF_AN_HOUR",
            TimeUnit::Hour => "HOUR",
            TimeUnit::Day => "DAY",
            TimeUnit::Week => "WEEK",
            TimeUnit::Month => "MONTH",
            TimeUnit::Year => "YEAR",
        }
    }

    pub fn from_token(s: &str) -> (r: Option<Self>)
        ensures
            r == TimeUnit::spec_from_token(s@),
    {
        if text_eq(s, "QUARTER_OF_AN_HOUR") {
            Some(TimeUnit::QuarterOfAnHour)
        } else if text_eq(s, "HOUR") {
            Some(TimeUnit::Hour)
        } else if text_eq(s, "DAY") {
            Some(TimeUnit::Day)
        } else if text_eq(s, "WEEK") {
            Some(TimeUnit::Week)
        } else if text_eq(s, "MONTH") {
            Some(TimeUnit::Month)
        } else if text_eq(s, "YEAR") {
            Some(TimeUnit::Year)
        } else {
            None
        }
    }
}

/// Reading back the wire token of a variant gives that variant.
pub proof fn lemma_time_unit_token_round_trip(v: TimeUnit)
    ensures
        TimeUnit::spec_from_token(v.spec_token()) == Some(v),
{
    reveal_strlit("QUARTER_OF_AN_HOUR");
    reveal_strlit("HOUR");
    reveal_strlit("DAY");
    reveal_strlit("WEEK");
    reveal_strlit("MONTH");
    reveal_strlit("YEAR");
    assert("QUARTER_OF_AN_HOUR"@.len() == 18);
    assert("HOUR"@.len() == 4);
    assert("HOUR"@[0] == 'H');
    assert("DAY"@.len() == 3);
    assert("WEEK"@.len() == 4);
    assert("WEEK"@[0] == 'W');
    assert("MONTH"@.len() == 5);
    assert("YEAR"@.len() == 4);
    assert("YEAR"@[0] == 'Y');
}

/// Kind of a meter.
#[derive(Clone, Copy, Debug, PartialEq, Eq, Structural)]
pub enum MeterType {
    /// AC production power meter / inverter production AC power (fallback)
    Production,
    /// Consumption meter
    Consumption,
    /// virtual self-consumption (calculated)
    SelfConsumption,
    /// Export to GRID meter
    FeedIn,
    /// Import power from GRID meter
    Purchased,
}

impl MeterType {
    /// The vendor's wire token of the value.
    pub open spec fn spec_token(self) -> Seq<char> {
        match self {
            MeterType::Production => "Production"@,
            MeterType::Consumption => "Consumption"@,
            MeterType::SelfConsumption => "SelfConsumption"@,
            MeterType::FeedIn => "FeedIn"@,
            MeterType::Purchased => "Purchased"@,
        }
    }

    /// The variant whose wire token is `s`, if there is one.
    pub open spec fn spec_from_token(s: Seq<char>) -> Option<Self> {
        if s == "Production"@ {
            Some(MeterType::Production)
        } else if s == "Consumption"@ {
            Some(MeterType::Consumption)
        } else if s == "SelfConsumption"@ {
            Some(MeterType::SelfConsumption)
        } else if s == "FeedIn"@ {
            Some(MeterType::FeedIn)
        } else if s == "Purchased"@ {
            Some(MeterType::Purchased)
        } else {
            None
        }
    }

    pub fn token(&self) -> (r: &'static str)
        ensures
            r@ == self.spec_token(),
    {
        match self {
            MeterType::Production => "Production",
            MeterType::Consumption => "Consumption",
            MeterType::SelfConsumption => "SelfConsumption",
            MeterType::FeedIn => "FeedIn",
            MeterType::Purchased => "Purchased",
        }
    }

    /// The display text of the value, which is its wire token.
    pub fn to_string(&self) -> (r: String)
        ensures
            r@ == self.spec_token(),
    {
        String::from_str(self.token())
    }

    pub fn from_token(s: &str) -> (r: Option<Self>)
        ensures
            r == MeterType::spec_from_token(s@),
    {
        if text_eq(s, "Production") {
            Some(MeterType::Production)
        } else if text_eq(s, "Consumption") {
            Some(MeterType::Consumption)
        } else if text_eq(s, "SelfConsumption") {
            Some(MeterType::SelfConsumption)
        } else if text_eq(s, "FeedIn") {
            Some(MeterType::FeedIn)
        } else if text_eq(s, "Purchased") {
            Some(MeterType::Purchased)
        } else {
            None
        }
    }
}

/// Reading back the wire token of a variant gives that variant.
pub proof fn lemma_meter_type_token_round_trip(v: MeterType)
    ensures
        MeterType::spec_from_token(v.spec_token()) == Some(v),
{
    reveal_strlit("Production");
    reveal_strlit("Consumption");
    reveal_strlit("SelfConsumption");
    reveal_strlit("FeedIn");
    reveal_strlit("Purchased");
    assert("Production"@.len() == 10);
    assert("Consumption"@.len() == 11);
    assert("SelfConsumption"@.len() == 15);
    assert("FeedIn"@.len() == 6);
    assert("Purchased"@.len() == 9);
}

/// Whether a meter is a device or a calculation.
#[derive(Clone, Copy, Debug, PartialEq, Eq, Structural)]
pub enum MeterForm {
    /// for a HW meter
    Physical,
    /// if calculated by arithmetic between other meters
    Virtual,
}

impl MeterForm {
    /// The vendor's wire token of the value.
    pub open spec fn spec_token(self) -> Seq<char> {
        match self {
            MeterForm::Physical => "physical"@,
            MeterForm::Virtual => "virtual"@,
        }
    }

    /// The variant whose wire token is `s`, if there is one.
    pub open spec fn spec_from_token(s: Seq<char>) -> Option<Self> {
        if s == "physical"@ {
            Some(MeterForm::Physical)
        } else if s == "virtual"@ {
            Some(MeterForm::Virtual)
        } else {
            None
        }
    }

    pub fn token(&self) -> (r: &'static str)
        ensures
            r@ == self.spec_token(),
    {
        match self {
            MeterForm::Physical => "physical",
            MeterForm::Virtual => "virtual",
        }
    }

    pub fn from_token(s: &str) -> (r: Option<Self>)
        ensures
            r == MeterForm::spec_from_token(s@),
    {
        if text_eq(s, "physical") {
            Some(MeterForm::Physical)
        } else if text_eq(s, "virtual") {
            Some(MeterForm::Virtual)
        } else {
            None
        }
    }
}

/// Reading back the wire token of a variant gives that variant.
pub proof fn lemma_meter_form_token_round_trip(v: MeterForm)
    ensures
        MeterForm::spec_from_token(v.spec_token()) == Some(v),
{
    reveal_strlit("physical");
    reveal_strlit("virtual");
    assert("physical"@.len() == 8);
    assert("virtual"@.len() == 7);
}

/// Operating mode of an inverter.
#[derive(Clone, Copy, Debug, PartialEq, Eq, Structural)]
pub enum InverterMode {
    Off,
    /// night mode
    Sleeping,
    /// pre-production
    Starting,
    /// production (Maximum Power Point Tracking)
    Mppt,
    /// Forced power reduction
    Throttled,
    /// Shutdown procedure
    ShuttingDown,
    /// error mode
    Fault,
    /// maintenance
    Standby,
    /// standby mode lock
    LockedStdby,
    /// fire-fighters lock mode
    LockedFireFighters,
    /// forced shutdown from server
    LockedForceShutdown,
    /// communication timeout
    LockedCommTimeout,
    /// inverter self-lock trip
    LockedInvTrip,
    /// inverter self-lock on arc detection
    LockedInvArcDetected,
    /// inverter lock due to DG mode enable
    LockedDg,
    /// inverter lock due to phase imbalance (1ph, Australia only)
    LockedPhaseBalancer,
    /// inverter lock due to pre-commissioning
    LockedPreCommissioning,
    /// inverter lock due to an undisclosed internal reason
    LockedInternal,
}

impl InverterMode {
    /// The vendor's wire token of the value.
    pub open spec fn spec_token(self) -> Seq<char> {
        match self {
            InverterMode::Off => "OFF"@,
            InverterMode::Sleeping => "SLEEPING"@,
            InverterMode::Starting => "STARTING"@,
            InverterMode::Mppt => "MPPT"@,
            InverterMode::Throttled => "THROTTLED"@,
            InverterMode::ShuttingDown => "SHUTTING_DOWN"@,
            InverterMode::Fault => "FAULT"@,
            InverterMode::Standby => "STANDBY"@,
            InverterMode::LockedStdby => "LOCKED_STDBY"@,
            InverterMode::LockedFireFighters => "LOCKED_FIRE_FIGHTERS"@,
            InverterMode::LockedForceShutdown => "LOCKED_FORCE_SHUTDOWN"@,
            InverterMode::LockedCommTimeout => "LOCKED_COMM_TIMEOUT"@,
            InverterMode::LockedInvTrip => "LOCKED_INV_TRIP"@,
            InverterMode::LockedInvArcDetected => "LOCKED_INV_ARC_DETECTED"@,
            InverterMode::LockedDg => "LOCKED_DG"@,
            InverterMode::LockedPhaseBalancer => "LOCKED_PHASE_BALANCER"@,
            InverterMode::LockedPreCommissioning => "LOCKED_PRE_COMMISSIONING"@,
            InverterMode::LockedInternal => "LOCKED_INTERNAL"@,
        }
    }

    /// The variant whose wire token is `s`, if there is one.
    pub open spec fn spec_from_token(s: Seq<char>) -> Option<Self> {
        if s == "OFF"@ {
            Some(InverterMode::Off)
        } else if s == "SLEEPING"@ {
            Some(InverterMode::Sleeping)
        } else if s == "STARTING"@ {
            Some(InverterMode::Starting)
        } else if s == "MPPT"@ {
            Some(InverterMode::Mppt)
        } else if s == "THROTTLED"@ {
            Some(InverterMode::Throttled)
        } else if s == "SHUTTING_DOWN"@ {
            Some(InverterMode::ShuttingDown)
        } else if s == "FAULT"@ {
            Some(InverterMode::Fault)
        } else if s == "STANDBY"@ {
            Some(InverterMode::Standby)
        } else if s == "LOCKED_STDBY"@ {
            Some(InverterMode::LockedStdby)
        } else if s == "LOCKED_FIRE_FIGHTERS"@ {
            Some(InverterMode::LockedFireFighters)
        } else if s == "LOCKED_FORCE_SHUTDOWN"@ {
            Some(InverterMode::LockedForceShutdown)
        } else if s == "LOCKED_COMM_TIMEOUT"@ {
            Some(InverterMode::LockedCommTimeout)
        } else if s == "LOCKED_INV_TRIP"@ {
            Some(InverterMode::LockedInvTrip)
        } else if s == "LOCKED_INV_ARC_DETECTED"@ {
            Some(InverterMode::LockedInvArcDetected)
        } else if s == "LOCKED_DG"@ {
            Some(InverterMode::LockedDg)
        } else if s == "LOCKED_PHASE_BALANCER"@ {
            Some(InverterMode::LockedPhaseBalancer)
        } else if s == "LOCKED_PRE_COMMISSIONING"@ {
            Some(InverterMode::LockedPreCommissioning)
        } else if s == "LOCKED_INTERNAL"@ {
            Some(InverterMode::LockedInternal)
        } else {
            None
        }
    }

    pub fn token(&self) -> (r: &'static str)
        ensures
            r@ == self.spec_token(),
    {
        match self {
            InverterMode::Off => "OFF",
            InverterMode::Sleeping => "SLEEPING",
            InverterMode::Starting => "STARTING",
            InverterMode::Mppt => "MPPT",
            InverterMode::Throttled => "THROTTLED",
            InverterMode::ShuttingDown => "SHUTTING_DOWN",
            InverterMode::Fault => "FAULT",
            InverterMode::Standby => "STANDBY",
            InverterMode::LockedStdby => "LOCKED_STDBY",
            InverterMode::LockedFireFighters => "LOCKED_FIRE_FIGHTERS",
            InverterMode::LockedForceShutdown => "LOCKED_FORCE_SHUTDOWN",
            InverterMode::LockedCommTimeout => "LOCKED_COMM_TIMEOUT",
            InverterMode::LockedInvTrip => "LOCKED_INV_TRIP",
            InverterMode::LockedInvArcDetected => "LOCKED_INV_ARC_DETECTED",
            InverterMode::LockedDg => "LOCKED_DG",
            InverterMode::LockedPhaseBalancer => "LOCKED_PHASE_BALANCER",
            InverterMode::LockedPreCommissioning => "LOCKED_PRE_COMMISSIONING",
            InverterMode::LockedInternal => "LOCKED_INTERNAL",
        }
    }

    pub fn from_token(s: &str) -> (r: Option<Self>)
        ensures
            r == InverterMode::spec_from_token(s@),
    {
        if text_eq(s, "OFF") {
            Some(InverterMode::Off)
        } else if text_eq(s, "SLEEPING") {
            Some(InverterMode::Sleeping)
        } else if text_eq(s, "STARTING") {
            Some(InverterMode::Starting)
        } else if text_eq(s, "MPPT") {
            Some(InverterMode::Mppt)
        } else if text_eq(s, "THROTTLED") {
            Some(InverterMode::Throttled)
        } else if text_eq(s, "SHUTTING_DOWN") {
            Some(InverterMode::ShuttingDown)
        } else if text_eq(s, "FAULT") {
            Some(InverterMode::Fault)
        } else if text_eq(s, "STANDBY") {
            Some(InverterMode::Standby)
        } else if text_eq(s, "LOCKED_STDBY") {
            Some(InverterMode::LockedStdby)
        } else if text_eq(s, "LOCKED_FIRE_FIGHTERS") {
            Some(InverterMode::LockedFireFighters)
        } else if text_eq(s, "LOCKED_FORCE_SHUTDOWN") {
            Some(InverterMode::LockedForceShutdown)
        } else if text_eq(s, "LOCKED_COMM_TIMEOUT") {
            Some(InverterMode::LockedCommTimeout)
        } else if text_eq(s, "LOCKED_INV_TRIP") {
            Some(InverterMode::LockedInvTrip)
        } else if text_eq(s, "LOCKED_INV_ARC_DETECTED") {
            Some(InverterMode::LockedInvArcDetected)
        } else if text_eq(s, "LOCKED_DG") {
            Some(InverterMode::LockedDg)
        } else if text_eq(s, "LOCKED_PHASE_BALANCER") {
            Some(InverterMode::LockedPhaseBalancer)
        } else if text_eq(s, "LOCKED_PRE_COMMISSIONING") {
            Some(InverterMode::LockedPreCommissioning)
        } else if text_eq(s, "LOCKED_INTERNAL") {
            Some(InverterMode::LockedInternal)
        } else {
            None
        }
    }
}

/// Reading back the wire token of a variant gives that variant.
pub proof fn lemma_inverter_mode_token_round_trip(v: InverterMode)
    ensures
        InverterMode::spec_from_token(v.spec_token()) == Some(v),
{
    reveal_strlit("OFF");
    reveal_strlit("SLEEPING");
    reveal_strlit("STARTING");
    reveal_strlit("MPPT");
    reveal_strlit("THROTTLED");
    reveal_strlit("SHUTTING_DOWN");
    reveal_strlit("FAULT");
    reveal_strlit("STANDBY");
    reveal_strlit("LOCKED_STDBY");
    reveal_strlit("LOCKED_FIRE_FIGHTERS");
    reveal_strlit("LOCKED_FORCE_SHUTDOWN");
    reveal_strlit("LOCKED_COMM_TIMEOUT");
    reveal_strlit("LOCKED_INV_TRIP");
    reveal_strlit("LOCKED_INV_ARC_DETECTED");
    reveal_strlit("LOCKED_DG");
    reveal_strlit("LOCKED_PHASE_BALANCER");
    reveal_strlit("LOCKED_PRE_COMMISSIONING");
    reveal_strlit("LOCKED_INTERNAL");
    assert("OFF"@.len() == 3);
    assert("SLEEPING"@.len() == 8);
    assert("SLEEPING"@[1] == 'L');
    assert("STARTING"@.len() == 8);
    assert("STARTING"@[1] == 'T');
    assert("MPPT"@.len() == 4);
    assert("THROTTLED"@.len() == 9);
    assert("THROTTLED"@[0] == 'T');
    assert("SHUTTING_DOWN"@.len() == 13);
    assert("FAULT"@.len() == 5);
    assert("STANDBY"@.len() == 7);
    assert("LOCKED_STDBY"@.len() == 12);
    assert("LOCKED_FIRE_FIGHTERS"@.len() == 20);
    assert("LOCKED_FORCE_SHUTDOWN"@.len() == 21);
    assert("LOCKED_FORCE_SHUTDOWN"@[7] == 'F');
    assert("LOCKED_COMM_TIMEOUT"@.len() == 19);
    assert("LOCKED_INV_TRIP"@.len() == 15);
    assert("LOCKED_INV_TRIP"@[9] == 'V');
    assert("LOCKED_INV_ARC_DETECTED"@.len() == 23);
    assert("LOCKED_DG"@.len() == 9);
    assert("LOCKED_DG"@[0] == 'L');
    assert("LOCKED_PHASE_BALANCER"@.len() == 21);
    assert("LOCKED_PHASE_BALANCER"@[7] == 'P');
    assert("LOCKED_PRE_COMMISSIONING"@.len() == 24);
    assert("LOCKED_INTERNAL"@.len() == 15);
    assert("LOCKED_INTERNAL"@[9] == 'T');
}

/// Grid connection of an inverter, sent as a small integer.
#[derive(Clone, Copy, Debug, PartialEq, Eq, Structural)]
pub enum OperationMode {
    OnGrid,
    /// Operating in off-grid mode using PV or battery
    OffGridWithPvOrBattery,
    /// Operating in off-grid mode with generator (e.g. diesel) is present
    OffGridWithGenerator,
}

impl OperationMode {
    /// The integer that stands for the variant on the wire.
    pub open spec fn spec_code(self) -> u8 {
        match self {
            OperationMode::OnGrid => 0,
            OperationMode::OffGridWithPvOrBattery => 1,
            OperationMode::OffGridWithGenerator => 2,
        }
    }

    /// The variant that an integer on the wire stands for.
    pub open spec fn spec_from_code(c: u8) -> Option<Self> {
        if c == 0 {
            Some(OperationMode::OnGrid)
        } else if c == 1 {
            Some(OperationMode::OffGridWithPvOrBattery)
        } else if c == 2 {
            Some(OperationMode::OffGridWithGenerator)
        } else {
            None
        }
    }

    pub fn code(&self) -> (r: u8)
        ensures
            r == self.spec_code(),
    {
        match self {
            OperationMode::OnGrid => 0,
            OperationMode::OffGridWithPvOrBattery => 1,
            OperationMode::OffGridWithGenerator => 2,
        }
    }

    pub fn from_code(c: u8) -> (r: Option<Self>)
        ensures
            r == OperationMode::spec_from_code(c),
    {
        if c == 0 {
            Some(OperationMode::OnGrid)
        } else if c == 1 {
            Some(OperationMode::OffGridWithPvOrBattery)
        } else if c == 2 {
            Some(OperationMode::OffGridWithGenerator)
        } else {
            None
        }
    }
}

/// Reading back the integer of a variant gives that variant.
pub proof fn lemma_operation_mode_code_round_trip(v: OperationMode)
    ensures
        OperationMode::spec_from_code(v.spec_code()) == Some(v),
{
}

/// Unit system of reported quantities.
#[derive(Clone, Copy, Debug, PartialEq, Eq, Structural)]
pub enum SystemUnits {
    Metrics,
    Imperial,
}

impl SystemUnits {
    /// The vendor's wire token of the value.
    pub open spec fn spec_token(self) -> Seq<char> {
        match self {
            SystemUnits::Metrics => "Metrics"@,
            SystemUnits::Imperial => "Imperial"@,
        }
    }

    pub fn token(&self) -> (r: &'static str)
        ensures
            r@ == self.spec_token(),
    {
        match self {
            SystemUnits::Metrics => "Metrics",
            SystemUnits::Imperial => "Imperial",
        }
    }
}

/// Unit of reported energy.
#[derive(Clone, Debug, PartialEq, Eq)]
pub enum EnergyUnit {
    /// watt-hour
    Wh,
    /// A token this library does not know, kept as sent.
    Other(String),
}

impl EnergyUnit {
    /// The vendor's wire token of the value.
    pub open spec fn spec_token(self) -> Seq<char> {
        match self {
            EnergyUnit::Wh => "Wh"@,
            EnergyUnit::Other(s) => s@,
        }
    }

    /// The named variant whose wire token is `s`, if there is one.
    pub open spec fn spec_from_known(s: Seq<char>) -> Option<Self> {
        if s == "Wh"@ {
            Some(EnergyUnit::Wh)
        } else {
            None
        }
    }

    /// What reading the token `s` gives: the named variant with that token, or else
    /// `Other` holding `s`.
    pub open spec fn decodes_to(s: Seq<char>, r: Self) -> bool {
        match EnergyUnit::spec_from_known(s) {
            Some(k) => r == k,
            None => r is Other && r->Other_0@ == s,
        }
    }

    /// A value that reads back as itself: `Other` never holds a named token.
    pub open spec fn is_canonical(self) -> bool {
        match self {
            EnergyUnit::Other(s) => EnergyUnit::spec_from_known(s@) is None,
            _ => true,
        }
    }

    pub fn token(&self) -> (r: &str)
        ensures
            r@ == self.spec_token(),
    {
        match self {
            EnergyUnit::Wh => "Wh",
            EnergyUnit::Other(s) => s.as_str(),
        }
    }

    pub fn from_token(s: &str) -> (r: Self)
        ensures
            EnergyUnit::decodes_to(s@, r),
    {
        if text_eq(s, "Wh") {
            EnergyUnit::Wh
        } else {
            EnergyUnit::Other(String::from_str(s))
        }
    }
}

/// Reading back the wire token of a value that is not an `Other` holding a named
/// token gives that value.
pub proof fn lemma_energy_unit_token_round_trip(v: EnergyUnit)
    requires
        v.is_canonical(),
    ensures
        EnergyUnit::decodes_to(v.spec_token(), v),
{
    reveal_strlit("Wh");
    assert("Wh"@.len() == 2);
}

/// Unit of reported power.
#[derive(Clone, Debug, PartialEq, Eq)]
pub enum PowerUnit {
    /// watt
    W,
    /// kilowatt
    Kw,
    /// A token this library does not know, kept as sent.
    Other(String),
}

impl PowerUnit {
    /// The vendor's wire token of the value.
    pub open spec fn spec_token(self) -> Seq<char> {
        match self {
            PowerUnit::W => "W"@,
            PowerUnit::Kw => "kW"@,
            PowerUnit::Other(s) => s@,
        }
    }

    /// The named variant whose wire token is `s`, if there is one.
    pub open spec fn spec_from_known(s: Seq<char>) -> Option<Self> {
        if s == "W"@ {
            Some(PowerUnit::W)
        } else if s == "kW"@ {
            Some(PowerUnit::Kw)
        } else {
            None
        }
    }

    /// What reading the token `s` gives: the named variant with that token, or else
    /// `Other` holding `s`.
    pub open spec fn decodes_to(s: Seq<char>, r: Self) -> bool {
        match PowerUnit::spec_from_known(s) {
            Some(k) => r == k,
            None => r is Other && r->Other_0@ == s,
        }
    }

    /// A value that reads back as itself: `Other` never holds a named token.
    pub open spec fn is_canonical(self) -> bool {
        match self {
            PowerUnit::Other(s) => PowerUnit::spec_from_known(s@) is None,
            _ => true,
        }
    }

    pub fn token(&self) -> (r: &str)
        ensures
            r@ == self.spec_token(),
    {
        match self {
            PowerUnit::W => "W",
            PowerUnit::Kw => "kW",
            PowerUnit::Other(s) => s.as_str(),
        }
    }

    pub fn from_token(s: &str) -> (r: Self)
        ensures
            PowerUnit::decodes_to(s@, r),
    {
        if text_eq(s, "W") {
            PowerUnit::W
        } else if text_eq(s, "kW") {
            PowerUnit::Kw
        } else {
            PowerUnit::Other(String::from_str(s))
        }
    }
}

/// Reading back the wire token of a value that is not an `Other` holding a named
/// token gives that value.
pub proof fn lemma_power_unit_token_round_trip(v: PowerUnit)
    requires
        v.is_canonical(),
    ensures
        PowerUnit::decodes_to(v.spec_token(), v),
{
    reveal_strlit("W");
    reveal_strlit("kW");
    assert("W"@.len() == 1);
    assert("kW"@.len() == 2);
}

/// What measured a reported quantity.
#[derive(Clone, Debug, PartialEq, Eq)]
pub enum Measurer {
    Inverter,
    /// A token this library does not know, kept as sent.
    Other(String),
}

impl Measurer {
    /// The vendor's wire token of the value.
    pub open spec fn spec_token(self) -> Seq<char> {
        match self {
            Measurer::Inverter => "INVERTER"@,
            Measurer::Other(s) => s@,
        }
    }

    /// The named variant whose wire token is `s`, if there is one.
    pub open spec fn spec_from_known(s: Seq<char>) -> Option<Self> {
        if s == "INVERTER"@ {
            Some(Measurer::Inverter)
        } else {
            None
        }
    }

    /// What reading the token `s` gives: the named variant with that token, or else
    /// `Other` holding `s`.
    pub open spec fn decodes_to(s: Seq<char>, r: Self) -> bool {
        match Measurer::spec_from_known(s) {
            Some(k) => r == k,
            None => r is Other && r->Other_0@ == s,
        }
    }

    /// A value that reads back as itself: `Other` never holds a named token.
    pub open spec fn is_canonical(self) -> bool {
        match self {
            Measurer::Other(s) => Measurer::spec_from_known(s@) is None,
            _ => true,
        }
    }

    pub fn token(&self) -> (r: &str)
        ensures
            r@ == self.spec_token(),
    {
        match self {
            Measurer::Inverter => "INVERTER",
            Measurer::Other(s) => s.as_str(),
        }
    }

    pub fn from_token(s: &str) -> (r: Self)
        ensures
            Measurer::decodes_to(s@, r),
    {
        if text_eq(s, "INVERTER") {
            Measurer::Inverter
        } else {
            Measurer::Other(String::from_str(s))
        }
    }
}

/// Reading back the wire token of a value that is not an `Other` holding a named
/// token gives that value.
pub proof fn lemma_measurer_token_round_trip(v: Measurer)
    requires
        v.is_canonical(),
    ensures
        Measurer::decodes_to(v.spec_token(), v),
{
    reveal_strlit("INVERTER");
    assert("INVERTER"@.len() == 8);
}

/// An element of the site's power flow.
#[derive(Clone, Copy, Debug, PartialEq, Eq, Structural)]
pub enum PowerFlowElement {
    Grid,
    Load,
    Pv,
    Storage,
}

impl PowerFlowElement {
    /// The vendor's wire token of the value.
    pub open spec fn spec_token(self) -> Seq<char> {
        match self {
            PowerFlowElement::Grid => "GRID"@,
            PowerFlowElement::Load => "Load"@,
            PowerFlowElement::Pv => "PV"@,
            PowerFlowElement::Storage => "Storage"@,
        }
    }

    /// The variant whose wire token is `s`, if there is one.
    pub open spec fn spec_from_token(s: Seq<char>) -> Option<Self> {
        if s == "GRID"@ {
            Some(PowerFlowElement::Grid)
        } else if s == "Load"@ {
            Some(PowerFlowElement::Load)
        } else if s == "PV"@ {
            Some(PowerFlowElement::Pv)
        } else if s == "Storage"@ {
            Some(PowerFlowElement::Storage)
        } else {
            None
        }
    }

    pub fn token(&self) -> (r: &'static str)
        ensures
            r@ == self.spec_token(),
    {
        match self {
            PowerFlowElement::Grid => "GRID",
            PowerFlowElement::Load => "Load",
            PowerFlowElement::Pv => "PV",
            PowerFlowElement::Storage => "Storage",
        }
    }

    pub fn from_token(s: &str) -> (r: Option<Self>)
        ensures
            r == PowerFlowElement::spec_from_token(s@),
    {
        if text_eq(s, "GRID") {
            Some(PowerFlowElement::Grid)
        } else if text_eq(s, "Load") {
            Some(PowerFlowElement::Load)
        } else if text_eq(s, "PV") {
            Some(PowerFlowElement::Pv)
        } else if text_eq(s, "Storage") {
            Some(PowerFlowElement::Storage)
        } else {
            None
        }
    }
}

/// Reading back the wire token of a variant gives that variant.
pub proof fn lemma_power_flow_element_token_round_trip(v: PowerFlowElement)
    ensures
        PowerFlowElement::spec_from_token(v.spec_token()) == Some(v),
{
    reveal_strlit("GRID");
    reveal_strlit("Load");
    reveal_strlit("PV");
    reveal_strlit("Storage");
    assert("GRID"@.len() == 4);
    assert("GRID"@[0] == 'G');
    assert("Load"@.len() == 4);
    assert("Load"@[0] == 'L');
    assert("PV"@.len() == 2);
    assert("Storage"@.len() == 7);
}

/// Status of a power flow element.
#[derive(Clone, Copy, Debug, PartialEq, Eq, Structural)]
pub enum PowerFlowElementStatus {
    Active,
    Idle,
    Inactive,
    Disabled,
}

impl PowerFlowElementStatus {
    /// The vendor's wire token of the value.
    pub open spec fn spec_token(self) -> Seq<char> {
        match self {
            PowerFlowElementStatus::Active => "Active"@,
            PowerFlowElementStatus::Idle => "Idle"@,
            PowerFlowElementStatus::Inactive => "Inactive"@,
            PowerFlowElementStatus::Disabled => "Disabled"@,
        }
    }

    /// The variant whose wire token is `s`, if there is one.
    pub open spec fn spec_from_token(s: Seq<char>) -> Option<Self> {
        if s == "Active"@ {
            Some(PowerFlowElementStatus::Active)
        } else if s == "Idle"@ {
            Some(PowerFlowElementStatus::Idle)
        } else if s == "Inactive"@ {
            Some(PowerFlowElementStatus::Inactive)
        } else if s == "Disabled"@ {
            Some(PowerFlowElementStatus::Disabled)
        } else {
            None
        }
    }

    pub fn token(&self) -> (r: &'static str)
        ensures
            r@ == self.spec_token(),
    {
        match self {
            PowerFlowElementStatus::Active => "Active",
            PowerFlowElementStatus::Idle => "Idle",
            PowerFlowElementStatus::Inactive => "Inactive",
            PowerFlowElementStatus::Disabled => "Disabled",
        }
    }

    pub fn from_token(s: &str) -> (r: Option<Self>)
        ensures
            r == PowerFlowElementStatus::spec_from_token(s@),
    {
        if text_eq(s, "Active") {
            Some(PowerFlowElementStatus::Active)
        } else if text_eq(s, "Idle") {
            Some(PowerFlowElementStatus::Idle)
        } else if text_eq(s, "Inactive") {
            Some(PowerFlowElementStatus::Inactive)
        } else if text_eq(s, "Disabled") {
            Some(PowerFlowElementStatus::Disabled)
        } else {
            None
        }
    }
}

/// Reading back the wire token of a variant gives that variant.
pub proof fn lemma_power_flow_element_status_token_round_trip(v: PowerFlowElementStatus)
    ensures
        PowerFlowElementStatus::spec_from_token(v.spec_token()) == Some(v),
{
    reveal_strlit("Active");
    reveal_strlit("Idle");
    reveal_strlit("Inactive");
    reveal_strlit("Disabled");
    assert("Active"@.len() == 6);
    assert("Idle"@.len() == 4);
    assert("Inactive"@.len() == 8);
    assert("Inactive"@[0] == 'I');
    assert("Disabled"@.len() == 8);
    assert("Disabled"@[0] == 'D');
}

/// State of a battery, sent as a small integer.
#[derive(Clone, Copy, Debug, PartialEq, Eq, Structural)]
pub enum BatteryState {
    Invalid,
    Standby,
    ThermalManagement,
    Enabled,
    Fault,
}

impl BatteryState {
    /// The integer that stands for the variant on the wire.
    pub open spec fn spec_code(self) -> u8 {
        match self {
            BatteryState::Invalid => 0,
            BatteryState::Standby => 1,
            BatteryState::ThermalManagement => 2,
            BatteryState::Enabled => 3,
            BatteryState::Fault => 4,
        }
    }

    /// The variant that an integer on the wire stands for.
    pub open spec fn spec_from_code(c: u8) -> Option<Self> {
        if c == 0 {
            Some(BatteryState::Invalid)
        } else if c == 1 {
            Some(BatteryState::Standby)
        } else if c == 2 {
            Some(BatteryState::ThermalManagement)
        } else if c == 3 {
            Some(BatteryState::Enabled)
        } else if c == 4 {
            Some(BatteryState::Fault)
        } else {
            None
        }
    }

    pub fn code(&self) -> (r: u8)
        ensures
            r == self.spec_code(),
    {
        match self {
            BatteryState::Invalid => 0,
            BatteryState::Standby => 1,
            BatteryState::ThermalManagement => 2,
            BatteryState::Enabled => 3,
            BatteryState::Fault => 4,
        }
    }

    pub fn from_code(c: u8) -> (r: Option<Self>)
        ensures
            r == BatteryState::spec_from_code(c),
    {
        if c == 0 {
            Some(BatteryState::Invalid)
        } else if c == 1 {
            Some(BatteryState::Standby)
        } else if c == 2 {
            Some(BatteryState::ThermalManagement)
        } else if c == 3 {
            Some(BatteryState::Enabled)
        } else if c == 4 {
            Some(BatteryState::Fault)
        } else {
            None
        }
    }
}

/// Reading back the integer of a variant gives that variant.
pub proof fn lemma_battery_state_code_round_trip(v: BatteryState)
    ensures
        BatteryState::spec_from_code(v.spec_code()) == Some(v),
{
}

/// Unit of saved gas emissions.
#[derive(Clone, Copy, Debug, PartialEq, Eq, Structural)]
pub enum GasEmissionUnit {
    Kg,
    Lb,
}

impl GasEmissionUnit {
    /// The vendor's wire token of the value.
    pub open spec fn spec_token(self) -> Seq<char> {
        match self {
            GasEmissionUnit::Kg => "kg"@,
            GasEmissionUnit::Lb => "lb"@,
        }
    }

    /// The variant whose wire token is `s`, if there is one.
    pub open spec fn spec_from_token(s: Seq<char>) -> Option<Self> {
        if s == "kg"@ {
            Some(GasEmissionUnit::Kg)
        } else if s == "lb"@ {
            Some(GasEmissionUnit::Lb)
        } else {
            None
        }
    }

    pub fn token(&self) -> (r: &'static str)
        ensures
            r@ == self.spec_token(),
    {
        match self {
            GasEmissionUnit::Kg => "kg",
            GasEmissionUnit::Lb => "lb",
        }
    }

    pub fn from_token(s: &str) -> (r: Option<Self>)
        ensures
            r == GasEmissionUnit::spec_from_token(s@),
    {
        if text_eq(s, "kg") {
            Some(GasEmissionUnit::Kg)
        } else if text_eq(s, "lb") {
            Some(GasEmissionUnit::Lb)
        } else {
            None
        }
    }
}

/// Reading back the wire token of a variant gives that variant.
pub proof fn lemma_gas_emission_unit_token_round_trip(v: GasEmissionUnit)
    ensures
        GasEmissionUnit::spec_from_token(v.spec_token()) == Some(v),
{
    reveal_strlit("kg");
    reveal_strlit("lb");
    assert("kg"@.len() == 2);
    assert("kg"@[0] == 'k');
    assert("lb"@.len() == 2);
    assert("lb"@[0] == 'l');
}

/// Interface by which equipment reaches the server.
#[derive(Clone, Debug, PartialEq, Eq)]
pub enum EquipmentCommunicationMethod {
    Ethernet,
    /// A token this library does not know, kept as sent.
    Other(String),
}

impl EquipmentCommunicationMethod {
    /// The vendor's wire token of the value.
    pub open spec fn spec_token(self) -> Seq<char> {
        match self {
            EquipmentCommunicationMethod::Ethernet => "ETHERNET"@,
            EquipmentCommunicationMethod::Other(s) => s@,
        }
    }

    /// The named variant whose wire token is `s`, if there is one.
    pub open spec fn spec_from_known(s: Seq<char>) -> Option<Self> {
        if s == "ETHERNET"@ {
            Some(EquipmentCommunicationMethod::Ethernet)
        } else {
            None
        }
    }

    /// What reading the token `s` gives: the named variant with that token, or else
    /// `Other` holding `s`.
    pub open spec fn decodes_to(s: Seq<char>, r: Self) -> bool {
        match EquipmentCommunicationMethod::spec_from_known(s) {
            Some(k) => r == k,
            None => r is Other && r->Other_0@ == s,
        }
    }

    /// A value that reads back as itself: `Other` never holds a named token.
    pub open spec fn is_canonical(self) -> bool {
        match self {
            EquipmentCommunicationMethod::Other(s) => EquipmentCommunicationMethod::spec_from_known(s@) is None,
            _ => true,
        }
    }

    pub fn token(&self) -> (r: &str)
        ensures
            r@ == self.spec_token(),
    {
        match self {
            EquipmentCommunicationMethod::Ethernet => "ETHERNET",
            EquipmentCommunicationMethod::Other(s) => s.as_str(),
        }
    }

    pub fn from_token(s: &str) -> (r: Self)
        ensures
            EquipmentCommunicationMethod::decodes_to(s@, r),
    {
        if text_eq(s, "ETHERNET") {
            EquipmentCommunicationMethod::Ethernet
        } else {
            EquipmentCommunicationMethod::Other(String::from_str(s))
        }
    }
}

/// Reading back the wire token of a value that is not an `Other` holding a named
/// token gives that value.
pub proof fn lemma_equipment_communication_method_token_round_trip(v: EquipmentCommunicationMethod)
    requires
        v.is_canonical(),
    ensures
        EquipmentCommunicationMethod::decodes_to(v.spec_token(), v),
{
    reveal_strlit("ETHERNET");
    assert("ETHERNET"@.len() == 8);
}

/// Kind of a sensor.
#[derive(Clone, Debug, PartialEq, Eq)]
pub enum SensorType {
    Irradiance,
    Temperature,
    /// A token this library does not know, kept as sent.
    Other(String),
}

impl SensorType {
    /// The vendor's wire token of the value.
    pub open spec fn spec_token(self) -> Seq<char> {
        match self {
            SensorType::Irradiance => "IRRADIANCE"@,
            SensorType::Temperature => "TEMPERATURE"@,
            SensorType::Other(s) => s@,
        }
    }

    /// The named variant whose wire token is `s`, if there is one.
    pub open spec fn spec_from_known(s: Seq<char>) -> Option<Self> {
        if s == "IRRADIANCE"@ {
            Some(SensorType::Irradiance)
        } else if s == "TEMPERATURE"@ {
            Some(SensorType::Temperature)
        } else {
            None
        }
    }

    /// What reading the token `s` gives: the named variant with that token, or else
    /// `Other` holding `s`.
    pub open spec fn decodes_to(s: Seq<char>, r: Self) -> bool {
        match SensorType::spec_from_known(s) {
            Some(k) => r == k,
            None => r is Other && r->Other_0@ == s,
        }
    }

    /// A value that reads back as itself: `Other` never holds a named token.
    pub open spec fn is_canonical(self) -> bool {
        match self {
            SensorType::Other(s) => SensorType::spec_from_known(s@) is None,
            _ => true,
        }
    }

    pub fn token(&self) -> (r: &str)
        ensures
            r@ == self.spec_token(),
    {
        match self {
            SensorType::Irradiance => "IRRADIANCE",
            SensorType::Temperature => "TEMPERATURE",
            SensorType::Other(s) => s.as_str(),
        }
    }

    pub fn from_token(s: &str) -> (r: Self)
        ensures
            SensorType::decodes_to(s@, r),
    {
        if text_eq(s, "IRRADIANCE") {
            SensorType::Irradiance
        } else if text_eq(s, "TEMPERATURE") {
            SensorType::Temperature
        } else {
            SensorType::Other(String::from_str(s))
        }
    }
}

/// Reading back the wire token of a value that is not an `Other` holding a named
/// token gives that value.
pub proof fn lemma_sensor_type_token_round_trip(v: SensorType)
    requires
        v.is_canonical(),
    ensures
        SensorType::decodes_to(v.spec_token(), v),
{
    reveal_strlit("IRRADIANCE");
    reveal_strlit("TEMPERATURE");
    assert("IRRADIANCE"@.len() == 10);
    assert("TEMPERATURE"@.len() == 11);
}

/// What a sensor measures.
#[derive(Clone, Debug, PartialEq, Eq)]
pub enum SensorMeasurement {
    SensorGlobalHorizontalIrradiance,
    SensorDiffusedIrradiance,
    SensorAmbientTemperature,
    /// A token this library does not know, kept as sent.
    Other(String),
}

impl SensorMeasurement {
    /// The vendor's wire token of the value.
    pub open spec fn spec_token(self) -> Seq<char> {
        match self {
            SensorMeasurement::SensorGlobalHorizontalIrradiance => "SensorGlobalHorizontalIrradiance"@,
            SensorMeasurement::SensorDiffusedIrradiance => "SensorDiffusedIrradiance"@,
            SensorMeasurement::SensorAmbientTemperature => "SensorAmbientTemperature"@,
            SensorMeasurement::Other(s) => s@,
        }
    }

    /// The named variant whose wire token is `s`, if there is one.
    pub open spec fn spec_from_known(s: Seq<char>) -> Option<Self> {
        if s == "SensorGlobalHorizontalIrradiance"@ {
            Some(SensorMeasurement::SensorGlobalHorizontalIrradiance)
        } else if s == "SensorDiffusedIrradiance"@ {
            Some(SensorMeasurement::SensorDiffusedIrradiance)
        } else if s == "SensorAmbientTemperature"@ {
            Some(SensorMeasurement::SensorAmbientTemperature)
        } else {
            None
        }
    }

    /// What reading the token `s` gives: the named variant with that token, or else
    /// `Other` holding `s`.
    pub open spec fn decodes_to(s: Seq<char>, r: Self) -> bool {
        match SensorMeasurement::spec_from_known(s) {
            Some(k) => r == k,
            None => r is Other && r->Other_0@ == s,
        }
    }

    /// A value that reads back as itself: `Other` never holds a named token.
    pub open spec fn is_canonical(self) -> bool {
        match self {
            SensorMeasurement::Other(s) => SensorMeasurement::spec_from_known(s@) is None,
            _ => true,
        }
    }

    pub fn token(&self) -> (r: &str)
        ensures
            r@ == self.spec_token(),
    {
        match self {
            SensorMeasurement::SensorGlobalHorizontalIrradiance => "SensorGlobalHorizontalIrradiance",
            SensorMeasurement::SensorDiffusedIrradiance => "SensorDiffusedIrradiance",
            SensorMeasurement::SensorAmbientTemperature => "SensorAmbientTemperature",
            SensorMeasurement::Other(s) => s.as_str(),
        }
    }

    pub fn from_token(s: &str) -> (r: Self)
        ensures
            SensorMeasurement::decodes_to(s@, r),
    {
        if text_eq(s, "SensorGlobalHorizontalIrradiance") {
            SensorMeasurement::SensorGlobalHorizontalIrradiance
        } else if text_eq(s, "SensorDiffusedIrradiance") {
            SensorMeasurement::SensorDiffusedIrradiance
        } else if text_eq(s, "SensorAmbientTemperature") {
            SensorMeasurement::SensorAmbientTemperature
        } else {
            SensorMeasurement::Other(String::from_str(s))
        }
    }
}

/// Reading back the wire token of a value that is not an `Other` holding a named
/// token gives that value.
pub proof fn lemma_sensor_measurement_token_round_trip(v: SensorMeasurement)
    requires
        v.is_canonical(),
    ensures
        SensorMeasurement::decodes_to(v.spec_token(), v),
{
    reveal_strlit("SensorGlobalHorizontalIrradiance");
    reveal_strlit("SensorDiffusedIrradiance");
    reveal_strlit("SensorAmbientTemperature");
    assert("SensorGlobalHorizontalIrradiance"@.len() == 32);
    assert("SensorDiffusedIrradiance"@.len() == 24);
    assert("SensorDiffusedIrradiance"@[6] == 'D');
    assert("SensorAmbientTemperature"@.len() == 24);
    assert("SensorAmbientTemperature"@[6] == 'A');
}

/// Property by which an account listing is sorted.
#[derive(Clone, Copy, Debug, PartialEq, Eq, Structural)]
pub enum AccountSortBy {
    /// sort by account name
    Name,
    /// sort by account country
    Country,
    /// sort by account city
    City,
    /// sort by account address
    Address,
    /// sort by account zip code
    Zip,
    /// sort by account fax number
    Fax,
    /// sort by account phone
    Phone,
    /// sort by account notes
    Notes,
}

impl AccountSortBy {
    /// The vendor's wire token of the value.
    pub open spec fn spec_token(self) -> Seq<char> {
        match self {
            AccountSortBy::Name => "Name"@,
            AccountSortBy::Country => "Country"@,
            AccountSortBy::City => "City"@,
            AccountSortBy::Address => "Address"@,
            AccountSortBy::Zip => "Zip"@,
            AccountSortBy::Fax => "Fax"@,
            AccountSortBy::Phone => "Phone"@,
            AccountSortBy::Notes => "Notes"@,
        }
    }

    pub fn token(&self) -> (r: &'static str)
        ensures
            r@ == self.spec_token(),
    {
        match self {
            AccountSortBy::Name => "Name",
            AccountSortBy::Country => "Country",
            AccountSortBy::City => "City",
            AccountSortBy::Address => "Address",
            AccountSortBy::Zip => "Zip",
            AccountSortBy::Fax => "Fax",
            AccountSortBy::Phone => "Phone",
            AccountSortBy::Notes => "Notes",
        }
    }
}

} // verus!
