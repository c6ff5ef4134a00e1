//! Typed client core for the SolarEdge monitoring API: wire tokens of the vendor's
//! enumerations, request parameters and their query strings, dates in the vendor's
//! formats, the requests of the API's operations, the classification of responses by
//! status, and the decoding of the API's envelopes from a JSON document.
//!
//! Sending a request and reading the response are left to the caller's HTTP
//! transport: the library forms each request and judges each response.

pub mod client;
pub mod datetime;
pub mod enums;
pub mod error;
pub mod json;
pub mod query;
pub mod request;
pub mod text;

pub use client::{ApiKeyPlacement, Client, Request};
pub use datetime::{Date, DateTime};
pub use enums::{
    AccountSortBy, BatteryState, EnergyUnit, EquipmentCommunicationMethod, FilterSiteStatus,
    GasEmissionUnit, InverterMode, Measurer, MeterForm, MeterType, OperationMode, PowerFlowElement,
    PowerFlowElementStatus, PowerUnit, SensorMeasurement, SensorType, SiteSortBy, SiteStatus,
    SortOrder, SystemUnits, TimeUnit,
};
pub use error::Error;
pub use json::{CurrentTop, DecodeError, JsonValue, List, Spec, SupportedTop};
pub use request::{
    AccountsList, DateTimeRange, MetersDateTimeRange, SensorsDateTimeRange, SiteEnergy,
    SiteEnvBenefits, SiteImage, SitePowerDetails, SiteStorageData, SiteTotalEnergy, SitesList,
};
