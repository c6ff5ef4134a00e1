use solaredge::{
    AccountSortBy, BatteryState, EnergyUnit, EquipmentCommunicationMethod, FilterSiteStatus,
    GasEmissionUnit, InverterMode, Measurer, MeterForm, MeterType, OperationMode, PowerFlowElement,
    PowerFlowElementStatus, PowerUnit, SensorMeasurement, SensorType, SiteSortBy, SiteStatus,
    SortOrder, SystemUnits, TimeUnit,
};

#[test]
fn sort_order_tokens() {
    assert_eq!(SortOrder::Ascending.token(), "ASC");
    assert_eq!(SortOrder::Descending.token(), "DESC");
    assert_eq!(SortOrder::Ascending.to_string(), "ASC");
}

#[test]
fn serialize_only_tokens() {
    assert_eq!(SiteSortBy::PeakPower.token(), "PeakPower");
    assert_eq!(SiteSortBy::CreationTime.to_string(), "CreationTime");
    assert_eq!(SystemUnits::Metrics.token(), "Metrics");
    assert_eq!(SystemUnits::Imperial.token(), "Imperial");
    assert_eq!(AccountSortBy::Fax.token(), "Fax");
}

#[test]
fn time_unit_round_trip() {
    let all = [
        TimeUnit::QuarterOfAnHour,
        TimeUnit::Hour,
        TimeUnit::Day,
        TimeUnit::Week,
        TimeUnit::Month,
        TimeUnit::Year,
    ];
    for u in all {
        assert_eq!(TimeUnit::from_token(u.token()), Some(u));
    }
    assert_eq!(TimeUnit::QuarterOfAnHour.token(), "QUARTER_OF_AN_HOUR");
    assert_eq!(TimeUnit::from_token("DAY"), Some(TimeUnit::Day));
    assert_eq!(TimeUnit::from_token("Day"), None);
    assert_eq!(TimeUnit::from_token(""), None);
}

#[test]
fn status_round_trip() {
    for s in [SiteStatus::Active, SiteStatus::Pending, SiteStatus::Disabled, SiteStatus::All] {
        assert_eq!(SiteStatus::from_token(s.token()), Some(s));
        assert_eq!(s.to_string(), s.token());
    }
    for s in [
        FilterSiteStatus::Active,
        FilterSiteStatus::Pending,
        FilterSiteStatus::PendingCommunication,
        FilterSiteStatus::Disabled,
        FilterSiteStatus::All,
    ] {
        assert_eq!(FilterSiteStatus::from_token(s.token()), Some(s));
    }
    assert_eq!(FilterSiteStatus::PendingCommunication.to_string(), "PendingCommunication");
    assert_eq!(SiteStatus::from_token("PendingCommunication"), None);
}

#[test]
fn meter_tokens() {
    for m in [
        MeterType::Production,
        MeterType::Consumption,
        MeterType::SelfConsumption,
        MeterType::FeedIn,
        MeterType::Purchased,
    ] {
        assert_eq!(MeterType::from_token(m.token()), Some(m));
    }
    assert_eq!(MeterType::FeedIn.to_string(), "FeedIn");
    assert_eq!(MeterForm::from_token("physical"), Some(MeterForm::Physical));
    assert_eq!(MeterForm::Virtual.token(), "virtual");
    assert_eq!(MeterForm::from_token("Physical"), None);
}

#[test]
fn inverter_mode_tokens() {
    assert_eq!(InverterMode::Mppt.token(), "MPPT");
    assert_eq!(InverterMode::ShuttingDown.token(), "SHUTTING_DOWN");
    assert_eq!(InverterMode::from_token("LOCKED_INV_ARC_DETECTED"), Some(InverterMode::LockedInvArcDetected));
    assert_eq!(InverterMode::from_token("LOCKED_PRE_COMMISSIONING"), Some(InverterMode::LockedPreCommissioning));
    assert_eq!(InverterMode::from_token("NIGHT"), None);
    for m in [InverterMode::Off, InverterMode::Sleeping, InverterMode::LockedDg, InverterMode::LockedInternal] {
        assert_eq!(InverterMode::from_token(m.token()), Some(m));
    }
}

#[test]
fn power_flow_tokens() {
    assert_eq!(PowerFlowElement::from_token("GRID"), Some(PowerFlowElement::Grid));
    assert_eq!(PowerFlowElement::from_token("Load"), Some(PowerFlowElement::Load));
    assert_eq!(PowerFlowElement::from_token("PV"), Some(PowerFlowElement::Pv));
    assert_eq!(PowerFlowElement::from_token("STORAGE"), None);
    assert_eq!(PowerFlowElementStatus::from_token("Idle"), Some(PowerFlowElementStatus::Idle));
    assert_eq!(GasEmissionUnit::from_token("kg"), Some(GasEmissionUnit::Kg));
    assert_eq!(GasEmissionUnit::Lb.token(), "lb");
}

#[test]
fn open_enums_keep_unknown_tokens() {
    assert_eq!(EnergyUnit::from_token("Wh"), EnergyUnit::Wh);
    assert_eq!(EnergyUnit::from_token("kWh"), EnergyUnit::Other("kWh".to_string()));
    assert_eq!(EnergyUnit::Other("kWh".to_string()).token(), "kWh");
    assert_eq!(PowerUnit::from_token("kW"), PowerUnit::Kw);
    assert_eq!(PowerUnit::from_token("W"), PowerUnit::W);
    assert_eq!(PowerUnit::from_token("MW"), PowerUnit::Other("MW".to_string()));
    assert_eq!(Measurer::from_token("INVERTER"), Measurer::Inverter);
    assert_eq!(Measurer::from_token("METER"), Measurer::Other("METER".to_string()));
    assert_eq!(EquipmentCommunicationMethod::from_token("ETHERNET"), EquipmentCommunicationMethod::Ethernet);
    assert_eq!(
        EquipmentCommunicationMethod::from_token("WIFI"),
        EquipmentCommunicationMethod::Other("WIFI".to_string())
    );
    assert_eq!(SensorType::from_token("IRRADIANCE"), SensorType::Irradiance);
    assert_eq!(SensorType::from_token("Irradiance"), SensorType::Other("Irradiance".to_string()));
    assert_eq!(
        SensorMeasurement::from_token("SensorAmbientTemperature"),
        SensorMeasurement::SensorAmbientTemperature
    );
    for u in [PowerUnit::W, PowerUnit::Kw, PowerUnit::Other("GW".to_string())] {
        assert_eq!(PowerUnit::from_token(u.token()), u);
    }
}

#[test]
fn integer_coded_enums() {
    assert_eq!(OperationMode::from_code(0), Some(OperationMode::OnGrid));
    assert_eq!(OperationMode::from_code(2), Some(OperationMode::OffGridWithGenerator));
    assert_eq!(OperationMode::from_code(3), None);
    assert_eq!(OperationMode::OffGridWithPvOrBattery.code(), 1);
    assert_eq!(BatteryState::from_code(4), Some(BatteryState::Fault));
    assert_eq!(BatteryState::from_code(5), None);
    assert_eq!(BatteryState::ThermalManagement.code(), 2);
    for b in [BatteryState::Invalid, BatteryState::Standby, BatteryState::Enabled] {
        assert_eq!(BatteryState::from_code(b.code()), Some(b));
    }
}
