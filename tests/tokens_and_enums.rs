use enphase::cloud::Client;
use enphase::cloud::ConnectionType;
use enphase::cloud::Granularity;
use enphase::envoy::DeviceStatus;
use enphase::envoy::MeasurementType;
use enphase::envoy::StorageState;
use enphase::envoy::StorageType;
use std::str::FromStr;

#[test]
fn granularity_fifteen_minutes_token() {
    assert_eq!(Granularity::FifteenMinutes.to_string(), "15mins");
    assert_eq!(Granularity::FifteenMinutes.as_str(), "15mins");
    assert_eq!(Granularity::Week.as_str(), "week");
    assert_eq!(Granularity::Day.as_str(), "day");
}

#[test]
fn granularity_parses_known_tokens() {
    assert_eq!(Granularity::parse("15mins").unwrap(), Granularity::FifteenMinutes);
    assert_eq!(Granularity::from_str("week").unwrap(), Granularity::Week);
    assert_eq!(Granularity::from_str("day").unwrap(), Granularity::Day);
}

#[test]
fn granularity_round_trips() {
    for g in [Granularity::Week, Granularity::Day, Granularity::FifteenMinutes] {
        assert_eq!(Granularity::parse(&g.to_string()).unwrap(), g);
    }
}

#[test]
fn granularity_rejects_other_tokens() {
    let e = Granularity::parse("hourly").unwrap_err();
    assert_eq!(e.0, "hourly");
    assert_eq!(e.message(), "Invalid granularity \"hourly\"");
    assert_eq!(e.to_string(), "Invalid granularity \"hourly\"");
    assert!(Granularity::parse("15MINS").is_err());
    assert!(Granularity::parse("").is_err());
}

#[test]
fn granularity_from_str_refuses_near_misses() {
    for token in ["15MINS", "Week", " day", ""] {
        let e = Granularity::from_str(token).unwrap_err();
        assert_eq!(e.0, token);
    }
    assert_eq!(Granularity::from_str("15mins").unwrap(), Granularity::FifteenMinutes);
}

#[test]
fn connection_type_tokens() {
    assert_eq!(ConnectionType::parse("ethernet").unwrap(), ConnectionType::Ethernet);
    assert_eq!(ConnectionType::from_str("wifi").unwrap(), ConnectionType::WiFi);
    let e = ConnectionType::parse("cellular").unwrap_err();
    assert_eq!(e.0, "cellular");
    assert_eq!(e.message(), "Invalid connection type \"cellular\"");
    let e = ConnectionType::from_str("WiFi").unwrap_err();
    assert_eq!(e.message(), "Invalid connection type \"WiFi\"");
}

#[test]
fn device_status_tokens() {
    assert_eq!(DeviceStatus::parse("envoy.global.ok").unwrap(), DeviceStatus::GlobalOk);
    assert_eq!(
        DeviceStatus::parse("envoy.cond_flags.pcu_chan.dcvoltagetoolow").unwrap(),
        DeviceStatus::DcVoltageTooLow
    );
    assert_eq!(DeviceStatus::from_str("envoy.cond_flags.pcu_ctrl.dc-pwr-low").unwrap(), DeviceStatus::DcPowerLow);
    assert_eq!(DeviceStatus::parse("envoy.cond_flags.obs_strs.failure").unwrap(), DeviceStatus::Failure);
    let e = DeviceStatus::parse("envoy.global.bad").unwrap_err();
    assert_eq!(e.message(), "invalid enum value \"envoy.global.bad\"");
}

#[test]
fn storage_and_measurement_tokens() {
    assert_eq!(StorageType::parse("acb").unwrap(), StorageType::Acb);
    assert!(StorageType::parse("ACB").is_err());
    assert_eq!(StorageState::from_str("idle").unwrap(), StorageState::Idle);
    assert_eq!(StorageState::parse("charging").unwrap_err().0, "charging");
    assert_eq!(MeasurementType::parse("production").unwrap(), MeasurementType::Production);
    assert_eq!(MeasurementType::parse("total-consumption").unwrap(), MeasurementType::TotalConsumption);
    assert_eq!(MeasurementType::parse("net-consumption").unwrap(), MeasurementType::NetConsumption);
    assert_eq!(MeasurementType::NetConsumption.as_str(), "net-consumption");
    assert!(MeasurementType::parse("consumption").is_err());
}

#[test]
fn export_after_preauth_gives_the_pair_back() {
    let client = Client::preauth("k", "id".to_string(), "secret".to_string(), "A".to_string(), "R".to_string());
    let tokens = client.tokens();
    assert_eq!(tokens.access, "A");
    assert_eq!(tokens.refresh, "R");
}
