use enphase::calendar::Date;
use enphase::cloud::lifetime_series;
use enphase::cloud::LifetimeProduction;
use enphase::cloud::MicroinverterProduction;
use enphase::envoy::gateway_base_url;
use enphase::envoy::Consumption;
use enphase::envoy::Device;
use enphase::envoy::DeviceControl;
use enphase::envoy::DeviceStatus;
use enphase::envoy::Inventory;
use enphase::envoy::Inverter;
use enphase::envoy::MeasurementType;
use enphase::envoy::Measured;
use enphase::envoy::Production;
use enphase::envoy::ProductionCategory;
use enphase::envoy::Section;
use enphase::envoy::SectionError;
use enphase::envoy::SectionedRecord;
use enphase::text::decimal_text;
use enphase::text::padded_text;
use enphase::AggregateProduction;

fn device(status: Vec<DeviceStatus>, last_rpt_date: i64, on: bool) -> Device {
    Device {
        part_num: "800-00661-r08".to_string(),
        installed: 1571245440,
        serial_num: "121816047176".to_string(),
        device_status: status,
        last_rpt_date,
        admin_state: 1,
        dev_type: 1,
        created_date: 1571245440,
        img_load_date: 1575566582,
        img_pnum_running: "520-00071-r01-v02.14.02".to_string(),
        ptpn: "540-00131-r01-v02.14.04".to_string(),
        chaneid: 1627390225,
        device_control: vec![DeviceControl { gficlearset: false }],
        producing: on,
        communicating: on,
        provisioned: on,
        operating: false,
    }
}

fn section(kind: &str, devices: Vec<Device>) -> Section<Vec<Device>> {
    Section { kind: kind.to_string(), payload: devices }
}

#[test]
fn lifetime_series_dates_each_total() {
    let answer = LifetimeProduction { start_date: Date::new(2022, 1, 1).unwrap(), production: vec![10, 20, 30] };
    assert_eq!(
        lifetime_series(&answer),
        vec![(1640995200, 10), (1641081600, 20), (1641168000, 30)]
    );
}

#[test]
fn lifetime_series_crosses_a_leap_day() {
    let answer = LifetimeProduction { start_date: Date::new(2024, 2, 28).unwrap(), production: vec![1, 2, 3] };
    let series = lifetime_series(&answer);
    assert_eq!(series[0].0, 1709078400);
    assert_eq!(series[1].0, 1709164800);
    assert_eq!(series[2].0, 1709251200);
    let empty = LifetimeProduction { start_date: Date::new(2024, 2, 28).unwrap(), production: vec![] };
    assert!(lifetime_series(&empty).is_empty());
}

#[test]
fn dates_are_checked_and_written() {
    assert!(Date::new(2023, 2, 29).is_none());
    assert!(Date::new(2024, 2, 29).is_some());
    assert!(Date::new(2022, 13, 1).is_none());
    assert!(Date::new(2022, 4, 31).is_none());
    assert_eq!(Date::new(2022, 12, 23).unwrap().to_text(), "2022-12-23");
    assert_eq!(Date::new(987, 3, 4).unwrap().to_text(), "0987-03-04");
    assert_eq!(Date::new(1970, 1, 1).unwrap().midnight_utc(), 0);
    assert_eq!(Date::new(1969, 12, 31).unwrap().midnight_utc(), -86400);
}

#[test]
fn numbers_are_written_in_decimal() {
    assert_eq!(decimal_text(0), "0");
    assert_eq!(decimal_text(4294967295), "4294967295");
    assert_eq!(padded_text(7, 2), "07");
    assert_eq!(padded_text(2022, 4), "2022");
}

// The two tests below hold the devices that the gateway's inventory answers
// carry, written out by hand as tagged sections: the JSON decoding of those
// answers is done outside the library, and what is checked here is the fold of
// the sections into the inventory.

#[test]
fn test_deserialize_whole_inventory() {
    let pcu = device(vec![DeviceStatus::GlobalOk], 1670868959, true);
    let inventory = Inventory::from_sections(vec![
        section("PCU", vec![pcu.clone()]),
        section("ACB", vec![]),
        section("NSRB", vec![]),
    ])
    .unwrap();
    assert_eq!(inventory.acb, vec![]);
    assert_eq!(inventory.nsrb, vec![]);
    assert_eq!(inventory.pcu[0], pcu);
}

#[test]
fn test_deserialize_whole_inventory_2() {
    let pcu = device(vec![DeviceStatus::DcPowerLow, DeviceStatus::Failure], 1671053563, false);
    let inventory = Inventory::from_sections(vec![
        section("PCU", vec![pcu.clone()]),
        section("ACB", vec![]),
        section("NSRB", vec![]),
    ])
    .unwrap();
    assert_eq!(inventory.acb, vec![]);
    assert_eq!(inventory.nsrb, vec![]);
    assert_eq!(inventory.pcu[0], pcu);
}

#[test]
fn inventory_without_nsrb_is_missing_a_section() {
    let e = Inventory::from_sections(vec![section("PCU", vec![]), section("ACB", vec![])]).unwrap_err();
    assert_eq!(e, SectionError::Missing(SectionedRecord::Inventory, "NSRB".to_string()));
    assert_eq!(e.message(), "Missing 'NSRB' inventory section");
    let e = Inventory::from_sections(vec![]).unwrap_err();
    assert_eq!(e, SectionError::Missing(SectionedRecord::Inventory, "PCU".to_string()));
    assert_eq!(e.message(), "Missing 'PCU' inventory section");
    let e = Inventory::from_sections(vec![section("PCU", vec![]), section("NSRB", vec![])]).unwrap_err();
    assert_eq!(e.message(), "Missing 'ACB' inventory section");
}

#[test]
fn inventory_with_unknown_kind_is_refused() {
    let e = Inventory::from_sections(vec![
        section("PCU", vec![]),
        section("ACB", vec![]),
        section("XYZ", vec![]),
        section("NSRB", vec![]),
    ])
    .unwrap_err();
    assert_eq!(e, SectionError::Unknown(SectionedRecord::Inventory, "XYZ".to_string()));
    assert_eq!(e.message(), "Unknown inventory section 'XYZ'");
    let e = Inventory::from_sections(vec![section("XYZ", vec![])]).unwrap_err();
    assert_eq!(e.message(), "Unknown inventory section 'XYZ'");
}

#[test]
fn inventory_keeps_the_last_section_of_a_kind() {
    let first = device(vec![DeviceStatus::GlobalOk], 1, true);
    let second = device(vec![DeviceStatus::Failure], 2, false);
    let inventory = Inventory::from_sections(vec![
        section("PCU", vec![first]),
        section("NSRB", vec![]),
        section("ACB", vec![]),
        section("PCU", vec![second.clone()]),
    ])
    .unwrap();
    assert_eq!(inventory.pcu, vec![second]);
}

#[test]
fn production_sections_fold() {
    let sections = vec![
        ProductionCategory::Summary(164u32),
        ProductionCategory::Detail(Measured { measurement_type: MeasurementType::Production, inner: "eim" }),
    ];
    let production = Production::from_sections(sections).unwrap();
    assert_eq!(production, Production { summary: 164, detail: "eim" });
    let missing: Result<Production<u32, &str>, SectionError> =
        Production::from_sections(vec![ProductionCategory::Summary(1u32)]);
    let e = missing.unwrap_err();
    assert_eq!(e, SectionError::Missing(SectionedRecord::Production, "eim".to_string()));
    assert_eq!(e.message(), "Missing 'eim' production section");
    let missing: Result<Production<u32, &str>, SectionError> = Production::from_sections(vec![
        ProductionCategory::Detail(Measured { measurement_type: MeasurementType::Production, inner: "eim" }),
    ]);
    let e = missing.unwrap_err();
    assert_eq!(e, SectionError::Missing(SectionedRecord::Production, "inverters".to_string()));
    assert_eq!(e.message(), "Missing 'inverters' production section");
}

#[test]
fn consumption_sections_fold() {
    let total = Measured { measurement_type: MeasurementType::TotalConsumption, inner: 1 };
    let net = Measured { measurement_type: MeasurementType::NetConsumption, inner: 2 };
    let consumption = Consumption::from_sections(vec![net.clone(), total.clone()]).unwrap();
    assert_eq!(consumption, Consumption { total: 1, net: 2 });
    let e = Consumption::from_sections(vec![
        total.clone(),
        Measured { measurement_type: MeasurementType::Production, inner: 3 },
    ])
    .unwrap_err();
    assert_eq!(e, SectionError::Unexpected(SectionedRecord::Consumption, "production".to_string()));
    assert_eq!(e.message(), "Found unexpected consumption section 'production'");
    let e = Consumption::from_sections(vec![total.clone(), total]).unwrap_err();
    assert_eq!(e, SectionError::Missing(SectionedRecord::Consumption, "net-consumption".to_string()));
    assert_eq!(e.message(), "Missing 'net-consumption' consumption section");
    let e = Consumption::from_sections(vec![net.clone(), net]).unwrap_err();
    assert_eq!(e.message(), "Missing 'total-consumption' consumption section");
}

#[test]
fn aggregate_of_inverters() {
    let inverters = vec![
        Inverter {
            serial_number: "121817002899".to_string(),
            last_report_date: 1670955839,
            dev_type: 1,
            last_report_watts: 55,
            max_report_watts: 245,
        },
        Inverter {
            serial_number: "121816046692".to_string(),
            last_report_date: 1671053554,
            dev_type: 1,
            last_report_watts: -4,
            max_report_watts: 248,
        },
        Inverter {
            serial_number: "121817001633".to_string(),
            last_report_date: 1670955788,
            dev_type: 1,
            last_report_watts: 85,
            max_report_watts: 248,
        },
    ];
    let aggregate = AggregateProduction::from_inverters(&inverters);
    assert_eq!(aggregate.inverters_reporting, 3);
    assert_eq!(aggregate.timestamp, 1671053554);
    assert_eq!(aggregate.instantaneous_power_watts, 136);
}

#[test]
fn aggregate_count_and_sum_wrap_past_their_widths() {
    let inverter = Inverter {
        serial_number: "1".to_string(),
        last_report_date: 10,
        dev_type: 1,
        last_report_watts: 32767,
        max_report_watts: 300,
    };
    let many = vec![inverter; 65537];
    let aggregate = AggregateProduction::from_inverters(&many);
    assert_eq!(aggregate.inverters_reporting, 1);
    assert_eq!(aggregate.timestamp, 10);
    assert_eq!(aggregate.instantaneous_power_watts, (32767i64 * 65537).rem_euclid(1 << 32) as u32 as i32);
}

#[test]
fn aggregate_defaults_to_the_earliest_instant() {
    let empty = AggregateProduction::from_inverters(&[]);
    assert_eq!(empty.timestamp, -8334601228800);
    assert_eq!(empty.inverters_reporting, 0);
    assert_eq!(AggregateProduction::default(), empty);
}

#[test]
fn aggregate_of_an_interval() {
    let interval = MicroinverterProduction {
        end_at: 1671800400,
        devices_reporting: 58,
        instantaneous_power_watts: 2430,
        energy_this_interval_wh: 604,
    };
    let aggregate = AggregateProduction::from(interval);
    assert_eq!(
        aggregate,
        AggregateProduction { timestamp: 1671800400, inverters_reporting: 58, instantaneous_power_watts: 2430 }
    );
}

#[test]
fn gateway_base_gets_a_trailing_slash() {
    assert_eq!(gateway_base_url("http://envoy.local"), "http://envoy.local/");
    assert_eq!(gateway_base_url("http://envoy.local/"), "http://envoy.local/");
    assert_eq!(gateway_base_url(""), "/");
}
