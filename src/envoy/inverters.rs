//! Per-microinverter readings of the gateway.

use vstd::prelude::*;

verus! {

/// The last report of one microinverter. `last_report_date` is in seconds
/// since the epoch.
#[derive(Clone, Debug, PartialEq, Eq)]
pub struct Inverter {
    pub serial_number: String,
    pub last_report_date: i64,
    pub dev_type: u8,
    pub last_report_watts: i16,
    pub max_report_watts: u16,
}

} // verus!
