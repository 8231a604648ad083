//! A reading of a whole installation, from either source.

use vstd::prelude::*;
use crate::calendar::earliest_instant;
use crate::calendar::epoch_day;
use crate::calendar::MIN_YEAR;
use crate::calendar::SECONDS_PER_DAY;
use crate::cloud::MicroinverterProduction;
use crate::envoy::Inverter;

verus! {

/// The earliest instant there is, in seconds since the epoch.
pub open spec fn earliest() -> int {
    SECONDS_PER_DAY * epoch_day(MIN_YEAR as int, 1, 1)
}

/// The latest report date among the inverters, or `floor` when it is later.
pub open spec fn latest_report(s: Seq<Inverter>, floor: int) -> int
    decreases s.len(),
{
    if s.len() == 0 {
        floor
    } else {
        let before = latest_report(s.drop_last(), floor);
        if s.last().last_report_date as int > before {
            s.last().last_report_date as int
        } else {
            before
        }
    }
}

/// The sum of the inverters' last reported power.
pub open spec fn total_watts(s: Seq<Inverter>) -> int
    decreases s.len(),
{
    if s.len() == 0 {
        0
    } else {
        total_watts(s.drop_last()) + s.last().last_report_watts as int
    }
}

/// The sum of the inverters' last reported power in 32-bit two's complement:
/// each addition wraps around.
pub open spec fn wrapped_total_watts(s: Seq<Inverter>) -> i32
    decreases s.len(),
{
    if s.len() == 0 {
        0
    } else {
        vstd::wrapping::i32_specs::wrapping_add(wrapped_total_watts(s.drop_last()), s.last().last_report_watts as i32)
    }
}

/// Power of a whole installation at one moment.
#[derive(Clone, Copy, Debug, PartialEq, Eq, Structural)]
pub struct AggregateProduction {
    /// When the reading was taken, in seconds since the epoch.
    pub timestamp: i64,
    pub inverters_reporting: u16,
    pub instantaneous_power_watts: i32,
}

impl AggregateProduction {
    /// The reading of no inverters: at the earliest instant, with no power.
    pub fn empty() -> (r: AggregateProduction)
        ensures
            r.timestamp == earliest(),
            r.inverters_reporting == 0,
            r.instantaneous_power_watts == 0,
    {
        AggregateProduction { timestamp: earliest_instant(), inverters_reporting: 0, instantaneous_power_watts: 0 }
    }

    /// Sums the inverters' readings: their count, the latest of their report
    /// dates (or the earliest instant when there are none) and the sum of
    /// their power. The count is kept in 16 bits and the sum in 32, both
    /// wrapping around; up to 65535 inverters neither wraps.
    pub fn from_inverters(raw: &[Inverter]) -> (r: AggregateProduction)
        ensures
            r.inverters_reporting == raw@.len() % 0x1_0000,
            r.timestamp == latest_report(raw@, earliest()),
            r.instantaneous_power_watts == wrapped_total_watts(raw@),
            raw@.len() <= u16::MAX ==> r.instantaneous_power_watts == total_watts(raw@),
    {
        let mut aggregate = AggregateProduction::empty();
        aggregate.inverters_reporting = (raw.len() % 0x1_0000) as u16;
        let mut i: usize = 0;
        while i < raw.len()
            invariant
                i <= raw@.len(),
                aggregate.inverters_reporting == raw@.len() % 0x1_0000,
                aggregate.timestamp == latest_report(raw@.subrange(0, i as int), earliest()),
                aggregate.instantaneous_power_watts == wrapped_total_watts(raw@.subrange(0, i as int)),
                raw@.len() <= u16::MAX ==> aggregate.instantaneous_power_watts == total_watts(
                    raw@.subrange(0, i as int),
                ),
                -32768 * i <= total_watts(raw@.subrange(0, i as int)) <= 32767 * i,
            decreases raw@.len() - i,
        {
            let inverter = &raw[i];
            proof {
                assert(raw@.subrange(0, i + 1).drop_last() =~= raw@.subrange(0, i as int));
            }
            if inverter.last_report_date > aggregate.timestamp {
                aggregate.timestamp = inverter.last_report_date;
            }
            aggregate.instantaneous_power_watts = aggregate.instantaneous_power_watts.wrapping_add(
                inverter.last_report_watts as i32,
            );
            i = i + 1;
        }
        assert(raw@.subrange(0, raw@.len() as int) =~= raw@);
        aggregate
    }
}

impl Default for AggregateProduction {
    fn default() -> (r: AggregateProduction)
        ensures
            r.timestamp == earliest(),
            r.inverters_reporting == 0,
            r.instantaneous_power_watts == 0,
    {
        AggregateProduction::empty()
    }
}

impl From<MicroinverterProduction> for AggregateProduction {
    /// The reading at the end of a telemetry interval.
    fn from(raw: MicroinverterProduction) -> (r: AggregateProduction) {
        AggregateProduction {
            timestamp: raw.end_at,
            inverters_reporting: raw.devices_reporting,
            instantaneous_power_watts: raw.instantaneous_power_watts,
        }
    }
}

impl vstd::std_specs::convert::FromSpecImpl<MicroinverterProduction> for AggregateProduction {
    open spec fn obeys_from_spec() -> bool {
        true
    }

    open spec fn from_spec(raw: MicroinverterProduction) -> AggregateProduction {
        AggregateProduction {
            timestamp: raw.end_at,
            inverters_reporting: raw.devices_reporting,
            instantaneous_power_watts: raw.instantaneous_power_watts,
        }
    }
}

} // verus!
