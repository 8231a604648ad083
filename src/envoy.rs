//! The local gateway: device inventory, per-inverter readings and the
//! production and consumption meters.

use vstd::prelude::*;
use vstd::string::*;

mod inventory;
mod inverters;
mod production;
mod sections;

pub use inventory::device_status_of_token;
pub use inventory::first_unknown_kind;
pub use inventory::is_inventory_kind;
pub use inventory::inventory_complete;
pub use inventory::lemma_inventory_acceptance;
pub use inventory::lemma_inventory_refusals;
pub use inventory::Device;
pub use inventory::DeviceControl;
pub use inventory::DeviceStatus;
pub use inventory::Inventory;
pub use inverters::Inverter;
pub use production::has_production_section;
pub use production::last_detail;
pub use production::last_measured;
pub use production::last_summary;
pub use production::measurement_type_of_token;
pub use production::measurement_type_token;
pub use production::Consumption;
pub use production::MeasurementType;
pub use production::Measured;
pub use production::Production;
pub use production::ProductionCategory;
pub use production::StorageState;
pub use production::StorageType;
pub use sections::last_of_kind;
pub use sections::lemma_last_of_kind_present;
pub use sections::InvalidValue;
pub use sections::Section;
pub use sections::record_name;
pub use sections::SectionError;
pub use sections::SectionedRecord;

verus! {

/// The gateway's base URL as requests are joined onto it: ending in `/`.
pub open spec fn gateway_base(s: Seq<char>) -> Seq<char> {
    if s.len() > 0 && s.last() == '/' {
        s
    } else {
        s.push('/')
    }
}

/// Adds the `/` that the base URL needs at its end, when it lacks one.
pub fn gateway_base_url(base_url: &str) -> (r: String)
    ensures
        r@ == gateway_base(base_url@),
{
    let n = base_url.unicode_len();
    if n > 0 && base_url.get_char(n - 1) == '/' {
        String::from_str(base_url)
    } else {
        proof {
            reveal_strlit("/");
        }
        let mut s = String::from_str(base_url);
        s.append("/");
        assert(s@ =~= base_url@.push('/'));
        s
    }
}

/// Path of the gateway's status page (no authentication).
pub const HOME_PATH: &'static str = "home.json";

/// Path of the gateway's device description, in XML (no authentication).
pub const INFO_PATH: &'static str = "info.xml";

/// Path of the device inventory (no authentication).
pub const INVENTORY_PATH: &'static str = "inventory.json";

/// Path of the per-microinverter readings (digest authentication).
pub const INVERTERS_PATH: &'static str = "api/v1/production/inverters";

/// Path of the production and consumption meters, with details.
pub const PRODUCTION_PATH: &'static str = "production.json?details=1";

}
