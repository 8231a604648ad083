//! A handle on one system of the account, and the records its queries return.

use vstd::prelude::*;
use vstd::string::*;
use crate::calendar::date_text;
use crate::calendar::max_epoch_day;
use crate::calendar::Date;
use crate::calendar::SECONDS_PER_DAY;
use crate::text::decimal;
use crate::text::decimal_text;
use crate::text::joined;
use super::connection_type::ConnectionType;
use super::credentials::is_bearer_header;
use super::credentials::CredentialStore;
use super::granularity::granularity_token;
use super::granularity::Granularity;

verus! {

/// Where a system is installed.
#[derive(Clone, Debug)]
pub struct Address {
    pub country: String,
    pub state: String,
    pub postal_code: String,
}

/// What the service reports of one system when the account's systems are
/// listed. Instants are seconds since the epoch; `system_size` is the bit
/// pattern of the size in kW as a 32-bit float.
#[derive(Clone, Debug)]
pub struct SystemRecord {
    pub system_id: u32,
    pub name: String,
    pub public_name: String,
    pub timezone: String,
    pub address: Address,
    pub connection_type: ConnectionType,
    pub status: String,
    pub last_report_at: i64,
    pub last_energy_at: i64,
    pub operational_at: i64,
    pub attachment_type: Option<String>,
    pub interconnect_date: Option<Date>,
    pub other_references: Vec<String>,
    pub energy_lifetime: u64,
    pub energy_today: u32,
    pub system_size: Option<u32>,
}

/// Telemetry of all microinverters of a system over one interval.
#[derive(Clone, Copy, Debug, PartialEq, Eq, Structural)]
pub struct MicroinverterProduction {
    /// End of the interval, in seconds since the epoch.
    pub end_at: i64,
    pub devices_reporting: u16,
    pub instantaneous_power_watts: i32,
    pub energy_this_interval_wh: u32,
}

/// The lifetime production answer: the first day and one total per day from it.
#[derive(Clone, Debug)]
pub struct LifetimeProduction {
    pub start_date: Date,
    pub production: Vec<u32>,
}

/// Whether two records describe a system alike: every field equal, the list
/// of references holding the same texts.
pub open spec fn same_description(a: SystemRecord, b: SystemRecord) -> bool {
    &&& a.system_id == b.system_id
    &&& a.name == b.name
    &&& a.public_name == b.public_name
    &&& a.timezone == b.timezone
    &&& a.address == b.address
    &&& a.connection_type == b.connection_type
    &&& a.status == b.status
    &&& a.last_report_at == b.last_report_at
    &&& a.last_energy_at == b.last_energy_at
    &&& a.operational_at == b.operational_at
    &&& a.attachment_type == b.attachment_type
    &&& a.interconnect_date == b.interconnect_date
    &&& a.other_references@ == b.other_references@
    &&& a.energy_lifetime == b.energy_lifetime
    &&& a.energy_today == b.energy_today
    &&& a.system_size == b.system_size
}

/// Start of every per-system URL.
pub open spec fn system_base(system_id: u32) -> Seq<char> {
    "https://api.enphaseenergy.com/api/v4/systems/"@ + decimal(system_id as nat)
}

/// URL of the summary of a system (first page only).
pub open spec fn summary_url(system_id: u32, api_key_query: Seq<char>) -> Seq<char> {
    system_base(system_id) + "/summary?"@ + api_key_query + "&size=100"@
}

/// `&<name>=<date>` for a present date, nothing for an absent one.
pub open spec fn date_arg(name: Seq<char>, date: Option<Date>) -> Seq<char> {
    match date {
        Some(d) => "&"@ + name + "="@ + date_text(d.year as int, d.month as int, d.day as int),
        None => Seq::empty(),
    }
}

/// URL of the daily lifetime production of a system.
pub open spec fn lifetime_production_url(
    system_id: u32,
    api_key_query: Seq<char>,
    start: Option<Date>,
    end: Option<Date>,
    include_split_meter_and_microinverters: bool,
) -> Seq<char> {
    system_base(system_id) + "/energy_lifetime?"@ + api_key_query + date_arg("start_date"@, start)
        + date_arg("end_date"@, end) + if include_split_meter_and_microinverters {
        "&production=all"@
    } else {
        Seq::empty()
    }
}

/// URL of the microinverter telemetry of a system from a date on.
pub open spec fn microinverter_production_url(
    system_id: u32,
    api_key_query: Seq<char>,
    start: Date,
    granularity: Option<Granularity>,
) -> Seq<char> {
    system_base(system_id) + "/telemetry/production_micro?"@ + api_key_query + date_arg(
        "start_date"@,
        Some(start),
    ) + match granularity {
        Some(g) => "&granularity="@ + granularity_token(g),
        None => Seq::empty(),
    }
}

pub open spec fn date_ok(date: Option<Date>) -> bool {
    match date {
        Some(d) => d.wf(),
        None => true,
    }
}

/// Last day number that a date may have, that of 262142-12-31.
const MAX_DAY_NUMBER: i128 = 95026236;

/// Whether every day of the series of `answer` is a date that can be
/// represented, which [`lifetime_series`] needs.
pub fn lifetime_series_fits(answer: &LifetimeProduction) -> (r: bool)
    requires
        answer.start_date.wf(),
    ensures
        r == (answer.start_date.day_number() + answer.production@.len() <= max_epoch_day() + 1),
{
    assert(max_epoch_day() == MAX_DAY_NUMBER);
    let start = answer.start_date.midnight_utc() as i128;
    let days = answer.production.len() as i128;
    start + 86400 * days <= 86400 * (MAX_DAY_NUMBER + 1)
}

/// The daily series of a lifetime production answer: entry `i` is midnight
/// UTC of the day `i` days after the start, with the `i`-th total.
pub fn lifetime_series(answer: &LifetimeProduction) -> (r: Vec<(i64, u32)>)
    requires
        answer.start_date.wf(),
        answer.start_date.day_number() + answer.production@.len() <= max_epoch_day() + 1,
    ensures
        r@.len() == answer.production@.len(),
        forall|i: int|
            0 <= i < r@.len() ==> #[trigger] r@[i] == (
                (SECONDS_PER_DAY * (answer.start_date.day_number() + i)) as i64,
                answer.production@[i],
            ),
{
    let n = answer.production.len();
    let mut out: Vec<(i64, u32)> = Vec::new();
    let mut at = answer.start_date.midnight_utc();
    let mut i: usize = 0;
    while i < n
        invariant
            n == answer.production@.len(),
            i <= n,
            answer.start_date.wf(),
            answer.start_date.day_number() + n <= max_epoch_day() + 1,
            i < n ==> at == SECONDS_PER_DAY * (answer.start_date.day_number() + i),
            out@.len() == i,
            forall|j: int|
                0 <= j < i ==> #[trigger] out@[j] == (
                    (SECONDS_PER_DAY * (answer.start_date.day_number() + j)) as i64,
                    answer.production@[j],
                ),
        decreases n - i,
    {
        assert(max_epoch_day() == 95026236);
        out.push((at, answer.production[i]));
        i = i + 1;
        if i < n {
            at = at + SECONDS_PER_DAY;
        }
    }
    out
}

/// A handle on one system. Its descriptive fields are what the listing
/// reported; its credentials are the session's own store, read afresh for
/// every request.
pub struct System {
    auth_header: CredentialStore,
    api_key_qstr: String,
    pub system_id: u32,
    pub name: String,
    pub public_name: String,
    pub timezone: String,
    pub address: Address,
    pub connection_type: ConnectionType,
    pub status: String,
    pub last_report_at: i64,
    pub last_energy_at: i64,
    pub operational_at: i64,
    pub attachment_type: Option<String>,
    pub interconnect_date: Option<Date>,
    pub other_references: Vec<String>,
    pub energy_lifetime: u64,
    pub energy_today: u32,
    pub system_size: Option<u32>,
}

impl System {
    /// The store this handle reads its bearer header from.
    pub closed spec fn credentials(&self) -> CredentialStore {
        self.auth_header
    }

    /// `key=<api key>` of the session this handle came from.
    pub closed spec fn api_key_query(&self) -> Seq<char> {
        self.api_key_qstr@
    }

    /// The descriptive fields, as listed.
    pub closed spec fn record(&self) -> SystemRecord {
        SystemRecord {
            system_id: self.system_id,
            name: self.name,
            public_name: self.public_name,
            timezone: self.timezone,
            address: self.address,
            connection_type: self.connection_type,
            status: self.status,
            last_report_at: self.last_report_at,
            last_energy_at: self.last_energy_at,
            operational_at: self.operational_at,
            attachment_type: self.attachment_type,
            interconnect_date: self.interconnect_date,
            other_references: self.other_references,
            energy_lifetime: self.energy_lifetime,
            energy_today: self.energy_today,
            system_size: self.system_size,
        }
    }

    /// A handle from a listed record, on the given store and key.
    pub fn from_record(auth_header: CredentialStore, api_key_qstr: String, record: SystemRecord) -> (r: System)
        ensures
            r.record() == record,
            r.credentials() == auth_header,
            r.api_key_query() == api_key_qstr@,
    {
        System {
            auth_header,
            api_key_qstr,
            system_id: record.system_id,
            name: record.name,
            public_name: record.public_name,
            timezone: record.timezone,
            address: record.address,
            connection_type: record.connection_type,
            status: record.status,
            last_report_at: record.last_report_at,
            last_energy_at: record.last_energy_at,
            operational_at: record.operational_at,
            attachment_type: record.attachment_type,
            interconnect_date: record.interconnect_date,
            other_references: record.other_references,
            energy_lifetime: record.energy_lifetime,
            energy_today: record.energy_today,
            system_size: record.system_size,
        }
    }

    /// Another handle on the same system: the same store, key and
    /// descriptive fields.
    pub fn share(&self) -> (r: System)
        ensures
            r.credentials().same_cell(&self.credentials()),
            r.api_key_query() == self.api_key_query(),
            same_description(r.record(), self.record()),
    {
        let attachment_type = match &self.attachment_type {
            Some(t) => Some(t.clone()),
            None => None,
        };
        let other_references = copy_texts(&self.other_references);
        assert(attachment_type == self.attachment_type);
        System {
            auth_header: self.auth_header.share(),
            api_key_qstr: self.api_key_qstr.clone(),
            system_id: self.system_id,
            name: self.name.clone(),
            public_name: self.public_name.clone(),
            timezone: self.timezone.clone(),
            address: Address {
                country: self.address.country.clone(),
                state: self.address.state.clone(),
                postal_code: self.address.postal_code.clone(),
            },
            connection_type: self.connection_type,
            status: self.status.clone(),
            last_report_at: self.last_report_at,
            last_energy_at: self.last_energy_at,
            operational_at: self.operational_at,
            attachment_type,
            interconnect_date: self.interconnect_date,
            other_references,
            energy_lifetime: self.energy_lifetime,
            energy_today: self.energy_today,
            system_size: self.system_size,
        }
    }

    /// The bearer header to send now: the store is read at each call, never
    /// kept in the handle.
    pub fn bearer_header(&self) -> (r: String)
        ensures
            is_bearer_header(r@),
    {
        self.auth_header.header()
    }

    fn base_url(&self) -> (r: String)
        ensures
            r@ == system_base(self.record().system_id),
    {
        let id = decimal_text(self.system_id as u64);
        joined("https://api.enphaseenergy.com/api/v4/systems/", id.as_str())
    }

    /// The URL of this system's summary.
    pub fn summary_url(&self) -> (r: String)
        ensures
            r@ == summary_url(self.record().system_id, self.api_key_query()),
    {
        let mut s = self.base_url();
        s.append("/summary?");
        s.append(self.api_key_qstr.as_str());
        s.append("&size=100");
        s
    }

    /// The URL of this system's daily lifetime production, bounded by the
    /// dates given.
    pub fn lifetime_production_url(
        &self,
        start_date: Option<Date>,
        end_date: Option<Date>,
        include_split_meter_and_microinverters: bool,
    ) -> (r: String)
        requires
            date_ok(start_date),
            date_ok(end_date),
        ensures
            r@ == lifetime_production_url(
                self.record().system_id,
                self.api_key_query(),
                start_date,
                end_date,
                include_split_meter_and_microinverters,
            ),
    {
        let mut s = self.base_url();
        s.append("/energy_lifetime?");
        s.append(self.api_key_qstr.as_str());
        append_date_arg(&mut s, "start_date", start_date);
        append_date_arg(&mut s, "end_date", end_date);
        if include_split_meter_and_microinverters {
            s.append("&production=all");
        }
        s
    }

    /// The URL of this system's microinverter telemetry from `start_date`
    /// on; without a granularity the service picks its own.
    pub fn microinverter_production_url(&self, start_date: Date, granularity: Option<Granularity>) -> (r: String)
        requires
            start_date.wf(),
        ensures
            r@ == microinverter_production_url(
                self.record().system_id,
                self.api_key_query(),
                start_date,
                granularity,
            ),
    {
        let mut s = self.base_url();
        s.append("/telemetry/production_micro?");
        s.append(self.api_key_qstr.as_str());
        append_date_arg(&mut s, "start_date", Some(start_date));
        match granularity {
            Some(g) => {
                s.append("&granularity=");
                s.append(g.as_str());
            },
            None => {},
        }
        s
    }
}

fn copy_texts(texts: &Vec<String>) -> (r: Vec<String>)
    ensures
        r@ == texts@,
{
    let mut out: Vec<String> = Vec::new();
    let mut i: usize = 0;
    while i < texts.len()
        invariant
            i <= texts@.len(),
            out@ == texts@.subrange(0, i as int),
        decreases texts@.len() - i,
    {
        out.push(texts[i].clone());
        i = i + 1;
        assert(out@ =~= texts@.subrange(0, i as int));
    }
    assert(texts@.subrange(0, texts@.len() as int) =~= texts@);
    out
}

fn append_date_arg(s: &mut String, name: &str, date: Option<Date>)
    requires
        date_ok(date),
    ensures
        final(s)@ == old(s)@ + date_arg(name@, date),
{
    match date {
        Some(d) => {
            s.append("&");
            s.append(name);
            s.append("=");
            let text = d.to_text();
            s.append(text.as_str());
        },
        None => {
            assert(old(s)@ + Seq::<char>::empty() == old(s)@);
        },
    }
}

} // verus!
