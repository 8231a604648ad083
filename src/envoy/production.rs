//! The gateway's production and consumption meters, and its storage enums.
//!
//! The readings themselves are left to the caller's types (`S` for the
//! inverter summary, `D` for a meter's detail); what is decided here is how
//! the tagged sections of the answer become one record.

use vstd::prelude::*;
use crate::text::same_text;
use super::sections::InvalidValue;
use super::sections::SectionError;
use super::sections::SectionedRecord;

verus! {

/// What a meter section measures.
#[derive(Clone, Copy, Debug, PartialEq, Eq, Structural)]
pub enum MeasurementType {
    Production,
    TotalConsumption,
    NetConsumption,
}

pub open spec fn measurement_type_token(m: MeasurementType) -> Seq<char> {
    match m {
        MeasurementType::Production => "production"@,
        MeasurementType::TotalConsumption => "total-consumption"@,
        MeasurementType::NetConsumption => "net-consumption"@,
    }
}

pub open spec fn measurement_type_of_token(s: Seq<char>) -> Option<MeasurementType> {
    if s == "production"@ {
        Some(MeasurementType::Production)
    } else if s == "total-consumption"@ {
        Some(MeasurementType::TotalConsumption)
    } else if s == "net-consumption"@ {
        Some(MeasurementType::NetConsumption)
    } else {
        None
    }
}

impl MeasurementType {
    /// The wire token.
    pub fn as_str(&self) -> (r: &'static str)
        ensures
            r@ == measurement_type_token(*self),
    {
        match self {
            MeasurementType::Production => "production",
            MeasurementType::TotalConsumption => "total-consumption",
            MeasurementType::NetConsumption => "net-consumption",
        }
    }

    /// Reads a wire token; any other text is an error that carries it.
    pub fn parse(s: &str) -> (r: Result<MeasurementType, InvalidValue>)
        ensures
            match measurement_type_of_token(s@) {
                Some(v) => r == Ok::<MeasurementType, InvalidValue>(v),
                None => r is Err && r->Err_0.0@ == s@,
            },
    {
        if same_text(s, "production") {
            Ok(MeasurementType::Production)
        } else if same_text(s, "total-consumption") {
            Ok(MeasurementType::TotalConsumption)
        } else if same_text(s, "net-consumption") {
            Ok(MeasurementType::NetConsumption)
        } else {
            Err(InvalidValue(String::from_str(s)))
        }
    }
}

impl std::str::FromStr for MeasurementType {
    type Err = InvalidValue;

    fn from_str(s: &str) -> (r: Result<MeasurementType, InvalidValue>)
        ensures
            match measurement_type_of_token(s@) {
                Some(v) => r == Ok::<MeasurementType, InvalidValue>(v),
                None => r is Err && r->Err_0.0@ == s@,
            },
    {
        MeasurementType::parse(s)
    }
}

/// Kind of a storage unit.
#[derive(Clone, Copy, Debug, PartialEq, Eq, Structural)]
pub enum StorageType {
    Acb,
}

impl StorageType {
    /// Reads a wire token: `acb`; any other text is an error that carries it.
    pub fn parse(s: &str) -> (r: Result<StorageType, InvalidValue>)
        ensures
            s@ == "acb"@ ==> r == Ok::<StorageType, InvalidValue>(StorageType::Acb),
            s@ != "acb"@ ==> r is Err && r->Err_0.0@ == s@,
    {
        if same_text(s, "acb") {
            Ok(StorageType::Acb)
        } else {
            Err(InvalidValue(String::from_str(s)))
        }
    }
}

impl std::str::FromStr for StorageType {
    type Err = InvalidValue;

    fn from_str(s: &str) -> (r: Result<StorageType, InvalidValue>)
        ensures
            s@ == "acb"@ ==> r == Ok::<StorageType, InvalidValue>(StorageType::Acb),
            s@ != "acb"@ ==> r is Err && r->Err_0.0@ == s@,
    {
        StorageType::parse(s)
    }
}

/// State of a storage unit.
#[derive(Clone, Copy, Debug, PartialEq, Eq, Structural)]
pub enum StorageState {
    Idle,
}

impl StorageState {
    /// Reads a wire token: `idle`; any other text is an error that carries it.
    pub fn parse(s: &str) -> (r: Result<StorageState, InvalidValue>)
        ensures
            s@ == "idle"@ ==> r == Ok::<StorageState, InvalidValue>(StorageState::Idle),
            s@ != "idle"@ ==> r is Err && r->Err_0.0@ == s@,
    {
        if same_text(s, "idle") {
            Ok(StorageState::Idle)
        } else {
            Err(InvalidValue(String::from_str(s)))
        }
    }
}

impl std::str::FromStr for StorageState {
    type Err = InvalidValue;

    fn from_str(s: &str) -> (r: Result<StorageState, InvalidValue>)
        ensures
            s@ == "idle"@ ==> r == Ok::<StorageState, InvalidValue>(StorageState::Idle),
            s@ != "idle"@ ==> r is Err && r->Err_0.0@ == s@,
    {
        StorageState::parse(s)
    }
}

/// A meter section: what it measures and its readings.
#[derive(Clone, Debug, PartialEq)]
pub struct Measured<D> {
    pub measurement_type: MeasurementType,
    pub inner: D,
}

/// A section of the production answer, by its `type`: `inverters` carries
/// the inverter summary, `eim` a meter section.
#[derive(Clone, Debug, PartialEq)]
pub enum ProductionCategory<S, D> {
    Summary(S),
    Detail(Measured<D>),
}

/// The production record: the inverter summary and the production meter.
#[derive(Clone, Debug, PartialEq)]
pub struct Production<S, D> {
    pub summary: S,
    pub detail: D,
}

/// The consumption record: total and net consumption meters.
#[derive(Clone, Debug, PartialEq)]
pub struct Consumption<D> {
    pub total: D,
    pub net: D,
}

/// The last inverter summary among the sections, if any.
pub open spec fn last_summary<S, D>(s: Seq<ProductionCategory<S, D>>) -> Option<S>
    decreases s.len(),
{
    if s.len() == 0 {
        None
    } else {
        match s.last() {
            ProductionCategory::Summary(v) => Some(v),
            ProductionCategory::Detail(_) => last_summary(s.drop_last()),
        }
    }
}

/// The readings of the last meter section among the sections, if any.
pub open spec fn last_detail<S, D>(s: Seq<ProductionCategory<S, D>>) -> Option<D>
    decreases s.len(),
{
    if s.len() == 0 {
        None
    } else {
        match s.last() {
            ProductionCategory::Detail(v) => Some(v.inner),
            ProductionCategory::Summary(_) => last_detail(s.drop_last()),
        }
    }
}

/// The readings of the last section that measures `m`, if any.
pub open spec fn last_measured<D>(s: Seq<Measured<D>>, m: MeasurementType) -> Option<D>
    decreases s.len(),
{
    if s.len() == 0 {
        None
    } else if s.last().measurement_type == m {
        Some(s.last().inner)
    } else {
        last_measured(s.drop_last(), m)
    }
}

/// Whether some section measures production.
pub open spec fn has_production_section<D>(s: Seq<Measured<D>>) -> bool {
    exists|i: int| 0 <= i < s.len() && (#[trigger] s[i]).measurement_type == MeasurementType::Production
}

impl<S, D> Production<S, D> {
    /// Folds the sections of the production answer: the last `inverters`
    /// section gives the summary and the last `eim` section the detail; a
    /// kind with no section is an error, `inverters` checked first.
    pub fn from_sections(sections: Vec<ProductionCategory<S, D>>) -> (r: Result<Production<S, D>, SectionError>)
        ensures
            match (last_summary(sections@), last_detail(sections@)) {
                (Some(summary), Some(detail)) => r == Ok::<Production<S, D>, SectionError>(
                    Production { summary, detail },
                ),
                (None, _) => r is Err && r->Err_0.is_missing(SectionedRecord::Production, "inverters"@),
                (Some(_), None) => r is Err && r->Err_0.is_missing(SectionedRecord::Production, "eim"@),
            },
    {
        let ghost all = sections@;
        let mut rest = sections;
        let mut summary: Option<S> = None;
        let mut detail: Option<D> = None;
        let ghost mut done: int = 0;
        while rest.len() > 0
            invariant
                all == sections@,
                0 <= done <= all.len(),
                rest@ == all.subrange(done, all.len() as int),
                summary == last_summary(all.subrange(0, done)),
                detail == last_detail(all.subrange(0, done)),
            decreases rest@.len(),
        {
            let section = rest.remove(0);
            let ghost cur = all.subrange(0, done + 1);
            proof {
                assert(section == all[done]);
                assert(cur.drop_last() =~= all.subrange(0, done));
                assert(cur.last() == section);
            }
            match section {
                ProductionCategory::Summary(v) => summary = Some(v),
                ProductionCategory::Detail(v) => detail = Some(v.inner),
            }
            proof {
                done = done + 1;
            }
        }
        assert(all.subrange(0, done) =~= all);
        match summary {
            None => Err(SectionError::Missing(SectionedRecord::Production, String::from_str("inverters"))),
            Some(summary) => match detail {
                None => Err(SectionError::Missing(SectionedRecord::Production, String::from_str("eim"))),
                Some(detail) => Ok(Production { summary, detail }),
            },
        }
    }
}

impl<D> Consumption<D> {
    /// Folds the meter sections of the consumption answer: a section that
    /// measures production belongs to the production record and is an error; else the last `total-consumption` and
    /// `net-consumption` sections give the record, and a missing one is an
    /// error, `total-consumption` checked first.
    pub fn from_sections(sections: Vec<Measured<D>>) -> (r: Result<Consumption<D>, SectionError>)
        ensures
            has_production_section(sections@) ==> r is Err && r->Err_0.is_unexpected(SectionedRecord::Consumption, "production"@),
            !has_production_section(sections@) ==> match (
                last_measured(sections@, MeasurementType::TotalConsumption),
                last_measured(sections@, MeasurementType::NetConsumption),
            ) {
                (Some(total), Some(net)) => r == Ok::<Consumption<D>, SectionError>(
                    Consumption { total, net },
                ),
                (None, _) => r is Err && r->Err_0.is_missing(SectionedRecord::Consumption, "total-consumption"@),
                (Some(_), None) => r is Err && r->Err_0.is_missing(SectionedRecord::Consumption, "net-consumption"@),
            },
    {
        let ghost all = sections@;
        let mut rest = sections;
        let mut total: Option<D> = None;
        let mut net: Option<D> = None;
        let ghost mut done: int = 0;
        while rest.len() > 0
            invariant
                all == sections@,
                0 <= done <= all.len(),
                rest@ == all.subrange(done, all.len() as int),
                !has_production_section(all.subrange(0, done)),
                total == last_measured(all.subrange(0, done), MeasurementType::TotalConsumption),
                net == last_measured(all.subrange(0, done), MeasurementType::NetConsumption),
            decreases rest@.len(),
        {
            let section = rest.remove(0);
            let ghost cur = all.subrange(0, done + 1);
            proof {
                assert(section == all[done]);
                assert(cur.drop_last() =~= all.subrange(0, done));
                assert(cur.last() == section);
            }
            match section.measurement_type {
                MeasurementType::TotalConsumption => total = Some(section.inner),
                MeasurementType::NetConsumption => net = Some(section.inner),
                MeasurementType::Production => {
                    proof {
                        assert(all[done].measurement_type == MeasurementType::Production);
                    }
                    return Err(SectionError::Unexpected(SectionedRecord::Consumption, String::from_str("production")));
                },
            }
            proof {
                assert forall|i: int| 0 <= i < cur.len() implies (#[trigger] cur[i]).measurement_type
                    != MeasurementType::Production by {
                    if i < done {
                        assert(cur[i] == all.subrange(0, done)[i]);
                    }
                }
                done = done + 1;
            }
        }
        assert(all.subrange(0, done) =~= all);
        match total {
            None => Err(SectionError::Missing(SectionedRecord::Consumption, String::from_str("total-consumption"))),
            Some(total) => match net {
                None => Err(SectionError::Missing(SectionedRecord::Consumption, String::from_str("net-consumption"))),
                Some(net) => Ok(Consumption { total, net }),
            },
        }
    }
}

} // verus!
