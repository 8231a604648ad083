//! The gateway's device inventory.

use vstd::prelude::*;
use crate::text::same_text;
use super::sections::last_of_kind;
use super::sections::lemma_last_of_kind_present;
use super::sections::InvalidValue;
use super::sections::Section;
use super::sections::SectionError;
use super::sections::SectionedRecord;

verus! {

/// A condition flag that the gateway reports for a device.
#[derive(Clone, Copy, Debug, PartialEq, Eq, Structural)]
pub enum DeviceStatus {
    GlobalOk,
    DcVoltageTooLow,
    DcPowerLow,
    Failure,
}

/// The device status named by a wire token, if any.
pub open spec fn device_status_of_token(s: Seq<char>) -> Option<DeviceStatus> {
    if s == "envoy.global.ok"@ {
        Some(DeviceStatus::GlobalOk)
    } else if s == "envoy.cond_flags.pcu_chan.dcvoltagetoolow"@ {
        Some(DeviceStatus::DcVoltageTooLow)
    } else if s == "envoy.cond_flags.pcu_ctrl.dc-pwr-low"@ {
        Some(DeviceStatus::DcPowerLow)
    } else if s == "envoy.cond_flags.obs_strs.failure"@ {
        Some(DeviceStatus::Failure)
    } else {
        None
    }
}

impl DeviceStatus {
    /// Reads a wire token; any other text is an error that carries it.
    pub fn parse(s: &str) -> (r: Result<DeviceStatus, InvalidValue>)
        ensures
            match device_status_of_token(s@) {
                Some(v) => r == Ok::<DeviceStatus, InvalidValue>(v),
                None => r is Err && r->Err_0.0@ == s@,
            },
    {
        if same_text(s, "envoy.global.ok") {
            Ok(DeviceStatus::GlobalOk)
        } else if same_text(s, "envoy.cond_flags.pcu_chan.dcvoltagetoolow") {
            Ok(DeviceStatus::DcVoltageTooLow)
        } else if same_text(s, "envoy.cond_flags.pcu_ctrl.dc-pwr-low") {
            Ok(DeviceStatus::DcPowerLow)
        } else if same_text(s, "envoy.cond_flags.obs_strs.failure") {
            Ok(DeviceStatus::Failure)
        } else {
            Err(InvalidValue(String::from_str(s)))
        }
    }
}

impl std::str::FromStr for DeviceStatus {
    type Err = InvalidValue;

    fn from_str(s: &str) -> (r: Result<DeviceStatus, InvalidValue>)
        ensures
            match device_status_of_token(s@) {
                Some(v) => r == Ok::<DeviceStatus, InvalidValue>(v),
                None => r is Err && r->Err_0.0@ == s@,
            },
    {
        DeviceStatus::parse(s)
    }
}

#[derive(Clone, Copy, Debug, PartialEq, Eq, Structural)]
pub struct DeviceControl {
    pub gficlearset: bool,
}

/// One device of the inventory. Instants are seconds since the epoch.
#[derive(Clone, Debug, PartialEq, Eq)]
pub struct Device {
    pub part_num: String,
    pub installed: i64,
    pub serial_num: String,
    pub device_status: Vec<DeviceStatus>,
    pub last_rpt_date: i64,
    pub admin_state: u8,
    pub dev_type: u8,
    pub created_date: i64,
    pub img_load_date: i64,
    pub img_pnum_running: String,
    pub ptpn: String,
    pub chaneid: i64,
    pub device_control: Vec<DeviceControl>,
    pub producing: bool,
    pub communicating: bool,
    pub provisioned: bool,
    pub operating: bool,
}

/// The devices of the gateway, by kind: microinverters, AC batteries and
/// network system relays.
#[derive(Clone, Debug, PartialEq, Eq)]
pub struct Inventory {
    pub pcu: Vec<Device>,
    pub acb: Vec<Device>,
    pub nsrb: Vec<Device>,
}

pub open spec fn is_inventory_kind(k: Seq<char>) -> bool {
    k == "PCU"@ || k == "ACB"@ || k == "NSRB"@
}

/// The discriminator of the first section whose kind the inventory has no
/// place for, if any.
pub open spec fn first_unknown_kind(s: Seq<Section<Vec<Device>>>) -> Option<Seq<char>>
    decreases s.len(),
{
    if s.len() == 0 {
        None
    } else {
        match first_unknown_kind(s.drop_last()) {
            Some(k) => Some(k),
            None => if is_inventory_kind(s.last().kind@) {
                None
            } else {
                Some(s.last().kind@)
            },
        }
    }
}

/// Once some first sections hold an unknown discriminator, more sections
/// after them do not change which one is first.
proof fn lemma_first_unknown_kind_prefix(s: Seq<Section<Vec<Device>>>, n: int)
    requires
        0 <= n <= s.len(),
        first_unknown_kind(s.subrange(0, n)) is Some,
    ensures
        first_unknown_kind(s) == first_unknown_kind(s.subrange(0, n)),
    decreases s.len(),
{
    if n < s.len() {
        assert(s.drop_last().subrange(0, n) =~= s.subrange(0, n));
        lemma_first_unknown_kind_prefix(s.drop_last(), n);
    } else {
        assert(s.subrange(0, n) =~= s);
    }
}

proof fn lemma_inventory_kinds_differ()
    ensures
        "PCU"@ != "ACB"@,
        "PCU"@ != "NSRB"@,
        "ACB"@ != "NSRB"@,
{
    reveal_strlit("PCU");
    reveal_strlit("ACB");
    reveal_strlit("NSRB");
    assert("PCU"@[0] != "ACB"@[0]);
    assert("PCU"@.len() != "NSRB"@.len());
    assert("ACB"@.len() != "NSRB"@.len());
}

/// Folding refuses what it cannot place. A list where some section carries a
/// discriminator other than `PCU`, `ACB` and `NSRB` has a first such section,
/// and its discriminator is the unknown one reported; a list where no section
/// carries `kind` has no devices of that kind, so a required kind is reported
/// missing when no discriminator is unknown.
pub proof fn lemma_inventory_refusals(s: Seq<Section<Vec<Device>>>, kind: Seq<char>)
    ensures
        (exists|i: int| 0 <= i < s.len() && !is_inventory_kind(#[trigger] s[i].kind@)) ==> first_unknown_kind(s) is Some,
        first_unknown_kind(s) is Some ==> !is_inventory_kind(first_unknown_kind(s)->0),
        (forall|i: int| 0 <= i < s.len() ==> (#[trigger] s[i]).kind@ != kind) ==> last_of_kind(s, kind) is None,
    decreases s.len(),
{
    if s.len() > 0 {
        let p = s.drop_last();
        lemma_inventory_refusals(p, kind);
        if exists|i: int| 0 <= i < s.len() && !is_inventory_kind(#[trigger] s[i].kind@) {
            let i = choose|i: int| 0 <= i < s.len() && !is_inventory_kind(#[trigger] s[i].kind@);
            if i < p.len() {
                assert(p[i] == s[i]);
            }
        }
        if forall|i: int| 0 <= i < s.len() ==> (#[trigger] s[i]).kind@ != kind {
            assert forall|i: int| 0 <= i < p.len() implies (#[trigger] p[i]).kind@ != kind by {
                assert(p[i] == s[i]);
            }
            assert(s[s.len() - 1].kind@ != kind);
        }
    }
}

/// Every section names a kind of device, and each of the three kinds has a
/// section.
pub open spec fn inventory_complete(s: Seq<Section<Vec<Device>>>) -> bool {
    &&& forall|i: int| 0 <= i < s.len() ==> is_inventory_kind(#[trigger] s[i].kind@)
    &&& exists|i: int| 0 <= i < s.len() && (#[trigger] s[i]).kind@ == "PCU"@
    &&& exists|i: int| 0 <= i < s.len() && (#[trigger] s[i]).kind@ == "ACB"@
    &&& exists|i: int| 0 <= i < s.len() && (#[trigger] s[i]).kind@ == "NSRB"@
}

/// No discriminator is unknown exactly when every section names a kind.
proof fn lemma_no_unknown_kind(s: Seq<Section<Vec<Device>>>)
    ensures
        first_unknown_kind(s) is None <==> forall|i: int| 0 <= i < s.len() ==> is_inventory_kind(#[trigger] s[i].kind@),
    decreases s.len(),
{
    if s.len() > 0 {
        let p = s.drop_last();
        lemma_no_unknown_kind(p);
        if forall|i: int| 0 <= i < s.len() ==> is_inventory_kind(#[trigger] s[i].kind@) {
            assert forall|i: int| 0 <= i < p.len() implies is_inventory_kind(#[trigger] p[i].kind@) by {
                assert(p[i] == s[i]);
            }
            assert(is_inventory_kind(s[s.len() - 1].kind@));
        }
        if first_unknown_kind(s) is None {
            assert forall|i: int| 0 <= i < s.len() implies is_inventory_kind(#[trigger] s[i].kind@) by {
                if i < p.len() {
                    assert(p[i] == s[i]);
                }
            }
        }
    }
}

/// The inventory is folded without error exactly when every section's
/// discriminator is `PCU`, `ACB` or `NSRB` and each of the three occurs.
pub proof fn lemma_inventory_acceptance(s: Seq<Section<Vec<Device>>>)
    ensures
        (first_unknown_kind(s) is None && last_of_kind(s, "PCU"@) is Some && last_of_kind(s, "ACB"@) is Some
            && last_of_kind(s, "NSRB"@) is Some) <==> inventory_complete(s),
{
    lemma_no_unknown_kind(s);
    lemma_last_of_kind_present(s, "PCU"@);
    lemma_last_of_kind_present(s, "ACB"@);
    lemma_last_of_kind_present(s, "NSRB"@);
}

impl Inventory {
    /// Folds the tagged sections of the inventory answer. The first section
    /// with a discriminator other than `PCU`, `ACB` and `NSRB` is an error;
    /// else a kind with no section is, checked in that order; else each kind
    /// holds the devices of its last section.
    pub fn from_sections(sections: Vec<Section<Vec<Device>>>) -> (r: Result<Inventory, SectionError>)
        ensures
            r is Ok <==> inventory_complete(sections@),
            match first_unknown_kind(sections@) {
                Some(k) => r is Err && r->Err_0.is_unknown(SectionedRecord::Inventory, k),
                None => match (
                    last_of_kind(sections@, "PCU"@),
                    last_of_kind(sections@, "ACB"@),
                    last_of_kind(sections@, "NSRB"@),
                ) {
                    (Some(pcu), Some(acb), Some(nsrb)) => r == Ok::<Inventory, SectionError>(
                        Inventory { pcu, acb, nsrb },
                    ),
                    (None, _, _) => r is Err && r->Err_0.is_missing(SectionedRecord::Inventory, "PCU"@),
                    (Some(_), None, _) => r is Err && r->Err_0.is_missing(SectionedRecord::Inventory, "ACB"@),
                    (Some(_), Some(_), None) => r is Err && r->Err_0.is_missing(SectionedRecord::Inventory, "NSRB"@),
                },
            },
    {
        proof {
            lemma_inventory_kinds_differ();
            lemma_inventory_acceptance(sections@);
        }
        let ghost all = sections@;
        let mut rest = sections;
        let mut pcu: Option<Vec<Device>> = None;
        let mut acb: Option<Vec<Device>> = None;
        let mut nsrb: Option<Vec<Device>> = None;
        let ghost mut done: int = 0;
        while rest.len() > 0
            invariant
                all == sections@,
                0 <= done <= all.len(),
                rest@ == all.subrange(done, all.len() as int),
                first_unknown_kind(all.subrange(0, done)) is None,
                pcu == last_of_kind(all.subrange(0, done), "PCU"@),
                acb == last_of_kind(all.subrange(0, done), "ACB"@),
                nsrb == last_of_kind(all.subrange(0, done), "NSRB"@),
            decreases rest@.len(),
        {
            let section = rest.remove(0);
            let ghost before = all.subrange(0, done);
            let ghost cur = all.subrange(0, done + 1);
            proof {
                lemma_inventory_kinds_differ();
                assert(section == all[done]);
                assert(cur.drop_last() =~= before);
                assert(cur.last() == section);
            }
            if same_text(section.kind.as_str(), "PCU") {
                pcu = Some(section.payload);
            } else if same_text(section.kind.as_str(), "ACB") {
                acb = Some(section.payload);
            } else if same_text(section.kind.as_str(), "NSRB") {
                nsrb = Some(section.payload);
            } else {
                proof {
                    assert(!is_inventory_kind(section.kind@));
                    assert(first_unknown_kind(cur) == Some(section.kind@));
                    lemma_first_unknown_kind_prefix(all, done + 1);
                }
                return Err(SectionError::Unknown(SectionedRecord::Inventory, section.kind));
            }
            proof {
                assert(is_inventory_kind(section.kind@));
                assert(first_unknown_kind(cur) is None);
                assert(last_of_kind(cur, "PCU"@) == pcu);
                assert(last_of_kind(cur, "ACB"@) == acb);
                assert(last_of_kind(cur, "NSRB"@) == nsrb);
                done = done + 1;
            }
        }
        assert(all.subrange(0, done) =~= all);
        match pcu {
            None => Err(SectionError::Missing(SectionedRecord::Inventory, String::from_str("PCU"))),
            Some(pcu) => match acb {
                None => Err(SectionError::Missing(SectionedRecord::Inventory, String::from_str("ACB"))),
                Some(acb) => match nsrb {
                    None => Err(SectionError::Missing(SectionedRecord::Inventory, String::from_str("NSRB"))),
                    Some(nsrb) => Ok(Inventory { pcu, acb, nsrb }),
                },
            },
        }
    }
}

} // verus!
