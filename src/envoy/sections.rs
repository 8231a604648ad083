//! Payloads sent as a list of sections, each tagged with a discriminator.

use vstd::prelude::*;
use vstd::string::*;
use crate::text::joined;

verus! {

/// The records that are folded from tagged sections.
#[derive(Clone, Copy, Debug, PartialEq, Eq, Structural)]
pub enum SectionedRecord {
    Inventory,
    Production,
    Consumption,
}

/// How a record is named in messages.
pub open spec fn record_name(r: SectionedRecord) -> Seq<char> {
    match r {
        SectionedRecord::Inventory => "inventory"@,
        SectionedRecord::Production => "production"@,
        SectionedRecord::Consumption => "consumption"@,
    }
}

impl SectionedRecord {
    /// The name used in messages.
    pub fn as_str(&self) -> (r: &'static str)
        ensures
            r@ == record_name(*self),
    {
        match self {
            SectionedRecord::Inventory => "inventory",
            SectionedRecord::Production => "production",
            SectionedRecord::Consumption => "consumption",
        }
    }
}

/// Why a list of tagged sections could not be folded into a record.
#[derive(Clone, Debug, PartialEq, Eq)]
pub enum SectionError {
    /// No section of the record carried this required discriminator.
    Missing(SectionedRecord, String),
    /// A section carried this discriminator, which names no section at all.
    Unknown(SectionedRecord, String),
    /// A section carried this discriminator, which names a section that
    /// belongs to another record.
    Unexpected(SectionedRecord, String),
}

impl SectionError {
    /// Whether this is the error for a missing `section` of `record`.
    pub open spec fn is_missing(&self, record: SectionedRecord, section: Seq<char>) -> bool {
        self is Missing && self->Missing_0 == record && self->Missing_1@ == section
    }

    /// Whether this is the error for an unknown `section` in `record`.
    pub open spec fn is_unknown(&self, record: SectionedRecord, section: Seq<char>) -> bool {
        self is Unknown && self->Unknown_0 == record && self->Unknown_1@ == section
    }

    /// Whether this is the error for a `section` of another record in `record`.
    pub open spec fn is_unexpected(&self, record: SectionedRecord, section: Seq<char>) -> bool {
        self is Unexpected && self->Unexpected_0 == record && self->Unexpected_1@ == section
    }

    /// The human-readable message: `Missing '<s>' <record> section`,
    /// `Unknown <record> section '<s>'` or
    /// `Found unexpected <record> section '<s>'`.
    pub fn message(&self) -> (r: String)
        ensures
            match self {
                SectionError::Missing(rec, s) => r@ == "Missing '"@ + s@ + "' "@ + record_name(*rec)
                    + " section"@,
                SectionError::Unknown(rec, s) => r@ == "Unknown "@ + record_name(*rec) + " section '"@
                    + s@ + "'"@,
                SectionError::Unexpected(rec, s) => r@ == "Found unexpected "@ + record_name(*rec)
                    + " section '"@ + s@ + "'"@,
            },
    {
        match self {
            SectionError::Missing(rec, s) => {
                let mut m = joined("Missing '", s.as_str());
                m.append("' ");
                m.append(rec.as_str());
                m.append(" section");
                m
            },
            SectionError::Unknown(rec, s) => {
                let mut m = joined("Unknown ", rec.as_str());
                m.append(" section '");
                m.append(s.as_str());
                m.append("'");
                m
            },
            SectionError::Unexpected(rec, s) => {
                let mut m = joined("Found unexpected ", rec.as_str());
                m.append(" section '");
                m.append(s.as_str());
                m.append("'");
                m
            },
        }
    }
}

/// A value that names none of a type's variants; it keeps the text as received.
#[derive(Clone, Debug, PartialEq, Eq)]
pub struct InvalidValue(pub String);

impl InvalidValue {
    /// The human-readable message, `invalid enum value "<text>"`.
    pub fn message(&self) -> (r: String)
        ensures
            r@ == "invalid enum value \""@ + self.0@ + "\""@,
    {
        let mut m = joined("invalid enum value \"", self.0.as_str());
        m.append("\"");
        m
    }
}

/// One section of a tagged list: its discriminator and what it carries.
#[derive(Clone, Debug)]
pub struct Section<T> {
    pub kind: String,
    pub payload: T,
}

/// The payload of the last section tagged `kind`, if any.
pub open spec fn last_of_kind<T>(s: Seq<Section<T>>, kind: Seq<char>) -> Option<T>
    decreases s.len(),
{
    if s.len() == 0 {
        None
    } else if s.last().kind@ == kind {
        Some(s.last().payload)
    } else {
        last_of_kind(s.drop_last(), kind)
    }
}

/// Some section is tagged `kind` exactly when there is a last such section.
pub proof fn lemma_last_of_kind_present<T>(s: Seq<Section<T>>, kind: Seq<char>)
    ensures
        last_of_kind(s, kind) is Some <==> exists|i: int| 0 <= i < s.len() && (#[trigger] s[i]).kind@ == kind,
    decreases s.len(),
{
    if s.len() > 0 {
        let p = s.drop_last();
        lemma_last_of_kind_present(p, kind);
        if exists|i: int| 0 <= i < p.len() && (#[trigger] p[i]).kind@ == kind {
            let i = choose|i: int| 0 <= i < p.len() && (#[trigger] p[i]).kind@ == kind;
            assert(s[i] == p[i]);
        }
        if exists|i: int| 0 <= i < s.len() && (#[trigger] s[i]).kind@ == kind {
            let i = choose|i: int| 0 <= i < s.len() && (#[trigger] s[i]).kind@ == kind;
            if i < p.len() {
                assert(p[i] == s[i]);
            }
        }
    }
}

} // verus!
