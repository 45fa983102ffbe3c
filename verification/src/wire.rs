//! The external representation of an entry.
//!
//! A [`Record`] is the flat shape in which entries are exchanged: the
//! identifier and seven texts, with the vocabulary fields written as their
//! tokens and an absent justification as the empty text. Reading a record
//! validates it again; what comes from outside is never trusted.

use vstd::prelude::*;
use crate::entry::{entry_of, validate, EntryView, VexEntry};
use crate::rules::{violations, Candidate, RawFields};
use crate::text::{is_blank, is_whitespace};
use crate::violation::Violation;
use crate::vocab::{
    justification_round_trip,
    severity_round_trip,
    status_round_trip,
    Justification,
    Severity,
    Status,
};

verus! {

/// The serialized form of an entry.
#[derive(Clone, Debug, PartialEq, Eq)]
pub struct Record {
    pub id: u32,
    pub description: String,
    pub severity: String,
    pub affected_package: String,
    pub justification: String,
    pub status: String,
    pub impact_statement: String,
    pub action_statement: String,
}

/// A record's identifier and its texts as character sequences.
pub struct RecordView {
    pub id: u32,
    pub fields: Candidate,
}

impl View for Record {
    type V = RecordView;

    open spec fn view(&self) -> RecordView {
        RecordView {
            id: self.id,
            fields: Candidate {
                description: self.description@,
                severity: self.severity@,
                affected_package: self.affected_package@,
                justification: self.justification@,
                status: self.status@,
                impact_statement: self.impact_statement@,
                action_statement: self.action_statement@,
            },
        }
    }
}

impl Record {
    /// Returns the record's texts as a candidate, to be validated or edited.
    pub fn fields(&self) -> (raw: RawFields)
        ensures
            raw@ == self@.fields,
    {
        RawFields {
            description: self.description.clone(),
            severity: self.severity.clone(),
            affected_package: self.affected_package.clone(),
            justification: self.justification.clone(),
            status: self.status.clone(),
            impact_statement: self.impact_statement.clone(),
            action_statement: self.action_statement.clone(),
        }
    }
}

/// The text that stands for a justification in a record: its token, or the
/// empty text where there is none.
pub open spec fn justification_text(j: Option<Justification>) -> Seq<char> {
    match j {
        Some(j) => j.token(),
        None => Seq::empty(),
    }
}

/// The record of an entry.
pub open spec fn record_of(e: EntryView) -> RecordView {
    RecordView {
        id: e.id,
        fields: Candidate {
            description: e.description,
            severity: e.severity.token(),
            affected_package: e.affected_package,
            justification: justification_text(e.justification),
            status: e.status.token(),
            impact_statement: e.impact_statement,
            action_statement: e.action_statement,
        },
    }
}

/// Writes an entry as a record. Reading that record gives the entry back.
pub fn serialize(e: &VexEntry) -> (rec: Record)
    ensures
        rec@ == record_of(e@),
        e@.valid(),
        entry_of(rec@.fields, rec@.id) == Some(e@),
{
    let status = e.status();
    proof {
        round_trip(e@);
    }
    let justification = match e.justification() {
        Some(j) => j.format().to_owned(),
        None => String::new(),
    };
    Record {
        id: e.id(),
        description: e.description().to_owned(),
        severity: e.severity().format().to_owned(),
        affected_package: e.affected_package().to_owned(),
        justification,
        status: status.format().to_owned(),
        impact_statement: e.impact_statement().to_owned(),
        action_statement: e.action_statement().to_owned(),
    }
}

/// Reads an entry from a record, under the record's identifier. The texts
/// are held to the same rules as a candidate's, and fail with the same
/// report.
pub fn deserialize(rec: &Record) -> (r: Result<VexEntry, Vec<Violation>>)
    ensures
        r is Ok <==> violations(rec@.fields).len() == 0,
        match r {
            Ok(e) => entry_of(rec@.fields, rec@.id) == Some(e@) && e@.valid(),
            Err(found) => entry_of(rec@.fields, rec@.id) is None && found@ == violations(
                rec@.fields,
            ) && found@.len() > 0,
        },
{
    let raw = rec.fields();
    validate(&raw, rec.id)
}

/// The tokens of the vocabularies are not blank.
pub proof fn tokens_are_not_blank(severity: Severity, justification: Justification, status: Status)
    ensures
        !is_blank(severity.token()),
        !is_blank(justification.token()),
        !is_blank(status.token()),
{
    reveal_strlit("None");
    reveal_strlit("Low");
    reveal_strlit("Medium");
    reveal_strlit("High");
    reveal_strlit("Critical");
    reveal_strlit("Component not present");
    reveal_strlit("Vulnerability not applicable");
    reveal_strlit("Mitigated");
    reveal_strlit("No fix available");
    reveal_strlit("Affected");
    reveal_strlit("Not Affected");
    reveal_strlit("Fixed");
    assert(!is_whitespace(severity.token()[0]));
    assert(!is_whitespace(justification.token()[0]));
    assert(!is_whitespace(status.token()[0]));
}

/// Reading the record of a valid entry gives that entry back, with no
/// violation.
pub proof fn round_trip(e: EntryView)
    requires
        e.valid(),
    ensures
        violations(record_of(e).fields).len() == 0,
        entry_of(record_of(e).fields, record_of(e).id) == Some(e),
{
    severity_round_trip(e.severity);
    status_round_trip(e.status);
    match e.justification {
        Some(j) => {
            justification_round_trip(j);
            tokens_are_not_blank(e.severity, j, e.status);
        },
        None => {},
    }
}

} // verus!
