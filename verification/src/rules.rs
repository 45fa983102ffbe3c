//! The consistency rules of a candidate entry.
//!
//! Each field has at most one fault, decided from the candidate alone. The
//! report of a candidate lists the faults of all its fields, in field order,
//! so that a caller can show every problem after one pass.

use vstd::prelude::*;
use crate::text::{is_blank, text_is_blank};
use crate::violation::{ErrorKind, Field, Violation};
use crate::vocab::{Justification, Severity, Status};

verus! {

/// The raw texts of one candidate entry, as a form collects them. Nothing is
/// assumed of them.
#[derive(Clone, Debug, Default, PartialEq, Eq)]
pub struct RawFields {
    pub description: String,
    pub severity: String,
    pub affected_package: String,
    pub justification: String,
    pub status: String,
    pub impact_statement: String,
    pub action_statement: String,
}

/// The texts of a candidate as character sequences.
pub struct Candidate {
    pub description: Seq<char>,
    pub severity: Seq<char>,
    pub affected_package: Seq<char>,
    pub justification: Seq<char>,
    pub status: Seq<char>,
    pub impact_statement: Seq<char>,
    pub action_statement: Seq<char>,
}

impl View for RawFields {
    type V = Candidate;

    open spec fn view(&self) -> Candidate {
        Candidate {
            description: self.description@,
            severity: self.severity@,
            affected_package: self.affected_package@,
            justification: self.justification@,
            status: self.status@,
            impact_statement: self.impact_statement@,
            action_statement: self.action_statement@,
        }
    }
}

/// The fault that the rules find with a required free text.
pub open spec fn required_text(s: Seq<char>) -> Option<ErrorKind> {
    if is_blank(s) {
        Some(ErrorKind::RequiredFieldMissing)
    } else {
        None
    }
}

/// The fault of the justification text under a status that parsed.
///
/// An affected entry must not carry one; a not-affected entry must carry a
/// token; a fixed entry may carry one, which then has to be a token.
pub open spec fn justification_fault(status: Status, s: Seq<char>) -> Option<ErrorKind> {
    match status {
        Status::Affected => if is_blank(s) {
            None
        } else {
            Some(ErrorKind::ConflictingField)
        },
        Status::NotAffected => if is_blank(s) {
            Some(ErrorKind::RequiredFieldMissing)
        } else if Justification::from_token(s) is None {
            Some(ErrorKind::UnknownVocabularyValue)
        } else {
            None
        },
        Status::Fixed => if !is_blank(s) && Justification::from_token(s) is None {
            Some(ErrorKind::UnknownVocabularyValue)
        } else {
            None
        },
    }
}

/// The fault of one field of a candidate, if it has one.
///
/// The description and the package are always required. Severity and status
/// must be tokens. The remaining fields depend on the status, and have no
/// fault where the status itself is unknown.
pub open spec fn fault(raw: Candidate, field: Field) -> Option<ErrorKind> {
    match field {
        Field::Description => required_text(raw.description),
        Field::AffectedPackage => required_text(raw.affected_package),
        Field::Severity => if Severity::from_token(raw.severity) is None {
            Some(ErrorKind::UnknownVocabularyValue)
        } else {
            None
        },
        Field::Status => if Status::from_token(raw.status) is None {
            Some(ErrorKind::UnknownVocabularyValue)
        } else {
            None
        },
        Field::ImpactStatement => match Status::from_token(raw.status) {
            Some(Status::Affected) => required_text(raw.impact_statement),
            _ => None,
        },
        Field::ActionStatement => match Status::from_token(raw.status) {
            Some(Status::Affected) | Some(Status::Fixed) => required_text(raw.action_statement),
            _ => None,
        },
        Field::Justification => match Status::from_token(raw.status) {
            Some(status) => justification_fault(status, raw.justification),
            None => None,
        },
    }
}

/// What one field adds to the report: its violation, or nothing.
pub open spec fn report(raw: Candidate, field: Field) -> Seq<Violation> {
    match fault(raw, field) {
        Some(kind) => seq![Violation { field, kind }],
        None => Seq::empty(),
    }
}

/// The full report of a candidate: the violation of every faulty field, in
/// field order.
pub open spec fn violations(raw: Candidate) -> Seq<Violation> {
    report(raw, Field::Description) + report(raw, Field::AffectedPackage) + report(
        raw,
        Field::Severity,
    ) + report(raw, Field::Status) + report(raw, Field::ImpactStatement) + report(
        raw,
        Field::ActionStatement,
    ) + report(raw, Field::Justification)
}

/// Every faulty field is in the report, with its fault: nothing is dropped
/// because another field failed before it.
pub proof fn every_fault_is_reported(raw: Candidate, field: Field)
    ensures
        fault(raw, field) matches Some(kind) ==> violations(raw).contains(
            Violation { field, kind },
        ),
{
    if let Some(kind) = fault(raw, field) {
        let v = Violation { field, kind };
        assert(report(raw, field)[0] == v);
        let a = report(raw, Field::Description);
        let b = a + report(raw, Field::AffectedPackage);
        let c = b + report(raw, Field::Severity);
        let d = c + report(raw, Field::Status);
        let e = d + report(raw, Field::ImpactStatement);
        let f = e + report(raw, Field::ActionStatement);
        let g = f + report(raw, Field::Justification);
        let at: int = match field {
            Field::Description => 0,
            Field::AffectedPackage => a.len() as int,
            Field::Severity => b.len() as int,
            Field::Status => c.len() as int,
            Field::ImpactStatement => d.len() as int,
            Field::ActionStatement => e.len() as int,
            Field::Justification => f.len() as int,
        };
        assert(g[at] == v);
    }
}

/// Whatever the report holds is the fault of the field that it names, so a
/// field is reported at most under one kind.
pub proof fn every_report_is_a_fault(raw: Candidate, v: Violation)
    requires
        violations(raw).contains(v),
    ensures
        fault(raw, v.field) == Some(v.kind),
{
    let a = report(raw, Field::Description);
    let b = a + report(raw, Field::AffectedPackage);
    let c = b + report(raw, Field::Severity);
    let d = c + report(raw, Field::Status);
    let e = d + report(raw, Field::ImpactStatement);
    let f = e + report(raw, Field::ActionStatement);
    let g = f + report(raw, Field::Justification);
    let i = choose|i: int| 0 <= i < g.len() && g[i] == v;
    if i < a.len() {
        assert(a[i] == v);
    } else if i < b.len() {
        assert(report(raw, Field::AffectedPackage)[i - a.len()] == v);
    } else if i < c.len() {
        assert(report(raw, Field::Severity)[i - b.len()] == v);
    } else if i < d.len() {
        assert(report(raw, Field::Status)[i - c.len()] == v);
    } else if i < e.len() {
        assert(report(raw, Field::ImpactStatement)[i - d.len()] == v);
    } else if i < f.len() {
        assert(report(raw, Field::ActionStatement)[i - e.len()] == v);
    } else {
        assert(report(raw, Field::Justification)[i - f.len()] == v);
    }
}

/// An affected entry without an action statement is always reported for it,
/// whatever the other fields hold.
pub proof fn affected_needs_action(raw: Candidate)
    requires
        Status::from_token(raw.status) == Some(Status::Affected),
        is_blank(raw.action_statement),
    ensures
        violations(raw).contains(
            Violation { field: Field::ActionStatement, kind: ErrorKind::RequiredFieldMissing },
        ),
{
    every_fault_is_reported(raw, Field::ActionStatement);
}

fn required_text_fault(s: &str) -> (r: Option<ErrorKind>)
    ensures
        r == required_text(s@),
{
    if text_is_blank(s) {
        Some(ErrorKind::RequiredFieldMissing)
    } else {
        None
    }
}

fn justification_fault_of(status: Status, s: &str) -> (r: Option<ErrorKind>)
    ensures
        r == justification_fault(status, s@),
{
    let blank = text_is_blank(s);
    match status {
        Status::Affected => if blank {
            None
        } else {
            Some(ErrorKind::ConflictingField)
        },
        Status::NotAffected => if blank {
            Some(ErrorKind::RequiredFieldMissing)
        } else {
            match Justification::parse(s) {
                Ok(_) => None,
                Err(kind) => Some(kind),
            }
        },
        Status::Fixed => if blank {
            None
        } else {
            match Justification::parse(s) {
                Ok(_) => None,
                Err(kind) => Some(kind),
            }
        },
    }
}

/// Decides the fault of one field of a candidate.
pub fn fault_of(raw: &RawFields, field: Field) -> (r: Option<ErrorKind>)
    ensures
        r == fault(raw@, field),
{
    match field {
        Field::Description => required_text_fault(raw.description.as_str()),
        Field::AffectedPackage => required_text_fault(raw.affected_package.as_str()),
        Field::Severity => match Severity::parse(raw.severity.as_str()) {
            Ok(_) => None,
            Err(kind) => Some(kind),
        },
        Field::Status => match Status::parse(raw.status.as_str()) {
            Ok(_) => None,
            Err(kind) => Some(kind),
        },
        Field::ImpactStatement => match Status::parse(raw.status.as_str()) {
            Ok(Status::Affected) => required_text_fault(raw.impact_statement.as_str()),
            _ => None,
        },
        Field::ActionStatement => match Status::parse(raw.status.as_str()) {
            Ok(Status::Affected) | Ok(Status::Fixed) => required_text_fault(
                raw.action_statement.as_str(),
            ),
            _ => None,
        },
        Field::Justification => match Status::parse(raw.status.as_str()) {
            Ok(status) => justification_fault_of(status, raw.justification.as_str()),
            Err(_) => None,
        },
    }
}

fn report_into(out: &mut Vec<Violation>, raw: &RawFields, field: Field)
    ensures
        final(out)@ == old(out)@ + report(raw@, field),
{
    match fault_of(raw, field) {
        Some(kind) => {
            out.push(Violation { field, kind });
            assert(final(out)@ =~= old(out)@ + report(raw@, field));
        },
        None => {
            assert(out@ =~= old(out)@ + report(raw@, field));
        },
    }
}

/// Evaluates every rule on a candidate and returns the full report. An empty
/// report means that the candidate is consistent.
pub fn check(raw: &RawFields) -> (found: Vec<Violation>)
    ensures
        found@ == violations(raw@),
{
    let mut found: Vec<Violation> = Vec::new();
    assert(found@ =~= Seq::empty());
    report_into(&mut found, raw, Field::Description);
    report_into(&mut found, raw, Field::AffectedPackage);
    report_into(&mut found, raw, Field::Severity);
    report_into(&mut found, raw, Field::Status);
    report_into(&mut found, raw, Field::ImpactStatement);
    report_into(&mut found, raw, Field::ActionStatement);
    report_into(&mut found, raw, Field::Justification);
    assert(found@ =~= violations(raw@));
    found
}

} // verus!
