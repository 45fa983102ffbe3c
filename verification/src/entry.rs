//! The validated entry and its constructor.
//!
//! A [`VexEntry`] cannot be built field by field: the only way to one is
//! [`validate`], and every entry that exists satisfies the rules.

use vstd::prelude::*;
use vstd::pervasive::unreached;
use crate::rules::{check, report, violations, Candidate, RawFields};
use crate::text::{is_blank, text_is_blank};
use crate::violation::{Field, Violation};
use crate::vocab::{Justification, Severity, Status};

verus! {

/// What an entry holds, as mathematical values.
pub struct EntryView {
    pub id: u32,
    pub description: Seq<char>,
    pub severity: Severity,
    pub affected_package: Seq<char>,
    pub justification: Option<Justification>,
    pub status: Status,
    pub impact_statement: Seq<char>,
    pub action_statement: Seq<char>,
}

impl EntryView {
    /// The consistency of an entry: description and package are filled in,
    /// and the status-dependent fields agree with the status.
    pub open spec fn valid(self) -> bool {
        &&& !is_blank(self.description)
        &&& !is_blank(self.affected_package)
        &&& match self.status {
            Status::Affected => {
                &&& !is_blank(self.impact_statement)
                &&& !is_blank(self.action_statement)
                &&& self.justification is None
            },
            Status::NotAffected => self.justification is Some,
            Status::Fixed => !is_blank(self.action_statement),
        }
    }
}

/// One statement about whether a vulnerability affects a package. Its fields
/// are fixed at creation.
#[derive(Debug, PartialEq, Eq)]
pub struct VexEntry {
    id: u32,
    description: String,
    severity: Severity,
    affected_package: String,
    justification: Option<Justification>,
    status: Status,
    impact_statement: String,
    action_statement: String,
}

impl View for VexEntry {
    type V = EntryView;

    closed spec fn view(&self) -> EntryView {
        EntryView {
            id: self.id,
            description: self.description@,
            severity: self.severity,
            affected_package: self.affected_package@,
            justification: self.justification,
            status: self.status,
            impact_statement: self.impact_statement@,
            action_statement: self.action_statement@,
        }
    }
}

impl Clone for VexEntry {
    /// Returns an entry with the same fields.
    fn clone(&self) -> (r: Self)
        ensures
            r@ == self@,
    {
        proof {
            use_type_invariant(self);
        }
        VexEntry {
            id: self.id,
            description: self.description.clone(),
            severity: self.severity,
            affected_package: self.affected_package.clone(),
            justification: self.justification,
            status: self.status,
            impact_statement: self.impact_statement.clone(),
            action_statement: self.action_statement.clone(),
        }
    }
}

/// The justification that a text stands for: none where it is blank, else
/// the value that it is the token of.
pub open spec fn justification_of(s: Seq<char>) -> Option<Justification> {
    if is_blank(s) {
        None
    } else {
        Justification::from_token(s)
    }
}

/// The entry that a candidate becomes under the identifier `id`: defined
/// exactly where the candidate has no violation. The free texts are kept as
/// they were given.
pub open spec fn entry_of(raw: Candidate, id: u32) -> Option<EntryView> {
    match (Severity::from_token(raw.severity), Status::from_token(raw.status)) {
        (Some(severity), Some(status)) => if violations(raw).len() == 0 {
            Some(
                EntryView {
                    id,
                    description: raw.description,
                    severity,
                    affected_package: raw.affected_package,
                    justification: justification_of(raw.justification),
                    status,
                    impact_statement: raw.impact_statement,
                    action_statement: raw.action_statement,
                },
            )
        } else {
            None
        },
        _ => None,
    }
}

impl VexEntry {
    /// Every entry that exists is consistent.
    #[verifier::type_invariant]
    spec fn consistent(&self) -> bool {
        self@.valid()
    }

    /// The identifier that the entry was created under.
    pub fn id(&self) -> (r: u32)
        ensures
            r == self@.id,
    {
        self.id
    }

    /// The description of the vulnerability, as it was given.
    pub fn description(&self) -> (r: &str)
        ensures
            r@ == self@.description,
    {
        self.description.as_str()
    }

    /// The severity of the vulnerability.
    pub fn severity(&self) -> (r: Severity)
        ensures
            r == self@.severity,
    {
        self.severity
    }

    /// The package and version that the statement is about, as given.
    pub fn affected_package(&self) -> (r: &str)
        ensures
            r@ == self@.affected_package,
    {
        self.affected_package.as_str()
    }

    /// The justification, where the entry carries one.
    pub fn justification(&self) -> (r: Option<Justification>)
        ensures
            r == self@.justification,
    {
        self.justification
    }

    /// The status. It decides which of the other fields are filled in, and
    /// every entry is consistent with it.
    pub fn status(&self) -> (r: Status)
        ensures
            r == self@.status,
            self@.valid(),
    {
        proof {
            use_type_invariant(self);
        }
        self.status
    }

    /// The impact statement, as it was given; it may be empty.
    pub fn impact_statement(&self) -> (r: &str)
        ensures
            r@ == self@.impact_statement,
    {
        self.impact_statement.as_str()
    }

    /// The action statement, as it was given; it may be empty.
    pub fn action_statement(&self) -> (r: &str)
        ensures
            r@ == self@.action_statement,
    {
        self.action_statement.as_str()
    }
}

/// A candidate becomes an entry exactly when it has no violation, and what
/// it becomes is consistent: no candidate with a fault yields an entry, in
/// part or in whole.
pub proof fn entry_only_without_violation(raw: Candidate, id: u32)
    ensures
        entry_of(raw, id) is Some <==> violations(raw).len() == 0,
        entry_of(raw, id) matches Some(e) ==> e.valid() && e.id == id,
{
    if violations(raw).len() == 0 {
        assert(report(raw, Field::Description).len() == 0);
        assert(report(raw, Field::AffectedPackage).len() == 0);
        assert(report(raw, Field::Severity).len() == 0);
        assert(report(raw, Field::Status).len() == 0);
        assert(report(raw, Field::ImpactStatement).len() == 0);
        assert(report(raw, Field::ActionStatement).len() == 0);
        assert(report(raw, Field::Justification).len() == 0);
    }
}

/// Reads the justification that a text stands for.
fn justification_from(s: &str) -> (r: Option<Justification>)
    ensures
        r == justification_of(s@),
{
    if text_is_blank(s) {
        None
    } else {
        match Justification::parse(s) {
            Ok(j) => Some(j),
            Err(_) => None,
        }
    }
}

/// Builds the entry of a candidate that has no violation.
fn build(raw: &RawFields, id: u32) -> (e: VexEntry)
    requires
        violations(raw@).len() == 0,
    ensures
        entry_of(raw@, id) == Some(e@),
        e@.valid(),
{
    proof {
        entry_only_without_violation(raw@, id);
    }
    let severity = match Severity::parse(raw.severity.as_str()) {
        Ok(severity) => severity,
        Err(_) => unreached(),
    };
    let status = match Status::parse(raw.status.as_str()) {
        Ok(status) => status,
        Err(_) => unreached(),
    };
    VexEntry {
        id,
        description: raw.description.clone(),
        severity,
        affected_package: raw.affected_package.clone(),
        justification: justification_from(raw.justification.as_str()),
        status,
        impact_statement: raw.impact_statement.clone(),
        action_statement: raw.action_statement.clone(),
    }
}

/// Validates a candidate and, where it has no violation, builds the entry
/// under the identifier `id`. Otherwise the full report is returned and no
/// entry is built.
pub fn validate(raw: &RawFields, id: u32) -> (r: Result<VexEntry, Vec<Violation>>)
    ensures
        r is Ok <==> violations(raw@).len() == 0,
        match r {
            Ok(e) => entry_of(raw@, id) == Some(e@) && e@.valid(),
            Err(found) => entry_of(raw@, id) is None && found@ == violations(raw@)
                && found@.len() > 0,
        },
{
    let found = check(raw);
    if found.len() == 0 {
        Ok(build(raw, id))
    } else {
        Err(found)
    }
}

/// Validates a candidate and, where it has no violation, asks `next_id` for
/// an identifier and builds the entry under it. The identifier source is
/// not consulted for a candidate that is refused.
pub fn validate_with<F: FnOnce() -> u32>(raw: &RawFields, next_id: F) -> (r: Result<
    VexEntry,
    Vec<Violation>,
>)
    requires
        next_id.requires(()),
    ensures
        r is Ok <==> violations(raw@).len() == 0,
        match r {
            Ok(e) => next_id.ensures((), e@.id) && entry_of(raw@, e@.id) == Some(e@) && e@.valid(),
            Err(found) => found@ == violations(raw@) && found@.len() > 0,
        },
{
    let found = check(raw);
    if found.len() == 0 {
        Ok(build(raw, next_id()))
    } else {
        Err(found)
    }
}

} // verus!
