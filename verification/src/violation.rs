//! Structured validation failures: which field broke which rule.

use vstd::prelude::*;

verus! {

/// The reason a candidate field was rejected.
#[derive(Clone, Copy, Debug, PartialEq, Eq, Structural)]
pub enum ErrorKind {
    /// A field that the rules demand is empty after trimming.
    RequiredFieldMissing,
    /// A vocabulary field holds text that is none of its tokens.
    UnknownVocabularyValue,
    /// A field is filled in although the chosen status forbids it.
    ConflictingField,
}

/// The fields of a candidate entry, in the order in which they are reported.
#[derive(Clone, Copy, Debug, PartialEq, Eq, Structural)]
pub enum Field {
    Description,
    AffectedPackage,
    Severity,
    Status,
    ImpactStatement,
    ActionStatement,
    Justification,
}

/// One field's failure to satisfy a rule.
#[derive(Clone, Copy, Debug, PartialEq, Eq, Structural)]
pub struct Violation {
    pub field: Field,
    pub kind: ErrorKind,
}

impl Field {
    /// The field's name in the serialized record.
    pub open spec fn label(self) -> Seq<char> {
        match self {
            Field::Description => "description"@,
            Field::AffectedPackage => "affected_package"@,
            Field::Severity => "severity"@,
            Field::Status => "status"@,
            Field::ImpactStatement => "impact_statement"@,
            Field::ActionStatement => "action_statement"@,
            Field::Justification => "justification"@,
        }
    }

    /// Returns the field's name in the serialized record.
    pub fn name(self) -> (s: &'static str)
        ensures
            s@ == self.label(),
    {
        match self {
            Field::Description => "description",
            Field::AffectedPackage => "affected_package",
            Field::Severity => "severity",
            Field::Status => "status",
            Field::ImpactStatement => "impact_statement",
            Field::ActionStatement => "action_statement",
            Field::Justification => "justification",
        }
    }
}

} // verus!
