//! The three controlled vocabularies of a VEX entry and their canonical
//! tokens.
//!
//! Every value has exactly one token. Parsing is an exact, case-sensitive
//! match against those tokens: nothing is trimmed, folded or defaulted.

use vstd::prelude::*;
use crate::text::same_text;
use crate::violation::ErrorKind;

verus! {

/// Qualitative severity of the underlying vulnerability, from the least to
/// the most severe.
#[derive(Clone, Copy, Debug, PartialEq, Eq, PartialOrd, Ord, Hash, Structural)]
pub enum Severity {
    /// No severity: the token `None`.
    Nil,
    Low,
    Medium,
    High,
    Critical,
}

/// Why a product is not affected although it holds the vulnerable component.
#[derive(Clone, Copy, Debug, PartialEq, Eq, Structural)]
pub enum Justification {
    ComponentNotPresent,
    VulnerabilityNotApplicable,
    Mitigated,
    NoFixAvailable,
}

/// Whether the product is affected; decides which other fields are required.
#[derive(Clone, Copy, Debug, PartialEq, Eq, Structural)]
pub enum Status {
    Affected,
    NotAffected,
    Fixed,
}

impl Severity {
    /// The canonical token of a severity.
    pub open spec fn token(self) -> Seq<char> {
        match self {
            Severity::Nil => "None"@,
            Severity::Low => "Low"@,
            Severity::Medium => "Medium"@,
            Severity::High => "High"@,
            Severity::Critical => "Critical"@,
        }
    }

    /// The severity that `s` is the token of, if any.
    pub open spec fn from_token(s: Seq<char>) -> Option<Severity> {
        if s == Severity::Nil.token() {
            Some(Severity::Nil)
        } else if s == Severity::Low.token() {
            Some(Severity::Low)
        } else if s == Severity::Medium.token() {
            Some(Severity::Medium)
        } else if s == Severity::High.token() {
            Some(Severity::High)
        } else if s == Severity::Critical.token() {
            Some(Severity::Critical)
        } else {
            None
        }
    }

    /// Returns the canonical token.
    pub fn format(self) -> (s: &'static str)
        ensures
            s@ == self.token(),
    {
        match self {
            Severity::Nil => "None",
            Severity::Low => "Low",
            Severity::Medium => "Medium",
            Severity::High => "High",
            Severity::Critical => "Critical",
        }
    }

    /// Parses a token; any other text is an unknown vocabulary value.
    pub fn parse(s: &str) -> (r: Result<Severity, ErrorKind>)
        ensures
            r == match Severity::from_token(s@) {
                Some(v) => Ok::<Severity, ErrorKind>(v),
                None => Err(ErrorKind::UnknownVocabularyValue),
            },
    {
        if same_text(s, "None") {
            Ok(Severity::Nil)
        } else if same_text(s, "Low") {
            Ok(Severity::Low)
        } else if same_text(s, "Medium") {
            Ok(Severity::Medium)
        } else if same_text(s, "High") {
            Ok(Severity::High)
        } else if same_text(s, "Critical") {
            Ok(Severity::Critical)
        } else {
            Err(ErrorKind::UnknownVocabularyValue)
        }
    }

    /// Every severity, in display order.
    pub open spec fn listed() -> Seq<Severity> {
        seq![Severity::Nil, Severity::Low, Severity::Medium, Severity::High, Severity::Critical]
    }

    /// Returns every severity, in display order.
    pub fn all() -> (v: Vec<Severity>)
        ensures
            v@ == Severity::listed(),
    {
        vec![Severity::Nil, Severity::Low, Severity::Medium, Severity::High, Severity::Critical]
    }

    /// Returns the allowed tokens, in display order.
    pub fn tokens() -> (v: Vec<&'static str>)
        ensures
            v@.len() == Severity::listed().len(),
            forall|i: int|
                0 <= i < v@.len() ==> (#[trigger] v@[i])@ == Severity::listed()[i].token(),
    {
        vec!["None", "Low", "Medium", "High", "Critical"]
    }
}

impl Justification {
    /// The canonical token of a justification.
    pub open spec fn token(self) -> Seq<char> {
        match self {
            Justification::ComponentNotPresent => "Component not present"@,
            Justification::VulnerabilityNotApplicable => "Vulnerability not applicable"@,
            Justification::Mitigated => "Mitigated"@,
            Justification::NoFixAvailable => "No fix available"@,
        }
    }

    /// The justification that `s` is the token of, if any.
    pub open spec fn from_token(s: Seq<char>) -> Option<Justification> {
        if s == Justification::ComponentNotPresent.token() {
            Some(Justification::ComponentNotPresent)
        } else if s == Justification::VulnerabilityNotApplicable.token() {
            Some(Justification::VulnerabilityNotApplicable)
        } else if s == Justification::Mitigated.token() {
            Some(Justification::Mitigated)
        } else if s == Justification::NoFixAvailable.token() {
            Some(Justification::NoFixAvailable)
        } else {
            None
        }
    }

    /// Returns the canonical token.
    pub fn format(self) -> (s: &'static str)
        ensures
            s@ == self.token(),
    {
        match self {
            Justification::ComponentNotPresent => "Component not present",
            Justification::VulnerabilityNotApplicable => "Vulnerability not applicable",
            Justification::Mitigated => "Mitigated",
            Justification::NoFixAvailable => "No fix available",
        }
    }

    /// Parses a token; any other text is an unknown vocabulary value.
    pub fn parse(s: &str) -> (r: Result<Justification, ErrorKind>)
        ensures
            r == match Justification::from_token(s@) {
                Some(v) => Ok::<Justification, ErrorKind>(v),
                None => Err(ErrorKind::UnknownVocabularyValue),
            },
    {
        if same_text(s, "Component not present") {
            Ok(Justification::ComponentNotPresent)
        } else if same_text(s, "Vulnerability not applicable") {
            Ok(Justification::VulnerabilityNotApplicable)
        } else if same_text(s, "Mitigated") {
            Ok(Justification::Mitigated)
        } else if same_text(s, "No fix available") {
            Ok(Justification::NoFixAvailable)
        } else {
            Err(ErrorKind::UnknownVocabularyValue)
        }
    }

    /// Every justification, in display order.
    pub open spec fn listed() -> Seq<Justification> {
        seq![
            Justification::ComponentNotPresent,
            Justification::VulnerabilityNotApplicable,
            Justification::Mitigated,
            Justification::NoFixAvailable,
        ]
    }

    /// Returns the allowed tokens, in display order.
    pub fn tokens() -> (v: Vec<&'static str>)
        ensures
            v@.len() == Justification::listed().len(),
            forall|i: int|
                0 <= i < v@.len() ==> (#[trigger] v@[i])@ == Justification::listed()[i].token(),
    {
        vec!["Component not present", "Vulnerability not applicable", "Mitigated", "No fix available"]
    }

    /// Returns every justification, in display order.
    pub fn all() -> (v: Vec<Justification>)
        ensures
            v@ == Justification::listed(),
    {
        vec![
            Justification::ComponentNotPresent,
            Justification::VulnerabilityNotApplicable,
            Justification::Mitigated,
            Justification::NoFixAvailable,
        ]
    }
}

impl Status {
    /// The canonical token of a status.
    pub open spec fn token(self) -> Seq<char> {
        match self {
            Status::Affected => "Affected"@,
            Status::NotAffected => "Not Affected"@,
            Status::Fixed => "Fixed"@,
        }
    }

    /// The status that `s` is the token of, if any.
    pub open spec fn from_token(s: Seq<char>) -> Option<Status> {
        if s == Status::Affected.token() {
            Some(Status::Affected)
        } else if s == Status::NotAffected.token() {
            Some(Status::NotAffected)
        } else if s == Status::Fixed.token() {
            Some(Status::Fixed)
        } else {
            None
        }
    }

    /// Returns the canonical token.
    pub fn format(self) -> (s: &'static str)
        ensures
            s@ == self.token(),
    {
        match self {
            Status::Affected => "Affected",
            Status::NotAffected => "Not Affected",
            Status::Fixed => "Fixed",
        }
    }

    /// Parses a token; any other text is an unknown vocabulary value.
    pub fn parse(s: &str) -> (r: Result<Status, ErrorKind>)
        ensures
            r == match Status::from_token(s@) {
                Some(v) => Ok::<Status, ErrorKind>(v),
                None => Err(ErrorKind::UnknownVocabularyValue),
            },
    {
        if same_text(s, "Affected") {
            Ok(Status::Affected)
        } else if same_text(s, "Not Affected") {
            Ok(Status::NotAffected)
        } else if same_text(s, "Fixed") {
            Ok(Status::Fixed)
        } else {
            Err(ErrorKind::UnknownVocabularyValue)
        }
    }

    /// Every status, in display order.
    pub open spec fn listed() -> Seq<Status> {
        seq![Status::Affected, Status::NotAffected, Status::Fixed]
    }

    /// Returns every status, in display order.
    pub fn all() -> (v: Vec<Status>)
        ensures
            v@ == Status::listed(),
    {
        vec![Status::Affected, Status::NotAffected, Status::Fixed]
    }

    /// Returns the allowed tokens, in display order.
    pub fn tokens() -> (v: Vec<&'static str>)
        ensures
            v@.len() == Status::listed().len(),
            forall|i: int| 0 <= i < v@.len() ==> (#[trigger] v@[i])@ == Status::listed()[i].token(),
    {
        vec!["Affected", "Not Affected", "Fixed"]
    }
}

/// Parsing the token of a severity gives that severity back.
pub proof fn severity_round_trip(v: Severity)
    ensures
        Severity::from_token(v.token()) == Some(v),
{
    reveal_strlit("None");
    assert("None"@[0] == 'N');
    reveal_strlit("Low");
    assert("Low"@[0] == 'L');
    reveal_strlit("Medium");
    assert("Medium"@[0] == 'M');
    reveal_strlit("High");
    assert("High"@[0] == 'H');
    reveal_strlit("Critical");
    assert("Critical"@[0] == 'C');
}

/// Parsing the token of a justification gives that justification back.
pub proof fn justification_round_trip(v: Justification)
    ensures
        Justification::from_token(v.token()) == Some(v),
{
    reveal_strlit("Component not present");
    assert("Component not present"@[0] == 'C');
    reveal_strlit("Vulnerability not applicable");
    assert("Vulnerability not applicable"@[0] == 'V');
    reveal_strlit("Mitigated");
    assert("Mitigated"@[0] == 'M');
    reveal_strlit("No fix available");
    assert("No fix available"@[0] == 'N');
}

/// Parsing the token of a status gives that status back.
pub proof fn status_round_trip(v: Status)
    ensures
        Status::from_token(v.token()) == Some(v),
{
    reveal_strlit("Affected");
    assert("Affected"@[0] == 'A');
    reveal_strlit("Not Affected");
    assert("Not Affected"@[0] == 'N');
    reveal_strlit("Fixed");
    assert("Fixed"@[0] == 'F');
}

/// The lists are complete: every value of a vocabulary is listed.
pub proof fn every_value_is_listed(severity: Severity, justification: Justification, status: Status)
    ensures
        Severity::listed().contains(severity),
        Justification::listed().contains(justification),
        Status::listed().contains(status),
{
    let a = Severity::listed();
    assert(a[0] == Severity::Nil && a[1] == Severity::Low && a[2] == Severity::Medium && a[3]
        == Severity::High && a[4] == Severity::Critical);
    let b = Justification::listed();
    assert(b[0] == Justification::ComponentNotPresent && b[1]
        == Justification::VulnerabilityNotApplicable && b[2] == Justification::Mitigated && b[3]
        == Justification::NoFixAvailable);
    let c = Status::listed();
    assert(c[0] == Status::Affected && c[1] == Status::NotAffected && c[2] == Status::Fixed);
}

/// A text parses to a value only if it is that value's token, so no two
/// texts stand for the same value.
pub proof fn parsed_text_is_token(s: Seq<char>)
    ensures
        Severity::from_token(s) matches Some(v) ==> s == v.token(),
        Justification::from_token(s) matches Some(v) ==> s == v.token(),
        Status::from_token(s) matches Some(v) ==> s == v.token(),
{
}

} // verus!
