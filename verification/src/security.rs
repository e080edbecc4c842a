//! The finding model: severities with their canonical total order, rule
//! identifiers, and alerts with their source locations.
use vstd::prelude::*;

use crate::text::{lower, str_eq, str_to_lower};

verus! {

/// Criticality tier of a finding. The declaration order is the canonical
/// total order, most severe first; one ranking (`sev_rank`) backs both the
/// sort of findings for display and the filter predicate.
#[derive(Clone, Copy, Debug, PartialEq, Eq, Structural, PartialOrd, Ord, Hash)]
pub enum Severity {
    Critical,
    High,
    Medium,
    Low,
    Information,
    Quality,
    Hardening,
    All,
}

/// Rank of a severity in the canonical total order: 0 is most severe.
pub open spec fn sev_rank(s: Severity) -> int {
    match s {
        Severity::Critical => 0,
        Severity::High => 1,
        Severity::Medium => 2,
        Severity::Low => 3,
        Severity::Information => 4,
        Severity::Quality => 5,
        Severity::Hardening => 6,
        Severity::All => 7,
    }
}

/// Display name of a severity.
pub open spec fn sev_name(s: Severity) -> Seq<char> {
    match s {
        Severity::Critical => "Critical"@,
        Severity::High => "High"@,
        Severity::Medium => "Medium"@,
        Severity::Low => "Low"@,
        Severity::Information => "Information"@,
        Severity::Quality => "Quality"@,
        Severity::Hardening => "Hardening"@,
        Severity::All => "All"@,
    }
}

/// Lowercase display name of a severity.
pub open spec fn sev_name_lower(s: Severity) -> Seq<char> {
    match s {
        Severity::Critical => "critical"@,
        Severity::High => "high"@,
        Severity::Medium => "medium"@,
        Severity::Low => "low"@,
        Severity::Information => "information"@,
        Severity::Quality => "quality"@,
        Severity::Hardening => "hardening"@,
        Severity::All => "all"@,
    }
}

/// Rank named by a lowercase filter string. The severity names map to their
/// canonical ranks; `errors`, `warnings` and `notes` are accepted aliases for
/// the High, Low and Information thresholds; anything unrecognized is the
/// strictest threshold.
pub open spec fn filter_rank(s: Seq<char>) -> int {
    if s == "critical"@ {
        0
    } else if s == "high"@ {
        1
    } else if s == "errors"@ {
        1
    } else if s == "medium"@ {
        2
    } else if s == "low"@ {
        3
    } else if s == "warnings"@ {
        3
    } else if s == "information"@ {
        4
    } else if s == "notes"@ {
        4
    } else if s == "quality"@ {
        5
    } else if s == "hardening"@ {
        6
    } else if s == "all"@ {
        7
    } else {
        0
    }
}

/// Severity denoted by a lowercase name or abbreviation; anything
/// unrecognized means every severity is of interest.
pub open spec fn parse_sev(s: Seq<char>) -> Severity {
    if s == "c"@ || s == "crit"@ || s == "critical"@ {
        Severity::Critical
    } else if s == "h"@ || s == "high"@ {
        Severity::High
    } else if s == "m"@ || s == "med"@ || s == "medium"@ {
        Severity::Medium
    } else if s == "l"@ || s == "low"@ {
        Severity::Low
    } else if s == "i"@ || s == "info"@ || s == "information"@ {
        Severity::Information
    } else {
        Severity::All
    }
}

impl Severity {
    /// Canonical rank, executable form.
    pub fn rank(&self) -> (r: u8)
        ensures
            r as int == sev_rank(*self),
    {
        match self {
            Severity::Critical => 0,
            Severity::High => 1,
            Severity::Medium => 2,
            Severity::Low => 3,
            Severity::Information => 4,
            Severity::Quality => 5,
            Severity::Hardening => 6,
            Severity::All => 7,
        }
    }

    /// Display name.
    pub fn name(&self) -> (r: String)
        ensures
            r@ == sev_name(*self),
    {
        match self {
            Severity::Critical => "Critical".to_owned(),
            Severity::High => "High".to_owned(),
            Severity::Medium => "Medium".to_owned(),
            Severity::Low => "Low".to_owned(),
            Severity::Information => "Information".to_owned(),
            Severity::Quality => "Quality".to_owned(),
            Severity::Hardening => "Hardening".to_owned(),
            Severity::All => "All".to_owned(),
        }
    }

    /// Whether an alert of severity `self` is displayed under the threshold
    /// named (case-insensitively) by `filter`: true exactly when `self` is at
    /// least as severe as the named threshold in the canonical order.
    pub fn filter(&self, filter: String) -> (r: bool)
        ensures
            r == (sev_rank(*self) <= filter_rank(lower(filter@))),
    {
        let lf = str_to_lower(filter.as_str());
        let fr: u8 = if str_eq(lf.as_str(), "critical") {
            0
        } else if str_eq(lf.as_str(), "high") {
            1
        } else if str_eq(lf.as_str(), "errors") {
            1
        } else if str_eq(lf.as_str(), "medium") {
            2
        } else if str_eq(lf.as_str(), "low") {
            3
        } else if str_eq(lf.as_str(), "warnings") {
            3
        } else if str_eq(lf.as_str(), "information") {
            4
        } else if str_eq(lf.as_str(), "notes") {
            4
        } else if str_eq(lf.as_str(), "quality") {
            5
        } else if str_eq(lf.as_str(), "hardening") {
            6
        } else if str_eq(lf.as_str(), "all") {
            7
        } else {
            0
        };
        assert(fr as int == filter_rank(lower(filter@)));
        self.rank() <= fr
    }
}

impl From<String> for Severity {
    /// Severity named by a string such as `"medium"`, `"Med"` or `"m"`;
    /// unrecognized names mean `All`.
    fn from(value: String) -> (r: Severity) {
        let lv = str_to_lower(value.as_str());
        if str_eq(lv.as_str(), "c") || str_eq(lv.as_str(), "crit") || str_eq(
            lv.as_str(),
            "critical",
        ) {
            Severity::Critical
        } else if str_eq(lv.as_str(), "h") || str_eq(lv.as_str(), "high") {
            Severity::High
        } else if str_eq(lv.as_str(), "m") || str_eq(lv.as_str(), "med") || str_eq(
            lv.as_str(),
            "medium",
        ) {
            Severity::Medium
        } else if str_eq(lv.as_str(), "l") || str_eq(lv.as_str(), "low") {
            Severity::Low
        } else if str_eq(lv.as_str(), "i") || str_eq(lv.as_str(), "info") || str_eq(
            lv.as_str(),
            "information",
        ) {
            Severity::Information
        } else {
            Severity::All
        }
    }
}

impl vstd::std_specs::convert::FromSpecImpl<String> for Severity {
    open spec fn obeys_from_spec() -> bool {
        true
    }

    open spec fn from_spec(value: String) -> Severity {
        parse_sev(lower(value@))
    }
}

/// The lowercase display name of each severity is its display name
/// lowercased.
pub proof fn lemma_sev_name_lower(b: Severity)
    ensures
        lower(sev_name(b)) == sev_name_lower(b),
{
    reveal_strlit("Critical");
    reveal_strlit("critical");
    reveal_strlit("High");
    reveal_strlit("high");
    reveal_strlit("Medium");
    reveal_strlit("medium");
    reveal_strlit("Low");
    reveal_strlit("low");
    reveal_strlit("Information");
    reveal_strlit("information");
    reveal_strlit("Quality");
    reveal_strlit("quality");
    reveal_strlit("Hardening");
    reveal_strlit("hardening");
    reveal_strlit("All");
    reveal_strlit("all");
    assert(lower(sev_name(b)) =~= sev_name_lower(b));
}

/// The filter predicate agrees with the canonical total order: for any two
/// severities `a` and `b`, and any spelling `s` of `b`'s name regardless of
/// casing, an alert of severity `a` passes the filter named `s` exactly when
/// `a` is at least as severe as `b`.
pub proof fn lemma_filter_agrees_with_order(a: Severity, b: Severity, s: Seq<char>)
    requires
        lower(s) == lower(sev_name(b)),
    ensures
        (sev_rank(a) <= filter_rank(lower(s))) == (sev_rank(a) <= sev_rank(b)),
{
    lemma_sev_name_lower(b);
    reveal_strlit("critical");
    reveal_strlit("high");
    reveal_strlit("errors");
    reveal_strlit("medium");
    reveal_strlit("low");
    reveal_strlit("warnings");
    reveal_strlit("information");
    reveal_strlit("notes");
    reveal_strlit("quality");
    reveal_strlit("hardening");
    reveal_strlit("all");
    assert("critical"@.len() == 8 && "high"@.len() == 4 && "errors"@.len() == 6
        && "medium"@.len() == 6 && "low"@.len() == 3 && "warnings"@.len() == 8
        && "information"@.len() == 11 && "notes"@.len() == 5 && "quality"@.len() == 7
        && "hardening"@.len() == 9 && "all"@.len() == 3);
    assert("medium"@[0] == 'm' && "errors"@[0] == 'e');
    assert("all"@[0] == 'a' && "low"@[0] == 'l');
    match b {
        Severity::Critical => assert(filter_rank("critical"@) == 0),
        Severity::High => assert(filter_rank("high"@) == 1),
        Severity::Medium => assert(filter_rank("medium"@) == 2),
        Severity::Low => assert(filter_rank("low"@) == 3),
        Severity::Information => assert(filter_rank("information"@) == 4),
        Severity::Quality => assert(filter_rank("quality"@) == 5),
        Severity::Hardening => assert(filter_rank("hardening"@) == 6),
        Severity::All => assert(filter_rank("all"@) == 7),
    }
}

/// Identity of the rule behind a finding: an internal short code, or a
/// taxonomy-qualified CWE or OWASP code.
#[derive(Debug, PartialEq)]
pub enum RuleID {
    Quibble(String),
    Cwe(String),
    Owasp(String),
}

/// Spec-level value of a `RuleID`.
pub enum RuleIdV {
    Quibble(Seq<char>),
    Cwe(Seq<char>),
    Owasp(Seq<char>),
}

impl View for RuleID {
    type V = RuleIdV;

    open spec fn view(&self) -> RuleIdV {
        match self {
            RuleID::Quibble(q) => RuleIdV::Quibble(q@),
            RuleID::Cwe(c) => RuleIdV::Cwe(c@),
            RuleID::Owasp(o) => RuleIdV::Owasp(o@),
        }
    }
}

impl DeepView for RuleID {
    type V = RuleIdV;

    open spec fn deep_view(&self) -> RuleIdV {
        self.view()
    }
}

/// How a rule identifier is displayed: the raw internal code, or the
/// taxonomy prefix followed by the code.
pub open spec fn rule_id_render(id: RuleIdV) -> Seq<char> {
    match id {
        RuleIdV::Quibble(q) => q,
        RuleIdV::Owasp(o) => "OWASP-"@ + o,
        RuleIdV::Cwe(c) => "CWE-"@ + c,
    }
}

impl RuleID {
    /// Display form of the identifier.
    pub fn render(&self) -> (r: String)
        ensures
            r@ == rule_id_render(self@),
    {
        match self {
            RuleID::Quibble(q) => q.clone(),
            RuleID::Owasp(o) => {
                let mut out = "OWASP-".to_owned();
                out.append(o.as_str());
                out
            },
            RuleID::Cwe(c) => {
                let mut out = "CWE-".to_owned();
                out.append(c.as_str());
                out
            },
        }
    }

    /// A fresh copy of the identifier.
    pub fn duplicate(&self) -> (r: RuleID)
        ensures
            r@ == self@,
    {
        match self {
            RuleID::Quibble(q) => RuleID::Quibble(q.clone()),
            RuleID::Cwe(c) => RuleID::Cwe(c.clone()),
            RuleID::Owasp(o) => RuleID::Owasp(o.clone()),
        }
    }
}

/// Where a finding points: a file path and, when known, a zero-based line.
#[derive(Debug, PartialEq)]
pub struct AlertLocation {
    pub path: String,
    pub line: Option<usize>,
}

/// Spec-level value of an `AlertLocation`; the line is a plain integer.
pub struct AlertLocationV {
    pub path: Seq<char>,
    pub line: Option<int>,
}

/// The spec-level value of a stored line number.
pub open spec fn opt_line_view(l: Option<usize>) -> Option<int> {
    match l {
        Some(v) => Some(v as int),
        None => None,
    }
}

impl View for AlertLocation {
    type V = AlertLocationV;

    open spec fn view(&self) -> AlertLocationV {
        AlertLocationV { path: self.path@, line: opt_line_view(self.line) }
    }
}

impl DeepView for AlertLocation {
    type V = AlertLocationV;

    open spec fn deep_view(&self) -> AlertLocationV {
        self.view()
    }
}

impl AlertLocation {
    /// A location with an empty path and no line.
    pub fn empty() -> (r: AlertLocation)
        ensures
            r@ == (AlertLocationV { path: Seq::<char>::empty(), line: None::<int> }),
    {
        AlertLocation { path: String::new(), line: None }
    }

    /// A fresh copy of the location.
    pub fn duplicate(&self) -> (r: AlertLocation)
        ensures
            r@ == self@,
    {
        AlertLocation {
            path: self.path.clone(),
            line: match self.line {
                Some(l) => Some(l),
                None => None,
            },
        }
    }
}

/// One finding: its detail text, severity, rule identity, and location.
#[derive(Debug, PartialEq)]
pub struct Alert {
    pub details: String,
    pub severity: Severity,
    pub id: RuleID,
    pub path: AlertLocation,
}

/// Spec-level value of an `Alert`.
pub struct AlertV {
    pub details: Seq<char>,
    pub severity: Severity,
    pub id: RuleIdV,
    pub path: AlertLocationV,
}

impl View for Alert {
    type V = AlertV;

    open spec fn view(&self) -> AlertV {
        AlertV { details: self.details@, severity: self.severity, id: self.id@, path: self.path@ }
    }
}

impl DeepView for Alert {
    type V = AlertV;

    open spec fn deep_view(&self) -> AlertV {
        self.view()
    }
}

/// The alert every field starts from: empty details, `Information` severity,
/// the `N/A` internal code, and an empty location.
pub open spec fn default_alert() -> AlertV {
    AlertV {
        details: Seq::<char>::empty(),
        severity: Severity::Information,
        id: RuleIdV::Quibble("N/A"@),
        path: AlertLocationV { path: Seq::<char>::empty(), line: None },
    }
}

impl Alert {
    /// A default alert, to be filled in field by field.
    pub fn new() -> (r: Alert)
        ensures
            r@ == default_alert(),
    {
        Alert {
            details: String::new(),
            severity: Severity::Information,
            id: RuleID::Quibble("N/A".to_owned()),
            path: AlertLocation::empty(),
        }
    }

    /// Numeric severity score of the finding, as a decimal string; empty for
    /// the tiers that carry no score.
    pub fn cvss(&self) -> (r: String)
        ensures
            r@ == cvss_score(self.severity),
    {
        match self.severity {
            Severity::Critical => "10.0".to_owned(),
            Severity::High => "7.0".to_owned(),
            Severity::Medium => "5.0".to_owned(),
            Severity::Low => "3.0".to_owned(),
            Severity::Hardening => "2.0".to_owned(),
            Severity::Information | Severity::All | Severity::Quality => String::new(),
        }
    }

    /// A fresh copy of the alert.
    pub fn duplicate(&self) -> (r: Alert)
        ensures
            r@ == self@,
    {
        Alert {
            details: self.details.clone(),
            severity: self.severity,
            id: self.id.duplicate(),
            path: self.path.duplicate(),
        }
    }
}

/// One finding as a spec value, assembled from its parts.
pub open spec fn mk_alert(
    details: Seq<char>,
    severity: Severity,
    id: RuleIdV,
    path: Seq<char>,
    line: Option<int>,
) -> AlertV {
    AlertV { details, severity, id, path: AlertLocationV { path, line } }
}

/// Severity score table: Critical 10.0, High 7.0, Medium 5.0, Low 3.0,
/// Hardening 2.0, and no score for the remaining tiers.
pub open spec fn cvss_score(s: Severity) -> Seq<char> {
    match s {
        Severity::Critical => "10.0"@,
        Severity::High => "7.0"@,
        Severity::Medium => "5.0"@,
        Severity::Low => "3.0"@,
        Severity::Hardening => "2.0"@,
        Severity::Information | Severity::All | Severity::Quality => Seq::<char>::empty(),
    }
}

} // verus!
