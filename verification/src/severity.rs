use vstd::prelude::*;

use crate::text::str_eq;

verus! {

/// How serious a finding is, from the least to the most serious.
#[derive(Clone, Copy, Debug, PartialEq, Eq, Structural, Hash, PartialOrd, Ord)]
pub enum Severity {
    Info,
    Low,
    Medium,
    High,
    Critical,
}

impl Severity {
    /// Position of the severity in the order `Info < Low < Medium < High < Critical`.
    pub open spec fn spec_rank(self) -> nat {
        match self {
            Severity::Info => 0,
            Severity::Low => 1,
            Severity::Medium => 2,
            Severity::High => 3,
            Severity::Critical => 4,
        }
    }

    pub fn rank(&self) -> (r: u8)
        ensures
            r == self.spec_rank(),
    {
        match self {
            Severity::Info => 0,
            Severity::Low => 1,
            Severity::Medium => 2,
            Severity::High => 3,
            Severity::Critical => 4,
        }
    }
    /// Whether `self` is at least as serious as `other`.
    pub open spec fn spec_at_least(self, other: Severity) -> bool {
        self.spec_rank() >= other.spec_rank()
    }

    /// Tells whether `self` is at least as serious as `other` (`self >= other`).
    pub fn at_least(&self, other: &Severity) -> (b: bool)
        ensures
            b == self.spec_at_least(*other),
    {
        self.rank() >= other.rank()
    }

    /// The name under which a severity is displayed and recorded in the cache.
    pub open spec fn spec_label(self) -> Seq<char> {
        match self {
            Severity::Info => "INFO"@,
            Severity::Low => "LOW"@,
            Severity::Medium => "MEDIUM"@,
            Severity::High => "HIGH"@,
            Severity::Critical => "CRITICAL"@,
        }
    }

    /// The severity's display name, in upper case.
    pub fn label(&self) -> (s: String)
        ensures
            s@ == self.spec_label(),
    {
        match self {
            Severity::Info => String::from_str("INFO"),
            Severity::Low => String::from_str("LOW"),
            Severity::Medium => String::from_str("MEDIUM"),
            Severity::High => String::from_str("HIGH"),
            Severity::Critical => String::from_str("CRITICAL"),
        }
    }

    /// The severity that a recorded label names; an unknown label reads as `Info`.
    pub open spec fn spec_from_label(s: Seq<char>) -> Severity {
        if s == "INFO"@ {
            Severity::Info
        } else if s == "LOW"@ {
            Severity::Low
        } else if s == "MEDIUM"@ {
            Severity::Medium
        } else if s == "HIGH"@ {
            Severity::High
        } else if s == "CRITICAL"@ {
            Severity::Critical
        } else {
            Severity::Info
        }
    }

    /// Reads a label written by [`Severity::label`] back; an unknown label gives `Info`.
    pub fn from_label(s: &str) -> (r: Severity)
        ensures
            r == Self::spec_from_label(s@),
    {
        if str_eq(s, "INFO") {
            Severity::Info
        } else if str_eq(s, "LOW") {
            Severity::Low
        } else if str_eq(s, "MEDIUM") {
            Severity::Medium
        } else if str_eq(s, "HIGH") {
            Severity::High
        } else if str_eq(s, "CRITICAL") {
            Severity::Critical
        } else {
            Severity::Info
        }
    }

    /// The severity that a command-line level names (`info`, `low`, `medium`, `high`,
    /// `critical`), if any.
    pub open spec fn spec_from_level(s: Seq<char>) -> Option<Severity> {
        if s == "info"@ {
            Some(Severity::Info)
        } else if s == "low"@ {
            Some(Severity::Low)
        } else if s == "medium"@ {
            Some(Severity::Medium)
        } else if s == "high"@ {
            Some(Severity::High)
        } else if s == "critical"@ {
            Some(Severity::Critical)
        } else {
            None
        }
    }

    /// Parses a command-line severity level.
    pub fn from_level(s: &str) -> (r: Option<Severity>)
        ensures
            r == Self::spec_from_level(s@),
    {
        if str_eq(s, "info") {
            Some(Severity::Info)
        } else if str_eq(s, "low") {
            Some(Severity::Low)
        } else if str_eq(s, "medium") {
            Some(Severity::Medium)
        } else if str_eq(s, "high") {
            Some(Severity::High)
        } else if str_eq(s, "critical") {
            Some(Severity::Critical)
        } else {
            None
        }
    }
}

/// Every label names the severity it was written for.
pub proof fn lemma_label_round_trip(s: Severity)
    ensures
        Severity::spec_from_label(s.spec_label()) == s,
{
    reveal_strlit("INFO");
    reveal_strlit("LOW");
    reveal_strlit("MEDIUM");
    reveal_strlit("HIGH");
    reveal_strlit("CRITICAL");
    assert("LOW"@.len() != "INFO"@.len());
    assert("MEDIUM"@.len() != "INFO"@.len() && "MEDIUM"@.len() != "LOW"@.len());
    assert("HIGH"@[0] != "INFO"@[0] && "HIGH"@.len() != "LOW"@.len() && "HIGH"@.len()
        != "MEDIUM"@.len());
    assert("CRITICAL"@.len() != "INFO"@.len() && "CRITICAL"@.len() != "LOW"@.len()
        && "CRITICAL"@.len() != "MEDIUM"@.len() && "CRITICAL"@.len() != "HIGH"@.len());
}

/// Two severities are ordered one way or the other, and the order is antisymmetric.
pub proof fn lemma_order_total(a: Severity, b: Severity)
    ensures
        a.spec_at_least(b) || b.spec_at_least(a),
        a.spec_at_least(b) && b.spec_at_least(a) ==> a == b,
{
}

/// The lower-case name under which a severity level is given on the command line.
pub open spec fn level_name(s: Severity) -> Seq<char> {
    match s {
        Severity::Info => "info"@,
        Severity::Low => "low"@,
        Severity::Medium => "medium"@,
        Severity::High => "high"@,
        Severity::Critical => "critical"@,
    }
}

/// The upper-case form of an ASCII letter; other characters are kept.
pub open spec fn ascii_upper(c: char) -> char {
    if 'a' <= c && c <= 'z' {
        ((c as u32) - 32) as char
    } else {
        c
    }
}

/// A severity's label is its command-line name in upper case, and the five labels are
/// pairwise distinct.
pub proof fn lemma_label_is_upper_case_level(s: Severity, t: Severity)
    ensures
        s.spec_label() == level_name(s).map_values(|c: char| ascii_upper(c)),
        s.spec_label() == t.spec_label() ==> s == t,
{
    reveal_strlit("INFO");
    reveal_strlit("LOW");
    reveal_strlit("MEDIUM");
    reveal_strlit("HIGH");
    reveal_strlit("CRITICAL");
    reveal_strlit("info");
    reveal_strlit("low");
    reveal_strlit("medium");
    reveal_strlit("high");
    reveal_strlit("critical");
    assert(s.spec_label() =~= level_name(s).map_values(|c: char| ascii_upper(c)));
    lemma_label_round_trip(s);
    lemma_label_round_trip(t);
}

/// A string that is none of the five labels reads as `Info`.
pub proof fn lemma_unknown_label_is_info(x: Seq<char>)
    requires
        forall|t: Severity| x != #[trigger] t.spec_label(),
    ensures
        Severity::spec_from_label(x) == Severity::Info,
{
    assert(x != Severity::Info.spec_label());
    assert(x != Severity::Low.spec_label());
    assert(x != Severity::Medium.spec_label());
    assert(x != Severity::High.spec_label());
    assert(x != Severity::Critical.spec_label());
}

} // verus!
