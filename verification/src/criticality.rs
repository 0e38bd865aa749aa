//! The ordered severity taxonomy carried by every rule and every finding.

use vstd::prelude::*;

use crate::strutil::{matches_ci, str_ieq};

verus! {

/// Severity tier of a rule or a finding, from least to most severe.
#[derive(Clone, Copy, PartialEq, Eq, Structural, Debug, Hash)]
pub enum Criticality {
    Warning,
    Low,
    Medium,
    High,
    Critical,
}

impl Criticality {
    /// Rank in the severity order: `Warning` is lowest, `Critical` highest.
    pub open spec fn level(self) -> int {
        match self {
            Criticality::Warning => 0,
            Criticality::Low => 1,
            Criticality::Medium => 2,
            Criticality::High => 3,
            Criticality::Critical => 4,
        }
    }

    /// Rank in the severity order, as a machine integer.
    pub fn rank(&self) -> (r: u8)
        ensures
            r as int == self.level(),
    {
        match self {
            Criticality::Warning => 0,
            Criticality::Low => 1,
            Criticality::Medium => 2,
            Criticality::High => 3,
            Criticality::Critical => 4,
        }
    }

    /// Two tiers with the same rank are the same tier.
    pub proof fn lemma_level_injective(a: Criticality, b: Criticality)
        requires
            a.level() == b.level(),
        ensures
            a == b,
    {
    }

    /// The canonical spelling of each tier.
    pub open spec fn spec_name(self) -> Seq<char> {
        match self {
            Criticality::Warning => "warning"@,
            Criticality::Low => "low"@,
            Criticality::Medium => "medium"@,
            Criticality::High => "high"@,
            Criticality::Critical => "critical"@,
        }
    }

    /// The canonical spelling of each tier.
    pub fn name(&self) -> (r: String)
        ensures
            r@ == self.spec_name(),
    {
        match self {
            Criticality::Warning => String::from_str("warning"),
            Criticality::Low => String::from_str("low"),
            Criticality::Medium => String::from_str("medium"),
            Criticality::High => String::from_str("high"),
            Criticality::Critical => String::from_str("critical"),
        }
    }

    /// How a tier name parses: its canonical spelling, up to ASCII case.
    pub open spec fn spec_parse(s: Seq<char>) -> Option<Criticality> {
        if matches_ci(s, "warning"@) {
            Some(Criticality::Warning)
        } else if matches_ci(s, "low"@) {
            Some(Criticality::Low)
        } else if matches_ci(s, "medium"@) {
            Some(Criticality::Medium)
        } else if matches_ci(s, "high"@) {
            Some(Criticality::High)
        } else if matches_ci(s, "critical"@) {
            Some(Criticality::Critical)
        } else {
            None
        }
    }

    /// Parses a tier name, ignoring ASCII case; any other string is refused.
    pub fn from_str(s: &str) -> (r: Option<Criticality>)
        ensures
            r == Self::spec_parse(s@),
    {
        if str_ieq(s, "warning") {
            Some(Criticality::Warning)
        } else if str_ieq(s, "low") {
            Some(Criticality::Low)
        } else if str_ieq(s, "medium") {
            Some(Criticality::Medium)
        } else if str_ieq(s, "high") {
            Some(Criticality::High)
        } else if str_ieq(s, "critical") {
            Some(Criticality::Critical)
        } else {
            None
        }
    }
}

} // verus!
