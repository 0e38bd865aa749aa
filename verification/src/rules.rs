//! Permission rules and the ordered, deduplicating rule table.
//!
//! A rule binds one catalog permission to a criticality, a label and a
//! description. The table keeps at most one effective rule per permission
//! identity: rules are ordered by identity alone, and when the same identity
//! is declared twice, the first declaration wins and the later one is
//! silently dropped.

use vstd::prelude::*;

use crate::criticality::Criticality;
use crate::permission::Permission;

verus! {

/// One permission rule: a catalog identity with its classification text.
/// Equality and ordering go by the permission identity alone.
#[derive(Debug)]
pub struct PermissionConfig {
    /// The catalog identity the rule is keyed on.
    pub permission: Permission,
    /// The criticality assigned to findings for this permission.
    pub criticity: Criticality,
    /// The short label shown for this permission.
    pub label: String,
    /// The long description shown for this permission.
    pub description: String,
}

impl PartialEq for PermissionConfig {
    fn eq(&self, other: &PermissionConfig) -> (r: bool) {
        let e = self.permission.index() == other.permission.index();
        proof {
            if self.permission.ordinal() == other.permission.ordinal() {
                Permission::lemma_ordinal_injective(self.permission, other.permission);
            }
        }
        e
    }
}

impl vstd::std_specs::cmp::PartialEqSpecImpl for PermissionConfig {
    open spec fn obeys_eq_spec() -> bool {
        true
    }

    open spec fn eq_spec(&self, other: &PermissionConfig) -> bool {
        self.permission == other.permission
    }
}

impl PermissionConfig {
    /// Builds a rule from its four parts.
    pub fn new(
        permission: Permission,
        criticity: Criticality,
        label: String,
        description: String,
    ) -> (r: PermissionConfig)
        ensures
            r == (PermissionConfig { permission, criticity, label, description }),
    {
        PermissionConfig { permission, criticity, label, description }
    }

    /// The catalog identity the rule is keyed on.
    pub fn get_permission(&self) -> (r: Permission)
        ensures
            r == self.permission,
    {
        self.permission
    }

    /// The criticality assigned to findings for this permission.
    pub fn get_criticity(&self) -> (r: Criticality)
        ensures
            r == self.criticity,
    {
        self.criticity
    }

    /// The short label shown for this permission.
    pub fn get_label(&self) -> (r: &str)
        ensures
            r@ == self.label@,
    {
        self.label.as_str()
    }

    /// The long description shown for this permission.
    pub fn get_description(&self) -> (r: &str)
        ensures
            r@ == self.description@,
    {
        self.description.as_str()
    }
}

/// A rule table is sorted strictly by permission identity, so it holds at
/// most one rule per identity and iterates in one reproducible order.
pub open spec fn rules_sorted(s: Seq<PermissionConfig>) -> bool {
    forall|i: int, j: int|
        0 <= i < j < s.len() ==> s[i].permission.ordinal() < s[j].permission.ordinal()
}

/// Whether the table already holds a rule for the given identity.
pub open spec fn rules_contain(s: Seq<PermissionConfig>, p: Permission) -> bool {
    exists|i: int| 0 <= i < s.len() && s[i].permission == p
}

/// Where a new rule lands: before the first entry whose identity is not
/// smaller; dropped if that entry carries the same identity.
pub open spec fn spec_insert_rule(
    s: Seq<PermissionConfig>,
    r: PermissionConfig,
) -> Seq<PermissionConfig>
    decreases s.len(),
{
    if s.len() == 0 {
        seq![r]
    } else if s[0].permission.ordinal() < r.permission.ordinal() {
        seq![s[0]] + spec_insert_rule(s.skip(1), r)
    } else if s[0].permission.ordinal() == r.permission.ordinal() {
        s
    } else {
        seq![r] + s
    }
}

/// An equal prefix of smaller identities passes the insertion through.
proof fn lemma_insert_rule_skip(s: Seq<PermissionConfig>, r: PermissionConfig, i: int)
    requires
        0 <= i <= s.len(),
        forall|j: int| 0 <= j < i ==> s[j].permission.ordinal() < r.permission.ordinal(),
    ensures
        spec_insert_rule(s, r) == s.take(i) + spec_insert_rule(s.skip(i), r),
    decreases i,
{
    if i == 0 {
        assert(s.skip(0) =~= s);
        assert(s.take(0) + spec_insert_rule(s, r) =~= spec_insert_rule(s, r));
    } else {
        lemma_insert_rule_skip(s.skip(1), r, i - 1);
        assert(s.skip(1).skip(i - 1) =~= s.skip(i));
        assert(s.skip(1).take(i - 1) =~= s.take(i).skip(1));
        assert(seq![s[0]] + (s.take(i).skip(1) + spec_insert_rule(s.skip(i), r)) =~= s.take(i)
            + spec_insert_rule(s.skip(i), r));
    }
}

/// Inserts a rule into a sorted table, first declaration winning: a rule
/// for an identity already present leaves the table unchanged; a new
/// identity adds exactly one entry, in identity order.
pub fn insert_rule(rules: &mut Vec<PermissionConfig>, rule: PermissionConfig)
    requires
        rules_sorted(old(rules)@),
    ensures
        final(rules)@ == spec_insert_rule(old(rules)@, rule),
        rules_sorted(final(rules)@),
        rules_contain(old(rules)@, rule.permission) ==> final(rules)@ == old(rules)@,
        !rules_contain(old(rules)@, rule.permission) ==> final(rules)@.len() == old(
            rules,
        )@.len() + 1,
{
    let key = rule.permission.index();
    let mut i: usize = 0;
    while i < rules.len() && rules[i].permission.index() < key
        invariant
            rules_sorted(rules@),
            key as int == rule.permission.ordinal(),
            i <= rules@.len(),
            forall|j: int| 0 <= j < i ==> rules@[j].permission.ordinal() < key as int,
        decreases rules@.len() - i,
    {
        i += 1;
    }
    proof {
        lemma_insert_rule_skip(rules@, rule, i as int);
    }
    if i < rules.len() && rules[i].permission.index() == key {
        proof {
            Permission::lemma_ordinal_injective(rules@[i as int].permission, rule.permission);
            assert(rules@.take(i as int) + rules@.skip(i as int) =~= rules@);
        }
        return;
    }
    proof {
        if rules_contain(rules@, rule.permission) {
            let w = choose|w: int|
                0 <= w < rules@.len() && rules@[w].permission == rule.permission;
            assert(rules@[w].permission.ordinal() == key as int);
            if w < i {
                assert(rules@[w].permission.ordinal() < key as int);
            } else if w == i {
                assert(rules@[i as int].permission.ordinal() != key as int);
            } else {
                assert(rules@[i as int].permission.ordinal() < rules@[w].permission.ordinal());
                assert(key as int <= rules@[i as int].permission.ordinal());
            }
            assert(false);
        }
        if i < rules@.len() {
            assert(spec_insert_rule(rules@.skip(i as int), rule) =~= seq![rule] + rules@.skip(
                i as int,
            ));
        } else {
            assert(rules@.skip(i as int) =~= Seq::<PermissionConfig>::empty());
        }
    }
    let ghost pre = rules@;
    rules.insert(i, rule);
    proof {
        assert(rules@ =~= pre.take(i as int) + spec_insert_rule(pre.skip(i as int), rule));
    }
}

/// First declaration wins: once a table holds a rule for an identity,
/// inserting another rule with the same identity changes nothing, whatever
/// its criticality, label or description.
pub proof fn lemma_rule_first_wins(
    s: Seq<PermissionConfig>,
    r1: PermissionConfig,
    r2: PermissionConfig,
)
    requires
        rules_sorted(s),
        r1.permission == r2.permission,
    ensures
        spec_insert_rule(spec_insert_rule(s, r1), r2) == spec_insert_rule(s, r1),
    decreases s.len(),
{
    if s.len() == 0 {
        assert(spec_insert_rule(seq![r1], r2) =~= seq![r1]);
    } else if s[0].permission.ordinal() < r1.permission.ordinal() {
        lemma_rule_first_wins(s.skip(1), r1, r2);
        let t = seq![s[0]] + spec_insert_rule(s.skip(1), r1);
        assert(t[0] == s[0]);
        assert(t.skip(1) =~= spec_insert_rule(s.skip(1), r1));
        assert(spec_insert_rule(t, r2) =~= seq![s[0]] + spec_insert_rule(t.skip(1), r2));
    } else if s[0].permission.ordinal() == r1.permission.ordinal() {
    } else {
        let t = seq![r1] + s;
        assert(t[0] == r1);
    }
}

} // verus!
