//! Findings and their canonical order.
//!
//! A finding carries a criticality, a name, a description, and optionally
//! the file, line span and code it was seen at. Findings are ordered by
//! their own content, not by insertion order, so every aggregation of the
//! same findings reads back in the same order; two findings with the same
//! content are one finding.

use vstd::prelude::*;

use crate::criticality::Criticality;
use crate::strutil::{
    lemma_str_cmp_eq, lemma_str_cmp_flip, lemma_str_cmp_trans, spec_str_cmp, str_cmp, Cmp,
};

verus! {

/// A single detected issue.
#[derive(Debug)]
pub struct Vulnerability {
    /// The severity tier this finding belongs to.
    pub criticality: Criticality,
    /// The finding's short name.
    pub name: String,
    /// The finding's long description.
    pub description: String,
    /// The file it was found in, when known.
    pub file: Option<String>,
    /// The first affected line, when known.
    pub start_line: Option<u64>,
    /// The last affected line, when known.
    pub end_line: Option<u64>,
    /// The affected code itself, when known.
    pub code: Option<String>,
}

impl Vulnerability {
    /// Builds a finding from its parts.
    pub fn new(
        criticality: Criticality,
        name: String,
        description: String,
        file: Option<String>,
        start_line: Option<u64>,
        end_line: Option<u64>,
        code: Option<String>,
    ) -> (r: Vulnerability)
        ensures
            r == (Vulnerability {
                criticality,
                name,
                description,
                file,
                start_line,
                end_line,
                code,
            }),
    {
        Vulnerability { criticality, name, description, file, start_line, end_line, code }
    }

    /// The severity tier this finding belongs to.
    pub fn get_criticality(&self) -> (r: Criticality)
        ensures
            r == self.criticality,
    {
        self.criticality
    }

    /// The view of an optional string.
    pub open spec fn osv(o: Option<String>) -> Option<Seq<char>> {
        match o {
            None => None,
            Some(s) => Some(s@),
        }
    }
}

/// Three-way comparison of two integers.
pub open spec fn cmp_int(x: int, y: int) -> Cmp {
    if x < y {
        Cmp::Lt
    } else if y < x {
        Cmp::Gt
    } else {
        Cmp::Eq
    }
}

/// Three-way comparison of two optional strings; absent sorts first.
pub open spec fn cmp_osv(x: Option<Seq<char>>, y: Option<Seq<char>>) -> Cmp {
    match (x, y) {
        (None, None) => Cmp::Eq,
        (None, Some(_)) => Cmp::Lt,
        (Some(_), None) => Cmp::Gt,
        (Some(a), Some(b)) => spec_str_cmp(a, b),
    }
}

/// Three-way comparison of two optional numbers; absent sorts first.
pub open spec fn cmp_ou64(x: Option<u64>, y: Option<u64>) -> Cmp {
    match (x, y) {
        (None, None) => Cmp::Eq,
        (None, Some(_)) => Cmp::Lt,
        (Some(_), None) => Cmp::Gt,
        (Some(a), Some(b)) => cmp_int(a as int, b as int),
    }
}

/// The next tie-breaker counts only when everything before it ties.
pub open spec fn chain(a: Cmp, b: Cmp) -> Cmp {
    if a == Cmp::Eq {
        b
    } else {
        a
    }
}

/// The canonical order of findings: by severity, then name, description,
/// file, line span and code.
pub open spec fn spec_vuln_cmp(a: Vulnerability, b: Vulnerability) -> Cmp {
    chain(
        cmp_int(a.criticality.level(), b.criticality.level()),
        chain(
            spec_str_cmp(a.name@, b.name@),
            chain(
                spec_str_cmp(a.description@, b.description@),
                chain(
                    cmp_osv(Vulnerability::osv(a.file), Vulnerability::osv(b.file)),
                    chain(
                        cmp_ou64(a.start_line, b.start_line),
                        chain(
                            cmp_ou64(a.end_line, b.end_line),
                            cmp_osv(Vulnerability::osv(a.code), Vulnerability::osv(b.code)),
                        ),
                    ),
                ),
            ),
        ),
    )
}

/// Optional strings compare equal exactly when they are the same.
proof fn lemma_cmp_osv_eq(x: Option<Seq<char>>, y: Option<Seq<char>>)
    ensures
        cmp_osv(x, y) == Cmp::Eq <==> x == y,
        cmp_osv(x, y) == Cmp::Lt <==> cmp_osv(y, x) == Cmp::Gt,
{
    match (x, y) {
        (Some(a), Some(b)) => {
            lemma_str_cmp_eq(a, b);
            lemma_str_cmp_flip(a, b);
        },
        _ => {},
    }
}

/// The optional-string order is transitive.
proof fn lemma_cmp_osv_trans(x: Option<Seq<char>>, y: Option<Seq<char>>, z: Option<Seq<char>>)
    requires
        cmp_osv(x, y) == Cmp::Lt,
        cmp_osv(y, z) == Cmp::Lt,
    ensures
        cmp_osv(x, z) == Cmp::Lt,
{
    match (x, y, z) {
        (Some(a), Some(b), Some(c)) => {
            lemma_str_cmp_trans(a, b, c);
        },
        _ => {},
    }
}

/// A finding ties with itself and with nothing else; swapping the sides
/// swaps the order.
pub proof fn lemma_vuln_cmp_eq(a: Vulnerability, b: Vulnerability)
    ensures
        spec_vuln_cmp(a, b) == Cmp::Eq <==> {
            &&& a.criticality == b.criticality
            &&& a.name@ == b.name@
            &&& a.description@ == b.description@
            &&& Vulnerability::osv(a.file) == Vulnerability::osv(b.file)
            &&& a.start_line == b.start_line
            &&& a.end_line == b.end_line
            &&& Vulnerability::osv(a.code) == Vulnerability::osv(b.code)
        },
        spec_vuln_cmp(a, b) == Cmp::Lt <==> spec_vuln_cmp(b, a) == Cmp::Gt,
{
    lemma_str_cmp_eq(a.name@, b.name@);
    lemma_str_cmp_eq(b.name@, a.name@);
    lemma_str_cmp_flip(a.name@, b.name@);
    lemma_str_cmp_flip(b.name@, a.name@);
    lemma_str_cmp_eq(a.description@, b.description@);
    lemma_str_cmp_eq(b.description@, a.description@);
    lemma_str_cmp_flip(a.description@, b.description@);
    lemma_str_cmp_flip(b.description@, a.description@);
    lemma_cmp_osv_eq(Vulnerability::osv(a.file), Vulnerability::osv(b.file));
    lemma_cmp_osv_eq(Vulnerability::osv(b.file), Vulnerability::osv(a.file));
    lemma_cmp_osv_eq(Vulnerability::osv(a.code), Vulnerability::osv(b.code));
    lemma_cmp_osv_eq(Vulnerability::osv(b.code), Vulnerability::osv(a.code));
    if a.criticality.level() == b.criticality.level() {
        Criticality::lemma_level_injective(a.criticality, b.criticality);
    }
}

/// The order of findings is transitive.
pub proof fn lemma_vuln_cmp_trans(a: Vulnerability, b: Vulnerability, c: Vulnerability)
    requires
        spec_vuln_cmp(a, b) == Cmp::Lt,
        spec_vuln_cmp(b, c) == Cmp::Lt,
    ensures
        spec_vuln_cmp(a, c) == Cmp::Lt,
{
    lemma_str_cmp_eq(a.name@, b.name@);
    lemma_str_cmp_eq(b.name@, c.name@);
    lemma_str_cmp_eq(a.description@, b.description@);
    lemma_str_cmp_eq(b.description@, c.description@);
    lemma_cmp_osv_eq(Vulnerability::osv(a.file), Vulnerability::osv(b.file));
    lemma_cmp_osv_eq(Vulnerability::osv(b.file), Vulnerability::osv(c.file));
    lemma_cmp_osv_eq(Vulnerability::osv(a.code), Vulnerability::osv(b.code));
    lemma_cmp_osv_eq(Vulnerability::osv(b.code), Vulnerability::osv(c.code));
    if spec_str_cmp(a.name@, b.name@) == Cmp::Lt && spec_str_cmp(b.name@, c.name@) == Cmp::Lt {
        lemma_str_cmp_trans(a.name@, b.name@, c.name@);
    }
    if spec_str_cmp(a.description@, b.description@) == Cmp::Lt && spec_str_cmp(
        b.description@,
        c.description@,
    ) == Cmp::Lt {
        lemma_str_cmp_trans(a.description@, b.description@, c.description@);
    }
    if cmp_osv(Vulnerability::osv(a.file), Vulnerability::osv(b.file)) == Cmp::Lt && cmp_osv(
        Vulnerability::osv(b.file),
        Vulnerability::osv(c.file),
    ) == Cmp::Lt {
        lemma_cmp_osv_trans(
            Vulnerability::osv(a.file),
            Vulnerability::osv(b.file),
            Vulnerability::osv(c.file),
        );
    }
    if cmp_osv(Vulnerability::osv(a.code), Vulnerability::osv(b.code)) == Cmp::Lt && cmp_osv(
        Vulnerability::osv(b.code),
        Vulnerability::osv(c.code),
    ) == Cmp::Lt {
        lemma_cmp_osv_trans(
            Vulnerability::osv(a.code),
            Vulnerability::osv(b.code),
            Vulnerability::osv(c.code),
        );
    }
}

/// Three-way comparison of two findings, in the canonical order.
pub fn vuln_cmp(a: &Vulnerability, b: &Vulnerability) -> (r: Cmp)
    ensures
        r == spec_vuln_cmp(*a, *b),
{
    let ra = a.criticality.rank();
    let rb = b.criticality.rank();
    if ra < rb {
        return Cmp::Lt;
    }
    if rb < ra {
        return Cmp::Gt;
    }
    let c = str_cmp(a.name.as_str(), b.name.as_str());
    if !matches!(c, Cmp::Eq) {
        return c;
    }
    let c = str_cmp(a.description.as_str(), b.description.as_str());
    if !matches!(c, Cmp::Eq) {
        return c;
    }
    let c = match (&a.file, &b.file) {
        (Option::None, Option::None) => Cmp::Eq,
        (Option::None, Option::Some(_)) => Cmp::Lt,
        (Option::Some(_), Option::None) => Cmp::Gt,
        (Option::Some(x), Option::Some(y)) => str_cmp(x.as_str(), y.as_str()),
    };
    if !matches!(c, Cmp::Eq) {
        return c;
    }
    let c = match (&a.start_line, &b.start_line) {
        (Option::None, Option::None) => Cmp::Eq,
        (Option::None, Option::Some(_)) => Cmp::Lt,
        (Option::Some(_), Option::None) => Cmp::Gt,
        (Option::Some(x), Option::Some(y)) => {
            if *x < *y {
                Cmp::Lt
            } else if *y < *x {
                Cmp::Gt
            } else {
                Cmp::Eq
            }
        },
    };
    if !matches!(c, Cmp::Eq) {
        return c;
    }
    let c = match (&a.end_line, &b.end_line) {
        (Option::None, Option::None) => Cmp::Eq,
        (Option::None, Option::Some(_)) => Cmp::Lt,
        (Option::Some(_), Option::None) => Cmp::Gt,
        (Option::Some(x), Option::Some(y)) => {
            if *x < *y {
                Cmp::Lt
            } else if *y < *x {
                Cmp::Gt
            } else {
                Cmp::Eq
            }
        },
    };
    if !matches!(c, Cmp::Eq) {
        return c;
    }
    match (&a.code, &b.code) {
        (Option::None, Option::None) => Cmp::Eq,
        (Option::None, Option::Some(_)) => Cmp::Lt,
        (Option::Some(_), Option::None) => Cmp::Gt,
        (Option::Some(x), Option::Some(y)) => str_cmp(x.as_str(), y.as_str()),
    }
}

/// A tier is sorted strictly in the canonical order: reproducible to read,
/// and free of duplicates.
pub open spec fn sorted_vulns(s: Seq<Vulnerability>) -> bool {
    forall|i: int, j: int| 0 <= i < j < s.len() ==> spec_vuln_cmp(s[i], s[j]) == Cmp::Lt
}

/// Where a new finding lands: before the first entry not smaller than it;
/// dropped if that entry ties with it.
pub open spec fn spec_insert_vuln(s: Seq<Vulnerability>, v: Vulnerability) -> Seq<Vulnerability>
    decreases s.len(),
{
    if s.len() == 0 {
        seq![v]
    } else if spec_vuln_cmp(s[0], v) == Cmp::Lt {
        seq![s[0]] + spec_insert_vuln(s.skip(1), v)
    } else if spec_vuln_cmp(s[0], v) == Cmp::Eq {
        s
    } else {
        seq![v] + s
    }
}

/// An equal prefix of smaller findings passes the insertion through.
proof fn lemma_insert_vuln_skip(s: Seq<Vulnerability>, v: Vulnerability, i: int)
    requires
        0 <= i <= s.len(),
        forall|j: int| 0 <= j < i ==> spec_vuln_cmp(s[j], v) == Cmp::Lt,
    ensures
        spec_insert_vuln(s, v) == s.take(i) + spec_insert_vuln(s.skip(i), v),
    decreases i,
{
    if i == 0 {
        assert(s.skip(0) =~= s);
        assert(s.take(0) + spec_insert_vuln(s, v) =~= spec_insert_vuln(s, v));
    } else {
        lemma_insert_vuln_skip(s.skip(1), v, i - 1);
        assert(s.skip(1).skip(i - 1) =~= s.skip(i));
        assert(s.skip(1).take(i - 1) =~= s.take(i).skip(1));
        assert(seq![s[0]] + (s.take(i).skip(1) + spec_insert_vuln(s.skip(i), v)) =~= s.take(i)
            + spec_insert_vuln(s.skip(i), v));
    }
}

/// Inserting the same finding twice is inserting it once: the second copy
/// ties with the first and is dropped.
pub proof fn lemma_insert_vuln_idempotent(s: Seq<Vulnerability>, v: Vulnerability)
    ensures
        spec_insert_vuln(spec_insert_vuln(s, v), v) == spec_insert_vuln(s, v),
    decreases s.len(),
{
    lemma_vuln_cmp_eq(v, v);
    if s.len() == 0 {
        assert(spec_insert_vuln(seq![v], v) =~= seq![v]);
    } else if spec_vuln_cmp(s[0], v) == Cmp::Lt {
        lemma_insert_vuln_idempotent(s.skip(1), v);
        let t = seq![s[0]] + spec_insert_vuln(s.skip(1), v);
        assert(t[0] == s[0]);
        assert(t.skip(1) =~= spec_insert_vuln(s.skip(1), v));
        assert(spec_insert_vuln(t, v) =~= seq![s[0]] + spec_insert_vuln(t.skip(1), v));
    } else if spec_vuln_cmp(s[0], v) == Cmp::Eq {
    } else {
        let t = seq![v] + s;
        assert(t[0] == v);
    }
}

/// A finding that ties with another compares like it against everything.
proof fn lemma_vuln_cmp_congruence(a: Vulnerability, b: Vulnerability, c: Vulnerability)
    requires
        spec_vuln_cmp(a, b) == Cmp::Eq,
    ensures
        spec_vuln_cmp(a, c) == spec_vuln_cmp(b, c),
        spec_vuln_cmp(c, a) == spec_vuln_cmp(c, b),
{
    lemma_vuln_cmp_eq(a, b);
}

/// Two distinct findings land in the same tier contents whichever is
/// discovered first: aggregation does not depend on discovery order.
pub proof fn lemma_insert_vuln_commutes(
    s: Seq<Vulnerability>,
    v1: Vulnerability,
    v2: Vulnerability,
)
    requires
        sorted_vulns(s),
        spec_vuln_cmp(v1, v2) != Cmp::Eq,
    ensures
        spec_insert_vuln(spec_insert_vuln(s, v1), v2) == spec_insert_vuln(
            spec_insert_vuln(s, v2),
            v1,
        ),
    decreases s.len(),
{
    lemma_vuln_cmp_eq(v1, v2);
    lemma_vuln_cmp_eq(v2, v1);
    if s.len() == 0 {
        assert(seq![v1].skip(1) =~= Seq::<Vulnerability>::empty());
        assert(seq![v2].skip(1) =~= Seq::<Vulnerability>::empty());
        assert(spec_insert_vuln(seq![v1].skip(1), v2) =~= seq![v2]);
        assert(spec_insert_vuln(seq![v2].skip(1), v1) =~= seq![v1]);
        if spec_vuln_cmp(v1, v2) == Cmp::Lt {
            assert(spec_insert_vuln(seq![v1], v2) =~= seq![v1, v2]);
            assert(spec_insert_vuln(seq![v2], v1) =~= seq![v1, v2]);
        } else {
            assert(spec_insert_vuln(seq![v1], v2) =~= seq![v2, v1]);
            assert(spec_insert_vuln(seq![v2], v1) =~= seq![v2, v1]);
        }
    } else {
        let s0 = s[0];
        let tail = s.skip(1);
        let c1 = spec_vuln_cmp(s0, v1);
        let c2 = spec_vuln_cmp(s0, v2);
        lemma_vuln_cmp_eq(s0, v1);
        lemma_vuln_cmp_eq(s0, v2);
        if c1 == Cmp::Lt && c2 == Cmp::Lt {
            assert(forall|i: int, j: int|
                0 <= i < j < tail.len() ==> spec_vuln_cmp(tail[i], tail[j]) == Cmp::Lt);
            lemma_insert_vuln_commutes(tail, v1, v2);
            let t1 = seq![s0] + spec_insert_vuln(tail, v1);
            let t2 = seq![s0] + spec_insert_vuln(tail, v2);
            assert(t1[0] == s0 && t2[0] == s0);
            assert(t1.skip(1) =~= spec_insert_vuln(tail, v1));
            assert(t2.skip(1) =~= spec_insert_vuln(tail, v2));
            assert(spec_insert_vuln(t1, v2) =~= seq![s0] + spec_insert_vuln(
                spec_insert_vuln(tail, v1),
                v2,
            ));
            assert(spec_insert_vuln(t2, v1) =~= seq![s0] + spec_insert_vuln(
                spec_insert_vuln(tail, v2),
                v1,
            ));
        } else if c1 == Cmp::Lt && c2 == Cmp::Eq {
            let t1 = seq![s0] + spec_insert_vuln(tail, v1);
            assert(t1[0] == s0);
            lemma_vuln_cmp_congruence(s0, v2, v2);
        } else if c1 == Cmp::Eq && c2 == Cmp::Lt {
            let t2 = seq![s0] + spec_insert_vuln(tail, v2);
            assert(t2[0] == s0);
            lemma_vuln_cmp_congruence(s0, v1, v1);
        } else if c1 == Cmp::Eq && c2 == Cmp::Eq {
            lemma_vuln_cmp_congruence(s0, v1, v2);
        } else if c1 == Cmp::Lt && c2 == Cmp::Gt {
            lemma_vuln_cmp_eq(v2, s0);
            lemma_vuln_cmp_trans(v2, s0, v1);
            let t1 = seq![s0] + spec_insert_vuln(tail, v1);
            assert(t1[0] == s0);
            let u2 = seq![v2] + s;
            assert(u2[0] == v2);
            assert(u2.skip(1) =~= s);
            assert(spec_insert_vuln(u2, v1) =~= seq![v2] + spec_insert_vuln(s, v1));
            assert(spec_insert_vuln(t1, v2) =~= seq![v2] + (seq![s0] + spec_insert_vuln(
                tail,
                v1,
            )));
        } else if c1 == Cmp::Gt && c2 == Cmp::Lt {
            lemma_vuln_cmp_eq(v1, s0);
            lemma_vuln_cmp_trans(v1, s0, v2);
            let t2 = seq![s0] + spec_insert_vuln(tail, v2);
            assert(t2[0] == s0);
            let u1 = seq![v1] + s;
            assert(u1[0] == v1);
            assert(u1.skip(1) =~= s);
            assert(spec_insert_vuln(u1, v2) =~= seq![v1] + spec_insert_vuln(s, v2));
            assert(spec_insert_vuln(t2, v1) =~= seq![v1] + (seq![s0] + spec_insert_vuln(
                tail,
                v2,
            )));
        } else if c1 == Cmp::Eq && c2 == Cmp::Gt {
            lemma_vuln_cmp_eq(v2, s0);
            lemma_vuln_cmp_congruence(s0, v1, v2);
            let u2 = seq![v2] + s;
            assert(u2[0] == v2);
            assert(u2.skip(1) =~= s);
            assert(spec_insert_vuln(u2, v1) =~= seq![v2] + spec_insert_vuln(s, v1));
        } else if c1 == Cmp::Gt && c2 == Cmp::Eq {
            lemma_vuln_cmp_eq(v1, s0);
            lemma_vuln_cmp_congruence(s0, v2, v1);
            let u1 = seq![v1] + s;
            assert(u1[0] == v1);
            assert(u1.skip(1) =~= s);
            assert(spec_insert_vuln(u1, v2) =~= seq![v1] + spec_insert_vuln(s, v2));
        } else {
            let u1 = seq![v1] + s;
            let u2 = seq![v2] + s;
            assert(u1[0] == v1 && u2[0] == v2);
            assert(u1.skip(1) =~= s);
            assert(u2.skip(1) =~= s);
            if spec_vuln_cmp(v1, v2) == Cmp::Lt {
                assert(spec_insert_vuln(u1, v2) =~= seq![v1] + spec_insert_vuln(s, v2));
                assert(spec_insert_vuln(u2, v1) =~= seq![v1] + u2);
                assert(seq![v1] + (seq![v2] + s) =~= seq![v1] + u2);
            } else {
                assert(spec_insert_vuln(u2, v1) =~= seq![v2] + spec_insert_vuln(s, v1));
                assert(spec_insert_vuln(u1, v2) =~= seq![v2] + u1);
                assert(seq![v2] + (seq![v1] + s) =~= seq![v2] + u1);
            }
        }
    }
}

/// Insertion adds nothing of its own: every finding of the grown tier is
/// the inserted one or was already there.
pub proof fn lemma_insert_vuln_elems(s: Seq<Vulnerability>, v: Vulnerability)
    ensures
        forall|k: int|
            0 <= k < spec_insert_vuln(s, v).len() ==> spec_insert_vuln(s, v)[k] == v
                || s.contains(spec_insert_vuln(s, v)[k]),
    decreases s.len(),
{
    let t = spec_insert_vuln(s, v);
    if s.len() == 0 {
    } else if spec_vuln_cmp(s[0], v) == Cmp::Lt {
        lemma_insert_vuln_elems(s.skip(1), v);
        assert forall|k: int| 0 <= k < t.len() implies t[k] == v || s.contains(t[k]) by {
            if k == 0 {
                assert(t[0] == s[0]);
                assert(s.contains(s[0]));
            } else {
                let u = spec_insert_vuln(s.skip(1), v);
                assert(t[k] == u[k - 1]);
                if u[k - 1] != v {
                    let j = choose|j: int| 0 <= j < s.skip(1).len() && s.skip(1)[j] == u[k - 1];
                    assert(s[j + 1] == u[k - 1]);
                    assert(s.contains(s[j + 1]));
                }
            }
        }
    } else if spec_vuln_cmp(s[0], v) == Cmp::Eq {
        assert forall|k: int| 0 <= k < t.len() implies t[k] == v || s.contains(t[k]) by {
            assert(s.contains(s[k]));
        }
    } else {
        assert forall|k: int| 0 <= k < t.len() implies t[k] == v || s.contains(t[k]) by {
            if k > 0 {
                assert(t[k] == s[k - 1]);
                assert(s.contains(s[k - 1]));
            }
        }
    }
}

/// Inserts a finding into a sorted tier, keeping it sorted and free of
/// duplicates: a finding that ties with a present one is dropped, any
/// other lands at its place in the order.
pub fn insert_vuln(tier: &mut Vec<Vulnerability>, v: Vulnerability)
    requires
        sorted_vulns(old(tier)@),
    ensures
        final(tier)@ == spec_insert_vuln(old(tier)@, v),
        sorted_vulns(final(tier)@),
{
    let mut i: usize = 0;
    while i < tier.len() && matches!(vuln_cmp(&tier[i], &v), Cmp::Lt)
        invariant
            sorted_vulns(tier@),
            i <= tier@.len(),
            forall|j: int| 0 <= j < i ==> spec_vuln_cmp(tier@[j], v) == Cmp::Lt,
        decreases tier@.len() - i,
    {
        i += 1;
    }
    proof {
        lemma_insert_vuln_skip(tier@, v, i as int);
    }
    if i < tier.len() && matches!(vuln_cmp(&tier[i], &v), Cmp::Eq) {
        proof {
            assert(tier@.take(i as int) + tier@.skip(i as int) =~= tier@);
        }
        return;
    }
    proof {
        if i < tier@.len() {
            assert(spec_vuln_cmp(tier@[i as int], v) == Cmp::Gt);
            assert(spec_insert_vuln(tier@.skip(i as int), v) =~= seq![v] + tier@.skip(i as int));
        } else {
            assert(tier@.skip(i as int) =~= Seq::<Vulnerability>::empty());
        }
    }
    let ghost pre = tier@;
    tier.insert(i, v);
    proof {
        assert(tier@ =~= pre.take(i as int) + spec_insert_vuln(pre.skip(i as int), v));
        assert forall|p: int, q: int| 0 <= p < q < tier@.len() implies spec_vuln_cmp(
            tier@[p],
            tier@[q],
        ) == Cmp::Lt by {
            if p == i && q > i {
                lemma_vuln_cmp_eq(v, pre[i as int]);
                if q - 1 > i {
                    lemma_vuln_cmp_trans(v, pre[i as int], pre[q - 1]);
                }
            }
        }
    }
}

} // verus!
