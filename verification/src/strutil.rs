//! String comparison helpers shared by the catalog, the configuration
//! resolver and the finding order.

use vstd::prelude::*;

verus! {

/// Three-way comparison outcome.
#[derive(Clone, Copy, PartialEq, Eq, Structural, Debug)]
pub enum Cmp {
    Lt,
    Eq,
    Gt,
}

/// Lexicographic three-way comparison of two character sequences, by Unicode
/// scalar value.
pub open spec fn spec_str_cmp(a: Seq<char>, b: Seq<char>) -> Cmp
    decreases a.len(),
{
    if a.len() == 0 && b.len() == 0 {
        Cmp::Eq
    } else if a.len() == 0 {
        Cmp::Lt
    } else if b.len() == 0 {
        Cmp::Gt
    } else if (a[0] as int) < (b[0] as int) {
        Cmp::Lt
    } else if (b[0] as int) < (a[0] as int) {
        Cmp::Gt
    } else {
        spec_str_cmp(a.skip(1), b.skip(1))
    }
}

/// Equal sequences compare as equal, and only they do.
pub proof fn lemma_str_cmp_eq(a: Seq<char>, b: Seq<char>)
    ensures
        spec_str_cmp(a, b) == Cmp::Eq <==> a == b,
    decreases a.len(),
{
    if a.len() == 0 && b.len() == 0 {
        assert(a =~= b);
    } else if a.len() == 0 || b.len() == 0 {
        assert(a.len() != b.len());
    } else if a[0] as int == b[0] as int {
        assert(a[0] == b[0]);
        lemma_str_cmp_eq(a.skip(1), b.skip(1));
        if spec_str_cmp(a, b) == Cmp::Eq {
            assert(a.skip(1) == b.skip(1));
            assert(a =~= b) by {
                assert(forall|i: int|
                    1 <= i < a.len() ==> a[i] == a.skip(1)[i - 1] && b[i] == b.skip(1)[i - 1]);
            }
        }
        if a == b {
            assert(a.skip(1) =~= b.skip(1));
        }
    } else {
        assert(a[0] != b[0]);
        assert(a != b);
    }
}

/// Swapping the arguments swaps `Lt` and `Gt`.
pub proof fn lemma_str_cmp_flip(a: Seq<char>, b: Seq<char>)
    ensures
        spec_str_cmp(a, b) == Cmp::Lt <==> spec_str_cmp(b, a) == Cmp::Gt,
    decreases a.len(),
{
    if a.len() != 0 && b.len() != 0 && a[0] as int == b[0] as int {
        lemma_str_cmp_flip(a.skip(1), b.skip(1));
    }
}

/// The strict order is transitive.
pub proof fn lemma_str_cmp_trans(a: Seq<char>, b: Seq<char>, c: Seq<char>)
    requires
        spec_str_cmp(a, b) == Cmp::Lt,
        spec_str_cmp(b, c) == Cmp::Lt,
    ensures
        spec_str_cmp(a, c) == Cmp::Lt,
    decreases a.len(),
{
    if a.len() != 0 && b.len() != 0 && c.len() != 0 && a[0] as int == b[0] as int
        && b[0] as int == c[0] as int {
        lemma_str_cmp_trans(a.skip(1), b.skip(1), c.skip(1));
    }
}

/// Exact string equality, checked character by character.
pub fn str_eq(a: &str, b: &str) -> (r: bool)
    ensures
        r == (a@ == b@),
{
    let la = a.unicode_len();
    let lb = b.unicode_len();
    if la != lb {
        return false;
    }
    let mut i: usize = 0;
    while i < la
        invariant
            la == a@.len(),
            la == b@.len(),
            i <= la,
            forall|j: int| 0 <= j < i ==> a@[j] == b@[j],
        decreases la - i,
    {
        if a.get_char(i) != b.get_char(i) {
            assert(a@ != b@);
            return false;
        }
        i += 1;
    }
    proof {
        assert(a@ =~= b@);
    }
    true
}

/// Whether `a` is `b` up to ASCII case, for a `b` that is already lower case.
pub open spec fn char_ieq(a: char, b: char) -> bool {
    a == b || (65 <= a as int && a as int <= 90 && a as int + 32 == b as int)
}

/// Whether `s` spells `lit` up to ASCII case, for a `lit` that is already
/// lower case.
pub open spec fn matches_ci(s: Seq<char>, lit: Seq<char>) -> bool {
    s.len() == lit.len() && (forall|i: int| 0 <= i < s.len() ==> char_ieq(s[i], lit[i]))
}

/// ASCII-case-insensitive match of `s` against the lower-case word `lit`.
pub fn str_ieq(s: &str, lit: &str) -> (r: bool)
    ensures
        r == matches_ci(s@, lit@),
{
    let ls = s.unicode_len();
    let ll = lit.unicode_len();
    if ls != ll {
        return false;
    }
    let mut i: usize = 0;
    while i < ls
        invariant
            ls == s@.len(),
            ls == lit@.len(),
            i <= ls,
            forall|j: int| 0 <= j < i ==> char_ieq(s@[j], lit@[j]),
        decreases ls - i,
    {
        let cs = s.get_char(i);
        let cl = lit.get_char(i);
        proof {
            assert(cs as u32 as int == cs as int);
            assert(cl as u32 as int == cl as int);
        }
        let matched = cs == cl || (65 <= cs as u32 && cs as u32 <= 90 && cs as u32 + 32 == cl as u32);
        if !matched {
            assert(!char_ieq(s@[i as int], lit@[i as int]));
            return false;
        }
        i += 1;
    }
    true
}

/// A first difference, or exhaustion, settles the lexicographic comparison of
/// the full sequences once an equal prefix has been walked.
proof fn lemma_str_cmp_skip(a: Seq<char>, b: Seq<char>, i: int)
    requires
        0 <= i <= a.len(),
        i <= b.len(),
        forall|j: int| 0 <= j < i ==> a[j] == b[j],
    ensures
        spec_str_cmp(a, b) == spec_str_cmp(a.skip(i), b.skip(i)),
    decreases i,
{
    if i > 0 {
        assert(a.len() > 0 && b.len() > 0);
        assert(a[0] == b[0]);
        lemma_str_cmp_skip(a.skip(1), b.skip(1), i - 1);
        assert(a.skip(1).skip(i - 1) =~= a.skip(i));
        assert(b.skip(1).skip(i - 1) =~= b.skip(i));
    } else {
        assert(a.skip(0) =~= a);
        assert(b.skip(0) =~= b);
    }
}

/// Lexicographic three-way comparison of two strings.
pub fn str_cmp(a: &str, b: &str) -> (r: Cmp)
    ensures
        r == spec_str_cmp(a@, b@),
{
    let la = a.unicode_len();
    let lb = b.unicode_len();
    let mut i: usize = 0;
    while i < la && i < lb
        invariant
            la == a@.len(),
            lb == b@.len(),
            i <= la,
            i <= lb,
            forall|j: int| 0 <= j < i ==> a@[j] == b@[j],
        decreases la - i,
    {
        let ca = a.get_char(i);
        let cb = b.get_char(i);
        proof {
            assert(ca as u32 as int == ca as int);
            assert(cb as u32 as int == cb as int);
        }
        if (ca as u32) < (cb as u32) {
            proof {
                lemma_str_cmp_skip(a@, b@, i as int);
            }
            return Cmp::Lt;
        }
        if (cb as u32) < (ca as u32) {
            proof {
                lemma_str_cmp_skip(a@, b@, i as int);
            }
            return Cmp::Gt;
        }
        proof {
            assert(a@[i as int] == b@[i as int]);
        }
        i += 1;
    }
    proof {
        lemma_str_cmp_skip(a@, b@, i as int);
    }
    if la < lb {
        Cmp::Lt
    } else if lb < la {
        Cmp::Gt
    } else {
        Cmp::Eq
    }
}

/// Whether `c` is an ASCII decimal digit.
pub open spec fn is_digit(c: char) -> bool {
    48 <= c as int && c as int <= 57
}

/// Numeric value of an ASCII decimal digit.
pub open spec fn digit_val(c: char) -> int {
    c as int - 48
}

/// Value of a digit string read in base ten.
pub open spec fn digits_val(s: Seq<char>) -> int
    decreases s.len(),
{
    if s.len() == 0 {
        0
    } else {
        digits_val(s.take(s.len() - 1)) * 10 + digit_val(s[s.len() - 1])
    }
}

/// The value of a digit string never shrinks as digits are appended.
proof fn lemma_digits_val_grows(s: Seq<char>)
    requires
        forall|i: int| 0 <= i < s.len() ==> is_digit(s[i]),
    ensures
        digits_val(s) >= 0,
    decreases s.len(),
{
    if s.len() > 0 {
        lemma_digits_val_grows(s.take(s.len() - 1));
    }
}

/// A number may carry one leading plus sign; it is not part of the digits.
pub open spec fn strip_plus(s: Seq<char>) -> Seq<char> {
    if s.len() > 0 && s[0] == '+' {
        s.skip(1)
    } else {
        s
    }
}

/// Whether every character is an ASCII decimal digit.
pub open spec fn all_digits(s: Seq<char>) -> bool {
    forall|i: int| 0 <= i < s.len() ==> is_digit(s[i])
}

/// How a thread-count string parses: an optional leading plus sign, then at
/// least one decimal digit, and a value that fits in a byte.
pub open spec fn spec_parse_u8(s: Seq<char>) -> Option<u8> {
    let t = strip_plus(s);
    if t.len() == 0 {
        None
    } else if !all_digits(t) {
        None
    } else if digits_val(t) > 255 {
        None
    } else {
        Some(digits_val(t) as u8)
    }
}

/// Parses a decimal byte value the way the standard parser reads one: an
/// optional leading plus sign, digits only, and no value above 255.
pub fn parse_u8(s: &str) -> (r: Option<u8>)
    ensures
        r == spec_parse_u8(s@),
{
    let len = s.unicode_len();
    let start: usize = if len > 0 && s.get_char(0) == '+' {
        1
    } else {
        0
    };
    let ghost t = strip_plus(s@);
    proof {
        assert(t.len() == len - start);
        assert(forall|k: int| 0 <= k < t.len() ==> t[k] == s@[k + start]);
    }
    if start == len {
        return None;
    }
    let mut i: usize = start;
    let mut acc: u32 = 0;
    let mut over: bool = false;
    while i < len
        invariant
            len == s@.len(),
            start <= i <= len,
            t == strip_plus(s@),
            t.len() == len - start,
            forall|k: int| 0 <= k < t.len() ==> t[k] == s@[k + start],
            forall|k: int| 0 <= k < i - start ==> is_digit(t[k]),
            !over ==> acc == digits_val(t.take(i - start)) && acc <= 255,
            over ==> digits_val(t.take(i - start)) > 255,
        decreases len - i,
    {
        let c = s.get_char(i);
        proof {
            assert(c as u32 as int == c as int);
        }
        if !(48 <= c as u32 && c as u32 <= 57) {
            proof {
                let j = i - start;
                assert(t[j] == s@[i as int]);
                assert(!all_digits(t)) by {
                    assert(0 <= j < t.len() && !is_digit(t[j]));
                }
                assert(t.len() > 0);
            }
            return None;
        }
        let d = c as u32 - 48;
        proof {
            let ghost p = t.take(i + 1 - start);
            assert(p.take(p.len() - 1) =~= t.take(i - start));
            assert(p[p.len() - 1] == t[i - start]);
            if over {
                lemma_digits_val_grows(t.take(i - start));
            }
        }
        if !over {
            acc = acc * 10 + d;
            if acc > 255 {
                over = true;
            }
        }
        i += 1;
    }
    proof {
        assert(t.take(i - start) =~= t);
    }
    if over {
        None
    } else {
        Some(acc as u8)
    }
}

} // verus!
