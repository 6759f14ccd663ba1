//! Character-level helpers over `&str`.

use vstd::prelude::*;
use vstd::string::*;
use crate::outside::push_char;

verus! {

/// Whether `s` contains the character `c`.
pub fn contains_char(s: &str, c: char) -> (r: bool)
    ensures
        r == s@.contains(c),
{
    let n = s.unicode_len();
    let mut i: usize = 0;
    while i < n
        invariant
            n == s@.len(),
            i <= n,
            forall|j: int| 0 <= j < i ==> s@[j] != c,
        decreases n - i,
    {
        if s.get_char(i) == c {
            return true;
        }
        i = i + 1;
    }
    false
}

/// Whether `s` holds `a` followed directly by `b` somewhere.
pub open spec fn has_pair(s: Seq<char>, a: char, b: char) -> bool {
    exists|i: int| 0 <= i < s.len() - 1 && s[i] == a && #[trigger] s[i + 1] == b
}

/// Whether `s` holds the two-character sequence `a b`.
pub fn contains_pair(s: &str, a: char, b: char) -> (r: bool)
    ensures
        r == has_pair(s@, a, b),
{
    let n = s.unicode_len();
    if n < 2 {
        return false;
    }
    let mut i: usize = 0;
    while i + 1 < n
        invariant
            n == s@.len(),
            n >= 2,
            i + 1 <= n,
            forall|j: int| 0 <= j < i ==> !(s@[j] == a && #[trigger] s@[j + 1] == b),
        decreases n - i,
    {
        if s.get_char(i) == a && s.get_char(i + 1) == b {
            return true;
        }
        i = i + 1;
    }
    false
}

} // verus!

verus! {

/// The digit character for `d`, which is below ten.
pub open spec fn digit_char(d: nat) -> char {
    ((48 + d) as u8) as char
}

/// `n` written in base `base` with the most significant digit first and no
/// leading zeros (zero itself is `0`).
pub open spec fn radix_digits(n: nat, base: nat) -> Seq<char>
    recommends
        2 <= base <= 10,
    decreases n via radix_digits_decreases
{
    if n < base || base < 2 {
        seq![digit_char(n % 10)]
    } else {
        radix_digits(n / base, base).push(digit_char(n % base))
    }
}

#[via_fn]
proof fn radix_digits_decreases(n: nat, base: nat) {
    if !(n < base || base < 2) {
        assert(n / base < n) by (nonlinear_arith)
            requires
                n >= base,
                base >= 2,
        ;
    }
}

/// `n` written in decimal, with a leading `-` when it is negative.
pub open spec fn signed_decimal(n: int) -> Seq<char> {
    if n < 0 {
        seq!['-'] + radix_digits((-n) as nat, 10)
    } else {
        radix_digits(n as nat, 10)
    }
}

/// Writes `n` in base `base`, most significant digit first.
pub fn format_radix(n: u64, base: u64) -> (r: String)
    requires
        2 <= base <= 10,
    ensures
        r@ == radix_digits(n as nat, base as nat),
    decreases n,
{
    if n < base {
        let mut s = String::new();
        push_char(&mut s, ((48 + n) as u8) as char);
        s
    } else {
        assert(n / base < n) by (nonlinear_arith)
            requires
                n >= base,
                base >= 2,
        ;
        let mut s = format_radix(n / base, base);
        push_char(&mut s, ((48 + n % base) as u8) as char);
        s
    }
}

/// Writes `n` in decimal.
pub fn decimal(n: u64) -> (r: String)
    ensures
        r@ == radix_digits(n as nat, 10),
{
    format_radix(n, 10)
}

/// Writes `n` in decimal with its sign.
pub fn signed_decimal_string(n: i64) -> (r: String)
    ensures
        r@ == signed_decimal(n as int),
{
    if n < 0 {
        let m: u64 = (-(n + 1)) as u64 + 1;
        let digits = format_radix(m, 10);
        let mut s = String::from_str("-");
        s.append(digits.as_str());
        proof {
            reveal_strlit("-");
            assert("-"@ =~= seq!['-']);
        }
        s
    } else {
        format_radix(n as u64, 10)
    }
}

/// `s` between double quotes.
pub open spec fn quoted(s: Seq<char>) -> Seq<char> {
    seq!['"'] + s + seq!['"']
}

pub fn quote(s: &str) -> (r: String)
    ensures
        r@ == quoted(s@),
{
    let mut q = String::new();
    push_char(&mut q, '"');
    q.append(s);
    push_char(&mut q, '"');
    assert(q@ =~= quoted(s@));
    q
}

} // verus!

verus! {

/// Whether `a` and `b` hold the same characters.
pub fn same(a: &str, b: &str) -> (r: bool)
    ensures
        r == (a@ == b@),
{
    let n = a.unicode_len();
    if n != b.unicode_len() {
        return false;
    }
    let mut i: usize = 0;
    while i < n
        invariant
            n == a@.len(),
            n == b@.len(),
            i <= n,
            forall|j: int| 0 <= j < i ==> a@[j] == b@[j],
        decreases n - i,
    {
        if a.get_char(i) != b.get_char(i) {
            return false;
        }
        i = i + 1;
    }
    assert(a@ =~= b@);
    true
}

/// A copy of each string of `v`, in order.
pub fn clone_strings(v: &Vec<String>) -> (r: Vec<String>)
    ensures
        r@ == v@,
{
    let mut out: Vec<String> = Vec::new();
    let mut i: usize = 0;
    while i < v.len()
        invariant
            i <= v@.len(),
            out@ == v@.subrange(0, i as int),
        decreases v.len() - i,
    {
        out.push(v[i].clone());
        assert(out@ =~= v@.subrange(0, i as int + 1));
        i = i + 1;
    }
    assert(out@ =~= v@);
    out
}

} // verus!

verus! {

/// Whether `s` begins with `p`.
pub open spec fn has_prefix(s: Seq<char>, p: Seq<char>) -> bool {
    p.len() <= s.len() && s.subrange(0, p.len() as int) == p
}

/// What follows `p` in `s`, when `s` begins with `p`.
pub fn strip_prefix(s: &str, p: &str) -> (r: Option<String>)
    ensures
        r is Some <==> has_prefix(s@, p@),
        r is Some ==> r->Some_0@ == s@.subrange(p@.len() as int, s@.len() as int),
{
    let n = s.unicode_len();
    let m = p.unicode_len();
    if m > n {
        return None;
    }
    let head = s.substring_char(0, m);
    if !same(head, p) {
        return None;
    }
    let rest = s.substring_char(m, n);
    Some(String::from_str(rest))
}

} // verus!
