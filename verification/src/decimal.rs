//! Natural numbers of any size, held as their decimal digits, lowest first:
//! enough arithmetic to add, multiply by a small number, scale by powers of
//! ten and compare, all exactly.

use vstd::prelude::*;

verus! {

/// Ten to the power `n`.
pub open spec fn pow10(n: nat) -> nat
    decreases n,
{
    if n == 0 {
        1
    } else {
        10 * pow10((n - 1) as nat)
    }
}

/// The digit at position `i` (ones at 0), 0 past the end.
pub open spec fn digit(s: Seq<u8>, i: int) -> nat {
    if 0 <= i < s.len() {
        s[i] as nat
    } else {
        0
    }
}

/// The number that the lowest `n` positions of `s` spell.
pub open spec fn low_value(s: Seq<u8>, n: nat) -> nat
    decreases n,
{
    if n == 0 {
        0
    } else {
        low_value(s, (n - 1) as nat) + digit(s, n - 1) * pow10((n - 1) as nat)
    }
}

/// The number that the digits spell.
pub open spec fn value(s: Seq<u8>) -> nat {
    low_value(s, s.len())
}

/// Every entry is a decimal digit.
pub open spec fn digits_ok(s: Seq<u8>) -> bool {
    forall|i: int| 0 <= i < s.len() ==> #[trigger] s[i] < 10
}

pub proof fn lemma_pow10_pos(n: nat)
    ensures
        pow10(n) >= 1,
    decreases n,
{
    if n > 0 {
        lemma_pow10_pos((n - 1) as nat);
    }
}

pub proof fn lemma_pow10_add(a: nat, b: nat)
    ensures
        pow10(a + b) == pow10(a) * pow10(b),
    decreases b,
{
    if b > 0 {
        lemma_pow10_add(a, (b - 1) as nat);
        let p = pow10(a);
        let q = pow10((b - 1) as nat);
        assert(pow10(a + b) == 10 * pow10((a + b - 1) as nat));
        assert((a + b - 1) as nat == a + (b - 1) as nat);
        assert(pow10(b) == 10 * q);
        assert(10 * (p * q) == p * (10 * q)) by (nonlinear_arith);
    } else {
        assert(pow10(0) == 1);
        assert(a + b == a);
        assert(pow10(a) * 1 == pow10(a));
    }
}

/// The lowest `n` digits spell less than `10^n`.
pub proof fn lemma_low_bound(s: Seq<u8>, n: nat)
    requires
        digits_ok(s),
    ensures
        low_value(s, n) < pow10(n),
    decreases n,
{
    if n > 0 {
        let m = (n - 1) as nat;
        lemma_low_bound(s, m);
        let d = digit(s, m as int);
        let p = pow10(m);
        assert(d <= 9);
        assert(d * p <= 9 * p) by (nonlinear_arith)
            requires
                d <= 9,
        ;
    }
}

/// Positions past the end add nothing.
pub proof fn lemma_low_beyond(s: Seq<u8>, n: nat)
    requires
        n >= s.len(),
    ensures
        low_value(s, n) == value(s),
    decreases n,
{
    if n > s.len() {
        lemma_low_beyond(s, (n - 1) as nat);
        assert(digit(s, n - 1) == 0);
    }
}

/// Only the lowest `n` digits matter to `low_value(_, n)`.
pub proof fn lemma_low_same(s: Seq<u8>, t: Seq<u8>, n: nat)
    requires
        forall|i: int| 0 <= i < n ==> digit(s, i) == digit(t, i),
    ensures
        low_value(s, n) == low_value(t, n),
    decreases n,
{
    if n > 0 {
        lemma_low_same(s, t, (n - 1) as nat);
        assert(digit(s, n - 1) == digit(t, n - 1));
    }
}

/// Appends the digits of `c` above the digits of `r`.
pub fn push_number(r: &mut Vec<u8>, c: u64)
    requires
        digits_ok(old(r)@),
    ensures
        digits_ok(final(r)@),
        value(final(r)@) == value(old(r)@) + c * pow10(old(r)@.len()),
{
    let mut c = c;
    let ghost c0 = c;
    while c > 0
        invariant
            digits_ok(r@),
            r@.len() >= old(r)@.len(),
            value(r@) + c * pow10(r@.len()) == value(old(r)@) + c0 * pow10(old(r)@.len()),
        decreases c,
    {
        let d = (c % 10) as u8;
        let ghost before = r@;
        let ghost j = r@.len();
        r.push(d);
        proof {
            lemma_low_same(before, r@, j);
            assert(r@[j as int] == d);
            let p = pow10(j);
            let cc = c as int;
            let dd = d as int;
            assert(cc == dd + 10 * (cc / 10));
            assert(cc * p == dd * p + (cc / 10) * (10 * p)) by (nonlinear_arith)
                requires
                    cc == dd + 10 * (cc / 10),
            ;
        }
        c = c / 10;
    }
}

/// The digits of `n`.
pub fn from_u64(n: u64) -> (r: Vec<u8>)
    ensures
        digits_ok(r@),
        value(r@) == n,
{
    let mut r: Vec<u8> = Vec::new();
    proof {
        assert(value(r@) == 0);
        assert(pow10(0) == 1);
    }
    push_number(&mut r, n);
    r
}

/// `a` times ten to the `k`: `k` zero digits below the digits of `a`.
pub fn shift(a: &Vec<u8>, k: usize) -> (r: Vec<u8>)
    requires
        digits_ok(a@),
    ensures
        digits_ok(r@),
        value(r@) == value(a@) * pow10(k as nat),
{
    let mut r: Vec<u8> = Vec::new();
    let mut i: usize = 0;
    while i < k
        invariant
            i <= k,
            r@.len() == i,
            forall|j: int| 0 <= j < i ==> r@[j] == 0,
        decreases k - i,
    {
        r.push(0);
        i = i + 1;
    }
    proof {
        lemma_zeros(r@, k as nat);
    }
    let mut j: usize = 0;
    while j < a.len()
        invariant
            j <= a.len(),
            r@.len() == k + j,
            digits_ok(a@),
            forall|t: int| 0 <= t < k ==> r@[t] == 0,
            forall|t: int| 0 <= t < j ==> r@[k + t] == a@[t],
            low_value(r@, (k + j) as nat) == pow10(k as nat) * low_value(a@, j as nat),
        decreases a.len() - j,
    {
        let ghost before = r@;
        r.push(a[j]);
        proof {
            lemma_low_same(before, r@, (k + j) as nat);
            lemma_pow10_add(k as nat, j as nat);
            let p = pow10(k as nat);
            let q = pow10(j as nat);
            let lv = low_value(a@, j as nat);
            let d = a@[j as int] as nat;
            assert(digit(r@, (k + j) as int) == d);
            assert(p * lv + d * (p * q) == p * (lv + d * q)) by (nonlinear_arith);
        }
        j = j + 1;
    }
    proof {
        let p = pow10(k as nat);
        let v = value(a@);
        assert(value(r@) == low_value(r@, (k + a.len()) as nat));
        assert(low_value(a@, a.len() as nat) == v);
        assert(p * v == v * p) by (nonlinear_arith);
        assert forall|t: int| 0 <= t < r@.len() implies #[trigger] r@[t] < 10 by {
            if t >= k {
                assert(r@[k + (t - k)] == a@[t - k]);
            }
        }
    }
    r
}

proof fn lemma_zeros(s: Seq<u8>, n: nat)
    requires
        n <= s.len(),
        forall|j: int| 0 <= j < n ==> s[j] == 0,
    ensures
        low_value(s, n) == 0,
    decreases n,
{
    if n > 0 {
        lemma_zeros(s, (n - 1) as nat);
        assert(digit(s, n - 1) == 0);
        assert(0 * pow10((n - 1) as nat) == 0);
    }
}

/// `a` times the small number `m`.
pub fn mul_small(a: &Vec<u8>, m: u8) -> (r: Vec<u8>)
    requires
        digits_ok(a@),
    ensures
        digits_ok(r@),
        value(r@) == (m as nat) * value(a@),
{
    let mut r: Vec<u8> = Vec::new();
    let mut c: u64 = 0;
    let mut i: usize = 0;
    proof {
        assert(low_value(r@, 0) == 0);
        assert(low_value(a@, 0) == 0);
        assert((m as nat) * 0 == 0);
        assert(pow10(0) == 1);
    }
    while i < a.len()
        invariant
            i <= a.len(),
            r@.len() == i,
            digits_ok(r@),
            digits_ok(a@),
            c < 256,
            low_value(r@, i as nat) + c * pow10(i as nat) == (m as nat) * low_value(a@, i as nat),
        decreases a.len() - i,
    {
        let ai = a[i] as u64;
        assert(ai < 10);
        assert(ai * (m as u64) <= 2295) by (nonlinear_arith)
            requires
                ai < 10,
                m < 256,
        ;
        let t: u64 = ai * (m as u64) + c;
        let d = (t % 10) as u8;
        let ghost before = r@;
        r.push(d);
        proof {
            lemma_low_same(before, r@, i as nat);
            let p = pow10(i as nat);
            let tt = t as int;
            let dd = d as int;
            let lr = low_value(before, i as nat);
            let la = low_value(a@, i as nat);
            let ai = a@[i as int] as int;
            assert(digit(r@, i as int) == dd);
            assert(digit(a@, i as int) == ai);
            assert(tt == dd + 10 * (tt / 10));
            assert(lr + dd * p + (tt / 10) * (10 * p) == (m as int) * (la + ai * p)) by (nonlinear_arith)
                requires
                    lr + (c as int) * p == (m as int) * la,
                    tt == ai * (m as int) + (c as int),
                    tt == dd + 10 * (tt / 10),
            ;
        }
        c = t / 10;
        i = i + 1;
    }
    proof {
        assert(r@.len() == a@.len());
        assert(low_value(a@, a.len() as nat) == value(a@));
        assert(value(r@) == low_value(r@, i as nat));
    }
    push_number(&mut r, c);
    r
}

/// The sum of `a` and `b`.
pub fn sum(a: &Vec<u8>, b: &Vec<u8>) -> (r: Vec<u8>)
    requires
        digits_ok(a@),
        digits_ok(b@),
    ensures
        digits_ok(r@),
        value(r@) == value(a@) + value(b@),
{
    let n = if a.len() > b.len() { a.len() } else { b.len() };
    let mut r: Vec<u8> = Vec::new();
    let mut c: u64 = 0;
    let mut i: usize = 0;
    while i < n
        invariant
            i <= n,
            n >= a.len(),
            n >= b.len(),
            r@.len() == i,
            digits_ok(r@),
            digits_ok(a@),
            digits_ok(b@),
            c <= 1,
            low_value(r@, i as nat) + c * pow10(i as nat) == low_value(a@, i as nat) + low_value(b@, i as nat),
        decreases n - i,
    {
        let da: u64 = if i < a.len() { a[i] as u64 } else { 0 };
        let db: u64 = if i < b.len() { b[i] as u64 } else { 0 };
        let t = da + db + c;
        let d = (t % 10) as u8;
        let ghost before = r@;
        r.push(d);
        proof {
            lemma_low_same(before, r@, i as nat);
            let p = pow10(i as nat);
            let tt = t as int;
            let dd = d as int;
            assert(digit(r@, i as int) == dd);
            assert(digit(a@, i as int) == da);
            assert(digit(b@, i as int) == db);
            assert(tt == dd + 10 * (tt / 10));
            assert(dd * p + (tt / 10) * (10 * p) == (da as int) * p + (db as int) * p + (c as int) * p) by (nonlinear_arith)
                requires
                    tt == (da as int) + (db as int) + (c as int),
                    tt == dd + 10 * (tt / 10),
            ;
        }
        c = t / 10;
        i = i + 1;
    }
    proof {
        lemma_low_beyond(a@, n as nat);
        lemma_low_beyond(b@, n as nat);
    }
    push_number(&mut r, c);
    r
}

/// Whether `a` is at most `b`.
pub fn le(a: &Vec<u8>, b: &Vec<u8>) -> (r: bool)
    requires
        digits_ok(a@),
        digits_ok(b@),
    ensures
        r == (value(a@) <= value(b@)),
{
    let n = if a.len() > b.len() { a.len() } else { b.len() };
    proof {
        lemma_low_beyond(a@, n as nat);
        lemma_low_beyond(b@, n as nat);
    }
    let mut i = n;
    while i > 0
        invariant
            i <= n,
            digits_ok(a@),
            digits_ok(b@),
            value(a@) - value(b@) == low_value(a@, i as nat) - low_value(b@, i as nat),
        decreases i,
    {
        let da: u8 = if i - 1 < a.len() { a[i - 1] } else { 0 };
        let db: u8 = if i - 1 < b.len() { b[i - 1] } else { 0 };
        proof {
            assert(digit(a@, i - 1) == da);
            assert(digit(b@, i - 1) == db);
        }
        if da != db {
            proof {
                let m = (i - 1) as nat;
                lemma_low_bound(a@, m);
                lemma_low_bound(b@, m);
                let p = pow10(m);
                if da < db {
                    assert((da as int) * p + p <= (db as int) * p) by (nonlinear_arith)
                        requires
                            (da as int) + 1 <= (db as int),
                    ;
                } else {
                    assert((db as int) * p + p <= (da as int) * p) by (nonlinear_arith)
                        requires
                            (db as int) + 1 <= (da as int),
                    ;
                }
            }
            return da < db;
        }
        i = i - 1;
    }
    true
}

} // verus!
