//! LRC lyrics: parsing `[mm:ss.xx]text` lines into time-stamped lines kept in
//! time order, and finding the line that belongs to a playback position.
//! Times are exact: each half of a tag is read as a decimal number in the
//! forms that Rust's `f64` parsing takes, and kept as digits.

use vstd::prelude::*;
use crate::decimal::{sum, digits_ok, from_u64, le, lemma_pow10_pos, mul_small, pow10, push_number, shift, value};
use crate::text::{trim_bounds, trim_to_string, trimmed};

verus! {

/// One lyric line: when it starts and its text.
pub struct LyricLine {
    pub time: LrcTime,
    pub text: String,
}

impl View for LyricLine {
    type V = ((int, nat), Seq<char>);

    open spec fn view(&self) -> ((int, nat), Seq<char>) {
        (self.time@, self.text@)
    }
}

impl Clone for LyricLine {
    fn clone(&self) -> (r: Self)
        ensures
            r@ == self@,
    {
        LyricLine { time: self.time.clone(), text: self.text.clone() }
    }
}

/// The views of a list of lyric lines.
pub open spec fn line_views(s: Seq<LyricLine>) -> Seq<((int, nat), Seq<char>)> {
    s.map_values(|l: LyricLine| l@)
}

/// Copies a list of lyric lines.
pub fn clone_lines(v: &Vec<LyricLine>) -> (r: Vec<LyricLine>)
    ensures
        line_views(r@) == line_views(v@),
{
    let r = v.clone();
    assert(line_views(r@) =~= line_views(v@));
    r
}

// ---------------------------------------------------------------------------
// Splitting text into lines
// ---------------------------------------------------------------------------

/// `s` split at every `'\n'`; the pieces hold no `'\n'`.
pub open spec fn split_nl(s: Seq<char>) -> Seq<Seq<char>>
    decreases s.len(),
{
    if s.len() == 0 {
        seq![Seq::empty()]
    } else {
        let p = split_nl(s.drop_last());
        if s.last() == '\n' {
            p.push(Seq::empty())
        } else {
            p.update(p.len() - 1, p.last().push(s.last()))
        }
    }
}

/// Position of the first `c` in `s`, or `s.len()` when there is none.
pub open spec fn first_index(s: Seq<char>, c: char) -> nat
    decreases s.len(),
{
    if s.len() == 0 {
        0
    } else if s[0] == c {
        0
    } else {
        1 + first_index(s.drop_first(), c)
    }
}

pub proof fn lemma_first_index(s: Seq<char>, c: char)
    ensures
        first_index(s, c) <= s.len(),
        first_index(s, c) < s.len() ==> s[first_index(s, c) as int] == c,
        forall|i: int| 0 <= i < first_index(s, c) ==> s[i] != c,
    decreases s.len(),
{
    if s.len() > 0 && s[0] != c {
        lemma_first_index(s.drop_first(), c);
        assert forall|i: int| 0 <= i < first_index(s, c) implies s[i] != c by {
            if i > 0 {
                assert(s[i] == s.drop_first()[i - 1]);
            }
        }
    }
}

/// Finds the first `c` in `s`, scanning characters.
pub fn find_char(s: &str, c: char) -> (r: usize)
    ensures
        r == first_index(s@, c),
{
    let n = s.unicode_len();
    let mut i: usize = 0;
    while i < n && s.get_char(i) != c
        invariant
            i <= n,
            n == s@.len(),
            forall|j: int| 0 <= j < i ==> s@[j] != c,
        decreases n - i,
    {
        i = i + 1;
    }
    proof {
        lemma_first_index(s@, c);
        if first_index(s@, c) < i {
            assert(s@[first_index(s@, c) as int] == c);
        }
        if i < first_index(s@, c) {
            assert(s@[i as int] != c);
        }
    }
    i
}

/// Extending the text only changes the last piece or adds pieces: all
/// finished pieces stay.
proof fn lemma_split_prefix(s: Seq<char>, i: int, j: int)
    requires
        0 <= i <= j <= s.len(),
    ensures
        split_nl(s.take(i)).len() <= split_nl(s.take(j)).len(),
        forall|k: int|
            0 <= k < split_nl(s.take(i)).len() - 1 ==> split_nl(s.take(j))[k] == split_nl(
                s.take(i),
            )[k],
    decreases j - i,
{
    lemma_split_len(s.take(i));
    if i < j {
        lemma_split_prefix(s, i, j - 1);
        assert(s.take(j).drop_last() == s.take(j - 1));
        lemma_split_len(s.take(j - 1));
    }
}

proof fn lemma_split_len(s: Seq<char>)
    ensures
        split_nl(s).len() >= 1,
    decreases s.len(),
{
    if s.len() > 0 {
        lemma_split_len(s.drop_last());
    }
}

// ---------------------------------------------------------------------------
// Times
// ---------------------------------------------------------------------------

pub open spec fn is_digit(c: char) -> bool {
    '0' <= c <= '9'
}

pub open spec fn all_digits(s: Seq<char>) -> bool {
    forall|i: int| 0 <= i < s.len() ==> is_digit(#[trigger] s[i])
}

pub open spec fn digit_value(c: char) -> nat {
    (c as nat - '0' as nat) as nat
}

/// The number that a string of decimal digits spells.
pub open spec fn digits_value(s: Seq<char>) -> nat
    decreases s.len(),
{
    if s.len() == 0 {
        0
    } else {
        digits_value(s.drop_last()) * 10 + digit_value(s.last())
    }
}

proof fn lemma_digits_value_prefix(s: Seq<char>, i: int)
    requires
        0 <= i <= s.len(),
    ensures
        digits_value(s.take(i)) <= digits_value(s),
    decreases s.len() - i,
{
    if i < s.len() {
        lemma_digits_value_prefix(s.drop_last(), i);
        assert(s.drop_last().take(i) == s.take(i));
    } else {
        assert(s.take(i) == s);
    }
}

/// Reads a string of digits; `None` when it spells more than `10^30`.
fn read_capped(s: &str) -> (r: Option<u128>)
    requires
        all_digits(s@),
    ensures
        match r {
            Some(v) => v == digits_value(s@) && v <= CAP,
            None => digits_value(s@) > CAP,
        },
{
    let n = s.unicode_len();
    let mut v: u128 = 0;
    let mut i: usize = 0;
    while i < n
        invariant
            i <= n,
            n == s@.len(),
            all_digits(s@),
            v == digits_value(s@.take(i as int)),
            v <= CAP,
        decreases n - i,
    {
        let c = s.get_char(i);
        assert(is_digit(s@[i as int]));
        let d = (c as u32 - '0' as u32) as u128;
        assert(s@.take(i + 1).drop_last() == s@.take(i as int));
        if v > (CAP - d) / 10 {
            proof {
                lemma_digits_value_prefix(s@, i + 1);
            }
            return None;
        }
        v = v * 10 + d;
        i = i + 1;
    }
    assert(s@.take(n as int) == s@);
    Some(v)
}

/// Beyond this an exponent is read only as "very large".
pub const CAP: u128 = 1000000000000000000000000000000;

/// `n` with the sign that `neg` gives.
pub open spec fn signed(neg: bool, n: nat) -> int {
    if neg { -(n as int) } else { n as int }
}

/// A leading `+` or `-` and the rest.
pub open spec fn sign_split(s: Seq<char>) -> (bool, Seq<char>) {
    if s.len() > 0 && (s[0] == '+' || s[0] == '-') {
        (s[0] == '-', s.skip(1))
    } else {
        (false, s)
    }
}

/// The parts of a finite decimal number as Rust's `f64` parsing reads it,
/// `[+-]? (D+ | D+ '.' D* | D* '.' D+) ([eE] [+-]? D+)?`: its sign, the
/// digits before and after the point, and the sign and digits of the
/// exponent (none written reads as 0).
pub open spec fn float_parts(s: Seq<char>) -> Option<(bool, Seq<char>, Seq<char>, bool, Seq<char>)> {
    let (neg, r) = sign_split(s);
    let pe = first_index(r, 'e');
    let pu = first_index(r, 'E');
    let p = (if pe <= pu { pe } else { pu }) as int;
    let mant = r.take(p);
    let q = first_index(mant, '.') as int;
    let ip = mant.take(q);
    let fp = if q < mant.len() { mant.skip(q + 1) } else { Seq::empty() };
    let (xneg, xd) = if p < r.len() { sign_split(r.skip(p + 1)) } else { (false, Seq::empty()) };
    if all_digits(ip) && all_digits(fp) && ip.len() + fp.len() > 0 && all_digits(xd) && (p < r.len()
        ==> xd.len() > 0) {
        Some((neg, ip, fp, xneg, xd))
    } else {
        None
    }
}

/// Position of the first digit other than `0`, or the length.
pub open spec fn lead_zeros(s: Seq<char>) -> nat
    decreases s.len(),
{
    if s.len() == 0 {
        0
    } else if s[0] != '0' {
        0
    } else {
        1 + lead_zeros(s.drop_first())
    }
}

/// The exact value of one half of a time tag, as `(num, scale)`, meaning
/// `num / 10^scale` seconds. The number is read as Rust's `f64` parsing
/// reads it, but exactly. Two cases give no time: a number whose leading
/// digit stands above `10^400`, which `f64` reads as infinite, and one whose
/// digits after the point would not fit a machine word. A number whose
/// leading digit stands below `10^-400` is read as 0, as `f64` reads it.
/// Between those bounds the number is kept exactly, where `f64` would round
/// it (to infinity just above `1.8e308`, to 0 or a nearby double below).
pub open spec fn half_time(s: Seq<char>) -> Option<(int, nat)> {
    match float_parts(s) {
        None => None,
        Some((neg, ip, fp, xneg, xd)) => {
            let d = ip + fp;
            let sig = d.len() - lead_zeros(d);
            let e10 = signed(xneg, digits_value(xd)) - fp.len();
            let mag = e10 + sig - 1;
            if sig <= 0 {
                Some((0, 0))
            } else if mag > 400 {
                None
            } else if mag < -400 {
                Some((0, 0))
            } else if e10 >= 0 {
                Some((signed(neg, digits_value(d) * pow10(e10 as nat)), 0))
            } else if -e10 > usize::MAX {
                None
            } else {
                Some((signed(neg, digits_value(d)), (-e10) as nat))
            }
        },
    }
}

/// A time made of minutes and seconds: `60 m + s`, at the finer scale.
pub open spec fn combine(m: (int, nat), s: (int, nat)) -> (int, nat) {
    let k = if m.1 >= s.1 { m.1 } else { s.1 };
    (60 * m.0 * pow10((k - m.1) as nat) + s.0 * pow10((k - s.1) as nat), k)
}

/// The time of an LRC tag `mm:ss.xx`: exactly one `:` between two numbers,
/// minutes and seconds, each read as `half_time` reads it.
pub open spec fn tag_time(part: Seq<char>) -> Option<(int, nat)> {
    let c = first_index(part, ':') as int;
    let rest = part.skip(c + 1);
    if c == part.len() || first_index(rest, ':') < rest.len() {
        None
    } else {
        match (half_time(part.take(c)), half_time(rest)) {
            (Some(m), Some(sec)) => Some(combine(m, sec)),
            _ => None,
        }
    }
}

/// Whether time `a` is not later than time `b`: `num / 10^scale` compared
/// exactly.
pub open spec fn time_le(a: (int, nat), b: (int, nat)) -> bool {
    a.0 * pow10(b.1) <= b.0 * pow10(a.1)
}

/// A playback position in milliseconds, as a time.
pub open spec fn ms_time(ms: u64) -> (int, nat) {
    (ms as int, 3)
}

/// "Not later than" chains: times are ordered.
pub proof fn lemma_time_le_trans(a: (int, nat), b: (int, nat), c: (int, nat))
    requires
        time_le(a, b),
        time_le(b, c),
    ensures
        time_le(a, c),
{
    lemma_pow10_pos(a.1);
    lemma_pow10_pos(b.1);
    lemma_pow10_pos(c.1);
    let x = pow10(a.1) as int;
    let y = pow10(b.1) as int;
    let z = pow10(c.1) as int;
    assert(a.0 * z <= c.0 * x) by (nonlinear_arith)
        requires
            a.0 * y <= b.0 * x,
            b.0 * z <= c.0 * y,
            x >= 1,
            y >= 1,
            z >= 1,
    ;
}

/// An exact time: `(pos - neg) / 10^scale` seconds, `pos` and `neg` held as
/// decimal digits.
pub struct LrcTime {
    pos: Vec<u8>,
    neg: Vec<u8>,
    scale: usize,
}

impl View for LrcTime {
    type V = (int, nat);

    closed spec fn view(&self) -> (int, nat) {
        (value(self.pos@) - value(self.neg@), self.scale as nat)
    }
}

impl LrcTime {
    #[verifier::type_invariant]
    spec fn digits_valid(self) -> bool {
        digits_ok(self.pos@) && digits_ok(self.neg@)
    }

    /// A playback position in milliseconds.
    pub fn from_ms(ms: u64) -> (r: LrcTime)
        ensures
            r@ == ms_time(ms),
    {
        let pos = from_u64(ms);
        let neg: Vec<u8> = Vec::new();
        assert(value(neg@) == 0);
        LrcTime { pos, neg, scale: 3 }
    }

    /// Whether this time is not later than `other`.
    pub fn le(&self, other: &LrcTime) -> (r: bool)
        ensures
            r == time_le(self@, other@),
    {
        proof {
            use_type_invariant(self);
            use_type_invariant(other);
        }
        let lhs = sum(&shift(&self.pos, other.scale), &shift(&other.neg, self.scale));
        let rhs = sum(&shift(&other.pos, self.scale), &shift(&self.neg, other.scale));
        let r = le(&lhs, &rhs);
        proof {
            let pa = value(self.pos@) as int;
            let qa = value(self.neg@) as int;
            let pb = value(other.pos@) as int;
            let qb = value(other.neg@) as int;
            let x = pow10(other.scale as nat) as int;
            let y = pow10(self.scale as nat) as int;
            assert((pa - qa) * x == pa * x - qa * x) by (nonlinear_arith);
            assert((pb - qb) * y == pb * y - qb * y) by (nonlinear_arith);
        }
        r
    }

    /// Whether the two times are the same.
    pub fn same_time(&self, other: &LrcTime) -> (r: bool)
        ensures
            r == (time_le(self@, other@) && time_le(other@, self@)),
    {
        self.le(other) && other.le(self)
    }
}

impl Clone for LrcTime {
    fn clone(&self) -> (r: Self)
        ensures
            r@ == self@,
    {
        proof {
            use_type_invariant(self);
        }
        let pos = self.pos.clone();
        let neg = self.neg.clone();
        assert(pos@ =~= self.pos@);
        assert(neg@ =~= self.neg@);
        LrcTime { pos, neg, scale: self.scale }
    }
}

/// `digits_value` of two strings one after the other.
proof fn lemma_digits_concat(a: Seq<char>, b: Seq<char>)
    ensures
        digits_value(a + b) == digits_value(a) * pow10(b.len()) + digits_value(b),
    decreases b.len(),
{
    if b.len() == 0 {
        assert(a + b == a);
        assert(pow10(0) == 1);
        assert(digits_value(a) * 1 == digits_value(a));
    } else {
        lemma_digits_concat(a, b.drop_last());
        assert((a + b).drop_last() == a + b.drop_last());
        assert((a + b).last() == b.last());
        let p = pow10((b.len() - 1) as nat);
        let da = digits_value(a);
        assert(pow10(b.len()) == 10 * p);
        assert((da * p + digits_value(b.drop_last())) * 10 == da * (10 * p) + digits_value(b.drop_last()) * 10) by (nonlinear_arith);
    }
}

/// Appends the digits of `s` below the number `acc`.
fn extend_digits(acc: &mut Vec<u8>, s: &str)
    requires
        digits_ok(old(acc)@),
        all_digits(s@),
    ensures
        digits_ok(final(acc)@),
        value(final(acc)@) == value(old(acc)@) * pow10(s@.len()) + digits_value(s@),
{
    let n = s.unicode_len();
    let mut i: usize = 0;
    proof {
        assert(s@.take(0) =~= Seq::<char>::empty());
        assert(pow10(0) == 1);
        assert(value(acc@) * 1 == value(acc@));
    }
    while i < n
        invariant
            i <= n,
            n == s@.len(),
            all_digits(s@),
            digits_ok(acc@),
            value(acc@) == value(old(acc)@) * pow10(i as nat) + digits_value(s@.take(i as int)),
        decreases n - i,
    {
        let c = s.get_char(i);
        assert(is_digit(s@[i as int]));
        let d = (c as u32 - '0' as u32) as u64;
        assert(s@.take(i + 1).drop_last() == s@.take(i as int));
        assert(s@.take(i + 1).last() == c);
        let ghost before = value(acc@);
        let mut t = shift(acc, 1);
        let mut dv: Vec<u8> = Vec::new();
        proof {
            assert(value(dv@) == 0);
            assert(pow10(0) == 1);
        }
        push_number(&mut dv, d);
        *acc = sum(&t, &dv);
        proof {
            let v0 = value(old(acc)@);
            let p = pow10(i as nat);
            let w = digits_value(s@.take(i as int));
            assert(pow10(1) == 10);
            assert(pow10((i + 1) as nat) == 10 * p);
            assert((v0 * p + w) * 10 == v0 * (10 * p) + w * 10) by (nonlinear_arith);
        }
        i = i + 1;
    }
    assert(s@.take(n as int) == s@);
}

/// Whether every character of `s` is a decimal digit.
fn check_digits(s: &str) -> (r: bool)
    ensures
        r == all_digits(s@),
{
    let n = s.unicode_len();
    let mut i: usize = 0;
    while i < n
        invariant
            i <= n,
            n == s@.len(),
            forall|j: int| 0 <= j < i ==> is_digit(#[trigger] s@[j]),
        decreases n - i,
    {
        let c = s.get_char(i);
        if !('0' <= c && c <= '9') {
            return false;
        }
        i = i + 1;
    }
    true
}

/// The sign of a number and the rest of it.
fn split_sign(s: &str) -> (r: (bool, &str))
    ensures
        (r.0, r.1@) == sign_split(s@),
{
    let n = s.unicode_len();
    if n > 0 {
        let c = s.get_char(0);
        if c == '+' || c == '-' {
            let rest = s.substring_char(1, n);
            assert(rest@ == s@.skip(1));
            return (c == '-', rest);
        }
    }
    (false, s)
}

proof fn lemma_lead_zeros(s: Seq<char>)
    ensures
        lead_zeros(s) <= s.len(),
        lead_zeros(s) < s.len() ==> s[lead_zeros(s) as int] != '0',
        forall|i: int| 0 <= i < lead_zeros(s) ==> s[i] == '0',
    decreases s.len(),
{
    if s.len() > 0 && s[0] == '0' {
        lemma_lead_zeros(s.drop_first());
        assert forall|i: int| 0 <= i < lead_zeros(s) implies s[i] == '0' by {
            if i > 0 {
                assert(s[i] == s.drop_first()[i - 1]);
            }
        }
    }
}

/// How many digits of `ip` then `fp` come before the first one other than 0.
fn count_lead_zeros(ip: &str, fp: &str) -> (r: u128)
    ensures
        r == lead_zeros(ip@ + fp@),
{
    let ghost d = ip@ + fp@;
    let a = ip.unicode_len();
    let b = fp.unicode_len();
    let mut i: usize = 0;
    while i < a && ip.get_char(i) == '0'
        invariant
            i <= a,
            a == ip@.len(),
            b == fp@.len(),
            d == ip@ + fp@,
            forall|j: int| 0 <= j < i ==> d[j] == '0',
        decreases a - i,
    {
        i = i + 1;
    }
    let mut r: u128 = i as u128;
    if i == a {
        let mut j: usize = 0;
        while j < b && fp.get_char(j) == '0'
            invariant
                j <= b,
                a == ip@.len(),
                b == fp@.len(),
                d == ip@ + fp@,
                i == a,
                forall|t: int| 0 <= t < a + j ==> d[t] == '0',
            decreases b - j,
        {
            assert(d[a + j] == fp@[j as int]);
            j = j + 1;
        }
        proof {
            if j < b {
                assert(d[a + j] == fp@[j as int]);
            }
        }
        r = (a as u128) + (j as u128);
    }
    proof {
        lemma_lead_zeros(d);
        let l = lead_zeros(d);
        if l < r {
            assert(d[l as int] == '0');
        }
        if r < l {
            assert(d[r as int] == '0');
            if r < a {
                assert(d[r as int] == ip@[r as int]);
            }
        }
    }
    r
}

/// Splits a number into the parts that `float_parts` names; `None` when
/// it is not a finite decimal number.
fn split_float(s: &str) -> (r: Option<(bool, &str, &str, bool, &str)>)
    ensures
        match r {
            Some((neg, ip, fp, xneg, xd)) => float_parts(s@) == Some((neg, ip@, fp@, xneg, xd@)),
            None => float_parts(s@) is None,
        },
{
    let (neg, rest) = split_sign(s);
    let rn = rest.unicode_len();
    let pe = find_char(rest, 'e');
    let pu = find_char(rest, 'E');
    proof {
        lemma_first_index(rest@, 'e');
        lemma_first_index(rest@, 'E');
    }
    let p = if pe <= pu { pe } else { pu };
    let mant = rest.substring_char(0, p);
    assert(mant@ == rest@.take(p as int));
    let ml = mant.unicode_len();
    let q = find_char(mant, '.');
    proof {
        lemma_first_index(mant@, '.');
    }
    let ip = mant.substring_char(0, q);
    assert(ip@ == mant@.take(q as int));
    let fp = if q < ml { mant.substring_char(q + 1, ml) } else { mant.substring_char(ml, ml) };
    assert(fp@ == if q < ml { mant@.skip(q + 1) } else { Seq::<char>::empty() });
    let (xneg, xd) = if p < rn { split_sign(rest.substring_char(p + 1, rn)) } else { (false, rest.substring_char(rn, rn)) };
    proof {
        if p < rn {
            assert(rest@.subrange(p + 1, rn as int) == rest@.skip(p + 1));
        } else {
            assert(xd@ =~= Seq::<char>::empty());
        }
    }
    let xl = xd.unicode_len();
    let ok = check_digits(ip) && check_digits(fp) && (ip.unicode_len() > 0 || fp.unicode_len() > 0)
        && check_digits(xd) && (p >= rn || xl > 0);
    if !ok {
        return None;
    }
    Some((neg, ip, fp, xneg, xd))
}

/// Reads one half of a time tag: its sign, the digits of its size and its
/// scale; see [`half_time`].
#[verifier::rlimit(30)]
fn read_half(s: &str) -> (r: Option<(bool, Vec<u8>, usize)>)
    ensures
        match r {
            Some((neg, v, k)) => digits_ok(v@) && half_time(s@) == Some((signed(neg, value(v@)), k as nat)),
            None => half_time(s@) is None,
        },
{
    let (neg, ip, fp, xneg, xd) = match split_float(s) {
        Some(parts) => parts,
        None => return None,
    };
    let ghost d = ip@ + fp@;
    let lz = count_lead_zeros(ip, fp);
    let il = ip.unicode_len();
    let fl = fp.unicode_len();
    proof {
        lemma_lead_zeros(d);
    }
    let sig: i128 = (il as i128) + (fl as i128) - (lz as i128);
    if sig <= 0 {
        let zero: Vec<u8> = Vec::new();
        assert(value(zero@) == 0);
        return Some((false, zero, 0));
    }
    let mut mantissa: Vec<u8> = Vec::new();
    proof {
        assert(value(mantissa@) == 0);
    }
    extend_digits(&mut mantissa, ip);
    extend_digits(&mut mantissa, fp);
    proof {
        lemma_digits_concat(ip@, fp@);
        assert(0 * pow10(ip@.len()) == 0);
    }
    let x = read_capped(xd);
    let x = match x {
        Some(v) => v,
        None => {
            proof {
                assert(usize::MAX < CAP);
            }
            if xneg {
                let zero: Vec<u8> = Vec::new();
                assert(value(zero@) == 0);
                return Some((false, zero, 0));
            } else {
                return None;
            }
        },
    };
    let xi: i128 = if xneg { -(x as i128) } else { x as i128 };
    let e10: i128 = xi - (fl as i128);
    let mag: i128 = e10 + sig - 1;
    assert(e10 == signed(xneg, digits_value(xd@)) - fp@.len());
    if mag > 400 {
        return None;
    }
    if mag < -400 {
        let zero: Vec<u8> = Vec::new();
        assert(value(zero@) == 0);
        return Some((false, zero, 0));
    }
    if e10 >= 0 {
        let v = shift(&mantissa, e10 as usize);
        return Some((neg, v, 0));
    }
    if -e10 > usize::MAX as i128 {
        return None;
    }
    Some((neg, mantissa, (-e10) as usize))
}
/// The time of an LRC tag; `None` when `tag_time` gives none.
pub fn parse_time(part: &str) -> (r: Option<LrcTime>)
    ensures
        match r {
            Some(t) => tag_time(part@) == Some(t@),
            None => tag_time(part@) is None,
        },
{
    let n = part.unicode_len();
    let c = find_char(part, ':');
    proof {
        lemma_first_index(part@, ':');
    }
    if c == n {
        return None;
    }
    let rest = part.substring_char(c + 1, n);
    assert(rest@ == part@.skip(c + 1));
    if find_char(rest, ':') < rest.unicode_len() {
        return None;
    }
    let head = part.substring_char(0, c);
    assert(head@ == part@.take(c as int));
    let (mneg, mv, km) = match read_half(head) {
        Some(h) => h,
        None => return None,
    };
    let (sneg, sv, ks) = match read_half(rest) {
        Some(h) => h,
        None => return None,
    };
    let k = if km >= ks { km } else { ks };
    let mt = mul_small(&shift(&mv, k - km), 60);
    let st = shift(&sv, k - ks);
    let ghost a = value(mv@) as int;
    let ghost b = value(sv@) as int;
    let ghost p1 = pow10((k - km) as nat) as int;
    let ghost p2 = pow10((k - ks) as nat) as int;
    assert(value(mt@) == 60 * (a * p1));
    assert(value(st@) == b * p2);
    let (pos, neg) = if !mneg && !sneg {
        (sum(&mt, &st), Vec::new())
    } else if mneg && !sneg {
        (st, mt)
    } else if !mneg && sneg {
        (mt, st)
    } else {
        (Vec::new(), sum(&mt, &st))
    };
    proof {
        assert(value(Seq::<u8>::empty()) == 0);
        let m0 = signed(mneg, value(mv@));
        let s0 = signed(sneg, value(sv@));
        assert(60 * m0 * p1 + s0 * p2 == value(pos@) - value(neg@)) by (nonlinear_arith)
            requires
                m0 == (if mneg { -a } else { a }),
                s0 == (if sneg { -b } else { b }),
                value(mt@) == 60 * (a * p1),
                value(st@) == b * p2,
                !mneg && !sneg ==> value(pos@) == value(mt@) + value(st@) && value(neg@) == 0,
                mneg && !sneg ==> value(pos@) == value(st@) && value(neg@) == value(mt@),
                !mneg && sneg ==> value(pos@) == value(mt@) && value(neg@) == value(st@),
                mneg && sneg ==> value(pos@) == 0 && value(neg@) == value(mt@) + value(st@),
        ;
    }
    Some(LrcTime { pos, neg, scale: k })
}

// ---------------------------------------------------------------------------
// Lines
// ---------------------------------------------------------------------------

/// A line of the file can be read: the time tag is cut out by byte offsets,
/// so where the trimmed line holds a `]`, it must not start with it and its
/// first character must be one byte long.
pub open spec fn line_readable(seg: Seq<char>) -> bool {
    let line = trimmed(seg);
    let k = first_index(line, ']') as int;
    (line.len() > 0 && k < line.len()) ==> (k >= 1 && (line[0] as u32) < 0x80)
}

/// Every line of the text is readable.
pub open spec fn lrc_readable(text: Seq<char>) -> bool {
    forall|i: int| 0 <= i < split_nl(text).len() ==> line_readable(#[trigger] split_nl(text)[i])
}

/// The lyric line that one line of the file yields, if any: the line is
/// trimmed; it needs a `]`; the tag between its first character and the
/// first `]` must be a valid time; the text after the `]` is trimmed.
pub open spec fn line_entry(seg: Seq<char>) -> Option<((int, nat), Seq<char>)> {
    let line = trimmed(seg);
    let k = first_index(line, ']') as int;
    if line.len() == 0 || k == line.len() {
        None
    } else {
        match tag_time(line.subrange(1, k)) {
            Some(t) => Some((t, trimmed(line.skip(k + 1)))),
            None => None,
        }
    }
}

/// The lyric lines of a list of file lines, in file order.
pub open spec fn entries(segs: Seq<Seq<char>>) -> Seq<((int, nat), Seq<char>)>
    decreases segs.len(),
{
    if segs.len() == 0 {
        Seq::empty()
    } else {
        let e = entries(segs.drop_last());
        match line_entry(segs.last()) {
            Some(x) => e.push(x),
            None => e,
        }
    }
}

/// Inserts `x` after every element whose time is not later than its own.
pub open spec fn insert_by_time(s: Seq<((int, nat), Seq<char>)>, x: ((int, nat), Seq<char>)) -> Seq<
    ((int, nat), Seq<char>),
>
    decreases s.len(),
{
    if s.len() == 0 {
        seq![x]
    } else if time_le(s.last().0, x.0) {
        s.push(x)
    } else {
        insert_by_time(s.drop_last(), x).push(s.last())
    }
}

/// Stable sort by time.
pub open spec fn sort_by_time(s: Seq<((int, nat), Seq<char>)>) -> Seq<((int, nat), Seq<char>)>
    decreases s.len(),
{
    if s.len() == 0 {
        Seq::empty()
    } else {
        insert_by_time(sort_by_time(s.drop_last()), s.last())
    }
}

/// What the LRC reader yields for a text: its lyric lines, stably sorted by time.
pub open spec fn lrc_lines(text: Seq<char>) -> Seq<((int, nat), Seq<char>)> {
    sort_by_time(entries(split_nl(text)))
}

/// If every element from `q` on is later than `x`, inserting `x` leaves that
/// tail in place.
proof fn lemma_insert_tail(s: Seq<((int, nat), Seq<char>)>, x: ((int, nat), Seq<char>), q: int)
    requires
        0 <= q <= s.len(),
        forall|j: int| q <= j < s.len() ==> !time_le(#[trigger] s[j].0, x.0),
    ensures
        insert_by_time(s, x) == insert_by_time(s.take(q), x) + s.skip(q),
    decreases s.len() - q,
{
    if q < s.len() {
        lemma_insert_tail(s.drop_last(), x, q);
        assert(s.drop_last().take(q) == s.take(q));
        assert(s.drop_last().skip(q).push(s.last()) == s.skip(q));
    } else {
        assert(s.take(q) == s);
        assert(s.skip(q) =~= Seq::<((int, nat), Seq<char>)>::empty());
    }
}

/// Inserts `x` into the time-sorted `v` after every line not later than it.
fn insert_line(v: &mut Vec<LyricLine>, x: LyricLine)
    ensures
        line_views(final(v)@) == insert_by_time(line_views(old(v)@), x@),
{
    let ghost s = line_views(v@);
    let mut p = v.len();
    while p > 0 && !v[p - 1].time.le(&x.time)
        invariant
            p <= v.len(),
            s == line_views(v@),
            forall|j: int| p <= j < v.len() ==> !time_le(#[trigger] s[j].0, x.time@),
        decreases p,
    {
        p = p - 1;
    }
    proof {
        lemma_insert_tail(s, x@, p as int);
        if p > 0 {
            assert(s.take(p as int).last() == s[p - 1]);
            assert(insert_by_time(s.take(p as int), x@) == s.take(p as int).push(x@));
        } else {
            assert(s.take(0) =~= Seq::<((int, nat), Seq<char>)>::empty());
        }
    }
    v.insert(p, x);
    assert(line_views(v@) =~= s.take(p as int).push(x@) + s.skip(p as int));
}

/// Reads one line of the file and, when it yields a lyric line, inserts it
/// into the time-sorted `out`.
fn read_line(seg: &str, out: &mut Vec<LyricLine>)
    requires
        line_readable(seg@),
    ensures
        line_views(final(out)@) == match line_entry(seg@) {
            Some(x) => insert_by_time(line_views(old(out)@), x),
            None => line_views(old(out)@),
        },
{
    let (a, b) = trim_bounds(seg);
    let line = seg.substring_char(a, b);
    assert(line@ == trimmed(seg@));
    let len = b - a;
    if len == 0 {
        return;
    }
    let k = find_char(line, ']');
    if k == len {
        return;
    }
    proof {
        lemma_first_index(line@, ']');
    }
    let tag = line.substring_char(1, k);
    match parse_time(tag) {
        Some(t) => {
            let text = trim_to_string(line.substring_char(k + 1, len));
            assert(line@.subrange(k + 1, len as int) == line@.skip(k + 1));
            insert_line(out, LyricLine { time: t, text });
        },
        None => {},
    }
}

/// One more file line adds its lyric line, if any, to the sorted result.
proof fn lemma_entries_push(done: Seq<Seq<char>>, seg: Seq<char>)
    ensures
        sort_by_time(entries(done.push(seg))) == match line_entry(seg) {
            Some(x) => insert_by_time(sort_by_time(entries(done)), x),
            None => sort_by_time(entries(done)),
        },
{
    assert(done.push(seg).drop_last() == done);
    assert(done.push(seg).last() == seg);
    match line_entry(seg) {
        Some(x) => {
            assert(entries(done).push(x).drop_last() == entries(done));
        },
        None => {},
    }
}

/// Parses LRC text: every line `[tag]text` whose tag is `mm:ss.xx` yields a
/// lyric line; the result is stably sorted by time.
pub fn parse_lrc(text: &str) -> (r: Vec<LyricLine>)
    requires
        lrc_readable(text@),
    ensures
        line_views(r@) == lrc_lines(text@),
{
    let n = text.unicode_len();
    let mut out: Vec<LyricLine> = Vec::new();
    let mut start: usize = 0;
    let mut i: usize = 0;
    let ghost mut done: Seq<Seq<char>> = Seq::empty();
    assert(text@.take(0) =~= Seq::<char>::empty());
    assert(text@.subrange(0, 0) =~= Seq::<char>::empty());
    while i < n
        invariant
            start <= i <= n,
            n == text@.len(),
            lrc_readable(text@),
            done.push(text@.subrange(start as int, i as int)) == split_nl(text@.take(i as int)),
            line_views(out@) == sort_by_time(entries(done)),
        decreases n - i,
    {
        let ghost prev = text@.take(i as int);
        assert(text@.take(i + 1).drop_last() == prev);
        if text.get_char(i) == '\n' {
            let seg = text.substring_char(start, i);
            proof {
                lemma_split_prefix(text@, i + 1, n as int);
                assert(text@.take(n as int) == text@);
                assert(split_nl(text@.take(i + 1)) == done.push(seg@).push(Seq::empty()));
                assert(split_nl(text@)[done.len() as int] == seg@);
                assert(line_readable(split_nl(text@)[done.len() as int]));
            }
            read_line(seg, &mut out);
            proof {
                lemma_entries_push(done, seg@);
                done = done.push(seg@);
                assert(text@.subrange(i + 1, i + 1) =~= Seq::<char>::empty());
            }
            start = i + 1;
        } else {
            proof {
                assert(text@.subrange(start as int, i + 1) == text@.subrange(
                    start as int,
                    i as int,
                ).push(text@[i as int]));
                assert(split_nl(text@.take(i + 1)) == done.push(
                    text@.subrange(start as int, i + 1),
                ));
            }
        }
        i = i + 1;
    }
    let seg = text.substring_char(start, n);
    proof {
        assert(text@.take(n as int) == text@);
        assert(split_nl(text@)[done.len() as int] == seg@);
    }
    read_line(seg, &mut out);
    proof {
        lemma_entries_push(done, seg@);
        assert(split_nl(text@) == done.push(seg@));
    }
    out
}

/// Whether one line of the file is readable.
fn line_is_readable(seg: &str) -> (r: bool)
    ensures
        r == line_readable(seg@),
{
    let (a, b) = trim_bounds(seg);
    let line = seg.substring_char(a, b);
    assert(line@ == trimmed(seg@));
    let len = b - a;
    if len == 0 {
        return true;
    }
    let k = find_char(line, ']');
    if k == len {
        return true;
    }
    let c0 = line.get_char(0);
    let r = k >= 1 && (c0 as u32) < 0x80;
    proof {
        let l = trimmed(seg@);
        lemma_first_index(l, ']');
        assert(c0 == l[0]);
        assert(l.len() == len);
        assert(first_index(l, ']') == k);
        assert(l.len() > 0 && (first_index(l, ']') as int) < l.len());
        assert(r == (k >= 1 && (l[0] as u32) < 0x80));
    }
    r
}

/// Whether every line of the text is readable, as `parse_lrc` requires.
pub fn lrc_is_readable(text: &str) -> (r: bool)
    ensures
        r == lrc_readable(text@),
{
    let n = text.unicode_len();
    let mut start: usize = 0;
    let mut i: usize = 0;
    let ghost mut done: Seq<Seq<char>> = Seq::empty();
    assert(text@.take(0) =~= Seq::<char>::empty());
    assert(text@.subrange(0, 0) =~= Seq::<char>::empty());
    while i < n
        invariant
            start <= i <= n,
            n == text@.len(),
            done.push(text@.subrange(start as int, i as int)) == split_nl(text@.take(i as int)),
            forall|j: int| 0 <= j < done.len() ==> line_readable(#[trigger] done[j]),
        decreases n - i,
    {
        let ghost prev = text@.take(i as int);
        assert(text@.take(i + 1).drop_last() == prev);
        if text.get_char(i) == '\n' {
            let seg = text.substring_char(start, i);
            proof {
                lemma_split_prefix(text@, i + 1, n as int);
                assert(text@.take(n as int) == text@);
                assert(split_nl(text@.take(i + 1)) == done.push(seg@).push(Seq::empty()));
                assert(split_nl(text@)[done.len() as int] == seg@);
            }
            if !line_is_readable(seg) {
                proof {
                    assert(!line_readable(split_nl(text@)[done.len() as int]));
                }
                return false;
            }
            proof {
                done = done.push(seg@);
                assert(text@.subrange(i + 1, i + 1) =~= Seq::<char>::empty());
            }
            start = i + 1;
        } else {
            proof {
                assert(text@.subrange(start as int, i + 1) == text@.subrange(
                    start as int,
                    i as int,
                ).push(text@[i as int]));
                assert(split_nl(text@.take(i + 1)) == done.push(
                    text@.subrange(start as int, i + 1),
                ));
            }
        }
        i = i + 1;
    }
    let seg = text.substring_char(start, n);
    proof {
        assert(text@.take(n as int) == text@);
        assert(split_nl(text@) == done.push(seg@));
    }
    let ok = line_is_readable(seg);
    proof {
        if ok {
            assert forall|j: int| 0 <= j < split_nl(text@).len() implies line_readable(
                #[trigger] split_nl(text@)[j],
            ) by {
                if j < done.len() {
                    assert(split_nl(text@)[j] == done[j]);
                }
            }
        } else {
            assert(!line_readable(split_nl(text@)[done.len() as int]));
        }
    }
    ok
}

// ---------------------------------------------------------------------------
// Following playback
// ---------------------------------------------------------------------------

/// How many lines at the start of `s` begin no later than `elapsed`.
pub open spec fn started_run(s: Seq<((int, nat), Seq<char>)>, elapsed: u64) -> nat
    decreases s.len(),
{
    if s.len() == 0 {
        0
    } else if time_le(s[0].0, ms_time(elapsed)) {
        1 + started_run(s.drop_first(), elapsed)
    } else {
        0
    }
}

/// The line to highlight at `elapsed`: the last line of the leading run of
/// lines that have begun, or the first line when none has.
pub open spec fn line_at(s: Seq<((int, nat), Seq<char>)>, elapsed: u64) -> nat {
    let r = started_run(s, elapsed);
    if r == 0 {
        0
    } else {
        (r - 1) as nat
    }
}

proof fn lemma_started_run(s: Seq<((int, nat), Seq<char>)>, elapsed: u64, i: int)
    requires
        0 <= i <= s.len(),
        forall|j: int| 0 <= j < i ==> time_le(#[trigger] s[j].0, ms_time(elapsed)),
        i < s.len() ==> !time_le(s[i].0, ms_time(elapsed)),
    ensures
        started_run(s, elapsed) == i,
    decreases i,
{
    if i > 0 {
        let t = s.drop_first();
        assert forall|j: int| 0 <= j < i - 1 implies time_le(#[trigger] t[j].0, ms_time(elapsed)) by {
            assert(t[j] == s[j + 1]);
        }
        if i - 1 < t.len() {
            assert(t[i - 1] == s[i]);
        }
        lemma_started_run(t, elapsed, i - 1);
    }
}

/// Index of the lyric line to highlight when playback is at `elapsed_ms`.
pub fn lyric_index_at(lines: &Vec<LyricLine>, elapsed_ms: u64) -> (r: usize)
    ensures
        r == line_at(line_views(lines@), elapsed_ms),
        lines.len() > 0 ==> r < lines.len(),
{
    let now = LrcTime::from_ms(elapsed_ms);
    let mut idx: usize = 0;
    let mut i: usize = 0;
    while i < lines.len() && lines[i].time.le(&now)
        invariant
            i <= lines.len(),
            now@ == ms_time(elapsed_ms),
            forall|j: int| 0 <= j < i ==> time_le(#[trigger] line_views(lines@)[j].0, ms_time(elapsed_ms)),
            idx == if i == 0 {
                0
            } else {
                i - 1
            },
        decreases lines.len() - i,
    {
        idx = i;
        i = i + 1;
    }
    proof {
        lemma_started_run(line_views(lines@), elapsed_ms, i as int);
    }
    idx
}

/// Whether the lines of `s` come in order of time.
pub open spec fn sorted_by_time(s: Seq<((int, nat), Seq<char>)>) -> bool {
    forall|i: int, j: int| #![trigger s[i], s[j]] 0 <= i < j < s.len() ==> time_le(s[i].0, s[j].0)
}

proof fn lemma_insert_sorted(s: Seq<((int, nat), Seq<char>)>, x: ((int, nat), Seq<char>))
    requires
        sorted_by_time(s),
    ensures
        sorted_by_time(insert_by_time(s, x)),
        insert_by_time(s, x).to_multiset() == s.to_multiset().insert(x),
        insert_by_time(s, x).len() == s.len() + 1,
        forall|k: int| 0 <= k < insert_by_time(s, x).len() ==> #[trigger] insert_by_time(s, x)[k] == x
            || exists|i: int| 0 <= i < s.len() && s[i] == insert_by_time(s, x)[k],
    decreases s.len(),
{
    broadcast use vstd::seq_lib::group_to_multiset_ensures;
    if s.len() == 0 {
        assert(insert_by_time(s, x) == seq![x]);
        assert(seq![x] =~= Seq::<((int, nat), Seq<char>)>::empty().push(x));
    } else if time_le(s.last().0, x.0) {
        let r = s.push(x);
        assert forall|i: int, j: int| 0 <= i < j < r.len() implies time_le(#[trigger] r[i].0, #[trigger] r[j].0) by {
            if j == r.len() - 1 {
                assert(r[i] == s[i]);
                if i < s.len() - 1 {
                    lemma_time_le_trans(s[i].0, s.last().0, x.0);
                }
            } else {
                assert(r[i] == s[i] && r[j] == s[j]);
            }
        }
        assert forall|k: int| 0 <= k < r.len() implies r[k] == x
            || exists|i: int| 0 <= i < s.len() && s[i] == r[k] by {
            if k < s.len() {
                assert(s[k] == r[k]);
            }
        }
    } else {
        let t = s.drop_last();
        let l = s.last();
        assert(sorted_by_time(t));
        lemma_insert_sorted(t, x);
        let m = insert_by_time(t, x);
        let r = m.push(l);
        assert(r == insert_by_time(s, x));
        assert forall|k: int| 0 <= k < m.len() implies time_le(#[trigger] m[k].0, l.0) by {
            if m[k] != x {
                let i = choose|i: int| 0 <= i < t.len() && t[i] == m[k];
                assert(t[i] == s[i]);
                assert(time_le(s[i].0, s[s.len() - 1].0));
            } else {
                assert(!time_le(l.0, x.0));
            }
        }
        assert forall|i: int, j: int| 0 <= i < j < r.len() implies time_le(#[trigger] r[i].0, #[trigger] r[j].0) by {
            if j == r.len() - 1 {
                assert(r[i] == m[i]);
            } else {
                assert(r[i] == m[i] && r[j] == m[j]);
            }
        }
        assert(s == t.push(l));
        assert(r.to_multiset() == s.to_multiset().insert(x));
        assert forall|k: int| 0 <= k < r.len() implies r[k] == x
            || exists|i: int| 0 <= i < s.len() && s[i] == r[k] by {
            if k == r.len() - 1 {
                assert(s[s.len() - 1] == r[k]);
            } else {
                assert(r[k] == m[k]);
                if m[k] != x {
                    let i = choose|i: int| 0 <= i < t.len() && t[i] == m[k];
                    assert(s[i] == r[k]);
                }
            }
        }
    }
}

proof fn lemma_sort_by_time(s: Seq<((int, nat), Seq<char>)>)
    ensures
        sorted_by_time(sort_by_time(s)),
        sort_by_time(s).to_multiset() == s.to_multiset(),
    decreases s.len(),
{
    broadcast use vstd::seq_lib::group_to_multiset_ensures;
    if s.len() == 0 {
        assert(sort_by_time(s) =~= s);
    } else {
        lemma_sort_by_time(s.drop_last());
        lemma_insert_sorted(sort_by_time(s.drop_last()), s.last());
        assert(s == s.drop_last().push(s.last()));
    }
}

/// The reader yields the lines of a lyrics file in order of their time.
pub proof fn law_lyrics_in_time_order(text: Seq<char>)
    ensures
        sorted_by_time(lrc_lines(text)),
{
    lemma_sort_by_time(entries(split_nl(text)));
}

/// The reader yields exactly the timed lines of the file, each as often as
/// it occurs: ordering by time loses and adds nothing.
pub proof fn law_lyrics_keep_every_line(text: Seq<char>)
    ensures
        lrc_lines(text).to_multiset() == entries(split_nl(text)).to_multiset(),
{
    lemma_sort_by_time(entries(split_nl(text)));
}

proof fn lemma_started_run_bound(s: Seq<((int, nat), Seq<char>)>, elapsed: u64)
    ensures
        started_run(s, elapsed) <= s.len(),
        forall|j: int| 0 <= j < started_run(s, elapsed) ==> time_le(#[trigger] s[j].0, ms_time(elapsed)),
        started_run(s, elapsed) < s.len() ==> !time_le(s[started_run(s, elapsed) as int].0, ms_time(elapsed)),
    decreases s.len(),
{
    if s.len() > 0 && time_le(s[0].0, ms_time(elapsed)) {
        let t = s.drop_first();
        lemma_started_run_bound(t, elapsed);
        assert forall|j: int| 0 <= j < started_run(s, elapsed) implies time_le(#[trigger] s[j].0, ms_time(elapsed)) by {
            if j > 0 {
                assert(s[j] == t[j - 1]);
            }
        }
        if started_run(s, elapsed) < s.len() {
            assert(s[started_run(s, elapsed) as int] == t[started_run(t, elapsed) as int]);
        }
    }
}

/// A later playback position is not an earlier time.
proof fn lemma_ms_time_mono(a: u64, b: u64)
    requires
        a <= b,
    ensures
        time_le(ms_time(a), ms_time(b)),
{
    let p = pow10(3) as int;
    assert((a as int) * p <= (b as int) * p) by (nonlinear_arith)
        requires
            a <= b,
            p >= 0,
    ;
}

/// On lines in order of time, the highlighted line is one that has begun
/// (unless none has), the next one has not begun, and as playback moves on
/// the highlight never moves back.
pub proof fn law_highlight_follows_playback(s: Seq<((int, nat), Seq<char>)>, elapsed: u64, later: u64)
    requires
        sorted_by_time(s),
        s.len() > 0,
        elapsed <= later,
    ensures
        line_at(s, elapsed) < s.len(),
        time_le(s[0].0, ms_time(elapsed)) ==> time_le(s[line_at(s, elapsed) as int].0, ms_time(elapsed)),
        line_at(s, elapsed) + 1 < s.len() ==> !time_le(s[line_at(s, elapsed) as int + 1].0, ms_time(elapsed)),
        line_at(s, elapsed) <= line_at(s, later),
{
    lemma_started_run_bound(s, elapsed);
    lemma_started_run_bound(s, later);
    lemma_ms_time_mono(elapsed, later);
    let a = started_run(s, elapsed);
    let b = started_run(s, later);
    if a > b {
        assert(time_le(s[b as int].0, ms_time(elapsed)));
        lemma_time_le_trans(s[b as int].0, ms_time(elapsed), ms_time(later));
    }
    if a == 0 && s.len() > 1 {
        assert(!time_le(s[0].0, ms_time(elapsed)));
        assert(time_le(s[0].0, s[1].0));
        if time_le(s[1].0, ms_time(elapsed)) {
            lemma_time_le_trans(s[0].0, s[1].0, ms_time(elapsed));
        }
    }
}

} // verus!
