//! Exact decimal numbers: the value of a reading as the response wrote it,
//! `mantissa * 10^exponent`, and its rendering as plain decimal text.

use vstd::prelude::*;

verus! {

/// A decimal number `mantissa * 10^exponent`.
#[derive(Clone, Copy, Debug, PartialEq, Eq, Structural)]
pub struct Decimal {
    pub mantissa: i64,
    pub exponent: i32,
}

/// `10^n`.
pub open spec fn pow10(n: nat) -> nat
    decreases n,
{
    if n == 0 {
        1
    } else {
        10 * pow10((n - 1) as nat)
    }
}

/// Magnitude of an integer.
pub open spec fn magnitude(x: int) -> nat {
    if x < 0 {
        (-x) as nat
    } else {
        x as nat
    }
}

/// The value of `d` is `numerator(d) / denominator(d)`.
pub open spec fn numerator(d: Decimal) -> int {
    if d.exponent >= 0 {
        d.mantissa * pow10(d.exponent as nat)
    } else {
        d.mantissa as int
    }
}

/// See `numerator`.
pub open spec fn denominator(d: Decimal) -> nat {
    if d.exponent >= 0 {
        1
    } else {
        pow10((-d.exponent) as nat)
    }
}

/// The character of a decimal digit.
pub open spec fn digit_char(n: nat) -> char {
    if n == 0 {
        '0'
    } else if n == 1 {
        '1'
    } else if n == 2 {
        '2'
    } else if n == 3 {
        '3'
    } else if n == 4 {
        '4'
    } else if n == 5 {
        '5'
    } else if n == 6 {
        '6'
    } else if n == 7 {
        '7'
    } else if n == 8 {
        '8'
    } else {
        '9'
    }
}

/// Decimal digits of a natural number, most significant first, no leading zero.
pub open spec fn nat_digits(n: nat) -> Seq<char>
    decreases n,
{
    if n < 10 {
        seq![digit_char(n)]
    } else {
        nat_digits(n / 10).push(digit_char(n % 10))
    }
}

/// `k` zero characters.
pub open spec fn zeros(k: nat) -> Seq<char> {
    Seq::new(k, |i: int| '0')
}

/// `s` with zeros put in front of it up to length `k`.
pub open spec fn pad_left(s: Seq<char>, k: nat) -> Seq<char> {
    if s.len() < k {
        zeros((k - s.len()) as nat) + s
    } else {
        s
    }
}

/// A fraction `f / 10^k` with its trailing zero digits removed: `(f', k')`
/// with `f / 10^k == f' / 10^k'`.
pub open spec fn strip_zeros(f: nat, k: nat) -> (nat, nat)
    decreases k,
{
    if k > 0 && f > 0 && f % 10 == 0 {
        strip_zeros(f / 10, (k - 1) as nat)
    } else {
        (f, k)
    }
}

/// The digits after the decimal point of the fraction `f / 10^k` (`0 < f < 10^k`).
pub open spec fn fraction_digits(f: nat, k: nat) -> Seq<char> {
    let (g, j) = strip_zeros(f, k);
    pad_left(nat_digits(g), j)
}

/// Plain decimal notation of `d`: an optional minus sign, the integer part,
/// and a point with the fraction only where the fraction is not zero.
pub open spec fn decimal_text(d: Decimal) -> Seq<char> {
    let a = magnitude(d.mantissa as int);
    let sign = if d.mantissa < 0 { seq!['-'] } else { Seq::<char>::empty() };
    if d.exponent >= 0 {
        if a == 0 {
            seq!['0']
        } else {
            sign + nat_digits(a) + zeros(d.exponent as nat)
        }
    } else {
        let k = (-d.exponent) as nat;
        let whole = a / pow10(k);
        let frac = a % pow10(k);
        if frac == 0 {
            sign + nat_digits(whole)
        } else {
            sign + nat_digits(whole) + seq!['.'] + fraction_digits(frac, k)
        }
    }
}

pub proof fn lemma_pow10_positive(n: nat)
    ensures
        pow10(n) >= 1,
    decreases n,
{
    if n > 0 {
        lemma_pow10_positive((n - 1) as nat);
    }
}

pub proof fn lemma_pow10_monotonic(i: nat, j: nat)
    requires
        i <= j,
    ensures
        pow10(i) <= pow10(j),
    decreases j,
{
    if i < j {
        lemma_pow10_monotonic(i, (j - 1) as nat);
        lemma_pow10_positive((j - 1) as nat);
    }
}

proof fn lemma_pow10_19()
    ensures
        pow10(19) == 10000000000000000000,
{
    reveal_with_fuel(pow10, 20);
}

/// `10^k` for `k <= 19`.
fn pow10_u64(k: u64) -> (r: u64)
    requires
        k <= 19,
    ensures
        r == pow10(k as nat),
{
    let mut r: u64 = 1;
    let mut i: u64 = 0;
    while i < k
        invariant
            i <= k <= 19,
            r == pow10(i as nat),
        decreases k - i,
    {
        proof {
            lemma_pow10_monotonic((i + 1) as nat, 19);
            lemma_pow10_19();
        }
        r = r * 10;
        i = i + 1;
    }
    r
}

/// The one-character text of a digit.
fn digit_str(n: u64) -> (r: &'static str)
    requires
        n < 10,
    ensures
        r@ == seq![digit_char(n as nat)],
{
    proof {
        reveal_strlit("0");
        reveal_strlit("1");
        reveal_strlit("2");
        reveal_strlit("3");
        reveal_strlit("4");
        reveal_strlit("5");
        reveal_strlit("6");
        reveal_strlit("7");
        reveal_strlit("8");
        reveal_strlit("9");
    }
    if n == 0 {
        "0"
    } else if n == 1 {
        "1"
    } else if n == 2 {
        "2"
    } else if n == 3 {
        "3"
    } else if n == 4 {
        "4"
    } else if n == 5 {
        "5"
    } else if n == 6 {
        "6"
    } else if n == 7 {
        "7"
    } else if n == 8 {
        "8"
    } else {
        "9"
    }
}

/// Appends the decimal digits of `n`.
pub fn push_digits(out: &mut String, n: u64)
    ensures
        final(out)@ == old(out)@ + nat_digits(n as nat),
    decreases n,
{
    if n >= 10 {
        push_digits(out, n / 10);
    }
    let d = digit_str(n % 10);
    out.append(d);
    proof {
        assert(final(out)@ =~= old(out)@ + nat_digits(n as nat));
    }
}

/// A number below `10^k` (`k >= 1`) has at most `k` digits.
proof fn lemma_digits_len(n: nat, k: nat)
    requires
        k >= 1,
        n < pow10(k),
    ensures
        nat_digits(n).len() <= k,
    decreases n,
{
    if n >= 10 {
        if k == 1 {
            reveal_with_fuel(pow10, 2);
        } else {
            lemma_digits_len(n / 10, (k - 1) as nat);
        }
    }
}

/// Number of decimal digits of `n`.
fn count_digits(n: u64) -> (r: u64)
    ensures
        r == nat_digits(n as nat).len(),
    decreases n,
{
    proof {
        lemma_pow10_monotonic(19, 20);
        lemma_pow10_19();
        reveal_with_fuel(pow10, 2);
        lemma_digits_len(n as nat, 20);
    }
    if n < 10 {
        1
    } else {
        let r = count_digits(n / 10);
        r + 1
    }
}

/// Appends `k` zeros.
fn push_zeros(out: &mut String, k: u64)
    ensures
        final(out)@ == old(out)@ + zeros(k as nat),
{
    let mut i: u64 = 0;
    proof {
        reveal_strlit("0");
        assert(out@ =~= old(out)@ + zeros(0));
    }
    while i < k
        invariant
            i <= k,
            out@ == old(out)@ + zeros(i as nat),
        decreases k - i,
    {
        out.append("0");
        proof {
            reveal_strlit("0");
            assert(out@ =~= old(out)@ + zeros((i + 1) as nat));
        }
        i = i + 1;
    }
}

impl Decimal {
    pub fn new(mantissa: i64, exponent: i32) -> (r: Decimal)
        ensures
            r == (Decimal { mantissa, exponent }),
    {
        Decimal { mantissa, exponent }
    }

    /// The number in plain decimal notation, as `21.5`, `-0.25` or `300`.
    pub fn to_string(&self) -> (r: String)
        ensures
            r@ == decimal_text(*self),
    {
        let mut out = String::new();
        let a: u64 = if self.mantissa < 0 {
            (0i128 - self.mantissa as i128) as u64
        } else {
            self.mantissa as u64
        };
        proof {
            reveal_strlit("-");
            reveal_strlit("0");
            reveal_strlit(".");
        }
        if self.mantissa < 0 {
            out.append("-");
        }
        if self.exponent >= 0 {
            if a == 0 {
                out.append("0");
                proof {
                    assert(out@ =~= decimal_text(*self));
                }
            } else {
                push_digits(&mut out, a);
                push_zeros(&mut out, self.exponent as u64);
                proof {
                    assert(out@ =~= decimal_text(*self));
                }
            }
            out
        } else {
            let k: u64 = (0i64 - self.exponent as i64) as u64;
            let ghost kk = k as nat;
            let (whole, frac) = if k >= 20 {
                proof {
                    lemma_pow10_monotonic(19, kk);
                    lemma_pow10_19();
                    vstd::arithmetic::div_mod::lemma_small_mod(a as nat, pow10(kk));
                    vstd::arithmetic::div_mod::lemma_basic_div(a as int, pow10(kk) as int);
                }
                (0u64, a)
            } else {
                let p = pow10_u64(k);
                proof {
                    lemma_pow10_positive(kk);
                }
                (a / p, a % p)
            };
            assert(whole == a as nat / pow10(kk));
            assert(frac == a as nat % pow10(kk));
            push_digits(&mut out, whole);
            if frac == 0 {
                proof {
                    assert(out@ =~= decimal_text(*self));
                }
                out
            } else {
                out.append(".");
                Self::push_fraction(&mut out, frac, k);
                proof {
                    assert(out@ =~= decimal_text(*self));
                }
                out
            }
        }
    }

    /// Appends the digits of the fraction `f / 10^k`, without trailing zeros.
    fn push_fraction(out: &mut String, f: u64, k: u64)
        requires
            f > 0,
        ensures
            final(out)@ == old(out)@ + fraction_digits(f as nat, k as nat),
    {
        let mut g = f;
        let mut j = k;
        while j > 0 && g % 10 == 0
            invariant
                g > 0,
                strip_zeros(g as nat, j as nat) == strip_zeros(f as nat, k as nat),
            decreases j,
        {
            g = g / 10;
            j = j - 1;
        }
        let n = count_digits(g);
        if n < j {
            push_zeros(out, j - n);
        }
        push_digits(out, g);
        proof {
            assert(final(out)@ =~= old(out)@ + fraction_digits(f as nat, k as nat));
        }
    }
}

/// A decimal digit character.
pub open spec fn is_digit(c: char) -> bool {
    '0' <= c && c <= '9'
}

/// `v` followed by the digits `ds`: `v * 10^|ds| + value(ds)`.
pub open spec fn fold_digits(v: nat, ds: Seq<char>) -> nat
    decreases ds.len(),
{
    if ds.len() == 0 {
        v
    } else {
        fold_digits(v, ds.drop_last()) * 10 + ((ds.last() as u32 - '0' as u32) as nat)
    }
}

/// The number of digit characters of `s` from index `i` on.
pub open spec fn digit_run(s: Seq<char>, i: int) -> nat
    decreases s.len() - i,
{
    if 0 <= i < s.len() && is_digit(s[i]) {
        1 + digit_run(s, i + 1)
    } else {
        0
    }
}

/// Largest exponent digits value read.
pub const EXPONENT_DIGITS_CAP: u64 = 10_000_000_000;

/// The number a JSON-style literal writes: an optional `-`, integer
/// digits, an optional `.` with fraction digits, an optional `e` or `E`
/// with an optional sign and exponent digits, and nothing else. `None` for
/// other text, for a value whose digits do not fit an `i64` mantissa, for
/// exponent digits above `EXPONENT_DIGITS_CAP`, and for an exponent out of
/// `i32`.
pub open spec fn literal_value(s: Seq<char>) -> Option<Decimal> {
    let neg = s.len() > 0 && s[0] == '-';
    let i0: int = if neg { 1 } else { 0 };
    let i1 = i0 + digit_run(s, i0);
    let has_frac = i1 < s.len() && s[i1] == '.';
    let i2 = if has_frac { i1 + 1 + digit_run(s, i1 + 1) } else { i1 };
    let has_exp = i2 < s.len() && (s[i2] == 'e' || s[i2] == 'E');
    let signed_exp = has_exp && i2 + 1 < s.len() && (s[i2 + 1] == '+' || s[i2 + 1] == '-');
    let exp_neg = signed_exp && s[i2 + 1] == '-';
    let j = if signed_exp { i2 + 2 } else { i2 + 1 };
    let end = if has_exp { j + digit_run(s, j) } else { i2 };
    let frac_len = if has_frac { i2 - (i1 + 1) } else { 0 };
    let m = fold_digits(
        fold_digits(0, s.subrange(i0, i1)),
        if has_frac { s.subrange(i1 + 1, i2) } else { Seq::empty() },
    );
    let e = if has_exp { fold_digits(0, s.subrange(j, end)) } else { 0 };
    let exponent = (if exp_neg { -e } else { e as int }) - frac_len;
    if i1 == i0 || (has_frac && i2 == i1 + 1) || (has_exp && end == j) || end != s.len() {
        None
    } else if m > (if neg { 0x8000_0000_0000_0000nat } else { 0x7fff_ffff_ffff_ffffnat }) || e
        > EXPONENT_DIGITS_CAP || exponent < i32::MIN || exponent > i32::MAX {
        None
    } else {
        Some(Decimal { mantissa: (if neg { -m } else { m as int }) as i64, exponent: exponent as i32 })
    }
}

/// Reads the digits of `s` from `start`, appending them to the number `v`
/// (held in `acc` up to `cap`; beyond it only `big` records it).
fn scan_digits(s: &str, n: usize, start: usize, acc: u128, big: bool, cap: u128, v: Ghost<nat>) -> (r: (
    usize,
    u128,
    bool,
))
    requires
        n == s@.len(),
        start <= n,
        cap <= 0x1_0000_0000_0000_0000_0000u128,
        big ==> v@ > cap,
        !big ==> acc == v@ && acc <= cap,
    ensures
        r.0 == start + digit_run(s@, start as int),
        r.0 <= n,
        r.2 ==> fold_digits(v@, s@.subrange(start as int, r.0 as int)) > cap,
        !r.2 ==> r.1 == fold_digits(v@, s@.subrange(start as int, r.0 as int)) && r.1 <= cap,
{
    let mut i = start;
    let mut acc = acc;
    let mut big = big;
    proof {
        assert(s@.subrange(start as int, start as int).len() == 0);
    }
    while i < n && is_digit_char(s.get_char(i))
        invariant
            n == s@.len(),
            start <= i <= n,
            cap <= 0x1_0000_0000_0000_0000_0000u128,
            digit_run(s@, start as int) == (i - start) + digit_run(s@, i as int),
            big ==> fold_digits(v@, s@.subrange(start as int, i as int)) > cap,
            !big ==> acc == fold_digits(v@, s@.subrange(start as int, i as int)) && acc <= cap,
        decreases n - i,
    {
        let c = s.get_char(i);
        let d = (c as u32 - '0' as u32) as u128;
        proof {
            let p1 = s@.subrange(start as int, i + 1);
            assert(p1.drop_last() =~= s@.subrange(start as int, i as int));
            assert(p1.last() == c);
        }
        if !big {
            let next = acc * 10 + d;
            if next > cap {
                big = true;
            } else {
                acc = next;
            }
        }
        i = i + 1;
    }
    (i, acc, big)
}

fn is_digit_char(c: char) -> (r: bool)
    ensures
        r == is_digit(c),
{
    '0' <= c && c <= '9'
}

impl Decimal {
    /// Reads a number written as a JSON-style literal; see `literal_value`.
    pub fn parse(text: &str) -> (r: Option<Decimal>)
        ensures
            r == literal_value(text@),
    {
        let n = text.unicode_len();
        let ghost s = text@;
        let neg = n > 0 && text.get_char(0) == '-';
        let i0: usize = if neg { 1 } else { 0 };
        let mcap: u128 = 0x8000_0000_0000_0000u128;
        let (i1, m1, big1) = scan_digits(text, n, i0, 0, false, mcap, Ghost(0nat));
        let has_frac = i1 < n && text.get_char(i1) == '.';
        let (i2, m, mbig) = if has_frac {
            scan_digits(text, n, i1 + 1, m1, big1, mcap, Ghost(fold_digits(0, s.subrange(i0 as int, i1 as int))))
        } else {
            (i1, m1, big1)
        };
        proof {
            if !has_frac {
                assert(fold_digits(fold_digits(0, s.subrange(i0 as int, i1 as int)), Seq::<char>::empty())
                    == fold_digits(0, s.subrange(i0 as int, i1 as int)));
            }
        }
        let has_exp = i2 < n && (text.get_char(i2) == 'e' || text.get_char(i2) == 'E');
        let signed_exp = has_exp && i2 + 1 < n && (text.get_char(i2 + 1) == '+' || text.get_char(i2 + 1) == '-');
        let exp_neg = signed_exp && text.get_char(i2 + 1) == '-';
        let j: usize = if !has_exp { i2 } else if signed_exp { i2 + 2 } else { i2 + 1 };
        let ecap: u128 = EXPONENT_DIGITS_CAP as u128;
        let (end, e, ebig) = if has_exp {
            scan_digits(text, n, j, 0, false, ecap, Ghost(0nat))
        } else {
            (i2, 0u128, false)
        };
        let frac_len: usize = if has_frac { i2 - (i1 + 1) } else { 0 };
        if i1 == i0 || (has_frac && i2 == i1 + 1) || (has_exp && end == j) || end != n {
            return None;
        }
        let limit: u128 = if neg { 0x8000_0000_0000_0000u128 } else { 0x7fff_ffff_ffff_ffffu128 };
        if mbig || m > limit || ebig {
            return None;
        }
        let exponent: i128 = (if exp_neg { 0 - (e as i128) } else { e as i128 }) - frac_len as i128;
        if exponent < -0x8000_0000i128 || exponent > 0x7fff_ffffi128 {
            return None;
        }
        let mantissa: i64 = if neg { (0i128 - m as i128) as i64 } else { m as i64 };
        Some(Decimal { mantissa, exponent: exponent as i32 })
    }
}

} // verus!
