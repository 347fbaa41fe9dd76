//! The match probability in a Laya answer, read from the decimal text of a
//! JSON number: it must lie in [0, 1], and it makes a match from 1/2 up.
use crate::text::chars_of;
use vstd::prelude::*;

verus! {

pub open spec fn is_digit(c: char) -> bool {
    '0' <= c && c <= '9'
}

/// The value of a decimal digit.
pub open spec fn digit_value(c: char) -> nat {
    (c as int - '0' as int) as nat
}

/// The value of a run of decimal digits, most significant first.
pub open spec fn digits_value(s: Seq<char>) -> nat
    decreases s.len(),
{
    if s.len() == 0 {
        0
    } else {
        digits_value(s.drop_last()) * 10 + digit_value(s.last())
    }
}

pub open spec fn pow10(n: nat) -> nat
    decreases n,
{
    if n == 0 {
        1
    } else {
        10 * pow10((n - 1) as nat)
    }
}

pub open spec fn all_digits(s: Seq<char>) -> bool {
    forall|j: int| 0 <= j < s.len() ==> is_digit(#[trigger] s[j])
}

/// Where the run of digits that starts at `i` ends.
pub open spec fn run_end(s: Seq<char>, i: int) -> int
    decreases s.len() - i,
{
    if 0 <= i < s.len() && is_digit(s[i]) {
        run_end(s, i + 1)
    } else {
        i
    }
}

/// The parts of a number written `-`? digits (`.` digits)? ((`e`|`E`)
/// (`+`|`-`)? digits)?, with at least one digit before the exponent: its
/// sign, its digits without the point, the number of digits after the point,
/// the sign of the exponent and the exponent's digits.
pub struct NumberParts {
    pub negative: bool,
    pub digits: Seq<char>,
    pub fraction_len: nat,
    pub exponent_negative: bool,
    pub exponent: Seq<char>,
}

/// The parts of the number that `s` writes, or `None` when `s` is not
/// written that way.
pub open spec fn number_parts(s: Seq<char>) -> Option<NumberParts> {
    let a: int = if s.len() > 0 && s[0] == '-' { 1 } else { 0 };
    let b = run_end(s, a);
    let c: int = if b < s.len() && s[b] == '.' { b + 1 } else { b };
    let d = run_end(s, c);
    let has_exponent = d < s.len() && (s[d] == 'e' || s[d] == 'E');
    let g: int = if !has_exponent {
        d
    } else if d + 1 < s.len() && (s[d + 1] == '+' || s[d + 1] == '-') {
        d + 2
    } else {
        d + 1
    };
    let h = run_end(s, g);
    if (b - a) + (d - c) > 0 && h == s.len() && (has_exponent ==> h > g) {
        Some(
            NumberParts {
                negative: a == 1,
                digits: s.subrange(a, b) + s.subrange(c, d),
                fraction_len: (d - c) as nat,
                exponent_negative: has_exponent && s[d + 1] == '-',
                exponent: s.subrange(g, h),
            },
        )
    } else {
        None
    }
}

/// The decimal exponent of the number: its digits times ten to this power
/// is its magnitude.
pub open spec fn scale(p: NumberParts) -> int {
    let x = digits_value(p.exponent) as int;
    (if p.exponent_negative {
        -x
    } else {
        x
    }) - p.fraction_len
}

/// Whether `n` times ten to the power `e` is at most one.
pub open spec fn at_most_one(n: nat, e: int) -> bool {
    if e >= 0 {
        n * pow10(e as nat) <= 1
    } else {
        n <= pow10((-e) as nat)
    }
}

/// Whether `n` times ten to the power `e` is at least one half.
pub open spec fn at_least_half(n: nat, e: int) -> bool {
    if e >= 0 {
        2 * n * pow10(e as nat) >= 1
    } else {
        2 * n >= pow10((-e) as nat)
    }
}

/// The message for a probability that is no number in [0, 1].
pub open spec fn invalid_probability() -> Seq<char> {
    "Laya returned an invalid match probability."@
}

/// The verdict on the number that `s` writes: a probability in [0, 1]
/// matches from 1/2 up; anything else is an error.
pub open spec fn probability_verdict(s: Seq<char>) -> Result<bool, Seq<char>> {
    match number_parts(s) {
        None => Err(invalid_probability()),
        Some(p) => magnitude_verdict(digits_value(p.digits), p.negative, scale(p)),
    }
}

/// The verdict on the number `n` times ten to the power `e`, negated if
/// `negative`.
pub open spec fn magnitude_verdict(n: nat, negative: bool, e: int) -> Result<bool, Seq<char>> {
    if (negative && n > 0) || !at_most_one(n, e) {
        Err(invalid_probability())
    } else {
        Ok(at_least_half(n, e))
    }
}

/// A `Result<bool, String>` as a mathematical value.
pub open spec fn bool_result_view(r: Result<bool, String>) -> Result<bool, Seq<char>> {
    match r {
        Ok(b) => Ok(b),
        Err(m) => Err(m@),
    }
}

// ---------------------------------------------------------------------------
// Facts on digits and powers of ten
// ---------------------------------------------------------------------------

proof fn lemma_pow10_positive(n: nat)
    ensures
        pow10(n) >= 1,
    decreases n,
{
    if n > 0 {
        lemma_pow10_positive((n - 1) as nat);
    }
}

proof fn lemma_pow10_monotone(a: nat, b: nat)
    requires
        a <= b,
    ensures
        pow10(a) <= pow10(b),
    decreases b,
{
    if a < b {
        lemma_pow10_monotone(a, (b - 1) as nat);
        lemma_pow10_positive((b - 1) as nat);
    }
}

proof fn lemma_pow10_add(a: nat, b: nat)
    ensures
        pow10(a) * pow10(b) == pow10(a + b),
    decreases b,
{
    if b == 0 {
        assert(pow10(b) == 1);
        assert(a + b == a);
    } else {
        lemma_pow10_add(a, (b - 1) as nat);
        assert(pow10(a + b) == 10 * pow10((a + b - 1) as nat));
        assert((a + b - 1) as nat == a + (b - 1) as nat);
        assert(pow10(a) * pow10(b) == 10 * (pow10(a) * pow10((b - 1) as nat))) by (nonlinear_arith)
            requires
                pow10(b) == 10 * pow10((b - 1) as nat),
        ;
    }
}

/// A run of digits is worth less than ten to the power of its length.
proof fn lemma_digits_below(s: Seq<char>)
    requires
        all_digits(s),
    ensures
        digits_value(s) < pow10(s.len()),
    decreases s.len(),
{
    if s.len() > 0 {
        let t = s.drop_last();
        assert(all_digits(t)) by {
            assert forall|j: int| 0 <= j < t.len() implies is_digit(#[trigger] t[j]) by {
                assert(is_digit(s[j]));
            }
        }
        lemma_digits_below(t);
        assert(is_digit(s[s.len() - 1]));
        assert(digit_value(s.last()) <= 9);
        let v = digits_value(t);
        let p = pow10(t.len());
        assert(v * 10 + digit_value(s.last()) < 10 * p) by (nonlinear_arith)
            requires
                v < p,
                digit_value(s.last()) <= 9,
        ;
    }
}

/// The value of a run of digits from its first digit on.
proof fn lemma_digits_front(s: Seq<char>)
    requires
        s.len() > 0,
    ensures
        digits_value(s) == digit_value(s[0]) * pow10((s.len() - 1) as nat) + digits_value(
            s.skip(1),
        ),
    decreases s.len(),
{
    if s.len() == 1 {
        assert(s.drop_last().len() == 0);
        assert(s.skip(1).len() == 0);
        assert(digits_value(s.drop_last()) == 0);
        assert(digits_value(s.skip(1)) == 0);
        assert(pow10(0) == 1);
        assert(s.last() == s[0]);
        assert(digits_value(s) == digit_value(s[0]));
        assert(digit_value(s[0]) * pow10(0) == digit_value(s[0]));
    } else {
        let t = s.drop_last();
        lemma_digits_front(t);
        assert(s.skip(1).drop_last() =~= t.skip(1));
        assert(s.skip(1).last() == s.last());
        assert(t[0] == s[0]);
        let d0 = digit_value(s[0]);
        let p = pow10((t.len() - 1) as nat);
        let r = digits_value(t.skip(1));
        let l = digit_value(s.last());
        assert(digits_value(s) == digits_value(t) * 10 + l);
        assert(digits_value(s.skip(1)) == r * 10 + l);
        assert(pow10((s.len() - 1) as nat) == 10 * p);
        assert((d0 * p + r) * 10 + l == d0 * (10 * p) + (r * 10 + l)) by (nonlinear_arith);
    }
}

/// Leading zeros do not count.
proof fn lemma_leading_zeros(s: Seq<char>, z: int)
    requires
        0 <= z <= s.len(),
        forall|j: int| 0 <= j < z ==> s[j] == '0',
    ensures
        digits_value(s) == digits_value(s.skip(z)),
    decreases z,
{
    if z == 0 {
        assert(s.skip(0) =~= s);
    } else {
        lemma_digits_front(s);
        assert(s[0] == '0');
        assert(digit_value(s[0]) == 0);
        let t = s.skip(1);
        assert(digits_value(s) == digits_value(t)) by (nonlinear_arith)
            requires
                digits_value(s) == digit_value(s[0]) * pow10((s.len() - 1) as nat) + digits_value(t),
                digit_value(s[0]) == 0,
        ;
        assert forall|j: int| 0 <= j < z - 1 implies t[j] == '0' by {
            assert(s[j + 1] == '0');
        }
        lemma_leading_zeros(t, z - 1);
        assert(t.skip(z - 1) =~= s.skip(z));
    }
}

/// Only zeros are worth nothing.
proof fn lemma_zero_value(s: Seq<char>)
    requires
        all_digits(s),
    ensures
        digits_value(s) == 0 <==> forall|j: int| 0 <= j < s.len() ==> s[j] == '0',
    decreases s.len(),
{
    if s.len() > 0 {
        let t = s.drop_last();
        assert(all_digits(t)) by {
            assert forall|j: int| 0 <= j < t.len() implies is_digit(#[trigger] t[j]) by {
                assert(is_digit(s[j]));
            }
        }
        lemma_zero_value(t);
        assert(is_digit(s[s.len() - 1]));
        if forall|j: int| 0 <= j < s.len() ==> s[j] == '0' {
            assert forall|j: int| 0 <= j < t.len() implies t[j] == '0' by {
                assert(s[j] == '0');
            }
            assert(s[s.len() - 1] == '0');
        }
        if digits_value(s) == 0 {
            assert(digits_value(t) == 0);
            assert(digit_value(s.last()) == 0);
            assert forall|j: int| 0 <= j < s.len() implies s[j] == '0' by {
                if j < t.len() {
                    assert(t[j] == '0');
                }
            }
        }
    }
}


/// How a number of `k` significant digits, the first `lead`, compares with
/// one and with one half, by where its point stands (`k + e`).
proof fn lemma_magnitude(n: nat, k: nat, lead: nat, r: nat, e: int)
    requires
        k >= 1,
        1 <= lead <= 9,
        r < pow10((k - 1) as nat),
        n == lead * pow10((k - 1) as nat) + r,
    ensures
        n > 0,
        k + e >= 2 ==> !at_most_one(n, e),
        k + e == 1 ==> (at_most_one(n, e) <==> (lead == 1 && r == 0)) && at_least_half(n, e),
        k + e == 0 ==> at_most_one(n, e) && (at_least_half(n, e) <==> lead >= 5),
        k + e <= -1 ==> at_most_one(n, e) && !at_least_half(n, e),
{
    let q = pow10((k - 1) as nat);
    lemma_pow10_positive((k - 1) as nat);
    assert(n >= q) by (nonlinear_arith)
        requires
            n == lead * q + r,
            lead >= 1,
            q >= 1,
    ;
    assert(n < 10 * q) by (nonlinear_arith)
        requires
            n == lead * q + r,
            lead <= 9,
            r < q,
    ;
    if e >= 0 {
        let pe = pow10(e as nat);
        lemma_pow10_positive(e as nat);
        if k + e >= 2 {
            lemma_pow10_add((k - 1) as nat, e as nat);
            lemma_pow10_monotone(1, (k - 1 + e) as nat);
            assert(pow10(0) == 1);
            assert(pow10(1) == 10);
            assert(n * pe >= q * pe) by (nonlinear_arith)
                requires
                    n >= q,
                    pe >= 1,
            ;
        }
        if k + e == 1 {
            assert(k == 1 && e == 0);
            assert(q == 1 && pe == 1);
            assert(r == 0);
            assert(n == lead) by (nonlinear_arith)
                requires
                    n == lead * q + r,
                    q == 1,
                    r == 0,
            ;
        }
    } else {
        let f = (-e) as nat;
        let pf = pow10(f);
        if k + e >= 2 {
            lemma_pow10_monotone(f + 1, (k - 1) as nat);
            assert(pow10(f + 1) == 10 * pf);
            lemma_pow10_positive(f);
        }
        if k + e == 1 {
            assert(f == (k - 1) as nat);
            if n <= pf {
                assert(lead == 1 && r == 0) by (nonlinear_arith)
                    requires
                        n == lead * q + r,
                        n <= q,
                        lead >= 1,
                        q >= 1,
                ;
            }
        }
        if k + e == 0 {
            assert(f == k);
            assert(pf == 10 * q);
            if lead >= 5 {
                assert(2 * n >= 10 * q) by (nonlinear_arith)
                    requires
                        n == lead * q + r,
                        lead >= 5,
                ;
            } else {
                assert(2 * n < 10 * q) by (nonlinear_arith)
                    requires
                        n == lead * q + r,
                        lead <= 4,
                        r < q,
                ;
            }
        }
        if k + e <= -1 {
            lemma_pow10_monotone(k + 1, f);
            assert(pow10(k + 1) == 10 * pow10(k));
            assert(pow10(k) == 10 * q);
        }
    }
}


/// A run of digits ends within the text, and holds only digits.
proof fn lemma_run_end(s: Seq<char>, i: int)
    requires
        0 <= i <= s.len(),
    ensures
        i <= run_end(s, i) <= s.len(),
        forall|j: int| i <= j < run_end(s, i) ==> is_digit(#[trigger] s[j]),
    decreases s.len() - i,
{
    if i < s.len() && is_digit(s[i]) {
        lemma_run_end(s, i + 1);
    }
}

// ---------------------------------------------------------------------------
// Reading the number
// ---------------------------------------------------------------------------

fn digit_char(c: char) -> (r: bool)
    ensures
        r == is_digit(c),
{
    '0' <= c && c <= '9'
}

/// Where the run of digits from `i` ends.
fn digits_end(s: &Vec<char>, i: usize) -> (e: usize)
    requires
        i <= s.len(),
    ensures
        e as int == run_end(s@, i as int),
        i <= e <= s.len(),
{
    let mut j = i;
    while j < s.len() && digit_char(s[j])
        invariant
            i <= j <= s.len(),
            run_end(s@, i as int) == run_end(s@, j as int),
        decreases s.len() - j,
    {
        j = j + 1;
    }
    j
}

/// The digits `s[a..b]` followed by the digits `s[c..d]`.
fn joined_digits(s: &Vec<char>, a: usize, b: usize, c: usize, d: usize) -> (m: Vec<char>)
    requires
        a <= b <= s.len(),
        c <= d <= s.len(),
    ensures
        m@ == s@.subrange(a as int, b as int) + s@.subrange(c as int, d as int),
{
    let mut m: Vec<char> = Vec::new();
    let mut j = a;
    while j < b
        invariant
            a <= j <= b <= s.len(),
            m@ == s@.subrange(a as int, j as int),
        decreases b - j,
    {
        m.push(s[j]);
        j = j + 1;
    }
    let mut j = c;
    while j < d
        invariant
            c <= j <= d <= s.len(),
            m@ == s@.subrange(a as int, b as int) + s@.subrange(c as int, j as int),
        decreases d - j,
    {
        m.push(s[j]);
        j = j + 1;
    }
    m
}

/// The bound at which an exponent is no longer read digit by digit.
pub open spec fn exponent_cap() -> nat {
    0x40_0000_0000_0000_0000
}

/// The value of the exponent digits `s[g..h]`, or `exponent_cap()` when it
/// is at least that.
fn capped_exponent(s: &Vec<char>, g: usize, h: usize) -> (x: u128)
    requires
        g <= h <= s.len(),
        forall|j: int| g <= j < h ==> is_digit(#[trigger] s@[j]),
    ensures
        x == if digits_value(s@.subrange(g as int, h as int)) < exponent_cap() {
            digits_value(s@.subrange(g as int, h as int))
        } else {
            exponent_cap()
        },
{
    let cap: u128 = 0x40_0000_0000_0000_0000;
    let mut x: u128 = 0;
    let mut j = g;
    assert(s@.subrange(g as int, g as int).len() == 0);
    while j < h
        invariant
            g <= j <= h <= s.len(),
            forall|i: int| g <= i < h ==> is_digit(#[trigger] s@[i]),
            cap == exponent_cap(),
            x == if digits_value(s@.subrange(g as int, j as int)) < exponent_cap() {
                digits_value(s@.subrange(g as int, j as int))
            } else {
                exponent_cap()
            },
        decreases h - j,
    {
        let c = s[j];
        assert(is_digit(s@[j as int]));
        let dv: u128 = (c as u32 - '0' as u32) as u128;
        let ghost before = s@.subrange(g as int, j as int);
        let ghost after = s@.subrange(g as int, j + 1);
        assert(after.drop_last() =~= before);
        assert(after.last() == c);
        assert(digits_value(after) == digits_value(before) * 10 + dv);
        if x < cap {
            let y = x * 10 + dv;
            if y < cap {
                x = y;
            } else {
                x = cap;
            }
        } else {
            assert(digits_value(after) >= digits_value(before));
        }
        j = j + 1;
    }
    x
}


/// Where a point stands, as far as the verdict cares: at least two digits
/// before it, one, none, or zeros after it.
pub open spec fn placement(p: int) -> int {
    if p >= 2 {
        2
    } else if p <= -1 {
        -1
    } else {
        p
    }
}

/// The verdict on the digits `m`, whose first nonzero digit stands at `z`,
/// with the given sign, and with their point `position` places after that
/// digit's place (`e` being the decimal exponent of the digits).
fn decide(m: &Vec<char>, z: usize, negative: bool, position: i128, Ghost(e): Ghost<int>) -> (r: Result<
    bool,
    String,
>)
    requires
        all_digits(m@),
        z < m.len(),
        m@[z as int] != '0',
        forall|j: int| 0 <= j < z ==> m@[j] == '0',
        placement(position as int) == placement((m.len() - z) + e),
    ensures
        bool_result_view(r) == magnitude_verdict(digits_value(m@), negative, e),
{
    let ghost t = m@.skip(z as int);
    let ghost k = (m.len() - z) as nat;
    proof {
        lemma_leading_zeros(m@, z as int);
        lemma_digits_front(t);
        assert(all_digits(t.skip(1))) by {
            assert forall|j: int| 0 <= j < t.skip(1).len() implies is_digit(#[trigger] t.skip(1)[j]) by {
                assert(is_digit(m@[z + 1 + j]));
            }
        }
        lemma_digits_below(t.skip(1));
        lemma_zero_value(t.skip(1));
        assert(is_digit(m@[z as int]));
        assert(t[0] == m@[z as int]);
        lemma_magnitude(
            digits_value(m@),
            k,
            digit_value(t[0]),
            digits_value(t.skip(1)),
            e,
        );
    }
    let lead = m[z];
    if negative {
        return Err(String::from_str("Laya returned an invalid match probability."));
    }
    if position >= 2 {
        Err(String::from_str("Laya returned an invalid match probability."))
    } else if position == 1 {
        let mut only_zeros = true;
        let mut j = z + 1;
        while j < m.len()
            invariant
                z < j <= m.len(),
                only_zeros == forall|i: int| z < i < j ==> m@[i] == '0',
            decreases m.len() - j,
        {
            if m[j] != '0' {
                only_zeros = false;
            }
            j = j + 1;
        }
        proof {
            assert(only_zeros == forall|i: int| 0 <= i < t.skip(1).len() ==> t.skip(1)[i] == '0') by {
                if !only_zeros {
                    let i = choose|i: int| z < i < m.len() && m@[i] != '0';
                    assert(t.skip(1)[i - z - 1] == m@[i]);
                }
                if only_zeros {
                    assert forall|i: int| 0 <= i < t.skip(1).len() implies t.skip(1)[i] == '0' by {
                        assert(t.skip(1)[i] == m@[z + 1 + i]);
                    }
                }
            }
        }
        if lead == '1' && only_zeros {
            Ok(true)
        } else {
            Err(String::from_str("Laya returned an invalid match probability."))
        }
    } else if position == 0 {
        Ok(lead >= '5')
    } else {
        Ok(false)
    }
}


/// A capped exponent places the point as the exponent itself does.
proof fn lemma_placement(k: int, f: int, x: nat, capped: nat, negative: bool)
    requires
        0 <= k < 0x1_0000_0000_0000_0000,
        0 <= f < 0x1_0000_0000_0000_0000,
        capped == if x < exponent_cap() {
            x
        } else {
            exponent_cap()
        },
    ensures
        placement(k + (if negative { -(capped as int) } else { capped as int }) - f) == placement(
            k + (if negative { -(x as int) } else { x as int }) - f,
        ),
{
}

/// Where the parts of a number stand in `s`: the sign ends at `a`, the
/// integer digits are `s[a..b]`, the fraction digits `s[c..d]` and the
/// exponent digits `s[g..h]`.
fn number_layout(s: &Vec<char>) -> (r: Option<(usize, usize, usize, usize, usize, usize, bool)>)
    ensures
        match r {
            None => number_parts(s@) is None,
            Some((a, b, c, d, g, h, exponent_negative)) => {
                &&& a <= b <= s.len()
                &&& c <= d <= s.len()
                &&& g <= h <= s.len()
                &&& forall|j: int| a <= j < b ==> is_digit(#[trigger] s@[j])
                &&& forall|j: int| c <= j < d ==> is_digit(#[trigger] s@[j])
                &&& forall|j: int| g <= j < h ==> is_digit(#[trigger] s@[j])
                &&& number_parts(s@) == Some(
                    NumberParts {
                        negative: a == 1,
                        digits: s@.subrange(a as int, b as int) + s@.subrange(c as int, d as int),
                        fraction_len: (d - c) as nat,
                        exponent_negative,
                        exponent: s@.subrange(g as int, h as int),
                    },
                )
            },
        },
{
    let n = s.len();
    let a: usize = if n > 0 && s[0] == '-' {
        1
    } else {
        0
    };
    let b = digits_end(s, a);
    let c: usize = if b < n && s[b] == '.' {
        b + 1
    } else {
        b
    };
    let d = digits_end(s, c);
    let has_exponent = d < n && (s[d] == 'e' || s[d] == 'E');
    let g: usize = if !has_exponent {
        d
    } else if d + 1 < n && (s[d + 1] == '+' || s[d + 1] == '-') {
        d + 2
    } else {
        d + 1
    };
    let h = digits_end(s, g);
    if !((b > a || d > c) && h == n && (!has_exponent || h > g)) {
        return None;
    }
    let exponent_negative = has_exponent && s[d + 1] == '-';
    proof {
        lemma_run_end(s@, a as int);
        lemma_run_end(s@, c as int);
        lemma_run_end(s@, g as int);
    }
    Some((a, b, c, d, g, h, exponent_negative))
}

/// Reads the probability that `text` writes as a number (as a JSON number
/// is written out) and decides on it: an error unless it lies in [0, 1],
/// else whether it is at least 1/2.
pub fn probability_match(text: &str) -> (r: Result<bool, String>)
    ensures
        bool_result_view(r) == probability_verdict(text@),
{
    let s = chars_of(text);
    let (a, b, c, d, g, h, exponent_negative) = match number_layout(&s) {
        None => return Err(String::from_str("Laya returned an invalid match probability.")),
        Some(layout) => layout,
    };
    let m = joined_digits(&s, a, b, c, d);
    let ghost parts = number_parts(s@).unwrap();
    let ghost e = scale(parts);
    assert(all_digits(m@)) by {
        assert forall|j: int| 0 <= j < m@.len() implies is_digit(#[trigger] m@[j]) by {
            if j < b - a {
                assert(m@[j] == s@[a + j]);
            } else {
                assert(m@[j] == s@[c + j - (b - a)]);
            }
        }
    }
    let mut z: usize = 0;
    while z < m.len() && m[z] == '0'
        invariant
            z <= m.len(),
            forall|j: int| 0 <= j < z ==> m@[j] == '0',
        decreases m.len() - z,
    {
        z = z + 1;
    }
    if z == m.len() {
        proof {
            lemma_zero_value(m@);
            lemma_pow10_positive((-e) as nat);
        }
        return Ok(false);
    }
    let x = capped_exponent(&s, g, h);
    let k = m.len() - z;
    let fraction = d - c;
    let xi: i128 = if exponent_negative {
        -(x as i128)
    } else {
        x as i128
    };
    let position: i128 = k as i128 + xi - fraction as i128;
    proof {
        lemma_placement(
            k as int,
            fraction as int,
            digits_value(parts.exponent),
            x as nat,
            exponent_negative,
        );
    }
    decide(&m, z, a == 1, position, Ghost(e))
}

} // verus!
