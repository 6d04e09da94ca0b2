//! Fixed-point decimal numbers, as the exchange quotes prices and sizes.
//!
//! A `Decimal` holds the value `mantissa / 10^scale`. Arithmetic, ordering
//! and text rendering are done by the `rust_decimal` crate.

use vstd::prelude::*;

verus! {

/// Largest scale (digits after the point) a decimal may carry.
pub const MAX_SCALE: u32 = 28;

/// Largest magnitude of a mantissa: 2^96 - 1.
pub const MAX_MANTISSA: i128 = 0xFFFF_FFFF_FFFF_FFFF_FFFF_FFFF;

pub open spec fn pow10(n: nat) -> int
    decreases n,
{
    if n == 0 {
        1
    } else {
        10 * pow10((n - 1) as nat)
    }
}

pub proof fn lemma_pow10_positive(n: nat)
    ensures
        pow10(n) >= 1,
    decreases n,
{
    if n > 0 {
        lemma_pow10_positive((n - 1) as nat);
    }
}

pub proof fn lemma_pow10_monotone(a: nat, b: nat)
    requires
        a <= b,
    ensures
        pow10(a) <= pow10(b),
    decreases b,
{
    if a < b {
        lemma_pow10_monotone(a, (b - 1) as nat);
        lemma_pow10_positive((b - 1) as nat);
    }
}

proof fn lemma_pow10_max()
    ensures
        pow10(MAX_SCALE as nat) == 10_000_000_000_000_000_000_000_000_000int,
{
    reveal_with_fuel(pow10, 29);
}

/// `lt` is transitive.
pub proof fn lemma_lt_transitive(a: Decimal, b: Decimal, c: Decimal)
    requires
        a.lt(b),
        b.lt(c),
    ensures
        a.lt(c),
{
    let pa = pow10(a.scale as nat);
    let pb = pow10(b.scale as nat);
    let pc = pow10(c.scale as nat);
    lemma_pow10_positive(a.scale as nat);
    lemma_pow10_positive(b.scale as nat);
    lemma_pow10_positive(c.scale as nat);
    assert(a.mantissa * pb * pc < b.mantissa * pa * pc) by (nonlinear_arith)
        requires
            a.mantissa * pb < b.mantissa * pa,
            pc >= 1,
    ;
    assert(b.mantissa * pc * pa < c.mantissa * pb * pa) by (nonlinear_arith)
        requires
            b.mantissa * pc < c.mantissa * pb,
            pa >= 1,
    ;
    assert(a.mantissa * pc < c.mantissa * pa) by (nonlinear_arith)
        requires
            a.mantissa * pb * pc < b.mantissa * pa * pc,
            b.mantissa * pc * pa < c.mantissa * pb * pa,
            pb >= 1,
    ;
}

/// At one scale, decimals order as their mantissas.
pub proof fn lemma_lt_same_scale(a: Decimal, b: Decimal)
    requires
        a.scale == b.scale,
    ensures
        a.lt(b) == (a.mantissa < b.mantissa),
{
    let p = pow10(a.scale as nat);
    lemma_pow10_positive(a.scale as nat);
    assert((a.mantissa * p < b.mantissa * p) == (a.mantissa < b.mantissa)) by (nonlinear_arith)
        requires
            p >= 1,
    ;
}

/// Two numbers are ordered one way, the other, or equal, and only one of these.
pub proof fn lemma_trichotomy(a: Decimal, b: Decimal)
    ensures
        a.lt(b) || b.lt(a) || a.same_value(b),
        !(a.lt(b) && b.lt(a)),
        !(a.lt(b) && a.same_value(b)),
        !(b.lt(a) && a.same_value(b)),
        a.same_value(b) == b.same_value(a),
        a.same_value(a),
        !a.lt(a),
{
}

/// A decimal number `mantissa / 10^scale`.
#[derive(Clone, Copy, Debug)]
pub struct Decimal {
    pub mantissa: i128,
    pub scale: u32,
}

/// The sum that `rust_decimal` computes, or `None` where it overflows.
pub uninterp spec fn decimal_sum(a: Decimal, b: Decimal) -> Option<Decimal>;

/// The difference that `rust_decimal` computes, or `None` where it overflows.
pub uninterp spec fn decimal_difference(a: Decimal, b: Decimal) -> Option<Decimal>;

/// The product that `rust_decimal` computes, or `None` where it overflows.
pub uninterp spec fn decimal_product(a: Decimal, b: Decimal) -> Option<Decimal>;

/// The quotient that `rust_decimal` computes, or `None` on a zero divisor or overflow.
pub uninterp spec fn decimal_quotient(a: Decimal, b: Decimal) -> Option<Decimal>;

pub open spec fn digit_char(d: int) -> char {
    seq!['0', '1', '2', '3', '4', '5', '6', '7', '8', '9'][d]
}

/// The decimal text of a natural number, without leading zeros.
pub open spec fn decimal_text(n: nat) -> Seq<char>
    decreases n,
{
    if n < 10 {
        seq![digit_char(n as int)]
    } else {
        decimal_text(n / 10) + seq![digit_char((n % 10) as int)]
    }
}

/// The digits of a natural number, most significant first; none for zero.
pub open spec fn digits(n: nat) -> Seq<char> {
    if n == 0 {
        Seq::<char>::empty()
    } else {
        decimal_text(n)
    }
}

pub open spec fn sign_text(d: Decimal) -> Seq<char> {
    if d.mantissa < 0 {
        seq!['-']
    } else {
        Seq::<char>::empty()
    }
}

/// The digits of the mantissa's magnitude, with leading zeros up to at least
/// `scale` digits.
pub open spec fn padded_digits(d: Decimal) -> Seq<char> {
    let ds = digits(d.abs_mantissa() as nat);
    if ds.len() < d.scale {
        Seq::new((d.scale - ds.len()) as nat, |i: int| '0') + ds
    } else {
        ds
    }
}

/// The digits before the point: `0` where there are none.
pub open spec fn whole_digits(d: Decimal) -> Seq<char> {
    let p = padded_digits(d);
    let w = p.len() - d.scale;
    if w == 0 {
        seq!['0']
    } else {
        p.take(w)
    }
}

/// The plain rendering of `rust_decimal` (`Display`): sign, whole digits,
/// and for a positive scale a point and exactly `scale` fraction digits
/// (`0.10` at scale 2, `5` at scale 0, `-123.45`).
pub open spec fn plain_text(d: Decimal) -> Seq<char> {
    let p = padded_digits(d);
    sign_text(d) + whole_digits(d) + if d.scale == 0 {
        Seq::<char>::empty()
    } else {
        seq!['.'] + p.skip(p.len() - d.scale)
    }
}

/// The rendering of `rust_decimal` with a precision of one: sign, whole
/// digits, a point and the first fraction digit (`0` at scale 0).
pub open spec fn one_place_text(d: Decimal) -> Seq<char> {
    let p = padded_digits(d);
    let w = p.len() - d.scale;
    sign_text(d) + whole_digits(d) + seq!['.'] + seq![if w < p.len() { p[w] } else { '0' }]
}

/// A signed integer in decimal.
pub open spec fn signed_text(e: int) -> Seq<char> {
    if e < 0 {
        seq!['-'] + decimal_text((-e) as nat)
    } else {
        decimal_text(e as nat)
    }
}

/// The scientific rendering of `rust_decimal` (`LowerExp`): `0e0` for zero;
/// otherwise sign, the first digit, then a point and the other digits unless
/// they are all zeros, then `e` and the exponent (`7.5e-5`, `1e-10`).
pub open spec fn exponent_text(d: Decimal) -> Seq<char> {
    let ds = digits(d.abs_mantissa() as nat);
    let rest = ds.skip(1);
    if d.mantissa == 0 {
        seq!['0', 'e', '0']
    } else {
        sign_text(d) + ds.take(1) + (if forall|i: int| 0 <= i < rest.len() ==> rest[i] == '0' {
            Seq::<char>::empty()
        } else {
            seq!['.'] + rest
        }) + seq!['e'] + signed_text(ds.len() - 1 - d.scale)
    }
}

impl Decimal {
    /// Within the range `rust_decimal` can represent.
    pub open spec fn wf(self) -> bool {
        &&& -MAX_MANTISSA <= self.mantissa <= MAX_MANTISSA
        &&& self.scale <= MAX_SCALE
    }

    /// `self < other` as numbers, whatever the two scales.
    pub open spec fn lt(self, other: Decimal) -> bool {
        self.mantissa * pow10(other.scale as nat) < other.mantissa * pow10(self.scale as nat)
    }

    /// `self` and `other` denote the same number.
    pub open spec fn same_value(self, other: Decimal) -> bool {
        self.mantissa * pow10(other.scale as nat) == other.mantissa * pow10(self.scale as nat)
    }

    pub open spec fn le(self, other: Decimal) -> bool {
        self.lt(other) || self.same_value(other)
    }

    pub open spec fn is_zero_spec(self) -> bool {
        self.mantissa == 0
    }

    pub open spec fn is_positive_spec(self) -> bool {
        self.mantissa > 0
    }

    /// The number has no fractional part.
    pub open spec fn is_integral_spec(self) -> bool {
        self.abs_mantissa() % pow10(self.scale as nat) == 0
    }

    pub open spec fn abs_mantissa(self) -> int {
        if self.mantissa < 0 {
            -self.mantissa
        } else {
            self.mantissa as int
        }
    }

    /// The decimal `num / 10^scale`.
    pub fn new(num: i64, scale: u32) -> (r: Decimal)
        requires
            scale <= MAX_SCALE,
        ensures
            r.mantissa == num,
            r.scale == scale,
            r.wf(),
    {
        Decimal { mantissa: num as i128, scale }
    }

    /// The decimal `mantissa / 10^scale`, if it lies within range.
    pub fn from_parts(mantissa: i128, scale: u32) -> (r: Option<Decimal>)
        ensures
            r == (if (Decimal { mantissa, scale }).wf() {
                Some(Decimal { mantissa, scale })
            } else {
                None
            }),
    {
        if scale <= MAX_SCALE && -MAX_MANTISSA <= mantissa && mantissa <= MAX_MANTISSA {
            Some(Decimal { mantissa, scale })
        } else {
            None
        }
    }

    pub fn zero() -> (r: Decimal)
        ensures
            r.mantissa == 0,
            r.scale == 0,
            r.wf(),
    {
        Decimal { mantissa: 0, scale: 0 }
    }

    pub fn is_zero(&self) -> (r: bool)
        ensures
            r == self.is_zero_spec(),
    {
        self.mantissa == 0
    }

    pub fn is_positive(&self) -> (r: bool)
        ensures
            r == self.is_positive_spec(),
    {
        self.mantissa > 0
    }

    /// Whether the number has no fractional part.
    pub fn is_integral(&self) -> (r: bool)
        requires
            self.wf(),
        ensures
            r == self.is_integral_spec(),
    {
        let mut p: u128 = 1;
        let mut i: u32 = 0;
        proof {
            lemma_pow10_max();
        }
        while i < self.scale
            invariant
                i <= self.scale <= MAX_SCALE,
                p == pow10(i as nat),
                pow10(MAX_SCALE as nat) == 10_000_000_000_000_000_000_000_000_000int,
            decreases self.scale - i,
        {
            proof {
                lemma_pow10_monotone((i + 1) as nat, MAX_SCALE as nat);
            }
            p = p * 10;
            i = i + 1;
        }
        proof {
            lemma_pow10_positive(self.scale as nat);
        }
        let a: u128 = if self.mantissa < 0 {
            (-self.mantissa) as u128
        } else {
            self.mantissa as u128
        };
        a % p == 0
    }

    /// Compares two decimals as numbers.
    pub fn compare(&self, other: &Decimal) -> (r: core::cmp::Ordering)
        requires
            self.wf(),
            other.wf(),
        ensures
            (r == core::cmp::Ordering::Less) == self.lt(*other),
            (r == core::cmp::Ordering::Equal) == self.same_value(*other),
            (r == core::cmp::Ordering::Greater) == other.lt(*self),
    {
        rust_decimal_compare(self, other)
    }

    pub fn less_than(&self, other: &Decimal) -> (r: bool)
        requires
            self.wf(),
            other.wf(),
        ensures
            r == self.lt(*other),
    {
        match self.compare(other) {
            core::cmp::Ordering::Less => true,
            _ => false,
        }
    }

    pub fn equals(&self, other: &Decimal) -> (r: bool)
        requires
            self.wf(),
            other.wf(),
        ensures
            r == self.same_value(*other),
    {
        match self.compare(other) {
            core::cmp::Ordering::Equal => true,
            _ => false,
        }
    }
}

/// Relies on `rust_decimal::Decimal::cmp`, which orders decimals by their
/// numeric value, rescaling the operand with the smaller scale.
#[verifier::external_body]
fn rust_decimal_compare(a: &Decimal, b: &Decimal) -> (r: core::cmp::Ordering)
    requires
        a.wf(),
        b.wf(),
    ensures
        (r == core::cmp::Ordering::Less) == a.lt(*b),
        (r == core::cmp::Ordering::Equal) == a.same_value(*b),
        (r == core::cmp::Ordering::Greater) == b.lt(*a),
{
    let x = rust_decimal::Decimal::from_i128_with_scale(a.mantissa, a.scale);
    let y = rust_decimal::Decimal::from_i128_with_scale(b.mantissa, b.scale);
    x.cmp(&y)
}

impl Decimal {
    /// `self + other`, or `None` where the sum overflows.
    pub fn checked_add(&self, other: &Decimal) -> (r: Option<Decimal>)
        requires
            self.wf(),
            other.wf(),
        ensures
            r == decimal_sum(*self, *other),
            r matches Some(d) ==> d.wf(),
    {
        rust_decimal_add(self, other)
    }

    /// `self - other`, or `None` where the difference overflows.
    pub fn checked_sub(&self, other: &Decimal) -> (r: Option<Decimal>)
        requires
            self.wf(),
            other.wf(),
        ensures
            r == decimal_difference(*self, *other),
            r matches Some(d) ==> d.wf(),
            self.scale == other.scale && self.mantissa >= 0 && other.mantissa >= 0 ==> (r matches Some(d)
                && d.mantissa == self.mantissa - other.mantissa && d.scale == self.scale),
    {
        rust_decimal_sub(self, other)
    }

    /// `self * other`, or `None` where the product overflows.
    pub fn checked_mul(&self, other: &Decimal) -> (r: Option<Decimal>)
        requires
            self.wf(),
            other.wf(),
        ensures
            r == decimal_product(*self, *other),
            r matches Some(d) ==> d.wf(),
    {
        rust_decimal_mul(self, other)
    }

    /// `self / other`, or `None` on a zero divisor or overflow.
    pub fn checked_div(&self, other: &Decimal) -> (r: Option<Decimal>)
        requires
            self.wf(),
            other.wf(),
        ensures
            r == decimal_quotient(*self, *other),
            r matches Some(d) ==> d.wf(),
            other.is_zero_spec() ==> r.is_none(),
    {
        rust_decimal_div(self, other)
    }

    /// The plain decimal text of the number, such as `0.1` or `5`.
    pub fn to_plain_string(&self) -> (r: String)
        requires
            self.wf(),
        ensures
            r@ == plain_text(*self),
    {
        rust_decimal_display(self)
    }
}

// Each wrapper below rebuilds the outside value with
// `rust_decimal::Decimal::from_i128_with_scale`, which panics only outside the
// range that `wf` states, and reads a result back through `mantissa` and
// `scale`, which stay within 96 bits and 28 digits.

/// Relies on `rust_decimal::Decimal::checked_add`.
#[verifier::external_body]
fn rust_decimal_add(a: &Decimal, b: &Decimal) -> (r: Option<Decimal>)
    requires
        a.wf(),
        b.wf(),
    ensures
        r == decimal_sum(*a, *b),
        r matches Some(d) ==> d.wf(),
{
    let x = rust_decimal::Decimal::from_i128_with_scale(a.mantissa, a.scale);
    let y = rust_decimal::Decimal::from_i128_with_scale(b.mantissa, b.scale);
    match x.checked_add(y) {
        Some(d) => Some(Decimal { mantissa: d.mantissa(), scale: d.scale() }),
        None => None,
    }
}

/// Relies on `rust_decimal::Decimal::checked_sub`. Two non-negative operands
/// of one scale are subtracted exactly at that scale: no path of its
/// `add_sub_internal` rescales or rounds them.
#[verifier::external_body]
fn rust_decimal_sub(a: &Decimal, b: &Decimal) -> (r: Option<Decimal>)
    requires
        a.wf(),
        b.wf(),
    ensures
        r == decimal_difference(*a, *b),
        r matches Some(d) ==> d.wf(),
        r == (if a.scale == b.scale && a.mantissa >= 0 && b.mantissa >= 0 {
            Some(Decimal { mantissa: (a.mantissa - b.mantissa) as i128, scale: a.scale })
        } else {
            decimal_difference(*a, *b)
        }),
{
    let x = rust_decimal::Decimal::from_i128_with_scale(a.mantissa, a.scale);
    let y = rust_decimal::Decimal::from_i128_with_scale(b.mantissa, b.scale);
    match x.checked_sub(y) {
        Some(d) => Some(Decimal { mantissa: d.mantissa(), scale: d.scale() }),
        None => None,
    }
}

/// Relies on `rust_decimal::Decimal::checked_mul`.
#[verifier::external_body]
fn rust_decimal_mul(a: &Decimal, b: &Decimal) -> (r: Option<Decimal>)
    requires
        a.wf(),
        b.wf(),
    ensures
        r == decimal_product(*a, *b),
        r matches Some(d) ==> d.wf(),
{
    let x = rust_decimal::Decimal::from_i128_with_scale(a.mantissa, a.scale);
    let y = rust_decimal::Decimal::from_i128_with_scale(b.mantissa, b.scale);
    match x.checked_mul(y) {
        Some(d) => Some(Decimal { mantissa: d.mantissa(), scale: d.scale() }),
        None => None,
    }
}

/// Relies on `rust_decimal::Decimal::checked_div`, which returns `None` for a
/// zero divisor.
#[verifier::external_body]
fn rust_decimal_div(a: &Decimal, b: &Decimal) -> (r: Option<Decimal>)
    requires
        a.wf(),
        b.wf(),
    ensures
        r == decimal_quotient(*a, *b),
        r matches Some(d) ==> d.wf(),
        b.is_zero_spec() ==> r.is_none(),
{
    let x = rust_decimal::Decimal::from_i128_with_scale(a.mantissa, a.scale);
    let y = rust_decimal::Decimal::from_i128_with_scale(b.mantissa, b.scale);
    match x.checked_div(y) {
        Some(d) => Some(Decimal { mantissa: d.mantissa(), scale: d.scale() }),
        None => None,
    }
}

/// Relies on the `Display` impl of `rust_decimal::Decimal` (`str::to_str_internal`
/// without a precision, then `pad_integral` for the sign).
#[verifier::external_body]
fn rust_decimal_display(d: &Decimal) -> (r: String)
    requires
        d.wf(),
    ensures
        r@ == plain_text(*d),
{
    rust_decimal::Decimal::from_i128_with_scale(d.mantissa, d.scale).to_string()
}

/// Relies on the `Display` impl of `rust_decimal::Decimal` with a precision of
/// one (`str::to_str_internal`, which pads or cuts the fraction to one digit).
#[verifier::external_body]
pub(crate) fn rust_decimal_one_place(d: &Decimal) -> (r: String)
    requires
        d.wf(),
    ensures
        r@ == one_place_text(*d),
{
    format!("{:.1}", rust_decimal::Decimal::from_i128_with_scale(d.mantissa, d.scale))
}

/// Relies on the `LowerExp` impl of `rust_decimal::Decimal`
/// (`str::fmt_scientific_notation` without a precision).
#[verifier::external_body]
pub(crate) fn rust_decimal_exponent(d: &Decimal) -> (r: String)
    requires
        d.wf(),
    ensures
        r@ == exponent_text(*d),
{
    format!("{:e}", rust_decimal::Decimal::from_i128_with_scale(d.mantissa, d.scale))
}

impl Decimal {
    /// Whether the decimal lies within range (see `wf`).
    pub fn is_wf(&self) -> (r: bool)
        ensures
            r == self.wf(),
    {
        self.scale <= MAX_SCALE && -MAX_MANTISSA <= self.mantissa && self.mantissa <= MAX_MANTISSA
    }
}

/// Decimals in range are equal when they denote the same number (`5` and
/// `5.0` are equal); others only when their parts are.
impl PartialEq for Decimal {
    fn eq(&self, other: &Decimal) -> (r: bool) {
        if self.is_wf() && other.is_wf() {
            self.equals(other)
        } else {
            self.mantissa == other.mantissa && self.scale == other.scale
        }
    }
}

impl vstd::std_specs::cmp::PartialEqSpecImpl for Decimal {
    open spec fn obeys_eq_spec() -> bool {
        true
    }

    open spec fn eq_spec(&self, other: &Decimal) -> bool {
        if self.wf() && other.wf() {
            self.same_value(*other)
        } else {
            self.mantissa == other.mantissa && self.scale == other.scale
        }
    }
}

/// The same number without trailing zeros after the point: `0.10` becomes
/// `0.1`, `5.00` becomes `5`.
pub open spec fn normalized(d: Decimal) -> Decimal
    decreases d.scale,
{
    if d.scale > 0 && d.abs_mantissa() % 10 == 0 {
        normalized(
            Decimal {
                mantissa: (if d.mantissa < 0 {
                    -(d.abs_mantissa() / 10)
                } else {
                    d.abs_mantissa() / 10
                }) as i128,
                scale: (d.scale - 1) as u32,
            },
        )
    } else {
        d
    }
}

impl Decimal {
    /// The same number without trailing zeros after the point.
    pub fn normalize(&self) -> (r: Decimal)
        requires
            self.wf(),
        ensures
            r == normalized(*self),
            r.wf(),
    {
        let mut cur = *self;
        while cur.scale > 0
            invariant
                cur.wf(),
                normalized(cur) == normalized(*self),
            ensures
                cur.wf(),
                normalized(cur) == normalized(*self),
                normalized(cur) == cur,
            decreases cur.scale,
        {
            let a: u128 = if cur.mantissa < 0 {
                (-cur.mantissa) as u128
            } else {
                cur.mantissa as u128
            };
            assert(a as int == cur.abs_mantissa());
            if a % 10 != 0 {
                break;
            }
            let q = (a / 10) as i128;
            let next = Decimal { mantissa: if cur.mantissa < 0 { -q } else { q }, scale: cur.scale - 1 };
            assert(next == (Decimal {
                mantissa: (if cur.mantissa < 0 {
                    -(cur.abs_mantissa() / 10)
                } else {
                    cur.abs_mantissa() / 10
                }) as i128,
                scale: (cur.scale - 1) as u32,
            }));
            cur = next;
        }
        cur
    }
}

} // verus!
