//! Fixed-point decimal numbers.
//!
//! A [`Decimal`] is a signed 96-bit mantissa with a scale of at most 28
//! decimal places. Its view is the integer number of units of 10^-28 that it
//! stands for, so that two decimals denote the same number exactly when their
//! views are equal.
//!
//! The arithmetic is done by the `rust_decimal` crate, which rounds a result
//! that does not fit. The `checked_` operations hand out what the crate
//! returns. The `exact_` operations hand out a sum or difference only where
//! it is exact: the library recomputes both sides in integer and fractional
//! parts and refuses a result that was rounded.

use vstd::prelude::*;

verus! {

/// Largest number of decimal places.
pub const MAX_SCALE: u32 = 28;

/// Largest absolute value of a mantissa: 2^96 - 1.
pub const MAX_MANTISSA: i128 = 79_228_162_514_264_337_593_543_950_335i128;

/// One whole unit, counted in units of 10^-28.
pub const UNIT: i128 = 10_000_000_000_000_000_000_000_000_000i128;

/// Ten to the power `e`, for `e` up to 28 (1 beyond that).
pub open spec fn pow10(e: int) -> int {
    if e == 0 {
        1
    } else if e == 1 {
        10
    } else if e == 2 {
        100
    } else if e == 3 {
        1_000
    } else if e == 4 {
        10_000
    } else if e == 5 {
        100_000
    } else if e == 6 {
        1_000_000
    } else if e == 7 {
        10_000_000
    } else if e == 8 {
        100_000_000
    } else if e == 9 {
        1_000_000_000
    } else if e == 10 {
        10_000_000_000
    } else if e == 11 {
        100_000_000_000
    } else if e == 12 {
        1_000_000_000_000
    } else if e == 13 {
        10_000_000_000_000
    } else if e == 14 {
        100_000_000_000_000
    } else if e == 15 {
        1_000_000_000_000_000
    } else if e == 16 {
        10_000_000_000_000_000
    } else if e == 17 {
        100_000_000_000_000_000
    } else if e == 18 {
        1_000_000_000_000_000_000
    } else if e == 19 {
        10_000_000_000_000_000_000
    } else if e == 20 {
        100_000_000_000_000_000_000
    } else if e == 21 {
        1_000_000_000_000_000_000_000
    } else if e == 22 {
        10_000_000_000_000_000_000_000
    } else if e == 23 {
        100_000_000_000_000_000_000_000
    } else if e == 24 {
        1_000_000_000_000_000_000_000_000
    } else if e == 25 {
        10_000_000_000_000_000_000_000_000
    } else if e == 26 {
        100_000_000_000_000_000_000_000_000
    } else if e == 27 {
        1_000_000_000_000_000_000_000_000_000
    } else if e == 28 {
        10_000_000_000_000_000_000_000_000_000
    } else {
        1
    }
}

/// How a rounding treats the digits that it drops.
#[derive(Clone, Copy, Debug, PartialEq, Eq, Structural)]
pub enum Round {
    /// To the nearest neighbour, a midpoint away from zero.
    ToNearest,
    /// Towards negative infinity.
    Floor,
    /// Towards positive infinity.
    Ceiling,
}

/// A decimal number: `mantissa / 10^scale`.
#[derive(Clone, Copy, Debug)]
pub struct Decimal {
    pub(crate) mantissa: i128,
    pub(crate) scale: u32,
}

/// What `rust_decimal::Decimal::checked_add` returns for two decimals given as
/// mantissa and scale: the mantissa and scale of the sum, or `None`.
pub uninterp spec fn decimal_sum(a_mantissa: int, a_scale: int, b_mantissa: int, b_scale: int) -> Option<(int, int)>;

/// What `rust_decimal::Decimal::checked_sub` returns for two decimals given as
/// mantissa and scale: the mantissa and scale of the difference, or `None`.
pub uninterp spec fn decimal_difference(a_mantissa: int, a_scale: int, b_mantissa: int, b_scale: int) -> Option<(int, int)>;

/// What `rust_decimal::Decimal::checked_mul` returns for two decimals given as
/// mantissa and scale: the mantissa and scale of the product, or `None`.
pub uninterp spec fn decimal_product(a_mantissa: int, a_scale: int, b_mantissa: int, b_scale: int) -> Option<(int, int)>;

/// What `rust_decimal::Decimal::checked_div` returns for two decimals given as
/// mantissa and scale: the mantissa and scale of the quotient, or `None`.
pub uninterp spec fn decimal_quotient(a_mantissa: int, a_scale: int, b_mantissa: int, b_scale: int) -> Option<(int, int)>;

/// What `rust_decimal::Decimal::round_dp_with_strategy` returns for a decimal
/// given as mantissa and scale, a number of places and a mode (0 to the
/// nearest, 1 down, 2 up): the mantissa and scale of the rounded number.
///
/// A number with no more places than asked for is returned as it is. Else
/// the digits beyond the places are cut off the mantissa, and one is added
/// to what is left of its magnitude: to the nearest, where what was cut off
/// is half a step or more; down, where the number is below zero and
/// anything was cut off; up, where it is above zero and anything was cut
/// off. The scale is the number of places.
pub open spec fn decimal_rounded(mantissa: int, scale: int, places: int, mode: int) -> (int, int) {
    if scale <= places {
        (mantissa, scale)
    } else {
        let step = pow10(scale - places);
        let magnitude = if mantissa < 0 {
            -mantissa
        } else {
            mantissa
        };
        let kept = magnitude / step;
        let cut = magnitude % step;
        let one_more = if mode == 0 {
            2 * cut >= step
        } else if mode == 1 {
            mantissa < 0 && cut != 0
        } else {
            mantissa > 0 && cut != 0
        };
        let rounded = if one_more {
            kept + 1
        } else {
            kept
        };
        (
            if mantissa < 0 {
                -rounded
            } else {
                rounded
            },
            places,
        )
    }
}

/// The number of a rounding mode in `decimal_rounded`.
pub open spec fn round_mode(round: Round) -> int {
    match round {
        Round::ToNearest => 0,
        Round::Floor => 1,
        Round::Ceiling => 2,
    }
}

impl View for Decimal {
    type V = int;

    /// The number in units of 10^-28.
    closed spec fn view(&self) -> int {
        self.mantissa * pow10(28 - self.scale)
    }
}

impl Decimal {
    /// The representation is within what a decimal can hold.
    #[verifier::type_invariant]
    pub closed spec fn wf(self) -> bool {
        &&& self.scale <= MAX_SCALE
        &&& -MAX_MANTISSA <= self.mantissa <= MAX_MANTISSA
    }

    /// The mantissa, as a mathematical integer.
    pub closed spec fn spec_mantissa(self) -> int {
        self.mantissa as int
    }

    /// The scale, as a mathematical integer.
    pub closed spec fn spec_scale(self) -> int {
        self.scale as int
    }

    /// The decimal that a mantissa and a scale returned by the arithmetic
    /// stand for, if they are within range.
    pub closed spec fn of_parts(parts: (int, int)) -> Option<Decimal> {
        if 0 <= parts.1 <= MAX_SCALE && -MAX_MANTISSA <= parts.0 <= MAX_MANTISSA {
            Some(Decimal { mantissa: parts.0 as i128, scale: parts.1 as u32 })
        } else {
            None
        }
    }

    /// The sum as the arithmetic returns it, rounded where it does not fit.
    pub closed spec fn spec_add(self, other: Decimal) -> Option<Decimal> {
        match decimal_sum(self.mantissa as int, self.scale as int, other.mantissa as int, other.scale as int) {
            Some(parts) => Self::of_parts(parts),
            None => None,
        }
    }

    /// The difference as the arithmetic returns it, rounded where it does not
    /// fit.
    pub closed spec fn spec_sub(self, other: Decimal) -> Option<Decimal> {
        match decimal_difference(self.mantissa as int, self.scale as int, other.mantissa as int, other.scale as int) {
            Some(parts) => Self::of_parts(parts),
            None => None,
        }
    }

    /// The sum, where the arithmetic returns it exactly.
    pub open spec fn spec_exact_add(self, other: Decimal) -> Option<Decimal> {
        match self.spec_add(other) {
            Some(v) => if v@ == self@ + other@ {
                Some(v)
            } else {
                None
            },
            None => None,
        }
    }

    /// The difference, where the arithmetic returns it exactly.
    pub open spec fn spec_exact_sub(self, other: Decimal) -> Option<Decimal> {
        match self.spec_sub(other) {
            Some(v) => if v@ == self@ - other@ {
                Some(v)
            } else {
                None
            },
            None => None,
        }
    }

    /// The product as the arithmetic returns it.
    pub closed spec fn spec_mul(self, other: Decimal) -> Option<Decimal> {
        match decimal_product(self.mantissa as int, self.scale as int, other.mantissa as int, other.scale as int) {
            Some(parts) => Self::of_parts(parts),
            None => None,
        }
    }

    /// The quotient as the arithmetic returns it.
    pub closed spec fn spec_div(self, other: Decimal) -> Option<Decimal> {
        match decimal_quotient(self.mantissa as int, self.scale as int, other.mantissa as int, other.scale as int) {
            Some(parts) => Self::of_parts(parts),
            None => None,
        }
    }

    /// The number rounded to `places` decimal places as the arithmetic returns
    /// it.
    pub closed spec fn spec_round(self, places: u32, round: Round) -> Option<Decimal> {
        Self::of_parts(decimal_rounded(self.mantissa as int, self.scale as int, places as int, round_mode(round)))
    }

    /// The negated number.
    pub closed spec fn spec_neg(self) -> Decimal {
        Decimal { mantissa: (-self.mantissa) as i128, scale: self.scale }
    }

    /// The absolute value.
    pub open spec fn spec_abs(self) -> Decimal {
        if self@ < 0 {
            self.spec_neg()
        } else {
            self
        }
    }

    /// The larger of two numbers, the second where they are equal.
    pub open spec fn spec_max(self, other: Decimal) -> Decimal {
        if other@ < self@ {
            self
        } else {
            other
        }
    }

    /// The smaller of two numbers, the first where they are equal.
    pub open spec fn spec_min(self, other: Decimal) -> Decimal {
        if other@ < self@ {
            other
        } else {
            self
        }
    }

    /// Zero, with no decimal places.
    pub closed spec fn spec_zero() -> Decimal {
        Decimal { mantissa: 0, scale: 0 }
    }

    /// The whole number `n`.
    pub closed spec fn spec_from_int(n: i64) -> Decimal {
        Decimal { mantissa: n as i128, scale: 0 }
    }

    /// The number `mantissa / 10^scale`, if it is within range.
    pub closed spec fn spec_from_parts(mantissa: i128, scale: u32) -> Option<Decimal> {
        if scale <= MAX_SCALE && -MAX_MANTISSA <= mantissa <= MAX_MANTISSA {
            Some(Decimal { mantissa, scale })
        } else {
            None
        }
    }

    /// Negation negates the view.
    pub proof fn lemma_neg(self)
        requires
            self.wf(),
        ensures
            self.spec_neg()@ == -self@,
            self.spec_neg().wf(),
            self.spec_neg().spec_neg() == self,
    {
        let p = pow10(28 - self.scale);
        assert((-self.mantissa) * p == -(self.mantissa * p)) by (nonlinear_arith);
    }

    /// Zero has the view 0, and a whole number `n` the view `n * 10^28`.
    pub proof fn lemma_constants(n: i64)
        ensures
            Self::spec_zero()@ == 0,
            Self::spec_zero().wf(),
            Self::spec_from_int(n)@ == n * UNIT,
            Self::spec_from_int(n).wf(),
    {
    }

    /// A decimal made of parts has the view `mantissa * 10^(28 - scale)`.
    pub proof fn lemma_from_parts(mantissa: i128, scale: u32)
        ensures
            Self::spec_from_parts(mantissa, scale) matches Some(d) ==> d.wf() && d@ == mantissa * pow10(28 - scale)
                && d.spec_mantissa() == mantissa && d.spec_scale() == scale,
            Self::spec_from_parts(mantissa, scale) is Some <==> scale <= MAX_SCALE && -MAX_MANTISSA <= mantissa
                <= MAX_MANTISSA,
    {
    }

    /// An exact sum or difference has the view that the name says.
    pub proof fn law_sums_are_exact(self, other: Decimal)
        ensures
            self.spec_exact_add(other) matches Some(v) ==> v@ == self@ + other@,
            self.spec_exact_sub(other) matches Some(v) ==> v@ == self@ - other@,
    {
    }

    /// What the arithmetic hands out is within what a decimal can hold.
    pub proof fn lemma_results_wf(self, other: Decimal, places: u32, round: Round)
        ensures
            self.spec_add(other) matches Some(v) ==> v.wf(),
            self.spec_sub(other) matches Some(v) ==> v.wf(),
            self.spec_exact_add(other) matches Some(v) ==> v.wf(),
            self.spec_exact_sub(other) matches Some(v) ==> v.wf(),
            self.spec_mul(other) matches Some(v) ==> v.wf(),
            self.spec_div(other) matches Some(v) ==> v.wf(),
            self.spec_round(places, round) matches Some(v) ==> v.wf(),
    {
    }

    /// The step between two neighbours of the numbers with `places` decimal
    /// places, in units of 10^-28.
    pub open spec fn spec_step(places: u32) -> int {
        pow10(28 - places)
    }

    /// A number with no more decimal places than asked for is rounded to
    /// itself.
    pub proof fn law_rounding_keeps_short_numbers(self, places: u32, round: Round)
        requires
            self.wf(),
            self.spec_scale() <= places,
        ensures
            self.spec_round(places, round) == Some(self),
    {
    }

    /// Rounding to `places` decimal places, at most 28, gives a number of
    /// the value of a whole number of steps: down, the largest such number
    /// that is not above the number; up, the smallest that is not below it;
    /// to the nearest, one that is half a step away at most, and the one
    /// away from zero where two are.
    pub proof fn law_rounding(self, places: u32, round: Round)
        requires
            self.wf(),
            places <= MAX_SCALE,
        ensures
            self.spec_round(places, round) matches Some(r) && r.wf() && r@ % Self::spec_step(places) == 0 && match round {
                Round::Floor => r@ <= self@ < r@ + Self::spec_step(places),
                Round::Ceiling => r@ - Self::spec_step(places) < self@ <= r@,
                Round::ToNearest => 2 * (r@ - self@) <= Self::spec_step(places) && 2 * (self@ - r@) <= Self::spec_step(
                    places,
                ) && (2 * (r@ - self@) == Self::spec_step(places) ==> self@ > 0) && (2 * (self@ - r@)
                    == Self::spec_step(places) ==> self@ < 0),
            },
    {
        let scale = self.scale as int;
        let m = self.mantissa as int;
        let big = pow10(28 - places);
        lemma_pow10_split(28 - places);
        lemma_pow10_split(scale);
        if scale <= places {
            let small = pow10(28 - scale);
            let between = pow10(places - scale);
            lemma_pow10_add(places - scale, 28 - places);
            assert(small == between * big);
            assert((m * between) * big == m * (between * big)) by (nonlinear_arith);
            lemma_multiple(m * between, big);
        } else {
            let small = pow10(28 - scale);
            let step = pow10(scale - places);
            lemma_pow10_add(scale - places, 28 - scale);
            lemma_pow10_split(scale - places);
            assert(big == step * small);
            let magnitude = if m < 0 {
                -m
            } else {
                m
            };
            let kept = magnitude / step;
            let cut = magnitude % step;
            assert(magnitude == kept * step + cut && 0 <= cut < step) by (nonlinear_arith)
                requires
                    kept == magnitude / step,
                    cut == magnitude % step,
                    step >= 1,
                    magnitude >= 0,
            ;
            assert(0 <= kept <= magnitude) by (nonlinear_arith)
                requires
                    magnitude == kept * step + cut,
                    0 <= cut < step,
                    step >= 1,
                    magnitude >= 0,
            ;
            let parts = decimal_rounded(m, scale, places as int, round_mode(round));
            let rounded = if parts.0 < 0 {
                -parts.0
            } else {
                parts.0
            };
            assert(rounded == kept || rounded == kept + 1);
            assert(rounded <= magnitude || magnitude == 0 || rounded == kept + 1);
            if magnitude >= 1 {
                assert(kept + 1 <= magnitude) by (nonlinear_arith)
                    requires
                        magnitude == kept * step + cut,
                        0 <= cut < step,
                        step >= 10,
                        magnitude >= 1,
                        kept >= 0,
                ;
            }
            let r = Self::of_parts(parts).unwrap();
            assert(r@ == parts.0 * big);
            assert(self@ == m * small);
            lemma_multiple(parts.0, big);
            assert(parts.0 * (step * small) == (parts.0 * step) * small) by (nonlinear_arith);
            assert(kept * step * small + cut * small == (kept * step + cut) * small) by (nonlinear_arith);
            assert(0 <= cut * small < step * small) by (nonlinear_arith)
                requires
                    0 <= cut < step,
                    small >= 1,
            ;
            assert((kept + 1) * step * small == kept * step * small + step * small) by (nonlinear_arith);
            assert((-kept) * step * small == -(kept * step * small)) by (nonlinear_arith);
            assert((-(kept + 1)) * step * small == -(kept * step * small) - step * small) by (nonlinear_arith);
            assert((-magnitude) * small == -(magnitude * small)) by (nonlinear_arith);
            assert(2 * (cut * small) == (2 * cut) * small) by (nonlinear_arith);
            assert((2 * cut >= step) == ((2 * cut) * small >= step * small)) by (nonlinear_arith)
                requires
                    small >= 1,
            ;
            assert((cut == 0) == (cut * small == 0)) by (nonlinear_arith)
                requires
                    small >= 1,
                    cut >= 0,
            ;
        }
    }

    /// Zero, with no decimal places.
    pub fn zero() -> (r: Decimal)
        ensures
            r == Self::spec_zero(),
            r@ == 0,
    {
        Decimal { mantissa: 0, scale: 0 }
    }

    /// The whole number `n`.
    pub fn from_int(n: i64) -> (r: Decimal)
        ensures
            r == Self::spec_from_int(n),
            r@ == n * UNIT,
    {
        Decimal { mantissa: n as i128, scale: 0 }
    }

    /// The number `mantissa / 10^scale`; `None` where the scale is above 28 or
    /// the mantissa does not fit 96 bits.
    pub fn from_parts(mantissa: i128, scale: u32) -> (r: Option<Decimal>)
        ensures
            r == Self::spec_from_parts(mantissa, scale),
            r is Some <==> scale <= MAX_SCALE && -MAX_MANTISSA <= mantissa <= MAX_MANTISSA,
            r matches Some(d) ==> d@ == mantissa * pow10(28 - scale),
    {
        if scale <= MAX_SCALE && -MAX_MANTISSA <= mantissa && mantissa <= MAX_MANTISSA {
            Some(Decimal { mantissa, scale })
        } else {
            None
        }
    }

    /// The mantissa.
    pub fn mantissa(&self) -> (r: i128)
        ensures
            r == self.spec_mantissa(),
    {
        self.mantissa
    }

    /// The scale.
    pub fn scale(&self) -> (r: u32)
        ensures
            r == self.spec_scale(),
    {
        self.scale
    }

    /// The negated number.
    pub fn neg(self) -> (r: Decimal)
        ensures
            r == self.spec_neg(),
            r@ == -self@,
    {
        proof {
            use_type_invariant(&self);
            self.lemma_neg();
        }
        Decimal { mantissa: -self.mantissa, scale: self.scale }
    }
}

/// The decimal that the arithmetic returned, if it returned one.
pub closed spec fn lift(parts: Option<(int, int)>) -> Option<Decimal> {
    match parts {
        Some(p) => Decimal::of_parts(p),
        None => None,
    }
}

/// Calls `rust_decimal::Decimal::checked_add` on the two numbers, each rebuilt
/// from its mantissa and scale. The result is the crate's sum by name, `None`
/// where the crate reports an overflow; nothing is claimed of its value.
#[verifier::external_body]
fn outside_add(a: Decimal, b: Decimal) -> (r: Option<Decimal>)
    requires
        a.wf(),
        b.wf(),
    ensures
        r == lift(decimal_sum(a.spec_mantissa(), a.spec_scale(), b.spec_mantissa(), b.spec_scale())),
        r matches Some(v) ==> v.wf(),
{
    let x = rust_decimal::Decimal::from_i128_with_scale(a.mantissa, a.scale);
    let y = rust_decimal::Decimal::from_i128_with_scale(b.mantissa, b.scale);
    match x.checked_add(y) {
        Some(z) => Some(Decimal { mantissa: z.mantissa(), scale: z.scale() }),
        None => None,
    }
}

/// Calls `rust_decimal::Decimal::checked_sub` on the two numbers, each rebuilt
/// from its mantissa and scale. The result is the crate's difference by name,
/// `None` where the crate reports an overflow; nothing is claimed of its value.
#[verifier::external_body]
fn outside_sub(a: Decimal, b: Decimal) -> (r: Option<Decimal>)
    requires
        a.wf(),
        b.wf(),
    ensures
        r == lift(decimal_difference(a.spec_mantissa(), a.spec_scale(), b.spec_mantissa(), b.spec_scale())),
        r matches Some(v) ==> v.wf(),
{
    let x = rust_decimal::Decimal::from_i128_with_scale(a.mantissa, a.scale);
    let y = rust_decimal::Decimal::from_i128_with_scale(b.mantissa, b.scale);
    match x.checked_sub(y) {
        Some(z) => Some(Decimal { mantissa: z.mantissa(), scale: z.scale() }),
        None => None,
    }
}

/// Calls `rust_decimal::Decimal::checked_mul` on the two numbers, each rebuilt
/// from its mantissa and scale. The result is the crate's product by name,
/// `None` where the crate reports an overflow; nothing is claimed of its value.
#[verifier::external_body]
fn outside_mul(a: Decimal, b: Decimal) -> (r: Option<Decimal>)
    requires
        a.wf(),
        b.wf(),
    ensures
        r == lift(decimal_product(a.spec_mantissa(), a.spec_scale(), b.spec_mantissa(), b.spec_scale())),
        r matches Some(v) ==> v.wf(),
{
    let x = rust_decimal::Decimal::from_i128_with_scale(a.mantissa, a.scale);
    let y = rust_decimal::Decimal::from_i128_with_scale(b.mantissa, b.scale);
    match x.checked_mul(y) {
        Some(z) => Some(Decimal { mantissa: z.mantissa(), scale: z.scale() }),
        None => None,
    }
}

/// Calls `rust_decimal::Decimal::checked_div` on the two numbers, each rebuilt
/// from its mantissa and scale. The result is the crate's quotient by name,
/// `None` where the crate reports an overflow or a zero divisor; nothing is
/// claimed of its value.
#[verifier::external_body]
fn outside_div(a: Decimal, b: Decimal) -> (r: Option<Decimal>)
    requires
        a.wf(),
        b.wf(),
    ensures
        r == lift(decimal_quotient(a.spec_mantissa(), a.spec_scale(), b.spec_mantissa(), b.spec_scale())),
        r matches Some(v) ==> v.wf(),
{
    let x = rust_decimal::Decimal::from_i128_with_scale(a.mantissa, a.scale);
    let y = rust_decimal::Decimal::from_i128_with_scale(b.mantissa, b.scale);
    match x.checked_div(y) {
        Some(z) => Some(Decimal { mantissa: z.mantissa(), scale: z.scale() }),
        None => None,
    }
}

/// Calls `rust_decimal::Decimal::round_dp_with_strategy` on the number rebuilt
/// from its mantissa and scale, with the strategy that the mode stands for:
/// midpoint away from zero, to negative infinity, to positive infinity. The
/// contract claims that the result has the mantissa and the scale which
/// `decimal_rounded` states: the number as it is where it has no more
/// places than asked for, else the mantissa cut to the places and rounded
/// by the mode.
#[verifier::external_body]
fn outside_round(a: Decimal, places: u32, round: Round) -> (r: Decimal)
    requires
        a.wf(),
    ensures
        Some(r) == Decimal::of_parts(decimal_rounded(a.spec_mantissa(), a.spec_scale(), places as int, round_mode(round))),
        r.wf(),
{
    let x = rust_decimal::Decimal::from_i128_with_scale(a.mantissa, a.scale);
    let strategy = match round {
        Round::ToNearest => rust_decimal::RoundingStrategy::MidpointAwayFromZero,
        Round::Floor => rust_decimal::RoundingStrategy::ToNegativeInfinity,
        Round::Ceiling => rust_decimal::RoundingStrategy::ToPositiveInfinity,
    };
    let z = x.round_dp_with_strategy(places, strategy);
    Decimal { mantissa: z.mantissa(), scale: z.scale() }
}

/// A product of a whole number and a step is a multiple of the step.
proof fn lemma_multiple(n: int, step: int)
    requires
        step >= 1,
    ensures
        (n * step) % step == 0,
{
    assert((n * step) % step == 0) by (nonlinear_arith)
        requires
            step >= 1,
    ;
}

/// Powers of ten multiply by adding their exponents.
proof fn lemma_pow10_add(a: int, b: int)
    requires
        0 <= a,
        0 <= b,
        a + b <= 28,
    ensures
        pow10(a) * pow10(b) == pow10(a + b),
    decreases b,
{
    if b == 0 {
    } else {
        lemma_pow10_add(a, b - 1);
        lemma_pow10_next(b - 1);
        lemma_pow10_next(a + b - 1);
        assert(pow10(a) * (10 * pow10(b - 1)) == 10 * (pow10(a) * pow10(b - 1))) by (nonlinear_arith);
    }
}

/// The next power of ten is ten times the power.
proof fn lemma_pow10_next(e: int)
    requires
        0 <= e < 28,
    ensures
        pow10(e + 1) == 10 * pow10(e),
{
    if e < 10 {
    } else if e < 20 {
    } else {
    }
}

/// Two complementary powers of ten multiply to one whole unit.
proof fn lemma_pow10_split(s: int)
    requires
        0 <= s <= 28,
    ensures
        pow10(s) * pow10(28 - s) == UNIT,
        1 <= pow10(s) <= UNIT,
        1 <= pow10(28 - s) <= UNIT,
{
    if s < 10 {
    } else if s < 20 {
    } else {
    }
}

/// Ten to the power `e`.
fn pow10_exec(e: u32) -> (r: u128)
    requires
        e <= 28,
    ensures
        r == pow10(e as int),
        1 <= r <= UNIT,
{
    let mut r: u128 = 1;
    let mut i: u32 = 0;
    while i < e
        invariant
            i <= e <= 28,
            r == pow10(i as int),
            1 <= r <= UNIT,
        decreases e - i,
    {
        r = r * 10;
        i = i + 1;
    }
    r
}

/// The integer part, rounded down, and the fractional part of a number, the
/// latter in units of 10^-28.
fn split(d: Decimal) -> (r: (i128, i128))
    ensures
        d@ == r.0 * UNIT + r.1,
        0 <= r.1 < UNIT,
        -MAX_MANTISSA - 1 <= r.0 <= MAX_MANTISSA,
{
    proof {
        use_type_invariant(&d);
        lemma_pow10_split(d.scale as int);
    }
    let p: u128 = pow10_exec(d.scale);
    let c: u128 = pow10_exec(28 - d.scale);
    let negative = d.mantissa < 0;
    let a: u128 = if negative {
        (-d.mantissa) as u128
    } else {
        d.mantissa as u128
    };
    let q: u128 = a / p;
    let l: u128 = a % p;
    proof {
        vstd::arithmetic::div_mod::lemma_fundamental_div_mod(a as int, p as int);
        vstd::arithmetic::div_mod::lemma_mod_pos_bound(a as int, p as int);
        assert(0 <= l * c <= (p - 1) * c) by (nonlinear_arith)
            requires
                0 <= l <= p - 1,
                c >= 1,
        ;
        assert((p - 1) * c == p * c - c) by (nonlinear_arith);
        assert(a * c == q * (p * c) + l * c) by (nonlinear_arith)
            requires
                a == p * q + l,
        ;
        assert(0 <= q <= a) by (nonlinear_arith)
            requires
                a == p * q + l,
                p >= 1,
                l >= 0,
                q >= 0,
        ;
        assert((-d.mantissa) * (c as int) == -(d.mantissa * (c as int))) by (nonlinear_arith);
    }
    let f: u128 = l * c;
    if !negative {
        (q as i128, f as i128)
    } else if f == 0 {
        (-(q as i128), 0)
    } else {
        (-(q as i128) - 1, UNIT - (f as i128))
    }
}

impl Decimal {
    /// Whether the number is zero.
    pub fn is_zero(&self) -> (r: bool)
        ensures
            r == (self@ == 0),
    {
        let (h, f) = split(*self);
        h == 0 && f == 0
    }

    /// Whether the number is below zero.
    pub fn is_negative(&self) -> (r: bool)
        ensures
            r == (self@ < 0),
    {
        let (h, f) = split(*self);
        h < 0
    }

    /// Whether the two numbers are equal, whatever their scales.
    pub fn equals(&self, other: &Decimal) -> (r: bool)
        ensures
            r == (self@ == other@),
    {
        let (h, f) = split(*self);
        let (g, e) = split(*other);
        h == g && f == e
    }

    /// Whether the number is below the other.
    pub fn lt(&self, other: &Decimal) -> (r: bool)
        ensures
            r == (self@ < other@),
    {
        let (h, f) = split(*self);
        let (g, e) = split(*other);
        h < g || (h == g && f < e)
    }

    /// Whether the number is at most the other.
    pub fn le(&self, other: &Decimal) -> (r: bool)
        ensures
            r == (self@ <= other@),
    {
        !other.lt(self)
    }

    /// Whether the number is above the other.
    pub fn gt(&self, other: &Decimal) -> (r: bool)
        ensures
            r == (self@ > other@),
    {
        other.lt(self)
    }

    /// Whether the number is at least the other.
    pub fn ge(&self, other: &Decimal) -> (r: bool)
        ensures
            r == (self@ >= other@),
    {
        !self.lt(other)
    }

    /// Whether the number is above the other by more than the margin.
    pub fn exceeds_by(&self, other: &Decimal, margin: &Decimal) -> (r: bool)
        ensures
            r == (self@ - other@ > margin@),
    {
        let (h, f) = split(*self);
        let (g, e) = split(*other);
        let (m, n) = split(*margin);
        let whole: i128 = h - g - m;
        let part: i128 = f - e - n;
        whole >= 2 || (whole == 1 && part > -UNIT) || (whole == 0 && part > 0)
    }

    /// The absolute value.
    pub fn abs(self) -> (r: Decimal)
        ensures
            r == self.spec_abs(),
            r@ == if self@ < 0 { -self@ } else { self@ },
    {
        if self.is_negative() {
            self.neg()
        } else {
            self
        }
    }

    /// The larger of two numbers, the second where they are equal.
    pub fn max(self, other: Decimal) -> (r: Decimal)
        ensures
            r == self.spec_max(other),
    {
        if other.lt(&self) {
            self
        } else {
            other
        }
    }

    /// The smaller of two numbers, the first where they are equal.
    pub fn min(self, other: Decimal) -> (r: Decimal)
        ensures
            r == self.spec_min(other),
    {
        if other.lt(&self) {
            other
        } else {
            self
        }
    }

    /// The sum, computed by `rust_decimal` and handed out only where it is
    /// exact: `None` on overflow and where the crate had to round.
    pub fn exact_add(self, other: Decimal) -> (r: Option<Decimal>)
        ensures
            r == self.spec_exact_add(other),
            r matches Some(v) ==> v@ == self@ + other@,
    {
        proof {
            use_type_invariant(&self);
            use_type_invariant(&other);
        }
        match outside_add(self, other) {
            None => None,
            Some(v) => {
                let (ha, fa) = split(self);
                let (hb, fb) = split(other);
                let (hv, fv) = split(v);
                let fs: i128 = fa + fb;
                let carry: i128 = if fs >= UNIT { 1 } else { 0 };
                if ha + hb + carry == hv && fs - carry * UNIT == fv {
                    Some(v)
                } else {
                    None
                }
            },
        }
    }

    /// The difference, computed by `rust_decimal` and handed out only where it
    /// is exact: `None` on overflow and where the crate had to round.
    pub fn exact_sub(self, other: Decimal) -> (r: Option<Decimal>)
        ensures
            r == self.spec_exact_sub(other),
            r matches Some(v) ==> v@ == self@ - other@,
    {
        proof {
            use_type_invariant(&self);
            use_type_invariant(&other);
        }
        match outside_sub(self, other) {
            None => None,
            Some(v) => {
                let (ha, fa) = split(self);
                let (hb, fb) = split(other);
                let (hv, fv) = split(v);
                let fd: i128 = fa - fb;
                let borrow: i128 = if fd < 0 { 1 } else { 0 };
                if ha - hb - borrow == hv && fd + borrow * UNIT == fv {
                    Some(v)
                } else {
                    None
                }
            },
        }
    }

    /// The sum as `rust_decimal` computes it, rounded where it does not fit;
    /// `None` on overflow.
    pub fn checked_add(self, other: Decimal) -> (r: Option<Decimal>)
        ensures
            r == self.spec_add(other),
    {
        proof {
            use_type_invariant(&self);
            use_type_invariant(&other);
        }
        outside_add(self, other)
    }

    /// The difference as `rust_decimal` computes it, rounded where it does
    /// not fit; `None` on overflow.
    pub fn checked_sub(self, other: Decimal) -> (r: Option<Decimal>)
        ensures
            r == self.spec_sub(other),
    {
        proof {
            use_type_invariant(&self);
            use_type_invariant(&other);
        }
        outside_sub(self, other)
    }

    /// The product as `rust_decimal` computes it; `None` on overflow.
    pub fn checked_mul(self, other: Decimal) -> (r: Option<Decimal>)
        ensures
            r == self.spec_mul(other),
    {
        proof {
            use_type_invariant(&self);
            use_type_invariant(&other);
        }
        outside_mul(self, other)
    }

    /// The quotient as `rust_decimal` computes it; `None` on overflow and for
    /// a zero divisor.
    pub fn checked_div(self, other: Decimal) -> (r: Option<Decimal>)
        ensures
            r == self.spec_div(other),
    {
        proof {
            use_type_invariant(&self);
            use_type_invariant(&other);
        }
        outside_div(self, other)
    }

    /// The number rounded to `places` decimal places as `rust_decimal`
    /// computes it.
    pub fn round_dp(self, places: u32, round: Round) -> (r: Decimal)
        ensures
            Some(r) == self.spec_round(places, round),
    {
        proof {
            use_type_invariant(&self);
        }
        outside_round(self, places, round)
    }
}

} // verus!
