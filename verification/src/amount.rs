//! Decimal currency amounts.
//!
//! An [`Amount`] is a signed 96-bit mantissa together with a scale between 0
//! and 28: it stands for `mantissa / 10^scale`. Arithmetic and ordering are
//! done by the `rust_decimal` crate; this module states what is relied on.

use crate::text::{decimal_digits, fixed_digits};
use rust_decimal::Decimal;
use vstd::prelude::*;
use vstd::std_specs::cmp::PartialEqSpecImpl;

verus! {

/// The largest magnitude of a mantissa, `2^96 - 1`.
pub const MAX_MANTISSA: i128 = 79_228_162_514_264_337_593_543_950_335;

/// The largest scale, that is the most digits after the decimal point.
pub const MAX_SCALE: u32 = 28;

/// `10^n`.
pub open spec fn pow10(n: nat) -> nat
    decreases n,
{
    if n == 0 {
        1
    } else {
        10 * pow10((n - 1) as nat)
    }
}

/// The mathematical content of an [`Amount`].
pub struct AmountView {
    pub mantissa: int,
    pub scale: nat,
}

/// What `Decimal::checked_add` returns when the aligned sum of the two
/// operands does not fit in 96 bits: a rounded sum, or `None`.
pub uninterp spec fn rounded_sum(a: AmountView, b: AmountView) -> Option<AmountView>;

/// What `Decimal::checked_sub` returns when the aligned difference of the two
/// operands does not fit in 96 bits: a rounded difference, or `None`.
pub uninterp spec fn rounded_difference(a: AmountView, b: AmountView) -> Option<AmountView>;

/// An amount as it is written: a minus sign if it is negative, the whole
/// part without leading zeros, and, where the scale is not zero, a point and
/// as many digits as the scale says. So `1.50` keeps its last zero, and a
/// half is `0.5`.
pub open spec fn decimal_text(a: AmountView) -> Seq<char> {
    let magnitude: nat = if a.mantissa < 0 {
        (-a.mantissa) as nat
    } else {
        a.mantissa as nat
    };
    let sign: Seq<char> = if a.mantissa < 0 {
        seq!['-']
    } else {
        Seq::empty()
    };
    if a.scale == 0 {
        sign + decimal_digits(magnitude)
    } else {
        sign + decimal_digits(magnitude / pow10(a.scale)) + seq!['.'] + fixed_digits(
            magnitude % pow10(a.scale),
            a.scale,
        )
    }
}

impl AmountView {
    /// The mantissa fits in 96 bits and the scale is at most 28.
    pub open spec fn valid(self) -> bool {
        &&& -MAX_MANTISSA <= self.mantissa <= MAX_MANTISSA
        &&& self.scale <= MAX_SCALE
    }

    /// The value, counted in units of `10^-28`. Two amounts stand for the
    /// same number exactly when their units are equal.
    pub open spec fn units(self) -> int {
        self.mantissa * pow10((MAX_SCALE - self.scale) as nat)
    }

    /// The mantissa of this amount written with `scale` digits after the
    /// point, for a `scale` that is not smaller than its own.
    pub open spec fn mantissa_at(self, scale: nat) -> int {
        self.mantissa * pow10((scale - self.scale) as nat)
    }

    /// The sum of two amounts at the larger of their scales. A zero operand
    /// leaves the other as it is.
    pub open spec fn aligned_sum(self, other: AmountView) -> AmountView {
        if self.mantissa == 0 {
            other
        } else if other.mantissa == 0 {
            self
        } else {
            let scale: nat = if self.scale >= other.scale {
                self.scale
            } else {
                other.scale
            };
            AmountView { mantissa: self.mantissa_at(scale) + other.mantissa_at(scale), scale }
        }
    }

    /// The difference of two amounts at the larger of their scales. Taking
    /// zero away leaves the amount as it is; taking an amount from zero
    /// negates it.
    pub open spec fn aligned_difference(self, other: AmountView) -> AmountView {
        if self.mantissa == 0 {
            AmountView { mantissa: -other.mantissa, scale: other.scale }
        } else if other.mantissa == 0 {
            self
        } else {
            let scale: nat = if self.scale >= other.scale {
                self.scale
            } else {
                other.scale
            };
            AmountView { mantissa: self.mantissa_at(scale) - other.mantissa_at(scale), scale }
        }
    }

    /// Adding `other` loses nothing: both are valid and their aligned sum is
    /// representable.
    pub open spec fn adds_exactly(self, other: AmountView) -> bool {
        &&& self.valid()
        &&& other.valid()
        &&& self.aligned_sum(other).valid()
    }

    /// Subtracting `other` loses nothing: both are valid and their aligned
    /// difference is representable.
    pub open spec fn subtracts_exactly(self, other: AmountView) -> bool {
        &&& self.valid()
        &&& other.valid()
        &&& self.aligned_difference(other).valid()
    }

    /// The result of adding `other`: the aligned sum where that is
    /// representable, else whatever rounding leaves, or `None` on overflow.
    pub open spec fn sum(self, other: AmountView) -> Option<AmountView> {
        if self.aligned_sum(other).valid() {
            Some(self.aligned_sum(other))
        } else {
            rounded_sum(self, other)
        }
    }

    /// The result of subtracting `other`: the aligned difference where that
    /// is representable, else whatever rounding leaves, or `None` on overflow.
    pub open spec fn difference(self, other: AmountView) -> Option<AmountView> {
        if self.aligned_difference(other).valid() {
            Some(self.aligned_difference(other))
        } else {
            rounded_difference(self, other)
        }
    }
}

/// A power of ten is positive.
pub proof fn lemma_pow10_positive(n: nat)
    ensures
        pow10(n) > 0,
    decreases n,
{
    if n > 0 {
        lemma_pow10_positive((n - 1) as nat);
    }
}

/// `10^(a + b) = 10^a * 10^b`.
pub proof fn lemma_pow10_adds(a: nat, b: nat)
    ensures
        pow10(a + b) == pow10(a) * pow10(b),
    decreases a,
{
    if a > 0 {
        lemma_pow10_adds((a - 1) as nat, b);
        assert(pow10(a + b) == 10 * pow10((a - 1 + b) as nat));
        assert(10 * (pow10((a - 1) as nat) * pow10(b)) == (10 * pow10((a - 1) as nat)) * pow10(b))
            by (nonlinear_arith);
    } else {
        assert(pow10(a) * pow10(b) == pow10(b)) by (nonlinear_arith)
            requires
                pow10(a) == 1,
        ;
    }
}

impl AmountView {
    /// An amount is positive, zero or negative as its mantissa is.
    pub proof fn lemma_units_sign(self)
        ensures
            self.units() > 0 <==> self.mantissa > 0,
            self.units() == 0 <==> self.mantissa == 0,
            self.units() < 0 <==> self.mantissa < 0,
    {
        let p = pow10((MAX_SCALE - self.scale) as nat);
        lemma_pow10_positive((MAX_SCALE - self.scale) as nat);
        assert(self.mantissa > 0 ==> self.mantissa * p > 0) by (nonlinear_arith)
            requires
                p > 0,
        ;
        assert(self.mantissa < 0 ==> self.mantissa * p < 0) by (nonlinear_arith)
            requires
                p > 0,
        ;
        assert(self.mantissa == 0 ==> self.mantissa * p == 0) by (nonlinear_arith);
    }

    /// Writing an amount with more digits after the point does not change
    /// its value.
    pub proof fn lemma_mantissa_at_keeps_units(self, scale: nat)
        requires
            self.scale <= scale <= MAX_SCALE,
        ensures
            self.mantissa_at(scale) * pow10((MAX_SCALE - scale) as nat) == self.units(),
    {
        let up = pow10((scale - self.scale) as nat);
        let rest = pow10((MAX_SCALE - scale) as nat);
        lemma_pow10_adds((scale - self.scale) as nat, (MAX_SCALE - scale) as nat);
        assert((scale - self.scale) as nat + (MAX_SCALE - scale) as nat == (MAX_SCALE
            - self.scale) as nat);
        assert((self.mantissa * up) * rest == self.mantissa * (up * rest)) by (nonlinear_arith);
    }

    /// Where adding loses nothing, the result is the aligned sum, and it
    /// stands for the sum of the two numbers.
    pub proof fn lemma_sum_is_exact(self, other: AmountView)
        requires
            self.adds_exactly(other),
        ensures
            self.sum(other) == Some(self.aligned_sum(other)),
            self.aligned_sum(other).units() == self.units() + other.units(),
    {
        self.lemma_units_sign();
        other.lemma_units_sign();
        if self.mantissa != 0 && other.mantissa != 0 {
            let scale: nat = if self.scale >= other.scale {
                self.scale
            } else {
                other.scale
            };
            let rest = pow10((MAX_SCALE - scale) as nat);
            self.lemma_mantissa_at_keeps_units(scale);
            other.lemma_mantissa_at_keeps_units(scale);
            assert((self.mantissa_at(scale) + other.mantissa_at(scale)) * rest
                == self.mantissa_at(scale) * rest + other.mantissa_at(scale) * rest)
                by (nonlinear_arith);
        }
    }

    /// Where subtracting loses nothing, the result is the aligned
    /// difference, and it stands for the difference of the two numbers.
    pub proof fn lemma_difference_is_exact(self, other: AmountView)
        requires
            self.subtracts_exactly(other),
        ensures
            self.difference(other) == Some(self.aligned_difference(other)),
            self.aligned_difference(other).units() == self.units() - other.units(),
    {
        self.lemma_units_sign();
        other.lemma_units_sign();
        if self.mantissa == 0 {
            let rest = pow10((MAX_SCALE - other.scale) as nat);
            assert((-other.mantissa) * rest == -(other.mantissa * rest)) by (nonlinear_arith);
        } else if other.mantissa != 0 {
            let scale: nat = if self.scale >= other.scale {
                self.scale
            } else {
                other.scale
            };
            let rest = pow10((MAX_SCALE - scale) as nat);
            self.lemma_mantissa_at_keeps_units(scale);
            other.lemma_mantissa_at_keeps_units(scale);
            assert((self.mantissa_at(scale) - other.mantissa_at(scale)) * rest
                == self.mantissa_at(scale) * rest - other.mantissa_at(scale) * rest)
                by (nonlinear_arith);
        }
    }

    /// What was added without loss can be taken away again without loss:
    /// where a positive amount is added exactly to one that is not
    /// negative, subtracting it from the sum is exact too.
    pub proof fn lemma_sum_can_be_undone(self, other: AmountView)
        requires
            self.mantissa >= 0,
            other.mantissa > 0,
            self.adds_exactly(other),
        ensures
            self.aligned_sum(other).subtracts_exactly(other),
    {
        let sum = self.aligned_sum(other);
        assert(pow10(0) == 1);
        if self.mantissa != 0 {
            let scale: nat = if self.scale >= other.scale {
                self.scale
            } else {
                other.scale
            };
            let up = pow10((scale - self.scale) as nat);
            let other_up = pow10((scale - other.scale) as nat);
            lemma_pow10_positive((scale - self.scale) as nat);
            lemma_pow10_positive((scale - other.scale) as nat);
            assert(self.mantissa * up > 0) by (nonlinear_arith)
                requires
                    self.mantissa > 0,
                    up > 0,
            ;
            assert(other.mantissa * other_up > 0) by (nonlinear_arith)
                requires
                    other.mantissa > 0,
                    other_up > 0,
            ;
            assert(sum.mantissa_at(scale) == sum.mantissa) by (nonlinear_arith)
                requires
                    sum.mantissa_at(scale) == sum.mantissa * 1,
            ;
            assert(sum.aligned_difference(other).mantissa == self.mantissa * up);
        } else {
            assert(other.mantissa_at(other.scale) == other.mantissa) by (nonlinear_arith)
                requires
                    other.mantissa_at(other.scale) == other.mantissa * 1,
            ;
        }
    }
}

/// A decimal amount of currency.
#[derive(Clone, Copy, Debug)]
pub struct Amount {
    mantissa: i128,
    scale: u32,
}

impl View for Amount {
    type V = AmountView;

    closed spec fn view(&self) -> AmountView {
        AmountView { mantissa: self.mantissa as int, scale: self.scale as nat }
    }
}

/// Two amounts are equal when they stand for the same number: `1.50` equals
/// `1.5`.
impl PartialEq for Amount {
    fn eq(&self, other: &Amount) -> (r: bool) {
        proof {
            use_type_invariant(self);
            use_type_invariant(other);
        }
        !self.exceeds(other) && !other.exceeds(self)
    }
}

impl PartialEqSpecImpl for Amount {
    open spec fn obeys_eq_spec() -> bool {
        true
    }

    open spec fn eq_spec(&self, other: &Amount) -> bool {
        self@.units() == other@.units()
    }
}

/// The view of an optional amount.
pub open spec fn view_of(amount: Option<Amount>) -> Option<AmountView> {
    match amount {
        Some(a) => Some(a@),
        None => None,
    }
}

impl Amount {
    /// Every amount that exists is valid.
    #[verifier::type_invariant]
    pub open spec fn well_formed(self) -> bool {
        self@.valid()
    }

    /// The amount `mantissa / 10^scale`, if the mantissa fits in 96 bits and
    /// the scale is at most 28.
    pub fn new(mantissa: i128, scale: u32) -> (r: Option<Amount>)
        ensures
            match r {
                Some(a) => a@ == (AmountView { mantissa: mantissa as int, scale: scale as nat }),
                None => !(AmountView { mantissa: mantissa as int, scale: scale as nat }).valid(),
            },
    {
        if -MAX_MANTISSA <= mantissa && mantissa <= MAX_MANTISSA && scale <= MAX_SCALE {
            Some(Amount { mantissa, scale })
        } else {
            None
        }
    }

    /// Zero, with no digits after the point.
    pub fn zero() -> (r: Amount)
        ensures
            r@ == (AmountView { mantissa: 0, scale: 0 }),
    {
        Amount { mantissa: 0, scale: 0 }
    }

    pub fn mantissa(&self) -> (r: i128)
        ensures
            r == self@.mantissa,
    {
        self.mantissa
    }

    pub fn scale(&self) -> (r: u32)
        ensures
            r == self@.scale,
    {
        self.scale
    }

    /// `Decimal::checked_add`. Trusted: a zero operand gives back the other
    /// operand unchanged; otherwise the operands are brought to the larger
    /// scale and, where the sum of the two mantissas then fits in 96 bits,
    /// that sum is returned at that scale. Beyond that the crate rounds to
    /// fewer digits or reports overflow, which is only named here.
    #[verifier::external_body]
    pub(crate) fn checked_add(&self, other: &Amount) -> (r: Option<Amount>)
        requires
            self@.valid(),
            other@.valid(),
        ensures
            self@.aligned_sum(other@).valid() ==> view_of(r) == Some(self@.aligned_sum(other@)),
            !self@.aligned_sum(other@).valid() ==> view_of(r) == rounded_sum(self@, other@),
    {
        let a = Decimal::from_i128_with_scale(self.mantissa, self.scale);
        let b = Decimal::from_i128_with_scale(other.mantissa, other.scale);
        match a.checked_add(b) {
            Some(s) => Some(Amount { mantissa: s.mantissa(), scale: s.scale() }),
            None => None,
        }
    }

    /// `Decimal::checked_sub`. Trusted: taking zero away gives back the
    /// amount unchanged and taking an amount from zero negates it; otherwise
    /// the operands are brought to the larger scale and, where the
    /// difference of the two mantissas then fits in 96 bits, that difference
    /// is returned at that scale. Beyond that the crate rounds to fewer
    /// digits or reports overflow, which is only named here.
    #[verifier::external_body]
    pub(crate) fn checked_sub(&self, other: &Amount) -> (r: Option<Amount>)
        requires
            self@.valid(),
            other@.valid(),
        ensures
            self@.aligned_difference(other@).valid() ==> view_of(r) == Some(
                self@.aligned_difference(other@),
            ),
            !self@.aligned_difference(other@).valid() ==> view_of(r) == rounded_difference(
                self@,
                other@,
            ),
    {
        let a = Decimal::from_i128_with_scale(self.mantissa, self.scale);
        let b = Decimal::from_i128_with_scale(other.mantissa, other.scale);
        match a.checked_sub(b) {
            Some(s) => Some(Amount { mantissa: s.mantissa(), scale: s.scale() }),
            None => None,
        }
    }

    /// `Decimal`'s `>`. Trusted: it orders amounts by the numbers they stand
    /// for, whatever their scales.
    #[verifier::external_body]
    pub(crate) fn exceeds(&self, other: &Amount) -> (r: bool)
        requires
            self@.valid(),
            other@.valid(),
        ensures
            r == (self@.units() > other@.units()),
    {
        let a = Decimal::from_i128_with_scale(self.mantissa, self.scale);
        let b = Decimal::from_i128_with_scale(other.mantissa, other.scale);
        a > b
    }

    /// `Decimal`'s `to_string`. Trusted: it writes a minus sign for a
    /// negative amount, then the digits of the mantissa with a point before
    /// the last `scale` of them, padded with zeros so that at least one
    /// digit stands before the point.
    #[verifier::external_body]
    pub(crate) fn to_text(&self) -> (r: String)
        requires
            self@.valid(),
        ensures
            r@ == decimal_text(self@),
    {
        Decimal::from_i128_with_scale(self.mantissa, self.scale).to_string()
    }
}

} // verus!
