//! Pure cost models ("scales") that weigh a call from its parameters.

use vstd::prelude::*;

verus! {

/// Abstract work units assigned to an operation before it runs. A weight is
/// not wall-clock time; the host uses it to admit, throttle and fee-charge
/// calls.
pub type Weight = u32;

/// `v` clamped to the range of `Weight`: the value itself when it is
/// representable, the maximum weight otherwise.
pub open spec fn clamped(v: int) -> Weight {
    if v > u32::MAX {
        u32::MAX
    } else {
        v as Weight
    }
}

/// The product of `a` and `b`, clamped to `u32::MAX` instead of overflowing.
pub fn saturating_mul(a: u32, b: u32) -> (r: u32)
    ensures
        r == clamped(a * b),
{
    match a.checked_mul(b) {
        Some(p) => p,
        None => u32::MAX,
    }
}

/// Clamping the left summand before an addition loses nothing once the sum
/// itself is clamped.
proof fn lemma_clamped_add_left(u: int, v: int)
    requires
        0 <= u,
        0 <= v,
    ensures
        clamped(clamped(u) + v) == clamped(u + v),
{
}

/// Clamping a factor before a multiplication loses nothing once the product
/// itself is clamped.
proof fn lemma_clamped_mul_left(u: int, a: int)
    requires
        0 <= u,
        0 <= a <= u32::MAX,
    ensures
        clamped(clamped(u) * a) == clamped(u * a),
{
    if u > u32::MAX {
        if a == 0 {
            assert(u32::MAX as int * 0 == 0);
            assert(u * 0 == 0) by (nonlinear_arith);
        } else {
            assert(u32::MAX as int * a >= u32::MAX) by (nonlinear_arith)
                requires
                    a >= 1,
            ;
            assert(u * a >= u) by (nonlinear_arith)
                requires
                    u >= 0,
                    a >= 1,
            ;
        }
    }
}

/// Scheduling category of an operation. The host partitions calls by this
/// tag; every operation of this module declares the ordinary `Normal` class.
#[derive(Clone, Copy, Debug, PartialEq, Eq, Structural)]
pub enum DispatchClass {
    /// An ordinary user-submitted call.
    Normal,
    /// A call essential to the host's own operation.
    Operational,
}

impl Default for DispatchClass {
    /// The default classification is `Normal`.
    fn default() -> (c: DispatchClass)
        ensures
            c == DispatchClass::Normal,
    {
        DispatchClass::Normal
    }
}

/// Everything an operation declares to the host before it is run: its weight
/// estimate, whether a fee is charged for it, and its dispatch class.
pub struct DispatchInfo {
    pub weight: Weight,
    pub pays_fee: bool,
    pub class: DispatchClass,
}

/// A scale that charges the same weight whatever the call's parameters.
pub struct Fixed(pub u32);

impl Fixed {
    /// The weight is the fixed coefficient, regardless of `_data`.
    pub fn weigh_data<T>(&self, _data: T) -> (w: Weight)
        ensures
            w == self.0,
    {
        self.0
    }

    /// Fees are charged for every call weighed by this scale.
    pub fn pays_fee(&self) -> (f: bool)
        ensures
            f,
    {
        true
    }

    /// Every call weighed by this scale is an ordinary `Normal` call.
    pub fn classify_dispatch<T>(&self, _data: T) -> (c: DispatchClass)
        ensures
            c == DispatchClass::Normal,
    {
        Default::default()
    }
}

/// A scale linear in the call's single parameter: the weight is the product
/// of the parameter and the coefficient, saturating at the maximum weight.
pub struct Linear(pub u32);

impl Linear {
    /// The weight of a call with parameter `x` is `x` times the coefficient,
    /// clamped to the maximum weight: an extremely large parameter cannot
    /// cause an overflow.
    pub fn weigh_data(&self, x: u32) -> (w: Weight)
        ensures
            w == clamped(x * self.0),
    {
        saturating_mul(x, self.0)
    }

    /// Fees are charged for every call weighed by this scale.
    pub fn pays_fee(&self) -> (f: bool)
        ensures
            f,
    {
        true
    }

    /// Every call weighed by this scale is an ordinary `Normal` call.
    pub fn classify_dispatch<T>(&self, _data: T) -> (c: DispatchClass)
        ensures
            c == DispatchClass::Normal,
    {
        Default::default()
    }
}

/// A scale quadratic in the first parameter: with coefficients `(a, b, c)`
/// and parameters `(x, y)` the weight is `a*x^2 + b*y + c`, every step of
/// the computation saturating.
pub struct Quadratic(pub u32, pub u32, pub u32);

impl Quadratic {
    /// The weight of a call with parameters `(x, y)` is
    /// `x^2 * a + y * b + c`, clamped to the maximum weight. Each
    /// intermediate product and sum saturates, which yields the same value
    /// as clamping the exact total once.
    pub fn weigh_data(&self, x: u32, y: u32) -> (w: Weight)
        ensures
            w == clamped(x * x * self.0 + y * self.1 + self.2),
    {
        let ax2 = saturating_mul(saturating_mul(x, x), self.0);
        let by = saturating_mul(y, self.1);
        let c = self.2;

        proof {
            assert(x * x >= 0) by (nonlinear_arith);
            lemma_clamped_mul_left(x * x, self.0 as int);
            lemma_clamped_add_left(x * x * self.0, by as int);
            lemma_clamped_add_left(x * x * self.0 + y * self.1, c as int);
        }
        ax2.saturating_add(by).saturating_add(c)
    }

    /// Fees are charged for every call weighed by this scale.
    pub fn pays_fee(&self) -> (f: bool)
        ensures
            f,
    {
        true
    }

    /// Every call weighed by this scale is an ordinary `Normal` call.
    pub fn classify_dispatch<T>(&self, _data: T) -> (c: DispatchClass)
        ensures
            c == DispatchClass::Normal,
    {
        Default::default()
    }
}

/// A scale whose first parameter, a flag, selects the formula: linear in the
/// second parameter when the flag is set, the bare coefficient otherwise.
pub struct Conditional(pub u32);

impl Conditional {
    /// With the flag set, the weight is `val` times the coefficient, clamped
    /// to the maximum weight; with the flag clear it is the coefficient
    /// unchanged.
    pub fn weigh_data(&self, switch: bool, val: u32) -> (w: Weight)
        ensures
            switch ==> w == clamped(val * self.0),
            !switch ==> w == self.0,
    {
        if switch {
            saturating_mul(val, self.0)
        } else {
            self.0
        }
    }

    /// Fees are charged for every call weighed by this scale.
    pub fn pays_fee(&self) -> (f: bool)
        ensures
            f,
    {
        true
    }

    /// Every call weighed by this scale is an ordinary `Normal` call.
    pub fn classify_dispatch<T>(&self, _data: T) -> (c: DispatchClass)
        ensures
            c == DispatchClass::Normal,
    {
        Default::default()
    }
}

} // verus!
