//! The storage module: a single mutable slot and the operations over it.

use core::marker::PhantomData;
use vstd::prelude::*;
use crate::scale::{clamped, Conditional, DispatchClass, DispatchInfo, Fixed, Linear, Quadratic};

verus! {

/// Configuration a host runtime supplies when it adopts this module. The
/// module itself needs nothing from the host, so the trait has no items; it
/// only ties a [`Module`] instance to one host configuration.
pub trait Trait {}

/// The one way an operation can fail: the caller-declared mirror of the
/// stored value disagreed with the value actually in storage.
#[derive(Clone, Copy, Debug, PartialEq, Eq, Structural)]
pub enum DispatchError {
    ValidationMismatch,
}

/// What every operation reports back to the host: success, or why it
/// refused to run.
pub type DispatchResult = Result<(), DispatchError>;

/// The stored value after `store_value(entry)` runs against a slot holding
/// `before`: the slot is overwritten, so the prior value is irrelevant.
pub open spec fn store_value_result(before: u32, entry: u32) -> u32 {
    entry
}

/// The stored value after `add_n(n)` runs against a slot holding `before`:
/// `n` saturating increments amount to one saturating addition of `n`.
pub open spec fn add_n_result(before: u32, n: u32) -> u32 {
    clamped(before + n)
}

/// The stored value after `double` succeeds against a slot holding
/// `before`: one saturating increment per unit held at entry doubles it.
pub open spec fn double_result(before: u32) -> u32 {
    clamped(2 * before)
}

/// The stored value after `complex_calculations(x, y)` runs against a slot
/// holding `before`: the final write of the phase-one accumulator, `2 * y`
/// saturated, overwrites everything phase two did, so neither `before` nor
/// `x` appears in the result.
pub open spec fn complex_calculations_result(before: u32, x: u32, y: u32) -> u32 {
    clamped(2 * y)
}

/// The stored value after `add_or_set(add_flag, val)` runs against a slot
/// holding `before`: `val` with the flag set, the old value — rewritten in
/// place `val` times — with the flag clear.
pub open spec fn add_or_set_result(before: u32, add_flag: bool, val: u32) -> u32 {
    if add_flag {
        val
    } else {
        before
    }
}

/// The storage module: one mutable slot, read and written by the
/// operations, plus the host configuration it was instantiated for. The
/// host owns a single instance and hands it to one operation at a time.
#[verifier::reject_recursive_types(T)]
pub struct Module<T: Trait> {
    /// The single storage slot. It starts at zero and is overwritten in
    /// place by the operations; saturating arithmetic keeps every update
    /// within the `u32` range.
    pub stored_value: u32,
    /// Marks the host configuration this instance belongs to.
    pub config: PhantomData<T>,
}

impl<T: Trait> Module<T> {
    /// A fresh module instance; the stored value starts at zero.
    pub fn new() -> (m: Module<T>)
        ensures
            m.stored_value == 0,
    {
        Module { stored_value: 0, config: PhantomData }
    }

    /// Query accessor: the current stored value, readable by callers
    /// outside any operation.
    pub fn stored_value(&self) -> (v: u32)
        ensures
            v == self.stored_value,
    {
        self.stored_value
    }

    /// Overwrite the stored value with `entry`. Always succeeds.
    pub fn store_value(&mut self, entry: u32) -> (r: DispatchResult)
        ensures
            final(self).stored_value == store_value_result(old(self).stored_value, entry),
            r is Ok,
    {
        self.stored_value = entry;
        Ok(())
    }

    /// Increment the stored value by one, `n` times over, reading and
    /// writing the slot on every iteration; each increment saturates at
    /// `u32::MAX`. Always succeeds.
    pub fn add_n(&mut self, n: u32) -> (r: DispatchResult)
        ensures
            final(self).stored_value == add_n_result(old(self).stored_value, n),
            r is Ok,
    {
        let ghost start: u32 = self.stored_value;
        let mut i: u32 = 0;
        while i < n
            invariant
                i <= n,
                self.stored_value == clamped(start + i),
            decreases n - i,
        {
            let current = self.stored_value;
            self.stored_value = current.saturating_add(1);
            i = i + 1;
        }
        Ok(())
    }

    /// Approximately double the stored value by incrementing it once for
    /// each unit it held at entry, saturating at `u32::MAX`. The caller
    /// must declare the value it expects storage to hold — the weight of
    /// the call is estimated from that declaration, and a mismatch would
    /// let the caller underpay — so when `initial_value` disagrees with
    /// storage the call fails with [`DispatchError::ValidationMismatch`]
    /// before any mutation, and the stored value is left unchanged.
    pub fn double(&mut self, initial_value: u32) -> (r: DispatchResult)
        ensures
            initial_value == old(self).stored_value ==> r is Ok,
            initial_value == old(self).stored_value ==> final(self).stored_value == double_result(
                old(self).stored_value,
            ),
            initial_value != old(self).stored_value ==> r == Err::<(), DispatchError>(
                DispatchError::ValidationMismatch,
            ),
            initial_value != old(self).stored_value ==> *final(self) == *old(self),
    {
        let initial = self.stored_value;
        if initial != initial_value {
            return Err(DispatchError::ValidationMismatch);
        }

        let ghost start: u32 = self.stored_value;
        let mut i: u32 = 0;
        while i < initial
            invariant
                i <= initial,
                initial == start,
                self.stored_value == clamped(start + i),
            decreases initial - i,
        {
            let current = self.stored_value;
            self.stored_value = current.saturating_add(1);
            i = i + 1;
        }
        Ok(())
    }

    /// Two independent phases: first a cheap in-memory loop accumulates
    /// `2 * y` in a local counter, then `x^2` expensive storage
    /// read-increment-write cycles run, and one final write stores the
    /// phase-one accumulator — overwriting the phase-two result, whatever
    /// `x` was. Every addition saturates at `u32::MAX`. Always succeeds.
    pub fn complex_calculations(&mut self, x: u32, y: u32) -> (r: DispatchResult)
        ensures
            final(self).stored_value == complex_calculations_result(old(self).stored_value, x, y),
            r is Ok,
    {
        let mut part1: u32 = 0;
        let mut i: u32 = 0;
        while i < y
            invariant
                i <= y,
                part1 == clamped(2 * i),
            decreases y - i,
        {
            part1 = part1.saturating_add(2);
            i = i + 1;
        }

        let mut j: u32 = 0;
        while j < x
            invariant
                j <= x,
            decreases x - j,
        {
            let mut k: u32 = 0;
            while k < x
                invariant
                    k <= x,
                decreases x - k,
            {
                let current = self.stored_value;
                self.stored_value = current.saturating_add(1);
                k = k + 1;
            }
            j = j + 1;
        }

        self.stored_value = part1;
        Ok(())
    }

    /// With the flag set, one cheap write of `val` into the slot. With the
    /// flag clear, `val` read-then-write-back cycles that leave the stored
    /// value as it was — deliberately expensive work with no effect, kept
    /// to show that cost and effect are independent. Always succeeds.
    pub fn add_or_set(&mut self, add_flag: bool, val: u32) -> (r: DispatchResult)
        ensures
            final(self).stored_value == add_or_set_result(old(self).stored_value, add_flag, val),
            r is Ok,
    {
        if add_flag {
            self.stored_value = val;
        } else {
            let ghost start: u32 = self.stored_value;
            let mut i: u32 = 0;
            while i < val
                invariant
                    i <= val,
                    self.stored_value == start,
                decreases val - i,
            {
                let current = self.stored_value;
                self.stored_value = current;
                i = i + 1;
            }
        }
        Ok(())
    }

    /// Dispatch information declared for `store_value`: the operation does
    /// not loop, so a fixed scale with weight 100 covers its one write.
    pub fn store_value_info(entry: u32) -> (info: DispatchInfo)
        ensures
            info.weight == 100,
            info.pays_fee,
            info.class == DispatchClass::Normal,
    {
        let scale = Fixed(100);
        DispatchInfo {
            weight: scale.weigh_data(entry),
            pays_fee: scale.pays_fee(),
            class: scale.classify_dispatch(entry),
        }
    }

    /// Dispatch information declared for `add_n`: the operation performs a
    /// read and a write per iteration, so its weight is linear in `n` with
    /// coefficient 200 — twice the cost of `store_value`'s single write.
    pub fn add_n_info(n: u32) -> (info: DispatchInfo)
        ensures
            info.weight == clamped(n * 200),
            info.pays_fee,
            info.class == DispatchClass::Normal,
    {
        let scale = Linear(200);
        DispatchInfo {
            weight: scale.weigh_data(n),
            pays_fee: scale.pays_fee(),
            class: scale.classify_dispatch(n),
        }
    }

    /// Dispatch information declared for `double`: the work is proportional
    /// to the stored value, which a weight formula cannot read ahead of
    /// time, so the caller's declared mirror of it is weighed instead —
    /// and the operation validates that declaration before mutating.
    pub fn double_info(initial_value: u32) -> (info: DispatchInfo)
        ensures
            info.weight == clamped(initial_value * 200),
            info.pays_fee,
            info.class == DispatchClass::Normal,
    {
        let scale = Linear(200);
        DispatchInfo {
            weight: scale.weigh_data(initial_value),
            pays_fee: scale.pays_fee(),
            class: scale.classify_dispatch(initial_value),
        }
    }

    /// Dispatch information declared for `complex_calculations`: 200 per
    /// storage cycle of the quadratic phase, 30 per cheap in-memory
    /// iteration, and 100 for the final write.
    pub fn complex_calculations_info(x: u32, y: u32) -> (info: DispatchInfo)
        ensures
            info.weight == clamped(x * x * 200 + y * 30 + 100),
            info.pays_fee,
            info.class == DispatchClass::Normal,
    {
        let scale = Quadratic(200, 30, 100);
        DispatchInfo {
            weight: scale.weigh_data(x, y),
            pays_fee: scale.pays_fee(),
            class: scale.classify_dispatch((x, y)),
        }
    }

    /// Dispatch information declared for `add_or_set`: linear in `val` with
    /// the flag set, the bare coefficient with it clear.
    pub fn add_or_set_info(add_flag: bool, val: u32) -> (info: DispatchInfo)
        ensures
            add_flag ==> info.weight == clamped(val * 200),
            !add_flag ==> info.weight == 200,
            info.pays_fee,
            info.class == DispatchClass::Normal,
    {
        let scale = Conditional(200);
        DispatchInfo {
            weight: scale.weigh_data(add_flag, val),
            pays_fee: scale.pays_fee(),
            class: scale.classify_dispatch((add_flag, val)),
        }
    }
}

/// Law: storing `entry` and then querying the slot yields `entry`,
/// whatever the slot held before.
pub proof fn lemma_store_then_query(before: u32, entry: u32)
    ensures
        store_value_result(before, entry) == entry,
{
}

/// Law: `add_n(n)` increments the stored value by exactly `n` whenever the
/// sum is representable.
pub proof fn lemma_add_n_adds_exactly(before: u32, n: u32)
    requires
        before + n <= u32::MAX,
    ensures
        add_n_result(before, n) == before + n,
{
}

/// Law: `add_n(0)` is a no-op.
pub proof fn lemma_add_n_zero_is_noop(before: u32)
    ensures
        add_n_result(before, 0) == before,
{
}

/// Law: a successful `double` leaves the sum of the stored value with
/// itself whenever that sum is representable.
pub proof fn lemma_double_doubles(before: u32)
    requires
        before + before <= u32::MAX,
    ensures
        double_result(before) == before + before,
{
}

/// Law: the outcome of `complex_calculations` depends on `y` alone — the
/// prior stored value and the whole quadratic phase driven by `x` are
/// overwritten by the final write.
pub proof fn lemma_complex_calculations_overwrites(
    before1: u32,
    x1: u32,
    before2: u32,
    x2: u32,
    y: u32,
)
    ensures
        complex_calculations_result(before1, x1, y) == complex_calculations_result(before2, x2, y),
{
}

/// Law: `complex_calculations` stores exactly `2 * y` whenever that value
/// is representable.
pub proof fn lemma_complex_calculations_exact(before: u32, x: u32, y: u32)
    requires
        2 * y <= u32::MAX,
    ensures
        complex_calculations_result(before, x, y) == 2 * y,
{
}

/// Law: `add_or_set` with the flag clear leaves the stored value unchanged,
/// however much work `val` made it perform.
pub proof fn lemma_add_or_set_clear_is_noop(before: u32, val: u32)
    ensures
        add_or_set_result(before, false, val) == before,
{
}

} // verus!
