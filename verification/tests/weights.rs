use weights::pallet::{DispatchError, Module, Trait};
use weights::scale::{Conditional, DispatchClass, Fixed, Linear, Quadratic};

struct HostConfig;

impl Trait for HostConfig {}

fn fresh_module() -> Module<HostConfig> {
    Module::new()
}

#[test]
fn linear_weight_is_the_product() {
    assert_eq!(Linear(200).weigh_data(5), 1000);
    assert_eq!(Linear(200).weigh_data(0), 0);
    assert_eq!(Linear(0).weigh_data(u32::MAX), 0);
}

#[test]
fn linear_weight_saturates_instead_of_overflowing() {
    assert_eq!(Linear(2).weigh_data(u32::MAX), u32::MAX);
    assert_eq!(Linear(u32::MAX).weigh_data(u32::MAX), u32::MAX);
    assert_eq!(Linear(1).weigh_data(u32::MAX), u32::MAX);
}

#[test]
fn quadratic_weight_follows_the_formula() {
    // 4 * 4 * 200 + 10 * 30 + 100
    assert_eq!(Quadratic(200, 30, 100).weigh_data(4, 10), 3600);
    assert_eq!(Quadratic(200, 30, 100).weigh_data(0, 0), 100);
    assert_eq!(Quadratic(0, 0, 0).weigh_data(u32::MAX, u32::MAX), 0);
}

#[test]
fn quadratic_weight_clamps_each_step() {
    // The squared term alone exceeds the maximum weight.
    assert_eq!(Quadratic(1, 0, 0).weigh_data(u32::MAX, 0), u32::MAX);
    // The linear term saturates, and the constant cannot push it higher.
    assert_eq!(Quadratic(0, 2, 5).weigh_data(0, u32::MAX), u32::MAX);
    // Saturation happens only at the final addition.
    assert_eq!(Quadratic(0, 1, 1).weigh_data(0, u32::MAX), u32::MAX);
}

#[test]
fn conditional_weight_selects_a_branch_on_the_flag() {
    assert_eq!(Conditional(200).weigh_data(true, 7), 1400);
    assert_eq!(Conditional(200).weigh_data(false, 7), 200);
    assert_eq!(Conditional(200).weigh_data(true, u32::MAX), u32::MAX);
    assert_eq!(Conditional(200).weigh_data(false, u32::MAX), 200);
}

#[test]
fn fixed_weight_ignores_the_parameters() {
    assert_eq!(Fixed(100).weigh_data(12345u32), 100);
    assert_eq!(Fixed(100).weigh_data((true, 7u32)), 100);
}

#[test]
fn every_scale_charges_a_fee_and_classifies_as_normal() {
    assert!(Fixed(100).pays_fee());
    assert!(Linear(200).pays_fee());
    assert!(Quadratic(200, 30, 100).pays_fee());
    assert!(Conditional(200).pays_fee());
    assert_eq!(Fixed(100).classify_dispatch(1u32), DispatchClass::Normal);
    assert_eq!(Linear(200).classify_dispatch(1u32), DispatchClass::Normal);
    assert_eq!(
        Quadratic(200, 30, 100).classify_dispatch((1u32, 2u32)),
        DispatchClass::Normal
    );
    assert_eq!(
        Conditional(200).classify_dispatch((true, 2u32)),
        DispatchClass::Normal
    );
    assert_eq!(DispatchClass::default(), DispatchClass::Normal);
}

#[test]
fn a_fresh_module_stores_zero() {
    let m = fresh_module();
    assert_eq!(m.stored_value(), 0);
}

#[test]
fn store_value_then_query_returns_the_value() {
    let mut m = fresh_module();
    assert!(m.store_value(41).is_ok());
    assert_eq!(m.stored_value(), 41);
    assert!(m.store_value(0).is_ok());
    assert_eq!(m.stored_value(), 0);
    assert!(m.store_value(u32::MAX).is_ok());
    assert_eq!(m.stored_value(), u32::MAX);
}

#[test]
fn add_n_increments_by_exactly_n() {
    let mut m = fresh_module();
    assert!(m.store_value(10).is_ok());
    assert!(m.add_n(7).is_ok());
    assert_eq!(m.stored_value(), 17);
}

#[test]
fn add_n_zero_is_a_noop() {
    let mut m = fresh_module();
    assert!(m.store_value(10).is_ok());
    assert!(m.add_n(0).is_ok());
    assert_eq!(m.stored_value(), 10);
}

#[test]
fn add_n_saturates_at_the_maximum() {
    let mut m = fresh_module();
    assert!(m.store_value(u32::MAX - 2).is_ok());
    assert!(m.add_n(5).is_ok());
    assert_eq!(m.stored_value(), u32::MAX);
}

#[test]
fn double_succeeds_on_a_matching_declaration() {
    let mut m = fresh_module();
    assert!(m.store_value(21).is_ok());
    assert!(m.double(21).is_ok());
    assert_eq!(m.stored_value(), 42);
}

#[test]
fn double_rejects_a_mismatched_declaration_and_mutates_nothing() {
    let mut m = fresh_module();
    assert!(m.store_value(21).is_ok());
    assert_eq!(m.double(20), Err(DispatchError::ValidationMismatch));
    assert_eq!(m.stored_value(), 21);
}

#[test]
fn complex_calculations_stores_twice_y() {
    let mut m = fresh_module();
    assert!(m.store_value(999).is_ok());
    assert!(m.complex_calculations(4, 10).is_ok());
    assert_eq!(m.stored_value(), 20);
}

#[test]
fn complex_calculations_ignores_x_and_the_prior_value() {
    let mut m = fresh_module();
    assert!(m.complex_calculations(0, 3).is_ok());
    assert_eq!(m.stored_value(), 6);
    assert!(m.complex_calculations(9, 3).is_ok());
    assert_eq!(m.stored_value(), 6);
}

#[test]
fn add_or_set_with_the_flag_set_writes_the_value() {
    let mut m = fresh_module();
    assert!(m.store_value(3).is_ok());
    assert!(m.add_or_set(true, 99).is_ok());
    assert_eq!(m.stored_value(), 99);
}

#[test]
fn add_or_set_with_the_flag_clear_changes_nothing() {
    let mut m = fresh_module();
    assert!(m.store_value(3).is_ok());
    assert!(m.add_or_set(false, 99).is_ok());
    assert_eq!(m.stored_value(), 3);
}

#[test]
fn store_value_declares_a_fixed_weight() {
    let info = Module::<HostConfig>::store_value_info(12345);
    assert_eq!(info.weight, 100);
    assert!(info.pays_fee);
    assert_eq!(info.class, DispatchClass::Normal);
}

#[test]
fn add_n_declares_a_linear_weight() {
    let info = Module::<HostConfig>::add_n_info(3);
    assert_eq!(info.weight, 600);
    assert!(info.pays_fee);
    assert_eq!(info.class, DispatchClass::Normal);
    assert_eq!(Module::<HostConfig>::add_n_info(u32::MAX).weight, u32::MAX);
}

#[test]
fn double_declares_a_linear_weight_in_the_declared_value() {
    let info = Module::<HostConfig>::double_info(8);
    assert_eq!(info.weight, 1600);
    assert!(info.pays_fee);
    assert_eq!(info.class, DispatchClass::Normal);
}

#[test]
fn complex_calculations_declares_a_quadratic_weight() {
    let info = Module::<HostConfig>::complex_calculations_info(4, 10);
    assert_eq!(info.weight, 3600);
    assert!(info.pays_fee);
    assert_eq!(info.class, DispatchClass::Normal);
}

#[test]
fn add_or_set_declares_a_conditional_weight() {
    let cheap = Module::<HostConfig>::add_or_set_info(false, 7);
    assert_eq!(cheap.weight, 200);
    assert!(cheap.pays_fee);
    assert_eq!(cheap.class, DispatchClass::Normal);
    let linear = Module::<HostConfig>::add_or_set_info(true, 7);
    assert_eq!(linear.weight, 1400);
    assert!(linear.pays_fee);
    assert_eq!(linear.class, DispatchClass::Normal);
}

#[test]
fn end_to_end_scenario() {
    let mut m = fresh_module();
    assert!(m.store_value(5).is_ok());
    assert_eq!(m.stored_value(), 5);
    assert!(m.add_n(3).is_ok());
    assert_eq!(m.stored_value(), 8);
    assert!(m.double(8).is_ok());
    assert_eq!(m.stored_value(), 16);
    assert_eq!(m.double(1), Err(DispatchError::ValidationMismatch));
    assert_eq!(m.stored_value(), 16);
    assert!(m.complex_calculations(4, 10).is_ok());
    assert_eq!(m.stored_value(), 20);
    assert!(m.add_or_set(false, 7).is_ok());
    assert_eq!(m.stored_value(), 20);
}
