use cosmwasm_vm::errors::VmError;
use cosmwasm_vm::metering::{classify_trap, Budget};

#[test]
fn remaining_points_are_what_is_left() {
    assert_eq!(Budget::Remaining(0).gas_left(), 0);
    assert_eq!(Budget::Remaining(1).gas_left(), 1);
    assert_eq!(Budget::Remaining(500_000).gas_left(), 500_000);
    assert_eq!(Budget::Remaining(u64::MAX).gas_left(), u64::MAX);
}

#[test]
fn an_exhausted_budget_leaves_nothing() {
    assert_eq!(Budget::Exhausted.gas_left(), 0);
}

#[test]
fn a_trap_with_an_exhausted_budget_is_gas_depletion() {
    assert_eq!(
        classify_trap(Budget::Exhausted, "unreachable".to_string()),
        VmError::GasDepletion
    );
    assert_eq!(
        classify_trap(Budget::Exhausted, String::new()),
        VmError::GasDepletion
    );
}

#[test]
fn a_trap_with_points_left_is_a_runtime_error() {
    assert_eq!(
        classify_trap(Budget::Remaining(17), "unreachable".to_string()),
        VmError::RuntimeError {
            msg: "unreachable".to_string(),
        }
    );
}

#[test]
fn a_trap_with_no_points_left_but_no_cut_is_a_runtime_error() {
    // all points are used up, yet the call was not cut short for it
    assert_eq!(
        classify_trap(Budget::Remaining(0), "out of bounds".to_string()),
        VmError::RuntimeError {
            msg: "out of bounds".to_string(),
        }
    );
}
