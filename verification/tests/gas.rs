use fvm::error::ExecutionError;
use fvm::gas::{price_on_create_actor, GasCharge, GasTracker};

#[test]
fn charge_sequence_prefix_sums() {
    // With limit 100, charges of 40 succeed while every prefix sum
    // stays within the limit; the first that exceeds it fails with
    // OutOfGas and leaves usage at the successful prefix.
    let mut t = GasTracker::new(100, 0);
    assert_eq!(t.charge_gas(GasCharge::new(40, 0)), Ok(()));
    assert_eq!(t.gas_used(), 40);
    assert_eq!(t.charge_gas(GasCharge::new(0, 40)), Ok(()));
    assert_eq!(t.gas_used(), 80);
    assert_eq!(
        t.charge_gas(GasCharge::new(30, 10)),
        Err(ExecutionError::OutOfGas)
    );
    // atomic failure: nothing of the failed charge sticks
    assert_eq!(t.gas_used(), 80);
    // a smaller charge that still fits goes through afterwards
    assert_eq!(t.charge_gas(GasCharge::new(20, 0)), Ok(()));
    assert_eq!(t.gas_used(), 100);
}

#[test]
fn charge_to_exact_limit_succeeds() {
    let mut t = GasTracker::new(50, 0);
    assert_eq!(t.charge_gas(GasCharge::new(25, 25)), Ok(()));
    assert_eq!(t.gas_used(), 50);
    assert_eq!(t.gas_available(), 0);
    assert_eq!(
        t.charge_gas(GasCharge::new(1, 0)),
        Err(ExecutionError::OutOfGas)
    );
}

#[test]
fn gas_available_is_limit_minus_used() {
    let mut t = GasTracker::new(1000, 0);
    assert_eq!(t.gas_available(), 1000);
    t.charge_gas(GasCharge::new(123, 77)).unwrap();
    assert_eq!(t.gas_available(), 800);
    assert_eq!(t.gas_used(), 200);
}

#[test]
fn zero_charge_always_fits_within_limit() {
    let mut t = GasTracker::new(0, 0);
    assert_eq!(t.charge_gas(GasCharge::new(0, 0)), Ok(()));
    assert_eq!(t.gas_used(), 0);
}

#[test]
fn create_actor_price_is_fixed() {
    let mut t = GasTracker::new(1000, 0);
    t.charge_gas(price_on_create_actor()).unwrap();
    assert_eq!(t.gas_used(), 540);
}
