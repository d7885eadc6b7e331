use call_bridge::meter::{CostMeter, OutOfBudget};

#[test]
fn charge_takes_the_amount() {
    let mut meter = CostMeter::new(100);
    assert_eq!(meter.remaining(), 100);
    assert_eq!(meter.charge(30), Ok(()));
    assert_eq!(meter.remaining(), 70);
    assert_eq!(meter.charge(0), Ok(()));
    assert_eq!(meter.remaining(), 70);
    assert_eq!(meter.charge(70), Ok(()));
    assert_eq!(meter.remaining(), 0);
}

#[test]
fn charge_beyond_the_budget_takes_nothing() {
    let mut meter = CostMeter::new(10);
    assert_eq!(meter.charge(11), Err(OutOfBudget));
    assert_eq!(meter.remaining(), 10);
    assert_eq!(meter.charge(u64::MAX), Err(OutOfBudget));
    assert_eq!(meter.remaining(), 10);
    assert_eq!(meter.charge(10), Ok(()));
    assert_eq!(meter.charge(1), Err(OutOfBudget));
    assert_eq!(meter.remaining(), 0);
}

#[test]
fn empty_budget_covers_a_cost_of_zero_only() {
    let mut meter = CostMeter::new(0);
    assert_eq!(meter.charge(0), Ok(()));
    assert_eq!(meter.charge(1), Err(OutOfBudget));
}
