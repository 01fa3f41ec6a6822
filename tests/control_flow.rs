use rust_examples::control_flow::{if_expression, Divisor, FiveBranch, IfOutcome};

#[test]
fn if_tour_on_three() {
    assert_eq!(
        if_expression(3, true),
        IfOutcome { five: FiveBranch::Below, nonzero: true, divisor: Divisor::Three, chosen: 5 }
    );
}

#[test]
fn if_tour_on_five() {
    assert_eq!(
        if_expression(5, false),
        IfOutcome {
            five: FiveBranch::Equal,
            nonzero: true,
            divisor: Divisor::Indivisible,
            chosen: 6
        }
    );
}

#[test]
fn if_tour_on_zero() {
    let r = if_expression(0, true);
    assert_eq!(r.five, FiveBranch::Below);
    assert!(!r.nonzero);
    assert_eq!(r.divisor, Divisor::Four);
}

#[test]
fn first_true_condition_wins() {
    assert_eq!(if_expression(12, true).divisor, Divisor::Four);
    assert_eq!(if_expression(9, true).divisor, Divisor::Three);
    assert_eq!(if_expression(10, true).divisor, Divisor::Two);
    assert_eq!(if_expression(-6, true).divisor, Divisor::Three);
    assert_eq!(if_expression(8, true).five, FiveBranch::Skipped);
}
