//! Branching with `if`, `else if` and `if` as an expression.
use vstd::prelude::*;

verus! {

/// Which branch of a comparison with five was taken.
#[derive(Debug, Clone, Copy, PartialEq, Eq, Structural)]
pub enum FiveBranch {
    /// The number is below five.
    Below,
    /// The number is five.
    Equal,
    /// Neither branch ran.
    Skipped,
}

/// The first of 4, 3 and 2 that divides a number, if any does.
#[derive(Debug, Clone, Copy, PartialEq, Eq, Structural)]
pub enum Divisor {
    Four,
    Three,
    Two,
    Indivisible,
}

/// What the branches of the `if` tour decided.
#[derive(Debug, Clone, Copy, PartialEq, Eq, Structural)]
pub struct IfOutcome {
    /// The branch taken when comparing the number with five.
    pub five: FiveBranch,
    /// Whether the number is other than zero.
    pub nonzero: bool,
    /// The first divisor the `else if` chain found.
    pub divisor: Divisor,
    /// The value chosen by `if` used as an expression.
    pub chosen: i32,
}

/// The branch that `if n < 5 .. else if n == 5` takes.
pub open spec fn five_branch_of(n: int) -> FiveBranch {
    if n < 5 {
        FiveBranch::Below
    } else if n == 5 {
        FiveBranch::Equal
    } else {
        FiveBranch::Skipped
    }
}

/// The first of 4, 3 and 2 that divides `n`; only the first true condition
/// of the chain counts.
pub open spec fn divisor_of(n: int) -> Divisor {
    if n % 4 == 0 {
        Divisor::Four
    } else if n % 3 == 0 {
        Divisor::Three
    } else if n % 2 == 0 {
        Divisor::Two
    } else {
        Divisor::Indivisible
    }
}

/// Runs the `if` tour on `number`, choosing 5 where `condition` holds and
/// 6 where it does not.
pub fn if_expression(number: i32, condition: bool) -> (r: IfOutcome)
    ensures
        r.five == five_branch_of(number as int),
        r.nonzero == (number != 0),
        r.divisor == divisor_of(number as int),
        r.chosen == if condition { 5i32 } else { 6i32 },
{
    let five = if number < 5 {
        FiveBranch::Below
    } else if number == 5 {
        FiveBranch::Equal
    } else {
        FiveBranch::Skipped
    };
    let nonzero = number != 0;
    let divisor = if number % 4 == 0 {
        Divisor::Four
    } else if number % 3 == 0 {
        Divisor::Three
    } else if number % 2 == 0 {
        Divisor::Two
    } else {
        Divisor::Indivisible
    };
    let chosen: i32 = if condition { 5 } else { 6 };
    IfOutcome { five, nonzero, divisor, chosen }
}

} // verus!
