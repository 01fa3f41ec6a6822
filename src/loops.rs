//! The loop forms: `loop` with a value, labelled loops, `while` and `for`.
use vstd::prelude::*;

verus! {

/// One line of the nested labelled loop's trace: the outer counter on entry
/// to an outer pass, or the inner counter on entry to an inner pass.
#[derive(Debug, Clone, Copy, PartialEq, Eq, Structural)]
pub enum LoopEvent {
    Count(u32),
    Remaining(u32),
}

/// The trace of the first `n` outer passes that end in the inner `break`:
/// each shows its counter, then the inner counter at 10 and at 9.
pub open spec fn full_passes(n: nat) -> Seq<LoopEvent>
    decreases n,
{
    if n == 0 {
        Seq::empty()
    } else {
        full_passes((n - 1) as nat) + seq![
            LoopEvent::Count((n - 1) as u32),
            LoopEvent::Remaining(10),
            LoopEvent::Remaining(9),
        ]
    }
}

/// The whole trace of the nested loop that stops at `stop`: the full passes
/// below `stop`, then the last pass, cut short by the labelled `break`.
pub open spec fn labelled_trace(stop: nat) -> Seq<LoopEvent> {
    full_passes(stop) + seq![LoopEvent::Count(stop as u32), LoopEvent::Remaining(10)]
}

/// Counts up from 0 in a `loop` and leaves it with twice the count once the
/// count reaches `target`.
pub fn break_with_value(target: u32) -> (r: u32)
    requires
        1 <= target <= u32::MAX / 2,
    ensures
        r == 2 * target,
{
    let mut count: u32 = 0;
    let mut result: u32 = 0;
    loop
        invariant_except_break
            count < target,
        invariant
            target <= u32::MAX / 2,
        ensures
            result == 2 * target,
        decreases target - count,
    {
        count += 1;
        if count == target {
            result = count * 2;
            break;
        }
    }
    result
}

/// Runs an outer loop labelled `'counting_up` from 0, with an inner loop
/// that counts down from 10 and breaks at 9; at `stop` the inner loop leaves
/// both loops at once. Returns the outer counter at the end and the trace.
pub fn labelled_count(stop: u32) -> (r: (u32, Vec<LoopEvent>))
    ensures
        r.0 == stop,
        r.1@ == labelled_trace(stop as nat),
{
    let mut trace: Vec<LoopEvent> = Vec::new();
    let mut count: u32 = 0;
    'counting_up: loop
        invariant_except_break
            count <= stop,
            trace@ == full_passes(count as nat),
        ensures
            count == stop,
            trace@ == labelled_trace(stop as nat),
        decreases stop - count,
    {
        trace.push(LoopEvent::Count(count));
        let mut remaining: u32 = 10;
        loop
            invariant_except_break
                count <= stop,
                remaining == 10 || remaining == 9,
                remaining == 10 ==> trace@ == full_passes(count as nat) + seq![
                    LoopEvent::Count(count),
                ],
                remaining == 9 ==> count < stop && trace@ == full_passes(count as nat) + seq![
                    LoopEvent::Count(count),
                    LoopEvent::Remaining(10),
                ],
            ensures
                count < stop,
                trace@ == full_passes((count + 1) as nat),
            decreases remaining,
        {
            trace.push(LoopEvent::Remaining(remaining));
            if remaining == 9 {
                break;
            }
            if count == stop {
                break 'counting_up;
            }
            remaining -= 1;
        }
        count += 1;
    }
    (count, trace)
}

/// The numbers from `n` down to 1.
pub open spec fn countdown_seq(n: nat) -> Seq<u32> {
    Seq::new(n, |i: int| (n - i) as u32)
}

/// The numbers from `hi - 1` down to `lo`; empty where `hi <= lo`.
pub open spec fn reversed_range(lo: nat, hi: nat) -> Seq<u32> {
    if hi <= lo {
        Seq::empty()
    } else {
        Seq::new((hi - lo) as nat, |i: int| (hi - 1 - i) as u32)
    }
}

/// Counts down from `from` with a `while` loop that stops at 0, and returns
/// the numbers it passed through.
pub fn countdown(from: u32) -> (r: Vec<u32>)
    ensures
        r@ == countdown_seq(from as nat),
{
    let mut out: Vec<u32> = Vec::new();
    let mut number: u32 = from;
    while number != 0
        invariant
            number <= from,
            out@.len() == from - number,
            forall|i: int| 0 <= i < out@.len() ==> out@[i] == from - i,
        decreases number,
    {
        out.push(number);
        number -= 1;
    }
    assert(out@ == countdown_seq(from as nat));
    out
}

/// Reads the elements of `a` by index in a `while` loop.
pub fn values_by_index(a: &[i32]) -> (r: Vec<i32>)
    ensures
        r@ == a@,
{
    let mut out: Vec<i32> = Vec::new();
    let mut index: usize = 0;
    while index < a.len()
        invariant
            index <= a@.len(),
            out@ == a@.subrange(0, index as int),
        decreases a@.len() - index,
    {
        out.push(a[index]);
        index += 1;
    }
    assert(out@ == a@.subrange(0, a@.len() as int));
    out
}

/// Reads the elements of `a` through its iterator in a `for` loop.
pub fn values_by_iter(a: &[i32]) -> (r: Vec<i32>)
    ensures
        r@ == a@,
{
    let mut out: Vec<i32> = Vec::new();
    for element in it: a.iter()
        invariant
            out@.len() == it.index(),
            forall|i: int| 0 <= i < out@.len() ==> out@[i] == *it.seq()[i],
    {
        out.push(*element);
    }
    assert(out@ == a@);
    out
}

/// Walks the range `lo..hi` from its top down to `lo`.
pub fn reverse_range(lo: u32, hi: u32) -> (r: Vec<u32>)
    ensures
        r@ == reversed_range(lo as nat, hi as nat),
{
    let mut out: Vec<u32> = Vec::new();
    let mut number: u32 = hi;
    while number > lo
        invariant
            lo < hi ==> lo <= number <= hi,
            lo >= hi ==> number == hi,
            out@.len() == hi - number,
            forall|i: int| 0 <= i < out@.len() ==> out@[i] == hi - 1 - i,
        decreases number,
    {
        number -= 1;
        out.push(number);
    }
    assert(out@ == reversed_range(lo as nat, hi as nat));
    out
}

/// What each loop of the loop tour computes.
pub struct Repetition {
    /// The value the counting `loop` leaves with.
    pub result: u32,
    /// The outer counter after the labelled loops end.
    pub end_count: u32,
    /// The trace of the labelled loops.
    pub counting: Vec<LoopEvent>,
    /// The numbers the `while` countdown passes through.
    pub countdown: Vec<u32>,
    /// The array's elements, read by index.
    pub by_index: Vec<i32>,
    /// The array's elements, read through its iterator.
    pub by_iter: Vec<i32>,
    /// The range `1..4` walked backwards.
    pub reversed: Vec<u32>,
}

/// Runs each loop form once on fixed inputs: a `loop` leaving with a value
/// at 10, labelled loops stopping at 2, a countdown from 3, the array
/// `[10, 20, 30, 40, 50]` read two ways, and the range `1..4` walked
/// backwards.
pub fn repetition() -> (r: Repetition)
    ensures
        r.result == 20,
        r.end_count == 2,
        r.counting@ == labelled_trace(2),
        r.countdown@ == seq![3u32, 2, 1],
        r.by_index@ == seq![10i32, 20, 30, 40, 50],
        r.by_iter@ == seq![10i32, 20, 30, 40, 50],
        r.reversed@ == seq![3u32, 2, 1],
{
    let result = break_with_value(10);
    let (end_count, counting) = labelled_count(2);
    let countdown = countdown(3);
    assert(countdown@ == seq![3u32, 2, 1]);
    let a: [i32; 5] = [10, 20, 30, 40, 50];
    let by_index = values_by_index(&a);
    let b: [i32; 5] = [10, 20, 30, 40, 50];
    let by_iter = values_by_iter(&b);
    assert(by_index@ == seq![10i32, 20, 30, 40, 50]);
    assert(by_iter@ == seq![10i32, 20, 30, 40, 50]);
    let reversed = reverse_range(1, 4);
    assert(reversed@ == seq![3u32, 2, 1]);
    Repetition { result, end_count, counting, countdown, by_index, by_iter, reversed }
}

} // verus!
