//! The evaluator: a stack of numbers and the registry of operations on it.

use crate::operations::{
    generate_operations, is_zero, lemma_registered_names, lookup, standard_operations, CalcError,
    Operation, Pending, Registry,
};
use vstd::prelude::*;

verus! {

/// A reverse-Polish evaluator. Numbers are pushed as the 64 bits of their
/// IEEE-754 binary64 encoding; the last one pushed is the top of the stack.
pub struct Calculator {
    stack: Vec<u64>,
    operations: Registry,
}

/// What a pop hands out of `stack`: its last number, or nothing where it has none.
pub open spec fn pop_value(stack: Seq<u64>) -> Option<u64> {
    if stack.len() > 0 {
        Some(stack.last())
    } else {
        None
    }
}

/// What a pop leaves of `stack`.
pub open spec fn pop_rest(stack: Seq<u64>) -> Seq<u64> {
    if stack.len() > 0 {
        stack.drop_last()
    } else {
        stack
    }
}

/// Whether performing the operation called `name` on `stack` would divide by zero.
pub open spec fn divides_by_zero(stack: Seq<u64>, name: Seq<char>) -> bool {
    match lookup(name) {
        Some(operation) => operation.divides_by_zero(stack),
        None => false,
    }
}

/// What the operation called `name` finds on `stack`: the arithmetic to compute, or the failure.
pub open spec fn outcome(stack: Seq<u64>, name: Seq<char>) -> Result<Pending, CalcError>
    recommends
        !divides_by_zero(stack, name),
{
    match lookup(name) {
        Some(operation) => operation.outcome(stack),
        None => Err(CalcError::UnknownOperation),
    }
}

/// What the operation called `name` leaves of `stack` when it has taken its operands.
pub open spec fn remainder(stack: Seq<u64>, name: Seq<char>) -> Seq<u64>
    recommends
        !divides_by_zero(stack, name),
{
    match lookup(name) {
        Some(operation) => operation.remainder(stack),
        None => stack,
    }
}

/// The stack after each of `values` was pushed on `stack`, first to last.
pub open spec fn pushes(stack: Seq<u64>, values: Seq<u64>) -> Seq<u64>
    decreases values.len(),
{
    if values.len() == 0 {
        stack
    } else {
        pushes(stack.push(values.first()), values.drop_first())
    }
}

/// What `count` pops in a row hand out of `stack`, the first pop first.
pub open spec fn pops(stack: Seq<u64>, count: nat) -> Seq<Option<u64>>
    decreases count,
{
    if count == 0 {
        Seq::empty()
    } else {
        seq![pop_value(stack)] + pops(pop_rest(stack), (count - 1) as nat)
    }
}

/// What `count` pops in a row leave of `stack`.
pub open spec fn pops_rest(stack: Seq<u64>, count: nat) -> Seq<u64>
    decreases count,
{
    if count == 0 {
        stack
    } else {
        pops_rest(pop_rest(stack), (count - 1) as nat)
    }
}

impl View for Calculator {
    type V = Seq<u64>;

    /// The stack, bottom first.
    closed spec fn view(&self) -> Seq<u64> {
        self.stack@
    }
}

impl Calculator {
    /// The registry that this evaluator looks names up in.
    pub closed spec fn registry(&self) -> Map<Seq<char>, Operation> {
        self.operations@
    }

    /// An evaluator with an empty stack and the four operations registered.
    pub fn new() -> (calculator: Calculator)
        ensures
            calculator@ == Seq::<u64>::empty(),
            calculator.registry() == standard_operations(),
    {
        Calculator { stack: Vec::new(), operations: generate_operations() }
    }

    /// The registry, which is the standard one for every evaluator.
    pub fn operations(&self) -> (registry: &Registry)
        ensures
            registry@ == self.registry(),
            registry@ == standard_operations(),
    {
        proof {
            use_type_invariant(&self.operations);
        }
        &self.operations
    }

    /// Puts `value` on top of the stack.
    pub fn push(&mut self, value: u64)
        ensures
            final(self)@ == old(self)@.push(value),
            final(self).registry() == old(self).registry(),
    {
        self.stack.push(value)
    }

    /// Takes the top of the stack. An empty stack answers `None` and stays empty.
    pub fn pop(&mut self) -> (value: Option<u64>)
        ensures
            value == pop_value(old(self)@),
            final(self)@ == pop_rest(old(self)@),
            old(self)@.len() == 0 ==> value is None && final(self)@ == old(self)@,
            old(self)@.len() > 0 ==> value == Some(old(self)@.last()) && final(self)@.len()
                == old(self)@.len() - 1,
            final(self).registry() == old(self).registry(),
    {
        self.stack.pop()
    }

    /// The number of values on the stack.
    pub fn depth(&self) -> (depth: usize)
        ensures
            depth == self@.len(),
    {
        self.stack.len()
    }

    /// The stack, bottom first.
    pub fn as_slice(&self) -> (values: &[u64])
        ensures
            values@ == self@,
    {
        self.stack.as_slice()
    }

    /// Tells whether performing the operation called `operation_str` now would divide by zero.
    pub fn is_division_by_zero(&self, operation_str: &str) -> (fatal: bool)
        ensures
            fatal == divides_by_zero(self@, operation_str@),
    {
        match self.operations.get(operation_str) {
            None => false,
            Some(operation) => operation.is_division_by_zero(&self.stack),
        }
    }

    /// Looks `operation_str` up and applies the operation to the stack.
    ///
    /// An unknown name and a stack with fewer than two numbers are answered
    /// with the failure, and the stack stays as it is. Otherwise the two
    /// operands leave the stack, `arithmetic` computes `left OP right`, and
    /// what it answers is pushed. A division by zero must not be performed:
    /// `is_division_by_zero` tells beforehand.
    pub fn perform_operation<F: FnOnce(Pending) -> u64>(
        &mut self,
        operation_str: &str,
        arithmetic: F,
    ) -> (result: Result<(), CalcError>)
        requires
            !divides_by_zero(old(self)@, operation_str@),
            outcome(old(self)@, operation_str@) matches Ok(pending) ==> call_requires(
                arithmetic,
                (pending,),
            ),
        ensures
            lookup(operation_str@) is None ==> result == Err::<(), CalcError>(
                CalcError::UnknownOperation,
            ) && final(self)@ == old(self)@,
            lookup(operation_str@) matches Some(operation) ==> (old(self)@.len() < 2 ==> result
                == Err::<(), CalcError>(CalcError::InsufficientOperands(operation))
                && final(self)@ == old(self)@),
            outcome(old(self)@, operation_str@) matches Ok(pending) ==> result is Ok && (exists|
                value: u64,
            |
                call_ensures(arithmetic, (pending,), value) && final(self)@ == remainder(
                    old(self)@,
                    operation_str@,
                ).push(value)) && final(self)@.len() == old(self)@.len() - 1,
            result is Ok <==> lookup(operation_str@) is Some && old(self)@.len() >= 2,
            final(self).registry() == old(self).registry(),
    {
        let operation = match self.operations.get(operation_str) {
            None => {
                return Err(CalcError::UnknownOperation);
            },
            Some(registered) => registered,
        };
        let ghost before = self.stack@;
        let result = operation.apply(&mut self.stack, arithmetic);
        proof {
            if let Ok(pending) = operation.outcome(before) {
                let value = choose|value: u64|
                    call_ensures(arithmetic, (pending,), value) && self.stack@
                        == operation.remainder(before).push(value);
                assert(call_ensures(arithmetic, (pending,), value) && self@ == remainder(
                    before,
                    operation_str@,
                ).push(value));
            }
        }
        result
    }
}

/// Pushing in a row appends: the values lie on the stack in the order of the pushes.
pub proof fn lemma_pushes_append(stack: Seq<u64>, values: Seq<u64>)
    ensures
        pushes(stack, values) == stack + values,
    decreases values.len(),
{
    if values.len() > 0 {
        lemma_pushes_append(stack.push(values.first()), values.drop_first());
        assert(stack.push(values.first()) + values.drop_first() =~= stack + values);
    }
}

/// Last in, first out: after `values` were pushed one by one, the pops that
/// follow hand them back in the reverse order, the last one pushed first, and
/// `count` pops leave the stack as it was after the first `values.len() - count` pushes.
pub proof fn lemma_last_in_first_out(stack: Seq<u64>, values: Seq<u64>, count: nat)
    requires
        count <= values.len(),
    ensures
        pops(pushes(stack, values), count).len() == count,
        forall|i: int|
            0 <= i < count ==> pops(pushes(stack, values), count)[i] == Some(
                values[values.len() - 1 - i],
            ),
        pops_rest(pushes(stack, values), count) == pushes(
            stack,
            values.take(values.len() - count),
        ),
    decreases count,
{
    lemma_pushes_append(stack, values);
    lemma_pushes_append(stack, values.take(values.len() - count));
    if count > 0 {
        let full = stack + values;
        let shorter = values.drop_last();
        assert(pop_rest(full) =~= stack + shorter);
        lemma_pushes_append(stack, shorter);
        lemma_last_in_first_out(stack, shorter, (count - 1) as nat);
        assert(shorter.take(shorter.len() - (count - 1)) =~= values.take(values.len() - count));
        let tail = pops(pushes(stack, shorter), (count - 1) as nat);
        assert(pops(full, count) == seq![pop_value(full)] + tail);
        assert forall|i: int| 0 <= i < count implies pops(full, count)[i] == Some(
            values[values.len() - 1 - i],
        ) by {
            if i > 0 {
                assert(pops(full, count)[i] == tail[i - 1]);
                assert(shorter[shorter.len() - 1 - (i - 1)] == values[values.len() - 1 - i]);
            }
        }
    } else {
        assert(values.take(values.len() - count) =~= values);
    }
}

/// Pops on an empty stack hand out nothing, however many, and leave it empty.
pub proof fn lemma_pops_of_empty(count: nat)
    ensures
        pops(Seq::<u64>::empty(), count).len() == count,
        forall|i: int| 0 <= i < count ==> pops(Seq::<u64>::empty(), count)[i] == None::<u64>,
        pops_rest(Seq::<u64>::empty(), count) == Seq::<u64>::empty(),
    decreases count,
{
    if count > 0 {
        lemma_pops_of_empty((count - 1) as nat);
    }
}

/// A failed operation takes nothing: an unknown name, or fewer than two
/// numbers on the stack, and the stack stays exactly as it was.
pub proof fn lemma_failure_keeps_stack(stack: Seq<u64>, name: Seq<char>)
    ensures
        outcome(stack, name) is Err ==> remainder(stack, name) == stack,
        lookup(name) is None ==> outcome(stack, name) == Err::<Pending, CalcError>(
            CalcError::UnknownOperation,
        ),
        lookup(name) matches Some(operation) ==> (stack.len() < 2 ==> outcome(stack, name)
            == Err::<Pending, CalcError>(CalcError::InsufficientOperands(operation))),
        outcome(stack, name) is Ok <==> lookup(name) is Some && stack.len() >= 2,
{
}

/// After `left` and then `right` were pushed, a registered operation that
/// may be performed hands out `left OP right`, in the order of the pushes,
/// and leaves the stack as it was before the two pushes. With the result
/// pushed, the stack is one shorter than it was before the operation.
pub proof fn lemma_operation_after_pushes(
    stack: Seq<u64>,
    name: Seq<char>,
    left: u64,
    right: u64,
    result: u64,
)
    requires
        lookup(name) is Some,
        !divides_by_zero(stack.push(left).push(right), name),
    ensures
        outcome(stack.push(left).push(right), name) == Ok::<Pending, CalcError>(
            Pending { operation: lookup(name).unwrap(), left, right },
        ),
        remainder(stack.push(left).push(right), name) == stack,
        remainder(stack.push(left).push(right), name).push(result).len() == stack.push(left).push(
            right,
        ).len() - 1,
{
    let before = stack.push(left).push(right);
    assert(before.take(before.len() - 2) =~= stack);
}

/// After `left` and then `right` were pushed, the division is one by zero
/// exactly when `right` is a zero; no other operation ever is.
pub proof fn lemma_zero_divisor(stack: Seq<u64>, name: Seq<char>, left: u64, right: u64)
    ensures
        divides_by_zero(stack.push(left).push(right), name) <==> name == seq!['/'] && is_zero(
            right,
        ),
{
    lemma_registered_names(name);
}

/// After `dividend` and then a `divisor` other than zero were pushed, `/` may
/// be performed: it hands out `dividend / divisor` and leaves the stack as it
/// was before the two pushes. With the quotient pushed, the stack is one
/// shorter than it was before the division.
pub proof fn lemma_division_after_pushes(
    stack: Seq<u64>,
    dividend: u64,
    divisor: u64,
    quotient: u64,
)
    requires
        !is_zero(divisor),
    ensures
        !divides_by_zero(stack.push(dividend).push(divisor), seq!['/']),
        outcome(stack.push(dividend).push(divisor), seq!['/']) == Ok::<Pending, CalcError>(
            Pending { operation: Operation::Divide, left: dividend, right: divisor },
        ),
        remainder(stack.push(dividend).push(divisor), seq!['/']).push(quotient) == stack.push(
            quotient,
        ),
        stack.push(quotient).len() == stack.push(dividend).push(divisor).len() - 1,
{
    lemma_registered_names(seq!['/']);
    lemma_zero_divisor(stack, seq!['/'], dividend, divisor);
    lemma_operation_after_pushes(stack, seq!['/'], dividend, divisor, quotient);
}

} // verus!
