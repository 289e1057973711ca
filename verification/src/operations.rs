//! The operations of the evaluator and the registry that names them.
//!
//! A number on the stack is held as the 64 bits of its IEEE-754 binary64
//! encoding. The evaluator never computes with these bits itself: an
//! operation takes its two operands off the stack, hands them as a
//! [`Pending`] arithmetic to the function that its caller brought, and
//! pushes what that function answers. The only thing this module reads in a
//! number is whether it is a zero.

use vstd::hash_map::StringHashMap;
use vstd::prelude::*;
use vstd::string::StringExecFns;

verus! {

/// The four binary operations.
#[derive(Clone, Copy, Debug, PartialEq, Eq, Structural)]
pub enum Operation {
    Add,
    Subtract,
    Multiply,
    Divide,
}

/// Why an operation was not carried out. Either way the stack is as it was.
#[derive(Clone, Copy, Debug, PartialEq, Eq, Structural)]
pub enum CalcError {
    /// No operation is registered under the name.
    UnknownOperation,
    /// The operation found fewer than two numbers on the stack.
    InsufficientOperands(Operation),
}

/// The arithmetic `left OP right` that an accepted operation asks for.
/// `right` was on top of the stack and `left` just below it.
#[derive(Clone, Copy, Debug, PartialEq, Eq, Structural)]
pub struct Pending {
    pub operation: Operation,
    pub left: u64,
    pub right: u64,
}

/// The registry that every evaluator works with: each name and the operation it stands for.
pub open spec fn standard_operations() -> Map<Seq<char>, Operation> {
    Map::<Seq<char>, Operation>::empty().insert(seq!['+'], Operation::Add).insert(
        seq!['-'],
        Operation::Subtract,
    ).insert(seq!['*'], Operation::Multiply).insert(seq!['/'], Operation::Divide)
}

/// The operation registered under `name`, if any.
pub open spec fn lookup(name: Seq<char>) -> Option<Operation> {
    if standard_operations().contains_key(name) {
        Some(standard_operations()[name])
    } else {
        None
    }
}

/// Whether `bits` encodes a zero, positive or negative: every bit but the sign is clear.
pub open spec fn is_zero(bits: u64) -> bool {
    bits == 0 || bits == 0x8000_0000_0000_0000
}

/// The text that goes with each failure.
pub open spec fn message_of(error: CalcError) -> Seq<char> {
    match error {
        CalcError::UnknownOperation => "Specified operation does not exist!"@,
        CalcError::InsufficientOperands(Operation::Add) => "ERROR: Addition requires two arguements!"@,
        CalcError::InsufficientOperands(Operation::Subtract) => "ERROR: Subtraction requires two arguements!"@,
        CalcError::InsufficientOperands(Operation::Multiply) => "ERROR: Multiplication requires two arguements!"@,
        CalcError::InsufficientOperands(Operation::Divide) => "ERROR: Division requires two arguements!"@,
    }
}

/// Names match exactly: the registry holds the four one-character names
/// `+`, `-`, `*` and `/`, each with one operation, and no other name.
pub proof fn lemma_registered_names(name: Seq<char>)
    ensures
        lookup(name) == Some(Operation::Add) <==> name == seq!['+'],
        lookup(name) == Some(Operation::Subtract) <==> name == seq!['-'],
        lookup(name) == Some(Operation::Multiply) <==> name == seq!['*'],
        lookup(name) == Some(Operation::Divide) <==> name == seq!['/'],
        lookup(name) is None <==> !(name == seq!['+'] || name == seq!['-'] || name == seq!['*']
            || name == seq!['/']),
{
    let plus = seq!['+'];
    let minus = seq!['-'];
    let times = seq!['*'];
    let slash = seq!['/'];
    assert(plus[0] == '+' && minus[0] == '-' && times[0] == '*' && slash[0] == '/');
}

/// The registry of an evaluator. It is filled when it is made and read-only from then on.
pub struct Registry {
    operations: StringHashMap<Operation>,
}

impl View for Registry {
    type V = Map<Seq<char>, Operation>;

    /// Each registered name with its operation.
    closed spec fn view(&self) -> Map<Seq<char>, Operation> {
        self.operations@
    }
}

impl Registry {
    /// A registry holds the standard operations and nothing else.
    #[verifier::type_invariant]
    pub open spec fn is_standard(&self) -> bool {
        self@ == standard_operations()
    }

    /// Looks `name` up.
    pub fn get(&self, name: &str) -> (found: Option<Operation>)
        ensures
            self@ == standard_operations(),
            found == lookup(name@),
    {
        proof {
            use_type_invariant(self);
        }
        match self.operations.get(name) {
            None => None,
            Some(operation) => Some(*operation),
        }
    }
}

/// Builds the registry of the four operations.
pub fn generate_operations() -> (registry: Registry)
    ensures
        registry@ == standard_operations(),
{
    proof {
        reveal_strlit("+");
        reveal_strlit("-");
        reveal_strlit("*");
        reveal_strlit("/");
        assert("+"@ =~= seq!['+']);
        assert("-"@ =~= seq!['-']);
        assert("*"@ =~= seq!['*']);
        assert("/"@ =~= seq!['/']);
    }
    let mut operations: StringHashMap<Operation> = StringHashMap::new();
    operations.insert(String::from_str("+"), Operation::Add);
    operations.insert(String::from_str("-"), Operation::Subtract);
    operations.insert(String::from_str("*"), Operation::Multiply);
    operations.insert(String::from_str("/"), Operation::Divide);
    Registry { operations }
}

/// Tells whether `bits` encodes a zero.
pub fn encodes_zero(bits: u64) -> (zero: bool)
    ensures
        zero == is_zero(bits),
{
    bits == 0 || bits == 0x8000_0000_0000_0000
}

impl Operation {
    /// Whether applying this operation to `stack` would divide by zero:
    /// it is the division, it has its two operands, and the one on top is a zero.
    pub open spec fn divides_by_zero(self, stack: Seq<u64>) -> bool {
        self == Operation::Divide && stack.len() >= 2 && is_zero(stack.last())
    }

    /// What this operation finds on `stack`: the arithmetic to compute, or the failure.
    pub open spec fn outcome(self, stack: Seq<u64>) -> Result<Pending, CalcError>
        recommends
            !self.divides_by_zero(stack),
    {
        if stack.len() < 2 {
            Err(CalcError::InsufficientOperands(self))
        } else {
            Ok(
                Pending {
                    operation: self,
                    left: stack[stack.len() - 2],
                    right: stack[stack.len() - 1],
                },
            )
        }
    }

    /// What this operation leaves of `stack` when it has taken its operands.
    pub open spec fn remainder(self, stack: Seq<u64>) -> Seq<u64>
        recommends
            !self.divides_by_zero(stack),
    {
        if stack.len() < 2 {
            stack
        } else {
            stack.take(stack.len() - 2)
        }
    }

    /// Tells whether applying this operation to `stack` would divide by zero.
    pub fn is_division_by_zero(self, stack: &Vec<u64>) -> (fatal: bool)
        ensures
            fatal == self.divides_by_zero(stack@),
    {
        match self {
            Operation::Divide => stack.len() >= 2 && encodes_zero(stack[stack.len() - 1]),
            _ => false,
        }
    }

    /// Takes the operands of this operation off `stack`. They are counted
    /// before any is taken: with fewer than two the stack stays as it is.
    /// With two, both leave the stack and come back as the arithmetic to
    /// compute. A division by zero must not be asked for.
    pub fn take_operands(self, stack: &mut Vec<u64>) -> (result: Result<Pending, CalcError>)
        requires
            !self.divides_by_zero(old(stack)@),
        ensures
            result == self.outcome(old(stack)@),
            final(stack)@ == self.remainder(old(stack)@),
            old(stack)@.len() < 2 ==> result == Err::<Pending, CalcError>(
                CalcError::InsufficientOperands(self),
            ) && final(stack)@ == old(stack)@,
            old(stack)@.len() >= 2 ==> result is Ok && final(stack)@.len() == old(stack)@.len() - 2,
    {
        if stack.len() < 2 {
            return Err(CalcError::InsufficientOperands(self));
        }
        let right = stack.pop().unwrap();
        let left = stack.pop().unwrap();
        Ok(Pending { operation: self, left, right })
    }

    /// Applies this operation to `stack`: takes the two operands off it, has
    /// `arithmetic` compute `left OP right`, and pushes what that answers.
    /// With fewer than two operands nothing is taken and nothing computed.
    /// A division by zero must not be applied.
    pub fn apply<F: FnOnce(Pending) -> u64>(self, stack: &mut Vec<u64>, arithmetic: F) -> (result:
        Result<(), CalcError>)
        requires
            !self.divides_by_zero(old(stack)@),
            self.outcome(old(stack)@) matches Ok(pending) ==> call_requires(arithmetic, (pending,)),
        ensures
            old(stack)@.len() < 2 ==> result == Err::<(), CalcError>(
                CalcError::InsufficientOperands(self),
            ) && final(stack)@ == old(stack)@,
            self.outcome(old(stack)@) matches Ok(pending) ==> result is Ok && (exists|value: u64|
                call_ensures(arithmetic, (pending,), value) && final(stack)@ == self.remainder(
                    old(stack)@,
                ).push(value)) && final(stack)@.len() == old(stack)@.len() - 1,
            result is Ok <==> old(stack)@.len() >= 2,
    {
        match self.take_operands(stack) {
            Err(error) => Err(error),
            Ok(pending) => {
                let value = arithmetic(pending);
                stack.push(value);
                Ok(())
            },
        }
    }
}

impl CalcError {
    /// The text that goes with this failure.
    pub fn message(&self) -> (text: &'static str)
        ensures
            text@ == message_of(*self),
    {
        match self {
            CalcError::UnknownOperation => "Specified operation does not exist!",
            CalcError::InsufficientOperands(Operation::Add) => "ERROR: Addition requires two arguements!",
            CalcError::InsufficientOperands(Operation::Subtract) => "ERROR: Subtraction requires two arguements!",
            CalcError::InsufficientOperands(Operation::Multiply) => "ERROR: Multiplication requires two arguements!",
            CalcError::InsufficientOperands(Operation::Divide) => "ERROR: Division requires two arguements!",
        }
    }
}

} // verus!
