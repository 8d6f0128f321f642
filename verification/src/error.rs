//! Runtime errors.
//!
//! All of these are recoverable values that ride up the call stack; none is a
//! panic. Each carries the offending symbols; a host renders the text with
//! the interner. The `ControlEscaped` and `InternalFault` variants stand for
//! conditions that indicate an engine or lowering bug rather than a user
//! program defect; `OutOfFuel` reports that the step budget given to an
//! evaluation ran out.

use vstd::prelude::*;

use crate::identifier::Identifier;
use crate::identifier::OperatorIdentifier;

verus! {

#[derive(Debug, Clone, Copy, PartialEq, Eq, Structural)]
pub enum FruError {
    /// `set` of a name not bound anywhere on the scope chain, or a variable
    /// reference to an unbound name.
    UndefinedVariable(Identifier),
    /// Property, field or method lookup failed on the named owner.
    PropNotFound { ident: Identifier, owner: Identifier },
    /// The property exists but has no getter.
    NoGetter(Identifier),
    /// The property exists but has no setter.
    NoSetter(Identifier),
    /// The operator overload was already registered for this key.
    OperatorAlreadySet(Identifier),
    /// No overload matches the operator and the operand type symbols.
    NoSuchOperator(OperatorIdentifier),
    /// Instantiation gave the same field a value twice.
    DuplicateField(Identifier),
    /// Instantiation left the named field without a value.
    MissingField(Identifier),
    /// Instantiation named a field the type does not declare.
    UnknownField(Identifier),
    /// A call or instantiation handed the wrong number of arguments.
    ArityMismatch { expected: usize, got: usize },
    /// The called value is not a function.
    NotCallable,
    /// A condition evaluated to a non-boolean value.
    NotABool,
    /// The instantiated value is not a type descriptor.
    NotAType,
    /// Field access on a value that has no members.
    NotAnObject,
    /// A numeric operator divided by zero.
    DivisionByZero,
    /// A numeric operator left the 64-bit range.
    NumericOverflow,
    /// `break` or `continue` reached a function boundary: an engine or
    /// lowering bug, not a user error.
    ControlEscaped,
    /// An arena handle pointed outside its arena: an engine bug.
    InternalFault,
    /// The evaluation step budget ran out.
    OutOfFuel,
}

} // verus!
