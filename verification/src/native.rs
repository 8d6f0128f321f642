//! The native-value extension point.
//!
//! A native value is host state lifted into the value universe; the evaluator
//! treats it like an object for property access, delegating to the native
//! value's own get/set behaviour. The one native value the engine itself
//! ships is the scope instance: a captured scope exposed as a value whose
//! properties read and write the scope's variables.

use vstd::prelude::*;

use crate::value::FruValue;

verus! {

/// A scope exposed as a first-class value. `get` of a property looks the
/// name up in the scope chain; `set` writes the variable, declaring it in
/// the scope itself when it is not yet bound anywhere on the chain.
#[derive(Debug, Clone, Copy, PartialEq, Eq, Structural)]
pub struct BuiltinScopeInstance {
    pub scope: usize,
}

impl BuiltinScopeInstance {
    /// Wraps a scope handle as a native value.
    pub fn new_value(scope: usize) -> (r: FruValue)
        ensures
            r == FruValue::Native(BuiltinScopeInstance { scope }),
    {
        FruValue::Native(BuiltinScopeInstance { scope })
    }

    /// The scope handle, which also serves as the native value's identity.
    pub fn get_uid(&self) -> (r: usize)
        ensures
            r == self.scope,
    {
        self.scope
    }
}

} // verus!
