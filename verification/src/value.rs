//! The runtime value model.
//!
//! A `FruValue` is a small copyable tag: aggregate values (functions, type
//! descriptors, objects, scopes) live in the engine's arenas and are carried
//! around as indices, following the arena design that replaces reference
//! counting and keeps identity equality by handle. Text values carry the
//! interned handle of their text.

use vstd::prelude::*;

use crate::identifier::Identifier;
use crate::native::BuiltinScopeInstance;

verus! {

/// The aggregate semantics of a declared type: a plain aggregate, an
/// identity-sensitive aggregate, or an aggregate with watch blocks.
#[derive(Debug, Clone, Copy, PartialEq, Eq, Structural)]
pub enum TypeFlavor {
    Struct,
    Class,
    Data,
}

/// A declared field: visibility, name, and an optional (unenforced) type
/// annotation. Field order defines positional-argument binding.
#[derive(Debug, Clone, Copy, PartialEq, Eq)]
pub struct FruField {
    pub is_public: bool,
    pub ident: Identifier,
    pub type_ident: Option<Identifier>,
}

/// A computed accessor: an optional getter expression and an optional setter
/// statement binding one parameter to the assigned value. The `usize` handles
/// point into the program's expression and statement arenas.
#[derive(Debug, Clone, Copy, PartialEq, Eq)]
pub struct Property {
    pub ident: Identifier,
    pub getter: Option<usize>,
    pub setter: Option<(Identifier, usize)>,
}

/// Handle of a type descriptor in the engine's type arena. The index is the
/// descriptor's process-unique id: equality is identity, independent of the
/// descriptor's content.
#[derive(Debug, Clone, Copy, PartialEq, Eq, Structural)]
pub struct FruType {
    pub idx: usize,
}

/// Handle of an object in the engine's object arena.
#[derive(Debug, Clone, Copy, PartialEq, Eq, Structural)]
pub struct FruObject {
    pub idx: usize,
}

/// A runtime value. Numbers are 64-bit integers; text values carry the
/// interned handle of their text; functions, type descriptors and objects are
/// arena handles.
#[derive(Debug, Clone, Copy, PartialEq, Eq)]
pub enum FruValue {
    Nah,
    Number(i64),
    Bool(bool),
    Text(Identifier),
    Function(usize),
    Type(FruType),
    Object(FruObject),
    Native(BuiltinScopeInstance),
}

} // verus!
