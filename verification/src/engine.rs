//! The engine state: arenas for scopes, type descriptors, objects and
//! functions, plus the interner.
//!
//! Aggregates are identified by arena index, which doubles as their
//! process-unique id; cycles (a type capturing the scope it was declared in,
//! which binds the type) are plain index references, so ownership never
//! forms a reference-counting cycle. The spec-level `StateV` mirrors the
//! state with mathematical sequences; every mutating operation says in its
//! contract exactly which `StateV` it leaves behind.

use vstd::prelude::*;

use crate::error::FruError;
use crate::identifier::builtin_texts;
use crate::identifier::id_bool;
use crate::identifier::id_function;
use crate::identifier::id_nah;
use crate::identifier::id_native_object;
use crate::identifier::id_number;
use crate::identifier::id_string;
use crate::identifier::id_struct_type;
use crate::identifier::identifier_of;
use crate::identifier::lemma_identifier_of;
use crate::identifier::Identifier;
use crate::identifier::Interner;
use crate::identifier::OperatorIdentifier;
use crate::ast::RawMethod;
use crate::ast::RawMethodV;
use crate::ast::RawWatch;
use crate::ast::RawWatchV;
use crate::value::FruField;
use crate::value::FruType;
use crate::value::FruValue;
use crate::value::Property;
use crate::value::TypeFlavor;

verus! {

/// What a scope frame is bound to: nothing, a type (static context), or an
/// object instance.
#[derive(Debug, Clone, Copy, PartialEq, Eq, Structural)]
pub enum ScopeBinding {
    Plain,
    OfType(usize),
    OfObject(usize),
}

/// One frame of the variable environment: bindings plus an optional parent.
pub struct Frame {
    pub vars: Vec<(Identifier, FruValue)>,
    pub parent: Option<usize>,
    pub binding: ScopeBinding,
}

#[verifier::ext_equal]
pub struct FrameV {
    pub vars: Seq<(Identifier, FruValue)>,
    pub parent: Option<usize>,
    pub binding: ScopeBinding,
}

impl View for Frame {
    type V = FrameV;

    open spec fn view(&self) -> FrameV {
        FrameV { vars: self.vars@, parent: self.parent, binding: self.binding }
    }
}

/// The closed set of built-in operator implementations a host can register.
/// They act on number and boolean payloads; everything else about operators
/// is user-defined code.
#[derive(Debug, Clone, Copy, PartialEq, Eq, Structural)]
pub enum BuiltinOp {
    NumPlus,
    NumMinus,
    NumMultiply,
    NumDivide,
    NumMod,
    NumLess,
    NumLessEq,
    NumGreater,
    NumGreaterEq,
    NumEq,
    NumNotEq,
    BoolAnd,
    BoolOr,
}

/// One operator implementation: a built-in, or a user body with its two
/// parameter names and captured scope.
#[derive(Debug, Clone, Copy, PartialEq, Eq)]
pub enum AnyOperator {
    Builtin(BuiltinOp),
    User { left_ident: Identifier, right_ident: Identifier, body: usize, scope: usize },
}

/// One entry of a type's operator table.
#[derive(Debug, Clone, Copy, PartialEq, Eq)]
pub struct OpEntry {
    pub key: OperatorIdentifier,
    pub commutative: bool,
    pub op: AnyOperator,
}

/// The stored content of one type descriptor.
pub struct TypeData {
    pub ident: Identifier,
    pub type_flavor: TypeFlavor,
    pub fields: Vec<FruField>,
    pub static_fields: Vec<(Identifier, FruValue)>,
    pub properties: Vec<Property>,
    pub static_properties: Vec<Property>,
    pub methods: Vec<RawMethod>,
    pub static_methods: Vec<RawMethod>,
    pub watches: Vec<RawWatch>,
    pub operators: Vec<OpEntry>,
    pub scope: usize,
}

#[verifier::ext_equal]
pub struct TypeDataV {
    pub ident: Identifier,
    pub type_flavor: TypeFlavor,
    pub fields: Seq<FruField>,
    pub static_fields: Seq<(Identifier, FruValue)>,
    pub properties: Seq<Property>,
    pub static_properties: Seq<Property>,
    pub methods: Seq<RawMethodV>,
    pub static_methods: Seq<RawMethodV>,
    pub watches: Seq<RawWatchV>,
    pub operators: Seq<OpEntry>,
    pub scope: usize,
}

impl View for TypeData {
    type V = TypeDataV;

    open spec fn view(&self) -> TypeDataV {
        TypeDataV {
            ident: self.ident,
            type_flavor: self.type_flavor,
            fields: self.fields@,
            static_fields: self.static_fields@,
            properties: self.properties@,
            static_properties: self.static_properties@,
            methods: self.methods@.map_values(|m: RawMethod| m@),
            static_methods: self.static_methods@.map_values(|m: RawMethod| m@),
            watches: self.watches@.map_values(|w: RawWatch| w@),
            operators: self.operators@,
            scope: self.scope,
        }
    }
}

/// One object: its type and its field values in declaration order.
pub struct ObjectData {
    pub type_idx: usize,
    pub fields: Vec<FruValue>,
}

#[verifier::ext_equal]
pub struct ObjectDataV {
    pub type_idx: usize,
    pub fields: Seq<FruValue>,
}

impl View for ObjectData {
    type V = ObjectDataV;

    open spec fn view(&self) -> ObjectDataV {
        ObjectDataV { type_idx: self.type_idx, fields: self.fields@ }
    }
}

/// One function value: a closure (parameter names, body statement, captured
/// scope) or a partial application awaiting the remaining arguments.
pub enum FruFunction {
    Plain { parameters: Vec<Identifier>, body: usize, scope: usize },
    Curried { base: usize, bound: Vec<FruValue> },
}

pub enum FruFunctionV {
    Plain { parameters: Seq<Identifier>, body: usize, scope: usize },
    Curried { base: usize, bound: Seq<FruValue> },
}

impl View for FruFunction {
    type V = FruFunctionV;

    open spec fn view(&self) -> FruFunctionV {
        match self {
            FruFunction::Plain { parameters, body, scope } => FruFunctionV::Plain {
                parameters: parameters@,
                body: *body,
                scope: *scope,
            },
            FruFunction::Curried { base, bound } => FruFunctionV::Curried {
                base: *base,
                bound: bound@,
            },
        }
    }
}

/// The whole mutable engine state.
pub struct Engine {
    pub interner: Interner,
    pub scopes: Vec<Frame>,
    pub types: Vec<TypeData>,
    pub objects: Vec<ObjectData>,
    pub funcs: Vec<FruFunction>,
}

#[verifier::ext_equal]
pub struct StateV {
    pub strings: Seq<Seq<char>>,
    pub scopes: Seq<FrameV>,
    pub types: Seq<TypeDataV>,
    pub objects: Seq<ObjectDataV>,
    pub funcs: Seq<FruFunctionV>,
}

impl View for Engine {
    type V = StateV;

    open spec fn view(&self) -> StateV {
        StateV {
            strings: self.interner@,
            scopes: self.scopes@.map_values(|f: Frame| f@),
            types: self.types@.map_values(|t: TypeData| t@),
            objects: self.objects@.map_values(|o: ObjectData| o@),
            funcs: self.funcs@.map_values(|f: FruFunction| f@),
        }
    }
}

/// Index of the first binding of `id` in a frame's bindings, or -1.
pub open spec fn sp_find_var(vars: Seq<(Identifier, FruValue)>, id: Identifier) -> int
    decreases vars.len(),
{
    if vars.len() == 0 {
        -1
    } else if vars[0].0 == id {
        0
    } else {
        let r = sp_find_var(vars.drop_first(), id);
        if r == -1 {
            -1
        } else {
            r + 1
        }
    }
}

pub proof fn lemma_sp_find_var(vars: Seq<(Identifier, FruValue)>, id: Identifier)
    ensures
        sp_find_var(vars, id) >= -1,
        sp_find_var(vars, id) == -1 ==> forall|j: int| 0 <= j < vars.len() ==> vars[j].0 != id,
        sp_find_var(vars, id) >= 0 ==> 0 <= sp_find_var(vars, id) < vars.len()
            && vars[sp_find_var(vars, id)].0 == id,
        sp_find_var(vars, id) >= 0 ==> forall|j: int|
            0 <= j < sp_find_var(vars, id) ==> vars[j].0 != id,
    decreases vars.len(),
{
    if vars.len() > 0 && vars[0].0 != id {
        let d = vars.drop_first();
        lemma_sp_find_var(d, id);
        let r = sp_find_var(d, id);
        if r == -1 {
            assert forall|j: int| 0 <= j < vars.len() implies vars[j].0 != id by {
                if j >= 1 {
                    assert(d[j - 1] == vars[j]);
                }
            }
        } else {
            assert(r >= 0);
            assert(d[r] == vars[r + 1]);
            assert forall|j: int| 0 <= j < sp_find_var(vars, id) implies vars[j].0 != id by {
                if j >= 1 {
                    assert(d[j - 1] == vars[j]);
                }
            }
        }
    }
}

/// First slot of `ident` in a frame's bindings.
pub fn find_in_vars(vars: &Vec<(Identifier, FruValue)>, ident: Identifier) -> (r: Option<usize>)
    ensures
        (match r {
            Some(k) => sp_find_var(vars@, ident) == k as int && k < vars@.len()
                && vars@[k as int].0 == ident,
            None => sp_find_var(vars@, ident) == -1,
        }),
{
    let ghost varsv = vars@;
    let mut i: usize = 0;
    while i < vars.len()
        invariant
            0 <= i <= varsv.len(),
            varsv == vars@,
            forall|j: int| 0 <= j < i ==> varsv[j].0 != ident,
        decreases varsv.len() - i,
    {
        if vars[i].0 == ident {
            proof {
                lemma_sp_find_var(varsv, ident);
                let k = sp_find_var(varsv, ident);
                assert(varsv[i as int].0 == ident);
                if k == -1 {
                    assert(varsv[i as int].0 != ident);
                }
                if 0 <= k < i as int {
                    assert(varsv[k].0 == ident);
                    assert(varsv[k].0 != ident);
                }
                if k > i as int {
                    assert(varsv[i as int].0 != ident);
                }
            }
            return Some(i);
        }
        i = i + 1;
    }
    proof {
        lemma_sp_find_var(varsv, ident);
        let k = sp_find_var(varsv, ident);
        if k >= 0 {
            assert(varsv[k].0 == ident);
            assert(varsv[k].0 != ident);
        }
    }
    None
}

/// Walks the scope chain from `scope` outward and finds the frame and slot
/// holding `id`. The step budget is one frame per unit; a budget of one more
/// than the number of frames always suffices, since parents strictly precede
/// their children.
pub open spec fn sp_find_binding(
    scopes: Seq<FrameV>,
    scope: usize,
    id: Identifier,
    fuel: nat,
) -> Result<(usize, usize), FruError>
    decreases fuel,
{
    if fuel == 0 {
        Err(FruError::OutOfFuel)
    } else if scope >= scopes.len() {
        Err(FruError::InternalFault)
    } else {
        let k = sp_find_var(scopes[scope as int].vars, id);
        if k >= 0 {
            Ok((scope, k as usize))
        } else {
            match scopes[scope as int].parent {
                Some(p) => sp_find_binding(scopes, p, id, (fuel - 1) as nat),
                None => Err(FruError::UndefinedVariable(id)),
            }
        }
    }
}

/// The standard budget for one walk of the chain.
pub open spec fn sp_chain_fuel(scopes: Seq<FrameV>) -> nat {
    scopes.len()
}

/// Value of `id` on the chain starting at `scope`.
pub open spec fn sp_get_var(st: StateV, scope: usize, id: Identifier) -> Result<
    FruValue,
    FruError,
> {
    match sp_find_binding(st.scopes, scope, id, sp_chain_fuel(st.scopes)) {
        Ok((f, k)) => Ok(st.scopes[f as int].vars[k as int].1),
        Err(e) => Err(e),
    }
}

/// State after mutating the nearest binding of `id`; fails with
/// `UndefinedVariable` exactly when no frame on the chain binds `id`.
pub open spec fn sp_set_var(st: StateV, scope: usize, id: Identifier, v: FruValue) -> (
    StateV,
    Result<(), FruError>,
) {
    match sp_find_binding(st.scopes, scope, id, sp_chain_fuel(st.scopes)) {
        Ok((f, k)) => {
            let fr = st.scopes[f as int];
            let fr2 = FrameV { vars: fr.vars.update(k as int, (id, v)), ..fr };
            (StateV { scopes: st.scopes.update(f as int, fr2), ..st }, Ok(()))
        },
        Err(e) => (st, Err(e)),
    }
}

/// State after declaring `id` in the frame `scope` itself: an existing
/// binding of the frame is overwritten, otherwise one is appended. Outer
/// frames are never touched, so a redeclaration only shadows.
pub open spec fn sp_let_var(st: StateV, scope: usize, id: Identifier, v: FruValue) -> (
    StateV,
    Result<(), FruError>,
) {
    if scope >= st.scopes.len() {
        (st, Err(FruError::InternalFault))
    } else {
        let fr = st.scopes[scope as int];
        let k = sp_find_var(fr.vars, id);
        let vars2 = if k >= 0 {
            fr.vars.update(k, (id, v))
        } else {
            fr.vars.push((id, v))
        };
        let fr2 = FrameV { vars: vars2, ..fr };
        (StateV { scopes: st.scopes.update(scope as int, fr2), ..st }, Ok(()))
    }
}

/// Set the variable wherever the chain binds it, else declare it in `scope`
/// itself. This is the write path of a scope exposed as a native value.
pub open spec fn sp_let_set_var(st: StateV, scope: usize, id: Identifier, v: FruValue) -> (
    StateV,
    Result<(), FruError>,
) {
    let (st1, r) = sp_set_var(st, scope, id, v);
    match r {
        Ok(()) => (st1, Ok(())),
        Err(FruError::UndefinedVariable(_)) => sp_let_var(st, scope, id, v),
        Err(e) => (st1, Err(e)),
    }
}

/// Every frame's parent strictly precedes it, so chains are finite. Frames
/// are only ever created with an already-existing parent, which keeps this
/// shape.
pub open spec fn sp_parents_below(scopes: Seq<FrameV>) -> bool {
    forall|j: int| 0 <= j < scopes.len() ==> (match #[trigger] scopes[j].parent {
        Some(p) => p < j,
        None => true,
    })
}

/// A name is bound on the chain exactly when looking it up succeeds.
pub open spec fn sp_chain_has(st: StateV, scope: usize, id: Identifier) -> bool {
    sp_find_binding(st.scopes, scope, id, sp_chain_fuel(st.scopes)) is Ok
}

/// Mutating a name that the chain does not bind fails with exactly
/// `UndefinedVariable`, and leaves every frame as it was.
pub proof fn lemma_set_undefined(st: StateV, scope: usize, id: Identifier, v: FruValue)
    requires
        scope < st.scopes.len(),
        sp_parents_below(st.scopes),
    ensures
        !sp_chain_has(st, scope, id) ==> sp_set_var(st, scope, id, v) == (
            st,
            Err::<(), FruError>(FruError::UndefinedVariable(id)),
        ),
        sp_chain_has(st, scope, id) ==> sp_set_var(st, scope, id, v).1 is Ok,
{
    lemma_find_binding_total(st.scopes, scope, id, sp_chain_fuel(st.scopes));
}

/// With parents strictly below their children and a budget of more frames
/// than the chain can have, the walk never runs out of fuel and never leaves
/// the arena: it ends at a binding or at `UndefinedVariable`.
pub proof fn lemma_find_binding_total(
    scopes: Seq<FrameV>,
    scope: usize,
    id: Identifier,
    fuel: nat,
)
    requires
        scope < scopes.len(),
        fuel >= scope + 1,
        sp_parents_below(scopes),
    ensures
        sp_find_binding(scopes, scope, id, fuel) is Ok || sp_find_binding(scopes, scope, id, fuel)
            == Err::<(usize, usize), FruError>(FruError::UndefinedVariable(id)),
    decreases fuel,
{
    let k = sp_find_var(scopes[scope as int].vars, id);
    if k < 0 {
        match scopes[scope as int].parent {
            Some(p) => {
                assert(p < scope);
                lemma_find_binding_total(scopes, p, id, (fuel - 1) as nat);
            },
            None => {},
        }
    }
}

/// Copies a vector of copyable items; the view is unchanged.
pub fn copy_vec<T: Copy>(v: &Vec<T>) -> (r: Vec<T>)
    ensures
        r@ == v@,
{
    let mut r: Vec<T> = Vec::new();
    let mut i: usize = 0;
    while i < v.len()
        invariant
            0 <= i <= v.len(),
            r@ =~= v@.subrange(0, i as int),
        decreases v.len() - i,
    {
        r.push(v[i]);
        i = i + 1;
    }
    proof {
        assert(r@ =~= v@);
    }
    r
}

impl Engine {
    /// Value of `ident` on the scope chain starting at `scope`.
    pub fn get_variable(&self, scope: usize, ident: Identifier) -> (r: Result<FruValue, FruError>)
        ensures
            r == sp_get_var(self@, scope, ident),
    {
        let fuel = self.scopes.len();
        match self.find_binding(scope, ident, fuel) {
            Ok((f, k)) => Ok(self.scopes[f].vars[k].1),
            Err(e) => Err(e),
        }
    }

    /// Finds the frame and slot binding `ident`, walking parents.
    fn find_binding(&self, scope: usize, ident: Identifier, fuel: usize) -> (r: Result<
        (usize, usize),
        FruError,
    >)
        ensures
            r == sp_find_binding(self@.scopes, scope, ident, fuel as nat),
            r matches Ok((f, k)) ==> f < self@.scopes.len() && k < self@.scopes[f as int].vars.len()
                && self@.scopes[f as int].vars[k as int].0 == ident,
        decreases fuel,
    {
        if fuel == 0 {
            return Err(FruError::OutOfFuel);
        }
        if scope >= self.scopes.len() {
            return Err(FruError::InternalFault);
        }
        proof {
            assert(self@.scopes[scope as int] == self.scopes@[scope as int]@);
        }
        let r = find_in_vars(&self.scopes[scope].vars, ident);
        match r {
            Some(k) => Ok((scope, k)),
            None => {
                match self.scopes[scope].parent {
                    Some(p) => self.find_binding(p, ident, fuel - 1),
                    None => Err(FruError::UndefinedVariable(ident)),
                }
            },
        }
    }

    /// Mutates the nearest binding of `ident`; the name must already exist
    /// somewhere on the chain, else `UndefinedVariable` comes back and
    /// nothing changes.
    pub fn set_variable(&mut self, scope: usize, ident: Identifier, value: FruValue) -> (r: Result<
        (),
        FruError,
    >)
        ensures
            (final(self)@, r) == sp_set_var(old(self)@, scope, ident, value),
    {
        let ghost st0 = self@;
        let fuel = self.scopes.len();
        match self.find_binding(scope, ident, fuel) {
            Ok((f, k)) => {
                self.scopes[f].vars[k] = (ident, value);
                proof {
                    let fr = st0.scopes[f as int];
                    let fr2 = FrameV { vars: fr.vars.update(k as int, (ident, value)), ..fr };
                    assert(self@.scopes =~= st0.scopes.update(f as int, fr2));
                    assert(self@ =~= sp_set_var(st0, scope, ident, value).0);
                }
                Ok(())
            },
            Err(e) => Err(e),
        }
    }

    /// Declares `ident` in the frame `scope` itself, shadowing any outer
    /// binding of the same name.
    pub fn let_variable(&mut self, scope: usize, ident: Identifier, value: FruValue) -> (r: Result<
        (),
        FruError,
    >)
        ensures
            (final(self)@, r) == sp_let_var(old(self)@, scope, ident, value),
    {
        let ghost st0 = self@;
        if scope >= self.scopes.len() {
            return Err(FruError::InternalFault);
        }
        proof {
            assert(self@.scopes[scope as int] == self.scopes@[scope as int]@);
        }
        let ghost varsv = self@.scopes[scope as int].vars;
        let slot = find_in_vars(&self.scopes[scope].vars, ident);
        match slot {
            Some(s) => {
                self.scopes[scope].vars[s] = (ident, value);
                proof {
                    let fr = st0.scopes[scope as int];
                    let fr2 = FrameV { vars: fr.vars.update(s as int, (ident, value)), ..fr };
                    assert(self@.scopes =~= st0.scopes.update(scope as int, fr2));
                    assert(self@ =~= sp_let_var(st0, scope, ident, value).0);
                }
                Ok(())
            },
            None => {
                self.scopes[scope].vars.push((ident, value));
                proof {
                    let fr = st0.scopes[scope as int];
                    let fr2 = FrameV { vars: fr.vars.push((ident, value)), ..fr };
                    assert(self@.scopes =~= st0.scopes.update(scope as int, fr2));
                    assert(self@ =~= sp_let_var(st0, scope, ident, value).0);
                }
                Ok(())
            },
        }
    }

    /// Sets the variable wherever the chain binds it, else declares it in
    /// `scope`: the write path of a scope exposed as a native value.
    pub fn let_set_variable(&mut self, scope: usize, ident: Identifier, value: FruValue) -> (r:
        Result<(), FruError>)
        ensures
            (final(self)@, r) == sp_let_set_var(old(self)@, scope, ident, value),
    {
        let ghost st0 = self@;
        match self.set_variable(scope, ident, value) {
            Ok(()) => Ok(()),
            Err(e) => {
                match e {
                    FruError::UndefinedVariable(_) => {
                        proof {
                            assert(self@ == st0);
                        }
                        self.let_variable(scope, ident, value)
                    },
                    _ => Err(e),
                }
            },
        }
    }

    /// Appends a fresh, empty frame and returns its handle.
    pub fn push_frame(&mut self, parent: Option<usize>, binding: ScopeBinding) -> (i: usize)
        ensures
            (final(self)@, i) == sp_push_frame(old(self)@, parent, binding),
    {
        let ghost st0 = self@;
        let i = self.scopes.len();
        self.scopes.push(Frame { vars: Vec::new(), parent, binding });
        proof {
            assert(self@.scopes =~= st0.scopes.push(
                FrameV { vars: Seq::empty(), parent, binding },
            ));
            assert(self@ =~= sp_push_frame(st0, parent, binding).0);
        }
        i
    }
}

/// The state after appending a fresh empty frame, with the frame's handle.
pub open spec fn sp_push_frame(st: StateV, parent: Option<usize>, binding: ScopeBinding) -> (
    StateV,
    usize,
) {
    (
        StateV {
            scopes: st.scopes.push(FrameV { vars: Seq::empty(), parent, binding }),
            ..st
        },
        st.scopes.len() as usize,
    )
}

/// The descriptor of one built-in type: just a name, an empty member set,
/// and the root scope.
pub open spec fn empty_type_data_v(ident: Identifier, scope: usize) -> TypeDataV {
    TypeDataV {
        ident,
        type_flavor: TypeFlavor::Struct,
        fields: Seq::empty(),
        static_fields: Seq::empty(),
        properties: Seq::empty(),
        static_properties: Seq::empty(),
        methods: Seq::empty(),
        static_methods: Seq::empty(),
        watches: Seq::empty(),
        operators: Seq::empty(),
        scope,
    }
}

/// The root frame's bindings: each built-in type name bound to its
/// descriptor.
pub open spec fn initial_root_vars() -> Seq<(Identifier, FruValue)> {
    seq![
        (identifier_of(id_nah()), FruValue::Type(FruType { idx: 0 })),
        (identifier_of(id_number()), FruValue::Type(FruType { idx: 1 })),
        (identifier_of(id_bool()), FruValue::Type(FruType { idx: 2 })),
        (identifier_of(id_string()), FruValue::Type(FruType { idx: 3 })),
        (identifier_of(id_function()), FruValue::Type(FruType { idx: 4 })),
        (identifier_of(id_struct_type()), FruValue::Type(FruType { idx: 5 })),
        (identifier_of(id_native_object()), FruValue::Type(FruType { idx: 6 })),
    ]
}

/// A fresh engine: the built-in texts interned, one root frame binding the
/// seven built-in type names, their seven empty descriptors, and nothing
/// else.
pub open spec fn initial_state() -> StateV {
    StateV {
        strings: builtin_texts(),
        scopes: seq![
            FrameV { vars: initial_root_vars(), parent: None, binding: ScopeBinding::Plain },
        ],
        types: seq![
            empty_type_data_v(identifier_of(id_nah()), 0),
            empty_type_data_v(identifier_of(id_number()), 0),
            empty_type_data_v(identifier_of(id_bool()), 0),
            empty_type_data_v(identifier_of(id_string()), 0),
            empty_type_data_v(identifier_of(id_function()), 0),
            empty_type_data_v(identifier_of(id_struct_type()), 0),
            empty_type_data_v(identifier_of(id_native_object()), 0),
        ],
        objects: Seq::empty(),
        funcs: Seq::empty(),
    }
}

fn empty_type_data(ident: Identifier, scope: usize) -> (t: TypeData)
    ensures
        t@ == empty_type_data_v(ident, scope),
{
    let t = TypeData {
        ident,
        type_flavor: TypeFlavor::Struct,
        fields: Vec::new(),
        static_fields: Vec::new(),
        properties: Vec::new(),
        static_properties: Vec::new(),
        methods: Vec::new(),
        static_methods: Vec::new(),
        watches: Vec::new(),
        operators: Vec::new(),
        scope,
    };
    proof {
        assert(t@ =~= empty_type_data_v(ident, scope));
    }
    t
}

impl Engine {
    /// Builds the fresh engine state.
    pub fn new() -> (e: Engine)
        ensures
            e@ == initial_state(),
    {
        let interner = Interner::new();
        let mut vars: Vec<(Identifier, FruValue)> = Vec::new();
        vars.push((Identifier::for_nah(), FruValue::Type(FruType { idx: 0 })));
        vars.push((Identifier::for_number(), FruValue::Type(FruType { idx: 1 })));
        vars.push((Identifier::for_bool(), FruValue::Type(FruType { idx: 2 })));
        vars.push((Identifier::for_string(), FruValue::Type(FruType { idx: 3 })));
        vars.push((Identifier::for_function(), FruValue::Type(FruType { idx: 4 })));
        vars.push((Identifier::for_struct_type(), FruValue::Type(FruType { idx: 5 })));
        vars.push((Identifier::for_native_object(), FruValue::Type(FruType { idx: 6 })));
        proof {
            assert forall|a: Identifier| true implies #[trigger] identifier_of(a@) == a by {
                lemma_identifier_of(a);
            }
            assert(vars@ =~= initial_root_vars());
        }
        let mut scopes: Vec<Frame> = Vec::new();
        scopes.push(Frame { vars, parent: None, binding: ScopeBinding::Plain });
        let mut types: Vec<TypeData> = Vec::new();
        types.push(empty_type_data(Identifier::for_nah(), 0));
        types.push(empty_type_data(Identifier::for_number(), 0));
        types.push(empty_type_data(Identifier::for_bool(), 0));
        types.push(empty_type_data(Identifier::for_string(), 0));
        types.push(empty_type_data(Identifier::for_function(), 0));
        types.push(empty_type_data(Identifier::for_struct_type(), 0));
        types.push(empty_type_data(Identifier::for_native_object(), 0));
        let e = Engine { interner, scopes, types, objects: Vec::new(), funcs: Vec::new() };
        proof {
            assert forall|a: Identifier| true implies #[trigger] identifier_of(a@) == a by {
                lemma_identifier_of(a);
            }
            assert(e@.scopes =~~= initial_state().scopes);
            assert(e@.types =~~= initial_state().types);
            assert(e@.objects =~= initial_state().objects);
            assert(e@.funcs =~= initial_state().funcs);
            assert(e@ =~= initial_state());
        }
        e
    }
}

} // verus!
