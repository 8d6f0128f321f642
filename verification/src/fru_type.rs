//! Type descriptors: fields, static state, properties, methods, the
//! append-only operator table, and instantiation.
//!
//! A `FruType` is a handle into the engine's type arena; the arena index is
//! the descriptor's unique id, so equality of handles is identity. Operator
//! registration refuses a key that is already present; resolution is an
//! exact match on the (operator, left type symbol, right type symbol)
//! triple, with one fallback: a commutative entry registered for the
//! swapped operand types serves the call with its operands exchanged.

use vstd::prelude::*;

use crate::ast::RawMethod;
use crate::engine::copy_vec;
use crate::engine::find_in_vars;
use crate::engine::sp_find_var;
use crate::engine::lemma_sp_find_var;
use crate::engine::AnyOperator;
use crate::engine::Engine;
use crate::engine::OpEntry;
use crate::engine::StateV;
use crate::engine::TypeDataV;
use crate::engine::TypeData;
use crate::error::FruError;
use crate::identifier::Identifier;
use crate::identifier::OperatorIdentifier;
use crate::value::FruField;
use crate::value::FruObject;
use crate::value::FruType;
use crate::value::FruValue;
use crate::value::Property;
use crate::value::TypeFlavor;
use crate::ast::RawWatch;

verus! {

/// Index of the first entry of the name, or -1.
pub open spec fn sp_find_field(s: Seq<FruField>, id: Identifier) -> int
    decreases s.len(),
{
    if s.len() == 0 {
        -1
    } else if s[0].ident == id {
        0
    } else {
        let r = sp_find_field(s.drop_first(), id);
        if r == -1 {
            -1
        } else {
            r + 1
        }
    }
}

pub proof fn lemma_sp_find_field(s: Seq<FruField>, id: Identifier)
    ensures
        sp_find_field(s, id) >= -1,
        sp_find_field(s, id) == -1 ==> forall|j: int| 0 <= j < s.len() ==> s[j].ident != id,
        sp_find_field(s, id) >= 0 ==> 0 <= sp_find_field(s, id) < s.len() && s[sp_find_field(s, id)].ident == id,
        sp_find_field(s, id) >= 0 ==> forall|j: int| 0 <= j < sp_find_field(s, id) ==> s[j].ident != id,
    decreases s.len(),
{
    if s.len() > 0 && s[0].ident != id {
        let d = s.drop_first();
        lemma_sp_find_field(d, id);
        let r = sp_find_field(d, id);
        if r == -1 {
            assert forall|j: int| 0 <= j < s.len() implies s[j].ident != id by {
                if j >= 1 {
                    assert(d[j - 1] == s[j]);
                }
            }
        } else {
            assert(r >= 0);
            assert(d[r] == s[r + 1]);
            assert forall|j: int| 0 <= j < sp_find_field(s, id) implies s[j].ident != id by {
                if j >= 1 {
                    assert(d[j - 1] == s[j]);
                }
            }
        }
    }
}

/// Index of the first entry of the name, or -1.
pub open spec fn sp_find_prop(s: Seq<Property>, id: Identifier) -> int
    decreases s.len(),
{
    if s.len() == 0 {
        -1
    } else if s[0].ident == id {
        0
    } else {
        let r = sp_find_prop(s.drop_first(), id);
        if r == -1 {
            -1
        } else {
            r + 1
        }
    }
}

pub proof fn lemma_sp_find_prop(s: Seq<Property>, id: Identifier)
    ensures
        sp_find_prop(s, id) >= -1,
        sp_find_prop(s, id) == -1 ==> forall|j: int| 0 <= j < s.len() ==> s[j].ident != id,
        sp_find_prop(s, id) >= 0 ==> 0 <= sp_find_prop(s, id) < s.len() && s[sp_find_prop(s, id)].ident == id,
        sp_find_prop(s, id) >= 0 ==> forall|j: int| 0 <= j < sp_find_prop(s, id) ==> s[j].ident != id,
    decreases s.len(),
{
    if s.len() > 0 && s[0].ident != id {
        let d = s.drop_first();
        lemma_sp_find_prop(d, id);
        let r = sp_find_prop(d, id);
        if r == -1 {
            assert forall|j: int| 0 <= j < s.len() implies s[j].ident != id by {
                if j >= 1 {
                    assert(d[j - 1] == s[j]);
                }
            }
        } else {
            assert(r >= 0);
            assert(d[r] == s[r + 1]);
            assert forall|j: int| 0 <= j < sp_find_prop(s, id) implies s[j].ident != id by {
                if j >= 1 {
                    assert(d[j - 1] == s[j]);
                }
            }
        }
    }
}

/// Index of the first entry of the name, or -1.
pub open spec fn sp_find_method(s: Seq<crate::ast::RawMethodV>, id: Identifier) -> int
    decreases s.len(),
{
    if s.len() == 0 {
        -1
    } else if s[0].ident == id {
        0
    } else {
        let r = sp_find_method(s.drop_first(), id);
        if r == -1 {
            -1
        } else {
            r + 1
        }
    }
}

pub proof fn lemma_sp_find_method(s: Seq<crate::ast::RawMethodV>, id: Identifier)
    ensures
        sp_find_method(s, id) >= -1,
        sp_find_method(s, id) == -1 ==> forall|j: int| 0 <= j < s.len() ==> s[j].ident != id,
        sp_find_method(s, id) >= 0 ==> 0 <= sp_find_method(s, id) < s.len() && s[sp_find_method(s, id)].ident == id,
        sp_find_method(s, id) >= 0 ==> forall|j: int| 0 <= j < sp_find_method(s, id) ==> s[j].ident != id,
    decreases s.len(),
{
    if s.len() > 0 && s[0].ident != id {
        let d = s.drop_first();
        lemma_sp_find_method(d, id);
        let r = sp_find_method(d, id);
        if r == -1 {
            assert forall|j: int| 0 <= j < s.len() implies s[j].ident != id by {
                if j >= 1 {
                    assert(d[j - 1] == s[j]);
                }
            }
        } else {
            assert(r >= 0);
            assert(d[r] == s[r + 1]);
            assert forall|j: int| 0 <= j < sp_find_method(s, id) implies s[j].ident != id by {
                if j >= 1 {
                    assert(d[j - 1] == s[j]);
                }
            }
        }
    }
}

/// Index of the first entry of the name, or -1.
pub open spec fn sp_find_op(s: Seq<OpEntry>, id: OperatorIdentifier) -> int
    decreases s.len(),
{
    if s.len() == 0 {
        -1
    } else if s[0].key == id {
        0
    } else {
        let r = sp_find_op(s.drop_first(), id);
        if r == -1 {
            -1
        } else {
            r + 1
        }
    }
}

pub proof fn lemma_sp_find_op(s: Seq<OpEntry>, id: OperatorIdentifier)
    ensures
        sp_find_op(s, id) >= -1,
        sp_find_op(s, id) == -1 ==> forall|j: int| 0 <= j < s.len() ==> s[j].key != id,
        sp_find_op(s, id) >= 0 ==> 0 <= sp_find_op(s, id) < s.len() && s[sp_find_op(s, id)].key == id,
        sp_find_op(s, id) >= 0 ==> forall|j: int| 0 <= j < sp_find_op(s, id) ==> s[j].key != id,
    decreases s.len(),
{
    if s.len() > 0 && s[0].key != id {
        let d = s.drop_first();
        lemma_sp_find_op(d, id);
        let r = sp_find_op(d, id);
        if r == -1 {
            assert forall|j: int| 0 <= j < s.len() implies s[j].key != id by {
                if j >= 1 {
                    assert(d[j - 1] == s[j]);
                }
            }
        } else {
            assert(r >= 0);
            assert(d[r] == s[r + 1]);
            assert forall|j: int| 0 <= j < sp_find_op(s, id) implies s[j].key != id by {
                if j >= 1 {
                    assert(d[j - 1] == s[j]);
                }
            }
        }
    }
}


/// Evaluated arguments of a call or instantiation: each is positional
/// (`None`) or named.
pub struct EvaluatedArgumentList {
    pub args: Vec<(Option<Identifier>, FruValue)>,
}

impl View for EvaluatedArgumentList {
    type V = Seq<(Option<Identifier>, FruValue)>;

    open spec fn view(&self) -> Seq<(Option<Identifier>, FruValue)> {
        self.args@
    }
}

/// The field name an argument lands on: its own name if given, else the
/// field at the argument's position; a positional argument beyond the field
/// list is an arity error.
pub open spec fn sp_arg_ident(
    fields: Seq<FruField>,
    args: Seq<(Option<Identifier>, FruValue)>,
    i: int,
) -> Result<Identifier, FruError> {
    match args[i].0 {
        Some(id) => Ok(id),
        None => if i < fields.len() {
            Ok(fields[i].ident)
        } else {
            Err(
                FruError::ArityMismatch {
                    expected: fields.len() as usize,
                    got: args.len() as usize,
                },
            )
        },
    }
}

/// Assigns arguments to field names left to right, refusing a field that
/// already got a value.
pub open spec fn sp_assign_args(
    fields: Seq<FruField>,
    args: Seq<(Option<Identifier>, FruValue)>,
    i: int,
    acc: Seq<(Identifier, FruValue)>,
) -> Result<Seq<(Identifier, FruValue)>, FruError>
    decreases args.len() - i,
{
    if i < 0 || i >= args.len() {
        Ok(acc)
    } else {
        match sp_arg_ident(fields, args, i) {
            Ok(id) => {
                if sp_find_var(acc, id) >= 0 {
                    Err(FruError::DuplicateField(id))
                } else {
                    sp_assign_args(fields, args, i + 1, acc.push((id, args[i].1)))
                }
            },
            Err(e) => Err(e),
        }
    }
}

/// Some field declares this name.
pub open spec fn sp_field_names_contain(fields: Seq<FruField>, id: Identifier) -> bool {
    exists|j: int| 0 <= j < fields.len() && fields[j].ident == id
}

/// First assigned name that no field declares.
pub open spec fn sp_first_unknown(
    fields: Seq<FruField>,
    assigned: Seq<(Identifier, FruValue)>,
    i: int,
) -> Option<Identifier>
    decreases assigned.len() - i,
{
    if i < 0 || i >= assigned.len() {
        None
    } else if !sp_field_names_contain(fields, assigned[i].0) {
        Some(assigned[i].0)
    } else {
        sp_first_unknown(fields, assigned, i + 1)
    }
}

/// Collects the value of every field in declaration order; the first field
/// without a value is the missing-field error, and it surfaces before any
/// unknown-field leftover is reported.
pub open spec fn sp_fill_fields(
    fields: Seq<FruField>,
    assigned: Seq<(Identifier, FruValue)>,
    k: int,
    out: Seq<FruValue>,
) -> Result<Seq<FruValue>, FruError>
    decreases fields.len() - k,
{
    if k < 0 || k >= fields.len() {
        match sp_first_unknown(fields, assigned, 0) {
            Some(id) => Err(FruError::UnknownField(id)),
            None => Ok(out),
        }
    } else {
        let j = sp_find_var(assigned, fields[k].ident);
        if j >= 0 {
            sp_fill_fields(fields, assigned, k + 1, out.push(assigned[j].1))
        } else {
            Err(FruError::MissingField(fields[k].ident))
        }
    }
}

/// What instantiation computes from a field list and an argument list: the
/// object's field values in declaration order, or the first error in the
/// fixed order duplicate, then arity, then missing, then unknown.
pub open spec fn sp_instantiate(
    fields: Seq<FruField>,
    args: Seq<(Option<Identifier>, FruValue)>,
) -> Result<Seq<FruValue>, FruError> {
    match sp_assign_args(fields, args, 0, Seq::empty()) {
        Ok(assigned) => sp_fill_fields(fields, assigned, 0, Seq::empty()),
        Err(e) => Err(e),
    }
}

/// The state after allocating an object of the type with the given field
/// values, with the object's handle.
pub open spec fn sp_alloc_object(st: StateV, type_idx: usize, vals: Seq<FruValue>) -> (
    StateV,
    usize,
) {
    (
        StateV {
            objects: st.objects.push(crate::engine::ObjectDataV { type_idx, fields: vals }),
            ..st
        },
        st.objects.len() as usize,
    )
}

/// The state after appending a freshly declared type, with its handle.
pub open spec fn sp_declare_type(st: StateV, t: TypeDataV) -> (StateV, usize) {
    (StateV { types: st.types.push(t), ..st }, st.types.len() as usize)
}

/// The state after appending one operator entry to a type's table.
pub open spec fn sp_push_op(st: StateV, tidx: int, e: OpEntry) -> StateV {
    let t = st.types[tidx];
    let t2 = TypeDataV { operators: t.operators.push(e), ..t };
    StateV { types: st.types.update(tidx, t2), ..st }
}

/// Registering an operator: refused with `OperatorAlreadySet` exactly when
/// the key is present; otherwise the entry is appended and nothing else
/// changes.
pub open spec fn sp_set_operator(
    st: StateV,
    tidx: usize,
    key: OperatorIdentifier,
    commutative: bool,
    op: AnyOperator,
) -> (StateV, Result<(), FruError>) {
    if tidx >= st.types.len() {
        (st, Err(FruError::InternalFault))
    } else if sp_find_op(st.types[tidx as int].operators, key) >= 0 {
        (st, Err(FruError::OperatorAlreadySet(key.op)))
    } else {
        (sp_push_op(st, tidx as int, OpEntry { key, commutative, op }), Ok(()))
    }
}

/// Operator resolution for a call `op` with operand type symbols
/// `(left_sym, right_sym)` whose descriptors are `left_t` and `right_t`:
/// an exact match on the left type's table, else a commutative entry for the
/// swapped symbols on the right type's table, used with operands exchanged
/// (the `bool` of the result). No coercion, no other fallback.
pub open spec fn sp_resolve_operator(
    st: StateV,
    op: Identifier,
    left_sym: Identifier,
    left_t: usize,
    right_sym: Identifier,
    right_t: usize,
) -> Result<(AnyOperator, bool), FruError> {
    if left_t >= st.types.len() || right_t >= st.types.len() {
        Err(FruError::InternalFault)
    } else {
        let direct = OperatorIdentifier { op, left: left_sym, right: right_sym };
        let k = sp_find_op(st.types[left_t as int].operators, direct);
        if k >= 0 {
            Ok((st.types[left_t as int].operators[k].op, false))
        } else {
            let swapped = OperatorIdentifier { op, left: right_sym, right: left_sym };
            let k2 = sp_find_op(st.types[right_t as int].operators, swapped);
            if k2 >= 0 && st.types[right_t as int].operators[k2].commutative {
                Ok((st.types[right_t as int].operators[k2].op, true))
            } else {
                Err(FruError::NoSuchOperator(direct))
            }
        }
    }
}

/// A commutative entry registered for `(op, a, b)` also serves the call
/// with operand type symbols `(b, a)`, by swapping, whenever no exact entry
/// for `(op, b, a)` exists on the `b` descriptor's table.
pub proof fn lemma_commutative_swap(
    st: StateV,
    op: Identifier,
    a_sym: Identifier,
    a_t: usize,
    b_sym: Identifier,
    b_t: usize,
)
    requires
        a_t < st.types.len(),
        b_t < st.types.len(),
        sp_find_op(
            st.types[b_t as int].operators,
            OperatorIdentifier { op, left: b_sym, right: a_sym },
        ) == -1,
        sp_find_op(
            st.types[a_t as int].operators,
            OperatorIdentifier { op, left: a_sym, right: b_sym },
        ) >= 0,
        ({
            let k = sp_find_op(
                st.types[a_t as int].operators,
                OperatorIdentifier { op, left: a_sym, right: b_sym },
            );
            st.types[a_t as int].operators[k].commutative
        }),
    ensures
        ({
            let k = sp_find_op(
                st.types[a_t as int].operators,
                OperatorIdentifier { op, left: a_sym, right: b_sym },
            );
            sp_resolve_operator(st, op, b_sym, b_t, a_sym, a_t) == Ok::<_, FruError>(
                (st.types[a_t as int].operators[k].op, true),
            )
        }),
{
}

/// Finds an operator entry by key in a table.
#[verifier::loop_isolation(false)]
fn find_op_entry(ops: &Vec<OpEntry>, key: OperatorIdentifier) -> (r: Option<usize>)
    ensures
        (match r {
            Some(k) => sp_find_op(ops@, key) == k as int && k < ops@.len() && ops@[k as int].key
                == key,
            None => sp_find_op(ops@, key) == -1,
        }),
{
    let mut i: usize = 0;
    while i < ops.len()
        invariant
            0 <= i <= ops@.len(),
            forall|j: int| 0 <= j < i ==> ops@[j].key != key,
        decreases ops@.len() - i,
    {
        if ops[i].key.op == key.op && ops[i].key.left == key.left && ops[i].key.right == key.right {
            proof {
                lemma_sp_find_op(ops@, key);
                let k = sp_find_op(ops@, key);
                assert(ops@[i as int].key == key);
                if k == -1 {
                    assert(ops@[i as int].key != key);
                }
                if 0 <= k < i as int {
                    assert(ops@[k].key == key);
                    assert(ops@[k].key != key);
                }
                if k > i as int {
                    assert(ops@[i as int].key != key);
                }
            }
            return Some(i);
        }
        i = i + 1;
    }
    proof {
        lemma_sp_find_op(ops@, key);
        let k = sp_find_op(ops@, key);
        if k >= 0 {
            assert(ops@[k].key == key);
        }
    }
    None
}

impl FruType {
    /// Declares a type: appends its descriptor to the arena and returns the
    /// descriptor as a value. The arena index is the type's unique id.
    pub fn new_value(
        e: &mut Engine,
        ident: Identifier,
        type_flavor: TypeFlavor,
        fields: Vec<FruField>,
        static_fields: Vec<(Identifier, FruValue)>,
        properties: Vec<Property>,
        static_properties: Vec<Property>,
        methods: Vec<RawMethod>,
        static_methods: Vec<RawMethod>,
        watches: Vec<RawWatch>,
        scope: usize,
    ) -> (r: FruValue)
        ensures
            ({
                let t = TypeDataV {
                    ident,
                    type_flavor,
                    fields: fields@,
                    static_fields: static_fields@,
                    properties: properties@,
                    static_properties: static_properties@,
                    methods: methods@.map_values(|m: RawMethod| m@),
                    static_methods: static_methods@.map_values(|m: RawMethod| m@),
                    watches: watches@.map_values(|w: RawWatch| w@),
                    operators: Seq::empty(),
                    scope,
                };
                final(e)@ == sp_declare_type(old(e)@, t).0 && r == FruValue::Type(
                    (FruType { idx: old(e)@.types.len() as usize }),
                )
            }),
    {
        let ghost st0 = e@;
        let idx = e.types.len();
        let t = TypeData {
            ident,
            type_flavor,
            fields,
            static_fields,
            properties,
            static_properties,
            methods,
            static_methods,
            watches,
            operators: Vec::new(),
            scope,
        };
        let ghost tv = t@;
        e.types.push(t);
        proof {
            assert(tv.operators =~= Seq::<OpEntry>::empty());
            assert(e@.types =~= st0.types.push(tv));
            assert(e@ =~= sp_declare_type(st0, tv).0);
        }
        FruValue::Type(FruType { idx })
    }

    /// The type's unique id: its arena index.
    pub fn get_uid(&self) -> (r: usize)
        ensures
            r == self.idx,
    {
        self.idx
    }

    /// The type's declared name.
    pub fn get_ident(&self, e: &Engine) -> (r: Identifier)
        requires
            self.idx < e@.types.len(),
        ensures
            r == e@.types[self.idx as int].ident,
    {
        e.types[self.idx].ident
    }

    /// The type's flavor.
    pub fn get_type_flavor(&self, e: &Engine) -> (r: TypeFlavor)
        requires
            self.idx < e@.types.len(),
        ensures
            r == e@.types[self.idx as int].type_flavor,
    {
        e.types[self.idx].type_flavor
    }

    /// The scope the type was declared in.
    pub fn get_scope(&self, e: &Engine) -> (r: usize)
        requires
            self.idx < e@.types.len(),
        ensures
            r == e@.types[self.idx as int].scope,
    {
        e.types[self.idx].scope
    }

    /// The declared fields, in declaration order.
    pub fn get_fields(&self, e: &Engine) -> (r: Vec<FruField>)
        requires
            self.idx < e@.types.len(),
        ensures
            r@ == e@.types[self.idx as int].fields,
    {
        copy_vec(&e.types[self.idx].fields)
    }

    /// Position of the named field in declaration order, if any.
    #[verifier::loop_isolation(false)]
    pub fn get_field_k(&self, e: &Engine, ident: Identifier) -> (r: Option<usize>)
        requires
            self.idx < e@.types.len(),
        ensures
            (match r {
                Some(k) => sp_find_field(e@.types[self.idx as int].fields, ident) == k as int,
                None => sp_find_field(e@.types[self.idx as int].fields, ident) == -1,
            }),
    {
        let ghost fieldsv = e@.types[self.idx as int].fields;
        let fields = &e.types[self.idx].fields;
        let mut i: usize = 0;
        while i < fields.len()
            invariant
                0 <= i <= fieldsv.len(),
                fieldsv == fields@,
                forall|j: int| 0 <= j < i ==> fieldsv[j].ident != ident,
            decreases fieldsv.len() - i,
        {
            if fields[i].ident == ident {
                proof {
                    lemma_sp_find_field(fieldsv, ident);
                    let k = sp_find_field(fieldsv, ident);
                    assert(fieldsv[i as int].ident == ident);
                    if k == -1 {
                        assert(fieldsv[i as int].ident != ident);
                    }
                    if 0 <= k < i as int {
                        assert(fieldsv[k].ident == ident);
                        assert(fieldsv[k].ident != ident);
                    }
                    if k > i as int {
                        assert(fieldsv[i as int].ident != ident);
                    }
                }
                return Some(i);
            }
            i = i + 1;
        }
        proof {
            lemma_sp_find_field(fieldsv, ident);
            let k = sp_find_field(fieldsv, ident);
            if k >= 0 {
                assert(fieldsv[k].ident == ident);
            }
        }
        None
    }

    /// The named instance property, if any.
    #[verifier::loop_isolation(false)]
    pub fn get_property(&self, e: &Engine, ident: Identifier) -> (r: Option<Property>)
        requires
            self.idx < e@.types.len(),
        ensures
            (match r {
                Some(p) => {
                    let k = sp_find_prop(e@.types[self.idx as int].properties, ident);
                    k >= 0 && p == e@.types[self.idx as int].properties[k]
                },
                None => sp_find_prop(e@.types[self.idx as int].properties, ident) == -1,
            }),
    {
        let ghost propsv = e@.types[self.idx as int].properties;
        let props = &e.types[self.idx].properties;
        let mut i: usize = 0;
        while i < props.len()
            invariant
                0 <= i <= propsv.len(),
                propsv == props@,
                forall|j: int| 0 <= j < i ==> propsv[j].ident != ident,
            decreases propsv.len() - i,
        {
            if props[i].ident == ident {
                proof {
                    lemma_sp_find_prop(propsv, ident);
                    let k = sp_find_prop(propsv, ident);
                    assert(propsv[i as int].ident == ident);
                    if k == -1 {
                        assert(propsv[i as int].ident != ident);
                    }
                    if 0 <= k < i as int {
                        assert(propsv[k].ident == ident);
                        assert(propsv[k].ident != ident);
                    }
                    if k > i as int {
                        assert(propsv[i as int].ident != ident);
                    }
                }
                return Some(props[i]);
            }
            i = i + 1;
        }
        proof {
            lemma_sp_find_prop(propsv, ident);
            let k = sp_find_prop(propsv, ident);
            if k >= 0 {
                assert(propsv[k].ident == ident);
            }
        }
        None
    }

    /// The named instance method, if any.
    #[verifier::loop_isolation(false)]
    pub fn get_method(&self, e: &Engine, ident: Identifier) -> (r: Option<RawMethod>)
        requires
            self.idx < e@.types.len(),
        ensures
            (match r {
                Some(m) => {
                    let k = sp_find_method(e@.types[self.idx as int].methods, ident);
                    k >= 0 && m@ == e@.types[self.idx as int].methods[k]
                },
                None => sp_find_method(e@.types[self.idx as int].methods, ident) == -1,
            }),
    {
        let ghost methodsv = e@.types[self.idx as int].methods;
        let methods = &e.types[self.idx].methods;
        let mut i: usize = 0;
        while i < methods.len()
            invariant
                0 <= i <= methodsv.len(),
                methodsv == methods@.map_values(|m: RawMethod| m@),
                forall|j: int| 0 <= j < i ==> methodsv[j].ident != ident,
            decreases methodsv.len() - i,
        {
            if methods[i].ident == ident {
                proof {
                    lemma_sp_find_method(methodsv, ident);
                    let k = sp_find_method(methodsv, ident);
                    assert(methodsv[i as int] == methods@[i as int]@);
                    assert(methodsv[i as int].ident == ident);
                    if k == -1 {
                        assert(methodsv[i as int].ident != ident);
                    }
                    if 0 <= k < i as int {
                        assert(methodsv[k].ident == ident);
                        assert(methodsv[k].ident != ident);
                    }
                    if k > i as int {
                        assert(methodsv[i as int].ident != ident);
                    }
                }
                let m = &methods[i];
                let out = RawMethod { ident: m.ident, args: copy_vec(&m.args), body: m.body };
                proof {
                    assert(out@ == methodsv[i as int]);
                }
                return Some(out);
            }
            proof {
                assert(methodsv[i as int] == methods@[i as int]@);
            }
            i = i + 1;
        }
        proof {
            lemma_sp_find_method(methodsv, ident);
            let k = sp_find_method(methodsv, ident);
            if k >= 0 {
                assert(methodsv[k].ident == ident);
            }
        }
        None
    }

    /// The operator entry stored under exactly this key, if any.
    pub fn get_operator(&self, e: &Engine, key: OperatorIdentifier) -> (r: Option<OpEntry>)
        requires
            self.idx < e@.types.len(),
        ensures
            (match r {
                Some(entry) => {
                    let k = sp_find_op(e@.types[self.idx as int].operators, key);
                    k >= 0 && entry == e@.types[self.idx as int].operators[k]
                },
                None => sp_find_op(e@.types[self.idx as int].operators, key) == -1,
            }),
    {
        match find_op_entry(&e.types[self.idx].operators, key) {
            Some(k) => Some(e.types[self.idx].operators[k]),
            None => None,
        }
    }

    /// Registers an operator overload; a key already present is refused
    /// with `OperatorAlreadySet` and the table is unchanged. The table is
    /// append-only: no redefinition, no shadowing.
    pub fn set_operator(
        &self,
        e: &mut Engine,
        key: OperatorIdentifier,
        commutative: bool,
        value: AnyOperator,
    ) -> (r: Result<(), FruError>)
        ensures
            (final(e)@, r) == sp_set_operator(old(e)@, self.idx, key, commutative, value),
    {
        let ghost st0 = e@;
        if self.idx >= e.types.len() {
            return Err(FruError::InternalFault);
        }
        match find_op_entry(&e.types[self.idx].operators, key) {
            Some(_) => Err(FruError::OperatorAlreadySet(key.op)),
            None => {
                self_push_op(e, self.idx, OpEntry { key, commutative, op: value });
                proof {
                    assert(e@ =~= sp_set_operator(st0, self.idx, key, commutative, value).0);
                }
                Ok(())
            },
        }
    }

    /// Instantiates the type from positional and named arguments. On
    /// success a fresh object holding the field values in declaration order
    /// is allocated; otherwise the first error in the order duplicate,
    /// arity, missing, unknown comes back and nothing changes.
    #[verifier::loop_isolation(false)]
    pub fn instantiate(&self, e: &mut Engine, args: EvaluatedArgumentList) -> (r: Result<
        FruValue,
        FruError,
    >)
        requires
            self.idx < old(e)@.types.len(),
        ensures
            (match sp_instantiate(old(e)@.types[self.idx as int].fields, args@) {
                Ok(vals) => final(e)@ == sp_alloc_object(old(e)@, self.idx, vals).0 && r == Ok::<
                    FruValue,
                    FruError,
                >(FruValue::Object((FruObject { idx: old(e)@.objects.len() as usize }))),
                Err(er) => final(e)@ == old(e)@ && r == Err::<FruValue, FruError>(er),
            }),
    {
        let ghost st0 = e@;
        let ghost fieldsv = e@.types[self.idx as int].fields;
        let ghost argsv = args@;
        let fields = copy_vec(&e.types[self.idx].fields);
        let n = args.args.len();
        let mut assigned: Vec<(Identifier, FruValue)> = Vec::new();
        let mut i: usize = 0;
        while i < n
            invariant
                0 <= i <= n,
                n == argsv.len(),
                argsv == args.args@,
                fieldsv == fields@,
                sp_assign_args(fieldsv, argsv, 0, Seq::empty()) == sp_assign_args(
                    fieldsv,
                    argsv,
                    i as int,
                    assigned@,
                ),
            decreases n - i,
        {
            let ident_opt: Option<Identifier> = args.args[i].0;
            let ident = match ident_opt {
                Some(id) => id,
                None => {
                    if i < fields.len() {
                        fields[i].ident
                    } else {
                        proof {
                            assert(sp_arg_ident(fieldsv, argsv, i as int) == Err::<
                                Identifier,
                                FruError,
                            >(
                                FruError::ArityMismatch {
                                    expected: fieldsv.len() as usize,
                                    got: argsv.len() as usize,
                                },
                            ));
                        }
                        return Err(
                            FruError::ArityMismatch { expected: fields.len(), got: args.args.len() },
                        );
                    }
                },
            };
            proof {
                assert(sp_arg_ident(fieldsv, argsv, i as int) == Ok::<Identifier, FruError>(ident));
            }
            match find_in_vars(&assigned, ident) {
                Some(_) => {
                    return Err(FruError::DuplicateField(ident));
                },
                None => {
                    assigned.push((ident, args.args[i].1));
                },
            }
            i = i + 1;
        }
        let ghost assignedv = assigned@;
        proof {
            assert(sp_assign_args(fieldsv, argsv, 0, Seq::empty()) == Ok::<
                Seq<(Identifier, FruValue)>,
                FruError,
            >(assignedv));
        }
        let mut out: Vec<FruValue> = Vec::new();
        let mut k: usize = 0;
        while k < fields.len()
            invariant
                0 <= k <= fieldsv.len(),
                fieldsv == fields@,
                assignedv == assigned@,
                sp_fill_fields(fieldsv, assignedv, 0, Seq::empty()) == sp_fill_fields(
                    fieldsv,
                    assignedv,
                    k as int,
                    out@,
                ),
            decreases fieldsv.len() - k,
        {
            match find_in_vars(&assigned, fields[k].ident) {
                Some(j) => {
                    out.push(assigned[j].1);
                },
                None => {
                    return Err(FruError::MissingField(fields[k].ident));
                },
            }
            k = k + 1;
        }
        // Leftover check: every assigned name must be a declared field.
        let mut q: usize = 0;
        while q < assigned.len()
            invariant
                0 <= q <= assignedv.len(),
                assignedv == assigned@,
                fieldsv == fields@,
                sp_first_unknown(fieldsv, assignedv, 0) == sp_first_unknown(
                    fieldsv,
                    assignedv,
                    q as int,
                ),
            decreases assignedv.len() - q,
        {
            let mut hit = false;
            let mut w: usize = 0;
            while w < fields.len()
                invariant
                    0 <= w <= fieldsv.len(),
                    fieldsv == fields@,
                    assignedv == assigned@,
                    q < assignedv.len(),
                    hit ==> sp_field_names_contain(fieldsv, assignedv[q as int].0),
                    !hit ==> forall|j: int|
                        0 <= j < w ==> fieldsv[j].ident != assignedv[q as int].0,
                decreases fieldsv.len() - w,
            {
                if fields[w].ident == assigned[q].0 {
                    hit = true;
                    proof {
                        assert(sp_field_names_contain(fieldsv, assignedv[q as int].0));
                    }
                }
                w = w + 1;
            }
            if !hit {
                proof {
                    assert(!sp_field_names_contain(fieldsv, assignedv[q as int].0));
                }
                return Err(FruError::UnknownField(assigned[q].0));
            }
            q = q + 1;
        }
        proof {
            assert(sp_first_unknown(fieldsv, assignedv, 0) == None::<Identifier>);
            assert(sp_instantiate(fieldsv, argsv) == Ok::<Seq<FruValue>, FruError>(out@));
        }
        let obj_idx = e.objects.len();
        let ghost outv = out@;
        e.objects.push(crate::engine::ObjectData { type_idx: self.idx, fields: out });
        proof {
            assert(e@.objects =~= st0.objects.push(
                crate::engine::ObjectDataV { type_idx: self.idx, fields: outv },
            ));
            assert(e@ =~= sp_alloc_object(st0, self.idx, outv).0);
        }
        Ok(FruValue::Object(FruObject { idx: obj_idx }))
    }
}

impl Engine {
    /// Resolves an operator call by the operand type symbols: an exact
    /// match on the left type's table, else a commutative entry for the
    /// swapped symbols on the right type's table (the `bool` says the
    /// operands must be exchanged).
    pub fn resolve_operator(
        &self,
        op: Identifier,
        left_sym: Identifier,
        left_t: usize,
        right_sym: Identifier,
        right_t: usize,
    ) -> (r: Result<(AnyOperator, bool), FruError>)
        ensures
            r == sp_resolve_operator(self@, op, left_sym, left_t, right_sym, right_t),
    {
        if left_t >= self.types.len() || right_t >= self.types.len() {
            return Err(FruError::InternalFault);
        }
        let direct = OperatorIdentifier { op, left: left_sym, right: right_sym };
        match find_op_entry(&self.types[left_t].operators, direct) {
            Some(k) => Ok((self.types[left_t].operators[k].op, false)),
            None => {
                let swapped = OperatorIdentifier { op, left: right_sym, right: left_sym };
                match find_op_entry(&self.types[right_t].operators, swapped) {
                    Some(k2) => {
                        if self.types[right_t].operators[k2].commutative {
                            Ok((self.types[right_t].operators[k2].op, true))
                        } else {
                            Err(FruError::NoSuchOperator(direct))
                        }
                    },
                    None => Err(FruError::NoSuchOperator(direct)),
                }
            },
        }
    }
}

/// Appends one operator entry to a type's table.
fn self_push_op(e: &mut Engine, tidx: usize, entry: OpEntry)
    requires
        tidx < old(e)@.types.len(),
    ensures
        final(e)@ == sp_push_op(old(e)@, tidx as int, entry),
{
    let ghost st0 = e@;
    e.types[tidx].operators.push(entry);
    proof {
        let t = st0.types[tidx as int];
        let t2 = TypeDataV { operators: t.operators.push(entry), ..t };
        assert(e@.types =~= st0.types.update(tidx as int, t2));
        assert(e@ =~= sp_push_op(st0, tidx as int, entry));
    }
}

} // verus!
