//! Interned symbols.
//!
//! Every name and operator token of a program is turned into an `Identifier`,
//! a small copyable handle. The `Interner` owns the table behind the handles:
//! the same text always yields the same handle, and the original text can be
//! recovered from any handle the interner produced. The interner is an owned
//! value passed by reference, so there is no process-wide mutable state.

use vstd::prelude::*;

verus! {

/// Handle for an interned name or operator token.
///
/// Equality and ordering are by handle value. A handle is an index into the
/// owning interner's table, so two handles made from the same text by the
/// same interner are equal, and distinct texts get distinct handles.
#[derive(Debug, Clone, Copy, PartialEq, Eq, Structural)]
pub struct Identifier {
    key: u64,
}

impl View for Identifier {
    type V = int;

    closed spec fn view(&self) -> int {
        self.key as int
    }
}

/// Handles are nothing but their view: two are equal exactly when their
/// views are, and a view is never negative.
pub broadcast proof fn lemma_identifier_view(a: Identifier, b: Identifier)
    ensures
        (a == b) <==> (#[trigger] a@ == #[trigger] b@),
        a@ >= 0,
{
}

/// The handle whose view is `k`, for use in specifications.
pub closed spec fn identifier_of(k: int) -> Identifier {
    Identifier { key: k as u64 }
}

pub broadcast proof fn lemma_identifier_of(id: Identifier)
    ensures
        #[trigger] identifier_of(id@) == id,
        0 <= id@ <= u64::MAX,
{
}

/// Key of one concrete operator overload: the operator token together with
/// the type symbols of the left and right operands.
#[derive(Debug, Clone, Copy, PartialEq, Eq, Structural)]
pub struct OperatorIdentifier {
    pub op: Identifier,
    pub left: Identifier,
    pub right: Identifier,
}

impl OperatorIdentifier {
    pub fn new(op: Identifier, left: Identifier, right: Identifier) -> (res: OperatorIdentifier)
        ensures
            res.op == op,
            res.left == left,
            res.right == right,
    {
        OperatorIdentifier { op, left, right }
    }
}

/// The table of interned texts. Index `k` holds the text whose handle is `k`.
pub struct Interner {
    table: Vec<String>,
}

impl View for Interner {
    type V = Seq<Seq<char>>;

    closed spec fn view(&self) -> Seq<Seq<char>> {
        self.table@.map_values(|s: String| s@)
    }
}

/// Index of the first entry in `tbl[i..]` equal to `text`, or -1.
pub open spec fn find_text_from(tbl: Seq<Seq<char>>, text: Seq<char>, i: int) -> int
    decreases tbl.len() - i,
{
    if i < 0 || i >= tbl.len() {
        -1
    } else if tbl[i] == text {
        i
    } else {
        find_text_from(tbl, text, i + 1)
    }
}

/// Index of the first entry of `tbl` equal to `text`, or -1.
pub open spec fn find_text(tbl: Seq<Seq<char>>, text: Seq<char>) -> int {
    find_text_from(tbl, text, 0)
}

/// What interning does to the table: an existing text keeps the table and
/// yields its first index; a new text is appended and yields the old length.
pub open spec fn intern_spec(tbl: Seq<Seq<char>>, text: Seq<char>) -> (Seq<Seq<char>>, int) {
    let j = find_text(tbl, text);
    if j >= 0 {
        (tbl, j)
    } else {
        (tbl.push(text), tbl.len() as int)
    }
}

pub proof fn lemma_find_from_props(tbl: Seq<Seq<char>>, text: Seq<char>, i: int)
    requires
        0 <= i <= tbl.len(),
    ensures
        find_text_from(tbl, text, i) >= 0 ==> i <= find_text_from(tbl, text, i) < tbl.len()
            && tbl[find_text_from(tbl, text, i)] == text,
        find_text_from(tbl, text, i) >= 0 ==> forall|j: int|
            i <= j < find_text_from(tbl, text, i) ==> tbl[j] != text,
        find_text_from(tbl, text, i) == -1 ==> forall|j: int|
            i <= j < tbl.len() ==> tbl[j] != text,
        find_text_from(tbl, text, i) >= 0 || find_text_from(tbl, text, i) == -1,
    decreases tbl.len() - i,
{
    if i < tbl.len() && tbl[i] != text {
        lemma_find_from_props(tbl, text, i + 1);
    }
}

/// No two of the built-in texts are the same.
#[verifier::rlimit(100)]
pub proof fn lemma_builtin_texts_distinct()
    ensures
        forall|a: int, b: int|
            0 <= a < 22 && 0 <= b < 22 && a != b ==> builtin_texts()[a] != builtin_texts()[b],
{
    reveal_strlit("Nah");
    reveal_strlit("Number");
    reveal_strlit("Bool");
    reveal_strlit("String");
    reveal_strlit("Function");
    reveal_strlit("StructType");
    reveal_strlit("NativeObject");
    reveal_strlit("+");
    reveal_strlit("-");
    reveal_strlit("*");
    reveal_strlit("/");
    reveal_strlit("%");
    reveal_strlit("**");
    reveal_strlit("&&");
    reveal_strlit("||");
    reveal_strlit("<>");
    reveal_strlit("<");
    reveal_strlit("<=");
    reveal_strlit(">");
    reveal_strlit(">=");
    reveal_strlit("==");
    reveal_strlit("!=");
    assert forall|a: int, b: int|
        0 <= a < 22 && 0 <= b < 22 && a != b implies builtin_texts()[a]
        != builtin_texts()[b] by {
        let ta = builtin_texts()[a];
        let tb = builtin_texts()[b];
        if ta.len() == tb.len() {
            assert(ta[0] != tb[0] || ta[1] != tb[1]);
        }
    }
}

pub proof fn lemma_find_from_push(tbl: Seq<Seq<char>>, text: Seq<char>, x: Seq<char>, i: int)
    requires
        0 <= i <= tbl.len(),
    ensures
        find_text_from(tbl, text, i) >= 0 ==> find_text_from(tbl.push(x), text, i)
            == find_text_from(tbl, text, i),
        find_text_from(tbl, text, i) == -1 ==> find_text_from(tbl.push(x), text, i)
            == (if x == text { tbl.len() as int } else { -1 }),
    decreases tbl.len() - i,
{
    if i < tbl.len() {
        assert(tbl.push(x)[i] == tbl[i]);
        if tbl[i] != text {
            lemma_find_from_push(tbl, text, x, i + 1);
        }
    } else {
        assert(tbl.push(x)[i] == x);
        if x != text {
            assert(find_text_from(tbl.push(x), text, i + 1) == -1);
        }
    }
}

/// Interning the same text a second time changes nothing and yields the same
/// handle, and the table holds that text at the handle's index, so display
/// recovers the text exactly.
pub proof fn lemma_intern_idempotent(tbl: Seq<Seq<char>>, text: Seq<char>)
    ensures
        ({
            let (t1, j1) = intern_spec(tbl, text);
            let (t2, j2) = intern_spec(t1, text);
            &&& t2 == t1
            &&& j2 == j1
            &&& 0 <= j1 < t1.len()
            &&& t1[j1] == text
        }),
{
    lemma_find_from_props(tbl, text, 0);
    let j = find_text(tbl, text);
    if j >= 0 {
        lemma_find_from_props(tbl, text, 0);
    } else {
        lemma_find_from_push(tbl, text, text, 0);
        assert(tbl.push(text)[tbl.len() as int] == text);
    }
}

/// The texts whose handles every interner hands out from birth, in handle
/// order: the built-in type names, then the built-in operator tokens.
pub open spec fn builtin_texts() -> Seq<Seq<char>> {
    seq![
        "Nah"@,
        "Number"@,
        "Bool"@,
        "String"@,
        "Function"@,
        "StructType"@,
        "NativeObject"@,
        "+"@,
        "-"@,
        "*"@,
        "/"@,
        "%"@,
        "**"@,
        "&&"@,
        "||"@,
        "<>"@,
        "<"@,
        "<="@,
        ">"@,
        ">="@,
        "=="@,
        "!="@,
    ]
}

/// A table that still answers the built-in texts with their fixed handles.
/// Interning only appends, so every interner keeps this shape.
pub open spec fn has_builtins(tbl: Seq<Seq<char>>) -> bool {
    &&& tbl.len() >= 22
    &&& forall|k: int| 0 <= k < 22 ==> tbl[k] == builtin_texts()[k]
    &&& forall|k: int| 0 <= k < 22 ==> find_text(tbl, builtin_texts()[k]) == k
}

impl Interner {
    /// A fresh interner, holding exactly the built-in texts.
    #[verifier::rlimit(60)]
    pub fn new() -> (res: Interner)
        ensures
            res@ == builtin_texts(),
            has_builtins(res@),
    {
        let mut table: Vec<String> = Vec::new();
        table.push("Nah".to_owned());
        table.push("Number".to_owned());
        table.push("Bool".to_owned());
        table.push("String".to_owned());
        table.push("Function".to_owned());
        table.push("StructType".to_owned());
        table.push("NativeObject".to_owned());
        table.push("+".to_owned());
        table.push("-".to_owned());
        table.push("*".to_owned());
        table.push("/".to_owned());
        table.push("%".to_owned());
        table.push("**".to_owned());
        table.push("&&".to_owned());
        table.push("||".to_owned());
        table.push("<>".to_owned());
        table.push("<".to_owned());
        table.push("<=".to_owned());
        table.push(">".to_owned());
        table.push(">=".to_owned());
        table.push("==".to_owned());
        table.push("!=".to_owned());
        let res = Interner { table };
        proof {
            reveal_strlit("Nah");
            reveal_strlit("Number");
            reveal_strlit("Bool");
            reveal_strlit("String");
            reveal_strlit("Function");
            reveal_strlit("StructType");
            reveal_strlit("NativeObject");
            reveal_strlit("+");
            reveal_strlit("-");
            reveal_strlit("*");
            reveal_strlit("/");
            reveal_strlit("%");
            reveal_strlit("**");
            reveal_strlit("&&");
            reveal_strlit("||");
            reveal_strlit("<>");
            reveal_strlit("<");
            reveal_strlit("<=");
            reveal_strlit(">");
            reveal_strlit(">=");
            reveal_strlit("==");
            reveal_strlit("!=");
            assert(res@ =~= builtin_texts());
            lemma_builtin_texts_distinct();
            assert forall|k: int| 0 <= k < 22 implies find_text(res@, builtin_texts()[k]) == k by {
                lemma_find_from_props(res@, builtin_texts()[k], 0);
                let f = find_text(res@, builtin_texts()[k]);
                assert(res@[k] == builtin_texts()[k]);
                assert(f >= 0);
                assert(f <= k);
                assert(res@[f] == builtin_texts()[k]);
                assert(res@[f] == builtin_texts()[f]);
            }
        }
        res
    }

    /// Text behind a handle, if this interner produced it.
    pub fn display(&self, id: Identifier) -> (r: Option<String>)
        ensures
            r is Some <==> id@ < self@.len(),
            r is Some ==> r->Some_0@ == self@[id@],
    {
        if id.key < self.table.len() as u64 {
            Some(self.table[id.key as usize].clone())
        } else {
            None
        }
    }

    /// Number of interned texts.
    pub fn len(&self) -> (n: usize)
        ensures
            n == self@.len(),
    {
        self.table.len()
    }
}

impl Identifier {
    /// Interns `ident` in `interner` and returns its handle. The same text
    /// always yields the same handle; a new text is recorded so that
    /// `Interner::display` can recover it later.
    pub fn new(interner: &mut Interner, ident: &str) -> (res: Identifier)
        ensures
            final(interner)@ == intern_spec(old(interner)@, ident@).0,
            res@ == intern_spec(old(interner)@, ident@).1,
            0 <= res@ < final(interner)@.len(),
            final(interner)@[res@] == ident@,
            old(interner)@.is_prefix_of(final(interner)@),
            has_builtins(old(interner)@) ==> has_builtins(final(interner)@),
    {
        let ghost tbl0 = interner@;
        let text: String = ident.to_owned();
        let n = interner.table.len();
        let mut i: usize = 0;
        while i < n
            invariant
                n == interner@.len(),
                interner@ == tbl0,
                0 <= i <= n,
                text@ == ident@,
                find_text_from(tbl0, ident@, 0) == find_text_from(tbl0, ident@, i as int),
            decreases n - i,
        {
            if interner.table[i] == text {
                proof {
                    assert(tbl0[i as int] == ident@);
                    assert(find_text(tbl0, ident@) == i as int);
                    lemma_find_from_props(tbl0, ident@, 0);
                    assert(tbl0.is_prefix_of(tbl0));
                }
                return Identifier { key: i as u64 };
            }
            assert(tbl0[i as int] != ident@);
            i = i + 1;
        }
        proof {
            assert(find_text(tbl0, ident@) == -1);
            lemma_find_from_props(tbl0, ident@, 0);
        }
        let j = interner.table.len();
        interner.table.push(text);
        proof {
            assert(interner@ =~= tbl0.push(ident@));
            assert(interner@[j as int] == ident@);
            assert(tbl0.is_prefix_of(interner@));
            if has_builtins(tbl0) {
                assert forall|k: int| 0 <= k < 22 implies find_text(
                    interner@,
                    builtin_texts()[k],
                ) == k by {
                    lemma_find_from_push(tbl0, builtin_texts()[k], ident@, 0);
                }
            }
        }
        Identifier { key: j as u64 }
    }
}

/// Handle indices of the built-in texts, for use in contracts.
pub open spec fn id_nah() -> int {
    0
}

pub open spec fn id_number() -> int {
    1
}

pub open spec fn id_bool() -> int {
    2
}

pub open spec fn id_string() -> int {
    3
}

pub open spec fn id_function() -> int {
    4
}

pub open spec fn id_struct_type() -> int {
    5
}

pub open spec fn id_native_object() -> int {
    6
}

pub open spec fn id_plus() -> int {
    7
}

pub open spec fn id_minus() -> int {
    8
}

pub open spec fn id_multiply() -> int {
    9
}

pub open spec fn id_divide() -> int {
    10
}

pub open spec fn id_mod() -> int {
    11
}

pub open spec fn id_pow() -> int {
    12
}

pub open spec fn id_and() -> int {
    13
}

pub open spec fn id_or() -> int {
    14
}

pub open spec fn id_combine() -> int {
    15
}

pub open spec fn id_less() -> int {
    16
}

pub open spec fn id_less_eq() -> int {
    17
}

pub open spec fn id_greater() -> int {
    18
}

pub open spec fn id_greater_eq() -> int {
    19
}

pub open spec fn id_eq() -> int {
    20
}

pub open spec fn id_not_eq() -> int {
    21
}

impl Identifier {
    // Handles of the built-in type names.
    pub fn for_nah() -> (r: Identifier)
        ensures
            r@ == id_nah(),
    {
        Identifier { key: 0 }
    }

    pub fn for_number() -> (r: Identifier)
        ensures
            r@ == id_number(),
    {
        Identifier { key: 1 }
    }

    pub fn for_bool() -> (r: Identifier)
        ensures
            r@ == id_bool(),
    {
        Identifier { key: 2 }
    }

    pub fn for_string() -> (r: Identifier)
        ensures
            r@ == id_string(),
    {
        Identifier { key: 3 }
    }

    pub fn for_function() -> (r: Identifier)
        ensures
            r@ == id_function(),
    {
        Identifier { key: 4 }
    }

    pub fn for_struct_type() -> (r: Identifier)
        ensures
            r@ == id_struct_type(),
    {
        Identifier { key: 5 }
    }

    pub fn for_native_object() -> (r: Identifier)
        ensures
            r@ == id_native_object(),
    {
        Identifier { key: 6 }
    }

    // Handles of the built-in operator tokens.
    pub fn for_plus() -> (r: Identifier)
        ensures
            r@ == id_plus(),
    {
        Identifier { key: 7 }
    }

    pub fn for_minus() -> (r: Identifier)
        ensures
            r@ == id_minus(),
    {
        Identifier { key: 8 }
    }

    pub fn for_multiply() -> (r: Identifier)
        ensures
            r@ == id_multiply(),
    {
        Identifier { key: 9 }
    }

    pub fn for_divide() -> (r: Identifier)
        ensures
            r@ == id_divide(),
    {
        Identifier { key: 10 }
    }

    pub fn for_mod() -> (r: Identifier)
        ensures
            r@ == id_mod(),
    {
        Identifier { key: 11 }
    }

    pub fn for_pow() -> (r: Identifier)
        ensures
            r@ == id_pow(),
    {
        Identifier { key: 12 }
    }

    pub fn for_and() -> (r: Identifier)
        ensures
            r@ == id_and(),
    {
        Identifier { key: 13 }
    }

    pub fn for_or() -> (r: Identifier)
        ensures
            r@ == id_or(),
    {
        Identifier { key: 14 }
    }

    pub fn for_combine() -> (r: Identifier)
        ensures
            r@ == id_combine(),
    {
        Identifier { key: 15 }
    }

    // Handles of the built-in comparison operator tokens.
    pub fn for_less() -> (r: Identifier)
        ensures
            r@ == id_less(),
    {
        Identifier { key: 16 }
    }

    pub fn for_less_eq() -> (r: Identifier)
        ensures
            r@ == id_less_eq(),
    {
        Identifier { key: 17 }
    }

    pub fn for_greater() -> (r: Identifier)
        ensures
            r@ == id_greater(),
    {
        Identifier { key: 18 }
    }

    pub fn for_greater_eq() -> (r: Identifier)
        ensures
            r@ == id_greater_eq(),
    {
        Identifier { key: 19 }
    }

    pub fn for_eq() -> (r: Identifier)
        ensures
            r@ == id_eq(),
    {
        Identifier { key: 20 }
    }

    pub fn for_not_eq() -> (r: Identifier)
        ensures
            r@ == id_not_eq(),
    {
        Identifier { key: 21 }
    }
}

} // verus!
