//! The encoding context: the expression arena, the symbol table and the macro table.
use vstd::prelude::*;
use crate::macro_id::{MacroId, MacroIdRef, SystemMacroAddress, MacroAddress, SYSTEM_MACRO_COUNT};
use crate::value::{Expr, RawSymbol, RawFieldExpr, Scalar};

verus! {

/// The fixed-behavior macros of the system module, in address order.
#[derive(Copy, Clone, Debug, PartialEq, Eq, Structural)]
pub enum SystemMacro {
    NoneMacro,
    Values,
    Default,
    Meta,
    Repeat,
    Flatten,
    Delta,
    Sum,
    Annotate,
    MakeString,
    MakeSymbol,
    MakeDecimal,
    MakeTimestamp,
    MakeBlob,
    MakeList,
    MakeSExp,
    MakeField,
    MakeStruct,
    ParseIon,
    SetSymbols,
    AddSymbols,
    SetMacros,
    AddMacros,
    Use,
}

pub open spec fn system_macro_spec(address: u8) -> Option<SystemMacro> {
    if address == 0 { Some(SystemMacro::NoneMacro) }
    else if address == 1 { Some(SystemMacro::Values) }
    else if address == 2 { Some(SystemMacro::Default) }
    else if address == 3 { Some(SystemMacro::Meta) }
    else if address == 4 { Some(SystemMacro::Repeat) }
    else if address == 5 { Some(SystemMacro::Flatten) }
    else if address == 6 { Some(SystemMacro::Delta) }
    else if address == 7 { Some(SystemMacro::Sum) }
    else if address == 8 { Some(SystemMacro::Annotate) }
    else if address == 9 { Some(SystemMacro::MakeString) }
    else if address == 10 { Some(SystemMacro::MakeSymbol) }
    else if address == 11 { Some(SystemMacro::MakeDecimal) }
    else if address == 12 { Some(SystemMacro::MakeTimestamp) }
    else if address == 13 { Some(SystemMacro::MakeBlob) }
    else if address == 14 { Some(SystemMacro::MakeList) }
    else if address == 15 { Some(SystemMacro::MakeSExp) }
    else if address == 16 { Some(SystemMacro::MakeField) }
    else if address == 17 { Some(SystemMacro::MakeStruct) }
    else if address == 18 { Some(SystemMacro::ParseIon) }
    else if address == 19 { Some(SystemMacro::SetSymbols) }
    else if address == 20 { Some(SystemMacro::AddSymbols) }
    else if address == 21 { Some(SystemMacro::SetMacros) }
    else if address == 22 { Some(SystemMacro::AddMacros) }
    else if address == 23 { Some(SystemMacro::Use) }
    else { None }
}

impl SystemMacro {
    /// The system macro at `address`, if there is one.
    pub fn at_address(address: SystemMacroAddress) -> (r: Option<SystemMacro>)
        ensures
            r == system_macro_spec(address.0),
            r is Some <==> (address.0 as usize) < SYSTEM_MACRO_COUNT,
    {
        let a = address.0;
        if a == 0 { Some(SystemMacro::NoneMacro) }
        else if a == 1 { Some(SystemMacro::Values) }
        else if a == 2 { Some(SystemMacro::Default) }
        else if a == 3 { Some(SystemMacro::Meta) }
        else if a == 4 { Some(SystemMacro::Repeat) }
        else if a == 5 { Some(SystemMacro::Flatten) }
        else if a == 6 { Some(SystemMacro::Delta) }
        else if a == 7 { Some(SystemMacro::Sum) }
        else if a == 8 { Some(SystemMacro::Annotate) }
        else if a == 9 { Some(SystemMacro::MakeString) }
        else if a == 10 { Some(SystemMacro::MakeSymbol) }
        else if a == 11 { Some(SystemMacro::MakeDecimal) }
        else if a == 12 { Some(SystemMacro::MakeTimestamp) }
        else if a == 13 { Some(SystemMacro::MakeBlob) }
        else if a == 14 { Some(SystemMacro::MakeList) }
        else if a == 15 { Some(SystemMacro::MakeSExp) }
        else if a == 16 { Some(SystemMacro::MakeField) }
        else if a == 17 { Some(SystemMacro::MakeStruct) }
        else if a == 18 { Some(SystemMacro::ParseIon) }
        else if a == 19 { Some(SystemMacro::SetSymbols) }
        else if a == 20 { Some(SystemMacro::AddSymbols) }
        else if a == 21 { Some(SystemMacro::SetMacros) }
        else if a == 22 { Some(SystemMacro::AddMacros) }
        else if a == 23 { Some(SystemMacro::Use) }
        else { None }
    }
}

/// How many argument expressions a template parameter accepts.
#[derive(Copy, Clone, Debug, PartialEq, Eq, Structural)]
pub enum Cardinality {
    ExactlyOne,
    ZeroOrOne,
    ZeroOrMore,
    OneOrMore,
}

impl Cardinality {
    /// True when the parameter reads a single expression rather than an argument group.
    pub open spec fn spec_is_single(self) -> bool {
        self is ExactlyOne || self is ZeroOrOne
    }

    pub fn is_single(&self) -> (r: bool)
        ensures
            r == self.spec_is_single(),
    {
        match self {
            Cardinality::ExactlyOne | Cardinality::ZeroOrOne => true,
            _ => false,
        }
    }
}

#[derive(Clone, Debug)]
pub struct Parameter {
    pub name: String,
    pub cardinality: Cardinality,
}

/// For one struct literal of a template body: each field name with the
/// positions of the fields that carry it, in field order.
#[derive(Clone, Debug)]
pub struct TemplateStructIndex {
    pub struct_expr: usize,
    pub names: Vec<String>,
    pub positions: Vec<Vec<usize>>,
}

/// A compiled template macro.
#[derive(Clone, Debug)]
pub struct TemplateMacro {
    pub name: Option<String>,
    pub params: Vec<Parameter>,
    /// The body's top-level expressions, as indices into the arena.
    pub body: Vec<usize>,
    /// Every expression reachable from the body, body included.
    pub exprs: Vec<usize>,
    /// A field index for each struct literal among those expressions.
    pub struct_indexes: Vec<TemplateStructIndex>,
    /// Identity of this definition, used to detect stale references.
    pub id: u64,
}

/// The user macro table: an append-only list of templates addressed by position.
pub struct MacroTable {
    pub templates: Vec<TemplateMacro>,
    pub next_id: u64,
}

/// What a macro identifier resolves to.
#[derive(Copy, Clone, Debug, PartialEq, Eq, Structural)]
pub enum ResolvedMacro {
    Template(usize),
    System(SystemMacro),
}

/// A reference to a template that remembers which definition it saw.
#[derive(Copy, Clone, Debug, PartialEq, Eq, Structural)]
pub struct MacroRef {
    pub address: usize,
    pub id: u64,
}

/// A decoding failure, or input that is not complete yet.
#[derive(Clone, Debug)]
pub enum IonError {
    Decoding(String),
    Incomplete,
}

pub type IonResult<T> = Result<T, IonError>;

pub open spec fn spec_name_matches(t: TemplateMacro, name: Seq<char>) -> bool {
    t.name is Some && t.name->0@ == name
}

impl MacroTable {
    pub fn new() -> (r: MacroTable)
        ensures
            r.templates@.len() == 0,
    {
        MacroTable { templates: Vec::new(), next_id: 0 }
    }

    pub fn len(&self) -> (r: usize)
        ensures
            r == self.templates@.len(),
    {
        self.templates.len()
    }

    /// The template at `address`, if any.
    pub fn macro_at_address(&self, address: MacroAddress) -> (r: Option<&TemplateMacro>)
        ensures
            address < self.templates@.len() ==> r == Some(&self.templates@[address as int]),
            address >= self.templates@.len() ==> r is None,
    {
        if address < self.templates.len() {
            Some(&self.templates[address])
        } else {
            None
        }
    }

    /// The address of the first template named `name`.
    pub fn address_for_name(&self, name: &str) -> (r: Option<usize>)
        ensures
            match r {
                Some(a) => a < self.templates@.len() && spec_name_matches(self.templates@[a as int], name@)
                    && forall|j: int| 0 <= j < a ==> !spec_name_matches(#[trigger] self.templates@[j], name@),
                None => forall|j: int| 0 <= j < self.templates@.len() ==> !spec_name_matches(#[trigger] self.templates@[j], name@),
            },
    {
        let key = name.to_owned();
        let mut i: usize = 0;
        while i < self.templates.len()
            invariant
                0 <= i <= self.templates@.len(),
                key@ == name@,
                forall|j: int| 0 <= j < i ==> !spec_name_matches(#[trigger] self.templates@[j], name@),
            decreases self.templates@.len() - i,
        {
            match &self.templates[i].name {
                Some(n) => {
                    if *n == key {
                        return Some(i);
                    }
                },
                None => {},
            }
            i += 1;
        }
        None
    }

    /// What `id` names in this table or in the system module.
    pub open spec fn spec_resolve(&self, id: crate::macro_id::MacroIdView) -> Option<ResolvedMacro> {
        match id {
            crate::macro_id::MacroIdView::LocalName(name) =>
                if exists|j: int| 0 <= j < self.templates@.len() && spec_name_matches(#[trigger] self.templates@[j], name)
                    && forall|k: int| 0 <= k < j ==> !spec_name_matches(#[trigger] self.templates@[k], name) {
                    let a = choose|j: int| 0 <= j < self.templates@.len() && spec_name_matches(#[trigger] self.templates@[j], name)
                        && forall|k: int| 0 <= k < j ==> !spec_name_matches(#[trigger] self.templates@[k], name);
                    Some(ResolvedMacro::Template(a as usize))
                } else {
                    None
                },
            crate::macro_id::MacroIdView::LocalAddress(a) =>
                if a < self.templates@.len() { Some(ResolvedMacro::Template(a)) } else { None },
            crate::macro_id::MacroIdView::SystemAddress(a) =>
                match system_macro_spec(a) {
                    Some(m) => Some(ResolvedMacro::System(m)),
                    None => None,
                },
        }
    }

    pub proof fn lemma_resolve_in_range(&self, id: crate::macro_id::MacroIdView)
        ensures
            self.spec_resolve(id) matches Some(ResolvedMacro::Template(a)) ==> a < self.templates@.len(),
    {
    }

    /// Resolves a macro identifier; an unknown name or address is a decoding error.
    pub fn resolve(&self, id: MacroIdRef<'_>) -> (r: IonResult<ResolvedMacro>)
        ensures
            r matches Err(e) ==> e is Decoding,
            match self.spec_resolve(id.view_id()) {
                Some(m) => r == Ok::<ResolvedMacro, IonError>(m),
                None => r is Err,
            },
    {
        match id {
            MacroIdRef::LocalName(name) => {
                match self.address_for_name(name) {
                    Some(a) => {
                        proof {
                            let p = |j: int| 0 <= j < self.templates@.len() && spec_name_matches(self.templates@[j], name@)
                                && forall|k: int| 0 <= k < j ==> !spec_name_matches(#[trigger] self.templates@[k], name@);
                            assert(p(a as int));
                            let c = choose|j: int| 0 <= j < self.templates@.len() && spec_name_matches(#[trigger] self.templates@[j], name@)
                                && forall|k: int| 0 <= k < j ==> !spec_name_matches(#[trigger] self.templates@[k], name@);
                            assert(p(c));
                            if c < a { assert(!spec_name_matches(self.templates@[c], name@)); }
                            if a < c { assert(!spec_name_matches(self.templates@[a as int], name@)); }
                        }
                        Ok(ResolvedMacro::Template(a))
                    },
                    None => {
                        proof {
                            assert forall|j: int| 0 <= j < self.templates@.len() && spec_name_matches(#[trigger] self.templates@[j], name@)
                                implies !(forall|k: int| 0 <= k < j ==> !spec_name_matches(#[trigger] self.templates@[k], name@)) by {
                            }
                        }
                        Err(IonError::Decoding("macro table does not contain a macro with that name".to_string()))
                    },
                }
            },
            MacroIdRef::LocalAddress(a) => {
                if a < self.templates.len() {
                    Ok(ResolvedMacro::Template(a))
                } else {
                    Err(IonError::Decoding("no macro at that address".to_string()))
                }
            },
            MacroIdRef::SystemAddress(a) => {
                match SystemMacro::at_address(a) {
                    Some(m) => Ok(ResolvedMacro::System(m)),
                    None => Err(IonError::Decoding("no system macro at that address".to_string())),
                }
            },
        }
    }

    /// A reference to the template at `address` that remembers its definition.
    pub fn macro_ref(&self, address: usize) -> (r: Option<MacroRef>)
        ensures
            address < self.templates@.len() ==> r == Some(MacroRef { address, id: self.templates@[address as int].id }),
            address >= self.templates@.len() ==> r is None,
    {
        if address < self.templates.len() {
            Some(MacroRef { address, id: self.templates[address].id })
        } else {
            None
        }
    }

    /// Checks that `r` still refers to the definition it was made from.
    pub fn check_ref(&self, r: MacroRef) -> (res: IonResult<usize>)
        ensures
            (r.address < self.templates@.len() && self.templates@[r.address as int].id == r.id)
                ==> res == Ok::<usize, IonError>(r.address),
            !(r.address < self.templates@.len() && self.templates@[r.address as int].id == r.id)
                ==> res is Err,
    {
        if r.address < self.templates.len() && self.templates[r.address].id == r.id {
            Ok(r.address)
        } else {
            Err(IonError::Decoding("used a stale macro reference".to_string()))
        }
    }
}


/// Everything that one top-level value is read against: the arena of
/// expressions, the symbol table and the macro table.
pub struct EncodingContext {
    pub exprs: Vec<Expr>,
    pub symbols: Vec<String>,
    pub macros: MacroTable,
}

/// The text of a symbol, if the symbol table knows it.
pub open spec fn spec_symbol_text(symbols: Seq<String>, s: RawSymbol) -> Option<Seq<char>> {
    match s {
        RawSymbol::SymbolId(i) => if i < symbols.len() { Some(symbols[i as int]@) } else { None },
        RawSymbol::Text(t) => Some(t@),
    }
}

/// True when the field is an ordinary field whose name has the text `name`.
pub open spec fn field_has_name(symbols: Seq<String>, f: RawFieldExpr, name: Seq<char>) -> bool {
    match f {
        RawFieldExpr::NameValue(s, _) => spec_symbol_text(symbols, s) == Some(name),
        _ => false,
    }
}

/// The positions, below `len`, of the fields named `name`, in increasing order.
pub open spec fn matching_upto(symbols: Seq<String>, fields: Seq<RawFieldExpr>, name: Seq<char>, len: nat) -> Seq<usize>
    decreases len,
{
    if len == 0 {
        Seq::empty()
    } else {
        let prev = matching_upto(symbols, fields, name, (len - 1) as nat);
        if field_has_name(symbols, fields[len - 1], name) {
            prev.push((len - 1) as usize)
        } else {
            prev
        }
    }
}

pub proof fn lemma_matching_upto(symbols: Seq<String>, fields: Seq<RawFieldExpr>, name: Seq<char>, len: nat)
    requires
        len <= fields.len(),
        fields.len() <= usize::MAX,
    ensures
        forall|k: int| 0 <= k < matching_upto(symbols, fields, name, len).len() ==> {
            let j = #[trigger] matching_upto(symbols, fields, name, len)[k];
            j < len && field_has_name(symbols, fields[j as int], name)
        },
        forall|j: int| 0 <= j < len && field_has_name(symbols, fields[j], name) ==> {
            &&& matching_upto(symbols, fields, name, len).len() > 0
            &&& matching_upto(symbols, fields, name, len)[0] <= j
        },
    decreases len,
{
    if len > 0 {
        let prev = matching_upto(symbols, fields, name, (len - 1) as nat);
        lemma_matching_upto(symbols, fields, name, (len - 1) as nat);
        let cur = matching_upto(symbols, fields, name, len);
        if field_has_name(symbols, fields[len - 1], name) {
            assert(cur == prev.push((len - 1) as usize));
            assert forall|k: int| 0 <= k < cur.len() implies {
                let j = #[trigger] cur[k];
                j < len && field_has_name(symbols, fields[j as int], name)
            } by {
                if k < prev.len() {
                    assert(cur[k] == prev[k]);
                }
            }
            assert forall|j: int| 0 <= j < len && field_has_name(symbols, fields[j], name) implies {
                &&& cur.len() > 0
                &&& cur[0] <= j
            } by {
                if prev.len() > 0 {
                    assert(cur[0] == prev[0]);
                    if j == len - 1 {
                        assert(prev[0] < len - 1);
                    }
                }
            }
        }
    }
}

impl TemplateStructIndex {
    /// The index is exact for `fields`: each name lists all and only the
    /// positions of the fields with that name, and every name is listed.
    pub open spec fn wf_for(self, symbols: Seq<String>, fields: Seq<RawFieldExpr>) -> bool {
        &&& self.names@.len() == self.positions@.len()
        &&& forall|k: int| 0 <= k < self.names@.len() ==>
            #[trigger] self.positions@[k]@ == matching_upto(symbols, fields, self.names@[k]@, fields.len())
                && self.positions@[k]@.len() > 0
        &&& forall|j: int, n: Seq<char>| 0 <= j < fields.len() && #[trigger] field_has_name(symbols, fields[j], n)
            ==> exists|k: int| 0 <= k < self.names@.len() && #[trigger] self.names@[k]@ == n
    }

    /// The positions of the fields named `name`; `None` when no field has that name.
    pub fn get(&self, name: &String) -> (r: Option<&Vec<usize>>)
        requires
            self.names@.len() == self.positions@.len(),
        ensures
            match r {
                Some(ps) => exists|k: int| 0 <= k < self.names@.len() && self.names@[k]@ == name@ && ps == &self.positions@[k],
                None => forall|k: int| 0 <= k < self.names@.len() ==> #[trigger] self.names@[k]@ != name@,
            },
    {
        let mut k: usize = 0;
        while k < self.names.len()
            invariant
                0 <= k <= self.names@.len(),
                self.names@.len() == self.positions@.len(),
                forall|j: int| 0 <= j < k ==> #[trigger] self.names@[j]@ != name@,
            decreases self.names@.len() - k,
        {
            if self.names[k] == *name {
                return Some(&self.positions[k]);
            }
            k += 1;
        }
        None
    }
}


/// The expressions that a field position of a struct refers to.
pub open spec fn field_children(f: RawFieldExpr) -> Seq<usize> {
    match f {
        RawFieldExpr::NameValue(_, v) => seq![v],
        RawFieldExpr::EExp(i) => seq![i],
        RawFieldExpr::Nop => Seq::empty(),
    }
}

pub open spec fn struct_children(fs: Seq<RawFieldExpr>) -> Seq<usize>
    decreases fs.len(),
{
    if fs.len() == 0 {
        Seq::empty()
    } else {
        struct_children(fs.drop_last()) + field_children(fs.last())
    }
}

/// The expressions that expression `x` refers to directly.
pub open spec fn children_of(ctx: &EncodingContext, x: usize) -> Seq<usize> {
    match ctx.exprs@[x as int] {
        Expr::List(c) => c@,
        Expr::SExp(c) => c@,
        Expr::ArgGroup(c) => c@,
        Expr::Invoke(_, a) => a@,
        Expr::Struct(fs) => struct_children(fs@),
        _ => Seq::empty(),
    }
}

/// Every symbol ID that expression `x` holds itself (a symbol value or a
/// field name) is in the symbol table.
pub open spec fn symbols_resolve(ctx: &EncodingContext, x: usize) -> bool {
    match ctx.exprs@[x as int] {
        Expr::Scalar(Scalar::Symbol(s)) => spec_symbol_text(ctx.symbols@, s) is Some,
        Expr::Struct(fs) => forall|j: int| 0 <= j < fs@.len() ==> match #[trigger] fs@[j] {
            RawFieldExpr::NameValue(s, _) => spec_symbol_text(ctx.symbols@, s) is Some,
            _ => true,
        },
        _ => true,
    }
}

/// `p` is a path in the arena that starts at an expression of `body` and
/// goes each time from an expression to one of its children.
pub open spec fn is_path(ctx: &EncodingContext, body: Seq<usize>, p: Seq<usize>) -> bool {
    &&& p.len() > 0
    &&& body.contains(p[0])
    &&& forall|k: int| 0 <= k < p.len() ==> (#[trigger] p[k]) < ctx.exprs@.len()
    &&& forall|k: int| 0 <= k < p.len() - 1 ==> children_of(ctx, #[trigger] p[k]).contains(p[k + 1])
}

/// `x` is an expression of the arena reachable from `body`: one of its
/// expressions, or a child of a reachable expression.
pub open spec fn reachable(ctx: &EncodingContext, body: Seq<usize>, x: usize) -> bool {
    exists|p: Seq<usize>| #[trigger] is_path(ctx, body, p) && p.last() == x
}

/// A set of expressions that holds the body and the children of each of its
/// expressions holds every expression on a path from the body.
pub proof fn lemma_path_in_closure(ctx: &EncodingContext, body: Seq<usize>, r: Seq<usize>, p: Seq<usize>, k: int)
    requires
        forall|q: int| 0 <= q < body.len() && (#[trigger] body[q]) < ctx.exprs@.len() ==> r.contains(body[q]),
        forall|j: int, c: int| 0 <= j < r.len() && 0 <= c < children_of(ctx, r[j]).len()
            && children_of(ctx, r[j])[c] < ctx.exprs@.len() ==> r.contains(#[trigger] children_of(ctx, r[j])[c]),
        is_path(ctx, body, p),
        0 <= k < p.len(),
    ensures
        r.contains(p[k]),
    decreases k,
{
    if k == 0 {
        let q = choose|q: int| 0 <= q < body.len() && body[q] == p[0];
        assert(body[q] < ctx.exprs@.len());
    } else {
        lemma_path_in_closure(ctx, body, r, p, k - 1);
        let y = p[k - 1];
        assert(children_of(ctx, p[k - 1]).contains(p[k]));
        let j = choose|j: int| 0 <= j < r.len() && r[j] == y;
        let c = choose|c: int| 0 <= c < children_of(ctx, y).len() && children_of(ctx, y)[c] == p[k];
        assert(p[k] < ctx.exprs@.len());
        assert(children_of(ctx, r[j])[c] == p[k]);
    }
}

/// A symbol that resolves keeps its text when a symbol is appended.
pub proof fn lemma_symbol_text_stable(symbols: Seq<String>, text: String, s: RawSymbol)
    requires
        spec_symbol_text(symbols, s) is Some,
    ensures
        spec_symbol_text(symbols.push(text), s) == spec_symbol_text(symbols, s),
{
}

/// When every field name resolves, appending a symbol changes no field's name.
pub proof fn lemma_resolve_stable(symbols: Seq<String>, text: String, fields: Seq<RawFieldExpr>)
    requires
        forall|j: int| 0 <= j < fields.len() ==> match #[trigger] fields[j] {
            RawFieldExpr::NameValue(s, _) => spec_symbol_text(symbols, s) is Some,
            _ => true,
        },
    ensures
        forall|j: int, n: Seq<char>| 0 <= j < fields.len() ==>
            #[trigger] field_has_name(symbols.push(text), fields[j], n) == field_has_name(symbols, fields[j], n),
{
    assert forall|j: int, n: Seq<char>| 0 <= j < fields.len() implies
        #[trigger] field_has_name(symbols.push(text), fields[j], n) == field_has_name(symbols, fields[j], n) by {
        match fields[j] {
            RawFieldExpr::NameValue(s, _) => { lemma_symbol_text_stable(symbols, text, s); },
            _ => {},
        }
    }
}

pub proof fn lemma_matching_stable(symbols: Seq<String>, text: String, fields: Seq<RawFieldExpr>, name: Seq<char>, len: nat)
    requires
        len <= fields.len(),
        forall|j: int, n: Seq<char>| 0 <= j < fields.len() ==>
            #[trigger] field_has_name(symbols.push(text), fields[j], n) == field_has_name(symbols, fields[j], n),
    ensures
        matching_upto(symbols.push(text), fields, name, len) == matching_upto(symbols, fields, name, len),
    decreases len,
{
    if len > 0 {
        lemma_matching_stable(symbols, text, fields, name, (len - 1) as nat);
        assert(field_has_name(symbols.push(text), fields[len - 1], name) == field_has_name(symbols, fields[len - 1], name));
    }
}

/// Appending a symbol keeps an expression's symbols resolving.
pub proof fn lemma_symbols_resolve_stable(before: &EncodingContext, after: &EncodingContext, x: usize)
    requires
        after.exprs == before.exprs,
        exists|t: String| after.symbols@ == before.symbols@.push(t),
        x < before.exprs@.len(),
        symbols_resolve(before, x),
    ensures
        symbols_resolve(after, x),
{
    let t = choose|t: String| after.symbols@ == before.symbols@.push(t);
    match before.exprs@[x as int] {
        Expr::Scalar(Scalar::Symbol(s)) => { lemma_symbol_text_stable(before.symbols@, t, s); },
        Expr::Struct(fs) => {
            assert forall|j: int| 0 <= j < fs@.len() implies match #[trigger] fs@[j] {
                RawFieldExpr::NameValue(s, _) => spec_symbol_text(after.symbols@, s) is Some,
                _ => true,
            } by {
                match fs@[j] {
                    RawFieldExpr::NameValue(s, _) => { lemma_symbol_text_stable(before.symbols@, t, s); },
                    _ => {},
                }
            }
        },
        _ => {},
    }
}

pub open spec fn count_false(s: Seq<bool>) -> nat
    decreases s.len(),
{
    if s.len() == 0 {
        0
    } else {
        count_false(s.drop_last()) + if s.last() { 0nat } else { 1nat }
    }
}

pub proof fn lemma_count_false_mark(s: Seq<bool>, i: int)
    requires
        0 <= i < s.len(),
        !s[i],
    ensures
        count_false(s.update(i, true)) + 1 == count_false(s),
    decreases s.len(),
{
    let t = s.update(i, true);
    if i < s.len() - 1 {
        assert(t.drop_last() =~= s.drop_last().update(i, true));
        lemma_count_false_mark(s.drop_last(), i);
    } else {
        assert(t.drop_last() =~= s.drop_last());
    }
}

impl EncodingContext {
    pub fn new() -> (r: EncodingContext)
        ensures
            r.exprs@.len() == 0,
            r.symbols@.len() == 0,
            r.macros.templates@.len() == 0,
    {
        EncodingContext { exprs: Vec::new(), symbols: Vec::new(), macros: MacroTable::new() }
    }

    /// Appends an expression to the arena and returns its index.
    pub fn add_expr(&mut self, e: Expr) -> (r: usize)
        requires
            old(self).exprs@.len() < usize::MAX,
        ensures
            r == old(self).exprs@.len(),
            final(self).exprs@ == old(self).exprs@.push(e),
            final(self).symbols == old(self).symbols,
            final(self).macros == old(self).macros,
            old(self).wf() ==> final(self).wf(),
    {
        let r = self.exprs.len();
        self.exprs.push(e);
        proof {
            if old(self).wf() {
                assert forall|a: int, q: int| 0 <= a < self.macros.templates@.len() && 0 <= q < self.macros.templates@[a].struct_indexes@.len()
                    implies self.index_wf(#[trigger] self.macros.templates@[a].struct_indexes@[q]) by {
                    assert(old(self).index_wf(self.macros.templates@[a].struct_indexes@[q]));
                }
            }
        }
        r
    }

    /// Appends a symbol to the symbol table and returns its ID.
    pub fn add_symbol(&mut self, text: String) -> (r: usize)
        requires
            old(self).symbols@.len() < usize::MAX,
        ensures
            r == old(self).symbols@.len(),
            final(self).symbols@ == old(self).symbols@.push(text),
            final(self).exprs == old(self).exprs,
            final(self).macros == old(self).macros,
            old(self).wf() ==> final(self).wf(),
    {
        let r = self.symbols.len();
        self.symbols.push(text);
        proof {
            if old(self).wf() {
                assert forall|a: int, q: int| 0 <= a < self.macros.templates@.len() && 0 <= q < self.macros.templates@[a].struct_indexes@.len()
                    implies self.index_wf(#[trigger] self.macros.templates@[a].struct_indexes@[q]) by {
                    let ix = self.macros.templates@[a].struct_indexes@[q];
                    assert(old(self).index_wf(ix));
                    let fields = self.exprs@[ix.struct_expr as int]->Struct_0@;
                    lemma_resolve_stable(old(self).symbols@, text, fields);
                    lemma_symbols_resolve_stable(old(self), self, ix.struct_expr);
                    assert forall|k: int| 0 <= k < ix.names@.len() implies
                        #[trigger] ix.positions@[k]@ == matching_upto(self.symbols@, fields, ix.names@[k]@, fields.len())
                            && ix.positions@[k]@.len() > 0 by {
                        lemma_matching_stable(old(self).symbols@, text, fields, ix.names@[k]@, fields.len());
                    }
                    assert forall|j: int, n: Seq<char>| 0 <= j < fields.len() && #[trigger] field_has_name(self.symbols@, fields[j], n)
                        implies exists|k: int| 0 <= k < ix.names@.len() && #[trigger] ix.names@[k]@ == n by {
                        assert(field_has_name(old(self).symbols@, fields[j], n));
                    }
                }
                assert forall|a: int, j: int| 0 <= a < self.macros.templates@.len() && 0 <= j < self.macros.templates@[a].exprs@.len()
                    implies ({
                        let x = #[trigger] self.macros.templates@[a].exprs@[j];
                        x < self.exprs@.len() && symbols_resolve(self, x)
                    }) by {
                    lemma_symbols_resolve_stable(old(self), self, self.macros.templates@[a].exprs@[j]);
                }
            }
        }
        r
    }

    /// The text of a symbol; an unknown symbol ID is a decoding error.
    pub fn resolve_symbol(&self, s: &RawSymbol) -> (r: IonResult<String>)
        ensures
            r matches Err(e) ==> e is Decoding,
            match spec_symbol_text(self.symbols@, *s) {
                Some(t) => r is Ok && r->Ok_0@ == t,
                None => r is Err,
            },
    {
        match s {
            RawSymbol::SymbolId(i) => {
                if *i < self.symbols.len() {
                    Ok(self.symbols[*i].clone())
                } else {
                    Err(IonError::Decoding("symbol ID is not in the symbol table".to_string()))
                }
            },
            RawSymbol::Text(t) => Ok(t.clone()),
        }
    }

    /// Every struct index of every template is exact for the struct it indexes.
    pub open spec fn wf(&self) -> bool {
        &&& forall|a: int, q: int| 0 <= a < self.macros.templates@.len() && 0 <= q < self.macros.templates@[a].struct_indexes@.len() ==>
            self.index_wf(#[trigger] self.macros.templates@[a].struct_indexes@[q])
        &&& forall|a: int, j: int| 0 <= a < self.macros.templates@.len() && 0 <= j < self.macros.templates@[a].exprs@.len() ==> {
            let x = #[trigger] self.macros.templates@[a].exprs@[j];
            x < self.exprs@.len() && symbols_resolve(self, x)
        }
    }

    /// The children of expression `x`.
    pub fn children(&self, x: usize) -> (r: Vec<usize>)
        requires
            x < self.exprs@.len(),
        ensures
            r@ == children_of(self, x),
    {
        match &self.exprs[x] {
            Expr::List(c) => crate::evaluator::copy_indices(c),
            Expr::SExp(c) => crate::evaluator::copy_indices(c),
            Expr::ArgGroup(c) => crate::evaluator::copy_indices(c),
            Expr::Invoke(_, a) => crate::evaluator::copy_indices(a),
            Expr::Struct(fs) => {
                let mut r: Vec<usize> = Vec::new();
                let mut i: usize = 0;
                while i < fs.len()
                    invariant
                        0 <= i <= fs@.len(),
                        r@ == struct_children(fs@.take(i as int)),
                    decreases fs@.len() - i,
                {
                    match &fs[i] {
                        RawFieldExpr::NameValue(_, v) => { r.push(*v); },
                        RawFieldExpr::EExp(inv) => { r.push(*inv); },
                        RawFieldExpr::Nop => {},
                    }
                    proof {
                        assert(fs@.take(i + 1).drop_last() =~= fs@.take(i as int));
                        assert(fs@.take(i + 1).last() == fs@[i as int]);
                        assert(r@ =~= struct_children(fs@.take(i + 1)));
                    }
                    i += 1;
                }
                assert(fs@.take(fs@.len() as int) =~= fs@);
                r
            },
            _ => Vec::new(),
        }
    }

    /// Whether every symbol ID that expression `x` holds is in the table.
    pub fn check_symbols(&self, x: usize) -> (r: bool)
        requires
            x < self.exprs@.len(),
        ensures
            r == symbols_resolve(self, x),
    {
        match &self.exprs[x] {
            Expr::Scalar(Scalar::Symbol(s)) => self.resolve_symbol(s).is_ok(),
            Expr::Struct(fs) => {
                let mut i: usize = 0;
                while i < fs.len()
                    invariant
                        0 <= i <= fs@.len(),
                        x < self.exprs@.len(),
                        self.exprs@[x as int] is Struct,
                        self.exprs@[x as int]->Struct_0@ == fs@,
                        forall|j: int| 0 <= j < i ==> match #[trigger] fs@[j] {
                            RawFieldExpr::NameValue(s, _) => spec_symbol_text(self.symbols@, s) is Some,
                            _ => true,
                        },
                    decreases fs@.len() - i,
                {
                    match &fs[i] {
                        RawFieldExpr::NameValue(s, _) => {
                            if self.resolve_symbol(s).is_err() {
                                assert(!(spec_symbol_text(self.symbols@, *s) is Some));
                                assert(fs@[i as int] matches RawFieldExpr::NameValue(s2, _) && !(spec_symbol_text(self.symbols@, s2) is Some));
                                return false;
                            }
                        },
                        _ => {},
                    }
                    i += 1;
                }
                true
            },
            _ => true,
        }
    }

    /// Every expression reachable from `body`: the body's expressions in the
    /// arena, and the children of each, each listed once.
    pub fn reachable_exprs(&self, body: &Vec<usize>) -> (r: Vec<usize>)
        ensures
            forall|j: int| 0 <= j < r@.len() ==> (#[trigger] r@[j]) < self.exprs@.len(),
            forall|j: int| 0 <= j < r@.len() ==> reachable(self, body@, #[trigger] r@[j]),
            forall|k: int| 0 <= k < body@.len() && (#[trigger] body@[k]) < self.exprs@.len() ==> r@.contains(body@[k]),
            forall|j: int, c: int| 0 <= j < r@.len() && 0 <= c < children_of(self, r@[j]).len()
                && children_of(self, r@[j])[c] < self.exprs@.len() ==> r@.contains(#[trigger] children_of(self, r@[j])[c]),
    {
        let n = self.exprs.len();
        let mut visited: Vec<bool> = Vec::new();
        while visited.len() < n
            invariant
                visited@.len() <= n,
                n == self.exprs@.len(),
                forall|x: int| 0 <= x < visited@.len() ==> !visited@[x],
            decreases n - visited@.len(),
        {
            visited.push(false);
        }
        let mut r: Vec<usize> = Vec::new();
        let mut k: usize = 0;
        while k < body.len()
            invariant
                0 <= k <= body@.len(),
                n == self.exprs@.len(),
                visited@.len() == n,
                forall|j: int| 0 <= j < r@.len() ==> (#[trigger] r@[j]) < n && visited@[r@[j] as int],
                forall|j: int| 0 <= j < r@.len() ==> reachable(self, body@, #[trigger] r@[j]),
                forall|x: int| 0 <= x < n && #[trigger] visited@[x] ==> r@.contains(x as usize),
                forall|q: int| 0 <= q < k && (#[trigger] body@[q]) < n ==> r@.contains(body@[q]),
            decreases body@.len() - k,
        {
            let e = body[k];
            let ghost r_before = r@;
            let ghost v_before = visited@;
            let pushed = e < n && !visited[e];
            if pushed {
                proof {
                    assert(body@[k as int] == e);
                    let p = seq![e];
                    assert(is_path(self, body@, p));
                }
                visited.set(e, true);
                r.push(e);
                assert(r@[r@.len() - 1] == e);
            }
            proof {
                assert forall|x: int| 0 <= x < n && #[trigger] visited@[x] implies r@.contains(x as usize) by {
                    if pushed && x == e as int {
                        assert(r@[r@.len() - 1] == x as usize);
                    } else {
                        assert(v_before[x]);
                        let w = choose|w: int| 0 <= w < r_before.len() && r_before[w] == x as usize;
                        assert(r@[w] == x as usize);
                    }
                }
                assert forall|q: int| 0 <= q < k + 1 && (#[trigger] body@[q]) < n implies r@.contains(body@[q]) by {
                    if q < k {
                        let w = choose|w: int| 0 <= w < r_before.len() && r_before[w] == body@[q];
                        assert(r@[w] == body@[q]);
                    } else if pushed {
                        assert(r@[r@.len() - 1] == body@[q]);
                    } else {
                        assert(visited@[e as int]);
                    }
                }
            }
            k += 1;
        }
        let mut i: usize = 0;
        while i < r.len()
            invariant
                0 <= i <= r@.len(),
                n == self.exprs@.len(),
                visited@.len() == n,
                forall|j: int| 0 <= j < r@.len() ==> (#[trigger] r@[j]) < n && visited@[r@[j] as int],
                forall|j: int| 0 <= j < r@.len() ==> reachable(self, body@, #[trigger] r@[j]),
                forall|x: int| 0 <= x < n && #[trigger] visited@[x] ==> r@.contains(x as usize),
                forall|q: int| 0 <= q < body@.len() && (#[trigger] body@[q]) < n ==> r@.contains(body@[q]),
                forall|j: int, c: int| 0 <= j < i && 0 <= c < children_of(self, r@[j]).len()
                    && children_of(self, r@[j])[c] < n ==> r@.contains(#[trigger] children_of(self, r@[j])[c]),
            decreases count_false(visited@), r@.len() - i,
        {
            let x = r[i];
            let cs = self.children(x);
            let ghost count0 = count_false(visited@);
            let ghost len0 = r@.len();
            let mut c: usize = 0;
            while c < cs.len()
                invariant
                    0 <= c <= cs@.len(),
                    i < len0 <= r@.len(),
                    r@[i as int] == x,
                    cs@ == children_of(self, x),
                    n == self.exprs@.len(),
                    visited@.len() == n,
                    count_false(visited@) + r@.len() == count0 + len0,
                    forall|j: int| 0 <= j < r@.len() ==> (#[trigger] r@[j]) < n && visited@[r@[j] as int],
                    forall|j: int| 0 <= j < r@.len() ==> reachable(self, body@, #[trigger] r@[j]),
                    forall|y: int| 0 <= y < n && #[trigger] visited@[y] ==> r@.contains(y as usize),
                    forall|q: int| 0 <= q < body@.len() && (#[trigger] body@[q]) < n ==> r@.contains(body@[q]),
                    forall|j: int, d: int| 0 <= j < i && 0 <= d < children_of(self, r@[j]).len()
                        && children_of(self, r@[j])[d] < n ==> r@.contains(#[trigger] children_of(self, r@[j])[d]),
                    forall|d: int| 0 <= d < c && (#[trigger] cs@[d]) < n ==> r@.contains(cs@[d]),
                decreases cs@.len() - c,
            {
                let y = cs[c];
                let ghost r_before = r@;
                if y < n && !visited[y] {
                    proof {
                        lemma_count_false_mark(visited@, y as int);
                        assert(reachable(self, body@, r@[i as int]));
                        let p = choose|p: Seq<usize>| #[trigger] is_path(self, body@, p) && p.last() == x;
                        assert(children_of(self, x)[c as int] == y);
                        assert(children_of(self, x).contains(y));
                        let p2 = p.push(y);
                        assert(p2[p2.len() - 2] == x);
                        assert forall|k: int| 0 <= k < p2.len() - 1 implies children_of(self, #[trigger] p2[k]).contains(p2[k + 1]) by {
                            if k < p.len() - 1 {
                                assert(p2[k] == p[k] && p2[k + 1] == p[k + 1]);
                            }
                        }
                        assert(is_path(self, body@, p2));
                        assert(p2.last() == y);
                    }
                    visited.set(y, true);
                    r.push(y);
                    proof {
                        assert(r@[r@.len() - 1] == y);
                        assert forall|z: int| 0 <= z < n && #[trigger] visited@[z] implies r@.contains(z as usize) by {
                            if z == y as int {
                                assert(r@[r@.len() - 1] == z as usize);
                            } else {
                                let w = choose|w: int| 0 <= w < r_before.len() && r_before[w] == z as usize;
                                assert(r@[w] == z as usize);
                            }
                        }
                    }
                }
                proof {
                    assert forall|q: int| 0 <= q < body@.len() && (#[trigger] body@[q]) < n implies r@.contains(body@[q]) by {
                        let w = choose|w: int| 0 <= w < r_before.len() && r_before[w] == body@[q];
                        assert(r@[w] == body@[q]);
                    }
                    assert forall|j: int, d: int| 0 <= j < i && 0 <= d < children_of(self, r@[j]).len()
                        && children_of(self, r@[j])[d] < n implies r@.contains(#[trigger] children_of(self, r@[j])[d]) by {
                        assert(r@[j] == r_before[j]);
                        let w = choose|w: int| 0 <= w < r_before.len() && r_before[w] == children_of(self, r@[j])[d];
                        assert(r@[w] == r_before[w]);
                    }
                    assert forall|d: int| 0 <= d < c + 1 && (#[trigger] cs@[d]) < n implies r@.contains(cs@[d]) by {
                        if d < c {
                            let w = choose|w: int| 0 <= w < r_before.len() && r_before[w] == cs@[d];
                            assert(r@[w] == r_before[w]);
                        } else {
                            assert(visited@[y as int]);
                        }
                    }
                }
                c += 1;
            }
            i += 1;
        }
        r
    }

    /// The index is exact for the struct literal it names.
    pub open spec fn index_exact(&self, ix: TemplateStructIndex) -> bool {
        &&& ix.struct_expr < self.exprs@.len()
        &&& self.exprs@[ix.struct_expr as int] is Struct
        &&& ix.wf_for(self.symbols@, self.exprs@[ix.struct_expr as int]->Struct_0@)
    }

    /// The index is exact, and every field name of its struct resolves, so
    /// that adding symbols leaves it exact.
    pub open spec fn index_wf(&self, ix: TemplateStructIndex) -> bool {
        &&& self.index_exact(ix)
        &&& symbols_resolve(self, ix.struct_expr)
    }

    /// Compiles a template: records its name, parameters and body, the
    /// expressions reachable from the body, and a field index for each struct
    /// literal among them, and returns its address. A reachable expression that
    /// holds a symbol ID the table lacks is a decoding error.
    pub fn define_template(&mut self, name: Option<String>, params: Vec<Parameter>, body: Vec<usize>) -> (r: IonResult<usize>)
        requires
            old(self).wf(),
        ensures
            final(self).wf(),
            final(self).exprs == old(self).exprs,
            final(self).symbols == old(self).symbols,
            match r {
                Ok(a) => {
                    let t = final(self).macros.templates@[a as int];
                    &&& a == old(self).macros.templates@.len()
                    &&& final(self).macros.templates@.len() == a + 1
                    &&& final(self).macros.templates@.subrange(0, a as int) == old(self).macros.templates@
                    &&& t.name == name
                    &&& t.params@ == params@
                    &&& t.body@ == body@
                    &&& forall|k: int| 0 <= k < body@.len() && (#[trigger] body@[k]) < final(self).exprs@.len() ==> t.exprs@.contains(body@[k])
                    &&& forall|j: int, c: int| 0 <= j < t.exprs@.len() && 0 <= c < children_of(final(self), t.exprs@[j]).len()
                        && children_of(final(self), t.exprs@[j])[c] < final(self).exprs@.len()
                        ==> t.exprs@.contains(#[trigger] children_of(final(self), t.exprs@[j])[c])
                    &&& forall|j: int| 0 <= j < t.exprs@.len() && (#[trigger] final(self).exprs@[t.exprs@[j] as int]) is Struct
                        ==> exists|q: int| 0 <= q < t.struct_indexes@.len() && (#[trigger] t.struct_indexes@[q]).struct_expr == t.exprs@[j]
                },
                Err(e) => final(self).macros.templates@ == old(self).macros.templates@ && e is Decoding,
            },
            r is Ok <==> (old(self).macros.templates@.len() < usize::MAX && old(self).macros.next_id < u64::MAX
                && forall|x: usize| reachable(old(self), body@, x) ==> symbols_resolve(old(self), x)),
    {
        if self.macros.next_id == u64::MAX || self.macros.templates.len() == usize::MAX {
            return Err(IonError::Decoding("the macro table is full".to_string()));
        }
        let reach = self.reachable_exprs(&body);
        let mut indexes: Vec<TemplateStructIndex> = Vec::new();
        let mut i: usize = 0;
        while i < reach.len()
            invariant
                0 <= i <= reach@.len(),
                self.wf(),
                *self == *old(self),
                forall|j: int| 0 <= j < reach@.len() ==> (#[trigger] reach@[j]) < self.exprs@.len(),
                forall|j: int| 0 <= j < reach@.len() ==> reachable(self, body@, #[trigger] reach@[j]),
                forall|k: int| 0 <= k < body@.len() && (#[trigger] body@[k]) < self.exprs@.len() ==> reach@.contains(body@[k]),
                forall|j: int, c: int| 0 <= j < reach@.len() && 0 <= c < children_of(self, reach@[j]).len()
                    && children_of(self, reach@[j])[c] < self.exprs@.len() ==> reach@.contains(#[trigger] children_of(self, reach@[j])[c]),
                forall|q: int| 0 <= q < indexes@.len() ==> self.index_wf(#[trigger] indexes@[q]),
                forall|j: int| 0 <= j < i ==> symbols_resolve(self, #[trigger] reach@[j]),
                forall|j: int| 0 <= j < i && (#[trigger] self.exprs@[reach@[j] as int]) is Struct
                    ==> exists|q: int| 0 <= q < indexes@.len() && (#[trigger] indexes@[q]).struct_expr == reach@[j],
            decreases reach@.len() - i,
        {
            let e = reach[i];
            if !self.check_symbols(e) {
                assert(reachable(self, body@, reach@[i as int]));
                return Err(IonError::Decoding("the template holds a symbol ID that the symbol table lacks".to_string()));
            }
            let ghost before = indexes@;
            match &self.exprs[e] {
                Expr::Struct(fields) => {
                    let ix = self.build_struct_index(e, fields);
                    indexes.push(ix);
                    assert(indexes@[indexes@.len() - 1].struct_expr == e);
                },
                _ => {},
            }
            assert forall|j: int| 0 <= j < i + 1 && (#[trigger] self.exprs@[reach@[j] as int]) is Struct
                implies exists|q: int| 0 <= q < indexes@.len() && (#[trigger] indexes@[q]).struct_expr == reach@[j] by {
                if j < i {
                    let q0 = choose|q: int| 0 <= q < before.len() && (#[trigger] before[q]).struct_expr == reach@[j];
                    assert(indexes@[q0] == before[q0]);
                } else {
                    assert(indexes@[indexes@.len() - 1].struct_expr == reach@[j]);
                }
            }
            i += 1;
        }
        let ghost indexes_view = indexes@;
        let ghost reach_view = reach@;
        proof {
            assert forall|x: usize| reachable(self, body@, x) implies symbols_resolve(self, x) by {
                let p = choose|p: Seq<usize>| #[trigger] is_path(self, body@, p) && p.last() == x;
                lemma_path_in_closure(self, body@, reach@, p, p.len() - 1);
                let j = choose|j: int| 0 <= j < reach@.len() && reach@[j] == x;
                assert(symbols_resolve(self, reach@[j]));
            }
        }
        let id = self.macros.next_id;
        let a = self.macros.templates.len();
        let t = TemplateMacro { name, params, body, exprs: reach, struct_indexes: indexes, id };
        self.macros.templates.push(t);
        self.macros.next_id = id + 1;
        proof {
            assert(self.macros.templates@[a as int].struct_indexes@ == indexes_view);
            assert(self.macros.templates@[a as int].exprs@ == reach_view);
            assert(self.exprs == old(self).exprs);
            assert forall|j: int, c: int| 0 <= j < reach_view.len() && 0 <= c < children_of(self, reach_view[j]).len()
                && children_of(self, reach_view[j])[c] < self.exprs@.len()
                implies reach_view.contains(#[trigger] children_of(self, reach_view[j])[c]) by {
                assert(children_of(self, reach_view[j]) == children_of(old(self), reach_view[j]));
            }
            assert(self.macros.templates@.subrange(0, a as int) =~= old(self).macros.templates@);
            assert forall|b: int, q: int| 0 <= b < self.macros.templates@.len() && 0 <= q < self.macros.templates@[b].struct_indexes@.len()
                implies self.index_wf(#[trigger] self.macros.templates@[b].struct_indexes@[q]) by {
                if b < a {
                    assert(self.macros.templates@[b] == old(self).macros.templates@[b]);
                }
            }
            assert forall|b: int, j: int| 0 <= b < self.macros.templates@.len() && 0 <= j < self.macros.templates@[b].exprs@.len()
                implies ({
                    let x = #[trigger] self.macros.templates@[b].exprs@[j];
                    x < self.exprs@.len() && symbols_resolve(self, x)
                }) by {
                if b < a {
                    assert(self.macros.templates@[b] == old(self).macros.templates@[b]);
                    assert(symbols_resolve(old(self), self.macros.templates@[b].exprs@[j]));
                }
            }
        }
        Ok(a)
    }

    /// Whether field `f` is an ordinary field named `name`.
    pub fn field_name_is(&self, f: &RawFieldExpr, name: &String) -> (r: bool)
        ensures
            r == field_has_name(self.symbols@, *f, name@),
    {
        match f {
            RawFieldExpr::NameValue(s, _) => {
                match self.resolve_symbol(s) {
                    Ok(t) => t == *name,
                    Err(_) => false,
                }
            },
            _ => false,
        }
    }

    /// The positions of the fields named `name`, in order.
    fn positions_named(&self, fields: &Vec<RawFieldExpr>, name: &String) -> (r: Vec<usize>)
        ensures
            r@ == matching_upto(self.symbols@, fields@, name@, fields@.len()),
    {
        let mut ps: Vec<usize> = Vec::new();
        let mut j: usize = 0;
        while j < fields.len()
            invariant
                0 <= j <= fields@.len(),
                ps@ == matching_upto(self.symbols@, fields@, name@, j as nat),
            decreases fields@.len() - j,
        {
            if self.field_name_is(&fields[j], name) {
                ps.push(j);
            }
            j += 1;
        }
        ps
    }

    /// Builds the exact field index of a struct literal.
    pub fn build_struct_index(&self, struct_expr: usize, fields: &Vec<RawFieldExpr>) -> (r: TemplateStructIndex)
        ensures
            r.struct_expr == struct_expr,
            r.wf_for(self.symbols@, fields@),
    {
        let mut names: Vec<String> = Vec::new();
        let mut positions: Vec<Vec<usize>> = Vec::new();
        let mut i: usize = 0;
        while i < fields.len()
            invariant
                0 <= i <= fields@.len(),
                names@.len() == positions@.len(),
                forall|k: int| 0 <= k < names@.len() ==>
                    #[trigger] positions@[k]@ == matching_upto(self.symbols@, fields@, names@[k]@, fields@.len())
                        && positions@[k]@.len() > 0,
                forall|j: int, n: Seq<char>| 0 <= j < i && #[trigger] field_has_name(self.symbols@, fields@[j], n)
                    ==> exists|k: int| 0 <= k < names@.len() && #[trigger] names@[k]@ == n,
            decreases fields@.len() - i,
        {
            match &fields[i] {
                RawFieldExpr::NameValue(s, _) => {
                    match self.resolve_symbol(s) {
                        Ok(t) => {
                            let mut k: usize = 0;
                            let mut seen = false;
                            while k < names.len()
                                invariant
                                    0 <= k <= names@.len(),
                                    seen ==> exists|q: int| 0 <= q < names@.len() && #[trigger] names@[q]@ == t@,
                                decreases names@.len() - k,
                            {
                                if names[k] == t {
                                    seen = true;
                                }
                                k += 1;
                            }
                            let ghost old_names = names@;
                            if !seen {
                                let ps = self.positions_named(fields, &t);
                                proof {
                                    lemma_matching_upto(self.symbols@, fields@, t@, fields@.len());
                                    assert(field_has_name(self.symbols@, fields@[i as int], t@));
                                }
                                names.push(t);
                                positions.push(ps);
                                assert(names@[names@.len() - 1]@ == t@);
                            }
                            assert forall|j: int, n: Seq<char>| 0 <= j < i + 1 && #[trigger] field_has_name(self.symbols@, fields@[j], n)
                                implies exists|k: int| 0 <= k < names@.len() && #[trigger] names@[k]@ == n by {
                                if j == i {
                                    assert(n == t@);
                                    if !seen {
                                        assert(names@[names@.len() - 1]@ == n);
                                    }
                                } else {
                                    let k0 = choose|k: int| 0 <= k < old_names.len() && #[trigger] old_names[k]@ == n;
                                    assert(names@[k0]@ == n);
                                }
                            }
                        },
                        Err(_) => {},
                    }
                },
                _ => {},
            }
            i += 1;
        }
        TemplateStructIndex { struct_expr, names, positions }
    }
}

} // verus!
