//! Expanded structs: the fields of a struct after every macro in it has been
//! expanded, produced one at a time by a resumable state machine.
use vstd::prelude::*;
use crate::context::{EncodingContext, IonError, IonResult, spec_symbol_text, matching_upto, field_has_name, lemma_matching_upto, TemplateStructIndex};
use crate::expanded_value::{ExpandedValueRef, read_value};
use crate::field_exprs::{ItemStream, iempty, icat, fe_items, as_items, lemma_items_skip, lemma_as_items_fcat, lemma_icat_empty, inline_starts_badly};
use crate::evaluator::{
    LazyExpandedValue, MacroEvaluator, Stream, ValueView, expand, MAX_DEPTH, empty_stream,
    stack_rest, EnvView, Environment, empty_env,
};
use crate::value::{Expr, RawFieldExpr, RawSymbol, RawSymbolView};

verus! {

/// The mathematical value of a field name.
pub enum NameView {
    Raw(RawSymbolView),
    Template(usize, Seq<char>),
    Made(usize),
}

pub struct FieldView {
    pub name: NameView,
    pub value: ValueView,
}

/// A stream of expanded fields that may end in an error.
pub struct FieldStream {
    pub fields: Seq<FieldView>,
    pub error: bool,
}

pub open spec fn fempty() -> FieldStream {
    FieldStream { fields: Seq::empty(), error: false }
}

pub open spec fn ffail() -> FieldStream {
    FieldStream { fields: Seq::empty(), error: true }
}

pub open spec fn fsingle(f: FieldView) -> FieldStream {
    FieldStream { fields: seq![f], error: false }
}

pub open spec fn fcat(a: FieldStream, b: FieldStream) -> FieldStream {
    if a.error {
        a
    } else {
        FieldStream { fields: a.fields + b.fields, error: b.error }
    }
}

pub proof fn lemma_fcat_assoc(a: FieldStream, b: FieldStream, c: FieldStream)
    ensures
        fcat(fcat(a, b), c) == fcat(a, fcat(b, c)),
{
    if !a.error && !b.error {
        assert(a.fields + b.fields + c.fields =~= a.fields + (b.fields + c.fields));
    }
}

pub proof fn lemma_fcat_empty(a: FieldStream)
    ensures
        fcat(fempty(), a) == a,
        fcat(a, fempty()) == a,
{
    assert(Seq::<FieldView>::empty() + a.fields =~= a.fields);
    assert(a.fields + Seq::<FieldView>::empty() =~= a.fields);
}

/// Each value of `s` as a field under `name`.
pub open spec fn map_name(name: NameView, s: Stream) -> FieldStream {
    FieldStream { fields: s.values.map_values(|v: ValueView| FieldView { name, value: v }), error: s.error }
}

/// Where the fields of a struct come from.
pub enum SourceView {
    Literal(usize),
    Template(usize, usize, EnvView),
    Make(Seq<usize>, EnvView, Option<usize>),
    Field(usize, usize, EnvView, Option<usize>),
}

/// The struct that value `v` is, if it is one.
pub open spec fn struct_source_of(ctx: &EncodingContext, v: ValueView) -> Option<SourceView> {
    match v {
        ValueView::Literal(e) => if e < ctx.exprs@.len() && ctx.exprs@[e as int] is Struct {
            Some(SourceView::Literal(e))
        } else {
            None
        },
        ValueView::TemplateLiteral(t, e, env) => if e < ctx.exprs@.len() && ctx.exprs@[e as int] is Struct {
            Some(SourceView::Template(t, e, env))
        } else {
            None
        },
        ValueView::MakeStruct(args, env, tmpl) => Some(SourceView::Make(args, env, tmpl)),
        ValueView::MakeField(n, v, env, tmpl) => Some(SourceView::Field(n, v, env, tmpl)),
        ValueView::Annotated(_, e, env, tmpl) => if e < ctx.exprs@.len() && ctx.exprs@[e as int] is Struct {
            Some(match tmpl {
                Some(t) => SourceView::Template(t, e, env),
                None => SourceView::Literal(e),
            })
        } else {
            None
        },
    }
}

/// The name that field name `s` of a struct literal gets: in a template
/// body, its text, resolved when the field is read from the template; a
/// name whose symbol ID the table lacks stays a raw name.
pub open spec fn name_of(ctx: &EncodingContext, tmpl: Option<usize>, s: RawSymbol) -> NameView {
    match tmpl {
        Some(t) => match spec_symbol_text(ctx.symbols@, s) {
            Some(text) => NameView::Template(t, text),
            None => NameView::Raw(s@),
        },
        None => NameView::Raw(s@),
    }
}

pub open spec fn lit_of(tmpl: Option<usize>, e: usize, env: EnvView) -> ValueView {
    match tmpl {
        Some(t) => ValueView::TemplateLiteral(t, e, env),
        None => ValueView::Literal(e),
    }
}

pub open spec fn struct_fields_of(ctx: &EncodingContext, e: usize) -> Seq<RawFieldExpr> {
    ctx.exprs@[e as int]->Struct_0@
}

/// The fields of the struct that `src` describes, when it is read at nesting `depth`.
pub open spec fn source_fields(ctx: &EncodingContext, src: SourceView, depth: nat) -> FieldStream
    decreases MAX_DEPTH - depth, 2int, 0int,
{
    match src {
        SourceView::Literal(e) => fields_from(ctx, struct_fields_of(ctx, e), 0, None, empty_env(), depth),
        SourceView::Template(t, e, env) => fields_from(ctx, struct_fields_of(ctx, e), 0, Some(t), env, depth),
        SourceView::Make(args, env, tmpl) => args_from(ctx, args, 0, env, tmpl, depth),
        SourceView::Field(n, v, env, tmpl) => fsingle(FieldView { name: NameView::Made(n), value: lit_of(tmpl, v, env) }),
    }
}

/// The fields that raw fields `raw[i..]` expand to: an ordinary field is kept,
/// a macro in value position gives one field per value under the same name,
/// and a macro in name position has the fields of the structs it produces
/// spliced in its place. Parameters are bound by `env`.
pub open spec fn fields_from(ctx: &EncodingContext, raw: Seq<RawFieldExpr>, i: nat, tmpl: Option<usize>, env: EnvView, depth: nat) -> FieldStream
    decreases MAX_DEPTH - depth, 1int, raw.len() - i,
{
    if i >= raw.len() {
        fempty()
    } else {
        let here = match raw[i as int] {
            RawFieldExpr::Nop => fempty(),
            RawFieldExpr::NameValue(s, v) => {
                if v < ctx.exprs@.len() && ctx.exprs@[v as int].is_value_literal() {
                    fsingle(FieldView { name: name_of(ctx, tmpl, s), value: lit_of(tmpl, v, env) })
                } else {
                    map_name(name_of(ctx, tmpl, s), expand(ctx, v, env, tmpl, depth))
                }
            },
            RawFieldExpr::EExp(inv) => inline_from(ctx, expand(ctx, inv, env, tmpl, depth), 0, depth),
        };
        fcat(here, fields_from(ctx, raw, i + 1, tmpl, env, depth))
    }
}

/// The fields that `make_struct` arguments `args[i..]` contribute.
pub open spec fn args_from(ctx: &EncodingContext, args: Seq<usize>, i: nat, env: EnvView, tmpl: Option<usize>, depth: nat) -> FieldStream
    decreases MAX_DEPTH - depth, 1int, args.len() - i,
{
    if i >= args.len() {
        fempty()
    } else {
        fcat(
            inline_from(ctx, expand(ctx, args[i as int], env, tmpl, depth), 0, depth),
            args_from(ctx, args, i + 1, env, tmpl, depth),
        )
    }
}

/// The fields of the structs `s.values[j..]`, spliced one after another; a
/// value that is not a struct is a decoding error.
pub open spec fn inline_from(ctx: &EncodingContext, s: Stream, j: nat, depth: nat) -> FieldStream
    decreases MAX_DEPTH - depth, 0int, s.values.len() - j,
{
    if j >= s.values.len() {
        if s.error { ffail() } else { fempty() }
    } else {
        match struct_source_of(ctx, s.values[j as int]) {
            None => ffail(),
            Some(src) => {
                if depth >= MAX_DEPTH {
                    ffail()
                } else {
                    fcat(source_fields(ctx, src, depth + 1), inline_from(ctx, s, j + 1, depth))
                }
            },
        }
    }
}


pub proof fn lemma_inline_shift(ctx: &EncodingContext, s: Stream, j: nat, depth: nat)
    requires
        s.values.len() > 0,
    ensures
        inline_from(ctx, s, j + 1, depth)
            == inline_from(ctx, Stream { values: s.values.drop_first(), error: s.error }, j, depth),
    decreases s.values.len() - j,
{
    let t = Stream { values: s.values.drop_first(), error: s.error };
    if j + 1 < s.values.len() {
        assert(s.values[j + 1int] == t.values[j as int]);
        lemma_inline_shift(ctx, s, j + 1, depth);
    }
}

/// The name of an expanded field.
#[derive(Debug)]
pub enum LazyExpandedFieldName {
    /// A name written in a struct of the input data.
    RawName(RawSymbol),
    /// A name written in a struct of the body of the template at this
    /// address, with its text.
    TemplateName(usize, String),
    /// The name expression given to `make_field`.
    MakeField(usize),
}

impl View for LazyExpandedFieldName {
    type V = NameView;

    open spec fn view(&self) -> NameView {
        match self {
            LazyExpandedFieldName::RawName(s) => NameView::Raw(s@),
            LazyExpandedFieldName::TemplateName(t, s) => NameView::Template(*t, s@),
            LazyExpandedFieldName::MakeField(n) => NameView::Made(*n),
        }
    }
}

impl LazyExpandedFieldName {
    pub fn copy(&self) -> (r: LazyExpandedFieldName)
        ensures
            r@ == self@,
    {
        match self {
            LazyExpandedFieldName::RawName(s) => LazyExpandedFieldName::RawName(s.copy()),
            LazyExpandedFieldName::TemplateName(t, s) => LazyExpandedFieldName::TemplateName(*t, s.clone()),
            LazyExpandedFieldName::MakeField(n) => LazyExpandedFieldName::MakeField(*n),
        }
    }

    /// True when the name is not backed by a field-name literal of the input data.
    pub fn is_ephemeral(&self) -> (r: bool)
        ensures
            r == !(self is RawName),
    {
        match self {
            LazyExpandedFieldName::RawName(_) => false,
            _ => true,
        }
    }

    /// The symbol as written in the input, for a name of the input data.
    pub fn raw(&self) -> (r: Option<&RawSymbol>)
        ensures
            self is RawName ==> r == Some(&self->RawName_0),
            !(self is RawName) ==> r is None,
    {
        match self {
            LazyExpandedFieldName::RawName(s) => Some(s),
            _ => None,
        }
    }
}

/// A field after expansion: a name and a value.
#[derive(Debug)]
pub struct LazyExpandedField {
    pub name: LazyExpandedFieldName,
    pub value: LazyExpandedValue,
}

impl View for LazyExpandedField {
    type V = FieldView;

    open spec fn view(&self) -> FieldView {
        FieldView { name: self.name@, value: self.value@ }
    }
}

impl LazyExpandedField {
    pub fn new(name: LazyExpandedFieldName, value: LazyExpandedValue) -> (r: Self)
        ensures
            r.name == name,
            r.value == value,
    {
        LazyExpandedField { name, value }
    }

    pub fn value(&self) -> (r: &LazyExpandedValue)
        ensures
            r == &self.value,
    {
        &self.value
    }

    pub fn name(&self) -> (r: &LazyExpandedFieldName)
        ensures
            r == &self.name,
    {
        &self.name
    }

    /// This field as a field expression that needs no further expansion.
    pub fn to_field_expr(self) -> (r: FieldExpr)
        ensures
            r == FieldExpr::NameValue(self.name, self.value),
    {
        FieldExpr::NameValue(self.name, self.value)
    }
}

/// A struct field position before expansion.
#[derive(Debug)]
pub enum FieldExpr {
    /// An ordinary field.
    NameValue(LazyExpandedFieldName, LazyExpandedValue),
    /// A field name bound to a macro invocation (or other expression to expand) in value position.
    NameMacro(LazyExpandedFieldName, usize),
    /// A macro invocation in field-name position, expected to expand to structs.
    EExp(usize),
}

/// The mathematical value of a [`FieldExpr`].
pub enum FieldExprView {
    NameValue(FieldView),
    NameMacro(NameView, usize),
    EExp(usize),
}

impl View for FieldExpr {
    type V = FieldExprView;

    open spec fn view(&self) -> FieldExprView {
        match self {
            FieldExpr::NameValue(n, v) => FieldExprView::NameValue(FieldView { name: n@, value: v@ }),
            FieldExpr::NameMacro(n, inv) => FieldExprView::NameMacro(n@, *inv),
            FieldExpr::EExp(inv) => FieldExprView::EExp(*inv),
        }
    }
}

/// The field expression that raw field `f` of a struct literal is read as.
pub open spec fn raw_fe(ctx: &EncodingContext, f: RawFieldExpr, tmpl: Option<usize>, env: EnvView) -> Option<FieldExprView> {
    match f {
        RawFieldExpr::Nop => None,
        RawFieldExpr::NameValue(s, v) => if v < ctx.exprs@.len() && ctx.exprs@[v as int].is_value_literal() {
            Some(FieldExprView::NameValue(FieldView { name: name_of(ctx, tmpl, s), value: lit_of(tmpl, v, env) }))
        } else {
            Some(FieldExprView::NameMacro(name_of(ctx, tmpl, s), v))
        },
        RawFieldExpr::EExp(inv) => Some(FieldExprView::EExp(inv)),
    }
}

/// What a field expression that a source gives stands for, as the tooling
/// iterator yields it: a `make_struct` argument yields its fields only.
pub open spec fn src_fe_items(ctx: &EncodingContext, make: bool, fe: FieldExprView, env: EnvView, tmpl: Option<usize>, depth: nat) -> ItemStream {
    if make && fe is EExp {
        as_items(inline_from(ctx, expand(ctx, fe->EExp_0, env, tmpl, depth), 0, depth))
    } else {
        fe_items(ctx, fe, env, tmpl, depth)
    }
}

/// The fields that a field expression stands for.
pub open spec fn field_expr_fields(ctx: &EncodingContext, fe: FieldExpr, env: EnvView, tmpl: Option<usize>, depth: nat) -> FieldStream {
    match fe {
        FieldExpr::NameValue(n, v) => fsingle(FieldView { name: n@, value: v@ }),
        FieldExpr::NameMacro(n, inv) => map_name(n@, expand(ctx, inv, env, tmpl, depth)),
        FieldExpr::EExp(inv) => inline_from(ctx, expand(ctx, inv, env, tmpl, depth), 0, depth),
    }
}

impl FieldExpr {
    pub fn name(&self) -> (r: Option<&LazyExpandedFieldName>)
        ensures
            self is NameValue ==> r == Some(&self->NameValue_0),
            self is NameMacro ==> r == Some(&self->NameMacro_0),
            self is EExp ==> r is None,
    {
        match self {
            FieldExpr::NameValue(name, _) => Some(name),
            FieldExpr::NameMacro(name, _) => Some(name),
            FieldExpr::EExp(_) => None,
        }
    }

    /// The field itself, when it needs no expansion; a decoding error otherwise.
    pub fn expect_expanded(self) -> (r: IonResult<LazyExpandedField>)
        ensures
            !(self is NameValue) ==> r matches Err(IonError::Decoding(_)),
            self is NameValue ==> r is Ok && r->Ok_0.name == self->NameValue_0 && r->Ok_0.value == self->NameValue_1,
            !(self is NameValue) ==> r is Err,
    {
        match self {
            FieldExpr::NameValue(name, value) => Ok(LazyExpandedField::new(name, value)),
            FieldExpr::NameMacro(_, _) => Err(IonError::Decoding(
                "expected an expanded field, found an unexpanded (name, macro) field expr".to_string(),
            )),
            FieldExpr::EExp(_) => Err(IonError::Decoding(
                "expected an expanded field, found an unexpanded e-expression field expr".to_string(),
            )),
        }
    }
}

/// Where the fields of an expanded struct come from.
#[derive(Debug)]
pub enum ExpandedStructSource {
    /// A struct literal of the input data.
    ValueLiteral(usize),
    /// A struct literal of the body of the template at this address, with the
    /// arguments that the template's parameters are bound to.
    Template(usize, usize, Environment),
    /// The struct made by `make_struct` from these argument expressions, to be
    /// expanded under these bindings and template.
    MakeStruct(Vec<usize>, Environment, Option<usize>),
    /// The one-field struct made by `make_field`: its name, and its value with
    /// the environment and template it is read under.
    MakeField(usize, usize, Environment, Option<usize>),
}

impl View for ExpandedStructSource {
    type V = SourceView;

    open spec fn view(&self) -> SourceView {
        match self {
            ExpandedStructSource::ValueLiteral(e) => SourceView::Literal(*e),
            ExpandedStructSource::Template(t, e, env) => SourceView::Template(*t, *e, env@),
            ExpandedStructSource::MakeStruct(args, env, tmpl) => SourceView::Make(args@, env@, *tmpl),
            ExpandedStructSource::MakeField(n, v, env, tmpl) => SourceView::Field(*n, *v, env@, *tmpl),
        }
    }
}

/// The iterator's position in the source of its struct.
pub enum ExpandedStructIteratorSource {
    /// A struct literal of the input data, and the position of the next raw field.
    ValueLiteral(usize, usize),
    /// A struct literal of a template body, the position of the next raw
    /// field, and the template's bindings.
    Template(usize, usize, usize, Environment),
    /// The field of a `make_field` struct, until it has been read.
    MakeField(Option<LazyExpandedField>),
    /// The arguments of `make_struct`, the position of the next one, and the
    /// bindings and template they are expanded under.
    MakeStruct(Vec<usize>, usize, Environment, Option<usize>),
}

impl ExpandedStructIteratorSource {
    pub open spec fn wf(&self, ctx: &EncodingContext) -> bool {
        match self {
            ExpandedStructIteratorSource::ValueLiteral(e, pos) => *e < ctx.exprs@.len()
                && ctx.exprs@[*e as int] is Struct && *pos <= struct_fields_of(ctx, *e).len(),
            ExpandedStructIteratorSource::Template(_, e, pos, _) => *e < ctx.exprs@.len()
                && ctx.exprs@[*e as int] is Struct && *pos <= struct_fields_of(ctx, *e).len(),
            ExpandedStructIteratorSource::MakeField(_) => true,
            ExpandedStructIteratorSource::MakeStruct(args, pos, _, _) => *pos <= args@.len(),
        }
    }

    /// The fields that the source has still to give.
    pub open spec fn rest(&self, ctx: &EncodingContext, depth: nat) -> FieldStream {
        match self {
            ExpandedStructIteratorSource::ValueLiteral(e, pos) =>
                fields_from(ctx, struct_fields_of(ctx, *e), *pos as nat, None, empty_env(), depth),
            ExpandedStructIteratorSource::Template(t, e, pos, env) =>
                fields_from(ctx, struct_fields_of(ctx, *e), *pos as nat, Some(*t), env@, depth),
            ExpandedStructIteratorSource::MakeField(f) => match f {
                Some(f) => fsingle(f@),
                None => fempty(),
            },
            ExpandedStructIteratorSource::MakeStruct(args, pos, env, tmpl) => args_from(ctx, args@, *pos as nat, env@, *tmpl, depth),
        }
    }

    /// The bindings under which the source's macros are expanded.
    pub open spec fn env_of(&self) -> EnvView {
        match self {
            ExpandedStructIteratorSource::Template(_, _, _, env) => env@,
            ExpandedStructIteratorSource::MakeStruct(_, _, env, _) => env@,
            _ => empty_env(),
        }
    }

    /// The template whose body holds the source's struct, if any.
    pub open spec fn tmpl_of(&self) -> Option<usize> {
        match self {
            ExpandedStructIteratorSource::Template(t, _, _, _) => Some(*t),
            ExpandedStructIteratorSource::MakeStruct(_, _, _, tmpl) => *tmpl,
            _ => None,
        }
    }

    /// A copy of the bindings and the template of the source.
    pub fn bindings(&self) -> (r: (Environment, Option<usize>))
        ensures
            r.0@ == self.env_of(),
            r.1 == self.tmpl_of(),
    {
        match self {
            ExpandedStructIteratorSource::Template(t, _, _, env) => (env.copy(), Some(*t)),
            ExpandedStructIteratorSource::MakeStruct(_, _, env, tmpl) => (env.copy(), *tmpl),
            _ => (Environment::empty(), None),
        }
    }

    /// The field expression that the source gives next, if any.
    pub open spec fn head(&self, ctx: &EncodingContext) -> Option<FieldExprView> {
        match self {
            ExpandedStructIteratorSource::ValueLiteral(e, pos) => {
                let raw = struct_fields_of(ctx, *e);
                let p = first_non_nop(raw, *pos as nat);
                if p < raw.len() { raw_fe(ctx, raw[p as int], None, empty_env()) } else { None }
            },
            ExpandedStructIteratorSource::Template(t, e, pos, env) => {
                let raw = struct_fields_of(ctx, *e);
                let p = first_non_nop(raw, *pos as nat);
                if p < raw.len() { raw_fe(ctx, raw[p as int], Some(*t), env@) } else { None }
            },
            ExpandedStructIteratorSource::MakeField(f) => match f {
                Some(f) => Some(FieldExprView::NameValue(f@)),
                None => None,
            },
            ExpandedStructIteratorSource::MakeStruct(args, pos, _, _) =>
                if *pos < args@.len() { Some(FieldExprView::EExp(args@[*pos as int])) } else { None },
        }
    }

    /// The next field expression is an ordinary field, or a macro in value
    /// position that always expands to exactly one value.
    pub open spec fn direct_head(&self, ctx: &EncodingContext) -> bool {
        match self.head(ctx) {
            Some(FieldExprView::NameValue(_)) => true,
            Some(FieldExprView::NameMacro(_, inv)) => crate::evaluator::yields_one_value(ctx, inv),
            _ => false,
        }
    }

    /// How many field positions the source has still to give.
    pub open spec fn remaining(&self, ctx: &EncodingContext) -> int {
        match self {
            ExpandedStructIteratorSource::ValueLiteral(e, pos) => struct_fields_of(ctx, *e).len() - *pos,
            ExpandedStructIteratorSource::Template(_, e, pos, _) => struct_fields_of(ctx, *e).len() - *pos,
            ExpandedStructIteratorSource::MakeField(f) => if f is Some { 1 } else { 0 },
            ExpandedStructIteratorSource::MakeStruct(args, pos, _, _) => args@.len() - *pos,
        }
    }

    /// Pulls the next unexpanded field expression, skipping padding.
    pub fn next_field(&mut self, ctx: &EncodingContext, depth: usize) -> (r: Option<FieldExpr>)
        requires
            old(self).wf(ctx),
        ensures
            r is None <==> old(self).head(ctx) is None,
            r matches Some(fe) ==> old(self).head(ctx) == Some(fe@),
            (*old(self)) is MakeField ==> (*final(self)) matches ExpandedStructIteratorSource::MakeField(None),
            (*old(self)) matches ExpandedStructIteratorSource::MakeField(Some(f)) ==> r matches Some(FieldExpr::NameValue(n, v)) && n == f.name && v == f.value,
            final(self).wf(ctx),
            match r {
                None => old(self).rest(ctx, depth as nat) == fempty() && final(self).rest(ctx, depth as nat) == fempty()
                    && final(self).items(ctx, depth as nat) == iempty()
                    && 0 <= final(self).remaining(ctx) <= old(self).remaining(ctx),
                Some(fe) => old(self).rest(ctx, depth as nat)
                    == fcat(field_expr_fields(ctx, fe, old(self).env_of(), old(self).tmpl_of(), depth as nat), final(self).rest(ctx, depth as nat))
                    && 0 <= final(self).remaining(ctx) < old(self).remaining(ctx),
            },
            match r {
                None => old(self).items(ctx, depth as nat) == iempty(),
                Some(fe) => old(self).items(ctx, depth as nat)
                    == icat(src_fe_items(ctx, (*old(self)) is MakeStruct, fe@, old(self).env_of(), old(self).tmpl_of(), depth as nat),
                        final(self).items(ctx, depth as nat)),
            },
            ((*final(self)) is MakeStruct) == ((*old(self)) is MakeStruct),
            final(self).env_of() == old(self).env_of(),
            final(self).tmpl_of() == old(self).tmpl_of(),
    {
        proof {
            assert(as_items(fempty()).items =~= Seq::<FieldExprView>::empty());
        }
        match self {
            ExpandedStructIteratorSource::ValueLiteral(e, pos) => {
                let ghost p0 = *pos;
                let no_env = Environment::empty();
                let r = next_raw_field(ctx, *e, pos, None, &no_env, depth);
                proof {
                    let raw = struct_fields_of(ctx, *e);
                    if r is None {
                        lemma_items_skip(ctx, raw, p0 as nat, *pos as nat, None, empty_env(), depth as nat);
                    } else {
                        lemma_items_skip(ctx, raw, p0 as nat, (*pos - 1) as nat, None, empty_env(), depth as nat);
                    }
                }
                r
            },
            ExpandedStructIteratorSource::Template(t, e, pos, env) => {
                let ghost p0 = *pos;
                let r = next_raw_field(ctx, *e, pos, Some(*t), env, depth);
                proof {
                    let raw = struct_fields_of(ctx, *e);
                    if r is None {
                        lemma_items_skip(ctx, raw, p0 as nat, *pos as nat, Some(*t), env@, depth as nat);
                    } else {
                        lemma_items_skip(ctx, raw, p0 as nat, (*pos - 1) as nat, Some(*t), env@, depth as nat);
                    }
                }
                r
            },
            ExpandedStructIteratorSource::MakeField(f) => {
                let mut taken: Option<LazyExpandedField> = None;
                std::mem::swap(f, &mut taken);
                match taken {
                    Some(field) => {
                        proof {
                            lemma_fcat_empty(fsingle(field@));
                            lemma_icat_empty(fe_items(ctx, FieldExprView::NameValue(field@), empty_env(), None, depth as nat));
                        }
                        Some(field.to_field_expr())
                    },
                    None => None,
                }
            },
            ExpandedStructIteratorSource::MakeStruct(args, pos, env, tmpl) => {
                if *pos < args.len() {
                    let a = args[*pos];
                    *pos = *pos + 1;
                    proof {
                        lemma_as_items_fcat(
                            inline_from(ctx, expand(ctx, a, env@, *tmpl, depth as nat), 0, depth as nat),
                            args_from(ctx, args@, *pos as nat, env@, *tmpl, depth as nat),
                        );
                    }
                    Some(FieldExpr::EExp(a))
                } else {
                    None
                }
            },
        }
    }
}

/// The position of the first field at or after `i` that is not padding.
pub open spec fn first_non_nop(raw: Seq<RawFieldExpr>, i: nat) -> nat
    decreases raw.len() - i,
{
    if i < raw.len() && raw[i as int] is Nop {
        first_non_nop(raw, i + 1)
    } else {
        i
    }
}

pub proof fn lemma_first_non_nop(raw: Seq<RawFieldExpr>, a: nat, b: nat)
    requires
        a <= b <= raw.len(),
        forall|k: int| a <= k < b ==> (#[trigger] raw[k]) is Nop,
        b < raw.len() ==> !(raw[b as int] is Nop),
    ensures
        first_non_nop(raw, a) == b,
    decreases b - a,
{
    if a < b {
        assert(raw[a as int] is Nop);
        lemma_first_non_nop(raw, a + 1, b);
    }
}

/// Pulls the next raw field of struct literal `e` at `*pos`, skipping padding.
fn next_raw_field(ctx: &EncodingContext, e: usize, pos: &mut usize, tmpl: Option<usize>, env: &Environment, depth: usize) -> (r: Option<FieldExpr>)
    requires
        e < ctx.exprs@.len(),
        ctx.exprs@[e as int] is Struct,
        *old(pos) <= struct_fields_of(ctx, e).len(),
    ensures
        *final(pos) <= struct_fields_of(ctx, e).len(),
        match r {
            None => fields_from(ctx, struct_fields_of(ctx, e), *old(pos) as nat, tmpl, env@, depth as nat) == fempty()
                && *old(pos) <= *final(pos),
            Some(fe) => fields_from(ctx, struct_fields_of(ctx, e), *old(pos) as nat, tmpl, env@, depth as nat)
                == fcat(field_expr_fields(ctx, fe, env@, tmpl, depth as nat), fields_from(ctx, struct_fields_of(ctx, e), *final(pos) as nat, tmpl, env@, depth as nat))
                && *old(pos) < *final(pos)
                && raw_fe(ctx, struct_fields_of(ctx, e)[*final(pos) - 1], tmpl, env@) == Some(fe@),
        },
        forall|k: int| *old(pos) <= k < *final(pos) - (if r is Some { 1int } else { 0int }) ==> (#[trigger] struct_fields_of(ctx, e)[k]) is Nop,
        r is None ==> *final(pos) == struct_fields_of(ctx, e).len(),
        r is None ==> first_non_nop(struct_fields_of(ctx, e), *old(pos) as nat) >= struct_fields_of(ctx, e).len(),
        r is Some ==> first_non_nop(struct_fields_of(ctx, e), *old(pos) as nat) == *final(pos) - 1,
{
    let fields = match &ctx.exprs[e] {
        Expr::Struct(fields) => fields,
        _ => { return None; },
    };
    let ghost raw = struct_fields_of(ctx, e);
    assert(fields@ == raw);
    let ghost start = *pos;
    let mut res: Option<FieldExpr> = None;
    while *pos < fields.len()
        invariant_except_break
            res is None,
            fields_from(ctx, raw, start as nat, tmpl, env@, depth as nat) == fields_from(ctx, raw, *pos as nat, tmpl, env@, depth as nat),
            forall|k: int| start <= k < *pos ==> (#[trigger] raw[k]) is Nop,
        invariant
            fields@ == raw,
            start == *old(pos),
            start <= *pos <= raw.len(),
        ensures
            start <= *pos <= raw.len(),
            match res {
                None => fields_from(ctx, raw, start as nat, tmpl, env@, depth as nat) == fempty(),
                Some(fe) => fields_from(ctx, raw, start as nat, tmpl, env@, depth as nat)
                    == fcat(field_expr_fields(ctx, fe, env@, tmpl, depth as nat), fields_from(ctx, raw, *pos as nat, tmpl, env@, depth as nat))
                    && start < *pos
                    && raw_fe(ctx, raw[*pos - 1], tmpl, env@) == Some(fe@),
            },
            forall|k: int| start <= k < *pos - (if res is Some { 1int } else { 0int }) ==> (#[trigger] raw[k]) is Nop,
            res is None ==> *pos == raw.len(),
        decreases raw.len() - *pos,
    {
        let i = *pos;
        *pos = i + 1;
        match &fields[i] {
            RawFieldExpr::Nop => {
                proof { lemma_fcat_empty(fields_from(ctx, raw, (i + 1) as nat, tmpl, env@, depth as nat)); }
            },
            RawFieldExpr::NameValue(sym, v) => {
                let name = match tmpl {
                    Some(t) => match ctx.resolve_symbol(sym) {
                        Ok(text) => LazyExpandedFieldName::TemplateName(t, text),
                        Err(_) => LazyExpandedFieldName::RawName(sym.copy()),
                    },
                    None => LazyExpandedFieldName::RawName(sym.copy()),
                };
                assert(name@ == name_of(ctx, tmpl, *sym));
                let is_lit = *v < ctx.exprs.len() && ctx.exprs[*v].is_literal();
                if is_lit {
                    let value = crate::evaluator::tag(tmpl, *v, env);
                    res = Some(FieldExpr::NameValue(name, value));
                } else {
                    res = Some(FieldExpr::NameMacro(name, *v));
                }
                break;
            },
            RawFieldExpr::EExp(inv) => {
                res = Some(FieldExpr::EExp(*inv));
                break;
            },
        }
    }
    proof {
        if res is Some {
            assert(!(raw[*pos - 1] is Nop));
            lemma_first_non_nop(raw, start as nat, (*pos - 1) as nat);
        } else {
            lemma_first_non_nop(raw, start as nat, *pos as nat);
        }
    }
    res
}


/// The struct that value `v` is, if it is one.
pub fn struct_source(ctx: &EncodingContext, v: LazyExpandedValue) -> (r: Option<ExpandedStructSource>)
    ensures
        match struct_source_of(ctx, v@) {
            Some(src) => r is Some && r->0@ == src,
            None => r is None,
        },
{
    match v {
        LazyExpandedValue::Literal(e) => {
            if e < ctx.exprs.len() {
                match &ctx.exprs[e] {
                    Expr::Struct(_) => { return Some(ExpandedStructSource::ValueLiteral(e)); },
                    _ => {},
                }
            }
            None
        },
        LazyExpandedValue::TemplateLiteral(t, e, env) => {
            if e < ctx.exprs.len() {
                match &ctx.exprs[e] {
                    Expr::Struct(_) => { return Some(ExpandedStructSource::Template(t, e, env)); },
                    _ => {},
                }
            }
            None
        },
        LazyExpandedValue::MakeStruct(args, env, tmpl) => Some(ExpandedStructSource::MakeStruct(args, env, tmpl)),
        LazyExpandedValue::MakeField(n, v, env, tmpl) => Some(ExpandedStructSource::MakeField(n, v, env, tmpl)),
        LazyExpandedValue::Annotated(_, e, env, tmpl) => {
            if e < ctx.exprs.len() {
                match &ctx.exprs[e] {
                    Expr::Struct(_) => {
                        return Some(match tmpl {
                            Some(t) => ExpandedStructSource::Template(t, e, env),
                            None => ExpandedStructSource::ValueLiteral(e),
                        });
                    },
                    _ => {},
                }
            }
            None
        },
    }
}

/// A struct whose fields are expanded lazily, when it is iterated.
pub struct LazyExpandedStruct<'top> {
    pub context: &'top EncodingContext,
    pub source: ExpandedStructSource,
    /// The nesting at which the struct's own macros are expanded.
    pub depth: usize,
}

impl<'top> LazyExpandedStruct<'top> {
    pub open spec fn wf(&self) -> bool {
        &&& self.depth <= MAX_DEPTH
        &&& match self.source {
            ExpandedStructSource::ValueLiteral(e) => e < self.context.exprs@.len() && self.context.exprs@[e as int] is Struct,
            ExpandedStructSource::Template(_, e, _) => e < self.context.exprs@.len() && self.context.exprs@[e as int] is Struct,
            _ => true,
        }
    }

    /// The struct's fields after expansion.
    pub open spec fn fields(&self) -> FieldStream {
        source_fields(self.context, self.source@, self.depth as nat)
    }

    /// An iterator over the struct's expanded fields.
    pub fn iter(&self) -> (r: ExpandedStructIterator<'top>)
        requires
            self.wf(),
        ensures
            r.wf(),
            r.context == self.context,
            r.depth == self.depth,
            r.rest() == self.fields(),
            r.state is ReadingFieldFromSource,
            r.source.items(r.context, r.depth as nat) == self.items(),
    {
        let source = match &self.source {
            ExpandedStructSource::ValueLiteral(e) => ExpandedStructIteratorSource::ValueLiteral(*e, 0),
            ExpandedStructSource::Template(t, e, env) => ExpandedStructIteratorSource::Template(*t, *e, 0, env.copy()),
            ExpandedStructSource::MakeStruct(args, env, tmpl) => ExpandedStructIteratorSource::MakeStruct(
                crate::evaluator::copy_indices(args), 0, env.copy(), *tmpl,
            ),
            ExpandedStructSource::MakeField(n, v, env, tmpl) => ExpandedStructIteratorSource::MakeField(Some(
                LazyExpandedField::new(LazyExpandedFieldName::MakeField(*n), crate::evaluator::tag(*tmpl, *v, env)),
            )),
        };
        ExpandedStructIterator {
            context: self.context,
            source,
            state: ExpandedStructIteratorState::ReadingFieldFromSource,
            evaluator: MacroEvaluator::new(),
            depth: self.depth,
        }
    }
}

/// What the struct iterator is in the middle of.
pub enum ExpandedStructIteratorState<'top> {
    /// Ready to pull the next field expression from the source.
    ReadingFieldFromSource,
    /// Emitting one field, under this name, for each value that the macro in
    /// value position produces.
    ExpandingValueExpr(LazyExpandedFieldName),
    /// Splicing in the fields of a struct that a macro in field-name position produced.
    InliningAStruct(Box<ExpandedStructIterator<'top>>),
}

/// Produces the expanded fields of a struct in order, one per call.
pub struct ExpandedStructIterator<'top> {
    pub context: &'top EncodingContext,
    pub source: ExpandedStructIteratorSource,
    pub state: ExpandedStructIteratorState<'top>,
    pub evaluator: MacroEvaluator,
    pub depth: usize,
}

pub open spec fn state_rank(st: ExpandedStructIteratorState) -> int {
    match st {
        ExpandedStructIteratorState::ReadingFieldFromSource => 0,
        ExpandedStructIteratorState::ExpandingValueExpr(_) => 1,
        ExpandedStructIteratorState::InliningAStruct(_) => 2,
    }
}

impl<'top> ExpandedStructIterator<'top> {
    /// The source's next field expression is a macro in field-name position
    /// whose structs have at least one field.
    pub open spec fn eexp_head_has_fields(&self) -> bool {
        self.source.head(self.context) matches Some(FieldExprView::EExp(inv)) && inline_from(
            self.context,
            expand(self.context, inv, self.source.env_of(), self.source.tmpl_of(), self.depth as nat),
            0,
            self.depth as nat,
        ).fields.len() > 0
    }

    /// The fields still to come from the struct being inlined and from the
    /// further structs that the macro in field-name position yields.
    pub open spec fn inlining_rest(&self) -> FieldStream {
        match self.state {
            ExpandedStructIteratorState::InliningAStruct(child) =>
                fcat(child.rest(), inline_from(self.context, self.evaluator.rest(self.context), 0, self.depth as nat)),
            _ => fempty(),
        }
    }

    pub open spec fn wf(&self) -> bool
        decreases self,
    {
        &&& self.evaluator.wf()
        &&& self.depth <= MAX_DEPTH
        &&& self.source.wf(self.context)
        &&& match self.state {
            ExpandedStructIteratorState::ReadingFieldFromSource => self.evaluator.stack@.len() == 0,
            ExpandedStructIteratorState::ExpandingValueExpr(_) => true,
            ExpandedStructIteratorState::InliningAStruct(child) =>
                child.wf() && child.context == self.context && child.depth == self.depth + 1,
        }
    }

    /// The fields that the iterator has still to produce.
    pub open spec fn rest(&self) -> FieldStream
        decreases self,
    {
        let ctx = self.context;
        let src = self.source.rest(ctx, self.depth as nat);
        match self.state {
            ExpandedStructIteratorState::ReadingFieldFromSource => src,
            ExpandedStructIteratorState::ExpandingValueExpr(n) =>
                fcat(map_name(n@, self.evaluator.rest(ctx)), src),
            ExpandedStructIteratorState::InliningAStruct(child) =>
                fcat(child.rest(), fcat(inline_from(ctx, self.evaluator.rest(ctx), 0, self.depth as nat), src)),
        }
    }
}


/// Pulls the next value from the evaluator and checks that it is a struct,
/// to be read one level deeper.
pub fn next_struct_from_macro<'top>(ctx: &'top EncodingContext, evaluator: &mut MacroEvaluator, depth: usize)
    -> (r: IonResult<Option<LazyExpandedStruct<'top>>>)
    requires
        old(evaluator).wf(),
        depth <= MAX_DEPTH,
    ensures
        r matches Err(e) ==> e is Decoding,
        r matches Ok(None) ==> old(evaluator).rest(ctx) == empty_stream(),
        final(evaluator).wf(),
        ({
            let s = old(evaluator).rest(ctx);
            match r {
                Ok(None) => inline_from(ctx, s, 0, depth as nat) == fempty() && final(evaluator).stack@.len() == 0,
                Ok(Some(st)) => st.context == ctx && st.depth == depth + 1 && st.wf()
                    && inline_from(ctx, s, 0, depth as nat)
                        == fcat(st.fields(), inline_from(ctx, final(evaluator).rest(ctx), 0, depth as nat))
                    && final(evaluator).rest(ctx).values.len() < s.values.len(),
                Err(_) => inline_from(ctx, s, 0, depth as nat) == ffail(),
            }
        }),
        r is Err <==> inline_starts_badly(ctx, old(evaluator).rest(ctx), depth as nat),
{
    let ghost s = evaluator.rest(ctx);
    match evaluator.next(ctx) {
        Ok(None) => Ok(None),
        Ok(Some(v)) => {
            match struct_source(ctx, v) {
                None => Err(IonError::Decoding("macros in field name position must produce structs".to_string())),
                Some(src) => {
                    if depth >= MAX_DEPTH {
                        return Err(IonError::Decoding("macro expansion is nested too deeply".to_string()));
                    }
                    proof {
                        lemma_inline_shift(ctx, s, 0, depth as nat);
                    }
                    Ok(Some(LazyExpandedStruct { context: ctx, source: src, depth: depth + 1 }))
                },
            }
        },
        Err(e) => Err(e),
    }
}

impl<'top> ExpandedStructIterator<'top> {
    /// Produces the next expanded field: the fields of the source in order,
    /// with the fields that macros produce substituted in place.
    #[verifier::rlimit(60)]
    pub fn next_field(&mut self) -> (r: Option<IonResult<LazyExpandedField>>)
        requires
            old(self).wf(),
        ensures
            r matches Some(Err(e)) ==> e is Decoding,
            final(self).wf(),
            final(self).context == old(self).context,
            final(self).depth == old(self).depth,
            ({
                let s = old(self).rest();
                match r {
                    Some(Ok(f)) => s.fields.len() > 0 && s.fields[0] == f@
                        && final(self).rest() == (FieldStream { fields: s.fields.drop_first(), error: s.error }),
                    None => s == fempty() && final(self).rest() == fempty(),
                    Some(Err(_)) => s.fields.len() == 0 && s.error,
                }
            }),
            // ExpandingValueExpr only while the evaluator has frames;
            // ReadingFieldFromSource (by `wf`) only when it has none.
            final(self).state is ExpandingValueExpr ==> final(self).evaluator.stack@.len() > 0,
            // A macro in value position that has values left emits the next
            // one under its field name, and stays in ExpandingValueExpr
            // while its evaluator has frames.
            old(self).state is ExpandingValueExpr && old(self).evaluator.rest(old(self).context).values.len() > 0 ==> {
                &&& (r matches Some(Ok(f)) && f.name@ == old(self).state->ExpandingValueExpr_0@)
                &&& (final(self).state is ExpandingValueExpr || final(self).state is ReadingFieldFromSource)
                &&& final(self).state is ExpandingValueExpr ==> final(self).state->ExpandingValueExpr_0@ == old(self).state->ExpandingValueExpr_0@
            },
            // While the struct being inlined, or a further struct from the
            // same macro, has fields, the iterator emits one and stays in
            // InliningAStruct.
            old(self).state is InliningAStruct && old(self).inlining_rest().fields.len() > 0 ==>
                (r matches Some(Ok(_)) && final(self).state is InliningAStruct),
            // An ordinary field, or a macro in value position evaluated in
            // place, is emitted directly: the iterator goes on reading from
            // its source and its evaluator is untouched.
            // A macro in field-name position whose structs have fields starts
            // inlining them: the first field is emitted in InliningAStruct.
            old(self).state is ReadingFieldFromSource && old(self).eexp_head_has_fields() ==>
                (r matches Some(Ok(_)) && final(self).state is InliningAStruct),
            old(self).state is ReadingFieldFromSource && old(self).source.direct_head(old(self).context) ==> {
                &&& r is Some
                &&& final(self).state is ReadingFieldFromSource
                &&& final(self).evaluator == old(self).evaluator
            },
        decreases MAX_DEPTH - old(self).depth,
    {
        let ghost s0 = self.rest();
        let ctx = self.context;
        let depth = self.depth;
        let ghost expanding_old = old(self).state is ExpandingValueExpr && old(self).evaluator.rest(ctx).values.len() > 0;
        let ghost inlining_old = old(self).state is InliningAStruct && old(self).inlining_rest().fields.len() > 0;
        let ghost reading_old = old(self).state is ReadingFieldFromSource && old(self).source.direct_head(ctx);
        let ghost eexp_old = old(self).state is ReadingFieldFromSource && old(self).eexp_head_has_fields();
        let ghost mut inl = inlining_old;
        loop
            invariant
                self.wf(),
                self.rest() == s0,
                s0 == old(self).rest(),
                self.context == ctx,
                ctx == old(self).context,
                self.depth == depth,
                depth == old(self).depth,
                expanding_old == (old(self).state is ExpandingValueExpr && old(self).evaluator.rest(ctx).values.len() > 0),
                inlining_old == (old(self).state is InliningAStruct && old(self).inlining_rest().fields.len() > 0),
                expanding_old ==> self.state == old(self).state && self.evaluator.rest(ctx) == old(self).evaluator.rest(ctx),
                inlining_old ==> inl,
                inl ==> self.state is InliningAStruct && self.inlining_rest().fields.len() > 0,
                eexp_old == (old(self).state is ReadingFieldFromSource && old(self).eexp_head_has_fields()),
                eexp_old ==> inl || (self.state is ReadingFieldFromSource && self.source == old(self).source
                    && self.evaluator == old(self).evaluator),
                reading_old == (old(self).state is ReadingFieldFromSource && old(self).source.direct_head(ctx)),
                reading_old ==> self.state is ReadingFieldFromSource && self.source == old(self).source
                    && self.evaluator == old(self).evaluator,
            decreases self.source.remaining(ctx), state_rank(self.state), self.evaluator.rest(ctx).values.len(),
        {
            let mut st = ExpandedStructIteratorState::ReadingFieldFromSource;
            std::mem::swap(&mut self.state, &mut st);
            match st {
                ExpandedStructIteratorState::ReadingFieldFromSource => {
                    let (env, tmpl) = self.source.bindings();
                    match self.source.next_field(ctx, depth) {
                        None => {
                            return None;
                        },
                        Some(FieldExpr::NameValue(name, value)) => {
                            let f = LazyExpandedField::new(name, value);
                            proof {
                                assert(s0.fields =~= seq![f@] + self.rest().fields);
                                assert(s0.fields.drop_first() =~= self.rest().fields);
                            }
                            return Some(Ok(f));
                        },
                        Some(FieldExpr::NameMacro(name, inv)) => {
                            if crate::evaluator::must_produce_exactly_one_value(ctx, inv) {
                                // Evaluated in place: no frame is pushed.
                                match crate::evaluator::expand_singleton(ctx, inv, &env, tmpl, depth) {
                                    Ok(v) => {
                                        let f = LazyExpandedField::new(name, v);
                                        proof {
                                            assert(s0.fields =~= seq![f@] + self.rest().fields);
                                            assert(s0.fields.drop_first() =~= self.rest().fields);
                                        }
                                        return Some(Ok(f));
                                    },
                                    Err(e) => {
                                        return Some(Err(e));
                                    },
                                }
                            }
                            self.evaluator.push_in(ctx, inv, &env, tmpl, depth);
                            proof {
                                crate::evaluator::lemma_cat_empty(expand(ctx, inv, env@, tmpl, depth as nat));
                            }
                            self.state = ExpandedStructIteratorState::ExpandingValueExpr(name);
                        },
                        Some(FieldExpr::EExp(inv)) => {
                            self.evaluator.push_in(ctx, inv, &env, tmpl, depth);
                            proof {
                                crate::evaluator::lemma_cat_empty(expand(ctx, inv, env@, tmpl, depth as nat));
                            }
                            match next_struct_from_macro(ctx, &mut self.evaluator, depth) {
                                Ok(None) => {
                                    proof { lemma_fcat_empty(self.source.rest(ctx, depth as nat)); }
                                },
                                Ok(Some(child)) => {
                                    let it = child.iter();
                                    let ghost rest_inline = inline_from(ctx, self.evaluator.rest(ctx), 0, depth as nat);
                                    proof {
                                        lemma_fcat_assoc(it.rest(), rest_inline, self.source.rest(ctx, depth as nat));
                                    }
                                    self.state = ExpandedStructIteratorState::InliningAStruct(Box::new(it));
                                    proof {
                                        if eexp_old {
                                            inl = true;
                                        }
                                    }
                                },
                                Err(e) => {
                                    self.evaluator = MacroEvaluator::new();
                                    return Some(Err(e));
                                },
                            }
                        },
                    }
                },
                ExpandedStructIteratorState::ExpandingValueExpr(name) => {
                    match self.evaluator.next(ctx) {
                        Ok(Some(v)) => {
                            let f = LazyExpandedField::new(name.copy(), v);
                            if !self.evaluator.is_empty() {
                                self.state = ExpandedStructIteratorState::ExpandingValueExpr(name);
                            } else {
                                proof {
                                    lemma_fcat_empty(self.source.rest(ctx, depth as nat));
                                }
                            }
                            proof {
                                let es = self.evaluator.rest(ctx);
                                assert(map_name(name@, es).fields =~= map_name(f.name@, es).fields);
                                let old_es = Stream { values: seq![f.value@] + es.values, error: es.error };
                                assert(old_es.values.drop_first() =~= es.values);
                                assert(s0.fields =~= seq![f@] + self.rest().fields);
                                assert(s0.fields.drop_first() =~= self.rest().fields);
                            }
                            return Some(Ok(f));
                        },
                        Ok(None) => {
                            proof {
                                lemma_fcat_empty(self.source.rest(ctx, depth as nat));
                            }
                        },
                        Err(e) => {
                            self.evaluator = MacroEvaluator::new();
                            return Some(Err(e));
                        },
                    }
                },
                ExpandedStructIteratorState::InliningAStruct(mut child) => {
                    assert(child.wf());
                    assert(child.depth == depth + 1);
                    assert(child.depth <= MAX_DEPTH);
                    match child.next_field() {
                        Some(Ok(f)) => {
                            self.state = ExpandedStructIteratorState::InliningAStruct(child);
                            proof {
                                assert(s0.fields =~= seq![f@] + self.rest().fields);
                                assert(s0.fields.drop_first() =~= self.rest().fields);
                            }
                            return Some(Ok(f));
                        },
                        Some(Err(e)) => {
                            self.evaluator = MacroEvaluator::new();
                            return Some(Err(e));
                        },
                        None => {
                            proof {
                                lemma_fcat_empty(fcat(inline_from(ctx, self.evaluator.rest(ctx), 0, depth as nat), self.source.rest(ctx, depth as nat)));
                            }
                            match next_struct_from_macro(ctx, &mut self.evaluator, depth) {
                                Ok(None) => {
                                    proof { lemma_fcat_empty(self.source.rest(ctx, depth as nat)); }
                                },
                                Ok(Some(next_struct)) => {
                                    let it = next_struct.iter();
                                    let ghost rest_inline = inline_from(ctx, self.evaluator.rest(ctx), 0, depth as nat);
                                    proof {
                                        lemma_fcat_assoc(it.rest(), rest_inline, self.source.rest(ctx, depth as nat));
                                    }
                                    self.state = ExpandedStructIteratorState::InliningAStruct(Box::new(it));
                                },
                                Err(e) => {
                                    self.evaluator = MacroEvaluator::new();
                                    return Some(Err(e));
                                },
                            }
                        },
                    }
                },
            }
        }
    }
}


/// The text of a field name; `None` when it cannot be resolved.
pub open spec fn name_text(ctx: &EncodingContext, n: NameView) -> Option<Seq<char>> {
    match n {
        NameView::Raw(s) => spec_symbol_text_view(ctx, s),
        NameView::Template(_, text) => Some(text),
        NameView::Made(e) => if e < ctx.exprs@.len() && ctx.exprs@[e as int] is Scalar {
            match ctx.exprs@[e as int]->Scalar_0 {
                crate::value::Scalar::Symbol(sym) => spec_symbol_text(ctx.symbols@, sym),
                crate::value::Scalar::String(t) => Some(t@),
                _ => None,
            }
        } else {
            None
        },
    }
}

pub open spec fn spec_symbol_text_view(ctx: &EncodingContext, s: RawSymbolView) -> Option<Seq<char>> {
    match s {
        RawSymbolView::SymbolId(i) => if i < ctx.symbols@.len() { Some(ctx.symbols@[i as int]@) } else { None },
        RawSymbolView::Text(t) => Some(t),
    }
}

/// The value of the first field of `s` named `name`: `Some(None)` when no
/// field has that name, `None` when an error comes first.
pub open spec fn find_in(ctx: &EncodingContext, s: FieldStream, name: Seq<char>) -> Option<Option<ValueView>>
    decreases s.fields.len(),
{
    if s.fields.len() == 0 {
        if s.error { None } else { Some(None) }
    } else {
        match name_text(ctx, s.fields[0].name) {
            None => None,
            Some(t) => if t == name {
                Some(Some(s.fields[0].value))
            } else {
                find_in(ctx, FieldStream { fields: s.fields.drop_first(), error: s.error }, name)
            },
        }
    }
}

/// The field index that template `t` holds for its struct literal `e`, if any.
pub open spec fn has_index(ctx: &EncodingContext, t: usize, e: usize) -> bool {
    t < ctx.macros.templates@.len() && exists|q: int| 0 <= q < ctx.macros.templates@[t as int].struct_indexes@.len()
        && (#[trigger] ctx.macros.templates@[t as int].struct_indexes@[q]).struct_expr == e
}

/// What an indexed lookup finds: the first value of the first field named
/// `name`, which is evaluated just far enough to give one value.
pub open spec fn find_indexed(ctx: &EncodingContext, t: usize, e: usize, env: EnvView, name: Seq<char>, depth: nat) -> Option<Option<ValueView>> {
    let raw = struct_fields_of(ctx, e);
    let ps = matching_upto(ctx.symbols@, raw, name, raw.len());
    if ps.len() == 0 {
        Some(None)
    } else {
        let v = raw[ps[0] as int]->NameValue_1;
        if v < ctx.exprs@.len() && ctx.exprs@[v as int].is_value_literal() {
            Some(Some(ValueView::TemplateLiteral(t, v, env)))
        } else {
            let s = expand(ctx, v, env, Some(t), depth);
            if s.values.len() > 0 { Some(Some(s.values[0])) } else if s.error { None } else { Some(None) }
        }
    }
}

impl LazyExpandedFieldName {
    /// The text of the name; an unknown symbol ID is a decoding error.
    pub fn read(&self, ctx: &EncodingContext) -> (r: IonResult<String>)
        ensures
            self is TemplateName ==> r is Ok && r->Ok_0@ == self->TemplateName_1@,
            r matches Err(e) ==> e is Decoding,
            match name_text(ctx, self@) {
                Some(t) => r is Ok && r->Ok_0@ == t,
                None => r is Err,
            },
    {
        match self {
            LazyExpandedFieldName::RawName(s) => ctx.resolve_symbol(s),
            LazyExpandedFieldName::TemplateName(_, s) => Ok(s.clone()),
            LazyExpandedFieldName::MakeField(e) => {
                if *e < ctx.exprs.len() {
                    match &ctx.exprs[*e] {
                        Expr::Scalar(crate::value::Scalar::Symbol(sym)) => ctx.resolve_symbol(sym),
                        Expr::Scalar(crate::value::Scalar::String(t)) => Ok(t.clone()),
                        _ => Err(IonError::Decoding("a field name must be text".to_string())),
                    }
                } else {
                    Err(IonError::Decoding("expression is not in the arena".to_string()))
                }
            },
        }
    }
}

impl FieldExpr {
    /// Whether the field expression has a name with this text; a macro in
    /// field-name position has none.
    pub fn name_is(&self, ctx: &EncodingContext, text: &str) -> (r: IonResult<bool>)
        ensures
            self is EExp ==> r == Ok::<bool, IonError>(false),
            self is NameValue ==> match name_text(ctx, self->NameValue_0@) {
                Some(t) => r == Ok::<bool, IonError>(t == text@),
                None => r is Err,
            },
            self is NameMacro ==> match name_text(ctx, self->NameMacro_0@) {
                Some(t) => r == Ok::<bool, IonError>(t == text@),
                None => r is Err,
            },
    {
        let name = match self.name() {
            Some(n) => n,
            None => { return Ok(false); },
        };
        let key = text.to_owned();
        match name.read(ctx) {
            Ok(t) => Ok(t == key),
            Err(e) => Err(e),
        }
    }
}

impl<'top> LazyExpandedStruct<'top> {
    pub fn from_literal(context: &'top EncodingContext, e: usize) -> (r: Self)
        ensures
            r.context == context,
            r.source == ExpandedStructSource::ValueLiteral(e),
            r.depth == 0,
    {
        LazyExpandedStruct { context, source: ExpandedStructSource::ValueLiteral(e), depth: 0 }
    }

    /// The struct literal `e` of the body of template `template`, whose
    /// parameters are bound to `environment`.
    pub fn from_template(context: &'top EncodingContext, template: usize, e: usize, environment: Environment) -> (r: Self)
        ensures
            r.context == context,
            r.source@ == SourceView::Template(template, e, environment@),
            r.depth == 0,
    {
        LazyExpandedStruct { context, source: ExpandedStructSource::Template(template, e, environment), depth: 0 }
    }

    pub fn from_make_struct(context: &'top EncodingContext, arguments: Vec<usize>) -> (r: Self)
        ensures
            r.context == context,
            r.source@ == SourceView::Make(arguments@, empty_env(), None),
            r.depth == 0,
            r.wf(),
    {
        LazyExpandedStruct { context, source: ExpandedStructSource::MakeStruct(arguments, Environment::empty(), None), depth: 0 }
    }

    pub fn from_make_field(context: &'top EncodingContext, name: usize, value: usize) -> (r: Self)
        ensures
            r.context == context,
            r.source@ == SourceView::Field(name, value, empty_env(), None),
            r.depth == 0,
            r.wf(),
    {
        LazyExpandedStruct { context, source: ExpandedStructSource::MakeField(name, value, Environment::empty(), None), depth: 0 }
    }

    pub fn context(&self) -> (r: &'top EncodingContext)
        ensures
            r == self.context,
    {
        self.context
    }

    pub fn source(&self) -> (r: &ExpandedStructSource)
        ensures
            r == &self.source,
    {
        &self.source
    }

    /// An iterator over the struct's expanded fields, on the heap.
    pub fn bump_iter(&self) -> (r: Box<ExpandedStructIterator<'top>>)
        requires
            self.wf(),
        ensures
            r.wf(),
            r.context == self.context,
            r.rest() == self.fields(),
    {
        Box::new(self.iter())
    }

    /// The value of the first field named `name`, by a scan of the expanded fields.
    fn find_linear(&self, name: &str) -> (r: IonResult<Option<LazyExpandedValue>>)
        requires
            self.wf(),
        ensures
            r matches Err(e) ==> e is Decoding,
            match find_in(self.context, self.fields(), name@) {
                None => r is Err,
                Some(None) => r matches Ok(None),
                Some(Some(v)) => r matches Ok(Some(x)) && x@ == v,
            },
    {
        let key = name.to_owned();
        let mut it = self.iter();
        let ctx = self.context;
        loop
            invariant
                it.wf(),
                it.context == ctx,
                ctx == self.context,
                key@ == name@,
                find_in(ctx, self.fields(), name@) == find_in(ctx, it.rest(), name@),
            decreases it.rest().fields.len(),
        {
            match it.next_field() {
                None => { return Ok(None); },
                Some(Err(e)) => { return Err(e); },
                Some(Ok(f)) => {
                    match f.name.read(ctx) {
                        Err(e) => { return Err(e); },
                        Ok(t) => {
                            if t == key {
                                return Ok(Some(f.value));
                            }
                        },
                    }
                },
            }
        }
    }

    /// What [`Self::find`] gives: `None` for an error, `Some(None)` when no
    /// field has the name.
    pub open spec fn find_spec(&self, name: Seq<char>) -> Option<Option<ValueView>> {
        match self.source {
            ExpandedStructSource::Template(t, e, env) => find_indexed(self.context, t, e, env@, name, self.depth as nat),
            _ => find_in(self.context, self.fields(), name),
        }
    }

    /// The value of the first field named `name`. A struct of a template body
    /// is looked up in its field index (the one compiled with the template,
    /// or one built now for a struct that has none), and only the first
    /// candidate is evaluated; any other struct is scanned in field order.
    pub fn find(&self, name: &str) -> (r: IonResult<Option<LazyExpandedValue>>)
        requires
            self.wf(),
            self.context.wf(),
        ensures
            r matches Err(e) ==> e is Decoding,
            match self.find_spec(name@) {
                None => r is Err,
                Some(None) => r matches Ok(None),
                Some(Some(v)) => r matches Ok(Some(x)) && x@ == v,
            },
    {
        let ctx = self.context;
        match &self.source {
            ExpandedStructSource::Template(t, e, env) => {
                let t = *t;
                let e = *e;
                match find_index(ctx, t, e) {
                    Some(ix) => self.find_with_index(t, e, env, ix, name),
                    None => {
                        let fields = match &ctx.exprs[e] {
                            Expr::Struct(fields) => fields,
                            _ => { return Ok(None); },
                        };
                        let ix = ctx.build_struct_index(e, fields);
                        self.find_with_index(t, e, env, &ix, name)
                    },
                }
            },
            _ => self.find_linear(name),
        }
    }

    /// The first candidate of field index `ix` for `name`, evaluated just far
    /// enough to give one value.
    fn find_with_index(&self, t: usize, e: usize, env: &Environment, ix: &TemplateStructIndex, name: &str)
        -> (r: IonResult<Option<LazyExpandedValue>>)
        requires
            self.wf(),
            self.context.index_exact(*ix),
            ix.struct_expr == e,
        ensures
            r matches Err(e) ==> e is Decoding,
            match find_indexed(self.context, t, e, env@, name@, self.depth as nat) {
                None => r is Err,
                Some(None) => r matches Ok(None),
                Some(Some(v)) => r matches Ok(Some(x)) && x@ == v,
            },
    {
        let ctx = self.context;
        let key = name.to_owned();
        let ghost raw = struct_fields_of(ctx, e);
        let fields = match &ctx.exprs[e] {
            Expr::Struct(fields) => fields,
            _ => { return Ok(None); },
        };
        let _n = fields.len();
        assert(fields@ == raw);
        proof {
            lemma_matching_upto(ctx.symbols@, raw, name@, raw.len());
        }
        match ix.get(&key) {
            None => {
                proof {
                    let ps = matching_upto(ctx.symbols@, raw, name@, raw.len());
                    if ps.len() > 0 {
                        assert(field_has_name(ctx.symbols@, raw[ps[0] as int], name@));
                    }
                }
                Ok(None)
            },
            Some(ps) => {
                let p = ps[0];
                assert(field_has_name(ctx.symbols@, raw[p as int], name@));
                match &fields[p] {
                    RawFieldExpr::NameValue(_, v) => {
                        let v = *v;
                        if v < ctx.exprs.len() && ctx.exprs[v].is_literal() {
                            return Ok(Some(LazyExpandedValue::TemplateLiteral(t, v, env.copy())));
                        }
                        let mut evaluator = MacroEvaluator::new();
                        evaluator.push_in(ctx, v, env, Some(t), self.depth);
                        proof {
                            crate::evaluator::lemma_cat_empty(expand(ctx, v, env@, Some(t), self.depth as nat));
                        }
                        evaluator.next(ctx)
                    },
                    _ => Ok(None),
                }
            },
        }
    }

    /// The resolved value of the first field named `name`.
    pub fn get(&self, name: &str) -> (r: IonResult<Option<ExpandedValueRef<'top>>>)
        requires
            self.wf(),
            self.context.wf(),
        ensures
            r matches Err(e) ==> e is Decoding,
            match self.find_spec(name@) {
                None => r is Err,
                Some(None) => r matches Ok(None),
                Some(Some(v)) => match read_value(self.context, v) {
                    Some(x) => r matches Ok(Some(y)) && y.view_ref() == x,
                    None => r is Err,
                },
            },
    {
        match self.find(name) {
            Ok(Some(v)) => match v.read(self.context) {
                Ok(x) => Ok(Some(x)),
                Err(e) => Err(e),
            },
            Ok(None) => Ok(None),
            Err(e) => Err(e),
        }
    }

    /// The resolved value of the first field named `name`; a missing field is a decoding error.
    pub fn get_expected(&self, name: &str) -> (r: IonResult<ExpandedValueRef<'top>>)
        requires
            self.wf(),
            self.context.wf(),
        ensures
            r matches Err(e) ==> e is Decoding,
            self.find_spec(name@) == Some(Option::<ValueView>::None) ==> r matches Err(IonError::Decoding(_)),
            match self.find_spec(name@) {
                Some(Some(v)) => match read_value(self.context, v) {
                    Some(x) => r matches Ok(y) && y.view_ref() == x,
                    None => r is Err,
                },
                _ => r is Err,
            },
    {
        match self.get(name) {
            Ok(Some(x)) => Ok(x),
            Ok(None) => Err(IonError::Decoding("did not find expected struct field".to_string())),
            Err(e) => Err(e),
        }
    }
}

/// The field index that template `t` holds for struct literal `e`.
fn find_index(ctx: &EncodingContext, t: usize, e: usize) -> (r: Option<&TemplateStructIndex>)
    requires
        ctx.wf(),
    ensures
        r is Some <==> has_index(ctx, t, e),
        r matches Some(ix) ==> ix.struct_expr == e && ctx.index_wf(*ix),
{
    if t >= ctx.macros.templates.len() {
        return None;
    }
    let template = &ctx.macros.templates[t];
    let mut q: usize = 0;
    while q < template.struct_indexes.len()
        invariant
            0 <= q <= template.struct_indexes@.len(),
            t < ctx.macros.templates@.len(),
            ctx.wf(),
            template == &ctx.macros.templates@[t as int],
            forall|j: int| 0 <= j < q ==> (#[trigger] template.struct_indexes@[j]).struct_expr != e,
        decreases template.struct_indexes@.len() - q,
    {
        if template.struct_indexes[q].struct_expr == e {
            assert(ctx.macros.templates@[t as int].struct_indexes@[q as int].struct_expr == e);
            assert(ctx.index_wf(ctx.macros.templates@[t as int].struct_indexes@[q as int]));
            return Some(&template.struct_indexes[q]);
        }
        q += 1;
    }
    None
}

} // verus!
