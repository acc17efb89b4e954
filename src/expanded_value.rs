//! Resolving an expanded value into a scalar or a container handle.
use vstd::prelude::*;
use crate::context::{EncodingContext, IonError, IonResult, spec_symbol_text};
use crate::evaluator::{
    LazyExpandedValue, MacroEvaluator, Frame, Stream, ValueView, expand_from, MAX_DEPTH, cat,
    empty_stream, stack_rest, sequence_children, copy_indices, EnvView, Environment, empty_env,
};
use crate::expanded_struct::{ExpandedStructSource, LazyExpandedStruct, SourceView};
use crate::value::{Expr, IonType, RawSymbol, Scalar, Timestamp};
use crate::evaluator::is_literal_expr;

verus! {

/// A list or s-expression whose elements are expanded lazily.
pub struct LazyExpandedSequence<'top> {
    pub context: &'top EncodingContext,
    /// The list or s-expression literal.
    pub expr: usize,
    /// The template whose body holds the literal, if any.
    pub tmpl: Option<usize>,
    /// The arguments that the template's parameters are bound to.
    pub env: Environment,
    pub depth: usize,
}

/// A resolved value: a scalar, borrowed from the arena where it is text or
/// bytes, or a container handle.
pub enum ExpandedValueRef<'top> {
    Null(IonType),
    Bool(bool),
    Int(i128),
    Decimal(i128, i64),
    Timestamp(Timestamp),
    String(&'top str),
    Symbol(&'top str),
    Blob(&'top [u8]),
    Clob(&'top [u8]),
    List(LazyExpandedSequence<'top>),
    SExp(LazyExpandedSequence<'top>),
    Struct(LazyExpandedStruct<'top>),
}

/// The mathematical value of an [`ExpandedValueRef`].
pub enum RefView {
    Null(IonType),
    Bool(bool),
    Int(i128),
    Decimal(i128, i64),
    Timestamp(Timestamp),
    String(Seq<char>),
    Symbol(Seq<char>),
    Blob(Seq<u8>),
    Clob(Seq<u8>),
    List(usize, Option<usize>, EnvView),
    SExp(usize, Option<usize>, EnvView),
    Struct(SourceView),
}

/// The type of a resolved value.
pub open spec fn ref_ion_type(r: RefView) -> IonType {
    match r {
        RefView::Null(t) => t,
        RefView::Bool(_) => IonType::Bool,
        RefView::Int(_) => IonType::Int,
        RefView::Decimal(_, _) => IonType::Decimal,
        RefView::Timestamp(_) => IonType::Timestamp,
        RefView::String(_) => IonType::String,
        RefView::Symbol(_) => IonType::Symbol,
        RefView::Blob(_) => IonType::Blob,
        RefView::Clob(_) => IonType::Clob,
        RefView::List(_, _, _) => IonType::List,
        RefView::SExp(_, _, _) => IonType::SExp,
        RefView::Struct(_) => IonType::Struct,
    }
}

impl<'top> ExpandedValueRef<'top> {
    pub open spec fn view_ref(&self) -> RefView {
        match self {
            ExpandedValueRef::Null(t) => RefView::Null(*t),
            ExpandedValueRef::Bool(b) => RefView::Bool(*b),
            ExpandedValueRef::Int(i) => RefView::Int(*i),
            ExpandedValueRef::Decimal(c, x) => RefView::Decimal(*c, *x),
            ExpandedValueRef::Timestamp(t) => RefView::Timestamp(*t),
            ExpandedValueRef::String(s) => RefView::String(s@),
            ExpandedValueRef::Symbol(s) => RefView::Symbol(s@),
            ExpandedValueRef::Blob(b) => RefView::Blob(b@),
            ExpandedValueRef::Clob(b) => RefView::Clob(b@),
            ExpandedValueRef::List(l) => RefView::List(l.expr, l.tmpl, l.env@),
            ExpandedValueRef::SExp(l) => RefView::SExp(l.expr, l.tmpl, l.env@),
            ExpandedValueRef::Struct(s) => RefView::Struct(s.source@),
        }
    }

    /// The boolean, if the value is one; any other value is a decoding error.
    pub fn expect_bool(self) -> (r: IonResult<bool>)
        ensures
            self is Bool <==> r is Ok,
            self is Bool ==> r == Ok::<bool, IonError>(self->Bool_0),
    {
        match self {
            ExpandedValueRef::Bool(x) => Ok(x),
            _ => Err(IonError::Decoding("expected a bool".to_string())),
        }
    }

    /// The integer, if the value is one; any other value is a decoding error.
    pub fn expect_int(self) -> (r: IonResult<i128>)
        ensures
            self is Int <==> r is Ok,
            self is Int ==> r == Ok::<i128, IonError>(self->Int_0),
    {
        match self {
            ExpandedValueRef::Int(x) => Ok(x),
            _ => Err(IonError::Decoding("expected an int".to_string())),
        }
    }

    /// The text of a string value; any other value is a decoding error.
    pub fn expect_string(self) -> (r: IonResult<&'top str>)
        ensures
            self is String <==> r is Ok,
            self is String ==> r == Ok::<&'top str, IonError>(self->String_0),
    {
        match self {
            ExpandedValueRef::String(x) => Ok(x),
            _ => Err(IonError::Decoding("expected a string".to_string())),
        }
    }

    /// The text of a symbol value; any other value is a decoding error.
    pub fn expect_symbol(self) -> (r: IonResult<&'top str>)
        ensures
            self is Symbol <==> r is Ok,
            self is Symbol ==> r == Ok::<&'top str, IonError>(self->Symbol_0),
    {
        match self {
            ExpandedValueRef::Symbol(x) => Ok(x),
            _ => Err(IonError::Decoding("expected a symbol".to_string())),
        }
    }

    /// The bytes of a blob; any other value is a decoding error.
    pub fn expect_blob(self) -> (r: IonResult<&'top [u8]>)
        ensures
            self is Blob <==> r is Ok,
            self is Blob ==> r == Ok::<&'top [u8], IonError>(self->Blob_0),
    {
        match self {
            ExpandedValueRef::Blob(x) => Ok(x),
            _ => Err(IonError::Decoding("expected a blob".to_string())),
        }
    }

    /// The bytes of a clob; any other value is a decoding error.
    pub fn expect_clob(self) -> (r: IonResult<&'top [u8]>)
        ensures
            self is Clob <==> r is Ok,
            self is Clob ==> r == Ok::<&'top [u8], IonError>(self->Clob_0),
    {
        match self {
            ExpandedValueRef::Clob(x) => Ok(x),
            _ => Err(IonError::Decoding("expected a clob".to_string())),
        }
    }

    /// The list handle, if the value is a list; any other value is a decoding error.
    pub fn expect_list(self) -> (r: IonResult<LazyExpandedSequence<'top>>)
        ensures
            self is List <==> r is Ok,
            self is List ==> r == Ok::<LazyExpandedSequence<'top>, IonError>(self->List_0),
    {
        match self {
            ExpandedValueRef::List(x) => Ok(x),
            _ => Err(IonError::Decoding("expected a list".to_string())),
        }
    }

    /// The s-expression handle, if the value is one; any other value is a decoding error.
    pub fn expect_sexp(self) -> (r: IonResult<LazyExpandedSequence<'top>>)
        ensures
            self is SExp <==> r is Ok,
            self is SExp ==> r == Ok::<LazyExpandedSequence<'top>, IonError>(self->SExp_0),
    {
        match self {
            ExpandedValueRef::SExp(x) => Ok(x),
            _ => Err(IonError::Decoding("expected an s-expression".to_string())),
        }
    }

    /// The struct handle, if the value is a struct; any other value is a decoding error.
    pub fn expect_struct(self) -> (r: IonResult<LazyExpandedStruct<'top>>)
        ensures
            self is Struct <==> r is Ok,
            self is Struct ==> r == Ok::<LazyExpandedStruct<'top>, IonError>(self->Struct_0),
    {
        match self {
            ExpandedValueRef::Struct(x) => Ok(x),
            _ => Err(IonError::Decoding("expected a struct".to_string())),
        }
    }

    /// The type of a null value; any other value is a decoding error.
    pub fn expect_null(self) -> (r: IonResult<IonType>)
        ensures
            self is Null <==> r is Ok,
            self is Null ==> r == Ok::<IonType, IonError>(self->Null_0),
    {
        match self {
            ExpandedValueRef::Null(t) => Ok(t),
            _ => Err(IonError::Decoding("expected a null".to_string())),
        }
    }

    /// The integer, if the value is one that fits in an `i64`; any other
    /// value is a decoding error.
    pub fn expect_i64(self) -> (r: IonResult<i64>)
        ensures
            (self is Int && i64::MIN <= self->Int_0 <= i64::MAX) <==> r is Ok,
            r is Ok ==> r->Ok_0 == self->Int_0,
            r matches Err(e) ==> e is Decoding,
    {
        match self {
            ExpandedValueRef::Int(x) => {
                if i64::MIN as i128 <= x && x <= i64::MAX as i128 {
                    Ok(x as i64)
                } else {
                    Err(IonError::Decoding("the integer does not fit in an i64".to_string()))
                }
            },
            _ => Err(IonError::Decoding("expected an int".to_string())),
        }
    }

    /// The calendar fields of a timestamp; any other value is a decoding error.
    pub fn expect_timestamp(self) -> (r: IonResult<Timestamp>)
        ensures
            self is Timestamp <==> r is Ok,
            self is Timestamp ==> r->Ok_0 == self->Timestamp_0,
            r matches Err(e) ==> e is Decoding,
    {
        match self {
            ExpandedValueRef::Timestamp(t) => Ok(t),
            _ => Err(IonError::Decoding("expected a timestamp".to_string())),
        }
    }

    /// The coefficient and exponent of a decimal; any other value is a decoding error.
    pub fn expect_decimal(self) -> (r: IonResult<(i128, i64)>)
        ensures
            self is Decimal <==> r is Ok,
            self is Decimal ==> r == Ok::<(i128, i64), IonError>((self->Decimal_0, self->Decimal_1)),
    {
        match self {
            ExpandedValueRef::Decimal(c, x) => Ok((c, x)),
            _ => Err(IonError::Decoding("expected a decimal".to_string())),
        }
    }

    /// The text of a string or symbol; any other value is a decoding error.
    pub fn expect_text(self) -> (r: IonResult<&'top str>)
        ensures
            (self is String || self is Symbol) <==> r is Ok,
            self is String ==> r == Ok::<&'top str, IonError>(self->String_0),
            self is Symbol ==> r == Ok::<&'top str, IonError>(self->Symbol_0),
    {
        match self {
            ExpandedValueRef::String(t) => Ok(t),
            ExpandedValueRef::Symbol(t) => Ok(t),
            _ => Err(IonError::Decoding("expected text".to_string())),
        }
    }

    /// The bytes of a blob or clob; any other value is a decoding error.
    pub fn expect_lob(self) -> (r: IonResult<&'top [u8]>)
        ensures
            (self is Blob || self is Clob) <==> r is Ok,
            self is Blob ==> r == Ok::<&'top [u8], IonError>(self->Blob_0),
            self is Clob ==> r == Ok::<&'top [u8], IonError>(self->Clob_0),
    {
        match self {
            ExpandedValueRef::Blob(b) => Ok(b),
            ExpandedValueRef::Clob(b) => Ok(b),
            _ => Err(IonError::Decoding("expected a blob or a clob".to_string())),
        }
    }

    /// The type of the resolved value.
    pub fn ion_type(&self) -> (r: IonType)
        ensures
            r == ref_ion_type(self.view_ref()),
    {
        match self {
            ExpandedValueRef::Null(t) => *t,
            ExpandedValueRef::Bool(_) => IonType::Bool,
            ExpandedValueRef::Int(_) => IonType::Int,
            ExpandedValueRef::Decimal(_, _) => IonType::Decimal,
            ExpandedValueRef::Timestamp(_) => IonType::Timestamp,
            ExpandedValueRef::String(_) => IonType::String,
            ExpandedValueRef::Symbol(_) => IonType::Symbol,
            ExpandedValueRef::Blob(_) => IonType::Blob,
            ExpandedValueRef::Clob(_) => IonType::Clob,
            ExpandedValueRef::List(_) => IonType::List,
            ExpandedValueRef::SExp(_) => IonType::SExp,
            ExpandedValueRef::Struct(_) => IonType::Struct,
        }
    }
}

/// What reading literal `e` gives; `None` when it cannot be read.
pub open spec fn read_literal(ctx: &EncodingContext, e: usize, tmpl: Option<usize>, env: EnvView) -> Option<RefView> {
    if e >= ctx.exprs@.len() {
        None
    } else {
        match ctx.exprs@[e as int] {
            Expr::Scalar(s) => match s {
                Scalar::Null(t) => Some(RefView::Null(t)),
                Scalar::Bool(b) => Some(RefView::Bool(b)),
                Scalar::Int(i) => Some(RefView::Int(i)),
                Scalar::Decimal(c, x) => Some(RefView::Decimal(c, x)),
                Scalar::Timestamp(t) => Some(RefView::Timestamp(t)),
                Scalar::String(t) => Some(RefView::String(t@)),
                Scalar::Symbol(sym) => match spec_symbol_text(ctx.symbols@, sym) {
                    Some(t) => Some(RefView::Symbol(t)),
                    None => None,
                },
                Scalar::Blob(b) => Some(RefView::Blob(b@)),
                Scalar::Clob(b) => Some(RefView::Clob(b@)),
            },
            Expr::List(_) => Some(RefView::List(e, tmpl, env)),
            Expr::SExp(_) => Some(RefView::SExp(e, tmpl, env)),
            Expr::Struct(_) => Some(match tmpl {
                Some(t) => RefView::Struct(SourceView::Template(t, e, env)),
                None => RefView::Struct(SourceView::Literal(e)),
            }),
            _ => None,
        }
    }
}

/// What reading expanded value `v` gives; `None` when it cannot be read.
pub open spec fn read_value(ctx: &EncodingContext, v: ValueView) -> Option<RefView> {
    match v {
        ValueView::Literal(e) => read_literal(ctx, e, None, empty_env()),
        ValueView::TemplateLiteral(t, e, env) => read_literal(ctx, e, Some(t), env),
        ValueView::MakeStruct(args, env, tmpl) => Some(RefView::Struct(SourceView::Make(args, env, tmpl))),
        ValueView::MakeField(n, x, env, tmpl) => Some(RefView::Struct(SourceView::Field(n, x, env, tmpl))),
        ValueView::Annotated(_, e, env, tmpl) => read_literal(ctx, e, tmpl, env),
    }
}

/// The text of a symbol, borrowed from the symbol table or from the arena.
pub fn symbol_text<'top>(ctx: &'top EncodingContext, sym: &'top RawSymbol) -> (r: IonResult<&'top str>)
    ensures
        r matches Err(e) ==> e is Decoding,
        match spec_symbol_text(ctx.symbols@, *sym) {
            Some(t) => r is Ok && r->Ok_0@ == t,
            None => r is Err,
        },
{
    match sym {
        RawSymbol::SymbolId(i) => {
            if *i < ctx.symbols.len() {
                Ok(ctx.symbols[*i].as_str())
            } else {
                Err(IonError::Decoding("symbol ID is not in the symbol table".to_string()))
            }
        },
        RawSymbol::Text(t) => Ok(t.as_str()),
    }
}

fn read_literal_expr<'top>(ctx: &'top EncodingContext, e: usize, tmpl: Option<usize>, env: &Environment) -> (r: IonResult<ExpandedValueRef<'top>>)
    ensures
        r matches Err(e) ==> e is Decoding,
        match read_literal(ctx, e, tmpl, env@) {
            Some(x) => r is Ok && r->Ok_0.view_ref() == x,
            None => r is Err,
        },
        r matches Ok(ExpandedValueRef::Struct(s)) ==> s.context == ctx && s.depth == 0 && s.wf(),
        r matches Ok(ExpandedValueRef::List(s)) ==> s.context == ctx && s.depth == 0 && s.wf(),
        r matches Ok(ExpandedValueRef::SExp(s)) ==> s.context == ctx && s.depth == 0 && s.wf(),
{
    if e >= ctx.exprs.len() {
        return Err(IonError::Decoding("expression is not in the arena".to_string()));
    }
    match &ctx.exprs[e] {
        Expr::Scalar(s) => match s {
            Scalar::Null(t) => Ok(ExpandedValueRef::Null(*t)),
            Scalar::Bool(b) => Ok(ExpandedValueRef::Bool(*b)),
            Scalar::Int(i) => Ok(ExpandedValueRef::Int(*i)),
            Scalar::Decimal(c, x) => Ok(ExpandedValueRef::Decimal(*c, *x)),
            Scalar::Timestamp(t) => Ok(ExpandedValueRef::Timestamp(*t)),
            Scalar::String(t) => Ok(ExpandedValueRef::String(t.as_str())),
            Scalar::Symbol(sym) => match symbol_text(ctx, sym) {
                Ok(t) => Ok(ExpandedValueRef::Symbol(t)),
                Err(err) => Err(err),
            },
            Scalar::Blob(b) => Ok(ExpandedValueRef::Blob(b.as_slice())),
            Scalar::Clob(b) => Ok(ExpandedValueRef::Clob(b.as_slice())),
        },
        Expr::List(_) => Ok(ExpandedValueRef::List(LazyExpandedSequence { context: ctx, expr: e, tmpl, env: env.copy(), depth: 0 })),
        Expr::SExp(_) => Ok(ExpandedValueRef::SExp(LazyExpandedSequence { context: ctx, expr: e, tmpl, env: env.copy(), depth: 0 })),
        Expr::Struct(_) => {
            let source = match tmpl {
                Some(t) => ExpandedStructSource::Template(t, e, env.copy()),
                None => ExpandedStructSource::ValueLiteral(e),
            };
            Ok(ExpandedValueRef::Struct(LazyExpandedStruct { context: ctx, source, depth: 0 }))
        },
        _ => Err(IonError::Decoding("expected a value literal".to_string())),
    }
}

impl LazyExpandedValue {
    /// Resolves the value: a scalar, borrowed from the arena where it is text
    /// or bytes, or a container handle. Reading takes shared references only,
    /// so reading the same value twice gives equal results.
    pub fn read<'top>(&self, ctx: &'top EncodingContext) -> (r: IonResult<ExpandedValueRef<'top>>)
        ensures
            self matches LazyExpandedValue::TemplateLiteral(t, e, _) ==> (ctx.wf() && t < ctx.macros.templates@.len()
                && ctx.macros.templates@[t as int].exprs@.contains(*e) && is_literal_expr(ctx, *e) ==> r is Ok),
            r matches Err(e) ==> e is Decoding,
            match read_value(ctx, self@) {
                Some(x) => r is Ok && r->Ok_0.view_ref() == x,
                None => r is Err,
            },
            r matches Ok(ExpandedValueRef::Struct(s)) ==> s.context == ctx && s.depth == 0 && s.wf(),
            r matches Ok(ExpandedValueRef::List(s)) ==> s.context == ctx && s.depth == 0 && s.wf(),
            r matches Ok(ExpandedValueRef::SExp(s)) ==> s.context == ctx && s.depth == 0 && s.wf(),
    {
        match self {
            LazyExpandedValue::Literal(e) => read_literal_expr(ctx, *e, None, &Environment::empty()),
            LazyExpandedValue::TemplateLiteral(t, e, env) => {
                proof {
                    if ctx.wf() && *t < ctx.macros.templates@.len() && ctx.macros.templates@[*t as int].exprs@.contains(*e) {
                        let j = choose|j: int| 0 <= j < ctx.macros.templates@[*t as int].exprs@.len()
                            && ctx.macros.templates@[*t as int].exprs@[j] == *e;
                        assert(crate::context::symbols_resolve(ctx, ctx.macros.templates@[*t as int].exprs@[j]));
                    }
                }
                read_literal_expr(ctx, *e, Some(*t), env)
            },
            LazyExpandedValue::MakeStruct(args, env, tmpl) => Ok(ExpandedValueRef::Struct(LazyExpandedStruct {
                context: ctx,
                source: ExpandedStructSource::MakeStruct(copy_indices(args), env.copy(), *tmpl),
                depth: 0,
            })),
            LazyExpandedValue::MakeField(n, x, env, tmpl) => Ok(ExpandedValueRef::Struct(LazyExpandedStruct {
                context: ctx,
                source: ExpandedStructSource::MakeField(*n, *x, env.copy(), *tmpl),
                depth: 0,
            })),
            LazyExpandedValue::Annotated(_, e, env, tmpl) => read_literal_expr(ctx, *e, *tmpl, env),
        }
    }

    /// The annotations that `annotate` gave the value, as text-literal expressions.
    pub fn annotations(&self) -> (r: &[usize])
        ensures
            self is Annotated ==> r@ == self->Annotated_0@,
            !(self is Annotated) ==> r@.len() == 0,
    {
        match self {
            LazyExpandedValue::Annotated(a, _, _, _) => a.as_slice(),
            _ => &[],
        }
    }
}

impl<'top> LazyExpandedSequence<'top> {
    pub open spec fn wf(&self) -> bool {
        &&& self.expr < self.context.exprs@.len()
        &&& (self.context.exprs@[self.expr as int] is List || self.context.exprs@[self.expr as int] is SExp)
        &&& self.depth <= MAX_DEPTH
    }

    /// The sequence's values after expansion.
    pub open spec fn values(&self) -> Stream {
        expand_from(self.context, sequence_children(self.context, self.expr), 0, self.env@, self.tmpl, self.depth as nat)
    }

    pub fn ion_type(&self) -> (r: IonType)
        requires
            self.wf(),
        ensures
            self.context.exprs@[self.expr as int] is List ==> r == IonType::List,
            self.context.exprs@[self.expr as int] is SExp ==> r == IonType::SExp,
    {
        match &self.context.exprs[self.expr] {
            Expr::SExp(_) => IonType::SExp,
            _ => IonType::List,
        }
    }

    /// An iterator over the sequence's expanded values: a literal element is
    /// produced as it is, a macro invocation is replaced by its expansion.
    pub fn iter(&self) -> (r: ExpandedSequenceIterator<'top>)
        requires
            self.wf(),
        ensures
            r.context == self.context,
            r.evaluator.wf(),
            r.rest() == self.values(),
    {
        let children = match &self.context.exprs[self.expr] {
            Expr::List(c) => crate::evaluator::copy_indices(c),
            Expr::SExp(c) => crate::evaluator::copy_indices(c),
            _ => Vec::new(),
        };
        assert(children@ == sequence_children(self.context, self.expr));
        let mut evaluator = MacroEvaluator::new();
        let f = Frame { exprs: children, pos: 0, env: self.env.copy(), tmpl: self.tmpl, depth: self.depth };
        evaluator.stack.push(f);
        proof {
            assert(evaluator.stack@.drop_last() =~= Seq::<Frame>::empty());
            assert(evaluator.stack@.last() == f);
            crate::evaluator::lemma_cat_empty(f.rest(self.context));
            assert(f.rest(self.context) == self.values());
            assert(stack_rest(self.context, evaluator.stack@.drop_last()) == empty_stream());
            assert(evaluator.rest(self.context) == cat(f.rest(self.context), empty_stream()));
        }
        ExpandedSequenceIterator { context: self.context, evaluator }
    }
}

/// Produces the expanded values of a list or s-expression in order.
pub struct ExpandedSequenceIterator<'top> {
    pub context: &'top EncodingContext,
    pub evaluator: MacroEvaluator,
}

impl<'top> ExpandedSequenceIterator<'top> {
    pub open spec fn rest(&self) -> Stream {
        self.evaluator.rest(self.context)
    }

    pub fn next(&mut self) -> (r: IonResult<Option<LazyExpandedValue>>)
        requires
            old(self).evaluator.wf(),
        ensures
            final(self).evaluator.wf(),
            final(self).context == old(self).context,
            ({
                let s = old(self).rest();
                match r {
                    Ok(Some(v)) => s.values.len() > 0 && s.values[0] == v@
                        && final(self).rest() == (Stream { values: s.values.drop_first(), error: s.error }),
                    Ok(None) => s == empty_stream() && final(self).rest() == empty_stream(),
                    Err(_) => s.values.len() == 0 && s.error,
                }
            }),
    {
        self.evaluator.next(self.context)
    }
}

} // verus!
