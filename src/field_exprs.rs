//! A struct iterator for tooling: it yields each unexpanded field expression
//! of the source, followed by the fields that its expansion produces.
use vstd::prelude::*;
use crate::context::{EncodingContext, IonResult};
use crate::evaluator::{expand, Stream, MAX_DEPTH, MacroEvaluator, EnvView, empty_env};
use crate::expanded_struct::{
    lemma_fcat_assoc, lemma_fcat_empty, src_fe_items, LazyExpandedFieldName,
    ExpandedStructIterator, ExpandedStructIteratorSource, ExpandedStructIteratorState, FieldExpr,
    FieldExprView, FieldStream, FieldView, LazyExpandedField, LazyExpandedStruct, ExpandedStructSource,
    args_from, fcat, fempty, inline_from, map_name, next_struct_from_macro, raw_fe, struct_fields_of,
    struct_source_of, state_rank,
};
use crate::value::RawFieldExpr;

verus! {

/// A stream of field expressions that may end in an error.
pub struct ItemStream {
    pub items: Seq<FieldExprView>,
    pub error: bool,
}

pub open spec fn iempty() -> ItemStream {
    ItemStream { items: Seq::empty(), error: false }
}

pub open spec fn ifail() -> ItemStream {
    ItemStream { items: Seq::empty(), error: true }
}

pub open spec fn isingle(x: FieldExprView) -> ItemStream {
    ItemStream { items: seq![x], error: false }
}

pub open spec fn icat(a: ItemStream, b: ItemStream) -> ItemStream {
    if a.error {
        a
    } else {
        ItemStream { items: a.items + b.items, error: b.error }
    }
}

pub proof fn lemma_icat_assoc(a: ItemStream, b: ItemStream, c: ItemStream)
    ensures
        icat(icat(a, b), c) == icat(a, icat(b, c)),
{
    if !a.error && !b.error {
        assert(a.items + b.items + c.items =~= a.items + (b.items + c.items));
    }
}

pub proof fn lemma_icat_empty(a: ItemStream)
    ensures
        icat(iempty(), a) == a,
        icat(a, iempty()) == a,
{
    assert(Seq::<FieldExprView>::empty() + a.items =~= a.items);
    assert(a.items + Seq::<FieldExprView>::empty() =~= a.items);
}

/// Expanded fields as field expressions.
pub open spec fn as_items(s: FieldStream) -> ItemStream {
    ItemStream { items: s.fields.map_values(|f: FieldView| FieldExprView::NameValue(f)), error: s.error }
}

pub proof fn lemma_as_items_fcat(a: FieldStream, b: FieldStream)
    ensures
        as_items(fcat(a, b)) == icat(as_items(a), as_items(b)),
{
    if !a.error {
        assert((a.fields + b.fields).map_values(|f: FieldView| FieldExprView::NameValue(f))
            =~= a.fields.map_values(|f: FieldView| FieldExprView::NameValue(f))
                + b.fields.map_values(|f: FieldView| FieldExprView::NameValue(f)));
    }
}

/// Inlining the structs of `s` fails at its first step: the stream ends in
/// an error at once, or its first value is no struct, or the nesting is too deep.
pub open spec fn inline_starts_badly(ctx: &EncodingContext, s: Stream, depth: nat) -> bool {
    (s.values.len() == 0 && s.error) || (s.values.len() > 0
        && (struct_source_of(ctx, s.values[0]) is None || depth >= MAX_DEPTH))
}

/// What a field expression of a struct literal stands for: itself, then
/// the fields of its expansion.
pub open spec fn fe_items(ctx: &EncodingContext, fe: FieldExprView, env: EnvView, tmpl: Option<usize>, depth: nat) -> ItemStream {
    match fe {
        FieldExprView::NameValue(f) => isingle(FieldExprView::NameValue(f)),
        FieldExprView::NameMacro(n, inv) => icat(
            isingle(FieldExprView::NameMacro(n, inv)),
            as_items(map_name(n, expand(ctx, inv, env, tmpl, depth))),
        ),
        FieldExprView::EExp(inv) => {
            let s = expand(ctx, inv, env, tmpl, depth);
            if inline_starts_badly(ctx, s, depth) {
                ifail()
            } else {
                icat(isingle(FieldExprView::EExp(inv)), as_items(inline_from(ctx, s, 0, depth)))
            }
        },
    }
}

/// The field expressions and expanded fields of raw fields `raw[i..]`.
pub open spec fn items_from(ctx: &EncodingContext, raw: Seq<RawFieldExpr>, i: nat, tmpl: Option<usize>, env: EnvView, depth: nat) -> ItemStream
    decreases raw.len() - i,
{
    if i >= raw.len() {
        iempty()
    } else {
        match raw_fe(ctx, raw[i as int], tmpl, env) {
            None => items_from(ctx, raw, i + 1, tmpl, env, depth),
            Some(fe) => icat(fe_items(ctx, fe, env, tmpl, depth), items_from(ctx, raw, i + 1, tmpl, env, depth)),
        }
    }
}

pub proof fn lemma_items_skip(ctx: &EncodingContext, raw: Seq<RawFieldExpr>, a: nat, b: nat, tmpl: Option<usize>, env: EnvView, depth: nat)
    requires
        a <= b <= raw.len(),
        forall|k: int| a <= k < b ==> (#[trigger] raw[k]) is Nop,
    ensures
        items_from(ctx, raw, a, tmpl, env, depth) == items_from(ctx, raw, b, tmpl, env, depth),
    decreases b - a,
{
    if a < b {
        assert(raw[a as int] is Nop);
        lemma_items_skip(ctx, raw, a + 1, b, tmpl, env, depth);
    }
}

impl ExpandedStructIteratorSource {
    /// The field expressions and fields that the source has still to give.
    /// The arguments of `make_struct` give their fields only.
    pub open spec fn items(&self, ctx: &EncodingContext, depth: nat) -> ItemStream {
        match self {
            ExpandedStructIteratorSource::ValueLiteral(e, pos) =>
                items_from(ctx, struct_fields_of(ctx, *e), *pos as nat, None, empty_env(), depth),
            ExpandedStructIteratorSource::Template(t, e, pos, env) =>
                items_from(ctx, struct_fields_of(ctx, *e), *pos as nat, Some(*t), env@, depth),
            ExpandedStructIteratorSource::MakeField(f) => match f {
                Some(f) => isingle(FieldExprView::NameValue(f@)),
                None => iempty(),
            },
            ExpandedStructIteratorSource::MakeStruct(args, pos, env, tmpl) => as_items(args_from(ctx, args@, *pos as nat, env@, *tmpl, depth)),
        }
    }
}

/// Like the expanded struct iterator, but a field whose value is a macro
/// and a macro in field-name position are each yielded too, unexpanded,
/// before the fields that they expand to.
pub struct FieldExprIterator<'top> {
    pub inner: ExpandedStructIterator<'top>,
}

impl<'top> FieldExprIterator<'top> {
    pub fn new(inner: ExpandedStructIterator<'top>) -> (r: Self)
        ensures
            r.inner == inner,
    {
        FieldExprIterator { inner }
    }

    pub open spec fn wf(&self) -> bool {
        self.inner.wf()
    }

    /// What the iterator has still to yield.
    pub open spec fn rest(&self) -> ItemStream {
        let it = self.inner;
        let ctx = it.context;
        let src = it.source.items(ctx, it.depth as nat);
        match it.state {
            ExpandedStructIteratorState::ReadingFieldFromSource => src,
            ExpandedStructIteratorState::ExpandingValueExpr(n) =>
                icat(as_items(map_name(n@, it.evaluator.rest(ctx))), src),
            ExpandedStructIteratorState::InliningAStruct(child) =>
                icat(as_items(child.rest()), icat(as_items(inline_from(ctx, it.evaluator.rest(ctx), 0, it.depth as nat)), src)),
        }
    }
}


impl<'top> FieldExprIterator<'top> {
    /// Yields the next field expression: an ordinary field, a field whose
    /// value is a macro (then the fields it expands to), or a macro in
    /// field-name position (then the fields of the structs it produces).
    pub fn next(&mut self) -> (r: Option<IonResult<FieldExpr>>)
        requires
            old(self).wf(),
        ensures
            r matches Some(Err(e)) ==> e is Decoding,
            final(self).wf(),
            ({
                let s = old(self).rest();
                match r {
                    Some(Ok(fe)) => s.items.len() > 0 && s.items[0] == fe@
                        && final(self).rest() == (ItemStream { items: s.items.drop_first(), error: s.error }),
                    None => s == iempty() && final(self).rest() == iempty(),
                    Some(Err(_)) => s.items.len() == 0 && s.error,
                }
            }),
    {
        let ghost s0 = self.rest();
        let ctx = self.inner.context;
        let depth = self.inner.depth;
        proof {
            assert(as_items(fempty()).items =~= Seq::<FieldExprView>::empty());
        }
        loop
            invariant
                self.wf(),
                self.rest() == s0,
                s0 == old(self).rest(),
                self.inner.context == ctx,
                self.inner.depth == depth,
                as_items(fempty()) == iempty(),
            decreases self.inner.source.remaining(ctx), state_rank(self.inner.state), self.inner.evaluator.rest(ctx).values.len(),
        {
            let mut st = ExpandedStructIteratorState::ReadingFieldFromSource;
            std::mem::swap(&mut self.inner.state, &mut st);
            match st {
                ExpandedStructIteratorState::ReadingFieldFromSource => {
                    let (env, tmpl) = self.inner.source.bindings();
                    let is_make = match &self.inner.source {
                        ExpandedStructIteratorSource::MakeStruct(_, _, _, _) => true,
                        _ => false,
                    };
                    match self.inner.source.next_field(ctx, depth) {
                        None => {
                            return None;
                        },
                        Some(FieldExpr::NameValue(name, value)) => {
                            let fe = FieldExpr::NameValue(name, value);
                            proof {
                                assert(s0.items =~= seq![fe@] + self.rest().items);
                                assert(s0.items.drop_first() =~= self.rest().items);
                            }
                            return Some(Ok(fe));
                        },
                        Some(FieldExpr::NameMacro(name, inv)) => {
                            self.inner.evaluator.push_in(ctx, inv, &env, tmpl, depth);
                            proof {
                                crate::evaluator::lemma_cat_empty(expand(ctx, inv, env@, tmpl, depth as nat));
                            }
                            let fe = FieldExpr::NameMacro(name.copy(), inv);
                            self.inner.state = ExpandedStructIteratorState::ExpandingValueExpr(name);
                            proof {
                                let x = as_items(map_name(fe->NameMacro_0@, self.inner.evaluator.rest(ctx)));
                                lemma_icat_assoc(isingle(fe@), x, self.inner.source.items(ctx, depth as nat));
                                assert(s0.items =~= seq![fe@] + self.rest().items);
                                assert(s0.items.drop_first() =~= self.rest().items);
                            }
                            return Some(Ok(fe));
                        },
                        Some(FieldExpr::EExp(inv)) => {
                            self.inner.evaluator.push_in(ctx, inv, &env, tmpl, depth);
                            proof {
                                crate::evaluator::lemma_cat_empty(expand(ctx, inv, env@, tmpl, depth as nat));
                            }
                            match next_struct_from_macro(ctx, &mut self.inner.evaluator, depth) {
                                Ok(None) => {
                                    proof {
                                        lemma_icat_empty(self.inner.source.items(ctx, depth as nat));
                                    }
                                },
                                Ok(Some(child)) => {
                                    let it = child.iter();
                                    let ghost rest_inline = inline_from(ctx, self.inner.evaluator.rest(ctx), 0, depth as nat);
                                    proof {
                                        lemma_as_items_fcat(it.rest(), rest_inline);
                                        lemma_icat_assoc(as_items(it.rest()), as_items(rest_inline), self.inner.source.items(ctx, depth as nat));
                                    }
                                    self.inner.state = ExpandedStructIteratorState::InliningAStruct(Box::new(it));
                                },
                                Err(e) => {
                                    self.inner.evaluator = MacroEvaluator::new();
                                    return Some(Err(e));
                                },
                            }
                            if !is_make {
                                let fe = FieldExpr::EExp(inv);
                                proof {
                                    let x = as_items(inline_from(ctx, expand(ctx, inv, env@, tmpl, depth as nat), 0, depth as nat));
                                    lemma_icat_assoc(isingle(fe@), x, self.inner.source.items(ctx, depth as nat));
                                    assert(s0.items =~= seq![fe@] + self.rest().items);
                                    assert(s0.items.drop_first() =~= self.rest().items);
                                }
                                return Some(Ok(fe));
                            }
                        },
                    }
                },
                ExpandedStructIteratorState::ExpandingValueExpr(name) => {
                    match self.inner.evaluator.next(ctx) {
                        Ok(Some(v)) => {
                            let fe = FieldExpr::NameValue(name.copy(), v);
                            if !self.inner.evaluator.is_empty() {
                                self.inner.state = ExpandedStructIteratorState::ExpandingValueExpr(name);
                            } else {
                                proof {
                                    lemma_icat_empty(self.inner.source.items(ctx, depth as nat));
                                }
                            }
                            proof {
                                let es = self.inner.evaluator.rest(ctx);
                                assert(map_name(name@, es).fields =~= map_name(fe->NameValue_0@, es).fields);
                                assert(s0.items =~= seq![fe@] + self.rest().items);
                                assert(s0.items.drop_first() =~= self.rest().items);
                            }
                            return Some(Ok(fe));
                        },
                        Ok(None) => {
                            proof {
                                lemma_icat_empty(self.inner.source.items(ctx, depth as nat));
                            }
                        },
                        Err(e) => {
                            self.inner.evaluator = MacroEvaluator::new();
                            return Some(Err(e));
                        },
                    }
                },
                ExpandedStructIteratorState::InliningAStruct(mut child) => {
                    assert(child.wf());
                    match child.next_field() {
                        Some(Ok(f)) => {
                            self.inner.state = ExpandedStructIteratorState::InliningAStruct(child);
                            let fe = f.to_field_expr();
                            proof {
                                assert(s0.items =~= seq![fe@] + self.rest().items);
                                assert(s0.items.drop_first() =~= self.rest().items);
                            }
                            return Some(Ok(fe));
                        },
                        Some(Err(e)) => {
                            self.inner.evaluator = MacroEvaluator::new();
                            return Some(Err(e));
                        },
                        None => {
                            proof {
                                lemma_icat_empty(icat(as_items(inline_from(ctx, self.inner.evaluator.rest(ctx), 0, depth as nat)), self.inner.source.items(ctx, depth as nat)));
                            }
                            match next_struct_from_macro(ctx, &mut self.inner.evaluator, depth) {
                                Ok(None) => {
                                    proof { lemma_icat_empty(self.inner.source.items(ctx, depth as nat)); }
                                },
                                Ok(Some(next_struct)) => {
                                    let it = next_struct.iter();
                                    let ghost rest_inline = inline_from(ctx, self.inner.evaluator.rest(ctx), 0, depth as nat);
                                    proof {
                                        lemma_as_items_fcat(it.rest(), rest_inline);
                                        lemma_icat_assoc(as_items(it.rest()), as_items(rest_inline), self.inner.source.items(ctx, depth as nat));
                                    }
                                    self.inner.state = ExpandedStructIteratorState::InliningAStruct(Box::new(it));
                                },
                                Err(e) => {
                                    self.inner.evaluator = MacroEvaluator::new();
                                    return Some(Err(e));
                                },
                            }
                        },
                    }
                },
            }
        }
    }
}

impl<'top> LazyExpandedStruct<'top> {
    /// The struct's field expressions, each followed by the fields it expands to.
    pub open spec fn items(&self) -> ItemStream {
        let ctx = self.context;
        let d = self.depth as nat;
        match self.source {
            ExpandedStructSource::ValueLiteral(e) => items_from(ctx, struct_fields_of(ctx, e), 0, None, empty_env(), d),
            ExpandedStructSource::Template(t, e, env) => items_from(ctx, struct_fields_of(ctx, e), 0, Some(t), env@, d),
            ExpandedStructSource::MakeStruct(args, env, tmpl) => as_items(args_from(ctx, args@, 0, env@, tmpl, d)),
            ExpandedStructSource::MakeField(n, v, env, tmpl) => isingle(FieldExprView::NameValue(
                FieldView { name: crate::expanded_struct::NameView::Made(n), value: crate::expanded_struct::lit_of(tmpl, v, env@) },
            )),
        }
    }

    /// An iterator over the struct's field expressions and expanded fields.
    pub fn field_exprs(&self) -> (r: FieldExprIterator<'top>)
        requires
            self.wf(),
        ensures
            r.wf(),
            r.inner.context == self.context,
            r.rest() == self.items(),
    {
        FieldExprIterator::new(self.iter())
    }
}

} // verus!
