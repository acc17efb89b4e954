//! Properties of expansion that hold for all inputs.
use vstd::prelude::*;
use crate::context::{EncodingContext, ResolvedMacro, SystemMacro, spec_symbol_text, field_has_name, matching_upto, lemma_matching_upto};
use crate::evaluator::{
    expand, expand_from, Stream, ValueView, MAX_DEPTH, is_name_expr, is_literal_expr, single, cat,
    empty_stream, EnvView, empty_env, resolved_expr,
};
use crate::expanded_struct::{
    FieldStream, FieldView, NameView, SourceView, fields_from, args_from, inline_from, source_fields,
    fcat, fempty, fsingle, map_name, struct_fields_of, name_of, lemma_fcat_empty, find_indexed,
    struct_source_of,
};
use crate::value::{Expr, RawFieldExpr, RawSymbol};

verus! {

/// Expression `inv` invokes the system macro `m` with arguments `args`.
pub open spec fn invokes(ctx: &EncodingContext, inv: usize, m: SystemMacro, args: Seq<usize>) -> bool {
    &&& inv < ctx.exprs@.len()
    &&& ctx.exprs@[inv as int] is Invoke
    &&& ctx.macros.spec_resolve(ctx.exprs@[inv as int]->Invoke_0.view_id()) == Some(ResolvedMacro::System(m))
    &&& ctx.exprs@[inv as int]->Invoke_1@ == args
}

pub open spec fn all_literals(ctx: &EncodingContext, args: Seq<usize>) -> bool {
    forall|j: int| 0 <= j < args.len() ==> is_literal_expr(ctx, #[trigger] args[j])
}

pub open spec fn all_struct_literals(ctx: &EncodingContext, args: Seq<usize>) -> bool {
    forall|j: int| 0 <= j < args.len() ==> (#[trigger] args[j]) < ctx.exprs@.len() && ctx.exprs@[args[j] as int] is Struct
}

/// Literal arguments expand to themselves, in order.
proof fn lemma_expand_literals(ctx: &EncodingContext, args: Seq<usize>, i: nat, depth: nat)
    requires
        all_literals(ctx, args),
        i <= args.len(),
    ensures
        expand_from(ctx, args, i, empty_env(), None, depth) == (Stream {
            values: Seq::new((args.len() - i) as nat, |j: int| ValueView::Literal(args[i + j])),
            error: false,
        }),
    decreases args.len() - i,
{
    if i < args.len() {
        lemma_expand_literals(ctx, args, i + 1, depth);
        assert(is_literal_expr(ctx, args[i as int]));
        let tail = expand_from(ctx, args, i + 1, empty_env(), None, depth);
        let whole = Seq::new((args.len() - i) as nat, |j: int| ValueView::Literal(args[i + j]));
        assert(expand(ctx, args[i as int], empty_env(), None, depth) == single(ValueView::Literal(args[i as int])));
        assert(whole =~= seq![ValueView::Literal(args[i as int])] + tail.values);
    } else {
        assert(Seq::new((args.len() - i) as nat, |j: int| ValueView::Literal(args[i + j])) =~= Seq::<ValueView>::empty());
    }
}

/// A struct whose only field position holds a valid `make_field` invocation
/// has exactly one field after expansion: the one that `make_field` builds.
pub proof fn law_make_field_struct_has_one_field(ctx: &EncodingContext, e: usize, inv: usize, args: Seq<usize>, depth: nat)
    requires
        e < ctx.exprs@.len(),
        ctx.exprs@[e as int] is Struct,
        struct_fields_of(ctx, e) == seq![RawFieldExpr::EExp(inv)],
        invokes(ctx, inv, SystemMacro::MakeField, args),
        args.len() == 2,
        is_name_expr(ctx, args[0]),
        is_literal_expr(ctx, args[1]),
        depth < MAX_DEPTH,
    ensures
        source_fields(ctx, SourceView::Literal(e), depth) == fsingle(
            FieldView { name: NameView::Made(args[0]), value: ValueView::Literal(args[1]) },
        ),
        source_fields(ctx, SourceView::Literal(e), depth).fields.len() == 1,
{
    assert(all_literals(ctx, args)) by {
        assert forall|j: int| 0 <= j < args.len() implies is_literal_expr(ctx, #[trigger] args[j]) by {
            if j == 0 {
                assert(ctx.exprs@[args[0] as int] is Scalar);
            }
        }
    }
    let raw = struct_fields_of(ctx, e);
    let s = expand(ctx, inv, empty_env(), None, depth);
    assert(s == single(ValueView::MakeField(args[0], args[1], empty_env(), None)));
    let f = fsingle(FieldView { name: NameView::Made(args[0]), value: ValueView::Literal(args[1]) });
    assert(source_fields(ctx, SourceView::Field(args[0], args[1], empty_env(), None), depth + 1) == f);
    assert(inline_from(ctx, s, 1, depth) == fempty());
    lemma_fcat_empty(f);
    assert(inline_from(ctx, s, 0, depth) == f);
    assert(fields_from(ctx, raw, 1, None, empty_env(), depth) == fempty());
}

/// A field whose value position holds `values` with literal arguments
/// `v1..vn` expands to the fields `(n, v1) .. (n, vn)`, in argument order,
/// followed by the fields after it.
pub proof fn law_values_in_value_position(ctx: &EncodingContext, raw: Seq<RawFieldExpr>, i: nat, sym: RawSymbol, inv: usize, args: Seq<usize>, depth: nat)
    requires
        i < raw.len(),
        raw[i as int] == RawFieldExpr::NameValue(sym, inv),
        invokes(ctx, inv, SystemMacro::Values, args),
        all_literals(ctx, args),
        depth < MAX_DEPTH,
    ensures
        fields_from(ctx, raw, i, None, empty_env(), depth) == fcat(
            FieldStream {
                fields: Seq::new(args.len(), |j: int| FieldView { name: NameView::Raw(sym@), value: ValueView::Literal(args[j]) }),
                error: false,
            },
            fields_from(ctx, raw, i + 1, None, empty_env(), depth),
        ),
{
    lemma_expand_literals(ctx, args, 0, depth + 1);
    let s = expand(ctx, inv, empty_env(), None, depth);
    assert(s == expand_from(ctx, args, 0, empty_env(), None, depth + 1));
    let expected = Seq::new(args.len(), |j: int| FieldView { name: NameView::Raw(sym@), value: ValueView::Literal(args[j]) });
    assert(map_name(name_of(ctx, None, sym), s).fields =~= expected);
}

/// The fields that the struct literals `args[j..]` have, one struct after another.
pub open spec fn struct_literals_fields(ctx: &EncodingContext, args: Seq<usize>, j: nat, depth: nat) -> FieldStream
    decreases args.len() - j,
{
    if j >= args.len() {
        fempty()
    } else {
        fcat(source_fields(ctx, SourceView::Literal(args[j as int]), depth), struct_literals_fields(ctx, args, j + 1, depth))
    }
}

proof fn lemma_args_from_structs(ctx: &EncodingContext, args: Seq<usize>, j: nat, depth: nat)
    requires
        all_struct_literals(ctx, args),
        j <= args.len(),
        depth < MAX_DEPTH,
    ensures
        args_from(ctx, args, j, empty_env(), None, depth) == struct_literals_fields(ctx, args, j, depth + 1),
    decreases args.len() - j,
{
    if j < args.len() {
        lemma_args_from_structs(ctx, args, j + 1, depth);
        let a = args[j as int];
        assert(a < ctx.exprs@.len() && ctx.exprs@[a as int] is Struct);
        let s = expand(ctx, a, empty_env(), None, depth);
        assert(s == single(ValueView::Literal(a)));
        assert(inline_from(ctx, s, 1, depth) == fempty());
        lemma_fcat_empty(source_fields(ctx, SourceView::Literal(a), depth + 1));
        assert(inline_from(ctx, s, 0, depth) == source_fields(ctx, SourceView::Literal(a), depth + 1));
    }
}

/// A `make_struct` invocation in field-name position, with struct literal
/// arguments `A1..Ak`, is replaced by the fields of `A1`, then those of `A2`,
/// and so on to `Ak`, between the fields before it and the fields after it.
pub proof fn law_make_struct_merges_in_place(ctx: &EncodingContext, raw: Seq<RawFieldExpr>, i: nat, inv: usize, args: Seq<usize>, depth: nat)
    requires
        i < raw.len(),
        raw[i as int] == RawFieldExpr::EExp(inv),
        invokes(ctx, inv, SystemMacro::MakeStruct, args),
        all_struct_literals(ctx, args),
        depth + 2 < MAX_DEPTH,
    ensures
        fields_from(ctx, raw, i, None, empty_env(), depth) == fcat(
            struct_literals_fields(ctx, args, 0, depth + 2),
            fields_from(ctx, raw, i + 1, None, empty_env(), depth),
        ),
{
    let s = expand(ctx, inv, empty_env(), None, depth);
    assert(s == single(ValueView::MakeStruct(args, empty_env(), None)));
    lemma_args_from_structs(ctx, args, 0, depth + 1);
    let m = source_fields(ctx, SourceView::Make(args, empty_env(), None), depth + 1);
    assert(m == struct_literals_fields(ctx, args, 0, depth + 2));
    assert(inline_from(ctx, s, 1, depth) == fempty());
    lemma_fcat_empty(m);
    assert(inline_from(ctx, s, 0, depth) == m);
    assert(fields_from(ctx, raw, i, None, empty_env(), depth) == fcat(inline_from(ctx, s, 0, depth), fields_from(ctx, raw, i + 1, None, empty_env(), depth)));
}

proof fn lemma_args_from_error(ctx: &EncodingContext, args: Seq<usize>, j: nat, k: int, env: EnvView, tmpl: Option<usize>, depth: nat)
    requires
        j <= k < args.len(),
        is_literal_expr(ctx, args[k]),
        !(ctx.exprs@[args[k] as int] is Struct),
    ensures
        args_from(ctx, args, j, env, tmpl, depth).error,
    decreases k - j,
{
    if j < k {
        lemma_args_from_error(ctx, args, j + 1, k, env, tmpl, depth);
        let x = inline_from(ctx, expand(ctx, args[j as int], env, tmpl, depth), 0, depth);
        assert(args_from(ctx, args, j, env, tmpl, depth) == fcat(x, args_from(ctx, args, j + 1, env, tmpl, depth)));
    } else {
        let s = expand(ctx, args[k], env, tmpl, depth);
        assert(s == single(crate::evaluator::tag_literal(tmpl, args[k], env)));
        assert(crate::expanded_struct::struct_source_of(ctx, s.values[0]) is None);
        assert(inline_from(ctx, s, 0, depth).error);
        assert(args_from(ctx, args, j, env, tmpl, depth)
            == fcat(inline_from(ctx, s, 0, depth), args_from(ctx, args, j + 1, env, tmpl, depth)));
    }
}

/// `make_struct` with an argument that is a value literal but not a struct
/// produces a decoding error: the struct's field stream ends in an error,
/// whatever the bindings it is expanded under. Every error of expansion is a
/// decoding error, so the struct iterator reports this one as
/// `IonError::Decoding` (see the contract of `ExpandedStructIterator::next_field`).
pub proof fn law_make_struct_rejects_non_struct(ctx: &EncodingContext, args: Seq<usize>, k: int, env: EnvView, tmpl: Option<usize>, depth: nat)
    requires
        0 <= k < args.len(),
        is_literal_expr(ctx, args[k]),
        !(ctx.exprs@[args[k] as int] is Struct),
    ensures
        source_fields(ctx, SourceView::Make(args, env, tmpl), depth).error,
{
    lemma_args_from_error(ctx, args, 0, k, env, tmpl, depth);
}

/// Padding between fields contributes nothing.
pub proof fn law_nop_fields_are_skipped(ctx: &EncodingContext, raw: Seq<RawFieldExpr>, i: nat, tmpl: Option<usize>, env: EnvView, depth: nat)
    requires
        i < raw.len(),
        raw[i as int] is Nop,
    ensures
        fields_from(ctx, raw, i, tmpl, env, depth) == fields_from(ctx, raw, i + 1, tmpl, env, depth),
{
    lemma_fcat_empty(fields_from(ctx, raw, i + 1, tmpl, env, depth));
}

/// A field name given by symbol ID, as the binary encoding writes it, has the
/// same text as the same name written inline, as the text encoding writes it.
pub proof fn law_symbol_id_and_inline_text_agree(symbols: Seq<String>, i: usize)
    requires
        i < symbols.len(),
    ensures
        spec_symbol_text(symbols, RawSymbol::SymbolId(i)) == Some(symbols[i as int]@),
        spec_symbol_text(symbols, RawSymbol::SymbolId(i)) == spec_symbol_text(symbols, RawSymbol::Text(symbols[i as int])),
{
}


/// A macro in field-name position that expands to no value at all leaves
/// the struct as if the position were not there.
pub proof fn law_empty_expansion_in_name_position_is_no_op(ctx: &EncodingContext, raw: Seq<RawFieldExpr>, i: nat, inv: usize, tmpl: Option<usize>, env: EnvView, depth: nat)
    requires
        i < raw.len(),
        raw[i as int] == RawFieldExpr::EExp(inv),
        expand(ctx, inv, env, tmpl, depth) == empty_stream(),
    ensures
        fields_from(ctx, raw, i, tmpl, env, depth) == fields_from(ctx, raw, i + 1, tmpl, env, depth),
{
    assert(inline_from(ctx, empty_stream(), 0, depth) == fempty());
    lemma_fcat_empty(fields_from(ctx, raw, i + 1, tmpl, env, depth));
}

/// An indexed lookup in a struct of a template body finds the value of the
/// first field with the name: when fields `j` and `k > j` both carry it, and
/// no field before `j` does, field `j`'s value literal is returned.
pub proof fn law_indexed_find_returns_first(ctx: &EncodingContext, t: usize, e: usize, env: EnvView, name: Seq<char>, j: int, k: int, depth: nat)
    requires
        e < ctx.exprs@.len(),
        ctx.exprs@[e as int] is Struct,
        0 <= j < k < struct_fields_of(ctx, e).len(),
        struct_fields_of(ctx, e).len() <= usize::MAX,
        field_has_name(ctx.symbols@, struct_fields_of(ctx, e)[j], name),
        field_has_name(ctx.symbols@, struct_fields_of(ctx, e)[k], name),
        forall|q: int| 0 <= q < j ==> !field_has_name(ctx.symbols@, #[trigger] struct_fields_of(ctx, e)[q], name),
        is_literal_expr(ctx, struct_fields_of(ctx, e)[j]->NameValue_1),
    ensures
        find_indexed(ctx, t, e, env, name, depth)
            == Some(Some(ValueView::TemplateLiteral(t, struct_fields_of(ctx, e)[j]->NameValue_1, env))),
{
    let raw = struct_fields_of(ctx, e);
    lemma_matching_upto(ctx.symbols@, raw, name, raw.len());
    let ps = matching_upto(ctx.symbols@, raw, name, raw.len());
    assert(ps.len() > 0);
    let p = ps[0] as int;
    assert(p <= j);
    assert(field_has_name(ctx.symbols@, raw[p], name));
    if p < j {
        assert(!field_has_name(ctx.symbols@, raw[p], name));
    }
}


/// Every value of `vals` is a struct.
pub open spec fn all_structs(ctx: &EncodingContext, vals: Seq<ValueView>) -> bool {
    forall|j: int| 0 <= j < vals.len() ==> (#[trigger] struct_source_of(ctx, vals[j])) is Some
}

/// The fields of the structs `vals[j..]`, one struct after another.
pub open spec fn structs_fields(ctx: &EncodingContext, vals: Seq<ValueView>, j: nat, depth: nat) -> FieldStream
    decreases vals.len() - j,
{
    if j >= vals.len() {
        fempty()
    } else {
        fcat(
            source_fields(ctx, struct_source_of(ctx, vals[j as int])->0, depth),
            structs_fields(ctx, vals, j + 1, depth),
        )
    }
}

/// The fields of the structs that arguments `args[k..]` of `make_struct`
/// expand to: each argument's structs in expansion order, the arguments in order.
pub open spec fn args_structs_fields(ctx: &EncodingContext, args: Seq<usize>, k: nat, env: EnvView, tmpl: Option<usize>, depth: nat) -> FieldStream
    decreases args.len() - k,
{
    if k >= args.len() {
        fempty()
    } else {
        fcat(
            structs_fields(ctx, expand(ctx, args[k as int], env, tmpl, depth).values, 0, depth + 1),
            args_structs_fields(ctx, args, k + 1, env, tmpl, depth),
        )
    }
}

proof fn lemma_inline_structs(ctx: &EncodingContext, s: Stream, j: nat, depth: nat)
    requires
        !s.error,
        all_structs(ctx, s.values),
        depth < MAX_DEPTH,
    ensures
        inline_from(ctx, s, j, depth) == structs_fields(ctx, s.values, j, depth + 1),
    decreases s.values.len() - j,
{
    if j < s.values.len() {
        assert(struct_source_of(ctx, s.values[j as int]) is Some);
        lemma_inline_structs(ctx, s, j + 1, depth);
    }
}

/// The arguments of `make_struct` whose expansions end without error in
/// structs only, read under `env` and `tmpl`.
pub open spec fn args_give_structs(ctx: &EncodingContext, args: Seq<usize>, env: EnvView, tmpl: Option<usize>, depth: nat) -> bool {
    forall|k: int| 0 <= k < args.len() ==> {
        let s = #[trigger] expand(ctx, args[k], env, tmpl, depth);
        !s.error && all_structs(ctx, s.values)
    }
}

proof fn lemma_args_structs(ctx: &EncodingContext, args: Seq<usize>, k: nat, env: EnvView, tmpl: Option<usize>, depth: nat)
    requires
        args_give_structs(ctx, args, env, tmpl, depth),
        depth < MAX_DEPTH,
    ensures
        args_from(ctx, args, k, env, tmpl, depth) == args_structs_fields(ctx, args, k, env, tmpl, depth),
    decreases args.len() - k,
{
    if k < args.len() {
        let s = expand(ctx, args[k as int], env, tmpl, depth);
        assert(!s.error && all_structs(ctx, s.values));
        lemma_inline_structs(ctx, s, 0, depth);
        lemma_args_structs(ctx, args, k + 1, env, tmpl, depth);
    }
}

/// The struct that `make_struct` builds has the fields of the structs its
/// arguments expand to (literal structs, or the structs that invocations
/// produce), in argument order and, within an argument, in expansion order.
pub proof fn law_make_struct_fields(ctx: &EncodingContext, args: Seq<usize>, env: EnvView, tmpl: Option<usize>, depth: nat)
    requires
        args_give_structs(ctx, args, env, tmpl, depth),
        depth < MAX_DEPTH,
    ensures
        source_fields(ctx, SourceView::Make(args, env, tmpl), depth) == args_structs_fields(ctx, args, 0, env, tmpl, depth),
{
    lemma_args_structs(ctx, args, 0, env, tmpl, depth);
}

/// A `make_struct` invocation in field-name position, whose arguments
/// (struct literals or invocations) expand to structs only, is replaced by
/// the fields of those structs, in order, between the fields before it and
/// the fields after it.
pub proof fn law_make_struct_splices_argument_structs(ctx: &EncodingContext, raw: Seq<RawFieldExpr>, i: nat, inv: usize, args: Seq<usize>, depth: nat)
    requires
        i < raw.len(),
        raw[i as int] == RawFieldExpr::EExp(inv),
        invokes(ctx, inv, SystemMacro::MakeStruct, args),
        args_give_structs(ctx, args, empty_env(), None, depth + 1),
        depth + 1 < MAX_DEPTH,
    ensures
        fields_from(ctx, raw, i, None, empty_env(), depth) == fcat(
            args_structs_fields(ctx, args, 0, empty_env(), None, depth + 1),
            fields_from(ctx, raw, i + 1, None, empty_env(), depth),
        ),
{
    let s = expand(ctx, inv, empty_env(), None, depth);
    assert(s == single(ValueView::MakeStruct(args, empty_env(), None)));
    law_make_struct_fields(ctx, args, empty_env(), None, depth + 1);
    let m = source_fields(ctx, SourceView::Make(args, empty_env(), None), depth + 1);
    assert(inline_from(ctx, s, 1, depth) == fempty());
    lemma_fcat_empty(m);
    assert(inline_from(ctx, s, 0, depth) == m);
    assert(fields_from(ctx, raw, i, None, empty_env(), depth)
        == fcat(inline_from(ctx, s, 0, depth), fields_from(ctx, raw, i + 1, None, empty_env(), depth)));
}

proof fn lemma_inline_error(ctx: &EncodingContext, s: Stream, i: nat, j: int, depth: nat)
    requires
        i <= j < s.values.len(),
        struct_source_of(ctx, s.values[j]) is None,
    ensures
        inline_from(ctx, s, i, depth).error,
    decreases j - i,
{
    if i < j {
        lemma_inline_error(ctx, s, i + 1, j, depth);
    }
}

proof fn lemma_args_error(ctx: &EncodingContext, args: Seq<usize>, i: nat, k: int, j: int, env: EnvView, tmpl: Option<usize>, depth: nat)
    requires
        i <= k < args.len(),
        0 <= j < expand(ctx, args[k], env, tmpl, depth).values.len(),
        struct_source_of(ctx, expand(ctx, args[k], env, tmpl, depth).values[j]) is None,
    ensures
        args_from(ctx, args, i, env, tmpl, depth).error,
    decreases k - i,
{
    if i < k {
        lemma_args_error(ctx, args, i + 1, k, j, env, tmpl, depth);
    } else {
        lemma_inline_error(ctx, expand(ctx, args[k], env, tmpl, depth), 0, j, depth);
    }
}

/// `make_struct` with an argument whose expansion (a literal, or what an
/// invocation produces) holds a value that is not a struct produces a
/// decoding error: the struct's field stream ends in an error.
pub proof fn law_make_struct_rejects_non_struct_values(ctx: &EncodingContext, args: Seq<usize>, k: int, j: int, env: EnvView, tmpl: Option<usize>, depth: nat)
    requires
        0 <= k < args.len(),
        0 <= j < expand(ctx, args[k], env, tmpl, depth).values.len(),
        struct_source_of(ctx, expand(ctx, args[k], env, tmpl, depth).values[j]) is None,
    ensures
        source_fields(ctx, SourceView::Make(args, env, tmpl), depth).error,
{
    lemma_args_error(ctx, args, 0, k, j, env, tmpl, depth);
}

} // verus!
