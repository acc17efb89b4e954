//! The macro evaluator: a stack of expansion frames that yields, one at a
//! time, the values that a sequence of expressions expands to.
use vstd::prelude::*;
use crate::context::{
    EncodingContext, IonError, IonResult, ResolvedMacro, SystemMacro, TemplateMacro,
};
use crate::value::{Expr, Scalar};

verus! {

/// The deepest nesting of macro expansions that the evaluator accepts.
/// Deeper (for instance, cyclic) expansions are a decoding error.
pub const MAX_DEPTH: usize = 64;

/// A value produced by expansion.
#[derive(Clone, Debug)]
pub enum LazyExpandedValue {
    /// A value literal of the input data.
    Literal(usize),
    /// A value literal of the body of the template at the given address,
    /// with the environment it was read under.
    TemplateLiteral(usize, usize, Environment),
    /// The struct made by `make_struct` from these argument expressions, to be
    /// expanded under this environment and template.
    MakeStruct(Vec<usize>, Environment, Option<usize>),
    /// The one-field struct made by `make_field` from a name and a value
    /// literal, with the environment and template the value is read under.
    MakeField(usize, usize, Environment, Option<usize>),
    /// The value literal at the given expression, with these annotation
    /// expressions, by `annotate`; read under the environment and template given.
    Annotated(Vec<usize>, usize, Environment, Option<usize>),
}

/// The mathematical value of a [`LazyExpandedValue`].
pub enum ValueView {
    Literal(usize),
    TemplateLiteral(usize, usize, EnvView),
    MakeStruct(Seq<usize>, EnvView, Option<usize>),
    MakeField(usize, usize, EnvView, Option<usize>),
    Annotated(Seq<usize>, usize, EnvView, Option<usize>),
}

impl View for LazyExpandedValue {
    type V = ValueView;

    open spec fn view(&self) -> ValueView {
        match self {
            LazyExpandedValue::Literal(e) => ValueView::Literal(*e),
            LazyExpandedValue::TemplateLiteral(t, e, env) => ValueView::TemplateLiteral(*t, *e, env@),
            LazyExpandedValue::MakeStruct(args, env, tmpl) => ValueView::MakeStruct(args@, env@, *tmpl),
            LazyExpandedValue::MakeField(n, v, env, tmpl) => ValueView::MakeField(*n, *v, env@, *tmpl),
            LazyExpandedValue::Annotated(a, v, env, tmpl) => ValueView::Annotated(a@, *v, env@, *tmpl),
        }
    }
}

/// A stream of expanded values that may end in an error.
pub struct Stream {
    pub values: Seq<ValueView>,
    pub error: bool,
}

pub open spec fn empty_stream() -> Stream {
    Stream { values: Seq::empty(), error: false }
}

pub open spec fn failure() -> Stream {
    Stream { values: Seq::empty(), error: true }
}

pub open spec fn single(v: ValueView) -> Stream {
    Stream { values: seq![v], error: false }
}

/// `a` followed by `b`; nothing follows an error.
pub open spec fn cat(a: Stream, b: Stream) -> Stream {
    if a.error {
        a
    } else {
        Stream { values: a.values + b.values, error: b.error }
    }
}

pub proof fn lemma_cat_assoc(a: Stream, b: Stream, c: Stream)
    ensures
        cat(cat(a, b), c) == cat(a, cat(b, c)),
{
    if !a.error && !b.error {
        assert(a.values + b.values + c.values =~= a.values + (b.values + c.values));
    }
}

pub proof fn lemma_cat_empty(a: Stream)
    ensures
        cat(empty_stream(), a) == a,
        cat(a, empty_stream()) == a,
{
    assert(Seq::<ValueView>::empty() + a.values =~= a.values);
    assert(a.values + Seq::<ValueView>::empty() =~= a.values);
}

/// The binding of one template parameter: the argument expression, read
/// under the first `scope` bindings of the environment, with its own
/// template's parameters bound from `base` on, in template `tmpl`.
#[derive(Copy, Clone, Debug, PartialEq, Eq, Structural)]
pub struct Binding {
    pub expr: usize,
    pub scope: usize,
    pub base: usize,
    pub tmpl: Option<usize>,
}

/// The bindings of the templates being expanded, outermost first; the
/// parameters of the innermost template are bound from `base` on.
#[derive(Clone, Debug)]
pub struct Environment {
    pub bindings: Vec<Binding>,
    pub base: usize,
}

/// The mathematical value of an [`Environment`].
pub struct EnvView {
    pub bindings: Seq<Binding>,
    pub base: usize,
}

impl View for Environment {
    type V = EnvView;

    open spec fn view(&self) -> EnvView {
        EnvView { bindings: self.bindings@, base: self.base }
    }
}

pub open spec fn empty_env() -> EnvView {
    EnvView { bindings: Seq::empty(), base: 0 }
}

/// The binding of parameter `k`, if the environment has one.
pub open spec fn binding_of(env: EnvView, k: usize) -> Option<Binding> {
    let idx = env.base + k;
    if idx < env.bindings.len() && env.bindings[idx].scope <= idx {
        Some(env.bindings[idx])
    } else {
        None
    }
}

/// The environment that binding `b` is read under.
pub open spec fn env_of_binding(env: EnvView, b: Binding) -> EnvView {
    EnvView { bindings: env.bindings.take(b.scope as int), base: b.base }
}

/// The environment of a template invoked, under `env` and in template
/// `tmpl`, with the arguments `args`.
pub open spec fn call_env(env: EnvView, args: Seq<usize>, tmpl: Option<usize>) -> EnvView {
    EnvView {
        bindings: env.bindings + args.map_values(
            |a: usize| Binding { expr: a, scope: env.bindings.len() as usize, base: env.base, tmpl },
        ),
        base: env.bindings.len() as usize,
    }
}

/// The tag that a value literal gets: the template it came from, if any,
/// with the environment it was read under.
pub open spec fn tag_literal(tmpl: Option<usize>, e: usize, env: EnvView) -> ValueView {
    match tmpl {
        Some(t) => ValueView::TemplateLiteral(t, e, env),
        None => ValueView::Literal(e),
    }
}

/// What argument `a` stands for: parameter references are followed to the
/// expression that they are bound to, with the environment and template it
/// is read under. `None` when a reference is unbound or an index is outside
/// the arena.
pub open spec fn resolve_arg(ctx: &EncodingContext, a: usize, env: EnvView, tmpl: Option<usize>) -> Option<(usize, EnvView, Option<usize>)>
    decreases env.bindings.len(),
{
    if a >= ctx.exprs@.len() {
        None
    } else if ctx.exprs@[a as int] is Param {
        match binding_of(env, ctx.exprs@[a as int]->Param_0) {
            Some(b) => resolve_arg(ctx, b.expr, env_of_binding(env, b), b.tmpl),
            None => None,
        }
    } else {
        Some((a, env, tmpl))
    }
}

/// The expression that argument `a` stands for, if it resolves.
pub open spec fn resolved_expr(ctx: &EncodingContext, a: usize, env: EnvView, tmpl: Option<usize>) -> Option<usize> {
    match resolve_arg(ctx, a, env, tmpl) {
        Some(c) => Some(c.0),
        None => None,
    }
}

/// The arguments match the template's parameters: one per parameter, each
/// resolves, and none that resolves to an argument group is given to a
/// parameter that takes a single expression.
pub open spec fn args_fit(ctx: &EncodingContext, t: TemplateMacro, args: Seq<usize>, env: EnvView, tmpl: Option<usize>) -> bool {
    &&& args.len() == t.params@.len()
    &&& forall|i: int| 0 <= i < args.len() ==> (#[trigger] resolved_expr(ctx, args[i], env, tmpl)) is Some
    &&& forall|i: int| 0 <= i < args.len() && (#[trigger] t.params@[i]).cardinality.spec_is_single() ==>
        !(ctx.exprs@[resolved_expr(ctx, args[i], env, tmpl)->0 as int] is ArgGroup)
}

/// An expression that can name a field: a symbol or string literal.
pub open spec fn is_name_expr(ctx: &EncodingContext, n: usize) -> bool {
    n < ctx.exprs@.len() && ctx.exprs@[n as int] is Scalar && {
        let s = ctx.exprs@[n as int]->Scalar_0;
        s is Symbol || s is String
    }
}

/// The annotations that argument `a` of `annotate` gives: a group of text
/// literals, or one text literal.
pub open spec fn annotation_list(ctx: &EncodingContext, a: usize) -> Option<Seq<usize>> {
    if a < ctx.exprs@.len() && ctx.exprs@[a as int] is ArgGroup {
        let elems = ctx.exprs@[a as int]->ArgGroup_0@;
        if forall|i: int| 0 <= i < elems.len() ==> is_name_expr(ctx, #[trigger] elems[i]) {
            Some(elems)
        } else {
            None
        }
    } else if is_name_expr(ctx, a) {
        Some(seq![a])
    } else {
        None
    }
}

pub open spec fn is_literal_expr(ctx: &EncodingContext, v: usize) -> bool {
    v < ctx.exprs@.len() && ctx.exprs@[v as int].is_value_literal()
}

pub open spec fn depth_measure(depth: nat) -> int {
    MAX_DEPTH - depth
}

/// The elements of list or s-expression literal `e`.
pub open spec fn sequence_children(ctx: &EncodingContext, e: usize) -> Seq<usize> {
    match ctx.exprs@[e as int] {
        Expr::List(c) => c@,
        Expr::SExp(c) => c@,
        _ => Seq::empty(),
    }
}

pub open spec fn is_sequence(ctx: &EncodingContext, a: usize) -> bool {
    a < ctx.exprs@.len() && (ctx.exprs@[a as int] is List || ctx.exprs@[a as int] is SExp)
}

/// Every argument resolves to a list or s-expression literal.
pub open spec fn all_sequences(ctx: &EncodingContext, args: Seq<usize>, env: EnvView, tmpl: Option<usize>) -> bool {
    forall|i: int| 0 <= i < args.len() ==> match #[trigger] resolve_arg(ctx, args[i], env, tmpl) {
        Some(c) => is_sequence(ctx, c.0),
        None => false,
    }
}

/// The values that expression `e` expands to, when it is read under
/// environment `env`, its literals belong to template `tmpl`, and it stands
/// at nesting `depth`.
pub open spec fn expand(ctx: &EncodingContext, e: usize, env: EnvView, tmpl: Option<usize>, depth: nat) -> Stream
    decreases depth_measure(depth), env.bindings.len(), 1int, 0int,
{
    if e >= ctx.exprs@.len() {
        failure()
    } else {
        match ctx.exprs@[e as int] {
            Expr::Param(k) => {
                match binding_of(env, k) {
                    Some(b) => expand(ctx, b.expr, env_of_binding(env, b), b.tmpl, depth),
                    None => failure(),
                }
            },
            Expr::ArgGroup(elems) => {
                if depth >= MAX_DEPTH {
                    failure()
                } else {
                    expand_from(ctx, elems@, 0, env, tmpl, depth + 1)
                }
            },
            Expr::Invoke(id, args) => {
                if depth >= MAX_DEPTH {
                    failure()
                } else {
                    match ctx.macros.spec_resolve(id.view_id()) {
                        None => failure(),
                        Some(ResolvedMacro::Template(a)) => {
                            let t = ctx.macros.templates@[a as int];
                            if args_fit(ctx, t, args@, env, tmpl) {
                                expand_from(ctx, t.body@, 0, call_env(env, args@, tmpl), Some(a), depth + 1)
                            } else {
                                failure()
                            }
                        },
                        Some(ResolvedMacro::System(m)) => {
                            match m {
                                SystemMacro::NoneMacro => if args@.len() == 0 { empty_stream() } else { failure() },
                                SystemMacro::Values => expand_from(ctx, args@, 0, env, tmpl, depth + 1),
                                SystemMacro::Flatten => {
                                    if all_sequences(ctx, args@, env, tmpl) {
                                        flat_from(ctx, args@, 0, env, tmpl, depth)
                                    } else {
                                        failure()
                                    }
                                },
                                SystemMacro::MakeStruct => single(ValueView::MakeStruct(args@, env, tmpl)),
                                SystemMacro::Annotate => {
                                    if args@.len() == 2 {
                                        match (resolved_expr(ctx, args@[0], env, tmpl), resolve_arg(ctx, args@[1], env, tmpl)) {
                                            (Some(a0), Some(v)) => if annotation_list(ctx, a0) is Some && is_literal_expr(ctx, v.0) {
                                                single(ValueView::Annotated(annotation_list(ctx, a0)->0, v.0, v.1, v.2))
                                            } else {
                                                failure()
                                            },
                                            _ => failure(),
                                        }
                                    } else {
                                        failure()
                                    }
                                },
                                SystemMacro::MakeField => {
                                    if args@.len() == 2 {
                                        match (resolved_expr(ctx, args@[0], env, tmpl), resolve_arg(ctx, args@[1], env, tmpl)) {
                                            (Some(n), Some(v)) => if is_name_expr(ctx, n) && is_literal_expr(ctx, v.0) {
                                                single(ValueView::MakeField(n, v.0, v.1, v.2))
                                            } else {
                                                failure()
                                            },
                                            _ => failure(),
                                        }
                                    } else {
                                        failure()
                                    }
                                },
                                _ => failure(),
                            }
                        },
                    }
                }
            },
            _ => single(tag_literal(tmpl, e, env)),
        }
    }
}

/// The values that the expressions `list[i..]` expand to, one after another.
pub open spec fn expand_from(ctx: &EncodingContext, list: Seq<usize>, i: nat, env: EnvView, tmpl: Option<usize>, depth: nat) -> Stream
    decreases depth_measure(depth), env.bindings.len(), 2int, list.len() - i,
{
    if i >= list.len() {
        empty_stream()
    } else {
        cat(expand(ctx, list[i as int], env, tmpl, depth), expand_from(ctx, list, i + 1, env, tmpl, depth))
    }
}

/// The elements of the sequences that arguments `args[i..]` of `flatten`
/// stand for, each expanded one level deeper, one sequence after another.
pub open spec fn flat_from(ctx: &EncodingContext, args: Seq<usize>, i: nat, env: EnvView, tmpl: Option<usize>, depth: nat) -> Stream
    decreases depth_measure(depth), env.bindings.len(), 0int, args.len() - i,
{
    if i >= args.len() || depth >= MAX_DEPTH {
        empty_stream()
    } else {
        match resolve_arg(ctx, args[i as int], env, tmpl) {
            Some(c) => cat(
                expand_from(ctx, sequence_children(ctx, c.0), 0, c.1, c.2, depth + 1),
                flat_from(ctx, args, i + 1, env, tmpl, depth),
            ),
            None => failure(),
        }
    }
}

/// An upper bound on the evaluator steps that expanding `e` takes.
pub open spec fn cost(ctx: &EncodingContext, e: usize, env: EnvView, tmpl: Option<usize>, depth: nat) -> nat
    decreases depth_measure(depth), env.bindings.len(), 1int, 0int,
{
    if e >= ctx.exprs@.len() {
        1
    } else {
        match ctx.exprs@[e as int] {
            Expr::Param(k) => {
                match binding_of(env, k) {
                    Some(b) => 1 + cost(ctx, b.expr, env_of_binding(env, b), b.tmpl, depth),
                    None => 1,
                }
            },
            Expr::ArgGroup(elems) => {
                if depth >= MAX_DEPTH {
                    1
                } else {
                    2 + cost_from(ctx, elems@, 0, env, tmpl, depth + 1)
                }
            },
            Expr::Invoke(id, args) => {
                if depth >= MAX_DEPTH {
                    1
                } else {
                    match ctx.macros.spec_resolve(id.view_id()) {
                        Some(ResolvedMacro::Template(a)) => {
                            let t = ctx.macros.templates@[a as int];
                            if args_fit(ctx, t, args@, env, tmpl) {
                                2 + cost_from(ctx, t.body@, 0, call_env(env, args@, tmpl), Some(a), depth + 1)
                            } else {
                                1
                            }
                        },
                        Some(ResolvedMacro::System(SystemMacro::Values)) => 2 + cost_from(ctx, args@, 0, env, tmpl, depth + 1),
                        Some(ResolvedMacro::System(SystemMacro::Flatten)) => {
                            if all_sequences(ctx, args@, env, tmpl) {
                                1 + cost_flat(ctx, args@, 0, env, tmpl, depth)
                            } else {
                                1
                            }
                        },
                        _ => 1,
                    }
                }
            },
            _ => 1,
        }
    }
}

pub open spec fn cost_from(ctx: &EncodingContext, list: Seq<usize>, i: nat, env: EnvView, tmpl: Option<usize>, depth: nat) -> nat
    decreases depth_measure(depth), env.bindings.len(), 2int, list.len() - i,
{
    if i >= list.len() {
        0
    } else {
        cost(ctx, list[i as int], env, tmpl, depth) + cost_from(ctx, list, i + 1, env, tmpl, depth)
    }
}

pub open spec fn cost_flat(ctx: &EncodingContext, args: Seq<usize>, i: nat, env: EnvView, tmpl: Option<usize>, depth: nat) -> nat
    decreases depth_measure(depth), env.bindings.len(), 0int, args.len() - i,
{
    if i >= args.len() || depth >= MAX_DEPTH {
        0
    } else {
        match resolve_arg(ctx, args[i as int], env, tmpl) {
            Some(c) => cost_from(ctx, sequence_children(ctx, c.0), 0, c.1, c.2, depth + 1) + 1
                + cost_flat(ctx, args, i + 1, env, tmpl, depth),
            None => 0,
        }
    }
}

/// Expanding a parameter reference is expanding what it resolves to, and
/// costs at least one step more.
pub proof fn lemma_resolve_param(ctx: &EncodingContext, e: usize, env: EnvView, tmpl: Option<usize>, depth: nat)
    requires
        e < ctx.exprs@.len(),
        ctx.exprs@[e as int] is Param,
    ensures
        match resolve_arg(ctx, e, env, tmpl) {
            Some(c) => expand(ctx, e, env, tmpl, depth) == expand(ctx, c.0, c.1, c.2, depth)
                && cost(ctx, e, env, tmpl, depth) >= 1 + cost(ctx, c.0, c.1, c.2, depth)
                && c.0 < ctx.exprs@.len() && !(ctx.exprs@[c.0 as int] is Param),
            None => expand(ctx, e, env, tmpl, depth) == failure(),
        },
    decreases env.bindings.len(),
{
    let k = ctx.exprs@[e as int]->Param_0;
    match binding_of(env, k) {
        Some(b) => {
            let env2 = env_of_binding(env, b);
            assert(resolve_arg(ctx, e, env, tmpl) == resolve_arg(ctx, b.expr, env2, b.tmpl));
            assert(expand(ctx, e, env, tmpl, depth) == expand(ctx, b.expr, env2, b.tmpl, depth));
            assert(cost(ctx, e, env, tmpl, depth) == 1 + cost(ctx, b.expr, env2, b.tmpl, depth));
            if b.expr < ctx.exprs@.len() && ctx.exprs@[b.expr as int] is Param {
                lemma_resolve_param(ctx, b.expr, env2, b.tmpl, depth);
            } else if b.expr < ctx.exprs@.len() {
                assert(resolve_arg(ctx, b.expr, env2, b.tmpl) == Some((b.expr, env2, b.tmpl)));
            } else {
                assert(resolve_arg(ctx, b.expr, env2, b.tmpl) is None);
            }
        },
        None => {},
    }
}

/// One expansion in progress: the expressions still to expand, with the
/// environment, template and depth that they are expanded under.
pub struct Frame {
    pub exprs: Vec<usize>,
    pub pos: usize,
    pub env: Environment,
    pub tmpl: Option<usize>,
    pub depth: usize,
}

impl Frame {
    pub open spec fn wf(&self) -> bool {
        self.pos <= self.exprs@.len() && self.depth <= MAX_DEPTH
    }

    /// What this frame has still to produce.
    pub open spec fn rest(&self, ctx: &EncodingContext) -> Stream {
        expand_from(ctx, self.exprs@, self.pos as nat, self.env@, self.tmpl, self.depth as nat)
    }

    pub open spec fn cost(&self, ctx: &EncodingContext) -> nat {
        cost_from(ctx, self.exprs@, self.pos as nat, self.env@, self.tmpl, self.depth as nat) + 1
    }
}

/// What the frames of a stack (top last) have still to produce, top first.
pub open spec fn stack_rest(ctx: &EncodingContext, s: Seq<Frame>) -> Stream
    decreases s.len(),
{
    if s.len() == 0 {
        empty_stream()
    } else {
        cat(s.last().rest(ctx), stack_rest(ctx, s.drop_last()))
    }
}

pub open spec fn stack_cost(ctx: &EncodingContext, s: Seq<Frame>) -> nat
    decreases s.len(),
{
    if s.len() == 0 {
        0
    } else {
        s.last().cost(ctx) + stack_cost(ctx, s.drop_last())
    }
}

/// Expression `e` invokes a macro that always expands to exactly one value
/// (or fails): `make_struct` or `make_field`.
pub open spec fn yields_one_value(ctx: &EncodingContext, e: usize) -> bool {
    &&& e < ctx.exprs@.len()
    &&& ctx.exprs@[e as int] is Invoke
    &&& match ctx.macros.spec_resolve(ctx.exprs@[e as int]->Invoke_0.view_id()) {
        Some(ResolvedMacro::System(SystemMacro::MakeStruct)) => true,
        Some(ResolvedMacro::System(SystemMacro::MakeField)) => true,
        _ => false,
    }
}

/// Whether `e` invokes a macro that always expands to exactly one value.
pub fn must_produce_exactly_one_value(ctx: &EncodingContext, e: usize) -> (r: bool)
    ensures
        r == yields_one_value(ctx, e),
{
    if e >= ctx.exprs.len() {
        return false;
    }
    match &ctx.exprs[e] {
        Expr::Invoke(id, _) => match ctx.macros.resolve(id.as_ref()) {
            Ok(ResolvedMacro::System(SystemMacro::MakeStruct)) => true,
            Ok(ResolvedMacro::System(SystemMacro::MakeField)) => true,
            _ => false,
        },
        _ => false,
    }
}

/// Evaluates, without a frame, an invocation that expands to exactly one value.
pub fn expand_singleton(ctx: &EncodingContext, e: usize, env: &Environment, tmpl: Option<usize>, depth: usize) -> (r: IonResult<LazyExpandedValue>)
    requires
        yields_one_value(ctx, e),
        depth <= MAX_DEPTH,
    ensures
        r matches Err(e) ==> e is Decoding,
        match r {
            Ok(v) => expand(ctx, e, env@, tmpl, depth as nat) == single(v@),
            Err(_) => expand(ctx, e, env@, tmpl, depth as nat) == failure(),
        },
{
    let mut scratch = MacroEvaluator::new();
    match scratch.start(ctx, e, env, tmpl, depth) {
        Step::Produced(v) => Ok(v),
        Step::Failed(err) => Err(err),
        Step::Pushed => Err(decoding_error("expected exactly one value")),
        Step::Nothing => Err(decoding_error("expected exactly one value")),
    }
}

/// A LIFO stack of expansion frames.
pub struct MacroEvaluator {
    pub stack: Vec<Frame>,
}

/// What one expansion step did.
pub enum Step {
    /// The expression produced exactly this value.
    Produced(LazyExpandedValue),
    /// A frame for the expression's expansion was pushed.
    Pushed,
    /// The expression expands to nothing.
    Nothing,
    Failed(IonError),
}

/// A copy of a list of indices.
pub fn copy_indices(v: &Vec<usize>) -> (r: Vec<usize>)
    ensures
        r@ == v@,
{
    let mut r: Vec<usize> = Vec::new();
    let mut i: usize = 0;
    while i < v.len()
        invariant
            0 <= i <= v@.len(),
            r@ == v@.subrange(0, i as int),
        decreases v@.len() - i,
    {
        r.push(v[i]);
        i += 1;
        assert(r@ =~= v@.subrange(0, i as int));
    }
    assert(r@ =~= v@);
    r
}

impl Environment {
    /// No bindings: the environment of the input data.
    pub fn empty() -> (r: Environment)
        ensures
            r@ == empty_env(),
    {
        Environment { bindings: Vec::new(), base: 0 }
    }

    /// A copy of this environment.
    pub fn copy(&self) -> (r: Environment)
        ensures
            r@ == self@,
    {
        let bindings = copy_bindings(&self.bindings, self.bindings.len());
        assert(self.bindings@.take(self.bindings@.len() as int) =~= self.bindings@);
        Environment { bindings, base: self.base }
    }

    /// The environment of a template invoked under this one, in template
    /// `tmpl`, with the arguments `args`.
    pub fn call(&self, args: &Vec<usize>, tmpl: Option<usize>) -> (r: Environment)
        ensures
            r@ == call_env(self@, args@, tmpl),
    {
        let n = self.bindings.len();
        let mut bindings = copy_bindings(&self.bindings, n);
        let ghost f = |a: usize| Binding { expr: a, scope: n, base: self.base, tmpl };
        let mut i: usize = 0;
        while i < args.len()
            invariant
                0 <= i <= args@.len(),
                n == self.bindings@.len(),
                f == (|a: usize| Binding { expr: a, scope: n, base: self.base, tmpl }),
                bindings@ == self.bindings@ + args@.take(i as int).map_values(f),
            decreases args@.len() - i,
        {
            bindings.push(Binding { expr: args[i], scope: n, base: self.base, tmpl });
            i += 1;
            assert(args@.take(i as int).map_values(f) =~= args@.take(i - 1 as int).map_values(f).push(f(args@[i - 1])));
        }
        assert(args@.take(args@.len() as int) =~= args@);
        Environment { bindings, base: n }
    }
}

/// A copy of the first `n` bindings.
pub fn copy_bindings(v: &Vec<Binding>, n: usize) -> (r: Vec<Binding>)
    requires
        n <= v@.len(),
    ensures
        r@ == v@.take(n as int),
{
    let mut r: Vec<Binding> = Vec::new();
    let mut i: usize = 0;
    while i < n
        invariant
            0 <= i <= n <= v@.len(),
            r@ == v@.take(i as int),
        decreases n - i,
    {
        r.push(v[i]);
        i += 1;
        assert(r@ =~= v@.take(i as int));
    }
    r
}

/// What argument `a` stands for: parameter references are followed to the
/// expression they are bound to, with the environment and template it is
/// read under; `None` when a reference is unbound.
pub fn resolve_argument(ctx: &EncodingContext, a: usize, env: &Environment, tmpl: Option<usize>) -> (r: Option<(usize, Environment, Option<usize>)>)
    ensures
        match resolve_arg(ctx, a, env@, tmpl) {
            Some(c) => r matches Some((x, y, z)) && x == c.0 && y@ == c.1 && z == c.2,
            None => r is None,
        },
{
    let mut cur = a;
    let mut cenv = env.copy();
    let mut ct = tmpl;
    loop
        invariant
            resolve_arg(ctx, a, env@, tmpl) == resolve_arg(ctx, cur, cenv@, ct),
        decreases cenv.bindings@.len(),
    {
        if cur >= ctx.exprs.len() {
            return None;
        }
        match &ctx.exprs[cur] {
            Expr::Param(k) => {
                let k = *k;
                let len = cenv.bindings.len();
                if k >= len || cenv.base >= len - k {
                    return None;
                }
                let idx = cenv.base + k;
                let b = cenv.bindings[idx];
                if b.scope > idx {
                    return None;
                }
                let next_env = Environment { bindings: copy_bindings(&cenv.bindings, b.scope), base: b.base };
                assert(next_env@ == env_of_binding(cenv@, b));
                cur = b.expr;
                cenv = next_env;
                ct = b.tmpl;
            },
            _ => {
                return Some((cur, cenv, ct));
            },
        }
    }
}

/// Whether the arguments fit the parameters of `t`.
pub fn arguments_fit(ctx: &EncodingContext, t: &TemplateMacro, args: &Vec<usize>, env: &Environment, tmpl: Option<usize>) -> (r: bool)
    ensures
        r == args_fit(ctx, *t, args@, env@, tmpl),
{
    if args.len() != t.params.len() {
        return false;
    }
    let mut i: usize = 0;
    while i < args.len()
        invariant
            0 <= i <= args@.len(),
            args@.len() == t.params@.len(),
            forall|j: int| 0 <= j < i ==> (#[trigger] resolved_expr(ctx, args@[j], env@, tmpl)) is Some,
            forall|j: int| 0 <= j < i && (#[trigger] t.params@[j]).cardinality.spec_is_single() ==>
                !(ctx.exprs@[resolved_expr(ctx, args@[j], env@, tmpl)->0 as int] is ArgGroup),
        decreases args@.len() - i,
    {
        match resolve_argument(ctx, args[i], env, tmpl) {
            None => {
                assert(resolved_expr(ctx, args@[i as int], env@, tmpl) is None);
                return false;
            },
            Some(c) => {
                proof { lemma_resolved_in_arena(ctx, args@[i as int], env@, tmpl); }
                if t.params[i].cardinality.is_single() {
                    match &ctx.exprs[c.0] {
                        Expr::ArgGroup(_) => {
                            assert(t.params@[i as int].cardinality.spec_is_single());
                            return false;
                        },
                        _ => {},
                    }
                }
            },
        }
        i += 1;
    }
    true
}

/// A resolved argument is an expression of the arena and no parameter reference.
pub proof fn lemma_resolved_in_arena(ctx: &EncodingContext, a: usize, env: EnvView, tmpl: Option<usize>)
    ensures
        resolve_arg(ctx, a, env, tmpl) matches Some(c) ==> c.0 < ctx.exprs@.len() && !(ctx.exprs@[c.0 as int] is Param),
    decreases env.bindings.len(),
{
    if a < ctx.exprs@.len() && ctx.exprs@[a as int] is Param {
        match binding_of(env, ctx.exprs@[a as int]->Param_0) {
            Some(b) => lemma_resolved_in_arena(ctx, b.expr, env_of_binding(env, b), b.tmpl),
            None => {},
        }
    }
}

/// Whether every argument resolves to a list or s-expression literal.
pub fn all_sequence_arguments(ctx: &EncodingContext, args: &Vec<usize>, env: &Environment, tmpl: Option<usize>) -> (r: bool)
    ensures
        r == all_sequences(ctx, args@, env@, tmpl),
{
    let mut i: usize = 0;
    while i < args.len()
        invariant
            0 <= i <= args@.len(),
            forall|j: int| 0 <= j < i ==> match #[trigger] resolve_arg(ctx, args@[j], env@, tmpl) {
                Some(c) => is_sequence(ctx, c.0),
                None => false,
            },
        decreases args@.len() - i,
    {
        match resolve_argument(ctx, args[i], env, tmpl) {
            None => {
                assert(resolve_arg(ctx, args@[i as int], env@, tmpl) is None);
                return false;
            },
            Some(c) => {
                let s = c.0;
                if s >= ctx.exprs.len() {
                    return false;
                }
                match &ctx.exprs[s] {
                    Expr::List(_) | Expr::SExp(_) => {},
                    _ => {
                        assert(!is_sequence(ctx, s));
                        return false;
                    },
                }
            },
        }
        i += 1;
    }
    true
}

/// Whether expression `n` can name a field.
pub fn is_name_expression(ctx: &EncodingContext, n: usize) -> (r: bool)
    ensures
        r == is_name_expr(ctx, n),
{
    if n >= ctx.exprs.len() {
        return false;
    }
    match &ctx.exprs[n] {
        Expr::Scalar(Scalar::Symbol(_)) | Expr::Scalar(Scalar::String(_)) => true,
        _ => false,
    }
}

/// The annotations that argument `a` of `annotate` gives.
pub fn annotations_of(ctx: &EncodingContext, a: usize) -> (r: Option<Vec<usize>>)
    ensures
        match annotation_list(ctx, a) {
            Some(l) => r is Some && r->0@ == l,
            None => r is None,
        },
{
    if a < ctx.exprs.len() {
        match &ctx.exprs[a] {
            Expr::ArgGroup(elems) => {
                let mut i: usize = 0;
                while i < elems.len()
                    invariant
                        0 <= i <= elems@.len(),
                        a < ctx.exprs@.len(),
                        ctx.exprs@[a as int] is ArgGroup,
                        ctx.exprs@[a as int]->ArgGroup_0@ == elems@,
                        forall|j: int| 0 <= j < i ==> is_name_expr(ctx, #[trigger] elems@[j]),
                    decreases elems@.len() - i,
                {
                    if !is_name_expression(ctx, elems[i]) {
                        assert(!is_name_expr(ctx, elems@[i as int]));
                        return None;
                    }
                    i += 1;
                }
                return Some(copy_indices(elems));
            },
            _ => {},
        }
    }
    if is_name_expression(ctx, a) {
        let r = vec![a];
        assert(r@ =~= seq![a]);
        Some(r)
    } else {
        None
    }
}

/// Whether expression `v` is a value literal.
pub fn is_literal_expression(ctx: &EncodingContext, v: usize) -> (r: bool)
    ensures
        r == is_literal_expr(ctx, v),
{
    v < ctx.exprs.len() && ctx.exprs[v].is_literal()
}

/// Tags literal `e` with the template it belongs to and the environment it
/// was read under.
pub fn tag(tmpl: Option<usize>, e: usize, env: &Environment) -> (r: LazyExpandedValue)
    ensures
        r@ == tag_literal(tmpl, e, env@),
{
    match tmpl {
        Some(t) => LazyExpandedValue::TemplateLiteral(t, e, env.copy()),
        None => LazyExpandedValue::Literal(e),
    }
}

fn decoding_error(msg: &str) -> (r: IonError)
    ensures
        r is Decoding,
{
    IonError::Decoding(msg.to_string())
}

/// A copy of the elements of list or s-expression literal `e`.
pub fn sequence_elements(ctx: &EncodingContext, e: usize) -> (r: Vec<usize>)
    requires
        e < ctx.exprs@.len(),
    ensures
        r@ == sequence_children(ctx, e),
{
    match &ctx.exprs[e] {
        Expr::List(c) => copy_indices(c),
        Expr::SExp(c) => copy_indices(c),
        _ => Vec::new(),
    }
}

impl MacroEvaluator {
    pub open spec fn wf(&self) -> bool {
        forall|i: int| 0 <= i < self.stack@.len() ==> (#[trigger] self.stack@[i]).wf()
    }

    /// The values that the evaluator has still to produce.
    pub open spec fn rest(&self, ctx: &EncodingContext) -> Stream {
        stack_rest(ctx, self.stack@)
    }

    pub fn new() -> (r: MacroEvaluator)
        ensures
            r.wf(),
            r.stack@.len() == 0,
    {
        MacroEvaluator { stack: Vec::new() }
    }

    /// True when no frame remains.
    pub fn is_empty(&self) -> (r: bool)
        ensures
            r == (self.stack@.len() == 0),
    {
        self.stack.len() == 0
    }

    /// Begins the expansion of expression `e` of the input data at nesting
    /// `depth`: what it expands to comes before what the evaluator had still
    /// to produce.
    pub fn push(&mut self, ctx: &EncodingContext, e: usize, depth: usize)
        requires
            old(self).wf(),
            depth <= MAX_DEPTH,
        ensures
            final(self).wf(),
            final(self).stack@.len() == old(self).stack@.len() + 1,
            final(self).rest(ctx) == cat(expand(ctx, e, empty_env(), None, depth as nat), old(self).rest(ctx)),
    {
        self.push_in(ctx, e, &Environment::empty(), None, depth);
    }

    /// Begins the expansion of expression `e`, read under environment `env`
    /// in template `tmpl`.
    pub fn push_in(&mut self, ctx: &EncodingContext, e: usize, env: &Environment, tmpl: Option<usize>, depth: usize)
        requires
            old(self).wf(),
            depth <= MAX_DEPTH,
        ensures
            final(self).wf(),
            final(self).stack@.len() == old(self).stack@.len() + 1,
            final(self).rest(ctx) == cat(expand(ctx, e, env@, tmpl, depth as nat), old(self).rest(ctx)),
    {
        let f = Frame { exprs: vec![e], pos: 0, env: env.copy(), tmpl, depth };
        proof {
            assert(f.exprs@[0] == e);
            assert(expand_from(ctx, f.exprs@, 1, f.env@, tmpl, depth as nat) == empty_stream());
            lemma_cat_empty(expand(ctx, e, env@, tmpl, depth as nat));
        }
        self.stack.push(f);
        proof {
            assert(self.stack@.drop_last() =~= old(self).stack@);
        }
    }

    /// Pushes one frame per sequence that the arguments of `flatten` stand
    /// for, last first, so that the elements of the first come out first.
    fn push_sequences(&mut self, ctx: &EncodingContext, args: &Vec<usize>, env: &Environment, tmpl: Option<usize>, depth: usize)
        requires
            old(self).wf(),
            depth < MAX_DEPTH,
            all_sequences(ctx, args@, env@, tmpl),
        ensures
            final(self).wf(),
            final(self).rest(ctx) == cat(flat_from(ctx, args@, 0, env@, tmpl, depth as nat), old(self).rest(ctx)),
            stack_cost(ctx, final(self).stack@) == stack_cost(ctx, old(self).stack@) + cost_flat(ctx, args@, 0, env@, tmpl, depth as nat),
    {
        let mut j: usize = args.len();
        proof { lemma_cat_empty(old(self).rest(ctx)); }
        while j > 0
            invariant
                0 <= j <= args@.len(),
                self.wf(),
                depth < MAX_DEPTH,
                all_sequences(ctx, args@, env@, tmpl),
                self.rest(ctx) == cat(flat_from(ctx, args@, j as nat, env@, tmpl, depth as nat), old(self).rest(ctx)),
                stack_cost(ctx, self.stack@) == stack_cost(ctx, old(self).stack@) + cost_flat(ctx, args@, j as nat, env@, tmpl, depth as nat),
            decreases j,
        {
            j = j - 1;
            let ghost rc = resolve_arg(ctx, args@[j as int], env@, tmpl);
            assert(match rc { Some(c) => is_sequence(ctx, c.0), None => false });
            let c = match resolve_argument(ctx, args[j], env, tmpl) {
                Some(c) => c,
                None => {
                    assert(false);
                    return;
                },
            };
            let f = Frame { exprs: sequence_elements(ctx, c.0), pos: 0, env: c.1, tmpl: c.2, depth: depth + 1 };
            let ghost before = self.stack@;
            self.stack.push(f);
            proof {
                assert(self.stack@.drop_last() =~= before);
                lemma_cat_assoc(f.rest(ctx), flat_from(ctx, args@, (j + 1) as nat, env@, tmpl, depth as nat), old(self).rest(ctx));
            }
        }
    }

    /// Starts the expansion of an argument group or invocation `e`.
    fn start(&mut self, ctx: &EncodingContext, e: usize, env: &Environment, tmpl: Option<usize>, depth: usize) -> (r: Step)
        requires
            old(self).wf(),
            depth <= MAX_DEPTH,
            e < ctx.exprs@.len(),
            ctx.exprs@[e as int] is ArgGroup || ctx.exprs@[e as int] is Invoke,
        ensures
            r matches Step::Failed(e) ==> e is Decoding,
            final(self).wf(),
            r is Produced ==> expand(ctx, e, env@, tmpl, depth as nat) == single(r->Produced_0@)
                && final(self).stack@ == old(self).stack@,
            r is Pushed ==> final(self).rest(ctx) == cat(expand(ctx, e, env@, tmpl, depth as nat), old(self).rest(ctx)),
            r is Pushed ==> stack_cost(ctx, final(self).stack@) + 1 == stack_cost(ctx, old(self).stack@) + cost(ctx, e, env@, tmpl, depth as nat),
            r is Nothing ==> expand(ctx, e, env@, tmpl, depth as nat) == empty_stream()
                && final(self).stack@ == old(self).stack@,
            r is Failed ==> expand(ctx, e, env@, tmpl, depth as nat) == failure(),
            yields_one_value(ctx, e) ==> (r is Produced || r is Failed),
    {
        match &ctx.exprs[e] {
            Expr::ArgGroup(elems) => {
                if depth >= MAX_DEPTH {
                    return Step::Failed(decoding_error("macro expansion is nested too deeply"));
                }
                let f = Frame { exprs: copy_indices(elems), pos: 0, env: env.copy(), tmpl, depth: depth + 1 };
                self.stack.push(f);
                proof { assert(self.stack@.drop_last() =~= old(self).stack@); }
                Step::Pushed
            },
            Expr::Invoke(id, args) => {
                if depth >= MAX_DEPTH {
                    return Step::Failed(decoding_error("macro expansion is nested too deeply"));
                }
                proof { ctx.macros.lemma_resolve_in_range(id.view_id()); }
                let resolved = match ctx.macros.resolve(id.as_ref()) {
                    Ok(m) => m,
                    Err(err) => { return Step::Failed(err); },
                };
                match resolved {
                    ResolvedMacro::Template(a) => {
                        let t = &ctx.macros.templates[a];
                        if !arguments_fit(ctx, t, args, env, tmpl) {
                            return Step::Failed(decoding_error("arguments do not match the macro's parameters"));
                        }
                        let f = Frame { exprs: copy_indices(&t.body), pos: 0, env: env.call(args, tmpl), tmpl: Some(a), depth: depth + 1 };
                        self.stack.push(f);
                        proof { assert(self.stack@.drop_last() =~= old(self).stack@); }
                        Step::Pushed
                    },
                    ResolvedMacro::System(SystemMacro::NoneMacro) => {
                        if args.len() == 0 {
                            Step::Nothing
                        } else {
                            Step::Failed(decoding_error("`none` takes no arguments"))
                        }
                    },
                    ResolvedMacro::System(SystemMacro::Values) => {
                        let f = Frame { exprs: copy_indices(args), pos: 0, env: env.copy(), tmpl, depth: depth + 1 };
                        self.stack.push(f);
                        proof { assert(self.stack@.drop_last() =~= old(self).stack@); }
                        Step::Pushed
                    },
                    ResolvedMacro::System(SystemMacro::Flatten) => {
                        if !all_sequence_arguments(ctx, args, env, tmpl) {
                            return Step::Failed(decoding_error("`flatten` takes list and s-expression literals"));
                        }
                        self.push_sequences(ctx, args, env, tmpl, depth);
                        Step::Pushed
                    },
                    ResolvedMacro::System(SystemMacro::MakeStruct) => {
                        Step::Produced(LazyExpandedValue::MakeStruct(copy_indices(args), env.copy(), tmpl))
                    },
                    ResolvedMacro::System(SystemMacro::Annotate) => {
                        if args.len() != 2 {
                            return Step::Failed(decoding_error("`annotate` takes annotations and a value"));
                        }
                        let a0 = match resolve_argument(ctx, args[0], env, tmpl) {
                            Some(c) => c.0,
                            None => { return Step::Failed(decoding_error("argument refers to an unbound parameter")); },
                        };
                        let (v, venv, vt) = match resolve_argument(ctx, args[1], env, tmpl) {
                            Some(c) => c,
                            None => { return Step::Failed(decoding_error("argument refers to an unbound parameter")); },
                        };
                        let anns = match annotations_of(ctx, a0) {
                            Some(x) => x,
                            None => { return Step::Failed(decoding_error("annotations must be text literals")); },
                        };
                        if !is_literal_expression(ctx, v) {
                            return Step::Failed(decoding_error("`annotate` takes a value literal"));
                        }
                        Step::Produced(LazyExpandedValue::Annotated(anns, v, venv, vt))
                    },
                    ResolvedMacro::System(SystemMacro::MakeField) => {
                        if args.len() != 2 {
                            return Step::Failed(decoding_error("`make_field` takes a name and a value"));
                        }
                        let n = match resolve_argument(ctx, args[0], env, tmpl) {
                            Some(c) => c.0,
                            None => { return Step::Failed(decoding_error("argument refers to an unbound parameter")); },
                        };
                        let (v, venv, vt) = match resolve_argument(ctx, args[1], env, tmpl) {
                            Some(c) => c,
                            None => { return Step::Failed(decoding_error("argument refers to an unbound parameter")); },
                        };
                        if is_name_expression(ctx, n) && is_literal_expression(ctx, v) {
                            Step::Produced(LazyExpandedValue::MakeField(n, v, venv, vt))
                        } else {
                            Step::Failed(decoding_error("`make_field` takes a text name and a value literal"))
                        }
                    },
                    ResolvedMacro::System(_) => {
                        Step::Failed(decoding_error("this system macro is not supported by the evaluator"))
                    },
                }
            },
            _ => {
                // Only argument groups and invocations are started.
                Step::Failed(decoding_error("expected a macro invocation"))
            },
        }
    }

    /// Pulls the next value across the whole stack: exhausted frames are
    /// popped and invocations are entered until a value, an error or the end
    /// of the stack is reached.
    pub fn next(&mut self, ctx: &EncodingContext) -> (r: IonResult<Option<LazyExpandedValue>>)
        requires
            old(self).wf(),
        ensures
            r matches Err(e) ==> e is Decoding,
            final(self).wf(),
            ({
                let s = old(self).rest(ctx);
                match r {
                    Ok(Some(v)) => s.values.len() > 0 && s.values[0] == v@
                        && final(self).rest(ctx) == (Stream { values: s.values.drop_first(), error: s.error }),
                    Ok(None) => s == empty_stream() && final(self).stack@.len() == 0,
                    Err(_) => s.values.len() == 0 && s.error,
                }
            }),
    {
        let ghost s0 = self.rest(ctx);
        loop
            invariant
                self.wf(),
                self.rest(ctx) == s0,
                s0 == old(self).rest(ctx),
            decreases stack_cost(ctx, self.stack@),
        {
            if self.stack.len() == 0 {
                return Ok(None);
            }
            let ghost before = self.stack@;
            let mut f = self.stack.pop().unwrap();
            proof {
                assert(before.drop_last() == self.stack@);
                assert(before.last() == f);
            }
            if f.pos >= f.exprs.len() {
                proof {
                    assert(f.rest(ctx) == empty_stream());
                    lemma_cat_empty(stack_rest(ctx, self.stack@));
                }
                continue;
            }
            let e = f.exprs[f.pos];
            let ghost fr = f.rest(ctx);
            let ghost fc = f.cost(ctx);
            f.pos = f.pos + 1;
            let env = f.env.copy();
            let tmpl = f.tmpl;
            let depth = f.depth;
            let ghost below = self.stack@;
            self.stack.push(f);
            proof {
                assert(self.stack@.drop_last() =~= below);
                let x = expand(ctx, e, env@, tmpl, depth as nat);
                assert(fr == cat(x, f.rest(ctx)));
                lemma_cat_assoc(x, f.rest(ctx), stack_rest(ctx, below));
                assert(s0 == cat(x, self.rest(ctx)));
                assert(fc == cost(ctx, e, env@, tmpl, depth as nat) + f.cost(ctx));
                assert(stack_cost(ctx, self.stack@) + cost(ctx, e, env@, tmpl, depth as nat) == stack_cost(ctx, before));
            }
            if e >= ctx.exprs.len() {
                return Err(decoding_error("expression is not in the arena"));
            }
            let step = match &ctx.exprs[e] {
                Expr::Param(_) => {
                    proof { lemma_resolve_param(ctx, e, env@, tmpl, depth as nat); }
                    let c = match resolve_argument(ctx, e, &env, tmpl) {
                        Some(c) => c,
                        None => { return Err(decoding_error("reference to an unbound parameter")); },
                    };
                    let (e2, env2, t2) = c;
                    match &ctx.exprs[e2] {
                        Expr::ArgGroup(_) | Expr::Invoke(_, _) => {
                            self.start(ctx, e2, &env2, t2, depth)
                        },
                        _ => {
                            let v = tag(t2, e2, &env2);
                            proof {
                                assert(s0.values =~= seq![v@] + self.rest(ctx).values);
                                assert(s0.values.drop_first() =~= self.rest(ctx).values);
                            }
                            return Ok(Some(v));
                        },
                    }
                },
                Expr::ArgGroup(_) | Expr::Invoke(_, _) => {
                    self.start(ctx, e, &env, tmpl, depth)
                },
                _ => {
                    let v = tag(tmpl, e, &env);
                    proof {
                        assert(s0.values =~= seq![v@] + self.rest(ctx).values);
                        assert(s0.values.drop_first() =~= self.rest(ctx).values);
                    }
                    return Ok(Some(v));
                },
            };
            match step {
                Step::Produced(v) => {
                    proof {
                        assert(s0.values =~= seq![v@] + self.rest(ctx).values);
                        assert(s0.values.drop_first() =~= self.rest(ctx).values);
                    }
                    return Ok(Some(v));
                },
                Step::Failed(err) => {
                    return Err(err);
                },
                Step::Pushed => {},
                Step::Nothing => {
                    proof {
                        lemma_cat_empty(self.rest(ctx));
                    }
                },
            }
        }
    }
}

} // verus!
