//! Raw readers: cursors over the tokens that a tokenizer has matched in the
//! input. They resolve nothing; symbols and macros are resolved above them.
use vstd::prelude::*;
use crate::context::{EncodingContext, IonError, IonResult};
use crate::macro_id::MacroIdRef;
use crate::value::{Expr, IonType, RawFieldExpr};

verus! {

/// One top-level token of an input buffer.
#[derive(Copy, Clone, Debug, PartialEq, Eq, Structural)]
pub enum RawToken {
    /// A version marker with its major and minor version.
    VersionMarker(u8, u8),
    /// Padding, which the binary encoding allows between values.
    Nop,
    /// A value literal or an e-expression, by its index in the arena.
    Expr(usize),
    /// The buffer ends inside a token: more input is needed.
    Incomplete,
}

/// What a raw reader hands out.
#[derive(Copy, Clone, Debug, PartialEq, Eq, Structural)]
pub enum RawStreamItem {
    VersionMarker(u8, u8),
    Value(usize),
    EExp(usize),
    /// The end of the input, at this token position.
    EndOfStream(usize),
}

/// The position of the first token at or after `pos` that is not padding.
pub open spec fn skip_nops(input: Seq<RawToken>, pos: nat) -> nat
    decreases input.len() - pos,
{
    if pos < input.len() && input[pos as int] is Nop {
        skip_nops(input, pos + 1)
    } else {
        pos
    }
}

pub proof fn lemma_skip_nops(input: Seq<RawToken>, pos: nat)
    requires
        pos <= input.len(),
    ensures
        pos <= skip_nops(input, pos) <= input.len(),
        skip_nops(input, pos) < input.len() ==> !(input[skip_nops(input, pos) as int] is Nop),
    decreases input.len() - pos,
{
    if pos < input.len() && input[pos as int] is Nop {
        lemma_skip_nops(input, pos + 1);
    }
}

/// The item that token `t` stands for; `None` when it names no expression of the arena.
pub open spec fn item_of(ctx: &EncodingContext, t: RawToken) -> Option<RawStreamItem> {
    match t {
        RawToken::VersionMarker(major, minor) => Some(RawStreamItem::VersionMarker(major, minor)),
        RawToken::Nop => None,
        RawToken::Incomplete => None,
        RawToken::Expr(e) => if e >= ctx.exprs@.len() {
            None
        } else if ctx.exprs@[e as int] is Invoke {
            Some(RawStreamItem::EExp(e))
        } else {
            Some(RawStreamItem::Value(e))
        },
    }
}

/// Reads the token at `pos`, which is not padding.
fn read_token(ctx: &EncodingContext, input: &Vec<RawToken>, pos: usize) -> (r: IonResult<RawStreamItem>)
    requires
        pos < input@.len(),
        !(input@[pos as int] is Nop),
    ensures
        match item_of(ctx, input@[pos as int]) {
            Some(item) => r == Ok::<RawStreamItem, IonError>(item),
            None => r is Err,
        },
{
    match input[pos] {
        RawToken::VersionMarker(major, minor) => Ok(RawStreamItem::VersionMarker(major, minor)),
        RawToken::Nop => Err(IonError::Decoding("unexpected padding".to_string())),
        RawToken::Incomplete => Err(IonError::Incomplete),
        RawToken::Expr(e) => {
            if e >= ctx.exprs.len() {
                Err(IonError::Decoding("expression is not in the arena".to_string()))
            } else {
                match &ctx.exprs[e] {
                    Expr::Invoke(_, _) => Ok(RawStreamItem::EExp(e)),
                    _ => Ok(RawStreamItem::Value(e)),
                }
            }
        },
    }
}

/// A cursor over the top-level tokens of a buffer, shared by the readers of
/// both encodings: padding is skipped, every other token is handed out.
pub struct TokenCursor<'data> {
    pub context: &'data EncodingContext,
    pub input: &'data Vec<RawToken>,
    pub offset: usize,
}

/// `after` is `before` moved past the next item, and `r` is that item.
pub open spec fn stepped(before: TokenCursor, after: TokenCursor, r: IonResult<RawStreamItem>) -> bool {
    let p = skip_nops(before.input@, before.offset as nat);
    &&& after.context == before.context
    &&& after.input == before.input
    &&& after.offset <= after.input@.len()
    &&& if p >= before.input@.len() {
        r == Ok::<RawStreamItem, IonError>(RawStreamItem::EndOfStream(before.input@.len() as usize))
            && after.offset == p
    } else if before.input@[p as int] is Incomplete {
        r matches Err(IonError::Incomplete) && after.offset == p
    } else {
        after.offset == p + 1 && match item_of(before.context, before.input@[p as int]) {
            Some(item) => r == Ok::<RawStreamItem, IonError>(item),
            None => r is Err,
        }
    }
}

impl<'data> TokenCursor<'data> {
    pub fn new(context: &'data EncodingContext, input: &'data Vec<RawToken>, offset: usize) -> (r: Self)
        ensures
            r.context == context,
            r.input == input,
            r.offset == offset,
    {
        TokenCursor { context, input, offset }
    }

    /// The next item: padding is skipped; at the end of the input every call
    /// gives `EndOfStream`; a token cut short gives `Incomplete` and is not consumed.
    pub fn next(&mut self) -> (r: IonResult<RawStreamItem>)
        requires
            old(self).offset <= old(self).input@.len(),
        ensures
            stepped(*old(self), *final(self), r),
    {
        proof { lemma_skip_nops(self.input@, self.offset as nat); }
        while self.offset < self.input.len() && self.input[self.offset] == RawToken::Nop
            invariant
                old(self).offset <= self.offset <= self.input@.len(),
                self.input == old(self).input,
                self.context == old(self).context,
                skip_nops(self.input@, self.offset as nat) == skip_nops(old(self).input@, old(self).offset as nat),
            decreases self.input@.len() - self.offset,
        {
            self.offset = self.offset + 1;
        }
        if self.offset >= self.input.len() {
            return Ok(RawStreamItem::EndOfStream(self.input.len()));
        }
        let pos = self.offset;
        if self.input[pos] == RawToken::Incomplete {
            // Nothing is consumed: the caller retries once more input has arrived.
            return Err(IonError::Incomplete);
        }
        self.offset = pos + 1;
        read_token(self.context, self.input, pos)
    }
}

/// Reads the binary encoding's top-level tokens.
pub struct LazyRawBinaryReader_1_1<'data> {
    pub cursor: TokenCursor<'data>,
}

impl<'data> LazyRawBinaryReader_1_1<'data> {
    pub fn new(context: &'data EncodingContext, input: &'data Vec<RawToken>) -> (r: Self)
        ensures
            r.cursor == (TokenCursor { context, input, offset: 0 }),
    {
        Self::new_with_offset(context, input, 0)
    }

    fn new_with_offset(context: &'data EncodingContext, input: &'data Vec<RawToken>, stream_offset: usize) -> (r: Self)
        ensures
            r.cursor == (TokenCursor { context, input, offset: stream_offset }),
    {
        LazyRawBinaryReader_1_1 { cursor: TokenCursor::new(context, input, stream_offset) }
    }

    pub fn context(&self) -> (r: &'data EncodingContext)
        ensures
            r == self.cursor.context,
    {
        self.cursor.context
    }

    pub fn position(&self) -> (r: usize)
        ensures
            r == self.cursor.offset,
    {
        self.cursor.offset
    }

    /// The next item, as [`TokenCursor::next`] gives it.
    pub fn next(&mut self) -> (r: IonResult<RawStreamItem>)
        requires
            old(self).cursor.offset <= old(self).cursor.input@.len(),
        ensures
            stepped(old(self).cursor, final(self).cursor, r),
    {
        self.cursor.next()
    }
}

/// Reads the text encoding's top-level tokens. Comments and whitespace
/// between values reach it as padding.
pub struct LazyRawTextReader_1_1<'data> {
    pub cursor: TokenCursor<'data>,
}

impl<'data> LazyRawTextReader_1_1<'data> {
    pub fn new(context: &'data EncodingContext, input: &'data Vec<RawToken>) -> (r: Self)
        ensures
            r.cursor == (TokenCursor { context, input, offset: 0 }),
    {
        LazyRawTextReader_1_1 { cursor: TokenCursor::new(context, input, 0) }
    }

    pub fn context(&self) -> (r: &'data EncodingContext)
        ensures
            r == self.cursor.context,
    {
        self.cursor.context
    }

    pub fn position(&self) -> (r: usize)
        ensures
            r == self.cursor.offset,
    {
        self.cursor.offset
    }

    /// The next item, as [`TokenCursor::next`] gives it.
    pub fn next(&mut self) -> (r: IonResult<RawStreamItem>)
        requires
            old(self).cursor.offset <= old(self).cursor.input@.len(),
        ensures
            stepped(old(self).cursor, final(self).cursor, r),
    {
        self.cursor.next()
    }
}

/// An unexpanded element of a raw sequence.
#[derive(Copy, Clone, Debug, PartialEq, Eq, Structural)]
pub enum RawValueExpr {
    ValueLiteral(usize),
    EExp(usize),
}

/// Iterates over the cached child expressions of a raw sequence.
pub struct RawTextSequenceCacheIterator<'top> {
    pub child_exprs: &'top Vec<usize>,
    pub index: usize,
}

impl<'top> RawTextSequenceCacheIterator<'top> {
    pub fn new(child_exprs: &'top Vec<usize>) -> (r: Self)
        ensures
            r.child_exprs == child_exprs,
            r.index == 0,
    {
        RawTextSequenceCacheIterator { child_exprs, index: 0 }
    }

    /// The next child expression, in order.
    pub fn next(&mut self) -> (r: Option<usize>)
        ensures
            final(self).child_exprs == old(self).child_exprs,
            old(self).index < old(self).child_exprs@.len() ==> r == Some(old(self).child_exprs@[old(self).index as int])
                && final(self).index == old(self).index + 1,
            old(self).index >= old(self).child_exprs@.len() ==> r is None && final(self).index == old(self).index,
    {
        if self.index < self.child_exprs.len() {
            let e = self.child_exprs[self.index];
            self.index = self.index + 1;
            Some(e)
        } else {
            None
        }
    }
}

/// Iterates over the cached argument expressions of an e-expression.
pub struct TextEExpArgsIterator_1_1<'top> {
    pub arg_exprs: &'top Vec<usize>,
    pub index: usize,
}

impl<'top> TextEExpArgsIterator_1_1<'top> {
    pub fn new(arg_exprs: &'top Vec<usize>) -> (r: Self)
        ensures
            r.arg_exprs == arg_exprs,
            r.index == 0,
    {
        TextEExpArgsIterator_1_1 { arg_exprs, index: 0 }
    }

    /// The next argument expression, in order.
    pub fn next(&mut self) -> (r: Option<usize>)
        ensures
            final(self).arg_exprs == old(self).arg_exprs,
            old(self).index < old(self).arg_exprs@.len() ==> r == Some(old(self).arg_exprs@[old(self).index as int])
                && final(self).index == old(self).index + 1,
            old(self).index >= old(self).arg_exprs@.len() ==> r is None && final(self).index == old(self).index,
    {
        if self.index < self.arg_exprs.len() {
            let e = self.arg_exprs[self.index];
            self.index = self.index + 1;
            Some(e)
        } else {
            None
        }
    }

    /// True when every argument has been handed out.
    pub fn is_exhausted(&self) -> (r: bool)
        ensures
            r == (self.index >= self.arg_exprs@.len()),
    {
        self.index >= self.arg_exprs.len()
    }

    /// The number of arguments, exactly: a lower and an upper bound.
    pub fn size_hint(&self) -> (r: (usize, Option<usize>))
        ensures
            r == (self.arg_exprs@.len() as usize, Some(self.arg_exprs@.len() as usize)),
    {
        let n = self.arg_exprs.len();
        (n, Some(n))
    }
}

/// An e-expression as the text reader matched it: the macro it names and its arguments.
pub struct TextEExpression_1_1<'top> {
    pub id: MacroIdRef<'top>,
    pub arg_cache: &'top Vec<usize>,
}

impl<'top> TextEExpression_1_1<'top> {
    pub fn new(id: MacroIdRef<'top>, arg_cache: &'top Vec<usize>) -> (r: Self)
        ensures
            r.id == id,
            r.arg_cache == arg_cache,
    {
        TextEExpression_1_1 { id, arg_cache }
    }

    pub fn id(&self) -> (r: MacroIdRef<'top>)
        ensures
            r == self.id,
    {
        self.id
    }

    pub fn raw_arguments(&self) -> (r: TextEExpArgsIterator_1_1<'top>)
        ensures
            r.arg_exprs == self.arg_cache,
            r.index == 0,
    {
        TextEExpArgsIterator_1_1::new(self.arg_cache)
    }

    /// The e-expression at `e`, if `e` is one.
    pub fn from_expr(ctx: &'top EncodingContext, e: usize) -> (r: Option<Self>)
        ensures
            r is Some <==> (e < ctx.exprs@.len() && ctx.exprs@[e as int] is Invoke),
            r matches Some(x) ==> x.arg_cache == &ctx.exprs@[e as int]->Invoke_1
                && x.id.view_id() == ctx.exprs@[e as int]->Invoke_0.view_id(),
    {
        if e >= ctx.exprs.len() {
            return None;
        }
        match &ctx.exprs[e] {
            Expr::Invoke(id, args) => Some(TextEExpression_1_1::new(id.as_ref(), args)),
            _ => None,
        }
    }
}

/// A raw struct of the text encoding: its field expressions, unexpanded.
pub struct LazyRawTextStruct<'top> {
    pub context: &'top EncodingContext,
    pub expr: usize,
}

impl<'top> LazyRawTextStruct<'top> {
    /// The struct literal at `e`, if `e` is one.
    pub fn from_expr(context: &'top EncodingContext, e: usize) -> (r: Option<Self>)
        ensures
            r is Some <==> (e < context.exprs@.len() && context.exprs@[e as int] is Struct),
            r matches Some(x) ==> x.context == context && x.expr == e,
    {
        if e < context.exprs.len() {
            match &context.exprs[e] {
                Expr::Struct(_) => { return Some(LazyRawTextStruct { context, expr: e }); },
                _ => {},
            }
        }
        None
    }

    /// The raw field expressions, in order.
    pub fn fields(&self) -> (r: Option<&'top Vec<RawFieldExpr>>)
        ensures
            (self.expr < self.context.exprs@.len() && self.context.exprs@[self.expr as int] is Struct)
                ==> r == Some(&self.context.exprs@[self.expr as int]->Struct_0),
    {
        if self.expr >= self.context.exprs.len() {
            return None;
        }
        match &self.context.exprs[self.expr] {
            Expr::Struct(fields) => Some(fields),
            _ => None,
        }
    }
}

/// A raw list or s-expression of the binary encoding.
pub struct LazyRawBinarySequence_1_1<'top> {
    pub context: &'top EncodingContext,
    pub expr: usize,
}

impl<'top> LazyRawBinarySequence_1_1<'top> {
    pub open spec fn wf(&self) -> bool {
        self.expr < self.context.exprs@.len()
            && (self.context.exprs@[self.expr as int] is List || self.context.exprs@[self.expr as int] is SExp)
    }

    pub fn new(context: &'top EncodingContext, expr: usize) -> (r: Self)
        ensures
            r.context == context,
            r.expr == expr,
    {
        LazyRawBinarySequence_1_1 { context, expr }
    }

    pub fn ion_type(&self) -> (r: IonType)
        requires
            self.wf(),
        ensures
            self.context.exprs@[self.expr as int] is List ==> r == IonType::List,
            self.context.exprs@[self.expr as int] is SExp ==> r == IonType::SExp,
    {
        match &self.context.exprs[self.expr] {
            Expr::SExp(_) => IonType::SExp,
            _ => IonType::List,
        }
    }

    /// An iterator over the sequence's raw child expressions.
    pub fn iter(&self) -> (r: RawBinarySequenceIterator_1_1<'top>)
        ensures
            r.context == self.context,
            r.expr == self.expr,
            r.index == 0,
    {
        RawBinarySequenceIterator_1_1::new(self.context, self.expr)
    }
}

/// A raw list of the binary encoding.
pub struct LazyRawBinaryList_1_1<'top> {
    pub sequence: LazyRawBinarySequence_1_1<'top>,
}

/// A raw s-expression of the binary encoding.
pub struct LazyRawBinarySExp_1_1<'top> {
    pub sequence: LazyRawBinarySequence_1_1<'top>,
}

impl<'top> LazyRawBinaryList_1_1<'top> {
    pub fn ion_type(&self) -> (r: IonType)
        ensures
            r == IonType::List,
    {
        IonType::List
    }
}

impl<'top> LazyRawBinarySExp_1_1<'top> {
    pub fn ion_type(&self) -> (r: IonType)
        ensures
            r == IonType::SExp,
    {
        IonType::SExp
    }
}

/// Iterates over the raw child expressions of a binary sequence, in order.
pub struct RawBinarySequenceIterator_1_1<'top> {
    pub context: &'top EncodingContext,
    pub expr: usize,
    pub index: usize,
}

impl<'top> RawBinarySequenceIterator_1_1<'top> {
    pub fn new(context: &'top EncodingContext, expr: usize) -> (r: Self)
        ensures
            r.context == context,
            r.expr == expr,
            r.index == 0,
    {
        RawBinarySequenceIterator_1_1 { context, expr, index: 0 }
    }

    pub open spec fn children(&self) -> Seq<usize> {
        if self.expr < self.context.exprs@.len() {
            crate::evaluator::sequence_children(self.context, self.expr)
        } else {
            Seq::empty()
        }
    }

    /// The next child: an e-expression or a value literal.
    pub fn next(&mut self) -> (r: Option<RawValueExpr>)
        ensures
            final(self).context == old(self).context,
            final(self).expr == old(self).expr,
            old(self).index >= old(self).children().len() ==> r is None,
            old(self).index < old(self).children().len() ==> {
                let e = old(self).children()[old(self).index as int];
                &&& final(self).index == old(self).index + 1
                &&& (e < old(self).context.exprs@.len() && old(self).context.exprs@[e as int] is Invoke)
                    ==> r == Some(RawValueExpr::EExp(e))
                &&& !(e < old(self).context.exprs@.len() && old(self).context.exprs@[e as int] is Invoke)
                    ==> r == Some(RawValueExpr::ValueLiteral(e))
            },
    {
        if self.expr >= self.context.exprs.len() {
            return None;
        }
        let children = match &self.context.exprs[self.expr] {
            Expr::List(c) => c,
            Expr::SExp(c) => c,
            _ => { return None; },
        };
        if self.index >= children.len() {
            return None;
        }
        let e = children[self.index];
        self.index = self.index + 1;
        if e < self.context.exprs.len() {
            match &self.context.exprs[e] {
                Expr::Invoke(_, _) => { return Some(RawValueExpr::EExp(e)); },
                _ => {},
            }
        }
        Some(RawValueExpr::ValueLiteral(e))
    }
}

} // verus!
