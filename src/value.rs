//! The expressions that a raw source hands to the engine.
use vstd::prelude::*;
use crate::macro_id::MacroId;

verus! {

/// The types of values in the data model.
#[derive(Copy, Clone, Debug, PartialEq, Eq, Structural)]
pub enum IonType {
    Null,
    Bool,
    Int,
    Decimal,
    Timestamp,
    Symbol,
    String,
    Clob,
    Blob,
    List,
    SExp,
    Struct,
}

/// A symbol as written in the input: a symbol ID (to be looked up in the
/// symbol table) or inline text.
#[derive(Clone, Debug)]
pub enum RawSymbol {
    SymbolId(usize),
    Text(String),
}

/// The mathematical value of a [`RawSymbol`].
pub enum RawSymbolView {
    SymbolId(usize),
    Text(Seq<char>),
}

impl View for RawSymbol {
    type V = RawSymbolView;

    open spec fn view(&self) -> RawSymbolView {
        match self {
            RawSymbol::SymbolId(i) => RawSymbolView::SymbolId(*i),
            RawSymbol::Text(t) => RawSymbolView::Text(t@),
        }
    }
}

impl RawSymbol {
    /// A copy of this symbol.
    pub fn copy(&self) -> (r: RawSymbol)
        ensures
            r@ == self@,
            r == *self,
    {
        match self {
            RawSymbol::SymbolId(i) => RawSymbol::SymbolId(*i),
            RawSymbol::Text(t) => RawSymbol::Text(t.clone()),
        }
    }
}

/// A point in time, as its calendar fields: the local date and time, and
/// the offset from UTC in minutes when it is known.
#[derive(Copy, Clone, Debug)]
pub struct Timestamp {
    pub year: u16,
    pub month: u8,
    pub day: u8,
    pub hour: u8,
    pub minute: u8,
    pub second: u8,
    pub nanosecond: u32,
    pub offset_known: bool,
    pub offset_minutes: i16,
}

/// A scalar payload.
#[derive(Clone, Debug)]
pub enum Scalar {
    Null(IonType),
    Bool(bool),
    Int(i128),
    /// `coefficient * 10^exponent`
    Decimal(i128, i64),
    Timestamp(Timestamp),
    String(String),
    Symbol(RawSymbol),
    Blob(Vec<u8>),
    Clob(Vec<u8>),
}

/// One field position of a raw struct.
#[derive(Clone, Debug)]
pub enum RawFieldExpr {
    /// A field name and the expression in value position: a value literal or
    /// a macro invocation.
    NameValue(RawSymbol, usize),
    /// A macro invocation in field-name position.
    EExp(usize),
    /// Padding that the binary encoding allows between fields.
    Nop,
}

/// One expression of the arena. Child expressions are referred to by their
/// index in the arena.
#[derive(Clone, Debug)]
pub enum Expr {
    Scalar(Scalar),
    List(Vec<usize>),
    SExp(Vec<usize>),
    Struct(Vec<RawFieldExpr>),
    /// A reference, in a template body, to the argument at this position.
    /// An argument is read under the bindings of the place where it was
    /// written, however deeply the invocation that passed it is nested.
    Param(usize),
    /// An argument group: zero or more expressions passed to one parameter.
    ArgGroup(Vec<usize>),
    /// A macro invocation with its argument expressions.
    Invoke(MacroId, Vec<usize>),
}

impl Expr {
    /// True for the expressions that are values themselves.
    pub open spec fn is_value_literal(self) -> bool {
        self is Scalar || self is List || self is SExp || self is Struct
    }

    pub fn is_literal(&self) -> (r: bool)
        ensures
            r == self.is_value_literal(),
    {
        match self {
            Expr::Scalar(_) | Expr::List(_) | Expr::SExp(_) | Expr::Struct(_) => true,
            _ => false,
        }
    }

    /// The type of a value literal.
    pub fn ion_type(&self) -> (r: Option<IonType>)
        ensures
            r is Some <==> self.is_value_literal(),
            self is List ==> r == Some(IonType::List),
            self is SExp ==> r == Some(IonType::SExp),
            self is Struct ==> r == Some(IonType::Struct),
    {
        match self {
            Expr::Scalar(s) => Some(s.ion_type()),
            Expr::List(_) => Some(IonType::List),
            Expr::SExp(_) => Some(IonType::SExp),
            Expr::Struct(_) => Some(IonType::Struct),
            _ => None,
        }
    }
}

impl Scalar {
    pub open spec fn spec_ion_type(self) -> IonType {
        match self {
            Scalar::Null(t) => t,
            Scalar::Bool(_) => IonType::Bool,
            Scalar::Int(_) => IonType::Int,
            Scalar::Decimal(_, _) => IonType::Decimal,
            Scalar::Timestamp(_) => IonType::Timestamp,
            Scalar::String(_) => IonType::String,
            Scalar::Symbol(_) => IonType::Symbol,
            Scalar::Blob(_) => IonType::Blob,
            Scalar::Clob(_) => IonType::Clob,
        }
    }

    pub fn ion_type(&self) -> (r: IonType)
        ensures
            r == self.spec_ion_type(),
    {
        match self {
            Scalar::Null(t) => *t,
            Scalar::Bool(_) => IonType::Bool,
            Scalar::Int(_) => IonType::Int,
            Scalar::Decimal(_, _) => IonType::Decimal,
            Scalar::Timestamp(_) => IonType::Timestamp,
            Scalar::String(_) => IonType::String,
            Scalar::Symbol(_) => IonType::Symbol,
            Scalar::Blob(_) => IonType::Blob,
            Scalar::Clob(_) => IonType::Clob,
        }
    }
}

} // verus!
