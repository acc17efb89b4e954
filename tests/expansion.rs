use ion_rs::context::{Cardinality, EncodingContext, IonError, MacroTable, Parameter, ResolvedMacro, SystemMacro};
use ion_rs::evaluator::{Environment, LazyExpandedValue, MacroEvaluator};
use ion_rs::expanded_struct::{ExpandedStructIterator, ExpandedStructSource, FieldExpr, LazyExpandedFieldName, LazyExpandedStruct};
use ion_rs::expanded_value::ExpandedValueRef;
use ion_rs::macro_id::{MacroId, SystemMacroAddress};
use ion_rs::value::{Expr, RawFieldExpr, RawSymbol, Scalar, Timestamp};

const VALUES: u8 = 0x01;
const MAKE_FIELD: u8 = 0x10;
const MAKE_STRUCT: u8 = 0x11;
const NONE: u8 = 0x00;

fn num(ctx: &mut EncodingContext, i: i64) -> usize {
    ctx.add_expr(Expr::Scalar(Scalar::Int(i as i128)))
}

fn sym(ctx: &mut EncodingContext, text: &str) -> usize {
    ctx.add_expr(Expr::Scalar(Scalar::Symbol(RawSymbol::Text(text.to_string()))))
}

fn field(name: &str, value: usize) -> RawFieldExpr {
    RawFieldExpr::NameValue(RawSymbol::Text(name.to_string()), value)
}

fn strukt(ctx: &mut EncodingContext, fields: Vec<RawFieldExpr>) -> usize {
    ctx.add_expr(Expr::Struct(fields))
}

fn system(ctx: &mut EncodingContext, address: u8, args: Vec<usize>) -> usize {
    ctx.add_expr(Expr::Invoke(MacroId::SystemAddress(SystemMacroAddress(address)), args))
}

fn local(ctx: &mut EncodingContext, name: &str, args: Vec<usize>) -> usize {
    ctx.add_expr(Expr::Invoke(MacroId::LocalName(name.to_string()), args))
}

fn read_int(ctx: &EncodingContext, v: &LazyExpandedValue) -> i64 {
    match v.read(ctx) {
        Ok(ExpandedValueRef::Int(i)) => i as i64,
        _ => panic!("expected an int"),
    }
}

/// Collects (name, int value) for every field; panics on an error.
fn collect(ctx: &EncodingContext, s: &LazyExpandedStruct) -> Vec<(String, i64)> {
    let mut it: ExpandedStructIterator = s.iter();
    let mut out = Vec::new();
    while let Some(f) = it.next_field() {
        let f = f.expect("field");
        let name = f.name.read(ctx).expect("name");
        out.push((name, read_int(ctx, &f.value)));
    }
    out
}

fn collect_result(s: &LazyExpandedStruct) -> Result<usize, IonError> {
    let mut it = s.iter();
    let mut n = 0;
    while let Some(f) = it.next_field() {
        f?;
        n += 1;
    }
    Ok(n)
}

fn pairs(items: &[(&str, i64)]) -> Vec<(String, i64)> {
    items.iter().map(|(n, v)| (n.to_string(), *v)).collect()
}

#[test]
fn make_struct_in_field_name_position_is_spliced_in_order() {
    let mut ctx = EncodingContext::new();
    let one = num(&mut ctx, 1);
    let two = num(&mut ctx, 2);
    let three = num(&mut ctx, 3);
    let four = num(&mut ctx, 4);
    let b = strukt(&mut ctx, vec![field("b", two)]);
    let c = strukt(&mut ctx, vec![field("c", three)]);
    let inv = system(&mut ctx, MAKE_STRUCT, vec![b, c]);
    let s = strukt(&mut ctx, vec![field("a", one), RawFieldExpr::EExp(inv), field("d", four)]);
    let st = LazyExpandedStruct::from_literal(&ctx, s);
    assert_eq!(collect(&ctx, &st), pairs(&[("a", 1), ("b", 2), ("c", 3), ("d", 4)]));
}

#[test]
fn template_values_in_value_position_repeats_the_field_name() {
    let mut ctx = EncodingContext::new();
    let one = num(&mut ctx, 1);
    let two = num(&mut ctx, 2);
    let three = num(&mut ctx, 3);
    let body = system(&mut ctx, VALUES, vec![one, two, three]);
    ctx.define_template(Some("three_values".to_string()), vec![], vec![body]).unwrap();
    let inv = local(&mut ctx, "three_values", vec![]);
    let s = strukt(&mut ctx, vec![field("bar", inv)]);
    let st = LazyExpandedStruct::from_literal(&ctx, s);
    assert_eq!(collect(&ctx, &st), pairs(&[("bar", 1), ("bar", 2), ("bar", 3)]));
}

#[test]
fn nop_padded_field_is_skipped() {
    let mut ctx = EncodingContext::new();
    let one = num(&mut ctx, 1);
    let s = strukt(&mut ctx, vec![RawFieldExpr::Nop, RawFieldExpr::Nop, field("foo", one)]);
    let st = LazyExpandedStruct::from_literal(&ctx, s);
    assert_eq!(collect(&ctx, &st), pairs(&[("foo", 1)]));
}

#[test]
fn find_on_template_struct_returns_first_of_two_equal_names() {
    let mut ctx = EncodingContext::new();
    let one = num(&mut ctx, 1);
    let two = num(&mut ctx, 2);
    let s = strukt(&mut ctx, vec![field("foo", two), field("bar", one), field("bar", two)]);
    let t = ctx.define_template(Some("with_bars".to_string()), vec![], vec![s]).unwrap();
    assert_eq!(ctx.macros.templates[t].struct_indexes.len(), 1);
    let st = LazyExpandedStruct::from_template(&ctx, t, s, Environment::empty());
    let found = st.find("bar").unwrap().expect("bar is there");
    assert_eq!(read_int(&ctx, &found), 1);
    assert!(st.find("baz").unwrap().is_none());
    match st.get("foo").unwrap() {
        Some(ExpandedValueRef::Int(i)) => assert_eq!(i, 2),
        _ => panic!("expected foo: 2"),
    }
    assert!(st.get_expected("quux").is_err());
}

#[test]
fn template_struct_read_from_expansion_uses_its_index() {
    let mut ctx = EncodingContext::new();
    let one = num(&mut ctx, 1);
    let two = num(&mut ctx, 2);
    let s = strukt(&mut ctx, vec![field("bar", one), field("bar", two)]);
    ctx.define_template(Some("bars".to_string()), vec![], vec![s]).unwrap();
    let inv = local(&mut ctx, "bars", vec![]);
    let mut ev = MacroEvaluator::new();
    ev.push(&ctx, inv, 0);
    let v = ev.next(&ctx).unwrap().expect("one struct");
    match v.read(&ctx).unwrap() {
        ExpandedValueRef::Struct(st) => {
            assert!(matches!(st.source, ExpandedStructSource::Template(_, _, _)));
            assert_eq!(read_int(&ctx, &st.find("bar").unwrap().unwrap()), 1);
        },
        _ => panic!("expected a struct"),
    }
    assert!(ev.next(&ctx).unwrap().is_none());
    assert!(ev.is_empty());
}

#[test]
fn find_on_literal_struct_scans_in_order() {
    let mut ctx = EncodingContext::new();
    let one = num(&mut ctx, 1);
    let two = num(&mut ctx, 2);
    let three = num(&mut ctx, 3);
    let vals = system(&mut ctx, VALUES, vec![two, three]);
    let s = strukt(&mut ctx, vec![field("foo", one), field("bar", vals)]);
    let st = LazyExpandedStruct::from_literal(&ctx, s);
    assert_eq!(read_int(&ctx, &st.find("bar").unwrap().unwrap()), 2);
    assert!(st.find("quux").unwrap().is_none());
}

#[test]
fn make_field_struct_has_exactly_one_field() {
    let mut ctx = EncodingContext::new();
    let name = sym(&mut ctx, "foo");
    let seven = num(&mut ctx, 7);
    let inv = system(&mut ctx, MAKE_FIELD, vec![name, seven]);
    let s = strukt(&mut ctx, vec![RawFieldExpr::EExp(inv)]);
    let st = LazyExpandedStruct::from_literal(&ctx, s);
    assert_eq!(collect(&ctx, &st), pairs(&[("foo", 7)]));
}

#[test]
fn values_under_one_name_keep_argument_order() {
    let mut ctx = EncodingContext::new();
    let v: Vec<usize> = (0..5).map(|i| num(&mut ctx, 10 - i)).collect();
    let inv = system(&mut ctx, VALUES, v.clone());
    let s = strukt(&mut ctx, vec![field("n", inv)]);
    let st = LazyExpandedStruct::from_literal(&ctx, s);
    assert_eq!(collect(&ctx, &st), pairs(&[("n", 10), ("n", 9), ("n", 8), ("n", 7), ("n", 6)]));
}

#[test]
fn make_struct_with_a_non_struct_argument_is_a_decoding_error() {
    let mut ctx = EncodingContext::new();
    let one = num(&mut ctx, 1);
    let b = strukt(&mut ctx, vec![field("b", one)]);
    let inv = system(&mut ctx, MAKE_STRUCT, vec![b, one]);
    let s = strukt(&mut ctx, vec![RawFieldExpr::EExp(inv)]);
    let st = LazyExpandedStruct::from_literal(&ctx, s);
    let mut it = st.iter();
    let first = it.next_field().unwrap().unwrap();
    assert_eq!(first.name.read(&ctx).unwrap(), "b");
    assert!(matches!(it.next_field(), Some(Err(IonError::Decoding(_)))));
}

#[test]
fn macro_in_name_position_producing_a_scalar_is_an_error() {
    let mut ctx = EncodingContext::new();
    let one = num(&mut ctx, 1);
    let inv = system(&mut ctx, VALUES, vec![one]);
    let s = strukt(&mut ctx, vec![RawFieldExpr::EExp(inv)]);
    let st = LazyExpandedStruct::from_literal(&ctx, s);
    assert!(collect_result(&st).is_err());
}

#[test]
fn macro_in_name_position_producing_nothing_is_a_no_op() {
    let mut ctx = EncodingContext::new();
    let one = num(&mut ctx, 1);
    let two = num(&mut ctx, 2);
    let none = system(&mut ctx, NONE, vec![]);
    let empty_values = system(&mut ctx, VALUES, vec![]);
    let s = strukt(&mut ctx, vec![field("a", one), RawFieldExpr::EExp(none), RawFieldExpr::EExp(empty_values), field("b", two)]);
    let st = LazyExpandedStruct::from_literal(&ctx, s);
    assert_eq!(collect(&ctx, &st), pairs(&[("a", 1), ("b", 2)]));
}

#[test]
fn macro_in_name_position_producing_several_structs_splices_each() {
    let mut ctx = EncodingContext::new();
    let one = num(&mut ctx, 1);
    let two = num(&mut ctx, 2);
    let three = num(&mut ctx, 3);
    let dog = strukt(&mut ctx, vec![field("dog", one)]);
    let cat = strukt(&mut ctx, vec![field("cat", two)]);
    let mouse = strukt(&mut ctx, vec![field("mouse", three)]);
    let body = system(&mut ctx, VALUES, vec![dog, cat, mouse]);
    ctx.define_template(Some("three_structs".to_string()), vec![], vec![body]).unwrap();
    let inv = local(&mut ctx, "three_structs", vec![]);
    let zero = num(&mut ctx, 0);
    let s = strukt(&mut ctx, vec![field("foo", zero), RawFieldExpr::EExp(inv), field("quux", one)]);
    let st = LazyExpandedStruct::from_literal(&ctx, s);
    assert_eq!(
        collect(&ctx, &st),
        pairs(&[("foo", 0), ("dog", 1), ("cat", 2), ("mouse", 3), ("quux", 1)])
    );
}

#[test]
fn reading_a_value_twice_gives_equal_results() {
    let mut ctx = EncodingContext::new();
    let s = ctx.add_expr(Expr::Scalar(Scalar::String("hello".to_string())));
    let v = LazyExpandedValue::Literal(s);
    let a = v.read(&ctx).unwrap();
    let b = v.read(&ctx).unwrap();
    match (a, b) {
        (ExpandedValueRef::String(x), ExpandedValueRef::String(y)) => {
            assert_eq!(x, "hello");
            assert_eq!(x, y);
        },
        _ => panic!("expected strings"),
    }
}

#[test]
fn symbol_id_and_inline_field_names_read_alike() {
    let mut ctx = EncodingContext::new();
    let id = ctx.add_symbol("foo".to_string());
    let one = num(&mut ctx, 1);
    let two = num(&mut ctx, 2);
    let s = strukt(&mut ctx, vec![
        RawFieldExpr::NameValue(RawSymbol::SymbolId(id), one),
        RawFieldExpr::Nop,
        field("foo", two),
    ]);
    let st = LazyExpandedStruct::from_literal(&ctx, s);
    assert_eq!(collect(&ctx, &st), pairs(&[("foo", 1), ("foo", 2)]));
    let unknown = strukt(&mut ctx, vec![RawFieldExpr::NameValue(RawSymbol::SymbolId(99), one)]);
    let st = LazyExpandedStruct::from_literal(&ctx, unknown);
    let f = st.iter().next_field().unwrap().unwrap();
    assert!(f.name.read(&ctx).is_err());
    assert!(!f.name.is_ephemeral());
}

#[test]
fn template_parameters_bind_arguments() {
    let mut ctx = EncodingContext::new();
    let p0 = ctx.add_expr(Expr::Param(0));
    let p1 = ctx.add_expr(Expr::Param(1));
    let body = system(&mut ctx, VALUES, vec![p1, p0, p1]);
    let params = vec![
        Parameter { name: "x".to_string(), cardinality: Cardinality::ExactlyOne },
        Parameter { name: "y".to_string(), cardinality: Cardinality::ZeroOrMore },
    ];
    ctx.define_template(Some("swap".to_string()), params, vec![body]).unwrap();
    let one = num(&mut ctx, 1);
    let two = num(&mut ctx, 2);
    let three = num(&mut ctx, 3);
    let group = ctx.add_expr(Expr::ArgGroup(vec![two, three]));
    let inv = local(&mut ctx, "swap", vec![one, group]);
    let mut ev = MacroEvaluator::new();
    ev.push(&ctx, inv, 0);
    let mut got = Vec::new();
    while let Some(v) = ev.next(&ctx).unwrap() {
        got.push(read_int(&ctx, &v));
    }
    assert_eq!(got, vec![2, 3, 1, 2, 3]);
    assert!(ev.next(&ctx).unwrap().is_none());
}

#[test]
fn argument_group_for_a_single_parameter_is_rejected() {
    let mut ctx = EncodingContext::new();
    let p0 = ctx.add_expr(Expr::Param(0));
    let params = vec![Parameter { name: "x".to_string(), cardinality: Cardinality::ExactlyOne }];
    ctx.define_template(Some("id".to_string()), params, vec![p0]).unwrap();
    let one = num(&mut ctx, 1);
    let group = ctx.add_expr(Expr::ArgGroup(vec![one]));
    let inv = local(&mut ctx, "id", vec![group]);
    let mut ev = MacroEvaluator::new();
    ev.push(&ctx, inv, 0);
    assert!(ev.next(&ctx).is_err());
}

#[test]
fn wrong_arity_is_a_decoding_error() {
    let mut ctx = EncodingContext::new();
    let p0 = ctx.add_expr(Expr::Param(0));
    let params = vec![Parameter { name: "x".to_string(), cardinality: Cardinality::ExactlyOne }];
    ctx.define_template(Some("id".to_string()), params, vec![p0]).unwrap();
    let inv = local(&mut ctx, "id", vec![]);
    let mut ev = MacroEvaluator::new();
    ev.push(&ctx, inv, 0);
    assert!(matches!(ev.next(&ctx), Err(IonError::Decoding(_))));
}

#[test]
fn unknown_macro_is_a_decoding_error() {
    let mut ctx = EncodingContext::new();
    let by_name = local(&mut ctx, "nope", vec![]);
    let by_address = ctx.add_expr(Expr::Invoke(MacroId::LocalAddress(3), vec![]));
    let by_system = system(&mut ctx, 0x40, vec![]);
    for inv in [by_name, by_address, by_system] {
        let mut ev = MacroEvaluator::new();
        ev.push(&ctx, inv, 0);
        assert!(ev.next(&ctx).is_err());
    }
}

#[test]
fn self_recursive_template_fails_with_depth_error() {
    let mut ctx = EncodingContext::new();
    let again = local(&mut ctx, "forever", vec![]);
    ctx.define_template(Some("forever".to_string()), vec![], vec![again]).unwrap();
    let mut ev = MacroEvaluator::new();
    ev.push(&ctx, again, 0);
    assert!(matches!(ev.next(&ctx), Err(IonError::Decoding(_))));
}

#[test]
fn nested_values_flatten_in_order() {
    let mut ctx = EncodingContext::new();
    let v: Vec<usize> = (1..=4).map(|i| num(&mut ctx, i)).collect();
    let inner = system(&mut ctx, VALUES, vec![v[1], v[2]]);
    let empty = system(&mut ctx, VALUES, vec![]);
    let outer = system(&mut ctx, VALUES, vec![v[0], empty, inner, v[3]]);
    let mut ev = MacroEvaluator::new();
    ev.push(&ctx, outer, 0);
    let mut got = Vec::new();
    while let Some(x) = ev.next(&ctx).unwrap() {
        got.push(read_int(&ctx, &x));
    }
    assert_eq!(got, vec![1, 2, 3, 4]);
}

#[test]
fn list_elements_are_expanded_in_place() {
    let mut ctx = EncodingContext::new();
    let v: Vec<usize> = (1..=4).map(|i| num(&mut ctx, i)).collect();
    let inner = system(&mut ctx, VALUES, vec![v[1], v[2]]);
    let list = ctx.add_expr(Expr::List(vec![v[0], inner, v[3]]));
    let value = LazyExpandedValue::Literal(list);
    let seq = match value.read(&ctx).unwrap() {
        ExpandedValueRef::List(l) => l,
        _ => panic!("expected a list"),
    };
    let mut it = seq.iter();
    let mut got = Vec::new();
    while let Some(x) = it.next().unwrap() {
        got.push(read_int(&ctx, &x));
    }
    assert_eq!(got, vec![1, 2, 3, 4]);
}

#[test]
fn make_field_result_read_as_struct() {
    let mut ctx = EncodingContext::new();
    let name = ctx.add_expr(Expr::Scalar(Scalar::String("greeting".to_string())));
    let five = num(&mut ctx, 5);
    let inv = system(&mut ctx, MAKE_FIELD, vec![name, five]);
    let mut ev = MacroEvaluator::new();
    ev.push(&ctx, inv, 0);
    let v = ev.next(&ctx).unwrap().unwrap();
    let st = match v.read(&ctx).unwrap() {
        ExpandedValueRef::Struct(s) => s,
        _ => panic!("expected a struct"),
    };
    let fields = collect(&ctx, &st);
    assert_eq!(fields, pairs(&[("greeting", 5)]));
    let f = st.iter().next_field().unwrap().unwrap();
    assert!(f.name.is_ephemeral());
    assert!(f.name.raw().is_none());
}

#[test]
fn make_field_with_bad_arguments_is_an_error() {
    let mut ctx = EncodingContext::new();
    let one = num(&mut ctx, 1);
    let inv = system(&mut ctx, MAKE_FIELD, vec![one, one]);
    let mut ev = MacroEvaluator::new();
    ev.push(&ctx, inv, 0);
    assert!(ev.next(&ctx).is_err());
    let short = system(&mut ctx, MAKE_FIELD, vec![one]);
    let mut ev = MacroEvaluator::new();
    ev.push(&ctx, short, 0);
    assert!(ev.next(&ctx).is_err());
}

#[test]
fn field_expr_helpers() {
    let mut ctx = EncodingContext::new();
    let one = num(&mut ctx, 1);
    let name = LazyExpandedFieldName::RawName(RawSymbol::Text("foo".to_string()));
    let fe = FieldExpr::NameValue(name, LazyExpandedValue::Literal(one));
    assert!(fe.name_is(&ctx, "foo").unwrap());
    assert!(!fe.name_is(&ctx, "bar").unwrap());
    let expanded = fe.expect_expanded().unwrap();
    assert_eq!(read_int(&ctx, expanded.value()), 1);
    let e = FieldExpr::EExp(one);
    assert!(!e.name_is(&ctx, "foo").unwrap());
    assert!(e.name().is_none());
    assert!(e.expect_expanded().is_err());
    let m = FieldExpr::NameMacro(LazyExpandedFieldName::MakeField(one), one);
    assert!(m.expect_expanded().is_err());
}

#[test]
fn macro_table_resolution_and_stale_references() {
    let mut ctx = EncodingContext::new();
    let a = ctx.define_template(Some("a".to_string()), vec![], vec![]).unwrap();
    let b = ctx.define_template(Some("b".to_string()), vec![], vec![]).unwrap();
    assert_eq!((a, b), (0, 1));
    assert_eq!(ctx.macros.address_for_name("b"), Some(1));
    assert_eq!(ctx.macros.address_for_name("c"), None);
    let r = ctx.macros.macro_ref(b).unwrap();
    assert_eq!(ctx.macros.check_ref(r).unwrap(), 1);
    let mut other = MacroTable::new();
    assert!(other.check_ref(r).is_err());
    other.next_id = 5;
    assert_eq!(other.len(), 0);
    let id = MacroId::SystemAddress(SystemMacroAddress(0x11));
    assert!(matches!(ctx.macros.resolve(id.as_ref()), Ok(ResolvedMacro::System(SystemMacro::MakeStruct))));
    let named = MacroId::LocalName("a".to_string());
    assert!(matches!(ctx.macros.resolve(named.as_ref()), Ok(ResolvedMacro::Template(0))));
}

fn expect_name_value(ctx: &EncodingContext, fe: FieldExpr, name: &str, value: i64) {
    match fe {
        FieldExpr::NameValue(n, v) => {
            assert_eq!(n.read(ctx).unwrap(), name);
            assert_eq!(read_int(ctx, &v), value);
        },
        _ => panic!("expected a name/value field expression"),
    }
}

#[test]
fn field_kinds() {
    let mut ctx = EncodingContext::new();
    let zero = num(&mut ctx, 0);
    let one = num(&mut ctx, 1);
    let two = num(&mut ctx, 2);
    let three = num(&mut ctx, 3);
    let truth = ctx.add_expr(Expr::Scalar(Scalar::Bool(true)));
    let values = system(&mut ctx, VALUES, vec![one, two, three]);
    ctx.define_template(Some("three_values".to_string()), vec![], vec![values]).unwrap();
    let dog = strukt(&mut ctx, vec![field("dog", one)]);
    let cat = strukt(&mut ctx, vec![field("cat", two)]);
    let mouse = strukt(&mut ctx, vec![field("mouse", three)]);
    let structs = system(&mut ctx, VALUES, vec![dog, cat, mouse]);
    ctx.define_template(Some("three_structs".to_string()), vec![], vec![structs]).unwrap();
    let bar_inv = local(&mut ctx, "three_values", vec![]);
    let eexp = local(&mut ctx, "three_structs", vec![]);
    let s = strukt(&mut ctx, vec![field("foo", zero), field("bar", bar_inv), RawFieldExpr::EExp(eexp), field("quux", truth)]);
    let st = LazyExpandedStruct::from_literal(&ctx, s);
    let mut fields = st.field_exprs();

    expect_name_value(&ctx, fields.next().unwrap().unwrap(), "foo", 0);
    match fields.next().unwrap().unwrap() {
        FieldExpr::NameMacro(name, invocation) => {
            assert_eq!(name.read(&ctx).unwrap(), "bar");
            assert_eq!(invocation, bar_inv);
        },
        _ => panic!("expected a name/macro field expression"),
    }
    expect_name_value(&ctx, fields.next().unwrap().unwrap(), "bar", 1);
    expect_name_value(&ctx, fields.next().unwrap().unwrap(), "bar", 2);
    expect_name_value(&ctx, fields.next().unwrap().unwrap(), "bar", 3);
    assert!(matches!(fields.next().unwrap().unwrap(), FieldExpr::EExp(e) if e == eexp));
    expect_name_value(&ctx, fields.next().unwrap().unwrap(), "dog", 1);
    expect_name_value(&ctx, fields.next().unwrap().unwrap(), "cat", 2);
    expect_name_value(&ctx, fields.next().unwrap().unwrap(), "mouse", 3);
    match fields.next().unwrap().unwrap() {
        FieldExpr::NameValue(n, v) => {
            assert_eq!(n.read(&ctx).unwrap(), "quux");
            assert!(matches!(v.read(&ctx).unwrap(), ExpandedValueRef::Bool(true)));
        },
        _ => panic!("expected quux: true"),
    }
    assert!(fields.next().is_none());
}

#[test]
fn field_exprs_of_make_struct_give_fields_only() {
    let mut ctx = EncodingContext::new();
    let one = num(&mut ctx, 1);
    let two = num(&mut ctx, 2);
    let a = strukt(&mut ctx, vec![field("a", one)]);
    let b = strukt(&mut ctx, vec![field("b", two)]);
    let st = LazyExpandedStruct::from_make_struct(&ctx, vec![a, b]);
    let mut fields = st.field_exprs();
    expect_name_value(&ctx, fields.next().unwrap().unwrap(), "a", 1);
    expect_name_value(&ctx, fields.next().unwrap().unwrap(), "b", 2);
    assert!(fields.next().is_none());
}

#[test]
fn flatten_splices_sequence_elements() {
    let mut ctx = EncodingContext::new();
    let v: Vec<usize> = (1..=5).map(|i| num(&mut ctx, i)).collect();
    let inner = system(&mut ctx, VALUES, vec![v[2], v[3]]);
    let l1 = ctx.add_expr(Expr::List(vec![v[0], v[1]]));
    let l2 = ctx.add_expr(Expr::SExp(vec![inner]));
    let l3 = ctx.add_expr(Expr::List(vec![]));
    let l4 = ctx.add_expr(Expr::List(vec![v[4]]));
    let inv = system(&mut ctx, 0x05, vec![l1, l2, l3, l4]);
    let mut ev = MacroEvaluator::new();
    ev.push(&ctx, inv, 0);
    let mut got = Vec::new();
    while let Some(x) = ev.next(&ctx).unwrap() {
        got.push(read_int(&ctx, &x));
    }
    assert_eq!(got, vec![1, 2, 3, 4, 5]);
    let bad = system(&mut ctx, 0x05, vec![v[0]]);
    let mut ev = MacroEvaluator::new();
    ev.push(&ctx, bad, 0);
    assert!(ev.next(&ctx).is_err());
}

#[test]
fn annotate_wraps_a_value() {
    let mut ctx = EncodingContext::new();
    let a = sym(&mut ctx, "a");
    let b = sym(&mut ctx, "b");
    let group = ctx.add_expr(Expr::ArgGroup(vec![a, b]));
    let truth = ctx.add_expr(Expr::Scalar(Scalar::Bool(true)));
    let inv = system(&mut ctx, 0x08, vec![group, truth]);
    let mut ev = MacroEvaluator::new();
    ev.push(&ctx, inv, 0);
    let v = ev.next(&ctx).unwrap().unwrap();
    assert_eq!(v.annotations(), &[a, b]);
    assert!(matches!(v.read(&ctx).unwrap(), ExpandedValueRef::Bool(true)));
    assert!(ev.next(&ctx).unwrap().is_none());
    let single = system(&mut ctx, 0x08, vec![a, truth]);
    let mut ev = MacroEvaluator::new();
    ev.push(&ctx, single, 0);
    assert_eq!(ev.next(&ctx).unwrap().unwrap().annotations(), &[a]);
    let bad = system(&mut ctx, 0x08, vec![truth, truth]);
    let mut ev = MacroEvaluator::new();
    ev.push(&ctx, bad, 0);
    assert!(ev.next(&ctx).is_err());
}

#[test]
fn unsupported_system_macro_is_a_decoding_error() {
    let mut ctx = EncodingContext::new();
    let inv = system(&mut ctx, 0x07, vec![]);
    let mut ev = MacroEvaluator::new();
    ev.push(&ctx, inv, 0);
    assert!(matches!(ev.next(&ctx), Err(IonError::Decoding(_))));
}

#[test]
fn template_index_lists_every_position() {
    let mut ctx = EncodingContext::new();
    let one = num(&mut ctx, 1);
    let id = ctx.add_symbol("x".to_string());
    let s = strukt(&mut ctx, vec![
        field("x", one),
        RawFieldExpr::Nop,
        field("y", one),
        RawFieldExpr::NameValue(RawSymbol::SymbolId(id), one),
    ]);
    let t = ctx.define_template(None, vec![], vec![s, one]).unwrap();
    let ix = &ctx.macros.templates[t].struct_indexes[0];
    assert_eq!(ix.struct_expr, s);
    assert_eq!(ix.get(&"x".to_string()), Some(&vec![0, 3]));
    assert_eq!(ix.get(&"y".to_string()), Some(&vec![2]));
    assert_eq!(ix.get(&"z".to_string()), None);
}

#[test]
fn empty_struct_has_no_fields() {
    let mut ctx = EncodingContext::new();
    let s = strukt(&mut ctx, vec![]);
    let st = LazyExpandedStruct::from_literal(&ctx, s);
    let mut it = st.iter();
    assert!(it.next_field().is_none());
    assert!(it.next_field().is_none());
    assert!(st.find("a").unwrap().is_none());
}

#[test]
fn struct_that_inlines_itself_fails_at_the_depth_limit() {
    let mut ctx = EncodingContext::new();
    let again = local(&mut ctx, "nest", vec![]);
    let body = strukt(&mut ctx, vec![RawFieldExpr::EExp(again)]);
    ctx.define_template(Some("nest".to_string()), vec![], vec![body]).unwrap();
    let top = strukt(&mut ctx, vec![RawFieldExpr::EExp(again)]);
    let st = LazyExpandedStruct::from_literal(&ctx, top);
    assert!(matches!(st.iter().next_field(), Some(Err(IonError::Decoding(_)))));
}

#[test]
fn make_struct_value_iterates_its_arguments() {
    let mut ctx = EncodingContext::new();
    let one = num(&mut ctx, 1);
    let two = num(&mut ctx, 2);
    let a = strukt(&mut ctx, vec![field("a", one)]);
    let b = strukt(&mut ctx, vec![field("b", two), field("c", one)]);
    let vals = system(&mut ctx, VALUES, vec![a, b]);
    let st = LazyExpandedStruct::from_make_struct(&ctx, vec![vals, a]);
    assert_eq!(collect(&ctx, &st), pairs(&[("a", 1), ("b", 2), ("c", 1), ("a", 1)]));
    let f = LazyExpandedStruct::from_make_field(&ctx, one, two);
    assert!(matches!(f.source(), ExpandedStructSource::MakeField(..)));
}

#[test]
fn template_struct_and_list_literals_see_the_parameters() {
    let mut ctx = EncodingContext::new();
    let px = ctx.add_expr(Expr::Param(0));
    let py = ctx.add_expr(Expr::Param(1));
    let point = strukt(&mut ctx, vec![field("x", px), field("y", py), field("y", px)]);
    let three = num(&mut ctx, 3);
    let list = ctx.add_expr(Expr::List(vec![py, three]));
    let params = vec![
        Parameter { name: "x".to_string(), cardinality: Cardinality::ExactlyOne },
        Parameter { name: "y".to_string(), cardinality: Cardinality::ExactlyOne },
    ];
    ctx.define_template(Some("point".to_string()), params, vec![point, list]).unwrap();
    let one = num(&mut ctx, 1);
    let two = num(&mut ctx, 2);
    let inv = local(&mut ctx, "point", vec![one, two]);
    let mut ev = MacroEvaluator::new();
    ev.push(&ctx, inv, 0);
    let st = match ev.next(&ctx).unwrap().unwrap().read(&ctx).unwrap() {
        ExpandedValueRef::Struct(st) => st,
        _ => panic!("expected a struct"),
    };
    assert_eq!(collect(&ctx, &st), pairs(&[("x", 1), ("y", 2), ("y", 1)]));
    assert_eq!(read_int(&ctx, &st.find("y").unwrap().unwrap()), 2);
    let seq = match ev.next(&ctx).unwrap().unwrap().read(&ctx).unwrap() {
        ExpandedValueRef::List(l) => l,
        _ => panic!("expected a list"),
    };
    let mut it = seq.iter();
    let mut got = Vec::new();
    while let Some(x) = it.next().unwrap() {
        got.push(read_int(&ctx, &x));
    }
    assert_eq!(got, vec![2, 3]);
    assert!(ev.next(&ctx).unwrap().is_none());
}

#[test]
fn make_struct_in_a_template_sees_the_parameters() {
    let mut ctx = EncodingContext::new();
    let px = ctx.add_expr(Expr::Param(0));
    let inner = strukt(&mut ctx, vec![field("x", px)]);
    let two = num(&mut ctx, 2);
    let other = strukt(&mut ctx, vec![field("z", two)]);
    let body = system(&mut ctx, MAKE_STRUCT, vec![inner, other]);
    let params = vec![Parameter { name: "x".to_string(), cardinality: Cardinality::ExactlyOne }];
    ctx.define_template(Some("wrap".to_string()), params, vec![body]).unwrap();
    let seven = num(&mut ctx, 7);
    let inv = local(&mut ctx, "wrap", vec![seven]);
    let one = num(&mut ctx, 1);
    let s = strukt(&mut ctx, vec![field("a", one), RawFieldExpr::EExp(inv)]);
    let st = LazyExpandedStruct::from_literal(&ctx, s);
    assert_eq!(collect(&ctx, &st), pairs(&[("a", 1), ("x", 7), ("z", 2)]));
}

#[test]
fn flatten_in_a_template_reads_lists_under_the_right_bindings() {
    let mut ctx = EncodingContext::new();
    let px = ctx.add_expr(Expr::Param(0));
    let py = ctx.add_expr(Expr::Param(1));
    let own = ctx.add_expr(Expr::List(vec![px, px]));
    let body = system(&mut ctx, 0x05, vec![own, py]);
    let params = vec![
        Parameter { name: "x".to_string(), cardinality: Cardinality::ExactlyOne },
        Parameter { name: "y".to_string(), cardinality: Cardinality::ExactlyOne },
    ];
    ctx.define_template(Some("twice_then".to_string()), params, vec![body]).unwrap();
    let four = num(&mut ctx, 4);
    let five = num(&mut ctx, 5);
    let theirs = ctx.add_expr(Expr::List(vec![five, five]));
    let inv = local(&mut ctx, "twice_then", vec![four, theirs]);
    let mut ev = MacroEvaluator::new();
    ev.push(&ctx, inv, 0);
    let mut got = Vec::new();
    while let Some(x) = ev.next(&ctx).unwrap() {
        got.push(read_int(&ctx, &x));
    }
    assert_eq!(got, vec![4, 4, 5, 5]);
}

#[test]
fn expect_accessors_check_the_kind() {
    let mut ctx = EncodingContext::new();
    let id = ctx.add_symbol("sym".to_string());
    let i = num(&mut ctx, 42);
    let d = ctx.add_expr(Expr::Scalar(Scalar::Decimal(23, -1)));
    let st = ctx.add_expr(Expr::Scalar(Scalar::String("text".to_string())));
    let sy = ctx.add_expr(Expr::Scalar(Scalar::Symbol(RawSymbol::SymbolId(id))));
    let bl = ctx.add_expr(Expr::Scalar(Scalar::Blob(vec![1, 2])));
    let cl = ctx.add_expr(Expr::Scalar(Scalar::Clob(vec![3])));
    let nl = ctx.add_expr(Expr::Scalar(Scalar::Null(ion_rs::value::IonType::Int)));
    let bo = ctx.add_expr(Expr::Scalar(Scalar::Bool(false)));
    let li = ctx.add_expr(Expr::List(vec![]));
    let sx = ctx.add_expr(Expr::SExp(vec![]));
    let s = strukt(&mut ctx, vec![]);
    let r = |e: usize| LazyExpandedValue::Literal(e).read(&ctx).unwrap();
    assert_eq!(r(i).expect_int().unwrap(), 42);
    assert_eq!(r(i).expect_i64().unwrap(), 42);
    assert!(r(i).expect_string().is_err());
    assert_eq!(r(d).expect_decimal().unwrap(), (23, -1));
    assert_eq!(r(st).expect_string().unwrap(), "text");
    assert_eq!(r(st).expect_text().unwrap(), "text");
    assert_eq!(r(sy).expect_symbol().unwrap(), "sym");
    assert_eq!(r(sy).expect_text().unwrap(), "sym");
    assert!(r(sy).expect_string().is_err());
    assert_eq!(r(bl).expect_blob().unwrap(), &[1, 2]);
    assert_eq!(r(cl).expect_clob().unwrap(), &[3]);
    assert_eq!(r(cl).expect_lob().unwrap(), &[3]);
    assert!(r(bl).expect_clob().is_err());
    assert_eq!(r(nl).expect_null().unwrap(), ion_rs::value::IonType::Int);
    assert!(!r(bo).expect_bool().unwrap());
    assert!(r(li).expect_list().is_ok());
    assert!(r(sx).expect_sexp().is_ok());
    assert!(r(li).expect_sexp().is_err());
    assert!(r(s).expect_struct().is_ok());
    assert_eq!(r(s).ion_type(), ion_rs::value::IonType::Struct);
    assert!(r(bo).expect_null().is_err());
    let unknown = ctx.add_expr(Expr::Scalar(Scalar::Symbol(RawSymbol::SymbolId(77))));
    assert!(LazyExpandedValue::Literal(unknown).read(&ctx).is_err());
}

#[test]
fn nested_template_arguments_keep_the_callers_bindings() {
    let mut ctx = EncodingContext::new();
    // inner(y) = (.values (%y) (%y))
    let py = ctx.add_expr(Expr::Param(0));
    let inner_body = system(&mut ctx, VALUES, vec![py, py]);
    let one_param = || vec![Parameter { name: "p".to_string(), cardinality: Cardinality::ZeroOrMore }];
    ctx.define_template(Some("inner".to_string()), one_param(), vec![inner_body]).unwrap();
    // outer(x) = (.inner (.values (%x) 9))
    let px = ctx.add_expr(Expr::Param(0));
    let nine = num(&mut ctx, 9);
    let arg = system(&mut ctx, VALUES, vec![px, nine]);
    let call_inner = local(&mut ctx, "inner", vec![arg]);
    ctx.define_template(Some("outer".to_string()), one_param(), vec![call_inner]).unwrap();
    let three = num(&mut ctx, 3);
    let inv = local(&mut ctx, "outer", vec![three]);
    let mut ev = MacroEvaluator::new();
    ev.push(&ctx, inv, 0);
    let mut got = Vec::new();
    while let Some(x) = ev.next(&ctx).unwrap() {
        got.push(read_int(&ctx, &x));
    }
    assert_eq!(got, vec![3, 9, 3, 9]);
}

#[test]
fn make_field_in_a_template_keeps_the_value_bindings() {
    let mut ctx = EncodingContext::new();
    let px = ctx.add_expr(Expr::Param(0));
    let list = ctx.add_expr(Expr::List(vec![px]));
    let name = sym(&mut ctx, "items");
    let body = system(&mut ctx, MAKE_FIELD, vec![name, list]);
    let params = vec![Parameter { name: "x".to_string(), cardinality: Cardinality::ExactlyOne }];
    ctx.define_template(Some("wrap_one".to_string()), params, vec![body]).unwrap();
    let six = num(&mut ctx, 6);
    let inv = local(&mut ctx, "wrap_one", vec![six]);
    let s = strukt(&mut ctx, vec![RawFieldExpr::EExp(inv)]);
    let st = LazyExpandedStruct::from_literal(&ctx, s);
    let f = st.iter().next_field().unwrap().unwrap();
    assert_eq!(f.name.read(&ctx).unwrap(), "items");
    let l = f.value.read(&ctx).unwrap().expect_list().unwrap();
    let mut it = l.iter();
    assert_eq!(read_int(&ctx, &it.next().unwrap().unwrap()), 6);
    assert!(it.next().unwrap().is_none());
}

#[test]
fn template_with_unknown_symbol_id_is_rejected() {
    let mut ctx = EncodingContext::new();
    let one = num(&mut ctx, 1);
    let inner = strukt(&mut ctx, vec![RawFieldExpr::NameValue(RawSymbol::SymbolId(5), one)]);
    let list = ctx.add_expr(Expr::List(vec![inner]));
    assert!(matches!(ctx.define_template(Some("bad".to_string()), vec![], vec![list]), Err(IonError::Decoding(_))));
    assert_eq!(ctx.macros.len(), 0);
    let bad_symbol = ctx.add_expr(Expr::Scalar(Scalar::Symbol(RawSymbol::SymbolId(9))));
    assert!(ctx.define_template(None, vec![], vec![bad_symbol]).is_err());
}

#[test]
fn template_field_names_read_as_their_text() {
    let mut ctx = EncodingContext::new();
    let id = ctx.add_symbol("bar".to_string());
    let one = num(&mut ctx, 1);
    let s = strukt(&mut ctx, vec![RawFieldExpr::NameValue(RawSymbol::SymbolId(id), one)]);
    ctx.define_template(Some("t".to_string()), vec![], vec![s]).unwrap();
    let inv = local(&mut ctx, "t", vec![]);
    let mut ev = MacroEvaluator::new();
    ev.push(&ctx, inv, 0);
    let st = ev.next(&ctx).unwrap().unwrap().read(&ctx).unwrap().expect_struct().unwrap();
    let f = st.iter().next_field().unwrap().unwrap();
    assert!(matches!(&f.name, LazyExpandedFieldName::TemplateName(_, text) if text == "bar"));
    assert_eq!(f.name.read(&ctx).unwrap(), "bar");
    assert!(f.name.is_ephemeral());
}

#[test]
fn nested_template_structs_are_indexed() {
    let mut ctx = EncodingContext::new();
    let two = num(&mut ctx, 2);
    let nothing = system(&mut ctx, NONE, vec![]);
    let nested = strukt(&mut ctx, vec![field("bar", nothing), field("bar", two)]);
    let list = ctx.add_expr(Expr::List(vec![nested]));
    let t = ctx.define_template(Some("holder".to_string()), vec![], vec![list]).unwrap();
    assert!(ctx.macros.templates[t].exprs.contains(&nested));
    assert!(ctx.macros.templates[t].struct_indexes.iter().any(|ix| ix.struct_expr == nested));
    let inv = local(&mut ctx, "holder", vec![]);
    let mut ev = MacroEvaluator::new();
    ev.push(&ctx, inv, 0);
    let seq = ev.next(&ctx).unwrap().unwrap().read(&ctx).unwrap().expect_list().unwrap();
    let mut it = seq.iter();
    let st = it.next().unwrap().unwrap().read(&ctx).unwrap().expect_struct().unwrap();
    // Only the first candidate is evaluated: it expands to nothing.
    assert!(st.find("bar").unwrap().is_none());
    // Iteration still yields the second field.
    let mut fields = st.iter();
    let f = fields.next_field().unwrap().unwrap();
    assert_eq!(read_int(&ctx, &f.value), 2);
}

#[test]
fn get_expected_reports_a_missing_field_as_a_decoding_error() {
    let mut ctx = EncodingContext::new();
    let one = num(&mut ctx, 1);
    let s = strukt(&mut ctx, vec![field("a", one)]);
    let st = LazyExpandedStruct::from_literal(&ctx, s);
    assert!(matches!(st.get_expected("b"), Err(IonError::Decoding(_))));
    assert_eq!(st.get_expected("a").unwrap().expect_int().unwrap(), 1);
}

#[test]
fn wide_integers_and_timestamps_read_back() {
    let mut ctx = EncodingContext::new();
    let big = ctx.add_expr(Expr::Scalar(Scalar::Int(147573952589676412929)));
    let small = ctx.add_expr(Expr::Scalar(Scalar::Int(944)));
    let ts = Timestamp {
        year: 2023, month: 8, day: 29, hour: 13, minute: 45, second: 38,
        nanosecond: 281_000_000, offset_known: true, offset_minutes: 0,
    };
    let t = ctx.add_expr(Expr::Scalar(Scalar::Timestamp(ts)));
    let r = |e: usize| LazyExpandedValue::Literal(e).read(&ctx).unwrap();
    assert_eq!(r(big).expect_int().unwrap(), 147573952589676412929);
    assert!(matches!(r(big).expect_i64(), Err(IonError::Decoding(_))));
    assert_eq!(r(small).expect_i64().unwrap(), 944);
    let got = r(t).expect_timestamp().unwrap();
    assert_eq!((got.year, got.month, got.day, got.hour, got.minute, got.second), (2023, 8, 29, 13, 45, 38));
    assert_eq!(got.nanosecond, 281_000_000);
    assert_eq!(r(t).ion_type(), ion_rs::value::IonType::Timestamp);
    assert!(r(small).expect_timestamp().is_err());
}
