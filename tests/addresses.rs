use ion_rs::bytes_ref::BytesRef;
use ion_rs::context::{EncodingContext, SystemMacro};
use ion_rs::macro_id::{MacroId, MacroIdRef, ModuleKind, QualifiedAddress, SystemMacroAddress, SYSTEM_MACRO_COUNT};
use ion_rs::raw_reader::{
    LazyRawBinaryReader_1_1, LazyRawBinarySequence_1_1, LazyRawTextReader_1_1, RawStreamItem, RawTextSequenceCacheIterator,
    RawToken, RawValueExpr, TextEExpArgsIterator_1_1, TextEExpression_1_1,
};
use ion_rs::value::{Expr, IonType, Scalar};

#[test]
fn system_macro_addresses() {
    assert_eq!(SYSTEM_MACRO_COUNT, 24);
    assert_eq!(SystemMacroAddress::new(0x17), Some(SystemMacroAddress(0x17)));
    assert_eq!(SystemMacroAddress::new(24), None);
    assert_eq!(SystemMacroAddress::new_unchecked(300).as_u8(), 44);
    assert_eq!(SystemMacroAddress(0x11).as_usize(), 17);
    assert_eq!(SystemMacro::at_address(SystemMacroAddress(0x10)), Some(SystemMacro::MakeField));
    assert_eq!(SystemMacro::at_address(SystemMacroAddress(0x01)), Some(SystemMacro::Values));
    assert_eq!(SystemMacro::at_address(SystemMacroAddress(0x18)), None);
}

#[test]
fn qualified_addresses() {
    let q = QualifiedAddress::new(ModuleKind::System, 5);
    assert_eq!(q.module(), ModuleKind::System);
    assert_eq!(q.address(), 5);
    assert!(matches!(q.as_macro_id_ref(), MacroIdRef::SystemAddress(SystemMacroAddress(5))));
    let d = QualifiedAddress::new(ModuleKind::Default, 70000);
    assert!(matches!(d.as_macro_id_ref(), MacroIdRef::LocalAddress(70000)));
}

#[test]
fn macro_id_round_trip() {
    let r = MacroIdRef::LocalName("three_values");
    match r.to_owned() {
        MacroId::LocalName(s) => assert_eq!(s, "three_values"),
        _ => panic!("expected a name"),
    }
    let owned = MacroId::LocalAddress(9);
    assert!(matches!(owned.as_ref(), MacroIdRef::LocalAddress(9)));
}

#[test]
fn bytes_ref_copies_and_compares() {
    let data = [1u8, 2, 3];
    let b = BytesRef::new(&data);
    assert_eq!(b.to_owned(), vec![1, 2, 3]);
    assert_eq!(b.into_owned(), vec![1, 2, 3]);
    assert_eq!(b.data(), &[1, 2, 3]);
    assert!(b.eq_bytes(&[1, 2, 3]));
    assert!(!b.eq_bytes(&[1, 2]));
    assert!(!b.eq_bytes(&[1, 2, 4]));
}

#[test]
fn raw_readers_skip_padding_and_classify_items() {
    let mut ctx = EncodingContext::new();
    let one = ctx.add_expr(Expr::Scalar(Scalar::Int(1)));
    let inv = ctx.add_expr(Expr::Invoke(MacroId::SystemAddress(SystemMacroAddress(0)), vec![]));
    let tokens = vec![
        RawToken::VersionMarker(1, 1),
        RawToken::Nop,
        RawToken::Expr(one),
        RawToken::Nop,
        RawToken::Nop,
        RawToken::Expr(inv),
        RawToken::Expr(99),
        RawToken::Nop,
    ];
    let mut r = LazyRawBinaryReader_1_1::new(&ctx, &tokens);
    assert_eq!(r.next().unwrap(), RawStreamItem::VersionMarker(1, 1));
    assert_eq!(r.next().unwrap(), RawStreamItem::Value(one));
    assert_eq!(r.next().unwrap(), RawStreamItem::EExp(inv));
    assert!(r.next().is_err());
    assert_eq!(r.next().unwrap(), RawStreamItem::EndOfStream(8));
    assert_eq!(r.next().unwrap(), RawStreamItem::EndOfStream(8));
    assert_eq!(r.position(), 8);
    let mut t = LazyRawTextReader_1_1::new(&ctx, &tokens);
    assert_eq!(t.next().unwrap(), RawStreamItem::VersionMarker(1, 1));
    assert_eq!(t.next().unwrap(), RawStreamItem::Value(one));
    assert_eq!(t.position(), 3);
}

#[test]
fn raw_sequences_and_argument_caches() {
    let mut ctx = EncodingContext::new();
    let one = ctx.add_expr(Expr::Scalar(Scalar::Int(1)));
    let inv = ctx.add_expr(Expr::Invoke(MacroId::LocalName("m".to_string()), vec![one, one]));
    let list = ctx.add_expr(Expr::SExp(vec![one, inv]));
    let seq = LazyRawBinarySequence_1_1::new(&ctx, list);
    assert_eq!(seq.ion_type(), IonType::SExp);
    let mut it = seq.iter();
    assert_eq!(it.next(), Some(RawValueExpr::ValueLiteral(one)));
    assert_eq!(it.next(), Some(RawValueExpr::EExp(inv)));
    assert_eq!(it.next(), None);

    let children = vec![one, inv];
    let mut cache = RawTextSequenceCacheIterator::new(&children);
    assert_eq!(cache.next(), Some(one));
    assert_eq!(cache.next(), Some(inv));
    assert_eq!(cache.next(), None);

    let e = TextEExpression_1_1::from_expr(&ctx, inv).unwrap();
    assert!(matches!(e.id(), MacroIdRef::LocalName("m")));
    let mut args: TextEExpArgsIterator_1_1 = e.raw_arguments();
    assert_eq!(args.size_hint(), (2, Some(2)));
    assert!(!args.is_exhausted());
    assert_eq!(args.next(), Some(one));
    assert_eq!(args.next(), Some(one));
    assert!(args.is_exhausted());
    assert_eq!(args.next(), None);
    assert!(TextEExpression_1_1::from_expr(&ctx, one).is_none());
}

#[test]
fn incomplete_input_is_reported_and_not_consumed() {
    let mut ctx = EncodingContext::new();
    let one = ctx.add_expr(Expr::Scalar(Scalar::Int(1)));
    let tokens = vec![RawToken::Expr(one), RawToken::Nop, RawToken::Incomplete];
    let mut r = LazyRawBinaryReader_1_1::new(&ctx, &tokens);
    assert_eq!(r.next().unwrap(), RawStreamItem::Value(one));
    assert!(matches!(r.next(), Err(ion_rs::context::IonError::Incomplete)));
    assert_eq!(r.position(), 2);
    assert!(matches!(r.next(), Err(ion_rs::context::IonError::Incomplete)));
}
