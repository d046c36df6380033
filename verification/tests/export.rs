use postgres_extension::export::{
    Abi, Arg, AttrStyle, Attribute, Block, ExtCtxt, FnDecl, Item, ItemModifier, Item_, MetaItem,
    Registry, Span, SyntaxExtension, NOT_A_FUNCTION, NO_MANGLE, PG_EXPORT, Unsafety,
};
use postgres_extension::{expand_pg_export, plugin_registrar};

fn annotation() -> MetaItem {
    MetaItem { word: String::from("pg_export") }
}

fn is_zero_decl(abi: Abi) -> Item {
    Item {
        ident: String::from("is_zero"),
        attrs: Vec::new(),
        node: Item_::ItemFn(
            FnDecl {
                inputs: vec![Arg { pat: String::from("a"), ty: String::from("c_int") }],
                output: Some(String::from("c_int")),
            },
            Unsafety::Normal,
            abi,
            Block { source: String::from("{ if a == 0 { return 0 } else { return 0 } }") },
        ),
        span: Span { lo: 120, hi: 230 },
    }
}

fn other(ident: &str, node: Item_) -> Item {
    Item { ident: String::from(ident), attrs: Vec::new(), node, span: Span { lo: 5, hi: 9 } }
}

#[test]
fn exported_function_keeps_signature_and_body() {
    let mut cx = ExtCtxt::new();
    let out = expand_pg_export(&mut cx, Span { lo: 100, hi: 112 }, &annotation(), is_zero_decl(Abi::Rust))
        .expect("a function is exported");
    assert!(cx.errors.is_empty());
    assert_eq!(out.ident, "is_zero");
    assert_eq!(out.span, Span { lo: 120, hi: 230 });
    match out.node {
        Item_::ItemFn(decl, unsafety, abi, body) => {
            assert_eq!(abi, Abi::C);
            assert_eq!(unsafety, Unsafety::Normal);
            assert_eq!(decl.inputs.len(), 1);
            assert_eq!(decl.inputs[0].pat, "a");
            assert_eq!(decl.inputs[0].ty, "c_int");
            assert_eq!(decl.output, Some(String::from("c_int")));
            assert_eq!(body.source, "{ if a == 0 { return 0 } else { return 0 } }");
        }
        other => panic!("not a function: {:?}", other),
    }
    assert_eq!(out.attrs.len(), 1);
    assert_eq!(out.attrs[0].word, "no_mangle");
    assert_eq!(out.attrs[0].style, AttrStyle::Outer);
}

#[test]
fn every_calling_convention_becomes_c() {
    for abi in [
        Abi::Cdecl,
        Abi::Stdcall,
        Abi::Fastcall,
        Abi::Aapcs,
        Abi::Win64,
        Abi::Rust,
        Abi::C,
        Abi::System,
        Abi::RustIntrinsic,
        Abi::RustCall,
    ] {
        let mut cx = ExtCtxt::new();
        let out = expand_pg_export(&mut cx, Span { lo: 0, hi: 0 }, &annotation(), is_zero_decl(abi)).unwrap();
        assert!(matches!(out.node, Item_::ItemFn(_, _, Abi::C, _)));
    }
}

#[test]
fn attributes_stay_in_front_of_no_mangle() {
    let mut item = is_zero_decl(Abi::Rust);
    item.attrs.push(Attribute { style: AttrStyle::Outer, word: String::from("inline") });
    item.attrs.push(Attribute { style: AttrStyle::Inner, word: String::from("cold") });
    let mut cx = ExtCtxt::new();
    let out = expand_pg_export(&mut cx, Span { lo: 0, hi: 0 }, &annotation(), item).unwrap();
    let words: Vec<&str> = out.attrs.iter().map(|a| a.word.as_str()).collect();
    assert_eq!(words, vec!["inline", "cold", "no_mangle"]);
    assert_eq!(out.attrs[1].style, AttrStyle::Inner);
    assert_eq!(out.attrs[2].style, AttrStyle::Outer);
}

#[test]
fn function_without_arguments_and_result_is_exported() {
    let item = Item {
        ident: String::from("ping"),
        attrs: Vec::new(),
        node: Item_::ItemFn(
            FnDecl { inputs: Vec::new(), output: None },
            Unsafety::Unsafe,
            Abi::System,
            Block { source: String::from("{}") },
        ),
        span: Span { lo: 1, hi: 2 },
    };
    let mut cx = ExtCtxt::new();
    let out = expand_pg_export(&mut cx, Span { lo: 0, hi: 0 }, &annotation(), item).unwrap();
    assert!(cx.errors.is_empty());
    assert_eq!(out.ident, "ping");
    match out.node {
        Item_::ItemFn(decl, unsafety, abi, body) => {
            assert!(decl.inputs.is_empty());
            assert_eq!(decl.output, None);
            assert_eq!(unsafety, Unsafety::Unsafe);
            assert_eq!(abi, Abi::C);
            assert_eq!(body.source, "{}");
        }
        other => panic!("not a function: {:?}", other),
    }
    assert_eq!(out.attrs.len(), 1);
    assert_eq!(out.attrs[0].word, NO_MANGLE);
}

#[test]
fn struct_is_refused_with_an_error_that_names_it() {
    let mut cx = ExtCtxt::new();
    let at = Span { lo: 40, hi: 52 };
    let out = expand_pg_export(&mut cx, at, &annotation(), other("Point", Item_::ItemStruct));
    assert!(out.is_none());
    assert_eq!(cx.errors.len(), 1);
    assert_eq!(cx.errors[0].span, at);
    assert_eq!(cx.errors[0].item, "Point");
    assert_eq!(cx.errors[0].message, "you can only export a function to PostgreSQL.");
    assert_eq!(cx.errors[0].message, NOT_A_FUNCTION);
}

#[test]
fn every_other_kind_of_item_is_refused() {
    let kinds = vec![
        Item_::ItemExternCrate,
        Item_::ItemUse,
        Item_::ItemStatic,
        Item_::ItemConst,
        Item_::ItemMod,
        Item_::ItemForeignMod,
        Item_::ItemTy,
        Item_::ItemEnum,
        Item_::ItemStruct,
        Item_::ItemTrait,
        Item_::ItemImpl,
        Item_::ItemMac,
    ];
    let mut cx = ExtCtxt::new();
    let mut count = 0;
    for node in kinds {
        let item = other("thing", node);
        assert!(!item.is_fn_like());
        assert!(expand_pg_export(&mut cx, Span { lo: count, hi: count + 1 }, &annotation(), item).is_none());
        count += 1;
        assert_eq!(cx.errors.len() as u32, count);
        assert_eq!(cx.errors.last().unwrap().span, Span { lo: count - 1, hi: count });
    }
    assert_eq!(count, 12);
}

#[test]
fn earlier_errors_stay_when_another_is_reported() {
    let mut cx = ExtCtxt::new();
    cx.span_err(Span { lo: 1, hi: 2 }, "first", "something else");
    assert!(expand_pg_export(&mut cx, Span { lo: 3, hi: 4 }, &annotation(), other("second", Item_::ItemEnum)).is_none());
    assert_eq!(cx.errors.len(), 2);
    assert_eq!(cx.errors[0].item, "first");
    assert_eq!(cx.errors[0].message, "something else");
    assert_eq!(cx.errors[0].span, Span { lo: 1, hi: 2 });
    assert_eq!(cx.errors[1].item, "second");
    assert!(expand_pg_export(&mut cx, Span { lo: 5, hi: 6 }, &annotation(), is_zero_decl(Abi::Rust)).is_some());
    assert_eq!(cx.errors.len(), 2);
}

#[test]
fn is_fn_like_tells_functions_apart() {
    assert!(is_zero_decl(Abi::Rust).is_fn_like());
    assert!(!other("m", Item_::ItemMod).is_fn_like());
}

#[test]
fn registrar_registers_the_export_annotation() {
    let mut reg = Registry::new();
    assert!(reg.syntax_exts.is_empty());
    plugin_registrar(&mut reg);
    assert_eq!(reg.syntax_exts.len(), 1);
    assert_eq!(reg.syntax_exts[0].name, "pg_export");
    assert_eq!(reg.syntax_exts[0].name, PG_EXPORT);
    assert_eq!(reg.syntax_exts[0].ext, SyntaxExtension::Modifier(ItemModifier::PgExport));
}

#[test]
fn registrar_keeps_what_was_registered() {
    let mut reg = Registry::new();
    reg.register_syntax_extension("other", SyntaxExtension::Modifier(ItemModifier::PgExport));
    plugin_registrar(&mut reg);
    assert_eq!(reg.syntax_exts.len(), 2);
    assert_eq!(reg.syntax_exts[0].name, "other");
    assert_eq!(reg.syntax_exts[1].name, "pg_export");
}

#[test]
fn registered_modifier_expands_as_the_export_does() {
    let mut reg = Registry::new();
    plugin_registrar(&mut reg);
    let SyntaxExtension::Modifier(modifier) = reg.syntax_exts[0].ext;
    let mut cx = ExtCtxt::new();
    let out = modifier.expand(&mut cx, Span { lo: 0, hi: 1 }, &annotation(), is_zero_decl(Abi::Rust)).unwrap();
    assert!(matches!(out.node, Item_::ItemFn(_, _, Abi::C, _)));
    assert_eq!(out.attrs.last().unwrap().word, "no_mangle");
    assert!(modifier.expand(&mut cx, Span { lo: 2, hi: 3 }, &annotation(), other("S", Item_::ItemStruct)).is_none());
    assert_eq!(cx.errors.len(), 1);
    assert_eq!(cx.errors[0].item, "S");
}
