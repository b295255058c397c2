use futures_await::expand::args::{legacy_rebind_args, rebind_args, ArgPattern, ArgPlan, FnArgShape};
use futures_await::expand::attrs::{
    async_options, classify_return_type, expands_async_for, legacy_async_boxed,
    legacy_expands_async_for, legacy_stream_item, AsyncError, AsyncForError, AsyncOptions,
    LegacyAsyncError, NestedMeta, ReturnShape, StreamAttr, StreamAttrError, BoundShape,
    DriverKind, driver_kind, legacy_attribute_text,
};
use futures_await::expand::input::{
    fn_input_from, nested_metas, FnReads, MetaExprRead, PathRead, PathSegmentRead,
};
use futures_await::expand::read::{FnInput, FnParts, FnRead, ItemRead, SegmentShape, TypeShape};
use futures_await::expand::plan::{
    check_block, plan_async_fn, plan_async_stream, plan_legacy_async_fn, stream_item_of,
    AsyncPlan, AsyncStreamError, AsyncStreamPlan, BlockError, LegacyAsyncPlan,
};
use futures_await::expand::text::{str_eq, temp_binding_name};
use futures_await::expand::tokens::{first_last, replace_bang, replace_bangs, respan};

fn s(x: &str) -> String {
    x.to_string()
}

fn ident(name: &str, by_ref: bool) -> FnArgShape {
    FnArgShape::Typed(ArgPattern::Ident { name: s(name), by_ref })
}

#[test]
fn temp_names_are_decimal() {
    assert_eq!(temp_binding_name(0), "__arg_0");
    assert_eq!(temp_binding_name(7), "__arg_7");
    assert_eq!(temp_binding_name(10), "__arg_10");
    assert_eq!(temp_binding_name(305), "__arg_305");
    assert_ne!(temp_binding_name(1), temp_binding_name(10));
}

#[test]
fn string_equality() {
    assert!(str_eq("self", "self"));
    assert!(!str_eq("self", "Self"));
    assert!(!str_eq("sel", "self"));
    assert!(str_eq("", ""));
}

#[test]
fn rebinding_keeps_plain_names() {
    // fn foo(self: Box<Self>, a: u32, ref b: u32, (c, d): (u8, u8), &self)
    let args = vec![
        ident("self", false),
        ident("a", false),
        ident("b", true),
        FnArgShape::Typed(ArgPattern::Other),
        FnArgShape::Receiver,
    ];
    assert_eq!(
        rebind_args(&args),
        vec![
            ArgPlan::Keep,
            ArgPlan::Keep,
            ArgPlan::Rebind(s("__arg_2")),
            ArgPlan::Rebind(s("__arg_3")),
            ArgPlan::Keep,
        ]
    );
    assert_eq!(
        legacy_rebind_args(&args),
        vec![
            ArgPlan::Keep,
            ArgPlan::Rebind(s("__arg_1")),
            ArgPlan::Rebind(s("__arg_2")),
            ArgPlan::Rebind(s("__arg_3")),
            ArgPlan::Keep,
        ]
    );
    // `ref self` is still the receiver by name
    assert_eq!(rebind_args(&vec![ident("self", true)]), vec![ArgPlan::Keep]);
    assert_eq!(rebind_args(&vec![]), vec![]);
}

#[test]
fn legacy_attribute_arguments() {
    assert_eq!(legacy_async_boxed("( boxed )"), Ok(true));
    assert_eq!(legacy_async_boxed(""), Ok(false));
    assert_eq!(legacy_async_boxed("( unpinned )"), Err(LegacyAsyncError::OnlyBoxedArgument));
    assert_eq!(legacy_async_boxed("(boxed)"), Err(LegacyAsyncError::OnlyBoxedArgument));
}

#[test]
fn return_types() {
    let opt = |pinned, boxed| AsyncOptions { pinned, boxed };
    assert_eq!(classify_return_type(&ReturnShape::Path(vec![])), Ok(opt(false, true)));
    assert_eq!(classify_return_type(&ReturnShape::ImplTrait(vec![BoundShape::Trait(vec![s("Future")])])), Ok(opt(false, false)));
    assert_eq!(classify_return_type(&ReturnShape::ImplTrait(vec![BoundShape::Trait(vec![s("Stream")])])), Ok(opt(false, false)));
    assert_eq!(classify_return_type(&ReturnShape::ImplTrait(vec![BoundShape::Trait(vec![s("StableFuture")])])), Ok(opt(true, false)));
    assert_eq!(classify_return_type(&ReturnShape::ImplTrait(vec![BoundShape::Trait(vec![s("StableStream")])])), Ok(opt(true, false)));
    assert_eq!(classify_return_type(&ReturnShape::ImplTrait(vec![BoundShape::Trait(vec![s("Iterator")])])), Err(AsyncError::ImplTraitBound));
    assert_eq!(classify_return_type(&ReturnShape::ImplTrait(vec![BoundShape::Other])), Err(AsyncError::ImplTraitBound));
    assert_eq!(classify_return_type(&ReturnShape::Other), Err(AsyncError::ReturnType));
}

#[test]
fn attribute_arguments_select_the_wrapping() {
    let opt = |pinned, boxed| AsyncOptions { pinned, boxed };
    let fut = ReturnShape::ImplTrait(vec![BoundShape::Trait(vec![s("Future")])]);
    let stable = ReturnShape::ImplTrait(vec![BoundShape::Trait(vec![s("StableFuture")])]);
    // #[async] fn .. -> impl StableFuture
    assert_eq!(async_options(&vec![], &stable), Ok(opt(true, false)));
    // #[async] fn .. -> impl Future
    assert_eq!(async_options(&vec![], &fut), Ok(opt(false, false)));
    // #[async(unpinned)] fn .. -> impl Future
    assert_eq!(async_options(&vec![s("unpinned")], &fut), Ok(opt(false, false)));
    // #[async(boxed, unpinned)] fn .. -> Box<Future<..>>
    assert_eq!(async_options(&vec![s("boxed"), s("unpinned")], &ReturnShape::Path(vec![])), Ok(opt(false, true)));
    // only (), (unpinned) and (boxed, unpinned) are accepted
    assert_eq!(async_options(&vec![s("boxed")], &ReturnShape::Path(vec![])), Err(AsyncError::UnsupportedArguments));
    assert_eq!(
        async_options(&vec![s("unpinned"), s("boxed")], &ReturnShape::Path(vec![])),
        Err(AsyncError::UnsupportedArguments)
    );
    assert_eq!(
        async_options(&vec![s("unpinned"), s("unpinned")], &fut),
        Err(AsyncError::UnsupportedArguments)
    );
    assert_eq!(
        async_options(&vec![s("boxed"), s("send"), s("other")], &fut),
        Err(AsyncError::UnsupportedArguments)
    );
    assert_eq!(
        async_options(&vec![s("boxed"), s("unpinned")], &ReturnShape::Other),
        Err(AsyncError::ReturnType)
    );
    assert_eq!(async_options(&vec![s("unpinned")], &ReturnShape::Other), Err(AsyncError::ReturnType));
}

#[test]
fn async_for_loops() {
    assert!(expands_async_for(true, &vec![s("async")]));
    assert!(!expands_async_for(false, &vec![s("async")]));
    assert!(!expands_async_for(true, &vec![]));
    assert!(!expands_async_for(true, &vec![s("async"), s("allow")]));
    assert!(!expands_async_for(true, &vec![s("allow")]));
    assert_eq!(legacy_expands_async_for(true, &vec![s("async")]), Ok(true));
    assert_eq!(legacy_expands_async_for(false, &vec![s("async")]), Err(AsyncForError::NotForLoop));
    assert_eq!(legacy_expands_async_for(false, &vec![s("allow")]), Ok(false));
    assert_eq!(legacy_expands_async_for(true, &vec![]), Ok(false));
}

#[test]
fn stream_attribute() {
    let list = |items: Vec<NestedMeta>| StreamAttr::List(items);
    let item = |lit: &str| NestedMeta::NameValue(s("item"), s(lit));
    assert_eq!(legacy_stream_item(&list(vec![item("\"u64\"")])), Ok((false, s("u64"))));
    assert_eq!(
        legacy_stream_item(&list(vec![item("\"u8\""), NestedMeta::Other, item("\"Foo\"")])),
        Ok((false, s("Foo")))
    );
    assert_eq!(legacy_stream_item(&StreamAttr::Word), Err(StreamAttrError::MissingItem));
    assert_eq!(legacy_stream_item(&StreamAttr::NameValue), Err(StreamAttrError::NameValueForm));
    assert_eq!(legacy_stream_item(&list(vec![])), Err(StreamAttrError::MissingItem));
    assert_eq!(legacy_stream_item(&list(vec![item("u64")])), Err(StreamAttrError::ItemNotString));
    assert_eq!(legacy_stream_item(&list(vec![item("\"")])), Err(StreamAttrError::ItemNotString));
    assert_eq!(
        legacy_stream_item(&list(vec![NestedMeta::Word(s("boxed")), item("\"u64\"")])),
        Ok((true, s("u64")))
    );
    assert_eq!(
        legacy_stream_item(&list(vec![NestedMeta::Word(s("boxed"))])),
        Err(StreamAttrError::MissingItem)
    );
    assert_eq!(
        legacy_stream_item(&list(vec![item("7"), NestedMeta::Word(s("boxed"))])),
        Err(StreamAttrError::ItemNotString)
    );
    assert_eq!(
        legacy_stream_item(&list(vec![NestedMeta::NameValue(s("other"), s("7")), item("\"T\"")])),
        Ok((false, s("T")))
    );
}

#[test]
fn spans() {
    assert_eq!(first_last(&vec![], 9u32), (9, 9));
    assert_eq!(first_last(&vec![4u32], 9), (4, 4));
    assert_eq!(first_last(&vec![4u32, 5, 6], 9), (4, 6));
    let mut v = vec![0u32, 0, 0, 0];
    respan(&mut v, 1, 2);
    assert_eq!(v, vec![1, 2, 2, 2]);
    let mut e: Vec<u32> = vec![];
    respan(&mut e, 1, 2);
    assert_eq!(e, vec![]);
}

#[test]
fn placeholders() {
    // impl MyStream<!, !> + 'static
    let bangs = vec![false, false, true, false, true, false, false];
    assert_eq!(
        replace_bangs(&bangs, 2),
        vec![None, None, Some(0), None, Some(1), None, None]
    );
    assert_eq!(
        replace_bangs(&vec![true, true, true], 2),
        vec![Some(0), Some(1), Some(0)]
    );
    assert_eq!(replace_bangs(&vec![false, false], 0), vec![None, None]);
    assert_eq!(replace_bang(&vec![true, false, true]), vec![Some(0), None, Some(0)]);
}

#[test]
fn bounds_and_drivers() {
    let tr = |names: &[&str]| BoundShape::Trait(names.iter().map(|n| s(n)).collect());
    // the first bound decides, by the last segment of its path
    assert_eq!(
        classify_return_type(&ReturnShape::ImplTrait(vec![tr(&["futures", "Stream"]), BoundShape::Other])),
        Ok(AsyncOptions { pinned: false, boxed: false })
    );
    assert_eq!(
        classify_return_type(&ReturnShape::ImplTrait(vec![BoundShape::Other, tr(&["Future"])])),
        Err(AsyncError::ImplTraitBound)
    );
    assert_eq!(classify_return_type(&ReturnShape::ImplTrait(vec![])), Err(AsyncError::ImplTraitBound));
    assert_eq!(classify_return_type(&ReturnShape::ImplTrait(vec![tr(&[])])), Err(AsyncError::ImplTraitBound));
    assert_eq!(driver_kind(&ReturnShape::ImplTrait(vec![tr(&["StableStream"])])), DriverKind::Stream);
    assert_eq!(driver_kind(&ReturnShape::ImplTrait(vec![tr(&["Future"])])), DriverKind::Future);
    assert_eq!(driver_kind(&ReturnShape::Path(vec![tr(&["Stream"]), tr(&["Send"])])), DriverKind::Stream);
    assert_eq!(driver_kind(&ReturnShape::Path(vec![])), DriverKind::Future);
    assert_eq!(driver_kind(&ReturnShape::Other), DriverKind::Future);
}

#[test]
fn legacy_text() {
    assert_eq!(legacy_attribute_text(""), "");
    assert_eq!(legacy_attribute_text("boxed"), "( boxed )");
    assert_eq!(legacy_attribute_text("a, b"), "( a, b )");
}

#[test]
fn async_fn_plans() {
    let opt = |pinned, boxed| AsyncOptions { pinned, boxed };
    let plan = |a: &str, f: &str| plan_async_fn(a, f).1;
    assert_eq!(
        plan("", "fn foo(a: i32, ref b: i32) -> impl StableFuture<Item = i32, Error = i32> { Ok(a) }"),
        Ok(AsyncPlan {
            options: opt(true, false),
            driver: DriverKind::Future,
            args: vec![ArgPlan::Keep, ArgPlan::Rebind(s("__arg_1"))],
        })
    );
    assert_eq!(
        plan("unpinned", "fn foo((x, y): (i32, i32)) -> impl Future<Item = i32, Error = i32> { Ok(x) }"),
        Ok(AsyncPlan {
            options: opt(false, false),
            driver: DriverKind::Future,
            args: vec![ArgPlan::Rebind(s("__arg_0"))],
        })
    );
    assert_eq!(
        plan("boxed, unpinned", "fn foo(&self) -> Box<Future<Item = i32, Error = i32>> { Ok(1) }"),
        Ok(AsyncPlan { options: opt(false, true), driver: DriverKind::Future, args: vec![ArgPlan::Keep] })
    );
    assert_eq!(
        plan("boxed, unpinned", "fn s() -> Box<Stream<Item = u64, Error = i32>> { Ok(()) }"),
        Ok(AsyncPlan { options: opt(false, true), driver: DriverKind::Stream, args: vec![] })
    );
    assert_eq!(
        plan("boxed, unpinned", "fn s() -> Box<dyn Stream<Item = u64, Error = i32> + Send> { Ok(()) }"),
        Ok(AsyncPlan { options: opt(false, true), driver: DriverKind::Stream, args: vec![] })
    );
    assert_eq!(
        plan("unpinned", "fn s() -> impl Stream<Item = u64, Error = i32> { Ok(()) }"),
        Ok(AsyncPlan { options: opt(false, false), driver: DriverKind::Stream, args: vec![] })
    );
    assert_eq!(
        plan("boxed", "fn foo() -> Box<Future<Item = i32, Error = i32>> { Ok(1) }"),
        Err(AsyncError::UnsupportedArguments)
    );
    // an argument list that is not a list of identifiers is refused as arguments
    assert_eq!(plan("= 3", "fn foo() {}"), Err(AsyncError::UnsupportedArguments));
    assert_eq!(plan("", "struct S;"), Err(AsyncError::NotAFunction));
    assert_eq!(plan("", "fn foo( {"), Err(AsyncError::NotParsed));
    // a path type selects a boxed future, whatever it names
    assert_eq!(
        plan("", "fn foo() -> u32 { 3 }"),
        Ok(AsyncPlan { options: opt(false, true), driver: DriverKind::Future, args: vec![] })
    );
    assert_eq!(plan("", "fn foo() -> &'static u32 { 3 }"), Err(AsyncError::ReturnType));
    assert_eq!(plan("", "fn foo() {}"), Err(AsyncError::ReturnType));
    assert_eq!(plan("", "fn foo() -> impl Iterator<Item = u8> { 3 }"), Err(AsyncError::ImplTraitBound));
    assert_eq!(
        plan("", "unsafe extern \"C\" fn foo(a: i32, ...) -> impl Future<Item = i32, Error = i32> { Ok(1) }"),
        Err(AsyncError::Variadic)
    );
    // the item is not read when the argument list is refused
    let (read, r) = plan_async_fn("boxed", "fn foo() {}");
    assert_eq!(read.item, None);
    assert_eq!(read.reads, None);
    assert_eq!(r, Err(AsyncError::UnsupportedArguments));
    // what was read is handed back with the decision
    let (read, _) = plan_async_fn("", "fn foo(a: u8) -> impl Future<Item = u8, Error = u8> { Ok(a) }");
    let reads = read.reads.expect("the item was read");
    assert_eq!(reads.args, vec![Some(ident("a", false))]);
    assert!(matches!(reads.output, Some(TypeShape::ImplTrait(ref b)) if b.len() == 1));
    assert_eq!(reads.bounds.len(), 1);
    assert_eq!(read.item, Some(fn_input_from(&reads)));
}

#[test]
fn legacy_async_fn_plans() {
    let plan = |a: &str, f: &str| plan_legacy_async_fn(a, f).1;
    assert_eq!(
        plan("", "fn foo(self: Box<Self>, a: i32) -> Result<i32, i32> { Ok(a) }"),
        Ok(LegacyAsyncPlan { boxed: false, args: vec![ArgPlan::Keep, ArgPlan::Rebind(s("__arg_1"))] })
    );
    assert_eq!(
        plan("boxed", "fn foo() -> Result<i32, i32> { Ok(1) }"),
        Ok(LegacyAsyncPlan { boxed: true, args: vec![] })
    );
    assert_eq!(plan("unpinned", "fn foo() -> Result<i32, i32> { Ok(1) }"), Err(LegacyAsyncError::OnlyBoxedArgument));
    assert_eq!(plan("", "const X: u8 = 1;"), Err(LegacyAsyncError::NotAFunction));
    assert_eq!(plan("", "fn"), Err(LegacyAsyncError::NotParsed));
}

#[test]
fn async_stream_plans() {
    let item = |a: &str| stream_item_of(a).2;
    assert_eq!(item("item = \"u64\""), Ok((false, s("u64"))));
    assert_eq!(item(""), Err(StreamAttrError::MissingItem));
    assert_eq!(item("item = u64"), Err(StreamAttrError::ItemNotString));
    assert_eq!(item("boxed, item = \"u64\""), Ok((true, s("u64"))));
    assert_eq!(item("item = = ,"), Err(StreamAttrError::AttributeSyntax));
    // a bare literal among the arguments is passed over
    assert_eq!(item("\"x\", item = \"u8\""), Ok((false, s("u8"))));
    // a path of more than one segment is no word
    assert_eq!(item("a::boxed, item = \"u8\""), Ok((false, s("u8"))));
    let plan = |a: &str, f: &str| plan_async_stream(a, f).1;
    assert_eq!(
        plan("item = \"u64\"", "fn s(ref x: u64) -> Result<(), i32> { Ok(()) }"),
        Ok(AsyncStreamPlan { item: s("u64"), args: vec![ArgPlan::Rebind(s("__arg_0"))] })
    );
    assert_eq!(
        plan("", "fn s() -> Result<(), i32> { Ok(()) }"),
        Err(AsyncStreamError::Attribute(StreamAttrError::MissingItem))
    );
    assert_eq!(plan("item = \"u64\"", "enum E {}"), Err(AsyncStreamError::NotAFunction));
    assert_eq!(plan("item = \"u64\"", "enum"), Err(AsyncStreamError::NotParsed));
    // a boxed stream is refused only once the item has been read
    assert_eq!(plan("boxed, item = \"u64\"", "struct S;"), Err(AsyncStreamError::NotAFunction));
    assert_eq!(
        plan("boxed, item = \"u64\"", "fn s() -> Result<(), i32> { Ok(()) }"),
        Err(AsyncStreamError::BoxedUnsupported)
    );
    assert_eq!(
        plan("boxed", "fn s() -> Result<(), i32> { Ok(()) }"),
        Err(AsyncStreamError::Attribute(StreamAttrError::MissingItem))
    );
}

#[test]
fn block_inputs() {
    assert_eq!(check_block("let x = 1; Ok(x)").2, Ok(()));
    assert_eq!(check_block("").2, Ok(()));
    assert_eq!(check_block("let = ;").2, Err(BlockError::NotAnExpression));
    assert_eq!(check_block("x").0, "{ x }");
}

fn parts(args: usize, output: Option<&str>) -> ItemRead {
    ItemRead::Function(FnParts {
        args: (0..args).map(|i| format!("a{}: u8", i)).collect(),
        output: output.map(s),
        variadic: false,
    })
}

fn reads(item: ItemRead) -> FnReads {
    FnReads { item, args: vec![], output: None, generic_args: None, boxed: None, bounds: vec![] }
}

fn trait_bound(names: &[&str]) -> BoundShape {
    BoundShape::Trait(names.iter().map(|n| s(n)).collect())
}

fn function(args: Vec<FnArgShape>, output: ReturnShape) -> FnRead {
    FnRead::Function(FnInput { args, output, variadic: false })
}

#[test]
fn fn_inputs_from_reads() {
    assert_eq!(fn_input_from(&reads(ItemRead::NotParsed)), FnRead::NotParsed);
    assert_eq!(fn_input_from(&reads(ItemRead::NotFunction)), FnRead::NotFunction);
    // no return type
    let mut r = reads(parts(2, None));
    r.args = vec![Some(ident("a", false)), Some(FnArgShape::Receiver)];
    assert_eq!(
        fn_input_from(&r),
        function(vec![ident("a", false), FnArgShape::Receiver], ReturnShape::Other)
    );
    // an argument that did not parse
    r.args = vec![Some(ident("a", false)), None];
    assert_eq!(fn_input_from(&r), FnRead::NotParsed);
    // a return type that did not parse
    let r = reads(parts(0, Some("+")));
    assert_eq!(fn_input_from(&r), FnRead::NotParsed);
    // `impl Trait`: its bounds in order, all of which must parse
    let mut r = reads(parts(0, Some("impl Stream + Send")));
    r.output = Some(TypeShape::ImplTrait(vec![s("Stream"), s("Send")]));
    r.bounds = vec![Some(trait_bound(&["futures", "Stream"])), Some(BoundShape::Other)];
    assert_eq!(
        fn_input_from(&r),
        function(vec![], ReturnShape::ImplTrait(vec![trait_bound(&["futures", "Stream"]), BoundShape::Other]))
    );
    r.bounds = vec![Some(trait_bound(&["Stream"])), None];
    assert_eq!(fn_input_from(&r), FnRead::NotParsed);
    // a path type boxing a path: the trait it names
    let mut r = reads(parts(0, Some("Box<Future>")));
    r.output = Some(TypeShape::Path(vec![SegmentShape { name: s("Box"), args: s("<Future>") }]));
    r.generic_args = Some(vec![Some(s("Future"))]);
    r.boxed = Some(TypeShape::Path(vec![
        SegmentShape { name: s("futures"), args: s("") },
        SegmentShape { name: s("Future"), args: s("") },
    ]));
    assert_eq!(
        fn_input_from(&r),
        function(vec![], ReturnShape::Path(vec![trait_bound(&["futures", "Future"])]))
    );
    // ... a trait object: its bounds; none where one did not parse
    r.boxed = Some(TypeShape::TraitObject(vec![s("Stream"), s("Send")]));
    r.bounds = vec![Some(trait_bound(&["Stream"])), Some(trait_bound(&["Send"]))];
    assert_eq!(
        fn_input_from(&r),
        function(vec![], ReturnShape::Path(vec![trait_bound(&["Stream"]), trait_bound(&["Send"])]))
    );
    r.bounds = vec![Some(trait_bound(&["Stream"])), None];
    assert_eq!(fn_input_from(&r), function(vec![], ReturnShape::Path(vec![])));
    // ... a first generic argument that is no type, or none at all
    r.generic_args = Some(vec![None]);
    assert_eq!(fn_input_from(&r), function(vec![], ReturnShape::Path(vec![])));
    r.generic_args = None;
    assert_eq!(fn_input_from(&r), function(vec![], ReturnShape::Path(vec![])));
    // any other type
    let mut r = reads(parts(0, Some("&'static u32")));
    r.output = Some(TypeShape::Other);
    assert_eq!(fn_input_from(&r), function(vec![], ReturnShape::Other));
}

#[test]
fn meta_items_from_reads() {
    let path = |global: bool, segs: &[(&str, bool)]| PathRead {
        global,
        segments: segs.iter().map(|(n, plain)| PathSegmentRead { name: s(n), plain: *plain }).collect(),
    };
    let read = vec![
        MetaExprRead::Path(path(false, &[("boxed", true)])),
        MetaExprRead::Path(path(true, &[("boxed", true)])),
        MetaExprRead::Path(path(false, &[("a", true), ("b", true)])),
        MetaExprRead::Path(path(false, &[("boxed", false)])),
        MetaExprRead::Assign(Some(path(false, &[("item", true)])), s("\"u8\"")),
        MetaExprRead::Assign(None, s("\"u8\"")),
        MetaExprRead::Other,
    ];
    assert_eq!(
        nested_metas(&read),
        vec![
            NestedMeta::Word(s("boxed")),
            NestedMeta::Other,
            NestedMeta::Other,
            NestedMeta::Other,
            NestedMeta::NameValue(s("item"), s("\"u8\"")),
            NestedMeta::Other,
            NestedMeta::Other,
        ]
    );
}
