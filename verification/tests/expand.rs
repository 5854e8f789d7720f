use trace::args::{ArgError, ArgErrorKind, Args, AttrApplied, Filter, Key, RawArg, RawValue};
use trace::block::{construct_traced_block, Block};
use trace::diagnostic::TraceError;
use trace::entry::{init_depth_var, trace, Input, Output};
use trace::expand::{
    expand_impl_item, expand_item, transform_fn, transform_impl, transform_impl_item,
    transform_item, transform_method, transform_mod, Expansion,
};
use trace::syntax::{
    FnArg, ImplItem, ImplItemMethod, Item, ItemFn, ItemImpl, ItemMod, Pat, Signature,
};

fn names(list: &[&str]) -> Vec<String> {
    list.iter().map(|s| s.to_string()).collect()
}

fn signature(name: &str, inputs: &[&str]) -> Signature {
    Signature {
        ident: name.to_string(),
        inputs: inputs.iter().map(|a| FnArg::Typed(Pat::Ident(a.to_string()))).collect(),
    }
}

fn function(name: &str, inputs: &[&str]) -> Item {
    Item::Fn(ItemFn { sig: signature(name, inputs) })
}

fn module(name: &str, items: Vec<Item>) -> Item {
    Item::Mod(ItemMod { ident: name.to_string(), content: Some(items) })
}

fn method(name: &str, inputs: &[&str]) -> ImplItem {
    let mut sig = signature(name, inputs);
    sig.inputs.insert(0, FnArg::Receiver);
    ImplItem::Method(ImplItemMethod { sig })
}

fn with_filter(filter: Filter) -> Args {
    Args { filter, ..Args::default() }
}

/// The traced function `name`, showing `shown`.
fn traced(args: &Args, name: &str, inputs: &[&str], shown: &[&str]) -> Expansion {
    let block = construct_traced_block(args, AttrApplied::Indirectly, &signature(name, inputs));
    match &block {
        Block::Traced(traced) => assert_eq!(traced.arg_idents, names(shown)),
        Block::Diagnostic(error) => panic!("{:?}", error),
    }
    Expansion::Fn(block)
}

#[test]
fn request_on_a_function_filters_its_arguments() {
    let args = with_filter(Filter::Disable(names(&["b"])));
    let expansion = expand_item(&args, &function("foo", &["a", "b"]));
    match expansion {
        Expansion::Fn(Block::Traced(block)) => {
            assert_eq!(block.arg_idents, names(&["a"]));
            assert_eq!(block.entering_format, "{:depth$}[+] Entering foo(a = {:?})");
        }
        other => panic!("{:?}", other),
    }
}

#[test]
fn request_on_a_function_does_not_filter_by_the_function_name() {
    let args = with_filter(Filter::Enable(names(&["a"])));
    match expand_item(&args, &function("foo", &["a", "b"])) {
        Expansion::Fn(Block::Traced(block)) => assert_eq!(block.arg_idents, names(&["a"])),
        other => panic!("{:?}", other),
    }
}

#[test]
fn module_gets_the_depth_counter_and_traces_its_functions() {
    let args = Args::default();
    let item = module("m", vec![function("foo", &["a"]), Item::Other, function("bar", &[])]);
    assert_eq!(
        expand_item(&args, &item),
        Expansion::Mod(vec![
            Expansion::DepthVar,
            traced(&args, "foo", &["a"], &["a"]),
            Expansion::Unchanged,
            traced(&args, "bar", &[], &[]),
        ])
    );
}

#[test]
fn empty_module_gets_the_depth_counter() {
    assert_eq!(
        expand_item(&Args::default(), &module("m", vec![])),
        Expansion::Mod(vec![Expansion::DepthVar])
    );
}

#[test]
fn enable_list_chooses_the_functions_of_a_module() {
    let args = with_filter(Filter::Enable(names(&["foo", "inner"])));
    let item = module(
        "m",
        vec![
            function("foo", &["a", "foo"]),
            function("bar", &["a"]),
            module("inner", vec![function("baz", &["x"]), module("deep", vec![function("foo", &[])])]),
            module("other", vec![function("foo", &[])]),
        ],
    );
    assert_eq!(
        expand_item(&args, &item),
        Expansion::Mod(vec![
            Expansion::DepthVar,
            traced(&args, "foo", &["a", "foo"], &["a", "foo"]),
            Expansion::Unchanged,
            Expansion::Mod(vec![
                Expansion::DepthVar,
                traced(&args, "baz", &["x"], &["x"]),
                Expansion::Mod(vec![Expansion::DepthVar, traced(&args, "foo", &[], &[])]),
            ]),
            Expansion::Unchanged,
        ])
    );
}

#[test]
fn disable_list_leaves_functions_of_a_module_out() {
    let args = with_filter(Filter::Disable(names(&["foo", "inner"])));
    let item = module(
        "m",
        vec![
            function("foo", &["a"]),
            function("bar", &["foo"]),
            module("inner", vec![function("baz", &[])]),
            module("other", vec![function("foo", &["a"])]),
        ],
    );
    assert_eq!(
        expand_item(&args, &item),
        Expansion::Mod(vec![
            Expansion::DepthVar,
            Expansion::Unchanged,
            traced(&args, "bar", &["foo"], &["foo"]),
            Expansion::Unchanged,
            Expansion::Mod(vec![Expansion::DepthVar, traced(&args, "foo", &["a"], &["a"])]),
        ])
    );
}

#[test]
fn implementation_block_inside_a_module_is_traced_whole() {
    let args = with_filter(Filter::Enable(names(&["foo"])));
    let item = module(
        "m",
        vec![Item::Impl(ItemImpl { items: vec![method("bar", &["a"]), ImplItem::Other] })],
    );
    let mut bar = signature("bar", &["a"]);
    bar.inputs.insert(0, FnArg::Receiver);
    assert_eq!(
        expand_item(&args, &item),
        Expansion::Mod(vec![
            Expansion::DepthVar,
            Expansion::Impl(vec![
                Expansion::Fn(construct_traced_block(&args, AttrApplied::Indirectly, &bar)),
                Expansion::Unchanged,
            ]),
        ])
    );
}

#[test]
fn module_in_another_file_is_an_error() {
    let outside = Item::Mod(ItemMod { ident: "m".to_string(), content: None });
    assert_eq!(
        expand_item(&Args::default(), &outside),
        Expansion::Diagnostic(TraceError::ModuleWithoutContent)
    );
    assert_eq!(
        TraceError::ModuleWithoutContent.message(),
        "#[trace] is not supported for a module whose items are in another file"
    );
    let item = module("outer", vec![function("foo", &[]), outside]);
    assert_eq!(
        expand_item(&Args::default(), &item),
        Expansion::Mod(vec![
            Expansion::DepthVar,
            traced(&Args::default(), "foo", &[], &[]),
            Expansion::Diagnostic(TraceError::ModuleWithoutContent),
        ])
    );
    let args = with_filter(Filter::Disable(names(&["m"])));
    assert_eq!(
        expand_item(&args, &item),
        Expansion::Mod(vec![
            Expansion::DepthVar,
            traced(&args, "foo", &[], &[]),
            Expansion::Unchanged,
        ])
    );
}

#[test]
fn enable_list_chooses_the_methods_of_an_implementation_block() {
    let args = with_filter(Filter::Enable(names(&["foo"])));
    let item = Item::Impl(ItemImpl {
        items: vec![method("foo", &["a", "b"]), ImplItem::Other, method("bar", &["a"])],
    });
    match expand_item(&args, &item) {
        Expansion::Impl(items) => {
            assert_eq!(items.len(), 3);
            match &items[0] {
                Expansion::Fn(Block::Traced(block)) => {
                    assert_eq!(block.arg_idents, names(&["a", "b"]));
                    assert_eq!(
                        block.entering_format,
                        "{:depth$}[+] Entering foo(a = {:?}, b = {:?})"
                    );
                }
                other => panic!("{:?}", other),
            }
            assert_eq!(items[1], Expansion::Unchanged);
            assert_eq!(items[2], Expansion::Unchanged);
        }
        other => panic!("{:?}", other),
    }
}

#[test]
fn disable_list_leaves_methods_out() {
    let args = with_filter(Filter::Disable(names(&["foo", "a"])));
    let item = ItemImpl { items: vec![method("foo", &["a"]), method("bar", &["a"])] };
    match transform_impl(&args, AttrApplied::Directly, &item) {
        Expansion::Impl(items) => {
            assert_eq!(items[0], Expansion::Unchanged);
            match &items[1] {
                Expansion::Fn(Block::Traced(block)) => assert_eq!(block.arg_idents, names(&["a"])),
                other => panic!("{:?}", other),
            }
        }
        other => panic!("{:?}", other),
    }
    match transform_impl(&args, AttrApplied::Indirectly, &item) {
        Expansion::Impl(items) => {
            assert!(matches!(items[0], Expansion::Fn(Block::Traced(_))));
            assert!(matches!(items[1], Expansion::Fn(Block::Traced(_))));
        }
        other => panic!("{:?}", other),
    }
}

#[test]
fn request_on_a_method_filters_its_arguments() {
    let args = with_filter(Filter::Enable(names(&["b"])));
    match expand_impl_item(&args, &method("foo", &["a", "b"])) {
        Expansion::Fn(Block::Traced(block)) => assert_eq!(block.arg_idents, names(&["b"])),
        other => panic!("{:?}", other),
    }
    let sig = signature("foo", &["a", "b"]);
    assert_eq!(
        transform_method(&args, AttrApplied::Directly, &ImplItemMethod { sig: signature("foo", &["a", "b"]) }),
        Expansion::Fn(construct_traced_block(&args, AttrApplied::Directly, &sig))
    );
    assert_eq!(
        transform_fn(&args, AttrApplied::Indirectly, &ItemFn { sig: signature("foo", &["a", "b"]) }),
        Expansion::Fn(construct_traced_block(&args, AttrApplied::Indirectly, &sig))
    );
}

#[test]
fn request_on_anything_else_is_an_error() {
    assert_eq!(
        expand_item(&Args::default(), &Item::Other),
        Expansion::Diagnostic(TraceError::UnsupportedItem)
    );
    assert_eq!(TraceError::UnsupportedItem.message(), "#[trace] is not supported for this item");
    assert_eq!(
        expand_impl_item(&Args::default(), &ImplItem::Other),
        Expansion::Diagnostic(TraceError::UnsupportedImplItem)
    );
    assert_eq!(
        TraceError::UnsupportedImplItem.message(),
        "#[trace] is not supported for this impl item"
    );
    assert_eq!(transform_item(&Args::default(), AttrApplied::Directly, &Item::Other), Expansion::Unchanged);
    assert_eq!(
        transform_impl_item(&Args::default(), AttrApplied::Directly, &ImplItem::Other),
        Expansion::Unchanged
    );
}

#[test]
fn module_walk_by_itself() {
    let args = with_filter(Filter::Enable(vec![]));
    let item = ItemMod { ident: "m".to_string(), content: Some(vec![function("foo", &["a"])]) };
    assert_eq!(
        transform_mod(&args, AttrApplied::Directly, &item),
        Expansion::Mod(vec![Expansion::DepthVar, Expansion::Unchanged])
    );
    assert_eq!(
        transform_mod(&args, AttrApplied::Indirectly, &item),
        Expansion::Mod(vec![Expansion::DepthVar, traced(&args, "foo", &["a"], &["a"])])
    );
}

#[test]
fn faulty_function_does_not_stop_its_neighbours() {
    let args = Args { format_enter: Some("{a}".to_string()), ..Args::default() };
    let item = module("m", vec![function("foo", &["a"]), function("bar", &["b"])]);
    match expand_item(&args, &item) {
        Expansion::Mod(items) => {
            assert!(matches!(items[1], Expansion::Fn(Block::Traced(_))));
            assert!(matches!(
                items[2],
                Expansion::Fn(Block::Diagnostic(TraceError::Template(_)))
            ));
        }
        other => panic!("{:?}", other),
    }
}

#[test]
fn request_with_wrong_options_is_rejected() {
    let raw = vec![
        RawArg { key: "enable".to_string(), value: RawValue::Names(vec![]) },
        RawArg { key: "disable".to_string(), value: RawValue::Names(vec![]) },
    ];
    let wrong = ArgErrorKind::Exclusive(Key::Enable, Key::Disable);
    for input in [Input::Item(function("foo", &[])), Input::ImplItem(ImplItem::Other), Input::Other] {
        assert_eq!(
            trace(&raw, &input),
            Output::Rejected(vec![
                ArgError { kind: wrong, index: 0 },
                ArgError { kind: wrong, index: 1 },
            ])
        );
    }
}

#[test]
fn request_is_answered_by_what_it_stands_on() {
    let raw = vec![
        RawArg { key: "prefix_enter".to_string(), value: RawValue::Text("->".to_string()) },
        RawArg { key: "disable".to_string(), value: RawValue::Names(names(&["b"])) },
    ];
    let args = Args {
        prefix_enter: "->".to_string(),
        filter: Filter::Disable(names(&["b"])),
        ..Args::default()
    };
    let item = module("m", vec![function("a", &["b"]), function("b", &["a"])]);
    match trace(&raw, &Input::Item(function("foo", &["a", "b"]))) {
        Output::Expanded(Expansion::Fn(Block::Traced(block))) => {
            assert_eq!(block.entering_format, "{:depth$}-> Entering foo(a = {:?})");
        }
        other => panic!("{:?}", other),
    }
    assert_eq!(
        trace(&raw, &Input::Item(item)),
        Output::Expanded(Expansion::Mod(vec![
            Expansion::DepthVar,
            traced(&args, "a", &["b"], &["b"]),
            Expansion::Unchanged,
        ]))
    );
    assert_eq!(
        trace(&raw, &Input::ImplItem(method("foo", &["a", "b"]))),
        Output::Expanded(expand_impl_item(&args, &method("foo", &["a", "b"])))
    );
    assert_eq!(
        trace(&raw, &Input::Item(Item::Other)),
        Output::Expanded(Expansion::Diagnostic(TraceError::UnsupportedItem))
    );
    assert_eq!(
        trace(&raw, &Input::Other),
        Output::Expanded(Expansion::Diagnostic(TraceError::ExpectedDeclaration))
    );
    assert_eq!(TraceError::ExpectedDeclaration.message(), "expected one of: `fn`, `impl`, `mod`");
}

#[test]
fn pretty_with_an_exit_template_is_rejected() {
    let raw = vec![
        RawArg { key: "format_exit".to_string(), value: RawValue::Text("returning {r}".to_string()) },
        RawArg { key: "pretty".to_string(), value: RawValue::Flag },
    ];
    assert!(matches!(trace(&raw, &Input::Item(function("foo", &[]))), Output::Rejected(_)));
}

#[test]
fn depth_counter_takes_no_arguments() {
    assert_eq!(init_depth_var(true), Expansion::DepthVar);
    assert_eq!(
        init_depth_var(false),
        Expansion::Diagnostic(TraceError::DepthVarWithArguments)
    );
    assert_eq!(
        TraceError::DepthVarWithArguments.message(),
        "`init_depth_var` takes no arguments"
    );
}
