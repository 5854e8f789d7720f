use trace::args::{Args, AttrApplied, Filter};
use trace::extract::{extract_arg_idents, process_pat, UnsupportedPattern};
use trace::syntax::{FnArg, Pat, Signature};

fn names(list: &[&str]) -> Vec<String> {
    list.iter().map(|s| s.to_string()).collect()
}

fn ident(name: &str) -> Pat {
    Pat::Ident(name.to_string())
}

fn signature(name: &str, inputs: Vec<FnArg>) -> Signature {
    Signature { ident: name.to_string(), inputs }
}

fn with_filter(filter: Filter) -> Args {
    Args { filter, ..Args::default() }
}

#[test]
fn plain_parameters_are_shown_in_order() {
    let sig = signature(
        "foo",
        vec![FnArg::Typed(ident("a")), FnArg::Typed(ident("b")), FnArg::Typed(ident("c"))],
    );
    for applied in [AttrApplied::Directly, AttrApplied::Indirectly] {
        assert_eq!(extract_arg_idents(&Args::default(), applied, &sig), Ok(names(&["a", "b", "c"])));
    }
}

#[test]
fn function_without_parameters_shows_nothing() {
    let sig = signature("foo", vec![]);
    assert_eq!(extract_arg_idents(&Args::default(), AttrApplied::Directly, &sig), Ok(vec![]));
}

#[test]
fn tuples_are_read_from_left_to_right() {
    let sig = signature(
        "bar",
        vec![
            FnArg::Typed(ident("first")),
            FnArg::Typed(Pat::Tuple(vec![
                ident("a"),
                Pat::Tuple(vec![ident("b"), Pat::Tuple(vec![]), ident("c")]),
                ident("d"),
            ])),
            FnArg::Typed(ident("last")),
        ],
    );
    assert_eq!(
        extract_arg_idents(&Args::default(), AttrApplied::Directly, &sig),
        Ok(names(&["first", "a", "b", "c", "d", "last"]))
    );
}

#[test]
fn receiver_is_never_shown() {
    let sig = signature("method", vec![FnArg::Receiver, FnArg::Typed(ident("a"))]);
    assert_eq!(extract_arg_idents(&Args::default(), AttrApplied::Directly, &sig), Ok(names(&["a"])));
    let args = with_filter(Filter::Enable(names(&["self"])));
    assert_eq!(extract_arg_idents(&args, AttrApplied::Directly, &sig), Ok(vec![]));
}

#[test]
fn enable_list_chooses_the_arguments() {
    let sig = signature(
        "foo",
        vec![
            FnArg::Typed(ident("a")),
            FnArg::Typed(Pat::Tuple(vec![ident("b"), ident("c")])),
            FnArg::Typed(ident("d")),
        ],
    );
    let args = with_filter(Filter::Enable(names(&["d", "b", "zzz"])));
    assert_eq!(extract_arg_idents(&args, AttrApplied::Directly, &sig), Ok(names(&["b", "d"])));
    let args = with_filter(Filter::Enable(vec![]));
    assert_eq!(extract_arg_idents(&args, AttrApplied::Directly, &sig), Ok(vec![]));
}

#[test]
fn disable_list_hides_the_arguments() {
    let sig = signature(
        "foo",
        vec![
            FnArg::Typed(ident("a")),
            FnArg::Typed(Pat::Tuple(vec![ident("b"), ident("c")])),
            FnArg::Typed(ident("d")),
        ],
    );
    let args = with_filter(Filter::Disable(names(&["d", "b", "zzz"])));
    assert_eq!(extract_arg_idents(&args, AttrApplied::Directly, &sig), Ok(names(&["a", "c"])));
    let args = with_filter(Filter::Disable(vec![]));
    assert_eq!(
        extract_arg_idents(&args, AttrApplied::Directly, &sig),
        Ok(names(&["a", "b", "c", "d"]))
    );
}

#[test]
fn filter_of_an_enclosing_request_does_not_choose_arguments() {
    let sig = signature("foo", vec![FnArg::Typed(ident("a")), FnArg::Typed(ident("b"))]);
    let args = with_filter(Filter::Enable(names(&["foo"])));
    assert_eq!(extract_arg_idents(&args, AttrApplied::Indirectly, &sig), Ok(names(&["a", "b"])));
    let args = with_filter(Filter::Disable(names(&["a"])));
    assert_eq!(extract_arg_idents(&args, AttrApplied::Indirectly, &sig), Ok(names(&["a", "b"])));
}

#[test]
fn other_patterns_are_an_error() {
    let sig = signature(
        "foo",
        vec![FnArg::Typed(ident("a")), FnArg::Receiver, FnArg::Typed(Pat::Other), FnArg::Typed(Pat::Other)],
    );
    assert_eq!(
        extract_arg_idents(&Args::default(), AttrApplied::Directly, &sig),
        Err(UnsupportedPattern { input: 2 })
    );
    let sig = signature(
        "foo",
        vec![FnArg::Typed(Pat::Tuple(vec![ident("a"), Pat::Tuple(vec![Pat::Other])]))],
    );
    assert_eq!(
        extract_arg_idents(&Args::default(), AttrApplied::Indirectly, &sig),
        Err(UnsupportedPattern { input: 0 })
    );
    let args = with_filter(Filter::Enable(vec![]));
    assert_eq!(
        extract_arg_idents(&args, AttrApplied::Directly, &sig),
        Err(UnsupportedPattern { input: 0 })
    );
}

#[test]
fn names_of_a_pattern_are_appended() {
    let mut found = names(&["x"]);
    let pat = Pat::Tuple(vec![ident("a"), ident("b")]);
    assert!(process_pat(&Args::default(), AttrApplied::Directly, &pat, &mut found));
    assert_eq!(found, names(&["x", "a", "b"]));
    assert!(!process_pat(&Args::default(), AttrApplied::Directly, &Pat::Other, &mut found));
}
