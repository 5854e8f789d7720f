use trace::args::{ArgError, ArgErrorKind, Args, Filter, Key, RawArg, RawValue};

fn names(list: &[&str]) -> Vec<String> {
    list.iter().map(|s| s.to_string()).collect()
}

fn flag(key: &str) -> RawArg {
    RawArg { key: key.to_string(), value: RawValue::Flag }
}

fn text(key: &str, value: &str) -> RawArg {
    RawArg { key: key.to_string(), value: RawValue::Text(value.to_string()) }
}

fn list(key: &str, value: &[&str]) -> RawArg {
    RawArg { key: key.to_string(), value: RawValue::Names(names(value)) }
}

fn error(kind: ArgErrorKind, index: usize) -> ArgError {
    ArgError { kind, index }
}

#[test]
fn no_option_gives_the_defaults() {
    let args = Args::from_raw_args(&vec![]).unwrap();
    assert_eq!(args, Args::default());
    assert_eq!(args.prefix_enter, "[+]");
    assert_eq!(args.prefix_exit, "[-]");
    assert_eq!(args.format_enter, None);
    assert_eq!(args.format_exit, None);
    assert_eq!(args.filter, Filter::All);
    assert!(!args.pause);
    assert!(!args.pretty);
    assert!(!args.logging);
}

#[test]
fn every_option_is_taken() {
    let args = Args::from_raw_args(&vec![
        flag("logging"),
        text("format_exit", "gave {r}"),
        text("prefix_exit", "<<"),
        list("disable", &["a", "b"]),
        flag("pause"),
        text("prefix_enter", ">>"),
        text("format_enter", "got {a}"),
    ])
    .unwrap();
    assert_eq!(
        args,
        Args {
            prefix_enter: ">>".to_string(),
            prefix_exit: "<<".to_string(),
            format_enter: Some("got {a}".to_string()),
            format_exit: Some("gave {r}".to_string()),
            filter: Filter::Disable(names(&["a", "b"])),
            pause: true,
            pretty: false,
            logging: true,
        }
    );
}

#[test]
fn pretty_and_enable_are_taken() {
    let args = Args::from_raw_args(&vec![list("enable", &["x"]), flag("pretty")]).unwrap();
    assert_eq!(args.filter, Filter::Enable(names(&["x"])));
    assert!(args.pretty);
    let args = Args::from_raw_args(&vec![list("enable", &[])]).unwrap();
    assert_eq!(args.filter, Filter::Enable(vec![]));
}

#[test]
fn unknown_option_is_reported_where_it_stands() {
    let errors = Args::from_raw_args(&vec![flag("pause"), flag("verbose"), text("Pretty", "x")])
        .unwrap_err();
    assert_eq!(
        errors,
        vec![error(ArgErrorKind::UnknownOption, 1), error(ArgErrorKind::UnknownOption, 2)]
    );
}

#[test]
fn value_of_the_wrong_form_is_reported() {
    let errors = Args::from_raw_args(&vec![
        text("pause", "yes"),
        flag("prefix_enter"),
        list("format_exit", &["r"]),
        text("enable", "a"),
        RawArg { key: "disable".to_string(), value: RawValue::Other },
        RawArg { key: "logging".to_string(), value: RawValue::Other },
        RawArg { key: "prefix_exit".to_string(), value: RawValue::Other },
    ])
    .unwrap_err();
    assert_eq!(
        errors,
        vec![
            error(ArgErrorKind::InvalidValue(Key::Pause), 0),
            error(ArgErrorKind::InvalidValue(Key::PrefixEnter), 1),
            error(ArgErrorKind::InvalidValue(Key::FormatExit), 2),
            error(ArgErrorKind::InvalidValue(Key::Enable), 3),
            error(ArgErrorKind::InvalidValue(Key::Disable), 4),
            error(ArgErrorKind::InvalidValue(Key::Logging), 5),
            error(ArgErrorKind::InvalidValue(Key::PrefixExit), 6),
        ]
    );
}

#[test]
fn option_given_twice_is_reported_at_each_place() {
    let errors = Args::from_raw_args(&vec![
        flag("pause"),
        text("prefix_enter", "a"),
        flag("pause"),
        text("prefix_enter", "a"),
        flag("pause"),
    ])
    .unwrap_err();
    assert_eq!(
        errors,
        vec![
            error(ArgErrorKind::Duplicate(Key::PrefixEnter), 1),
            error(ArgErrorKind::Duplicate(Key::PrefixEnter), 3),
            error(ArgErrorKind::Duplicate(Key::Pause), 0),
            error(ArgErrorKind::Duplicate(Key::Pause), 2),
            error(ArgErrorKind::Duplicate(Key::Pause), 4),
        ]
    );
}

#[test]
fn enable_and_disable_exclude_each_other() {
    for (enabled, disabled) in [
        (&["a"][..], &["b"][..]),
        (&[][..], &[][..]),
        (&[][..], &["a"][..]),
        (&["a"][..], &[][..]),
        (&["a", "b"][..], &["a", "b"][..]),
    ] {
        let errors =
            Args::from_raw_args(&vec![list("disable", disabled), flag("pause"), list("enable", enabled)])
                .unwrap_err();
        assert_eq!(
            errors,
            vec![
                error(ArgErrorKind::Exclusive(Key::Enable, Key::Disable), 2),
                error(ArgErrorKind::Exclusive(Key::Enable, Key::Disable), 0),
            ]
        );
    }
}

#[test]
fn enable_and_disable_fail_also_where_one_is_wrong_or_repeated() {
    assert!(Args::from_raw_args(&vec![list("enable", &["a"]), flag("disable")]).is_err());
    assert!(Args::from_raw_args(&vec![text("enable", "a"), list("disable", &[])]).is_err());
    let errors = Args::from_raw_args(&vec![
        list("enable", &["a"]),
        list("disable", &["b"]),
        list("enable", &["c"]),
    ])
    .unwrap_err();
    assert_eq!(
        errors,
        vec![
            error(ArgErrorKind::Duplicate(Key::Enable), 0),
            error(ArgErrorKind::Duplicate(Key::Enable), 2),
        ]
    );
}

#[test]
fn pretty_excludes_the_templates() {
    let errors =
        Args::from_raw_args(&vec![text("format_exit", "returning {r}"), flag("pretty")]).unwrap_err();
    assert_eq!(
        errors,
        vec![
            error(ArgErrorKind::Exclusive(Key::Pretty, Key::FormatExit), 1),
            error(ArgErrorKind::Exclusive(Key::Pretty, Key::FormatExit), 0),
        ]
    );
    let errors = Args::from_raw_args(&vec![
        flag("pretty"),
        text("format_enter", "{a}"),
        text("format_exit", "{r}"),
    ])
    .unwrap_err();
    assert_eq!(
        errors,
        vec![
            error(ArgErrorKind::Exclusive(Key::Pretty, Key::FormatEnter), 0),
            error(ArgErrorKind::Exclusive(Key::Pretty, Key::FormatEnter), 1),
            error(ArgErrorKind::Exclusive(Key::Pretty, Key::FormatExit), 0),
            error(ArgErrorKind::Exclusive(Key::Pretty, Key::FormatExit), 2),
        ]
    );
}

#[test]
fn all_errors_are_reported_together() {
    let errors = Args::from_raw_args(&vec![
        flag("nonsense"),
        list("enable", &["a"]),
        flag("logging"),
        list("disable", &["a"]),
        flag("logging"),
        text("pause", "no"),
    ])
    .unwrap_err();
    assert_eq!(
        errors,
        vec![
            error(ArgErrorKind::UnknownOption, 0),
            error(ArgErrorKind::InvalidValue(Key::Pause), 5),
            error(ArgErrorKind::Duplicate(Key::Logging), 2),
            error(ArgErrorKind::Duplicate(Key::Logging), 4),
            error(ArgErrorKind::Exclusive(Key::Enable, Key::Disable), 1),
            error(ArgErrorKind::Exclusive(Key::Enable, Key::Disable), 3),
        ]
    );
}

#[test]
fn option_names_are_read_and_written_alike() {
    for key in [
        Key::PrefixEnter,
        Key::PrefixExit,
        Key::Enable,
        Key::Disable,
        Key::Pause,
        Key::Pretty,
        Key::Logging,
        Key::FormatEnter,
        Key::FormatExit,
    ] {
        assert_eq!(Key::parse(&key.name().to_string()), Some(key));
    }
    assert_eq!(Key::Enable.name(), "enable");
    assert_eq!(Key::FormatExit.name(), "format_exit");
    assert_eq!(Key::parse(&"Enable".to_string()), None);
    assert_eq!(Key::parse(&String::new()), None);
}

#[test]
fn messages_of_the_errors() {
    assert_eq!(error(ArgErrorKind::UnknownOption, 0).message(), "unknown option");
    assert_eq!(
        error(ArgErrorKind::InvalidValue(Key::PrefixEnter), 0).message(),
        "`prefix_enter` requires a string value"
    );
    assert_eq!(
        error(ArgErrorKind::InvalidValue(Key::Disable), 0).message(),
        "`disable` requires a list of names"
    );
    assert_eq!(error(ArgErrorKind::InvalidValue(Key::Pause), 0).message(), "`pause` takes no value");
    assert_eq!(error(ArgErrorKind::Duplicate(Key::Logging), 3).message(), "duplicate `logging`");
    assert_eq!(
        error(ArgErrorKind::Exclusive(Key::Enable, Key::Disable), 3).message(),
        "cannot have both `enable` and `disable`"
    );
    assert_eq!(
        error(ArgErrorKind::Exclusive(Key::Pretty, Key::FormatExit), 3).message(),
        "cannot have both `pretty` and `format_exit`"
    );
}

#[test]
fn filters_admit_by_name() {
    let a = "a".to_string();
    let b = "b".to_string();
    assert!(Filter::All.admits(&a));
    assert!(Filter::Enable(names(&["a"])).admits(&a));
    assert!(!Filter::Enable(names(&["a"])).admits(&b));
    assert!(!Filter::Enable(vec![]).admits(&a));
    assert!(!Filter::Disable(names(&["a"])).admits(&a));
    assert!(Filter::Disable(names(&["a"])).admits(&b));
    assert!(Filter::Disable(vec![]).admits(&a));
}
