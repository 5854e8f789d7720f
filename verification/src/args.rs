//! The options of one tracing request.

use vstd::prelude::*;
use vstd::string::StringExecFns;
use crate::text::{position, texts};

verus! {

/// Which names take part: all of them, only the listed ones, or all but the listed ones.
#[derive(Debug, PartialEq, Eq)]
pub enum Filter {
    All,
    Enable(Vec<String>),
    Disable(Vec<String>),
}

/// The mathematical content of a `Filter`.
pub enum FilterView {
    All,
    Enable(Seq<Seq<char>>),
    Disable(Seq<Seq<char>>),
}

impl View for Filter {
    type V = FilterView;

    open spec fn view(&self) -> FilterView {
        match self {
            Filter::All => FilterView::All,
            Filter::Enable(names) => FilterView::Enable(texts(names@)),
            Filter::Disable(names) => FilterView::Disable(texts(names@)),
        }
    }
}

impl FilterView {
    /// Whether the filter lets `name` take part: an enable list must hold it,
    /// a disable list must not.
    pub open spec fn admits(self, name: Seq<char>) -> bool {
        match self {
            FilterView::All => true,
            FilterView::Enable(names) => names.contains(name),
            FilterView::Disable(names) => !names.contains(name),
        }
    }
}

impl Filter {
    /// Whether the filter lets `name` take part.
    pub fn admits(&self, name: &String) -> (b: bool)
        ensures
            b == self@.admits(name@),
    {
        match self {
            Filter::All => true,
            Filter::Enable(names) => {
                proof {
                    texts(names@).index_of_first_ensures(name@);
                }
                position(names, name).is_some()
            },
            Filter::Disable(names) => {
                proof {
                    texts(names@).index_of_first_ensures(name@);
                }
                position(names, name).is_none()
            },
        }
    }
}

/// Whether a tracing request stands on the very declaration at hand, so that
/// its filter speaks of the names met there, or on one that encloses it.
#[derive(Clone, Copy, Debug, PartialEq, Eq, Structural)]
pub enum AttrApplied {
    Directly,
    Indirectly,
}

/// Whether `name` takes part under `filter`: the filter is asked only where
/// the request stands directly.
pub open spec fn takes_part(filter: FilterView, applied: AttrApplied, name: Seq<char>) -> bool {
    applied == AttrApplied::Indirectly || filter.admits(name)
}

/// The options of one tracing request.
#[derive(Debug, PartialEq, Eq)]
pub struct Args {
    /// What an entry line begins with.
    pub prefix_enter: String,
    /// What an exit line begins with.
    pub prefix_exit: String,
    /// The template of an entry line's text, in place of the list of arguments.
    pub format_enter: Option<String>,
    /// The template of an exit line's text, in place of the returned value.
    pub format_exit: Option<String>,
    /// Which functions, or which arguments, take part.
    pub filter: Filter,
    /// Whether the traced function waits for a line of input after each trace line.
    pub pause: bool,
    /// Whether the returned value is shown in the pretty form.
    pub pretty: bool,
    /// Whether the lines go to the logger rather than to standard output.
    pub logging: bool,
}

/// The mathematical content of `Args`.
pub struct ArgsView {
    pub prefix_enter: Seq<char>,
    pub prefix_exit: Seq<char>,
    pub format_enter: Option<Seq<char>>,
    pub format_exit: Option<Seq<char>>,
    pub filter: FilterView,
    pub pause: bool,
    pub pretty: bool,
    pub logging: bool,
}

/// The characters of an optional string.
pub open spec fn option_text(s: Option<String>) -> Option<Seq<char>> {
    match s {
        Some(s) => Some(s@),
        None => None,
    }
}

impl View for Args {
    type V = ArgsView;

    open spec fn view(&self) -> ArgsView {
        ArgsView {
            prefix_enter: self.prefix_enter@,
            prefix_exit: self.prefix_exit@,
            format_enter: option_text(self.format_enter),
            format_exit: option_text(self.format_exit),
            filter: self.filter@,
            pause: self.pause,
            pretty: self.pretty,
            logging: self.logging,
        }
    }
}

impl ArgsView {
    /// The options in force where none is given.
    pub open spec fn initial() -> ArgsView {
        ArgsView {
            prefix_enter: "[+]"@,
            prefix_exit: "[-]"@,
            format_enter: None,
            format_exit: None,
            filter: FilterView::All,
            pause: false,
            pretty: false,
            logging: false,
        }
    }

    /// The pretty form and a template of one's own exclude each other.
    pub open spec fn wf(self) -> bool {
        self.pretty ==> self.format_enter is None && self.format_exit is None
    }
}

impl Default for Args {
    fn default() -> (r: Args)
        ensures
            r@ == ArgsView::initial(),
    {
        Args {
            prefix_enter: String::from_str("[+]"),
            prefix_exit: String::from_str("[-]"),
            format_enter: None,
            format_exit: None,
            filter: Filter::All,
            pause: false,
            pretty: false,
            logging: false,
        }
    }
}

/// What stands behind the name of an option as it was written.
#[derive(Debug, PartialEq, Eq)]
pub enum RawValue {
    /// Nothing: the bare name.
    Flag,
    /// `name = "text"`.
    Text(String),
    /// `name(a, b, c)`.
    Names(Vec<String>),
    /// Anything else.
    Other,
}

/// One option as it was written.
#[derive(Debug, PartialEq, Eq)]
pub struct RawArg {
    pub key: String,
    pub value: RawValue,
}

/// The options that a request can hold.
#[derive(Clone, Copy, Debug, PartialEq, Eq, Structural)]
pub enum Key {
    PrefixEnter,
    PrefixExit,
    Enable,
    Disable,
    Pause,
    Pretty,
    Logging,
    FormatEnter,
    FormatExit,
}

/// What is wrong with a request.
#[derive(Clone, Copy, Debug, PartialEq, Eq, Structural)]
pub enum ArgErrorKind {
    /// The name is that of no option.
    UnknownOption,
    /// The value is not of the form that the option takes.
    InvalidValue(Key),
    /// The option is given more than once.
    Duplicate(Key),
    /// The two options are given together and exclude each other.
    Exclusive(Key, Key),
}

/// One error in a request, and the index of the option at which it is reported.
#[derive(Clone, Copy, Debug, PartialEq, Eq, Structural)]
pub struct ArgError {
    pub kind: ArgErrorKind,
    pub index: usize,
}

/// The option that is written as `text`.
pub open spec fn spec_key(text: Seq<char>) -> Option<Key> {
    if text == "prefix_enter"@ {
        Some(Key::PrefixEnter)
    } else if text == "prefix_exit"@ {
        Some(Key::PrefixExit)
    } else if text == "enable"@ {
        Some(Key::Enable)
    } else if text == "disable"@ {
        Some(Key::Disable)
    } else if text == "pause"@ {
        Some(Key::Pause)
    } else if text == "pretty"@ {
        Some(Key::Pretty)
    } else if text == "logging"@ {
        Some(Key::Logging)
    } else if text == "format_enter"@ {
        Some(Key::FormatEnter)
    } else if text == "format_exit"@ {
        Some(Key::FormatExit)
    } else {
        None
    }
}

/// How option `key` is written.
pub open spec fn spec_key_name(key: Key) -> Seq<char> {
    match key {
        Key::PrefixEnter => "prefix_enter"@,
        Key::PrefixExit => "prefix_exit"@,
        Key::Enable => "enable"@,
        Key::Disable => "disable"@,
        Key::Pause => "pause"@,
        Key::Pretty => "pretty"@,
        Key::Logging => "logging"@,
        Key::FormatEnter => "format_enter"@,
        Key::FormatExit => "format_exit"@,
    }
}

/// Whether `value` has the form that option `key` takes: the prefixes and
/// the templates take a text, `enable` and `disable` a list of names, the
/// others nothing.
pub open spec fn fits(key: Key, value: RawValue) -> bool {
    match key {
        Key::PrefixEnter | Key::PrefixExit | Key::FormatEnter | Key::FormatExit => value is Text,
        Key::Enable | Key::Disable => value is Names,
        Key::Pause | Key::Pretty | Key::Logging => value is Flag,
    }
}

/// The option that `raw` gives, or what is wrong with `raw` by itself.
pub open spec fn spec_option(raw: RawArg) -> Result<Key, ArgErrorKind> {
    match spec_key(raw.key@) {
        None => Err(ArgErrorKind::UnknownOption),
        Some(key) => if fits(key, raw.value) {
            Ok(key)
        } else {
            Err(ArgErrorKind::InvalidValue(key))
        },
    }
}

/// The errors of the first `n` options of `raw`, each taken by itself, in their order.
pub open spec fn own_errors(raw: Seq<RawArg>, n: nat) -> Seq<ArgError>
    decreases n,
{
    if n == 0 || n > raw.len() {
        Seq::empty()
    } else {
        match spec_option(raw[n - 1]) {
            Ok(key) => own_errors(raw, (n - 1) as nat),
            Err(kind) => own_errors(raw, (n - 1) as nat).push(
                ArgError { kind, index: (n - 1) as usize },
            ),
        }
    }
}

/// The indices, among the first `n` options of `raw`, of those that give `key`, ascending.
pub open spec fn occurrences(raw: Seq<RawArg>, key: Key, n: nat) -> Seq<usize>
    decreases n,
{
    if n == 0 || n > raw.len() {
        Seq::empty()
    } else if spec_option(raw[n - 1]) == Ok::<Key, ArgErrorKind>(key) {
        occurrences(raw, key, (n - 1) as nat).push((n - 1) as usize)
    } else {
        occurrences(raw, key, (n - 1) as nat)
    }
}

/// The indices in `raw` of the options that give `key`, ascending.
pub open spec fn all_occurrences(raw: Seq<RawArg>, key: Key) -> Seq<usize> {
    occurrences(raw, key, raw.len())
}

/// One error at each place where `key` is given, if it is given more than once.
pub open spec fn duplicate_errors(found: Seq<usize>, key: Key) -> Seq<ArgError> {
    if found.len() >= 2 {
        found.map_values(|index: usize| ArgError { kind: ArgErrorKind::Duplicate(key), index })
    } else {
        Seq::empty()
    }
}

/// One error at each of the two options `a` and `b`, if each is given once.
pub open spec fn exclusive_errors(found_a: Seq<usize>, found_b: Seq<usize>, a: Key, b: Key)
    -> Seq<ArgError> {
    if found_a.len() == 1 && found_b.len() == 1 {
        seq![
            ArgError { kind: ArgErrorKind::Exclusive(a, b), index: found_a[0] },
            ArgError { kind: ArgErrorKind::Exclusive(a, b), index: found_b[0] },
        ]
    } else {
        Seq::empty()
    }
}

/// All errors of the request `raw`: those of each option by itself, in
/// their order; then the options given more than once; then `enable` with
/// `disable`, and `pretty` with either template.
pub open spec fn spec_errors(raw: Seq<RawArg>) -> Seq<ArgError> {
    own_errors(raw, raw.len())
        + duplicate_errors(all_occurrences(raw, Key::PrefixEnter), Key::PrefixEnter)
        + duplicate_errors(all_occurrences(raw, Key::PrefixExit), Key::PrefixExit)
        + duplicate_errors(all_occurrences(raw, Key::Enable), Key::Enable)
        + duplicate_errors(all_occurrences(raw, Key::Disable), Key::Disable)
        + duplicate_errors(all_occurrences(raw, Key::Pause), Key::Pause)
        + duplicate_errors(all_occurrences(raw, Key::Pretty), Key::Pretty)
        + duplicate_errors(all_occurrences(raw, Key::Logging), Key::Logging)
        + duplicate_errors(all_occurrences(raw, Key::FormatEnter), Key::FormatEnter)
        + duplicate_errors(all_occurrences(raw, Key::FormatExit), Key::FormatExit)
        + exclusive_errors(
            all_occurrences(raw, Key::Enable),
            all_occurrences(raw, Key::Disable),
            Key::Enable,
            Key::Disable,
        )
        + exclusive_errors(
            all_occurrences(raw, Key::Pretty),
            all_occurrences(raw, Key::FormatEnter),
            Key::Pretty,
            Key::FormatEnter,
        )
        + exclusive_errors(
            all_occurrences(raw, Key::Pretty),
            all_occurrences(raw, Key::FormatExit),
            Key::Pretty,
            Key::FormatExit,
        )
}

/// The text given for `key`, if `key` is given.
pub open spec fn spec_text(raw: Seq<RawArg>, key: Key) -> Option<Seq<char>> {
    let found = all_occurrences(raw, key);
    if found.len() > 0 {
        Some(raw[found[0] as int].value->Text_0@)
    } else {
        None
    }
}

/// The names given for `key`.
pub open spec fn spec_names(raw: Seq<RawArg>, key: Key) -> Seq<Seq<char>> {
    texts(raw[all_occurrences(raw, key)[0] as int].value->Names_0@)
}

/// The text in `given`, or else `default`.
pub open spec fn text_or(given: Option<Seq<char>>, default: Seq<char>) -> Seq<char> {
    match given {
        Some(text) => text,
        None => default,
    }
}

/// The options that the request `raw` asks for, where it has no error: each
/// option as it is given, and as `ArgsView::initial` has it where it is not.
pub open spec fn spec_args(raw: Seq<RawArg>) -> ArgsView {
    ArgsView {
        prefix_enter: text_or(spec_text(raw, Key::PrefixEnter), ArgsView::initial().prefix_enter),
        prefix_exit: text_or(spec_text(raw, Key::PrefixExit), ArgsView::initial().prefix_exit),
        format_enter: spec_text(raw, Key::FormatEnter),
        format_exit: spec_text(raw, Key::FormatExit),
        filter: if all_occurrences(raw, Key::Enable).len() > 0 {
            FilterView::Enable(spec_names(raw, Key::Enable))
        } else if all_occurrences(raw, Key::Disable).len() > 0 {
            FilterView::Disable(spec_names(raw, Key::Disable))
        } else {
            FilterView::All
        },
        pause: all_occurrences(raw, Key::Pause).len() > 0,
        pretty: all_occurrences(raw, Key::Pretty).len() > 0,
        logging: all_occurrences(raw, Key::Logging).len() > 0,
    }
}

/// Each index found lies in `raw`, and the option there gives `key`.
pub proof fn lemma_occurrences(raw: Seq<RawArg>, key: Key, n: nat, j: int)
    requires
        n <= raw.len() <= usize::MAX,
        0 <= j < occurrences(raw, key, n).len(),
    ensures
        occurrences(raw, key, n)[j] < n,
        spec_option(raw[occurrences(raw, key, n)[j] as int]) == Ok::<Key, ArgErrorKind>(key),
    decreases n,
{
    if n > 0 {
        if j < occurrences(raw, key, (n - 1) as nat).len() {
            lemma_occurrences(raw, key, (n - 1) as nat, j);
        }
    }
}

/// An option that gives `key` is found.
pub proof fn lemma_occurs(raw: Seq<RawArg>, key: Key, n: nat, i: int)
    requires
        0 <= i < n <= raw.len(),
        spec_option(raw[i]) == Ok::<Key, ArgErrorKind>(key),
    ensures
        occurrences(raw, key, n).len() > 0,
    decreases n,
{
    if i < n - 1 {
        lemma_occurs(raw, key, (n - 1) as nat, i);
    }
}

/// An option that is wrong by itself is reported.
pub proof fn lemma_own_error(raw: Seq<RawArg>, n: nat, i: int)
    requires
        0 <= i < n <= raw.len(),
        spec_option(raw[i]) is Err,
    ensures
        own_errors(raw, n).len() > 0,
    decreases n,
{
    if i < n - 1 {
        lemma_own_error(raw, (n - 1) as nat, i);
    }
}

/// A request that names both `enable` and `disable` has an error, whatever
/// the two hold and whatever else the request holds.
pub proof fn enable_excludes_disable(raw: Seq<RawArg>, i: int, j: int)
    requires
        0 <= i < raw.len(),
        0 <= j < raw.len(),
        spec_key(raw[i].key@) == Some(Key::Enable),
        spec_key(raw[j].key@) == Some(Key::Disable),
    ensures
        spec_errors(raw).len() > 0,
{
    if spec_option(raw[i]) is Err {
        lemma_own_error(raw, raw.len(), i);
    } else if spec_option(raw[j]) is Err {
        lemma_own_error(raw, raw.len(), j);
    } else {
        lemma_occurs(raw, Key::Enable, raw.len(), i);
        lemma_occurs(raw, Key::Disable, raw.len(), j);
    }
}

/// A request that names `pretty` and a template of its own has an error.
pub proof fn pretty_excludes_templates(raw: Seq<RawArg>, i: int, j: int)
    requires
        0 <= i < raw.len(),
        0 <= j < raw.len(),
        spec_key(raw[i].key@) == Some(Key::Pretty),
        spec_key(raw[j].key@) == Some(Key::FormatEnter) || spec_key(raw[j].key@) == Some(
            Key::FormatExit,
        ),
    ensures
        spec_errors(raw).len() > 0,
{
    if spec_option(raw[i]) is Err {
        lemma_own_error(raw, raw.len(), i);
    } else if spec_option(raw[j]) is Err {
        lemma_own_error(raw, raw.len(), j);
    } else {
        lemma_occurs(raw, Key::Pretty, raw.len(), i);
        if spec_key(raw[j].key@) == Some(Key::FormatEnter) {
            lemma_occurs(raw, Key::FormatEnter, raw.len(), j);
        } else {
            lemma_occurs(raw, Key::FormatExit, raw.len(), j);
        }
    }
}

/// In the options of a request without error, the pretty form and a
/// template of one's own do not stand together.
pub proof fn accepted_args_are_well_formed(raw: Seq<RawArg>)
    requires
        spec_errors(raw).len() == 0,
    ensures
        spec_args(raw).wf(),
{
}

impl Key {
    /// How the option is written.
    pub fn name(self) -> (name: &'static str)
        ensures
            name@ == spec_key_name(self),
    {
        match self {
            Key::PrefixEnter => "prefix_enter",
            Key::PrefixExit => "prefix_exit",
            Key::Enable => "enable",
            Key::Disable => "disable",
            Key::Pause => "pause",
            Key::Pretty => "pretty",
            Key::Logging => "logging",
            Key::FormatEnter => "format_enter",
            Key::FormatExit => "format_exit",
        }
    }

    /// The option that is written as `text`.
    pub fn parse(text: &String) -> (key: Option<Key>)
        ensures
            key == spec_key(text@),
    {
        if *text == String::from_str("prefix_enter") {
            Some(Key::PrefixEnter)
        } else if *text == String::from_str("prefix_exit") {
            Some(Key::PrefixExit)
        } else if *text == String::from_str("enable") {
            Some(Key::Enable)
        } else if *text == String::from_str("disable") {
            Some(Key::Disable)
        } else if *text == String::from_str("pause") {
            Some(Key::Pause)
        } else if *text == String::from_str("pretty") {
            Some(Key::Pretty)
        } else if *text == String::from_str("logging") {
            Some(Key::Logging)
        } else if *text == String::from_str("format_enter") {
            Some(Key::FormatEnter)
        } else if *text == String::from_str("format_exit") {
            Some(Key::FormatExit)
        } else {
            None
        }
    }
}

/// The text of the diagnostic for an error of kind `kind`.
pub open spec fn spec_describe(kind: ArgErrorKind) -> Seq<char> {
    match kind {
        ArgErrorKind::UnknownOption => "unknown option"@,
        ArgErrorKind::InvalidValue(key) => "`"@ + spec_key_name(key) + match key {
            Key::PrefixEnter | Key::PrefixExit | Key::FormatEnter | Key::FormatExit =>
                "` requires a string value"@,
            Key::Enable | Key::Disable => "` requires a list of names"@,
            Key::Pause | Key::Pretty | Key::Logging => "` takes no value"@,
        },
        ArgErrorKind::Duplicate(key) => "duplicate `"@ + spec_key_name(key) + "`"@,
        ArgErrorKind::Exclusive(a, b) => "cannot have both `"@ + spec_key_name(a) + "` and `"@
            + spec_key_name(b) + "`"@,
    }
}

impl ArgError {
    /// The diagnostic shown for this error.
    pub fn message(&self) -> (m: String)
        ensures
            m@ == spec_describe(self.kind),
    {
        match self.kind {
            ArgErrorKind::UnknownOption => String::from_str("unknown option"),
            ArgErrorKind::InvalidValue(key) => {
                let mut m = String::from_str("`");
                m.append(key.name());
                match key {
                    Key::PrefixEnter | Key::PrefixExit | Key::FormatEnter | Key::FormatExit => {
                        m.append("` requires a string value");
                    },
                    Key::Enable | Key::Disable => {
                        m.append("` requires a list of names");
                    },
                    Key::Pause | Key::Pretty | Key::Logging => {
                        m.append("` takes no value");
                    },
                }
                m
            },
            ArgErrorKind::Duplicate(key) => {
                let mut m = String::from_str("duplicate `");
                m.append(key.name());
                m.append("`");
                m
            },
            ArgErrorKind::Exclusive(a, b) => {
                let mut m = String::from_str("cannot have both `");
                m.append(a.name());
                m.append("` and `");
                m.append(b.name());
                m.append("`");
                m
            },
        }
    }
}

impl RawArg {
    /// The option that this gives, or what is wrong with it by itself.
    pub fn option(&self) -> (r: Result<Key, ArgErrorKind>)
        ensures
            r == spec_option(*self),
    {
        match Key::parse(&self.key) {
            None => Err(ArgErrorKind::UnknownOption),
            Some(key) => {
                let fit = match key {
                    Key::PrefixEnter | Key::PrefixExit | Key::FormatEnter | Key::FormatExit => {
                        match &self.value {
                            RawValue::Text(_) => true,
                            _ => false,
                        }
                    },
                    Key::Enable | Key::Disable => match &self.value {
                        RawValue::Names(_) => true,
                        _ => false,
                    },
                    Key::Pause | Key::Pretty | Key::Logging => match &self.value {
                        RawValue::Flag => true,
                        _ => false,
                    },
                };
                if fit {
                    Ok(key)
                } else {
                    Err(ArgErrorKind::InvalidValue(key))
                }
            },
        }
    }
}

/// The indices in `raw_args` of the options that give `key`, ascending.
pub fn find_occurrences(raw_args: &Vec<RawArg>, key: Key) -> (found: Vec<usize>)
    ensures
        found@ == all_occurrences(raw_args@, key),
{
    let mut found: Vec<usize> = Vec::new();
    let mut i: usize = 0;
    while i < raw_args.len()
        invariant
            i <= raw_args.len(),
            found@ == occurrences(raw_args@, key, i as nat),
        decreases raw_args.len() - i,
    {
        match raw_args[i].option() {
            Ok(given) => {
                if given == key {
                    found.push(i);
                }
            },
            Err(_) => {},
        }
        i += 1;
    }
    found
}

/// Reports `key` at each place where it is given, if it is given more than once.
fn report_duplicates(errors: &mut Vec<ArgError>, found: &Vec<usize>, key: Key)
    ensures
        final(errors)@ == old(errors)@ + duplicate_errors(found@, key),
{
    if found.len() >= 2 {
        let mut i: usize = 0;
        while i < found.len()
            invariant
                i <= found.len(),
                errors@ == old(errors)@ + duplicate_errors(found@, key).take(i as int),
                found.len() >= 2,
            decreases found.len() - i,
        {
            errors.push(ArgError { kind: ArgErrorKind::Duplicate(key), index: found[i] });
            assert(duplicate_errors(found@, key).take(i + 1) == duplicate_errors(found@, key).take(
                i as int,
            ).push(duplicate_errors(found@, key)[i as int]));
            i += 1;
        }
        assert(duplicate_errors(found@, key).take(found@.len() as int) == duplicate_errors(
            found@,
            key,
        ));
    }
}

/// Reports the options `a` and `b`, each given once, as given together.
fn report_exclusive(
    errors: &mut Vec<ArgError>,
    found_a: &Vec<usize>,
    found_b: &Vec<usize>,
    a: Key,
    b: Key,
)
    ensures
        final(errors)@ == old(errors)@ + exclusive_errors(found_a@, found_b@, a, b),
{
    if found_a.len() == 1 && found_b.len() == 1 {
        errors.push(ArgError { kind: ArgErrorKind::Exclusive(a, b), index: found_a[0] });
        errors.push(ArgError { kind: ArgErrorKind::Exclusive(a, b), index: found_b[0] });
    }
}

/// A copy of `names`.
fn copy_names(names: &Vec<String>) -> (copy: Vec<String>)
    ensures
        texts(copy@) == texts(names@),
{
    let mut copy: Vec<String> = Vec::new();
    let mut i: usize = 0;
    while i < names.len()
        invariant
            i <= names.len(),
            texts(copy@) == texts(names@).take(i as int),
        decreases names.len() - i,
    {
        copy.push(names[i].clone());
        assert(texts(copy@) == texts(names@).take(i as int).push(names@[i as int]@));
        i += 1;
    }
    assert(texts(names@).take(names@.len() as int) == texts(names@));
    copy
}

/// The text given for `key`, of which `found` are the places.
fn given_text(raw_args: &Vec<RawArg>, key: Key, found: &Vec<usize>) -> (text: Option<String>)
    requires
        found@ == all_occurrences(raw_args@, key),
        key == Key::PrefixEnter || key == Key::PrefixExit || key == Key::FormatEnter || key
            == Key::FormatExit,
    ensures
        option_text(text) == spec_text(raw_args@, key),
{
    if found.len() > 0 {
        proof {
            assert(raw_args@.len() == raw_args.len());
            lemma_occurrences(raw_args@, key, raw_args@.len(), 0);
        }
        match &raw_args[found[0]].value {
            RawValue::Text(text) => Some(text.clone()),
            _ => None,
        }
    } else {
        None
    }
}

/// The names given for `key`, of which `found` are the places.
fn given_names(raw_args: &Vec<RawArg>, key: Key, found: &Vec<usize>) -> (names: Vec<String>)
    requires
        found@ == all_occurrences(raw_args@, key),
        found@.len() > 0,
        key == Key::Enable || key == Key::Disable,
    ensures
        texts(names@) == spec_names(raw_args@, key),
{
    proof {
        assert(raw_args@.len() == raw_args.len());
        lemma_occurrences(raw_args@, key, raw_args@.len(), 0);
    }
    match &raw_args[found[0]].value {
        RawValue::Names(names) => copy_names(names),
        _ => Vec::new(),
    }
}

impl Args {
    /// The options that the request `raw_args` asks for, or all errors of the request.
    ///
    /// An option is wrong by itself where its name is that of no option or
    /// its value has not the form that the option takes. No option may be
    /// given twice, `enable` excludes `disable`, and `pretty` excludes
    /// `format_enter` and `format_exit`. Every error is reported, none hides
    /// another. An option that is not given has its default.
    pub fn from_raw_args(raw_args: &Vec<RawArg>) -> (r: Result<Args, Vec<ArgError>>)
        ensures
            match r {
                Ok(args) => spec_errors(raw_args@).len() == 0 && args@ == spec_args(raw_args@)
                    && args@.wf(),
                Err(errors) => errors@.len() > 0 && errors@ == spec_errors(raw_args@),
            },
    {
        let mut errors: Vec<ArgError> = Vec::new();
        let mut i: usize = 0;
        while i < raw_args.len()
            invariant
                i <= raw_args.len(),
                errors@ == own_errors(raw_args@, i as nat),
            decreases raw_args.len() - i,
        {
            match raw_args[i].option() {
                Ok(_) => {},
                Err(kind) => {
                    errors.push(ArgError { kind, index: i });
                },
            }
            i += 1;
        }
        let prefix_enter_args = find_occurrences(raw_args, Key::PrefixEnter);
        let prefix_exit_args = find_occurrences(raw_args, Key::PrefixExit);
        let enable_args = find_occurrences(raw_args, Key::Enable);
        let disable_args = find_occurrences(raw_args, Key::Disable);
        let pause_args = find_occurrences(raw_args, Key::Pause);
        let pretty_args = find_occurrences(raw_args, Key::Pretty);
        let logging_args = find_occurrences(raw_args, Key::Logging);
        let format_enter_args = find_occurrences(raw_args, Key::FormatEnter);
        let format_exit_args = find_occurrences(raw_args, Key::FormatExit);
        report_duplicates(&mut errors, &prefix_enter_args, Key::PrefixEnter);
        report_duplicates(&mut errors, &prefix_exit_args, Key::PrefixExit);
        report_duplicates(&mut errors, &enable_args, Key::Enable);
        report_duplicates(&mut errors, &disable_args, Key::Disable);
        report_duplicates(&mut errors, &pause_args, Key::Pause);
        report_duplicates(&mut errors, &pretty_args, Key::Pretty);
        report_duplicates(&mut errors, &logging_args, Key::Logging);
        report_duplicates(&mut errors, &format_enter_args, Key::FormatEnter);
        report_duplicates(&mut errors, &format_exit_args, Key::FormatExit);
        report_exclusive(&mut errors, &enable_args, &disable_args, Key::Enable, Key::Disable);
        report_exclusive(
            &mut errors,
            &pretty_args,
            &format_enter_args,
            Key::Pretty,
            Key::FormatEnter,
        );
        report_exclusive(
            &mut errors,
            &pretty_args,
            &format_exit_args,
            Key::Pretty,
            Key::FormatExit,
        );
        if errors.len() > 0 {
            return Err(errors);
        }
        let prefix_enter = match given_text(raw_args, Key::PrefixEnter, &prefix_enter_args) {
            Some(text) => text,
            None => String::from_str("[+]"),
        };
        let prefix_exit = match given_text(raw_args, Key::PrefixExit, &prefix_exit_args) {
            Some(text) => text,
            None => String::from_str("[-]"),
        };
        let filter = if enable_args.len() > 0 {
            Filter::Enable(given_names(raw_args, Key::Enable, &enable_args))
        } else if disable_args.len() > 0 {
            Filter::Disable(given_names(raw_args, Key::Disable, &disable_args))
        } else {
            Filter::All
        };
        Ok(
            Args {
                prefix_enter,
                prefix_exit,
                format_enter: given_text(raw_args, Key::FormatEnter, &format_enter_args),
                format_exit: given_text(raw_args, Key::FormatExit, &format_exit_args),
                filter,
                pause: pause_args.len() > 0,
                pretty: pretty_args.len() > 0,
                logging: logging_args.len() > 0,
            },
        )
    }
}

} // verus!
