//! Interpolation templates.
//!
//! A template is text in which `{name}` or `{name:spec}` stands for a value and
//! `{{`, `}}` stand for literal braces. Compiling one yields a format string
//! with numbered placeholders, `{1:spec}`, and the list of the names whose
//! values fill the numbers, each name at the place of its first use.

use vstd::prelude::*;
use vstd::string::StringExecFns;
use crate::text::{chars_of, decimal, position, push_chars, push_decimal, texts};

verus! {

/// Whether `c` has the Unicode property `White_Space`, as `char::is_whitespace` reports it.
pub uninterp spec fn white_space(c: char) -> bool;

/// `char::is_whitespace` tells whether a character has the Unicode property
/// `White_Space`; the answer depends on the character alone.
pub assume_specification[ char::is_whitespace ](c: char) -> (b: bool)
    ensures
        b == white_space(c),
;

/// Why a template cannot be compiled.
#[derive(Debug, PartialEq, Eq)]
pub enum TemplateError {
    /// A `}` that closes nothing and is not doubled.
    UnmatchedClose,
    /// A placeholder that the end of the template or a line break cuts short.
    Unterminated,
    /// A character other than `}` after blanks inside a placeholder.
    UnexpectedChar(char),
    /// A placeholder whose name is not among the names on offer.
    UnknownName(String),
}

/// The mathematical content of a `TemplateError`.
pub enum Fault {
    UnmatchedClose,
    Unterminated,
    UnexpectedChar(char),
    UnknownName(Seq<char>),
}

impl View for TemplateError {
    type V = Fault;

    open spec fn view(&self) -> Fault {
        match self {
            TemplateError::UnmatchedClose => Fault::UnmatchedClose,
            TemplateError::Unterminated => Fault::Unterminated,
            TemplateError::UnexpectedChar(c) => Fault::UnexpectedChar(*c),
            TemplateError::UnknownName(name) => Fault::UnknownName(name@),
        }
    }
}

/// The text of the diagnostic for `fault`.
pub open spec fn spec_message(fault: Fault) -> Seq<char> {
    match fault {
        Fault::UnmatchedClose =>
            "invalid format string: unmatched `}` found\nif you intended to print `}`, you can escape it using `}}`"@,
        Fault::Unterminated =>
            "invalid format string: expected `'}}'` but string was terminated\nif you intended to print `{{`, you can escape it using `{{`."@,
        Fault::UnexpectedChar(c) =>
            "invalid format string: expected `'}'`, found `'"@.push(c)
                + "'`\nif you intended to print `{`, you can escape it using `{`."@,
        Fault::UnknownName(name) => "cannot find `"@ + name + "` in this scope."@,
    }
}

impl TemplateError {
    /// The diagnostic shown for this error.
    pub fn message(&self) -> (m: String)
        ensures
            m@ == spec_message(self@),
    {
        match self {
            TemplateError::UnmatchedClose => String::from_str(
                "invalid format string: unmatched `}` found\nif you intended to print `}`, you can escape it using `}}`",
            ),
            TemplateError::Unterminated => String::from_str(
                "invalid format string: expected `'}}'` but string was terminated\nif you intended to print `{{`, you can escape it using `{{`.",
            ),
            TemplateError::UnexpectedChar(c) => {
                let mut m = String::from_str("invalid format string: expected `'}'`, found `'");
                m.push(*c);
                m.append("'`\nif you intended to print `{`, you can escape it using `{`.");
                m
            },
            TemplateError::UnknownName(name) => {
                let mut m = String::from_str("cannot find `");
                m.append(name.as_str());
                m.append("` in this scope.");
                m
            },
        }
    }
}

/// What one character inside a placeholder means to the scanner.
#[derive(Clone, Copy, Debug, PartialEq, Eq, Structural)]
pub enum Move {
    /// The character belongs to the placeholder's text.
    Collect,
    /// A blank: only blanks and the closing brace may follow.
    Skip,
    /// The closing brace.
    Close,
    /// A line break, which no placeholder may hold.
    Unterminated,
    /// Anything but a blank or the closing brace after a blank.
    Unexpected,
}

/// The meaning of character `c`, which is a blank iff `blank`, before
/// (`trailing` false) or after (`trailing` true) the first blank of a placeholder.
pub open spec fn spec_move(trailing: bool, c: char, blank: bool) -> Move {
    if c == '}' {
        Move::Close
    } else if c == '\n' {
        Move::Unterminated
    } else if blank {
        Move::Skip
    } else if trailing {
        Move::Unexpected
    } else {
        Move::Collect
    }
}

/// Classifies one character of a placeholder, given whether it is a blank.
pub fn next_move(trailing: bool, c: char, blank: bool) -> (m: Move)
    ensures
        m == spec_move(trailing, c, blank),
{
    if c == '}' {
        Move::Close
    } else if c == '\n' {
        Move::Unterminated
    } else if blank {
        Move::Skip
    } else if trailing {
        Move::Unexpected
    } else {
        Move::Collect
    }
}

/// Scanning `t` from `i`, after a blank inside a placeholder: the index just
/// behind the closing brace, which only blanks may precede.
pub open spec fn spec_trailing(t: Seq<char>, i: int) -> Result<int, Fault>
    decreases t.len() - i,
{
    if i < 0 || i >= t.len() {
        Err(Fault::Unterminated)
    } else {
        match spec_move(true, t[i], white_space(t[i])) {
            Move::Close => Ok(i + 1),
            Move::Skip => spec_trailing(t, i + 1),
            Move::Unexpected => Err(Fault::UnexpectedChar(t[i])),
            _ => Err(Fault::Unterminated),
        }
    }
}

/// Scanning `t` from `i`, inside a placeholder of which `text` has been read:
/// the placeholder's whole text and the index just behind its closing brace.
pub open spec fn spec_placeholder(t: Seq<char>, i: int, text: Seq<char>) -> Result<
    (Seq<char>, int),
    Fault,
>
    decreases t.len() - i,
{
    if i < 0 || i >= t.len() {
        Err(Fault::Unterminated)
    } else {
        match spec_move(false, t[i], white_space(t[i])) {
            Move::Close => Ok((text, i + 1)),
            Move::Collect => spec_placeholder(t, i + 1, text.push(t[i])),
            Move::Skip => match spec_trailing(t, i + 1) {
                Ok(next) => Ok((text, next)),
                Err(fault) => Err(fault),
            },
            _ => Err(Fault::Unterminated),
        }
    }
}

/// The name in a placeholder's text: what stands before the first colon.
pub open spec fn spec_name(text: Seq<char>) -> Seq<char> {
    match text.index_of_first(':') {
        Some(k) => text.take(k),
        None => text,
    }
}

/// The display specifier in a placeholder's text: what stands behind the first colon.
pub open spec fn spec_suffix(text: Seq<char>) -> Seq<char> {
    match text.index_of_first(':') {
        Some(k) => text.skip(k + 1),
        None => Seq::empty(),
    }
}

/// The numbered placeholder `{position:suffix}`.
pub open spec fn spec_code(position: nat, suffix: Seq<char>) -> Seq<char> {
    seq!['{'] + decimal(position) + seq![':'] + suffix + seq!['}']
}

/// A resolved placeholder: its number, its text in the format string, and the
/// two lists of names after it.
pub struct Fixed {
    pub position: nat,
    pub code: Seq<char>,
    pub available: Seq<Seq<char>>,
    pub used: Seq<Seq<char>>,
}

/// Resolves the placeholder `text` against the names still `available` and
/// those already `used`. A used name keeps its number; an available one moves
/// to the end of `used` and takes the next number; any other name is unknown.
pub open spec fn spec_fix(text: Seq<char>, available: Seq<Seq<char>>, used: Seq<Seq<char>>)
    -> Option<Fixed> {
    let name = spec_name(text);
    match used.index_of_first(name) {
        Some(k) => Some(
            Fixed {
                position: (k + 1) as nat,
                code: spec_code((k + 1) as nat, spec_suffix(text)),
                available,
                used,
            },
        ),
        None => match available.index_of_first(name) {
            Some(k) => Some(
                Fixed {
                    position: used.len() + 1,
                    code: spec_code(used.len() + 1, spec_suffix(text)),
                    available: available.remove(k),
                    used: used.push(name),
                },
            ),
            None => None,
        },
    }
}

/// The placeholder that opens just before index `i` of `t`, scanned and
/// resolved: what it becomes, and the index behind it.
pub open spec fn spec_interpolated(
    t: Seq<char>,
    i: int,
    available: Seq<Seq<char>>,
    used: Seq<Seq<char>>,
) -> Result<(Fixed, int), Fault> {
    match spec_placeholder(t, i, Seq::empty()) {
        Err(fault) => Err(fault),
        Ok((text, next)) => match spec_fix(text, available, used) {
            None => Err(Fault::UnknownName(spec_name(text))),
            Some(fixed) => Ok((fixed, next)),
        },
    }
}

/// The state of a compilation: the format string written so far and the two lists of names.
pub struct Scan {
    pub format: Seq<char>,
    pub available: Seq<Seq<char>>,
    pub used: Seq<Seq<char>>,
}

/// The end of a compilation: the format string or the first fault, and the
/// two lists of names as they stood then.
pub struct Compiled {
    pub result: Result<Seq<char>, Fault>,
    pub available: Seq<Seq<char>>,
    pub used: Seq<Seq<char>>,
}

impl Scan {
    pub open spec fn emit(self, s: Seq<char>) -> Scan {
        Scan { format: self.format + s, available: self.available, used: self.used }
    }

    pub open spec fn done(self) -> Compiled {
        Compiled { result: Ok(self.format), available: self.available, used: self.used }
    }

    pub open spec fn fail(self, fault: Fault) -> Compiled {
        Compiled { result: Err(fault), available: self.available, used: self.used }
    }
}

/// A closed placeholder ends behind where it began, and inside the template.
pub proof fn lemma_trailing_advances(t: Seq<char>, i: int)
    requires
        0 <= i,
    ensures
        spec_trailing(t, i) matches Ok(next) ==> i < next <= t.len(),
    decreases t.len() - i,
{
    if i < t.len() && spec_move(true, t[i], white_space(t[i])) == Move::Skip {
        lemma_trailing_advances(t, i + 1);
    }
}

/// A closed placeholder ends behind where it began, and inside the template.
pub proof fn lemma_placeholder_advances(t: Seq<char>, i: int, text: Seq<char>)
    requires
        0 <= i,
    ensures
        spec_placeholder(t, i, text) matches Ok(p) ==> i < p.1 <= t.len(),
    decreases t.len() - i,
{
    if i < t.len() {
        let m = spec_move(false, t[i], white_space(t[i]));
        if m == Move::Collect {
            lemma_placeholder_advances(t, i + 1, text.push(t[i]));
        } else if m == Move::Skip {
            lemma_trailing_advances(t, i + 1);
        }
    }
}

/// One step of a compilation, at index `i` of `t` and in state `scan`: a
/// doubled brace is kept, a placeholder is resolved and numbered, a lone `}`
/// is a fault, any other character is copied. The step gives the index and
/// the state behind what it has read.
pub open spec fn spec_step(t: Seq<char>, i: int, scan: Scan) -> Result<(int, Scan), Fault> {
    if t[i] == '{' {
        if i + 1 < t.len() && t[i + 1] == '{' {
            Ok((i + 2, scan.emit(seq!['{', '{'])))
        } else {
            match spec_interpolated(t, i + 1, scan.available, scan.used) {
                Err(fault) => Err(fault),
                Ok((fixed, next)) => Ok(
                    (
                        next,
                        Scan {
                            format: scan.format + fixed.code,
                            available: fixed.available,
                            used: fixed.used,
                        },
                    ),
                ),
            }
        }
    } else if t[i] == '}' {
        if i + 1 < t.len() && t[i + 1] == '}' {
            Ok((i + 2, scan.emit(seq!['}', '}'])))
        } else {
            Err(Fault::UnmatchedClose)
        }
    } else {
        Ok((i + 1, scan.emit(seq![t[i]])))
    }
}

/// A step ends behind where it began, and inside the template.
pub proof fn lemma_step_advances(t: Seq<char>, i: int, scan: Scan)
    requires
        0 <= i < t.len(),
    ensures
        spec_step(t, i, scan) matches Ok(step) ==> i < step.0 <= t.len(),
{
    lemma_placeholder_advances(t, i + 1, Seq::empty());
}

/// Compiles `t` from index `i` on, in state `scan`, step by step from left
/// to right, up to the end of `t` or the first fault.
pub open spec fn spec_compile_from(t: Seq<char>, i: int, scan: Scan) -> Compiled
    decreases t.len() - i,
{
    if i < 0 || i >= t.len() {
        scan.done()
    } else {
        match spec_step(t, i, scan) {
            Err(fault) => scan.fail(fault),
            Ok((next, then)) => {
                proof {
                    lemma_step_advances(t, i, scan);
                }
                spec_compile_from(t, next, then)
            },
        }
    }
}

/// The compilation of template `t` against the names `available`.
pub open spec fn spec_compile(t: Seq<char>, available: Seq<Seq<char>>) -> Compiled {
    spec_compile_from(
        t,
        0,
        Scan { format: Seq::empty(), available, used: Seq::empty() },
    )
}

/// The view of a compiled format string or of the error in its place.
pub open spec fn result_view(r: Result<String, TemplateError>) -> Result<Seq<char>, Fault> {
    match r {
        Ok(s) => Ok(s@),
        Err(e) => Err(e@),
    }
}

/// Reads the blanks that end a placeholder, from index `pos` of `fmt` on, up
/// to and with its closing brace, and returns the index behind the brace.
pub fn skip_whitespace_and_check(fmt: &Vec<char>, pos: usize) -> (r: Result<usize, TemplateError>)
    ensures
        match spec_trailing(fmt@, pos as int) {
            Ok(next) => r == Ok::<usize, TemplateError>(next as usize) && pos < next <= fmt.len(),
            Err(fault) => r is Err && r->Err_0@ == fault,
        },
{
    let mut i: usize = pos;
    while i < fmt.len()
        invariant
            pos <= i,
            spec_trailing(fmt@, i as int) == spec_trailing(fmt@, pos as int),
        decreases fmt.len() - i,
    {
        let c = fmt[i];
        match next_move(true, c, c.is_whitespace()) {
            Move::Close => {
                return Ok(i + 1);
            },
            Move::Skip => {
                i += 1;
            },
            Move::Unexpected => {
                return Err(TemplateError::UnexpectedChar(c));
            },
            _ => {
                return Err(TemplateError::Unterminated);
            },
        }
    }
    Err(TemplateError::Unterminated)
}

/// Resolves the placeholder whose text is `ident`: splits it at its first
/// colon into name and display specifier, finds the name's number, moving
/// the name from `arg_idents` to the end of `kept_arg_idents` at its first
/// use, and returns the numbered placeholder. An unknown name changes nothing.
pub fn fix_interpolated(
    ident: &Vec<char>,
    arg_idents: &mut Vec<String>,
    kept_arg_idents: &mut Vec<String>,
) -> (r: Result<String, TemplateError>)
    ensures
        match spec_fix(ident@, texts(old(arg_idents)@), texts(old(kept_arg_idents)@)) {
            Some(fixed) => {
                &&& r is Ok
                &&& r->Ok_0@ == fixed.code
                &&& texts(final(arg_idents)@) == fixed.available
                &&& texts(final(kept_arg_idents)@) == fixed.used
            },
            None => {
                &&& r is Err
                &&& r->Err_0@ == Fault::UnknownName(spec_name(ident@))
                &&& *final(arg_idents) == *old(arg_idents)
                &&& *final(kept_arg_idents) == *old(kept_arg_idents)
            },
        },
{
    let mut colon: usize = 0;
    while colon < ident.len() && ident[colon] != ':'
        invariant
            colon <= ident.len(),
            forall|j: int| 0 <= j < colon ==> ident@[j] != ':',
        decreases ident.len() - colon,
    {
        colon += 1;
    }
    proof {
        ident@.index_of_first_ensures(':');
        if colon < ident.len() {
            assert(ident@[colon as int] == ':');
            assert(ident@.index_of_first(':') == Some(colon as int));
        } else {
            assert(ident@.index_of_first(':') is None);
        }
        assert(ident@.take(colon as int) == ident@.subrange(0, colon as int));
    }
    let mut name = String::new();
    push_chars(&mut name, ident, 0, colon);
    assert(name@ == spec_name(ident@));
    let mut code = String::new();
    code.push('{');
    proof {
        texts(kept_arg_idents@).index_of_first_ensures(name@);
        texts(arg_idents@).index_of_first_ensures(name@);
    }
    match position(kept_arg_idents, &name) {
        Some(index) => {
            assert(index < texts(kept_arg_idents@).len() == kept_arg_idents.len());
            push_decimal(&mut code, index + 1);
        },
        None => match position(arg_idents, &name) {
            Some(index) => {
                let moved = arg_idents.remove(index);
                kept_arg_idents.push(moved);
                push_decimal(&mut code, kept_arg_idents.len());
                proof {
                    texts(old(arg_idents)@).index_of_first_ensures(name@);
                    assert(moved@ == name@);
                    assert(texts(arg_idents@) == texts(old(arg_idents)@).remove(index as int));
                    assert(texts(kept_arg_idents@) == texts(old(kept_arg_idents)@).push(name@));
                }
            },
            None => {
                return Err(TemplateError::UnknownName(name));
            },
        },
    }
    code.push(':');
    if colon < ident.len() {
        push_chars(&mut code, ident, colon + 1, ident.len());
        assert(ident@.skip(colon + 1) == ident@.subrange(colon + 1, ident@.len() as int));
    }
    code.push('}');
    assert(code@ == spec_code(
        spec_fix(ident@, texts(old(arg_idents)@), texts(old(kept_arg_idents)@))->0.position,
        spec_suffix(ident@),
    ));
    Ok(code)
}

/// Reads the placeholder that opens just before index `pos` of `fmt` and
/// resolves it: the numbered placeholder that takes its place, and the index
/// behind its closing brace. On an error the two lists stay as they were.
pub fn parse_interpolated(
    fmt: &Vec<char>,
    pos: usize,
    arg_idents: &mut Vec<String>,
    kept_arg_idents: &mut Vec<String>,
) -> (r: Result<(String, usize), TemplateError>)
    ensures
        match spec_interpolated(
            fmt@,
            pos as int,
            texts(old(arg_idents)@),
            texts(old(kept_arg_idents)@),
        ) {
            Ok((fixed, next)) => {
                &&& r is Ok
                &&& r->Ok_0.0@ == fixed.code
                &&& r->Ok_0.1 == next
                &&& pos < next <= fmt.len()
                &&& texts(final(arg_idents)@) == fixed.available
                &&& texts(final(kept_arg_idents)@) == fixed.used
            },
            Err(fault) => {
                &&& r is Err
                &&& r->Err_0@ == fault
                &&& *final(arg_idents) == *old(arg_idents)
                &&& *final(kept_arg_idents) == *old(kept_arg_idents)
            },
        },
{
    let mut ident: Vec<char> = Vec::new();
    let mut i: usize = pos;
    let mut next: usize = pos;
    let mut closed = false;
    while !closed
        invariant
            pos <= i,
            !closed ==> spec_placeholder(fmt@, i as int, ident@) == spec_placeholder(
                fmt@,
                pos as int,
                Seq::empty(),
            ),
            closed ==> spec_placeholder(fmt@, pos as int, Seq::empty()) == Ok::<
                (Seq<char>, int),
                Fault,
            >((ident@, next as int)),
            closed ==> pos < next <= fmt.len(),
        decreases
            if closed {
                0
            } else if i < fmt.len() {
                fmt.len() - i + 1
            } else {
                1
            },
    {
        if i >= fmt.len() {
            return Err(TemplateError::Unterminated);
        }
        let c = fmt[i];
        match next_move(false, c, c.is_whitespace()) {
            Move::Close => {
                next = i + 1;
                closed = true;
            },
            Move::Collect => {
                ident.push(c);
                i += 1;
            },
            Move::Skip => {
                match skip_whitespace_and_check(fmt, i + 1) {
                    Ok(behind) => {
                        next = behind;
                        closed = true;
                    },
                    Err(e) => {
                        return Err(e);
                    },
                }
            },
            _ => {
                return Err(TemplateError::Unterminated);
            },
        }
    }
    match fix_interpolated(&ident, arg_idents, kept_arg_idents) {
        Ok(code) => Ok((code, next)),
        Err(e) => Err(e),
    }
}

/// Compiles the template `fmt_str` against the names in `arg_idents`.
///
/// Returns the format string with numbered placeholders, or the first error
/// met from the left, and beside it the names that the placeholders read up
/// to there use, each at the place of its first use: the name numbered `n`
/// is the `n`-th of them. Those names leave `arg_idents`; the others stay, in
/// their order.
pub fn parse_fmt_str(fmt_str: &str, arg_idents: &mut Vec<String>) -> (r: (
    Result<String, TemplateError>,
    Vec<String>,
))
    ensures
        ({
            let compiled = spec_compile(fmt_str@, texts(old(arg_idents)@));
            &&& result_view(r.0) == compiled.result
            &&& texts(r.1@) == compiled.used
            &&& texts(final(arg_idents)@) == compiled.available
        }),
{
    let chars = chars_of(fmt_str);
    let mut fixed_format_str = String::new();
    let mut kept_arg_idents: Vec<String> = Vec::new();
    let mut i: usize = 0;
    assert(texts(kept_arg_idents@) == Seq::<Seq<char>>::empty());
    while i < chars.len()
        invariant
            i <= chars.len(),
            chars@ == fmt_str@,
            spec_compile_from(
                chars@,
                i as int,
                Scan {
                    format: fixed_format_str@,
                    available: texts(arg_idents@),
                    used: texts(kept_arg_idents@),
                },
            ) == spec_compile(fmt_str@, texts(old(arg_idents)@)),
        decreases chars.len() - i,
    {
        let c = chars[i];
        let ghost written = fixed_format_str@;
        if c == '{' {
            if i + 1 < chars.len() && chars[i + 1] == '{' {
                fixed_format_str.push('{');
                fixed_format_str.push('{');
                assert(fixed_format_str@ == written + seq!['{', '{']);
                i += 2;
            } else {
                match parse_interpolated(&chars, i + 1, arg_idents, &mut kept_arg_idents) {
                    Ok((interpolated, next)) => {
                        fixed_format_str.append(interpolated.as_str());
                        i = next;
                    },
                    Err(e) => {
                        return (Err(e), kept_arg_idents);
                    },
                }
            }
        } else if c == '}' {
            if i + 1 < chars.len() && chars[i + 1] == '}' {
                fixed_format_str.push('}');
                fixed_format_str.push('}');
                assert(fixed_format_str@ == written + seq!['}', '}']);
                i += 2;
            } else {
                return (Err(TemplateError::UnmatchedClose), kept_arg_idents);
            }
        } else {
            fixed_format_str.push(c);
            assert(fixed_format_str@ == written + seq![c]);
            i += 1;
        }
    }
    (Ok(fixed_format_str), kept_arg_idents)
}

/// Whether `t`, from index `i` on, holds no placeholder: every brace in it
/// is one of a pair `{{` or `}}`.
pub open spec fn only_escaped_braces(t: Seq<char>, i: int) -> bool
    decreases t.len() - i,
{
    if i < 0 || i >= t.len() {
        true
    } else if t[i] == '{' || t[i] == '}' {
        i + 1 < t.len() && t[i + 1] == t[i] && only_escaped_braces(t, i + 2)
    } else {
        only_escaped_braces(t, i + 1)
    }
}

proof fn lemma_escaped_braces_from(t: Seq<char>, i: int, scan: Scan)
    requires
        0 <= i <= t.len(),
        only_escaped_braces(t, i),
    ensures
        spec_compile_from(t, i, scan) == scan.emit(t.skip(i)).done(),
    decreases t.len() - i,
{
    if i >= t.len() {
        assert(scan.format + t.skip(i) == scan.format);
    } else if t[i] == '{' || t[i] == '}' {
        let pair = seq![t[i], t[i]];
        lemma_escaped_braces_from(t, i + 2, scan.emit(pair));
        assert(scan.format + pair + t.skip(i + 2) == scan.format + t.skip(i));
    } else {
        lemma_escaped_braces_from(t, i + 1, scan.emit(seq![t[i]]));
        assert(scan.format + seq![t[i]] + t.skip(i + 1) == scan.format + t.skip(i));
    }
}

/// A template without placeholders compiles to itself, doubled braces
/// included, and uses none of the names, whatever names are on offer.
pub proof fn escaped_braces_round_trip(t: Seq<char>, available: Seq<Seq<char>>)
    requires
        only_escaped_braces(t, 0),
    ensures
        spec_compile(t, available) == (Compiled {
            result: Ok(t),
            available,
            used: Seq::empty(),
        }),
{
    let start = Scan { format: Seq::empty(), available, used: Seq::empty() };
    lemma_escaped_braces_from(t, 0, start);
    assert(Seq::<char>::empty() + t.skip(0) == t);
}

/// A name that has been given a number keeps it: however many other names
/// are used after it, a later placeholder with the same name, whatever its
/// display specifier, gets the same number and moves no name.
pub proof fn resolved_name_keeps_its_number(
    text: Seq<char>,
    again: Seq<char>,
    available: Seq<Seq<char>>,
    used: Seq<Seq<char>>,
    later_available: Seq<Seq<char>>,
    later_used: Seq<Seq<char>>,
)
    requires
        spec_name(again) == spec_name(text),
        spec_fix(text, available, used) is Some,
        spec_fix(text, available, used)->0.used.is_prefix_of(later_used),
    ensures
        spec_fix(again, later_available, later_used) is Some,
        spec_fix(again, later_available, later_used)->0.position == spec_fix(
            text,
            available,
            used,
        )->0.position,
        spec_fix(again, later_available, later_used)->0.available == later_available,
        spec_fix(again, later_available, later_used)->0.used == later_used,
{
    let name = spec_name(text);
    let first = spec_fix(text, available, used)->0;
    used.index_of_first_ensures(name);
    available.index_of_first_ensures(name);
    later_used.index_of_first_ensures(name);
    let k = first.position - 1;
    assert(first.used[k] == name);
    assert(forall|j: int| 0 <= j < k ==> first.used[j] != name);
    assert(later_used[k] == first.used[k]);
    assert(forall|j: int| 0 <= j < k ==> later_used[j] == first.used[j]);
}

/// A step takes no name out of the used ones, nor moves one, and uses no name twice.
pub proof fn lemma_step_extends_used(t: Seq<char>, i: int, scan: Scan)
    requires
        0 <= i < t.len(),
    ensures
        spec_step(t, i, scan) matches Ok(step) ==> {
            &&& scan.used.is_prefix_of(step.1.used)
            &&& scan.used.no_duplicates() ==> step.1.used.no_duplicates()
        },
{
    if t[i] == '{' && !(i + 1 < t.len() && t[i + 1] == '{') {
        match spec_placeholder(t, i + 1, Seq::empty()) {
            Ok((text, next)) => {
                scan.used.index_of_first_ensures(spec_name(text));
            },
            Err(fault) => {},
        }
    }
}

/// Whether the compilation of `t` that stands at index `i` in state `scan`
/// comes, step by step, to stand at index `j` in state `later`.
pub open spec fn reaches(t: Seq<char>, i: int, scan: Scan, j: int, later: Scan) -> bool
    decreases t.len() - i,
{
    if i == j {
        scan == later
    } else if 0 <= i < j && i < t.len() {
        match spec_step(t, i, scan) {
            Err(fault) => false,
            Ok((next, then)) => {
                proof {
                    lemma_step_advances(t, i, scan);
                }
                reaches(t, next, then, j, later)
            },
        }
    } else {
        false
    }
}

/// The names in use at any point of a compilation stay in use, each at its place.
pub proof fn used_names_only_grow(t: Seq<char>, i: int, scan: Scan, j: int, later: Scan)
    requires
        reaches(t, i, scan, j, later),
    ensures
        scan.used.is_prefix_of(later.used),
    decreases t.len() - i,
{
    if i != j {
        lemma_step_advances(t, i, scan);
        lemma_step_extends_used(t, i, scan);
        let step = spec_step(t, i, scan)->Ok_0;
        used_names_only_grow(t, step.0, step.1, j, later);
    }
}

/// Whether a placeholder opens at index `i` of `t`.
pub open spec fn placeholder_at(t: Seq<char>, i: int) -> bool {
    0 <= i < t.len() && t[i] == '{' && !(i + 1 < t.len() && t[i + 1] == '{')
}

/// Two placeholders of one template that name the same thing get the same
/// number, whatever display specifier each has and whatever stands between
/// them: where the compilation resolves the placeholder at `i` and comes to
/// the one at `j`, it resolves that one to the same number and moves no name.
pub proof fn same_name_same_number(t: Seq<char>, i: int, scan: Scan, j: int, later: Scan)
    requires
        i < j,
        placeholder_at(t, i),
        placeholder_at(t, j),
        reaches(t, i, scan, j, later),
        spec_placeholder(t, j + 1, Seq::empty()) is Ok,
        spec_name(spec_placeholder(t, j + 1, Seq::empty())->Ok_0.0) == spec_name(
            spec_placeholder(t, i + 1, Seq::empty())->Ok_0.0,
        ),
    ensures
        spec_interpolated(t, i + 1, scan.available, scan.used) is Ok,
        spec_interpolated(t, j + 1, later.available, later.used) is Ok,
        spec_interpolated(t, j + 1, later.available, later.used)->Ok_0.0.position
            == spec_interpolated(t, i + 1, scan.available, scan.used)->Ok_0.0.position,
        spec_interpolated(t, j + 1, later.available, later.used)->Ok_0.0.used == later.used,
        spec_interpolated(t, j + 1, later.available, later.used)->Ok_0.0.available
            == later.available,
{
    lemma_step_advances(t, i, scan);
    let step = spec_step(t, i, scan)->Ok_0;
    used_names_only_grow(t, step.0, step.1, j, later);
    resolved_name_keeps_its_number(
        spec_placeholder(t, i + 1, Seq::empty())->Ok_0.0,
        spec_placeholder(t, j + 1, Seq::empty())->Ok_0.0,
        scan.available,
        scan.used,
        later.available,
        later.used,
    );
}

/// No name is used twice: each of the used names stands among them once.
pub proof fn used_names_are_distinct(t: Seq<char>, i: int, scan: Scan)
    requires
        0 <= i,
        scan.used.no_duplicates(),
    ensures
        spec_compile_from(t, i, scan).used.no_duplicates(),
    decreases t.len() - i,
{
    if i < t.len() {
        lemma_step_advances(t, i, scan);
        lemma_step_extends_used(t, i, scan);
        match spec_step(t, i, scan) {
            Ok((next, then)) => {
                used_names_are_distinct(t, next, then);
            },
            Err(fault) => {},
        }
    }
}

/// The number of a placeholder is the place of its name among the used
/// names, counted from one.
pub proof fn number_is_place_of_name(
    text: Seq<char>,
    available: Seq<Seq<char>>,
    used: Seq<Seq<char>>,
)
    requires
        spec_fix(text, available, used) is Some,
    ensures
        1 <= spec_fix(text, available, used)->0.position <= spec_fix(
            text,
            available,
            used,
        )->0.used.len(),
        spec_fix(text, available, used)->0.used[spec_fix(text, available, used)->0.position - 1]
            == spec_name(text),
{
    used.index_of_first_ensures(spec_name(text));
}

/// Compiling moves names from the names on offer to the used ones, and
/// neither loses a name nor makes one up.
pub proof fn names_are_moved_not_lost(t: Seq<char>, i: int, scan: Scan)
    requires
        0 <= i,
    ensures
        spec_compile_from(t, i, scan).used.to_multiset().add(
            spec_compile_from(t, i, scan).available.to_multiset(),
        ) == scan.used.to_multiset().add(scan.available.to_multiset()),
    decreases t.len() - i,
{
    if i < t.len() {
        lemma_step_advances(t, i, scan);
        match spec_step(t, i, scan) {
            Ok((next, then)) => {
                names_are_moved_not_lost(t, next, then);
                if placeholder_at(t, i) {
                    let text = spec_placeholder(t, i + 1, Seq::empty())->Ok_0.0;
                    let name = spec_name(text);
                    scan.used.index_of_first_ensures(name);
                    scan.available.index_of_first_ensures(name);
                    scan.used.to_multiset_ensures();
                    scan.available.to_multiset_ensures();
                    assert(then.used.to_multiset().add(then.available.to_multiset())
                        == scan.used.to_multiset().add(scan.available.to_multiset()));
                }
            },
            Err(fault) => {},
        }
    }
}

} // verus!
