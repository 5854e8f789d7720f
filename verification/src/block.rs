//! The body that takes the place of a traced function's own: the lines it
//! prints on entry and on exit, and the order of what it does.

use vstd::prelude::*;
use vstd::string::StringExecFns;
use crate::args::{Args, ArgsView, AttrApplied};
use crate::diagnostic::{TraceError, TraceFault};
use crate::extract::{extract_arg_idents, spec_arg_idents, UnsupportedPattern};
use crate::syntax::Signature;
use crate::template::{parse_fmt_str, spec_compile, Fault};
use crate::text::texts;

verus! {

/// Where the trace lines go.
#[derive(Clone, Copy, Debug, PartialEq, Eq, Structural)]
pub enum Printer {
    /// To standard output, one line each.
    Println,
    /// To the logger, at trace level.
    LogTrace,
}

/// One thing that a traced body does.
#[derive(Clone, Copy, Debug, PartialEq, Eq, Structural)]
pub enum Statement {
    /// Prints the entry line, indented by the depth.
    PrintEntry,
    /// Waits for one line of input.
    Pause,
    /// Raises the depth by one, for as long as the function's own body
    /// runs: the depth goes back also where the body is left by unwinding.
    EnterDepth,
    /// Runs the function's own body and keeps its value.
    RunBody,
    /// Lowers the depth by one, behind the function's own body.
    LeaveDepth,
    /// Prints the exit line, indented by the depth.
    PrintExit,
    /// Gives the kept value back.
    Return,
}

/// A traced body.
#[derive(Debug, PartialEq, Eq)]
pub struct TracedBlock {
    /// The format string of the entry line. Its argument 0 is the empty
    /// string that the depth pads; arguments 1, 2, ... are `arg_idents`.
    pub entering_format: String,
    /// The parameters whose values the entry line shows, in the order of its arguments.
    pub arg_idents: Vec<String>,
    /// The format string of the exit line. Its argument 0 is the padded
    /// empty string; argument 1, if any, is the returned value.
    pub exiting_format: String,
    /// Whether the exit line shows the returned value.
    pub should_interpolate: bool,
    /// Where both lines go.
    pub printer: Printer,
    /// What the body does, in order.
    pub statements: Vec<Statement>,
}

/// The mathematical content of a `TracedBlock`.
pub struct TracedBlockView {
    pub entering_format: Seq<char>,
    pub arg_idents: Seq<Seq<char>>,
    pub exiting_format: Seq<char>,
    pub should_interpolate: bool,
    pub printer: Printer,
    pub statements: Seq<Statement>,
}

impl View for TracedBlock {
    type V = TracedBlockView;

    open spec fn view(&self) -> TracedBlockView {
        TracedBlockView {
            entering_format: self.entering_format@,
            arg_idents: texts(self.arg_idents@),
            exiting_format: self.exiting_format@,
            should_interpolate: self.should_interpolate,
            printer: self.printer,
            statements: self.statements@,
        }
    }
}

/// What becomes of a function's body: a traced body, or a diagnostic alone.
#[derive(Debug, PartialEq, Eq)]
pub enum Block {
    Traced(TracedBlock),
    Diagnostic(TraceError),
}

/// The mathematical content of a `Block`.
pub enum BlockView {
    Traced(TracedBlockView),
    Diagnostic(TraceFault),
}

impl View for Block {
    type V = BlockView;

    open spec fn view(&self) -> BlockView {
        match self {
            Block::Traced(traced) => BlockView::Traced(traced@),
            Block::Diagnostic(error) => BlockView::Diagnostic(error@),
        }
    }
}

/// The entry text that shows the first `n` of `names`: `a = {:?}, b = {:?}`.
pub open spec fn spec_default_enter(names: Seq<Seq<char>>, n: nat) -> Seq<char>
    decreases n,
{
    if n == 0 || n > names.len() {
        Seq::empty()
    } else if n == 1 {
        names[0] + " = {:?}"@
    } else {
        spec_default_enter(names, (n - 1) as nat) + ", "@ + names[n - 1] + " = {:?}"@
    }
}

/// The text of the entry line behind the function's name, and the names
/// whose values it shows: the request's template compiled against `names`,
/// or else all of `names`, each with its value.
pub open spec fn spec_enter_format(args: ArgsView, names: Seq<Seq<char>>) -> (
    Result<Seq<char>, Fault>,
    Seq<Seq<char>>,
) {
    match args.format_enter {
        Some(template) => {
            let compiled = spec_compile(template, names);
            (compiled.result, compiled.used)
        },
        None => (Ok(spec_default_enter(names, names.len())), names),
    }
}

/// The name by which an exit template refers to the returned value.
pub open spec fn spec_return_name() -> Seq<char> {
    "r"@
}

/// The text of the exit line behind the function's name, and whether it
/// shows the returned value: the request's template compiled against the
/// name of the returned value, or else the value alone, pretty or plain.
pub open spec fn spec_exit_format(args: ArgsView) -> (Result<Seq<char>, Fault>, bool) {
    match args.format_exit {
        Some(template) => {
            let compiled = spec_compile(template, seq![spec_return_name()]);
            (compiled.result, compiled.used.len() > 0)
        },
        None => (
            Ok(
                if args.pretty {
                    "{:#?}"@
                } else {
                    "{:?}"@
                },
            ),
            true,
        ),
    }
}

/// What a traced body does, in order: it prints the entry line, raises the
/// depth, runs the function's own body, lowers the depth, prints the exit
/// line and gives the value back; where `pause` is set it waits for a line of
/// input after each of the two lines.
pub open spec fn spec_statements(pause: bool) -> Seq<Statement> {
    if pause {
        seq![
            Statement::PrintEntry,
            Statement::Pause,
            Statement::EnterDepth,
            Statement::RunBody,
            Statement::LeaveDepth,
            Statement::PrintExit,
            Statement::Pause,
            Statement::Return,
        ]
    } else {
        seq![
            Statement::PrintEntry,
            Statement::EnterDepth,
            Statement::RunBody,
            Statement::LeaveDepth,
            Statement::PrintExit,
            Statement::Return,
        ]
    }
}

/// The format string of an entry line: the depth's padding, the prefix, the
/// function's name and, in brackets, the text for the arguments.
pub open spec fn spec_entering(prefix: Seq<char>, ident: Seq<char>, text: Seq<char>) -> Seq<char> {
    "{:depth$}"@ + prefix + " Entering "@ + ident + "("@ + text + ")"@
}

/// The format string of an exit line: the depth's padding, the prefix, the
/// function's name and the text for the returned value.
pub open spec fn spec_exiting(prefix: Seq<char>, ident: Seq<char>, text: Seq<char>) -> Seq<char> {
    "{:depth$}"@ + prefix + " Exiting "@ + ident + " = "@ + text
}

/// The body that replaces the body of function `sig` under the request
/// `args`. A parameter that cannot be traced, then a fault in the entry
/// template, then one in the exit template makes it a diagnostic.
pub open spec fn spec_traced_block(args: ArgsView, applied: AttrApplied, sig: Signature)
    -> BlockView {
    match spec_arg_idents(args.filter, applied, sig) {
        Err(k) => BlockView::Diagnostic(
            TraceFault::Pattern(UnsupportedPattern { input: k as usize }),
        ),
        Ok(names) => {
            let enter = spec_enter_format(args, names);
            let exit = spec_exit_format(args);
            match enter.0 {
                Err(fault) => BlockView::Diagnostic(TraceFault::Template(fault)),
                Ok(enter_text) => match exit.0 {
                    Err(fault) => BlockView::Diagnostic(TraceFault::Template(fault)),
                    Ok(exit_text) => BlockView::Traced(
                        TracedBlockView {
                            entering_format: spec_entering(
                                args.prefix_enter,
                                sig.ident@,
                                enter_text,
                            ),
                            arg_idents: enter.1,
                            exiting_format: spec_exiting(args.prefix_exit, sig.ident@, exit_text),
                            should_interpolate: exit.1,
                            printer: if args.logging {
                                Printer::LogTrace
                            } else {
                                Printer::Println
                            },
                            statements: spec_statements(args.pause),
                        },
                    ),
                },
            }
        },
    }
}

/// The entry text that shows each of `names` with its value.
pub fn default_enter_format(names: &Vec<String>) -> (text: String)
    ensures
        text@ == spec_default_enter(texts(names@), names@.len()),
{
    let mut text = String::new();
    let mut i: usize = 0;
    while i < names.len()
        invariant
            i <= names.len(),
            text@ == spec_default_enter(texts(names@), i as nat),
        decreases names.len() - i,
    {
        if i > 0 {
            text.append(", ");
        }
        text.append(names[i].as_str());
        text.append(" = {:?}");
        assert(texts(names@)[i as int] == names@[i as int]@);
        i += 1;
    }
    text
}

/// What a traced body does, in order.
pub fn statements(pause: bool) -> (list: Vec<Statement>)
    ensures
        list@ == spec_statements(pause),
{
    let mut list: Vec<Statement> = Vec::new();
    list.push(Statement::PrintEntry);
    if pause {
        list.push(Statement::Pause);
    }
    list.push(Statement::EnterDepth);
    list.push(Statement::RunBody);
    list.push(Statement::LeaveDepth);
    list.push(Statement::PrintExit);
    if pause {
        list.push(Statement::Pause);
    }
    list.push(Statement::Return);
    list
}

/// The body that replaces the body of function `sig` under the request `args`.
///
/// The entry line shows the arguments that take part, by the request's
/// entry template or else each as `name = value`; the exit line shows the
/// returned value, by the request's exit template or else alone. Both lines
/// begin with the depth's padding, the prefix and the function's name. Where
/// a parameter cannot be traced or a template cannot be compiled, the body
/// is a diagnostic and nothing else.
pub fn construct_traced_block(args: &Args, attr_applied: AttrApplied, sig: &Signature) -> (block:
    Block)
    ensures
        block@ == spec_traced_block(args@, attr_applied, *sig),
{
    let mut arg_idents = match extract_arg_idents(args, attr_applied, sig) {
        Ok(arg_idents) => arg_idents,
        Err(e) => {
            return Block::Diagnostic(TraceError::Pattern(e));
        },
    };
    let (enter_format, arg_idents) = match &args.format_enter {
        Some(fmt_str) => parse_fmt_str(fmt_str.as_str(), &mut arg_idents),
        None => (Ok(default_enter_format(&arg_idents)), arg_idents),
    };
    let mut exit_val: Vec<String> = Vec::new();
    exit_val.push(String::from_str("r"));
    assert(texts(exit_val@) == seq![spec_return_name()]);
    let (exit_format, exit_val) = match &args.format_exit {
        Some(fmt_str) => parse_fmt_str(fmt_str.as_str(), &mut exit_val),
        None => if args.pretty {
            (Ok(String::from_str("{:#?}")), exit_val)
        } else {
            (Ok(String::from_str("{:?}")), exit_val)
        },
    };
    let should_interpolate = exit_val.len() > 0;
    let enter_format = match enter_format {
        Ok(enter_format) => enter_format,
        Err(e) => {
            return Block::Diagnostic(TraceError::Template(e));
        },
    };
    let exit_format = match exit_format {
        Ok(exit_format) => exit_format,
        Err(e) => {
            return Block::Diagnostic(TraceError::Template(e));
        },
    };
    let mut entering_format = String::from_str("{:depth$}");
    entering_format.append(args.prefix_enter.as_str());
    entering_format.append(" Entering ");
    entering_format.append(sig.ident.as_str());
    entering_format.append("(");
    entering_format.append(enter_format.as_str());
    entering_format.append(")");
    let mut exiting_format = String::from_str("{:depth$}");
    exiting_format.append(args.prefix_exit.as_str());
    exiting_format.append(" Exiting ");
    exiting_format.append(sig.ident.as_str());
    exiting_format.append(" = ");
    exiting_format.append(exit_format.as_str());
    let printer = if args.logging {
        Printer::LogTrace
    } else {
        Printer::Println
    };
    Block::Traced(
        TracedBlock {
            entering_format,
            arg_idents,
            exiting_format,
            should_interpolate,
            printer,
            statements: statements(args.pause),
        },
    )
}

/// By how much a statement changes the depth.
pub open spec fn depth_change(statement: Statement) -> int {
    match statement {
        Statement::EnterDepth => 1,
        Statement::LeaveDepth => -1,
        _ => 0,
    }
}

/// The depth at which statement `i` of `statements` runs, where the first
/// runs at `depth`; for `i` the length, the depth behind the last.
pub open spec fn depth_at(statements: Seq<Statement>, i: nat, depth: int) -> int
    decreases i,
{
    if i == 0 || i > statements.len() {
        depth
    } else {
        depth_at(statements, (i - 1) as nat, depth) + depth_change(statements[i - 1])
    }
}

/// A traced body leaves the depth as it found it. It prints both its lines
/// at that depth and runs the function's own body one level deeper, so that
/// the lines of a traced function called from there are indented by one more.
pub proof fn depth_is_restored(pause: bool, depth: int)
    ensures
        depth_at(spec_statements(pause), spec_statements(pause).len(), depth) == depth,
        forall|i: int|
            0 <= i < spec_statements(pause).len() && (#[trigger] spec_statements(pause)[i]
                == Statement::PrintEntry || spec_statements(pause)[i] == Statement::PrintExit)
                ==> depth_at(spec_statements(pause), i as nat, depth) == depth,
        forall|i: int|
            0 <= i < spec_statements(pause).len() && #[trigger] spec_statements(pause)[i]
                == Statement::RunBody ==> depth_at(spec_statements(pause), i as nat, depth)
                == depth + 1,
{
    let s = spec_statements(pause);
    reveal_with_fuel(depth_at, 9);
    assert(depth_at(s, 0, depth) == depth);
    assert(depth_at(s, 1, depth) == depth);
    assert(depth_at(s, 2, depth) == depth + if pause { 0int } else { 1int });
    assert(depth_at(s, 3, depth) == depth + 1);
    assert(depth_at(s, 4, depth) == depth + if pause { 1int } else { 0int });
    assert(depth_at(s, 5, depth) == depth);
    assert(depth_at(s, 6, depth) == depth);
    assert(depth_at(s, s.len(), depth) == depth);
}

} // verus!
