//! The two requests: to trace a declaration, and to declare the depth counter.

use vstd::prelude::*;
use crate::args::{spec_args, spec_errors, ArgError, Args, RawArg};
use crate::diagnostic::{TraceError, TraceFault};
use crate::expand::{
    expand_impl_item, expand_item, spec_expand_impl_item, spec_expand_item, Expansion,
    ExpansionView,
};
use crate::syntax::{ImplItem, Item};

verus! {

/// What a tracing request stands on.
#[derive(Debug, PartialEq, Eq)]
pub enum Input {
    /// A declaration.
    Item(Item),
    /// What is a declaration only inside an implementation block.
    ImplItem(ImplItem),
    /// Neither.
    Other,
}

/// What a tracing request comes to.
#[derive(Debug, PartialEq, Eq)]
pub enum Output {
    /// The errors of its options; the declaration is not looked at.
    Rejected(Vec<ArgError>),
    /// What becomes of the declaration.
    Expanded(Expansion),
}

/// The mathematical content of an `Output`.
pub enum OutputView {
    Rejected(Seq<ArgError>),
    Expanded(ExpansionView),
}

impl View for Output {
    type V = OutputView;

    open spec fn view(&self) -> OutputView {
        match self {
            Output::Rejected(errors) => OutputView::Rejected(errors@),
            Output::Expanded(expansion) => OutputView::Expanded(expansion@),
        }
    }
}

/// What the request with the options `raw` on `input` comes to: the errors
/// of the options, if there are any; else what the options make of the
/// declaration that `input` is.
pub open spec fn spec_trace(raw: Seq<RawArg>, input: Input) -> OutputView {
    if spec_errors(raw).len() > 0 {
        OutputView::Rejected(spec_errors(raw))
    } else {
        OutputView::Expanded(
            match input {
                Input::Item(item) => spec_expand_item(spec_args(raw), item),
                Input::ImplItem(impl_item) => spec_expand_impl_item(spec_args(raw), impl_item),
                Input::Other => ExpansionView::Diagnostic(TraceFault::ExpectedDeclaration),
            },
        )
    }
}

/// Answers the request to trace `input` with the options `raw_args`.
pub fn trace(raw_args: &Vec<RawArg>, input: &Input) -> (output: Output)
    ensures
        output@ == spec_trace(raw_args@, *input),
{
    let args = match Args::from_raw_args(raw_args) {
        Ok(args) => args,
        Err(errors) => {
            return Output::Rejected(errors);
        },
    };
    match input {
        Input::Item(item) => Output::Expanded(expand_item(&args, item)),
        Input::ImplItem(impl_item) => Output::Expanded(expand_impl_item(&args, impl_item)),
        Input::Other => Output::Expanded(Expansion::Diagnostic(TraceError::ExpectedDeclaration)),
    }
}

/// Answers the request to declare the depth counter: the declaration, or
/// an error where the request comes with arguments.
pub fn init_depth_var(input_is_empty: bool) -> (e: Expansion)
    ensures
        e@ == if input_is_empty {
            ExpansionView::DepthVar
        } else {
            ExpansionView::Diagnostic(TraceFault::DepthVarWithArguments)
        },
{
    if input_is_empty {
        Expansion::DepthVar
    } else {
        Expansion::Diagnostic(TraceError::DepthVarWithArguments)
    }
}

} // verus!
