//! What can keep a declaration from being traced.

use vstd::prelude::*;
use vstd::string::StringExecFns;
use crate::extract::UnsupportedPattern;
use crate::template::{spec_message, Fault, TemplateError};

verus! {

/// Why a declaration is not traced. The declaration then stands for a
/// compile-time diagnostic with the error's message.
#[derive(Debug, PartialEq, Eq)]
pub enum TraceError {
    /// A template of the request cannot be compiled.
    Template(TemplateError),
    /// A parameter of the function has a pattern that cannot be traced.
    Pattern(UnsupportedPattern),
    /// The module's items stand in another file.
    ModuleWithoutContent,
    /// The request stands on something other than a function, a module or
    /// an implementation block.
    UnsupportedItem,
    /// The request stands on an item of an implementation block other than a method.
    UnsupportedImplItem,
    /// The request stands on what is no declaration at all.
    ExpectedDeclaration,
    /// The declaration of the depth counter was asked for with arguments.
    DepthVarWithArguments,
}

/// The mathematical content of a `TraceError`.
pub enum TraceFault {
    Template(Fault),
    Pattern(UnsupportedPattern),
    ModuleWithoutContent,
    UnsupportedItem,
    UnsupportedImplItem,
    ExpectedDeclaration,
    DepthVarWithArguments,
}

impl View for TraceError {
    type V = TraceFault;

    open spec fn view(&self) -> TraceFault {
        match self {
            TraceError::Template(e) => TraceFault::Template(e@),
            TraceError::Pattern(e) => TraceFault::Pattern(*e),
            TraceError::ModuleWithoutContent => TraceFault::ModuleWithoutContent,
            TraceError::UnsupportedItem => TraceFault::UnsupportedItem,
            TraceError::UnsupportedImplItem => TraceFault::UnsupportedImplItem,
            TraceError::ExpectedDeclaration => TraceFault::ExpectedDeclaration,
            TraceError::DepthVarWithArguments => TraceFault::DepthVarWithArguments,
        }
    }
}

/// The text of the diagnostic for `fault`.
pub open spec fn spec_diagnostic(fault: TraceFault) -> Seq<char> {
    match fault {
        TraceFault::Template(f) => spec_message(f),
        TraceFault::Pattern(p) =>
            "#[trace] supports only names and tuples of names as parameter patterns"@,
        TraceFault::ModuleWithoutContent =>
            "#[trace] is not supported for a module whose items are in another file"@,
        TraceFault::UnsupportedItem => "#[trace] is not supported for this item"@,
        TraceFault::UnsupportedImplItem => "#[trace] is not supported for this impl item"@,
        TraceFault::ExpectedDeclaration => "expected one of: `fn`, `impl`, `mod`"@,
        TraceFault::DepthVarWithArguments => "`init_depth_var` takes no arguments"@,
    }
}

impl TraceError {
    /// The diagnostic shown for this error.
    pub fn message(&self) -> (m: String)
        ensures
            m@ == spec_diagnostic(self@),
    {
        match self {
            TraceError::Template(e) => e.message(),
            TraceError::Pattern(p) => String::from_str(
                "#[trace] supports only names and tuples of names as parameter patterns",
            ),
            TraceError::ModuleWithoutContent => String::from_str(
                "#[trace] is not supported for a module whose items are in another file",
            ),
            TraceError::UnsupportedItem => String::from_str(
                "#[trace] is not supported for this item",
            ),
            TraceError::UnsupportedImplItem => String::from_str(
                "#[trace] is not supported for this impl item",
            ),
            TraceError::ExpectedDeclaration => String::from_str(
                "expected one of: `fn`, `impl`, `mod`",
            ),
            TraceError::DepthVarWithArguments => String::from_str(
                "`init_depth_var` takes no arguments",
            ),
        }
    }
}

} // verus!
