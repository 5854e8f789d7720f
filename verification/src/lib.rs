//! Plans the tracing of function calls.
//!
//! A traced function prints a line when it is entered and a line when it is
//! left, with its arguments and its result, indented by the depth of the
//! calls around it. This library decides everything about that short of
//! reading and writing source text: it takes a declaration as a tree of
//! names, and a request as a list of options, and says which functions are
//! traced, which arguments each shows, what the format strings of its two
//! lines are, and what its new body does, in which order.
//!
//! - `args`: the options of a request, and what is wrong with a request.
//! - `syntax`: declarations, as far as tracing looks at them.
//! - `extract`: the arguments that a trace line shows.
//! - `template`: the templates by which a request words the lines itself.
//! - `block`: the body that takes the place of a traced function's own.
//! - `expand`: the walk through functions, modules and implementation blocks.
//! - `entry`: the two requests as a whole.
//! - `diagnostic`: the errors that stand in the place of a declaration.
//! - `text`: characters, names and numerals.

pub mod args;
pub mod block;
pub mod diagnostic;
pub mod entry;
pub mod expand;
pub mod extract;
pub mod syntax;
pub mod template;
pub mod text;
