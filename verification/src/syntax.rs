//! Declarations as the tracer sees them: the names and the shape of
//! functions, modules and implementation blocks.

use vstd::prelude::*;

verus! {

/// The pattern of a function parameter.
#[derive(Debug, PartialEq, Eq)]
pub enum Pat {
    /// A plain name.
    Ident(String),
    /// A tuple of patterns.
    Tuple(Vec<Pat>),
    /// Any other pattern; none of these can be traced.
    Other,
}

/// One parameter of a function.
#[derive(Debug, PartialEq, Eq)]
pub enum FnArg {
    /// The receiver, `self` in any of its forms.
    Receiver,
    /// A parameter with a pattern and a type.
    Typed(Pat),
}

/// The name and the parameters of a function.
#[derive(Debug, PartialEq, Eq)]
pub struct Signature {
    pub ident: String,
    pub inputs: Vec<FnArg>,
}

/// All names that pattern `p` binds, from left to right.
pub open spec fn pat_names(p: Pat) -> Seq<Seq<char>>
    decreases p, 0nat,
{
    match p {
        Pat::Ident(name) => seq![name@],
        Pat::Tuple(elems) => pats_names(elems@, elems@.len()),
        Pat::Other => Seq::empty(),
    }
}

/// All names that the first `n` patterns of `ps` bind, from left to right.
pub open spec fn pats_names(ps: Seq<Pat>, n: nat) -> Seq<Seq<char>>
    decreases ps, n,
{
    if n == 0 || n > ps.len() {
        Seq::empty()
    } else {
        pats_names(ps, (n - 1) as nat) + pat_names(ps[n - 1])
    }
}

/// Whether pattern `p` is made of plain names and tuples alone.
pub open spec fn pat_supported(p: Pat) -> bool
    decreases p, 0nat,
{
    match p {
        Pat::Ident(name) => true,
        Pat::Tuple(elems) => pats_supported(elems@, elems@.len()),
        Pat::Other => false,
    }
}

/// Whether each of the first `n` patterns of `ps` is made of plain names and tuples alone.
pub open spec fn pats_supported(ps: Seq<Pat>, n: nat) -> bool
    decreases ps, n,
{
    if n == 0 || n > ps.len() {
        true
    } else {
        pats_supported(ps, (n - 1) as nat) && pat_supported(ps[n - 1])
    }
}

/// The names that a parameter binds; a receiver binds none.
pub open spec fn arg_names(arg: FnArg) -> Seq<Seq<char>> {
    match arg {
        FnArg::Receiver => Seq::empty(),
        FnArg::Typed(pat) => pat_names(pat),
    }
}

/// Whether a parameter can be traced.
pub open spec fn arg_supported(arg: FnArg) -> bool {
    match arg {
        FnArg::Receiver => true,
        FnArg::Typed(pat) => pat_supported(pat),
    }
}

/// All names that the first `n` parameters of `inputs` bind, from left to right.
pub open spec fn inputs_names(inputs: Seq<FnArg>, n: nat) -> Seq<Seq<char>>
    decreases n,
{
    if n == 0 || n > inputs.len() {
        Seq::empty()
    } else {
        inputs_names(inputs, (n - 1) as nat) + arg_names(inputs[n - 1])
    }
}

/// The index of the first of the first `n` parameters of `inputs` that cannot be traced.
pub open spec fn first_unsupported(inputs: Seq<FnArg>, n: nat) -> Option<int>
    decreases n,
{
    if n == 0 || n > inputs.len() {
        None
    } else {
        match first_unsupported(inputs, (n - 1) as nat) {
            Some(k) => Some(k),
            None => if arg_supported(inputs[n - 1]) {
                None
            } else {
                Some(n - 1)
            },
        }
    }
}

/// A function with its signature. Its body is not looked at.
#[derive(Debug, PartialEq, Eq)]
pub struct ItemFn {
    pub sig: Signature,
}

/// A module. Its items are here, or in another file (`content` is `None`).
#[derive(Debug, PartialEq, Eq)]
pub struct ItemMod {
    pub ident: String,
    pub content: Option<Vec<Item>>,
}

/// A method of an implementation block.
#[derive(Debug, PartialEq, Eq)]
pub struct ImplItemMethod {
    pub sig: Signature,
}

/// An item of an implementation block.
#[derive(Debug, PartialEq, Eq)]
pub enum ImplItem {
    Method(ImplItemMethod),
    /// A constant, a type, or anything else that is no method.
    Other,
}

/// An implementation block.
#[derive(Debug, PartialEq, Eq)]
pub struct ItemImpl {
    pub items: Vec<ImplItem>,
}

/// A declaration.
#[derive(Debug, PartialEq, Eq)]
pub enum Item {
    Fn(ItemFn),
    Mod(ItemMod),
    Impl(ItemImpl),
    /// Any other declaration; none of these is traced.
    Other,
}

/// The name by which a filter speaks of an item of a module: functions and
/// modules have one.
pub open spec fn item_name(item: Item) -> Option<Seq<char>> {
    match item {
        Item::Fn(item_fn) => Some(item_fn.sig.ident@),
        Item::Mod(item_mod) => Some(item_mod.ident@),
        _ => None,
    }
}

} // verus!
