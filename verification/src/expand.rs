//! The walk through a declaration: which of its functions are traced, and
//! what each part of it becomes.

use vstd::prelude::*;
use crate::args::{Args, ArgsView, AttrApplied};
use crate::block::{construct_traced_block, spec_traced_block, Block, BlockView};
use crate::diagnostic::{TraceError, TraceFault};
use crate::syntax::{item_name, ImplItem, ImplItemMethod, Item, ItemFn, ItemImpl, ItemMod};

verus! {

/// What becomes of a declaration.
#[derive(Debug, PartialEq, Eq)]
pub enum Expansion {
    /// It stays as it is.
    Unchanged,
    /// The declaration of the depth counter, one per thread, which starts at zero.
    DepthVar,
    /// A function or method whose body is replaced.
    Fn(Block),
    /// A module with these items in place of its own.
    Mod(Vec<Expansion>),
    /// An implementation block with these items in place of its own.
    Impl(Vec<Expansion>),
    /// A diagnostic in place of the declaration.
    Diagnostic(TraceError),
}

/// The mathematical content of an `Expansion`.
pub enum ExpansionView {
    Unchanged,
    DepthVar,
    Fn(BlockView),
    Mod(Seq<ExpansionView>),
    Impl(Seq<ExpansionView>),
    Diagnostic(TraceFault),
}

/// The content of expansion `e`.
pub open spec fn expansion_view(e: Expansion) -> ExpansionView
    decreases e, 0nat,
{
    match e {
        Expansion::Unchanged => ExpansionView::Unchanged,
        Expansion::DepthVar => ExpansionView::DepthVar,
        Expansion::Fn(block) => ExpansionView::Fn(block@),
        Expansion::Mod(items) => ExpansionView::Mod(expansion_views(items@, items@.len())),
        Expansion::Impl(items) => ExpansionView::Impl(expansion_views(items@, items@.len())),
        Expansion::Diagnostic(error) => ExpansionView::Diagnostic(error@),
    }
}

/// The contents of the first `n` of the expansions `es`.
pub open spec fn expansion_views(es: Seq<Expansion>, n: nat) -> Seq<ExpansionView>
    decreases es, n,
{
    if n == 0 || n > es.len() {
        Seq::empty()
    } else {
        expansion_views(es, (n - 1) as nat).push(expansion_view(es[n - 1]))
    }
}

impl View for Expansion {
    type V = ExpansionView;

    open spec fn view(&self) -> ExpansionView {
        expansion_view(*self)
    }
}

/// Whether the request leaves out the item called `name`: it does where it
/// stands directly on what holds the item and its filter does not admit the name.
pub open spec fn left_out(args: ArgsView, applied: AttrApplied, name: Option<Seq<char>>) -> bool {
    applied is Directly && name is Some && !args.filter.admits(name->0)
}

/// What becomes of `item` under the request `args`. A function's body is
/// replaced; a module and an implementation block are walked; anything else
/// stays as it is.
pub open spec fn spec_transform_item(args: ArgsView, applied: AttrApplied, item: Item)
    -> ExpansionView
    decreases item, 0nat,
{
    match item {
        Item::Fn(item_fn) => ExpansionView::Fn(spec_traced_block(args, applied, item_fn.sig)),
        Item::Mod(item_mod) => match item_mod.content {
            None => ExpansionView::Diagnostic(TraceFault::ModuleWithoutContent),
            Some(items) => ExpansionView::Mod(
                seq![ExpansionView::DepthVar] + spec_transform_items(
                    args,
                    applied,
                    items@,
                    items@.len(),
                ),
            ),
        },
        Item::Impl(item_impl) => spec_transform_impl(args, applied, item_impl),
        Item::Other => ExpansionView::Unchanged,
    }
}

/// What becomes of the first `n` of the `items` of a module on which the
/// request stands as `applied` says. A function or module that the request
/// leaves out stays as it is; any other item is transformed as one on which
/// the request stands indirectly.
pub open spec fn spec_transform_items(
    args: ArgsView,
    applied: AttrApplied,
    items: Seq<Item>,
    n: nat,
) -> Seq<ExpansionView>
    decreases items, n,
{
    if n == 0 || n > items.len() {
        Seq::empty()
    } else {
        spec_transform_items(args, applied, items, (n - 1) as nat).push(
            if left_out(args, applied, item_name(items[n - 1])) {
                ExpansionView::Unchanged
            } else {
                spec_transform_item(args, AttrApplied::Indirectly, items[n - 1])
            },
        )
    }
}

/// What becomes of an item of an implementation block on which the request
/// stands as `applied` says: a method that the request does not leave out
/// gets a traced body, with all its arguments shown.
pub open spec fn spec_transform_member(args: ArgsView, applied: AttrApplied, member: ImplItem)
    -> ExpansionView {
    match member {
        ImplItem::Method(method) => if left_out(args, applied, Some(method.sig.ident@)) {
            ExpansionView::Unchanged
        } else {
            ExpansionView::Fn(spec_traced_block(args, AttrApplied::Indirectly, method.sig))
        },
        ImplItem::Other => ExpansionView::Unchanged,
    }
}

/// What becomes of an implementation block: each of its items in its place.
pub open spec fn spec_transform_impl(args: ArgsView, applied: AttrApplied, item_impl: ItemImpl)
    -> ExpansionView {
    ExpansionView::Impl(
        Seq::new(
            item_impl.items@.len(),
            |i: int| spec_transform_member(args, applied, item_impl.items@[i]),
        ),
    )
}

/// What becomes of an item of an implementation block on which the request
/// itself stands: a method gets a traced body.
pub open spec fn spec_transform_impl_item(
    args: ArgsView,
    applied: AttrApplied,
    impl_item: ImplItem,
) -> ExpansionView {
    match impl_item {
        ImplItem::Method(method) => ExpansionView::Fn(
            spec_traced_block(args, applied, method.sig),
        ),
        ImplItem::Other => ExpansionView::Unchanged,
    }
}

/// What a request on `item` makes of it: a function, a module or an
/// implementation block is transformed; on anything else the request is an error.
pub open spec fn spec_expand_item(args: ArgsView, item: Item) -> ExpansionView {
    match item {
        Item::Other => ExpansionView::Diagnostic(TraceFault::UnsupportedItem),
        _ => spec_transform_item(args, AttrApplied::Directly, item),
    }
}

/// What a request on an item of an implementation block makes of it: a
/// method is transformed; on anything else the request is an error.
pub open spec fn spec_expand_impl_item(args: ArgsView, impl_item: ImplItem) -> ExpansionView {
    match impl_item {
        ImplItem::Other => ExpansionView::Diagnostic(TraceFault::UnsupportedImplItem),
        _ => spec_transform_impl_item(args, AttrApplied::Directly, impl_item),
    }
}

/// Applies the request `args` to the declaration `item` on which it stands.
pub fn expand_item(args: &Args, item: &Item) -> (e: Expansion)
    ensures
        e@ == spec_expand_item(args@, *item),
{
    match item {
        Item::Fn(_) | Item::Mod(_) | Item::Impl(_) => transform_item(
            args,
            AttrApplied::Directly,
            item,
        ),
        Item::Other => Expansion::Diagnostic(TraceError::UnsupportedItem),
    }
}

/// Applies the request `args` to the item of an implementation block on which it stands.
pub fn expand_impl_item(args: &Args, impl_item: &ImplItem) -> (e: Expansion)
    ensures
        e@ == spec_expand_impl_item(args@, *impl_item),
{
    match impl_item {
        ImplItem::Method(_) => transform_impl_item(args, AttrApplied::Directly, impl_item),
        ImplItem::Other => Expansion::Diagnostic(TraceError::UnsupportedImplItem),
    }
}

/// Transforms `item` by its kind.
pub fn transform_item(args: &Args, attr_applied: AttrApplied, item: &Item) -> (e: Expansion)
    ensures
        e@ == spec_transform_item(args@, attr_applied, *item),
    decreases item, 1nat,
{
    match item {
        Item::Fn(item_fn) => transform_fn(args, attr_applied, item_fn),
        Item::Mod(item_mod) => transform_mod(args, attr_applied, item_mod),
        Item::Impl(item_impl) => transform_impl(args, attr_applied, item_impl),
        Item::Other => Expansion::Unchanged,
    }
}

/// Replaces the body of a function by a traced one.
pub fn transform_fn(args: &Args, attr_applied: AttrApplied, item_fn: &ItemFn) -> (e: Expansion)
    ensures
        e@ == ExpansionView::Fn(spec_traced_block(args@, attr_applied, item_fn.sig)),
{
    Expansion::Fn(construct_traced_block(args, attr_applied, &item_fn.sig))
}

/// Transforms the items of a module and puts the declaration of the depth
/// counter before them.
///
/// Where the request stands directly on the module, its enable or disable
/// list chooses among the module's functions and modules by their names;
/// what it leaves out stays as it is. Every other item is transformed as
/// one on which the request stands indirectly. A module whose items are in
/// another file is an error.
pub fn transform_mod(args: &Args, attr_applied: AttrApplied, item_mod: &ItemMod) -> (e: Expansion)
    ensures
        e@ == spec_transform_item(args@, attr_applied, Item::Mod(*item_mod)),
    decreases item_mod, 0nat,
{
    match &item_mod.content {
        None => Expansion::Diagnostic(TraceError::ModuleWithoutContent),
        Some(items) => {
            let mut out: Vec<Expansion> = Vec::new();
            let mut i: usize = 0;
            while i < items.len()
                invariant
                    i <= items.len(),
                    item_mod.content == Some(*items),
                    out@.len() == i,
                    expansion_views(out@, i as nat) == spec_transform_items(
                        args@,
                        attr_applied,
                        items@,
                        i as nat,
                    ),
                decreases items.len() - i,
            {
                let item = &items[i];
                let skip = match attr_applied {
                    AttrApplied::Directly => match item {
                        Item::Fn(item_fn) => !args.filter.admits(&item_fn.sig.ident),
                        Item::Mod(inner) => !args.filter.admits(&inner.ident),
                        _ => false,
                    },
                    AttrApplied::Indirectly => false,
                };
                let ghost before = out@;
                if skip {
                    out.push(Expansion::Unchanged);
                } else {
                    proof {
                        assert(item_mod.content->0 == *items);
                        assert(decreases_to!(*item_mod => item_mod.content));
                        assert(decreases_to!(item_mod.content => item_mod.content->0));
                        assert(decreases_to!(*items => items[i as int]));
                    }
                    out.push(transform_item(args, AttrApplied::Indirectly, item));
                }
                proof {
                    lemma_views_of_prefix(before, out@, i as nat);
                    assert(expansion_views(out@, (i + 1) as nat) == expansion_views(
                        out@,
                        i as nat,
                    ).push(expansion_view(out@[i as int])));
                    assert(expansion_view(Expansion::Unchanged) == ExpansionView::Unchanged);
                }
                i += 1;
            }
            let ghost children = out@;
            out.insert(0, Expansion::DepthVar);
            proof {
                lemma_views_behind_first(out@, items@.len());
                assert(out@.subrange(1, out@.len() as int) == children);
                assert(expansion_view(out@[0]) == ExpansionView::DepthVar);
            }
            Expansion::Mod(out)
        },
    }
}

/// Transforms the methods of an implementation block.
///
/// Where the request stands directly on the block, its enable or disable
/// list chooses among the methods by their names; what it leaves out stays
/// as it is. A chosen method shows all its arguments.
pub fn transform_impl(args: &Args, attr_applied: AttrApplied, item_impl: &ItemImpl) -> (e:
    Expansion)
    ensures
        e@ == spec_transform_impl(args@, attr_applied, *item_impl),
{
    let mut out: Vec<Expansion> = Vec::new();
    let mut i: usize = 0;
    while i < item_impl.items.len()
        invariant
            i <= item_impl.items.len(),
            out@.len() == i,
            expansion_views(out@, i as nat) == Seq::new(
                i as nat,
                |k: int| spec_transform_member(args@, attr_applied, item_impl.items@[k]),
            ),
        decreases item_impl.items.len() - i,
    {
        let ghost before = out@;
        match &item_impl.items[i] {
            ImplItem::Method(method) => {
                let skip = match attr_applied {
                    AttrApplied::Directly => !args.filter.admits(&method.sig.ident),
                    AttrApplied::Indirectly => false,
                };
                if skip {
                    out.push(Expansion::Unchanged);
                } else {
                    out.push(
                        Expansion::Fn(
                            construct_traced_block(args, AttrApplied::Indirectly, &method.sig),
                        ),
                    );
                }
            },
            ImplItem::Other => {
                out.push(Expansion::Unchanged);
            },
        }
        proof {
            lemma_views_of_prefix(before, out@, i as nat);
            assert(expansion_views(out@, (i + 1) as nat) == expansion_views(out@, i as nat).push(
                expansion_view(out@[i as int]),
            ));
            assert(expansion_view(Expansion::Unchanged) == ExpansionView::Unchanged);
            assert(expansion_view(out@[i as int]) == spec_transform_member(
                args@,
                attr_applied,
                item_impl.items@[i as int],
            ));
            assert(Seq::new(
                (i + 1) as nat,
                |k: int| spec_transform_member(args@, attr_applied, item_impl.items@[k]),
            ) == Seq::new(
                i as nat,
                |k: int| spec_transform_member(args@, attr_applied, item_impl.items@[k]),
            ).push(spec_transform_member(args@, attr_applied, item_impl.items@[i as int])));
        }
        i += 1;
    }
    Expansion::Impl(out)
}

/// Transforms an item of an implementation block by its kind.
pub fn transform_impl_item(args: &Args, attr_applied: AttrApplied, impl_item: &ImplItem) -> (e:
    Expansion)
    ensures
        e@ == spec_transform_impl_item(args@, attr_applied, *impl_item),
{
    match impl_item {
        ImplItem::Method(method) => transform_method(args, attr_applied, method),
        ImplItem::Other => Expansion::Unchanged,
    }
}

/// Replaces the body of a method by a traced one.
pub fn transform_method(args: &Args, attr_applied: AttrApplied, method: &ImplItemMethod) -> (e:
    Expansion)
    ensures
        e@ == ExpansionView::Fn(spec_traced_block(args@, attr_applied, method.sig)),
{
    Expansion::Fn(construct_traced_block(args, attr_applied, &method.sig))
}

proof fn lemma_views_of_prefix(before: Seq<Expansion>, after: Seq<Expansion>, n: nat)
    requires
        n <= before.len(),
        n <= after.len(),
        forall|k: int| 0 <= k < n ==> before[k] == after[k],
    ensures
        expansion_views(after, n) == expansion_views(before, n),
    decreases n,
{
    if n > 0 {
        lemma_views_of_prefix(before, after, (n - 1) as nat);
    }
}

proof fn lemma_views_shifted(es: Seq<Expansion>, shifted: Seq<Expansion>, n: nat)
    requires
        n <= es.len(),
        shifted.len() == es.len() + 1,
        forall|k: int| 0 <= k < es.len() ==> shifted[k + 1] == es[k],
    ensures
        expansion_views(shifted, n + 1) == seq![expansion_view(shifted[0])] + expansion_views(
            es,
            n,
        ),
    decreases n,
{
    if n > 0 {
        lemma_views_shifted(es, shifted, (n - 1) as nat);
        assert(shifted[n as int] == es[n - 1]);
    } else {
        reveal_with_fuel(expansion_views, 2);
    }
}

proof fn lemma_views_behind_first(es: Seq<Expansion>, n: nat)
    requires
        es.len() == n + 1,
    ensures
        expansion_views(es, n + 1) == seq![expansion_view(es[0])] + expansion_views(
            es.subrange(1, es.len() as int),
            n,
        ),
{
    lemma_views_shifted(es.subrange(1, es.len() as int), es, n);
}

} // verus!
