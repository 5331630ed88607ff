//! Module-wide propagation: one marker on a module stands for one marker on
//! each of its functions.

use vstd::prelude::*;

use crate::tree::{Attribute, AttributeView, Function, FunctionView, Item, ItemView, Module, ModuleView};

verus! {

impl FunctionView {
    /// Whether the function carries the marker that asks for enforcement.
    pub open spec fn is_marked(self) -> bool {
        self.attrs.contains(AttributeView::DenyAll)
    }

    /// The function with one more marker, after the attributes it has.
    pub open spec fn marked(self) -> FunctionView {
        FunctionView {
            name: self.name,
            attrs: self.attrs.push(AttributeView::DenyAll),
            signature: self.signature,
            body: self.body,
        }
    }
}

impl ItemView {
    /// The item after propagation: a function gets the marker, anything else
    /// stays as it is.
    pub open spec fn propagated(self) -> ItemView {
        match self {
            ItemView::Function(function) => ItemView::Function(function.marked()),
            ItemView::Other(node) => ItemView::Other(node),
        }
    }
}

impl ModuleView {
    /// The module after propagation: the same items in the same order, each
    /// function among them with the marker.
    pub open spec fn propagated(self) -> ModuleView {
        ModuleView { items: Seq::new(self.items.len(), |i: int| self.items[i].propagated()) }
    }
}

impl Function {
    /// Whether the function carries the marker that asks for enforcement.
    pub fn is_marked(&self) -> (b: bool)
        ensures
            b == self@.is_marked(),
    {
        let mut i: usize = 0;
        while i < self.attrs.len()
            invariant
                i <= self.attrs.len(),
                forall|j: int| 0 <= j < i ==> (#[trigger] self.attrs@[j])@ != AttributeView::DenyAll,
            decreases self.attrs.len() - i,
        {
            match &self.attrs[i] {
                Attribute::DenyAll => {
                    assert(self@.attrs[i as int] == AttributeView::DenyAll);
                    return true;
                },
                Attribute::Other(_) => {},
            }
            i += 1;
        }
        false
    }

    /// Puts the enforcement marker on the function, after the attributes it
    /// has. Nothing else of the function changes.
    pub fn mark(&mut self)
        ensures
            final(self)@ == old(self)@.marked(),
    {
        self.attrs.push(Attribute::DenyAll);
        assert(self@.attrs =~= old(self)@.attrs.push(AttributeView::DenyAll));
    }
}

impl Item {
    /// Puts the enforcement marker on the item if it is a function.
    pub fn propagate(&mut self)
        ensures
            final(self)@ == old(self)@.propagated(),
    {
        match self {
            Item::Function(function) => {
                function.mark();
            },
            Item::Other(_) => {},
        }
    }
}

/// Puts the enforcement marker on every function item of the module. Only the
/// module's own items are looked at; what is nested in an item is not. Items
/// that are not functions pass through, and the order of items stays.
pub fn apply_deny_all(module: Module) -> (marked: Module)
    ensures
        marked@ == module@.propagated(),
{
    let mut module = module;
    let ghost before = module;
    let mut i: usize = 0;
    while i < module.items.len()
        invariant
            i <= module.items.len(),
            module.items@.len() == before.items@.len(),
            forall|j: int|
                0 <= j < i ==> (#[trigger] module.items@[j])@ == before.items@[j]@.propagated(),
            forall|j: int|
                i <= j < module.items@.len() ==> #[trigger] module.items@[j] == before.items@[j],
        decreases module.items.len() - i,
    {
        module.items[i].propagate();
        i += 1;
    }
    assert(module@.items =~= before@.propagated().items);
    module
}

} // verus!
