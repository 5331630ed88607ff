//! What holds of the rules for every function and every module.

use vstd::prelude::*;

use crate::rules::{HardRule, SoftRule};
use crate::tree::{AttributeView, FunctionView, ItemView, ModuleView, NodeKind, NodeView};

verus! {

/// A node that a path leads to occurs in the tree, however long the path.
pub proof fn lemma_reached_occurs(root: NodeView, path: Seq<int>, kind: NodeKind)
    requires
        root.subtree(path) is Some,
        root.subtree(path)->Some_0.kind == kind,
    ensures
        root.occurs(kind),
    decreases path.len(),
{
    if path.len() > 0 {
        lemma_reached_occurs(root.children[path[0]], path.drop_first(), kind);
        assert(root.children[path[0]].occurs(kind));
    }
}

/// A kind that occurs in a tree is the kind of a node that some path leads to.
pub proof fn lemma_occurs_reached(root: NodeView, kind: NodeKind) -> (path: Seq<int>)
    requires
        root.occurs(kind),
    ensures
        root.subtree(path) is Some,
        root.subtree(path)->Some_0.kind == kind,
    decreases root,
{
    if root.kind == kind {
        Seq::empty()
    } else {
        let i = choose|i: int|
            0 <= i < root.children.len() && (#[trigger] root.children[i]).occurs(kind);
        let rest = lemma_occurs_reached(root.children[i], kind);
        let path = seq![i] + rest;
        assert(path.drop_first() =~= rest);
        path
    }
}

/// A kind occurs in a tree exactly if the tree holds a node of that kind.
pub proof fn law_node_occurs_iff_held(root: NodeView, kind: NodeKind)
    ensures
        root.occurs(kind) <==> exists|node: NodeView| #[trigger] root.holds(node) && node.kind == kind,
{
    if root.occurs(kind) {
        let path = lemma_occurs_reached(root, kind);
        let node = root.subtree(path)->Some_0;
        assert(root.subtree(path) == Some(node));
        assert(root.holds(node) && node.kind == kind);
    }
    if exists|node: NodeView| #[trigger] root.holds(node) && node.kind == kind {
        let node = choose|node: NodeView| #[trigger] root.holds(node) && node.kind == kind;
        let path = choose|path: Seq<int>| #[trigger] root.subtree(path) == Some(node);
        lemma_reached_occurs(root, path, kind);
    }
}

/// A kind occurs in a function exactly if a node of that kind stands somewhere
/// in its signature or its body, at whatever depth.
pub proof fn law_occurs_iff_held(function: FunctionView, kind: NodeKind)
    ensures
        function.occurs(kind) <==> exists|node: NodeView| #[trigger]
            function.holds(node) && node.kind == kind,
{
    let signature = function.signature;
    if function.occurs(kind) {
        if function.body.occurs(kind) {
            law_node_occurs_iff_held(function.body, kind);
            let node = choose|node: NodeView| #[trigger]
                function.body.holds(node) && node.kind == kind;
            assert(function.holds(node) && node.kind == kind);
        } else if signature.output.occurs(kind) {
            law_node_occurs_iff_held(signature.output, kind);
            let node = choose|node: NodeView| #[trigger]
                signature.output.holds(node) && node.kind == kind;
            assert(function.holds(node) && node.kind == kind);
        } else {
            let i = choose|i: int|
                0 <= i < signature.params.len() && (#[trigger] signature.params[i]).occurs(kind);
            let param = signature.params[i];
            if param.pattern.occurs(kind) {
                law_node_occurs_iff_held(param.pattern, kind);
                let node = choose|node: NodeView| #[trigger]
                    param.pattern.holds(node) && node.kind == kind;
                assert(signature.params[i].holds(node));
                assert(function.holds(node) && node.kind == kind);
            } else {
                law_node_occurs_iff_held(param.ty, kind);
                let node = choose|node: NodeView| #[trigger] param.ty.holds(node) && node.kind == kind;
                assert(signature.params[i].holds(node));
                assert(function.holds(node) && node.kind == kind);
            }
        }
    }
    if exists|node: NodeView| #[trigger] function.holds(node) && node.kind == kind {
        let node = choose|node: NodeView| #[trigger] function.holds(node) && node.kind == kind;
        if function.body.holds(node) {
            law_node_occurs_iff_held(function.body, kind);
        } else if signature.output.holds(node) {
            law_node_occurs_iff_held(signature.output, kind);
        } else {
            let i = choose|i: int|
                0 <= i < signature.params.len() && (#[trigger] signature.params[i]).holds(node);
            let param = signature.params[i];
            if param.pattern.holds(node) {
                law_node_occurs_iff_held(param.pattern, kind);
            } else {
                law_node_occurs_iff_held(param.ty, kind);
            }
            assert(signature.params[i].occurs(kind));
        }
    }
}

/// A function that holds a `for` loop, at whatever depth, breaks a hard rule,
/// and the `for` loop rule is the first that it breaks.
pub proof fn law_for_loop_is_rejected(function: FunctionView, node: NodeView)
    requires
        function.holds(node),
        node.kind == NodeKind::ForLoop,
    ensures
        function.violations().is_hard(),
        function.violations().hard_rules()[0] == HardRule::ForLoop,
{
    law_occurs_iff_held(function, NodeKind::ForLoop);
    function.violations().lemma_hard_rules();
}

/// A function that holds a `while` loop or a `loop` breaks the rule on loops.
pub proof fn law_while_or_loop_is_rejected(function: FunctionView, node: NodeView)
    requires
        function.holds(node),
        node.kind == NodeKind::WhileLoop || node.kind == NodeKind::UnconditionalLoop,
    ensures
        function.violations().is_hard(),
        function.violations().hard_rules().contains(HardRule::WhileOrLoop),
{
    law_occurs_iff_held(function, NodeKind::WhileLoop);
    law_occurs_iff_held(function, NodeKind::UnconditionalLoop);
    function.violations().lemma_hard_rules();
}

/// A function that holds a mutable binding or a mutable reference type,
/// anywhere in its signature or its body, breaks the rule on mutability.
pub proof fn law_mutability_is_rejected(function: FunctionView, node: NodeView)
    requires
        function.holds(node),
        node.kind == (NodeKind::Binding { mutable: true }) || node.kind == (NodeKind::Reference {
            mutable: true,
        }),
    ensures
        function.violations().is_hard(),
        function.violations().hard_rules().contains(HardRule::Mutability),
{
    law_occurs_iff_held(function, NodeKind::Binding { mutable: true });
    law_occurs_iff_held(function, NodeKind::Reference { mutable: true });
    function.violations().lemma_hard_rules();
}

/// A function with a parameter that is itself declared mutable breaks the rule
/// on mutability.
pub proof fn law_mutable_parameter_is_rejected(function: FunctionView, i: int)
    requires
        0 <= i < function.signature.params.len(),
        function.signature.params[i].is_mutable(),
    ensures
        function.violations().is_hard(),
        function.violations().hard_rules().contains(HardRule::Mutability),
{
    let param = function.signature.params[i];
    assert(param.pattern.occurs(NodeKind::Binding { mutable: true }));
    assert(function.signature.params[i].occurs(NodeKind::Binding { mutable: true }));
    function.violations().lemma_hard_rules();
}

/// A function that breaks no hard rule and holds a `continue` or a `break`
/// gets the advisory for that construct.
pub proof fn law_soft_violation_is_advised(function: FunctionView, node: NodeView)
    requires
        !function.violations().is_hard(),
        function.holds(node),
        node.kind == NodeKind::Continue || node.kind == NodeKind::Break,
    ensures
        node.kind == NodeKind::Continue ==> function.violations().soft_rules().contains(
            SoftRule::Continue,
        ),
        node.kind == NodeKind::Break ==> function.violations().soft_rules().contains(
            SoftRule::Break,
        ),
{
    law_occurs_iff_held(function, NodeKind::Continue);
    law_occurs_iff_held(function, NodeKind::Break);
    function.violations().lemma_soft_rules();
}

/// The marker changes nothing of what the rules find in a function.
pub proof fn law_marker_keeps_findings(function: FunctionView)
    ensures
        function.marked().is_marked(),
        function.marked().violations() == function.violations(),
        forall|kind: NodeKind| function.marked().occurs(kind) == function.occurs(kind),
{
    let marked = function.marked();
    assert(marked.attrs[function.attrs.len() as int] == AttributeView::DenyAll);
}

/// Propagation over a module comes to the same as enforcement on each of its
/// functions singly: item by item, a function gets what the rules find in it,
/// any other item gets nothing and stays as it was, and the build fails exactly
/// if one of the functions breaks a hard rule.
pub proof fn law_propagation_enforces_each_function(module: ModuleView)
    ensures
        module.propagated().items.len() == module.items.len(),
        module.propagated().findings().len() == module.items.len(),
        forall|i: int|
            0 <= i < module.items.len() ==> #[trigger] module.propagated().findings()[i] == (
            match module.items[i] {
                ItemView::Function(function) => Some(function.violations()),
                ItemView::Other(_) => None,
            }),
        forall|i: int|
            0 <= i < module.items.len() && module.items[i] is Other
                ==> #[trigger] module.propagated().items[i] == module.items[i],
        module.propagated().build_fails() <==> exists|i: int|
            0 <= i < module.items.len() && (#[trigger] module.items[i]) is Function
                && module.items[i]->Function_0.violations().is_hard(),
{
    let after = module.propagated();
    let findings = after.findings();
    assert forall|i: int| 0 <= i < module.items.len() implies #[trigger] findings[i] == (
    match module.items[i] {
        ItemView::Function(function) => Some(function.violations()),
        ItemView::Other(_) => None,
    }) by {
        match module.items[i] {
            ItemView::Function(function) => {
                law_marker_keeps_findings(function);
            },
            ItemView::Other(_) => {},
        }
    }
    if after.build_fails() {
        let i = choose|i: int|
            0 <= i < findings.len() && (#[trigger] findings[i]) is Some
                && findings[i]->Some_0.is_hard();
        assert(module.items[i] is Function && module.items[i]->Function_0.violations().is_hard());
    }
    if exists|i: int|
        0 <= i < module.items.len() && (#[trigger] module.items[i]) is Function
            && module.items[i]->Function_0.violations().is_hard() {
        let i = choose|i: int|
            0 <= i < module.items.len() && (#[trigger] module.items[i]) is Function
                && module.items[i]->Function_0.violations().is_hard();
        assert(findings[i] is Some && findings[i]->Some_0.is_hard());
    }
}

/// Propagation applied twice finds what propagation applied once finds, and
/// the build passes or fails alike.
pub proof fn law_propagation_twice(module: ModuleView)
    ensures
        module.propagated().propagated().findings() == module.propagated().findings(),
        module.propagated().propagated().build_fails() == module.propagated().build_fails(),
{
    let once = module.propagated();
    let twice = once.propagated();
    law_propagation_enforces_each_function(module);
    law_propagation_enforces_each_function(once);
    assert forall|i: int| 0 <= i < module.items.len() implies #[trigger] twice.findings()[i]
        == once.findings()[i] by {
        match module.items[i] {
            ItemView::Function(function) => {
                law_marker_keeps_findings(function);
            },
            ItemView::Other(_) => {},
        }
    }
    assert(twice.findings() =~= once.findings());
}

/// A module without a function item comes out of propagation as it went in,
/// nothing is found in it, and its build passes.
pub proof fn law_no_function_no_change(module: ModuleView)
    requires
        forall|i: int| 0 <= i < module.items.len() ==> (#[trigger] module.items[i]) is Other,
    ensures
        module.propagated() == module,
        forall|i: int|
            0 <= i < module.items.len() ==> (#[trigger] module.propagated().findings()[i]) is None,
        !module.propagated().build_fails(),
{
    assert(module.propagated().items =~= module.items);
}

/// Whether `text` begins with `head`.
pub open spec fn begins_with(text: Seq<char>, head: Seq<char>) -> bool {
    head.len() <= text.len() && text.subrange(0, head.len() as int) == head
}

/// Each message names the construct that its rule is about, so no two rules
/// share a message.
pub proof fn law_messages_name_the_rule()
    ensures
        begins_with(HardRule::ForLoop.text(), "For loops"@),
        begins_with(HardRule::WhileOrLoop.text(), "While loops"@),
        begins_with(HardRule::Mutability.text(), "Mutable values"@),
        begins_with(SoftRule::Continue.text(), "`continue`"@),
        begins_with(SoftRule::Break.text(), "`break`"@),
        forall|a: HardRule, b: HardRule| a.text() == b.text() ==> a == b,
        forall|a: SoftRule, b: SoftRule| a.text() == b.text() ==> a == b,
        forall|a: HardRule, b: SoftRule| a.text() != b.text(),
{
    reveal_strlit("For loops are not allowed in this codebase!");
    reveal_strlit("While loops are not allowed in this codebase!");
    reveal_strlit("Mutable values are not allowed in this codebase! State must be pure.");
    reveal_strlit("`continue` is not allowed in this codebase! Loop operators are not allowed.");
    reveal_strlit("`break` is not allowed in this codebase! Loop operators are not allowed.");
    reveal_strlit("For loops");
    reveal_strlit("While loops");
    reveal_strlit("Mutable values");
    reveal_strlit("`continue`");
    reveal_strlit("`break`");
    assert(HardRule::ForLoop.text()[0] == 'F');
    assert(HardRule::WhileOrLoop.text()[0] == 'W');
    assert(HardRule::Mutability.text()[0] == 'M');
    assert(SoftRule::Continue.text()[1] == 'c');
    assert(SoftRule::Break.text()[1] == 'b');
    assert(SoftRule::Continue.text()[0] == '`');
    assert(SoftRule::Break.text()[0] == '`');
    assert(HardRule::ForLoop.text().subrange(0, 9) =~= "For loops"@);
    assert(HardRule::WhileOrLoop.text().subrange(0, 11) =~= "While loops"@);
    assert(HardRule::Mutability.text().subrange(0, 14) =~= "Mutable values"@);
    assert(SoftRule::Continue.text().subrange(0, 10) =~= "`continue`"@);
    assert(SoftRule::Break.text().subrange(0, 7) =~= "`break`"@);
}

} // verus!
