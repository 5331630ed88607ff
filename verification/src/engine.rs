//! The rule engine: one depth-first walk over a function that records every
//! tracked construct, however deep it stands.

use vstd::prelude::*;

use crate::rules::ViolationSet;
use crate::tree::{Function, FunctionView, Node, NodeKind, NodeView, Parameter, ParameterView, Signature, SignatureView};

verus! {

impl NodeView {
    /// What the rules find in this tree.
    pub open spec fn violations(self) -> ViolationSet {
        ViolationSet::of(|kind: NodeKind| self.occurs(kind))
    }
}

impl ParameterView {
    /// What the rules find in this parameter.
    pub open spec fn violations(self) -> ViolationSet {
        ViolationSet::of(|kind: NodeKind| self.occurs(kind))
    }
}

impl SignatureView {
    /// What the rules find in this signature.
    pub open spec fn violations(self) -> ViolationSet {
        ViolationSet::of(|kind: NodeKind| self.occurs(kind))
    }
}

impl FunctionView {
    /// What the rules find in this function.
    pub open spec fn violations(self) -> ViolationSet {
        ViolationSet::of(|kind: NodeKind| self.occurs(kind))
    }
}

/// Whether a node of the given kind stands in one of the first `n` trees.
spec fn occurs_among(trees: Seq<NodeView>, n: int, kind: NodeKind) -> bool {
    exists|j: int| 0 <= j < n && j < trees.len() && (#[trigger] trees[j]).occurs(kind)
}

/// Whether a node of the given kind stands in one of the first `n` parameters.
spec fn occurs_in_params(params: Seq<ParameterView>, n: int, kind: NodeKind) -> bool {
    exists|j: int| 0 <= j < n && j < params.len() && (#[trigger] params[j]).occurs(kind)
}

/// One more tree adds what occurs in it.
proof fn lemma_occurs_among_step(trees: Seq<NodeView>, n: int)
    requires
        0 <= n < trees.len(),
    ensures
        forall|kind: NodeKind| #[trigger]
            occurs_among(trees, n + 1, kind) == (occurs_among(trees, n, kind) || trees[n].occurs(
                kind,
            )),
{
    assert forall|kind: NodeKind| #[trigger]
        occurs_among(trees, n + 1, kind) == (occurs_among(trees, n, kind) || trees[n].occurs(
            kind,
        )) by {
        if occurs_among(trees, n + 1, kind) {
            let j = choose|j: int|
                0 <= j < n + 1 && j < trees.len() && (#[trigger] trees[j]).occurs(kind);
            if j < n {
                assert(occurs_among(trees, n, kind));
            }
        }
        if occurs_among(trees, n, kind) {
            let j = choose|j: int| 0 <= j < n && j < trees.len() && (#[trigger] trees[j]).occurs(kind);
            assert(0 <= j < n + 1 && trees[j].occurs(kind));
        }
        if trees[n].occurs(kind) {
            assert(0 <= n < n + 1 && trees[n].occurs(kind));
        }
    }
}

/// One more parameter adds what occurs in it.
proof fn lemma_occurs_in_params_step(params: Seq<ParameterView>, n: int)
    requires
        0 <= n < params.len(),
    ensures
        forall|kind: NodeKind| #[trigger]
            occurs_in_params(params, n + 1, kind) == (occurs_in_params(params, n, kind)
                || params[n].occurs(kind)),
{
    assert forall|kind: NodeKind| #[trigger]
        occurs_in_params(params, n + 1, kind) == (occurs_in_params(params, n, kind)
            || params[n].occurs(kind)) by {
        if occurs_in_params(params, n + 1, kind) {
            let j = choose|j: int|
                0 <= j < n + 1 && j < params.len() && (#[trigger] params[j]).occurs(kind);
            if j < n {
                assert(occurs_in_params(params, n, kind));
            }
        }
        if occurs_in_params(params, n, kind) {
            let j = choose|j: int|
                0 <= j < n && j < params.len() && (#[trigger] params[j]).occurs(kind);
            assert(0 <= j < n + 1 && params[j].occurs(kind));
        }
        if params[n].occurs(kind) {
            assert(0 <= n < n + 1 && params[n].occurs(kind));
        }
    }
}

/// A kind occurs in a tree exactly if the root is of that kind or the kind
/// occurs in one of the children.
proof fn lemma_occurs_in_node(tree: NodeView)
    ensures
        forall|kind: NodeKind| #[trigger]
            tree.occurs(kind) == (tree.kind == kind || occurs_among(
                tree.children,
                tree.children.len() as int,
                kind,
            )),
{
    assert forall|kind: NodeKind| #[trigger]
        tree.occurs(kind) == (tree.kind == kind || occurs_among(
            tree.children,
            tree.children.len() as int,
            kind,
        )) by {
        if occurs_among(tree.children, tree.children.len() as int, kind) {
            let j = choose|j: int|
                0 <= j < tree.children.len() && j < tree.children.len() && (
                #[trigger] tree.children[j]).occurs(kind);
            assert(0 <= j < tree.children.len() && tree.children[j].occurs(kind));
        }
    }
}

/// A kind occurs in a signature exactly if it occurs in the output or in one
/// of the parameters.
proof fn lemma_occurs_in_signature(signature: SignatureView)
    ensures
        forall|kind: NodeKind| #[trigger]
            signature.occurs(kind) == (signature.output.occurs(kind) || occurs_in_params(
                signature.params,
                signature.params.len() as int,
                kind,
            )),
{
    assert forall|kind: NodeKind| #[trigger]
        signature.occurs(kind) == (signature.output.occurs(kind) || occurs_in_params(
            signature.params,
            signature.params.len() as int,
            kind,
        )) by {
        if occurs_in_params(signature.params, signature.params.len() as int, kind) {
            let j = choose|j: int|
                0 <= j < signature.params.len() && j < signature.params.len() && (
                #[trigger] signature.params[j]).occurs(kind);
            assert(0 <= j < signature.params.len() && signature.params[j].occurs(kind));
        }
    }
}

impl ViolationSet {
    /// Walks the tree under `node` and records every tracked construct in it.
    pub fn visit_node(&mut self, node: &Node)
        ensures
            *final(self) == old(self).union(node@.violations()),
        decreases node,
    {
        let ghost before = *self;
        proof {
            node.lemma_view();
        }
        self.record(node.kind);
        let mut i: usize = 0;
        while i < node.children.len()
            invariant
                i <= node.children.len(),
                node@.children.len() == node.children@.len(),
                forall|j: int|
                    0 <= j < node.children@.len() ==> #[trigger] node@.children[j]
                        == node.children@[j]@,
                *self == before.union(ViolationSet::of_kind(node.kind)).union(
                    ViolationSet::of(|kind: NodeKind| occurs_among(node@.children, i as int, kind)),
                ),
            decreases node.children.len() - i,
        {
            self.visit_node(&node.children[i]);
            proof {
                lemma_occurs_among_step(node@.children, i as int);
            }
            i += 1;
        }
        proof {
            lemma_occurs_in_node(node@);
        }
    }

    /// Walks one parameter: its pattern, whose own binding says whether the
    /// parameter is declared mutable, and its type.
    pub fn visit_parameter(&mut self, param: &Parameter)
        ensures
            *final(self) == old(self).union(param@.violations()),
            param@.is_mutable() ==> final(self).has_mut,
    {
        self.visit_node(&param.pattern);
        self.visit_node(&param.ty);
    }

    /// Walks a signature: every parameter in order, then the rest.
    pub fn visit_signature(&mut self, signature: &Signature)
        ensures
            *final(self) == old(self).union(signature@.violations()),
    {
        let ghost before = *self;
        let mut i: usize = 0;
        while i < signature.params.len()
            invariant
                i <= signature.params.len(),
                *self == before.union(
                    ViolationSet::of(
                        |kind: NodeKind| occurs_in_params(signature@.params, i as int, kind),
                    ),
                ),
            decreases signature.params.len() - i,
        {
            self.visit_parameter(&signature.params[i]);
            proof {
                lemma_occurs_in_params_step(signature@.params, i as int);
            }
            i += 1;
        }
        self.visit_node(&signature.output);
        proof {
            lemma_occurs_in_signature(signature@);
        }
    }

    /// Walks a whole function, signature and body.
    pub fn visit_function(&mut self, function: &Function)
        ensures
            *final(self) == old(self).union(function@.violations()),
    {
        self.visit_signature(&function.signature);
        self.visit_node(&function.body);
    }
}

/// What the rules find in a function: every tracked construct that stands
/// anywhere in its signature or its body.
pub fn inspect(function: &Function) -> (found: ViolationSet)
    ensures
        found == function@.violations(),
{
    let mut found = ViolationSet::new();
    found.visit_function(function);
    found
}

} // verus!
