//! The syntax tree that the rules read: a module of items, the functions among
//! them with signature and body, and the nodes below.
//!
//! Each type has a view, its mathematical model, over which the contracts of
//! the crate are stated.

use vstd::prelude::*;

verus! {

/// The kind of a node, as far as the rules tell nodes apart.
#[derive(Clone, Copy, Debug, PartialEq, Eq, Structural)]
pub enum NodeKind {
    /// A `for` loop.
    ForLoop,
    /// A `while` loop.
    WhileLoop,
    /// A `loop` without a condition.
    UnconditionalLoop,
    /// A `break` expression.
    Break,
    /// A `continue` expression.
    Continue,
    /// A pattern that binds a name, in a `let`, in a parameter of a function or
    /// of a closure, or in a match arm.
    Binding { mutable: bool },
    /// A reference type.
    Reference { mutable: bool },
    /// Any other expression, statement, pattern, type or nested item.
    Other,
}

/// A node of a syntax tree with everything below it.
#[derive(Debug, PartialEq, Eq)]
pub struct Node {
    pub kind: NodeKind,
    pub children: Vec<Node>,
}

/// The model of a [`Node`].
pub struct NodeView {
    pub kind: NodeKind,
    pub children: Seq<NodeView>,
}

/// A parameter of a function.
#[derive(Debug, PartialEq, Eq)]
pub struct Parameter {
    pub name: String,
    /// The pattern that binds the parameter. For a plain parameter it is one
    /// `Binding` node, whose flag says whether the parameter is mutable.
    pub pattern: Node,
    /// The declared type.
    pub ty: Node,
}

/// The model of a [`Parameter`].
pub struct ParameterView {
    pub name: Seq<char>,
    pub pattern: NodeView,
    pub ty: NodeView,
}

/// The signature of a function.
#[derive(Debug, PartialEq, Eq)]
pub struct Signature {
    pub params: Vec<Parameter>,
    /// What the signature declares besides its parameters: the return type
    /// and the bounds on its generic parameters.
    pub output: Node,
}

/// The model of a [`Signature`].
pub struct SignatureView {
    pub params: Seq<ParameterView>,
    pub output: NodeView,
}

/// An attribute on a function.
#[derive(Debug, PartialEq, Eq)]
pub enum Attribute {
    /// The marker that asks for the rules to be enforced on the function.
    DenyAll,
    /// Any other attribute, by its text.
    Other(String),
}

/// The model of an [`Attribute`].
pub enum AttributeView {
    DenyAll,
    Other(Seq<char>),
}

/// A function definition.
#[derive(Debug, PartialEq, Eq)]
pub struct Function {
    pub name: String,
    pub attrs: Vec<Attribute>,
    pub signature: Signature,
    pub body: Node,
}

/// The model of a [`Function`].
pub struct FunctionView {
    pub name: Seq<char>,
    pub attrs: Seq<AttributeView>,
    pub signature: SignatureView,
    pub body: NodeView,
}

/// A top-level declaration of a module.
#[derive(Debug, PartialEq, Eq)]
pub enum Item {
    Function(Function),
    /// A declaration that is not a function, with what it holds.
    Other(Node),
}

/// The model of an [`Item`].
pub enum ItemView {
    Function(FunctionView),
    Other(NodeView),
}

/// A compilation unit: its items, in source order.
#[derive(Debug, PartialEq, Eq)]
pub struct Module {
    pub items: Vec<Item>,
}

/// The model of a [`Module`].
pub struct ModuleView {
    pub items: Seq<ItemView>,
}

impl View for Node {
    type V = NodeView;

    open spec fn view(&self) -> NodeView
        decreases self,
    {
        NodeView { kind: self.kind, children: views_of(self.children@) }
    }
}

/// The models of a sequence of nodes, in order.
pub open spec fn views_of(nodes: Seq<Node>) -> Seq<NodeView>
    decreases nodes,
{
    if nodes.len() == 0 {
        Seq::empty()
    } else {
        views_of(nodes.drop_last()).push(nodes.last()@)
    }
}

impl View for Parameter {
    type V = ParameterView;

    open spec fn view(&self) -> ParameterView {
        ParameterView { name: self.name@, pattern: self.pattern@, ty: self.ty@ }
    }
}

impl View for Signature {
    type V = SignatureView;

    open spec fn view(&self) -> SignatureView {
        SignatureView {
            params: Seq::new(self.params@.len(), |i: int| self.params@[i]@),
            output: self.output@,
        }
    }
}

impl View for Attribute {
    type V = AttributeView;

    open spec fn view(&self) -> AttributeView {
        match self {
            Attribute::DenyAll => AttributeView::DenyAll,
            Attribute::Other(text) => AttributeView::Other(text@),
        }
    }
}

impl View for Function {
    type V = FunctionView;

    open spec fn view(&self) -> FunctionView {
        FunctionView {
            name: self.name@,
            attrs: Seq::new(self.attrs@.len(), |i: int| self.attrs@[i]@),
            signature: self.signature@,
            body: self.body@,
        }
    }
}

impl View for Item {
    type V = ItemView;

    open spec fn view(&self) -> ItemView {
        match self {
            Item::Function(function) => ItemView::Function(function@),
            Item::Other(node) => ItemView::Other(node@),
        }
    }
}

impl View for Module {
    type V = ModuleView;

    open spec fn view(&self) -> ModuleView {
        ModuleView { items: Seq::new(self.items@.len(), |i: int| self.items@[i]@) }
    }
}

impl NodeView {
    /// Whether a node of the given kind stands anywhere in this tree, the root
    /// included, at whatever depth.
    pub open spec fn occurs(self, kind: NodeKind) -> bool
        decreases self,
    {
        self.kind == kind || exists|i: int|
            0 <= i < self.children.len() && (#[trigger] self.children[i]).occurs(kind)
    }

    /// The node reached from the root by taking, at each level, the child with
    /// the next index of `path`; `None` where an index names no child.
    pub open spec fn subtree(self, path: Seq<int>) -> Option<NodeView>
        decreases path.len(),
    {
        if path.len() == 0 {
            Some(self)
        } else if 0 <= path[0] < self.children.len() {
            self.children[path[0]].subtree(path.drop_first())
        } else {
            None
        }
    }

    /// Whether `node` stands in this tree: some path leads from the root to it.
    pub open spec fn holds(self, node: NodeView) -> bool {
        exists|path: Seq<int>| #[trigger] self.subtree(path) == Some(node)
    }
}

impl ParameterView {
    /// Whether `node` stands in the parameter's pattern or in its type.
    pub open spec fn holds(self, node: NodeView) -> bool {
        self.pattern.holds(node) || self.ty.holds(node)
    }

    /// Whether a node of the given kind stands in the parameter's pattern or
    /// in its type.
    pub open spec fn occurs(self, kind: NodeKind) -> bool {
        self.pattern.occurs(kind) || self.ty.occurs(kind)
    }

    /// Whether the parameter itself is declared mutable.
    pub open spec fn is_mutable(self) -> bool {
        self.pattern.kind == (NodeKind::Binding { mutable: true })
    }
}

impl SignatureView {
    /// Whether `node` stands anywhere in the signature.
    pub open spec fn holds(self, node: NodeView) -> bool {
        self.output.holds(node) || exists|i: int|
            0 <= i < self.params.len() && (#[trigger] self.params[i]).holds(node)
    }

    /// Whether a node of the given kind stands anywhere in the signature.
    pub open spec fn occurs(self, kind: NodeKind) -> bool {
        self.output.occurs(kind) || exists|i: int|
            0 <= i < self.params.len() && (#[trigger] self.params[i]).occurs(kind)
    }
}

impl FunctionView {
    /// Whether `node` stands anywhere in the function, in its signature or in
    /// its body.
    pub open spec fn holds(self, node: NodeView) -> bool {
        self.signature.holds(node) || self.body.holds(node)
    }

    /// Whether a node of the given kind stands anywhere in the function, in
    /// its signature or in its body.
    pub open spec fn occurs(self, kind: NodeKind) -> bool {
        self.signature.occurs(kind) || self.body.occurs(kind)
    }
}

/// The models of a sequence of nodes stand one for one, in order.
pub proof fn lemma_views_of(nodes: Seq<Node>)
    ensures
        views_of(nodes).len() == nodes.len(),
        forall|i: int| 0 <= i < nodes.len() ==> #[trigger] views_of(nodes)[i] == nodes[i]@,
    decreases nodes.len(),
{
    if nodes.len() > 0 {
        lemma_views_of(nodes.drop_last());
        assert(views_of(nodes) == views_of(nodes.drop_last()).push(nodes.last()@));
    }
}

impl Node {
    /// A node without children.
    pub fn leaf(kind: NodeKind) -> (node: Node)
        ensures
            node@ == (NodeView { kind, children: Seq::empty() }),
    {
        Node { kind, children: Vec::new() }
    }

    /// A node over the given children, in their order.
    pub fn new(kind: NodeKind, children: Vec<Node>) -> (node: Node)
        ensures
            node == (Node { kind, children }),
    {
        Node { kind, children }
    }

    /// The model of a node has the node's kind, and the models of its
    /// children as children.
    pub proof fn lemma_view(self)
        ensures
            self@.kind == self.kind,
            self@.children.len() == self.children@.len(),
            forall|i: int|
                0 <= i < self.children@.len() ==> #[trigger] self@.children[i]
                    == self.children@[i]@,
    {
        lemma_views_of(self.children@);
    }
}

impl Clone for Node {
    /// A copy of the whole tree.
    fn clone(&self) -> (copy: Node)
        ensures
            copy@ == self@,
        decreases self,
    {
        let mut children: Vec<Node> = Vec::new();
        let mut i: usize = 0;
        while i < self.children.len()
            invariant
                i <= self.children.len(),
                children@.len() == i,
                forall|j: int| 0 <= j < i ==> (#[trigger] children@[j])@ == self.children@[j]@,
            decreases self.children.len() - i,
        {
            children.push(self.children[i].clone());
            i += 1;
        }
        let copy = Node { kind: self.kind, children };
        proof {
            copy.lemma_view();
            self.lemma_view();
            assert(copy@.children =~= self@.children);
        }
        copy
    }
}

impl Clone for Parameter {
    fn clone(&self) -> (copy: Parameter)
        ensures
            copy@ == self@,
    {
        Parameter { name: self.name.clone(), pattern: self.pattern.clone(), ty: self.ty.clone() }
    }
}

impl Clone for Signature {
    fn clone(&self) -> (copy: Signature)
        ensures
            copy@ == self@,
    {
        let mut params: Vec<Parameter> = Vec::new();
        let mut i: usize = 0;
        while i < self.params.len()
            invariant
                i <= self.params.len(),
                params@.len() == i,
                forall|j: int| 0 <= j < i ==> (#[trigger] params@[j])@ == self.params@[j]@,
            decreases self.params.len() - i,
        {
            params.push(self.params[i].clone());
            i += 1;
        }
        let copy = Signature { params, output: self.output.clone() };
        assert(copy@.params =~= self@.params);
        copy
    }
}

impl Clone for Attribute {
    fn clone(&self) -> (copy: Attribute)
        ensures
            copy@ == self@,
    {
        match self {
            Attribute::DenyAll => Attribute::DenyAll,
            Attribute::Other(text) => Attribute::Other(text.clone()),
        }
    }
}

impl Clone for Function {
    fn clone(&self) -> (copy: Function)
        ensures
            copy@ == self@,
    {
        let mut attrs: Vec<Attribute> = Vec::new();
        let mut i: usize = 0;
        while i < self.attrs.len()
            invariant
                i <= self.attrs.len(),
                attrs@.len() == i,
                forall|j: int| 0 <= j < i ==> (#[trigger] attrs@[j])@ == self.attrs@[j]@,
            decreases self.attrs.len() - i,
        {
            attrs.push(self.attrs[i].clone());
            i += 1;
        }
        let copy = Function {
            name: self.name.clone(),
            attrs,
            signature: self.signature.clone(),
            body: self.body.clone(),
        };
        assert(copy@.attrs =~= self@.attrs);
        copy
    }
}

impl Clone for Item {
    fn clone(&self) -> (copy: Item)
        ensures
            copy@ == self@,
    {
        match self {
            Item::Function(function) => Item::Function(function.clone()),
            Item::Other(node) => Item::Other(node.clone()),
        }
    }
}

impl Clone for Module {
    fn clone(&self) -> (copy: Module)
        ensures
            copy@ == self@,
    {
        let mut items: Vec<Item> = Vec::new();
        let mut i: usize = 0;
        while i < self.items.len()
            invariant
                i <= self.items.len(),
                items@.len() == i,
                forall|j: int| 0 <= j < i ==> (#[trigger] items@[j])@ == self.items@[j]@,
            decreases self.items.len() - i,
        {
            items.push(self.items[i].clone());
            i += 1;
        }
        let copy = Module { items };
        assert(copy@.items =~= self@.items);
        copy
    }
}

impl Parameter {
    /// A plain parameter: a name, whether it is declared mutable, and a type.
    pub fn new(name: String, mutable: bool, ty: Node) -> (param: Parameter)
        ensures
            param@ == (ParameterView {
                name: name@,
                pattern: NodeView { kind: NodeKind::Binding { mutable }, children: Seq::empty() },
                ty: ty@,
            }),
            param@.is_mutable() == mutable,
    {
        Parameter { name, pattern: Node::leaf(NodeKind::Binding { mutable }), ty }
    }
}

impl Function {
    /// A function without attributes.
    pub fn new(name: String, signature: Signature, body: Node) -> (function: Function)
        ensures
            function@ == (FunctionView {
                name: name@,
                attrs: Seq::empty(),
                signature: signature@,
                body: body@,
            }),
    {
        let function = Function { name, attrs: Vec::new(), signature, body };
        assert(function@.attrs =~= Seq::empty());
        function
    }
}

} // verus!
