use fp_linting::engine::inspect;
use fp_linting::rules::ViolationSet;
use fp_linting::tree::{Function, Node, NodeKind, Parameter, Signature};

fn clean() -> ViolationSet {
    ViolationSet::new()
}

fn leaf(kind: NodeKind) -> Node {
    Node::leaf(kind)
}

fn block(children: Vec<Node>) -> Node {
    Node::new(NodeKind::Other, children)
}

fn unit() -> Node {
    leaf(NodeKind::Other)
}

fn function(params: Vec<Parameter>, output: Node, body: Node) -> Function {
    Function::new("f".to_string(), Signature { params, output }, body)
}

fn with_body(body: Node) -> Function {
    function(vec![], unit(), body)
}

fn visited(node: &Node) -> ViolationSet {
    let mut found = ViolationSet::new();
    found.visit_node(node);
    found
}

#[test]
fn leaf_builds_a_node_without_children() {
    let node = Node::leaf(NodeKind::Break);
    assert_eq!(node, Node { kind: NodeKind::Break, children: vec![] });
}

#[test]
fn new_keeps_the_children_in_order() {
    let node = Node::new(NodeKind::ForLoop, vec![leaf(NodeKind::Break), leaf(NodeKind::Continue)]);
    assert_eq!(node.kind, NodeKind::ForLoop);
    assert_eq!(node.children, vec![leaf(NodeKind::Break), leaf(NodeKind::Continue)]);
}

#[test]
fn plain_parameter_is_one_binding() {
    let param = Parameter::new("n".to_string(), true, unit());
    assert_eq!(param.name, "n");
    assert_eq!(param.pattern, leaf(NodeKind::Binding { mutable: true }));
    assert_eq!(param.ty, unit());
}

#[test]
fn empty_function_is_clean() {
    assert_eq!(inspect(&with_body(unit())), clean());
}

#[test]
fn for_loop_at_the_top_is_found() {
    let f = with_body(block(vec![leaf(NodeKind::ForLoop)]));
    assert_eq!(inspect(&f), ViolationSet { has_for_loop: true, ..clean() });
}

#[test]
fn for_loop_three_levels_deep_is_found() {
    let deep = block(vec![block(vec![block(vec![leaf(NodeKind::ForLoop)])])]);
    assert_eq!(inspect(&with_body(deep)), ViolationSet { has_for_loop: true, ..clean() });
}

#[test]
fn construct_in_the_last_child_is_found() {
    let body = block(vec![unit(), unit(), block(vec![unit(), leaf(NodeKind::Continue)])]);
    assert_eq!(inspect(&with_body(body)), ViolationSet { has_continue: true, ..clean() });
}

#[test]
fn the_walk_goes_on_below_a_loop() {
    let body = block(vec![Node::new(
        NodeKind::ForLoop,
        vec![
            leaf(NodeKind::Binding { mutable: false }),
            block(vec![Node::new(NodeKind::WhileLoop, vec![leaf(NodeKind::Break)])]),
        ],
    )]);
    assert_eq!(
        inspect(&with_body(body)),
        ViolationSet { has_for_loop: true, has_while_loop: true, has_break: true, ..clean() }
    );
}

#[test]
fn every_kind_is_recorded_in_one_walk() {
    let body = block(vec![
        leaf(NodeKind::Break),
        leaf(NodeKind::Continue),
        leaf(NodeKind::UnconditionalLoop),
        leaf(NodeKind::ForLoop),
        leaf(NodeKind::Reference { mutable: true }),
    ]);
    assert_eq!(
        inspect(&with_body(body)),
        ViolationSet {
            has_for_loop: true,
            has_while_loop: true,
            has_mut: true,
            has_continue: true,
            has_break: true,
        }
    );
}

#[test]
fn immutable_bindings_and_references_are_clean() {
    let body = block(vec![
        leaf(NodeKind::Binding { mutable: false }),
        Node::new(NodeKind::Reference { mutable: false }, vec![unit()]),
    ]);
    let f = function(
        vec![Parameter::new("x".to_string(), false, leaf(NodeKind::Reference { mutable: false }))],
        unit(),
        body,
    );
    assert_eq!(inspect(&f), clean());
}

#[test]
fn mutable_local_binding_is_found() {
    let body = block(vec![block(vec![leaf(NodeKind::Binding { mutable: true })])]);
    assert_eq!(inspect(&with_body(body)), ViolationSet { has_mut: true, ..clean() });
}

#[test]
fn mutable_parameter_is_found() {
    let f = function(
        vec![
            Parameter::new("a".to_string(), false, unit()),
            Parameter::new("b".to_string(), true, unit()),
        ],
        unit(),
        unit(),
    );
    assert_eq!(inspect(&f), ViolationSet { has_mut: true, ..clean() });
}

#[test]
fn mutable_binding_inside_a_parameter_pattern_is_found() {
    let pattern = block(vec![
        leaf(NodeKind::Binding { mutable: false }),
        leaf(NodeKind::Binding { mutable: true }),
    ]);
    let f = function(
        vec![Parameter { name: "(a, b)".to_string(), pattern, ty: unit() }],
        unit(),
        unit(),
    );
    assert_eq!(inspect(&f), ViolationSet { has_mut: true, ..clean() });
}

#[test]
fn mutable_reference_in_a_parameter_type_is_found() {
    let ty = block(vec![Node::new(NodeKind::Reference { mutable: true }, vec![unit()])]);
    let f = function(vec![Parameter::new("v".to_string(), false, ty)], unit(), unit());
    assert_eq!(inspect(&f), ViolationSet { has_mut: true, ..clean() });
}

#[test]
fn mutable_reference_in_the_return_type_is_found() {
    let f = function(vec![], leaf(NodeKind::Reference { mutable: true }), unit());
    assert_eq!(inspect(&f), ViolationSet { has_mut: true, ..clean() });
}

#[test]
fn visit_node_adds_to_what_was_found_before() {
    let mut found = ViolationSet::new();
    found.visit_node(&block(vec![leaf(NodeKind::Break)]));
    found.visit_node(&block(vec![unit()]));
    found.visit_node(&leaf(NodeKind::WhileLoop));
    assert_eq!(found, ViolationSet { has_while_loop: true, has_break: true, ..clean() });
}

#[test]
fn visit_node_looks_at_the_root() {
    assert_eq!(
        visited(&Node::new(NodeKind::UnconditionalLoop, vec![unit()])),
        ViolationSet { has_while_loop: true, ..clean() }
    );
}

#[test]
fn visit_parameter_looks_at_pattern_and_type() {
    let mut found = ViolationSet::new();
    found.visit_parameter(&Parameter::new("x".to_string(), false, unit()));
    assert_eq!(found, clean());
    found.visit_parameter(&Parameter::new(
        "y".to_string(),
        false,
        leaf(NodeKind::Reference { mutable: true }),
    ));
    assert_eq!(found, ViolationSet { has_mut: true, ..clean() });
}

#[test]
fn visit_signature_looks_at_every_parameter_and_the_output() {
    let mut found = ViolationSet::new();
    found.visit_signature(&Signature {
        params: vec![
            Parameter::new("a".to_string(), false, unit()),
            Parameter::new("b".to_string(), false, unit()),
            Parameter::new("c".to_string(), true, unit()),
        ],
        output: unit(),
    });
    assert_eq!(found, ViolationSet { has_mut: true, ..clean() });
    let mut found = ViolationSet::new();
    found.visit_signature(&Signature {
        params: vec![],
        output: block(vec![leaf(NodeKind::Reference { mutable: true })]),
    });
    assert_eq!(found, ViolationSet { has_mut: true, ..clean() });
}

#[test]
fn visit_function_is_what_inspect_returns() {
    let f = function(
        vec![Parameter::new("a".to_string(), true, unit())],
        unit(),
        block(vec![leaf(NodeKind::Continue)]),
    );
    let mut found = ViolationSet::new();
    found.visit_function(&f);
    assert_eq!(found, inspect(&f));
    assert_eq!(found, ViolationSet { has_mut: true, has_continue: true, ..clean() });
}

#[test]
fn inspect_leaves_the_function_as_it_was() {
    let f = with_body(block(vec![leaf(NodeKind::ForLoop)]));
    let _ = inspect(&f);
    assert_eq!(f, with_body(block(vec![leaf(NodeKind::ForLoop)])));
}

#[test]
fn clone_copies_the_whole_tree() {
    let body = block(vec![
        Node::new(NodeKind::ForLoop, vec![leaf(NodeKind::Binding { mutable: true }), unit()]),
        block(vec![block(vec![leaf(NodeKind::Break)])]),
    ]);
    let copy = body.clone();
    assert_eq!(copy, body);
    assert_eq!(visited(&copy), visited(&body));
}

#[test]
fn clone_copies_a_function_with_all_its_parts() {
    let f = function(
        vec![
            Parameter::new("a".to_string(), true, leaf(NodeKind::Reference { mutable: false })),
            Parameter::new("b".to_string(), false, unit()),
        ],
        leaf(NodeKind::Reference { mutable: true }),
        block(vec![leaf(NodeKind::Continue)]),
    );
    assert_eq!(f.clone(), f);
    assert_eq!(f.signature.clone(), f.signature);
    assert_eq!(f.signature.params[0].clone(), f.signature.params[0]);
}
