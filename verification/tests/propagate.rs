use fp_linting::enforce::deny_all;
use fp_linting::engine::inspect;
use fp_linting::apply_deny_all;
use fp_linting::pipeline::{check_module, enforce_module, BuildReport};
use fp_linting::rules::{HardRule, ViolationSet};
use fp_linting::tree::{Attribute, Function, Item, Module, Node, NodeKind, Signature};

fn clean() -> ViolationSet {
    ViolationSet::new()
}

fn leaf(kind: NodeKind) -> Node {
    Node::leaf(kind)
}

fn block(children: Vec<Node>) -> Node {
    Node::new(NodeKind::Other, children)
}

fn unit() -> Node {
    leaf(NodeKind::Other)
}

fn function(name: &str, attrs: Vec<Attribute>, body: Node) -> Function {
    Function {
        name: name.to_string(),
        attrs,
        signature: Signature { params: vec![], output: unit() },
        body,
    }
}

fn pure(attrs: Vec<Attribute>) -> Function {
    function("pure", attrs, block(vec![unit()]))
}

fn with_while(attrs: Vec<Attribute>) -> Function {
    function("spin", attrs, block(vec![block(vec![leaf(NodeKind::WhileLoop)])]))
}

fn constant() -> Item {
    Item::Other(block(vec![unit()]))
}

fn three_items(attrs: fn() -> Vec<Attribute>) -> Module {
    Module {
        items: vec![
            Item::Function(pure(attrs())),
            Item::Function(with_while(attrs())),
            constant(),
        ],
    }
}

fn none() -> Vec<Attribute> {
    vec![]
}

fn once() -> Vec<Attribute> {
    vec![Attribute::DenyAll]
}

fn twice() -> Vec<Attribute> {
    vec![Attribute::DenyAll, Attribute::DenyAll]
}

#[test]
fn mark_appends_the_marker() {
    let mut f = pure(vec![Attribute::Other("inline".to_string())]);
    assert!(!f.is_marked());
    f.mark();
    assert!(f.is_marked());
    assert_eq!(f, pure(vec![Attribute::Other("inline".to_string()), Attribute::DenyAll]));
}

#[test]
fn is_marked_finds_the_marker_anywhere() {
    assert!(!pure(vec![]).is_marked());
    assert!(!pure(vec![Attribute::Other("deny_all".to_string())]).is_marked());
    assert!(pure(vec![Attribute::DenyAll]).is_marked());
    assert!(pure(vec![
        Attribute::Other("a".to_string()),
        Attribute::Other("b".to_string()),
        Attribute::DenyAll
    ])
    .is_marked());
}

#[test]
fn propagate_on_an_item_marks_functions_only() {
    let mut item = Item::Function(pure(vec![]));
    item.propagate();
    assert_eq!(item, Item::Function(pure(once())));
    let mut item = constant();
    item.propagate();
    assert_eq!(item, constant());
}

#[test]
fn apply_deny_all_marks_every_function_and_keeps_the_order() {
    assert_eq!(apply_deny_all(three_items(none)), three_items(once));
}

#[test]
fn apply_deny_all_keeps_other_attributes_before_the_marker() {
    let before = Module {
        items: vec![Item::Function(pure(vec![Attribute::Other("inline".to_string())]))],
    };
    let after = Module {
        items: vec![Item::Function(pure(vec![
            Attribute::Other("inline".to_string()),
            Attribute::DenyAll,
        ]))],
    };
    assert_eq!(apply_deny_all(before), after);
}

#[test]
fn apply_deny_all_on_an_empty_module_changes_nothing() {
    assert_eq!(apply_deny_all(Module { items: vec![] }), Module { items: vec![] });
}

#[test]
fn apply_deny_all_without_functions_changes_nothing() {
    let module = || Module { items: vec![constant(), Item::Other(leaf(NodeKind::ForLoop))] };
    assert_eq!(apply_deny_all(module()), module());
}

#[test]
fn apply_deny_all_does_not_look_below_the_items() {
    let nested = || Item::Other(block(vec![block(vec![leaf(NodeKind::Binding { mutable: true })])]));
    let module = Module { items: vec![nested()] };
    assert_eq!(apply_deny_all(module), Module { items: vec![nested()] });
}

#[test]
fn apply_deny_all_twice_marks_twice() {
    assert_eq!(apply_deny_all(apply_deny_all(three_items(none))), three_items(twice));
}

#[test]
fn enforce_on_an_item_needs_the_marker() {
    assert_eq!(Item::Function(with_while(none())).enforce(), None);
    assert_eq!(
        Item::Function(with_while(once())).enforce(),
        Some(ViolationSet { has_while_loop: true, ..clean() })
    );
    assert_eq!(Item::Other(leaf(NodeKind::WhileLoop)).enforce(), None);
}

#[test]
fn enforce_module_checks_marked_functions_only() {
    let module = Module {
        items: vec![
            Item::Function(with_while(none())),
            Item::Function(with_while(once())),
            Item::Other(leaf(NodeKind::ForLoop)),
        ],
    };
    let report = enforce_module(&module);
    assert_eq!(
        report.findings,
        vec![None, Some(ViolationSet { has_while_loop: true, ..clean() }), None]
    );
    assert!(report.failed());
}

#[test]
fn pure_function_while_loop_and_constant() {
    let (marked, report) = check_module(three_items(none));
    assert_eq!(marked, three_items(once));
    assert_eq!(
        report,
        BuildReport {
            findings: vec![
                Some(clean()),
                Some(ViolationSet { has_while_loop: true, ..clean() }),
                None,
            ],
        }
    );
    assert!(report.failed());
    let found = report.findings[1].unwrap();
    assert_eq!(found.hard_violations(), vec![HardRule::WhileOrLoop]);
    assert_eq!(
        found.hard_violations()[0].message(),
        "While loops are not allowed in this codebase!"
    );
}

#[test]
fn module_findings_are_those_of_each_function_alone() {
    let (_, report) = check_module(three_items(none));
    assert_eq!(report.findings[0], Some(inspect(&pure(none()))));
    assert_eq!(report.findings[1], Some(inspect(&with_while(none()))));
    assert!(deny_all(pure(none())).is_ok());
    assert!(!report.findings[0].unwrap().has_hard_violation());
    let rejection = deny_all(with_while(none())).unwrap_err();
    assert_eq!(rejection.violations, report.findings[1].unwrap().hard_violations());
}

#[test]
fn a_rejected_function_does_not_stop_its_siblings() {
    let module = Module {
        items: vec![
            Item::Function(function("a", vec![], leaf(NodeKind::ForLoop))),
            Item::Function(function("b", vec![], leaf(NodeKind::Break))),
            Item::Function(function("c", vec![], leaf(NodeKind::Binding { mutable: true }))),
        ],
    };
    let (_, report) = check_module(module);
    assert_eq!(
        report.findings,
        vec![
            Some(ViolationSet { has_for_loop: true, ..clean() }),
            Some(ViolationSet { has_break: true, ..clean() }),
            Some(ViolationSet { has_mut: true, ..clean() }),
        ]
    );
    assert!(report.failed());
}

#[test]
fn soft_violations_alone_do_not_fail_the_build() {
    let module = Module {
        items: vec![
            Item::Function(function("a", vec![], leaf(NodeKind::Continue))),
            Item::Function(function("b", vec![], leaf(NodeKind::Break))),
        ],
    };
    let (_, report) = check_module(module);
    assert!(!report.failed());
    assert_eq!(
        report.findings,
        vec![
            Some(ViolationSet { has_continue: true, ..clean() }),
            Some(ViolationSet { has_break: true, ..clean() }),
        ]
    );
}

#[test]
fn propagation_twice_finds_what_propagation_once_finds() {
    let (marked_once, report_once) = check_module(three_items(none));
    let (marked_twice, report_twice) = check_module(marked_once);
    assert_eq!(marked_twice, three_items(twice));
    assert_eq!(report_twice, report_once);
    assert_eq!(report_twice.failed(), report_once.failed());
}

#[test]
fn module_without_functions_is_left_alone() {
    let module = || Module { items: vec![constant(), Item::Other(leaf(NodeKind::WhileLoop))] };
    let (marked, report) = check_module(module());
    assert_eq!(marked, module());
    assert_eq!(report.findings, vec![None, None]);
    assert!(!report.failed());
}

#[test]
fn empty_module_is_left_alone() {
    let (marked, report) = check_module(Module { items: vec![] });
    assert_eq!(marked, Module { items: vec![] });
    assert_eq!(report.findings, vec![]);
    assert!(!report.failed());
}

#[test]
fn failed_is_false_for_an_empty_report() {
    assert!(!BuildReport { findings: vec![] }.failed());
    assert!(!BuildReport { findings: vec![None, Some(clean())] }.failed());
    assert!(BuildReport {
        findings: vec![None, Some(clean()), Some(ViolationSet { has_mut: true, ..clean() })]
    }
    .failed());
}

#[test]
fn clone_copies_a_module_with_its_markers() {
    let module = three_items(once);
    assert_eq!(module.clone(), three_items(once));
    assert_eq!(module.items[0].clone(), module.items[0]);
    let attr = Attribute::Other("inline".to_string());
    assert_eq!(attr.clone(), attr);
    assert_eq!(Attribute::DenyAll.clone(), Attribute::DenyAll);
}

#[test]
fn a_copy_is_checked_like_the_module_it_was_made_from() {
    let module = three_items(none);
    let (_, of_copy) = check_module(module.clone());
    let (_, of_module) = check_module(module);
    assert_eq!(of_copy, of_module);
}
