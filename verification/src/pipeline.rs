//! The pipeline for a module: propagation, then enforcement on each function
//! that carries the marker, each one by itself.

use vstd::prelude::*;

use crate::engine::inspect;
use crate::propagate::apply_deny_all;
use crate::rules::ViolationSet;
use crate::tree::{Item, ItemView, Module, ModuleView};

verus! {

impl ItemView {
    /// What enforcement finds for the item: the findings of the rule engine
    /// for a function that carries the marker, nothing for any other item.
    pub open spec fn finding(self) -> Option<ViolationSet> {
        match self {
            ItemView::Function(function) => if function.is_marked() {
                Some(function.violations())
            } else {
                None
            },
            ItemView::Other(_) => None,
        }
    }
}

impl ModuleView {
    /// What enforcement finds for each item, in the order of the items.
    pub open spec fn findings(self) -> Seq<Option<ViolationSet>> {
        Seq::new(self.items.len(), |i: int| self.items[i].finding())
    }

    /// Whether the build of the module fails: some function that carries the
    /// marker breaks a hard rule.
    pub open spec fn build_fails(self) -> bool {
        fails(self.findings())
    }
}

/// Whether one of the findings holds a hard violation.
pub open spec fn fails(findings: Seq<Option<ViolationSet>>) -> bool {
    exists|i: int|
        0 <= i < findings.len() && (#[trigger] findings[i]) is Some && findings[i]->Some_0.is_hard()
}

/// The outcome of enforcement on a module: for each item, in order, what was
/// found in it if it is a function that carries the marker.
#[derive(Debug, PartialEq, Eq)]
pub struct BuildReport {
    pub findings: Vec<Option<ViolationSet>>,
}

impl BuildReport {
    /// Whether the build fails: some function broke a hard rule. Soft
    /// violations alone do not fail it.
    pub fn failed(&self) -> (b: bool)
        ensures
            b == fails(self.findings@),
    {
        let mut i: usize = 0;
        while i < self.findings.len()
            invariant
                i <= self.findings.len(),
                forall|j: int|
                    0 <= j < i ==> !((#[trigger] self.findings@[j]) is Some
                        && self.findings@[j]->Some_0.is_hard()),
            decreases self.findings.len() - i,
        {
            match &self.findings[i] {
                Some(found) => {
                    if found.has_hard_violation() {
                        return true;
                    }
                },
                None => {},
            }
            i += 1;
        }
        false
    }
}

impl Item {
    /// What enforcement finds for the item: a function that carries the
    /// marker goes through the rule engine, anything else is left alone.
    pub fn enforce(&self) -> (found: Option<ViolationSet>)
        ensures
            found == self@.finding(),
    {
        match self {
            Item::Function(function) => {
                if function.is_marked() {
                    Some(inspect(function))
                } else {
                    None
                }
            },
            Item::Other(_) => None,
        }
    }
}

/// Enforces the rules on every function of the module that carries the
/// marker, each one independently of the others. A function that breaks a
/// hard rule does not stop the others from being checked.
pub fn enforce_module(module: &Module) -> (report: BuildReport)
    ensures
        report.findings@ == module@.findings(),
{
    let mut findings: Vec<Option<ViolationSet>> = Vec::new();
    let mut i: usize = 0;
    while i < module.items.len()
        invariant
            i <= module.items.len(),
            findings@.len() == i,
            forall|j: int| 0 <= j < i ==> #[trigger] findings@[j] == module.items@[j]@.finding(),
        decreases module.items.len() - i,
    {
        let found = module.items[i].enforce();
        findings.push(found);
        i += 1;
    }
    BuildReport { findings }
}

/// The whole pipeline on a module: the marker is put on every function item,
/// and the rules are then enforced on each of them.
pub fn check_module(module: Module) -> (outcome: (Module, BuildReport))
    ensures
        outcome.0@ == module@.propagated(),
        outcome.1.findings@ == module@.propagated().findings(),
{
    let marked = apply_deny_all(module);
    let report = enforce_module(&marked);
    (marked, report)
}

} // verus!
