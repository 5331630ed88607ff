//! Enforcement on one function: the findings of the rule engine become a
//! verdict. A hard violation rejects the function; soft ones are passed on as
//! advisories with the function, which is never edited.

use vstd::prelude::*;

use crate::engine::inspect;
use crate::rules::{HardRule, SoftRule};
use crate::tree::{Function, NodeKind};

verus! {

/// A function that broke no hard rule, as it came in, with the advisories
/// that go to the build log.
#[derive(Debug, PartialEq, Eq)]
pub struct Checked {
    pub function: Function,
    pub advisories: Vec<SoftRule>,
}

/// Why a function was rejected.
#[derive(Debug, PartialEq, Eq)]
pub struct Rejection {
    /// The rule that the build stops on: the first one broken, in the order
    /// in which the rules are checked.
    pub primary: HardRule,
    /// Every hard rule broken, in that order.
    pub violations: Vec<HardRule>,
}

impl Rejection {
    /// The message with which the build stops: that of the first rule broken.
    pub fn message(&self) -> (s: &'static str)
        ensures
            s@ == self.primary.text(),
    {
        self.primary.message()
    }
}

/// Enforces the rules on one function.
///
/// The function is rejected exactly if a `for` loop, a `while` loop, a `loop`,
/// a mutable binding or a mutable reference type stands anywhere in it; the
/// rejection names every hard rule broken, `for` loops first, then the other
/// loops, then mutability. Otherwise the function comes back as it was, with an
/// advisory for `continue` and one for `break` where they occur.
pub fn deny_all(function: Function) -> (verdict: Result<Checked, Rejection>)
    ensures
        match verdict {
            Ok(checked) => {
                &&& !function@.violations().is_hard()
                &&& checked.function == function
                &&& checked.advisories@ == function@.violations().soft_rules()
            },
            Err(rejection) => {
                &&& function@.violations().is_hard()
                &&& rejection.violations@ == function@.violations().hard_rules()
                &&& rejection.primary == function@.violations().hard_rules()[0]
            },
        },
        function@.occurs(NodeKind::ForLoop) ==> verdict is Err && verdict->Err_0.primary
            == HardRule::ForLoop,
        function@.occurs(NodeKind::WhileLoop) || function@.occurs(NodeKind::UnconditionalLoop)
            ==> verdict is Err && verdict->Err_0.violations@.contains(HardRule::WhileOrLoop),
        function@.occurs(NodeKind::Binding { mutable: true }) || function@.occurs(
            NodeKind::Reference { mutable: true },
        ) ==> verdict is Err && verdict->Err_0.violations@.contains(HardRule::Mutability),
        !function@.violations().is_hard() && function@.occurs(NodeKind::Continue) ==> verdict is Ok
            && verdict->Ok_0.advisories@.contains(SoftRule::Continue),
        !function@.violations().is_hard() && function@.occurs(NodeKind::Break) ==> verdict is Ok
            && verdict->Ok_0.advisories@.contains(SoftRule::Break),
{
    let found = inspect(&function);
    proof {
        found.lemma_hard_rules();
        found.lemma_soft_rules();
    }
    if found.has_for_loop {
        let violations = found.hard_violations();
        return Err(Rejection { primary: HardRule::ForLoop, violations });
    }
    if found.has_while_loop {
        let violations = found.hard_violations();
        return Err(Rejection { primary: HardRule::WhileOrLoop, violations });
    }
    if found.has_mut {
        let violations = found.hard_violations();
        return Err(Rejection { primary: HardRule::Mutability, violations });
    }
    let advisories = found.soft_violations();
    Ok(Checked { function, advisories })
}

} // verus!
