//! The rules: which constructs are tracked, what a traversal records about
//! them, and how serious each finding is.

use vstd::prelude::*;

use crate::tree::NodeKind;

verus! {

/// What one traversal found in a function: one flag per tracked construct.
///
/// A `while` loop and an unconditional `loop` share a flag, and so do a mutable
/// binding and a mutable reference type.
#[derive(Clone, Copy, Debug, PartialEq, Eq, Structural)]
pub struct ViolationSet {
    pub has_for_loop: bool,
    pub has_while_loop: bool,
    pub has_mut: bool,
    pub has_continue: bool,
    pub has_break: bool,
}

/// A rule whose breach stops the build.
#[derive(Clone, Copy, Debug, PartialEq, Eq, Structural)]
pub enum HardRule {
    ForLoop,
    WhileOrLoop,
    Mutability,
}

/// A rule whose breach is reported and nothing more.
#[derive(Clone, Copy, Debug, PartialEq, Eq, Structural)]
pub enum SoftRule {
    Continue,
    Break,
}

impl ViolationSet {
    /// The set in which nothing was found.
    pub open spec fn empty() -> ViolationSet {
        ViolationSet {
            has_for_loop: false,
            has_while_loop: false,
            has_mut: false,
            has_continue: false,
            has_break: false,
        }
    }

    /// The flags raised by the kinds of node that `found` holds of.
    pub open spec fn of(found: spec_fn(NodeKind) -> bool) -> ViolationSet {
        ViolationSet {
            has_for_loop: found(NodeKind::ForLoop),
            has_while_loop: found(NodeKind::WhileLoop) || found(NodeKind::UnconditionalLoop),
            has_mut: found(NodeKind::Binding { mutable: true }) || found(
                NodeKind::Reference { mutable: true },
            ),
            has_continue: found(NodeKind::Continue),
            has_break: found(NodeKind::Break),
        }
    }

    /// The flags raised by a single node of the given kind.
    pub open spec fn of_kind(kind: NodeKind) -> ViolationSet {
        ViolationSet::of(|k: NodeKind| k == kind)
    }

    /// Every flag that is raised in either set.
    pub open spec fn union(self, other: ViolationSet) -> ViolationSet {
        ViolationSet {
            has_for_loop: self.has_for_loop || other.has_for_loop,
            has_while_loop: self.has_while_loop || other.has_while_loop,
            has_mut: self.has_mut || other.has_mut,
            has_continue: self.has_continue || other.has_continue,
            has_break: self.has_break || other.has_break,
        }
    }

    /// Whether a rule that stops the build is broken.
    pub open spec fn is_hard(self) -> bool {
        self.has_for_loop || self.has_while_loop || self.has_mut
    }

    /// The hard rules broken, in the order in which they are checked:
    /// `for` loops, then the other loops, then mutability.
    pub open spec fn hard_rules(self) -> Seq<HardRule> {
        (if self.has_for_loop {
            seq![HardRule::ForLoop]
        } else {
            Seq::<HardRule>::empty()
        }) + (if self.has_while_loop {
            seq![HardRule::WhileOrLoop]
        } else {
            Seq::<HardRule>::empty()
        }) + (if self.has_mut {
            seq![HardRule::Mutability]
        } else {
            Seq::<HardRule>::empty()
        })
    }

    /// The soft rules broken, in the order in which they are checked:
    /// `continue`, then `break`.
    pub open spec fn soft_rules(self) -> Seq<SoftRule> {
        (if self.has_continue {
            seq![SoftRule::Continue]
        } else {
            Seq::<SoftRule>::empty()
        }) + (if self.has_break {
            seq![SoftRule::Break]
        } else {
            Seq::<SoftRule>::empty()
        })
    }

    /// The texts that enforcement emits for these findings: the messages of
    /// the hard rules broken or, where none is broken, the advisories.
    pub open spec fn message_texts(self) -> Seq<Seq<char>> {
        if self.is_hard() {
            self.hard_rules().map_values(|rule: HardRule| rule.text())
        } else {
            self.soft_rules().map_values(|rule: SoftRule| rule.text())
        }
    }

    /// A hard rule is listed exactly if its flag is raised, and the first one
    /// listed is the first one broken in the order of checking.
    pub proof fn lemma_hard_rules(self)
        ensures
            self.hard_rules().contains(HardRule::ForLoop) <==> self.has_for_loop,
            self.hard_rules().contains(HardRule::WhileOrLoop) <==> self.has_while_loop,
            self.hard_rules().contains(HardRule::Mutability) <==> self.has_mut,
            self.hard_rules().len() > 0 <==> self.is_hard(),
            self.has_for_loop ==> self.hard_rules()[0] == HardRule::ForLoop,
            !self.has_for_loop && self.has_while_loop ==> self.hard_rules()[0]
                == HardRule::WhileOrLoop,
            !self.has_for_loop && !self.has_while_loop && self.has_mut ==> self.hard_rules()[0]
                == HardRule::Mutability,
    {
        let rules = self.hard_rules();
        let at_while: int = if self.has_for_loop { 1 } else { 0 };
        let at_mut: int = at_while + if self.has_while_loop { 1int } else { 0int };
        if self.has_for_loop {
            assert(rules[0] == HardRule::ForLoop);
        }
        if self.has_while_loop {
            assert(rules[at_while] == HardRule::WhileOrLoop);
        }
        if self.has_mut {
            assert(rules[at_mut] == HardRule::Mutability);
        }
    }

    /// A soft rule is listed exactly if its flag is raised.
    pub proof fn lemma_soft_rules(self)
        ensures
            self.soft_rules().contains(SoftRule::Continue) <==> self.has_continue,
            self.soft_rules().contains(SoftRule::Break) <==> self.has_break,
            self.soft_rules().len() > 0 <==> self.has_continue || self.has_break,
    {
        let rules = self.soft_rules();
        let at_break: int = if self.has_continue { 1 } else { 0 };
        if self.has_continue {
            assert(rules[0] == SoftRule::Continue);
        }
        if self.has_break {
            assert(rules[at_break] == SoftRule::Break);
        }
    }

    /// A fresh set, as a traversal starts with.
    pub fn new() -> (v: ViolationSet)
        ensures
            v == ViolationSet::empty(),
    {
        ViolationSet {
            has_for_loop: false,
            has_while_loop: false,
            has_mut: false,
            has_continue: false,
            has_break: false,
        }
    }

    /// Records one node of the given kind. Flags are raised and never lowered,
    /// and every kind is looked at whatever was recorded before.
    pub fn record(&mut self, kind: NodeKind)
        ensures
            *final(self) == old(self).union(ViolationSet::of_kind(kind)),
    {
        match kind {
            NodeKind::ForLoop => {
                self.has_for_loop = true;
            },
            NodeKind::WhileLoop => {
                self.has_while_loop = true;
            },
            NodeKind::UnconditionalLoop => {
                self.has_while_loop = true;
            },
            NodeKind::Continue => {
                self.has_continue = true;
            },
            NodeKind::Break => {
                self.has_break = true;
            },
            NodeKind::Binding { mutable } => {
                if mutable {
                    self.has_mut = true;
                }
            },
            NodeKind::Reference { mutable } => {
                if mutable {
                    self.has_mut = true;
                }
            },
            NodeKind::Other => {},
        }
    }

    /// Whether a rule that stops the build is broken.
    pub fn has_hard_violation(&self) -> (b: bool)
        ensures
            b == self.is_hard(),
    {
        self.has_for_loop || self.has_while_loop || self.has_mut
    }

    /// The hard rules broken, in the order in which they are checked.
    pub fn hard_violations(&self) -> (rules: Vec<HardRule>)
        ensures
            rules@ == self.hard_rules(),
    {
        let mut rules: Vec<HardRule> = Vec::new();
        if self.has_for_loop {
            rules.push(HardRule::ForLoop);
        }
        if self.has_while_loop {
            rules.push(HardRule::WhileOrLoop);
        }
        if self.has_mut {
            rules.push(HardRule::Mutability);
        }
        rules
    }

    /// The soft rules broken, in the order in which they are checked.
    pub fn soft_violations(&self) -> (rules: Vec<SoftRule>)
        ensures
            rules@ == self.soft_rules(),
    {
        let mut rules: Vec<SoftRule> = Vec::new();
        if self.has_continue {
            rules.push(SoftRule::Continue);
        }
        if self.has_break {
            rules.push(SoftRule::Break);
        }
        rules
    }

    /// The messages that enforcement emits for these findings, in the order in
    /// which the rules are checked: those of the hard rules broken or, where
    /// none is broken, the advisories.
    pub fn messages(&self) -> (out: Vec<&'static str>)
        ensures
            out@.len() == self.message_texts().len(),
            forall|i: int| 0 <= i < out@.len() ==> (#[trigger] out@[i])@ == self.message_texts()[i],
    {
        let mut out: Vec<&'static str> = Vec::new();
        if self.has_hard_violation() {
            let rules = self.hard_violations();
            let mut i: usize = 0;
            while i < rules.len()
                invariant
                    i <= rules.len(),
                    out@.len() == i,
                    forall|j: int| 0 <= j < i ==> (#[trigger] out@[j])@ == rules@[j].text(),
                decreases rules.len() - i,
            {
                out.push(rules[i].message());
                i += 1;
            }
        } else {
            let rules = self.soft_violations();
            let mut i: usize = 0;
            while i < rules.len()
                invariant
                    i <= rules.len(),
                    out@.len() == i,
                    forall|j: int| 0 <= j < i ==> (#[trigger] out@[j])@ == rules@[j].text(),
                decreases rules.len() - i,
            {
                out.push(rules[i].message());
                i += 1;
            }
        }
        out
    }
}

impl Default for ViolationSet {
    fn default() -> (v: ViolationSet)
        ensures
            v == ViolationSet::empty(),
    {
        ViolationSet::new()
    }
}

impl HardRule {
    /// The text that names this rule to the author.
    pub open spec fn text(self) -> Seq<char> {
        match self {
            HardRule::ForLoop => "For loops are not allowed in this codebase!"@,
            HardRule::WhileOrLoop => "While loops are not allowed in this codebase!"@,
            HardRule::Mutability => "Mutable values are not allowed in this codebase! State must be pure."@,
        }
    }

    /// The message with which the build stops.
    pub fn message(&self) -> (s: &'static str)
        ensures
            s@ == self.text(),
    {
        match self {
            HardRule::ForLoop => "For loops are not allowed in this codebase!",
            HardRule::WhileOrLoop => "While loops are not allowed in this codebase!",
            HardRule::Mutability => "Mutable values are not allowed in this codebase! State must be pure.",
        }
    }
}

impl SoftRule {
    /// The text that names this rule to the author.
    pub open spec fn text(self) -> Seq<char> {
        match self {
            SoftRule::Continue => "`continue` is not allowed in this codebase! Loop operators are not allowed."@,
            SoftRule::Break => "`break` is not allowed in this codebase! Loop operators are not allowed."@,
        }
    }

    /// The advisory that goes to the build log.
    pub fn message(&self) -> (s: &'static str)
        ensures
            s@ == self.text(),
    {
        match self {
            SoftRule::Continue => "`continue` is not allowed in this codebase! Loop operators are not allowed.",
            SoftRule::Break => "`break` is not allowed in this codebase! Loop operators are not allowed.",
        }
    }
}

} // verus!
