//! Expression trees: the chromosome representation.
//!
//! A tree is either a binary operator node (`Function`), a numeric leaf
//! (`Terminal`), or the free variable (`X`).  A `Function` node owns exactly
//! two children; a leaf owns none.  That shape is the structural invariant
//! [`Node::is_wf`], which generation establishes and every tree operation
//! preserves.

use vstd::prelude::*;
use vstd::arithmetic::power2::pow2;
use crate::rng::random_below;

verus! {

/// What a single tree node does: apply a named binary operator, produce a
/// literal value, or produce the free variable "x".
pub enum Action {
    Function(String),
    Terminal(u64),
    X,
}

/// One node of an expression tree, owning its subtrees.
pub struct Node {
    pub action: Action,
    pub arg1: Option<Box<Node>>,
    pub arg2: Option<Box<Node>>,
}

impl Node {
    /// A tree is well formed when every `Function` node has both children
    /// (themselves well formed) and every leaf has none.
    pub open spec fn is_wf(self) -> bool
        decreases self,
    {
        match self.action {
            Action::Function(_) => {
                &&& self.arg1 is Some
                &&& self.arg2 is Some
                &&& self.arg1->0.is_wf()
                &&& self.arg2->0.is_wf()
            },
            _ => self.arg1 is None && self.arg2 is None,
        }
    }

    /// The number of nodes: 1 for a node missing a child, otherwise
    /// 1 plus the count of both subtrees.
    pub open spec fn count(self) -> nat
        decreases self,
    {
        if self.arg1 is Some && self.arg2 is Some {
            1 + self.arg1->0.count() + self.arg2->0.count()
        } else {
            1
        }
    }

    /// The height of the tree: 1 for a node missing a child, otherwise
    /// 1 plus the larger subtree height.
    pub open spec fn depth(self) -> nat
        decreases self,
    {
        if self.arg1 is Some && self.arg2 is Some {
            1 + vstd::math::max(self.arg1->0.depth() as int, self.arg2->0.depth() as int) as nat
        } else {
            1
        }
    }

    /// Every numeric leaf holds a value between one and ten, the range the
    /// generator draws from.
    pub open spec fn terminals_bounded(self) -> bool
        decreases self,
    {
        &&& match self.action {
            Action::Terminal(value) => 1 <= value <= 10,
            _ => true,
        }
        &&& match self.arg1 {
            Some(child) => child.terminals_bounded(),
            None => true,
        }
        &&& match self.arg2 {
            Some(child) => child.terminals_bounded(),
            None => true,
        }
    }

    /// Makes an exact copy of the tree, children included.
    pub fn deep_clone(&self) -> (r: Node)
        ensures
            r == *self,
        decreases *self,
    {
        let action = match &self.action {
            Action::Function(name) => Action::Function(name.clone()),
            Action::Terminal(value) => Action::Terminal(*value),
            Action::X => Action::X,
        };
        let arg1 = match &self.arg1 {
            Some(child) => Some(Box::new(child.deep_clone())),
            None => None,
        };
        let arg2 = match &self.arg2 {
            Some(child) => Some(Box::new(child.deep_clone())),
            None => None,
        };
        Node { action, arg1, arg2 }
    }

    /// Counts the nodes of the tree.
    pub fn count_nodes(&self) -> (r: usize)
        requires
            self.count() <= usize::MAX,
        ensures
            r == self.count(),
        decreases *self,
    {
        match (&self.arg1, &self.arg2) {
            (Some(arg1), Some(arg2)) => {
                let c1 = arg1.count_nodes();
                let c2 = arg2.count_nodes();
                c1 + c2 + 1
            },
            _ => 1,
        }
    }

    /// Measures the height of the tree.
    pub fn count_node_depth(&self) -> (r: u16)
        requires
            self.depth() <= u16::MAX,
        ensures
            r == self.depth(),
        decreases *self,
    {
        match (&self.arg1, &self.arg2) {
            (Some(arg1), Some(arg2)) => {
                let d1 = arg1.count_node_depth();
                let d2 = arg2.count_node_depth();
                if d1 > d2 {
                    d1 + 1
                } else {
                    d2 + 1
                }
            },
            _ => 1,
        }
    }

    /// What walking the tree with a countdown finds: the walk visits the
    /// node itself at count zero, otherwise descends into the first and then
    /// the second subtree, spending one count on each step down.  Reaching a
    /// leaf with counts to spare finds nothing, and the walk resumes at the
    /// enclosing node's second subtree with the leftover count.
    pub open spec fn traverse_spec(self, counter: nat) -> (Option<Node>, nat)
        decreases self,
    {
        if counter == 0 {
            (Some(self), 0)
        } else if self.arg1 is None || self.arg2 is None {
            (None, counter)
        } else {
            let step1 = self.arg1->0.traverse_spec((counter - 1) as nat);
            if step1.0 is Some {
                step1
            } else if step1.1 == 0 {
                // a fruitless walk always has counts left over
                // (`lemma_traverse_leftover`), so this branch cannot be taken
                (None, 0)
            } else {
                self.arg2->0.traverse_spec((step1.1 - 1) as nat)
            }
        }
    }

    /// A walk that finds nothing never runs its count down to zero: the
    /// count is spent only on the way to a node that is then found.
    pub proof fn lemma_traverse_leftover(self, counter: nat)
        ensures
            self.traverse_spec(counter).0 is None ==> self.traverse_spec(counter).1 >= 1,
        decreases self,
    {
        if counter == 0 {
        } else if self.arg1 is None || self.arg2 is None {
        } else {
            self.arg1->0.lemma_traverse_leftover((counter - 1) as nat);
            let step1 = self.arg1->0.traverse_spec((counter - 1) as nat);
            if step1.0 is None && step1.1 >= 1 {
                self.arg2->0.lemma_traverse_leftover((step1.1 - 1) as nat);
            }
        }
    }

    /// Walks the tree with a countdown and returns a copy of the node found,
    /// if any, together with the leftover count.
    pub fn traverse_tree(&self, counter: usize) -> (r: (Option<Node>, usize))
        ensures
            r.0 == self.traverse_spec(counter as nat).0,
            r.1 == self.traverse_spec(counter as nat).1,
            r.0 is None ==> r.1 >= 1,
        decreases *self,
    {
        proof {
            self.lemma_traverse_leftover(counter as nat);
        }
        if counter == 0 {
            return (Some(self.deep_clone()), 0);
        }
        match (&self.arg1, &self.arg2) {
            (Some(arg1), Some(arg2)) => {
                let (found1, left1) = arg1.traverse_tree(counter - 1);
                if found1.is_some() {
                    (found1, left1)
                } else if left1 == 0 {
                    (None, 0)
                } else {
                    arg2.traverse_tree(left1 - 1)
                }
            },
            _ => (None, counter),
        }
    }

    /// What overwriting a node found by the countdown walk yields: the tree
    /// with that node (children included) replaced by `new_node`, together
    /// with the leftover count, which is zero exactly when a node was
    /// overwritten.  The walk is the one of [`Node::traverse_spec`].
    pub open spec fn update_spec(self, new_node: Node, counter: nat) -> (Node, nat)
        decreases self,
    {
        if counter == 0 {
            (new_node, 0)
        } else if self.arg1 is None || self.arg2 is None {
            (self, counter)
        } else {
            let step1 = self.arg1->0.update_spec(new_node, (counter - 1) as nat);
            if step1.1 == 0 {
                (
                    Node {
                        action: self.action,
                        arg1: Some(Box::new(step1.0)),
                        arg2: self.arg2,
                    },
                    0,
                )
            } else {
                let step2 = self.arg2->0.update_spec(new_node, (step1.1 - 1) as nat);
                (
                    Node {
                        action: self.action,
                        arg1: Some(Box::new(step1.0)),
                        arg2: Some(Box::new(step2.0)),
                    },
                    step2.1,
                )
            }
        }
    }

    /// Overwrites the node found by the countdown walk with a copy of
    /// `new_node`, in place; returns the leftover count.
    pub fn update_tree(&mut self, new_node: &Node, counter: usize) -> (r: usize)
        ensures
            *final(self) == old(self).update_spec(*new_node, counter as nat).0,
            r == old(self).update_spec(*new_node, counter as nat).1,
        decreases *old(self),
    {
        if counter == 0 {
            let replacement = new_node.deep_clone();
            self.action = replacement.action;
            self.arg1 = replacement.arg1;
            self.arg2 = replacement.arg2;
            return 0;
        }
        if self.arg1.is_none() || self.arg2.is_none() {
            return counter;
        }
        let mut child1 = self.arg1.take().unwrap();
        let left1 = child1.update_tree(new_node, counter - 1);
        self.arg1 = Some(child1);
        if left1 == 0 {
            return 0;
        }
        let mut child2 = self.arg2.take().unwrap();
        let left2 = child2.update_tree(new_node, left1 - 1);
        self.arg2 = Some(child2);
        left2
    }

    /// Decides [`Node::is_wf`].
    pub fn check_wf(&self) -> (r: bool)
        ensures
            r == self.is_wf(),
        decreases *self,
    {
        match (&self.arg1, &self.arg2) {
            (Some(arg1), Some(arg2)) => {
                match &self.action {
                    Action::Function(_) => arg1.check_wf() && arg2.check_wf(),
                    _ => false,
                }
            },
            (None, None) => !(matches!(&self.action, Action::Function(_))),
            _ => false,
        }
    }

    /// Decides whether the tree's height stays within `limit`, without
    /// measuring the height itself.
    pub fn depth_at_most(&self, limit: u16) -> (r: bool)
        ensures
            r == (self.depth() <= limit),
        decreases *self,
    {
        match (&self.arg1, &self.arg2) {
            (Some(arg1), Some(arg2)) => {
                limit >= 1 && arg1.depth_at_most(limit - 1) && arg2.depth_at_most(limit - 1)
            },
            _ => limit >= 1,
        }
    }

    /// The node a random walk settles on: the node the countdown walk finds,
    /// or the whole tree where the walk came up short.
    pub open spec fn pick_outcome(self, k: nat) -> Node {
        match self.traverse_spec(k).0 {
            Some(found) => found,
            None => self,
        }
    }

    /// Picks a random node of the tree: a countdown walk from a uniformly
    /// random count below the node count, falling back to the whole tree.
    /// Whatever is drawn, the result is a well-formed subtree no taller than
    /// the tree itself.
    pub fn pick_node(&self) -> (r: Node)
        requires
            self.is_wf(),
            self.count() <= usize::MAX,
        ensures
            r.is_wf(),
            r.depth() <= self.depth(),
            exists|k: nat| k < self.count() && r == self.pick_outcome(k),
    {
        let number_of_nodes = self.count_nodes();
        let picked_count = random_below(number_of_nodes);
        let (found, _) = self.traverse_tree(picked_count);
        proof {
            self.lemma_traverse_found(picked_count as nat);
        }
        let result = match found {
            Some(node) => node,
            None => self.deep_clone(),
        };
        proof {
            assert(result == self.pick_outcome(picked_count as nat));
        }
        result
    }

    /// Overwrites a random node of the tree, in place, with a copy of
    /// `new_node`: a countdown walk from a uniformly random count below the
    /// node count; a walk that comes up short changes nothing.  Whatever is
    /// drawn, the tree stays well formed and grows no taller than the two
    /// trees stacked.
    pub fn swap_node(&mut self, new_node: &Node)
        requires
            old(self).is_wf(),
            old(self).count() <= usize::MAX,
            new_node.is_wf(),
        ensures
            final(self).is_wf(),
            final(self).depth() <= old(self).depth() + new_node.depth(),
            exists|k: nat|
                k < old(self).count() && *final(self) == old(self).update_spec(*new_node, k).0,
    {
        let ghost original: Node = *self;
        let number_of_nodes = self.count_nodes();
        let target_count = random_below(number_of_nodes);
        let _ = self.update_tree(new_node, target_count);
        proof {
            original.lemma_update_preserves(*new_node, target_count as nat);
        }
    }

    /// The counting law: a well-formed operator node counts itself plus
    /// both subtrees; a well-formed leaf counts one.
    pub proof fn lemma_count_law(self)
        requires
            self.is_wf(),
        ensures
            self.action is Function ==> self.count() == 1 + self.arg1->0.count()
                + self.arg2->0.count(),
            !(self.action is Function) ==> self.count() == 1,
    {
    }

    /// A tree of height `d` holds fewer than two-to-the-`d` nodes.
    pub proof fn lemma_count_bound(self)
        ensures
            self.count() < pow2(self.depth()),
        decreases self,
    {
        vstd::arithmetic::power2::lemma_pow2_pos(self.depth());
        if !(self.arg1 is Some && self.arg2 is Some) {
            assert(pow2(1) == 2) by {
                vstd::arithmetic::power2::lemma2_to64();
            }
        }
        if self.arg1 is Some && self.arg2 is Some {
            let child1 = *self.arg1->0;
            let child2 = *self.arg2->0;
            child1.lemma_count_bound();
            child2.lemma_count_bound();
            let tall = vstd::math::max(child1.depth() as int, child2.depth() as int) as nat;
            assert(self.count() == 1 + child1.count() + child2.count());
            assert(self.depth() == 1 + tall);
            assert(pow2(self.depth()) == 2 * pow2(tall)) by {
                vstd::arithmetic::power2::lemma_pow2_unfold((tall + 1) as nat);
            }
            if child1.depth() < tall {
                vstd::arithmetic::power2::lemma_pow2_strictly_increases(child1.depth(), tall);
            }
            if child2.depth() < tall {
                vstd::arithmetic::power2::lemma_pow2_strictly_increases(child2.depth(), tall);
            }
            assert(child1.count() < pow2(tall));
            assert(child2.count() < pow2(tall));
        }
    }

    /// A node that the countdown walk finds in a well-formed tree is itself
    /// well formed and no taller than the tree it was found in.
    pub proof fn lemma_traverse_found(self, counter: nat)
        requires
            self.is_wf(),
        ensures
            self.traverse_spec(counter).0 matches Some(found) ==> found.is_wf()
                && found.depth() <= self.depth(),
        decreases self,
    {
        if counter == 0 {
        } else if self.arg1 is None || self.arg2 is None {
        } else {
            self.arg1->0.lemma_traverse_found((counter - 1) as nat);
            let step1 = self.arg1->0.traverse_spec((counter - 1) as nat);
            if step1.0 is None && step1.1 >= 1 {
                self.arg2->0.lemma_traverse_found((step1.1 - 1) as nat);
            }
        }
    }

    /// Overwriting a subtree of a well-formed tree with a well-formed tree
    /// yields a well-formed tree, no taller than the two trees stacked.
    pub proof fn lemma_update_preserves(self, new_node: Node, counter: nat)
        requires
            self.is_wf(),
            new_node.is_wf(),
        ensures
            self.update_spec(new_node, counter).0.is_wf(),
            self.update_spec(new_node, counter).0.depth() <= self.depth() + new_node.depth(),
        decreases self,
    {
        if counter == 0 {
        } else if self.arg1 is None || self.arg2 is None {
        } else {
            self.arg1->0.lemma_update_preserves(new_node, (counter - 1) as nat);
            let step1 = self.arg1->0.update_spec(new_node, (counter - 1) as nat);
            if step1.1 != 0 {
                self.arg2->0.lemma_update_preserves(new_node, (step1.1 - 1) as nat);
            }
        }
    }
}

} // verus!
