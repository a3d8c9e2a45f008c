//! The tape: an append-only log of elementary computations.

use crate::scalar::{is_from, Real};
use crate::var::Var;
use vstd::prelude::*;

verus! {

/// One recorded computation: the positions it depends on and the local
/// partial derivative with respect to each of them.
///
/// An input is recorded as a node that depends on itself with weight zero, so
/// inputs, unary and binary operations all share this one shape.
#[derive(Debug)]
pub struct Node<S> {
    pub weights: [S; 2],
    pub dependencies: [usize; 2],
}

impl<S: Copy> Clone for Node<S> {
    fn clone(&self) -> (copy: Self)
        ensures
            copy == *self,
    {
        *self
    }
}

impl<S: Copy> Copy for Node<S> {

}

/// No node depends on a position after its own.
pub open spec fn causal<S>(nodes: Seq<Node<S>>) -> bool {
    forall|i: int|
        0 <= i < nodes.len() ==> (#[trigger] nodes[i]).dependencies[0] <= i
            && nodes[i].dependencies[1] <= i
}

/// `post` is `pre` followed by one node, which depends on the positions `d0`
/// and `d1`, neither of them after its own.
pub open spec fn appended<S>(
    pre: Seq<Node<S>>,
    post: Seq<Node<S>>,
    d0: usize,
    d1: usize,
) -> bool {
    &&& post.len() == pre.len() + 1
    &&& post.drop_last() == pre
    &&& post.last().dependencies[0] == d0 <= pre.len()
    &&& post.last().dependencies[1] == d1 <= pre.len()
}

/// `node` records a fresh input at position `at`: it depends on its own
/// position, and both weights are one and the same zero.
pub open spec fn is_leaf<S: Real>(node: Node<S>, at: int) -> bool {
    &&& node.dependencies[0] == at
    &&& node.dependencies[1] == at
    &&& is_from(0, node.weights[0])
    &&& node.weights[1] == node.weights[0]
}

/// The step from `pre` to `post` recorded a fresh input with value `val`,
/// and `v` names it.
pub open spec fn leaf_step<S: Real>(
    pre: Seq<Node<S>>,
    post: Seq<Node<S>>,
    val: S,
    v: Var<S>,
) -> bool {
    &&& post.len() == pre.len() + 1
    &&& post.drop_last() == pre
    &&& is_leaf(post.last(), pre.len() as int)
    &&& v.val() == val
    &&& v.location() == pre.len()
}

/// `vars` are the handles of the inputs `vals`, recorded in order on the
/// tape `id` from position `start` on.
pub open spec fn leaves_issued<S: Copy>(
    id: u64,
    start: nat,
    vals: Seq<S>,
    vars: Seq<Var<S>>,
) -> bool {
    &&& vars.len() == vals.len()
    &&& forall|k: int|
        0 <= k < vals.len() ==> {
            &&& (#[trigger] vars[k]).val() == vals[k]
            &&& vars[k].location() == start + k
            &&& vars[k].tape() == id
        }
}

/// `post` is `pre` with every weight replaced by `zero` and every dependency
/// kept.
pub open spec fn zeroed<S>(pre: Seq<Node<S>>, post: Seq<Node<S>>, zero: S) -> bool {
    &&& post.len() == pre.len()
    &&& forall|i: int|
        0 <= i < post.len() ==> {
            &&& (#[trigger] post[i]).dependencies[0] == pre[i].dependencies[0]
            &&& post[i].dependencies[1] == pre[i].dependencies[1]
            &&& post[i].weights[0] == zero
            &&& post[i].weights[1] == zero
        }
}

/// Tape (Wengert list) that tracks differentiable variables, intermediate
/// values, and the operations applied to each.
///
/// Positions are handed out in creation order, starting at 0, and no node
/// ever depends on a later position. The type keeps that invariant itself:
/// nothing outside this crate can build a tape that breaks it.
///
/// A tape has an identity, the number it was created with, and stamps it on
/// every handle it issues. Two tapes are told apart by it, so whoever
/// creates tapes gives each its own number.
#[derive(Debug)]
pub struct Tape<S> {
    id: u64,
    nodes: Vec<Node<S>>,
}

impl<S> View for Tape<S> {
    type V = Seq<Node<S>>;

    closed spec fn view(&self) -> Seq<Node<S>> {
        self.nodes@
    }
}

impl<S> Tape<S> {
    #[verifier::type_invariant]
    pub(crate) open spec fn no_forward_references(&self) -> bool {
        causal(self@)
    }
}

impl<S: Real> Tape<S> {
    /// The identity of this tape.
    pub closed spec fn spec_id(&self) -> u64 {
        self.id
    }

    /// Whether `v` belongs to this tape: it carries this tape's identity and
    /// names one of its positions.
    pub open spec fn spec_holds(&self, v: &Var<S>) -> bool {
        v.tape() == self.id() && v.location() < self@.len()
    }

    /// Whether this tape is the tape `before` at a later time: the same
    /// identity, and still no node that depends on a later position.
    pub open spec fn continues(&self, before: &Tape<S>) -> bool {
        self.id() == before.id() && causal(self@)
    }

    /// Create a new tape with the identity `id`.
    pub fn new(id: u64) -> (tape: Self)
        ensures
            tape@ == Seq::<Node<S>>::empty(),
            tape.id() == id,
    {
        Tape { id, nodes: Vec::new() }
    }

    /// The identity of this tape: the number it was created with.
    #[verifier::when_used_as_spec(spec_id)]
    pub fn id(&self) -> (id: u64)
        ensures
            id == self.id(),
    {
        self.id
    }

    /// Gets the number of nodes (differentiable variables and intermediate
    /// values) in the tape.
    pub fn len(&self) -> (n: usize)
        ensures
            n == self@.len(),
    {
        self.nodes.len()
    }

    /// Checks whether the tape is empty.
    pub fn is_empty(&self) -> (empty: bool)
        ensures
            empty <==> self@.len() == 0,
    {
        self.len() == 0
    }

    /// Whether `v` belongs to this tape. Every operation on a handle asks
    /// this of the tape it is given.
    #[verifier::when_used_as_spec(spec_holds)]
    pub fn holds(&self, v: &Var<S>) -> (held: bool)
        ensures
            held == self.holds(v),
    {
        v.tape() == self.id && v.location() < self.nodes.len()
    }

    /// The node at position `i`.
    pub fn node(&self, i: usize) -> (node: Node<S>)
        requires
            i < self@.len(),
        ensures
            node == self@[i as int],
            node.dependencies[0] <= i,
            node.dependencies[1] <= i,
    {
        proof {
            use_type_invariant(self);
        }
        self.nodes[i]
    }

    /// Appends a node that depends on `d0` by `w0` and on `d1` by `w1`, and
    /// returns its position.
    pub(crate) fn add_node(&mut self, d0: usize, d1: usize, w0: S, w1: S) -> (at: usize)
        requires
            d0 <= old(self)@.len(),
            d1 <= old(self)@.len(),
        ensures
            at == old(self)@.len(),
            appended(old(self)@, final(self)@, d0, d1),
            final(self)@.last().weights[0] == w0,
            final(self)@.last().weights[1] == w1,
            final(self).continues(old(self)),
    {
        proof {
            use_type_invariant(&*self);
        }
        // The nodes are moved out while they change and moved back when they
        // satisfy the invariant again.
        let mut nodes: Vec<Node<S>> = Vec::new();
        core::mem::swap(&mut self.nodes, &mut nodes);
        let at = nodes.len();
        nodes.push(Node { weights: [w0, w1], dependencies: [d0, d1] });
        assert(nodes@.drop_last() =~= old(self)@);
        core::mem::swap(&mut self.nodes, &mut nodes);
        at
    }

    /// Add a variable with value `val` to the tape. Returns a handle that the
    /// operations of this crate compute with.
    pub fn add_var(&mut self, val: S) -> (v: Var<S>)
        ensures
            leaf_step(old(self)@, final(self)@, val, v),
            v.tape() == old(self).id(),
            final(self).continues(old(self)),
    {
        let at = self.len();
        let zero = S::from_i32(0);
        let location = self.add_node(at, at, zero, zero);
        Var::at(val, location, self.id)
    }

    /// Add a slice of variables to the tape, in order. See `add_var` for
    /// details.
    pub fn add_vars(&mut self, vals: &[S]) -> (vars: Vec<Var<S>>)
        ensures
            leaves_issued(old(self).id(), old(self)@.len(), vals@, vars@),
            final(self)@.len() == old(self)@.len() + vals@.len(),
            final(self)@.take(old(self)@.len() as int) == old(self)@,
            forall|i: int|
                old(self)@.len() <= i < final(self)@.len() ==> is_leaf(
                    #[trigger] final(self)@[i],
                    i,
                ),
            final(self).continues(old(self)),
    {
        let ghost start = self@;
        let mut vars: Vec<Var<S>> = Vec::new();
        let mut k: usize = 0;
        proof {
            use_type_invariant(&*self);
        }
        while k < vals.len()
            invariant
                k <= vals@.len(),
                self@.len() == start.len() + k,
                self@.take(start.len() as int) == start,
                self.continues(old(self)),
                leaves_issued(old(self).id(), start.len(), vals@.take(k as int), vars@),
                forall|i: int| start.len() <= i < self@.len() ==> is_leaf(#[trigger] self@[i], i),
            decreases vals@.len() - k,
        {
            let ghost before = self@;
            let v = self.add_var(vals[k]);
            vars.push(v);
            proof {
                assert forall|i: int| 0 <= i < before.len() implies #[trigger] self@[i]
                    == before[i] by {
                }
            }
            k += 1;
        }
        assert(vals@.take(k as int) =~= vals@);
        vars
    }

    /// Zero out all the gradients in the tape. Length and dependencies stay
    /// as they are.
    pub fn zero_grad(&mut self)
        ensures
            exists|zero: S| is_from(0, zero) && zeroed(old(self)@, final(self)@, zero),
            final(self).continues(old(self)),
    {
        proof {
            use_type_invariant(&*self);
        }
        let zero = S::from_i32(0);
        let mut nodes: Vec<Node<S>> = Vec::new();
        core::mem::swap(&mut self.nodes, &mut nodes);
        let n = nodes.len();
        let mut i: usize = 0;
        while i < n
            invariant
                i <= n,
                nodes@.len() == n,
                n == old(self)@.len(),
                forall|j: int|
                    0 <= j < n ==> {
                        &&& (#[trigger] nodes@[j]).dependencies[0] == old(self)@[j].dependencies[0]
                        &&& nodes@[j].dependencies[1] == old(self)@[j].dependencies[1]
                    },
                forall|j: int|
                    0 <= j < i ==> (#[trigger] nodes@[j]).weights[0] == zero && nodes@[j].weights[1]
                        == zero,
            decreases n - i,
        {
            let dependencies = nodes[i].dependencies;
            nodes[i] = Node { weights: [zero, zero], dependencies };
            i += 1;
        }
        core::mem::swap(&mut self.nodes, &mut nodes);
        assert(is_from(0, zero) && zeroed(old(self)@, self@, zero));
    }

    /// Clear the tape by deleting all nodes (useful for clearing out
    /// intermediate values). Handles issued before the call no longer name a
    /// position; the next node goes to position 0.
    pub fn clear(&mut self)
        ensures
            final(self)@ == Seq::<Node<S>>::empty(),
            final(self).id() == old(self).id(),
    {
        let mut nodes: Vec<Node<S>> = Vec::new();
        core::mem::swap(&mut self.nodes, &mut nodes);
        nodes.clear();
        core::mem::swap(&mut self.nodes, &mut nodes);
    }

    /// A copy of this tape under the identity `id`. The copy holds the same
    /// nodes, and none of the handles of this tape unless `id` is this
    /// tape's own identity.
    pub fn clone_with_id(&self, id: u64) -> (copy: Self)
        ensures
            copy@ == self@,
            copy.id() == id,
    {
        proof {
            use_type_invariant(self);
        }
        let nodes = self.nodes.clone();
        Tape { id, nodes }
    }
}

impl<S: Real> Default for Tape<S> {
    /// The empty tape with the identity 0.
    fn default() -> (tape: Self)
        ensures
            tape@ == Seq::<Node<S>>::empty(),
            tape.id() == 0,
    {
        Self::new(0)
    }
}

} // verus!
