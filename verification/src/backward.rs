//! The backward pass: one reverse scan of the tape that turns the recorded
//! local derivatives into the adjoint of every node.

use crate::scalar::{is_add, is_from, is_mul, Real};
use crate::tape::{Node, Tape};
use crate::var::Var;
use vstd::prelude::*;

verus! {

/// `out` is an outcome of `acc + weight * adjoint`: the product is taken
/// first, then the sum.
pub open spec fn accumulated<S: Real>(acc: S, weight: S, adjoint: S, out: S) -> bool {
    exists|product: S| is_mul(weight, adjoint, product) && is_add(acc, product, out)
}

/// `after` is `before` with position `d` replaced by an outcome of
/// `before[d] + weight * before[i]`.
pub open spec fn pushed_back<S: Real>(
    before: Seq<S>,
    after: Seq<S>,
    d: int,
    weight: S,
    i: int,
) -> bool {
    &&& after == before.update(d, after[d])
    &&& accumulated(before[d], weight, before[i], after[d])
}

/// `after` is an outcome of propagating the adjoint of position `i` along
/// `node`: first to the node's first dependency, then, from what the first
/// step left, to its second.
pub open spec fn propagated<S: Real>(node: Node<S>, i: int, before: Seq<S>, after: Seq<S>) -> bool {
    exists|mid: Seq<S>|
        {
            &&& pushed_back(before, mid, node.dependencies[0] as int, node.weights[0], i)
            &&& pushed_back(mid, after, node.dependencies[1] as int, node.weights[1], i)
        }
}

/// `after` is an outcome of scanning the first `i` positions of `nodes` from
/// the highest down to position 0, starting from the adjoints `before`.
pub open spec fn swept<S: Real>(nodes: Seq<Node<S>>, i: nat, before: Seq<S>, after: Seq<S>) -> bool
    decreases i,
{
    if i == 0 {
        after == before
    } else {
        let j = (i - 1) as nat;
        exists|mid: Seq<S>| #[trigger]
            propagated(nodes[j as int], j as int, before, mid) && swept(nodes, j, mid, after)
    }
}

/// `adjoints` is what a scan over `n` positions starts from: a one at
/// position `at` and one and the same zero everywhere else.
pub open spec fn seeded<S: Real>(n: nat, at: int, adjoints: Seq<S>) -> bool {
    &&& adjoints.len() == n
    &&& is_from(1, adjoints[at])
    &&& exists|zero: S|
        is_from(0, zero) && forall|j: int| 0 <= j < n && j != at ==> adjoints[j] == zero
}

/// `g` is an outcome of the backward pass over `nodes` from position `at`:
/// seed, then scan every position in decreasing order.
pub open spec fn is_gradient<S: Real>(nodes: Seq<Node<S>>, at: int, g: Seq<S>) -> bool {
    exists|start: Seq<S>| seeded(nodes.len(), at, start) && swept(nodes, nodes.len(), start, g)
}

/// A scan over `i + 1` positions is one propagation at position `i` followed
/// by a scan over the `i` positions below it.
proof fn lemma_swept_unfold<S: Real>(
    nodes: Seq<Node<S>>,
    i: nat,
    before: Seq<S>,
    mid: Seq<S>,
    after: Seq<S>,
)
    requires
        propagated(nodes[i as int], i as int, before, mid),
        swept(nodes, i, mid, after),
    ensures
        swept(nodes, i + 1, before, after),
{
    let j = ((i + 1) - 1) as nat;
    assert(j == i);
    assert(propagated(nodes[j as int], j as int, before, mid) && swept(nodes, j, mid, after));
}

impl<S: Real> Var<S> {
    /// Calculate the gradients of this variable with respect to all other
    /// (possibly intermediate) variables that it depends on: one adjoint per
    /// node of `tape`, in tape order.
    pub fn grad(&self, tape: &Tape<S>) -> (g: Vec<S>)
        requires
            tape.holds(self),
        ensures
            g@.len() == tape@.len(),
            is_gradient(tape@, self.location() as int, g@),
    {
        let n = tape.len();
        let at = self.location();
        let zero = S::from_i32(0);
        let one = S::from_i32(1);
        let mut derivs: Vec<S> = Vec::new();
        while derivs.len() < n
            invariant
                derivs@.len() <= n,
                forall|j: int| 0 <= j < derivs@.len() ==> derivs@[j] == zero,
            decreases n - derivs@.len(),
        {
            derivs.push(zero);
        }
        derivs[at] = one;
        let ghost start = derivs@;
        assert(seeded(n as nat, at as int, start)) by {
            assert(is_from(0, zero) && forall|j: int|
                0 <= j < n && j != at ==> start[j] == zero);
        }
        let mut i = n;
        while i > 0
            invariant
                i <= n,
                n == tape@.len(),
                derivs@.len() == n,
                forall|out: Seq<S>| #[trigger]
                    swept(tape@, i as nat, derivs@, out) ==> swept(tape@, n as nat, start, out),
            decreases i,
        {
            i -= 1;
            let ghost before = derivs@;
            let node = tape.node(i);
            let d0 = node.dependencies[0];
            let p0 = node.weights[0].mul(derivs[i]);
            let a0 = derivs[d0].add(p0);
            derivs[d0] = a0;
            let ghost mid = derivs@;
            let d1 = node.dependencies[1];
            let p1 = node.weights[1].mul(derivs[i]);
            let a1 = derivs[d1].add(p1);
            derivs[d1] = a1;
            proof {
                let after = derivs@;
                assert(is_mul(node.weights[0], before[i as int], p0) && is_add(
                    before[d0 as int],
                    p0,
                    a0,
                ));
                assert(pushed_back(before, mid, d0 as int, node.weights[0], i as int));
                assert(is_mul(node.weights[1], mid[i as int], p1) && is_add(
                    mid[d1 as int],
                    p1,
                    a1,
                ));
                assert(pushed_back(mid, after, d1 as int, node.weights[1], i as int));
                assert(propagated(tape@[i as int], i as int, before, after));
                assert forall|out: Seq<S>| #[trigger]
                    swept(tape@, i as nat, after, out) implies swept(
                    tape@,
                    n as nat,
                    start,
                    out,
                ) by {
                    lemma_swept_unfold(tape@, i as nat, before, after, out);
                }
            }
        }
        assert(swept(tape@, 0, derivs@, derivs@));
        derivs
    }
}

} // verus!
