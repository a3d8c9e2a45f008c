//! What holds of every tape, whatever was done with it.
//!
//! The life of a tape is a chain of steps: a node is inserted (for an input
//! or for an elementary operation), the weights are reset, or the tape is
//! cleared. The contract of each operation of this crate describes one or
//! two such steps; the statements here are about chains of any length.

use crate::arith::{add_step, div_step, mul_step, neg_step, sub_step};
use crate::elementary::recip_step;
use crate::backward::{accumulated, is_gradient, propagated, pushed_back, seeded, swept};
use crate::scalar::{is_add, is_from, is_mul, Real};
use crate::step::{binary_step, right_step, unary_step};
use crate::tape::{causal, leaf_step, zeroed, Node, Tape};
use crate::var::Var;
use vstd::prelude::*;

verus! {

/// `post` is `pre` followed by one node, whose dependencies are positions
/// up to its own. Every input and every elementary operation records its
/// node by such a step.
pub open spec fn inserted<S>(pre: Seq<Node<S>>, post: Seq<Node<S>>) -> bool {
    &&& post.len() == pre.len() + 1
    &&& post.drop_last() == pre
    &&& post.last().dependencies[0] <= pre.len()
    &&& post.last().dependencies[1] <= pre.len()
}

/// `post` is `pre` after one step of any kind: an insertion, a reset of the
/// weights, or a clearing.
pub open spec fn evolved<S>(pre: Seq<Node<S>>, post: Seq<Node<S>>) -> bool {
    ||| inserted(pre, post)
    ||| exists|zero: S| zeroed(pre, post, zero)
    ||| post.len() == 0
}

/// `states` is a possible life of a tape: it starts empty, and each state
/// comes from the one before it by one step.
pub open spec fn is_history<S>(states: Seq<Seq<Node<S>>>) -> bool {
    &&& states.len() > 0
    &&& states[0].len() == 0
    &&& forall|j: int| 0 < j < states.len() ==> evolved(states[j - 1], #[trigger] states[j])
}

/// `states` is a life of a tape that consists of insertions only.
pub open spec fn is_growth<S>(states: Seq<Seq<Node<S>>>) -> bool {
    &&& states.len() > 0
    &&& states[0].len() == 0
    &&& forall|j: int| 0 < j < states.len() ==> inserted(states[j - 1], #[trigger] states[j])
}

/// Two tapes of different identity have no handle in common: a handle that
/// belongs to one of them is refused by the other.
pub proof fn lemma_tapes_share_no_handle<S: Real>(a: &Tape<S>, b: &Tape<S>, v: Var<S>)
    requires
        a.id() != b.id(),
    ensures
        !(a.holds(&v) && b.holds(&v)),
{
}

/// What an operation returns belongs to the tape it was recorded on: the
/// result of a step on handles of the tape `pre` carries that tape's
/// identity and names the last position of the tape `post` that the step
/// led to.
pub proof fn lemma_results_are_held<S: Real>(
    pre: &Tape<S>,
    post: &Tape<S>,
    x: Var<S>,
    y: Var<S>,
    out: Var<S>,
)
    requires
        post.continues(pre),
        pre.holds(&x),
        unary_step(pre@, post@, x, out) || right_step(pre@, post@, x, out) || binary_step(
            pre@,
            post@,
            x,
            y,
            out,
        ),
    ensures
        out.tape() == pre.id(),
        out.location() == post@.len() - 1,
        post.holds(&out),
        post.holds(&x),
{
}

/// Whatever an operation records for an input, for one operand or for two,
/// it records by an insertion.
pub proof fn lemma_steps_are_insertions<S: Real>(
    pre: Seq<Node<S>>,
    post: Seq<Node<S>>,
    x: Var<S>,
    y: Var<S>,
    out: Var<S>,
)
    ensures
        leaf_step(pre, post, out.val(), out) ==> inserted(pre, post),
        unary_step(pre, post, x, out) ==> inserted(pre, post),
        right_step(pre, post, x, out) ==> inserted(pre, post),
        binary_step(pre, post, x, y, out) ==> inserted(pre, post),
{
}

/// The difference and the quotient of two variables are recorded by two
/// insertions each.
pub proof fn lemma_composites_are_two_insertions<S: Real>(
    pre: Seq<Node<S>>,
    post: Seq<Node<S>>,
    x: Var<S>,
    y: Var<S>,
    out: Var<S>,
)
    requires
        sub_step(pre, post, x, y, out) || div_step(pre, post, x, y, out),
    ensures
        exists|mid: Seq<Node<S>>| inserted(pre, mid) && inserted(mid, post),
        post.len() == pre.len() + 2,
{
    if sub_step(pre, post, x, y, out) {
        let (mid, negated) = choose|mid: Seq<Node<S>>, negated: Var<S>|
            neg_step(pre, mid, y, negated) && add_step(mid, post, x, negated, out);
        assert(inserted(pre, mid) && inserted(mid, post));
    } else {
        let (mid, inverse) = choose|mid: Seq<Node<S>>, inverse: Var<S>|
            recip_step(pre, mid, y, inverse) && mul_step(mid, post, x, inverse, out);
        assert(inserted(pre, mid) && inserted(mid, post));
    }
}

/// An insertion into a tape without forward references leaves none.
pub proof fn lemma_inserted_keeps_causal<S>(pre: Seq<Node<S>>, post: Seq<Node<S>>)
    requires
        causal(pre),
        inserted(pre, post),
    ensures
        causal(post),
{
    assert forall|i: int| 0 <= i < post.len() implies (#[trigger] post[i]).dependencies[0] <= i
        && post[i].dependencies[1] <= i by {
        if i < pre.len() {
            assert(post.drop_last()[i] == post[i]);
        }
    }
}

/// No forward references: in every state of every life of a tape, each node
/// depends only on positions up to its own.
pub proof fn lemma_history_is_causal<S>(states: Seq<Seq<Node<S>>>, j: int)
    requires
        is_history(states),
        0 <= j < states.len(),
    ensures
        causal(states[j]),
    decreases j,
{
    if j > 0 {
        lemma_history_is_causal(states, j - 1);
        let pre = states[j - 1];
        let post = states[j];
        assert(evolved(pre, post));
        if inserted(pre, post) {
            lemma_inserted_keeps_causal(pre, post);
        }
    }
}

/// After `j` insertions into an empty tape its length is `j`.
pub proof fn lemma_growth_length<S>(states: Seq<Seq<Node<S>>>, j: int)
    requires
        is_growth(states),
        0 <= j < states.len(),
    ensures
        states[j].len() == j,
    decreases j,
{
    if j > 0 {
        lemma_growth_length(states, j - 1);
        assert(inserted(states[j - 1], states[j]));
    }
}

/// The length counts the insertions: after `k` inputs and `m` elementary
/// operations after them, each of which inserts one node, the tape holds
/// exactly `k + m` nodes.
pub proof fn lemma_length_counts_insertions<S>(states: Seq<Seq<Node<S>>>, k: nat, m: nat)
    requires
        is_growth(states),
        states.len() == k + m + 1,
    ensures
        states[k as int].len() == k,
        states[(k + m) as int].len() == k + m,
{
    lemma_growth_length(states, k as int);
    lemma_growth_length(states, (k + m) as int);
}

/// The first input after a clearing stands at position 0 again, whatever
/// the tape held before.
pub proof fn lemma_leaf_after_clear<S: Real>(
    cleared: Seq<Node<S>>,
    post: Seq<Node<S>>,
    val: S,
    v: Var<S>,
)
    requires
        cleared == Seq::<Node<S>>::empty(),
        leaf_step(cleared, post, val, v),
    ensures
        v.location() == 0,
        post.len() == 1,
{
}

/// One propagation at position `i` of a tape without forward references
/// changes no adjoint above position `i`, and keeps the number of adjoints.
pub proof fn lemma_propagated_below<S: Real>(
    node: Node<S>,
    i: int,
    before: Seq<S>,
    after: Seq<S>,
)
    requires
        0 <= i < before.len(),
        node.dependencies[0] <= i,
        node.dependencies[1] <= i,
        propagated(node, i, before, after),
    ensures
        after.len() == before.len(),
        forall|j: int| i < j < before.len() ==> after[j] == before[j],
{
    let mid = choose|mid: Seq<S>|
        {
            &&& pushed_back(before, mid, node.dependencies[0] as int, node.weights[0], i)
            &&& pushed_back(mid, after, node.dependencies[1] as int, node.weights[1], i)
        };
    assert(mid.len() == before.len());
    assert(after.len() == mid.len());
    assert forall|j: int| i < j < before.len() implies after[j] == before[j] by {
        assert(mid[j] == before[j]);
        assert(after[j] == mid[j]);
    }
}

/// The reverse scan visits the nodes in a valid order: once the scan has
/// passed a position, the adjoint there is final. Scanning the positions
/// below `i` changes no adjoint at position `i` or above, because no node
/// below `i` depends on a position after its own.
pub proof fn lemma_scan_leaves_passed_positions<S: Real>(
    nodes: Seq<Node<S>>,
    i: nat,
    before: Seq<S>,
    after: Seq<S>,
)
    requires
        causal(nodes),
        i <= nodes.len(),
        before.len() == nodes.len(),
        swept(nodes, i, before, after),
    ensures
        after.len() == before.len(),
        forall|j: int| i <= j < before.len() ==> after[j] == before[j],
    decreases i,
{
    if i > 0 {
        let k = (i - 1) as nat;
        let mid = choose|mid: Seq<S>| #[trigger]
            propagated(nodes[k as int], k as int, before, mid) && swept(nodes, k, mid, after);
        lemma_propagated_below(nodes[k as int], k as int, before, mid);
        lemma_scan_leaves_passed_positions(nodes, k, mid, after);
    }
}

/// A backward pass returns one adjoint for each node of the tape.
pub proof fn lemma_gradient_length<S: Real>(nodes: Seq<Node<S>>, at: int, g: Seq<S>)
    requires
        causal(nodes),
        is_gradient(nodes, at, g),
    ensures
        g.len() == nodes.len(),
{
    let start = choose|start: Seq<S>|
        seeded(nodes.len(), at, start) && swept(nodes, nodes.len(), start, g);
    lemma_scan_leaves_passed_positions(nodes, nodes.len(), start, g);
}

/// In this arithmetic the operations of the backward pass have one outcome
/// each: the numbers for 0 and 1, a product, and a sum.
pub open spec fn single_valued<S: Real>() -> bool {
    &&& forall|n: int, a: S, b: S| is_from(n, a) && is_from(n, b) ==> a == b
    &&& forall|x: S, y: S, a: S, b: S|
        #[trigger] is_mul(x, y, a) && #[trigger] is_mul(x, y, b) ==> a == b
    &&& forall|x: S, y: S, a: S, b: S|
        #[trigger] is_add(x, y, a) && #[trigger] is_add(x, y, b) ==> a == b
}

proof fn lemma_pushed_back_is_determined<S: Real>(
    before: Seq<S>,
    a: Seq<S>,
    b: Seq<S>,
    d: int,
    weight: S,
    i: int,
)
    requires
        single_valued::<S>(),
        0 <= d < before.len(),
        pushed_back(before, a, d, weight, i),
        pushed_back(before, b, d, weight, i),
    ensures
        a == b,
{
    let p = choose|p: S| is_mul(weight, before[i], p) && is_add(before[d], p, a[d]);
    let q = choose|q: S| is_mul(weight, before[i], q) && is_add(before[d], q, b[d]);
    assert(p == q);
    assert(a[d] == b[d]);
    assert(a =~= b);
}

proof fn lemma_propagated_is_determined<S: Real>(
    node: Node<S>,
    i: int,
    before: Seq<S>,
    a: Seq<S>,
    b: Seq<S>,
)
    requires
        single_valued::<S>(),
        0 <= i < before.len(),
        node.dependencies[0] <= i,
        node.dependencies[1] <= i,
        propagated(node, i, before, a),
        propagated(node, i, before, b),
    ensures
        a == b,
{
    let d0 = node.dependencies[0] as int;
    let d1 = node.dependencies[1] as int;
    let m = choose|m: Seq<S>|
        pushed_back(before, m, d0, node.weights[0], i) && pushed_back(m, a, d1, node.weights[1], i);
    let n = choose|n: Seq<S>|
        pushed_back(before, n, d0, node.weights[0], i) && pushed_back(n, b, d1, node.weights[1], i);
    lemma_pushed_back_is_determined(before, m, n, d0, node.weights[0], i);
    assert(m.len() == before.len());
    lemma_pushed_back_is_determined(m, a, b, d1, node.weights[1], i);
}

proof fn lemma_swept_is_determined<S: Real>(
    nodes: Seq<Node<S>>,
    i: nat,
    before: Seq<S>,
    a: Seq<S>,
    b: Seq<S>,
)
    requires
        single_valued::<S>(),
        causal(nodes),
        i <= nodes.len(),
        before.len() == nodes.len(),
        swept(nodes, i, before, a),
        swept(nodes, i, before, b),
    ensures
        a == b,
    decreases i,
{
    if i > 0 {
        let k = (i - 1) as nat;
        let node = nodes[k as int];
        let m = choose|m: Seq<S>| #[trigger]
            propagated(node, k as int, before, m) && swept(nodes, k, m, a);
        let n = choose|n: Seq<S>| #[trigger]
            propagated(node, k as int, before, n) && swept(nodes, k, n, b);
        lemma_propagated_is_determined(node, k as int, before, m, n);
        lemma_propagated_below(node, k as int, before, m);
        lemma_swept_is_determined(nodes, k, m, a, b);
    }
}

/// The contract of the backward pass leaves nothing open but the arithmetic:
/// where each operation has one outcome, a tape and a starting position have
/// one gradient.
pub proof fn lemma_gradient_is_determined<S: Real>(
    nodes: Seq<Node<S>>,
    at: int,
    a: Seq<S>,
    b: Seq<S>,
)
    requires
        single_valued::<S>(),
        causal(nodes),
        0 <= at < nodes.len(),
        is_gradient(nodes, at, a),
        is_gradient(nodes, at, b),
    ensures
        a == b,
{
    let s = choose|s: Seq<S>| seeded(nodes.len(), at, s) && swept(nodes, nodes.len(), s, a);
    let t = choose|t: Seq<S>| seeded(nodes.len(), at, t) && swept(nodes, nodes.len(), t, b);
    assert(s =~= t) by {
        let y = choose|zero: S|
            is_from(0, zero) && forall|j: int| 0 <= j < nodes.len() && j != at ==> s[j] == zero;
        let z = choose|zero: S|
            is_from(0, zero) && forall|j: int| 0 <= j < nodes.len() && j != at ==> t[j] == zero;
        assert(y == z);
        assert(s[at] == t[at]);
    }
    lemma_swept_is_determined(nodes, nodes.len(), s, a, b);
}

/// In this arithmetic a zero times a zero or a one is a zero, and adding a
/// zero to a zero or to a one gives it back. It holds of IEEE doubles.
pub open spec fn zero_behaves<S: Real>() -> bool {
    &&& forall|w: S, a: S, p: S|
        is_from(0, w) && (is_from(0, a) || is_from(1, a)) && #[trigger] is_mul(w, a, p) ==> is_from(
            0,
            p,
        )
    &&& forall|acc: S, p: S, s: S|
        is_from(0, p) && #[trigger] is_add(acc, p, s) ==> (is_from(0, acc) ==> is_from(0, s)) && (
        is_from(1, acc) ==> is_from(1, s))
}

/// Every weight of `nodes` is a zero.
pub open spec fn weightless<S: Real>(nodes: Seq<Node<S>>) -> bool {
    forall|i: int|
        0 <= i < nodes.len() ==> is_from(0, (#[trigger] nodes[i]).weights[0]) && is_from(
            0,
            nodes[i].weights[1],
        )
}

/// `adjoints` holds a one at position `at` and a zero everywhere else.
pub open spec fn is_seed<S: Real>(n: nat, at: int, adjoints: Seq<S>) -> bool {
    &&& adjoints.len() == n
    &&& forall|i: int|
        0 <= i < n ==> if i == at {
            is_from(1, #[trigger] adjoints[i])
        } else {
            is_from(0, adjoints[i])
        }
}

proof fn lemma_pushed_back_keeps_seed<S: Real>(
    n: nat,
    at: int,
    before: Seq<S>,
    after: Seq<S>,
    d: int,
    weight: S,
    i: int,
)
    requires
        zero_behaves::<S>(),
        is_seed(n, at, before),
        is_from(0, weight),
        0 <= d < n,
        0 <= i < n,
        pushed_back(before, after, d, weight, i),
    ensures
        is_seed(n, at, after),
{
    assert(accumulated(before[d], weight, before[i], after[d]));
    let p = choose|p: S| is_mul(weight, before[i], p) && is_add(before[d], p, after[d]);
    assert(is_from(0, before[i]) || is_from(1, before[i]));
    assert(is_from(0, p));
    assert(is_from(0, before[d]) || is_from(1, before[d]));
    assert forall|j: int| 0 <= j < n implies if j == at {
        is_from(1, #[trigger] after[j])
    } else {
        is_from(0, after[j])
    } by {
        if j != d {
            assert(after[j] == before[j]);
        }
    }
}

proof fn lemma_swept_keeps_seed<S: Real>(
    nodes: Seq<Node<S>>,
    at: int,
    i: nat,
    before: Seq<S>,
    after: Seq<S>,
)
    requires
        zero_behaves::<S>(),
        causal(nodes),
        weightless(nodes),
        i <= nodes.len(),
        is_seed(nodes.len(), at, before),
        swept(nodes, i, before, after),
    ensures
        is_seed(nodes.len(), at, after),
    decreases i,
{
    if i > 0 {
        let j = (i - 1) as nat;
        let node = nodes[j as int];
        let mid = choose|mid: Seq<S>| #[trigger]
            propagated(node, j as int, before, mid) && swept(nodes, j, mid, after);
        let d0 = node.dependencies[0] as int;
        let d1 = node.dependencies[1] as int;
        let half = choose|half: Seq<S>|
            {
                &&& pushed_back(before, half, d0, node.weights[0], j as int)
                &&& pushed_back(half, mid, d1, node.weights[1], j as int)
            };
        lemma_pushed_back_keeps_seed(nodes.len(), at, before, half, d0, node.weights[0], j as int);
        lemma_pushed_back_keeps_seed(nodes.len(), at, half, mid, d1, node.weights[1], j as int);
        lemma_swept_keeps_seed(nodes, at, j, mid, after);
    }
}

/// After a reset of the weights nothing flows back: a backward pass over a
/// tape whose weights are all zero returns the seed, a one at the position
/// it started from and a zero everywhere else.
pub proof fn lemma_gradient_after_reset<S: Real>(nodes: Seq<Node<S>>, at: int, g: Seq<S>)
    requires
        zero_behaves::<S>(),
        causal(nodes),
        weightless(nodes),
        0 <= at < nodes.len(),
        is_gradient(nodes, at, g),
    ensures
        is_seed(nodes.len(), at, g),
{
    let start = choose|start: Seq<S>|
        seeded(nodes.len(), at, start) && swept(nodes, nodes.len(), start, g);
    lemma_swept_keeps_seed(nodes, at, nodes.len(), start, g);
}

/// A reset of the weights leaves every weight a zero.
pub proof fn lemma_zeroed_is_weightless<S: Real>(pre: Seq<Node<S>>, post: Seq<Node<S>>, zero: S)
    requires
        is_from(0, zero),
        zeroed(pre, post, zero),
    ensures
        weightless(post),
        post.len() == pre.len(),
{
}

} // verus!
