//! All-or-nothing gathering of per-node results.
//!
//! Every node's result is looked at before the outcome is decided: one failure
//! fails the whole, and no failure is dropped on the way.

use vstd::prelude::*;

verus! {

/// The failure of one node, named by its position in registry order.
#[derive(Debug, PartialEq, Eq)]
pub struct NodeFailure<E> {
    pub node: usize,
    pub error: E,
}

/// Whether every node succeeded.
pub open spec fn all_succeeded<T, E>(results: Seq<Result<T, E>>) -> bool {
    forall|i: int| 0 <= i < results.len() ==> results[i] is Ok
}

/// What the nodes returned, in registry order; meaningful where all succeeded.
pub open spec fn successes<T, E>(results: Seq<Result<T, E>>) -> Seq<T> {
    Seq::new(results.len(), |i: int| results[i]->Ok_0)
}

/// The failures among the results, each with its node, in registry order.
pub open spec fn failures<T, E>(results: Seq<Result<T, E>>) -> Seq<NodeFailure<E>>
    decreases results.len(),
{
    if results.len() == 0 {
        Seq::empty()
    } else {
        let earlier = failures(results.drop_last());
        match results.last() {
            Ok(_) => earlier,
            Err(error) => earlier.push(NodeFailure { node: (results.len() - 1) as usize, error }),
        }
    }
}

/// The nodes that a list of failures names, in the order of the list.
pub open spec fn nodes_of<E>(failed: Seq<NodeFailure<E>>) -> Seq<usize> {
    Seq::new(failed.len(), |k: int| failed[k].node)
}

/// Gathers the settled results of all nodes: the values of all of them, in
/// registry order, where every node succeeded; otherwise every failure, in
/// registry order, and no value at all.
pub fn gather<T, E>(results: Vec<Result<T, E>>) -> (gathered: Result<Vec<T>, Vec<NodeFailure<E>>>)
    ensures
        all_succeeded(results@) <==> gathered is Ok,
        match gathered {
            Ok(values) => values@ == successes(results@),
            Err(failed) => failed@ == failures(results@),
        },
{
    let ghost all = results@;
    assert(all.len() <= usize::MAX) by {
        assert(all.len() == results.len());
    }
    let mut values: Vec<T> = Vec::new();
    let mut failed: Vec<NodeFailure<E>> = Vec::new();
    let mut node: usize = 0;
    for result in it: results
        invariant
            node == it.index(),
            it.seq() == all,
            all.len() <= usize::MAX,
            failed@ == failures(all.take(node as int)),
            failed@.len() == 0 ==> values@ == successes(all.take(node as int)),
            failed@.len() == 0 <==> all_succeeded(all.take(node as int)),
    {
        assert(all.take(node + 1).drop_last() == all.take(node as int));
        match result {
            Ok(value) => {
                values.push(value);
            },
            Err(error) => {
                failed.push(NodeFailure { node, error });
            },
        }
        node = node + 1;
    }
    assert(all.take(node as int) == all);
    if failed.len() == 0 {
        Ok(values)
    } else {
        Err(failed)
    }
}

/// The nodes that the failures name, in the order of the list.
pub fn failed_nodes<E>(failed: &Vec<NodeFailure<E>>) -> (nodes: Vec<usize>)
    ensures
        nodes@ == nodes_of(failed@),
{
    let mut nodes: Vec<usize> = Vec::new();
    let mut k: usize = 0;
    while k < failed.len()
        invariant
            k <= failed.len(),
            nodes@ == nodes_of(failed@.take(k as int)),
        decreases failed.len() - k,
    {
        nodes.push(failed[k].node);
        k = k + 1;
    }
    assert(failed@.take(k as int) == failed@);
    nodes
}

/// Where every node succeeded, `successes` holds one value per node, in
/// registry order, and each is the value of its own node.
pub proof fn successes_are_in_order<T, E>(results: Seq<Result<T, E>>)
    requires
        all_succeeded(results),
    ensures
        successes(results).len() == results.len(),
        forall|i: int| 0 <= i < results.len() ==> results[i] == Ok::<T, E>(successes(results)[i]),
{
}

/// `failures` lists exactly the nodes that failed: each entry names a node
/// that failed and carries that node's own error, the entries stand in registry
/// order, every node that failed has its entry, and the list is empty exactly
/// where every node succeeded.
pub proof fn failures_are_exact<T, E>(results: Seq<Result<T, E>>)
    requires
        results.len() <= usize::MAX,
    ensures
        forall|k: int|
            0 <= k < failures(results).len() ==> {
                let failure = #[trigger] failures(results)[k];
                &&& failure.node < results.len()
                &&& results[failure.node as int] == Err::<T, E>(failure.error)
            },
        forall|k: int, l: int|
            0 <= k < l < failures(results).len() ==> {
                (#[trigger] failures(results)[k]).node < (#[trigger] failures(results)[l]).node
            },
        forall|i: int|
            0 <= i < results.len() && #[trigger] results[i] is Err ==> {
                exists|k: int|
                    0 <= k < failures(results).len() && (#[trigger] failures(results)[k]).node == i
            },
        failures(results).len() == 0 <==> all_succeeded(results),
    decreases results.len(),
{
    if results.len() > 0 {
        let earlier = results.drop_last();
        let last = results.len() - 1;
        failures_are_exact(earlier);
        assert forall|i: int| 0 <= i < results.len() && #[trigger] results[i] is Err implies {
            exists|k: int|
                0 <= k < failures(results).len() && (#[trigger] failures(results)[k]).node == i
        } by {
            if i < last {
                assert(earlier[i] is Err);
                let k = choose|k: int|
                    0 <= k < failures(earlier).len() && (#[trigger] failures(earlier)[k]).node == i;
                assert(failures(results)[k].node == i);
            } else {
                assert(failures(results)[failures(earlier).len() as int].node == i);
            }
        }
        if all_succeeded(results) {
            assert(all_succeeded(earlier)) by {
                assert forall|i: int| 0 <= i < earlier.len() implies earlier[i] is Ok by {
                    assert(results[i] is Ok);
                }
            }
        }
        if failures(results).len() == 0 {
            assert(all_succeeded(results)) by {
                assert forall|i: int| 0 <= i < results.len() implies results[i] is Ok by {
                    if i < last {
                        assert(earlier[i] is Ok);
                    }
                }
            }
        }
    }
}

/// The first entry of `failures` is the first failure in registry order: no
/// node before it failed.
pub proof fn first_failure_is_earliest<T, E>(results: Seq<Result<T, E>>)
    requires
        results.len() <= usize::MAX,
        !all_succeeded(results),
    ensures
        failures(results).len() > 0,
        failures(results)[0].node < results.len(),
        results[failures(results)[0].node as int] == Err::<T, E>(failures(results)[0].error),
        forall|i: int| 0 <= i < failures(results)[0].node ==> #[trigger] results[i] is Ok,
{
    failures_are_exact(results);
    assert forall|i: int| 0 <= i < failures(results)[0].node implies #[trigger] results[i] is Ok by {
        if results[i] is Err {
            let k = choose|k: int|
                0 <= k < failures(results).len() && (#[trigger] failures(results)[k]).node == i;
            assert(failures(results)[0].node <= failures(results)[k].node);
        }
    }
}

/// Where exactly one node failed, `failures` holds that node with its error
/// and nothing else.
pub proof fn single_failure_is_named<T, E>(results: Seq<Result<T, E>>, node: int)
    requires
        results.len() <= usize::MAX,
        0 <= node < results.len(),
        results[node] is Err,
        forall|i: int| 0 <= i < results.len() && i != node ==> results[i] is Ok,
    ensures
        !all_succeeded(results),
        failures(results) == seq![NodeFailure { node: node as usize, error: results[node]->Err_0 }],
{
    failures_are_exact(results);
    let failed = failures(results);
    assert forall|k: int| 0 <= k < failed.len() implies (#[trigger] failed[k]).node == node by {
        assert(results[failed[k].node as int] is Err);
    }
    if failed.len() > 1 {
        assert(failed[0].node < failed[1].node);
    }
}

} // verus!
