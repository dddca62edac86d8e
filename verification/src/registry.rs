//! The node registry: the fixed, ordered list of executor endpoints of one job.

use vstd::prelude::*;

verus! {

/// The executor endpoints of one job. The order is that in which results are
/// reported, and it never changes: the registry has no operation that alters it.
#[derive(Debug, PartialEq, Eq)]
pub struct NodeRegistry {
    addresses: Vec<String>,
}

impl View for NodeRegistry {
    type V = Seq<Seq<char>>;

    closed spec fn view(&self) -> Seq<Seq<char>> {
        self.addresses.deep_view()
    }
}

impl NodeRegistry {
    /// The registry of the given endpoints, in the order given.
    pub fn new(addresses: Vec<String>) -> (registry: NodeRegistry)
        ensures
            registry@ == addresses.deep_view(),
    {
        NodeRegistry { addresses }
    }

    /// The number of nodes.
    pub fn len(&self) -> (count: usize)
        ensures
            count == self@.len(),
    {
        self.addresses.len()
    }

    /// The endpoints, in registry order.
    pub fn addresses(&self) -> (addresses: &Vec<String>)
        ensures
            addresses.deep_view() == self@,
    {
        &self.addresses
    }

    /// The endpoint of the node at the given position, if there is such a node.
    pub fn address(&self, node: usize) -> (address: Option<&String>)
        ensures
            node < self@.len() ==> address is Some && address->Some_0@ == self@[node as int],
            node >= self@.len() ==> address is None,
    {
        if node < self.addresses.len() {
            Some(&self.addresses[node])
        } else {
            None
        }
    }
}

/// A list of names with the same contents, in the same order.
pub(crate) fn copy_names(names: &Vec<String>) -> (copy: Vec<String>)
    ensures
        copy.deep_view() == names.deep_view(),
{
    let mut copy: Vec<String> = Vec::new();
    let mut i: usize = 0;
    while i < names.len()
        invariant
            i <= names.len(),
            copy@.len() == i,
            forall|k: int| 0 <= k < i ==> copy@[k]@ == names@[k]@,
        decreases names.len() - i,
    {
        copy.push(names[i].clone());
        i = i + 1;
    }
    copy
}

} // verus!
