//! Cluster membership as the scheduler sees it: an ordered list of uniquely
//! named nodes, exactly one of which is the local (coordinating) node.
use vstd::prelude::*;

verus! {

/// A member of the cluster.
#[derive(Debug, PartialEq, Eq)]
pub struct Node {
    pub name: String,
    pub address: String,
    pub local: bool,
}

impl Node {
    pub fn create(name: String, address: String, local: bool) -> (r: Node)
        ensures
            r.name@ == name@,
            r.address@ == address@,
            r.local == local,
    {
        Node { name, address, local }
    }

    /// A copy of this node.
    pub fn duplicate(&self) -> (r: Node)
        ensures
            r.name@ == self.name@,
            r.address@ == self.address@,
            r.local == self.local,
    {
        Node { name: self.name.clone(), address: self.address.clone(), local: self.local }
    }
}

/// The nodes of a cluster, in registration order.
#[derive(Debug)]
pub struct Cluster {
    pub nodes: Vec<Node>,
}

impl Cluster {
    /// The node names, in registration order.
    pub open spec fn names(&self) -> Seq<Seq<char>> {
        self.nodes@.map_values(|n: Node| n.name@)
    }

    /// No two nodes share a name.
    pub open spec fn names_unique(&self) -> bool {
        forall|i: int, j: int|
            0 <= i < self.nodes.len() && 0 <= j < self.nodes.len() && i != j
                ==> #[trigger] self.nodes[i].name@ != #[trigger] self.nodes[j].name@
    }

    /// Some node is local.
    pub open spec fn has_local(&self) -> bool {
        exists|i: int| 0 <= i < self.nodes.len() && #[trigger] self.nodes[i].local
    }

    /// At most one node is local.
    pub open spec fn local_unique(&self) -> bool {
        forall|i: int, j: int|
            0 <= i < self.nodes.len() && 0 <= j < self.nodes.len() && #[trigger] self.nodes[i].local
                && #[trigger] self.nodes[j].local ==> i == j
    }

    /// Node names are unique and exactly one node is local.
    pub open spec fn wf(&self) -> bool {
        &&& self.names_unique()
        &&& self.has_local()
        &&& self.local_unique()
    }

    /// Position of the local node.
    pub open spec fn local_index(&self) -> int {
        choose|i: int| 0 <= i < self.nodes.len() && #[trigger] self.nodes[i].local
    }

    /// Name of the local node.
    pub open spec fn local_name(&self) -> Seq<char> {
        self.nodes[self.local_index()].name@
    }

    pub fn create() -> (r: Cluster)
        ensures
            r.nodes.len() == 0,
    {
        Cluster { nodes: Vec::new() }
    }

    /// Registers `node` after the nodes already there, unless a node of the
    /// same name is registered or `node` is local and a local node is
    /// registered; returns whether it was added.
    pub fn add_node(&mut self, node: Node) -> (r: bool)
        ensures
            r == (!old(self).names().contains(node.name@) && !(node.local && old(self).has_local())),
            r ==> final(self).nodes@ == old(self).nodes@.push(node),
            !r ==> final(self).nodes@ == old(self).nodes@,
            old(self).names_unique() ==> final(self).names_unique(),
            old(self).local_unique() ==> final(self).local_unique(),
            old(self).has_local() || (r && node.local) ==> final(self).has_local(),
    {
        let mut i: usize = 0;
        while i < self.nodes.len()
            invariant
                i <= self.nodes.len(),
                forall|j: int| 0 <= j < i ==> self.nodes[j].name@ != node.name@,
                node.local ==> forall|j: int| 0 <= j < i ==> !(#[trigger] self.nodes[j].local),
            decreases self.nodes.len() - i,
        {
            if self.nodes[i].name == node.name {
                assert(self.names()[i as int] == node.name@);
                return false;
            }
            if node.local && self.nodes[i].local {
                return false;
            }
            i = i + 1;
        }
        assert(!self.names().contains(node.name@)) by {
            if self.names().contains(node.name@) {
                let j = choose|j: int| 0 <= j < self.names().len() && self.names()[j] == node.name@;
                assert(self.nodes[j].name@ == node.name@);
            }
        }
        let ghost before = self.nodes@;
        self.nodes.push(node);
        proof {
            assert forall|a: int, b: int|
                0 <= a < self.nodes.len() && 0 <= b < self.nodes.len() && a != b && old(self).names_unique()
                    implies #[trigger] self.nodes[a].name@ != #[trigger] self.nodes[b].name@ by {
                if a < before.len() && b < before.len() {
                    assert(self.nodes[a] == before[a] && self.nodes[b] == before[b]);
                }
            }
            if old(self).has_local() {
                let k = choose|k: int| 0 <= k < before.len() && #[trigger] before[k].local;
                assert(self.nodes[k].local);
            }
            if node.local {
                assert(self.nodes[before.len() as int].local);
            }
        }
        true
    }

    /// Finds the local node.
    pub fn local_position(&self) -> (r: usize)
        requires
            self.wf(),
        ensures
            r == self.local_index(),
            r < self.nodes.len(),
    {
        let mut i: usize = 0;
        while i < self.nodes.len()
            invariant
                i <= self.nodes.len(),
                self.wf(),
                forall|j: int| 0 <= j < i ==> !(#[trigger] self.nodes[j].local),
            decreases self.nodes.len() - i,
        {
            if self.nodes[i].local {
                return i;
            }
            i = i + 1;
        }
        proof {
            let k = choose|k: int| 0 <= k < self.nodes.len() && #[trigger] self.nodes[k].local;
            assert(!self.nodes[k].local);
        }
        0
    }
}

/// What the scheduler reads of the session that issued a query.
#[derive(Debug)]
pub struct QueryContext {
    pub query_id: String,
    pub cluster: Cluster,
}

impl QueryContext {
    pub fn create(query_id: String, cluster: Cluster) -> (r: QueryContext)
        ensures
            r.query_id@ == query_id@,
            r.cluster == cluster,
    {
        QueryContext { query_id, cluster }
    }
}

} // verus!
