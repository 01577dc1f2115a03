use vstd::prelude::*;
use std::collections::HashMap;
use std::collections::HashSet;
use crate::error::ConstellationError;
use crate::error::ConstellationResult;
use crate::ident::NodeId;
use crate::types::{ConnectionType, NodeType};
use crate::params::NodeConfig;

verus! {

broadcast use vstd::std_specs::hash::group_hash_axioms;

/// One end of a connection as a node sees it.
#[derive(Debug, Clone)]
pub struct Connection {
    pub connection_type: ConnectionType,
    pub connected_node: Option<NodeId>,
}

/// A node of the processing graph.
pub struct Node {
    pub id: NodeId,
    pub node_type: NodeType,
    pub config: NodeConfig,
    pub inputs: Vec<Connection>,
    pub outputs: Vec<Connection>,
}

impl Node {
    /// A node with no connections.
    pub fn new(id: NodeId, node_type: NodeType, config: NodeConfig) -> (n: Self)
        ensures
            n.id == id,
            n.node_type == node_type,
            n.config == config,
            n.inputs@.len() == 0,
            n.outputs@.len() == 0,
    {
        Node { id, node_type, config, inputs: Vec::new(), outputs: Vec::new() }
    }
}

/// A directed connection list: (source, target, kind).
pub type Edges = Seq<(NodeId, NodeId, ConnectionType)>;

/// Some connection goes from `a` to `b`.
pub open spec fn edge(conns: Edges, a: NodeId, b: NodeId) -> bool {
    exists|i: int| 0 <= i < conns.len() && (#[trigger] conns[i]).0 == a && conns[i].1 == b
}

/// `p` is a non-empty sequence of nodes each connected to the next.
pub open spec fn is_walk(conns: Edges, p: Seq<NodeId>) -> bool {
    &&& p.len() >= 1
    &&& forall|i: int| #![trigger p[i]] 0 <= i < p.len() - 1 ==> edge(conns, p[i], p[i + 1])
}

/// `b` can be reached from `a` by following connections (every node reaches itself).
pub open spec fn reachable(conns: Edges, a: NodeId, b: NodeId) -> bool {
    exists|p: Seq<NodeId>| #[trigger] is_walk(conns, p) && p[0] == a && p.last() == b
}

/// No connection closes a loop: the target of a connection never reaches its source.
pub open spec fn acyclic(conns: Edges) -> bool {
    forall|a: NodeId, b: NodeId| #[trigger] edge(conns, a, b) ==> !reachable(conns, b, a)
}

/// The nodes that a search starting at `root` can meet.
pub open spec fn universe(conns: Edges, root: NodeId) -> Set<NodeId> {
    conns.map_values(|e: (NodeId, NodeId, ConnectionType)| e.1).to_set().insert(root)
}

/// Every target of a connection belongs to `u`.
pub open spec fn targets_in(conns: Edges, u: Set<NodeId>) -> bool {
    forall|i: int| 0 <= i < conns.len() ==> u.contains(#[trigger] conns[i].1)
}

proof fn lemma_universe(conns: Edges, root: NodeId)
    ensures
        universe(conns, root).finite(),
        universe(conns, root).contains(root),
        targets_in(conns, universe(conns, root)),
{
    let m = conns.map_values(|e: (NodeId, NodeId, ConnectionType)| e.1);
    vstd::seq_lib::seq_to_set_is_finite(m);
    assert forall|i: int| 0 <= i < conns.len() implies universe(conns, root).contains(
        #[trigger] conns[i].1,
    ) by {
        assert(m[i] == conns[i].1);
        assert(m.contains(conns[i].1));
    }
}

/// A single node is a walk.
proof fn lemma_walk_single(conns: Edges, a: NodeId)
    ensures
        is_walk(conns, seq![a]),
        reachable(conns, a, a),
{
    let p = seq![a];
    assert(is_walk(conns, p));
    assert(p[0] == a && p.last() == a);
}

/// A walk extended by a connection from its last node is a walk.
proof fn lemma_walk_push(conns: Edges, p: Seq<NodeId>, b: NodeId)
    requires
        is_walk(conns, p),
        edge(conns, p.last(), b),
    ensures
        is_walk(conns, p.push(b)),
        p.push(b)[0] == p[0],
        p.push(b).last() == b,
{
    let q = p.push(b);
    assert forall|i: int| #![trigger q[i]] 0 <= i < q.len() - 1 implies edge(conns, q[i], q[i + 1]) by {
        if i < p.len() - 1 {
            assert(q[i] == p[i] && q[i + 1] == p[i + 1]);
        } else {
            assert(q[i] == p.last() && q[i + 1] == b);
        }
    }
}

/// A connection `a -> b` prepended to a walk from `b` gives a walk from `a`.
/// A search that pushed `current` and then found a walk from `next`
/// (a successor of `current`) leaves a walk from `current` after `start`.
proof fn lemma_path_extended(conns: Edges, start: Seq<NodeId>, current: NodeId, next: NodeId, fin: Seq<NodeId>, target: NodeId)
    requires
        edge(conns, current, next),
        fin.len() >= start.len() + 1,
        fin.subrange(0, start.len() as int + 1) == start.push(current),
        is_walk(conns, fin.subrange(start.len() as int + 1, fin.len() as int).push(target)),
        fin.subrange(start.len() as int + 1, fin.len() as int).push(target)[0] == next,
    ensures
        fin.subrange(0, start.len() as int) == start,
        is_walk(conns, fin.subrange(start.len() as int, fin.len() as int).push(target)),
        fin.subrange(start.len() as int, fin.len() as int).push(target)[0] == current,
{
    let old_p = start.push(current);
    assert(fin[start.len() as int] == current) by {
        assert(fin.subrange(0, old_p.len() as int)[start.len() as int] == old_p[start.len() as int]);
    }
    let w = fin.subrange(start.len() as int + 1, fin.len() as int).push(target);
    lemma_walk_cons(conns, current, w);
    let tail = fin.subrange(start.len() as int, fin.len() as int).push(target);
    assert(tail =~= seq![current] + w);
    assert(fin.subrange(0, start.len() as int) =~= start) by {
        assert(forall|k: int| 0 <= k < start.len() ==> fin.subrange(0, old_p.len() as int)[k] == fin[k]);
    }
}

proof fn lemma_walk_cons(conns: Edges, a: NodeId, p: Seq<NodeId>)
    requires
        is_walk(conns, p),
        edge(conns, a, p[0]),
    ensures
        is_walk(conns, seq![a] + p),
        (seq![a] + p)[0] == a,
        (seq![a] + p).last() == p.last(),
{
    let q = seq![a] + p;
    assert forall|i: int| #![trigger q[i]] 0 <= i < q.len() - 1 implies edge(conns, q[i], q[i + 1]) by {
        if i == 0 {
            assert(q[0] == a && q[1] == p[0]);
        } else {
            assert(q[i] == p[i - 1] && q[i + 1] == p[i]);
            assert(p[i - 1] == p[i - 1]);
        }
    }
}

/// Reachability is transitive.
proof fn lemma_reach_trans(conns: Edges, a: NodeId, b: NodeId, c: NodeId)
    requires
        reachable(conns, a, b),
        reachable(conns, b, c),
    ensures
        reachable(conns, a, c),
{
    let p = choose|p: Seq<NodeId>| #[trigger] is_walk(conns, p) && p[0] == a && p.last() == b;
    let q = choose|q: Seq<NodeId>| #[trigger] is_walk(conns, q) && q[0] == b && q.last() == c;
    let r = p + q.drop_first();
    assert forall|i: int| #![trigger r[i]] 0 <= i < r.len() - 1 implies edge(conns, r[i], r[i + 1]) by {
        if i < p.len() - 1 {
            assert(r[i] == p[i] && r[i + 1] == p[i + 1]);
        } else {
            let j = i - (p.len() - 1);
            assert(r[i] == q[j]) by {
                if i == p.len() - 1 {
                    assert(r[i] == p.last());
                } else {
                    assert(r[i] == q.drop_first()[i - p.len()]);
                }
            }
            assert(r[i + 1] == q.drop_first()[i + 1 - p.len()]);
            assert(q[j] == q[j]);
        }
    }
    assert(is_walk(conns, r));
    if q.len() == 1 {
        assert(r =~= p);
    } else {
        assert(r.last() == q.last());
    }
}

/// A connection reaches along itself.
proof fn lemma_edge_reach(conns: Edges, a: NodeId, b: NodeId)
    requires
        edge(conns, a, b),
    ensures
        reachable(conns, a, b),
{
    lemma_walk_single(conns, a);
    lemma_walk_push(conns, seq![a], b);
    assert(seq![a].push(b)[0] == a);
}

/// Walks of the graph with one more connection `s -> t` either stay in the old
/// graph or go from their start to `s` and from `t` to their end in it.
proof fn lemma_reach_after_push(conns: Edges, s: NodeId, t: NodeId, ct: ConnectionType, p: Seq<NodeId>)
    requires
        is_walk(conns.push((s, t, ct)), p),
    ensures
        reachable(conns, p[0], p.last()) || (reachable(conns, p[0], s) && reachable(
            conns,
            t,
            p.last(),
        )),
    decreases p.len(),
{
    let nc = conns.push((s, t, ct));
    if p.len() == 1 {
        lemma_walk_single(conns, p[0]);
    } else {
        let q = p.drop_last();
        assert forall|i: int| #![trigger q[i]] 0 <= i < q.len() - 1 implies edge(nc, q[i], q[i + 1]) by {
            assert(q[i] == p[i] && q[i + 1] == p[i + 1]);
        }
        lemma_reach_after_push(conns, s, t, ct, q);
        let c = q.last();
        let b = p.last();
        assert(p[p.len() - 2] == c);
        assert(edge(nc, c, b));
        let k = choose|k: int| 0 <= k < nc.len() && (#[trigger] nc[k]).0 == c && nc[k].1 == b;
        if k < conns.len() {
            assert(conns[k] == nc[k]);
            assert(edge(conns, c, b));
            lemma_edge_reach(conns, c, b);
            if reachable(conns, p[0], c) {
                lemma_reach_trans(conns, p[0], c, b);
            } else {
                lemma_reach_trans(conns, t, c, b);
            }
        } else {
            assert(c == s && b == t);
            lemma_walk_single(conns, t);
            if reachable(conns, p[0], c) {
            } else {
                lemma_reach_trans(conns, p[0], s, s);
            }
        }
    }
}

/// Adding a connection `s -> t` to an acyclic graph in which `t` does not reach
/// `s` leaves the graph acyclic.
pub proof fn lemma_connect_keeps_acyclic(conns: Edges, s: NodeId, t: NodeId, ct: ConnectionType)
    requires
        acyclic(conns),
        !reachable(conns, t, s),
    ensures
        acyclic(conns.push((s, t, ct))),
{
    let nc = conns.push((s, t, ct));
    assert forall|a: NodeId, b: NodeId| #[trigger] edge(nc, a, b) implies !reachable(nc, b, a) by {
        if reachable(nc, b, a) {
            let p = choose|p: Seq<NodeId>| #[trigger] is_walk(nc, p) && p[0] == b && p.last() == a;
            lemma_reach_after_push(conns, s, t, ct, p);
            let k = choose|k: int| 0 <= k < nc.len() && (#[trigger] nc[k]).0 == a && nc[k].1 == b;
            if k < conns.len() {
                assert(conns[k] == nc[k]);
                assert(edge(conns, a, b));
                if reachable(conns, b, a) {
                } else {
                    lemma_edge_reach(conns, a, b);
                    lemma_reach_trans(conns, t, a, b);
                    lemma_reach_trans(conns, t, b, s);
                }
            } else {
                assert(a == s && b == t);
            }
        }
    }
}

/// If `from` is in a set closed under connections, everything `from` reaches is in it.
proof fn lemma_closed_reach(conns: Edges, v: Set<NodeId>, p: Seq<NodeId>)
    requires
        is_walk(conns, p),
        v.contains(p[0]),
        forall|a: NodeId, b: NodeId| v.contains(a) && #[trigger] edge(conns, a, b) ==> v.contains(b),
    ensures
        v.contains(p.last()),
    decreases p.len(),
{
    if p.len() > 1 {
        let q = p.drop_last();
        assert forall|i: int| #![trigger q[i]] 0 <= i < q.len() - 1 implies edge(conns, q[i], q[i + 1]) by {
            assert(q[i] == p[i] && q[i + 1] == p[i + 1]);
        }
        lemma_closed_reach(conns, v, q);
        assert(p[p.len() - 2] == q.last());
        assert(edge(conns, p[p.len() - 2], p[p.len() - 1]));
    }
}


/// Every node of `v` that is not on the search stack `stack` has all its
/// successors in `v`.
pub open spec fn closed_off_stack(conns: Edges, v: Set<NodeId>, stack: Seq<NodeId>) -> bool {
    forall|a: NodeId, b: NodeId| v.contains(a) && !stack.contains(a) && #[trigger] edge(conns, a, b) ==> v.contains(b)
}

/// The node graph: nodes by identifier and the list of connections between them.
pub struct NodeGraph {
    nodes: HashMap<NodeId, Node>,
    connections: Vec<(NodeId, NodeId, ConnectionType)>,
}

impl NodeGraph {
    /// The nodes, by identifier.
    pub closed spec fn spec_nodes(&self) -> Map<NodeId, Node> {
        self.nodes@
    }

    /// The connections, in the order they were made.
    pub closed spec fn spec_connections(&self) -> Edges {
        self.connections@
    }

    /// An empty graph.
    pub fn new() -> (g: Self)
        ensures
            g.spec_nodes() == Map::<NodeId, Node>::empty(),
            g.spec_connections() == Seq::<(NodeId, NodeId, ConnectionType)>::empty(),
            acyclic(g.spec_connections()),
    {
        NodeGraph { nodes: HashMap::new(), connections: Vec::new() }
    }

    /// Add a node, replacing any node with the same identifier.
    pub fn add_node(&mut self, node: Node)
        ensures
            final(self).spec_nodes() == old(self).spec_nodes().insert(node.id, node),
            final(self).spec_connections() == old(self).spec_connections(),
    {
        let id = node.id;
        self.nodes.insert(id, node);
    }

    /// The node with the given identifier, if any.
    pub fn get_node(&self, id: &NodeId) -> (r: Option<&Node>)
        ensures
            match r {
                Some(n) => self.spec_nodes().contains_key(*id) && *n == self.spec_nodes()[*id],
                None => !self.spec_nodes().contains_key(*id),
            },
    {
        self.nodes.get(id)
    }

    /// Connect `source_id` to `target_id`: both nodes must exist and the new
    /// connection must not close a loop (then the error carries the loop:
    /// `target -> ... -> source -> target`).
    pub fn connect_nodes(
        &mut self,
        source_id: NodeId,
        target_id: NodeId,
        connection_type: ConnectionType,
    ) -> (r: ConstellationResult<()>)
        ensures
            !old(self).spec_nodes().contains_key(source_id) ==> (r matches Err(
                ConstellationError::NodeNotFound { node_id },
            ) && node_id == source_id),
            old(self).spec_nodes().contains_key(source_id) && !old(self).spec_nodes().contains_key(
                target_id,
            ) ==> (r matches Err(ConstellationError::NodeNotFound { node_id }) && node_id
                == target_id),
            old(self).spec_nodes().contains_key(source_id) && old(self).spec_nodes().contains_key(
                target_id,
            ) && reachable(old(self).spec_connections(), target_id, source_id) ==> (r matches Err(
                ConstellationError::ConnectionCycleDetected { path },
            ) && is_cycle_report(old(self).spec_connections(), source_id, target_id, path@)),
            old(self).spec_nodes().contains_key(source_id) && old(self).spec_nodes().contains_key(
                target_id,
            ) && !reachable(old(self).spec_connections(), target_id, source_id) ==> r is Ok
                && final(self).spec_connections() == old(self).spec_connections().push(
                (source_id, target_id, connection_type),
            ),
            r is Err ==> final(self).spec_connections() == old(self).spec_connections(),
            final(self).spec_nodes() == old(self).spec_nodes(),
            acyclic(old(self).spec_connections()) ==> acyclic(final(self).spec_connections()),
    {
        if !self.nodes.contains_key(&source_id) {
            return Err(ConstellationError::NodeNotFound { node_id: source_id });
        }
        if !self.nodes.contains_key(&target_id) {
            return Err(ConstellationError::NodeNotFound { node_id: target_id });
        }
        if self.would_create_cycle(source_id, target_id) {
            let path = self.find_cycle_path(source_id, target_id);
            return Err(ConstellationError::ConnectionCycleDetected { path });
        }
        proof {
            if acyclic(self.connections@) {
                lemma_connect_keeps_acyclic(self.connections@, source_id, target_id, connection_type);
            }
        }
        self.connections.push((source_id, target_id, connection_type));
        Ok(())
    }

    /// Whether connecting `source_id` to `target_id` would close a loop.
    fn would_create_cycle(&self, source_id: NodeId, target_id: NodeId) -> (b: bool)
        ensures
            b == reachable(self.connections@, target_id, source_id),
    {
        self.has_path(target_id, source_id)
    }

    /// Whether `to` can be reached from `from` (depth-first search).
    fn has_path(&self, from: NodeId, to: NodeId) -> (b: bool)
        ensures
            b == reachable(self.connections@, from, to),
    {
        let ghost conns = self.connections@;
        let ghost u = universe(conns, from);
        proof {
            lemma_universe(conns, from);
            lemma_walk_single(conns, from);
        }
        let mut visited: HashSet<NodeId> = HashSet::new();
        let mut stack: Vec<NodeId> = Vec::new();
        stack.push(from);
        assert(stack@[0] == from);
        let n = self.connections.len();
        loop
            invariant
                n == self.connections@.len(),
                conns == self.connections@,
                u == universe(conns, from),
                u.finite(),
                targets_in(conns, u),
                visited@.subset_of(u),
                forall|k: int| 0 <= k < stack@.len() ==> u.contains(#[trigger] stack@[k]),
                forall|k: int| 0 <= k < stack@.len() ==> reachable(conns, from, #[trigger] stack@[k]),
                !visited@.contains(to),
                visited@.contains(from) || stack@.contains(from),
                forall|a: NodeId, b: NodeId|
                    visited@.contains(a) && #[trigger] edge(conns, a, b) ==> visited@.contains(b)
                        || stack@.contains(b),
            decreases u.len() - visited@.len(), stack@.len(),
        {
            proof {
                vstd::set_lib::lemma_len_subset(visited@, u);
            }
            if stack.len() == 0 {
                proof {
                    if reachable(conns, from, to) {
                        let p = choose|p: Seq<NodeId>| #[trigger] is_walk(conns, p) && p[0] == from
                            && p.last() == to;
                        lemma_closed_reach(conns, visited@, p);
                    }
                }
                return false;
            }
            let ghost before = stack@;
            let current = stack.pop().unwrap();
            proof {
                assert(before == stack@.push(current));
                assert(before[before.len() - 1] == current);
                assert forall|x: NodeId| before.contains(x) && x != current implies stack@.contains(x) by {
                    let k = choose|k: int| 0 <= k < before.len() && before[k] == x;
                    assert(stack@[k] == x);
                }
            }
            if current == to {
                return true;
            }
            if visited.contains(&current) {
                proof {
                    vstd::set_lib::lemma_len_subset(visited@, u);
                }
                continue;
            }
            let ghost visited_before = visited@;
            visited.insert(current);
            proof {
                assert(!visited_before.contains(current));
                vstd::set_lib::lemma_len_subset(visited_before, u);
            }
            let ghost base = stack@;
            let mut i: usize = 0;
            while i < n
                invariant
                    n == self.connections@.len(),
                    conns == self.connections@,
                    u == universe(conns, from),
                    targets_in(conns, u),
                    reachable(conns, from, current),
                    i <= n,
                    stack@.len() >= base.len(),
                    stack@.subrange(0, base.len() as int) == base,
                    forall|k: int| 0 <= k < stack@.len() ==> u.contains(#[trigger] stack@[k]),
                    forall|k: int| 0 <= k < stack@.len() ==> reachable(conns, from, #[trigger] stack@[k]),
                    forall|j: int| 0 <= j < i && (#[trigger] conns[j]).0 == current ==> stack@.contains(conns[j].1),
                decreases n - i,
            {
                let e = self.connections[i];
                if e.0 == current {
                    proof {
                        assert(edge(conns, current, e.1)) by {
                            assert(conns[i as int] == e);
                        }
                        lemma_edge_reach(conns, current, e.1);
                        lemma_reach_trans(conns, from, current, e.1);
                        assert(u.contains(conns[i as int].1));
                    }
                    let ghost prev = stack@;
                    stack.push(e.1);
                    proof {
                        assert forall|j: int| 0 <= j < i + 1 && (#[trigger] conns[j]).0 == current implies stack@.contains(conns[j].1) by {
                            if j < i {
                                let k = choose|k: int| 0 <= k < prev.len() && prev[k] == conns[j].1;
                                assert(stack@[k] == conns[j].1);
                            } else {
                                assert(stack@[stack@.len() - 1] == conns[j].1);
                            }
                        }
                        assert(stack@.subrange(0, base.len() as int) =~= base);
                    }
                }
                i = i + 1;
            }
            proof {
                assert forall|x: NodeId| base.contains(x) implies stack@.contains(x) by {
                    let k = choose|k: int| 0 <= k < base.len() && base[k] == x;
                    assert(stack@.subrange(0, base.len() as int)[k] == x);
                    assert(stack@[k] == x);
                }
                assert forall|a: NodeId, b: NodeId| visited@.contains(a) && #[trigger] edge(conns, a, b) implies visited@.contains(b) || stack@.contains(b) by {
                    if a == current {
                        let j = choose|j: int| 0 <= j < conns.len() && (#[trigger] conns[j]).0 == a && conns[j].1 == b;
                        assert(stack@.contains(conns[j].1));
                    } else {
                        assert(visited_before.contains(a));
                        if !visited_before.contains(b) && !before.contains(b) {
                        } else if before.contains(b) && b != current && !visited_before.contains(b) {
                            assert(base.contains(b));
                        }
                    }
                }
                if !visited_before.contains(from) && from != current {
                    assert(before.contains(from));
                    assert(base.contains(from));
                }
                assert(u.contains(current));
                assert(visited@ == visited_before.insert(current));
                vstd::set_lib::lemma_len_subset(visited@, u);
                assert(visited@.len() == visited_before.len() + 1);
            }
        }
    }

    /// The loop that connecting `source_id` to `target_id` would close:
    /// a path from `target_id` to `source_id`, then `source_id`, `target_id`.
    fn find_cycle_path(&self, source_id: NodeId, target_id: NodeId) -> (path: Vec<NodeId>)
        requires
            reachable(self.connections@, target_id, source_id),
        ensures
            is_cycle_report(self.connections@, source_id, target_id, path@),
    {
        let mut path: Vec<NodeId> = Vec::new();
        let mut visited: HashSet<NodeId> = HashSet::new();
        let ghost u = universe(self.connections@, target_id);
        proof {
            lemma_universe(self.connections@, target_id);
        }
        let found = self.find_path_recursive(target_id, source_id, &mut path, &mut visited, Ghost(u));
        proof {
            if !found {
                let conns = self.connections@;
                let p = choose|p: Seq<NodeId>| #[trigger] is_walk(conns, p) && p[0] == target_id && p.last() == source_id;
                assert forall|a: NodeId, b: NodeId| visited@.contains(a) && #[trigger] edge(conns, a, b) implies visited@.contains(b) by {
                    assert(!Seq::<NodeId>::empty().contains(a));
                }
                lemma_closed_reach(conns, visited@, p);
            }
        }
        let ghost walk = path@;
        path.push(source_id);
        path.push(target_id);
        proof {
            assert(path@.drop_last() =~= walk.push(source_id));
            assert(walk.subrange(0, 0) =~= Seq::<NodeId>::empty());
            assert(walk.subrange(0, walk.len() as int) =~= walk);
            if found {
                assert(path@[0] == walk.push(source_id)[0]);
            }
        }
        path
    }

    /// Depth-first search for `target` from `current`. On success the nodes from
    /// `current` up to (not including) `target` are appended to `path`; on
    /// failure `path` is left as it was. Nodes are marked in `visited` as they
    /// are entered.
    fn find_path_recursive(
        &self,
        current: NodeId,
        target: NodeId,
        path: &mut Vec<NodeId>,
        visited: &mut HashSet<NodeId>,
        Ghost(u): Ghost<Set<NodeId>>,
    ) -> (found: bool)
        requires
            u.finite(),
            u.contains(current),
            targets_in(self.connections@, u),
            old(visited)@.subset_of(u),
            closed_off_stack(self.connections@, old(visited)@, old(path)@),
            !old(visited)@.contains(target),
        ensures
            old(visited)@.subset_of(final(visited)@),
            final(visited)@.subset_of(u),
            !found ==> closed_off_stack(self.connections@, final(visited)@, old(path)@),
            !found ==> final(visited)@.contains(current),
            !found ==> !final(visited)@.contains(target),
            found ==> final(path)@.len() >= old(path)@.len()
                && final(path)@.subrange(0, old(path)@.len() as int) == old(path)@
                && is_walk(
                self.connections@,
                final(path)@.subrange(old(path)@.len() as int, final(path)@.len() as int).push(
                    target,
                ),
            ) && final(path)@.subrange(old(path)@.len() as int, final(path)@.len() as int).push(
                target,
            )[0] == current,
            !found ==> final(path)@ == old(path)@,
            current == target ==> found,
        decreases u.len() - old(visited)@.len(),
    {
        let ghost conns = self.connections@;
        if current == target {
            proof {
                assert(path@.subrange(path@.len() as int, path@.len() as int).push(target) =~= seq![target]);
                lemma_walk_single(conns, target);
                assert(path@.subrange(0, path@.len() as int) =~= path@);
            }
            return true;
        }
        if visited.contains(&current) {
            return false;
        }
        let ghost visited_before = visited@;
        proof {
            vstd::set_lib::lemma_len_subset(visited_before, u);
        }
        visited.insert(current);
        proof {
            vstd::set_lib::lemma_len_subset(visited@, u);
        }
        let ghost start = path@;
        path.push(current);
        proof {
            assert forall|a: NodeId, b: NodeId| visited@.contains(a) && !path@.contains(a) && #[trigger] edge(conns, a, b) implies visited@.contains(b) by {
                assert(a != current) by {
                    assert(path@[path@.len() - 1] == current);
                }
                assert(visited_before.contains(a));
                if !start.contains(a) {
                } else {
                    let k = choose|k: int| 0 <= k < start.len() && start[k] == a;
                    assert(path@[k] == a);
                }
            }
        }
        let n = self.connections.len();
        let mut i: usize = 0;
        while i < n
            invariant
                n == self.connections@.len(),
                conns == self.connections@,
                u.finite(),
                targets_in(conns, u),
                i <= n,
                path@ == start.push(current),
                visited_before.subset_of(visited@),
                visited_before.len() < visited@.len(),
                visited@.subset_of(u),
                visited_before.finite(),
                old(visited)@ == visited_before,
                old(path)@ == start,
                visited@.contains(current),
                !visited@.contains(target),
                current != target,
                closed_off_stack(conns, visited@, start.push(current)),
                forall|j: int| 0 <= j < i && (#[trigger] conns[j]).0 == current ==> visited@.contains(conns[j].1),
            decreases n - i,
        {
            let e = self.connections[i];
            if e.0 == current {
                proof {
                    assert(u.contains(conns[i as int].1));
                    vstd::set_lib::lemma_len_subset(visited@, u);
                }
                let ghost before_call = visited@;
                let found = self.find_path_recursive(e.1, target, path, visited, Ghost(u));
                proof {
                    vstd::set_lib::lemma_len_subset(visited@, u);
                    vstd::set_lib::lemma_len_subset(before_call, visited@);
                    if !found {
                        assert forall|j: int| 0 <= j < i + 1 && (#[trigger] conns[j]).0 == current implies visited@.contains(conns[j].1) by {
                            if j < i {
                                assert(before_call.contains(conns[j].1));
                            } else {
                                assert(conns[j] == e);
                            }
                        }
                    }
                }
                if found {
                    proof {
                        assert(edge(conns, current, e.1)) by {
                            assert(conns[i as int] == e);
                        }
                        lemma_path_extended(conns, start, current, e.1, path@, target);
                    }
                    return true;
                }
            }
            i = i + 1;
        }
        path.pop();
        proof {
            assert(path@ =~= start);
            assert forall|a: NodeId, b: NodeId| visited@.contains(a) && !start.contains(a) && #[trigger] edge(conns, a, b) implies visited@.contains(b) by {
                if a == current {
                    let j = choose|j: int| 0 <= j < conns.len() && (#[trigger] conns[j]).0 == a && conns[j].1 == b;
                    assert(visited@.contains(conns[j].1));
                } else {
                    assert(!start.push(current).contains(a)) by {
                        if start.push(current).contains(a) {
                            let k = choose|k: int| 0 <= k < start.push(current).len() && start.push(current)[k] == a;
                            if k < start.len() {
                                assert(start[k] == a);
                            }
                        }
                    }
                }
            }
        }
        false
    }
}

/// `path` reports the loop that the connection `source -> target` would
/// close: a walk from `target` to `source` in the current graph, then `target`.
pub open spec fn is_cycle_report(conns: Edges, source: NodeId, target: NodeId, path: Seq<NodeId>) -> bool {
    &&& path.len() >= 2
    &&& path[path.len() - 2] == source
    &&& path.last() == target
    &&& is_walk(conns, path.drop_last())
    &&& path[0] == target
}

} // verus!
