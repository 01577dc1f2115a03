use vstd::prelude::*;
use crate::ident::NodeId;
use crate::params::{NodeConfig, ParamValue};
use crate::types::{ConnectionType, NodeType};

verus! {

/// A node as the development server keeps it.
#[derive(Debug)]
pub struct DevNode {
    pub id: NodeId,
    pub node_type: NodeType,
    pub config: NodeConfig,
    pub created_at: u64,
}

/// A connection between two nodes of the development server.
#[derive(Debug, Clone, Copy, PartialEq, Eq, Structural)]
pub struct DevConnection {
    pub source_id: NodeId,
    pub target_id: NodeId,
    pub connection_type: ConnectionType,
}

/// What the development server announces to its listeners after a change.
#[derive(Debug)]
pub enum DevEngineEvent {
    NodeAdded { id: NodeId, node_type: NodeType },
    NodeRemoved { id: NodeId },
    NodeConnected { source_id: NodeId, target_id: NodeId, connection_type: ConnectionType },
    NodeDisconnected { source_id: NodeId, target_id: NodeId },
    ParameterChanged { node_id: NodeId, parameter: String, value: ParamValue },
    FrameProcessed { timestamp: u64 },
    Error { message: String },
    EngineStarted,
    EngineStopped,
}

/// Why the development server refused a request.
#[derive(Debug, Clone, Copy, PartialEq, Eq, Structural)]
pub enum DevError {
    /// A connection names a node that does not exist.
    EndpointMissing,
    /// A parameter change names a node that does not exist.
    NodeMissing,
}

impl DevError {
    /// The error's message.
    pub open spec fn spec_message(&self) -> Seq<char> {
        match self {
            DevError::EndpointMissing => "One or both nodes do not exist"@,
            DevError::NodeMissing => "Node does not exist"@,
        }
    }

    /// The error's message.
    pub fn message(&self) -> (s: String)
        ensures
            s@ == self.spec_message(),
    {
        match self {
            DevError::EndpointMissing => String::from_str("One or both nodes do not exist"),
            DevError::NodeMissing => String::from_str("Node does not exist"),
        }
    }
}

/// The engine status the development server reports (the frame rate follows
/// from `running`: 30 while running, else 0).
#[derive(Debug, Clone, Copy, PartialEq, Eq, Structural)]
pub struct DevEngineStatusResponse {
    pub running: bool,
    pub frame_count: u64,
    pub node_count: usize,
    pub connection_count: usize,
}

/// Whether a node with identifier `id` is among `nodes`.
pub open spec fn has_node(nodes: Seq<DevNode>, id: NodeId) -> bool {
    exists|i: int| 0 <= i < nodes.len() && (#[trigger] nodes[i]).id == id
}

/// No two nodes share an identifier.
pub open spec fn ids_unique(nodes: Seq<DevNode>) -> bool {
    forall|i: int, j: int|
        0 <= i < nodes.len() && 0 <= j < nodes.len() && i != j ==> (#[trigger] nodes[i]).id != (#[trigger] nodes[j]).id
}

/// Both ends of every connection are nodes.
pub open spec fn endpoints_exist(nodes: Seq<DevNode>, conns: Seq<DevConnection>) -> bool {
    forall|k: int| 0 <= k < conns.len() ==> has_node(nodes, (#[trigger] conns[k]).source_id) && has_node(nodes, conns[k].target_id)
}

/// The connections that do not touch node `id`.
pub open spec fn untouched_by(id: NodeId) -> spec_fn(DevConnection) -> bool {
    |c: DevConnection| c.source_id != id && c.target_id != id
}

/// The state of the development server: its nodes, their connections and
/// whether the engine runs.
pub struct DevAppState {
    nodes: Vec<DevNode>,
    connections: Vec<DevConnection>,
    engine_running: bool,
}

proof fn lemma_has_node_after_remove(nodes: Seq<DevNode>, i: int, x: NodeId)
    requires
        0 <= i < nodes.len(),
        has_node(nodes, x),
        nodes[i].id != x,
    ensures
        has_node(nodes.remove(i), x),
{
    let j = choose|j: int| 0 <= j < nodes.len() && (#[trigger] nodes[j]).id == x;
    if j < i {
        assert(nodes.remove(i)[j] == nodes[j]);
    } else {
        assert(nodes.remove(i)[j - 1] == nodes[j]);
    }
}

proof fn lemma_has_node_after_update(nodes: Seq<DevNode>, i: int, n: DevNode, x: NodeId)
    requires
        0 <= i < nodes.len(),
        nodes[i].id == n.id,
    ensures
        has_node(nodes.update(i, n), x) == has_node(nodes, x),
{
    if has_node(nodes, x) {
        let j = choose|j: int| 0 <= j < nodes.len() && (#[trigger] nodes[j]).id == x;
        assert(nodes.update(i, n)[j].id == x);
    }
    if has_node(nodes.update(i, n), x) {
        let j = choose|j: int| 0 <= j < nodes.update(i, n).len() && (#[trigger] nodes.update(i, n)[j]).id == x;
        assert(nodes[j].id == x);
    }
}

proof fn lemma_has_node_after_push(nodes: Seq<DevNode>, n: DevNode, x: NodeId)
    ensures
        has_node(nodes.push(n), x) == (has_node(nodes, x) || n.id == x),
{
    if has_node(nodes, x) {
        let j = choose|j: int| 0 <= j < nodes.len() && (#[trigger] nodes[j]).id == x;
        assert(nodes.push(n)[j].id == x);
    }
    if n.id == x {
        assert(nodes.push(n)[nodes.len() as int].id == x);
    }
    if has_node(nodes.push(n), x) {
        let j = choose|j: int| 0 <= j < nodes.push(n).len() && (#[trigger] nodes.push(n)[j]).id == x;
        if j < nodes.len() {
            assert(nodes[j].id == x);
        }
    }
}

impl DevAppState {
    /// The nodes, in the order they were added.
    pub closed spec fn spec_nodes(&self) -> Seq<DevNode> {
        self.nodes@
    }

    /// The connections, in the order they were made.
    pub closed spec fn spec_connections(&self) -> Seq<DevConnection> {
        self.connections@
    }

    /// Whether the engine runs.
    pub closed spec fn spec_running(&self) -> bool {
        self.engine_running
    }

    /// Node identifiers are unique and every connection joins two nodes.
    pub open spec fn wf(&self) -> bool {
        ids_unique(self.spec_nodes()) && endpoints_exist(self.spec_nodes(), self.spec_connections())
    }

    /// No nodes, no connections, engine stopped.
    pub fn new() -> (s: Self)
        ensures
            s.wf(),
            s.spec_nodes().len() == 0,
            s.spec_connections().len() == 0,
            !s.spec_running(),
    {
        DevAppState { nodes: Vec::new(), connections: Vec::new(), engine_running: false }
    }

    /// The nodes.
    pub fn nodes(&self) -> (v: &Vec<DevNode>)
        ensures
            v@ == self.spec_nodes(),
    {
        &self.nodes
    }

    /// The connections.
    pub fn connections(&self) -> (v: &Vec<DevConnection>)
        ensures
            v@ == self.spec_connections(),
    {
        &self.connections
    }

    /// Where node `id` stands, if it exists.
    fn position(&self, id: NodeId) -> (r: Option<usize>)
        ensures
            match r {
                Some(i) => i < self.nodes@.len() && self.nodes@[i as int].id == id,
                None => !has_node(self.nodes@, id),
            },
    {
        let mut i: usize = 0;
        while i < self.nodes.len()
            invariant
                i <= self.nodes@.len(),
                forall|j: int| 0 <= j < i ==> (#[trigger] self.nodes@[j]).id != id,
            decreases self.nodes@.len() - i,
        {
            if self.nodes[i].id == id {
                return Some(i);
            }
            i = i + 1;
        }
        None
    }

    /// Whether node `id` exists.
    pub fn has_node(&self, id: NodeId) -> (b: bool)
        ensures
            b == has_node(self.spec_nodes(), id),
    {
        self.position(id).is_some()
    }

    /// The node `id`, if it exists.
    pub fn get_node(&self, id: NodeId) -> (r: Option<&DevNode>)
        requires
            self.wf(),
        ensures
            match r {
                Some(n) => n.id == id && exists|i: int| 0 <= i < self.spec_nodes().len() && self.spec_nodes()[i] == *n,
                None => !has_node(self.spec_nodes(), id),
            },
    {
        match self.position(id) {
            Some(i) => Some(&self.nodes[i]),
            None => None,
        }
    }

    /// Add a node under `id`, replacing the node of that identifier if there
    /// is one; the event announces it.
    pub fn add_node(&mut self, id: NodeId, node_type: NodeType, config: NodeConfig, created_at: u64) -> (ev: DevEngineEvent)
        requires
            old(self).wf(),
        ensures
            final(self).wf(),
            ({
                let n = DevNode { id, node_type, config, created_at };
                if has_node(old(self).spec_nodes(), id) {
                    exists|i: int| 0 <= i < old(self).spec_nodes().len() && old(self).spec_nodes()[i].id == id
                        && final(self).spec_nodes() == old(self).spec_nodes().update(i, n)
                } else {
                    final(self).spec_nodes() == old(self).spec_nodes().push(n)
                }
            }),
            final(self).spec_connections() == old(self).spec_connections(),
            final(self).spec_running() == old(self).spec_running(),
            ev == (DevEngineEvent::NodeAdded { id, node_type }),
    {
        let ghost old_nodes = self.nodes@;
        let node = DevNode { id, node_type, config, created_at };
        let ghost n = node;
        match self.position(id) {
            Some(i) => {
                self.nodes.set(i, node);
                proof {
                    assert(self.nodes@ == old_nodes.update(i as int, n));
                    assert forall|x: NodeId| has_node(self.nodes@, x) == has_node(old_nodes, x) by {
                        lemma_has_node_after_update(old_nodes, i as int, n, x);
                    }
                    assert forall|a: int, b: int|
                        0 <= a < self.nodes@.len() && 0 <= b < self.nodes@.len() && a != b implies
                        (#[trigger] self.nodes@[a]).id != (#[trigger] self.nodes@[b]).id by {
                        assert(old_nodes[a].id != old_nodes[b].id);
                    }
                    assert forall|k: int| 0 <= k < self.connections@.len() implies
                        has_node(self.nodes@, (#[trigger] self.connections@[k]).source_id)
                        && has_node(self.nodes@, self.connections@[k].target_id) by {
                        assert(has_node(old_nodes, self.connections@[k].source_id));
                        assert(has_node(old_nodes, self.connections@[k].target_id));
                    }
                }
            },
            None => {
                self.nodes.push(node);
                proof {
                    assert(self.nodes@ == old_nodes.push(n));
                    assert forall|x: NodeId| has_node(old_nodes, x) implies has_node(self.nodes@, x) by {
                        lemma_has_node_after_push(old_nodes, n, x);
                    }
                    assert forall|a: int, b: int|
                        0 <= a < self.nodes@.len() && 0 <= b < self.nodes@.len() && a != b implies
                        (#[trigger] self.nodes@[a]).id != (#[trigger] self.nodes@[b]).id by {
                        if a < old_nodes.len() && b < old_nodes.len() {
                            assert(old_nodes[a].id != old_nodes[b].id);
                        } else if a < old_nodes.len() {
                            assert(old_nodes[a].id != id);
                        } else {
                            assert(old_nodes[b].id != id);
                        }
                    }
                    assert forall|k: int| 0 <= k < self.connections@.len() implies
                        has_node(self.nodes@, (#[trigger] self.connections@[k]).source_id)
                        && has_node(self.nodes@, self.connections@[k].target_id) by {
                        assert(has_node(old_nodes, self.connections@[k].source_id));
                        assert(has_node(old_nodes, self.connections@[k].target_id));
                    }
                }
            },
        }
        DevEngineEvent::NodeAdded { id, node_type }
    }

    /// Remove node `id` together with every connection that touches it; the
    /// event announces the removal, and there is none where no such node exists.
    pub fn remove_node(&mut self, id: NodeId) -> (ev: Option<DevEngineEvent>)
        requires
            old(self).wf(),
        ensures
            final(self).wf(),
            !has_node(old(self).spec_nodes(), id) ==> final(self).spec_nodes() == old(self).spec_nodes()
                && final(self).spec_connections() == old(self).spec_connections() && ev is None,
            has_node(old(self).spec_nodes(), id) ==> (exists|i: int| 0 <= i < old(self).spec_nodes().len()
                && old(self).spec_nodes()[i].id == id && final(self).spec_nodes() == old(self).spec_nodes().remove(i))
                && final(self).spec_connections() == old(self).spec_connections().filter(untouched_by(id))
                && ev == Some(DevEngineEvent::NodeRemoved { id }),
            !has_node(final(self).spec_nodes(), id),
            final(self).spec_running() == old(self).spec_running(),
    {
        let i = match self.position(id) {
            Some(i) => i,
            None => {
                return None;
            },
        };
        let ghost old_nodes = self.nodes@;
        let ghost old_conns = self.connections@;
        let _removed = self.nodes.remove(i);
        proof {
            assert(self.nodes@ == old_nodes.remove(i as int));
            assert forall|a: int, b: int|
                0 <= a < self.nodes@.len() && 0 <= b < self.nodes@.len() && a != b implies
                (#[trigger] self.nodes@[a]).id != (#[trigger] self.nodes@[b]).id by {
                let oa = if a < i { a } else { a + 1 };
                let ob = if b < i { b } else { b + 1 };
                assert(self.nodes@[a] == old_nodes[oa]);
                assert(self.nodes@[b] == old_nodes[ob]);
                assert(old_nodes[oa].id != old_nodes[ob].id);
            }
            if has_node(self.nodes@, id) {
                let j = choose|j: int| 0 <= j < self.nodes@.len() && (#[trigger] self.nodes@[j]).id == id;
                let oj = if j < i { j } else { j + 1 };
                assert(self.nodes@[j] == old_nodes[oj]);
                assert(old_nodes[oj].id != old_nodes[i as int].id);
            }
        }
        let mut kept: Vec<DevConnection> = Vec::new();
        let mut k: usize = 0;
        while k < self.connections.len()
            invariant
                k <= self.connections@.len(),
                self.connections@ == old_conns,
                self.nodes@ == old_nodes.remove(i as int),
                0 <= i < old_nodes.len(),
                old_nodes[i as int].id == id,
                endpoints_exist(old_nodes, old_conns),
                kept@ == old_conns.take(k as int).filter(untouched_by(id)),
                endpoints_exist(self.nodes@, kept@),
            decreases self.connections@.len() - k,
        {
            let c = self.connections[k];
            proof {
                assert(old_conns.take(k + 1) == old_conns.take(k as int).push(c));
                old_conns.take(k as int).lemma_filter_push(c, untouched_by(id));
            }
            if c.source_id != id && c.target_id != id {
                proof {
                    assert(has_node(old_nodes, old_conns[k as int].source_id));
                    lemma_has_node_after_remove(old_nodes, i as int, c.source_id);
                    lemma_has_node_after_remove(old_nodes, i as int, c.target_id);
                }
                kept.push(c);
            }
            k = k + 1;
        }
        proof {
            assert(old_conns.take(old_conns.len() as int) == old_conns);
        }
        self.connections = kept;
        Some(DevEngineEvent::NodeRemoved { id })
    }

    /// Connect `source_id` to `target_id`; refused unless both nodes exist.
    pub fn connect_nodes(&mut self, source_id: NodeId, target_id: NodeId, connection_type: ConnectionType) -> (r: Result<DevEngineEvent, DevError>)
        requires
            old(self).wf(),
        ensures
            final(self).wf(),
            final(self).spec_nodes() == old(self).spec_nodes(),
            final(self).spec_running() == old(self).spec_running(),
            !(has_node(old(self).spec_nodes(), source_id) && has_node(old(self).spec_nodes(), target_id)) ==>
                r == Err::<DevEngineEvent, DevError>(DevError::EndpointMissing)
                && final(self).spec_connections() == old(self).spec_connections(),
            (has_node(old(self).spec_nodes(), source_id) && has_node(old(self).spec_nodes(), target_id)) ==>
                r == Ok::<DevEngineEvent, DevError>(DevEngineEvent::NodeConnected { source_id, target_id, connection_type })
                && final(self).spec_connections() == old(self).spec_connections().push(
                    DevConnection { source_id, target_id, connection_type }),
    {
        if !self.has_node(source_id) || !self.has_node(target_id) {
            return Err(DevError::EndpointMissing);
        }
        let c = DevConnection { source_id, target_id, connection_type };
        self.connections.push(c);
        Ok(DevEngineEvent::NodeConnected { source_id, target_id, connection_type })
    }

    /// Store `value` under `parameter` in the configuration of node `node_id`;
    /// refused where no such node exists. The event carries a copy of the value.
    pub fn set_node_parameter(&mut self, node_id: NodeId, parameter: &str, value: ParamValue) -> (r: Result<DevEngineEvent, DevError>)
        requires
            old(self).wf(),
        ensures
            final(self).wf(),
            final(self).spec_connections() == old(self).spec_connections(),
            final(self).spec_running() == old(self).spec_running(),
            final(self).spec_nodes().len() == old(self).spec_nodes().len(),
            !has_node(old(self).spec_nodes(), node_id) ==> r == Err::<DevEngineEvent, DevError>(DevError::NodeMissing)
                && final(self).spec_nodes() == old(self).spec_nodes(),
            has_node(old(self).spec_nodes(), node_id) ==> (r matches Ok(DevEngineEvent::ParameterChanged { node_id: n, parameter: p, value: v })
                && n == node_id && p@ == parameter@ && v.same(value)),
            forall|j: int| 0 <= j < old(self).spec_nodes().len() && old(self).spec_nodes()[j].id != node_id
                ==> #[trigger] final(self).spec_nodes()[j] == old(self).spec_nodes()[j],
            forall|j: int| 0 <= j < old(self).spec_nodes().len() && (#[trigger] old(self).spec_nodes()[j]).id == node_id ==> {
                let a = old(self).spec_nodes()[j];
                let b = final(self).spec_nodes()[j];
                &&& b.id == a.id
                &&& b.node_type == a.node_type
                &&& b.created_at == a.created_at
                &&& forall|k: Seq<char>| #[trigger] b.config.spec_get(k) == (if k == parameter@ {
                    Some(value)
                } else {
                    a.config.spec_get(k)
                })
            },
    {
        let i = match self.position(node_id) {
            Some(i) => i,
            None => {
                return Err(DevError::NodeMissing);
            },
        };
        let ghost old_nodes = self.nodes@;
        let copy = value.duplicate();
        let mut node = self.nodes.remove(i);
        node.config.insert(parameter, value);
        let ghost n = node;
        self.nodes.insert(i, node);
        proof {
            assert(self.nodes@ == old_nodes.update(i as int, n));
            assert forall|x: NodeId| has_node(self.nodes@, x) == has_node(old_nodes, x) by {
                lemma_has_node_after_update(old_nodes, i as int, n, x);
            }
            assert forall|a: int, b: int|
                0 <= a < self.nodes@.len() && 0 <= b < self.nodes@.len() && a != b implies
                (#[trigger] self.nodes@[a]).id != (#[trigger] self.nodes@[b]).id by {
                assert(old_nodes[a].id != old_nodes[b].id);
            }
            assert forall|k: int| 0 <= k < self.connections@.len() implies
                has_node(self.nodes@, (#[trigger] self.connections@[k]).source_id)
                && has_node(self.nodes@, self.connections@[k].target_id) by {
                assert(has_node(old_nodes, self.connections@[k].source_id));
                assert(has_node(old_nodes, self.connections@[k].target_id));
            }
            assert forall|j: int| 0 <= j < old_nodes.len() && (#[trigger] old_nodes[j]).id == node_id implies j == i by {
                if j != i {
                    assert(old_nodes[j].id != old_nodes[i as int].id);
                }
            }
        }
        Ok(DevEngineEvent::ParameterChanged { node_id, parameter: parameter.to_string(), value: copy })
    }

    /// Mark the engine running.
    pub fn start_engine(&mut self) -> (ev: DevEngineEvent)
        requires
            old(self).wf(),
        ensures
            final(self).wf(),
            final(self).spec_running(),
            final(self).spec_nodes() == old(self).spec_nodes(),
            final(self).spec_connections() == old(self).spec_connections(),
            ev == DevEngineEvent::EngineStarted,
    {
        self.engine_running = true;
        DevEngineEvent::EngineStarted
    }

    /// Mark the engine stopped.
    pub fn stop_engine(&mut self) -> (ev: DevEngineEvent)
        requires
            old(self).wf(),
        ensures
            final(self).wf(),
            !final(self).spec_running(),
            final(self).spec_nodes() == old(self).spec_nodes(),
            final(self).spec_connections() == old(self).spec_connections(),
            ev == DevEngineEvent::EngineStopped,
    {
        self.engine_running = false;
        DevEngineEvent::EngineStopped
    }

    /// Whether the engine runs, the frame count it reports (12345 while
    /// running, else 0) and the numbers of nodes and connections.
    pub fn get_engine_status(&self) -> (s: DevEngineStatusResponse)
        ensures
            s.running == self.spec_running(),
            s.frame_count == (if self.spec_running() { 12345u64 } else { 0u64 }),
            s.node_count == self.spec_nodes().len(),
            s.connection_count == self.spec_connections().len(),
    {
        DevEngineStatusResponse {
            running: self.engine_running,
            frame_count: if self.engine_running { 12345 } else { 0 },
            node_count: self.nodes.len(),
            connection_count: self.connections.len(),
        }
    }
}

/// After a node is removed, no connection touches it: every connection kept
/// by the removal has both ends elsewhere.
pub proof fn lemma_removal_leaves_no_dangling_connection(conns: Seq<DevConnection>, id: NodeId, k: int)
    requires
        0 <= k < conns.filter(untouched_by(id)).len(),
    ensures
        conns.filter(untouched_by(id))[k].source_id != id,
        conns.filter(untouched_by(id))[k].target_id != id,
{
    conns.lemma_filter_pred(untouched_by(id), k);
}

} // verus!
