//! The network service: the nodes this node knows of and the messages it
//! has queued for them.
use vstd::prelude::*;
use crate::ident::fresh_identifier;
use crate::registry::{lemma_selected_step, lookup, selected, targets, upsert, Registry};

verus! {

/// The identity of a node as this service sees it.
#[derive(Clone, Debug)]
pub struct MockNodeIdentity {
    pub node_id: String,
    pub public_key: Vec<u8>,
}

/// What a node offers, in whole gigabytes, operations per second and
/// megabits per second.
#[derive(Clone, Copy, Debug, PartialEq, Eq, Structural)]
pub struct MockNodeCapabilities {
    pub storage_gb: u64,
    pub compute_flops: u64,
    pub bandwidth_mbps: u64,
}

/// A node this node knows of.
#[derive(Clone, Debug)]
pub struct NetworkNode {
    pub node_id: String,
    pub address: String,
    pub capabilities: MockNodeCapabilities,
    pub status: NodeStatus,
}

/// Whether a node can be reached and take work.
#[derive(Clone, Copy, Debug, PartialEq, Eq, Structural)]
pub enum NodeStatus {
    Online,
    Offline,
    Busy,
    Available,
}

impl NodeStatus {
    /// The node can be reached: it is `Online` or `Available`.
    pub open spec fn reachable(self) -> bool {
        self == NodeStatus::Online || self == NodeStatus::Available
    }

    /// The node can be reached: it is `Online` or `Available`.
    pub fn is_reachable(&self) -> (yes: bool)
        ensures
            yes == self.reachable(),
    {
        match self {
            NodeStatus::Online => true,
            NodeStatus::Available => true,
            NodeStatus::Offline => false,
            NodeStatus::Busy => false,
        }
    }
}

/// A message between two nodes.
#[derive(Clone, Debug)]
pub struct NetworkMessage {
    pub id: String,
    pub from: String,
    pub to: String,
    pub payload: Vec<u8>,
    pub message_type: MessageType,
}

/// The kind of a message.
#[derive(Clone, Copy, Debug, PartialEq, Eq, Structural)]
pub enum MessageType {
    Ping,
    Pong,
    Data,
    Control,
    Discovery,
}

/// What the service does with a message of a kind.
#[derive(Clone, Copy, Debug, PartialEq, Eq, Structural)]
pub enum Handling {
    /// A liveness probe: handled as a ping.
    Ping,
    /// A payload: handled as data.
    Data,
    /// Any other kind: noted and dropped.
    Dropped,
}

/// Why the service turned a request down.
#[derive(Clone, Copy, Debug, PartialEq, Eq, Structural)]
pub enum NetworkError {
    /// The queue holds as many messages as it can.
    QueueFull,
}

impl NetworkError {
    /// The text of the error.
    pub open spec fn message(self) -> Seq<char> {
        "Failed to send message: queue full"@
    }

    /// The text of the error.
    pub fn to_string(&self) -> (text: String)
        ensures
            text@ == self.message(),
    {
        "Failed to send message: queue full".to_owned()
    }
}

/// How many messages the queue holds at most.
pub const QUEUE_CAPACITY: usize = 100;

/// The handling of a message of kind `message_type`.
pub open spec fn handling_of(message_type: MessageType) -> Handling {
    match message_type {
        MessageType::Ping => Handling::Ping,
        MessageType::Data => Handling::Data,
        _ => Handling::Dropped,
    }
}

/// The network service of one node.
pub struct NetworkService {
    pub node_id: String,
    pub nodes: Registry<NetworkNode>,
    /// The messages sent and not yet processed, oldest first.
    pub pending: Vec<NetworkMessage>,
}

/// The node that discovery knows of before any peer has answered.
pub open spec fn is_mock_node(node: NetworkNode) -> bool {
    &&& node.node_id@ == "mock_node_1"@
    &&& node.address@ == "127.0.0.1:8080"@
    &&& node.capabilities == (MockNodeCapabilities {
        storage_gb: 1000,
        compute_flops: 1_000_000_000,
        bandwidth_mbps: 100,
    })
    &&& node.status == NodeStatus::Online
}

impl NetworkService {
    /// A service that knows no node and has nothing queued.
    pub fn new(node_id: String) -> (service: Self)
        ensures
            service.node_id == node_id,
            service.nodes.entries().len() == 0,
            service.pending@.len() == 0,
    {
        NetworkService { node_id, nodes: Registry::new(), pending: Vec::new() }
    }

    /// Discovers the nodes of the network, then processes what is queued.
    pub fn start(&mut self) -> (handled: Vec<Handling>)
        ensures
            final(self).node_id == old(self).node_id,
            final(self).pending@.len() == 0,
            lookup(final(self).nodes.entries(), "mock_node_1"@) matches Some(node) && is_mock_node(
                node,
            ) && final(self).nodes.entries() == upsert(
                old(self).nodes.entries(),
                "mock_node_1"@,
                node,
            ),
            handled@.len() == old(self).pending@.len(),
            forall|i: int|
                0 <= i < handled@.len() ==> #[trigger] handled@[i] == handling_of(
                    old(self).pending@[i].message_type,
                ),
    {
        self.discover_nodes();
        self.process_messages()
    }

    /// Records the nodes that discovery yields: one mock node, stored
    /// under its identifier.
    pub fn discover_nodes(&mut self)
        ensures
            final(self).node_id == old(self).node_id,
            final(self).pending == old(self).pending,
            lookup(final(self).nodes.entries(), "mock_node_1"@) matches Some(node) && is_mock_node(
                node,
            ) && final(self).nodes.entries() == upsert(
                old(self).nodes.entries(),
                "mock_node_1"@,
                node,
            ),
    {
        let mock_node = NetworkNode {
            node_id: "mock_node_1".to_owned(),
            address: "127.0.0.1:8080".to_owned(),
            capabilities: MockNodeCapabilities {
                storage_gb: 1000,
                compute_flops: 1_000_000_000,
                bandwidth_mbps: 100,
            },
            status: NodeStatus::Online,
        };
        self.nodes.insert("mock_node_1".to_owned(), mock_node);
    }

    /// Takes every queued message off the queue, oldest first, and returns
    /// how each was handled.
    pub fn process_messages(&mut self) -> (handled: Vec<Handling>)
        ensures
            final(self).node_id == old(self).node_id,
            final(self).nodes == old(self).nodes,
            final(self).pending@.len() == 0,
            handled@.len() == old(self).pending@.len(),
            forall|i: int|
                0 <= i < handled@.len() ==> #[trigger] handled@[i] == handling_of(
                    old(self).pending@[i].message_type,
                ),
    {
        let mut handled: Vec<Handling> = Vec::new();
        let mut i: usize = 0;
        while i < self.pending.len()
            invariant
                i <= self.pending@.len(),
                self.pending == old(self).pending,
                self.nodes == old(self).nodes,
                self.node_id == old(self).node_id,
                handled@.len() == i,
                forall|j: int|
                    0 <= j < i ==> #[trigger] handled@[j] == handling_of(
                        self.pending@[j].message_type,
                    ),
            decreases self.pending@.len() - i,
        {
            let how = match self.pending[i].message_type {
                MessageType::Ping => self.handle_ping(&self.pending[i]),
                MessageType::Data => self.handle_data(&self.pending[i]),
                _ => Handling::Dropped,
            };
            handled.push(how);
            i += 1;
        }
        self.pending = Vec::new();
        handled
    }

    /// Handles a liveness probe. No answer is sent.
    pub fn handle_ping(&self, message: &NetworkMessage) -> (how: Handling)
        ensures
            how == Handling::Ping,
    {
        Handling::Ping
    }

    /// Handles a payload. Nothing is done with it.
    pub fn handle_data(&self, message: &NetworkMessage) -> (how: Handling)
        ensures
            how == Handling::Data,
    {
        Handling::Data
    }

    /// The message that `send_message` queues for these arguments under
    /// the identifier `id`.
    pub open spec fn composed(
        self,
        message: NetworkMessage,
        id: Seq<char>,
        to: Seq<char>,
        payload: Seq<u8>,
        message_type: MessageType,
    ) -> bool {
        &&& message.id@ == id
        &&& message.from@ == self.node_id@
        &&& message.to@ == to
        &&& message.payload@ == payload
        &&& message.message_type == message_type
    }

    /// Queues a message from this node to `to` under a fresh random
    /// identifier, or turns the request down where the queue is full.
    pub fn send_message(&mut self, to: String, payload: Vec<u8>, message_type: MessageType) -> (sent:
        Result<(), NetworkError>)
        ensures
            final(self).node_id == old(self).node_id,
            final(self).nodes == old(self).nodes,
            match sent {
                Ok(_) => {
                    &&& old(self).pending@.len() < QUEUE_CAPACITY
                    &&& final(self).pending@.len() == old(self).pending@.len() + 1
                    &&& final(self).pending@.drop_last() == old(self).pending@
                    &&& old(self).composed(
                        final(self).pending@.last(),
                        final(self).pending@.last().id@,
                        to@,
                        payload@,
                        message_type,
                    )
                },
                Err(e) => e == NetworkError::QueueFull && old(self).pending@.len()
                    >= QUEUE_CAPACITY && *final(self) == *old(self),
            },
    {
        let id = fresh_identifier();
        self.send_message_with_id(id, to, payload, message_type)
    }

    /// Queues a message from this node to `to` under the identifier `id`,
    /// or turns the request down where the queue is full.
    pub fn send_message_with_id(
        &mut self,
        id: String,
        to: String,
        payload: Vec<u8>,
        message_type: MessageType,
    ) -> (sent: Result<(), NetworkError>)
        ensures
            final(self).node_id == old(self).node_id,
            final(self).nodes == old(self).nodes,
            match sent {
                Ok(_) => {
                    &&& old(self).pending@.len() < QUEUE_CAPACITY
                    &&& final(self).pending@.len() == old(self).pending@.len() + 1
                    &&& final(self).pending@.drop_last() == old(self).pending@
                    &&& old(self).composed(
                        final(self).pending@.last(),
                        id@,
                        to@,
                        payload@,
                        message_type,
                    )
                },
                Err(e) => e == NetworkError::QueueFull && old(self).pending@.len()
                    >= QUEUE_CAPACITY && *final(self) == *old(self),
            },
    {
        if self.pending.len() >= QUEUE_CAPACITY {
            return Err(NetworkError::QueueFull);
        }
        let message = NetworkMessage { id, from: self.node_id.clone(), to, payload, message_type };
        self.pending.push(message);
        assert(self.pending@.drop_last() =~= old(self).pending@);
        Ok(())
    }

    /// The known nodes that can be reached, in the order in which they
    /// were first recorded.
    pub fn get_connected_nodes(&self) -> (connected: Vec<&NetworkNode>)
        ensures
            targets(connected@) == selected(
                self.nodes.entries(),
                |id: Seq<char>, node: NetworkNode| node.status.reachable(),
            ),
    {
        let ghost keep = |id: Seq<char>, node: NetworkNode| node.status.reachable();
        let ghost entries = self.nodes.entries();
        let mut connected: Vec<&NetworkNode> = Vec::new();
        let n = self.nodes.len();
        let mut i: usize = 0;
        while i < n
            invariant
                i <= n,
                n == entries.len(),
                entries == self.nodes.entries(),
                keep == |id: Seq<char>, node: NetworkNode| node.status.reachable(),
                targets(connected@) == selected(entries.take(i as int), keep),
            decreases n - i,
        {
            proof {
                lemma_selected_step(entries, keep, i as int);
            }
            let node = self.nodes.value_at(i);
            if node.status.is_reachable() {
                connected.push(node);
                assert(targets(connected@) =~= selected(entries.take(i as int), keep).push(*node));
            }
            i += 1;
        }
        assert(entries.take(n as int) =~= entries);
        connected
    }
}

} // verus!
