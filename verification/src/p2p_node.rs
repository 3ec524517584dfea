//! The node coordinator: the peer registry, the messages that nodes
//! exchange and the answer a node gives to each.
//!
//! Nothing here touches a socket. A caller that owns the connections hands
//! in what it read and sends what it is handed back: `process_message`
//! answers one decoded request, `on_connection_event` says whether a
//! connection goes on, and `heartbeat_round` and `connect_requests` list
//! what is to be sent to whom.
use vstd::prelude::*;
use vstd::string::StringExecFns;
use crate::clock::unix_timestamp;
use crate::compute::{zeros, ComputeError, ComputeService};
use crate::distribution::{RetrieveFanout, StoreFanout};
use crate::ident::{fresh_identifier, IDENTIFIER_LEN};
use crate::network::NetworkService;
use crate::registry::{
    lemma_project_find, lemma_project_upsert, lemma_selected_step, lookup, project, selected,
    targets, unique_keys, upsert, Registry,
};
use crate::storage::{StorageError, StorageService, StorageState};

verus! {

/// What a peer offers, in whole gigabytes, operations per second and
/// megabits per second.
#[derive(Clone, Copy, Debug, PartialEq, Eq, Structural)]
pub struct NodeCapabilities {
    pub storage_gb: u64,
    pub compute_flops: u64,
    pub bandwidth_mbps: u64,
}

/// What this node knows of a peer.
#[derive(Clone, Debug)]
pub struct PeerInfo {
    pub node_id: String,
    pub address: String,
    pub capabilities: NodeCapabilities,
    pub last_seen: u64,
}

/// What a `PeerInfo` holds, as plain values.
pub struct PeerView {
    pub node_id: Seq<char>,
    pub address: Seq<char>,
    pub capabilities: NodeCapabilities,
    pub last_seen: u64,
}

impl View for PeerInfo {
    type V = PeerView;

    open spec fn view(&self) -> PeerView {
        PeerView {
            node_id: self.node_id@,
            address: self.address@,
            capabilities: self.capabilities,
            last_seen: self.last_seen,
        }
    }
}

impl PeerInfo {
    /// A copy of this record.
    pub fn duplicate(&self) -> (copy: PeerInfo)
        ensures
            copy@ == self@,
    {
        PeerInfo {
            node_id: self.node_id.clone(),
            address: self.address.clone(),
            capabilities: self.capabilities,
            last_seen: self.last_seen,
        }
    }

    /// Whether the peer was ever seen.
    pub fn is_online(&self) -> (online: bool)
        ensures
            online == (self.last_seen > 0),
    {
        self.last_seen > 0
    }
}

/// The messages that nodes exchange.
#[derive(Clone, Debug)]
#[allow(inconsistent_fields)]
pub enum P2PMessage {
    Ping { from: String, timestamp: u64 },
    Pong { from: String, timestamp: u64 },
    StoreRequest { data: Vec<u8>, redundancy: u8, from: String },
    StoreResponse { shard_id: String, success: bool, message: String },
    RetrieveRequest { shard_id: String, from: String },
    RetrieveResponse { data: Option<Vec<u8>>, success: bool, message: String },
    ComputeRequest { wasm_bytes: Vec<u8>, input_data: Vec<u8>, from: String },
    ComputeResponse { result: Option<Vec<u8>>, success: bool, message: String },
    DiscoveryRequest { from: String },
    DiscoveryResponse { nodes: Vec<PeerInfo> },
}

/// What a message holds, as plain values.
#[allow(inconsistent_fields)]
pub enum MessageView {
    Ping { from: Seq<char>, timestamp: u64 },
    Pong { from: Seq<char>, timestamp: u64 },
    StoreRequest { data: Seq<u8>, redundancy: u8, from: Seq<char> },
    StoreResponse { shard_id: Seq<char>, success: bool, message: Seq<char> },
    RetrieveRequest { shard_id: Seq<char>, from: Seq<char> },
    RetrieveResponse { data: Option<Seq<u8>>, success: bool, message: Seq<char> },
    ComputeRequest { wasm_bytes: Seq<u8>, input_data: Seq<u8>, from: Seq<char> },
    ComputeResponse { result: Option<Seq<u8>>, success: bool, message: Seq<char> },
    DiscoveryRequest { from: Seq<char> },
    DiscoveryResponse { nodes: Seq<PeerView> },
}

/// The bytes of an optional payload.
pub open spec fn payload_view(payload: Option<Vec<u8>>) -> Option<Seq<u8>> {
    match payload {
        Some(bytes) => Some(bytes@),
        None => None,
    }
}

/// The peers of a list, as plain values.
pub open spec fn peer_list_view(nodes: Seq<PeerInfo>) -> Seq<PeerView> {
    Seq::new(nodes.len(), |i: int| nodes[i]@)
}

impl View for P2PMessage {
    type V = MessageView;

    open spec fn view(&self) -> MessageView {
        match *self {
            P2PMessage::Ping { from, timestamp } => MessageView::Ping { from: from@, timestamp },
            P2PMessage::Pong { from, timestamp } => MessageView::Pong { from: from@, timestamp },
            P2PMessage::StoreRequest { data, redundancy, from } => MessageView::StoreRequest {
                data: data@,
                redundancy,
                from: from@,
            },
            P2PMessage::StoreResponse { shard_id, success, message } => MessageView::StoreResponse {
                shard_id: shard_id@,
                success,
                message: message@,
            },
            P2PMessage::RetrieveRequest { shard_id, from } => MessageView::RetrieveRequest {
                shard_id: shard_id@,
                from: from@,
            },
            P2PMessage::RetrieveResponse { data, success, message } => MessageView::RetrieveResponse {
                data: payload_view(data),
                success,
                message: message@,
            },
            P2PMessage::ComputeRequest { wasm_bytes, input_data, from } => MessageView::ComputeRequest {
                wasm_bytes: wasm_bytes@,
                input_data: input_data@,
                from: from@,
            },
            P2PMessage::ComputeResponse { result, success, message } => MessageView::ComputeResponse {
                result: payload_view(result),
                success,
                message: message@,
            },
            P2PMessage::DiscoveryRequest { from } => MessageView::DiscoveryRequest { from: from@ },
            P2PMessage::DiscoveryResponse { nodes } => MessageView::DiscoveryResponse {
                nodes: peer_list_view(nodes@),
            },
        }
    }
}

impl MessageView {
    /// Whether the message asks for something: the five kinds a node
    /// answers in kind. Every other message is answered by the fallback.
    pub open spec fn is_request(self) -> bool {
        self is Ping || self is StoreRequest || self is RetrieveRequest || self is ComputeRequest
            || self is DiscoveryRequest
    }
}

/// The answer to a liveness probe, and with a zero timestamp the answer
/// to whatever is no request.
pub open spec fn pong(from: Seq<char>, timestamp: u64) -> MessageView {
    MessageView::Pong { from, timestamp }
}

/// The answer to a store request, given what the shard store said.
pub open spec fn store_reply(outcome: Result<Seq<char>, StorageError>) -> MessageView {
    match outcome {
        Ok(shard_id) => MessageView::StoreResponse {
            shard_id,
            success: true,
            message: "Data stored successfully"@,
        },
        Err(e) => MessageView::StoreResponse {
            shard_id: Seq::empty(),
            success: false,
            message: "Storage failed: "@ + e.message(),
        },
    }
}

/// The answer to a retrieve request, given what the shard store said.
pub open spec fn retrieve_reply(outcome: Result<Seq<u8>, StorageError>) -> MessageView {
    match outcome {
        Ok(bytes) => MessageView::RetrieveResponse {
            data: Some(bytes),
            success: true,
            message: "Data retrieved successfully"@,
        },
        Err(e) => MessageView::RetrieveResponse {
            data: None,
            success: false,
            message: "Retrieval failed: "@ + e.message(),
        },
    }
}

/// The answer to a compute request, given what the compute service said.
pub open spec fn compute_reply(outcome: Result<Seq<u8>, ComputeError>) -> MessageView {
    match outcome {
        Ok(output) => MessageView::ComputeResponse {
            result: Some(output),
            success: true,
            message: "Compute completed successfully"@,
        },
        Err(e) => MessageView::ComputeResponse {
            result: None,
            success: false,
            message: "Compute failed: "@ + e.message(),
        },
    }
}

/// Whether `task_id` is a name under which a compute request is run:
/// `task_` followed by a fresh identifier.
pub open spec fn is_task_name(task_id: Seq<char>) -> bool {
    &&& task_id.len() == 5 + IDENTIFIER_LEN
    &&& task_id.subrange(0, 5) == "task_"@
}

/// How many tasks the compute service of a node takes at a time.
pub const MAX_CONCURRENT_TASKS: usize = 1000;

/// How many bytes a node reads from a connection at a time; one message
/// has to fit.
pub const CONNECTION_BUFFER_SIZE: usize = 4096;

/// How many bytes of an answer to a store request are read.
pub const STORE_REPLY_BUFFER_SIZE: usize = 1024;

/// How many bytes of an answer to a retrieve request are read.
pub const RETRIEVE_REPLY_BUFFER_SIZE: usize = 4096;

/// The seconds between two rounds of liveness probes.
pub const HEARTBEAT_INTERVAL_SECS: u64 = 10;

/// What a peer is taken to offer until it says otherwise.
pub open spec fn default_capabilities() -> NodeCapabilities {
    NodeCapabilities { storage_gb: 100, compute_flops: 1_000_000_000, bandwidth_mbps: 100 }
}

/// The record made of a peer named in the configuration.
pub open spec fn configured_peer(node_id: Seq<char>, address: Seq<char>, now: u64) -> PeerView {
    PeerView { node_id, address, capabilities: default_capabilities(), last_seen: now }
}

/// The registry after the peers named in `seeds` were recorded at time
/// `now`, the node's own entry left out.
pub open spec fn registered(
    peers: Seq<(Seq<char>, PeerView)>,
    seeds: Seq<(Seq<char>, Seq<char>)>,
    own: Seq<char>,
    now: u64,
) -> Seq<(Seq<char>, PeerView)>
    decreases seeds.len(),
{
    if seeds.len() == 0 {
        peers
    } else {
        let earlier = registered(peers, seeds.drop_last(), own, now);
        let seed = seeds.last();
        if seed.0 != own {
            upsert(earlier, seed.0, configured_peer(seed.0, seed.1, now))
        } else {
            earlier
        }
    }
}

/// The pairs of identifier and address in `seeds`, as plain values.
pub open spec fn seed_views(seeds: Seq<(String, String)>) -> Seq<(Seq<char>, Seq<char>)> {
    Seq::new(seeds.len(), |i: int| (seeds[i].0@, seeds[i].1@))
}

/// The peers that a node starts out with.
pub open spec fn bootstrap_seeds() -> Seq<(Seq<char>, Seq<char>)> {
    seq![
        ("node_001"@, "127.0.0.1:3010"@),
        ("node_002"@, "127.0.0.1:3011"@),
        ("node_003"@, "127.0.0.1:3012"@),
        ("node_004"@, "127.0.0.1:3013"@),
        ("node_005"@, "127.0.0.1:3014"@),
        ("node_006"@, "127.0.0.1:3015"@),
    ]
}

/// The addresses of the peers stored under another key than `own`, in the
/// order of the registry.
pub open spec fn addresses_except(peers: Seq<(Seq<char>, PeerView)>, own: Seq<char>) -> Seq<
    Seq<char>,
>
    decreases peers.len(),
{
    if peers.len() == 0 {
        Seq::empty()
    } else {
        let earlier = addresses_except(peers.drop_last(), own);
        if peers.last().0 != own {
            earlier.push(peers.last().1.address)
        } else {
            earlier
        }
    }
}

/// For every peer stored under another key than `own`, in the order of
/// the registry, its key and whether it was ever seen.
pub open spec fn seen_except(peers: Seq<(Seq<char>, PeerView)>, own: Seq<char>) -> Seq<
    (Seq<char>, bool),
>
    decreases peers.len(),
{
    if peers.len() == 0 {
        Seq::empty()
    } else {
        let earlier = seen_except(peers.drop_last(), own);
        if peers.last().0 != own {
            earlier.push((peers.last().0, peers.last().1.last_seen > 0))
        } else {
            earlier
        }
    }
}

/// The addresses of all peers, in the order of the registry.
pub open spec fn addresses(peers: Seq<(Seq<char>, PeerView)>) -> Seq<Seq<char>> {
    Seq::new(peers.len(), |i: int| peers[i].1.address)
}

/// The peers of a registry, in its order.
pub open spec fn listed(peers: Seq<(Seq<char>, PeerView)>) -> Seq<PeerView> {
    Seq::new(peers.len(), |i: int| peers[i].1)
}

/// The texts of a list of strings.
pub open spec fn texts(strings: Seq<String>) -> Seq<Seq<char>> {
    Seq::new(strings.len(), |i: int| strings[i]@)
}

/// What happened on a connection.
#[derive(Debug)]
pub enum ConnectionEvent {
    /// A read returned no byte: the peer closed the connection.
    Closed,
    /// A read failed.
    ReadFailed,
    /// What was read is no message.
    Undecodable,
    /// What was read is this message.
    Message(P2PMessage),
}

/// What to do with a connection next.
#[derive(Debug)]
pub enum ConnectionAction {
    /// Send this answer and read on.
    Reply(P2PMessage),
    /// Tear the connection down; nothing is sent.
    Close,
}

/// A node of the swarm.
pub struct P2PNode {
    pub node_id: String,
    pub address: String,
    pub storage_service: StorageService,
    pub network_service: NetworkService,
    pub compute_service: ComputeService,
    pub peers: Registry<PeerInfo>,
}

impl P2PNode {
    /// The peer registry, as plain values.
    pub open spec fn peer_views(self) -> Seq<(Seq<char>, PeerView)> {
        project(self.peers.entries(), |peer: PeerInfo| peer@)
    }

    /// What a compute request run under `task_id` does to the compute
    /// service and is answered with, where the run took
    /// `execution_time_ms` milliseconds.
    pub open spec fn computed(
        self,
        before: Self,
        task_id: Seq<char>,
        execution_time_ms: u64,
        response: MessageView,
    ) -> bool {
        match lookup(before.compute_service.active_tasks.entries(), task_id) {
            None => {
                &&& response == compute_reply(Err(ComputeError::TaskNotFound))
                &&& self.compute_service == before.compute_service
            },
            Some(task) => {
                &&& response == compute_reply(Ok(zeros(task.input_data@.len())))
                &&& self.compute_service.filed(
                    before.compute_service,
                    task_id,
                    zeros(task.input_data@.len()),
                    execution_time_ms,
                )
            },
        }
    }

    /// The state `self` and the `response` are what handling `message` in
    /// the state `before` leads to.
    pub open spec fn answers(self, before: Self, message: MessageView, response: MessageView) -> bool {
        &&& self.node_id == before.node_id
        &&& self.address == before.address
        &&& self.peers == before.peers
        &&& self.network_service == before.network_service
        &&& match message {
            MessageView::Ping { from, timestamp } => {
                &&& response == pong(before.node_id@, timestamp)
                &&& self.storage_service@ == before.storage_service@
                &&& self.compute_service == before.compute_service
            },
            MessageView::StoreRequest { data, redundancy, from } => {
                &&& self.compute_service == before.compute_service
                &&& if before.storage_service@.fits(data.len()) {
                    &&& response matches MessageView::StoreResponse { shard_id, .. }
                    &&& shard_id.len() == IDENTIFIER_LEN
                    &&& response == store_reply(Ok(shard_id))
                    &&& self.storage_service@ == before.storage_service@.store(
                        shard_id,
                        data,
                        redundancy,
                    )
                } else {
                    &&& response == store_reply(Err(StorageError::InsufficientSpace))
                    &&& self.storage_service@ == before.storage_service@
                }
            },
            MessageView::RetrieveRequest { shard_id, from } => {
                &&& response == retrieve_reply(before.storage_service@.retrieve(shard_id))
                &&& self.storage_service@ == before.storage_service@
                &&& self.compute_service == before.compute_service
            },
            MessageView::ComputeRequest { wasm_bytes, input_data, from } => {
                &&& self.storage_service@ == before.storage_service@
                &&& exists|task_id: Seq<char>, execution_time_ms: u64|
                    is_task_name(task_id) && #[trigger] self.computed(
                        before,
                        task_id,
                        execution_time_ms,
                        response,
                    )
            },
            MessageView::DiscoveryRequest { from } => {
                &&& response == (MessageView::DiscoveryResponse {
                    nodes: listed(before.peer_views()),
                })
                &&& self.storage_service@ == before.storage_service@
                &&& self.compute_service == before.compute_service
            },
            _ => {
                &&& response == pong(before.node_id@, 0)
                &&& self.storage_service@ == before.storage_service@
                &&& self.compute_service == before.compute_service
            },
        }
    }

    /// A node that knows no peer, with an empty shard store of
    /// `storage_bytes` bytes.
    pub fn new(node_id: String, address: String, storage_bytes: u64) -> (node: Self)
        ensures
            node.node_id == node_id,
            node.address == address,
            node.peers.entries().len() == 0,
            node.storage_service@ == (StorageState {
                node_id: node_id@,
                shards: Seq::empty(),
                total: storage_bytes as nat,
                used: 0,
            }),
            node.compute_service.node_id@ == node_id@,
            node.compute_service.max_concurrent_tasks == MAX_CONCURRENT_TASKS,
            node.compute_service.active_tasks.entries().len() == 0,
            node.compute_service.completed_tasks.entries().len() == 0,
            node.network_service.node_id@ == node_id@,
            node.network_service.nodes.entries().len() == 0,
            node.network_service.pending@.len() == 0,
    {
        let storage_service = StorageService::new(node_id.clone(), storage_bytes);
        let network_service = NetworkService::new(node_id.clone());
        let compute_service = ComputeService::new(node_id.clone(), MAX_CONCURRENT_TASKS);
        P2PNode {
            node_id,
            address,
            storage_service,
            network_service,
            compute_service,
            peers: Registry::new(),
        }
    }

    /// Starts the node: records the bootstrap peers and returns what is
    /// to be sent to whom to join the swarm, a discovery request to each
    /// peer.
    pub fn start(&mut self) -> (requests: Vec<(String, P2PMessage)>)
        ensures
            final(self).node_id == old(self).node_id,
            final(self).address == old(self).address,
            final(self).storage_service == old(self).storage_service,
            final(self).compute_service == old(self).compute_service,
            final(self).network_service == old(self).network_service,
            exists|now: u64| #[trigger]
                registered(old(self).peer_views(), bootstrap_seeds(), old(self).node_id@, now)
                    == final(self).peer_views(),
            final(self).sends(
                requests@,
                MessageView::DiscoveryRequest { from: final(self).node_id@ },
            ),
    {
        self.discover_peers();
        self.connect_requests()
    }

    /// The peers that a node starts out with, as pairs of identifier and
    /// address.
    pub fn bootstrap_peers() -> (seeds: Vec<(String, String)>)
        ensures
            seed_views(seeds@) == bootstrap_seeds(),
    {
        let mut seeds: Vec<(String, String)> = Vec::new();
        seeds.push(("node_001".to_owned(), "127.0.0.1:3010".to_owned()));
        seeds.push(("node_002".to_owned(), "127.0.0.1:3011".to_owned()));
        seeds.push(("node_003".to_owned(), "127.0.0.1:3012".to_owned()));
        seeds.push(("node_004".to_owned(), "127.0.0.1:3013".to_owned()));
        seeds.push(("node_005".to_owned(), "127.0.0.1:3014".to_owned()));
        seeds.push(("node_006".to_owned(), "127.0.0.1:3015".to_owned()));
        assert(seed_views(seeds@) =~= bootstrap_seeds());
        seeds
    }

    /// Records the bootstrap peers as seen now.
    pub fn discover_peers(&mut self)
        ensures
            final(self).node_id == old(self).node_id,
            final(self).address == old(self).address,
            final(self).storage_service == old(self).storage_service,
            final(self).compute_service == old(self).compute_service,
            final(self).network_service == old(self).network_service,
            exists|now: u64| #[trigger]
                registered(old(self).peer_views(), bootstrap_seeds(), old(self).node_id@, now)
                    == final(self).peer_views(),
    {
        let now = unix_timestamp();
        self.discover_peers_at(now);
        assert(registered(old(self).peer_views(), bootstrap_seeds(), old(self).node_id@, now)
            == self.peer_views());
    }

    /// Records the bootstrap peers as seen at time `now`.
    pub fn discover_peers_at(&mut self, now: u64)
        ensures
            final(self).node_id == old(self).node_id,
            final(self).address == old(self).address,
            final(self).storage_service == old(self).storage_service,
            final(self).compute_service == old(self).compute_service,
            final(self).network_service == old(self).network_service,
            final(self).peer_views() == registered(
                old(self).peer_views(),
                bootstrap_seeds(),
                old(self).node_id@,
                now,
            ),
    {
        let seeds = Self::bootstrap_peers();
        self.register_peers(&seeds, now);
    }

    /// Records the peers named in `seeds`, pairs of identifier and
    /// address, as seen at time `now` and with the default capabilities. A
    /// pair that names this node is passed over; a peer that is already
    /// known is overwritten in place.
    pub fn register_peers(&mut self, seeds: &Vec<(String, String)>, now: u64)
        ensures
            final(self).node_id == old(self).node_id,
            final(self).address == old(self).address,
            final(self).storage_service == old(self).storage_service,
            final(self).compute_service == old(self).compute_service,
            final(self).network_service == old(self).network_service,
            final(self).peer_views() == registered(
                old(self).peer_views(),
                seed_views(seeds@),
                old(self).node_id@,
                now,
            ),
    {
        let ghost all = seed_views(seeds@);
        let ghost own = self.node_id@;
        let ghost start = self.peer_views();
        let mut i: usize = 0;
        assert(all.take(0) =~= Seq::empty());
        while i < seeds.len()
            invariant
                i <= seeds@.len(),
                all == seed_views(seeds@),
                own == self.node_id@,
                self.node_id == old(self).node_id,
                self.address == old(self).address,
                self.storage_service == old(self).storage_service,
                self.compute_service == old(self).compute_service,
                self.network_service == old(self).network_service,
                self.peer_views() == registered(start, all.take(i as int), own, now),
            decreases seeds@.len() - i,
        {
            proof {
                assert(all.take(i + 1).drop_last() =~= all.take(i as int));
                assert(all.take(i + 1).last() == all[i as int]);
            }
            if seeds[i].0 != self.node_id {
                let peer = PeerInfo {
                    node_id: seeds[i].0.clone(),
                    address: seeds[i].1.clone(),
                    capabilities: NodeCapabilities {
                        storage_gb: 100,
                        compute_flops: 1_000_000_000,
                        bandwidth_mbps: 100,
                    },
                    last_seen: now,
                };
                proof {
                    lemma_project_upsert(
                        self.peers.entries(),
                        |peer: PeerInfo| peer@,
                        seeds@[i as int].0@,
                        peer,
                    );
                }
                self.peers.insert(seeds[i].0.clone(), peer);
            }
            i += 1;
        }
        assert(all.take(seeds@.len() as int) =~= all);
    }

    /// Records `peer` under its identifier: a peer that is already known
    /// is overwritten in place, a new one joins at the end.
    pub fn upsert_peer(&mut self, peer: PeerInfo)
        ensures
            final(self).node_id == old(self).node_id,
            final(self).address == old(self).address,
            final(self).storage_service == old(self).storage_service,
            final(self).compute_service == old(self).compute_service,
            final(self).network_service == old(self).network_service,
            final(self).peer_views() == upsert(old(self).peer_views(), peer@.node_id, peer@),
            unique_keys(final(self).peer_views()),
    {
        proof {
            lemma_project_upsert(
                self.peers.entries(),
                |peer: PeerInfo| peer@,
                peer.node_id@,
                peer,
            );
        }
        let key = peer.node_id.clone();
        self.peers.insert(key, peer);
        proof {
            lemma_project_find(self.peers.entries(), |peer: PeerInfo| peer@, seq![]);
        }
    }

    /// What this node knows of the peer `node_id`.
    pub fn get_peer(&self, node_id: &str) -> (found: Option<&PeerInfo>)
        ensures
            match found {
                Some(peer) => lookup(self.peer_views(), node_id@) == Some(peer@),
                None => lookup(self.peer_views(), node_id@) is None,
            },
    {
        proof {
            lemma_project_find(self.peers.entries(), |peer: PeerInfo| peer@, node_id@);
        }
        self.peers.get(node_id)
    }

    /// The peers that were ever seen, in the order of the registry.
    pub fn list_online(&self) -> (online: Vec<&PeerInfo>)
        ensures
            targets(online@) == selected(
                self.peers.entries(),
                |id: Seq<char>, peer: PeerInfo| peer.last_seen > 0,
            ),
    {
        let ghost keep = |id: Seq<char>, peer: PeerInfo| peer.last_seen > 0;
        let ghost entries = self.peers.entries();
        let mut online: Vec<&PeerInfo> = Vec::new();
        let n = self.peers.len();
        let mut i: usize = 0;
        while i < n
            invariant
                i <= n,
                n == entries.len(),
                entries == self.peers.entries(),
                keep == |id: Seq<char>, peer: PeerInfo| peer.last_seen > 0,
                targets(online@) == selected(entries.take(i as int), keep),
            decreases n - i,
        {
            proof {
                lemma_selected_step(entries, keep, i as int);
            }
            let peer = self.peers.value_at(i);
            if peer.is_online() {
                online.push(peer);
                assert(targets(online@) =~= selected(entries.take(i as int), keep).push(*peer));
            }
            i += 1;
        }
        assert(entries.take(n as int) =~= entries);
        online
    }

    /// Notes that the peer `node_id` was seen at time `now`, and says
    /// whether there is such a peer. Nothing else of the peer changes, and
    /// a peer that is not known is not made up.
    pub fn refresh_last_seen(&mut self, node_id: &str, now: u64) -> (known: bool)
        ensures
            final(self).node_id == old(self).node_id,
            final(self).address == old(self).address,
            final(self).storage_service == old(self).storage_service,
            final(self).compute_service == old(self).compute_service,
            final(self).network_service == old(self).network_service,
            match lookup(old(self).peer_views(), node_id@) {
                Some(peer) => known && final(self).peer_views() == upsert(
                    old(self).peer_views(),
                    node_id@,
                    PeerView { last_seen: now, ..peer },
                ),
                None => !known && final(self).peers == old(self).peers,
            },
    {
        proof {
            lemma_project_find(self.peers.entries(), |peer: PeerInfo| peer@, node_id@);
        }
        let seen = match self.peers.get(node_id) {
            None => None,
            Some(peer) => Some(
                PeerInfo {
                    node_id: peer.node_id.clone(),
                    address: peer.address.clone(),
                    capabilities: peer.capabilities,
                    last_seen: now,
                },
            ),
        };
        match seen {
            None => false,
            Some(peer) => {
                proof {
                    lemma_project_upsert(
                        self.peers.entries(),
                        |peer: PeerInfo| peer@,
                        node_id@,
                        peer,
                    );
                }
                self.peers.insert(node_id.to_owned(), peer);
                true
            },
        }
    }

    /// The state of the swarm as this node sees it: for every peer but
    /// this node itself, in the order of the registry, its identifier and
    /// whether it was ever seen.
    pub fn swarm_status(&self) -> (status: Vec<(String, bool)>)
        ensures
            Seq::new(status@.len(), |i: int| (status@[i].0@, status@[i].1)) == seen_except(
                self.peer_views(),
                self.node_id@,
            ),
    {
        let ghost peers = self.peer_views();
        let ghost own = self.node_id@;
        let mut status: Vec<(String, bool)> = Vec::new();
        let n = self.peers.len();
        let mut i: usize = 0;
        assert(peers.take(0) =~= Seq::empty());
        while i < n
            invariant
                i <= n,
                n == self.peers.entries().len(),
                peers == self.peer_views(),
                own == self.node_id@,
                Seq::new(status@.len(), |i: int| (status@[i].0@, status@[i].1)) == seen_except(
                    peers.take(i as int),
                    own,
                ),
            decreases n - i,
        {
            proof {
                assert(peers.take(i + 1).drop_last() =~= peers.take(i as int));
                assert(peers.take(i + 1).last() == peers[i as int]);
            }
            if *self.peers.key_at(i) != self.node_id {
                let ghost earlier = Seq::new(status@.len(), |i: int| (status@[i].0@, status@[i].1));
                let online = self.peers.value_at(i).is_online();
                status.push((self.peers.key_at(i).clone(), online));
                assert(Seq::new(status@.len(), |i: int| (status@[i].0@, status@[i].1))
                    =~= earlier.push((peers[i as int].0, peers[i as int].1.last_seen > 0)));
            }
            i += 1;
        }
        assert(peers.take(n as int) =~= peers);
        status
    }

    /// `outbound` holds, for each peer stored under another key than this
    /// node's identifier and in the order of the registry, that peer's
    /// address and a message that reads `message`.
    pub open spec fn sends(self, outbound: Seq<(String, P2PMessage)>, message: MessageView) -> bool {
        &&& Seq::new(outbound.len(), |i: int| outbound[i].0@) == addresses_except(
            self.peer_views(),
            self.node_id@,
        )
        &&& forall|i: int| 0 <= i < outbound.len() ==> (#[trigger] outbound[i]).1@ == message
    }

    /// What is to be sent to whom to join the swarm: a discovery request
    /// to every peer but this node itself.
    pub fn connect_requests(&self) -> (requests: Vec<(String, P2PMessage)>)
        ensures
            self.sends(requests@, MessageView::DiscoveryRequest { from: self.node_id@ }),
    {
        let targets = self.other_addresses();
        let ghost wanted = addresses_except(self.peer_views(), self.node_id@);
        let mut requests: Vec<(String, P2PMessage)> = Vec::new();
        let mut i: usize = 0;
        while i < targets.len()
            invariant
                i <= targets@.len(),
                texts(targets@) == wanted,
                requests@.len() == i,
                forall|j: int| 0 <= j < i ==> (#[trigger] requests@[j]).0@ == wanted[j],
                forall|j: int|
                    0 <= j < i ==> (#[trigger] requests@[j]).1@ == (MessageView::DiscoveryRequest {
                        from: self.node_id@,
                    }),
            decreases targets@.len() - i,
        {
            assert(texts(targets@)[i as int] == targets@[i as int]@);
            let message = P2PMessage::DiscoveryRequest { from: self.node_id.clone() };
            requests.push((targets[i].clone(), message));
            i += 1;
        }
        assert(Seq::new(requests@.len(), |i: int| requests@[i].0@) =~= wanted);
        requests
    }

    /// One round of liveness probes: a ping that carries `now`, to every
    /// peer but this node itself. No answer is awaited.
    pub fn heartbeat_round(&self, now: u64) -> (pings: Vec<(String, P2PMessage)>)
        ensures
            self.sends(pings@, MessageView::Ping { from: self.node_id@, timestamp: now }),
    {
        let targets = self.other_addresses();
        let ghost wanted = addresses_except(self.peer_views(), self.node_id@);
        let mut pings: Vec<(String, P2PMessage)> = Vec::new();
        let mut i: usize = 0;
        while i < targets.len()
            invariant
                i <= targets@.len(),
                texts(targets@) == wanted,
                pings@.len() == i,
                forall|j: int| 0 <= j < i ==> (#[trigger] pings@[j]).0@ == wanted[j],
                forall|j: int|
                    0 <= j < i ==> (#[trigger] pings@[j]).1@ == (MessageView::Ping {
                        from: self.node_id@,
                        timestamp: now,
                    }),
            decreases targets@.len() - i,
        {
            assert(texts(targets@)[i as int] == targets@[i as int]@);
            let message = P2PMessage::Ping { from: self.node_id.clone(), timestamp: now };
            pings.push((targets[i].clone(), message));
            i += 1;
        }
        assert(Seq::new(pings@.len(), |i: int| pings@[i].0@) =~= wanted);
        pings
    }

    /// The addresses of the peers stored under another key than this
    /// node's identifier, in the order of the registry.
    pub fn other_addresses(&self) -> (found: Vec<String>)
        ensures
            texts(found@) == addresses_except(self.peer_views(), self.node_id@),
    {
        let ghost peers = self.peer_views();
        let ghost own = self.node_id@;
        let mut found: Vec<String> = Vec::new();
        let n = self.peers.len();
        let mut i: usize = 0;
        assert(peers.take(0) =~= Seq::empty());
        while i < n
            invariant
                i <= n,
                n == self.peers.entries().len(),
                peers == self.peer_views(),
                own == self.node_id@,
                texts(found@) == addresses_except(peers.take(i as int), own),
            decreases n - i,
        {
            proof {
                assert(peers.take(i + 1).drop_last() =~= peers.take(i as int));
                assert(peers.take(i + 1).last() == peers[i as int]);
            }
            if *self.peers.key_at(i) != self.node_id {
                let address = self.peers.value_at(i).address.clone();
                found.push(address);
                assert(texts(found@) =~= addresses_except(peers.take(i as int), own).push(
                    peers[i as int].1.address,
                ));
            }
            i += 1;
        }
        assert(peers.take(n as int) =~= peers);
        found
    }

    /// The addresses of all peers, in the order of the registry.
    pub fn peer_addresses(&self) -> (found: Vec<String>)
        ensures
            texts(found@) == addresses(self.peer_views()),
    {
        let mut found: Vec<String> = Vec::new();
        let n = self.peers.len();
        let mut i: usize = 0;
        while i < n
            invariant
                i <= n,
                n == self.peers.entries().len(),
                found@.len() == i,
                forall|j: int| 0 <= j < i ==> (#[trigger] found@[j])@ == self.peer_views()[j].1.address,
            decreases n - i,
        {
            let address = self.peers.value_at(i).address.clone();
            found.push(address);
            i += 1;
        }
        assert(texts(found@) =~= addresses(self.peer_views()));
        found
    }

    /// The plan for storing `data` on up to `redundancy` peers: the peers
    /// are asked in the order of the registry until that many have stored
    /// it.
    pub fn store_data_on_network(&self, data: Vec<u8>, redundancy: u8) -> (plan: StoreFanout)
        ensures
            plan.targets() == addresses(self.peer_views()),
            plan.wanted() == redundancy,
            plan.history().len() == 0,
            plan.request() == (MessageView::StoreRequest {
                data: data@,
                redundancy: 1,
                from: self.node_id@,
            }),
    {
        StoreFanout::new(self.node_id.clone(), self.peer_addresses(), data, redundancy)
    }

    /// The plan for fetching the shard `shard_id` from the swarm: the
    /// peers are asked in the order of the registry until one hands the
    /// bytes over.
    pub fn retrieve_data_from_network(&self, shard_id: &str) -> (plan: RetrieveFanout)
        ensures
            plan.targets() == addresses(self.peer_views()),
            plan.history().len() == 0,
            plan.request() == (MessageView::RetrieveRequest {
                shard_id: shard_id@,
                from: self.node_id@,
            }),
    {
        RetrieveFanout::new(self.node_id.clone(), self.peer_addresses(), shard_id.to_owned())
    }

    /// Says what to do with a connection after `event`: a message is
    /// answered, anything else ends the connection with nothing sent.
    pub fn on_connection_event(&mut self, event: ConnectionEvent) -> (action: ConnectionAction)
        ensures
            match event {
                ConnectionEvent::Message(message) => action matches ConnectionAction::Reply(response)
                    && final(self).answers(*old(self), message@, response@),
                _ => action is Close && *final(self) == *old(self),
            },
    {
        match event {
            ConnectionEvent::Message(message) => ConnectionAction::Reply(
                self.process_message(message),
            ),
            _ => ConnectionAction::Close,
        }
    }

    /// The event that a read of `read` bytes stands for before any
    /// decoding: none where bytes came and are to be decoded, `Closed`
    /// where the read returned nothing.
    pub fn on_read(read: Option<usize>) -> (event: Option<ConnectionEvent>)
        ensures
            match read {
                None => event matches Some(e) && e is ReadFailed,
                Some(n) => if n == 0 {
                    event matches Some(e) && e is Closed
                } else {
                    event is None
                },
            },
    {
        match read {
            None => Some(ConnectionEvent::ReadFailed),
            Some(n) => if n == 0 {
                Some(ConnectionEvent::Closed)
            } else {
                None
            },
        }
    }

    /// Answers one message. A request is answered in kind; whatever is no
    /// request is answered with a pong that carries a zero timestamp.
    pub fn process_message(&mut self, message: P2PMessage) -> (response: P2PMessage)
        ensures
            final(self).answers(*old(self), message@, response@),
            !message@.is_request() ==> response@ == pong(old(self).node_id@, 0),
    {
        match message {
            P2PMessage::Ping { from, timestamp } => P2PMessage::Pong {
                from: self.node_id.clone(),
                timestamp,
            },
            P2PMessage::StoreRequest { data, redundancy, from } => {
                self.handle_store_request(data, redundancy, from.as_str())
            },
            P2PMessage::RetrieveRequest { shard_id, from } => {
                self.handle_retrieve_request(shard_id.as_str())
            },
            P2PMessage::ComputeRequest { wasm_bytes, input_data, from } => {
                let mut task_id = "task_".to_owned();
                task_id.append(fresh_identifier().as_str());
                proof {
                    reveal_strlit("task_");
                    assert(task_id@.subrange(0, 5) =~= "task_"@);
                }
                let ghost before = *self;
                let response = self.run_task(task_id.as_str());
                assert(exists|execution_time_ms: u64|
                    self.computed(before, task_id@, execution_time_ms, response@));
                response
            },
            P2PMessage::DiscoveryRequest { from } => self.handle_discovery_request(),
            _ => P2PMessage::Pong { from: self.node_id.clone(), timestamp: 0 },
        }
    }

    /// Answers a store request of the node `from`: the bytes go to the
    /// shard store under a fresh identifier.
    pub fn handle_store_request(&mut self, data: Vec<u8>, redundancy: u8, from: &str) -> (response:
        P2PMessage)
        ensures
            final(self).answers(
                *old(self),
                MessageView::StoreRequest { data: data@, redundancy, from: from@ },
                response@,
            ),
    {
        match self.storage_service.store_data(data, redundancy) {
            Ok(shard_id) => P2PMessage::StoreResponse {
                shard_id,
                success: true,
                message: "Data stored successfully".to_owned(),
            },
            Err(e) => {
                let mut message = "Storage failed: ".to_owned();
                message.append(e.to_string().as_str());
                P2PMessage::StoreResponse { shard_id: String::new(), success: false, message }
            },
        }
    }

    /// Answers a retrieve request from the shard store.
    pub fn handle_retrieve_request(&self, shard_id: &str) -> (response: P2PMessage)
        ensures
            response@ == retrieve_reply(self.storage_service@.retrieve(shard_id@)),
    {
        match self.storage_service.retrieve_data(shard_id) {
            Ok(data) => P2PMessage::RetrieveResponse {
                data: Some(data),
                success: true,
                message: "Data retrieved successfully".to_owned(),
            },
            Err(e) => {
                let mut message = "Retrieval failed: ".to_owned();
                message.append(e.to_string().as_str());
                P2PMessage::RetrieveResponse { data: None, success: false, message }
            },
        }
    }

    /// Runs the waiting task `task_id` for a compute request and answers
    /// with what came of it.
    pub fn run_task(&mut self, task_id: &str) -> (response: P2PMessage)
        ensures
            final(self).node_id == old(self).node_id,
            final(self).address == old(self).address,
            final(self).peers == old(self).peers,
            final(self).network_service == old(self).network_service,
            final(self).storage_service == old(self).storage_service,
            exists|execution_time_ms: u64| #[trigger]
                final(self).computed(*old(self), task_id@, execution_time_ms, response@),
    {
        let ghost before = *self;
        match self.compute_service.execute_task(task_id) {
            Ok(result) => {
                let ghost elapsed = result.execution_time_ms;
                let response = P2PMessage::ComputeResponse {
                    result: Some(result.output_data),
                    success: true,
                    message: "Compute completed successfully".to_owned(),
                };
                assert(lookup(before.compute_service.active_tasks.entries(), task_id@) is Some);
                assert(self.computed(before, task_id@, elapsed, response@));
                response
            },
            Err(e) => {
                let mut message = "Compute failed: ".to_owned();
                message.append(e.to_string().as_str());
                let response = P2PMessage::ComputeResponse { result: None, success: false, message };
                assert(lookup(before.compute_service.active_tasks.entries(), task_id@) is None);
                assert(response@ == compute_reply(Err(ComputeError::TaskNotFound)));
                assert(self.compute_service == before.compute_service);
                assert(self.computed(before, task_id@, 0, response@));
                response
            },
        }
    }

    /// Answers a discovery request with the peers this node knows, in the
    /// order of the registry.
    pub fn handle_discovery_request(&self) -> (response: P2PMessage)
        ensures
            response@ == (MessageView::DiscoveryResponse { nodes: listed(self.peer_views()) }),
    {
        let mut nodes: Vec<PeerInfo> = Vec::new();
        let n = self.peers.len();
        let mut i: usize = 0;
        while i < n
            invariant
                i <= n,
                n == self.peers.entries().len(),
                nodes@.len() == i,
                forall|j: int| 0 <= j < i ==> (#[trigger] nodes@[j])@ == self.peer_views()[j].1,
            decreases n - i,
        {
            nodes.push(self.peers.value_at(i).duplicate());
            i += 1;
        }
        assert(peer_list_view(nodes@) =~= listed(self.peer_views()));
        P2PMessage::DiscoveryResponse { nodes }
    }
}

/// Whatever is no request is answered with a pong from the node that
/// carries a zero timestamp, and changes nothing.
pub proof fn lemma_fallback_is_pong(
    before: P2PNode,
    after: P2PNode,
    message: MessageView,
    response: MessageView,
)
    requires
        after.answers(before, message, response),
        !message.is_request(),
    ensures
        response == pong(before.node_id@, 0),
        after.storage_service@ == before.storage_service@,
        after.compute_service == before.compute_service,
        after.peers == before.peers,
{
}

/// A peer that answered a store request with success hands the same bytes
/// back when it is asked for the shard it named.
pub proof fn lemma_peer_round_trip(
    before: P2PNode,
    after: P2PNode,
    data: Seq<u8>,
    redundancy: u8,
    from: Seq<char>,
    response: MessageView,
)
    requires
        before.storage_service@.valid(),
        after.answers(before, MessageView::StoreRequest { data, redundancy, from }, response),
        response matches MessageView::StoreResponse { success, .. } && success,
    ensures
        response matches MessageView::StoreResponse { shard_id, .. } && retrieve_reply(
            after.storage_service@.retrieve(shard_id),
        ) == (MessageView::RetrieveResponse {
            data: Some(data),
            success: true,
            message: "Data retrieved successfully"@,
        }),
{
    if before.storage_service@.fits(data.len()) {
        let shard_id = response->StoreResponse_shard_id;
        crate::storage::lemma_round_trip(before.storage_service@, shard_id, data, redundancy);
    }
}

} // verus!
