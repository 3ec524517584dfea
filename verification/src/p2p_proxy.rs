//! The proxy between browser clients and the nodes of the swarm: which
//! node a request goes to, what is sent to it, and what the client is
//! told.
//!
//! The proxy owns no socket. The caller forwards what this module orders
//! and hands back what the node answered.
use vstd::prelude::*;
use vstd::string::StringExecFns;
use crate::registry::{lemma_upsert_fresh, lookup, Registry};
use crate::text::{append_decimal, decimal};

verus! {

/// A request as clients send it and nodes receive it.
#[derive(Clone, Debug)]
pub struct P2PMessage {
    pub message_type: String,
    pub data: Option<Vec<u8>>,
    pub redundancy: Option<u32>,
    pub from: String,
    pub shard_id: Option<String>,
    pub wasm_bytes: Option<Vec<u8>>,
    pub input_data: Option<Vec<u8>>,
    pub timestamp: Option<u64>,
}

/// An answer as nodes send it and clients receive it.
#[derive(Clone, Debug)]
pub struct P2PResponse {
    pub success: bool,
    pub message: String,
    pub data: Option<Vec<u8>>,
    pub shard_id: Option<String>,
    pub result: Option<Vec<u8>>,
}

/// Why the proxy could not serve a request.
#[derive(Clone, Debug)]
pub enum ProxyError {
    /// The proxy knows no node of that name.
    NodeNotFound,
    /// The proxy knows no node at all.
    NoComputeNodes,
    /// The node reported success and sent no result.
    NoResultData,
    /// The node reported a failure, with this message.
    Remote(String),
}

impl ProxyError {
    /// The text of the error.
    pub open spec fn message(self) -> Seq<char> {
        match self {
            ProxyError::NodeNotFound => "Node not found"@,
            ProxyError::NoComputeNodes => "No compute nodes available"@,
            ProxyError::NoResultData => "No result data received"@,
            ProxyError::Remote(message) => message@,
        }
    }

    /// The text of the error.
    pub fn to_string(&self) -> (text: String)
        ensures
            text@ == self.message(),
    {
        match self {
            ProxyError::NodeNotFound => "Node not found".to_owned(),
            ProxyError::NoComputeNodes => "No compute nodes available".to_owned(),
            ProxyError::NoResultData => "No result data received".to_owned(),
            ProxyError::Remote(message) => message.clone(),
        }
    }
}

/// What the proxy does with a request of a client.
#[derive(Clone, Copy, Debug, PartialEq, Eq, Structural)]
pub enum Route {
    /// Store the data it carries, with this redundancy.
    Store { redundancy: u32 },
    /// Run the task it carries.
    Compute,
    /// A store or compute request that lacks what it needs: no answer.
    Incomplete,
    /// Any other kind of request: no answer.
    Unknown,
}

/// The name under which the proxy sends its own requests.
pub open spec fn proxy_name() -> Seq<char> {
    "p2p_client"@
}

/// The nodes that the proxy starts out with, as pairs of name and
/// address.
pub open spec fn default_nodes() -> Seq<(Seq<char>, Seq<char>)> {
    seq![
        ("node_001"@, "127.0.0.1:3001"@),
        ("node_002"@, "127.0.0.1:3002"@),
        ("node_003"@, "127.0.0.1:3003"@),
        ("node_004"@, "127.0.0.1:3004"@),
    ]
}

/// The names of the default nodes are four different names.
proof fn lemma_names_differ()
    ensures
        "node_001"@ != "node_002"@,
        "node_001"@ != "node_003"@,
        "node_001"@ != "node_004"@,
        "node_002"@ != "node_003"@,
        "node_002"@ != "node_004"@,
        "node_003"@ != "node_004"@,
{
    reveal_strlit("node_001");
    reveal_strlit("node_002");
    reveal_strlit("node_003");
    reveal_strlit("node_004");
    assert("node_001"@[7] != "node_002"@[7]);
    assert("node_001"@[7] != "node_003"@[7]);
    assert("node_001"@[7] != "node_004"@[7]);
    assert("node_002"@[7] != "node_003"@[7]);
    assert("node_002"@[7] != "node_004"@[7]);
    assert("node_003"@[7] != "node_004"@[7]);
}

/// The shard identifier that the proxy makes up for the copy with the
/// number `index`, sent at time `now` to the node `node_id`.
pub open spec fn shard_name(now: u64, index: u32, node_id: Seq<char>) -> Seq<char> {
    "shard_"@ + decimal(now as nat) + "_"@ + decimal(index as nat) + "_"@ + node_id
}

/// The bytes of an optional payload.
pub open spec fn bytes_of(payload: Option<Vec<u8>>) -> Option<Seq<u8>> {
    match payload {
        Some(bytes) => Some(bytes@),
        None => None,
    }
}

/// The text of an optional string.
pub open spec fn text_of(text: Option<String>) -> Option<Seq<char>> {
    match text {
        Some(t) => Some(t@),
        None => None,
    }
}

/// The store request for the copy `shard_id` of `data`.
pub open spec fn is_store_order(
    message: P2PMessage,
    data: Seq<u8>,
    redundancy: u32,
    shard_id: Seq<char>,
    now: u64,
) -> bool {
    &&& message.message_type@ == "StoreRequest"@
    &&& bytes_of(message.data) == Some(data)
    &&& message.redundancy == Some(redundancy)
    &&& message.from@ == proxy_name()
    &&& text_of(message.shard_id) == Some(shard_id)
    &&& message.wasm_bytes is None
    &&& message.input_data is None
    &&& message.timestamp == Some(now)
}

/// The compute request for the task `wasm_bytes` on `input_data`.
pub open spec fn is_compute_order(
    message: P2PMessage,
    wasm_bytes: Seq<u8>,
    input_data: Seq<u8>,
    now: u64,
) -> bool {
    &&& message.message_type@ == "ComputeRequest"@
    &&& message.data is None
    &&& message.redundancy is None
    &&& message.from@ == proxy_name()
    &&& message.shard_id is None
    &&& bytes_of(message.wasm_bytes) == Some(wasm_bytes)
    &&& bytes_of(message.input_data) == Some(input_data)
    &&& message.timestamp == Some(now)
}

/// An answer that carries nothing but its verdict and a message.
pub open spec fn is_verdict(response: P2PResponse, success: bool, message: Seq<char>) -> bool {
    &&& response.success == success
    &&& response.message@ == message
    &&& response.data is None
    &&& response.shard_id is None
    &&& response.result is None
}

/// What the proxy does with `message`.
pub open spec fn route_of(message: P2PMessage) -> Route {
    if message.message_type@ == "StoreRequest"@ {
        if message.data is Some && message.redundancy is Some {
            Route::Store { redundancy: message.redundancy->0 }
        } else {
            Route::Incomplete
        }
    } else if message.message_type@ == "ComputeRequest"@ {
        if message.wasm_bytes is Some && message.input_data is Some {
            Route::Compute
        } else {
            Route::Incomplete
        }
    } else {
        Route::Unknown
    }
}

/// The shard identifiers of the copies that were delivered.
pub open spec fn delivered_shards(shard_ids: Seq<Seq<char>>, delivered: Seq<bool>) -> Seq<
    Seq<char>,
>
    decreases shard_ids.len(),
{
    if shard_ids.len() == 0 {
        Seq::empty()
    } else {
        let earlier = delivered_shards(shard_ids.drop_last(), delivered);
        if shard_ids.len() <= delivered.len() && delivered[shard_ids.len() - 1] {
            earlier.push(shard_ids.last())
        } else {
            earlier
        }
    }
}

/// The proxy.
pub struct P2PProxy {
    /// The addresses of the nodes by name.
    pub nodes: Registry<String>,
}

impl P2PProxy {
    /// The addresses of the nodes by name, as plain values.
    pub open spec fn addresses(self) -> Seq<(Seq<char>, Seq<char>)> {
        Seq::new(
            self.nodes.entries().len(),
            |i: int| (self.nodes.entries()[i].0, self.nodes.entries()[i].1@),
        )
    }

    /// A proxy that knows the four nodes of the default swarm.
    pub fn new() -> (proxy: Self)
        ensures
            proxy.addresses() == default_nodes(),
    {
        let a = "127.0.0.1:3001".to_owned();
        let b = "127.0.0.1:3002".to_owned();
        let c = "127.0.0.1:3003".to_owned();
        let d = "127.0.0.1:3004".to_owned();
        let mut nodes: Registry<String> = Registry::new();
        proof {
            lemma_names_differ();
            lemma_upsert_fresh(nodes.entries(), "node_001"@, a);
        }
        nodes.insert("node_001".to_owned(), a);
        proof {
            lemma_upsert_fresh(nodes.entries(), "node_002"@, b);
        }
        nodes.insert("node_002".to_owned(), b);
        proof {
            lemma_upsert_fresh(nodes.entries(), "node_003"@, c);
        }
        nodes.insert("node_003".to_owned(), c);
        proof {
            lemma_upsert_fresh(nodes.entries(), "node_004"@, d);
        }
        nodes.insert("node_004".to_owned(), d);
        let proxy = P2PProxy { nodes };
        assert(proxy.addresses() =~= default_nodes());
        proxy
    }

    /// The address of the node `node_id`.
    pub fn node_address(&self, node_id: &str) -> (address: Result<&String, ProxyError>)
        ensures
            match address {
                Ok(found) => lookup(self.nodes.entries(), node_id@) == Some(*found),
                Err(e) => e is NodeNotFound && lookup(self.nodes.entries(), node_id@) is None,
            },
    {
        match self.nodes.get(node_id) {
            Some(address) => Ok(address),
            None => Err(ProxyError::NodeNotFound),
        }
    }

    /// What a node is taken to have answered: what it sent where that
    /// could be read, and otherwise a plain success.
    pub fn reply_or_fallback(decoded: Option<P2PResponse>) -> (response: P2PResponse)
        ensures
            match decoded {
                Some(sent) => response == sent,
                None => is_verdict(response, true, "Message forwarded to node"@),
            },
    {
        match decoded {
            Some(sent) => sent,
            None => P2PResponse {
                success: true,
                message: "Message forwarded to node".to_owned(),
                data: None,
                shard_id: None,
                result: None,
            },
        }
    }

    /// The order for the copy with the number `index` of a store of
    /// `data` with `redundancy` copies, made at time `now`: the name of
    /// the node it goes to, the shard identifier made up for it and the
    /// request. The copies go round the nodes in the order in which the
    /// proxy knows them.
    pub fn storage_order(&self, index: u32, data: &[u8], redundancy: u32, now: u64) -> (order: (
        String,
        String,
        P2PMessage,
    ))
        requires
            self.nodes.entries().len() > 0,
        ensures
            order.0@ == self.nodes.entries()[index as int % self.nodes.entries().len() as int].0,
            order.1@ == shard_name(now, index, order.0@),
            is_store_order(order.2, data@, redundancy, order.1@, now),
    {
        let count = self.nodes.len();
        let node_id = self.nodes.key_at(index as usize % count).clone();
        let mut shard_id = "shard_".to_owned();
        append_decimal(&mut shard_id, now as u128);
        shard_id.append("_");
        append_decimal(&mut shard_id, index as u128);
        shard_id.append("_");
        shard_id.append(node_id.as_str());
        assert(shard_id@ =~= shard_name(now, index, node_id@));
        let message = P2PMessage {
            message_type: "StoreRequest".to_owned(),
            data: Some(vstd::slice::slice_to_vec(data)),
            redundancy: Some(redundancy),
            from: "p2p_client".to_owned(),
            shard_id: Some(shard_id.clone()),
            wasm_bytes: None,
            input_data: None,
            timestamp: Some(now),
        };
        (node_id, shard_id, message)
    }

    /// The shard identifiers of the copies that were delivered, given the
    /// identifier of each copy and whether forwarding it succeeded.
    pub fn collect_stored(shard_ids: &Vec<String>, delivered: &Vec<bool>) -> (stored: Vec<String>)
        ensures
            Seq::new(stored@.len(), |i: int| stored@[i]@) == delivered_shards(
                Seq::new(shard_ids@.len(), |i: int| shard_ids@[i]@),
                delivered@,
            ),
    {
        let ghost all = Seq::new(shard_ids@.len(), |i: int| shard_ids@[i]@);
        let mut stored: Vec<String> = Vec::new();
        let mut i: usize = 0;
        assert(all.take(0) =~= Seq::<Seq<char>>::empty());
        while i < shard_ids.len()
            invariant
                i <= shard_ids@.len(),
                all == Seq::new(shard_ids@.len(), |i: int| shard_ids@[i]@),
                Seq::new(stored@.len(), |i: int| stored@[i]@) == delivered_shards(
                    all.take(i as int),
                    delivered@,
                ),
            decreases shard_ids@.len() - i,
        {
            proof {
                assert(all.take(i + 1).drop_last() =~= all.take(i as int));
                assert(all.take(i + 1).last() == all[i as int]);
            }
            if i < delivered.len() && delivered[i] {
                let ghost earlier = Seq::new(stored@.len(), |i: int| stored@[i]@);
                stored.push(shard_ids[i].clone());
                assert(Seq::new(stored@.len(), |i: int| stored@[i]@) =~= earlier.push(all[i as int]));
            }
            i += 1;
        }
        assert(all.take(shard_ids@.len() as int) =~= all);
        stored
    }

    /// The order for a task, made at time `now`: the name of the node it
    /// goes to, which is the first the proxy knows, and the request.
    pub fn compute_order(&self, wasm_bytes: &[u8], input_data: &[u8], now: u64) -> (order: Result<
        (String, P2PMessage),
        ProxyError,
    >)
        ensures
            match order {
                Ok((node_id, message)) => self.nodes.entries().len() > 0 && node_id@
                    == self.nodes.entries()[0].0 && is_compute_order(
                    message,
                    wasm_bytes@,
                    input_data@,
                    now,
                ),
                Err(e) => e is NoComputeNodes && self.nodes.entries().len() == 0,
            },
    {
        if self.nodes.len() == 0 {
            return Err(ProxyError::NoComputeNodes);
        }
        let node_id = self.nodes.key_at(0).clone();
        let message = P2PMessage {
            message_type: "ComputeRequest".to_owned(),
            data: None,
            redundancy: None,
            from: "p2p_client".to_owned(),
            shard_id: None,
            wasm_bytes: Some(vstd::slice::slice_to_vec(wasm_bytes)),
            input_data: Some(vstd::slice::slice_to_vec(input_data)),
            timestamp: Some(now),
        };
        Ok((node_id, message))
    }

    /// What a task came to, given the answer of the node that ran it.
    pub fn compute_result(response: P2PResponse) -> (result: Result<Vec<u8>, ProxyError>)
        ensures
            match result {
                Ok(output) => response.success && response.result == Some(output),
                Err(ProxyError::NoResultData) => response.success && response.result is None,
                Err(ProxyError::Remote(message)) => !response.success && message == response.message,
                Err(_) => false,
            },
    {
        if response.success {
            match response.result {
                Some(output) => Ok(output),
                None => Err(ProxyError::NoResultData),
            }
        } else {
            Err(ProxyError::Remote(response.message))
        }
    }

    /// What the proxy does with the request `message` of a client.
    pub fn route(message: &P2PMessage) -> (route: Route)
        ensures
            route == route_of(*message),
    {
        let store = "StoreRequest".to_owned();
        let compute = "ComputeRequest".to_owned();
        if message.message_type == store {
            match (&message.data, &message.redundancy) {
                (Some(_), Some(redundancy)) => Route::Store { redundancy: *redundancy },
                _ => Route::Incomplete,
            }
        } else if message.message_type == compute {
            match (&message.wasm_bytes, &message.input_data) {
                (Some(_), Some(_)) => Route::Compute,
                _ => Route::Incomplete,
            }
        } else {
            Route::Unknown
        }
    }

    /// What a client is told after a store with `redundancy` copies was
    /// distributed.
    pub fn store_response(redundancy: u32) -> (response: P2PResponse)
        ensures
            is_verdict(
                response,
                true,
                "File stored with "@ + decimal(redundancy as nat) + "x redundancy"@,
            ),
    {
        let mut message = "File stored with ".to_owned();
        append_decimal(&mut message, redundancy as u128);
        message.append("x redundancy");
        assert(message@ =~= "File stored with "@ + decimal(redundancy as nat) + "x redundancy"@);
        P2PResponse { success: true, message, data: None, shard_id: None, result: None }
    }

    /// What a client is told after a store failed for the reason `why`.
    pub fn store_failure(why: &str) -> (response: P2PResponse)
        ensures
            is_verdict(response, false, "Storage failed: "@ + why@),
    {
        let mut message = "Storage failed: ".to_owned();
        message.append(why);
        P2PResponse { success: false, message, data: None, shard_id: None, result: None }
    }

    /// What a client is told after a task, given what it came to.
    pub fn compute_response(outcome: Result<Vec<u8>, ProxyError>) -> (response: P2PResponse)
        ensures
            match outcome {
                Ok(output) => {
                    &&& response.success
                    &&& response.message@ == "Compute completed successfully"@
                    &&& response.data is None
                    &&& response.shard_id is None
                    &&& response.result == Some(output)
                },
                Err(e) => is_verdict(response, false, "Compute failed: "@ + e.message()),
            },
    {
        match outcome {
            Ok(output) => P2PResponse {
                success: true,
                message: "Compute completed successfully".to_owned(),
                data: None,
                shard_id: None,
                result: Some(output),
            },
            Err(e) => {
                let mut message = "Compute failed: ".to_owned();
                message.append(e.to_string().as_str());
                P2PResponse { success: false, message, data: None, shard_id: None, result: None }
            },
        }
    }
}

} // verus!
