//! Redundant distribution and retrieval across the peers of a node.
//!
//! A store asks the peers one after the other, in the order of the
//! registry, until as many as wanted have stored the bytes; a peer that
//! cannot be reached, does not answer or answers with a failure is passed
//! over. The store fails only where no peer at all stored the bytes: fewer
//! copies than wanted are a success, told by the number of shard
//! identifiers returned. A retrieval asks the peers in the same order and
//! stops at the first that hands the bytes over.
//!
//! The plans of this module decide whom to ask next and what the answers
//! add up to; sending the request and reading the answer is the caller's.
use vstd::prelude::*;
use crate::p2p_node::{texts, MessageView, P2PMessage};

verus! {

/// What came of asking one peer.
#[derive(Debug)]
pub enum Exchange {
    /// No connection could be made.
    Unreachable,
    /// The request could not be sent, or no answer that can be read came
    /// back.
    NoReply,
    /// The peer answered with this message.
    Reply(P2PMessage),
}

/// What an exchange holds, as plain values.
pub enum ExchangeView {
    Unreachable,
    NoReply,
    Reply(MessageView),
}

impl View for Exchange {
    type V = ExchangeView;

    open spec fn view(&self) -> ExchangeView {
        match *self {
            Exchange::Unreachable => ExchangeView::Unreachable,
            Exchange::NoReply => ExchangeView::NoReply,
            Exchange::Reply(message) => ExchangeView::Reply(message@),
        }
    }
}

/// The exchanges of a list, as plain values.
pub open spec fn exchange_views(exchanges: Seq<Exchange>) -> Seq<ExchangeView> {
    Seq::new(exchanges.len(), |i: int| exchanges[i]@)
}

/// Why an operation on the swarm failed as a whole.
#[derive(Clone, Copy, Debug, PartialEq, Eq, Structural)]
pub enum FanoutError {
    /// No peer stored the bytes.
    TotalDistributionFailure,
    /// No peer handed the bytes over.
    TotalRetrievalFailure,
}

impl FanoutError {
    /// The text of the error.
    pub open spec fn message(self) -> Seq<char> {
        match self {
            FanoutError::TotalDistributionFailure => "Failed to store data on any peers"@,
            FanoutError::TotalRetrievalFailure => "Failed to retrieve data from any peers"@,
        }
    }

    /// The text of the error.
    pub fn to_string(&self) -> (text: String)
        ensures
            text@ == self.message(),
    {
        match self {
            FanoutError::TotalDistributionFailure => "Failed to store data on any peers".to_owned(),
            FanoutError::TotalRetrievalFailure => "Failed to retrieve data from any peers".to_owned(),
        }
    }
}

/// The shard identifier that an exchange acknowledges a store with: that
/// of a store response which reports success.
pub open spec fn store_ack(exchange: ExchangeView) -> Option<Seq<char>> {
    match exchange {
        ExchangeView::Reply(MessageView::StoreResponse { shard_id, success, message }) => if success {
            Some(shard_id)
        } else {
            None
        },
        _ => None,
    }
}

/// The bytes that an exchange hands over: those of a retrieve response
/// which reports success and carries a payload.
pub open spec fn payload(exchange: ExchangeView) -> Option<Seq<u8>> {
    match exchange {
        ExchangeView::Reply(MessageView::RetrieveResponse { data, success, message }) => if success {
            data
        } else {
            None
        },
        _ => None,
    }
}

/// The shard identifiers of the first `wanted` exchanges that acknowledge
/// a store, in the order of the exchanges.
pub open spec fn collected(exchanges: Seq<ExchangeView>, wanted: nat) -> Seq<Seq<char>>
    decreases exchanges.len(),
{
    if wanted == 0 || exchanges.len() == 0 {
        Seq::empty()
    } else {
        match store_ack(exchanges[0]) {
            Some(shard_id) => seq![shard_id] + collected(
                exchanges.drop_first(),
                (wanted - 1) as nat,
            ),
            None => collected(exchanges.drop_first(), wanted),
        }
    }
}

/// How many of the exchanges acknowledge a store.
pub open spec fn successes(exchanges: Seq<ExchangeView>) -> nat
    decreases exchanges.len(),
{
    if exchanges.len() == 0 {
        0
    } else {
        successes(exchanges.drop_first()) + if store_ack(exchanges[0]) is Some {
            1nat
        } else {
            0nat
        }
    }
}

/// The bytes of the first exchange that hands bytes over.
pub open spec fn first_payload(exchanges: Seq<ExchangeView>) -> Option<Seq<u8>>
    decreases exchanges.len(),
{
    if exchanges.len() == 0 {
        None
    } else {
        match payload(exchanges[0]) {
            Some(bytes) => Some(bytes),
            None => first_payload(exchanges.drop_first()),
        }
    }
}

/// What a store on the swarm comes to, given what asking each peer in
/// turn yields: the shard identifiers of the peers that stored the bytes,
/// or the failure of the whole where none did.
pub open spec fn distribution(exchanges: Seq<ExchangeView>, wanted: nat) -> Result<
    Seq<Seq<char>>,
    FanoutError,
> {
    let shard_ids = collected(exchanges, wanted);
    if shard_ids.len() > 0 {
        Ok(shard_ids)
    } else {
        Err(FanoutError::TotalDistributionFailure)
    }
}

/// What a retrieval from the swarm comes to, given what asking each peer
/// in turn yields: the first bytes handed over, or the failure of the
/// whole where no peer handed any over.
pub open spec fn retrieval(exchanges: Seq<ExchangeView>) -> Result<Seq<u8>, FanoutError> {
    match first_payload(exchanges) {
        Some(bytes) => Ok(bytes),
        None => Err(FanoutError::TotalRetrievalFailure),
    }
}

/// One exchange more adds its shard identifier where it acknowledges the
/// store and fewer than `wanted` were collected, and nothing otherwise. No
/// more than `wanted` are ever collected.
pub proof fn lemma_collected_push(exchanges: Seq<ExchangeView>, next: ExchangeView, wanted: nat)
    ensures
        collected(exchanges, wanted).len() <= wanted,
        collected(exchanges.push(next), wanted) == if collected(exchanges, wanted).len() < wanted {
            match store_ack(next) {
                Some(shard_id) => collected(exchanges, wanted).push(shard_id),
                None => collected(exchanges, wanted),
            }
        } else {
            collected(exchanges, wanted)
        },
    decreases exchanges.len(),
{
    let longer = exchanges.push(next);
    if wanted == 0 {
    } else if exchanges.len() == 0 {
        assert(longer.drop_first() =~= Seq::<ExchangeView>::empty());
        assert(longer[0] == next);
        assert(collected(longer.drop_first(), wanted).len() == 0);
        assert(collected(longer.drop_first(), (wanted - 1) as nat).len() == 0);
        match store_ack(next) {
            Some(shard_id) => {
                assert(collected(longer, wanted) =~= Seq::<Seq<char>>::empty().push(shard_id));
            },
            None => {},
        }
    } else {
        let rest = exchanges.drop_first();
        assert(longer.drop_first() =~= rest.push(next));
        assert(longer[0] == exchanges[0]);
        match store_ack(exchanges[0]) {
            Some(first) => {
                let fewer = (wanted - 1) as nat;
                lemma_collected_push(rest, next, fewer);
                if collected(rest, fewer).len() < fewer {
                    match store_ack(next) {
                        Some(shard_id) => {
                            assert(seq![first] + collected(rest, fewer).push(shard_id) =~= (
                            seq![first] + collected(rest, fewer)).push(shard_id));
                        },
                        None => {},
                    }
                }
            },
            None => {
                lemma_collected_push(rest, next, wanted);
            },
        }
    }
}

/// The number of shard identifiers collected is the number of peers that
/// stored the bytes, capped at the number wanted.
pub proof fn lemma_collected_len(exchanges: Seq<ExchangeView>, wanted: nat)
    ensures
        collected(exchanges, wanted).len() == if successes(exchanges) < wanted {
            successes(exchanges)
        } else {
            wanted
        },
        successes(exchanges) <= exchanges.len(),
    decreases exchanges.len(),
{
    if exchanges.len() > 0 {
        let rest = exchanges.drop_first();
        lemma_collected_len(rest, wanted);
        if wanted > 0 {
            lemma_collected_len(rest, (wanted - 1) as nat);
        }
    }
}

/// Fewer peers than wanted is no failure: a store succeeds as soon as one
/// peer stored the bytes, with as many shard identifiers as peers stored
/// them, up to the number wanted. It fails exactly where no peer stored
/// them or none was wanted.
pub proof fn lemma_distribution_degrades(exchanges: Seq<ExchangeView>, wanted: nat)
    ensures
        distribution(exchanges, wanted) is Err <==> (wanted == 0 || successes(exchanges) == 0),
        distribution(exchanges, wanted) matches Err(e) ==> e
            == FanoutError::TotalDistributionFailure,
        distribution(exchanges, wanted) matches Ok(shard_ids) ==> shard_ids.len() == if successes(
            exchanges,
        ) < wanted {
            successes(exchanges)
        } else {
            wanted
        },
{
    lemma_collected_len(exchanges, wanted);
}

/// One exchange more decides a retrieval only while no bytes were handed
/// over before.
pub proof fn lemma_first_payload_push(exchanges: Seq<ExchangeView>, next: ExchangeView)
    ensures
        first_payload(exchanges.push(next)) == match first_payload(exchanges) {
            Some(bytes) => Some(bytes),
            None => payload(next),
        },
    decreases exchanges.len(),
{
    let longer = exchanges.push(next);
    if exchanges.len() == 0 {
        assert(longer.drop_first() =~= Seq::<ExchangeView>::empty());
        assert(longer[0] == next);
        assert(first_payload(longer.drop_first()) is None);
    } else {
        assert(longer.drop_first() =~= exchanges.drop_first().push(next));
        assert(longer[0] == exchanges[0]);
        lemma_first_payload_push(exchanges.drop_first(), next);
    }
}

/// A retrieval fails exactly where no peer hands bytes over, and returns
/// the bytes of the first peer that does.
pub proof fn lemma_retrieval_first(exchanges: Seq<ExchangeView>)
    ensures
        retrieval(exchanges) is Err <==> forall|i: int|
            0 <= i < exchanges.len() ==> payload(#[trigger] exchanges[i]) is None,
        retrieval(exchanges) matches Ok(bytes) ==> exists|i: int|
            0 <= i < exchanges.len() && payload(#[trigger] exchanges[i]) == Some(bytes) && forall|
                j: int,
            | 0 <= j < i ==> payload(#[trigger] exchanges[j]) is None,
    decreases exchanges.len(),
{
    if exchanges.len() > 0 {
        let rest = exchanges.drop_first();
        lemma_retrieval_first(rest);
        match payload(exchanges[0]) {
            Some(bytes) => {
                assert(payload(exchanges[0]) == Some(bytes));
            },
            None => {
                if first_payload(rest) is Some {
                    let bytes = first_payload(rest)->0;
                    let i = choose|i: int|
                        0 <= i < rest.len() && payload(#[trigger] rest[i]) == Some(bytes)
                            && forall|j: int| 0 <= j < i ==> payload(#[trigger] rest[j]) is None;
                    assert(rest[i] == exchanges[i + 1]);
                    assert forall|j: int| 0 <= j < i + 1 implies payload(
                        #[trigger] exchanges[j],
                    ) is None by {
                        if j > 0 {
                            assert(rest[j - 1] == exchanges[j]);
                        }
                    }
                    assert(payload(exchanges[i + 1]) == Some(bytes));
                } else {
                    assert forall|i: int| 0 <= i < exchanges.len() implies payload(
                        #[trigger] exchanges[i],
                    ) is None by {
                        if i > 0 {
                            assert(rest[i - 1] == exchanges[i]);
                        }
                    }
                }
                if forall|i: int| 0 <= i < exchanges.len() ==> payload(#[trigger] exchanges[i])
                    is None {
                    assert forall|i: int| 0 <= i < rest.len() implies payload(#[trigger] rest[i])
                        is None by {
                        assert(rest[i] == exchanges[i + 1]);
                    }
                }
            },
        }
    }
}

/// What was stored on the swarm comes back from the swarm: where at least
/// one peer stored the bytes, the store succeeds; and where every peer
/// that hands bytes over for the shard hands over the bytes that were
/// stored, and one does, the retrieval returns them unchanged.
pub proof fn lemma_swarm_round_trip(
    storing: Seq<ExchangeView>,
    wanted: nat,
    fetching: Seq<ExchangeView>,
    data: Seq<u8>,
)
    requires
        wanted >= 1,
        successes(storing) >= 1,
        exists|i: int| 0 <= i < fetching.len() && payload(#[trigger] fetching[i]) is Some,
        forall|i: int|
            0 <= i < fetching.len() && payload(#[trigger] fetching[i]) is Some ==> payload(
                fetching[i],
            ) == Some(data),
    ensures
        distribution(storing, wanted) is Ok,
        retrieval(fetching) == Ok::<Seq<u8>, FanoutError>(data),
{
    lemma_distribution_degrades(storing, wanted);
    lemma_retrieval_first(fetching);
}

/// The shard identifier that `exchange` acknowledges a store with.
pub fn acknowledged(exchange: &Exchange) -> (shard_id: Option<String>)
    ensures
        match shard_id {
            Some(id) => store_ack(exchange@) == Some(id@),
            None => store_ack(exchange@) is None,
        },
{
    match exchange {
        Exchange::Reply(P2PMessage::StoreResponse { shard_id, success, message }) => if *success {
            Some(shard_id.clone())
        } else {
            None
        },
        _ => None,
    }
}

/// The bytes that `exchange` hands over.
pub fn handed_over(exchange: &Exchange) -> (bytes: Option<Vec<u8>>)
    ensures
        match bytes {
            Some(b) => payload(exchange@) == Some(b@),
            None => payload(exchange@) is None,
        },
{
    match exchange {
        Exchange::Reply(P2PMessage::RetrieveResponse { data, success, message }) => if *success {
            match data {
                Some(bytes) => Some(bytes.clone()),
                None => None,
            }
        } else {
            None
        },
        _ => None,
    }
}

/// What a store on the swarm comes to, given what asking each peer in
/// turn yields.
pub fn distribute(exchanges: &Vec<Exchange>, redundancy: u8) -> (stored: Result<
    Vec<String>,
    FanoutError,
>)
    ensures
        match stored {
            Ok(shard_ids) => distribution(exchange_views(exchanges@), redundancy as nat) == Ok::<
                Seq<Seq<char>>,
                FanoutError,
            >(texts(shard_ids@)),
            Err(e) => distribution(exchange_views(exchanges@), redundancy as nat) == Err::<
                Seq<Seq<char>>,
                FanoutError,
            >(e),
        },
{
    let ghost all = exchange_views(exchanges@);
    let mut shard_ids: Vec<String> = Vec::new();
    let mut i: usize = 0;
    assert(all.take(0) =~= Seq::<ExchangeView>::empty());
    while i < exchanges.len()
        invariant
            i <= exchanges@.len(),
            all == exchange_views(exchanges@),
            texts(shard_ids@) == collected(all.take(i as int), redundancy as nat),
            shard_ids@.len() <= redundancy,
        decreases exchanges@.len() - i,
    {
        proof {
            lemma_collected_push(all.take(i as int), all[i as int], redundancy as nat);
            assert(all.take(i + 1) =~= all.take(i as int).push(all[i as int]));
        }
        if shard_ids.len() < redundancy as usize {
            match acknowledged(&exchanges[i]) {
                Some(shard_id) => {
                    let ghost earlier = texts(shard_ids@);
                    shard_ids.push(shard_id);
                    assert(texts(shard_ids@) =~= earlier.push(shard_id@));
                },
                None => {},
            }
        }
        i += 1;
    }
    assert(all.take(exchanges@.len() as int) =~= all);
    if shard_ids.len() > 0 {
        Ok(shard_ids)
    } else {
        Err(FanoutError::TotalDistributionFailure)
    }
}

/// What a retrieval from the swarm comes to, given what asking each peer
/// in turn yields.
pub fn retrieve(exchanges: &Vec<Exchange>) -> (fetched: Result<Vec<u8>, FanoutError>)
    ensures
        match fetched {
            Ok(bytes) => retrieval(exchange_views(exchanges@)) == Ok::<Seq<u8>, FanoutError>(bytes@),
            Err(e) => retrieval(exchange_views(exchanges@)) == Err::<Seq<u8>, FanoutError>(e),
        },
{
    let ghost all = exchange_views(exchanges@);
    let mut i: usize = 0;
    assert(all.take(0) =~= Seq::<ExchangeView>::empty());
    while i < exchanges.len()
        invariant
            i <= exchanges@.len(),
            all == exchange_views(exchanges@),
            first_payload(all.take(i as int)) is None,
        decreases exchanges@.len() - i,
    {
        proof {
            lemma_first_payload_push(all.take(i as int), all[i as int]);
            assert(all.take(i + 1) =~= all.take(i as int).push(all[i as int]));
        }
        match handed_over(&exchanges[i]) {
            Some(bytes) => {
                proof {
                    lemma_first_payload_rest(all, i as int + 1);
                }
                return Ok(bytes);
            },
            None => {},
        }
        i += 1;
    }
    assert(all.take(exchanges@.len() as int) =~= all);
    Err(FanoutError::TotalRetrievalFailure)
}

/// Bytes handed over among the first exchanges decide the whole.
proof fn lemma_first_payload_rest(exchanges: Seq<ExchangeView>, n: int)
    requires
        0 <= n <= exchanges.len(),
        first_payload(exchanges.take(n)) is Some,
    ensures
        first_payload(exchanges) == first_payload(exchanges.take(n)),
    decreases exchanges.len() - n,
{
    if n < exchanges.len() {
        lemma_first_payload_push(exchanges.take(n), exchanges[n]);
        assert(exchanges.take(n + 1) =~= exchanges.take(n).push(exchanges[n]));
        lemma_first_payload_rest(exchanges, n + 1);
    } else {
        assert(exchanges.take(n) =~= exchanges);
    }
}

/// The plan of one store on the swarm.
pub struct StoreFanout {
    from: String,
    data: Vec<u8>,
    targets: Vec<String>,
    wanted: u8,
    shard_ids: Vec<String>,
    asked: usize,
    history: Ghost<Seq<ExchangeView>>,
}

impl StoreFanout {
    #[verifier::type_invariant]
    spec fn well_formed(self) -> bool {
        &&& self.asked == self.history@.len()
        &&& self.asked <= self.targets@.len()
        &&& texts(self.shard_ids@) == collected(self.history@, self.wanted as nat)
    }

    /// The addresses of the peers to ask, in order.
    pub closed spec fn targets(self) -> Seq<Seq<char>> {
        texts(self.targets@)
    }

    /// How many peers are to store the bytes.
    pub closed spec fn wanted(self) -> nat {
        self.wanted as nat
    }

    /// What asking the peers has yielded so far, peer by peer.
    pub closed spec fn history(self) -> Seq<ExchangeView> {
        self.history@
    }

    /// The request that goes to each peer: it names one copy, whatever
    /// the number wanted over the swarm.
    pub closed spec fn request(self) -> MessageView {
        MessageView::StoreRequest { data: self.data@, redundancy: 1, from: self.from@ }
    }

    /// Whether another peer is to be asked: fewer than wanted have stored
    /// the bytes and a peer is left.
    pub open spec fn pending(self) -> bool {
        collected(self.history(), self.wanted()).len() < self.wanted() && self.history().len()
            < self.targets().len()
    }

    /// A plan to store `data` for the node `from` on `redundancy` of the
    /// peers at `targets`.
    pub fn new(from: String, targets: Vec<String>, data: Vec<u8>, redundancy: u8) -> (plan: Self)
        ensures
            plan.targets() == texts(targets@),
            plan.wanted() == redundancy,
            plan.history() == Seq::<ExchangeView>::empty(),
            plan.request() == (MessageView::StoreRequest {
                data: data@,
                redundancy: 1,
                from: from@,
            }),
    {
        let shard_ids: Vec<String> = Vec::new();
        assert(texts(shard_ids@) =~= collected(Seq::empty(), redundancy as nat));
        StoreFanout {
            from,
            data,
            targets,
            wanted: redundancy,
            shard_ids,
            asked: 0,
            history: Ghost(Seq::empty()),
        }
    }

    /// The address of the peer to ask next, or `None` where the plan has
    /// run its course.
    pub fn next_target(&self) -> (target: Option<&String>)
        ensures
            match target {
                Some(address) => self.pending() && address@ == self.targets()[self.history().len() as int],
                None => !self.pending(),
            },
    {
        proof {
            use_type_invariant(self);
        }
        if self.shard_ids.len() < self.wanted as usize && self.asked < self.targets.len() {
            Some(&self.targets[self.asked])
        } else {
            None
        }
    }

    /// The request to send to the peer asked next.
    pub fn next_request(&self) -> (message: P2PMessage)
        ensures
            message@ == self.request(),
    {
        P2PMessage::StoreRequest { data: self.data.clone(), redundancy: 1, from: self.from.clone() }
    }

    /// The plan after `exchange` came of asking the next peer. A plan that
    /// has run its course stays as it is.
    pub fn record(self, exchange: Exchange) -> (plan: Self)
        ensures
            plan.targets() == self.targets(),
            plan.wanted() == self.wanted(),
            plan.request() == self.request(),
            plan.history() == if self.pending() {
                self.history().push(exchange@)
            } else {
                self.history()
            },
    {
        proof {
            use_type_invariant(&self);
            lemma_collected_push(self.history@, exchange@, self.wanted as nat);
        }
        if !(self.shard_ids.len() < self.wanted as usize && self.asked < self.targets.len()) {
            return self;
        }
        let StoreFanout { from, data, targets, wanted, shard_ids, asked, history } = self;
        let mut shard_ids = shard_ids;
        match acknowledged(&exchange) {
            Some(shard_id) => {
                let ghost earlier = texts(shard_ids@);
                shard_ids.push(shard_id);
                assert(texts(shard_ids@) =~= earlier.push(shard_id@));
            },
            None => {},
        }
        StoreFanout {
            from,
            data,
            targets,
            wanted,
            shard_ids,
            asked: asked + 1,
            history: Ghost(history@.push(exchange@)),
        }
    }

    /// What the store has come to: the shard identifiers of the peers that
    /// stored the bytes, or the failure of the whole where none has.
    pub fn outcome(&self) -> (stored: Result<Vec<String>, FanoutError>)
        ensures
            match stored {
                Ok(shard_ids) => distribution(self.history(), self.wanted()) == Ok::<
                    Seq<Seq<char>>,
                    FanoutError,
                >(texts(shard_ids@)),
                Err(e) => distribution(self.history(), self.wanted()) == Err::<
                    Seq<Seq<char>>,
                    FanoutError,
                >(e),
            },
    {
        proof {
            use_type_invariant(self);
        }
        if self.shard_ids.len() == 0 {
            return Err(FanoutError::TotalDistributionFailure);
        }
        let mut shard_ids: Vec<String> = Vec::new();
        let mut i: usize = 0;
        while i < self.shard_ids.len()
            invariant
                i <= self.shard_ids@.len(),
                shard_ids@.len() == i,
                forall|j: int| 0 <= j < i ==> (#[trigger] shard_ids@[j])@ == self.shard_ids@[j]@,
            decreases self.shard_ids@.len() - i,
        {
            shard_ids.push(self.shard_ids[i].clone());
            i += 1;
        }
        assert(texts(shard_ids@) =~= texts(self.shard_ids@));
        Ok(shard_ids)
    }
}

/// The plan of one retrieval from the swarm.
pub struct RetrieveFanout {
    from: String,
    shard_id: String,
    targets: Vec<String>,
    found: Option<Vec<u8>>,
    asked: usize,
    history: Ghost<Seq<ExchangeView>>,
}

impl RetrieveFanout {
    #[verifier::type_invariant]
    spec fn well_formed(self) -> bool {
        &&& self.asked == self.history@.len()
        &&& self.asked <= self.targets@.len()
        &&& crate::p2p_node::payload_view(self.found) == first_payload(self.history@)
    }

    /// The addresses of the peers to ask, in order.
    pub closed spec fn targets(self) -> Seq<Seq<char>> {
        texts(self.targets@)
    }

    /// What asking the peers has yielded so far, peer by peer.
    pub closed spec fn history(self) -> Seq<ExchangeView> {
        self.history@
    }

    /// The request that goes to each peer.
    pub closed spec fn request(self) -> MessageView {
        MessageView::RetrieveRequest { shard_id: self.shard_id@, from: self.from@ }
    }

    /// Whether another peer is to be asked: no bytes were handed over yet
    /// and a peer is left.
    pub open spec fn pending(self) -> bool {
        first_payload(self.history()) is None && self.history().len() < self.targets().len()
    }

    /// A plan to fetch the shard `shard_id` for the node `from` from the
    /// peers at `targets`.
    pub fn new(from: String, targets: Vec<String>, shard_id: String) -> (plan: Self)
        ensures
            plan.targets() == texts(targets@),
            plan.history() == Seq::<ExchangeView>::empty(),
            plan.request() == (MessageView::RetrieveRequest { shard_id: shard_id@, from: from@ }),
    {
        RetrieveFanout {
            from,
            shard_id,
            targets,
            found: None,
            asked: 0,
            history: Ghost(Seq::empty()),
        }
    }

    /// The address of the peer to ask next, or `None` where the plan has
    /// run its course.
    pub fn next_target(&self) -> (target: Option<&String>)
        ensures
            match target {
                Some(address) => self.pending() && address@ == self.targets()[self.history().len() as int],
                None => !self.pending(),
            },
    {
        proof {
            use_type_invariant(self);
        }
        if self.found.is_none() && self.asked < self.targets.len() {
            Some(&self.targets[self.asked])
        } else {
            None
        }
    }

    /// The request to send to the peer asked next.
    pub fn next_request(&self) -> (message: P2PMessage)
        ensures
            message@ == self.request(),
    {
        P2PMessage::RetrieveRequest { shard_id: self.shard_id.clone(), from: self.from.clone() }
    }

    /// The plan after `exchange` came of asking the next peer. A plan that
    /// has run its course stays as it is.
    pub fn record(self, exchange: Exchange) -> (plan: Self)
        ensures
            plan.targets() == self.targets(),
            plan.request() == self.request(),
            plan.history() == if self.pending() {
                self.history().push(exchange@)
            } else {
                self.history()
            },
    {
        proof {
            use_type_invariant(&self);
            lemma_first_payload_push(self.history@, exchange@);
        }
        if !(self.found.is_none() && self.asked < self.targets.len()) {
            return self;
        }
        let RetrieveFanout { from, shard_id, targets, found, asked, history } = self;
        RetrieveFanout {
            from,
            shard_id,
            targets,
            found: handed_over(&exchange),
            asked: asked + 1,
            history: Ghost(history@.push(exchange@)),
        }
    }

    /// What the retrieval has come to: the bytes of the first peer that
    /// handed them over, or the failure of the whole where none has.
    pub fn outcome(&self) -> (fetched: Result<Vec<u8>, FanoutError>)
        ensures
            match fetched {
                Ok(bytes) => retrieval(self.history()) == Ok::<Seq<u8>, FanoutError>(bytes@),
                Err(e) => retrieval(self.history()) == Err::<Seq<u8>, FanoutError>(e),
            },
    {
        proof {
            use_type_invariant(self);
        }
        match &self.found {
            Some(bytes) => Ok(bytes.clone()),
            None => Err(FanoutError::TotalRetrievalFailure),
        }
    }
}

} // verus!
