//! The token ledger: accounts with balances and the transfers between
//! them.
use vstd::prelude::*;
use crate::clock::unix_timestamp;
use crate::ident::fresh_identifier;
use crate::registry::{
    lemma_project_find, lemma_project_upsert, lookup, project, upsert, Registry,
};

verus! {

/// The identity of a node as this service sees it.
#[derive(Clone, Debug)]
pub struct MockNodeIdentity {
    pub node_id: String,
    pub public_key: Vec<u8>,
}

/// The network service as this service sees it.
#[derive(Clone, Debug)]
pub struct MockNetworkService {
    pub node_id: String,
}

/// The balance of one account.
#[derive(Clone, Debug)]
pub struct TokenBalance {
    pub address: String,
    pub balance: u64,
    pub last_updated: u64,
}

/// What a `TokenBalance` holds, as plain values.
pub struct BalanceView {
    pub address: Seq<char>,
    pub balance: u64,
    pub last_updated: u64,
}

impl View for TokenBalance {
    type V = BalanceView;

    open spec fn view(&self) -> BalanceView {
        BalanceView {
            address: self.address@,
            balance: self.balance,
            last_updated: self.last_updated,
        }
    }
}

/// A transfer of tokens.
#[derive(Clone, Debug)]
pub struct Transaction {
    pub tx_id: String,
    pub from: String,
    pub to: String,
    pub amount: u64,
    pub timestamp: u64,
    pub status: TransactionStatus,
}

/// What a `Transaction` holds, as plain values.
pub struct TransactionView {
    pub tx_id: Seq<char>,
    pub from: Seq<char>,
    pub to: Seq<char>,
    pub amount: u64,
    pub timestamp: u64,
    pub status: TransactionStatus,
}

impl View for Transaction {
    type V = TransactionView;

    open spec fn view(&self) -> TransactionView {
        TransactionView {
            tx_id: self.tx_id@,
            from: self.from@,
            to: self.to@,
            amount: self.amount,
            timestamp: self.timestamp,
            status: self.status,
        }
    }
}

/// Where a transfer stands.
#[derive(Clone, Copy, Debug, PartialEq, Eq, Structural)]
pub enum TransactionStatus {
    Pending,
    Confirmed,
    Failed,
}

/// Why the ledger turned a request down.
#[derive(Clone, Copy, Debug, PartialEq, Eq, Structural)]
pub enum BlockchainError {
    /// An account with the address exists already.
    AccountExists,
    /// The account to take the tokens from does not exist.
    FromAccountNotFound,
    /// The account to take the tokens from holds fewer than asked for.
    InsufficientBalance,
}

impl BlockchainError {
    /// The text of the error.
    pub open spec fn message(self) -> Seq<char> {
        match self {
            BlockchainError::AccountExists => "Account already exists"@,
            BlockchainError::FromAccountNotFound => "From account not found"@,
            BlockchainError::InsufficientBalance => "Insufficient balance"@,
        }
    }

    /// The text of the error.
    pub fn to_string(&self) -> (text: String)
        ensures
            text@ == self.message(),
    {
        match self {
            BlockchainError::AccountExists => "Account already exists".to_owned(),
            BlockchainError::FromAccountNotFound => "From account not found".to_owned(),
            BlockchainError::InsufficientBalance => "Insufficient balance".to_owned(),
        }
    }
}

/// `balances` with the balance of the account `address` set to `balance`;
/// unchanged where there is no such account.
pub open spec fn with_balance(
    balances: Seq<(Seq<char>, BalanceView)>,
    address: Seq<char>,
    balance: u64,
) -> Seq<(Seq<char>, BalanceView)> {
    match lookup(balances, address) {
        Some(account) => upsert(balances, address, BalanceView { balance, ..account }),
        None => balances,
    }
}

/// The state of a ledger, as plain values.
pub struct LedgerState {
    pub node_id: Seq<char>,
    /// The accounts by address, oldest first.
    pub balances: Seq<(Seq<char>, BalanceView)>,
    /// The transfers by identifier, oldest first.
    pub transactions: Seq<(Seq<char>, TransactionView)>,
    pub total_supply: u64,
}

impl LedgerState {
    /// The balance of the account `address`.
    pub open spec fn balance_of(self, address: Seq<char>) -> Option<u64> {
        match lookup(self.balances, address) {
            Some(account) => Some(account.balance),
            None => None,
        }
    }

    /// Why an account `address` cannot be opened, if it cannot.
    pub open spec fn refuses_account(self, address: Seq<char>) -> Option<BlockchainError> {
        if lookup(self.balances, address) is Some {
            Some(BlockchainError::AccountExists)
        } else {
            None
        }
    }

    /// The ledger after the account `address` was opened at time `now`
    /// with `initial_balance` tokens.
    pub open spec fn opened(self, address: Seq<char>, initial_balance: u64, now: u64) -> LedgerState {
        LedgerState {
            balances: upsert(
                self.balances,
                address,
                BalanceView { address, balance: initial_balance, last_updated: now },
            ),
            ..self
        }
    }

    /// Why `amount` tokens cannot be taken from the account `from`, if
    /// they cannot.
    pub open spec fn refuses_transfer(self, from: Seq<char>, amount: u64) -> Option<
        BlockchainError,
    > {
        match self.balance_of(from) {
            None => Some(BlockchainError::FromAccountNotFound),
            Some(balance) => if balance < amount {
                Some(BlockchainError::InsufficientBalance)
            } else {
                None
            },
        }
    }

    /// Whether crediting `amount` tokens to the account `to` would take
    /// its balance past what 64 bits hold.
    pub open spec fn credit_overflows(self, from: Seq<char>, to: Seq<char>, amount: u64) -> bool {
        &&& to != from
        &&& self.balance_of(to) matches Some(balance)
        &&& balance + amount > u64::MAX
    }

    /// The ledger after the transfer `tx_id` of `amount` tokens from `from`
    /// to `to` at time `now`: the transfer is filed as confirmed, the
    /// tokens leave `from`, and they arrive at `to` where that account
    /// exists.
    pub open spec fn transferred(
        self,
        tx_id: Seq<char>,
        from: Seq<char>,
        to: Seq<char>,
        amount: u64,
        now: u64,
    ) -> LedgerState {
        let debited = with_balance(
            self.balances,
            from,
            (self.balance_of(from)->0 - amount) as u64,
        );
        let credited = match lookup(debited, to) {
            Some(account) => with_balance(debited, to, (account.balance + amount) as u64),
            None => debited,
        };
        LedgerState {
            balances: credited,
            transactions: upsert(
                self.transactions,
                tx_id,
                TransactionView {
                    tx_id,
                    from,
                    to,
                    amount,
                    timestamp: now,
                    status: TransactionStatus::Confirmed,
                },
            ),
            ..self
        }
    }
}

/// The ledger of one node.
#[derive(Clone, Debug)]
pub struct BlockchainService {
    pub node_id: String,
    pub balances: Registry<TokenBalance>,
    pub transactions: Registry<Transaction>,
    pub total_supply: u64,
}

impl View for BlockchainService {
    type V = LedgerState;

    open spec fn view(&self) -> LedgerState {
        LedgerState {
            node_id: self.node_id@,
            balances: project(self.balances.entries(), |account: TokenBalance| account@),
            transactions: project(self.transactions.entries(), |tx: Transaction| tx@),
            total_supply: self.total_supply,
        }
    }
}

impl BlockchainService {
    /// A ledger without accounts or transfers.
    pub fn new(node_id: String, total_supply: u64) -> (service: Self)
        ensures
            service.node_id == node_id,
            service.total_supply == total_supply,
            service@ == (LedgerState {
                node_id: node_id@,
                balances: Seq::empty(),
                transactions: Seq::empty(),
                total_supply,
            }),
    {
        let service = BlockchainService {
            node_id,
            balances: Registry::new(),
            transactions: Registry::new(),
            total_supply,
        };
        assert(service@.balances =~= Seq::empty());
        assert(service@.transactions =~= Seq::empty());
        service
    }

    /// Opens the account `address` with `initial_balance` tokens, dated
    /// now; an address that has an account is turned down.
    pub fn create_account(&mut self, address: String, initial_balance: u64) -> (opened: Result<
        (),
        BlockchainError,
    >)
        ensures
            match old(self)@.refuses_account(address@) {
                Some(e) => opened == Err::<(), BlockchainError>(e) && *final(self) == *old(self),
                None => opened is Ok && exists|now: u64| #[trigger]
                    old(self)@.opened(address@, initial_balance, now) == final(self)@,
            },
    {
        let now = self.get_current_timestamp();
        let opened = self.create_account_at(address, initial_balance, now);
        assert(opened is Ok ==> old(self)@.opened(address@, initial_balance, now) == self@);
        opened
    }

    /// Opens the account `address` with `initial_balance` tokens, dated
    /// `now`; an address that has an account is turned down.
    pub fn create_account_at(&mut self, address: String, initial_balance: u64, now: u64) -> (opened:
        Result<(), BlockchainError>)
        ensures
            match old(self)@.refuses_account(address@) {
                Some(e) => opened == Err::<(), BlockchainError>(e) && *final(self) == *old(self),
                None => opened is Ok && final(self)@ == old(self)@.opened(
                    address@,
                    initial_balance,
                    now,
                ),
            },
    {
        proof {
            lemma_project_find(
                self.balances.entries(),
                |account: TokenBalance| account@,
                address@,
            );
        }
        if self.balances.contains_key(address.as_str()) {
            return Err(BlockchainError::AccountExists);
        }
        let account = TokenBalance {
            address: address.clone(),
            balance: initial_balance,
            last_updated: now,
        };
        proof {
            lemma_project_upsert(
                self.balances.entries(),
                |account: TokenBalance| account@,
                address@,
                account,
            );
        }
        self.balances.insert(address, account);
        Ok(())
    }

    /// Moves `amount` tokens from `from` to `to` under a fresh random
    /// identifier, dated now, and returns the identifier; a transfer from
    /// an account that does not exist or holds too little is turned down.
    pub fn transfer_tokens(&mut self, from: String, to: String, amount: u64) -> (moved: Result<
        String,
        BlockchainError,
    >)
        requires
            !old(self)@.credit_overflows(from@, to@, amount),
        ensures
            match old(self)@.refuses_transfer(from@, amount) {
                Some(e) => moved matches Err(why) && why == e && *final(self) == *old(self),
                None => moved is Ok && exists|now: u64| #[trigger]
                    old(self)@.transferred(moved->Ok_0@, from@, to@, amount, now) == final(self)@,
            },
    {
        let tx_id = fresh_identifier();
        let now = self.get_current_timestamp();
        let moved = self.transfer_tokens_as(tx_id, from, to, amount, now);
        assert(moved matches Ok(tx_id) ==> old(self)@.transferred(tx_id@, from@, to@, amount, now)
            == self@);
        moved
    }

    /// Moves `amount` tokens from `from` to `to` under the identifier
    /// `tx_id`, dated `now`, and returns the identifier; a transfer from
    /// an account that does not exist or holds too little is turned down.
    pub fn transfer_tokens_as(
        &mut self,
        tx_id: String,
        from: String,
        to: String,
        amount: u64,
        now: u64,
    ) -> (moved: Result<String, BlockchainError>)
        requires
            !old(self)@.credit_overflows(from@, to@, amount),
        ensures
            match old(self)@.refuses_transfer(from@, amount) {
                Some(e) => moved matches Err(why) && why == e && *final(self) == *old(self),
                None => moved matches Ok(id) && id@ == tx_id@ && final(self)@ == old(
                    self,
                )@.transferred(tx_id@, from@, to@, amount, now),
            },
    {
        let ghost before = self@;
        proof {
            lemma_project_find(self.balances.entries(), |account: TokenBalance| account@, from@);
        }
        let debited = match self.balances.get(from.as_str()) {
            None => {
                return Err(BlockchainError::FromAccountNotFound);
            },
            Some(account) => {
                if account.balance < amount {
                    return Err(BlockchainError::InsufficientBalance);
                }
                TokenBalance {
                    address: account.address.clone(),
                    balance: account.balance - amount,
                    last_updated: account.last_updated,
                }
            },
        };
        let transaction = Transaction {
            tx_id: tx_id.clone(),
            from: from.clone(),
            to: to.clone(),
            amount,
            timestamp: now,
            status: TransactionStatus::Confirmed,
        };
        proof {
            lemma_project_upsert(
                self.transactions.entries(),
                |tx: Transaction| tx@,
                tx_id@,
                transaction,
            );
            lemma_project_upsert(
                self.balances.entries(),
                |account: TokenBalance| account@,
                from@,
                debited,
            );
            crate::registry::lemma_upsert(before.balances, from@, debited@);
        }
        self.transactions.insert(tx_id.clone(), transaction);
        self.balances.insert(from, debited);
        proof {
            lemma_project_find(self.balances.entries(), |account: TokenBalance| account@, to@);
        }
        let credited = match self.balances.get(to.as_str()) {
            None => None,
            Some(account) => Some(
                TokenBalance {
                    address: account.address.clone(),
                    balance: account.balance + amount,
                    last_updated: account.last_updated,
                },
            ),
        };
        if let Some(account) = credited {
            proof {
                lemma_project_upsert(
                    self.balances.entries(),
                    |account: TokenBalance| account@,
                    to@,
                    account,
                );
            }
            self.balances.insert(to, account);
        }
        Ok(tx_id)
    }

    /// The balance of the account `address`.
    pub fn get_balance(&self, address: &str) -> (balance: Option<u64>)
        ensures
            balance == self@.balance_of(address@),
    {
        proof {
            lemma_project_find(
                self.balances.entries(),
                |account: TokenBalance| account@,
                address@,
            );
        }
        match self.balances.get(address) {
            Some(account) => Some(account.balance),
            None => None,
        }
    }

    /// The transfer filed under `tx_id`.
    pub fn get_transaction(&self, tx_id: &str) -> (found: Option<&Transaction>)
        ensures
            match found {
                Some(tx) => lookup(self@.transactions, tx_id@) == Some(tx@),
                None => lookup(self@.transactions, tx_id@) is None,
            },
    {
        proof {
            lemma_project_find(self.transactions.entries(), |tx: Transaction| tx@, tx_id@);
        }
        self.transactions.get(tx_id)
    }

    /// Seconds since the Unix epoch, as the system clock has them.
    pub fn get_current_timestamp(&self) -> (now: u64)
    {
        unix_timestamp()
    }
}

/// A transfer between two accounts moves the tokens and makes none: what
/// leaves the one arrives at the other, and a transfer of an account to
/// itself leaves its balance as it was.
pub proof fn lemma_transfer_moves_tokens(
    ledger: LedgerState,
    tx_id: Seq<char>,
    from: Seq<char>,
    to: Seq<char>,
    amount: u64,
    now: u64,
)
    requires
        ledger.refuses_transfer(from, amount) is None,
        !ledger.credit_overflows(from, to, amount),
    ensures
        ({
            let after = ledger.transferred(tx_id, from, to, amount, now);
            &&& from != to ==> after.balance_of(from) == Some(
                (ledger.balance_of(from)->0 - amount) as u64,
            )
            &&& from != to ==> after.balance_of(to) == match ledger.balance_of(to) {
                Some(balance) => Some((balance + amount) as u64),
                None => None,
            }
            &&& from == to ==> after.balance_of(from) == ledger.balance_of(from)
            &&& after.balances.len() == ledger.balances.len()
        }),
{
    let held = ledger.balance_of(from)->0;
    let account = lookup(ledger.balances, from)->0;
    let debited = with_balance(ledger.balances, from, (held - amount) as u64);
    crate::registry::lemma_upsert(
        ledger.balances,
        from,
        BalanceView { balance: (held - amount) as u64, ..account },
    );
    match lookup(debited, to) {
        Some(receiver) => {
            crate::registry::lemma_upsert(
                debited,
                to,
                BalanceView { balance: (receiver.balance + amount) as u64, ..receiver },
            );
        },
        None => {},
    }
}

} // verus!
