//! The contract service: deployed contracts and the record of their
//! executions.
use vstd::prelude::*;
use vstd::string::{StrSliceExecFns, StringExecFns};
use crate::clock::unix_timestamp;
use crate::ident::fresh_identifier;
use crate::registry::{
    lemma_project_find, lemma_project_upsert, lemma_selected_step, lookup, project, selected,
    targets, upsert, Registry,
};
use crate::text::{append_decimal, decimal};

verus! {

/// The identity of a node as this service sees it.
#[derive(Clone, Debug)]
pub struct MockNodeIdentity {
    pub node_id: String,
    pub public_key: Vec<u8>,
}

/// The ledger as this service sees it.
#[derive(Clone, Debug)]
pub struct MockBlockchainService {
    pub node_id: String,
}

/// Where a contract stands.
#[derive(Clone, Copy, Debug, PartialEq, Eq, Structural)]
pub enum ContractStatus {
    Draft,
    Deployed,
    Active,
    Paused,
    Terminated,
}

/// A deployed contract.
#[derive(Clone, Debug)]
pub struct SmartContract {
    pub contract_id: String,
    pub name: String,
    pub code: String,
    pub owner: String,
    pub deployed_at: u64,
    pub status: ContractStatus,
}

/// What a `SmartContract` holds, as plain values.
pub struct ContractView {
    pub contract_id: Seq<char>,
    pub name: Seq<char>,
    pub code: Seq<char>,
    pub owner: Seq<char>,
    pub deployed_at: u64,
    pub status: ContractStatus,
}

impl View for SmartContract {
    type V = ContractView;

    open spec fn view(&self) -> ContractView {
        ContractView {
            contract_id: self.contract_id@,
            name: self.name@,
            code: self.code@,
            owner: self.owner@,
            deployed_at: self.deployed_at,
            status: self.status,
        }
    }
}

/// The record of one execution of a contract.
#[derive(Clone, Debug)]
pub struct ContractExecution {
    pub execution_id: String,
    pub contract_id: String,
    pub caller: String,
    pub function: String,
    pub parameters: Vec<u8>,
    pub result: Vec<u8>,
    pub gas_used: u64,
    pub timestamp: u64,
}

/// What a `ContractExecution` holds, as plain values.
pub struct ExecutionView {
    pub execution_id: Seq<char>,
    pub contract_id: Seq<char>,
    pub caller: Seq<char>,
    pub function: Seq<char>,
    pub parameters: Seq<u8>,
    pub result: Seq<u8>,
    pub gas_used: u64,
    pub timestamp: u64,
}

impl View for ContractExecution {
    type V = ExecutionView;

    open spec fn view(&self) -> ExecutionView {
        ExecutionView {
            execution_id: self.execution_id@,
            contract_id: self.contract_id@,
            caller: self.caller@,
            function: self.function@,
            parameters: self.parameters@,
            result: self.result@,
            gas_used: self.gas_used,
            timestamp: self.timestamp,
        }
    }
}

/// Why the service turned a request down.
#[derive(Clone, Copy, Debug, PartialEq, Eq, Structural)]
pub enum ContractError {
    /// No contract has the identifier.
    ContractNotFound,
    /// The contract is not in the `Active` state.
    ContractNotActive,
}

impl ContractError {
    /// The text of the error.
    pub open spec fn message(self) -> Seq<char> {
        match self {
            ContractError::ContractNotFound => "Contract not found"@,
            ContractError::ContractNotActive => "Contract is not active"@,
        }
    }

    /// The text of the error.
    pub fn to_string(&self) -> (text: String)
        ensures
            text@ == self.message(),
    {
        match self {
            ContractError::ContractNotFound => "Contract not found".to_owned(),
            ContractError::ContractNotActive => "Contract is not active".to_owned(),
        }
    }
}

/// The gas charged for each byte of parameters.
pub const GAS_PER_BYTE: u64 = 100;

/// The gas charged for an execution with `len` bytes of parameters.
pub open spec fn gas_for(len: nat) -> nat {
    len * GAS_PER_BYTE as nat
}

/// The text that stands in for the result of executing `function` with
/// `len` bytes of parameters.
pub open spec fn execution_text(function: Seq<char>, len: nat) -> Seq<char> {
    "executed_"@ + function + "_"@ + decimal(len)
}

/// The bytes that stand in for the result of executing `function` with
/// `len` bytes of parameters: the text, encoded as UTF-8.
pub open spec fn execution_result(function: Seq<char>, len: nat) -> Seq<u8> {
    vstd::utf8::encode_utf8(execution_text(function, len))
}

/// The state of a contract service, as plain values.
pub struct ContractsState {
    pub node_id: Seq<char>,
    /// The contracts by identifier, oldest first.
    pub contracts: Seq<(Seq<char>, ContractView)>,
    /// The executions by identifier, oldest first.
    pub executions: Seq<(Seq<char>, ExecutionView)>,
}

impl ContractsState {
    /// The state after the contract `contract_id` was deployed at time
    /// `now`. A deployed contract is active at once.
    pub open spec fn deployed(
        self,
        contract_id: Seq<char>,
        name: Seq<char>,
        code: Seq<char>,
        owner: Seq<char>,
        now: u64,
    ) -> ContractsState {
        ContractsState {
            contracts: upsert(
                self.contracts,
                contract_id,
                ContractView {
                    contract_id,
                    name,
                    code,
                    owner,
                    deployed_at: now,
                    status: ContractStatus::Active,
                },
            ),
            ..self
        }
    }

    /// Why the contract `contract_id` cannot be executed, if it cannot.
    pub open spec fn refuses_execution(self, contract_id: Seq<char>) -> Option<ContractError> {
        match lookup(self.contracts, contract_id) {
            None => Some(ContractError::ContractNotFound),
            Some(contract) => if contract.status != ContractStatus::Active {
                Some(ContractError::ContractNotActive)
            } else {
                None
            },
        }
    }

    /// The state after the execution `execution_id` of `function` on the
    /// contract `contract_id` was recorded at time `now`.
    pub open spec fn executed(
        self,
        execution_id: Seq<char>,
        contract_id: Seq<char>,
        caller: Seq<char>,
        function: Seq<char>,
        parameters: Seq<u8>,
        now: u64,
    ) -> ContractsState {
        ContractsState {
            executions: upsert(
                self.executions,
                execution_id,
                ExecutionView {
                    execution_id,
                    contract_id,
                    caller,
                    function,
                    parameters,
                    result: execution_result(function, parameters.len()),
                    gas_used: gas_for(parameters.len()) as u64,
                    timestamp: now,
                },
            ),
            ..self
        }
    }
}

/// The contract service of one node.
#[derive(Clone, Debug)]
pub struct ContractService {
    pub node_id: String,
    pub contracts: Registry<SmartContract>,
    pub executions: Registry<ContractExecution>,
}

impl View for ContractService {
    type V = ContractsState;

    open spec fn view(&self) -> ContractsState {
        ContractsState {
            node_id: self.node_id@,
            contracts: project(self.contracts.entries(), |contract: SmartContract| contract@),
            executions: project(self.executions.entries(), |run: ContractExecution| run@),
        }
    }
}

impl ContractService {
    /// A service without contracts or executions.
    pub fn new(node_id: String) -> (service: Self)
        ensures
            service.node_id == node_id,
            service@ == (ContractsState {
                node_id: node_id@,
                contracts: Seq::empty(),
                executions: Seq::empty(),
            }),
    {
        let service = ContractService {
            node_id,
            contracts: Registry::new(),
            executions: Registry::new(),
        };
        assert(service@.contracts =~= Seq::empty());
        assert(service@.executions =~= Seq::empty());
        service
    }

    /// Deploys a contract under a fresh random identifier, dated now, and
    /// returns the identifier.
    pub fn deploy_contract(&mut self, name: String, code: String, owner: String) -> (deployed:
        Result<String, ContractError>)
        ensures
            deployed is Ok,
            exists|now: u64| #[trigger]
                old(self)@.deployed(deployed->Ok_0@, name@, code@, owner@, now) == final(self)@,
    {
        let contract_id = fresh_identifier();
        let now = self.get_current_timestamp();
        let ghost id = contract_id@;
        let deployed = self.deploy_contract_as(contract_id, name, code, owner, now);
        let done = Ok(deployed);
        assert(old(self)@.deployed(done->Ok_0@, name@, code@, owner@, now) == self@);
        done
    }

    /// Deploys a contract under the identifier `contract_id`, dated `now`,
    /// and returns the identifier.
    pub fn deploy_contract_as(
        &mut self,
        contract_id: String,
        name: String,
        code: String,
        owner: String,
        now: u64,
    ) -> (deployed: String)
        ensures
            deployed@ == contract_id@,
            final(self)@ == old(self)@.deployed(contract_id@, name@, code@, owner@, now),
    {
        let contract = SmartContract {
            contract_id: contract_id.clone(),
            name,
            code,
            owner,
            deployed_at: now,
            status: ContractStatus::Active,
        };
        proof {
            lemma_project_upsert(
                self.contracts.entries(),
                |contract: SmartContract| contract@,
                contract_id@,
                contract,
            );
        }
        self.contracts.insert(contract_id.clone(), contract);
        contract_id
    }

    /// Executes `function` of the contract `contract_id` for `caller`,
    /// records the execution under a fresh random identifier, dated now,
    /// and returns the result; a contract that does not exist or is not
    /// active is turned down.
    pub fn execute_contract(
        &mut self,
        contract_id: &str,
        caller: String,
        function: String,
        parameters: Vec<u8>,
    ) -> (ran: Result<Vec<u8>, ContractError>)
        requires
            gas_for(parameters@.len()) <= u64::MAX,
        ensures
            match old(self)@.refuses_execution(contract_id@) {
                Some(e) => ran matches Err(why) && why == e && *final(self) == *old(self),
                None => {
                    &&& ran matches Ok(result)
                    &&& result@ == execution_result(function@, parameters@.len())
                    &&& exists|execution_id: Seq<char>, now: u64| #[trigger]
                        old(self)@.executed(
                            execution_id,
                            contract_id@,
                            caller@,
                            function@,
                            parameters@,
                            now,
                        ) == final(self)@
                },
            },
    {
        let execution_id = fresh_identifier();
        let now = self.get_current_timestamp();
        let ghost id = execution_id@;
        let ran = self.execute_contract_as(execution_id, contract_id, caller, function, parameters, now);
        assert(ran is Ok ==> old(self)@.executed(
            id,
            contract_id@,
            caller@,
            function@,
            parameters@,
            now,
        ) == self@);
        ran
    }

    /// Executes `function` of the contract `contract_id` for `caller`,
    /// records the execution under the identifier `execution_id`, dated
    /// `now`, and returns the result; a contract that does not exist or is
    /// not active is turned down.
    pub fn execute_contract_as(
        &mut self,
        execution_id: String,
        contract_id: &str,
        caller: String,
        function: String,
        parameters: Vec<u8>,
        now: u64,
    ) -> (ran: Result<Vec<u8>, ContractError>)
        requires
            gas_for(parameters@.len()) <= u64::MAX,
        ensures
            match old(self)@.refuses_execution(contract_id@) {
                Some(e) => ran matches Err(why) && why == e && *final(self) == *old(self),
                None => {
                    &&& ran matches Ok(result)
                    &&& result@ == execution_result(function@, parameters@.len())
                    &&& final(self)@ == old(self)@.executed(
                        execution_id@,
                        contract_id@,
                        caller@,
                        function@,
                        parameters@,
                        now,
                    )
                },
            },
    {
        proof {
            lemma_project_find(
                self.contracts.entries(),
                |contract: SmartContract| contract@,
                contract_id@,
            );
        }
        let result = match self.contracts.get(contract_id) {
            None => {
                return Err(ContractError::ContractNotFound);
            },
            Some(contract) => {
                match contract.status {
                    ContractStatus::Active => {},
                    _ => {
                        return Err(ContractError::ContractNotActive);
                    },
                }
                self.simulate_contract_execution(
                    contract.code.as_str(),
                    function.as_str(),
                    parameters.as_slice(),
                )
            },
        };
        let gas_used = self.calculate_gas_usage(parameters.as_slice());
        let execution = ContractExecution {
            execution_id: execution_id.clone(),
            contract_id: contract_id.to_owned(),
            caller,
            function,
            parameters,
            result: result.clone(),
            gas_used,
            timestamp: now,
        };
        proof {
            lemma_project_upsert(
                self.executions.entries(),
                |run: ContractExecution| run@,
                execution_id@,
                execution,
            );
        }
        self.executions.insert(execution_id, execution);
        Ok(result)
    }

    /// Stands in for the execution engine: the result names the function
    /// and the number of parameter bytes.
    pub fn simulate_contract_execution(&self, code: &str, function: &str, parameters: &[u8]) -> (result:
        Vec<u8>)
        ensures
            result@ == execution_result(function@, parameters@.len()),
    {
        let mut text = "executed_".to_owned();
        text.append(function);
        text.append("_");
        append_decimal(&mut text, parameters.len() as u128);
        assert(text@ =~= execution_text(function@, parameters@.len()));
        text.as_str().as_bytes_vec()
    }

    /// The gas charged for an execution with these parameters.
    pub fn calculate_gas_usage(&self, parameters: &[u8]) -> (gas: u64)
        requires
            gas_for(parameters@.len()) <= u64::MAX,
        ensures
            gas == gas_for(parameters@.len()),
    {
        parameters.len() as u64 * GAS_PER_BYTE
    }

    /// The contract deployed under `contract_id`.
    pub fn get_contract(&self, contract_id: &str) -> (found: Option<&SmartContract>)
        ensures
            match found {
                Some(contract) => lookup(self@.contracts, contract_id@) == Some(contract@),
                None => lookup(self@.contracts, contract_id@) is None,
            },
    {
        proof {
            lemma_project_find(
                self.contracts.entries(),
                |contract: SmartContract| contract@,
                contract_id@,
            );
        }
        self.contracts.get(contract_id)
    }

    /// The recorded executions of the contract `contract_id`, oldest
    /// first.
    pub fn get_contract_executions(&self, contract_id: &str) -> (found: Vec<&ContractExecution>)
        ensures
            targets(found@) == selected(
                self.executions.entries(),
                |id: Seq<char>, run: ContractExecution| run.contract_id@ == contract_id@,
            ),
    {
        let ghost keep = |id: Seq<char>, run: ContractExecution| run.contract_id@ == contract_id@;
        let ghost entries = self.executions.entries();
        let wanted = contract_id.to_owned();
        let mut found: Vec<&ContractExecution> = Vec::new();
        let n = self.executions.len();
        let mut i: usize = 0;
        while i < n
            invariant
                i <= n,
                n == entries.len(),
                entries == self.executions.entries(),
                wanted@ == contract_id@,
                keep == |id: Seq<char>, run: ContractExecution| run.contract_id@ == contract_id@,
                targets(found@) == selected(entries.take(i as int), keep),
            decreases n - i,
        {
            proof {
                lemma_selected_step(entries, keep, i as int);
            }
            let run = self.executions.value_at(i);
            if run.contract_id == wanted {
                found.push(run);
                assert(targets(found@) =~= selected(entries.take(i as int), keep).push(*run));
            }
            i += 1;
        }
        assert(entries.take(n as int) =~= entries);
        found
    }

    /// Seconds since the Unix epoch, as the system clock has them.
    pub fn get_current_timestamp(&self) -> (now: u64)
    {
        unix_timestamp()
    }
}

} // verus!
