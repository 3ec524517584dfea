//! The compute service: a bounded table of submitted tasks and the results
//! of those that ran.
use vstd::prelude::*;
use crate::clock::{elapsed_millis, instant_now};
use crate::ident::fresh_identifier;
use crate::registry::{lookup, upsert, without, Registry};

verus! {

/// The identity of a node as this service sees it.
#[derive(Clone, Debug)]
pub struct MockNodeIdentity {
    pub node_id: String,
    pub public_key: Vec<u8>,
}

/// The network service as this service sees it.
#[derive(Clone, Debug)]
pub struct MockNetworkService {
    pub node_id: String,
}

/// A task waiting to run.
#[derive(Clone, Debug)]
pub struct ComputeTask {
    pub task_id: String,
    pub wasm_bytes: Vec<u8>,
    pub input_data: Vec<u8>,
    pub task_type: TaskType,
    pub priority: u8,
}

/// The kind of work a task asks for.
#[derive(Clone, Copy, Debug, PartialEq, Eq, Structural)]
pub enum TaskType {
    WASM,
    MPC,
    Batch,
    RealTime,
}

/// What a task produced.
#[derive(Clone, Debug)]
pub struct TaskResult {
    pub task_id: String,
    pub output_data: Vec<u8>,
    pub execution_time_ms: u64,
    pub success: bool,
    pub error_message: Option<String>,
}

/// Where a task stands.
#[derive(Clone, Copy, Debug, PartialEq, Eq, Structural)]
pub enum TaskStatus {
    Running,
    Completed,
    Failed,
}

/// The share of the task slots in use, as the two numbers it is the
/// quotient of.
#[derive(Clone, Copy, Debug, PartialEq, Eq, Structural)]
pub struct LoadRatio {
    pub active: usize,
    pub capacity: usize,
}

/// Why the service turned a request down.
#[derive(Clone, Copy, Debug, PartialEq, Eq, Structural)]
pub enum ComputeError {
    /// Every task slot is taken.
    CapacityReached,
    /// No waiting task has the identifier.
    TaskNotFound,
}

impl ComputeError {
    /// The text of the error.
    pub open spec fn message(self) -> Seq<char> {
        match self {
            ComputeError::CapacityReached => "Maximum concurrent tasks reached"@,
            ComputeError::TaskNotFound => "Task not found"@,
        }
    }

    /// The text of the error.
    pub fn to_string(&self) -> (text: String)
        ensures
            text@ == self.message(),
    {
        match self {
            ComputeError::CapacityReached => "Maximum concurrent tasks reached".to_owned(),
            ComputeError::TaskNotFound => "Task not found".to_owned(),
        }
    }
}

/// The priority given to every submitted task.
pub const DEFAULT_PRIORITY: u8 = 1;

/// `len` zero bytes.
pub open spec fn zeros(len: nat) -> Seq<u8> {
    Seq::new(len, |i: int| 0u8)
}

/// The record of a task that ran without error for `execution_time_ms`
/// milliseconds and produced `output`.
pub open spec fn succeeded(
    result: TaskResult,
    task_id: Seq<char>,
    output: Seq<u8>,
    execution_time_ms: u64,
) -> bool {
    &&& result.task_id@ == task_id
    &&& result.output_data@ == output
    &&& result.execution_time_ms == execution_time_ms
    &&& result.success
    &&& result.error_message is None
}

/// The task that a submission records.
pub open spec fn submitted(
    task: ComputeTask,
    task_id: Seq<char>,
    wasm_bytes: Seq<u8>,
    input_data: Seq<u8>,
    task_type: TaskType,
) -> bool {
    &&& task.task_id@ == task_id
    &&& task.wasm_bytes@ == wasm_bytes
    &&& task.input_data@ == input_data
    &&& task.task_type == task_type
    &&& task.priority == DEFAULT_PRIORITY
}

/// The compute service of one node.
#[derive(Clone, Debug)]
pub struct ComputeService {
    pub node_id: String,
    pub active_tasks: Registry<ComputeTask>,
    pub completed_tasks: Registry<TaskResult>,
    pub max_concurrent_tasks: usize,
    pub current_load: LoadRatio,
}

impl ComputeService {
    /// The load that goes with the tasks now waiting.
    pub open spec fn load(self) -> LoadRatio {
        LoadRatio {
            active: self.active_tasks.entries().len() as usize,
            capacity: self.max_concurrent_tasks,
        }
    }

    /// Whether every task slot is taken.
    pub open spec fn full(self) -> bool {
        self.active_tasks.entries().len() >= self.max_concurrent_tasks
    }

    /// A service with no task and room for `max_concurrent_tasks`.
    pub fn new(node_id: String, max_concurrent_tasks: usize) -> (service: Self)
        ensures
            service.node_id == node_id,
            service.max_concurrent_tasks == max_concurrent_tasks,
            service.active_tasks.entries().len() == 0,
            service.completed_tasks.entries().len() == 0,
            service.current_load == (LoadRatio { active: 0, capacity: max_concurrent_tasks }),
    {
        ComputeService {
            node_id,
            active_tasks: Registry::new(),
            completed_tasks: Registry::new(),
            max_concurrent_tasks,
            current_load: LoadRatio { active: 0, capacity: max_concurrent_tasks },
        }
    }

    /// Queues a task under a fresh random identifier and returns the
    /// identifier, or turns the request down where every slot is taken.
    pub fn submit_task(&mut self, wasm_bytes: Vec<u8>, input_data: Vec<u8>, task_type: TaskType) -> (
        queued: Result<String, ComputeError>)
        ensures
            final(self).node_id == old(self).node_id,
            final(self).max_concurrent_tasks == old(self).max_concurrent_tasks,
            final(self).completed_tasks == old(self).completed_tasks,
            match queued {
                Ok(task_id) => {
                    &&& !old(self).full()
                    &&& lookup(final(self).active_tasks.entries(), task_id@) matches Some(task)
                    &&& submitted(task, task_id@, wasm_bytes@, input_data@, task_type)
                    &&& final(self).active_tasks.entries() == upsert(
                        old(self).active_tasks.entries(),
                        task_id@,
                        task,
                    )
                    &&& final(self).current_load == final(self).load()
                },
                Err(e) => e == ComputeError::CapacityReached && old(self).full() && *final(self)
                    == *old(self),
            },
    {
        if self.active_tasks.len() >= self.max_concurrent_tasks {
            return Err(ComputeError::CapacityReached);
        }
        let task_id = fresh_identifier();
        self.submit_task_with_id(task_id, wasm_bytes, input_data, task_type)
    }

    /// Queues a task under `task_id` and returns the identifier, or turns
    /// the request down where every slot is taken. A waiting task that
    /// already has the identifier is replaced.
    pub fn submit_task_with_id(
        &mut self,
        task_id: String,
        wasm_bytes: Vec<u8>,
        input_data: Vec<u8>,
        task_type: TaskType,
    ) -> (queued: Result<String, ComputeError>)
        ensures
            final(self).node_id == old(self).node_id,
            final(self).max_concurrent_tasks == old(self).max_concurrent_tasks,
            final(self).completed_tasks == old(self).completed_tasks,
            match queued {
                Ok(id) => {
                    &&& id@ == task_id@
                    &&& !old(self).full()
                    &&& lookup(final(self).active_tasks.entries(), task_id@) matches Some(task)
                    &&& submitted(task, task_id@, wasm_bytes@, input_data@, task_type)
                    &&& final(self).active_tasks.entries() == upsert(
                        old(self).active_tasks.entries(),
                        task_id@,
                        task,
                    )
                    &&& final(self).current_load == final(self).load()
                },
                Err(e) => e == ComputeError::CapacityReached && old(self).full() && *final(self)
                    == *old(self),
            },
    {
        if self.active_tasks.len() >= self.max_concurrent_tasks {
            return Err(ComputeError::CapacityReached);
        }
        let task = ComputeTask {
            task_id: task_id.clone(),
            wasm_bytes,
            input_data,
            task_type,
            priority: DEFAULT_PRIORITY,
        };
        proof {
            crate::registry::lemma_upsert(self.active_tasks.entries(), task_id@, task);
        }
        self.active_tasks.insert(task_id.clone(), task);
        self.current_load = LoadRatio {
            active: self.active_tasks.len(),
            capacity: self.max_concurrent_tasks,
        };
        Ok(task_id)
    }

    /// Runs the waiting task `task_id` and files its result, or reports that
    /// no such task waits. The time the run took is measured on the way.
    pub fn execute_task(&mut self, task_id: &str) -> (ran: Result<TaskResult, ComputeError>)
        ensures
            final(self).node_id == old(self).node_id,
            final(self).max_concurrent_tasks == old(self).max_concurrent_tasks,
            match lookup(old(self).active_tasks.entries(), task_id@) {
                None => ran matches Err(e) && e == ComputeError::TaskNotFound && *final(self)
                    == *old(self),
                Some(task) => {
                    &&& ran matches Ok(result)
                    &&& succeeded(
                        result,
                        task_id@,
                        zeros(task.input_data@.len()),
                        result.execution_time_ms,
                    )
                    &&& final(self).filed(
                        *old(self),
                        task_id@,
                        zeros(task.input_data@.len()),
                        result.execution_time_ms,
                    )
                },
            },
    {
        let start = instant_now();
        let output = match self.active_tasks.get(task_id) {
            None => {
                return Err(ComputeError::TaskNotFound);
            },
            Some(task) => self.simulate_wasm_execution(
                task.wasm_bytes.as_slice(),
                task.input_data.as_slice(),
            ),
        };
        let execution_time_ms = elapsed_millis(&start);
        self.complete_task(task_id, output, execution_time_ms)
    }

    /// The state after the waiting task `task_id` was moved to the results
    /// with `output` as what it produced in `execution_time_ms`
    /// milliseconds.
    pub open spec fn filed(
        self,
        before: Self,
        task_id: Seq<char>,
        output: Seq<u8>,
        execution_time_ms: u64,
    ) -> bool {
        &&& self.node_id == before.node_id
        &&& self.max_concurrent_tasks == before.max_concurrent_tasks
        &&& self.active_tasks.entries() == without(before.active_tasks.entries(), task_id)
        &&& lookup(self.completed_tasks.entries(), task_id) matches Some(kept)
        &&& succeeded(kept, task_id, output, execution_time_ms)
        &&& self.completed_tasks.entries() == upsert(
            before.completed_tasks.entries(),
            task_id,
            kept,
        )
        &&& self.current_load == self.load()
    }

    /// Files `output_data` as the result of the waiting task `task_id`,
    /// which took `execution_time_ms` milliseconds, and returns the record;
    /// or reports that no such task waits.
    pub fn complete_task(&mut self, task_id: &str, output_data: Vec<u8>, execution_time_ms: u64) -> (
        ran: Result<TaskResult, ComputeError>)
        ensures
            final(self).node_id == old(self).node_id,
            final(self).max_concurrent_tasks == old(self).max_concurrent_tasks,
            match lookup(old(self).active_tasks.entries(), task_id@) {
                None => ran matches Err(e) && e == ComputeError::TaskNotFound && *final(self)
                    == *old(self),
                Some(_) => {
                    &&& ran matches Ok(result)
                    &&& succeeded(result, task_id@, output_data@, execution_time_ms)
                    &&& final(self).filed(*old(self), task_id@, output_data@, execution_time_ms)
                },
            },
    {
        if !self.active_tasks.contains_key(task_id) {
            return Err(ComputeError::TaskNotFound);
        }
        let result = TaskResult {
            task_id: task_id.to_owned(),
            output_data: output_data.clone(),
            execution_time_ms,
            success: true,
            error_message: None,
        };
        let kept = TaskResult {
            task_id: task_id.to_owned(),
            output_data,
            execution_time_ms,
            success: true,
            error_message: None,
        };
        proof {
            crate::registry::lemma_upsert(self.completed_tasks.entries(), task_id@, kept);
        }
        self.active_tasks.remove(task_id);
        self.completed_tasks.insert(task_id.to_owned(), kept);
        self.current_load = LoadRatio {
            active: self.active_tasks.len(),
            capacity: self.max_concurrent_tasks,
        };
        Ok(result)
    }

    /// Stands in for the execution engine: the output is as long as the
    /// input and holds zeros.
    pub fn simulate_wasm_execution(&self, wasm_bytes: &[u8], input_data: &[u8]) -> (output: Vec<u8>)
        ensures
            output@ == zeros(input_data@.len()),
    {
        let mut output: Vec<u8> = Vec::new();
        let mut i: usize = 0;
        while i < input_data.len()
            invariant
                i <= input_data@.len(),
                output@ == zeros(i as nat),
            decreases input_data@.len() - i,
        {
            output.push(0u8);
            i += 1;
            assert(output@ =~= zeros(i as nat));
        }
        output
    }

    /// `Running` for a waiting task, `Completed` for one whose result is
    /// filed, `None` for an identifier that is neither.
    pub fn get_task_status(&self, task_id: &str) -> (status: Option<TaskStatus>)
        ensures
            status == if self.active_tasks.contains(task_id@) {
                Some(TaskStatus::Running)
            } else if self.completed_tasks.contains(task_id@) {
                Some(TaskStatus::Completed)
            } else {
                None
            },
    {
        if self.active_tasks.contains_key(task_id) {
            Some(TaskStatus::Running)
        } else if self.completed_tasks.contains_key(task_id) {
            Some(TaskStatus::Completed)
        } else {
            None
        }
    }

    /// The number of waiting tasks, the number of filed results and the
    /// load as last recorded.
    pub fn get_service_stats(&self) -> (stats: (usize, usize, LoadRatio))
        ensures
            stats.0 == self.active_tasks.entries().len(),
            stats.1 == self.completed_tasks.entries().len(),
            stats.2 == self.current_load,
    {
        (self.active_tasks.len(), self.completed_tasks.len(), self.current_load)
    }
}

} // verus!
