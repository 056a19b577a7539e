//! Tensor mining: tasks, sealing tickets, miners and the task
//! distributor. Executing the numeric kernel itself happens outside this
//! crate; a miner here finds the sealing nonce and hands out a ticket.

use vstd::prelude::*;
use crate::block::has_zero_prefix;
use crate::errors::{TribeError, TribeResult};
use crate::hashing::{sha256_hex, sha256_hex_of};
use crate::numfmt::{dec_of, u64_to_string};
use crate::runtime::{new_id, now_seconds};
use crate::tensor::{dims_product, Tensor};

verus! {

use vstd::string::{StringExecFns, StrSliceExecFns};

/// What a tensor miner can do.
#[derive(Debug)]
pub struct MinerCapabilities {
    pub max_tensor_size: usize,
    pub supported_operations: Vec<String>,
    pub compute_power: u64,
    pub is_esp_device: bool,
}

/// A tensor miner's running statistics.
#[derive(Debug, Clone)]
pub struct MinerStats {
    pub tasks_completed: u64,
    pub total_rewards: u64,
    pub average_computation_time: u64,
    pub last_active: u64,
}

/// A tensor-computation work order.
#[derive(Debug)]
pub struct MiningTask {
    pub id: String,
    pub operation_type: String,
    pub input_tensors: Vec<Tensor>,
    pub expected_output_shape: Option<Vec<usize>>,
    pub difficulty: u64,
    pub reward: u64,
    pub max_computation_time: u64,
    pub created_at: u64,
    pub requester: String,
    pub nonce_range: (u64, u64),
}

/// Canonical encoding of the sealing preimage of a task at a nonce.
pub open spec fn canon_task(t: &MiningTask, nonce: u64) -> Seq<char> {
    t.id@ + t.operation_type@ + dec_of(t.difficulty as nat) + dec_of(t.reward as nat)
        + t.requester@ + dec_of(nonce as nat)
}

impl MiningTask {
    /// A fresh task with a random identifier, stamped with the clock.
    pub fn new(
        operation_type: String,
        input_tensors: Vec<Tensor>,
        difficulty: u64,
        reward: u64,
        max_computation_time: u64,
        requester: String,
    ) -> (r: Self)
        ensures
            r.operation_type == operation_type,
            r.input_tensors == input_tensors,
            r.expected_output_shape is None,
            r.difficulty == difficulty,
            r.reward == reward,
            r.max_computation_time == max_computation_time,
            r.requester == requester,
            r.nonce_range == (0u64, u64::MAX),
            r.id@.len() == 36,
    {
        Self {
            id: new_id(),
            operation_type,
            input_tensors,
            expected_output_shape: None,
            difficulty,
            reward,
            max_computation_time,
            created_at: now_seconds(),
            requester,
            nonce_range: (0, u64::MAX),
        }
    }

    /// Declares the expected output shape.
    pub fn with_expected_output(self, shape: Vec<usize>) -> (r: Self)
        ensures
            r == (MiningTask { expected_output_shape: Some(shape), ..self }),
    {
        let mut t = self;
        t.expected_output_shape = Some(shape);
        t
    }

    /// Restricts the nonce search range.
    pub fn with_nonce_range(self, start: u64, end: u64) -> (r: Self)
        ensures
            r == (MiningTask { nonce_range: (start, end), ..self }),
    {
        let mut t = self;
        t.nonce_range = (start, end);
        t
    }

    /// The sealing hash of the task at a nonce.
    pub fn calculate_hash(&self, nonce: u64) -> (r: String)
        ensures
            r@ == sha256_hex_of(canon_task(self, nonce)),
            r@.len() == 64,
    {
        let mut data = String::new();
        data.append(self.id.as_str());
        data.append(self.operation_type.as_str());
        data.append(u64_to_string(self.difficulty).as_str());
        data.append(u64_to_string(self.reward).as_str());
        data.append(self.requester.as_str());
        data.append(u64_to_string(nonce).as_str());
        proof {
            assert(data@ =~= canon_task(self, nonce));
        }
        sha256_hex(data.as_str())
    }

    /// Whether a sealing hash clears the task difficulty bound.
    pub fn meets_difficulty(&self, hash: &str) -> (r: bool)
        ensures
            r == has_zero_prefix(hash@, self.difficulty as int),
    {
        crate::block::meets_difficulty(hash, self.difficulty)
    }

    /// Whether the task's computation budget has elapsed at `now`.
    pub fn is_expired_at(&self, now: u64) -> (r: bool)
        ensures
            r == (now > self.created_at && now - self.created_at > self.max_computation_time),
    {
        now > self.created_at && now - self.created_at > self.max_computation_time
    }
}

/// A sealing ticket: the nonce and hash a miner found for a task.
#[derive(Debug, Clone)]
pub struct SealingTicket {
    pub task_id: String,
    pub miner_id: String,
    pub nonce: u64,
    pub hash: String,
}

/// A completed mining result, carrying the computed output tensor.
#[derive(Debug)]
pub struct MiningResult {
    pub task_id: String,
    pub miner_id: String,
    pub nonce: u64,
    pub hash: String,
    pub output_tensor: Tensor,
    pub computation_time: u64,
    pub timestamp: u64,
    pub is_valid: bool,
}

impl MiningResult {
    /// A fresh, not yet validated result.
    pub fn new(
        task_id: String,
        miner_id: String,
        nonce: u64,
        hash: String,
        output_tensor: Tensor,
        computation_time: u64,
    ) -> (r: Self)
        ensures
            r.task_id == task_id,
            r.miner_id == miner_id,
            r.nonce == nonce,
            r.hash == hash,
            r.output_tensor == output_tensor,
            r.computation_time == computation_time,
            !r.is_valid,
    {
        Self {
            task_id,
            miner_id,
            nonce,
            hash,
            output_tensor,
            computation_time,
            timestamp: now_seconds(),
            is_valid: false,
        }
    }

    /// Checks the seal: the hash must clear the task's difficulty and
    /// derive from the task at the claimed nonce. The numeric output is
    /// checked by the caller that ran the kernel.
    pub fn validate_seal(&mut self, task: &MiningTask) -> (r: bool)
        ensures
            r == (has_zero_prefix(old(self).hash@, task.difficulty as int) && old(self).hash@
                == sha256_hex_of(canon_task(task, old(self).nonce))),
            final(self).is_valid == r,
            final(self).hash == old(self).hash,
            final(self).nonce == old(self).nonce,
            final(self).task_id == old(self).task_id,
    {
        if !task.meets_difficulty(self.hash.as_str()) {
            self.is_valid = false;
            return false;
        }
        let expected = task.calculate_hash(self.nonce);
        if !(expected == self.hash) {
            self.is_valid = false;
            return false;
        }
        self.is_valid = true;
        true
    }
}

/// A tensor miner.
#[derive(Debug)]
pub struct AI3Miner {
    pub id: String,
    pub address: String,
    pub capabilities: MinerCapabilities,
    pub current_task: Option<MiningTask>,
    pub stats: MinerStats,
}

impl AI3Miner {
    /// A fresh miner: embedded devices get a small tensor bound and the
    /// short operation list, full hosts the large bound and every
    /// operation.
    pub fn new(id: String, address: String, is_esp_device: bool) -> (r: Self)
        ensures
            r.id == id,
            r.address == address,
            r.capabilities.is_esp_device == is_esp_device,
            r.capabilities.max_tensor_size == if is_esp_device {
                1024int
            } else {
                1000000int
            },
            r.capabilities.compute_power == if is_esp_device {
                100int
            } else {
                1000int
            },
            r.current_task is None,
            r.stats.tasks_completed == 0,
            r.stats.total_rewards == 0,
    {
        let capabilities = if is_esp_device {
            let mut ops: Vec<String> = Vec::new();
            ops.push(String::from_str("matrix_multiply"));
            ops.push(String::from_str("relu"));
            ops.push(String::from_str("sigmoid"));
            ops.push(String::from_str("dot_product"));
            ops.push(String::from_str("vector_add"));
            MinerCapabilities {
                max_tensor_size: 1024,
                supported_operations: ops,
                compute_power: 100,
                is_esp_device: true,
            }
        } else {
            let mut ops: Vec<String> = Vec::new();
            ops.push(String::from_str("matrix_multiply"));
            ops.push(String::from_str("convolution"));
            ops.push(String::from_str("relu"));
            ops.push(String::from_str("sigmoid"));
            ops.push(String::from_str("tanh"));
            ops.push(String::from_str("softmax"));
            ops.push(String::from_str("dot_product"));
            ops.push(String::from_str("normalize"));
            ops.push(String::from_str("vector_add"));
            MinerCapabilities {
                max_tensor_size: 1000000,
                supported_operations: ops,
                compute_power: 1000,
                is_esp_device: false,
            }
        };
        Self {
            id,
            address,
            capabilities,
            current_task: None,
            stats: MinerStats {
                tasks_completed: 0,
                total_rewards: 0,
                average_computation_time: 0,
                last_active: now_seconds(),
            },
        }
    }

    /// Whether some supported-operation entry reads `op`.
    pub open spec fn spec_supports(&self, op: Seq<char>) -> bool {
        exists|i: int|
            0 <= i < self.capabilities.supported_operations@.len() && (
            #[trigger] self.capabilities.supported_operations@[i])@ == op
    }

    /// Whether every input tensor of the task fits the miner's bound.
    pub open spec fn spec_tensors_fit(&self, task: &MiningTask) -> bool {
        forall|i: int|
            0 <= i < task.input_tensors@.len() ==> dims_product(
                (#[trigger] task.input_tensors@[i]).shape.dimensions@,
            ) <= self.capabilities.max_tensor_size
    }

    /// Whether the miner can take the task: a supported operation and
    /// input tensors within the size bound.
    #[verifier::loop_isolation(false)]
    pub fn can_handle_task(&self, task: &MiningTask) -> (r: bool)
        ensures
            r == (self.spec_supports(task.operation_type@) && self.spec_tensors_fit(task)),
    {
        let n = self.capabilities.supported_operations.len();
        let mut found = false;
        let mut i: usize = 0;
        while i < n
            invariant
                i <= n,
                found ==> self.spec_supports(task.operation_type@),
                !found ==> forall|j: int|
                    0 <= j < i ==> (#[trigger] self.capabilities.supported_operations@[j])@
                        != task.operation_type@,
            decreases n - i,
        {
            if !found && self.capabilities.supported_operations[i] == task.operation_type {
                proof {
                    assert((self.capabilities.supported_operations@[i as int])@
                        == task.operation_type@);
                }
                found = true;
            }
            i = i + 1;
        }
        if !found {
            proof {
                if self.spec_supports(task.operation_type@) {
                    let w = choose|j: int|
                        0 <= j < self.capabilities.supported_operations@.len() && (
                        #[trigger] self.capabilities.supported_operations@[j])@
                            == task.operation_type@;
                    assert(false);
                }
            }
            return false;
        }
        let m = task.input_tensors.len();
        let mut k: usize = 0;
        while k < m
            invariant
                k <= m,
                found,
                self.spec_supports(task.operation_type@),
                forall|j: int|
                    0 <= j < k ==> dims_product(
                        (#[trigger] task.input_tensors@[j]).shape.dimensions@,
                    ) <= self.capabilities.max_tensor_size,
            decreases m - k,
        {
            let fits = match task.input_tensors[k].shape.total_elements_checked() {
                Some(p) => p <= self.capabilities.max_tensor_size,
                None => false,
            };
            if !fits {
                proof {
                    assert(dims_product(task.input_tensors@[k as int].shape.dimensions@)
                        > self.capabilities.max_tensor_size);
                }
                return false;
            }
            proof {
                assert(dims_product(task.input_tensors@[k as int].shape.dimensions@)
                    <= self.capabilities.max_tensor_size);
            }
            k = k + 1;
        }
        true
    }

    /// Takes a task the miner can handle; rejected otherwise.
    pub fn assign_task(&mut self, task: MiningTask) -> (r: TribeResult<()>)
        ensures
            r is Ok <==> (old(self).spec_supports(task.operation_type@) && old(self).spec_tensors_fit(&task)),
            r is Ok ==> (final(self).current_task matches Some(t) && t == task),
            r is Err ==> final(self).current_task == old(self).current_task,
    {
        if !self.can_handle_task(&task) {
            return Err(TribeError::InvalidOperation(String::from_str(
                "miner cannot handle the task",
            )));
        }
        self.current_task = Some(task);
        self.stats.last_active = now_seconds();
        Ok(())
    }

    /// One sealing attempt at a given nonce: with a current task whose
    /// seal the nonce clears, hands out a ticket and retires the task.
    /// The numeric kernel is run by the caller against the ticket.
    pub fn mine_attempt(&mut self, nonce: u64) -> (r: Option<SealingTicket>)
        ensures
            match old(self).current_task {
                None => r is None && *final(self) == *old(self),
                Some(task) => {
                    &&& (r is Some <==> has_zero_prefix(
                        sha256_hex_of(canon_task(&task, nonce)),
                        task.difficulty as int,
                    ))
                    &&& (r matches Some(ticket) ==> {
                        &&& ticket.task_id@ == task.id@
                        &&& ticket.miner_id@ == old(self).id@
                        &&& ticket.nonce == nonce
                        &&& ticket.hash@ == sha256_hex_of(canon_task(&task, nonce))
                        &&& final(self).current_task is None
                    })
                    &&& (r is None ==> final(self).current_task == old(self).current_task)
                },
            },
    {
        let ticket = match &self.current_task {
            None => {
                return None;
            },
            Some(task) => {
                let hash = task.calculate_hash(nonce);
                if !task.meets_difficulty(hash.as_str()) {
                    return None;
                }
                SealingTicket {
                    task_id: task.id.clone(),
                    miner_id: self.id.clone(),
                    nonce,
                    hash,
                }
            },
        };
        self.current_task = None;
        Some(ticket)
    }
}

/// Whether two work orders agree in every observable field.
pub open spec fn mining_task_equiv(a: &MiningTask, b: &MiningTask) -> bool {
    &&& a.id@ == b.id@
    &&& a.operation_type@ == b.operation_type@
    &&& a.input_tensors@.len() == b.input_tensors@.len()
    &&& forall|i: int|
        0 <= i < a.input_tensors@.len() ==> crate::tensor::tensor_equiv(
            #[trigger] &a.input_tensors@[i],
            &b.input_tensors@[i],
        )
    &&& match (&a.expected_output_shape, &b.expected_output_shape) {
        (Option::None, Option::None) => true,
        (Option::Some(x), Option::Some(y)) => x@ == y@,
        _ => false,
    }
    &&& a.difficulty == b.difficulty
    &&& a.reward == b.reward
    &&& a.max_computation_time == b.max_computation_time
    &&& a.created_at == b.created_at
    &&& a.requester@ == b.requester@
    &&& a.nonce_range == b.nonce_range
}

/// The tasks whose budget has not elapsed at `now`, in order.
pub open spec fn keep_live(s: Seq<MiningTask>, now: u64) -> Seq<MiningTask>
    decreases s.len(),
{
    if s.len() == 0 {
        Seq::empty()
    } else {
        keep_live(s.drop_last(), now) + if !(now > s.last().created_at && now - s.last().created_at
            > s.last().max_computation_time) {
            seq![s.last()]
        } else {
            Seq::empty()
        }
    }
}

/// The task distributor: a pending queue and the assignments it has made.
#[derive(Debug)]
pub struct TaskDistributor {
    pub pending_tasks: Vec<MiningTask>,
    pub active_tasks: Vec<(MiningTask, String)>,
    pub completed_count: u64,
}

impl TaskDistributor {
    /// An empty distributor.
    pub fn new() -> (r: Self)
        ensures
            r.pending_tasks@.len() == 0,
            r.active_tasks@.len() == 0,
            r.completed_count == 0,
    {
        Self { pending_tasks: Vec::new(), active_tasks: Vec::new(), completed_count: 0 }
    }

    /// Queues a task.
    pub fn add_task(&mut self, task: MiningTask)
        ensures
            final(self).pending_tasks@ == old(self).pending_tasks@.push(task),
            final(self).active_tasks == old(self).active_tasks,
    {
        self.pending_tasks.push(task);
    }

    /// Assigns a task to the first idle miner that can handle it; with no
    /// such miner the task joins the pending queue.
    pub fn distribute(&mut self, task: MiningTask, miners: &Vec<AI3Miner>) -> (r: TribeResult<
        Vec<String>,
    >)
        ensures
            r matches Ok(assigned) && assigned@.len() <= 1,
            r matches Ok(assigned) && (assigned@.len() == 1 ==> final(self).active_tasks@.len()
                == old(self).active_tasks@.len() + 1 && final(self).pending_tasks == old(self).pending_tasks),
            r matches Ok(assigned) && (assigned@.len() == 0 ==> final(self).pending_tasks@.len()
                == old(self).pending_tasks@.len() + 1 && (forall|i: int|
                0 <= i < miners@.len() ==> !((#[trigger] miners@[i]).current_task is None
                    && miners@[i].spec_supports(task.operation_type@) && miners@[i].spec_tensors_fit(
                    &task,
                )))),
    {
        let n = miners.len();
        let mut i: usize = 0;
        while i < n
            invariant
                i <= n,
                n == miners@.len(),
                *self == *old(self),
                forall|j: int|
                    0 <= j < i ==> !((#[trigger] miners@[j]).current_task is None
                        && miners@[j].spec_supports(task.operation_type@)
                        && miners@[j].spec_tensors_fit(&task)),
            decreases n - i,
        {
            let idle = match &miners[i].current_task {
                None => true,
                Some(_) => false,
            };
            if idle && miners[i].can_handle_task(&task) {
                let mut assigned: Vec<String> = Vec::new();
                assigned.push(miners[i].id.clone());
                let ghost pre_active = self.active_tasks@;
                self.active_tasks.push((task, assigned[0].clone()));
                proof {
                    assert(self.active_tasks@.take(pre_active.len() as int) =~= pre_active);
                }
                return Ok(assigned);
            }
            i = i + 1;
        }
        self.pending_tasks.push(task);
        Ok(Vec::new())
    }

    /// Drops every pending task whose budget has elapsed at `now`.
    pub fn cleanup_expired_at(&mut self, now: u64)
        ensures
            forall|i: int|
                0 <= i < final(self).pending_tasks@.len() ==> !(now > (
                #[trigger] final(self).pending_tasks@[i]).created_at && now - final(self).pending_tasks@[i].created_at > final(self).pending_tasks@[i].max_computation_time),
            final(self).active_tasks == old(self).active_tasks,
    {
        let mut kept: Vec<MiningTask> = Vec::new();
        let n = self.pending_tasks.len();
        let mut i: usize = 0;
        while i < n
            invariant
                i <= n,
                n == self.pending_tasks@.len(),
                *self == *old(self),
                kept@.len() == keep_live(self.pending_tasks@.take(i as int), now).len(),
                forall|j: int|
                    0 <= j < kept@.len() ==> !(now > (#[trigger] kept@[j]).created_at && now
                        - kept@[j].created_at > kept@[j].max_computation_time),
                forall|j: int|
                    0 <= j < kept@.len() ==> mining_task_equiv(
                        #[trigger] &kept@[j],
                        &keep_live(self.pending_tasks@.take(i as int), now)[j],
                    ),
            decreases n - i,
        {
            proof {
                assert(self.pending_tasks@.take(i + 1).drop_last() =~= self.pending_tasks@.take(
                    i as int,
                ));
                assert(self.pending_tasks@.take(i + 1).last() == self.pending_tasks@[i as int]);
            }
            let expired = self.pending_tasks[i].is_expired_at(now);
            if !expired {
                let ghost pre = kept@;
                let t = &self.pending_tasks[i];
                kept.push(
                    MiningTask {
                        id: t.id.clone(),
                        operation_type: t.operation_type.clone(),
                        input_tensors: clone_tensors(&t.input_tensors),
                        expected_output_shape: clone_opt_dims(&t.expected_output_shape),
                        difficulty: t.difficulty,
                        reward: t.reward,
                        max_computation_time: t.max_computation_time,
                        created_at: t.created_at,
                        requester: t.requester.clone(),
                        nonce_range: t.nonce_range,
                    },
                );
                proof {
                    assert(mining_task_equiv(
                        &kept@[kept@.len() - 1],
                        &self.pending_tasks@[i as int],
                    ));
                }
            }
            i = i + 1;
        }
        proof {
            assert(self.pending_tasks@.take(n as int) =~= self.pending_tasks@);
        }
        self.pending_tasks = kept;
    }
}

/// Clones a tensor list, preserving each tensor's observable fields.
pub fn clone_tensors(ts: &Vec<Tensor>) -> (r: Vec<Tensor>)
    ensures
        r@.len() == ts@.len(),
        forall|i: int|
            0 <= i < ts@.len() ==> crate::tensor::tensor_equiv(#[trigger] &r@[i], &ts@[i]),
{
    let mut out: Vec<Tensor> = Vec::new();
    let n = ts.len();
    let mut i: usize = 0;
    while i < n
        invariant
            i <= n,
            n == ts@.len(),
            out@.len() == i,
            forall|j: int|
                0 <= j < i ==> crate::tensor::tensor_equiv(#[trigger] &out@[j], &ts@[j]),
        decreases n - i,
    {
        out.push(ts[i].clone());
        i = i + 1;
    }
    out
}

/// Clones an optional extent list, preserving the extents.
pub fn clone_opt_dims(d: &Option<Vec<usize>>) -> (r: Option<Vec<usize>>)
    ensures
        match (&r, d) {
            (Option::None, Option::None) => true,
            (Option::Some(x), Option::Some(y)) => x@ == y@,
            _ => false,
        },
{
    match d {
        None => None,
        Some(v) => {
            let c = v.clone();
            proof {
                assert(c@ =~= v@);
            }
            Some(c)
        },
    }
}

} // verus!
