use vstd::prelude::*;

verus! {

/// A 32-byte account address.
pub type Pubkey = [u8; 32];

/// The cluster clock as a crank sees it.
#[derive(Debug, Clone, Copy, PartialEq, Eq, Structural)]
pub struct ClockData {
    /// The current slot: the period over which rate limits are counted.
    pub slot: u64,
    /// The current epoch.
    pub epoch: u64,
    /// Seconds since the Unix epoch.
    pub unix_timestamp: i64,
}

/// One account that an instruction declares.
#[derive(Debug, Clone, Copy)]
pub struct AccountMetaData {
    pub pubkey: Pubkey,
    pub is_signer: bool,
    pub is_writable: bool,
}

/// An instruction of a thread's pipeline.
#[derive(Debug, Clone)]
pub struct InstructionData {
    /// The program that runs the instruction.
    pub program_id: Pubkey,
    /// The accounts the instruction declares.
    pub accounts: Vec<AccountMetaData>,
    /// The opaque payload.
    pub data: Vec<u8>,
}

/// The triggering conditions of a thread.
#[derive(Debug, Clone)]
pub enum Trigger {
    /// Fires whenever the monitored bytes of an account change.
    Account {
        /// The address of the account to monitor.
        address: Pubkey,
        /// The byte offset of the monitored range.
        offset: usize,
        /// The length of the monitored range.
        size: usize,
    },
    /// Fires on a cron schedule.
    Cron {
        /// The schedule in cron syntax (seconds first).
        schedule: String,
        /// Whether missed occurrences may be skipped.
        skippable: bool,
    },
    /// Fires once, as soon as the thread exists.
    Immediate,
}

/// The event which started a pipeline run.
#[derive(Debug, Clone, Copy, PartialEq, Eq, Structural)]
pub enum TriggerContext {
    /// The hash of the monitored account bytes.
    Account { data_hash: u64 },
    /// The schedule occurrence that the run answers.
    Cron { started_at: i64 },
    /// The one-time immediate start.
    Immediate,
}

/// The execution context of a thread that is mid-pipeline.
#[derive(Debug, Clone, Copy, PartialEq, Eq, Structural)]
pub struct ExecContext {
    /// Index of the next instruction to be executed.
    pub exec_index: usize,
    /// Number of execs since the last reimbursement.
    pub execs_since_reimbursement: u64,
    /// Number of execs in the slot `last_exec_at`.
    pub execs_since_slot: u64,
    /// Slot of the last exec.
    pub last_exec_at: u64,
    /// Why this run started.
    pub trigger_context: TriggerContext,
}

/// A transaction thread: a pipeline of instructions and its trigger.
#[derive(Debug, Clone)]
pub struct Thread {
    /// The owner of this thread.
    pub authority: Pubkey,
    /// The bump, used for address validation.
    pub bump: u8,
    /// The cluster clock at the moment the thread was created.
    pub created_at: ClockData,
    /// Present exactly while the thread is mid-pipeline.
    pub exec_context: Option<ExecContext>,
    /// The number of lamports paid to workers per executed instruction.
    pub fee: u64,
    /// The id of the thread, given by the authority.
    pub id: Vec<u8>,
    /// The instructions to be executed.
    pub instructions: Vec<InstructionData>,
    /// The name of the thread.
    pub name: String,
    /// The instruction queued for the following crank.
    pub next_instruction: Option<InstructionData>,
    /// Whether the thread is paused.
    pub paused: bool,
    /// The maximum number of execs per slot.
    pub rate_limit: u64,
    /// The triggering event to kick off a thread.
    pub trigger: Trigger,
    /// The context of the most recent firing, kept after the run completes.
    pub last_trigger_context: Option<TriggerContext>,
}

/// The properties of threads which are updatable.
pub struct ThreadSettings {
    pub fee: Option<u64>,
    pub instructions: Option<Vec<InstructionData>>,
    pub name: Option<String>,
    pub rate_limit: Option<u64>,
    pub trigger: Option<Trigger>,
}

impl ExecContext {
    /// The context right after a trigger fired at `slot`.
    pub open spec fn fresh(slot: u64, ctx: TriggerContext) -> ExecContext {
        ExecContext {
            exec_index: 0,
            execs_since_reimbursement: 0,
            execs_since_slot: 0,
            last_exec_at: slot,
            trigger_context: ctx,
        }
    }
}

impl Thread {
    /// The thread's invariant: a context exists only mid-pipeline, points at
    /// an instruction, stays within the rate limit, and records the firing
    /// that started it.
    pub open spec fn wf(&self) -> bool {
        match self.exec_context {
            Some(ec) => {
                &&& ec.exec_index < self.instructions@.len()
                &&& ec.execs_since_slot <= self.rate_limit
                &&& self.last_trigger_context == Some(ec.trigger_context)
            },
            None => true,
        }
    }

    /// Checks the thread's invariant, for threads that come from storage.
    pub fn wf_holds(&self) -> (r: bool)
        ensures
            r == self.wf(),
    {
        match self.exec_context {
            Some(ec) => ec.exec_index < self.instructions.len() && ec.execs_since_slot
                <= self.rate_limit && self.last_trigger_context == Some(ec.trigger_context),
            None => true,
        }
    }

    /// Whether the thread is idle (not mid-pipeline).
    pub open spec fn is_idle(&self) -> bool {
        self.exec_context is None
    }
}

} // verus!
