use vstd::prelude::*;

use crate::errors::CronosError;
use crate::cron::{cron_form, schedule_ok, validate_schedule};
use crate::state::{
    ClockData, ExecContext, InstructionData, Pubkey, Thread, ThreadSettings, Trigger,
    TriggerContext,
};
use crate::trigger::{evaluate_trigger, same_key, trigger_outcome};

verus! {

/// What a crank asks its caller to do next.
#[derive(Debug, Clone, Copy, PartialEq, Eq, Structural)]
pub enum CrankAction {
    /// Nothing to do: the thread is paused or not due.
    Noop,
    /// The rate limit of the current slot is used up: try in a later slot.
    Deferred,
    /// Execute the instruction at `index`, then report the outcome.
    Execute { index: usize },
}

/// When the submission overhead is paid back to the cranking party.
#[derive(Debug, Clone, Copy, PartialEq, Eq, Structural)]
pub struct ReimbursementPolicy {
    /// Reimburse after every executed instruction.
    pub reimburse_every_exec: bool,
    /// Reimburse once this many execs have accumulated.
    pub threshold: u64,
}

/// What one successful instruction pays out.
#[derive(Debug, Clone, Copy, PartialEq, Eq, Structural)]
pub struct Payout {
    /// The fee owed to the worker for the work performed.
    pub worker_fee: u64,
    /// The number of execs whose submission overhead is reimbursed now.
    pub reimbursed_execs: u64,
}

/// Whether an instruction declares `address` as writable.
pub open spec fn declares_writable(ix: InstructionData, address: Seq<u8>) -> bool {
    exists|i: int|
        0 <= i < ix.accounts@.len() && #[trigger] ix.accounts@[i].pubkey@ == address
            && ix.accounts@[i].is_writable
}

/// The thread after a trigger fired at `slot` with context `ctx`.
pub open spec fn kicked_off(t: Thread, slot: u64, ctx: TriggerContext) -> Thread {
    if t.instructions@.len() == 0 {
        Thread { last_trigger_context: Some(ctx), ..t }
    } else {
        Thread {
            exec_context: Some(ExecContext::fresh(slot, ctx)),
            last_trigger_context: Some(ctx),
            ..t
        }
    }
}

/// The context after moving to `slot`: the per-slot counter restarts when the
/// slot has advanced.
pub open spec fn rolled(ec: ExecContext, slot: u64) -> ExecContext {
    if slot > ec.last_exec_at {
        ExecContext { execs_since_slot: 0, last_exec_at: slot, ..ec }
    } else {
        ec
    }
}

/// The crank step of a thread that is mid-pipeline (`orig` is the thread as
/// the crank found it, restored on failure).
pub open spec fn exec_step(orig: Thread, t: Thread, slot: u64, address: Seq<u8>) -> (
    Thread,
    Result<CrankAction, CronosError>,
) {
    match t.exec_context {
        Some(ec) => {
            let ec2 = rolled(ec, slot);
            let t2 = Thread { exec_context: Some(ec2), ..t };
            if ec2.execs_since_slot >= t.rate_limit {
                (t2, Ok(CrankAction::Deferred))
            } else if declares_writable(t.instructions@[ec2.exec_index as int], address) {
                (orig, Err(CronosError::InnerIxReentrancy))
            } else {
                (t2, Ok(CrankAction::Execute { index: ec2.exec_index }))
            }
        },
        None => (t, Ok(CrankAction::Noop)),
    }
}

/// The result of one crank: the thread afterwards and the action.
pub open spec fn crank_result(t: Thread, clock: ClockData, data: Seq<u8>, address: Seq<u8>) -> (
    Thread,
    Result<CrankAction, CronosError>,
) {
    if t.paused {
        (t, Ok(CrankAction::Noop))
    } else if t.exec_context is None {
        match trigger_outcome(t, clock.unix_timestamp, data) {
            Err(e) => (t, Err(e)),
            Ok(None) => (t, Ok(CrankAction::Noop)),
            Ok(Some(ctx)) => exec_step(t, kicked_off(t, clock.slot, ctx), clock.slot, address),
        }
    } else {
        exec_step(t, t, clock.slot, address)
    }
}

/// The reimbursement counter after one more exec, saturating.
pub open spec fn bumped(n: u64) -> u64 {
    if n < u64::MAX {
        (n + 1) as u64
    } else {
        n
    }
}

/// The result of reporting the outcome of the instruction a crank asked for.
pub open spec fn exec_result(t: Thread, succeeded: bool, policy: ReimbursementPolicy) -> (
    Thread,
    Result<Payout, CronosError>,
) {
    match t.exec_context {
        None => (t, Err(CronosError::InvalidQueueStatus)),
        Some(ec) => if ec.execs_since_slot >= t.rate_limit {
            (t, Err(CronosError::QueueNotDue))
        } else if !succeeded {
            (t, Err(CronosError::InnerIxFailed))
        } else {
            let index = ec.exec_index + 1;
            let count = bumped(ec.execs_since_reimbursement);
            let done = index >= t.instructions@.len();
            let reimburse = policy.reimburse_every_exec || count >= policy.threshold || done;
            let payout = Payout {
                worker_fee: t.fee,
                reimbursed_execs: if reimburse { count } else { 0 },
            };
            let next = if done {
                None
            } else {
                Some(
                    ExecContext {
                        exec_index: index as usize,
                        execs_since_slot: (ec.execs_since_slot + 1) as u64,
                        execs_since_reimbursement: if reimburse { 0 } else { count },
                        ..ec
                    },
                )
            };
            (Thread { exec_context: next, ..t }, Ok(payout))
        },
    }
}

/// Finds whether an instruction declares `address` as writable.
pub fn writes_account(ix: &InstructionData, address: &Pubkey) -> (r: bool)
    ensures
        r == declares_writable(*ix, address@),
{
    let mut i: usize = 0;
    while i < ix.accounts.len()
        invariant
            0 <= i <= ix.accounts@.len(),
            forall|j: int|
                0 <= j < i ==> !(#[trigger] ix.accounts@[j].pubkey@ == address@
                    && ix.accounts@[j].is_writable),
        decreases ix.accounts@.len() - i,
    {
        let meta = &ix.accounts[i];
        if meta.is_writable && same_key(&meta.pubkey, address) {
            assert(ix.accounts@[i as int].pubkey@ == address@);
            return true;
        }
        i = i + 1;
    }
    false
}

/// Whether a crank goes on to the next instruction after one succeeded:
/// while the run is unfinished and the compute budget lasts.
pub fn keep_cranking(thread: &Thread, budget_left: bool) -> (r: bool)
    ensures
        r == (thread.exec_context is Some && budget_left),
{
    thread.exec_context.is_some() && budget_left
}

/// Whether a trigger is well-formed: a cron schedule must parse.
pub open spec fn trigger_valid(t: Trigger) -> bool {
    match t {
        Trigger::Cron { schedule, .. } => schedule_ok(cron_form(schedule@)),
        _ => true,
    }
}

/// The thread after an update: each present setting overwrites its field, and
/// a new trigger is armed afresh.
pub open spec fn updated(t: Thread, s: ThreadSettings) -> Thread {
    Thread {
        fee: match s.fee {
            Some(f) => f,
            None => t.fee,
        },
        instructions: match s.instructions {
            Some(i) => i,
            None => t.instructions,
        },
        name: match s.name {
            Some(n) => n,
            None => t.name,
        },
        rate_limit: match s.rate_limit {
            Some(l) => l,
            None => t.rate_limit,
        },
        trigger: match s.trigger {
            Some(tr) => tr,
            None => t.trigger,
        },
        last_trigger_context: if s.trigger is Some {
            None
        } else {
            t.last_trigger_context
        },
        ..t
    }
}

/// Checks that a trigger is well-formed.
pub fn check_trigger(trigger: &Trigger) -> (r: Result<(), CronosError>)
    ensures
        r is Ok <==> trigger_valid(*trigger),
        r is Err ==> r == Err::<(), CronosError>(CronosError::InvalidSchedule),
{
    match trigger {
        Trigger::Cron { schedule, .. } => {
            if validate_schedule(schedule.as_str()).is_ok() {
                Ok(())
            } else {
                Err(CronosError::InvalidSchedule)
            }
        },
        _ => Ok(()),
    }
}

impl Thread {
    /// Whether two threads are the same thread: same authority and id.
    pub fn same_thread(&self, other: &Thread) -> (r: bool)
        ensures
            r == (self.authority@ == other.authority@ && self.id@ == other.id@),
    {
        if !same_key(&self.authority, &other.authority) || self.id.len() != other.id.len() {
            return false;
        }
        let mut i: usize = 0;
        while i < self.id.len()
            invariant
                0 <= i <= self.id@.len(),
                self.id@.len() == other.id@.len(),
                forall|j: int| 0 <= j < i ==> self.id@[j] == other.id@[j],
            decreases self.id@.len() - i,
        {
            if self.id[i] != other.id[i] {
                return false;
            }
            i = i + 1;
        }
        assert(self.id@ =~= other.id@);
        true
    }

    /// Creates an idle, unpaused thread, after checking its trigger.
    pub fn new(
        authority: Pubkey,
        bump: u8,
        id: Vec<u8>,
        name: String,
        instructions: Vec<InstructionData>,
        trigger: Trigger,
        fee: u64,
        rate_limit: u64,
        clock: ClockData,
    ) -> (r: Result<Thread, CronosError>)
        ensures
            r is Ok <==> trigger_valid(trigger),
            r is Err ==> r == Err::<Thread, CronosError>(CronosError::InvalidSchedule),
            r matches Ok(t) ==> t == (Thread {
                authority,
                bump,
                created_at: clock,
                exec_context: None,
                fee,
                id,
                instructions,
                name,
                next_instruction: None,
                paused: false,
                rate_limit,
                trigger,
                last_trigger_context: None,
            }),
            r matches Ok(t) ==> t.wf(),
    {
        check_trigger(&trigger)?;
        Ok(Thread {
            authority,
            bump,
            created_at: clock,
            exec_context: None,
            fee,
            id,
            instructions,
            name,
            next_instruction: None,
            paused: false,
            rate_limit,
            trigger,
            last_trigger_context: None,
        })
    }

    /// Applies the authority's settings to an idle thread. Fails, leaving
    /// the thread unchanged, when `signer` is not the authority, when the
    /// thread is mid-pipeline, or when a new trigger is malformed.
    pub fn update(&mut self, signer: &Pubkey, settings: ThreadSettings) -> (r: Result<
        (),
        CronosError,
    >)
        requires
            old(self).wf(),
        ensures
            signer@ != old(self).authority@ ==> r == Err::<(), CronosError>(CronosError::NotAdmin),
            signer@ == old(self).authority@ && !old(self).is_idle() ==> r == Err::<(), CronosError>(
                CronosError::InvalidQueueStatus,
            ),
            signer@ == old(self).authority@ && old(self).is_idle() && (match settings.trigger {
                Some(tr) => !trigger_valid(tr),
                None => false,
            }) ==> r == Err::<(), CronosError>(CronosError::InvalidSchedule),
            r is Err ==> *final(self) == *old(self),
            r is Ok ==> *final(self) == updated(*old(self), settings),
            r is Ok <==> signer@ == old(self).authority@ && old(self).is_idle() && (match settings.trigger {
                Some(tr) => trigger_valid(tr),
                None => true,
            }),
            final(self).wf(),
    {
        if !same_key(signer, &self.authority) {
            return Err(CronosError::NotAdmin);
        }
        if self.exec_context.is_some() {
            return Err(CronosError::InvalidQueueStatus);
        }
        if let Some(tr) = &settings.trigger {
            check_trigger(tr)?;
        }
        let ThreadSettings { fee, instructions, name, rate_limit, trigger } = settings;
        if let Some(f) = fee {
            self.fee = f;
        }
        if let Some(i) = instructions {
            self.instructions = i;
        }
        if let Some(n) = name {
            self.name = n;
        }
        if let Some(l) = rate_limit {
            self.rate_limit = l;
        }
        if let Some(tr) = trigger {
            self.trigger = tr;
            self.last_trigger_context = None;
        }
        Ok(())
    }

    /// Pauses the thread: cranks do nothing until it is resumed.
    pub fn pause(&mut self, signer: &Pubkey) -> (r: Result<(), CronosError>)
        requires
            old(self).wf(),
        ensures
            r is Ok <==> signer@ == old(self).authority@,
            r is Err ==> r == Err::<(), CronosError>(CronosError::NotAdmin) && *final(self) == *old(self),
            r is Ok ==> *final(self) == (Thread { paused: true, ..*old(self) }),
            final(self).wf(),
    {
        if !same_key(signer, &self.authority) {
            return Err(CronosError::NotAdmin);
        }
        self.paused = true;
        Ok(())
    }

    /// Resumes a paused thread.
    pub fn resume(&mut self, signer: &Pubkey) -> (r: Result<(), CronosError>)
        requires
            old(self).wf(),
        ensures
            r is Ok <==> signer@ == old(self).authority@,
            r is Err ==> r == Err::<(), CronosError>(CronosError::NotAdmin) && *final(self) == *old(self),
            r is Ok ==> *final(self) == (Thread { paused: false, ..*old(self) }),
            final(self).wf(),
    {
        if !same_key(signer, &self.authority) {
            return Err(CronosError::NotAdmin);
        }
        self.paused = false;
        Ok(())
    }

    /// Checks that the thread may be deleted: by its authority, while idle.
    pub fn check_delete(&self, signer: &Pubkey) -> (r: Result<(), CronosError>)
        ensures
            signer@ != self.authority@ ==> r == Err::<(), CronosError>(CronosError::NotAdmin),
            signer@ == self.authority@ && !self.is_idle() ==> r == Err::<(), CronosError>(
                CronosError::InvalidQueueStatus,
            ),
            r is Ok <==> signer@ == self.authority@ && self.is_idle(),
    {
        if !same_key(signer, &self.authority) {
            return Err(CronosError::NotAdmin);
        }
        if self.exec_context.is_some() {
            return Err(CronosError::InvalidQueueStatus);
        }
        Ok(())
    }

    /// Advances the thread by one crank. A paused thread is left alone; an
    /// idle one has its trigger evaluated and, when due, starts a run; a
    /// thread mid-pipeline names the instruction to execute next, unless the
    /// slot's rate limit is used up. `address` is the thread's own address
    /// and `account_data` the data of the monitored account. On error the
    /// thread is unchanged.
    pub fn crank(&mut self, clock: &ClockData, account_data: &[u8], address: &Pubkey) -> (r:
        Result<CrankAction, CronosError>)
        requires
            old(self).wf(),
        ensures
            (*final(self), r) == crank_result(*old(self), *clock, account_data@, address@),
            final(self).wf(),
    {
        if self.paused {
            return Ok(CrankAction::Noop);
        }
        let mut ec = match self.exec_context {
            Some(ec) => ec,
            None => {
                match evaluate_trigger(self, clock.unix_timestamp, account_data) {
                    Err(e) => {
                        return Err(e);
                    },
                    Ok(None) => {
                        return Ok(CrankAction::Noop);
                    },
                    Ok(Some(ctx)) => {
                        let fresh = ExecContext {
                            exec_index: 0,
                            execs_since_reimbursement: 0,
                            execs_since_slot: 0,
                            last_exec_at: clock.slot,
                            trigger_context: ctx,
                        };
                        if self.instructions.len() == 0 {
                            self.last_trigger_context = Some(ctx);
                            return Ok(CrankAction::Noop);
                        }
                        if fresh.execs_since_slot >= self.rate_limit {
                            self.exec_context = Some(fresh);
                            self.last_trigger_context = Some(ctx);
                            return Ok(CrankAction::Deferred);
                        }
                        if writes_account(&self.instructions[0], address) {
                            return Err(CronosError::InnerIxReentrancy);
                        }
                        self.exec_context = Some(fresh);
                        self.last_trigger_context = Some(ctx);
                        return Ok(CrankAction::Execute { index: 0 });
                    },
                }
            },
        };
        if clock.slot > ec.last_exec_at {
            ec.execs_since_slot = 0;
            ec.last_exec_at = clock.slot;
        }
        if ec.execs_since_slot >= self.rate_limit {
            self.exec_context = Some(ec);
            return Ok(CrankAction::Deferred);
        }
        if writes_account(&self.instructions[ec.exec_index], address) {
            return Err(CronosError::InnerIxReentrancy);
        }
        self.exec_context = Some(ec);
        Ok(CrankAction::Execute { index: ec.exec_index })
    }

    /// Reports the outcome of the instruction that the last crank asked for.
    /// A failure leaves the thread as it was, so the same instruction runs
    /// again on a later crank; a success advances the pipeline, clears the
    /// context after the last instruction, and returns what is owed.
    pub fn record_exec(&mut self, succeeded: bool, policy: ReimbursementPolicy) -> (r: Result<
        Payout,
        CronosError,
    >)
        requires
            old(self).wf(),
        ensures
            (*final(self), r) == exec_result(*old(self), succeeded, policy),
            final(self).wf(),
    {
        let ec = match self.exec_context {
            None => {
                return Err(CronosError::InvalidQueueStatus);
            },
            Some(ec) => ec,
        };
        if ec.execs_since_slot >= self.rate_limit {
            return Err(CronosError::QueueNotDue);
        }
        if !succeeded {
            return Err(CronosError::InnerIxFailed);
        }
        let len = self.instructions.len();
        assert(ec.exec_index < len);
        let index = ec.exec_index + 1;
        let count = if ec.execs_since_reimbursement < u64::MAX {
            ec.execs_since_reimbursement + 1
        } else {
            ec.execs_since_reimbursement
        };
        let done = index >= len;
        let reimburse = policy.reimburse_every_exec || count >= policy.threshold || done;
        let payout = Payout { worker_fee: self.fee, reimbursed_execs: if reimburse { count } else { 0 } };
        if done {
            self.exec_context = None;
        } else {
            self.exec_context = Some(ExecContext {
                exec_index: index,
                execs_since_slot: ec.execs_since_slot + 1,
                execs_since_reimbursement: if reimburse { 0 } else { count },
                last_exec_at: ec.last_exec_at,
                trigger_context: ec.trigger_context,
            });
        }
        Ok(payout)
    }
}

} // verus!
