use vstd::prelude::*;
use vstd::utf8::encode_utf8;

use crate::engine::{crank_result, exec_result, updated, CrankAction, Payout, ReimbursementPolicy};
use crate::errors::CronosError;
use crate::state::{
    ClockData, InstructionData, Pubkey, Thread, ThreadSettings, Trigger, TriggerContext,
};

verus! {

/// Bytes of the account discriminator that precedes a stored thread.
pub const DISCRIMINATOR_SIZE: u64 = 8;

/// Stored size of an instruction: program, account list (34 bytes each)
/// and payload, each list behind a 4-byte length.
pub open spec fn ix_space(ix: InstructionData) -> nat {
    32 + 4 + 34 * ix.accounts@.len() + 4 + ix.data@.len()
}

/// Stored size of the instructions of a list, without its length prefix.
pub open spec fn ixs_space(s: Seq<InstructionData>) -> nat
    decreases s.len(),
{
    if s.len() == 0 {
        0
    } else {
        ixs_space(s.drop_last()) + ix_space(s.last())
    }
}

/// Stored size of a trigger context: a tag, then its one field.
pub open spec fn ctx_space(c: TriggerContext) -> nat {
    match c {
        TriggerContext::Immediate => 1,
        _ => 9,
    }
}

/// Stored size of a string: a 4-byte length, then its UTF-8 bytes.
pub open spec fn str_space(s: Seq<char>) -> nat {
    4 + encode_utf8(s).len()
}

/// Stored size of a trigger.
pub open spec fn trigger_space(t: Trigger) -> nat {
    match t {
        Trigger::Account { .. } => 1 + 32 + 8 + 8,
        Trigger::Cron { schedule, .. } => 1 + str_space(schedule@) + 1,
        Trigger::Immediate => 1,
    }
}

/// The exact number of bytes a thread's account must hold.
pub open spec fn thread_space(t: Thread) -> nat {
    DISCRIMINATOR_SIZE as nat + 32 + 1 + 24 + match t.exec_context {
        None => 1,
        Some(ec) => 1 + 32 + ctx_space(ec.trigger_context),
    } + 8 + 4 + t.id@.len() + 4 + ixs_space(t.instructions@) + str_space(t.name@) + match t.next_instruction {
        None => 1,
        Some(ix) => 1 + ix_space(ix),
    } + 1 + 8 + trigger_space(t.trigger) + match t.last_trigger_context {
        None => 1,
        Some(c) => 1 + ctx_space(c),
    }
}

proof fn lemma_ixs_space_grows(s: Seq<InstructionData>, i: int, j: int)
    requires
        0 <= i <= j <= s.len(),
    ensures
        ixs_space(s.take(i)) <= ixs_space(s.take(j)),
    decreases j - i,
{
    if i < j {
        lemma_ixs_space_grows(s, i, j - 1);
        assert(s.take(j).drop_last() =~= s.take(j - 1));
    }
}

/// Stored size of one instruction, as a wide integer.
fn ix_size(ix: &InstructionData) -> (r: u128)
    ensures
        r == ix_space(*ix),
{
    40 + 34 * (ix.accounts.len() as u128) + ix.data.len() as u128
}

fn str_size(s: &String) -> (r: u128)
    ensures
        r == str_space(s@),
{
    4 + s.as_str().as_bytes().len() as u128
}

fn ctx_size(c: &TriggerContext) -> (r: u128)
    ensures
        r == ctx_space(*c),
{
    match c {
        TriggerContext::Immediate => 1,
        _ => 9,
    }
}

/// The exact number of bytes a thread's account must hold, or `None` when
/// that exceeds `u64`.
pub fn thread_size(t: &Thread) -> (r: Option<u64>)
    ensures
        r == (if thread_space(*t) <= u64::MAX {
            Some(thread_space(*t) as u64)
        } else {
            None::<u64>
        }),
{
    let limit: u128 = 0x1_0000_0000_0000_0000;
    assert(limit == u64::MAX + 1);
    let mut sum: u128 = 0;
    let mut i: usize = 0;
    while i < t.instructions.len()
        invariant
            0 <= i <= t.instructions@.len(),
            sum == ixs_space(t.instructions@.take(i as int)),
            sum < limit,
            limit == u64::MAX + 1,
        decreases t.instructions@.len() - i,
    {
        let size = ix_size(&t.instructions[i]);
        proof {
            assert(t.instructions@.take(i + 1).drop_last() =~= t.instructions@.take(i as int));
            assert(t.instructions@.take(i + 1).last() == t.instructions@[i as int]);
            assert(ixs_space(t.instructions@.take(i + 1)) == sum + size);
        }
        if size >= limit - sum {
            proof {
                lemma_ixs_space_grows(t.instructions@, i + 1, t.instructions@.len() as int);
                assert(t.instructions@.take(t.instructions@.len() as int) =~= t.instructions@);
            }
            return None;
        }
        sum = sum + size;
        i = i + 1;
    }
    assert(t.instructions@.take(t.instructions@.len() as int) =~= t.instructions@);
    let exec = match &t.exec_context {
        None => 1,
        Some(ec) => 33 + ctx_size(&ec.trigger_context),
    };
    let next = match &t.next_instruction {
        None => 1,
        Some(ix) => {
            let s = ix_size(ix);
            if s >= limit {
                return None;
            }
            1 + s
        },
    };
    let trig = match &t.trigger {
        Trigger::Account { .. } => 49,
        Trigger::Cron { schedule, .. } => {
            let s = str_size(schedule);
            if s >= limit {
                return None;
            }
            2 + s
        },
        Trigger::Immediate => 1,
    };
    let last = match &t.last_trigger_context {
        None => 1,
        Some(c) => 1 + ctx_size(c),
    };
    let name = str_size(&t.name);
    if name >= limit {
        return None;
    }
    let total: u128 = 8 + 32 + 1 + 24 + exec + 8 + 4 + t.id.len() as u128 + 4 + sum + name + next
        + 1 + 8 + trig + last;
    if total > u64::MAX as u128 {
        None
    } else {
        Some(total as u64)
    }
}

/// A thread together with the size of the account that stores it.
pub struct StoredThread {
    pub thread: Thread,
    /// The bytes allocated to the account.
    pub capacity: u64,
}

impl StoredThread {
    /// Whether the allocation fits the thread exactly.
    pub open spec fn fits(&self) -> bool {
        self.capacity == thread_space(self.thread)
    }

    /// Resizes the allocation to fit the thread exactly; `false`, with
    /// nothing changed, when the size exceeds `u64`.
    pub fn realloc(&mut self) -> (r: bool)
        ensures
            final(self).thread == old(self).thread,
            r == (thread_space(old(self).thread) <= u64::MAX),
            r ==> final(self).fits(),
            !r ==> final(self).capacity == old(self).capacity,
    {
        match thread_size(&self.thread) {
            Some(n) => {
                self.capacity = n;
                true
            },
            None => false,
        }
    }

    /// Cranks the stored thread, then resizes its account to fit.
    pub fn crank(&mut self, clock: &ClockData, account_data: &[u8], address: &Pubkey) -> (r:
        Result<CrankAction, CronosError>)
        requires
            old(self).thread.wf(),
        ensures
            (final(self).thread, r) == crank_result(
                old(self).thread,
                *clock,
                account_data@,
                address@,
            ),
            final(self).thread.wf(),
            thread_space(final(self).thread) <= u64::MAX ==> final(self).fits(),
    {
        let r = self.thread.crank(clock, account_data, address);
        self.realloc();
        r
    }

    /// Reports an instruction's outcome, then resizes the account to fit.
    pub fn record_exec(&mut self, succeeded: bool, policy: ReimbursementPolicy) -> (r: Result<
        Payout,
        CronosError,
    >)
        requires
            old(self).thread.wf(),
        ensures
            (final(self).thread, r) == exec_result(old(self).thread, succeeded, policy),
            final(self).thread.wf(),
            thread_space(final(self).thread) <= u64::MAX ==> final(self).fits(),
    {
        let r = self.thread.record_exec(succeeded, policy);
        self.realloc();
        r
    }

    /// Updates the stored thread's settings, then resizes the account to fit.
    pub fn update(&mut self, signer: &Pubkey, settings: ThreadSettings) -> (r: Result<
        (),
        CronosError,
    >)
        requires
            old(self).thread.wf(),
        ensures
            r is Err ==> final(self).thread == old(self).thread,
            r is Ok ==> final(self).thread == updated(old(self).thread, settings),
            r is Ok <==> signer@ == old(self).thread.authority@ && old(self).thread.is_idle() && (
            match settings.trigger {
                Some(tr) => crate::engine::trigger_valid(tr),
                None => true,
            }),
            final(self).thread.wf(),
            thread_space(final(self).thread) <= u64::MAX ==> final(self).fits(),
    {
        let r = self.thread.update(signer, settings);
        self.realloc();
        r
    }
}

} // verus!
