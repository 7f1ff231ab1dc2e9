use vstd::prelude::*;
use std::hash::{Hash, Hasher};

use crate::cron::{
    check_schedule, cron_form, latest_from, latest_occurrence, next_occurrence,
    next_occurrence_of, schedule_ok, with_seconds,
};
use crate::errors::CronosError;
use crate::state::{Pubkey, Thread, Trigger, TriggerContext};

verus! {

/// The fixed-width hash of a byte sequence.
pub uninterp spec fn data_hash(data: Seq<u8>) -> u64;

/// Relies on std's `DefaultHasher::new()` fed the slice: every hasher made by
/// `new` starts from the same keys, so the hash depends on the bytes alone
/// (std does not promise the same algorithm across Rust releases).
#[verifier::external_body]
fn hash_bytes(data: &[u8]) -> (r: u64)
    ensures
        r == data_hash(data@),
{
    let mut hasher = std::collections::hash_map::DefaultHasher::new();
    data.hash(&mut hasher);
    hasher.finish()
}

/// Whether two addresses are equal, byte for byte.
pub fn same_key(a: &Pubkey, b: &Pubkey) -> (r: bool)
    ensures
        r == (a@ == b@),
{
    let mut i: usize = 0;
    while i < 32
        invariant
            0 <= i <= 32,
            forall|j: int| 0 <= j < i ==> a@[j] == b@[j],
        decreases 32 - i,
    {
        if a[i] != b[i] {
            return false;
        }
        i = i + 1;
    }
    assert(a@ =~= b@);
    true
}

/// The monitored range of an account's data, when it fits.
pub open spec fn monitored(data: Seq<u8>, offset: usize, size: usize) -> Option<Seq<u8>> {
    if offset + size <= data.len() {
        Some(data.subrange(offset as int, offset + size))
    } else {
        None
    }
}

/// Decides an account trigger from the hash of the monitored bytes: due,
/// with that hash, unless it is the hash recorded at the last firing.
pub fn account_decision(last: Option<TriggerContext>, hash: u64) -> (r: Option<TriggerContext>)
    ensures
        last == Some(TriggerContext::Account { data_hash: hash }) ==> r is None,
        last != Some(TriggerContext::Account { data_hash: hash }) ==> r == Some(
            TriggerContext::Account { data_hash: hash },
        ),
{
    let ctx = TriggerContext::Account { data_hash: hash };
    if last == Some(ctx) {
        None
    } else {
        Some(ctx)
    }
}

/// Decides whether a cron trigger is due from its next occurrence: it is
/// when that occurrence exists and is not after `now`.
pub fn cron_due(next: Option<i64>, now: i64) -> (r: bool)
    ensures
        r == (next matches Some(n) && n <= now),
{
    match next {
        Some(n) => n <= now,
        None => false,
    }
}

/// The timestamp a cron trigger counts from: the last run it started, or the
/// thread's creation.
pub open spec fn cron_reference(t: Thread) -> i64 {
    match t.last_trigger_context {
        Some(TriggerContext::Cron { started_at }) => started_at,
        _ => t.created_at.unix_timestamp,
    }
}

/// What evaluating a thread's trigger at time `now` gives, with `data` the
/// bytes of the monitored account: `Ok(Some(ctx))` when due, `Ok(None)` when
/// not.
pub open spec fn trigger_outcome(t: Thread, now: i64, data: Seq<u8>) -> Result<
    Option<TriggerContext>,
    CronosError,
> {
    match t.trigger {
        Trigger::Immediate => if t.last_trigger_context is None {
            Ok(Some(TriggerContext::Immediate))
        } else {
            Ok(None)
        },
        Trigger::Cron { schedule, skippable } => {
            let expression = cron_form(schedule@);
            if !schedule_ok(expression) {
                Err(CronosError::InvalidSchedule)
            } else {
                match next_occurrence(expression, cron_reference(t)) {
                    Some(next) => if next <= now {
                        let started_at = if skippable {
                            latest_occurrence(expression, next, now)
                        } else {
                            next
                        };
                        Ok(Some(TriggerContext::Cron { started_at }))
                    } else {
                        Ok(None)
                    },
                    None => Ok(None),
                }
            }
        },
        Trigger::Account { address, offset, size } => match monitored(data, offset, size) {
            Some(bytes) => {
                let hash = data_hash(bytes);
                if t.last_trigger_context == Some(TriggerContext::Account { data_hash: hash }) {
                    Ok(None)
                } else {
                    Ok(Some(TriggerContext::Account { data_hash: hash }))
                }
            },
            None => Err(CronosError::InvalidDynamicAccounts),
        },
    }
}

/// Decides whether the thread's trigger is due at `now`; `account_data` is
/// the current data of the monitored account (unused by other triggers).
pub fn evaluate_trigger(thread: &Thread, now: i64, account_data: &[u8]) -> (r: Result<
    Option<TriggerContext>,
    CronosError,
>)
    ensures
        r == trigger_outcome(*thread, now, account_data@),
{
    match &thread.trigger {
        Trigger::Immediate => {
            if thread.last_trigger_context.is_none() {
                Ok(Some(TriggerContext::Immediate))
            } else {
                Ok(None)
            }
        },
        Trigger::Cron { schedule, skippable } => {
            let reference = match thread.last_trigger_context {
                Some(TriggerContext::Cron { started_at }) => started_at,
                _ => thread.created_at.unix_timestamp,
            };
            let canonical = with_seconds(schedule.as_str());
            if check_schedule(canonical.as_str()).is_err() {
                return Err(CronosError::InvalidSchedule);
            }
            match next_occurrence_of(canonical.as_str(), reference) {
                None => Ok(None),
                Some(next) => {
                    if cron_due(Some(next), now) {
                        let started_at = if *skippable {
                            latest_from(canonical.as_str(), next, now)
                        } else {
                            next
                        };
                        Ok(Some(TriggerContext::Cron { started_at }))
                    } else {
                        Ok(None)
                    }
                },
            }
        },
        Trigger::Account { address, offset, size } => {
            let len = account_data.len();
            if *offset > len || *size > len - *offset {
                return Err(CronosError::InvalidDynamicAccounts);
            }
            let mut bytes: Vec<u8> = Vec::new();
            let mut i: usize = *offset;
            let end: usize = *offset + *size;
            while i < end
                invariant
                    *offset <= i <= end,
                    end == *offset + *size,
                    end <= account_data@.len(),
                    bytes@ =~= account_data@.subrange(*offset as int, i as int),
                decreases end - i,
            {
                bytes.push(account_data[i]);
                i = i + 1;
            }
            let hash = hash_bytes(bytes.as_slice());
            Ok(account_decision(thread.last_trigger_context, hash))
        },
    }
}

} // verus!
