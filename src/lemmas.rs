use vstd::prelude::*;

use crate::cron::{cron_matches, cron_form, latest_occurrence, next_occurrence, schedule_ok};
use crate::engine::{crank_result, declares_writable, exec_result, rolled, CrankAction, ReimbursementPolicy};
use crate::errors::CronosError;
use crate::state::{ClockData, ExecContext, Thread, Trigger, TriggerContext};
use crate::trigger::{cron_reference, data_hash, monitored, trigger_outcome};

verus! {

/// Neither a crank nor an exec report breaks the thread's invariant; in
/// particular the per-slot exec count never exceeds the rate limit.
pub proof fn lemma_steps_keep_invariant(
    t: Thread,
    clock: ClockData,
    data: Seq<u8>,
    address: Seq<u8>,
    succeeded: bool,
    policy: ReimbursementPolicy,
)
    requires
        t.wf(),
    ensures
        crank_result(t, clock, data, address).0.wf(),
        exec_result(t, succeeded, policy).0.wf(),
        crank_result(t, clock, data, address).0.exec_context matches Some(ec)
            ==> ec.execs_since_slot <= t.rate_limit,
        exec_result(t, succeeded, policy).0.exec_context matches Some(ec)
            ==> ec.execs_since_slot <= t.rate_limit,
{
}

/// An immediate trigger fires on the first crank of an idle, unpaused thread
/// that has never fired, and once it has fired it is never due again: no
/// crank or exec report forgets the firing (only a new trigger re-arms it).
pub proof fn lemma_immediate_fires_once(
    t: Thread,
    clock: ClockData,
    data: Seq<u8>,
    address: Seq<u8>,
    succeeded: bool,
    policy: ReimbursementPolicy,
)
    requires
        t.wf(),
        t.trigger is Immediate,
    ensures
        t.last_trigger_context is None && t.is_idle() && !t.paused ==> crank_result(
            t,
            clock,
            data,
            address,
        ).0.last_trigger_context == Some(TriggerContext::Immediate) || crank_result(
            t,
            clock,
            data,
            address,
        ) == (t, Err::<CrankAction, CronosError>(CronosError::InnerIxReentrancy)),
        t.last_trigger_context is Some ==> trigger_outcome(t, clock.unix_timestamp, data) == Ok::<
            Option<TriggerContext>,
            CronosError,
        >(None),
        t.last_trigger_context is Some ==> crank_result(
            t,
            clock,
            data,
            address,
        ).0.last_trigger_context == t.last_trigger_context,
        exec_result(t, succeeded, policy).0.last_trigger_context == t.last_trigger_context,
        crank_result(t, clock, data, address).0.trigger == t.trigger,
        t.last_trigger_context is None && t.is_idle() && !t.paused && t.instructions@.len() > 0
            && t.rate_limit > 0 && !declares_writable(t.instructions@[0], address) ==> crank_result(
            t,
            clock,
            data,
            address,
        ) == ((Thread {
            exec_context: Some(ExecContext::fresh(clock.slot, TriggerContext::Immediate)),
            last_trigger_context: Some(TriggerContext::Immediate),
            ..t
        }), Ok::<CrankAction, CronosError>(CrankAction::Execute { index: 0 })),
{
}

/// Once the slot's rate limit is used up, a crank in the same slot is a
/// deferral, not an error, and changes nothing.
pub proof fn lemma_rate_limit_defers(t: Thread, clock: ClockData, data: Seq<u8>, address: Seq<u8>)
    requires
        t.wf(),
        !t.paused,
        t.exec_context matches Some(ec) && clock.slot <= ec.last_exec_at && ec.execs_since_slot
            >= t.rate_limit,
    ensures
        crank_result(t, clock, data, address) == (t, Ok::<CrankAction, CronosError>(
            CrankAction::Deferred,
        )),
{
    let ec = t.exec_context.unwrap();
    assert(rolled(ec, clock.slot) == ec);
    assert(Thread { exec_context: Some(ec), ..t } == t);
}

/// A failed instruction leaves the thread exactly as it was, so the next
/// crank that is not deferred asks for the same instruction again.
pub proof fn lemma_failed_exec_is_retried(
    t: Thread,
    policy: ReimbursementPolicy,
    clock: ClockData,
    data: Seq<u8>,
    address: Seq<u8>,
)
    requires
        t.wf(),
        t.exec_context matches Some(ec) && ec.execs_since_slot < t.rate_limit,
    ensures
        exec_result(t, false, policy) == (t, Err::<crate::engine::Payout, CronosError>(
            CronosError::InnerIxFailed,
        )),
        ({
            let ec = t.exec_context.unwrap();
            let ec2 = rolled(ec, clock.slot);
            !t.paused && ec2.execs_since_slot < t.rate_limit && !declares_writable(
                t.instructions@[ec.exec_index as int],
                address,
            ) ==> crank_result(t, clock, data, address).1 == Ok::<CrankAction, CronosError>(
                CrankAction::Execute { index: ec.exec_index },
            )
        }),
{
}

/// After the last instruction succeeds the thread is idle again, and the next
/// unpaused crank evaluates the trigger afresh: it does nothing when the
/// trigger is not due, and starts a new run when it is.
pub proof fn lemma_completion_rearms(
    t: Thread,
    policy: ReimbursementPolicy,
    clock: ClockData,
    data: Seq<u8>,
    address: Seq<u8>,
)
    requires
        t.wf(),
        t.exec_context matches Some(ec) && ec.exec_index + 1 == t.instructions@.len()
            && ec.execs_since_slot < t.rate_limit,
    ensures
        exec_result(t, true, policy).1 is Ok,
        exec_result(t, true, policy).0.exec_context is None,
        ({
            let t2 = exec_result(t, true, policy).0;
            !t2.paused && trigger_outcome(t2, clock.unix_timestamp, data) == Ok::<
                Option<TriggerContext>,
                CronosError,
            >(None) ==> crank_result(t2, clock, data, address) == (t2, Ok::<
                CrankAction,
                CronosError,
            >(CrankAction::Noop))
        }),
        ({
            let t2 = exec_result(t, true, policy).0;
            forall|ctx: TriggerContext|
                !t2.paused && trigger_outcome(t2, clock.unix_timestamp, data) == Ok::<
                    Option<TriggerContext>,
                    CronosError,
                >(Some(ctx)) && crank_result(t2, clock, data, address).1 is Ok
                    ==> #[trigger] crank_result(t2, clock, data, address).0.last_trigger_context
                    == Some(ctx)
        }),
{
}

/// A missed cron occurrence that a non-skippable trigger has not answered
/// yet starts a run for exactly that occurrence, the earliest one missed.
pub proof fn lemma_cron_catches_up_one_at_a_time(t: Thread, now: i64, data: Seq<u8>)
    requires
        t.trigger matches Trigger::Cron { schedule, skippable } && !skippable && schedule_ok(
            cron_form(schedule@),
        ),
    ensures
        ({
            let schedule = t.trigger->Cron_schedule;
            match next_occurrence(cron_form(schedule@), cron_reference(t)) {
                Some(n) => {
                    &&& n > cron_reference(t)
                    &&& n <= now ==> trigger_outcome(t, now, data) == Ok::<
                        Option<TriggerContext>,
                        CronosError,
                    >(Some(TriggerContext::Cron { started_at: n }))
                    &&& n > now ==> trigger_outcome(t, now, data) == Ok::<
                        Option<TriggerContext>,
                        CronosError,
                    >(None)
                },
                None => trigger_outcome(t, now, data) == Ok::<Option<TriggerContext>, CronosError>(
                    None,
                ),
            }
        }),
{
    lemma_next_occurrence_is_later(cron_form(t.trigger->Cron_schedule@), cron_reference(t));
}

/// The next occurrence is strictly later than its reference and matches the
/// expression; being a function of its arguments, it is the same on every call.
pub proof fn lemma_next_occurrence_is_later(expression: Seq<char>, after: i64)
    ensures
        next_occurrence(expression, after) matches Some(n) ==> n > after && cron_matches(
            expression,
            n,
        ),
{
    lemma_safe_reference_grows(expression, if after < -1 { -1i64 } else { after });
}

proof fn lemma_safe_reference_grows(expression: Seq<char>, a: i64)
    ensures
        crate::cron::safe_reference(expression, a) >= a,
    decreases crate::cron::MAX_CRON_TIMESTAMP - a,
{
    if !(a < -1 || a >= crate::cron::MAX_CRON_TIMESTAMP || crate::cron::search_safe(expression, a)
        || crate::cron::end_of_day(a) > i64::MAX) {
        lemma_safe_reference_grows(expression, crate::cron::end_of_day(a) as i64);
    }
}

/// Walking from occurrence `n` (not after `now`) ends at an occurrence not
/// after `now` whose next occurrence is later than `now`.
pub proof fn lemma_latest_occurrence_is_latest(expression: Seq<char>, n: i64, now: i64)
    requires
        n <= now,
    ensures
        n <= latest_occurrence(expression, n, now) <= now,
        match next_occurrence(expression, latest_occurrence(expression, n, now)) {
            Some(m) => now < m,
            None => true,
        },
    decreases now - n,
{
    lemma_next_occurrence_is_later(expression, n);
    match next_occurrence(expression, n) {
        Some(m) => if n < m && m <= now {
            lemma_latest_occurrence_is_latest(expression, m, now);
        },
        None => {},
    }
}

/// A skippable cron trigger that has missed occurrences starts one run, for
/// the latest occurrence not after `now`, skipping the others.
pub proof fn lemma_cron_skips_to_latest(t: Thread, now: i64, data: Seq<u8>)
    requires
        t.trigger matches Trigger::Cron { schedule, skippable } && skippable && schedule_ok(
            cron_form(schedule@),
        ),
        next_occurrence(cron_form(t.trigger->Cron_schedule@), cron_reference(t)) matches Some(n) && n <= now,
    ensures
        ({
            let schedule = t.trigger->Cron_schedule;
            let n = next_occurrence(cron_form(schedule@), cron_reference(t))->Some_0;
            let s = latest_occurrence(cron_form(schedule@), n, now);
            &&& trigger_outcome(t, now, data) == Ok::<Option<TriggerContext>, CronosError>(
                Some(TriggerContext::Cron { started_at: s }),
            )
            &&& cron_reference(t) < n <= s <= now
            &&& match next_occurrence(cron_form(schedule@), s) {
                Some(m) => now < m,
                None => true,
            }
        }),
{
    let schedule = t.trigger->Cron_schedule;
    let n = next_occurrence(cron_form(schedule@), cron_reference(t))->Some_0;
    lemma_next_occurrence_is_later(cron_form(schedule@), cron_reference(t));
    lemma_latest_occurrence_is_latest(cron_form(schedule@), n, now);
}

/// An account trigger fires exactly when the hash of the monitored bytes
/// differs from the one recorded at its last firing; so after a crank of an
/// idle, unpaused thread the trigger is not due on the same bytes.
pub proof fn lemma_account_fires_on_change(
    t: Thread,
    clock: ClockData,
    data: Seq<u8>,
    address: Seq<u8>,
    now: i64,
)
    requires
        t.wf(),
        t.trigger matches Trigger::Account { address: a, offset, size } && monitored(
            data,
            offset,
            size,
        ) is Some,
    ensures
        ({
            let h = data_hash(monitored(data, t.trigger->Account_offset, t.trigger->Account_size)->Some_0);
            &&& t.last_trigger_context == Some(TriggerContext::Account { data_hash: h })
                ==> trigger_outcome(t, now, data) == Ok::<Option<TriggerContext>, CronosError>(None)
            &&& t.last_trigger_context != Some(TriggerContext::Account { data_hash: h })
                ==> trigger_outcome(t, now, data) == Ok::<Option<TriggerContext>, CronosError>(
                Some(TriggerContext::Account { data_hash: h }),
            )
        }),
        t.is_idle() && !t.paused && crank_result(t, clock, data, address).1 is Ok
            ==> trigger_outcome(crank_result(t, clock, data, address).0, now, data) == Ok::<
            Option<TriggerContext>,
            CronosError,
        >(None),
        ({
            let h = data_hash(monitored(data, t.trigger->Account_offset, t.trigger->Account_size)->Some_0);
            t.is_idle() && !t.paused && t.last_trigger_context != Some(
                TriggerContext::Account { data_hash: h },
            ) && t.instructions@.len() > 0 && t.rate_limit > 0 && !declares_writable(
                t.instructions@[0],
                address,
            ) ==> crank_result(t, clock, data, address) == ((Thread {
                exec_context: Some(
                    ExecContext::fresh(clock.slot, TriggerContext::Account { data_hash: h }),
                ),
                last_trigger_context: Some(TriggerContext::Account { data_hash: h }),
                ..t
            }), Ok::<CrankAction, CronosError>(CrankAction::Execute { index: 0 }))
        }),
{
}

} // verus!
