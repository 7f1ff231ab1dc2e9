use cronos_thread::cron::{matches_schedule, with_seconds, civil_date_of, latest_at_or_before, next_after, validate_schedule, zero_led_step, CronError};
use cronos_thread::engine::{keep_cranking, CrankAction, Payout, ReimbursementPolicy};
use cronos_thread::errors::CronosError;
use cronos_thread::sizing::{thread_size, StoredThread};
use cronos_thread::state::{
    AccountMetaData, ClockData, InstructionData, Pubkey, Thread, ThreadSettings, Trigger,
    TriggerContext,
};
use cronos_thread::trigger::{account_decision, cron_due, evaluate_trigger, same_key};

/// An hour boundary (2023-11-14 22:00:00 UTC).
const H: i64 = 1_699_999_200;
const HOURLY: &str = "0 0 * * * *";
/// The same schedule in five-field form (minute first).
const HOURLY_FIVE: &str = "0 * * * *";

const AUTHORITY: Pubkey = [7u8; 32];
const THREAD_ADDRESS: Pubkey = [9u8; 32];
const WATCHED: Pubkey = [3u8; 32];

fn clock(slot: u64, unix_timestamp: i64) -> ClockData {
    ClockData { slot, epoch: 0, unix_timestamp }
}

fn ix(tag: u8) -> InstructionData {
    InstructionData {
        program_id: [tag; 32],
        accounts: vec![AccountMetaData { pubkey: [tag; 32], is_signer: false, is_writable: true }],
        data: vec![tag],
    }
}

fn thread(trigger: Trigger, n: usize, rate_limit: u64, created_at: i64) -> Thread {
    let instructions = (0..n).map(|i| ix(i as u8 + 100)).collect();
    Thread::new(
        AUTHORITY,
        255,
        b"job".to_vec(),
        "job".to_string(),
        instructions,
        trigger,
        5,
        rate_limit,
        clock(1, created_at),
    )
    .unwrap()
}

fn policy() -> ReimbursementPolicy {
    ReimbursementPolicy { reimburse_every_exec: false, threshold: 1000 }
}

fn hourly(skippable: bool) -> Trigger {
    Trigger::Cron { schedule: HOURLY_FIVE.to_string(), skippable }
}

/// Runs the whole pipeline of a thread that has fired, one instruction per slot.
fn run_to_end(t: &mut Thread, mut slot: u64, now: i64) {
    while t.exec_context.is_some() {
        let action = t.crank(&clock(slot, now), &[], &THREAD_ADDRESS).unwrap();
        if let CrankAction::Execute { .. } = action {
            t.record_exec(true, policy()).unwrap();
        }
        slot += 1;
    }
}

fn started_at(t: &Thread) -> i64 {
    match t.last_trigger_context {
        Some(TriggerContext::Cron { started_at }) => started_at,
        other => panic!("not a cron context: {:?}", other),
    }
}

#[test]
fn next_after_is_strictly_later_and_repeatable() {
    assert_eq!(next_after(HOURLY, H + 30), Ok(Some(H + 3600)));
    assert_eq!(next_after(HOURLY, H), Ok(Some(H + 3600)));
    assert_eq!(next_after(HOURLY, H), next_after(HOURLY, H));
    assert_eq!(next_after("*/15 * * * * *", H), Ok(Some(H + 15)));
}

#[test]
fn next_after_rejects_bad_expressions() {
    assert_eq!(next_after("not a schedule", H), Err(CronError::InvalidSchedule));
    assert_eq!(validate_schedule("not a schedule"), Err(CronError::InvalidSchedule));
    assert_eq!(validate_schedule(HOURLY), Ok(()));
}

#[test]
fn latest_occurrence_walks_to_the_last_boundary() {
    assert_eq!(latest_at_or_before(HOURLY, H + 3600, H + 3 * 3600 + 1800), Ok(H + 3 * 3600));
    assert_eq!(latest_at_or_before(HOURLY, H + 3600, H + 3600 + 10), Ok(H + 3600));
    assert_eq!(latest_at_or_before("*/0 * * * * *", H, H), Err(CronError::InvalidSchedule));
}

#[test]
fn immediate_fires_exactly_once() {
    let mut t = thread(Trigger::Immediate, 1, 10, H);
    assert_eq!(t.crank(&clock(2, H), &[], &THREAD_ADDRESS), Ok(CrankAction::Execute { index: 0 }));
    assert!(t.record_exec(true, policy()).is_ok());
    assert!(t.exec_context.is_none());
    for slot in 3..10 {
        assert_eq!(t.crank(&clock(slot, H + slot as i64), &[], &THREAD_ADDRESS), Ok(CrankAction::Noop));
    }
    assert_eq!(t.last_trigger_context, Some(TriggerContext::Immediate));
}

#[test]
fn immediate_rearmed_by_new_trigger() {
    let mut t = thread(Trigger::Immediate, 1, 10, H);
    t.crank(&clock(2, H), &[], &THREAD_ADDRESS).unwrap();
    t.record_exec(true, policy()).unwrap();
    let settings = ThreadSettings { fee: None, instructions: None, name: None, rate_limit: None, trigger: Some(Trigger::Immediate) };
    assert_eq!(t.update(&AUTHORITY, settings), Ok(()));
    assert_eq!(t.crank(&clock(3, H), &[], &THREAD_ADDRESS), Ok(CrankAction::Execute { index: 0 }));
}

#[test]
fn cron_without_skipping_fires_once_per_missed_boundary() {
    let mut t = thread(hourly(false), 1, 10, H + 30);
    let now = H + 5400;
    assert_eq!(t.crank(&clock(2, now), &[], &THREAD_ADDRESS), Ok(CrankAction::Execute { index: 0 }));
    assert_eq!(started_at(&t), H + 3600);
    t.record_exec(true, policy()).unwrap();
    assert_eq!(t.crank(&clock(3, now), &[], &THREAD_ADDRESS), Ok(CrankAction::Noop));

    let later = H + 3 * 3600 + 1800;
    let mut fired = Vec::new();
    let mut slot = 4;
    loop {
        match t.crank(&clock(slot, later), &[], &THREAD_ADDRESS).unwrap() {
            CrankAction::Execute { .. } => {
                fired.push(started_at(&t));
                t.record_exec(true, policy()).unwrap();
            }
            CrankAction::Noop => break,
            CrankAction::Deferred => {}
        }
        slot += 1;
    }
    assert_eq!(fired, vec![H + 2 * 3600, H + 3 * 3600]);
}

#[test]
fn cron_with_skipping_fires_once_for_the_latest_boundary() {
    let mut t = thread(hourly(true), 1, 10, H + 30);
    assert_eq!(t.crank(&clock(2, H + 5400), &[], &THREAD_ADDRESS), Ok(CrankAction::Execute { index: 0 }));
    assert_eq!(started_at(&t), H + 3600);

    let mut t = thread(hourly(true), 1, 10, H + 30);
    let later = H + 3 * 3600 + 1800;
    assert_eq!(t.crank(&clock(2, later), &[], &THREAD_ADDRESS), Ok(CrankAction::Execute { index: 0 }));
    assert_eq!(started_at(&t), H + 3 * 3600);
    t.record_exec(true, policy()).unwrap();
    assert_eq!(t.crank(&clock(3, later), &[], &THREAD_ADDRESS), Ok(CrankAction::Noop));
}

#[test]
fn cron_not_due_before_first_boundary() {
    let mut t = thread(hourly(false), 1, 10, H + 30);
    assert_eq!(t.crank(&clock(2, H + 3599), &[], &THREAD_ADDRESS), Ok(CrankAction::Noop));
    assert!(t.exec_context.is_none());
    assert_eq!(t.last_trigger_context, None);
}

#[test]
fn rate_limit_defers_within_a_slot() {
    let mut t = thread(Trigger::Immediate, 3, 1, H);
    assert_eq!(t.crank(&clock(5, H), &[], &THREAD_ADDRESS), Ok(CrankAction::Execute { index: 0 }));
    t.record_exec(true, policy()).unwrap();
    for _ in 0..3 {
        assert_eq!(t.crank(&clock(5, H), &[], &THREAD_ADDRESS), Ok(CrankAction::Deferred));
        let ec = t.exec_context.unwrap();
        assert!(ec.execs_since_slot <= t.rate_limit);
        assert_eq!(ec.exec_index, 1);
    }
    assert_eq!(t.record_exec(true, policy()), Err(CronosError::QueueNotDue));
    assert_eq!(t.crank(&clock(6, H), &[], &THREAD_ADDRESS), Ok(CrankAction::Execute { index: 1 }));
    assert_eq!(t.exec_context.unwrap().execs_since_slot, 0);
}

#[test]
fn failed_instruction_is_retried() {
    let mut t = thread(Trigger::Immediate, 3, 10, H);
    t.crank(&clock(2, H), &[], &THREAD_ADDRESS).unwrap();
    t.record_exec(true, policy()).unwrap();
    assert_eq!(t.crank(&clock(3, H), &[], &THREAD_ADDRESS), Ok(CrankAction::Execute { index: 1 }));
    let before = t.exec_context;
    assert_eq!(t.record_exec(false, policy()), Err(CronosError::InnerIxFailed));
    assert_eq!(t.exec_context, before);
    assert_eq!(t.crank(&clock(4, H), &[], &THREAD_ADDRESS), Ok(CrankAction::Execute { index: 1 }));
}

#[test]
fn completion_clears_context_and_reevaluates() {
    let mut t = thread(Trigger::Immediate, 2, 10, H);
    assert_eq!(t.crank(&clock(1, H), &[], &THREAD_ADDRESS), Ok(CrankAction::Execute { index: 0 }));
    run_to_end(&mut t, 2, H);
    assert!(t.exec_context.is_none());
    assert_eq!(t.crank(&clock(20, H), &[], &THREAD_ADDRESS), Ok(CrankAction::Noop));
    assert_eq!(t.record_exec(true, policy()), Err(CronosError::InvalidQueueStatus));
}

#[test]
fn account_trigger_fires_on_change_only() {
    let trigger = Trigger::Account { address: WATCHED, offset: 2, size: 3 };
    let mut t = thread(trigger, 1, 10, H);
    let mut data = vec![0u8, 1, 2, 3, 4, 5, 6];
    assert_eq!(t.crank(&clock(2, H), &data, &THREAD_ADDRESS), Ok(CrankAction::Execute { index: 0 }));
    t.record_exec(true, policy()).unwrap();
    assert_eq!(t.crank(&clock(3, H), &data, &THREAD_ADDRESS), Ok(CrankAction::Noop));
    data[0] = 42;
    assert_eq!(t.crank(&clock(4, H), &data, &THREAD_ADDRESS), Ok(CrankAction::Noop));
    data[3] = 42;
    assert_eq!(t.crank(&clock(5, H), &data, &THREAD_ADDRESS), Ok(CrankAction::Execute { index: 0 }));
    t.record_exec(true, policy()).unwrap();
    assert_eq!(t.crank(&clock(6, H), &data, &THREAD_ADDRESS), Ok(CrankAction::Noop));
}

#[test]
fn account_hash_depends_on_bytes() {
    let trigger = Trigger::Account { address: WATCHED, offset: 0, size: 2 };
    let t = thread(trigger, 1, 10, H);
    let a = evaluate_trigger(&t, H, &[1, 2]).unwrap().unwrap();
    let b = evaluate_trigger(&t, H, &[1, 3]).unwrap().unwrap();
    let c = evaluate_trigger(&t, H, &[1, 2, 9]).unwrap().unwrap();
    assert_ne!(a, b);
    assert_eq!(a, c);
}

#[test]
fn account_range_outside_data_is_rejected() {
    let trigger = Trigger::Account { address: WATCHED, offset: 5, size: 3 };
    let mut t = thread(trigger, 1, 10, H);
    let data = vec![0u8; 7];
    assert_eq!(t.crank(&clock(2, H), &data, &THREAD_ADDRESS), Err(CronosError::InvalidDynamicAccounts));
    assert!(t.exec_context.is_none());
    let trigger = Trigger::Account { address: WATCHED, offset: usize::MAX, size: 2 };
    let t = thread(trigger, 1, 10, H);
    assert_eq!(evaluate_trigger(&t, H, &data), Err(CronosError::InvalidDynamicAccounts));
}

#[test]
fn invalid_schedule_is_rejected_at_creation_and_update() {
    let bad = Trigger::Cron { schedule: "every hour".to_string(), skippable: false };
    let r = Thread::new(AUTHORITY, 1, vec![], String::new(), vec![], bad, 0, 1, clock(0, H));
    assert_eq!(r.err(), Some(CronosError::InvalidSchedule));
    let mut t = thread(Trigger::Immediate, 1, 10, H);
    let bad = Trigger::Cron { schedule: "every hour".to_string(), skippable: false };
    let settings = ThreadSettings { fee: Some(1), instructions: None, name: None, rate_limit: None, trigger: Some(bad) };
    assert_eq!(t.update(&AUTHORITY, settings), Err(CronosError::InvalidSchedule));
    assert_eq!(t.fee, 5);
}

#[test]
fn update_requires_authority_and_idle() {
    let mut t = thread(Trigger::Immediate, 2, 10, H);
    let settings = || ThreadSettings { fee: Some(9), instructions: None, name: Some("x".to_string()), rate_limit: Some(3), trigger: None };
    assert_eq!(t.update(&[1u8; 32], settings()), Err(CronosError::NotAdmin));
    t.crank(&clock(2, H), &[], &THREAD_ADDRESS).unwrap();
    assert_eq!(t.update(&AUTHORITY, settings()), Err(CronosError::InvalidQueueStatus));
    assert_eq!(t.check_delete(&AUTHORITY), Err(CronosError::InvalidQueueStatus));
    run_to_end(&mut t, 3, H);
    assert_eq!(t.update(&AUTHORITY, settings()), Ok(()));
    assert_eq!((t.fee, t.rate_limit, t.name.as_str()), (9, 3, "x"));
    assert_eq!(t.check_delete(&[1u8; 32]), Err(CronosError::NotAdmin));
    assert_eq!(t.check_delete(&AUTHORITY), Ok(()));
}

#[test]
fn paused_thread_does_nothing() {
    let mut t = thread(Trigger::Immediate, 1, 10, H);
    assert_eq!(t.pause(&[1u8; 32]), Err(CronosError::NotAdmin));
    assert_eq!(t.pause(&AUTHORITY), Ok(()));
    assert_eq!(t.crank(&clock(2, H), &[], &THREAD_ADDRESS), Ok(CrankAction::Noop));
    assert!(t.exec_context.is_none());
    assert_eq!(t.last_trigger_context, None);
    assert_eq!(t.resume(&AUTHORITY), Ok(()));
    assert_eq!(t.crank(&clock(3, H), &[], &THREAD_ADDRESS), Ok(CrankAction::Execute { index: 0 }));
}

#[test]
fn reentrant_instruction_is_rejected() {
    let mut t = thread(Trigger::Immediate, 1, 10, H);
    t.instructions[0].accounts.push(AccountMetaData { pubkey: THREAD_ADDRESS, is_signer: false, is_writable: true });
    assert_eq!(t.crank(&clock(2, H), &[], &THREAD_ADDRESS), Err(CronosError::InnerIxReentrancy));
    assert!(t.exec_context.is_none());
    assert_eq!(t.last_trigger_context, None);
    t.instructions[0].accounts[1].is_writable = false;
    assert_eq!(t.crank(&clock(3, H), &[], &THREAD_ADDRESS), Ok(CrankAction::Execute { index: 0 }));
}

#[test]
fn fees_and_reimbursement_are_separate() {
    let mut t = thread(Trigger::Immediate, 3, 10, H);
    let every2 = ReimbursementPolicy { reimburse_every_exec: false, threshold: 2 };
    let mut payouts = Vec::new();
    for slot in 2..5 {
        t.crank(&clock(slot, H), &[], &THREAD_ADDRESS).unwrap();
        payouts.push(t.record_exec(true, every2).unwrap());
    }
    assert_eq!(
        payouts,
        vec![
            Payout { worker_fee: 5, reimbursed_execs: 0 },
            Payout { worker_fee: 5, reimbursed_execs: 2 },
            Payout { worker_fee: 5, reimbursed_execs: 1 },
        ]
    );
    let mut t = thread(Trigger::Immediate, 2, 10, H);
    let each = ReimbursementPolicy { reimburse_every_exec: true, threshold: 100 };
    t.crank(&clock(2, H), &[], &THREAD_ADDRESS).unwrap();
    assert_eq!(t.record_exec(true, each), Ok(Payout { worker_fee: 5, reimbursed_execs: 1 }));
    assert_eq!(t.exec_context.unwrap().execs_since_reimbursement, 0);
}

#[test]
fn empty_pipeline_records_firing_without_running() {
    let mut t = thread(Trigger::Immediate, 0, 10, H);
    assert_eq!(t.crank(&clock(2, H), &[], &THREAD_ADDRESS), Ok(CrankAction::Noop));
    assert_eq!(t.last_trigger_context, Some(TriggerContext::Immediate));
    assert!(t.exec_context.is_none());
}

#[test]
fn thread_size_is_exact() {
    let mut t = Thread::new(AUTHORITY, 1, b"abc".to_vec(), "ab".to_string(), vec![], Trigger::Immediate, 0, 1, clock(0, H)).unwrap();
    assert_eq!(thread_size(&t), Some(103));
    t.instructions.push(InstructionData {
        program_id: [0; 32],
        accounts: vec![AccountMetaData { pubkey: [0; 32], is_signer: true, is_writable: false }; 2],
        data: vec![1, 2, 3, 4, 5],
    });
    assert_eq!(thread_size(&t), Some(216));
    t.name = "é".to_string();
    assert_eq!(thread_size(&t), Some(216));
    t.trigger = hourly(false);
    assert_eq!(thread_size(&t), Some(216 - 1 + 2 + 4 + 9));
    let mut stored = StoredThread { thread: t, capacity: 0 };
    assert!(stored.realloc());
    assert_eq!(stored.capacity, 230);
}

#[test]
fn keys_compare_bytewise() {
    assert!(same_key(&AUTHORITY, &[7u8; 32]));
    let mut other = AUTHORITY;
    other[31] = 0;
    assert!(!same_key(&AUTHORITY, &other));
}

#[test]
fn account_decision_compares_with_last_hash() {
    let seen = Some(TriggerContext::Account { data_hash: 17 });
    assert_eq!(account_decision(seen, 17), None);
    assert_eq!(account_decision(seen, 18), Some(TriggerContext::Account { data_hash: 18 }));
    assert_eq!(account_decision(None, 17), Some(TriggerContext::Account { data_hash: 17 }));
    let cron = Some(TriggerContext::Cron { started_at: 17 });
    assert_eq!(account_decision(cron, 17), Some(TriggerContext::Account { data_hash: 17 }));
}

#[test]
fn cron_due_at_or_after_next_occurrence() {
    assert!(cron_due(Some(H), H));
    assert!(cron_due(Some(H), H + 1));
    assert!(!cron_due(Some(H), H - 1));
    assert!(!cron_due(None, H));
}

#[test]
fn zero_step_is_refused_without_panicking() {
    assert_eq!(validate_schedule("*/0 * * * * *"), Err(CronError::InvalidSchedule));
    assert_eq!(next_after("0 */ 00 * * * *", H), Err(CronError::InvalidSchedule));
    assert!(zero_led_step(b"*/0"));
    assert!(zero_led_step(b"*/ 0"));
    assert!(!zero_led_step(b"*/10 0 * * * *"));
    assert!(!zero_led_step(b"0 0 * * * *"));
    let bad = Trigger::Cron { schedule: "*/0 * * * * *".to_string(), skippable: true };
    let r = Thread::new(AUTHORITY, 1, vec![], String::new(), vec![], bad, 0, 1, clock(0, H));
    assert_eq!(r.err(), Some(CronosError::InvalidSchedule));
}

#[test]
fn leap_day_search_starts_do_not_panic() {
    // 1968-02-28T23:59:59Z: before 1970 the search starts at the epoch.
    assert_eq!(next_after("* * * * * *", -58060801), Ok(Some(0)));
    // 2024-02-28T23:59:59Z with only 2025 allowed.
    let r = next_after("0 0 0 * * * 2025", 1709164799).unwrap().unwrap();
    assert!(r > 1709164799);
    assert!(r >= 1735689600);
    // A leap day in an allowed year is searched as it is.
    assert_eq!(next_after("* * * * * *", 1709164799), Ok(Some(1709164800)));
}

#[test]
fn civil_dates() {
    assert_eq!(civil_date_of(0), (1970, 1, 1));
    assert_eq!(civil_date_of(1709164800), (2024, 2, 29));
    assert_eq!(civil_date_of(1709251199), (2024, 2, 29));
    assert_eq!(civil_date_of(1709251200), (2024, 3, 1));
    assert_eq!(civil_date_of(951782400), (2000, 2, 29));
    assert_eq!(civil_date_of(H), (2023, 11, 14));
}

#[test]
fn same_thread_compares_authority_and_id() {
    let a = thread(Trigger::Immediate, 1, 10, H);
    let mut b = thread(Trigger::Immediate, 2, 3, H + 1);
    assert!(a.same_thread(&b));
    b.id.push(1);
    assert!(!a.same_thread(&b));
    let mut c = a.clone();
    c.authority[0] = 0;
    assert!(!a.same_thread(&c));
}

#[test]
fn keep_cranking_until_done_or_out_of_budget() {
    let mut t = thread(Trigger::Immediate, 2, 10, H);
    assert!(!keep_cranking(&t, true));
    t.crank(&clock(2, H), &[], &THREAD_ADDRESS).unwrap();
    assert!(keep_cranking(&t, true));
    assert!(!keep_cranking(&t, false));
}

#[test]
fn stored_thread_resizes_after_each_change() {
    let t = Thread::new(AUTHORITY, 1, b"abc".to_vec(), "ab".to_string(), vec![ix(1)], Trigger::Immediate, 0, 10, clock(0, H)).unwrap();
    let mut stored = StoredThread { thread: t, capacity: 0 };
    assert_eq!(stored.crank(&clock(1, H), &[], &THREAD_ADDRESS), Ok(CrankAction::Execute { index: 0 }));
    assert_eq!(Some(stored.capacity), thread_size(&stored.thread));
    stored.record_exec(true, policy()).unwrap();
    assert_eq!(Some(stored.capacity), thread_size(&stored.thread));
    let settings = ThreadSettings { fee: None, instructions: Some(vec![ix(1), ix(2)]), name: None, rate_limit: None, trigger: None };
    let before = stored.capacity;
    assert_eq!(stored.update(&AUTHORITY, settings), Ok(()));
    assert_eq!(stored.capacity, before + 75);
}

#[test]
fn five_field_expressions_get_a_seconds_field() {
    assert_eq!(with_seconds(HOURLY_FIVE), "0 0 * * * *");
    assert_eq!(with_seconds(HOURLY), HOURLY);
    assert_eq!(with_seconds("  0  *\t* * *  "), "0   0  *\t* * *  ");
    assert_eq!(with_seconds("0 0 0 * * * 2025"), "0 0 0 * * * 2025");
    assert_eq!(next_after(HOURLY_FIVE, H + 30), Ok(Some(H + 3600)));
    assert_eq!(validate_schedule(HOURLY_FIVE), Ok(()));
    assert_eq!(validate_schedule("* * *"), Err(CronError::InvalidSchedule));
}

#[test]
fn matching_timestamps() {
    assert_eq!(matches_schedule(HOURLY_FIVE, H + 3600), Ok(true));
    assert_eq!(matches_schedule(HOURLY_FIVE, H + 3601), Ok(false));
    assert_eq!(matches_schedule(HOURLY, H), Ok(true));
    assert_eq!(matches_schedule(HOURLY, -3600), Ok(false));
    assert_eq!(matches_schedule("*/0 * * * * *", H), Err(CronError::InvalidSchedule));
    let next = next_after("0 30 9 * * Mon", H).unwrap().unwrap();
    assert!(next > H);
    assert_eq!(matches_schedule("0 30 9 * * Mon", next), Ok(true));
}
