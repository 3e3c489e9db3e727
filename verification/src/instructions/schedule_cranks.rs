//! ScheduleCranks — rollup, admin, once: schedules the three recurring
//! cranks (funding, PnL maturation, recovery check) with the magic
//! program. Each task runs its instruction with the admin and the global
//! state as accounts.

use vstd::prelude::*;

use crate::error::{PerpRouterError, ProgramError};
use crate::instruction::{spec_tag, PerpRouterInstruction};
use crate::state::bytes::Pubkey;

use magicblock_magic_program_api::args::ScheduleTaskArgs;
use magicblock_magic_program_api::compat::{AccountMeta, Instruction};
use magicblock_magic_program_api::instruction::MagicBlockInstruction;

verus! {

/// Instruction parameters of ScheduleCranks; zero means "use the default".
#[derive(Copy, Clone, Debug, Default)]
pub struct ScheduleCranksParams {
    pub funding_ms: u64,
    pub mature_pnl_ms: u64,
    pub recovery_check_ms: u64,
    /// 0 → forever (`i64::MAX`).
    pub iterations: u64,
}

/// An account of a scheduled instruction.
#[derive(Copy, Clone, Debug)]
pub struct TaskAccount {
    pub key: Pubkey,
    pub is_signer: bool,
    pub is_writable: bool,
}

/// The instruction a scheduled task runs.
#[derive(Debug)]
pub struct TaskInstruction {
    pub program_id: Pubkey,
    pub accounts: Vec<TaskAccount>,
    pub data: Vec<u8>,
}

/// A recurring task for the magic program's `ScheduleTask`.
#[derive(Debug)]
pub struct ScheduledTask {
    pub task_id: i64,
    pub interval_ms: i64,
    pub iterations: i64,
    pub instruction: TaskInstruction,
}

/// An account as `(key, is_signer, is_writable)`.
pub open spec fn account_view(a: TaskAccount) -> (Seq<u8>, bool, bool) {
    (a.key@, a.is_signer, a.is_writable)
}

/// The bincode encoding of the magic program's `ScheduleTask` instruction
/// for one task that runs, every `interval_ms` for `iterations` times,
/// the instruction of `program_id` with `accounts` and `data`; `None` when
/// bincode reports an error.
pub uninterp spec fn schedule_task_encoding(
    task_id: i64,
    interval_ms: i64,
    iterations: i64,
    program_id: Seq<u8>,
    accounts: Seq<(Seq<u8>, bool, bool)>,
    data: Seq<u8>,
) -> Option<Seq<u8>>;

/// The encoding of `task` (see `schedule_task_encoding`).
pub open spec fn task_encoding(task: ScheduledTask) -> Option<Seq<u8>> {
    schedule_task_encoding(
        task.task_id,
        task.interval_ms,
        task.iterations,
        task.instruction.program_id@,
        task.instruction.accounts@.map_values(|a: TaskAccount| account_view(a)),
        task.instruction.data@,
    )
}

/// `bincode::serialize` of `MagicBlockInstruction::ScheduleTask` with the
/// task's fields, converted one for one; the bytes are named by
/// `schedule_task_encoding` (`None` when bincode reports an error).
#[verifier::external_body]
fn encode_schedule_task(task: &ScheduledTask) -> (r: Option<Vec<u8>>)
    ensures
        r matches Some(bytes) ==> schedule_task_encoding(task.task_id, task.interval_ms, task.iterations,
            task.instruction.program_id@, task.instruction.accounts@.map_values(|a: TaskAccount| account_view(a)),
            task.instruction.data@) == Some(bytes@),
        r is None ==> schedule_task_encoding(task.task_id, task.interval_ms, task.iterations,
            task.instruction.program_id@, task.instruction.accounts@.map_values(|a: TaskAccount| account_view(a)),
            task.instruction.data@) is None,
{
    let ix = &task.instruction;
    let accounts: Vec<AccountMeta> = ix.accounts.iter()
        .map(|a| AccountMeta { pubkey: a.key.into(), is_signer: a.is_signer, is_writable: a.is_writable })
        .collect();
    let cranked = Instruction { program_id: ix.program_id.into(), accounts, data: ix.data.clone() };
    let args = ScheduleTaskArgs {
        task_id: task.task_id, execution_interval_millis: task.interval_ms, iterations: task.iterations, instructions: vec![cranked],
    };
    bincode::serialize(&MagicBlockInstruction::ScheduleTask(args)).ok()
}

/// The accounts of a cranked instruction: the admin (signer, writable)
/// and the global state (writable).
pub open spec fn crank_accounts(admin: Pubkey, global_state: Pubkey) -> Seq<(Seq<u8>, bool, bool)> {
    seq![(admin@, true, true), (global_state@, false, true)]
}

/// The task that runs the one-byte instruction `tag` of `program_id` with
/// the accounts `[admin (signer, writable), global_state (writable)]`.
pub fn crank_task(
    task_id: i64,
    interval_ms: i64,
    iterations: i64,
    program_id: &Pubkey,
    admin: &Pubkey,
    global_state: &Pubkey,
    tag: u8,
) -> (t: ScheduledTask)
    ensures
        t.task_id == task_id,
        t.interval_ms == interval_ms,
        t.iterations == iterations,
        t.instruction.program_id == *program_id,
        t.instruction.accounts@.map_values(|a: TaskAccount| account_view(a)) == crank_accounts(*admin, *global_state),
        t.instruction.data@ == seq![tag],
        task_encoding(t) == schedule_task_encoding(task_id, interval_ms, iterations, program_id@,
            crank_accounts(*admin, *global_state), seq![tag]),
{
    let accounts = vec![
        TaskAccount { key: *admin, is_signer: true, is_writable: true },
        TaskAccount { key: *global_state, is_signer: false, is_writable: true },
    ];
    let t = ScheduledTask {
        task_id,
        interval_ms,
        iterations,
        instruction: TaskInstruction { program_id: *program_id, accounts, data: vec![tag] },
    };
    assert(t.instruction.accounts@.map_values(|a: TaskAccount| account_view(a)) =~= crank_accounts(*admin, *global_state));
    assert(t.instruction.data@ =~= seq![tag]);
    t
}

/// `value` as an `i64` interval, or `default` when `value` is zero (a
/// value above `i64::MAX` wraps, as a cast does).
pub open spec fn interval_or(value: u64, default: u64) -> i64 {
    (if value == 0 { default } else { value }) as i64
}

/// The iteration count: `i64::MAX` (forever) for zero, else the value
/// cast to `i64`.
pub open spec fn iterations_of(value: u64) -> i64 {
    if value == 0 { i64::MAX } else { value as i64 }
}

/// The three tasks: `(task id, interval in ms, instruction)` for funding
/// (every 1000 ms by default), PnL maturation (400 ms) and the recovery
/// check (5000 ms).
pub open spec fn spec_crank_tasks(p: ScheduleCranksParams) -> Seq<(i64, i64, PerpRouterInstruction)> {
    seq![
        (1i64, interval_or(p.funding_ms, 1000), PerpRouterInstruction::CrankFunding),
        (2i64, interval_or(p.mature_pnl_ms, 400), PerpRouterInstruction::MaturePnl),
        (3i64, interval_or(p.recovery_check_ms, 5000), PerpRouterInstruction::RecoveryCheck),
    ]
}

/// The instruction data of the three `ScheduleTask` calls, in order, or
/// `MathOverflow` when an encoding fails (the tasks before it are still
/// encoded, none after).
pub fn schedule_requests(p: &ScheduleCranksParams, program_id: &Pubkey, admin: &Pubkey, global_state: &Pubkey) -> (r: Result<Vec<Vec<u8>>, ProgramError>)
    ensures
        match r {
            Ok(reqs) => reqs.len() == 3 && forall|k: int| 0 <= k < 3 ==> {
                let task = #[trigger] spec_crank_tasks(*p)[k];
                schedule_task_encoding(task.0, task.1, iterations_of(p.iterations), program_id@, crank_accounts(*admin, *global_state), seq![spec_tag(task.2)])
                    == Some(reqs[k]@)
            },
            Err(e) => e == ProgramError::Custom(PerpRouterError::MathOverflow) && exists|k: int| 0 <= k < 3 && {
                let task = #[trigger] spec_crank_tasks(*p)[k];
                schedule_task_encoding(task.0, task.1, iterations_of(p.iterations), program_id@, crank_accounts(*admin, *global_state), seq![spec_tag(task.2)])
                    is None
            },
        },
{
    let funding_ms: i64 = (if p.funding_ms == 0 { 1000 } else { p.funding_ms }) as i64;
    let mature_ms: i64 = (if p.mature_pnl_ms == 0 { 400 } else { p.mature_pnl_ms }) as i64;
    let recovery_ms: i64 = (if p.recovery_check_ms == 0 { 5000 } else { p.recovery_check_ms }) as i64;
    let iters: i64 = if p.iterations == 0 { i64::MAX } else { p.iterations as i64 };
    let ghost tasks = spec_crank_tasks(*p);
    let mut reqs: Vec<Vec<u8>> = Vec::new();
    let funding = PerpRouterInstruction::CrankFunding.tag();
    let task = crank_task(1, funding_ms, iters, program_id, admin, global_state, funding);
    match encode_schedule_task(&task) {
        Some(b) => reqs.push(b),
        None => {
            assert(tasks[0].1 == funding_ms);
            return Err(ProgramError::Custom(PerpRouterError::MathOverflow));
        },
    }
    let mature = PerpRouterInstruction::MaturePnl.tag();
    let task = crank_task(2, mature_ms, iters, program_id, admin, global_state, mature);
    match encode_schedule_task(&task) {
        Some(b) => reqs.push(b),
        None => {
            assert(tasks[1].1 == mature_ms);
            return Err(ProgramError::Custom(PerpRouterError::MathOverflow));
        },
    }
    let recovery = PerpRouterInstruction::RecoveryCheck.tag();
    let task = crank_task(3, recovery_ms, iters, program_id, admin, global_state, recovery);
    match encode_schedule_task(&task) {
        Some(b) => reqs.push(b),
        None => {
            assert(tasks[2].1 == recovery_ms);
            return Err(ProgramError::Custom(PerpRouterError::MathOverflow));
        },
    }
    assert(tasks[0].1 == funding_ms && tasks[1].1 == mature_ms && tasks[2].1 == recovery_ms);
    Ok(reqs)
}

} // verus!
