//! PnL warmup — reserve → matured.
//!
//! Fresh PnL lands in the reserve with `mature_slot = current_slot +
//! WARMUP_SLOTS`; sweeping moves entries whose `mature_slot` has passed
//! out of the reserve and reports their total.

use vstd::prelude::*;

use crate::error::PerpRouterError;
use crate::state::trader_account::{empty_entry, ReserveEntry, MAX_RESERVE_ENTRIES};

verus! {

/// Whether an entry has matured at `current_slot`.
pub open spec fn is_matured(e: ReserveEntry, current_slot: u64) -> bool {
    current_slot >= e.mature_slot
}

/// Total amount of all entries.
pub open spec fn total_amount(s: Seq<ReserveEntry>) -> nat
    decreases s.len(),
{
    if s.len() == 0 {
        0
    } else {
        total_amount(s.drop_last()) + s.last().amount as nat
    }
}

/// Total amount of the entries matured at `current_slot`.
pub open spec fn matured_amount(s: Seq<ReserveEntry>, current_slot: u64) -> nat
    decreases s.len(),
{
    if s.len() == 0 {
        0
    } else {
        matured_amount(s.drop_last(), current_slot)
            + if is_matured(s.last(), current_slot) { s.last().amount as nat } else { 0 }
    }
}

/// The entries not yet matured at `current_slot`, in the order they had.
pub open spec fn survivors(s: Seq<ReserveEntry>, current_slot: u64) -> Seq<ReserveEntry>
    decreases s.len(),
{
    if s.len() == 0 {
        Seq::empty()
    } else if is_matured(s.last(), current_slot) {
        survivors(s.drop_last(), current_slot)
    } else {
        survivors(s.drop_last(), current_slot).push(s.last())
    }
}

/// The entry appended to the reserve.
pub open spec fn new_entry(amount: u64, mature_slot: u64) -> ReserveEntry {
    ReserveEntry { amount, mature_slot }
}

/// The reserve buffer and length after [`push_reserve`].
pub open spec fn spec_push_reserve(reserve: Seq<ReserveEntry>, len: u8, amount: u64, mature_slot: u64) -> (Seq<ReserveEntry>, u8) {
    if amount == 0 {
        (reserve, len)
    } else if len >= MAX_RESERVE_ENTRIES {
        (reserve.subrange(1, MAX_RESERVE_ENTRIES as int).push(new_entry(amount, mature_slot)), len)
    } else {
        (reserve.update(len as int, new_entry(amount, mature_slot)), (len + 1) as u8)
    }
}

/// Append a fresh PnL entry and return the new length. A zero amount
/// changes nothing. When the buffer is full the oldest entry is dropped
/// and the others shift down.
pub fn push_reserve(
    reserve: &mut [ReserveEntry; MAX_RESERVE_ENTRIES],
    len: &mut u8,
    amount: u64,
    mature_slot: u64,
) -> (r: Result<u8, PerpRouterError>)
    ensures
        r == Ok::<u8, PerpRouterError>(*final(len)),
        (final(reserve)@, *final(len)) == spec_push_reserve(old(reserve)@, *old(len), amount, mature_slot),
        amount == 0 ==> final(reserve)@ == old(reserve)@ && *final(len) == *old(len),
        amount != 0 && *old(len) >= MAX_RESERVE_ENTRIES ==> {
            &&& final(reserve)@ == old(reserve)@.subrange(1, MAX_RESERVE_ENTRIES as int).push(new_entry(amount, mature_slot))
            &&& *final(len) == *old(len)
        },
        amount != 0 && *old(len) < MAX_RESERVE_ENTRIES ==> {
            &&& final(reserve)@ == old(reserve)@.update(*old(len) as int, new_entry(amount, mature_slot))
            &&& *final(len) == *old(len) + 1
        },
        // The live entries gain the new one at the end, losing the oldest
        // when the buffer was full.
        amount != 0 && *old(len) <= MAX_RESERVE_ENTRIES ==>
            final(reserve)@.take(*final(len) as int) == (if *old(len) < MAX_RESERVE_ENTRIES {
                old(reserve)@.take(*old(len) as int).push(new_entry(amount, mature_slot))
            } else {
                old(reserve)@.take(*old(len) as int).drop_first().push(new_entry(amount, mature_slot))
            }),
{
    if amount == 0 {
        return Ok(*len);
    }
    let ghost old_reserve = reserve@;
    if (*len as usize) >= MAX_RESERVE_ENTRIES {
        let mut i: usize = 0;
        while i < MAX_RESERVE_ENTRIES - 1
            invariant
                0 <= i <= MAX_RESERVE_ENTRIES - 1,
                reserve@.len() == MAX_RESERVE_ENTRIES,
                old_reserve.len() == MAX_RESERVE_ENTRIES,
                forall|j: int| 0 <= j < i ==> reserve@[j] == old_reserve[j + 1],
                forall|j: int| i <= j < MAX_RESERVE_ENTRIES ==> reserve@[j] == old_reserve[j],
            decreases MAX_RESERVE_ENTRIES - 1 - i,
        {
            let next = reserve[i + 1];
            reserve[i] = next;
            i = i + 1;
        }
        reserve[MAX_RESERVE_ENTRIES - 1] = ReserveEntry { amount, mature_slot };
        assert(reserve@ =~= old_reserve.subrange(1, MAX_RESERVE_ENTRIES as int).push(new_entry(amount, mature_slot)));
        if *len as usize == MAX_RESERVE_ENTRIES {
            assert(reserve@.take(*len as int) =~= old_reserve.take(*len as int).drop_first().push(new_entry(amount, mature_slot)));
        }
    } else {
        reserve[*len as usize] = ReserveEntry { amount, mature_slot };
        *len = *len + 1;
        assert(reserve@.take(*len as int) =~= old_reserve.take(*len - 1).push(new_entry(amount, mature_slot)));
    }
    Ok(*len)
}

/// `min(x, u64::MAX)`.
pub open spec fn saturate_u64(x: nat) -> u64 {
    if x > u64::MAX { u64::MAX } else { x as u64 }
}

/// The reserve buffer, its length, and the matured total after
/// [`sweep_matured`].
pub open spec fn spec_sweep(reserve: Seq<ReserveEntry>, len: u8, current_slot: u64) -> (Seq<ReserveEntry>, u8, u64) {
    let live = reserve.take(len as int);
    let kept = survivors(live, current_slot);
    (
        kept + Seq::new((len - kept.len()) as nat, |_i: int| empty_entry())
            + reserve.subrange(len as int, MAX_RESERVE_ENTRIES as int),
        kept.len() as u8,
        saturate_u64(matured_amount(live, current_slot)),
    )
}

/// Sweep every live entry with `mature_slot <= current_slot` out of the
/// reserve and return their total (saturating at `u64::MAX`). Survivors
/// keep their order and move to the front; the freed tail is zeroed.
pub fn sweep_matured(
    reserve: &mut [ReserveEntry; MAX_RESERVE_ENTRIES],
    len: &mut u8,
    current_slot: u64,
) -> (matured: u64)
    requires
        *old(len) <= MAX_RESERVE_ENTRIES,
    ensures
        (final(reserve)@, *final(len), matured) == spec_sweep(old(reserve)@, *old(len), current_slot),
        ({
            let live = old(reserve)@.take(*old(len) as int);
            let kept = survivors(live, current_slot);
            &&& matured == (if matured_amount(live, current_slot) > u64::MAX {
                u64::MAX as int
            } else {
                matured_amount(live, current_slot) as int
            })
            &&& *final(len) == kept.len()
            &&& final(reserve)@ == kept
                + Seq::new((*old(len) - kept.len()) as nat, |_i: int| empty_entry())
                + old(reserve)@.subrange(*old(len) as int, MAX_RESERVE_ENTRIES as int)
        }),
{
    let ghost old_reserve = reserve@;
    let ghost live = old_reserve.take(*len as int);
    let mut matured: u64 = 0;
    let mut write: usize = 0;
    let read_end: usize = *len as usize;
    let mut read: usize = 0;
    while read < read_end
        invariant
            0 <= write <= read <= read_end <= MAX_RESERVE_ENTRIES,
            reserve@.len() == MAX_RESERVE_ENTRIES,
            old_reserve.len() == MAX_RESERVE_ENTRIES,
            live == old_reserve.take(read_end as int),
            reserve@.take(write as int) == survivors(live.take(read as int), current_slot),
            forall|j: int| read <= j < MAX_RESERVE_ENTRIES ==> reserve@[j] == old_reserve[j],
            matured == (if matured_amount(live.take(read as int), current_slot) > u64::MAX {
                u64::MAX as int
            } else {
                matured_amount(live.take(read as int), current_slot) as int
            }),
        decreases read_end - read,
    {
        let e = reserve[read];
        assert(live.take(read + 1).drop_last() =~= live.take(read as int));
        assert(live.take(read + 1).last() == e);
        if current_slot >= e.mature_slot {
            matured = matured.saturating_add(e.amount);
        } else {
            reserve[write] = e;
            write = write + 1;
        }
        assert(reserve@.take(write as int) =~= survivors(live.take(read + 1), current_slot));
        read = read + 1;
    }
    assert(live.take(read_end as int) =~= live);
    let ghost kept = reserve@.take(write as int);
    let mut i: usize = write;
    while i < read_end
        invariant
            write <= i <= read_end <= MAX_RESERVE_ENTRIES,
            reserve@.len() == MAX_RESERVE_ENTRIES,
            reserve@.take(write as int) == kept,
            forall|j: int| write <= j < i ==> reserve@[j] == empty_entry(),
            forall|j: int| read_end <= j < MAX_RESERVE_ENTRIES ==> reserve@[j] == old_reserve[j],
        decreases read_end - i,
    {
        reserve[i] = ReserveEntry { amount: 0, mature_slot: 0 };
        assert(reserve@.take(write as int) =~= kept);
        i = i + 1;
    }
    *len = write as u8;
    assert(reserve@ =~= kept
        + Seq::new((read_end - write) as nat, |_i: int| empty_entry())
        + old_reserve.subrange(read_end as int, MAX_RESERVE_ENTRIES as int));
    matured
}

/// Sweeping conserves value: the live total equals what matured plus what
/// is left in the reserve, and nothing left has matured.
pub proof fn lemma_sweep_conserves(s: Seq<ReserveEntry>, current_slot: u64)
    ensures
        total_amount(s) == matured_amount(s, current_slot) + total_amount(survivors(s, current_slot)),
        forall|i: int| 0 <= i < survivors(s, current_slot).len() ==>
            !is_matured(#[trigger] survivors(s, current_slot)[i], current_slot),
        matured_amount(survivors(s, current_slot), current_slot) == 0,
    decreases s.len(),
{
    if s.len() > 0 {
        lemma_sweep_conserves(s.drop_last(), current_slot);
        let rest = survivors(s.drop_last(), current_slot);
        if !is_matured(s.last(), current_slot) {
            assert(rest.push(s.last()).drop_last() =~= rest);
        }
    }
}

/// Survivors are at most as many as the entries they come from.
pub proof fn lemma_survivors_len(s: Seq<ReserveEntry>, current_slot: u64)
    ensures
        survivors(s, current_slot).len() <= s.len(),
    decreases s.len(),
{
    if s.len() > 0 {
        lemma_survivors_len(s.drop_last(), current_slot);
    }
}

} // verus!
