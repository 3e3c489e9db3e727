//! Phoenix `Swap` (take-only, immediate-or-cancel) instruction data.
//!
//! The router presents one identity to Phoenix, the `perp_authority` PDA,
//! and sends it swaps whose data is the `Swap` tag followed by the
//! `ImmediateOrCancel` variant of Phoenix's `OrderPacket`, encoded field by
//! field: one byte per tag and option flag, integers little-endian.

use vstd::prelude::*;

verus! {

/// Instruction tag of Phoenix `Swap`.
pub const PHOENIX_INSTRUCTION_SWAP: u8 = 0;

/// `OrderPacket` variant tag of `ImmediateOrCancel`.
pub const IMMEDIATE_OR_CANCEL_TAG: u8 = 1;

/// Direction of a take-only swap.
#[derive(Copy, Clone, Debug, PartialEq, Eq, Structural)]
pub enum Side {
    /// Buy base by spending quote.
    Bid,
    /// Sell base for quote.
    Ask,
}

/// Phoenix's byte for a side.
pub open spec fn spec_side_byte(s: Side) -> u8 {
    match s {
        Side::Bid => 0,
        Side::Ask => 1,
    }
}

/// Phoenix `Side` discriminant: `Bid = 0`, `Ask = 1`.
pub fn side_byte(s: Side) -> (b: u8)
    ensures
        b == spec_side_byte(s),
{
    match s {
        Side::Bid => 0,
        Side::Ask => 1,
    }
}

/// The `n` little-endian bytes of `x` (taken modulo `256^n`).
pub open spec fn le_bytes(x: nat, n: nat) -> Seq<u8>
    decreases n,
{
    if n == 0 {
        Seq::empty()
    } else {
        seq![(x % 256) as u8] + le_bytes(x / 256, (n - 1) as nat)
    }
}

/// Append the `n` little-endian bytes of `x` to `out`.
fn push_le(out: &mut Vec<u8>, x: u128, n: usize)
    requires
        n <= 16,
    ensures
        final(out)@ == old(out)@ + le_bytes(x as nat, n as nat),
{
    let mut rest: u128 = x;
    let mut i: usize = 0;
    while i < n
        invariant
            0 <= i <= n,
            out@ + le_bytes(rest as nat, (n - i) as nat) == old(out)@ + le_bytes(x as nat, n as nat),
        decreases n - i,
    {
        let ghost before = out@;
        out.push((rest % 256) as u8);
        assert(le_bytes(rest as nat, (n - i) as nat) == seq![(rest % 256) as u8] + le_bytes((rest / 256) as nat, (n - i - 1) as nat));
        assert(out@ + le_bytes((rest / 256) as nat, (n - i - 1) as nat) =~= before + le_bytes(rest as nat, (n - i) as nat));
        rest = rest / 256;
        i = i + 1;
    }
    assert(out@ =~= out@ + le_bytes(rest as nat, 0));
}

/// Data of a Phoenix `Swap` carrying an `ImmediateOrCancel` packet that
/// crosses the book (no limit price), with no self-trade behavior, match
/// limit, deposited-funds flag or expiry.
pub open spec fn spec_swap_instruction_data(
    side: Side,
    num_base_lots: u64,
    num_quote_lots: u64,
    min_base_lots_to_fill: u64,
    min_quote_lots_to_fill: u64,
    client_order_id: u128,
) -> Seq<u8> {
    seq![PHOENIX_INSTRUCTION_SWAP, IMMEDIATE_OR_CANCEL_TAG, spec_side_byte(side), 0u8]
        + le_bytes(num_base_lots as nat, 8)
        + le_bytes(num_quote_lots as nat, 8)
        + le_bytes(min_base_lots_to_fill as nat, 8)
        + le_bytes(min_quote_lots_to_fill as nat, 8)
        + seq![0u8, 0u8]
        + le_bytes(client_order_id as nat, 16)
        + seq![0u8, 0u8, 0u8]
}

/// Encode the data of a take-only Phoenix swap.
pub fn swap_instruction_data(
    side: Side,
    num_base_lots: u64,
    num_quote_lots: u64,
    min_base_lots_to_fill: u64,
    min_quote_lots_to_fill: u64,
    client_order_id: u128,
) -> (data: Vec<u8>)
    ensures
        data@ == spec_swap_instruction_data(side, num_base_lots, num_quote_lots,
            min_base_lots_to_fill, min_quote_lots_to_fill, client_order_id),
        data@.len() == 57,
{
    let mut data: Vec<u8> = Vec::new();
    data.push(PHOENIX_INSTRUCTION_SWAP);
    data.push(IMMEDIATE_OR_CANCEL_TAG);
    data.push(side_byte(side));
    // price_in_ticks: None — cross the book.
    data.push(0);
    push_le(&mut data, num_base_lots as u128, 8);
    push_le(&mut data, num_quote_lots as u128, 8);
    push_le(&mut data, min_base_lots_to_fill as u128, 8);
    push_le(&mut data, min_quote_lots_to_fill as u128, 8);
    // self_trade_behavior: None; match_limit: None.
    data.push(0);
    data.push(0);
    push_le(&mut data, client_order_id, 16);
    // use_only_deposited_funds, last_valid_slot, last_valid_unix_timestamp: None.
    data.push(0);
    data.push(0);
    data.push(0);
    proof {
        lemma_le_bytes_len(num_base_lots as nat, 8);
        lemma_le_bytes_len(client_order_id as nat, 16);
        lemma_le_bytes_len(num_quote_lots as nat, 8);
        lemma_le_bytes_len(min_base_lots_to_fill as nat, 8);
        lemma_le_bytes_len(min_quote_lots_to_fill as nat, 8);
    }
    assert(data@ =~= spec_swap_instruction_data(side, num_base_lots, num_quote_lots,
        min_base_lots_to_fill, min_quote_lots_to_fill, client_order_id));
    data
}

/// `le_bytes(x, n)` has `n` bytes.
pub proof fn lemma_le_bytes_len(x: nat, n: nat)
    ensures
        le_bytes(x, n).len() == n,
    decreases n,
{
    if n > 0 {
        lemma_le_bytes_len(x / 256, (n - 1) as nat);
    }
}

} // verus!
