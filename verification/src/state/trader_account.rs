//! TraderAccount — per-user state: collateral, PnL awaiting warmup, and
//! synthetic positions.

use vstd::prelude::*;

use crate::constants::MAX_POSITIONS;
use crate::state::bytes::Pubkey;

verus! {

/// Capacity of the PnL reserve buffer.
pub const MAX_RESERVE_ENTRIES: usize = 16;

/// One open synthetic position. `size_stored` is raw: the effective size
/// is `size_stored × A / 1.0` under the current global A.
#[derive(Copy, Clone, Debug)]
pub struct Position {
    pub market: Pubkey,
    /// Signed base-lot size when the position was last touched.
    pub size_stored: i64,
    /// Envelope-clamped entry mark price.
    pub entry_price: u64,
    /// Collateral locked when the position was opened; refunded on close.
    pub margin_locked: u64,
    /// Funding index (F) at entry, as little-endian `i128` bytes.
    pub entry_funding_index: [u8; 16],
    pub last_epoch_seen: u64,
}

/// A pending PnL entry, withdrawable once `current_slot >= mature_slot`.
#[derive(Copy, Clone, Debug, PartialEq, Eq, Structural)]
pub struct ReserveEntry {
    pub amount: u64,
    pub mature_slot: u64,
}

/// The all-zero reserve entry.
pub open spec fn empty_entry() -> ReserveEntry {
    ReserveEntry { amount: 0, mature_slot: 0 }
}

impl Default for ReserveEntry {
    fn default() -> (e: ReserveEntry)
        ensures
            e == empty_entry(),
    {
        ReserveEntry { amount: 0, mature_slot: 0 }
    }
}

/// A position as plain values.
pub struct PositionView {
    pub market: Seq<u8>,
    pub size_stored: i64,
    pub entry_price: u64,
    pub margin_locked: u64,
    pub entry_funding_index: Seq<u8>,
    pub last_epoch_seen: u64,
}

impl View for Position {
    type V = PositionView;

    open spec fn view(&self) -> PositionView {
        PositionView {
            market: self.market@,
            size_stored: self.size_stored,
            entry_price: self.entry_price,
            margin_locked: self.margin_locked,
            entry_funding_index: self.entry_funding_index@,
            last_epoch_seen: self.last_epoch_seen,
        }
    }
}

/// The all-zero position.
pub open spec fn empty_position_view() -> PositionView {
    PositionView {
        market: Seq::new(32, |_i: int| 0u8),
        size_stored: 0,
        entry_price: 0,
        margin_locked: 0,
        entry_funding_index: Seq::new(16, |_i: int| 0u8),
        last_epoch_seen: 0,
    }
}

/// Whether a position is the all-zero position.
pub open spec fn is_empty_position(p: Position) -> bool {
    p@ == empty_position_view()
}

impl Position {
    /// The all-zero position.
    pub fn empty() -> (p: Position)
        ensures
            is_empty_position(p),
    {
        let p = Position {
            market: [0u8; 32],
            size_stored: 0,
            entry_price: 0,
            margin_locked: 0,
            entry_funding_index: [0u8; 16],
            last_epoch_seen: 0,
        };
        assert(p.market@ =~= Seq::new(32, |_i: int| 0u8));
        assert(p.entry_funding_index@ =~= Seq::new(16, |_i: int| 0u8));
        p
    }
}

impl Default for Position {
    fn default() -> (p: Position)
        ensures
            is_empty_position(p),
    {
        Position::empty()
    }
}

/// Per-user account.
#[derive(Copy, Clone, Debug)]
pub struct TraderAccount {
    pub owner: Pubkey,
    /// Free collateral, not posted as margin.
    pub collateral: u64,
    /// Collateral reserved for resting orders on the book.
    pub locked_margin: u64,
    /// Matured PnL — withdrawable, subject to the haircut.
    pub pnl_matured: u64,
    /// Pending PnL entries awaiting warmup; the first `pnl_reserve_len` are live.
    pub pnl_reserve: [ReserveEntry; MAX_RESERVE_ENTRIES],
    pub pnl_reserve_len: u8,
    pub _pad0: [u8; 7],
    /// Open positions; the first `positions_len` are live.
    pub positions: [Position; MAX_POSITIONS],
    pub positions_len: u8,
    pub _pad1: [u8; 7],
    /// Global epoch when A/K/F/B were last applied to this account.
    pub last_index_epoch: u64,
    pub bump: u8,
    pub _pad2: [u8; 7],
}

/// A trader account as plain values.
pub struct TraderView {
    pub owner: Seq<u8>,
    pub collateral: u64,
    pub locked_margin: u64,
    pub pnl_matured: u64,
    pub pnl_reserve: Seq<ReserveEntry>,
    pub pnl_reserve_len: u8,
    pub pad0: Seq<u8>,
    pub positions: Seq<PositionView>,
    pub positions_len: u8,
    pub pad1: Seq<u8>,
    pub last_index_epoch: u64,
    pub bump: u8,
    pub pad2: Seq<u8>,
}

impl View for TraderAccount {
    type V = TraderView;

    open spec fn view(&self) -> TraderView {
        TraderView {
            owner: self.owner@,
            collateral: self.collateral,
            locked_margin: self.locked_margin,
            pnl_matured: self.pnl_matured,
            pnl_reserve: self.pnl_reserve@,
            pnl_reserve_len: self.pnl_reserve_len,
            pad0: self._pad0@,
            positions: self.positions@.map_values(|p: Position| p@),
            positions_len: self.positions_len,
            pad1: self._pad1@,
            last_index_epoch: self.last_index_epoch,
            bump: self.bump,
            pad2: self._pad2@,
        }
    }
}

/// Bookkeeping invariant of a trader account: the live prefixes fit in
/// their buffers.
pub open spec fn trader_wf(t: TraderAccount) -> bool {
    &&& t.pnl_reserve_len <= MAX_RESERVE_ENTRIES
    &&& t.positions_len <= MAX_POSITIONS
}

impl TraderAccount {
    /// A fresh account for `owner`: zero balances, no reserve entries, no
    /// positions.
    pub fn new(owner: Pubkey, bump: u8) -> (t: TraderAccount)
        ensures
            t.owner == owner,
            t.bump == bump,
            t.collateral == 0,
            t.locked_margin == 0,
            t.pnl_matured == 0,
            t.pnl_reserve_len == 0,
            t.positions_len == 0,
            t.last_index_epoch == 0,
            forall|i: int| 0 <= i < MAX_RESERVE_ENTRIES ==> #[trigger] t.pnl_reserve@[i] == empty_entry(),
            forall|i: int| 0 <= i < MAX_POSITIONS ==> is_empty_position(#[trigger] t.positions@[i]),
            trader_wf(t),
    {
        let e = ReserveEntry { amount: 0, mature_slot: 0 };
        let p = Position::empty();
        TraderAccount {
            owner,
            collateral: 0,
            locked_margin: 0,
            pnl_matured: 0,
            pnl_reserve: [e; MAX_RESERVE_ENTRIES],
            pnl_reserve_len: 0,
            _pad0: [0u8; 7],
            positions: [p; MAX_POSITIONS],
            positions_len: 0,
            _pad1: [0u8; 7],
            last_index_epoch: 0,
            bump,
            _pad2: [0u8; 7],
        }
    }
}

/// The all-zero account (what a freshly allocated account reads as): no
/// owner, nothing deposited, no PnL, no positions.
impl Default for TraderAccount {
    fn default() -> (t: TraderAccount)
        ensures
            t.owner@ == Seq::new(32, |_i: int| 0u8),
            t.bump == 0,
            t.collateral == 0,
            t.locked_margin == 0,
            t.pnl_matured == 0,
            t.pnl_reserve_len == 0,
            t.positions_len == 0,
            t.last_index_epoch == 0,
            forall|i: int| 0 <= i < MAX_RESERVE_ENTRIES ==> #[trigger] t.pnl_reserve@[i] == empty_entry(),
            forall|i: int| 0 <= i < MAX_POSITIONS ==> is_empty_position(#[trigger] t.positions@[i]),
            trader_wf(t),
    {
        let t = TraderAccount::new([0u8; 32], 0);
        assert(t.owner@ =~= Seq::new(32, |_i: int| 0u8));
        t
    }
}

} // verus!
