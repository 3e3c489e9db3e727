//! GlobalState — singleton holding the Percolator side indices, the
//! recovery state and the balance-sheet totals.

use vstd::prelude::*;

use crate::state::bytes::{i128_from_le_bytes, i128_to_le_bytes, le_i128, Pubkey};

verus! {

/// Recovery state: trading as usual.
pub const RECOVERY_NORMAL: u8 = 0;
/// Recovery state: only closes allowed until open interest drains.
pub const RECOVERY_DRAIN_ONLY: u8 = 1;
/// Recovery state: indices are reset on the next check.
pub const RECOVERY_RESET_PENDING: u8 = 2;

/// The singleton global account. The side indices A, K, F, B are
/// fixed-point `i128` values stored as little-endian bytes.
#[derive(Copy, Clone, Debug)]
pub struct GlobalState {
    pub a: [u8; 16],
    pub k: [u8; 16],
    pub f: [u8; 16],
    pub b: [u8; 16],
    pub epoch: u64,
    pub recovery_state: u8,
    pub _pad0: [u8; 7],
    pub v_total_pool_value: u64,
    pub c_total_collateral: u64,
    pub i_insurance_reserve: u64,
    pub total_matured_pnl: u64,
    pub admin: Pubkey,
    pub bump: u8,
    pub _pad1: [u8; 7],
}

impl GlobalState {
    /// Value of the A index.
    pub open spec fn spec_a(&self) -> int { le_i128(self.a@) }
    /// Value of the K index.
    pub open spec fn spec_k(&self) -> int { le_i128(self.k@) }
    /// Value of the F index.
    pub open spec fn spec_f(&self) -> int { le_i128(self.f@) }
    /// Value of the B index.
    pub open spec fn spec_b(&self) -> int { le_i128(self.b@) }

    /// Every field is zero.
    pub open spec fn is_zeroed(&self) -> bool {
        &&& self.a@ == Seq::new(16, |_i: int| 0u8)
        &&& self.k@ == Seq::new(16, |_i: int| 0u8)
        &&& self.f@ == Seq::new(16, |_i: int| 0u8)
        &&& self.b@ == Seq::new(16, |_i: int| 0u8)
        &&& self.epoch == 0
        &&& self.recovery_state == 0
        &&& self._pad0@ == Seq::new(7, |_i: int| 0u8)
        &&& self.v_total_pool_value == 0
        &&& self.c_total_collateral == 0
        &&& self.i_insurance_reserve == 0
        &&& self.total_matured_pnl == 0
        &&& self.admin@ == Seq::new(32, |_i: int| 0u8)
        &&& self.bump == 0
        &&& self._pad1@ == Seq::new(7, |_i: int| 0u8)
    }

    /// The all-zero state.
    pub fn zeroed() -> (g: GlobalState)
        ensures
            g.is_zeroed(),
    {
        let g = GlobalState {
            a: [0u8; 16],
            k: [0u8; 16],
            f: [0u8; 16],
            b: [0u8; 16],
            epoch: 0,
            recovery_state: 0,
            _pad0: [0u8; 7],
            v_total_pool_value: 0,
            c_total_collateral: 0,
            i_insurance_reserve: 0,
            total_matured_pnl: 0,
            admin: [0u8; 32],
            bump: 0,
            _pad1: [0u8; 7],
        };
        assert(g.a@ =~= Seq::new(16, |_i: int| 0u8));
        assert(g.k@ =~= Seq::new(16, |_i: int| 0u8));
        assert(g.f@ =~= Seq::new(16, |_i: int| 0u8));
        assert(g.b@ =~= Seq::new(16, |_i: int| 0u8));
        assert(g.admin@ =~= Seq::new(32, |_i: int| 0u8));
        assert(g._pad0@ =~= Seq::new(7, |_i: int| 0u8));
        assert(g._pad1@ =~= Seq::new(7, |_i: int| 0u8));
        g
    }

    pub fn get_a(&self) -> (v: i128)
        ensures
            v == self.spec_a(),
    {
        i128_from_le_bytes(self.a)
    }

    /// Stores `v` as A; a later `get_a` reads back `v`.
    pub fn set_a(&mut self, v: i128)
        ensures
            final(self).spec_a() == v,
            *final(self) == (GlobalState { a: final(self).a, ..*old(self) }),
    {
        self.a = i128_to_le_bytes(v);
    }

    pub fn get_k(&self) -> (v: i128)
        ensures
            v == self.spec_k(),
    {
        i128_from_le_bytes(self.k)
    }

    /// Stores `v` as K; a later `get_k` reads back `v`.
    pub fn set_k(&mut self, v: i128)
        ensures
            final(self).spec_k() == v,
            *final(self) == (GlobalState { k: final(self).k, ..*old(self) }),
    {
        self.k = i128_to_le_bytes(v);
    }

    pub fn get_f(&self) -> (v: i128)
        ensures
            v == self.spec_f(),
    {
        i128_from_le_bytes(self.f)
    }

    /// Stores `v` as F; a later `get_f` reads back `v`.
    pub fn set_f(&mut self, v: i128)
        ensures
            final(self).spec_f() == v,
            *final(self) == (GlobalState { f: final(self).f, ..*old(self) }),
    {
        self.f = i128_to_le_bytes(v);
    }

    pub fn get_b(&self) -> (v: i128)
        ensures
            v == self.spec_b(),
    {
        i128_from_le_bytes(self.b)
    }

    /// Stores `v` as B; a later `get_b` reads back `v`.
    pub fn set_b(&mut self, v: i128)
        ensures
            final(self).spec_b() == v,
            *final(self) == (GlobalState { b: final(self).b, ..*old(self) }),
    {
        self.b = i128_to_le_bytes(v);
    }
}

impl Default for GlobalState {
    fn default() -> (g: GlobalState)
        ensures
            g.is_zeroed(),
    {
        GlobalState::zeroed()
    }
}

} // verus!
