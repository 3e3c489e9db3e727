//! Phoenix's instruction set: the tag byte that starts each instruction's
//! data.

use vstd::prelude::*;

verus! {

/// Phoenix instructions, in tag order: market instructions have tags
/// 0–17, admin instructions 100–109, ephemeral-rollup instructions
/// 200–214.
#[derive(Copy, Clone, Debug, PartialEq, Eq, Structural)]
pub enum PhoenixInstruction {
    // Market instructions.
    Swap,
    SwapWithFreeFunds,
    PlaceLimitOrder,
    PlaceLimitOrderWithFreeFunds,
    ReduceOrder,
    ReduceOrderWithFreeFunds,
    CancelAllOrders,
    CancelAllOrdersWithFreeFunds,
    CancelUpTo,
    CancelUpToWithFreeFunds,
    CancelMultipleOrdersById,
    CancelMultipleOrdersByIdWithFreeFunds,
    WithdrawFunds,
    DepositFunds,
    RequestSeat,
    Log,
    PlaceMultiplePostOnlyOrders,
    PlaceMultiplePostOnlyOrdersWithFreeFunds,
    // Admin instructions.
    InitializeMarket,
    ClaimAuthority,
    NameSuccessor,
    ChangeMarketStatus,
    ChangeSeatStatus,
    RequestSeatAuthorized,
    EvictSeat,
    ForceCancelOrders,
    CollectFees,
    ChangeFeeRecipient,
    // Ephemeral-rollup integration (dispatched apart from the market
    // instructions: their account lists differ).
    DelegateMarket,
    CommitMarket,
    CommitAndUndelegateMarket,
    DelegateSeat,
    RequestDeposit,
    ProcessDepositEr,
    CloseDepositReceipt,
    RequestWithdrawal,
    ProcessWithdrawalEr,
    ExecuteWithdrawalBaseChain,
    CreateSessionToken,
    RevokeSessionToken,
    PlaceLimitOrderViaSession,
    SwapViaSession,
    CancelAllOrdersViaSession,
}

/// Whether `t` is the tag of a Phoenix instruction.
pub open spec fn is_phoenix_tag(t: u8) -> bool {
    t <= 17 || (100 <= t && t <= 109) || (200 <= t && t <= 214)
}

/// The tag of each instruction.
pub open spec fn spec_phoenix_tag(ix: PhoenixInstruction) -> u8 {
    match ix {
        PhoenixInstruction::Swap => 0,
        PhoenixInstruction::SwapWithFreeFunds => 1,
        PhoenixInstruction::PlaceLimitOrder => 2,
        PhoenixInstruction::PlaceLimitOrderWithFreeFunds => 3,
        PhoenixInstruction::ReduceOrder => 4,
        PhoenixInstruction::ReduceOrderWithFreeFunds => 5,
        PhoenixInstruction::CancelAllOrders => 6,
        PhoenixInstruction::CancelAllOrdersWithFreeFunds => 7,
        PhoenixInstruction::CancelUpTo => 8,
        PhoenixInstruction::CancelUpToWithFreeFunds => 9,
        PhoenixInstruction::CancelMultipleOrdersById => 10,
        PhoenixInstruction::CancelMultipleOrdersByIdWithFreeFunds => 11,
        PhoenixInstruction::WithdrawFunds => 12,
        PhoenixInstruction::DepositFunds => 13,
        PhoenixInstruction::RequestSeat => 14,
        PhoenixInstruction::Log => 15,
        PhoenixInstruction::PlaceMultiplePostOnlyOrders => 16,
        PhoenixInstruction::PlaceMultiplePostOnlyOrdersWithFreeFunds => 17,
        PhoenixInstruction::InitializeMarket => 100,
        PhoenixInstruction::ClaimAuthority => 101,
        PhoenixInstruction::NameSuccessor => 102,
        PhoenixInstruction::ChangeMarketStatus => 103,
        PhoenixInstruction::ChangeSeatStatus => 104,
        PhoenixInstruction::RequestSeatAuthorized => 105,
        PhoenixInstruction::EvictSeat => 106,
        PhoenixInstruction::ForceCancelOrders => 107,
        PhoenixInstruction::CollectFees => 108,
        PhoenixInstruction::ChangeFeeRecipient => 109,
        PhoenixInstruction::DelegateMarket => 200,
        PhoenixInstruction::CommitMarket => 201,
        PhoenixInstruction::CommitAndUndelegateMarket => 202,
        PhoenixInstruction::DelegateSeat => 203,
        PhoenixInstruction::RequestDeposit => 204,
        PhoenixInstruction::ProcessDepositEr => 205,
        PhoenixInstruction::CloseDepositReceipt => 206,
        PhoenixInstruction::RequestWithdrawal => 207,
        PhoenixInstruction::ProcessWithdrawalEr => 208,
        PhoenixInstruction::ExecuteWithdrawalBaseChain => 209,
        PhoenixInstruction::CreateSessionToken => 210,
        PhoenixInstruction::RevokeSessionToken => 211,
        PhoenixInstruction::PlaceLimitOrderViaSession => 212,
        PhoenixInstruction::SwapViaSession => 213,
        PhoenixInstruction::CancelAllOrdersViaSession => 214,
    }
}

impl PhoenixInstruction {
    /// The instruction's tag byte.
    pub fn tag(&self) -> (t: u8)
        ensures
            t == spec_phoenix_tag(*self),
            is_phoenix_tag(t),
    {
        match self {
            PhoenixInstruction::Swap => 0,
            PhoenixInstruction::SwapWithFreeFunds => 1,
            PhoenixInstruction::PlaceLimitOrder => 2,
            PhoenixInstruction::PlaceLimitOrderWithFreeFunds => 3,
            PhoenixInstruction::ReduceOrder => 4,
            PhoenixInstruction::ReduceOrderWithFreeFunds => 5,
            PhoenixInstruction::CancelAllOrders => 6,
            PhoenixInstruction::CancelAllOrdersWithFreeFunds => 7,
            PhoenixInstruction::CancelUpTo => 8,
            PhoenixInstruction::CancelUpToWithFreeFunds => 9,
            PhoenixInstruction::CancelMultipleOrdersById => 10,
            PhoenixInstruction::CancelMultipleOrdersByIdWithFreeFunds => 11,
            PhoenixInstruction::WithdrawFunds => 12,
            PhoenixInstruction::DepositFunds => 13,
            PhoenixInstruction::RequestSeat => 14,
            PhoenixInstruction::Log => 15,
            PhoenixInstruction::PlaceMultiplePostOnlyOrders => 16,
            PhoenixInstruction::PlaceMultiplePostOnlyOrdersWithFreeFunds => 17,
            PhoenixInstruction::InitializeMarket => 100,
            PhoenixInstruction::ClaimAuthority => 101,
            PhoenixInstruction::NameSuccessor => 102,
            PhoenixInstruction::ChangeMarketStatus => 103,
            PhoenixInstruction::ChangeSeatStatus => 104,
            PhoenixInstruction::RequestSeatAuthorized => 105,
            PhoenixInstruction::EvictSeat => 106,
            PhoenixInstruction::ForceCancelOrders => 107,
            PhoenixInstruction::CollectFees => 108,
            PhoenixInstruction::ChangeFeeRecipient => 109,
            PhoenixInstruction::DelegateMarket => 200,
            PhoenixInstruction::CommitMarket => 201,
            PhoenixInstruction::CommitAndUndelegateMarket => 202,
            PhoenixInstruction::DelegateSeat => 203,
            PhoenixInstruction::RequestDeposit => 204,
            PhoenixInstruction::ProcessDepositEr => 205,
            PhoenixInstruction::CloseDepositReceipt => 206,
            PhoenixInstruction::RequestWithdrawal => 207,
            PhoenixInstruction::ProcessWithdrawalEr => 208,
            PhoenixInstruction::ExecuteWithdrawalBaseChain => 209,
            PhoenixInstruction::CreateSessionToken => 210,
            PhoenixInstruction::RevokeSessionToken => 211,
            PhoenixInstruction::PlaceLimitOrderViaSession => 212,
            PhoenixInstruction::SwapViaSession => 213,
            PhoenixInstruction::CancelAllOrdersViaSession => 214,
        }
    }

    /// The instruction with tag `t`: `Some` exactly for the tags of
    /// [`is_phoenix_tag`], holding the instruction with that tag.
    pub fn try_from_tag(t: u8) -> (r: Option<PhoenixInstruction>)
        ensures
            match r {
                Some(ix) => spec_phoenix_tag(ix) == t,
                None => !is_phoenix_tag(t),
            },
    {
        match t {
            0 => Some(PhoenixInstruction::Swap),
            1 => Some(PhoenixInstruction::SwapWithFreeFunds),
            2 => Some(PhoenixInstruction::PlaceLimitOrder),
            3 => Some(PhoenixInstruction::PlaceLimitOrderWithFreeFunds),
            4 => Some(PhoenixInstruction::ReduceOrder),
            5 => Some(PhoenixInstruction::ReduceOrderWithFreeFunds),
            6 => Some(PhoenixInstruction::CancelAllOrders),
            7 => Some(PhoenixInstruction::CancelAllOrdersWithFreeFunds),
            8 => Some(PhoenixInstruction::CancelUpTo),
            9 => Some(PhoenixInstruction::CancelUpToWithFreeFunds),
            10 => Some(PhoenixInstruction::CancelMultipleOrdersById),
            11 => Some(PhoenixInstruction::CancelMultipleOrdersByIdWithFreeFunds),
            12 => Some(PhoenixInstruction::WithdrawFunds),
            13 => Some(PhoenixInstruction::DepositFunds),
            14 => Some(PhoenixInstruction::RequestSeat),
            15 => Some(PhoenixInstruction::Log),
            16 => Some(PhoenixInstruction::PlaceMultiplePostOnlyOrders),
            17 => Some(PhoenixInstruction::PlaceMultiplePostOnlyOrdersWithFreeFunds),
            100 => Some(PhoenixInstruction::InitializeMarket),
            101 => Some(PhoenixInstruction::ClaimAuthority),
            102 => Some(PhoenixInstruction::NameSuccessor),
            103 => Some(PhoenixInstruction::ChangeMarketStatus),
            104 => Some(PhoenixInstruction::ChangeSeatStatus),
            105 => Some(PhoenixInstruction::RequestSeatAuthorized),
            106 => Some(PhoenixInstruction::EvictSeat),
            107 => Some(PhoenixInstruction::ForceCancelOrders),
            108 => Some(PhoenixInstruction::CollectFees),
            109 => Some(PhoenixInstruction::ChangeFeeRecipient),
            200 => Some(PhoenixInstruction::DelegateMarket),
            201 => Some(PhoenixInstruction::CommitMarket),
            202 => Some(PhoenixInstruction::CommitAndUndelegateMarket),
            203 => Some(PhoenixInstruction::DelegateSeat),
            204 => Some(PhoenixInstruction::RequestDeposit),
            205 => Some(PhoenixInstruction::ProcessDepositEr),
            206 => Some(PhoenixInstruction::CloseDepositReceipt),
            207 => Some(PhoenixInstruction::RequestWithdrawal),
            208 => Some(PhoenixInstruction::ProcessWithdrawalEr),
            209 => Some(PhoenixInstruction::ExecuteWithdrawalBaseChain),
            210 => Some(PhoenixInstruction::CreateSessionToken),
            211 => Some(PhoenixInstruction::RevokeSessionToken),
            212 => Some(PhoenixInstruction::PlaceLimitOrderViaSession),
            213 => Some(PhoenixInstruction::SwapViaSession),
            214 => Some(PhoenixInstruction::CancelAllOrdersViaSession),
            _ => None,
        }
    }

    /// The instruction data of an instruction without arguments: its tag.
    pub fn to_vec(&self) -> (v: Vec<u8>)
        ensures
            v@ == seq![spec_phoenix_tag(*self)],
    {
        let mut v: Vec<u8> = Vec::new();
        v.push(self.tag());
        v
    }
}

/// Distinct instructions have distinct tags, so a tag read back names the
/// instruction that wrote it.
pub proof fn lemma_phoenix_tag_injective(a: PhoenixInstruction, b: PhoenixInstruction)
    ensures
        is_phoenix_tag(spec_phoenix_tag(a)),
        spec_phoenix_tag(a) == spec_phoenix_tag(b) ==> a == b,
{
}

} // verus!
