//! The router's instruction set and how instruction data is routed: the
//! first byte selects the instruction, except for the delegation
//! program's external-undelegate callback, recognized by its 8-byte
//! discriminator.

use vstd::prelude::*;

use crate::error::ProgramError;

verus! {

/// All instructions handled by the router, in tag order (the tag is the
/// first byte of the instruction data).
#[derive(Copy, Clone, Debug, PartialEq, Eq, Structural)]
pub enum PerpRouterInstruction {
    InitializeMarket,
    InitializeTrader,
    DelegateTraderAccount,
    DelegateGlobalState,
    DelegatePerpMarket,
    UndelegateTraderAccount,
    RequestCollateralDeposit,
    ProcessCollateralDepositEr,
    CloseCollateralDepositReceipt,
    RequestCollateralWithdrawal,
    ProcessCollateralWithdrawalEr,
    ExecuteCollateralWithdrawalBaseChain,
    OpenPosition,
    ClosePosition,
    Liquidate,
    MaturePnl,
    CrankFunding,
    RecoveryCheck,
    ScheduleCranks,
    InitializeGlobalState,
    DirectDeposit,
    DirectWithdraw,
    DirectOpenPosition,
    DirectClosePosition,
}

/// Number of instructions; tags run from 0 to one less than this.
pub const NUM_INSTRUCTIONS: u8 = 24;

/// The tag of each instruction.
pub open spec fn spec_tag(ix: PerpRouterInstruction) -> u8 {
    match ix {
        PerpRouterInstruction::InitializeMarket => 0,
        PerpRouterInstruction::InitializeTrader => 1,
        PerpRouterInstruction::DelegateTraderAccount => 2,
        PerpRouterInstruction::DelegateGlobalState => 3,
        PerpRouterInstruction::DelegatePerpMarket => 4,
        PerpRouterInstruction::UndelegateTraderAccount => 5,
        PerpRouterInstruction::RequestCollateralDeposit => 6,
        PerpRouterInstruction::ProcessCollateralDepositEr => 7,
        PerpRouterInstruction::CloseCollateralDepositReceipt => 8,
        PerpRouterInstruction::RequestCollateralWithdrawal => 9,
        PerpRouterInstruction::ProcessCollateralWithdrawalEr => 10,
        PerpRouterInstruction::ExecuteCollateralWithdrawalBaseChain => 11,
        PerpRouterInstruction::OpenPosition => 12,
        PerpRouterInstruction::ClosePosition => 13,
        PerpRouterInstruction::Liquidate => 14,
        PerpRouterInstruction::MaturePnl => 15,
        PerpRouterInstruction::CrankFunding => 16,
        PerpRouterInstruction::RecoveryCheck => 17,
        PerpRouterInstruction::ScheduleCranks => 18,
        PerpRouterInstruction::InitializeGlobalState => 19,
        PerpRouterInstruction::DirectDeposit => 20,
        PerpRouterInstruction::DirectWithdraw => 21,
        PerpRouterInstruction::DirectOpenPosition => 22,
        PerpRouterInstruction::DirectClosePosition => 23,
    }
}

impl PerpRouterInstruction {
    /// The instruction's tag byte.
    pub fn tag(&self) -> (t: u8)
        ensures
            t == spec_tag(*self),
            t < NUM_INSTRUCTIONS,
    {
        match self {
            PerpRouterInstruction::InitializeMarket => 0,
            PerpRouterInstruction::InitializeTrader => 1,
            PerpRouterInstruction::DelegateTraderAccount => 2,
            PerpRouterInstruction::DelegateGlobalState => 3,
            PerpRouterInstruction::DelegatePerpMarket => 4,
            PerpRouterInstruction::UndelegateTraderAccount => 5,
            PerpRouterInstruction::RequestCollateralDeposit => 6,
            PerpRouterInstruction::ProcessCollateralDepositEr => 7,
            PerpRouterInstruction::CloseCollateralDepositReceipt => 8,
            PerpRouterInstruction::RequestCollateralWithdrawal => 9,
            PerpRouterInstruction::ProcessCollateralWithdrawalEr => 10,
            PerpRouterInstruction::ExecuteCollateralWithdrawalBaseChain => 11,
            PerpRouterInstruction::OpenPosition => 12,
            PerpRouterInstruction::ClosePosition => 13,
            PerpRouterInstruction::Liquidate => 14,
            PerpRouterInstruction::MaturePnl => 15,
            PerpRouterInstruction::CrankFunding => 16,
            PerpRouterInstruction::RecoveryCheck => 17,
            PerpRouterInstruction::ScheduleCranks => 18,
            PerpRouterInstruction::InitializeGlobalState => 19,
            PerpRouterInstruction::DirectDeposit => 20,
            PerpRouterInstruction::DirectWithdraw => 21,
            PerpRouterInstruction::DirectOpenPosition => 22,
            PerpRouterInstruction::DirectClosePosition => 23,
        }
    }

    /// The instruction with tag `t`, if there is one: exactly the
    /// instruction whose tag is `t`, and `None` for `t >= 24`.
    pub fn from_tag(t: u8) -> (r: Option<PerpRouterInstruction>)
        ensures
            match r {
                Some(ix) => spec_tag(ix) == t,
                None => t >= NUM_INSTRUCTIONS,
            },
    {
        match t {
            0 => Some(PerpRouterInstruction::InitializeMarket),
            1 => Some(PerpRouterInstruction::InitializeTrader),
            2 => Some(PerpRouterInstruction::DelegateTraderAccount),
            3 => Some(PerpRouterInstruction::DelegateGlobalState),
            4 => Some(PerpRouterInstruction::DelegatePerpMarket),
            5 => Some(PerpRouterInstruction::UndelegateTraderAccount),
            6 => Some(PerpRouterInstruction::RequestCollateralDeposit),
            7 => Some(PerpRouterInstruction::ProcessCollateralDepositEr),
            8 => Some(PerpRouterInstruction::CloseCollateralDepositReceipt),
            9 => Some(PerpRouterInstruction::RequestCollateralWithdrawal),
            10 => Some(PerpRouterInstruction::ProcessCollateralWithdrawalEr),
            11 => Some(PerpRouterInstruction::ExecuteCollateralWithdrawalBaseChain),
            12 => Some(PerpRouterInstruction::OpenPosition),
            13 => Some(PerpRouterInstruction::ClosePosition),
            14 => Some(PerpRouterInstruction::Liquidate),
            15 => Some(PerpRouterInstruction::MaturePnl),
            16 => Some(PerpRouterInstruction::CrankFunding),
            17 => Some(PerpRouterInstruction::RecoveryCheck),
            18 => Some(PerpRouterInstruction::ScheduleCranks),
            19 => Some(PerpRouterInstruction::InitializeGlobalState),
            20 => Some(PerpRouterInstruction::DirectDeposit),
            21 => Some(PerpRouterInstruction::DirectWithdraw),
            22 => Some(PerpRouterInstruction::DirectOpenPosition),
            23 => Some(PerpRouterInstruction::DirectClosePosition),
            _ => None,
        }
    }
}

/// Distinct instructions have distinct tags, and every tag below 24 names
/// one: reading a tag back gives the instruction that wrote it.
pub proof fn lemma_tag_round_trip(ix: PerpRouterInstruction, other: PerpRouterInstruction)
    ensures
        spec_tag(ix) < NUM_INSTRUCTIONS,
        spec_tag(ix) == spec_tag(other) ==> ix == other,
{
}

/// Discriminator with which the delegation program calls back the owner
/// program to undelegate an account.
pub const EXTERNAL_UNDELEGATE_DISCRIMINATOR: [u8; 8] = [196, 28, 41, 206, 48, 37, 51, 167];

/// Where instruction data is routed.
#[derive(Copy, Clone, Debug, PartialEq, Eq, Structural)]
pub enum Route {
    /// The delegation program's undelegate callback; its payload (the
    /// borsh-encoded PDA seeds) starts after the 8-byte discriminator.
    ExternalUndelegate,
    /// A router instruction; its payload starts after the tag byte.
    Instruction(PerpRouterInstruction),
}

/// The route of `data`.
pub open spec fn spec_route(data: Seq<u8>) -> Result<Route, ProgramError> {
    if data.len() >= 8 && data.take(8) == EXTERNAL_UNDELEGATE_DISCRIMINATOR@ {
        Ok(Route::ExternalUndelegate)
    } else if data.len() == 0 || data[0] >= NUM_INSTRUCTIONS {
        Err(ProgramError::InvalidInstructionData)
    } else {
        Ok(Route::Instruction(choose|ix: PerpRouterInstruction| spec_tag(ix) == data[0]))
    }
}

/// Route instruction data: the undelegate callback when it starts with
/// the discriminator; otherwise the instruction named by its first byte;
/// `InvalidInstructionData` when it is empty or the tag is unknown.
pub fn route(data: &[u8]) -> (r: Result<Route, ProgramError>)
    ensures
        r == spec_route(data@),
        r matches Ok(Route::Instruction(ix)) ==> spec_tag(ix) == data@[0],
{
    if data.len() >= 8 {
        let mut i: usize = 0;
        let mut same = true;
        while i < 8
            invariant
                0 <= i <= 8,
                data@.len() >= 8,
                EXTERNAL_UNDELEGATE_DISCRIMINATOR@.len() == 8,
                same == (forall|j: int| 0 <= j < i ==> data@[j] == EXTERNAL_UNDELEGATE_DISCRIMINATOR@[j]),
            decreases 8 - i,
        {
            if data[i] != EXTERNAL_UNDELEGATE_DISCRIMINATOR[i] {
                same = false;
            }
            i = i + 1;
        }
        if same {
            assert(data@.take(8) =~= EXTERNAL_UNDELEGATE_DISCRIMINATOR@);
            return Ok(Route::ExternalUndelegate);
        } else {
            assert(data@.take(8) != EXTERNAL_UNDELEGATE_DISCRIMINATOR@) by {
                let j = choose|j: int| 0 <= j < 8 && data@[j] != EXTERNAL_UNDELEGATE_DISCRIMINATOR@[j];
                assert(data@.take(8)[j] != EXTERNAL_UNDELEGATE_DISCRIMINATOR@[j]);
            }
        }
    }
    if data.len() == 0 {
        return Err(ProgramError::InvalidInstructionData);
    }
    match PerpRouterInstruction::from_tag(data[0]) {
        Some(ix) => {
            proof {
                let c = choose|c: PerpRouterInstruction| spec_tag(c) == data@[0];
                lemma_tag_round_trip(ix, c);
            }
            Ok(Route::Instruction(ix))
        },
        None => Err(ProgramError::InvalidInstructionData),
    }
}

} // verus!
