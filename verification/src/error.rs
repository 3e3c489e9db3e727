//! Error types. [`PerpRouterError`] holds the router's own error codes;
//! [`ProgramError`] holds the generic program errors the router raises
//! beside them, with `Custom` carrying a router error.

use vstd::prelude::*;

verus! {

/// Errors raised by the router's own checks. The numeric code of each
/// variant is its position in this list (see [`PerpRouterError::code`]).
#[derive(Debug, Copy, Clone, PartialEq, Eq, Structural)]
pub enum PerpRouterError {
    InvalidAuthority,
    InvalidPda,
    AlreadyInitialized,
    NotInitialized,
    OracleEnvelopeExceeded,
    RecoveryDrainOnly,
    InsufficientCollateral,
    LeverageExceeded,
    PnlInWarmup,
    HaircutOverflow,
    SideIndexOverflow,
    PhoenixCpiFailed,
    ReceiptAlreadyProcessed,
    ReceiptNotProcessed,
    MathOverflow,
    PositionTableFull,
    SeatTableFull,
    OrderRejected,
    MakerAccountMissing,
    TooManyFills,
}

/// The numeric code that a router error is reported under.
pub open spec fn error_code(e: PerpRouterError) -> u32 {
    match e {
        PerpRouterError::InvalidAuthority => 0,
        PerpRouterError::InvalidPda => 1,
        PerpRouterError::AlreadyInitialized => 2,
        PerpRouterError::NotInitialized => 3,
        PerpRouterError::OracleEnvelopeExceeded => 4,
        PerpRouterError::RecoveryDrainOnly => 5,
        PerpRouterError::InsufficientCollateral => 6,
        PerpRouterError::LeverageExceeded => 7,
        PerpRouterError::PnlInWarmup => 8,
        PerpRouterError::HaircutOverflow => 9,
        PerpRouterError::SideIndexOverflow => 10,
        PerpRouterError::PhoenixCpiFailed => 11,
        PerpRouterError::ReceiptAlreadyProcessed => 12,
        PerpRouterError::ReceiptNotProcessed => 13,
        PerpRouterError::MathOverflow => 14,
        PerpRouterError::PositionTableFull => 15,
        PerpRouterError::SeatTableFull => 16,
        PerpRouterError::OrderRejected => 17,
        PerpRouterError::MakerAccountMissing => 18,
        PerpRouterError::TooManyFills => 19,
    }
}

impl PerpRouterError {
    /// Numeric code of this error (its position in the enum).
    pub fn code(&self) -> (c: u32)
        ensures
            c == error_code(*self),
    {
        match self {
            PerpRouterError::InvalidAuthority => 0,
            PerpRouterError::InvalidPda => 1,
            PerpRouterError::AlreadyInitialized => 2,
            PerpRouterError::NotInitialized => 3,
            PerpRouterError::OracleEnvelopeExceeded => 4,
            PerpRouterError::RecoveryDrainOnly => 5,
            PerpRouterError::InsufficientCollateral => 6,
            PerpRouterError::LeverageExceeded => 7,
            PerpRouterError::PnlInWarmup => 8,
            PerpRouterError::HaircutOverflow => 9,
            PerpRouterError::SideIndexOverflow => 10,
            PerpRouterError::PhoenixCpiFailed => 11,
            PerpRouterError::ReceiptAlreadyProcessed => 12,
            PerpRouterError::ReceiptNotProcessed => 13,
            PerpRouterError::MathOverflow => 14,
            PerpRouterError::PositionTableFull => 15,
            PerpRouterError::SeatTableFull => 16,
            PerpRouterError::OrderRejected => 17,
            PerpRouterError::MakerAccountMissing => 18,
            PerpRouterError::TooManyFills => 19,
        }
    }
}

/// Distinct router errors have distinct codes.
pub proof fn lemma_error_code_injective(e1: PerpRouterError, e2: PerpRouterError)
    ensures
        error_code(e1) == error_code(e2) ==> e1 == e2,
{
}

/// Generic program errors, with `Custom` carrying a router error.
#[derive(Debug, Copy, Clone, PartialEq, Eq, Structural)]
pub enum ProgramError {
    Custom(PerpRouterError),
    InvalidArgument,
    InvalidInstructionData,
    InvalidAccountData,
    AccountDataTooSmall,
    InsufficientFunds,
    IncorrectProgramId,
    MissingRequiredSignature,
    InvalidSeeds,
    IllegalOwner,
    UninitializedAccount,
}

/// A router error as a program error: `Custom` carrying it.
impl From<PerpRouterError> for ProgramError {
    fn from(e: PerpRouterError) -> (r: ProgramError) {
        ProgramError::Custom(e)
    }
}

impl vstd::std_specs::convert::FromSpecImpl<PerpRouterError> for ProgramError {
    open spec fn obeys_from_spec() -> bool {
        true
    }

    open spec fn from_spec(e: PerpRouterError) -> ProgramError {
        ProgramError::Custom(e)
    }
}


/// `Ok(())` when `cond` holds, `Err(err)` otherwise. The message describes
/// the failed check for the caller's log; it does not affect the result.
pub fn assert_with_msg(cond: bool, err: ProgramError, message: &str) -> (r: Result<(), ProgramError>)
    ensures
        r == (if cond { Ok::<(), ProgramError>(()) } else { Err(err) }),
{
    if !cond {
        Err(err)
    } else {
        Ok(())
    }
}

} // verus!
