use vstd::prelude::*;

verus! {

/// Every way an operation of the ledger can be refused.
#[derive(Clone, Copy, Debug, PartialEq, Eq, Structural)]
pub enum VeraluxErrorCode {
    Paused,
    AlreadyPaused,
    NotPaused,
    UnauthorizedSender,
    InsufficientSigners,
    SignerNotOwner,
    ReentrancyGuardTriggered,
    InsufficientStakingPoolFunds,
    InsufficientAirdropFunds,
    InsufficientLiquidityIncentiveFunds,
    InsufficientPoolFunds,
    InsufficientStakedAmount,
    NoLockedTokens,
    MaxSellTxnLimitExceeded,
    DailySellLimitExceeded,
    MaxTransferLimitExceeded,
    DailyTransferLimitExceeded,
    CooldownActive,
    VestingNotStarted,
    NoRewards,
    ProposalExpired,
    VotingPeriodNotEnded,
    NoticePeriodNotMet,
    ProposalAlreadyExecuted,
    WithdrawalDelayNotMet,
    LockPeriodNotMet,
    InvalidProposalType,
    InvalidProposalValueCount,
    InvalidTaxRate,
    InvalidStakingTiers,
    InvalidTaxAllocationTotal,
    InvalidTaxAllocation,
    InvalidReductionThresholds,
    InvalidReductionFactor,
    InvalidTimestamp,
    InvalidSellLimit,
    InvalidTransferLimit,
    InvalidTaxThreshold,
    InvalidStakingReward,
    InvalidAccounts,
    ArithmeticOverflow,
    VectorOverflow,
    UninitializedAccount,
    InvalidDexProgram,
    InvalidDexAccounts,
    TooManyDexPrograms,
    MigrationNotActive,
    MigrationActive,
    PresaleNotActive,
    PresaleSupplyExceeded,
    PresaleMaxPerWalletExceeded,
    AmountTooSmallAfterTax,
    DescriptionTooLong,
    TooManyProposalValues,
    InsufficientTierForVoting,
    InvalidTier,
    InvalidImmediateAmount,
    InvalidTeamMember,
    VestingCanceled,
    ClaimCooldownNotMet,
    ExceedsVestingTotal,
    TooFewOwners,
    DuplicateOwners,
    TooManyOwners,
    ThresholdExceedsOwners,
    TooManyRecipients,
    InvalidRecipientAccounts,
    InvalidRecipientAccount,
    InvalidContract,
    TooManyWhitelistedContracts,
    ContractNotWhitelisted,
    AlreadyMigrated,
    NotMigrated,
    InvalidMigrationUser,
    MigrationToggleCooldown,
    BatchSizeTooLarge,
    WhitelistDelayNotMet,
    TimeLockNotMet,
    CallerNotWhitelisted,
    InvalidDestination,
    VersionMismatch,
    KYCRequired,
    InvalidThreshold,
    InvalidVectorSize,
    InvalidProposal,
    InvalidBuyerUSDTOwner,
    InvalidPresaleUSDTReceiver,
    Unauthorized,
}

} // verus!
