use vstd::prelude::*;

verus! {

/// Base units per whole token (nine decimals).
pub const TOKEN_UNIT: u64 = 1_000_000_000;
pub const TOKEN_DECIMALS: u32 = 9;
pub const TOTAL_SUPPLY: u64 = 1_000_000_000 * TOKEN_UNIT;
pub const PRESALE_SUPPLY: u64 = 250_000_000 * TOKEN_UNIT;
pub const INITIAL_LIQUIDITY: u64 = 90_000_000 * TOKEN_UNIT;
pub const TREASURY_RESERVE: u64 = 660_000_000 * TOKEN_UNIT;
pub const LAUNCH_TIMESTAMP: i64 = 1746057600;
pub const GRACE_PERIOD: i64 = 30 * SECONDS_PER_DAY;
pub const COOLDOWN_THRESHOLD: u64 = 9_999_999 * TOKEN_UNIT;
/// Minimum spacing between two transfers of one sender, in seconds.
pub const TXN_COOLDOWN: i64 = 60;
pub const TRANSFER_COOLDOWN: i64 = SECONDS_PER_DAY;
pub const INITIAL_TAX_RATE: u64 = 500;
pub const INITIAL_STAKING_TIERS: [u64; 4] = [
    20_000_000_000_000,
    100_000_000_000_000,
    500_000_000_000_000,
    5_000_000_000_000_000,
];
/// Minimum staking duration of each tier, in seconds.
pub const STAKING_DURATIONS: [i64; 4] = [604_800, 1_209_600, 2_592_000, 2_592_000];
/// Weekly staking reward of each tier.
pub const STAKING_REWARDS: [u64; 4] = [
    500_000_000_000,
    2_500_000_000_000,
    12_500_000_000_000,
    125_000_000_000_000,
];
pub const VOTING_QUORUM: u64 = 30;
pub const VOTING_APPROVAL: u64 = 51;
pub const VOTING_THRESHOLD: u64 = 20;
pub const STAKING_POOL_PCT: u64 = 30;
pub const AIRDROP_POOL_PCT: u64 = 8;
pub const GOVERNANCE_RESERVE_PCT: u64 = 16;
pub const MARKETING_FUND_PCT: u64 = 18;
pub const EMERGENCY_FUND_PCT: u64 = 5;
pub const TEAM_POOL_PCT: u64 = 18;
pub const MAX_SELL_TXN_LIMIT: u64 = TOTAL_SUPPLY / 200;
pub const DAILY_SELL_LIMIT: u64 = TOTAL_SUPPLY / 200;
pub const MAX_TRANSFER_LIMIT: u64 = TOTAL_SUPPLY / 200;
pub const DAILY_TRANSFER_LIMIT: u64 = TOTAL_SUPPLY / 200;
pub const PROGRESSIVE_TAX_THRESHOLD: u64 = TOTAL_SUPPLY / 200;
/// Transfers of at least this amount start the sender's cooldown marker.
pub const TRANSACTION_TRACKING_THRESHOLD: u64 = TOTAL_SUPPLY / 1000;
/// USDT base units paid for one whole token during the presale.
pub const PRESALE_PRICE_PER_TOKEN: u64 = 1600;
pub const PRESALE_MAX_PER_WALLET: u64 = 2_000_000 * TOKEN_UNIT;
/// Purchases of at least this many USDT base units need a verified buyer.
pub const KYC_USDT_THRESHOLD: u64 = 1000;

pub const SECONDS_PER_HOUR: i64 = 3600;
pub const SECONDS_PER_DAY: i64 = 86_400;
pub const HOURS_PER_WINDOW: usize = 24;

/// Delay before a pause, resume, owner-set change or withdrawal may be confirmed.
pub const ADMIN_DELAY: i64 = 24 * SECONDS_PER_HOUR;
/// Delay before a whitelist change may be confirmed.
pub const WHITELIST_DELAY: i64 = 72 * SECONDS_PER_HOUR;
/// Minimum spacing between two toggles of the migration flag.
pub const MIGRATION_TOGGLE_COOLDOWN: i64 = 7 * SECONDS_PER_DAY;
/// Minimum time an LP stake rests before it may be withdrawn or claimed.
pub const LP_LOCK_PERIOD: i64 = 7 * SECONDS_PER_DAY;
pub const MAX_BATCH_SIZE: u64 = 50;
pub const MAX_RECIPIENTS: usize = 100;
pub const MAX_DEXES: usize = 10;
pub const MAX_WHITELISTED: usize = 20;
pub const MAX_ALLOWED_DESTINATIONS: usize = 10;
pub const MAX_PAUSE_REASON_LEN: usize = 100;
pub const MAX_DESCRIPTION_LEN: usize = 200;
pub const MAX_PROPOSAL_VALUES: usize = 7;
pub const MAX_OWNERS: usize = 10;
pub const MAX_INITIAL_OWNERS: usize = 5;
pub const VOTING_PERIOD: i64 = 14 * SECONDS_PER_DAY;
pub const NOTICE_PERIOD: i64 = 3 * SECONDS_PER_DAY;
pub const TEAM_CLAIM_CAP: u64 = 20_000_000 * TOKEN_UNIT;
pub const FREELANCER_CLAIM_CAP: u64 = 500_000 * TOKEN_UNIT;
pub const FREELANCER_CLAIM_COOLDOWN: i64 = 3 * SECONDS_PER_DAY;
pub const PRESALE_WEEK: i64 = 7 * SECONDS_PER_DAY;
pub const VESTING_MONTH: i64 = 30 * SECONDS_PER_DAY;
/// Basis points in a whole.
pub const BPS: u64 = 10_000;

} // verus!
