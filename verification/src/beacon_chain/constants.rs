//! EIP-7732 beacon chain constants.
use vstd::prelude::*;

verus! {

// ── Index flags ──────────────────────────────────────────────────────────────
/// Bitwise flag indicating a ValidatorIndex should be treated as a BuilderIndex (2^40).
pub const BUILDER_INDEX_FLAG: u64 = 1_099_511_627_776u64;

// ── Domain types ─────────────────────────────────────────────────────────────
pub const DOMAIN_BEACON_BUILDER: [u8; 4] = [0x0B, 0x00, 0x00, 0x00];

pub const DOMAIN_PTC_ATTESTER: [u8; 4] = [0x0C, 0x00, 0x00, 0x00];

pub const DOMAIN_PROPOSER_PREFERENCES: [u8; 4] = [0x0D, 0x00, 0x00, 0x00];

// ── Misc ──────────────────────────────────────────────────────────────────────
/// Sentinel value indicating the proposer built the payload themselves (u64::MAX).
pub const BUILDER_INDEX_SELF_BUILD: u64 = u64::MAX;

pub const BUILDER_PAYMENT_THRESHOLD_NUMERATOR: u64 = 6;

pub const BUILDER_PAYMENT_THRESHOLD_DENOMINATOR: u64 = 10;

// ── Withdrawal prefix ─────────────────────────────────────────────────────────
pub const BUILDER_WITHDRAWAL_PREFIX: u8 = 0x03;

// ── Preset ────────────────────────────────────────────────────────────────────
/// Size of the Payload Timeliness Committee (2^9).
pub const PTC_SIZE: u64 = 512;

/// Max payload attestations per block.
pub const MAX_PAYLOAD_ATTESTATIONS: usize = 4;

/// Maximum number of registered builders (2^40).
pub const BUILDER_REGISTRY_LIMIT: u64 = 1_099_511_627_776u64;

/// Maximum length of the pending builder withdrawal queue (2^20).
pub const BUILDER_PENDING_WITHDRAWALS_LIMIT: u64 = 1_048_576u64;

/// Maximum number of pending withdrawals taken in one sweep (2^14).
pub const MAX_BUILDERS_PER_WITHDRAWALS_SWEEP: u64 = 16_384u64;

// ── Time parameters ───────────────────────────────────────────────────────────
/// Minimum delay (in epochs) before a builder can withdraw their stake (2^6).
pub const MIN_BUILDER_WITHDRAWABILITY_DELAY: u64 = 64;

// ── Payload timeliness intervals ──────────────────────────────────────────────
/// Seconds per slot (mainnet).
pub const SECONDS_PER_SLOT: u64 = 12;

pub const INTERVALS_PER_SLOT: u64 = 4;

/// Seconds the next proposer has to validate the revealed payload (6 s).
pub const NEXT_PROPOSER_VALIDATION_WINDOW: u64 = SECONDS_PER_SLOT * 2 / INTERVALS_PER_SLOT;

/// Seconds other validators have to validate the revealed payload (9 s).
pub const ATTESTERS_VALIDATION_WINDOW: u64 = SECONDS_PER_SLOT * 3 / INTERVALS_PER_SLOT;

} // verus!
