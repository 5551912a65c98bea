//! The hardfork gate: which protocol upgrades are active at a block
//! timestamp.
//!
//! The schedule is a table of activation timestamps, one per fork. From it
//! the fee logic learns whether a given fork is active at a timestamp, and
//! which version of the fee formulas that timestamp selects.

use vstd::prelude::*;

verus! {

/// Activation timestamps of the hardforks the receipt logic consults.
/// `None` means the fork never activates on this chain.
#[derive(Clone, Copy, Debug)]
pub struct HardforkSchedule {
    /// Activation timestamp of Bedrock.
    pub bedrock_time: Option<u64>,
    /// Activation timestamp of Regolith.
    pub regolith_time: Option<u64>,
    /// Activation timestamp of Canyon.
    pub canyon_time: Option<u64>,
    /// Activation timestamp of Ecotone.
    pub ecotone_time: Option<u64>,
    /// Activation timestamp of Fjord.
    pub fjord_time: Option<u64>,
}

/// The version of the L1 fee and data-gas formulas active at a timestamp:
/// the newest active fork among those that change either formula.
#[derive(Clone, Copy, Debug, PartialEq, Eq, Structural)]
pub enum FeeLevel {
    /// The original single-scalar formula, with the empty-signature
    /// allowance added to the data gas.
    Bedrock,
    /// The single-scalar formula without the empty-signature allowance.
    Regolith,
    /// The split base-fee and blob-base-fee scalar formula.
    Ecotone,
    /// The split-scalar formula over an estimated compressed size.
    Fjord,
}

/// Whether a fork with the given activation timestamp is active at `ts`.
pub open spec fn fork_active(activation: Option<u64>, ts: u64) -> bool {
    match activation {
        Some(a) => ts >= a,
        None => false,
    }
}

impl HardforkSchedule {
    /// Whether Bedrock is active at `ts`.
    pub open spec fn bedrock_active(self, ts: u64) -> bool {
        fork_active(self.bedrock_time, ts)
    }

    /// Whether Regolith is active at `ts`.
    pub open spec fn regolith_active(self, ts: u64) -> bool {
        fork_active(self.regolith_time, ts)
    }

    /// Whether Canyon is active at `ts`.
    pub open spec fn canyon_active(self, ts: u64) -> bool {
        fork_active(self.canyon_time, ts)
    }

    /// Whether Ecotone is active at `ts`.
    pub open spec fn ecotone_active(self, ts: u64) -> bool {
        fork_active(self.ecotone_time, ts)
    }

    /// Whether Fjord is active at `ts`.
    pub open spec fn fjord_active(self, ts: u64) -> bool {
        fork_active(self.fjord_time, ts)
    }

    /// The fee-formula version at `ts`: the newest active fork, or `None`
    /// when no fork is active, in which case no formula applies.
    pub open spec fn fee_level_spec(self, ts: u64) -> Option<FeeLevel> {
        if self.fjord_active(ts) {
            Some(FeeLevel::Fjord)
        } else if self.ecotone_active(ts) {
            Some(FeeLevel::Ecotone)
        } else if self.regolith_active(ts) {
            Some(FeeLevel::Regolith)
        } else if self.bedrock_active(ts) {
            Some(FeeLevel::Bedrock)
        } else {
            None
        }
    }

    /// Answers the Bedrock activation query.
    pub fn is_bedrock_active_at_timestamp(&self, ts: u64) -> (r: bool)
        ensures
            r == self.bedrock_active(ts),
    {
        match self.bedrock_time {
            Some(a) => ts >= a,
            None => false,
        }
    }

    /// Answers the Regolith activation query.
    pub fn is_regolith_active_at_timestamp(&self, ts: u64) -> (r: bool)
        ensures
            r == self.regolith_active(ts),
    {
        match self.regolith_time {
            Some(a) => ts >= a,
            None => false,
        }
    }

    /// Answers the Canyon activation query.
    pub fn is_canyon_active_at_timestamp(&self, ts: u64) -> (r: bool)
        ensures
            r == self.canyon_active(ts),
    {
        match self.canyon_time {
            Some(a) => ts >= a,
            None => false,
        }
    }

    /// Answers the Ecotone activation query.
    pub fn is_ecotone_active_at_timestamp(&self, ts: u64) -> (r: bool)
        ensures
            r == self.ecotone_active(ts),
    {
        match self.ecotone_time {
            Some(a) => ts >= a,
            None => false,
        }
    }

    /// Answers the Fjord activation query.
    pub fn is_fjord_active_at_timestamp(&self, ts: u64) -> (r: bool)
        ensures
            r == self.fjord_active(ts),
    {
        match self.fjord_time {
            Some(a) => ts >= a,
            None => false,
        }
    }

    /// Selects the fee-formula version active at `ts`.
    pub fn fee_level(&self, ts: u64) -> (r: Option<FeeLevel>)
        ensures
            r == self.fee_level_spec(ts),
    {
        if self.is_fjord_active_at_timestamp(ts) {
            Some(FeeLevel::Fjord)
        } else if self.is_ecotone_active_at_timestamp(ts) {
            Some(FeeLevel::Ecotone)
        } else if self.is_regolith_active_at_timestamp(ts) {
            Some(FeeLevel::Regolith)
        } else if self.is_bedrock_active_at_timestamp(ts) {
            Some(FeeLevel::Bedrock)
        } else {
            None
        }
    }
}

} // verus!
