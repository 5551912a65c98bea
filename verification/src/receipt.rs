//! The receipt-fields builder: an accumulation pipeline that derives the
//! L1 fee display fields of one transaction receipt.
//!
//! A builder is created fresh per receipt with the block timestamp, absorbs
//! the L1 cost context (which computes the fee and gas under the formula
//! the timestamp selects), absorbs the deposit metadata, and is consumed by
//! `build` into the immutable output record. Every step takes the builder
//! by value, so a finalized builder cannot be touched again and no
//! partially-applied state can be observed. Each exec step is pinned to a
//! spec-level function of its inputs, so the whole pipeline is a pure
//! function: identical inputs give identical output.

use vstd::prelude::*;

use crate::hardfork::FeeLevel;
use crate::hardfork::HardforkSchedule;
use crate::l1fee::data_gas_spec;
use crate::l1fee::l1_cost_spec;
use crate::l1fee::opt_value;
use crate::l1fee::revm_data_gas;
use crate::l1fee::revm_tx_l1_cost;
use crate::l1fee::L1Context;
use crate::l1fee::RawTransaction;
use crate::u256::clamp_u128;
use crate::u256::saturating_add_to_u128;

verus! {

/// Why the fee fields of one receipt could not be derived. Either way the
/// receipt being built is abandoned whole; no partial output is returned.
#[derive(Clone, Copy, Debug, PartialEq, Eq, Structural)]
pub enum OpEthApiError {
    /// The L1 data-fee formula could not be evaluated: no fee-bearing
    /// hardfork is active at the block timestamp.
    L1BlockFeeError,
    /// The L1 data-gas formula could not be evaluated, on the analogous
    /// condition.
    L1BlockGasError,
}

/// L1 fee and data gas for a non-deposit transaction, or deposit nonce and
/// receipt version for a deposit transaction.
///
/// Fields start unset and are populated monotonically by the builder
/// steps; a field once set is never cleared within one build.
#[derive(Clone, Debug)]
pub struct OpReceiptFieldsBuilder {
    /// Block timestamp.
    pub l1_block_timestamp: u64,
    /// The L1 fee for the transaction, in wei.
    pub l1_fee: Option<u128>,
    /// L1 gas used by the transaction.
    pub l1_data_gas: Option<u128>,
    /// The legacy single fee scalar, in millionths of its display value;
    /// reported only while Ecotone is inactive.
    pub l1_fee_scalar: Option<u128>,
    /// The base fee of the L1 origin block.
    pub l1_base_fee: Option<u128>,
    /// Deposit nonce, if this is a deposit transaction.
    pub deposit_nonce: Option<u64>,
    /// Deposit receipt version, if this is a deposit transaction.
    pub deposit_receipt_version: Option<u64>,
    /// The current L1 base-fee scalar.
    pub l1_base_fee_scalar: Option<u128>,
    /// The current L1 blob base fee.
    pub l1_blob_base_fee: Option<u128>,
    /// The current L1 blob-base-fee scalar.
    pub l1_blob_base_fee_scalar: Option<u128>,
}

/// The L1 fee block of the finalized receipt extension.
#[derive(Clone, Debug, PartialEq, Eq)]
pub struct L1BlockInfoFields {
    /// The L1 base fee, reported as the L1 gas price.
    pub l1_gas_price: Option<u128>,
    /// The L1 data gas, reported as L1 gas used.
    pub l1_gas_used: Option<u128>,
    /// The L1 data fee, in wei.
    pub l1_fee: Option<u128>,
    /// The legacy single fee scalar, in millionths of its display value.
    pub l1_fee_scalar: Option<u128>,
    /// The L1 base-fee scalar.
    pub l1_base_fee_scalar: Option<u128>,
    /// The L1 blob base fee.
    pub l1_blob_base_fee: Option<u128>,
    /// The L1 blob-base-fee scalar.
    pub l1_blob_base_fee_scalar: Option<u128>,
}

/// The finalized, immutable receipt extension: the L1 fee block plus the
/// deposit bookkeeping fields.
#[derive(Clone, Debug, PartialEq, Eq)]
pub struct OpTransactionReceiptFields {
    /// The L1 fee fields.
    pub l1_block_info: L1BlockInfoFields,
    /// Deposit nonce, if this is a deposit transaction.
    pub deposit_nonce: Option<u64>,
    /// Deposit receipt version, if this is a deposit transaction.
    pub deposit_receipt_version: Option<u64>,
}

/// The L1 data fee charged to the transaction: zero for a deposit, else
/// the fee formula of the active level over the context and the bytes.
pub open spec fn fee_value(ctx: L1Context, tx: RawTransaction, level: FeeLevel) -> nat {
    if tx.is_deposit {
        0
    } else {
        l1_cost_spec(
            ctx.l1_base_fee.value(),
            opt_value(ctx.l1_fee_overhead),
            ctx.l1_base_fee_scalar.value(),
            opt_value(ctx.l1_blob_base_fee),
            opt_value(ctx.l1_blob_base_fee_scalar),
            tx.bytes@,
            level,
        )
    }
}

/// The L1 data gas charged to the transaction: the size formula of the
/// active level, plus — while Ecotone is inactive — the legacy fee
/// overhead the context carries.
pub open spec fn gas_value(ctx: L1Context, tx: RawTransaction, level: FeeLevel, ecotone: bool) -> nat {
    data_gas_spec(tx.bytes@, level) + (if !ecotone {
        match opt_value(ctx.l1_fee_overhead) {
            Some(v) => v,
            None => 0nat,
        }
    } else {
        0nat
    })
}

impl OpReceiptFieldsBuilder {
    /// The builder a fresh create yields: timestamp stored, every other
    /// field unset.
    pub open spec fn new_spec(block_timestamp: u64) -> OpReceiptFieldsBuilder {
        OpReceiptFieldsBuilder {
            l1_block_timestamp: block_timestamp,
            l1_fee: None,
            l1_data_gas: None,
            l1_fee_scalar: None,
            l1_base_fee: None,
            deposit_nonce: None,
            deposit_receipt_version: None,
            l1_base_fee_scalar: None,
            l1_blob_base_fee: None,
            l1_blob_base_fee_scalar: None,
        }
    }

    /// The builder after the L1 cost context is absorbed at fee level
    /// `level`: fee and gas set from the formulas, the legacy scalar set
    /// only while Ecotone is inactive, the context quantities narrowed to
    /// the output width with clamping, and the blob fields carried over
    /// exactly when the context carries them.
    pub open spec fn l1_info_spec(
        self,
        chain_spec: HardforkSchedule,
        ctx: L1Context,
        tx: RawTransaction,
        level: FeeLevel,
    ) -> OpReceiptFieldsBuilder {
        let ecotone = chain_spec.ecotone_active(self.l1_block_timestamp);
        OpReceiptFieldsBuilder {
            l1_block_timestamp: self.l1_block_timestamp,
            l1_fee: Some(clamp_u128(fee_value(ctx, tx, level))),
            l1_data_gas: Some(clamp_u128(gas_value(ctx, tx, level, ecotone))),
            l1_fee_scalar: if !ecotone {
                Some(clamp_u128(ctx.l1_base_fee_scalar.value()))
            } else {
                None
            },
            l1_base_fee: Some(clamp_u128(ctx.l1_base_fee.value())),
            deposit_nonce: self.deposit_nonce,
            deposit_receipt_version: self.deposit_receipt_version,
            l1_base_fee_scalar: Some(clamp_u128(ctx.l1_base_fee_scalar.value())),
            l1_blob_base_fee: match ctx.l1_blob_base_fee {
                Some(v) => Some(clamp_u128(v.value())),
                None => None,
            },
            l1_blob_base_fee_scalar: match ctx.l1_blob_base_fee_scalar {
                Some(v) => Some(clamp_u128(v.value())),
                None => None,
            },
        }
    }

    /// The record `build` projects out of a builder.
    pub open spec fn build_spec(self) -> OpTransactionReceiptFields {
        OpTransactionReceiptFields {
            l1_block_info: L1BlockInfoFields {
                l1_gas_price: self.l1_base_fee,
                l1_gas_used: self.l1_data_gas,
                l1_fee: self.l1_fee,
                l1_fee_scalar: self.l1_fee_scalar,
                l1_base_fee_scalar: self.l1_base_fee_scalar,
                l1_blob_base_fee: self.l1_blob_base_fee,
                l1_blob_base_fee_scalar: self.l1_blob_base_fee_scalar,
            },
            deposit_nonce: self.deposit_nonce,
            deposit_receipt_version: self.deposit_receipt_version,
        }
    }

    /// Returns a new builder for the block at `block_timestamp`.
    pub fn new(block_timestamp: u64) -> (r: Self)
        ensures
            r == Self::new_spec(block_timestamp),
    {
        OpReceiptFieldsBuilder {
            l1_block_timestamp: block_timestamp,
            l1_fee: None,
            l1_data_gas: None,
            l1_fee_scalar: None,
            l1_base_fee: None,
            deposit_nonce: None,
            deposit_receipt_version: None,
            l1_base_fee_scalar: None,
            l1_blob_base_fee: None,
            l1_blob_base_fee_scalar: None,
        }
    }

    /// Absorbs the L1 cost context: computes the L1 fee and data gas under
    /// the formula the timestamp selects and populates every fee-related
    /// field. The encoding must stay under 4 GiB, the reach of the size
    /// formulas' 32-bit indexing. Fails — abandoning the builder — exactly when no fee-bearing
    /// hardfork is active at the timestamp: for a non-deposit transaction
    /// the fee formula fails first, for a deposit the fee is zero without
    /// a formula and the gas formula fails instead.
    pub fn l1_block_info(
        self,
        chain_spec: &HardforkSchedule,
        tx: &RawTransaction,
        l1_block_info: L1Context,
    ) -> (r: Result<OpReceiptFieldsBuilder, OpEthApiError>)
        requires
            tx.bytes@.len() < 0x1_0000_0000,
        ensures
            (match chain_spec.fee_level_spec(self.l1_block_timestamp) {
                Some(level) => r == Ok::<OpReceiptFieldsBuilder, OpEthApiError>(
                    self.l1_info_spec(*chain_spec, l1_block_info, *tx, level),
                ),
                None => r == Err::<OpReceiptFieldsBuilder, OpEthApiError>(
                    if tx.is_deposit {
                        OpEthApiError::L1BlockGasError
                    } else {
                        OpEthApiError::L1BlockFeeError
                    },
                ),
            }),
    {
        let timestamp = self.l1_block_timestamp;
        match chain_spec.fee_level(timestamp) {
            None => {
                if tx.is_deposit {
                    Err(OpEthApiError::L1BlockGasError)
                } else {
                    Err(OpEthApiError::L1BlockFeeError)
                }
            },
            Some(level) => {
                let ecotone = chain_spec.is_ecotone_active_at_timestamp(timestamp);
                let mut b = self;
                b.l1_fee = Some(
                    if tx.is_deposit {
                        0u128
                    } else {
                        revm_tx_l1_cost(&l1_block_info, &tx.bytes, level).saturating_to_u128()
                    },
                );
                let gas_raw = revm_data_gas(&tx.bytes, level);
                b.l1_data_gas = Some(
                    match &l1_block_info.l1_fee_overhead {
                        Some(overhead) if !ecotone => saturating_add_to_u128(&gas_raw, overhead),
                        _ => gas_raw.saturating_to_u128(),
                    },
                );
                b.l1_fee_scalar = if !ecotone {
                    Some(l1_block_info.l1_base_fee_scalar.saturating_to_u128())
                } else {
                    None
                };
                b.l1_base_fee = Some(l1_block_info.l1_base_fee.saturating_to_u128());
                b.l1_base_fee_scalar = Some(l1_block_info.l1_base_fee_scalar.saturating_to_u128());
                b.l1_blob_base_fee = match &l1_block_info.l1_blob_base_fee {
                    Some(v) => Some(v.saturating_to_u128()),
                    None => None,
                };
                b.l1_blob_base_fee_scalar = match &l1_block_info.l1_blob_base_fee_scalar {
                    Some(v) => Some(v.saturating_to_u128()),
                    None => None,
                };
                Ok(b)
            },
        }
    }

    /// Applies deposit transaction metadata: deposit nonce. The value is
    /// copied as given; a non-deposit receipt carries none.
    pub fn deposit_nonce(self, nonce: Option<u64>) -> (r: Self)
        ensures
            r.deposit_nonce == nonce,
            r.l1_block_timestamp == self.l1_block_timestamp,
            r.l1_fee == self.l1_fee,
            r.l1_data_gas == self.l1_data_gas,
            r.l1_fee_scalar == self.l1_fee_scalar,
            r.l1_base_fee == self.l1_base_fee,
            r.deposit_receipt_version == self.deposit_receipt_version,
            r.l1_base_fee_scalar == self.l1_base_fee_scalar,
            r.l1_blob_base_fee == self.l1_blob_base_fee,
            r.l1_blob_base_fee_scalar == self.l1_blob_base_fee_scalar,
    {
        let mut b = self;
        b.deposit_nonce = nonce;
        b
    }

    /// Applies deposit transaction metadata: deposit receipt version. The
    /// value is copied as given; a non-deposit receipt carries none.
    pub fn deposit_version(self, version: Option<u64>) -> (r: Self)
        ensures
            r.deposit_receipt_version == version,
            r.l1_block_timestamp == self.l1_block_timestamp,
            r.l1_fee == self.l1_fee,
            r.l1_data_gas == self.l1_data_gas,
            r.l1_fee_scalar == self.l1_fee_scalar,
            r.l1_base_fee == self.l1_base_fee,
            r.deposit_nonce == self.deposit_nonce,
            r.l1_base_fee_scalar == self.l1_base_fee_scalar,
            r.l1_blob_base_fee == self.l1_blob_base_fee,
            r.l1_blob_base_fee_scalar == self.l1_blob_base_fee_scalar,
    {
        let mut b = self;
        b.deposit_receipt_version = version;
        b
    }

    /// Consumes the builder into the finalized record. Skipping the L1
    /// context step beforehand is not an error: the fee fields then come
    /// out absent.
    pub fn build(self) -> (r: OpTransactionReceiptFields)
        ensures
            r == self.build_spec(),
    {
        OpTransactionReceiptFields {
            l1_block_info: L1BlockInfoFields {
                l1_gas_price: self.l1_base_fee,
                l1_gas_used: self.l1_data_gas,
                l1_fee: self.l1_fee,
                l1_fee_scalar: self.l1_fee_scalar,
                l1_base_fee_scalar: self.l1_base_fee_scalar,
                l1_blob_base_fee: self.l1_blob_base_fee,
                l1_blob_base_fee_scalar: self.l1_blob_base_fee_scalar,
            },
            deposit_nonce: self.deposit_nonce,
            deposit_receipt_version: self.deposit_receipt_version,
        }
    }
}

/// The finalized record of the whole pipeline run at fee level `level`:
/// timestamp set, context absorbed, deposit metadata applied, built.
pub open spec fn receipt_meta_spec(
    chain_spec: HardforkSchedule,
    block_timestamp: u64,
    ctx: L1Context,
    tx: RawTransaction,
    level: FeeLevel,
    deposit_nonce: Option<u64>,
    deposit_receipt_version: Option<u64>,
) -> OpTransactionReceiptFields {
    let b = OpReceiptFieldsBuilder::new_spec(block_timestamp).l1_info_spec(chain_spec, ctx, tx, level);
    OpTransactionReceiptFields {
        l1_block_info: L1BlockInfoFields {
            l1_gas_price: b.l1_base_fee,
            l1_gas_used: b.l1_data_gas,
            l1_fee: b.l1_fee,
            l1_fee_scalar: b.l1_fee_scalar,
            l1_base_fee_scalar: b.l1_base_fee_scalar,
            l1_blob_base_fee: b.l1_blob_base_fee,
            l1_blob_base_fee_scalar: b.l1_blob_base_fee_scalar,
        },
        deposit_nonce: deposit_nonce,
        deposit_receipt_version: deposit_receipt_version,
    }
}

/// Runs the whole pipeline at once: builds the receipt extension for one
/// transaction from the hardfork schedule, the block timestamp, the L1
/// cost context and the receipt's deposit metadata.
pub fn build_op_receipt_meta(
    chain_spec: &HardforkSchedule,
    block_timestamp: u64,
    tx: &RawTransaction,
    l1_block_info: L1Context,
    deposit_nonce: Option<u64>,
    deposit_receipt_version: Option<u64>,
) -> (r: Result<OpTransactionReceiptFields, OpEthApiError>)
    requires
        tx.bytes@.len() < 0x1_0000_0000,
    ensures
        (match chain_spec.fee_level_spec(block_timestamp) {
            Some(level) => r == Ok::<OpTransactionReceiptFields, OpEthApiError>(
                receipt_meta_spec(
                    *chain_spec,
                    block_timestamp,
                    l1_block_info,
                    *tx,
                    level,
                    deposit_nonce,
                    deposit_receipt_version,
                ),
            ),
            None => r == Err::<OpTransactionReceiptFields, OpEthApiError>(
                if tx.is_deposit {
                    OpEthApiError::L1BlockGasError
                } else {
                    OpEthApiError::L1BlockFeeError
                },
            ),
        }),
{
    let b = OpReceiptFieldsBuilder::new(block_timestamp);
    let b = match b.l1_block_info(chain_spec, tx, l1_block_info) {
        Ok(b) => b,
        Err(e) => {
            return Err(e);
        },
    };
    Ok(b.deposit_nonce(deposit_nonce).deposit_version(deposit_receipt_version).build())
}

} // verus!
