//! Laws of the receipt pipeline, stated over the same spec-level model
//! that the executable functions are pinned to.

use vstd::prelude::*;

use crate::hardfork::FeeLevel;
use crate::hardfork::HardforkSchedule;
use crate::l1fee::ecotone_fee_scaled;
use crate::l1fee::ecotone_l1_cost;
use crate::l1fee::opt_value;
use crate::l1fee::rollup_data_gas;
use crate::l1fee::sat256;
use crate::l1fee::L1Context;
use crate::l1fee::RawTransaction;
use crate::receipt::receipt_meta_spec;
use crate::receipt::OpReceiptFieldsBuilder;

verus! {

/// Every byte of an encoding costs at least the zero-byte rate.
pub proof fn lemma_rollup_data_gas_lower_bound(input: Seq<u8>)
    ensures
        rollup_data_gas(input) >= 4 * input.len(),
    decreases input.len(),
{
    if input.len() > 0 {
        lemma_rollup_data_gas_lower_bound(input.drop_last());
    }
}

/// Hardfork branching: at a timestamp where Ecotone is inactive — when the
/// context, as a pre-Ecotone context, carries no blob quantities — the
/// output reports the legacy single fee scalar and no blob fields. At a
/// timestamp where Ecotone is active the legacy scalar is absent, the
/// split base-fee scalar is always present, and each blob field is present
/// exactly when the supplied context carries it.
pub proof fn lemma_hardfork_branching(
    chain_spec: HardforkSchedule,
    block_timestamp: u64,
    ctx: L1Context,
    tx: RawTransaction,
    level: FeeLevel,
    deposit_nonce: Option<u64>,
    deposit_receipt_version: Option<u64>,
)
    requires
        chain_spec.fee_level_spec(block_timestamp) == Some(level),
        !chain_spec.ecotone_active(block_timestamp) ==> ctx.l1_blob_base_fee is None
            && ctx.l1_blob_base_fee_scalar is None,
    ensures
        ({
            let m = receipt_meta_spec(
                chain_spec,
                block_timestamp,
                ctx,
                tx,
                level,
                deposit_nonce,
                deposit_receipt_version,
            );
            &&& !chain_spec.ecotone_active(block_timestamp) ==> m.l1_block_info.l1_fee_scalar
                is Some && m.l1_block_info.l1_blob_base_fee is None
                && m.l1_block_info.l1_blob_base_fee_scalar is None
            &&& chain_spec.ecotone_active(block_timestamp) ==> m.l1_block_info.l1_fee_scalar
                is None && m.l1_block_info.l1_base_fee_scalar is Some
                && (m.l1_block_info.l1_blob_base_fee is Some <==> ctx.l1_blob_base_fee is Some)
                && (m.l1_block_info.l1_blob_base_fee_scalar is Some <==> ctx.l1_blob_base_fee_scalar
                is Some)
        }),
{
}

/// Saturation, not overflow: a context quantity over the output width's
/// maximum comes out as exactly that maximum — here for the L1 base fee,
/// reported as the L1 gas price, for each blob quantity the context
/// carries, and for a legacy overhead large enough to push the data gas
/// past the output width.
pub proof fn lemma_saturating_narrowing(
    chain_spec: HardforkSchedule,
    block_timestamp: u64,
    ctx: L1Context,
    tx: RawTransaction,
    level: FeeLevel,
    deposit_nonce: Option<u64>,
    deposit_receipt_version: Option<u64>,
)
    requires
        chain_spec.fee_level_spec(block_timestamp) == Some(level),
    ensures
        ({
            let m = receipt_meta_spec(
                chain_spec,
                block_timestamp,
                ctx,
                tx,
                level,
                deposit_nonce,
                deposit_receipt_version,
            );
            &&& ctx.l1_base_fee.value() > u128::MAX ==> m.l1_block_info.l1_gas_price == Some(
                u128::MAX,
            )
            &&& ctx.l1_base_fee.value() <= u128::MAX ==> m.l1_block_info.l1_gas_price == Some(
                ctx.l1_base_fee.value() as u128,
            )
            &&& forall|v: crate::u256::U256|
                ctx.l1_blob_base_fee == Some(v) && v.value() > u128::MAX
                    ==> m.l1_block_info.l1_blob_base_fee == Some(u128::MAX)
            &&& forall|v: crate::u256::U256|
                !chain_spec.ecotone_active(block_timestamp) && ctx.l1_fee_overhead == Some(v)
                    && v.value() > u128::MAX ==> m.l1_block_info.l1_gas_used == Some(u128::MAX)
        }),
{
}

/// Saturation reaches the fee itself: with Ecotone's formula in force, an
/// L1 base fee at or above 2^192 — with a positive scalar, a non-deposit
/// transaction and a non-empty encoding that is not deposit-marked —
/// drives the reported fee to exactly `u128::MAX`.
pub proof fn lemma_oversized_base_fee_saturates_fee(
    chain_spec: HardforkSchedule,
    block_timestamp: u64,
    ctx: L1Context,
    tx: RawTransaction,
    deposit_nonce: Option<u64>,
    deposit_receipt_version: Option<u64>,
)
    requires
        chain_spec.fee_level_spec(block_timestamp) == Some(FeeLevel::Ecotone),
        !tx.is_deposit,
        tx.bytes@.len() > 0,
        tx.bytes@[0] != 0x7F,
        ctx.l1_base_fee.value() >= 0x1_0000_0000_0000_0000 * 0x1_0000_0000_0000_0000
            * 0x1_0000_0000_0000_0000,
        ctx.l1_base_fee_scalar.value() >= 1,
    ensures
        receipt_meta_spec(
            chain_spec,
            block_timestamp,
            ctx,
            tx,
            FeeLevel::Ecotone,
            deposit_nonce,
            deposit_receipt_version,
        ).l1_block_info.l1_fee == Some(u128::MAX),
{
    let p192: nat = 0x1_0000_0000_0000_0000 * 0x1_0000_0000_0000_0000 * 0x1_0000_0000_0000_0000;
    let bf = ctx.l1_base_fee.value();
    let bfs = ctx.l1_base_fee_scalar.value();
    let gas = rollup_data_gas(tx.bytes@);
    lemma_rollup_data_gas_lower_bound(tx.bytes@);
    assert(gas >= 4);

    let s1 = sat256(bf * 16);
    assert(s1 >= p192);
    assert(s1 * bfs >= s1) by (nonlinear_arith)
        requires
            bfs >= 1,
            s1 >= 0,
    ;
    let s2 = sat256(s1 * bfs);
    assert(s2 >= p192);
    let fs = ecotone_fee_scaled(
        bf,
        bfs,
        opt_value(ctx.l1_blob_base_fee),
        opt_value(ctx.l1_blob_base_fee_scalar),
    );
    assert(fs >= p192);

    assert(fs * gas >= fs * 4) by (nonlinear_arith)
        requires
            gas >= 4,
            fs >= 0,
    ;
    let total = sat256(fs * gas);
    assert(total >= 4 * p192);

    vstd::arithmetic::div_mod::lemma_div_is_ordered(
        (4 * p192) as int,
        total as int,
        16000000,
    );
    assert(ecotone_l1_cost(gas, fs) > u128::MAX);
}

/// Deposit pass-through: the deposit nonce and deposit receipt version of
/// the output are exactly the values supplied from the source receipt —
/// so a non-deposit receipt, which carries none, yields both absent.
pub proof fn lemma_deposit_passthrough(
    chain_spec: HardforkSchedule,
    block_timestamp: u64,
    ctx: L1Context,
    tx: RawTransaction,
    level: FeeLevel,
    deposit_nonce: Option<u64>,
    deposit_receipt_version: Option<u64>,
)
    ensures
        receipt_meta_spec(
            chain_spec,
            block_timestamp,
            ctx,
            tx,
            level,
            deposit_nonce,
            deposit_receipt_version,
        ).deposit_nonce == deposit_nonce,
        receipt_meta_spec(
            chain_spec,
            block_timestamp,
            ctx,
            tx,
            level,
            deposit_nonce,
            deposit_receipt_version,
        ).deposit_receipt_version == deposit_receipt_version,
{
}

/// Unset on skip: a builder that never absorbs the L1 cost context
/// finalizes, without an error, into a record whose fee-related fields are
/// all absent.
pub proof fn lemma_unset_on_skip(block_timestamp: u64)
    ensures
        ({
            let m = OpReceiptFieldsBuilder::new_spec(block_timestamp).build_spec();
            &&& m.l1_block_info.l1_gas_price is None
            &&& m.l1_block_info.l1_gas_used is None
            &&& m.l1_block_info.l1_fee is None
            &&& m.l1_block_info.l1_fee_scalar is None
            &&& m.l1_block_info.l1_base_fee_scalar is None
            &&& m.l1_block_info.l1_blob_base_fee is None
            &&& m.l1_block_info.l1_blob_base_fee_scalar is None
            &&& m.deposit_nonce is None
            &&& m.deposit_receipt_version is None
        }),
{
}

} // verus!
