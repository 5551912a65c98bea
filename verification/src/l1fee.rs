//! The L1 fee model: the data fee and data gas of a transaction under the
//! fee formula of a given hardfork level.
//!
//! The formulas are consensus code carried out by the `revm` crate, and
//! this module holds the trusted boundary around its two entry points.
//! Up to Ecotone the formulas are short arithmetic over the context
//! quantities and a per-byte cost of the encoding, and the trusted
//! contracts state them exactly, as revm's source gives them. From Fjord
//! onward both formulas run over an estimated compressed size of the
//! encoding, a function of the bytes that takes pages to state; each
//! Fjord result is therefore a named, uninterpreted function of its
//! inputs, and the verified callers' contracts go through the name.

use vstd::prelude::*;

use crate::hardfork::FeeLevel;
use crate::u256::U256;
use revm::primitives::SpecId;
use revm::primitives::U256 as RvmU256;
use revm::L1BlockInfo as RvmL1BlockInfo;

verus! {

/// The L1 cost context of one block, read from the block's first system
/// transaction by an outside extraction step and immutable afterwards.
#[derive(Clone, Copy, Debug)]
pub struct L1Context {
    /// The base fee of the L1 origin block.
    pub l1_base_fee: U256,
    /// The legacy fee overhead; carried only by pre-Ecotone contexts.
    pub l1_fee_overhead: Option<U256>,
    /// The L1 base-fee scalar.
    pub l1_base_fee_scalar: U256,
    /// The L1 blob base fee; carried only by post-Ecotone contexts.
    pub l1_blob_base_fee: Option<U256>,
    /// The L1 blob-base-fee scalar; carried only by post-Ecotone contexts.
    pub l1_blob_base_fee_scalar: Option<U256>,
}

/// The transaction being receipted: its canonical envelope encoding and
/// whether it is a deposit.
#[derive(Clone, Debug)]
pub struct RawTransaction {
    /// The fully-encoded byte form of the transaction.
    pub bytes: Vec<u8>,
    /// Whether the transaction is a deposit.
    pub is_deposit: bool,
}

/// The numeric values of an optional wide quantity.
pub open spec fn opt_value(o: Option<U256>) -> Option<nat> {
    match o {
        Some(v) => Some(v.value()),
        None => None,
    }
}

/// An absent optional quantity counts as zero.
pub open spec fn opt_or_zero(o: Option<nat>) -> nat {
    match o {
        Some(v) => v,
        None => 0,
    }
}

/// Saturation at the 256-bit ceiling: every product and sum in the fee
/// formulas is taken at this width, clamping on overflow.
pub open spec fn sat256(n: nat) -> nat {
    let ceiling: nat = 0x1_0000_0000_0000_0000_0000_0000_0000_0000
        * 0x1_0000_0000_0000_0000_0000_0000_0000_0000;
    if n >= ceiling {
        (ceiling - 1) as nat
    } else {
        n
    }
}

/// The rollup data gas of an encoding before Fjord: each zero byte costs
/// 4 gas and each non-zero byte 16.
pub open spec fn rollup_data_gas(input: Seq<u8>) -> nat
    decreases input.len(),
{
    if input.len() == 0 {
        0
    } else {
        rollup_data_gas(input.drop_last()) + (if input.last() == 0 {
            4nat
        } else {
            16nat
        })
    }
}

/// The L1 data gas under the size formula of `level`. Before Fjord it is
/// the per-byte cost, with an allowance of 68 extra non-zero bytes before
/// Regolith for the empty signature; from Fjord onward it is the named
/// compressed-size result.
pub open spec fn data_gas_spec(input: Seq<u8>, level: FeeLevel) -> nat {
    if level is Fjord {
        fjord_data_gas_of(input)
    } else {
        rollup_data_gas(input) + (if level is Bedrock {
            1088nat
        } else {
            0nat
        })
    }
}

/// The fee formula before Ecotone: data gas plus the legacy overhead,
/// priced by the base fee and the single dynamic scalar, then divided by
/// the scalar's fixed precision denominator.
pub open spec fn bedrock_l1_cost(
    gas: nat,
    fee_overhead: Option<nat>,
    base_fee: nat,
    base_fee_scalar: nat,
) -> nat {
    sat256(sat256(sat256(gas + opt_or_zero(fee_overhead)) * base_fee) * base_fee_scalar)
        / 1000000
}

/// The blended price from Ecotone onward: the base fee weighted sixteen
/// times its scalar, plus the blob base fee weighted its own scalar.
pub open spec fn ecotone_fee_scaled(
    base_fee: nat,
    base_fee_scalar: nat,
    blob_base_fee: Option<nat>,
    blob_base_fee_scalar: Option<nat>,
) -> nat {
    sat256(
        sat256(sat256(base_fee * 16) * base_fee_scalar) + sat256(
            opt_or_zero(blob_base_fee) * opt_or_zero(blob_base_fee_scalar),
        ),
    )
}

/// The fee formula of Ecotone: the blended price times the data gas,
/// divided by the precision denominator and the per-byte cost at once.
pub open spec fn ecotone_l1_cost(gas: nat, fee_scaled: nat) -> nat {
    sat256(fee_scaled * gas) / 16000000
}

/// The L1 data fee under the formula of `level`, as revm computes it: an
/// empty encoding, or one whose first byte is the deposit marker 0x7F, is
/// free; before Fjord the versioned arithmetic above applies; from Fjord
/// onward the fee is the named compressed-size result.
pub open spec fn l1_cost_spec(
    base_fee: nat,
    fee_overhead: Option<nat>,
    base_fee_scalar: nat,
    blob_base_fee: Option<nat>,
    blob_base_fee_scalar: Option<nat>,
    input: Seq<u8>,
    level: FeeLevel,
) -> nat {
    if input.len() == 0 || input[0] == 0x7F {
        0
    } else if level is Fjord {
        fjord_l1_cost_of(base_fee, base_fee_scalar, blob_base_fee, blob_base_fee_scalar, input)
    } else if level is Ecotone {
        ecotone_l1_cost(
            rollup_data_gas(input),
            ecotone_fee_scaled(base_fee, base_fee_scalar, blob_base_fee, blob_base_fee_scalar),
        )
    } else {
        bedrock_l1_cost(
            rollup_data_gas(input) + (if level is Bedrock {
                1088nat
            } else {
                0nat
            }),
            fee_overhead,
            base_fee,
            base_fee_scalar,
        )
    }
}

pub uninterp spec fn fjord_l1_cost_of(
    base_fee: nat,
    base_fee_scalar: nat,
    blob_base_fee: Option<nat>,
    blob_base_fee_scalar: Option<nat>,
    input: Seq<u8>,
) -> nat;

pub uninterp spec fn fjord_data_gas_of(input: Seq<u8>) -> nat;

/// Relies on revm's `L1BlockInfo::calculate_tx_l1_cost`: the L1 data fee
/// in wei of the encoding under the formula of the given fork level, a
/// pure function of the context quantities, the bytes and the level. The
/// context is handed over with its Ecotone scalars marked set, so the
/// first-Ecotone-block fallback is never taken; `fjord_l1_cost_of` names
/// the Fjord branch, `calculate_tx_l1_cost_fjord`. The encoding must stay
/// under 4 GiB: the compressed-size estimate indexes it with 32 bits.
#[verifier::external_body]
pub(crate) fn revm_tx_l1_cost(ctx: &L1Context, input: &Vec<u8>, level: FeeLevel) -> (r: U256)
    requires
        input@.len() < 0x1_0000_0000,
    ensures
        r.value() == l1_cost_spec(
            ctx.l1_base_fee.value(),
            opt_value(ctx.l1_fee_overhead),
            ctx.l1_base_fee_scalar.value(),
            opt_value(ctx.l1_blob_base_fee),
            opt_value(ctx.l1_blob_base_fee_scalar),
            input@,
            level,
        ),
        level is Fjord && input@.len() > 0 && input@[0] != 0x7F ==> r.value()
            == fjord_l1_cost_of(
            ctx.l1_base_fee.value(),
            ctx.l1_base_fee_scalar.value(),
            opt_value(ctx.l1_blob_base_fee),
            opt_value(ctx.l1_blob_base_fee_scalar),
            input@,
        ),
{
    let mut i = RvmL1BlockInfo::default();
    i.l1_base_fee = RvmU256::from_limbs(ctx.l1_base_fee.limbs);
    i.l1_base_fee_scalar = RvmU256::from_limbs(ctx.l1_base_fee_scalar.limbs);
    i.l1_fee_overhead = ctx.l1_fee_overhead.map(|v| RvmU256::from_limbs(v.limbs));
    i.l1_blob_base_fee = ctx.l1_blob_base_fee.map(|v| RvmU256::from_limbs(v.limbs));
    i.l1_blob_base_fee_scalar = ctx.l1_blob_base_fee_scalar.map(|v| RvmU256::from_limbs(v.limbs));
    let s = match level {
        FeeLevel::Bedrock => SpecId::BEDROCK,
        FeeLevel::Regolith => SpecId::REGOLITH,
        FeeLevel::Ecotone => SpecId::ECOTONE,
        FeeLevel::Fjord => SpecId::FJORD,
    };
    U256 { limbs: *i.calculate_tx_l1_cost(input, s).as_limbs() }
}

/// Relies on revm's `L1BlockInfo::data_gas`: the L1 data gas of the
/// encoding under the size formula of the given fork level. Its source
/// reads no field of the receiver, so the result is a pure function of
/// the bytes and the level alone; `fjord_data_gas_of` names its Fjord
/// branch, the scaled compressed-size estimate. The encoding must stay
/// under 4 GiB: the estimate indexes it with 32 bits.
#[verifier::external_body]
pub(crate) fn revm_data_gas(input: &Vec<u8>, level: FeeLevel) -> (r: U256)
    requires
        input@.len() < 0x1_0000_0000,
    ensures
        r.value() == data_gas_spec(input@, level),
        level is Fjord ==> r.value() == fjord_data_gas_of(input@),
{
    let s = match level {
        FeeLevel::Bedrock => SpecId::BEDROCK,
        FeeLevel::Regolith => SpecId::REGOLITH,
        FeeLevel::Ecotone => SpecId::ECOTONE,
        FeeLevel::Fjord => SpecId::FJORD,
    };
    U256 { limbs: *RvmL1BlockInfo::default().data_gas(input, s).as_limbs() }
}

} // verus!
