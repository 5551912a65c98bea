//! Tests of the receipt-fields pipeline against documented OP Mainnet
//! data and the edge cases of the fee formulas.

use op_receipt::build_op_receipt_meta;
use op_receipt::HardforkSchedule;
use op_receipt::L1Context;
use op_receipt::OpEthApiError;
use op_receipt::OpReceiptFieldsBuilder;
use op_receipt::RawTransaction;
use op_receipt::U256;

/// When OP Mainnet block 124665056 was sealed; Ecotone and Fjord are both
/// active here.
const BLOCK_124665056_TIMESTAMP: u64 = 1724928889;

/// The timestamp-based hardfork activation schedule of OP Mainnet.
fn op_mainnet_schedule() -> HardforkSchedule {
    HardforkSchedule {
        bedrock_time: Some(0),
        regolith_time: Some(0),
        canyon_time: Some(1704992401),
        ecotone_time: Some(1710374401),
        fjord_time: Some(1720627201),
    }
}

/// The envelope encoding of the second transaction of OP Mainnet block
/// 124665056, whose receipt fields are publicly documented; packed here as
/// big-endian 64-bit words.
fn tx_1_op_mainnet_block_124665056() -> Vec<u8> {
    let words: Vec<u64> = vec![
        0x02f904940a8303fb, 0xa78401d6d2798401, 0xdb2b6d830493e094, 0x3e6f4f7866654c18,
        0xf536170780344aa8, 0x772950b680b90424, 0x6a76120200000000, 0x0000000000000000,
        0x087000a300de7200, 0x382b55d400450000, 0x00e5d60e00000000, 0x0000000000000000,
        0x0000000000000000, 0x0000000000000000, 0x0000000000000000, 0x0000000000000000,
        0x0000000000000000, 0x0000000000000000, 0x0000014000000000, 0x0000000000000000,
        0x0000000000000000, 0x0000000000000000, 0x0000000100000000, 0x0000000000000000,
        0x0000000000000000, 0x0000000000000000, 0x0000000000000000, 0x0000000000000000,
        0x0000000000000000, 0x0000000000000000, 0x0000000000000000, 0x0000000000000000,
        0x0000000000000000, 0x0000000000000000, 0x0000000000000000, 0x0000000000000000,
        0x0000000000000000, 0x0000000000000000, 0x0000000000000000, 0x0000000000000000,
        0x0000000000000000, 0x0000000000000000, 0x0000000000000000, 0x0000000000000000,
        0x0000000000000000, 0x0000000000000000, 0x000003a000000000, 0x0000000000000000,
        0x0000000000000000, 0x0000000000000000, 0x0000022482ad56cb, 0x0000000000000000,
        0x0000000000000000, 0x0000000000000000, 0x0000000000000020, 0x0000000000000000,
        0x0000000000000000, 0x0000000000000000, 0x0000000000000002, 0x0000000000000000,
        0x0000000000000000, 0x0000000000000000, 0x0000000000000040, 0x0000000000000000,
        0x0000000000000000, 0x0000000000000000, 0x0000000000000120, 0x0000000000000000,
        0x00000000dc6ff44d, 0x5d932cbd77b52e56, 0x12ba0529dc6226f1, 0x0000000000000000,
        0x0000000000000000, 0x0000000000000000, 0x0000000000000000, 0x0000000000000000,
        0x0000000000000000, 0x0000000000000000, 0x0000000000000060, 0x0000000000000000,
        0x0000000000000000, 0x0000000000000000, 0x0000000000000044, 0x095ea7b300000000,
        0x0000000000000000, 0x21c4928109acb065, 0x9a88ae5329b5374a, 0x3024694c00000000,
        0x0000000000000000, 0x0000000000000000, 0x000000049b9ca9a6, 0x9434000000000000,
        0x0000000000000000, 0x0000000000000000, 0x0000000000000000, 0x0000000000000000,
        0x0000000021c49281, 0x09acb0659a88ae53, 0x29b5374a3024694c, 0x0000000000000000,
        0x0000000000000000, 0x0000000000000000, 0x0000000000000000, 0x0000000000000000,
        0x0000000000000000, 0x0000000000000000, 0x0000000000000060, 0x0000000000000000,
        0x0000000000000000, 0x0000000000000000, 0x0000000000000024, 0xb6b55f2500000000,
        0x0000000000000000, 0x0000000000000000, 0x000000049b9ca9a6, 0x9434000000000000,
        0x0000000000000000, 0x0000000000000000, 0x0000000000000000, 0x0000000000000000,
        0x0000000000000000, 0x0000000000000000, 0x0000000000000000, 0x0000000000000000,
        0x0000000000000000, 0x0000000000000000, 0x000000415ec214a3, 0x950bea839a7e6fbb,
        0x0ba1540ac2076acd, 0x50820e2d5ef83d09, 0x02cdffb24a47aff7, 0xde5190290769c4f0,
        0xa9c6fabf63012986, 0xa0d590b1b571547a, 0x8c7050ea1b000000, 0x0000000000000000,
        0x0000000000000000, 0x0000000000000000, 0x00000000c080a06d, 0xb770e6e25a617fe9,
        0x652f0958bd9bd6e4, 0x9281a53036906386, 0xed39ec48eadf63a0, 0x7f47cf51a4a40b44,
        0x94cf26efc686709a, 0x9b03939e20ee27e5, 0x9682f5faa536667e,
    ];
    let mut bytes = Vec::with_capacity(words.len() * 8);
    for w in words {
        bytes.extend_from_slice(&w.to_be_bytes());
    }
    bytes
}

/// The L1 cost quantities that the system transaction of OP Mainnet block
/// 124665056 carries.
fn block_124665056_l1_context() -> L1Context {
    L1Context {
        l1_base_fee: U256::from_u64(1055991687),
        l1_fee_overhead: None,
        l1_base_fee_scalar: U256::from_u64(5227),
        l1_blob_base_fee: Some(U256::from_u64(1)),
        l1_blob_base_fee_scalar: Some(U256::from_u64(1014213)),
    }
}

#[test]
fn op_receipt_fields_from_block_and_tx() {
    let chain_spec = op_mainnet_schedule();
    let l1_block_info = block_124665056_l1_context();
    let tx_1 = RawTransaction { bytes: tx_1_op_mainnet_block_124665056(), is_deposit: false };

    assert!(chain_spec.is_fjord_active_at_timestamp(BLOCK_124665056_TIMESTAMP));

    let receipt_meta = OpReceiptFieldsBuilder::new(BLOCK_124665056_TIMESTAMP)
        .l1_block_info(&chain_spec, &tx_1, l1_block_info)
        .expect("fjord is active")
        .build();

    let l1_fee_info = receipt_meta.l1_block_info;

    assert_eq!(l1_fee_info.l1_gas_price, Some(1055991687));
    assert_eq!(l1_fee_info.l1_gas_used, Some(4471));
    assert_eq!(l1_fee_info.l1_fee, Some(24681034813));
    assert_eq!(l1_fee_info.l1_fee_scalar, None);
    assert_eq!(l1_fee_info.l1_base_fee_scalar, Some(5227));
    assert_eq!(l1_fee_info.l1_blob_base_fee, Some(1));
    assert_eq!(l1_fee_info.l1_blob_base_fee_scalar, Some(1014213));
    assert_eq!(receipt_meta.deposit_nonce, None);
    assert_eq!(receipt_meta.deposit_receipt_version, None);
}

#[test]
fn full_pipeline_is_deterministic() {
    let chain_spec = op_mainnet_schedule();
    let tx = RawTransaction { bytes: tx_1_op_mainnet_block_124665056(), is_deposit: false };

    let first = build_op_receipt_meta(
        &chain_spec,
        BLOCK_124665056_TIMESTAMP,
        &tx,
        block_124665056_l1_context(),
        None,
        None,
    )
    .expect("fjord is active");
    let second = build_op_receipt_meta(
        &chain_spec,
        BLOCK_124665056_TIMESTAMP,
        &tx,
        block_124665056_l1_context(),
        None,
        None,
    )
    .expect("fjord is active");

    assert_eq!(first, second);
}

#[test]
fn regolith_fee_and_gas_with_overhead() {
    // Regolith active, Ecotone not: data gas is 16 per non-zero byte plus
    // the context's fee overhead, and the fee is
    // (dataGas + overhead) * baseFee * scalar / 1e6.
    let chain_spec = HardforkSchedule {
        bedrock_time: Some(0),
        regolith_time: Some(0),
        canyon_time: None,
        ecotone_time: Some(1000),
        fjord_time: None,
    };
    let ctx = L1Context {
        l1_base_fee: U256::from_u64(1000),
        l1_fee_overhead: Some(U256::from_u64(1000)),
        l1_base_fee_scalar: U256::from_u64(1000),
        l1_blob_base_fee: None,
        l1_blob_base_fee_scalar: None,
    };
    let tx = RawTransaction { bytes: vec![0xfa, 0xca, 0xde], is_deposit: false };

    let meta = build_op_receipt_meta(&chain_spec, 50, &tx, ctx, None, None)
        .expect("regolith is active");

    // Three non-zero bytes cost 48 gas; the overhead adds 1000.
    assert_eq!(meta.l1_block_info.l1_gas_used, Some(1048));
    // The fee multiplies 1048 by the base fee and the scalar, then takes
    // out the scalar's fixed precision denominator: back to 1048.
    assert_eq!(meta.l1_block_info.l1_fee, Some(1048));
    // legacy scalar present pre-Ecotone, in millionths: 1000 = 0.001.
    assert_eq!(meta.l1_block_info.l1_fee_scalar, Some(1000));
    assert_eq!(meta.l1_block_info.l1_gas_price, Some(1000));
    assert_eq!(meta.l1_block_info.l1_base_fee_scalar, Some(1000));
    assert_eq!(meta.l1_block_info.l1_blob_base_fee, None);
    assert_eq!(meta.l1_block_info.l1_blob_base_fee_scalar, None);
}

#[test]
fn bedrock_adds_empty_signature_allowance() {
    // Before Regolith the data gas allows 68 extra non-zero bytes for the
    // empty signature, so the three bytes cost 1136 gas.
    let chain_spec = HardforkSchedule {
        bedrock_time: Some(0),
        regolith_time: Some(100),
        canyon_time: None,
        ecotone_time: None,
        fjord_time: None,
    };
    let ctx = L1Context {
        l1_base_fee: U256::from_u64(1000),
        l1_fee_overhead: Some(U256::from_u64(1000)),
        l1_base_fee_scalar: U256::from_u64(1000),
        l1_blob_base_fee: None,
        l1_blob_base_fee_scalar: None,
    };
    let tx = RawTransaction { bytes: vec![0xfa, 0xca, 0xde], is_deposit: false };

    let meta =
        build_op_receipt_meta(&chain_spec, 50, &tx, ctx, None, None).expect("bedrock is active");

    assert_eq!(meta.l1_block_info.l1_gas_used, Some(1136 + 1000));
    // fee = (1136 + 1000) * 1000 * 1000 / 1e6 = 2136.
    assert_eq!(meta.l1_block_info.l1_fee, Some(2136));
}

#[test]
fn ecotone_blends_both_scalars_and_skips_overhead() {
    // With Ecotone active the fee blends the two scalars, each against its
    // own price, and the legacy overhead no longer joins the data gas even
    // when a context carries one.
    let chain_spec = HardforkSchedule {
        bedrock_time: Some(0),
        regolith_time: Some(0),
        canyon_time: Some(0),
        ecotone_time: Some(10),
        fjord_time: None,
    };
    let ctx = L1Context {
        l1_base_fee: U256::from_u64(1000),
        l1_fee_overhead: Some(U256::from_u64(1000)),
        l1_base_fee_scalar: U256::from_u64(1000),
        l1_blob_base_fee: Some(U256::from_u64(1000)),
        l1_blob_base_fee_scalar: Some(U256::from_u64(1000)),
    };
    let tx = RawTransaction { bytes: vec![0xfa, 0xca, 0xde], is_deposit: false };

    let meta =
        build_op_receipt_meta(&chain_spec, 50, &tx, ctx, None, None).expect("ecotone is active");

    assert_eq!(meta.l1_block_info.l1_fee, Some(51));
    assert_eq!(meta.l1_block_info.l1_gas_used, Some(48));
    assert_eq!(meta.l1_block_info.l1_fee_scalar, None);
    assert_eq!(meta.l1_block_info.l1_base_fee_scalar, Some(1000));
    assert_eq!(meta.l1_block_info.l1_blob_base_fee, Some(1000));
    assert_eq!(meta.l1_block_info.l1_blob_base_fee_scalar, Some(1000));
}

#[test]
fn oversized_context_values_saturate() {
    // A context quantity beyond u128::MAX is clamped to u128::MAX, never
    // wrapped and never an error.
    let chain_spec = op_mainnet_schedule();
    let huge = U256 { limbs: [0, 0, 0, 1] };
    let ctx = L1Context {
        l1_base_fee: huge,
        l1_fee_overhead: None,
        l1_base_fee_scalar: U256::from_u64(1),
        l1_blob_base_fee: Some(huge),
        l1_blob_base_fee_scalar: Some(U256::from_u64(1)),
    };
    let tx = RawTransaction { bytes: vec![0xfa, 0xca, 0xde], is_deposit: false };

    let meta = build_op_receipt_meta(&chain_spec, BLOCK_124665056_TIMESTAMP, &tx, ctx, None, None)
        .expect("fjord is active");

    assert_eq!(meta.l1_block_info.l1_gas_price, Some(u128::MAX));
    assert_eq!(meta.l1_block_info.l1_blob_base_fee, Some(u128::MAX));
    // The fee itself overflows the output width and is clamped too.
    assert_eq!(meta.l1_block_info.l1_fee, Some(u128::MAX));
}

#[test]
fn oversized_overhead_saturates_data_gas() {
    let chain_spec = HardforkSchedule {
        bedrock_time: Some(0),
        regolith_time: Some(0),
        canyon_time: None,
        ecotone_time: None,
        fjord_time: None,
    };
    let ctx = L1Context {
        l1_base_fee: U256::from_u64(0),
        l1_fee_overhead: Some(U256 { limbs: [0, 0, 1, 0] }),
        l1_base_fee_scalar: U256::from_u64(0),
        l1_blob_base_fee: None,
        l1_blob_base_fee_scalar: None,
    };
    let tx = RawTransaction { bytes: vec![0xff], is_deposit: false };

    let meta =
        build_op_receipt_meta(&chain_spec, 50, &tx, ctx, None, None).expect("regolith is active");

    assert_eq!(meta.l1_block_info.l1_gas_used, Some(u128::MAX));
}

#[test]
fn deposit_metadata_passes_through() {
    let chain_spec = op_mainnet_schedule();
    let ctx = block_124665056_l1_context();
    let tx = RawTransaction { bytes: vec![0x7e, 0x01, 0x02], is_deposit: true };

    let meta = build_op_receipt_meta(
        &chain_spec,
        BLOCK_124665056_TIMESTAMP,
        &tx,
        ctx,
        Some(7),
        Some(1),
    )
    .expect("fjord is active");

    assert_eq!(meta.deposit_nonce, Some(7));
    assert_eq!(meta.deposit_receipt_version, Some(1));
    // A deposit pays no L1 data fee.
    assert_eq!(meta.l1_block_info.l1_fee, Some(0));
    // Its data gas is still reported.
    assert!(meta.l1_block_info.l1_gas_used.is_some());
}

#[test]
fn non_deposit_receipt_carries_no_deposit_fields() {
    let chain_spec = op_mainnet_schedule();
    let ctx = block_124665056_l1_context();
    let tx = RawTransaction { bytes: vec![0x02, 0x01], is_deposit: false };

    let meta =
        build_op_receipt_meta(&chain_spec, BLOCK_124665056_TIMESTAMP, &tx, ctx, None, None)
            .expect("fjord is active");

    assert_eq!(meta.deposit_nonce, None);
    assert_eq!(meta.deposit_receipt_version, None);
}

#[test]
fn skipping_l1_context_leaves_fee_fields_unset() {
    let meta = OpReceiptFieldsBuilder::new(1234)
        .deposit_nonce(None)
        .deposit_version(None)
        .build();

    assert_eq!(meta.l1_block_info.l1_gas_price, None);
    assert_eq!(meta.l1_block_info.l1_gas_used, None);
    assert_eq!(meta.l1_block_info.l1_fee, None);
    assert_eq!(meta.l1_block_info.l1_fee_scalar, None);
    assert_eq!(meta.l1_block_info.l1_base_fee_scalar, None);
    assert_eq!(meta.l1_block_info.l1_blob_base_fee, None);
    assert_eq!(meta.l1_block_info.l1_blob_base_fee_scalar, None);
    assert_eq!(meta.deposit_nonce, None);
    assert_eq!(meta.deposit_receipt_version, None);
}

#[test]
fn pre_bedrock_timestamp_is_a_fee_error() {
    let chain_spec = HardforkSchedule {
        bedrock_time: Some(100),
        regolith_time: Some(100),
        canyon_time: None,
        ecotone_time: None,
        fjord_time: None,
    };
    let ctx = block_124665056_l1_context();
    let tx = RawTransaction { bytes: vec![0x02, 0x01], is_deposit: false };

    let r = build_op_receipt_meta(&chain_spec, 50, &tx, ctx, None, None);

    assert_eq!(r, Err(OpEthApiError::L1BlockFeeError));
}

#[test]
fn pre_bedrock_deposit_is_a_gas_error() {
    let chain_spec = HardforkSchedule {
        bedrock_time: Some(100),
        regolith_time: Some(100),
        canyon_time: None,
        ecotone_time: None,
        fjord_time: None,
    };
    let ctx = block_124665056_l1_context();
    let tx = RawTransaction { bytes: vec![0x7e, 0x01], is_deposit: true };

    let r = build_op_receipt_meta(&chain_spec, 50, &tx, ctx, Some(3), None);

    assert_eq!(r, Err(OpEthApiError::L1BlockGasError));
}

#[test]
fn empty_transaction_pays_no_fee() {
    let chain_spec = op_mainnet_schedule();
    let ctx = block_124665056_l1_context();
    let tx = RawTransaction { bytes: Vec::new(), is_deposit: false };

    let meta =
        build_op_receipt_meta(&chain_spec, BLOCK_124665056_TIMESTAMP, &tx, ctx, None, None)
            .expect("fjord is active");

    assert_eq!(meta.l1_block_info.l1_fee, Some(0));
}

#[test]
fn wide_values_narrow_with_clamping() {
    assert_eq!(U256::from_u128(u128::MAX).saturating_to_u128(), u128::MAX);
    assert_eq!(U256::from_u128(12345).saturating_to_u128(), 12345);
    assert_eq!(
        U256 { limbs: [5, 2, 0, 0] }.saturating_to_u128(),
        5 + 2 * 0x1_0000_0000_0000_0000u128
    );
    assert_eq!(U256 { limbs: [0, 0, 1, 0] }.saturating_to_u128(), u128::MAX);
    assert_eq!(U256::zero().saturating_to_u128(), 0);
    assert_eq!(U256::from_u64(7).saturating_to_u128(), 7);
}
