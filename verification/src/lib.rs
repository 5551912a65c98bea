//! Receipt-display metadata for transactions on an OP-stack rollup.
//!
//! Given a snapshot of the L1 cost context carried by a block's system
//! transaction, the activation schedule of the chain's hardforks, and the
//! encoded bytes of a transaction, this crate derives the L1 fee fields that
//! a JSON-RPC transaction receipt reports: the L1 data fee, the L1 data gas,
//! the fee scalars, and the deposit bookkeeping fields.

pub mod hardfork;
pub mod l1fee;
pub mod laws;
pub mod receipt;
pub mod u256;

pub use hardfork::FeeLevel;
pub use hardfork::HardforkSchedule;
pub use l1fee::L1Context;
pub use l1fee::RawTransaction;
pub use receipt::build_op_receipt_meta;
pub use receipt::OpEthApiError;
pub use receipt::OpReceiptFieldsBuilder;
pub use receipt::OpTransactionReceiptFields;
pub use u256::U256;
