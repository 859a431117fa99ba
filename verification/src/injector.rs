//! The messages that the node itself sends in every block.
//!
//! Such a message comes from the system address and runs implicitly: the
//! virtual machine checks neither its sequence number nor its fees. That is
//! sound only because the node builds the message itself.

use crate::address::{
    chainmetadata_actor_addr, cron_actor_addr, system_actor_addr, Address, CHAINMETADATA_ACTOR_ID,
    CRON_ACTOR_ID, SYSTEM_ACTOR_ID,
};
use crate::message::{Message, MessageView, TokenAmount};
use vstd::prelude::*;

verus! {

/// The gas that one block may spend.
pub const BLOCK_GAS_LIMIT: u64 = 10_000_000_000;

/// The gas limit of an implicit message: far above any plausible cost, so
/// that the message never runs out of gas.
pub const IMPLICIT_GAS_LIMIT: u64 = 100_000_000_000_000;

/// The method of the cron actor that ticks an epoch.
pub const CRON_EPOCH_TICK: u64 = 2;

/// The method of the chain metadata actor that stores a block hash.
pub const PUSH_BLOCK_HASH: u64 = 2637567345;

/// The message that ticks the cron actor at `height`.
pub open spec fn cron_message_view(height: i64) -> MessageView {
    MessageView {
        version: 0,
        from: Address::Id(SYSTEM_ACTOR_ID),
        to: Address::Id(CRON_ACTOR_ID),
        sequence: height as u64,
        value: TokenAmount { atto: 0 },
        method_num: CRON_EPOCH_TICK,
        params: Seq::empty(),
        gas_limit: IMPLICIT_GAS_LIMIT,
        gas_fee_cap: TokenAmount { atto: 0 },
        gas_premium: TokenAmount { atto: 0 },
    }
}

/// The message that stores the hash of the block at `height`, with the
/// encoded parameters `params`.
pub open spec fn chain_metadata_message_view(height: i64, params: Seq<u8>) -> MessageView {
    MessageView {
        version: 0,
        from: Address::Id(SYSTEM_ACTOR_ID),
        to: Address::Id(CHAINMETADATA_ACTOR_ID),
        sequence: height as u64,
        value: TokenAmount { atto: 0 },
        method_num: PUSH_BLOCK_HASH,
        params,
        gas_limit: IMPLICIT_GAS_LIMIT,
        gas_fee_cap: TokenAmount { atto: 0 },
        gas_premium: TokenAmount { atto: 0 },
    }
}

/// The gas limit given to every implicit message: ten thousand blocks' worth.
pub fn implicit_gas_limit() -> (limit: u64)
    ensures
        limit == IMPLICIT_GAS_LIMIT,
        limit == BLOCK_GAS_LIMIT * 10000,
{
    BLOCK_GAS_LIMIT * 10000
}

/// Builds the cron message of the block at `height`: from the system address
/// to the cron actor, with the height as its sequence number.
pub fn cron_message(height: i64) -> (msg: Message)
    requires
        height >= 0,
    ensures
        msg@ == cron_message_view(height),
{
    Message {
        version: 0,
        from: system_actor_addr(),
        to: cron_actor_addr(),
        sequence: height as u64,
        value: TokenAmount::zero(),
        method_num: CRON_EPOCH_TICK,
        params: Vec::new(),
        gas_limit: implicit_gas_limit(),
        gas_fee_cap: TokenAmount::zero(),
        gas_premium: TokenAmount::zero(),
    }
}

/// Builds the message that stores the hash of the block at `height` in the
/// chain metadata actor. `params` holds the encoded height and hash.
pub fn chain_metadata_message(height: i64, params: Vec<u8>) -> (msg: Message)
    requires
        height >= 0,
    ensures
        msg@ == chain_metadata_message_view(height, params@),
{
    Message {
        version: 0,
        from: system_actor_addr(),
        to: chainmetadata_actor_addr(),
        sequence: height as u64,
        value: TokenAmount::zero(),
        method_num: PUSH_BLOCK_HASH,
        params,
        gas_limit: implicit_gas_limit(),
        gas_fee_cap: TokenAmount::zero(),
        gas_premium: TokenAmount::zero(),
    }
}

/// The DAG-CBOR encoding of the pair of a height and a block hash.
pub uninterp spec fn push_block_params_cbor(epoch: i64, block: Seq<u8>) -> Seq<u8>;

/// Encodes the parameters of the block hash push with
/// `fvm_ipld_encoding::to_vec`, as the two-element tuple of the height and the
/// 32-byte hash. Trusted: the bytes of a successful call are the encoding of
/// that tuple, which depends on nothing but the two values. A failure comes
/// back as the text of the encoder's error.
#[verifier::external_body]
pub(crate) fn encode_push_block_params(epoch: i64, block: &[u8; 32]) -> (encoded: Result<
    Vec<u8>,
    String,
>)
    ensures
        encoded matches Ok(bytes) ==> bytes@ == push_block_params_cbor(epoch, block@),
{
    match fvm_ipld_encoding::to_vec(&(epoch, *block)) {
        Ok(bytes) => Ok(bytes),
        Err(e) => Err(e.to_string()),
    }
}

} // verus!
