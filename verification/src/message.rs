//! Messages and what comes back from applying them.

use crate::address::Address;
use std::collections::HashMap;
use vstd::prelude::*;

verus! {

/// An amount of tokens, counted in the smallest unit.
#[derive(Clone, Copy, Debug, PartialEq, Eq, Hash)]
pub struct TokenAmount {
    pub atto: u128,
}

impl TokenAmount {
    /// The amount of no tokens.
    pub fn zero() -> (amount: TokenAmount)
        ensures
            amount == (TokenAmount { atto: 0 }),
    {
        TokenAmount { atto: 0 }
    }

    /// Tells whether this is the amount of no tokens.
    pub fn is_zero(&self) -> (yes: bool)
        ensures
            yes == (self.atto == 0),
    {
        self.atto == 0
    }
}

/// One call against the state of the virtual machine.
#[derive(Clone, Debug, PartialEq, Eq, Hash)]
pub struct Message {
    pub version: u64,
    pub from: Address,
    pub to: Address,
    pub sequence: u64,
    pub value: TokenAmount,
    pub method_num: u64,
    pub params: Vec<u8>,
    pub gas_limit: u64,
    pub gas_fee_cap: TokenAmount,
    pub gas_premium: TokenAmount,
}

/// A message as a mathematical value: the parameters are a sequence of bytes.
pub struct MessageView {
    pub version: u64,
    pub from: Address,
    pub to: Address,
    pub sequence: u64,
    pub value: TokenAmount,
    pub method_num: u64,
    pub params: Seq<u8>,
    pub gas_limit: u64,
    pub gas_fee_cap: TokenAmount,
    pub gas_premium: TokenAmount,
}

impl View for Message {
    type V = MessageView;

    open spec fn view(&self) -> MessageView {
        MessageView {
            version: self.version,
            from: self.from,
            to: self.to,
            sequence: self.sequence,
            value: self.value,
            method_num: self.method_num,
            params: self.params@,
            gas_limit: self.gas_limit,
            gas_fee_cap: self.gas_fee_cap,
            gas_premium: self.gas_premium,
        }
    }
}

/// How a message is run: as the node's own message, free of sequence and fee
/// checks, or as a user's message, subject to both.
#[derive(Clone, Copy, Debug, PartialEq, Eq, Structural)]
pub enum ExecMode {
    Implicit,
    Explicit,
}

/// What applying a message leaves on chain.
#[derive(Clone, Debug, PartialEq, Eq)]
pub struct Receipt {
    pub exit_code: u32,
    pub return_data: Vec<u8>,
    pub gas_used: u64,
}

/// The outcome of applying one message: its receipt and, where the message
/// failed, the description of the failure.
#[derive(Clone, Debug, PartialEq, Eq)]
pub struct ApplyRet {
    pub msg_receipt: Receipt,
    pub failure_info: Option<String>,
}

/// The outcome of a message together with the fields of the message that a
/// caller may no longer have at hand, and the delegated addresses of the
/// actors that emitted events.
#[derive(Clone, Debug, PartialEq, Eq)]
pub struct FvmApplyRet {
    pub apply_ret: ApplyRet,
    pub from: Address,
    pub to: Address,
    pub method_num: u64,
    pub gas_limit: u64,
    pub emitters: HashMap<u64, Address>,
}

impl FvmApplyRet {
    /// Joins the outcome of a message with the message's own fields.
    pub fn new(
        apply_ret: ApplyRet,
        from: Address,
        to: Address,
        method_num: u64,
        gas_limit: u64,
        emitters: HashMap<u64, Address>,
    ) -> (ret: FvmApplyRet)
        ensures
            ret == (FvmApplyRet { apply_ret, from, to, method_num, gas_limit, emitters }),
    {
        FvmApplyRet { apply_ret, from, to, method_num, gas_limit, emitters }
    }
}

} // verus!
