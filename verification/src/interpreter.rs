//! The execution of one block: begin, deliver, end.
//!
//! The virtual machine and the upgrade scheduler belong to the runtime. The
//! interpreter therefore never runs a message itself. Each call takes the
//! state of the block and one input, and hands back the next state and one
//! action. The runtime performs the action and comes back with its outcome
//! as the next input.
//!
//! A block goes through its phases in one order only: the upgrade that may be
//! scheduled for its height, the cron message, the push of the block hash
//! where that is enabled, then the delivered messages one by one. An input
//! that does not fit the phase, and every failure of an implicit message,
//! halts the block for good. The failure of a user's message is no fault of
//! the interpreter: it is part of the receipt that comes back.

use crate::address::{Address, CRON_ACTOR_ID, SYSTEM_ACTOR_ID};
use crate::broadcast::{by_height_of_ordered, ordered, BroadcastView, SignatureBroadcast};
use crate::checkpoint::{
    byte_strings, checkpoint_error_text, created, fresh_checkpoint_is_unsigned, has_checkpoint,
    is_due, one_checkpoint_per_height, power_view, unsigned, unsigned_by_height,
    well_formed_ledger, Checkpoint, CheckpointError, CheckpointLedger, CheckpointView,
    GatewaySnapshot, LedgerView,
};
use crate::injector::{
    chain_metadata_message, chain_metadata_message_view, cron_message, cron_message_view,
    encode_push_block_params, implicit_gas_limit, push_block_params_cbor, CRON_EPOCH_TICK,
    IMPLICIT_GAS_LIMIT,
};
use crate::message::{ApplyRet, ExecMode, FvmApplyRet, Message, MessageView};
use crate::validator::{well_formed_table, PowerUpdates, Validator, ValidatorContext};
use std::collections::HashMap;
use vstd::prelude::*;

verus! {

/// The settings of the interpreter, fixed when the node starts.
#[derive(Clone, Copy, Debug, PartialEq, Eq)]
pub struct FvmMessageInterpreter {
    /// Present on a node that signs checkpoints.
    pub validator_ctx: Option<ValidatorContext>,
    /// Whether each block's hash is pushed to the chain metadata actor.
    pub push_chain_meta: bool,
}

/// The fields of a delivered message that its output restates.
#[derive(Clone, Copy, Debug, PartialEq, Eq)]
pub struct PendingDelivery {
    pub from: Address,
    pub to: Address,
    pub method_num: u64,
    pub gas_limit: u64,
}

/// Where the execution of a block stands.
#[derive(Clone, Debug, PartialEq, Eq)]
pub enum Phase {
    /// Nothing has happened yet.
    BlockStart,
    /// The runtime was asked to apply the upgrade of this height, if any.
    Upgrade,
    /// The cron message is with the virtual machine.
    Cron,
    /// The block hash push is with the virtual machine. The outcome of the
    /// cron message waits here to become the output of `begin`.
    ChainMetaPush(FvmApplyRet),
    /// `begin` is done; messages may be delivered and the block may end.
    ReadyForDelivery,
    /// A delivered message is with the virtual machine.
    Delivering(PendingDelivery),
    /// The block has ended.
    End,
    /// The block was aborted.
    Halted,
}

/// The state of the block under execution, as far as the interpreter reads
/// or changes it.
#[derive(Clone, Debug, PartialEq, Eq)]
pub struct ExecState {
    pub chain_id: u64,
    pub block_height: i64,
    pub block_hash: Option<[u8; 32]>,
    pub app_version: u64,
    pub phase: Phase,
}

/// What the runtime reports of the upgrade scheduled for a height.
#[derive(Clone, Debug, PartialEq, Eq)]
pub enum UpgradeOutcome {
    /// No upgrade is scheduled for this chain and height.
    NotScheduled,
    /// The migration ran; it may have set a new application version.
    Migrated(Option<u64>),
    /// The migration failed.
    Failed(String),
}

/// What the virtual machine hands back for one message.
#[derive(Clone, Debug, PartialEq, Eq)]
pub struct Applied {
    pub apply_ret: ApplyRet,
    /// Delegated addresses of the actors that emitted events.
    pub emitters: HashMap<u64, Address>,
}

/// What can reach the interpreter while a block is open.
#[derive(Debug, PartialEq, Eq)]
pub enum Input {
    /// The consensus layer opens the block.
    Begin,
    /// The outcome of `Action::ApplyUpgrade`.
    Upgrade(UpgradeOutcome),
    /// The outcome of `Action::Execute`: the result of the message, or the
    /// reason why the virtual machine could not run it at all.
    Executed(Result<Applied, String>),
    /// The consensus layer delivers the next message of the block.
    Deliver(Message),
}

/// Why a block was aborted. None of these can be recovered from: the state
/// may be partly applied and must not be kept.
#[derive(Clone, Debug, PartialEq, Eq)]
pub enum FatalError {
    /// The migration scheduled for this height failed.
    UpgradeFailed(String),
    /// The virtual machine could not run a message at all.
    ExecutionFailed(String),
    /// The cron message was applied and failed.
    CronFailed(String),
    /// The block hash push was applied and failed.
    ChainMetadataFailed(String),
    /// The parameters of the block hash push could not be encoded.
    Encoding(String),
    /// A checkpoint was due and could not be made.
    CheckpointFailed(CheckpointError),
    /// The input does not fit the phase that the block is in.
    OutOfOrder,
}

/// What a reader is told of a block that was aborted.
pub open spec fn fatal_error_text(error: FatalError) -> Seq<char> {
    match error {
        FatalError::UpgradeFailed(reason) => "upgrade failed: "@ + reason@,
        FatalError::ExecutionFailed(reason) => reason@,
        FatalError::CronFailed(info) => "failed to apply block cron message: "@ + info@,
        FatalError::ChainMetadataFailed(info) => "failed to apply chainmetadata message: "@
            + info@,
        FatalError::Encoding(reason) => reason@,
        FatalError::CheckpointFailed(error) => "failed to create checkpoint: "@
            + checkpoint_error_text(error),
        FatalError::OutOfOrder => "the call does not fit the phase of the block"@,
    }
}

impl FatalError {
    /// Says in words why the block was aborted.
    pub fn message(&self) -> (text: String)
        ensures
            text@ == fatal_error_text(*self),
    {
        match self {
            FatalError::UpgradeFailed(reason) => String::from_str("upgrade failed: ").concat(
                reason.as_str(),
            ),
            FatalError::ExecutionFailed(reason) => reason.clone(),
            FatalError::CronFailed(info) => String::from_str(
                "failed to apply block cron message: ",
            ).concat(info.as_str()),
            FatalError::ChainMetadataFailed(info) => String::from_str(
                "failed to apply chainmetadata message: ",
            ).concat(info.as_str()),
            FatalError::Encoding(reason) => reason.clone(),
            FatalError::CheckpointFailed(error) => {
                let cause = error.message();
                String::from_str("failed to create checkpoint: ").concat(cause.as_str())
            },
            FatalError::OutOfOrder => String::from_str(
                "the call does not fit the phase of the block",
            ),
        }
    }
}

/// What is recorded of every delivered message.
#[derive(Clone, Copy, Debug, PartialEq, Eq)]
pub struct DeliveryRecord {
    pub height: i64,
    pub from: Address,
    pub to: Address,
    pub method_num: u64,
    pub exit_code: u32,
    pub gas_used: u64,
}

/// What the runtime is asked to do next, or told.
#[derive(Clone, Debug, PartialEq, Eq)]
pub enum Action {
    /// Look up the upgrade scheduled for this chain and height and, if there
    /// is one, run its migration. Answer with `Input::Upgrade`.
    ApplyUpgrade { chain_id: u64, height: u64 },
    /// Run this message in this mode. Answer with `Input::Executed`.
    Execute { mode: ExecMode, message: Message },
    /// `begin` is complete: this is its output.
    Begun(FvmApplyRet),
    /// A delivery is complete: its output, and the record to emit.
    Delivered(FvmApplyRet, DeliveryRecord),
    /// The block is aborted.
    Halt(FatalError),
}

/// An action as a mathematical value.
pub enum ActionView {
    ApplyUpgrade { chain_id: u64, height: u64 },
    Execute { mode: ExecMode, message: MessageView },
    Begun(FvmApplyRet),
    Delivered(FvmApplyRet, DeliveryRecord),
    Halt(FatalError),
}

impl View for Action {
    type V = ActionView;

    open spec fn view(&self) -> ActionView {
        match *self {
            Action::ApplyUpgrade { chain_id, height } => ActionView::ApplyUpgrade {
                chain_id,
                height,
            },
            Action::Execute { mode, message } => ActionView::Execute { mode, message: message@ },
            Action::Begun(ret) => ActionView::Begun(ret),
            Action::Delivered(ret, record) => ActionView::Delivered(ret, record),
            Action::Halt(error) => ActionView::Halt(error),
        }
    }
}

/// What the end of a block hands out.
#[derive(Debug, PartialEq, Eq)]
pub struct EndOutput {
    /// The changes to the validators' power, for the consensus layer.
    pub power_updates: PowerUpdates,
    /// The checkpoint that was made, for the runtime to store in the
    /// gateway.
    pub checkpoint: Option<Checkpoint>,
    /// The broadcast of this validator's signatures, for the runtime to run
    /// in the background.
    pub broadcast: Option<SignatureBroadcast>,
}

/// The output of the end of a block as a mathematical value.
pub struct EndOutputView {
    pub power_updates: Seq<Validator>,
    pub checkpoint: Option<CheckpointView>,
    pub broadcast: Option<BroadcastView>,
}

impl View for EndOutput {
    type V = EndOutputView;

    open spec fn view(&self) -> EndOutputView {
        EndOutputView {
            power_updates: self.power_updates@,
            checkpoint: match self.checkpoint {
                Some(checkpoint) => Some(checkpoint@),
                None => None,
            },
            broadcast: match self.broadcast {
                Some(broadcast) => Some(broadcast@),
                None => None,
            },
        }
    }
}

/// The state `s` in another phase.
pub open spec fn in_phase(s: ExecState, phase: Phase) -> ExecState {
    ExecState { phase, ..s }
}

/// The block is aborted with `error`.
pub open spec fn halt(s: ExecState, error: FatalError) -> (ExecState, ActionView) {
    (in_phase(s, Phase::Halted), ActionView::Halt(error))
}

/// The output of `begin`: the outcome of the cron message, with the fields
/// of that message.
pub open spec fn cron_output(done: Applied) -> FvmApplyRet {
    FvmApplyRet {
        apply_ret: done.apply_ret,
        from: Address::Id(SYSTEM_ACTOR_ID),
        to: Address::Id(CRON_ACTOR_ID),
        method_num: CRON_EPOCH_TICK,
        gas_limit: IMPLICIT_GAS_LIMIT,
        emitters: done.emitters,
    }
}

/// The output of a delivery: the outcome of the message, with the fields of
/// the message that was delivered.
pub open spec fn delivery_output(pending: PendingDelivery, done: Applied) -> FvmApplyRet {
    FvmApplyRet {
        apply_ret: done.apply_ret,
        from: pending.from,
        to: pending.to,
        method_num: pending.method_num,
        gas_limit: pending.gas_limit,
        emitters: done.emitters,
    }
}

/// The record of a delivery.
pub open spec fn delivery_record(height: i64, pending: PendingDelivery, done: Applied)
    -> DeliveryRecord {
    DeliveryRecord {
        height,
        from: pending.from,
        to: pending.to,
        method_num: pending.method_num,
        exit_code: done.apply_ret.msg_receipt.exit_code,
        gas_used: done.apply_ret.msg_receipt.gas_used,
    }
}

/// The mode in which a delivered message runs: implicitly if and only if it
/// comes from the system address.
pub open spec fn delivery_mode(from: Address) -> ExecMode {
    if from.is_system() {
        ExecMode::Implicit
    } else {
        ExecMode::Explicit
    }
}

/// Whether the block hash is to be pushed once the cron message has
/// succeeded: the push is enabled and the hash is known.
pub open spec fn push_is_due(cfg: FvmMessageInterpreter, s: ExecState) -> bool {
    cfg.push_chain_meta && s.block_hash is Some
}

/// Whether the step from `s` on `input` needs the encoded parameters of the
/// block hash push.
pub open spec fn needs_encoding(cfg: FvmMessageInterpreter, s: ExecState, input: Input) -> bool {
    &&& s.phase is Cron
    &&& input matches Input::Executed(Ok(done))
    &&& done.apply_ret.failure_info is None
    &&& push_is_due(cfg, s)
}

/// The step after the upgrade: a failed migration aborts the block; otherwise
/// the application version is the one that the migration set, if it set one,
/// and the cron message goes out.
pub open spec fn after_upgrade(s: ExecState, outcome: UpgradeOutcome) -> (ExecState, ActionView) {
    let cron = ActionView::Execute {
        mode: ExecMode::Implicit,
        message: cron_message_view(s.block_height),
    };
    match outcome {
        UpgradeOutcome::Failed(reason) => halt(s, FatalError::UpgradeFailed(reason)),
        UpgradeOutcome::Migrated(Some(version)) => (
            ExecState { app_version: version, phase: Phase::Cron, ..s },
            cron,
        ),
        _ => (in_phase(s, Phase::Cron), cron),
    }
}

/// The step after the cron message: any failure aborts the block. On success
/// the block hash push goes out where it is due, with the parameters in
/// `encoded`; where it is not, `begin` is complete.
pub open spec fn after_cron(
    cfg: FvmMessageInterpreter,
    s: ExecState,
    result: Result<Applied, String>,
    encoded: Option<Result<Seq<u8>, String>>,
) -> (ExecState, ActionView) {
    match result {
        Err(reason) => halt(s, FatalError::ExecutionFailed(reason)),
        Ok(done) => match done.apply_ret.failure_info {
            Some(info) => halt(s, FatalError::CronFailed(info)),
            None => if push_is_due(cfg, s) {
                match encoded {
                    Some(Ok(params)) => (
                        in_phase(s, Phase::ChainMetaPush(cron_output(done))),
                        ActionView::Execute {
                            mode: ExecMode::Implicit,
                            message: chain_metadata_message_view(s.block_height, params),
                        },
                    ),
                    Some(Err(reason)) => halt(s, FatalError::Encoding(reason)),
                    None => halt(s, FatalError::OutOfOrder),
                }
            } else {
                (in_phase(s, Phase::ReadyForDelivery), ActionView::Begun(cron_output(done)))
            },
        },
    }
}

/// The step after the block hash push: any failure aborts the block; on
/// success `begin` is complete, and its output is that of the cron message.
pub open spec fn after_chain_meta(s: ExecState, cron: FvmApplyRet, result: Result<Applied, String>)
    -> (ExecState, ActionView) {
    match result {
        Err(reason) => halt(s, FatalError::ExecutionFailed(reason)),
        Ok(done) => match done.apply_ret.failure_info {
            Some(info) => halt(s, FatalError::ChainMetadataFailed(info)),
            None => (in_phase(s, Phase::ReadyForDelivery), ActionView::Begun(cron)),
        },
    }
}

/// The step after a delivered message has run: only a virtual machine that
/// could not run the message aborts the block. Whatever the receipt says,
/// the delivery is complete.
pub open spec fn after_delivery(
    s: ExecState,
    pending: PendingDelivery,
    result: Result<Applied, String>,
) -> (ExecState, ActionView) {
    match result {
        Err(reason) => halt(s, FatalError::ExecutionFailed(reason)),
        Ok(done) => (
            in_phase(s, Phase::ReadyForDelivery),
            ActionView::Delivered(
                delivery_output(pending, done),
                delivery_record(s.block_height, pending, done),
            ),
        ),
    }
}

/// The interpreter's one rule: the state and the action that follow from a
/// state and an input. `encoded` holds the encoded parameters of the block
/// hash push, for the one step that needs them.
pub open spec fn next(
    cfg: FvmMessageInterpreter,
    s: ExecState,
    input: Input,
    encoded: Option<Result<Seq<u8>, String>>,
) -> (ExecState, ActionView) {
    match (s.phase, input) {
        (Phase::BlockStart, Input::Begin) => (
            in_phase(s, Phase::Upgrade),
            ActionView::ApplyUpgrade { chain_id: s.chain_id, height: s.block_height as u64 },
        ),
        (Phase::Upgrade, Input::Upgrade(outcome)) => after_upgrade(s, outcome),
        (Phase::Cron, Input::Executed(result)) => after_cron(cfg, s, result, encoded),
        (Phase::ChainMetaPush(cron), Input::Executed(result)) => after_chain_meta(s, cron, result),
        (Phase::ReadyForDelivery, Input::Deliver(message)) => (
            in_phase(
                s,
                Phase::Delivering(
                    PendingDelivery {
                        from: message.from,
                        to: message.to,
                        method_num: message.method_num,
                        gas_limit: message.gas_limit,
                    },
                ),
            ),
            ActionView::Execute { mode: delivery_mode(message.from), message: message@ },
        ),
        (Phase::Delivering(pending), Input::Executed(result)) => after_delivery(s, pending, result),
        _ => halt(s, FatalError::OutOfOrder),
    }
}

/// The outcome of the end of a block as a mathematical value.
pub open spec fn end_view(out: Result<EndOutput, FatalError>) -> Result<EndOutputView, FatalError> {
    match out {
        Ok(output) => Ok(output@),
        Err(error) => Err(error),
    }
}

/// Whether a block in this phase can end: one that is ready for delivery,
/// and one that has ended already.
pub open spec fn can_end(phase: Phase) -> bool {
    phase is ReadyForDelivery || phase is End
}

/// The end of a block: what becomes of the state and of the ledger, and
/// what is handed out.
///
/// Only a block that is ready for delivery can end; a block that has ended
/// can end again, which makes no second checkpoint. The ledger makes the
/// checkpoint of the block's height if one is due; a due checkpoint that
/// cannot be made aborts the block. Without a new checkpoint there are no
/// power updates. With one, the updates are those that came with it, and a
/// node that signs checkpoints and is not catching up gets the broadcast of
/// its signatures under every checkpoint that still awaits them.
pub open spec fn ended(
    cfg: FvmMessageInterpreter,
    s: ExecState,
    l: LedgerView,
    state_commitment: Seq<u8>,
    msgs: Seq<Seq<u8>>,
    power: Option<Seq<Validator>>,
    syncing: bool,
) -> (ExecState, LedgerView, Result<EndOutputView, FatalError>) {
    if !can_end(s.phase) {
        (in_phase(s, Phase::Halted), l, Err(FatalError::OutOfOrder))
    } else {
        let after = created(l, s.block_height as u64, s.block_hash, state_commitment, msgs, power);
        match after.1 {
            Err(error) => (in_phase(s, Phase::Halted), l, Err(FatalError::CheckpointFailed(error))),
            Ok(None) => (
                in_phase(s, Phase::End),
                l,
                Ok(
                    EndOutputView {
                        power_updates: Seq::empty(),
                        checkpoint: None,
                        broadcast: None,
                    },
                ),
            ),
            Ok(Some(made)) => (
                in_phase(s, Phase::End),
                after.0,
                Ok(
                    EndOutputView {
                        power_updates: made.1,
                        checkpoint: Some(made.0),
                        broadcast: if cfg.validator_ctx is Some && !syncing {
                            Some(
                                BroadcastView {
                                    validator: cfg.validator_ctx->0.public_key,
                                    queue: unsigned(after.0.records, cfg.validator_ctx->0.public_key),
                                    cursor: 0,
                                    failures: Seq::empty(),
                                },
                            )
                        } else {
                            None
                        },
                    },
                ),
            ),
        }
    }
}

/// The encoded parameters as a mathematical value.
pub open spec fn encoded_view(encoded: Option<Result<Vec<u8>, String>>) -> Option<
    Result<Seq<u8>, String>,
> {
    match encoded {
        Some(Ok(bytes)) => Some(Ok(bytes@)),
        Some(Err(reason)) => Some(Err(reason)),
        None => None,
    }
}

impl ExecState {
    /// The state of a block that has not begun.
    pub fn new(chain_id: u64, block_height: i64, block_hash: Option<[u8; 32]>, app_version: u64)
        -> (state: ExecState)
        ensures
            state == (ExecState {
                chain_id,
                block_height,
                block_hash,
                app_version,
                phase: Phase::BlockStart,
            }),
    {
        ExecState { chain_id, block_height, block_hash, app_version, phase: Phase::BlockStart }
    }

    /// Puts the state in the phase `Halted`.
    fn halted(self) -> (state: ExecState)
        ensures
            state == in_phase(self, Phase::Halted),
    {
        ExecState { phase: Phase::Halted, ..self }
    }
}

impl FvmMessageInterpreter {
    /// The interpreter of a node with these settings.
    pub fn new(validator_ctx: Option<ValidatorContext>, push_chain_meta: bool) -> (cfg:
        FvmMessageInterpreter)
        ensures
            cfg == (FvmMessageInterpreter { validator_ctx, push_chain_meta }),
    {
        FvmMessageInterpreter { validator_ctx, push_chain_meta }
    }

    /// Tells whether the step from `state` on `input` needs the encoded
    /// parameters of the block hash push.
    pub fn wants_encoding(&self, state: &ExecState, input: &Input) -> (yes: bool)
        ensures
            yes == needs_encoding(*self, *state, *input),
    {
        match (&state.phase, input) {
            (Phase::Cron, Input::Executed(Ok(done))) => done.apply_ret.failure_info.is_none()
                && self.push_chain_meta && state.block_hash.is_some(),
            _ => false,
        }
    }

    /// Makes one step: takes the state of the block and one input, and hands
    /// back the next state and the action that the runtime is to perform.
    ///
    /// The step is that of `next`. Where the step sends out the block hash
    /// push, its parameters are the encoding of the block's height and hash;
    /// if the encoder fails, the block is aborted.
    pub fn step(&self, state: ExecState, input: Input) -> (out: (ExecState, Action))
        requires
            state.block_height >= 0,
        ensures
            !needs_encoding(*self, state, input) ==> (out.0, out.1@) == next(
                *self,
                state,
                input,
                None,
            ),
            needs_encoding(*self, state, input) ==> {
                let params = push_block_params_cbor(state.block_height, state.block_hash->0@);
                ||| (out.0, out.1@) == next(*self, state, input, Some(Ok(params)))
                ||| exists|reason: String|
                    (out.0, out.1@) == next(*self, state, input, Some(Err(reason)))
            },
    {
        if self.wants_encoding(&state, &input) {
            let hash: [u8; 32] = state.block_hash.unwrap();
            let encoded = encode_push_block_params(state.block_height, &hash);
            self.transition(state, input, Some(encoded))
        } else {
            self.transition(state, input, None)
        }
    }

    /// Opens the block: asks the runtime to apply the upgrade scheduled for
    /// the block's height, the first of the steps that lead to the output of
    /// the cron message. On a block that is not at its start the call aborts
    /// the block.
    pub fn begin(&self, state: ExecState) -> (out: (ExecState, Action))
        requires
            state.block_height >= 0,
        ensures
            (out.0, out.1@) == next(*self, state, Input::Begin, None),
    {
        self.step(state, Input::Begin)
    }

    /// Delivers one message of the block: hands it to the runtime to run,
    /// implicitly if it comes from the system address and explicitly
    /// otherwise. That a message from outside never claims the system
    /// address is for the layer that takes messages in to see to. On a
    /// block that is not ready for delivery the call aborts the block.
    pub fn deliver(&self, state: ExecState, message: Message) -> (out: (ExecState, Action))
        requires
            state.block_height >= 0,
        ensures
            (out.0, out.1@) == next(*self, state, Input::Deliver(message), None),
    {
        self.step(state, Input::Deliver(message))
    }

    /// Ends the block: makes the checkpoint of its height if one is due,
    /// and hands out the power updates that came with it. On a node that
    /// signs checkpoints and is not catching up, a new checkpoint also sets
    /// up the broadcast of the node's signatures, which the runtime is to
    /// run in the background without waiting for it. The checkpoint that
    /// was just made is always among those of the broadcast.
    pub fn end(
        &self,
        state: ExecState,
        ledger: &mut CheckpointLedger,
        snapshot: GatewaySnapshot,
        syncing: bool,
    ) -> (out: (ExecState, Result<EndOutput, FatalError>))
        requires
            state.block_height >= 0,
            old(ledger).wf(),
            snapshot.power_table matches Some(table) ==> table.wf(),
        ensures
            final(ledger).wf(),
            (out.0, final(ledger)@, end_view(out.1)) == ended(
                *self,
                state,
                old(ledger)@,
                snapshot.state_commitment@,
                byte_strings(snapshot.msgs@),
                power_view(snapshot.power_table),
                syncing,
            ),
            out.1 matches Ok(output) ==> (output.broadcast matches Some(broadcast)
                ==> output.checkpoint matches Some(checkpoint) && broadcast@.queue.contains(
                checkpoint@,
            )),
    {
        let ready: bool = match &state.phase {
            Phase::ReadyForDelivery => true,
            Phase::End => true,
            _ => false,
        };
        if !ready {
            return (state.halted(), Err(FatalError::OutOfOrder));
        }
        let ghost before = ledger@;
        let ghost commitment = snapshot.state_commitment@;
        let ghost msgs = byte_strings(snapshot.msgs@);
        let ghost power = power_view(snapshot.power_table);
        let height: u64 = state.block_height as u64;
        match ledger.maybe_create_checkpoint(height, state.block_hash, snapshot) {
            Err(error) => (state.halted(), Err(FatalError::CheckpointFailed(error))),
            Ok(None) => (
                ExecState { phase: Phase::End, ..state },
                Ok(
                    EndOutput {
                        power_updates: PowerUpdates(Vec::new()),
                        checkpoint: None,
                        broadcast: None,
                    },
                ),
            ),
            Ok(Some((checkpoint, power_updates))) => {
                let broadcast: Option<SignatureBroadcast> = match &self.validator_ctx {
                    Some(ctx) => {
                        if syncing {
                            None
                        } else {
                            let incomplete = ledger.unsigned_checkpoints(&ctx.public_key);
                            proof {
                                let list = unsigned(ledger@.records, ctx.public_key);
                                unsigned_by_height(ledger@.records, ctx.public_key);
                                assert(ordered(list));
                                by_height_of_ordered(list);
                                fresh_checkpoint_is_unsigned(
                                    before,
                                    height,
                                    state.block_hash,
                                    commitment,
                                    msgs,
                                    power,
                                    ctx.public_key,
                                );
                            }
                            Some(SignatureBroadcast::new(ctx, incomplete))
                        }
                    },
                    None => None,
                };
                (
                    ExecState { phase: Phase::End, ..state },
                    Ok(EndOutput { power_updates, checkpoint: Some(checkpoint), broadcast }),
                )
            },
        }
    }

    /// Makes one step with the encoded parameters of the block hash push
    /// given: the state and the action are those of `next`.
    pub fn transition(
        &self,
        state: ExecState,
        input: Input,
        encoded: Option<Result<Vec<u8>, String>>,
    ) -> (out: (ExecState, Action))
        requires
            state.block_height >= 0,
        ensures
            (out.0, out.1@) == next(*self, state, input, encoded_view(encoded)),
    {
        let chain_id: u64 = state.chain_id;
        let height: i64 = state.block_height;
        match (state.phase, input) {
            (Phase::BlockStart, Input::Begin) => (
                ExecState { phase: Phase::Upgrade, ..state },
                Action::ApplyUpgrade { chain_id, height: height as u64 },
            ),
            (Phase::Upgrade, Input::Upgrade(outcome)) => {
                match outcome {
                    UpgradeOutcome::Failed(reason) => (
                        ExecState { phase: Phase::Halted, ..state },
                        Action::Halt(FatalError::UpgradeFailed(reason)),
                    ),
                    UpgradeOutcome::Migrated(Some(version)) => (
                        ExecState { app_version: version, phase: Phase::Cron, ..state },
                        Action::Execute { mode: ExecMode::Implicit, message: cron_message(height) },
                    ),
                    _ => (
                        ExecState { phase: Phase::Cron, ..state },
                        Action::Execute { mode: ExecMode::Implicit, message: cron_message(height) },
                    ),
                }
            },
            (Phase::Cron, Input::Executed(result)) => {
                match result {
                    Err(reason) => (
                        ExecState { phase: Phase::Halted, ..state },
                        Action::Halt(FatalError::ExecutionFailed(reason)),
                    ),
                    Ok(done) => {
                        let Applied { apply_ret, emitters } = done;
                        let ApplyRet { msg_receipt, failure_info } = apply_ret;
                        match failure_info {
                            Some(info) => (
                                ExecState { phase: Phase::Halted, ..state },
                                Action::Halt(FatalError::CronFailed(info)),
                            ),
                            None => {
                                let ret = FvmApplyRet {
                                    apply_ret: ApplyRet { msg_receipt, failure_info: None },
                                    from: Address::Id(SYSTEM_ACTOR_ID),
                                    to: Address::Id(CRON_ACTOR_ID),
                                    method_num: CRON_EPOCH_TICK,
                                    gas_limit: implicit_gas_limit(),
                                    emitters,
                                };
                                if self.push_chain_meta && state.block_hash.is_some() {
                                    match encoded {
                                        Some(Ok(params)) => (
                                            ExecState { phase: Phase::ChainMetaPush(ret), ..state },
                                            Action::Execute {
                                                mode: ExecMode::Implicit,
                                                message: chain_metadata_message(height, params),
                                            },
                                        ),
                                        Some(Err(reason)) => (
                                            ExecState { phase: Phase::Halted, ..state },
                                            Action::Halt(FatalError::Encoding(reason)),
                                        ),
                                        None => (
                                            ExecState { phase: Phase::Halted, ..state },
                                            Action::Halt(FatalError::OutOfOrder),
                                        ),
                                    }
                                } else {
                                    (
                                        ExecState { phase: Phase::ReadyForDelivery, ..state },
                                        Action::Begun(ret),
                                    )
                                }
                            },
                        }
                    },
                }
            },
            (Phase::ChainMetaPush(cron), Input::Executed(result)) => {
                match result {
                    Err(reason) => (
                        ExecState { phase: Phase::Halted, ..state },
                        Action::Halt(FatalError::ExecutionFailed(reason)),
                    ),
                    Ok(done) => match done.apply_ret.failure_info {
                        Some(info) => (
                            ExecState { phase: Phase::Halted, ..state },
                            Action::Halt(FatalError::ChainMetadataFailed(info)),
                        ),
                        None => (
                            ExecState { phase: Phase::ReadyForDelivery, ..state },
                            Action::Begun(cron),
                        ),
                    },
                }
            },
            (Phase::ReadyForDelivery, Input::Deliver(message)) => {
                let pending = PendingDelivery {
                    from: message.from,
                    to: message.to,
                    method_num: message.method_num,
                    gas_limit: message.gas_limit,
                };
                let mode = if message.from.is_system_actor() {
                    ExecMode::Implicit
                } else {
                    ExecMode::Explicit
                };
                (
                    ExecState { phase: Phase::Delivering(pending), ..state },
                    Action::Execute { mode, message },
                )
            },
            (Phase::Delivering(pending), Input::Executed(result)) => {
                match result {
                    Err(reason) => (
                        ExecState { phase: Phase::Halted, ..state },
                        Action::Halt(FatalError::ExecutionFailed(reason)),
                    ),
                    Ok(done) => {
                        let record = DeliveryRecord {
                            height,
                            from: pending.from,
                            to: pending.to,
                            method_num: pending.method_num,
                            exit_code: done.apply_ret.msg_receipt.exit_code,
                            gas_used: done.apply_ret.msg_receipt.gas_used,
                        };
                        let ret = FvmApplyRet {
                            apply_ret: done.apply_ret,
                            from: pending.from,
                            to: pending.to,
                            method_num: pending.method_num,
                            gas_limit: pending.gas_limit,
                            emitters: done.emitters,
                        };
                        (
                            ExecState { phase: Phase::ReadyForDelivery, ..state },
                            Action::Delivered(ret, record),
                        )
                    },
                }
            },
            (_, _) => (
                ExecState { phase: Phase::Halted, ..state },
                Action::Halt(FatalError::OutOfOrder),
            ),
        }
    }
}

/// `begin` hands out the outcome of the cron message. A block at its start
/// first asks for the upgrade of its height. Once the migration has not
/// failed, the cron message of the height goes out. Once that has
/// succeeded, `begin` is complete where no block hash is to be pushed, and
/// else the push goes out with the encoded height and hash, and `begin` is
/// complete once the push has succeeded. Either way the output is that of
/// the cron message, and the block is ready for delivery.
pub proof fn begin_hands_out_cron_output(
    cfg: FvmMessageInterpreter,
    s: ExecState,
    migrated: Option<u64>,
    cron: Applied,
    params: Seq<u8>,
    push: Applied,
)
    requires
        s.phase is BlockStart,
        cron.apply_ret.failure_info is None,
        push.apply_ret.failure_info is None,
    ensures
        ({
            let asked = next(cfg, s, Input::Begin, None);
            let sent = next(
                cfg,
                asked.0,
                Input::Upgrade(UpgradeOutcome::Migrated(migrated)),
                None,
            );
            let ran = next(cfg, sent.0, Input::Executed(Ok(cron)), Some(Ok(params)));
            let pushed = next(cfg, ran.0, Input::Executed(Ok(push)), None);
            &&& asked.1 == (ActionView::ApplyUpgrade {
                chain_id: s.chain_id,
                height: s.block_height as u64,
            })
            &&& sent.1 == (ActionView::Execute {
                mode: ExecMode::Implicit,
                message: cron_message_view(s.block_height),
            })
            &&& sent.0.app_version == match migrated {
                Some(version) => version,
                None => s.app_version,
            }
            &&& !push_is_due(cfg, s) ==> ran.1 == ActionView::Begun(cron_output(cron))
                && ran.0.phase is ReadyForDelivery
            &&& push_is_due(cfg, s) ==> ran.1 == (ActionView::Execute {
                mode: ExecMode::Implicit,
                message: chain_metadata_message_view(s.block_height, params),
            }) && pushed.1 == ActionView::Begun(cron_output(cron))
                && pushed.0.phase is ReadyForDelivery
        }),
{
}

/// A delivery runs the delivered message once and restates it. A block
/// that is ready for delivery sends the message out as it came, and once
/// the virtual machine has run it, hands out its outcome together with the
/// sender, the receiver, the method and the gas limit of the message, and
/// is ready for the next.
pub proof fn delivery_restates_message(
    cfg: FvmMessageInterpreter,
    s: ExecState,
    message: Message,
    done: Applied,
)
    requires
        s.phase is ReadyForDelivery,
    ensures
        ({
            let sent = next(cfg, s, Input::Deliver(message), None);
            let ran = next(cfg, sent.0, Input::Executed(Ok(done)), None);
            &&& sent.1 == (ActionView::Execute {
                mode: delivery_mode(message.from),
                message: message@,
            })
            &&& ran.0 == s
            &&& ran.1 matches ActionView::Delivered(ret, record) && ret == (FvmApplyRet {
                apply_ret: done.apply_ret,
                from: message.from,
                to: message.to,
                method_num: message.method_num,
                gas_limit: message.gas_limit,
                emitters: done.emitters,
            }) && record == (DeliveryRecord {
                height: s.block_height,
                from: message.from,
                to: message.to,
                method_num: message.method_num,
                exit_code: done.apply_ret.msg_receipt.exit_code,
                gas_used: done.apply_ret.msg_receipt.gas_used,
            })
        }),
{
}

/// An implicit message that fails is fatal. If the cron message or the block
/// hash push could not be run, or ran and failed, the block is aborted and
/// `begin` hands out no output.
pub proof fn implicit_failure_is_fatal(
    cfg: FvmMessageInterpreter,
    s: ExecState,
    result: Result<Applied, String>,
    encoded: Option<Result<Seq<u8>, String>>,
)
    requires
        s.phase is Cron || s.phase is ChainMetaPush,
        result matches Ok(done) ==> done.apply_ret.failure_info is Some,
    ensures
        next(cfg, s, Input::Executed(result), encoded).0.phase is Halted,
        next(cfg, s, Input::Executed(result), encoded).1 is Halt,
{
}

/// A failed migration is fatal: the cron message is never sent.
pub proof fn upgrade_failure_is_fatal(
    cfg: FvmMessageInterpreter,
    s: ExecState,
    reason: String,
    encoded: Option<Result<Seq<u8>, String>>,
)
    requires
        s.phase is Upgrade,
    ensures
        next(cfg, s, Input::Upgrade(UpgradeOutcome::Failed(reason)), encoded) == halt(
            s,
            FatalError::UpgradeFailed(reason),
        ),
{
}

/// An aborted block stays aborted: whatever comes in, the state is unchanged
/// and the action is `Halt`. So no output of `begin` or of a delivery ever
/// follows a fatal error.
pub proof fn halted_is_final(
    cfg: FvmMessageInterpreter,
    s: ExecState,
    input: Input,
    encoded: Option<Result<Seq<u8>, String>>,
)
    requires
        s.phase is Halted,
    ensures
        next(cfg, s, input, encoded) == (s, ActionView::Halt(FatalError::OutOfOrder)),
{
}

/// A delivered message runs implicitly if and only if it comes from the
/// system address, and reaches the virtual machine as it was delivered. Its
/// sequence number plays no part in the choice: a message from the system
/// address with a sequence number of zero, or one that was used before, is
/// sent out like any other.
pub proof fn delivery_mode_follows_sender(
    cfg: FvmMessageInterpreter,
    s: ExecState,
    message: Message,
    encoded: Option<Result<Seq<u8>, String>>,
)
    requires
        s.phase is ReadyForDelivery,
    ensures
        next(cfg, s, Input::Deliver(message), encoded).1 == (ActionView::Execute {
            mode: if message.from == Address::Id(SYSTEM_ACTOR_ID) {
                ExecMode::Implicit
            } else {
                ExecMode::Explicit
            },
            message: message@,
        }),
        next(cfg, s, Input::Deliver(message), encoded).0.phase is Delivering,
{
}

/// The failure of a delivered message is no fault of the interpreter. Once
/// the virtual machine has run the message, the delivery is complete
/// whatever the receipt says: the exit code and the gas used go into the
/// output and the record, and the block is ready for the next message.
pub proof fn delivery_failure_is_in_band(
    cfg: FvmMessageInterpreter,
    s: ExecState,
    done: Applied,
    encoded: Option<Result<Seq<u8>, String>>,
)
    requires
        s.phase is Delivering,
    ensures
        next(cfg, s, Input::Executed(Ok(done)), encoded).0.phase is ReadyForDelivery,
        next(cfg, s, Input::Executed(Ok(done)), encoded).1 matches ActionView::Delivered(
            ret,
            record,
        ) && ret.apply_ret == done.apply_ret && record.exit_code
            == done.apply_ret.msg_receipt.exit_code && record.gas_used
            == done.apply_ret.msg_receipt.gas_used,
{
}

/// Within a block, `begin` comes before every delivery. A message is taken
/// only by a block that is ready for delivery, and a block is ready for
/// delivery only once `begin` or a delivery has handed out its output.
pub proof fn begin_precedes_delivery(
    cfg: FvmMessageInterpreter,
    s: ExecState,
    input: Input,
    encoded: Option<Result<Seq<u8>, String>>,
)
    ensures
        input is Deliver && !(s.phase is ReadyForDelivery) ==> next(cfg, s, input, encoded)
            == halt(s, FatalError::OutOfOrder),
        next(cfg, s, input, encoded).0.phase is ReadyForDelivery ==> {
            ||| next(cfg, s, input, encoded).1 is Begun
            ||| next(cfg, s, input, encoded).1 is Delivered
        },
        next(cfg, s, input, encoded).1 is Begun ==> s.phase is Cron || s.phase is ChainMetaPush,
{
}

/// A step changes nothing of the block but its phase and, after a migration
/// that set one, the application version.
pub proof fn step_keeps_block(
    cfg: FvmMessageInterpreter,
    s: ExecState,
    input: Input,
    encoded: Option<Result<Seq<u8>, String>>,
)
    ensures
        next(cfg, s, input, encoded).0.chain_id == s.chain_id,
        next(cfg, s, input, encoded).0.block_height == s.block_height,
        next(cfg, s, input, encoded).0.block_hash == s.block_hash,
        !(s.phase is Upgrade) ==> next(cfg, s, input, encoded).0.app_version == s.app_version,
{
}

/// The end of a block at a height at which a checkpoint is due, with the
/// hash of the block known and the power table readable, makes exactly one
/// checkpoint: that of this height and hash. Ending the same block once
/// more, or running the block of this height again and ending it, makes no
/// second checkpoint: the ledger stays as it is, and the end hands out no
/// checkpoint, no power updates and no broadcast, whatever it is given.
pub proof fn end_makes_one_checkpoint(
    cfg: FvmMessageInterpreter,
    s: ExecState,
    l: LedgerView,
    block_hash: [u8; 32],
    state_commitment: Seq<u8>,
    msgs: Seq<Seq<u8>>,
    power: Seq<Validator>,
    syncing: bool,
    again_commitment: Seq<u8>,
    again_msgs: Seq<Seq<u8>>,
    again_power: Option<Seq<Validator>>,
    again_syncing: bool,
)
    requires
        s.phase is ReadyForDelivery,
        s.block_height >= 0,
        s.block_hash == Some(block_hash),
        well_formed_ledger(l),
        well_formed_table(power),
        is_due(l.period, s.block_height as u64),
        !has_checkpoint(l.records, s.block_height as u64),
    ensures
        ({
            let first = ended(cfg, s, l, state_commitment, msgs, Some(power), syncing);
            let repeated = ended(
                cfg,
                first.0,
                first.1,
                again_commitment,
                again_msgs,
                again_power,
                again_syncing,
            );
            let rerun = ended(
                cfg,
                s,
                first.1,
                again_commitment,
                again_msgs,
                again_power,
                again_syncing,
            );
            &&& first.0.phase is End
            &&& first.2 matches Ok(output) && output.checkpoint matches Some(checkpoint)
                && checkpoint.height == s.block_height as u64 && checkpoint.block_hash
                == block_hash
            &&& has_checkpoint(first.1.records, s.block_height as u64)
            &&& first.1.records.len() == l.records.len() + 1
            &&& well_formed_ledger(first.1)
            &&& repeated.1 == first.1
            &&& repeated.2 matches Ok(output) && output.checkpoint is None
                && output.power_updates.len() == 0 && output.broadcast is None
            &&& rerun.1 == first.1
            &&& rerun.2 matches Ok(output) && output.checkpoint is None
                && output.power_updates.len() == 0 && output.broadcast is None
        }),
{
    one_checkpoint_per_height(
        l,
        s.block_height as u64,
        block_hash,
        state_commitment,
        msgs,
        power,
        s.block_hash,
        again_commitment,
        again_msgs,
        again_power,
    );
}

/// A block ends only after `begin`, and no message is delivered to a block
/// that has ended: the end of a block that is neither ready for delivery
/// nor ended aborts the block and leaves the ledger as it is, and a block
/// that has ended takes no further input.
pub proof fn end_closes_block(
    cfg: FvmMessageInterpreter,
    s: ExecState,
    l: LedgerView,
    state_commitment: Seq<u8>,
    msgs: Seq<Seq<u8>>,
    power: Option<Seq<Validator>>,
    syncing: bool,
    input: Input,
    encoded: Option<Result<Seq<u8>, String>>,
)
    ensures
        !can_end(s.phase) ==> ended(
            cfg,
            s,
            l,
            state_commitment,
            msgs,
            power,
            syncing,
        ) == (in_phase(s, Phase::Halted), l, Err::<EndOutputView, FatalError>(FatalError::OutOfOrder)),
        ended(cfg, s, l, state_commitment, msgs, power, syncing).2 is Ok ==> ended(
            cfg,
            s,
            l,
            state_commitment,
            msgs,
            power,
            syncing,
        ).0.phase is End,
        s.phase is End ==> next(cfg, s, input, encoded) == halt(s, FatalError::OutOfOrder),
{
}

/// Signatures are broadcast only by a node that signs checkpoints, only
/// when it is not catching up, and only at the end of a block that made a
/// checkpoint.
pub proof fn broadcast_needs_validator_in_sync(
    cfg: FvmMessageInterpreter,
    s: ExecState,
    l: LedgerView,
    state_commitment: Seq<u8>,
    msgs: Seq<Seq<u8>>,
    power: Option<Seq<Validator>>,
    syncing: bool,
)
    ensures
        ended(cfg, s, l, state_commitment, msgs, power, syncing).2 matches Ok(output)
            ==> (output.broadcast is Some <==> output.checkpoint is Some && cfg.validator_ctx
            is Some && !syncing),
{
}

} // verus!
