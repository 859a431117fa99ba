use std::collections::HashMap;

use subnet_interpreter::address::{
    chainmetadata_actor_addr, cron_actor_addr, system_actor_addr, Address,
};
use subnet_interpreter::checkpoint::{CheckpointError, CheckpointLedger, GatewaySnapshot};
use subnet_interpreter::interpreter::{
    Action, Applied, DeliveryRecord, ExecState, FatalError, FvmMessageInterpreter, Input, Phase,
    UpgradeOutcome,
};
use subnet_interpreter::message::{ApplyRet, ExecMode, FvmApplyRet, Message, Receipt, TokenAmount};
use subnet_interpreter::validator::{
    PowerTable, Validator, ValidatorContext, ValidatorKey,
};

const HASH: [u8; 32] = [0xAA; 32];

fn key(tag: u8) -> ValidatorKey {
    let mut bytes = [0u8; 33];
    bytes[0] = 2;
    bytes[32] = tag;
    ValidatorKey { bytes }
}

fn success(gas_used: u64) -> Result<Applied, String> {
    Ok(Applied {
        apply_ret: ApplyRet {
            msg_receipt: Receipt { exit_code: 0, return_data: vec![1, 2, 3], gas_used },
            failure_info: None,
        },
        emitters: HashMap::new(),
    })
}

fn failure(exit_code: u32, info: &str) -> Result<Applied, String> {
    Ok(Applied {
        apply_ret: ApplyRet {
            msg_receipt: Receipt { exit_code, return_data: Vec::new(), gas_used: 0 },
            failure_info: Some(info.to_string()),
        },
        emitters: HashMap::new(),
    })
}

fn user_message(from: Address, sequence: u64) -> Message {
    Message {
        version: 0,
        from,
        to: Address::Id(2000),
        sequence,
        value: TokenAmount { atto: 5 },
        method_num: 7,
        params: vec![9, 9],
        gas_limit: 1_000_000,
        gas_fee_cap: TokenAmount { atto: 100 },
        gas_premium: TokenAmount { atto: 10 },
    }
}

fn cron_message(height: u64) -> Message {
    Message {
        version: 0,
        from: Address::Id(0),
        to: Address::Id(3),
        sequence: height,
        value: TokenAmount { atto: 0 },
        method_num: 2,
        params: Vec::new(),
        gas_limit: 100_000_000_000_000,
        gas_fee_cap: TokenAmount { atto: 0 },
        gas_premium: TokenAmount { atto: 0 },
    }
}

fn cron_output(gas_used: u64) -> FvmApplyRet {
    FvmApplyRet {
        apply_ret: ApplyRet {
            msg_receipt: Receipt { exit_code: 0, return_data: vec![1, 2, 3], gas_used },
            failure_info: None,
        },
        from: Address::Id(0),
        to: Address::Id(3),
        method_num: 2,
        gas_limit: 100_000_000_000_000,
        emitters: HashMap::new(),
    }
}

fn ready(height: i64, hash: Option<[u8; 32]>) -> ExecState {
    ExecState {
        chain_id: 1234,
        block_height: height,
        block_hash: hash,
        app_version: 1,
        phase: Phase::ReadyForDelivery,
    }
}

fn snapshot(power: Option<Vec<Validator>>) -> GatewaySnapshot {
    GatewaySnapshot {
        state_commitment: vec![0xC0, 0xDE],
        msgs: vec![vec![1], vec![2, 3]],
        power_table: power.map(|validators| PowerTable::new(validators).unwrap()),
    }
}

fn ledger(period: u64, power: Vec<Validator>) -> CheckpointLedger {
    CheckpointLedger::new(period, PowerTable::new(power).unwrap())
}

#[test]
fn begin_asks_for_the_upgrade_first() {
    let cfg = FvmMessageInterpreter::new(None, true);
    let (state, action) = cfg.begin(ExecState::new(1234, 100, Some(HASH), 1));
    assert_eq!(state.phase, Phase::Upgrade);
    assert_eq!(action, Action::ApplyUpgrade { chain_id: 1234, height: 100 });
}

#[test]
fn begin_sends_cron_with_the_height_as_sequence() {
    let cfg = FvmMessageInterpreter::new(None, false);
    let (state, _) = cfg.begin(ExecState::new(1234, 100, Some(HASH), 1));
    let (state, action) = cfg.step(state, Input::Upgrade(UpgradeOutcome::NotScheduled));
    assert_eq!(state.phase, Phase::Cron);
    assert_eq!(state.app_version, 1);
    assert_eq!(action, Action::Execute { mode: ExecMode::Implicit, message: cron_message(100) });
}

#[test]
fn implicit_gas_limit_is_ten_thousand_blocks() {
    assert_eq!(subnet_interpreter::injector::implicit_gas_limit(), 10_000_000_000 * 10_000);
    assert_eq!(subnet_interpreter::injector::cron_message(7), cron_message(7));
}

#[test]
fn begin_is_complete_after_cron_when_push_is_disabled() {
    let cfg = FvmMessageInterpreter::new(None, false);
    let (state, _) = cfg.begin(ExecState::new(1234, 100, Some(HASH), 1));
    let (state, _) = cfg.step(state, Input::Upgrade(UpgradeOutcome::NotScheduled));
    let (state, action) = cfg.step(state, Input::Executed(success(42)));
    assert_eq!(state.phase, Phase::ReadyForDelivery);
    assert_eq!(action, Action::Begun(cron_output(42)));
}

#[test]
fn begin_skips_the_push_without_a_block_hash() {
    let cfg = FvmMessageInterpreter::new(None, true);
    let (state, _) = cfg.begin(ExecState::new(1234, 100, None, 1));
    let (state, _) = cfg.step(state, Input::Upgrade(UpgradeOutcome::NotScheduled));
    let (state, action) = cfg.step(state, Input::Executed(success(42)));
    assert_eq!(state.phase, Phase::ReadyForDelivery);
    assert_eq!(action, Action::Begun(cron_output(42)));
}

#[test]
fn begin_pushes_the_block_hash_after_cron() {
    let cfg = FvmMessageInterpreter::new(None, true);
    let (state, _) = cfg.begin(ExecState::new(1234, 100, Some(HASH), 1));
    let (state, _) = cfg.step(state, Input::Upgrade(UpgradeOutcome::NotScheduled));
    let (state, action) = cfg.step(state, Input::Executed(success(42)));
    assert_eq!(state.phase, Phase::ChainMetaPush(cron_output(42)));

    // The parameters are the DAG-CBOR of the pair (100, hash): an array of
    // two, the integer 100, and an array of 32 integers.
    let mut params = vec![0x82, 0x18, 0x64, 0x98, 0x20];
    for _ in 0..32 {
        params.push(0x18);
        params.push(0xAA);
    }
    let push = Message {
        version: 0,
        from: Address::Id(0),
        to: Address::Id(48),
        sequence: 100,
        value: TokenAmount { atto: 0 },
        method_num: 2637567345,
        params,
        gas_limit: 100_000_000_000_000,
        gas_fee_cap: TokenAmount { atto: 0 },
        gas_premium: TokenAmount { atto: 0 },
    };
    assert_eq!(action, Action::Execute { mode: ExecMode::Implicit, message: push });

    // The output of begin is that of the cron message, not of the push.
    let (state, action) = cfg.step(state, Input::Executed(success(7)));
    assert_eq!(state.phase, Phase::ReadyForDelivery);
    assert_eq!(action, Action::Begun(cron_output(42)));
}

#[test]
fn small_heights_and_hashes_encode_in_one_byte() {
    let cfg = FvmMessageInterpreter::new(None, true);
    let (state, _) = cfg.begin(ExecState::new(1, 5, Some([1; 32]), 1));
    let (state, _) = cfg.step(state, Input::Upgrade(UpgradeOutcome::NotScheduled));
    let (_, action) = cfg.step(state, Input::Executed(success(0)));
    let mut params = vec![0x82, 0x05, 0x98, 0x20];
    params.extend([1u8; 32]);
    match action {
        Action::Execute { mode, message } => {
            assert_eq!(mode, ExecMode::Implicit);
            assert_eq!(message.params, params);
            assert_eq!(message.sequence, 5);
        }
        other => panic!("unexpected action {:?}", other),
    }
}

#[test]
fn transition_takes_the_encoded_parameters_as_given() {
    let cfg = FvmMessageInterpreter::new(None, true);
    let mut state = ExecState::new(1, 5, Some([1; 32]), 1);
    state.phase = Phase::Cron;
    let input = Input::Executed(success(0));
    assert!(cfg.wants_encoding(&state, &input));
    let (state, action) = cfg.transition(state, input, Some(Ok(vec![7, 7, 7])));
    assert_eq!(state.phase, Phase::ChainMetaPush(cron_output(0)));
    match action {
        Action::Execute { message, .. } => assert_eq!(message.params, vec![7, 7, 7]),
        other => panic!("unexpected action {:?}", other),
    }

    let mut state = ExecState::new(1, 5, Some([1; 32]), 1);
    state.phase = Phase::Cron;
    let (state, action) =
        cfg.transition(state, Input::Executed(success(0)), Some(Err("no room".to_string())));
    assert_eq!(state.phase, Phase::Halted);
    assert_eq!(action, Action::Halt(FatalError::Encoding("no room".to_string())));
}

#[test]
fn encoding_is_wanted_only_for_the_push() {
    let with_push = FvmMessageInterpreter::new(None, true);
    let without_push = FvmMessageInterpreter::new(None, false);
    let mut state = ExecState::new(1, 5, Some([1; 32]), 1);
    state.phase = Phase::Cron;
    assert!(with_push.wants_encoding(&state, &Input::Executed(success(0))));
    assert!(!without_push.wants_encoding(&state, &Input::Executed(success(0))));
    assert!(!with_push.wants_encoding(&state, &Input::Executed(failure(1, "bad"))));
    assert!(!with_push.wants_encoding(&state, &Input::Executed(Err("down".to_string()))));
    assert!(!with_push.wants_encoding(&state, &Input::Begin));
    state.block_hash = None;
    assert!(!with_push.wants_encoding(&state, &Input::Executed(success(0))));
    state.block_hash = Some([1; 32]);
    state.phase = Phase::ReadyForDelivery;
    assert!(!with_push.wants_encoding(&state, &Input::Executed(success(0))));
}

#[test]
fn migration_sets_the_application_version() {
    let cfg = FvmMessageInterpreter::new(None, false);
    let (state, _) = cfg.begin(ExecState::new(1234, 100, Some(HASH), 1));
    let (state, action) = cfg.step(state, Input::Upgrade(UpgradeOutcome::Migrated(Some(9))));
    assert_eq!(state.app_version, 9);
    assert_eq!(state.phase, Phase::Cron);
    assert_eq!(action, Action::Execute { mode: ExecMode::Implicit, message: cron_message(100) });

    let (state, _) = cfg.begin(ExecState::new(1234, 100, Some(HASH), 1));
    let (state, _) = cfg.step(state, Input::Upgrade(UpgradeOutcome::Migrated(None)));
    assert_eq!(state.app_version, 1);
    assert_eq!(state.phase, Phase::Cron);
}

#[test]
fn failed_migration_is_fatal() {
    let cfg = FvmMessageInterpreter::new(None, false);
    let (state, _) = cfg.begin(ExecState::new(1234, 100, Some(HASH), 1));
    let (state, action) =
        cfg.step(state, Input::Upgrade(UpgradeOutcome::Failed("broken invariant".to_string())));
    assert_eq!(state.phase, Phase::Halted);
    assert_eq!(action, Action::Halt(FatalError::UpgradeFailed("broken invariant".to_string())));
}

#[test]
fn failed_cron_is_fatal_and_begin_has_no_output() {
    let cfg = FvmMessageInterpreter::new(None, true);
    let (state, _) = cfg.begin(ExecState::new(1234, 100, Some(HASH), 1));
    let (state, _) = cfg.step(state, Input::Upgrade(UpgradeOutcome::NotScheduled));
    let (state, action) = cfg.step(state, Input::Executed(failure(16, "cron blew up")));
    assert_eq!(state.phase, Phase::Halted);
    assert_eq!(action, Action::Halt(FatalError::CronFailed("cron blew up".to_string())));

    // Nothing that follows brings the block back.
    let (state, action) = cfg.step(state, Input::Executed(success(1)));
    assert_eq!(state.phase, Phase::Halted);
    assert_eq!(action, Action::Halt(FatalError::OutOfOrder));
    let (state, action) = cfg.deliver(state, user_message(Address::Id(101), 0));
    assert_eq!(state.phase, Phase::Halted);
    assert_eq!(action, Action::Halt(FatalError::OutOfOrder));
    let (state, action) = cfg.begin(state);
    assert_eq!(state.phase, Phase::Halted);
    assert_eq!(action, Action::Halt(FatalError::OutOfOrder));
}

#[test]
fn cron_that_cannot_run_is_fatal() {
    let cfg = FvmMessageInterpreter::new(None, false);
    let (state, _) = cfg.begin(ExecState::new(1234, 100, Some(HASH), 1));
    let (state, _) = cfg.step(state, Input::Upgrade(UpgradeOutcome::NotScheduled));
    let (state, action) = cfg.step(state, Input::Executed(Err("state tree gone".to_string())));
    assert_eq!(state.phase, Phase::Halted);
    assert_eq!(action, Action::Halt(FatalError::ExecutionFailed("state tree gone".to_string())));
}

#[test]
fn failed_push_is_fatal() {
    let cfg = FvmMessageInterpreter::new(None, true);
    let (state, _) = cfg.begin(ExecState::new(1234, 100, Some(HASH), 1));
    let (state, _) = cfg.step(state, Input::Upgrade(UpgradeOutcome::NotScheduled));
    let (state, _) = cfg.step(state, Input::Executed(success(42)));
    let (state, action) = cfg.step(state, Input::Executed(failure(16, "no such actor")));
    assert_eq!(state.phase, Phase::Halted);
    assert_eq!(action, Action::Halt(FatalError::ChainMetadataFailed("no such actor".to_string())));
}

#[test]
fn system_sender_runs_implicitly_whatever_the_sequence() {
    let cfg = FvmMessageInterpreter::new(None, false);
    let mut state = ready(100, Some(HASH));
    // Sequence zero, then the same sequence twice over.
    for sequence in [0u64, 0, 5, 5] {
        let message = user_message(Address::Id(0), sequence);
        let (next, action) = cfg.deliver(state, message.clone());
        assert_eq!(action, Action::Execute { mode: ExecMode::Implicit, message });
        let (next, action) = cfg.step(next, Input::Executed(success(10)));
        assert_eq!(next.phase, Phase::ReadyForDelivery);
        match action {
            Action::Delivered(ret, _) => assert_eq!(ret.apply_ret.msg_receipt.exit_code, 0),
            other => panic!("unexpected action {:?}", other),
        }
        state = next;
    }
}

#[test]
fn any_other_sender_runs_explicitly() {
    let cfg = FvmMessageInterpreter::new(None, false);
    let senders = [
        Address::Id(1),
        Address::Id(101),
        Address::Secp256k1([0; 20]),
        Address::Actor([0; 20]),
        Address::Bls([0; 48]),
    ];
    for from in senders {
        let message = user_message(from, 3);
        let (state, action) = cfg.deliver(ready(100, None), message.clone());
        assert_eq!(action, Action::Execute { mode: ExecMode::Explicit, message });
        assert!(matches!(state.phase, Phase::Delivering(_)));
    }
}

#[test]
fn rejected_sequence_comes_back_in_the_receipt() {
    // The virtual machine turns down a user's message whose sequence number
    // was used before. That is no fault of the interpreter: the delivery is
    // complete and the block goes on.
    let cfg = FvmMessageInterpreter::new(None, false);
    let from = Address::Id(101);
    let (state, _) = cfg.deliver(ready(100, None), user_message(from, 4));
    let (state, action) =
        cfg.step(state, Input::Executed(failure(2, "Actor sequence invalid: 4 != 5")));
    assert_eq!(state.phase, Phase::ReadyForDelivery);
    match action {
        Action::Delivered(ret, record) => {
            assert_eq!(ret.apply_ret.msg_receipt.exit_code, 2);
            assert_eq!(
                ret.apply_ret.failure_info,
                Some("Actor sequence invalid: 4 != 5".to_string())
            );
            assert_eq!(record.exit_code, 2);
        }
        other => panic!("unexpected action {:?}", other),
    }
    let (state, action) = cfg.deliver(state, user_message(from, 5));
    assert!(matches!(state.phase, Phase::Delivering(_)));
    assert!(matches!(action, Action::Execute { mode: ExecMode::Explicit, .. }));
}

#[test]
fn delivery_restates_the_message_and_records_it() {
    let cfg = FvmMessageInterpreter::new(None, false);
    let from = Address::Id(101);
    let (state, _) = cfg.deliver(ready(100, None), user_message(from, 4));
    let mut emitters = HashMap::new();
    emitters.insert(77u64, Address::Secp256k1([7; 20]));
    let applied = Applied {
        apply_ret: ApplyRet {
            msg_receipt: Receipt { exit_code: 0, return_data: vec![5], gas_used: 321 },
            failure_info: None,
        },
        emitters: emitters.clone(),
    };
    let (state, action) = cfg.step(state, Input::Executed(Ok(applied)));
    assert_eq!(state.phase, Phase::ReadyForDelivery);
    let ret = FvmApplyRet::new(
        ApplyRet {
            msg_receipt: Receipt { exit_code: 0, return_data: vec![5], gas_used: 321 },
            failure_info: None,
        },
        from,
        Address::Id(2000),
        7,
        1_000_000,
        emitters,
    );
    let record = DeliveryRecord {
        height: 100,
        from,
        to: Address::Id(2000),
        method_num: 7,
        exit_code: 0,
        gas_used: 321,
    };
    assert_eq!(action, Action::Delivered(ret, record));
}

#[test]
fn message_that_cannot_run_is_fatal() {
    let cfg = FvmMessageInterpreter::new(None, false);
    let (state, _) = cfg.deliver(ready(100, None), user_message(Address::Id(101), 4));
    let (state, action) = cfg.step(state, Input::Executed(Err("engine down".to_string())));
    assert_eq!(state.phase, Phase::Halted);
    assert_eq!(action, Action::Halt(FatalError::ExecutionFailed("engine down".to_string())));
}

#[test]
fn deliver_before_begin_is_out_of_order() {
    let cfg = FvmMessageInterpreter::new(None, false);
    let (state, action) =
        cfg.deliver(ExecState::new(1234, 100, None, 1), user_message(Address::Id(101), 0));
    assert_eq!(state.phase, Phase::Halted);
    assert_eq!(action, Action::Halt(FatalError::OutOfOrder));

    // Nor while begin is under way.
    let (state, _) = cfg.begin(ExecState::new(1234, 100, None, 1));
    let (state, action) = cfg.deliver(state, user_message(Address::Id(101), 0));
    assert_eq!(state.phase, Phase::Halted);
    assert_eq!(action, Action::Halt(FatalError::OutOfOrder));
}

#[test]
fn begin_twice_is_out_of_order() {
    let cfg = FvmMessageInterpreter::new(None, false);
    let (state, action) = cfg.begin(ready(100, None));
    assert_eq!(state.phase, Phase::Halted);
    assert_eq!(action, Action::Halt(FatalError::OutOfOrder));
}

#[test]
fn end_makes_the_checkpoint_of_height_100() {
    let cfg = FvmMessageInterpreter::new(None, false);
    let table = vec![Validator { public_key: key(1), power: 10 }];
    let mut ledger = ledger(100, table.clone());
    let (state, out) = cfg.end(ready(100, Some(HASH)), &mut ledger, snapshot(Some(table)), false);
    assert_eq!(state.phase, Phase::End);
    let out = out.unwrap();
    let checkpoint = out.checkpoint.unwrap();
    assert_eq!(checkpoint.height, 100);
    assert_eq!(checkpoint.block_hash, HASH);
    assert_eq!(checkpoint.state_commitment, vec![0xC0, 0xDE]);
    assert_eq!(checkpoint.msgs, vec![vec![1], vec![2, 3]]);
    // The power table has not changed since the ledger was set up.
    assert_eq!(out.power_updates.0, Vec::new());
    assert!(out.broadcast.is_none());
    assert_eq!(ledger.records().len(), 1);
    assert_eq!(ledger.records()[0].checkpoint, checkpoint);
}

#[test]
fn end_reports_what_changed_in_the_power_table() {
    let cfg = FvmMessageInterpreter::new(None, false);
    let before = vec![
        Validator { public_key: key(1), power: 10 },
        Validator { public_key: key(2), power: 20 },
    ];
    let after = vec![
        Validator { public_key: key(2), power: 25 },
        Validator { public_key: key(3), power: 5 },
    ];
    let mut ledger = ledger(100, before);
    let (_, out) =
        cfg.end(ready(100, Some(HASH)), &mut ledger, snapshot(Some(after.clone())), false);
    let out = out.unwrap();
    assert_eq!(
        out.power_updates.0,
        vec![
            Validator { public_key: key(1), power: 0 },
            Validator { public_key: key(2), power: 25 },
            Validator { public_key: key(3), power: 5 },
        ]
    );
    assert_eq!(ledger.power().validators(), &after);
}

#[test]
fn second_end_makes_no_second_checkpoint() {
    let cfg = FvmMessageInterpreter::new(Some(ValidatorContext { public_key: key(9) }), false);
    let before = vec![Validator { public_key: key(1), power: 10 }];
    let after = vec![Validator { public_key: key(1), power: 11 }];
    let mut ledger = ledger(100, before);
    let (state, out) =
        cfg.end(ready(100, Some(HASH)), &mut ledger, snapshot(Some(after.clone())), false);
    let out = out.unwrap();
    assert!(out.checkpoint.is_some());
    assert_eq!(out.power_updates.0, after);
    assert_eq!(ledger.records().len(), 1);

    // The same block ends again.
    let (state, out) = cfg.end(state, &mut ledger, snapshot(Some(after.clone())), false);
    assert_eq!(state.phase, Phase::End);
    let out = out.unwrap();
    assert!(out.checkpoint.is_none());
    assert_eq!(out.power_updates.0, Vec::new());
    assert!(out.broadcast.is_none());
    assert_eq!(ledger.records().len(), 1);

    // The block of the same height is run and ended again.
    let (_, out) = cfg.end(ready(100, Some(HASH)), &mut ledger, snapshot(None), false);
    let out = out.unwrap();
    assert!(out.checkpoint.is_none());
    assert_eq!(out.power_updates.0, Vec::new());
    assert_eq!(ledger.records().len(), 1);
}

#[test]
fn end_between_checkpoints_makes_nothing() {
    let cfg = FvmMessageInterpreter::new(Some(ValidatorContext { public_key: key(9) }), false);
    let mut ledger = ledger(100, Vec::new());
    for height in [1i64, 99, 101, 150] {
        // Neither the hash nor the power table is needed.
        let (state, out) = cfg.end(ready(height, None), &mut ledger, snapshot(None), false);
        assert_eq!(state.phase, Phase::End);
        let out = out.unwrap();
        assert!(out.checkpoint.is_none());
        assert_eq!(out.power_updates.0, Vec::new());
        assert!(out.broadcast.is_none());
    }
    assert_eq!(ledger.records().len(), 0);
}

#[test]
fn end_without_block_hash_fails_when_a_checkpoint_is_due() {
    let cfg = FvmMessageInterpreter::new(None, false);
    let mut ledger = ledger(100, Vec::new());
    let (state, out) = cfg.end(ready(200, None), &mut ledger, snapshot(Some(Vec::new())), false);
    assert_eq!(state.phase, Phase::Halted);
    assert_eq!(out, Err(FatalError::CheckpointFailed(CheckpointError::MissingBlockHash)));
    assert_eq!(ledger.records().len(), 0);
}

#[test]
fn end_without_power_table_fails_when_a_checkpoint_is_due() {
    let cfg = FvmMessageInterpreter::new(None, false);
    let mut ledger = ledger(100, Vec::new());
    let (state, out) = cfg.end(ready(200, Some(HASH)), &mut ledger, snapshot(None), false);
    assert_eq!(state.phase, Phase::Halted);
    assert_eq!(out, Err(FatalError::CheckpointFailed(CheckpointError::PowerTableUnreadable)));
    assert_eq!(ledger.records().len(), 0);
}

#[test]
fn end_before_begin_is_out_of_order() {
    let cfg = FvmMessageInterpreter::new(None, false);
    let mut ledger = ledger(100, Vec::new());
    let (state, out) = cfg.end(
        ExecState::new(1234, 100, Some(HASH), 1),
        &mut ledger,
        snapshot(Some(Vec::new())),
        false,
    );
    assert_eq!(state.phase, Phase::Halted);
    assert_eq!(out, Err(FatalError::OutOfOrder));
    assert_eq!(ledger.records().len(), 0);
}

#[test]
fn nothing_is_delivered_after_the_end() {
    let cfg = FvmMessageInterpreter::new(None, false);
    let mut ledger = ledger(100, Vec::new());
    let (state, out) = cfg.end(ready(7, None), &mut ledger, snapshot(None), false);
    assert!(out.is_ok());
    let (state, action) = cfg.deliver(state, user_message(Address::Id(101), 0));
    assert_eq!(state.phase, Phase::Halted);
    assert_eq!(action, Action::Halt(FatalError::OutOfOrder));
}

#[test]
fn validator_in_sync_gets_a_broadcast_with_the_new_checkpoint() {
    let me = key(9);
    let cfg = FvmMessageInterpreter::new(Some(ValidatorContext { public_key: me }), false);
    let mut ledger = ledger(100, Vec::new());
    let (_, out) = cfg.end(ready(100, Some(HASH)), &mut ledger, snapshot(Some(Vec::new())), false);
    let out = out.unwrap();
    let broadcast = out.broadcast.unwrap();
    assert_eq!(broadcast.validator(), me);
    assert_eq!(broadcast.len(), 1);
    assert_eq!(broadcast.next_submission(), out.checkpoint.as_ref());

    // The checkpoint of height 100 is still unsigned when the next one is
    // made: both are in the broadcast, by height.
    let (_, out) =
        cfg.end(ready(200, Some([0xBB; 32])), &mut ledger, snapshot(Some(Vec::new())), false);
    let mut broadcast = out.unwrap().broadcast.unwrap();
    assert_eq!(broadcast.len(), 2);
    assert_eq!(broadcast.next_submission().unwrap().height, 100);
    broadcast.record_outcome(Ok(()));
    assert_eq!(broadcast.next_submission().unwrap().height, 200);

    // Once the signature under 100 is recorded, only later ones are left.
    ledger.record_signature(100, &me).unwrap();
    let (_, out) =
        cfg.end(ready(300, Some([0xCC; 32])), &mut ledger, snapshot(Some(Vec::new())), false);
    let broadcast = out.unwrap().broadcast.unwrap();
    assert_eq!(broadcast.len(), 2);
    assert_eq!(broadcast.next_submission().unwrap().height, 200);
}

#[test]
fn syncing_node_sets_up_no_broadcast() {
    let cfg = FvmMessageInterpreter::new(Some(ValidatorContext { public_key: key(9) }), false);
    let mut ledger = ledger(100, Vec::new());
    let (_, out) = cfg.end(ready(100, Some(HASH)), &mut ledger, snapshot(Some(Vec::new())), true);
    let out = out.unwrap();
    assert!(out.checkpoint.is_some());
    assert!(out.broadcast.is_none());
}

#[test]
fn node_without_validator_key_sets_up_no_broadcast() {
    let cfg = FvmMessageInterpreter::new(None, false);
    let mut ledger = ledger(100, Vec::new());
    let (_, out) = cfg.end(ready(100, Some(HASH)), &mut ledger, snapshot(Some(Vec::new())), false);
    let out = out.unwrap();
    assert!(out.checkpoint.is_some());
    assert!(out.broadcast.is_none());
}

#[test]
fn a_whole_block_runs_in_order() {
    let cfg = FvmMessageInterpreter::new(None, true);
    let mut ledger = ledger(10, Vec::new());
    let (state, action) = cfg.begin(ExecState::new(5, 10, Some(HASH), 3));
    assert!(matches!(action, Action::ApplyUpgrade { chain_id: 5, height: 10 }));
    let (state, action) = cfg.step(state, Input::Upgrade(UpgradeOutcome::Migrated(Some(4))));
    assert!(matches!(action, Action::Execute { mode: ExecMode::Implicit, .. }));
    let (state, action) = cfg.step(state, Input::Executed(success(1)));
    assert!(matches!(action, Action::Execute { mode: ExecMode::Implicit, .. }));
    let (state, action) = cfg.step(state, Input::Executed(success(2)));
    assert_eq!(action, Action::Begun(cron_output(1)));
    let (state, action) = cfg.deliver(state, user_message(Address::Id(101), 0));
    assert!(matches!(action, Action::Execute { mode: ExecMode::Explicit, .. }));
    let (state, action) = cfg.step(state, Input::Executed(success(3)));
    assert!(matches!(action, Action::Delivered(..)));
    let (state, action) = cfg.deliver(state, user_message(Address::Id(0), 0));
    assert!(matches!(action, Action::Execute { mode: ExecMode::Implicit, .. }));
    let (state, action) = cfg.step(state, Input::Executed(success(4)));
    assert!(matches!(action, Action::Delivered(..)));
    let (state, out) = cfg.end(state, &mut ledger, snapshot(Some(Vec::new())), false);
    assert_eq!(state.phase, Phase::End);
    assert_eq!(state.app_version, 4);
    assert_eq!(out.unwrap().checkpoint.unwrap().height, 10);
}

#[test]
fn well_known_actors_have_their_addresses() {
    assert_eq!(system_actor_addr(), Address::Id(0));
    assert_eq!(cron_actor_addr(), Address::Id(3));
    assert_eq!(chainmetadata_actor_addr(), Address::Id(48));
    assert!(system_actor_addr().is_system_actor());
    assert!(!cron_actor_addr().is_system_actor());
    assert!(!Address::Secp256k1([0; 20]).is_system_actor());
    assert_eq!(Address::new_id(3), cron_actor_addr());
    assert_eq!(
        subnet_interpreter::injector::chain_metadata_message(9, vec![1, 2]).to,
        chainmetadata_actor_addr()
    );
}
