use subnet_interpreter::checkpoint::{
    Checkpoint, CheckpointError, CheckpointLedger, CheckpointRecord, GatewaySnapshot,
    SignatureError,
};
use subnet_interpreter::validator::{PowerTable, Validator, ValidatorKey};

fn validator_key(tag: u8) -> ValidatorKey {
    let mut bytes = [0u8; 33];
    bytes[0] = 3;
    bytes[1] = tag;
    ValidatorKey { bytes }
}

fn no_change() -> GatewaySnapshot {
    GatewaySnapshot {
        state_commitment: Vec::new(),
        msgs: Vec::new(),
        power_table: Some(PowerTable::empty()),
    }
}

fn empty_ledger(period: u64) -> CheckpointLedger {
    CheckpointLedger::new(period, PowerTable::empty())
}

fn checkpoint(height: u64) -> Checkpoint {
    Checkpoint {
        height,
        block_hash: [height as u8; 32],
        state_commitment: vec![1],
        msgs: Vec::new(),
    }
}

fn heights(list: &[Checkpoint]) -> Vec<u64> {
    list.iter().map(|checkpoint| checkpoint.height).collect()
}

#[test]
fn checkpoint_is_due_at_positive_multiples_of_the_period() {
    let ledger = empty_ledger(100);
    assert!(ledger.is_due(100));
    assert!(ledger.is_due(200));
    assert!(ledger.is_due(1_000_000));
    assert!(!ledger.is_due(0));
    assert!(!ledger.is_due(1));
    assert!(!ledger.is_due(99));
    assert!(!ledger.is_due(101));
    assert!(!ledger.is_due(u64::MAX));
    assert_eq!(ledger.period(), 100);

    let every_block = empty_ledger(1);
    assert!(every_block.is_due(1));
    assert!(every_block.is_due(u64::MAX));
    assert!(!every_block.is_due(0));
}

#[test]
fn period_of_zero_is_never_due() {
    let mut ledger = empty_ledger(0);
    for height in [0u64, 1, 100] {
        assert!(!ledger.is_due(height));
        assert_eq!(ledger.maybe_create_checkpoint(height, None, no_change()).unwrap(), None);
    }
    assert_eq!(ledger.records().len(), 0);
}

#[test]
fn checkpoint_holds_what_the_block_gave() {
    let mut ledger = empty_ledger(50);
    let snapshot = GatewaySnapshot {
        state_commitment: vec![7, 8, 9],
        msgs: vec![vec![1, 1], vec![]],
        power_table: Some(
            PowerTable::new(vec![Validator { public_key: validator_key(1), power: 3 }]).unwrap(),
        ),
    };
    let (made, updates) =
        ledger.maybe_create_checkpoint(150, Some([5; 32]), snapshot).unwrap().unwrap();
    assert_eq!(
        made,
        Checkpoint {
            height: 150,
            block_hash: [5; 32],
            state_commitment: vec![7, 8, 9],
            msgs: vec![vec![1, 1], vec![]],
        }
    );
    assert_eq!(updates.0, vec![Validator { public_key: validator_key(1), power: 3 }]);
    assert_eq!(ledger.records().len(), 1);
    assert_eq!(ledger.records()[0].checkpoint, made);
    assert_eq!(ledger.records()[0].signatories, Vec::new());
    assert!(!ledger.records()[0].committed);
    assert_eq!(ledger.checkpoint_at(150), Some(&made));
    assert_eq!(ledger.checkpoint_at(100), None);
    assert_eq!(ledger.power().len(), 1);
}

#[test]
fn repeated_creation_makes_nothing() {
    let mut ledger = empty_ledger(100);
    assert!(ledger.maybe_create_checkpoint(100, Some([1; 32]), no_change()).unwrap().is_some());
    // Again, even with another hash.
    assert_eq!(ledger.maybe_create_checkpoint(100, Some([1; 32]), no_change()).unwrap(), None);
    assert_eq!(ledger.maybe_create_checkpoint(100, Some([2; 32]), no_change()).unwrap(), None);
    assert_eq!(ledger.records().len(), 1);
    assert_eq!(ledger.records()[0].checkpoint.block_hash, [1; 32]);
}

#[test]
fn due_checkpoint_needs_hash_and_power_table() {
    let mut ledger = empty_ledger(100);
    assert_eq!(
        ledger.maybe_create_checkpoint(100, None, no_change()),
        Err(CheckpointError::MissingBlockHash)
    );
    let unreadable =
        GatewaySnapshot { state_commitment: Vec::new(), msgs: Vec::new(), power_table: None };
    assert_eq!(
        ledger.maybe_create_checkpoint(100, Some([1; 32]), unreadable),
        Err(CheckpointError::PowerTableUnreadable)
    );
    assert_eq!(ledger.records().len(), 0);
    // Off the period neither is missed.
    let unreadable =
        GatewaySnapshot { state_commitment: Vec::new(), msgs: Vec::new(), power_table: None };
    assert_eq!(ledger.maybe_create_checkpoint(101, None, unreadable), Ok(None));
}

#[test]
fn two_validators_one_has_signed() {
    let a = validator_key(0xA);
    let b = validator_key(0xB);
    let mut ledger = empty_ledger(100);
    ledger.maybe_create_checkpoint(100, Some([0xAA; 32]), no_change()).unwrap();
    ledger.record_signature(100, &a).unwrap();

    assert_eq!(ledger.unsigned_checkpoints(&a), Vec::new());
    let for_b = ledger.unsigned_checkpoints(&b);
    assert_eq!(for_b.len(), 1);
    assert_eq!(for_b[0].height, 100);
    assert_eq!(for_b[0].block_hash, [0xAA; 32]);
}

#[test]
fn signature_takes_the_checkpoint_off_the_list() {
    let me = validator_key(1);
    let other = validator_key(2);
    let mut ledger = empty_ledger(10);
    for height in [10u64, 20, 30] {
        ledger.maybe_create_checkpoint(height, Some([0; 32]), no_change()).unwrap();
    }
    assert_eq!(heights(&ledger.unsigned_checkpoints(&me)), vec![10, 20, 30]);

    ledger.record_signature(20, &me).unwrap();
    assert_eq!(heights(&ledger.unsigned_checkpoints(&me)), vec![10, 30]);
    // Nobody else is affected.
    assert_eq!(heights(&ledger.unsigned_checkpoints(&other)), vec![10, 20, 30]);
    assert_eq!(ledger.records()[1].signatories, vec![me]);

    ledger.record_signature(10, &me).unwrap();
    ledger.record_signature(30, &me).unwrap();
    assert_eq!(ledger.unsigned_checkpoints(&me), Vec::new());
}

#[test]
fn unsigned_checkpoints_come_by_height() {
    let me = validator_key(1);
    let mut ledger = empty_ledger(10);
    for height in [30u64, 10, 40, 20] {
        assert!(ledger
            .maybe_create_checkpoint(height, Some([height as u8; 32]), no_change())
            .unwrap()
            .is_some());
    }
    assert_eq!(heights(&ledger.unsigned_checkpoints(&me)), vec![10, 20, 30, 40]);
    let recorded: Vec<u64> =
        ledger.records().iter().map(|record| record.checkpoint.height).collect();
    assert_eq!(recorded, vec![10, 20, 30, 40]);
    assert_eq!(ledger.checkpoint_at(30).unwrap().block_hash, [30; 32]);
}

#[test]
fn closed_window_takes_the_checkpoint_off_every_list() {
    let me = validator_key(1);
    let mut ledger = empty_ledger(10);
    ledger.maybe_create_checkpoint(10, Some([0; 32]), no_change()).unwrap();
    ledger.maybe_create_checkpoint(20, Some([0; 32]), no_change()).unwrap();
    assert!(ledger.mark_committed(10));
    assert!(!ledger.mark_committed(15));
    assert_eq!(heights(&ledger.unsigned_checkpoints(&me)), vec![20]);
    assert!(ledger.records()[0].committed);
    assert!(!ledger.records()[1].committed);
}

#[test]
fn signature_is_recorded_once() {
    let me = validator_key(1);
    let mut ledger = empty_ledger(10);
    ledger.maybe_create_checkpoint(10, Some([0; 32]), no_change()).unwrap();
    ledger.maybe_create_checkpoint(20, Some([0; 32]), no_change()).unwrap();

    assert_eq!(ledger.record_signature(15, &me), Err(SignatureError::UnknownCheckpoint));
    assert_eq!(ledger.record_signature(30, &me), Err(SignatureError::UnknownCheckpoint));
    assert_eq!(ledger.record_signature(10, &me), Ok(()));
    assert_eq!(ledger.record_signature(10, &me), Err(SignatureError::AlreadySigned));
    assert_eq!(ledger.records()[0].signatories, vec![me]);

    ledger.mark_committed(20);
    assert_eq!(ledger.record_signature(20, &me), Err(SignatureError::WindowClosed));
    assert_eq!(ledger.records()[1].signatories, Vec::new());
}

#[test]
fn restore_takes_only_well_formed_records() {
    let a = validator_key(1);
    let b = validator_key(2);
    let record = |height: u64, signatories: Vec<ValidatorKey>| CheckpointRecord {
        checkpoint: checkpoint(height),
        signatories,
        committed: false,
    };

    let ledger = CheckpointLedger::restore(
        10,
        PowerTable::empty(),
        vec![record(10, vec![a]), record(20, vec![a, b]), record(30, vec![])],
    )
    .unwrap();
    assert_eq!(ledger.records().len(), 3);
    assert_eq!(heights(&ledger.unsigned_checkpoints(&a)), vec![30]);
    assert_eq!(heights(&ledger.unsigned_checkpoints(&b)), vec![10, 30]);

    // Out of order, the same height twice, a signature twice.
    assert!(CheckpointLedger::restore(
        10,
        PowerTable::empty(),
        vec![record(20, vec![]), record(10, vec![])]
    )
    .is_none());
    assert!(CheckpointLedger::restore(
        10,
        PowerTable::empty(),
        vec![record(10, vec![]), record(10, vec![])]
    )
    .is_none());
    assert!(CheckpointLedger::restore(10, PowerTable::empty(), vec![record(10, vec![a, b, a])])
        .is_none());
    assert!(CheckpointLedger::restore(10, PowerTable::empty(), Vec::new()).is_some());
}

#[test]
fn cloned_checkpoint_is_equal() {
    let checkpoint = Checkpoint {
        height: 1,
        block_hash: [9; 32],
        state_commitment: vec![1, 2],
        msgs: vec![vec![3], vec![], vec![4, 5]],
    };
    assert_eq!(checkpoint.clone(), checkpoint);
}
