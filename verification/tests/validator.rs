use subnet_interpreter::validator::{power_diff, PowerTable, Validator, ValidatorKey};

fn public_key(tag: u8) -> ValidatorKey {
    ValidatorKey { bytes: [tag; 33] }
}

fn entry(tag: u8, power: u64) -> Validator {
    Validator { public_key: public_key(tag), power }
}

fn table(validators: Vec<Validator>) -> PowerTable {
    PowerTable::new(validators).unwrap()
}

/// Applies updates to a list as the consensus layer would.
fn apply(mut current: Vec<Validator>, updates: &[Validator]) -> Vec<Validator> {
    for update in updates {
        current.retain(|v| v.public_key != update.public_key);
        if update.power > 0 {
            current.push(*update);
        }
    }
    current.sort_by_key(|v| v.public_key.bytes);
    current
}

#[test]
fn keys_differ_in_any_byte() {
    let a = public_key(1);
    let mut b = public_key(1);
    assert!(a.same(&b));
    b.bytes[32] = 2;
    assert!(!a.same(&b));
    b.bytes[32] = 1;
    b.bytes[0] = 0;
    assert!(!a.same(&b));
}

#[test]
fn power_table_needs_distinct_keys_and_some_power() {
    assert!(PowerTable::new(vec![entry(1, 1), entry(2, 1)]).is_some());
    assert!(PowerTable::new(Vec::new()).is_some());
    assert!(PowerTable::new(vec![entry(1, 1), entry(2, 1), entry(1, 5)]).is_none());
    assert!(PowerTable::new(vec![entry(1, 1), entry(1, 1)]).is_none());
    assert!(PowerTable::new(vec![entry(1, 0)]).is_none());
    assert!(PowerTable::new(vec![entry(1, 1), entry(2, 0)]).is_none());
    assert_eq!(PowerTable::empty().len(), 0);
}

#[test]
fn power_of_finds_each_validator() {
    let table = table(vec![entry(1, 10), entry(2, 20), entry(3, 30)]);
    assert_eq!(table.len(), 3);
    assert_eq!(table.power_of(&public_key(1)), Some(10));
    assert_eq!(table.power_of(&public_key(2)), Some(20));
    assert_eq!(table.power_of(&public_key(3)), Some(30));
    assert_eq!(table.power_of(&public_key(4)), None);
    assert_eq!(table.validators(), &vec![entry(1, 10), entry(2, 20), entry(3, 30)]);
}

#[test]
fn diff_lists_removals_then_changes() {
    let prev = table(vec![entry(1, 10), entry(2, 20), entry(3, 30), entry(4, 40)]);
    let next = table(vec![entry(5, 50), entry(3, 30), entry(2, 21)]);
    let updates = power_diff(&prev, &next);
    assert_eq!(updates.0, vec![entry(1, 0), entry(4, 0), entry(5, 50), entry(2, 21)]);
}

#[test]
fn diff_of_the_same_table_is_empty() {
    let prev = table(vec![entry(1, 10), entry(2, 20)]);
    // The order of the table does not matter.
    let next = table(vec![entry(2, 20), entry(1, 10)]);
    assert_eq!(power_diff(&prev, &next).0, Vec::new());
    assert_eq!(power_diff(&prev, &prev).0, Vec::new());
    assert_eq!(power_diff(&PowerTable::empty(), &PowerTable::empty()).0, Vec::new());
}

#[test]
fn diff_from_nothing_and_to_nothing() {
    let some = table(vec![entry(1, 10), entry(2, 20)]);
    assert_eq!(power_diff(&PowerTable::empty(), &some).0, vec![entry(1, 10), entry(2, 20)]);
    assert_eq!(power_diff(&some, &PowerTable::empty()).0, vec![entry(1, 0), entry(2, 0)]);
}

#[test]
fn applying_the_diff_gives_the_next_table() {
    let tables = [
        vec![],
        vec![entry(1, 10)],
        vec![entry(1, 11), entry(2, 20)],
        vec![entry(3, 30), entry(2, 20)],
        vec![entry(4, 1), entry(5, 2), entry(6, 3)],
        vec![entry(6, 3), entry(5, 2), entry(4, 9)],
    ];
    for prev in &tables {
        for next in &tables {
            let updates = power_diff(&table(prev.clone()), &table(next.clone()));
            assert_eq!(apply(prev.clone(), &updates.0), apply(next.clone(), &[]));
            let unchanged = apply(prev.clone(), &[]) == apply(next.clone(), &[]);
            assert_eq!(updates.0.is_empty(), unchanged);
        }
    }
}
