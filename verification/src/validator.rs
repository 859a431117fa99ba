//! Validators and their voting power.

use crate::address::same_bytes;
use vstd::prelude::*;

verus! {

/// Length in bytes of a compressed secp256k1 public key.
pub const PUBLIC_KEY_LEN: usize = 33;

/// The public key that identifies a validator: a compressed secp256k1 key.
#[derive(Clone, Copy, Debug, PartialEq, Eq, Hash)]
pub struct ValidatorKey {
    pub bytes: [u8; PUBLIC_KEY_LEN],
}

impl ValidatorKey {
    /// Tells whether two keys are the same key.
    pub fn same(&self, other: &ValidatorKey) -> (yes: bool)
        ensures
            yes == (*self == *other),
    {
        same_bytes(&self.bytes, &other.bytes)
    }
}

/// A validator and its voting power.
#[derive(Clone, Copy, Debug, PartialEq, Eq, Hash)]
pub struct Validator {
    pub public_key: ValidatorKey,
    pub power: u64,
}

/// What makes a node a signer of checkpoints: the key that it signs with.
/// The signing itself is done by the runtime that holds the secret key.
#[derive(Clone, Copy, Debug, PartialEq, Eq, Hash)]
pub struct ValidatorContext {
    pub public_key: ValidatorKey,
}

/// The power that a list of validators gives to `key`: that of the last
/// entry with this key, or `None` where there is none.
pub open spec fn lookup(s: Seq<Validator>, key: ValidatorKey) -> Option<u64>
    decreases s.len(),
{
    if s.len() == 0 {
        None
    } else if s.last().public_key == key {
        Some(s.last().power)
    } else {
        lookup(s.drop_last(), key)
    }
}

/// No key occurs twice.
pub open spec fn distinct_keys(s: Seq<Validator>) -> bool {
    forall|i: int, j: int| 0 <= i < j < s.len() ==> s[i].public_key != s[j].public_key
}

/// Every validator has some power.
pub open spec fn positive_powers(s: Seq<Validator>) -> bool {
    forall|i: int| 0 <= i < s.len() ==> s[i].power > 0
}

/// A power table is well formed when no key occurs twice in it and every
/// validator in it has some power.
pub open spec fn well_formed_table(s: Seq<Validator>) -> bool {
    distinct_keys(s) && positive_powers(s)
}

/// The entries that tell the consensus layer to drop a validator: one with
/// no power for each validator of `prev` that `next` no longer has, in the
/// order of `prev`.
pub open spec fn removals(prev: Seq<Validator>, next: Seq<Validator>) -> Seq<Validator>
    decreases prev.len(),
{
    if prev.len() == 0 {
        Seq::empty()
    } else {
        let rest = removals(prev.drop_last(), next);
        if lookup(next, prev.last().public_key) is None {
            rest.push(Validator { public_key: prev.last().public_key, power: 0 })
        } else {
            rest
        }
    }
}

/// The validators of `next` that are new or whose power differs from the
/// one that `prev` gives them, in the order of `next`.
pub open spec fn changes(prev: Seq<Validator>, next: Seq<Validator>) -> Seq<Validator>
    decreases next.len(),
{
    if next.len() == 0 {
        Seq::empty()
    } else {
        let rest = changes(prev, next.drop_last());
        if lookup(prev, next.last().public_key) == Some(next.last().power) {
            rest
        } else {
            rest.push(next.last())
        }
    }
}

/// What turns the table `prev` into the table `next`: first the removals,
/// then the changes.
pub open spec fn power_changes(prev: Seq<Validator>, next: Seq<Validator>) -> Seq<Validator> {
    removals(prev, next) + changes(prev, next)
}

/// The voting power of each validator, read from the gateway.
#[derive(Debug, PartialEq, Eq)]
pub struct PowerTable {
    validators: Vec<Validator>,
}

impl View for PowerTable {
    type V = Seq<Validator>;

    closed spec fn view(&self) -> Seq<Validator> {
        self.validators@
    }
}

/// An ordered list of changes to the validators' power, for the consensus
/// layer to apply. An entry with no power removes the validator.
#[derive(Debug, PartialEq, Eq)]
pub struct PowerUpdates(pub Vec<Validator>);

impl View for PowerUpdates {
    type V = Seq<Validator>;

    open spec fn view(&self) -> Seq<Validator> {
        self.0@
    }
}

/// Looks `key` up in a list of validators.
fn find_power(validators: &Vec<Validator>, key: &ValidatorKey) -> (found: Option<u64>)
    ensures
        found == lookup(validators@, *key),
{
    let mut i: usize = validators.len();
    assert(validators@.take(i as int) =~= validators@);
    while i > 0
        invariant
            i <= validators.len(),
            lookup(validators@, *key) == lookup(validators@.take(i as int), *key),
        decreases i,
    {
        assert(validators@.take(i as int).drop_last() =~= validators@.take(i - 1));
        i = i - 1;
        if validators[i].public_key.same(key) {
            return Some(validators[i].power);
        }
    }
    None
}

impl PowerTable {
    /// Whether the table is well formed.
    pub open spec fn wf(&self) -> bool {
        well_formed_table(self@)
    }

    /// The table of no validators.
    pub fn empty() -> (table: PowerTable)
        ensures
            table.wf(),
            table@ == Seq::<Validator>::empty(),
    {
        PowerTable { validators: Vec::new() }
    }

    /// Makes a power table of a list of validators, or `None` where the
    /// list is not well formed: a key occurs twice in it, or a validator has
    /// no power.
    pub fn new(validators: Vec<Validator>) -> (made: Option<PowerTable>)
        ensures
            made is Some <==> well_formed_table(validators@),
            made matches Some(table) ==> table.wf() && table@ == validators@,
    {
        let n: usize = validators.len();
        let mut j: usize = 0;
        while j < n
            invariant
                j <= n,
                n == validators@.len(),
                forall|a: int, b: int|
                    0 <= a < b < j ==> validators@[a].public_key != validators@[b].public_key,
                forall|a: int| 0 <= a < j ==> validators@[a].power > 0,
            decreases n - j,
        {
            if validators[j].power == 0 {
                return None;
            }
            let mut i: usize = 0;
            while i < j
                invariant
                    i <= j,
                    j < n,
                    n == validators@.len(),
                    forall|a: int|
                        0 <= a < i ==> validators@[a].public_key != validators@[j as int].public_key,
                decreases j - i,
            {
                if validators[i].public_key.same(&validators[j].public_key) {
                    return None;
                }
                i = i + 1;
            }
            j = j + 1;
        }
        Some(PowerTable { validators })
    }

    /// The number of validators.
    pub fn len(&self) -> (n: usize)
        ensures
            n == self@.len(),
    {
        self.validators.len()
    }

    /// The validators, in the order of the table.
    pub fn validators(&self) -> (list: &Vec<Validator>)
        ensures
            list@ == self@,
    {
        &self.validators
    }

    /// The power of the validator with this key, if the table has it.
    pub fn power_of(&self, key: &ValidatorKey) -> (power: Option<u64>)
        ensures
            power == lookup(self@, *key),
    {
        find_power(&self.validators, key)
    }
}

/// Computes what turns the table `current` into the table `next`: an entry
/// with no power for each validator that is gone, then each validator that
/// is new or has another power.
pub fn power_diff(current: &PowerTable, next: &PowerTable) -> (updates: PowerUpdates)
    ensures
        updates@ == power_changes(current@, next@),
{
    let mut diff: Vec<Validator> = Vec::new();
    let n: usize = current.validators.len();
    let mut i: usize = 0;
    while i < n
        invariant
            i <= n,
            n == current@.len(),
            diff@ == removals(current@.take(i as int), next@),
        decreases n - i,
    {
        assert(current@.take(i + 1).drop_last() =~= current@.take(i as int));
        let v: Validator = current.validators[i];
        if find_power(&next.validators, &v.public_key).is_none() {
            diff.push(Validator { public_key: v.public_key, power: 0 });
        }
        i = i + 1;
    }
    assert(current@.take(n as int) =~= current@);
    let m: usize = next.validators.len();
    let mut j: usize = 0;
    while j < m
        invariant
            j <= m,
            m == next@.len(),
            diff@ == removals(current@, next@) + changes(current@, next@.take(j as int)),
        decreases m - j,
    {
        assert(next@.take(j + 1).drop_last() =~= next@.take(j as int));
        let v: Validator = next.validators[j];
        let known: Option<u64> = find_power(&current.validators, &v.public_key);
        let unchanged: bool = match known {
            Some(power) => power == v.power,
            None => false,
        };
        if !unchanged {
            diff.push(v);
            assert(diff@ =~= removals(current@, next@) + changes(
                current@,
                next@.take(j + 1),
            ));
        }
        j = j + 1;
    }
    assert(next@.take(m as int) =~= next@);
    PowerUpdates(diff)
}

/// A list gives power to a key exactly when it has an entry with that key.
pub proof fn lookup_finds_entries(s: Seq<Validator>, key: ValidatorKey)
    ensures
        lookup(s, key) is Some <==> exists|i: int| 0 <= i < s.len() && s[i].public_key == key,
    decreases s.len(),
{
    if s.len() > 0 {
        lookup_finds_entries(s.drop_last(), key);
        if s.last().public_key == key {
            assert(s[s.len() - 1].public_key == key);
        } else if lookup(s.drop_last(), key) is Some {
            let i = choose|i: int| 0 <= i < s.drop_last().len() && s.drop_last()[i].public_key == key;
            assert(s[i].public_key == key);
        } else {
            assert forall|i: int| 0 <= i < s.len() implies s[i].public_key != key by {
                if i < s.len() - 1 {
                    assert(s.drop_last()[i].public_key != key);
                }
            }
        }
    }
}

/// Where no key occurs twice, the power of a key is that of its one entry.
pub proof fn lookup_of_entry(s: Seq<Validator>, i: int)
    requires
        distinct_keys(s),
        0 <= i < s.len(),
    ensures
        lookup(s, s[i].public_key) == Some(s[i].power),
    decreases s.len(),
{
    if i < s.len() - 1 {
        assert(s.drop_last()[i] == s[i]);
        lookup_of_entry(s.drop_last(), i);
    }
}

/// There is nothing to remove exactly when `next` still has every
/// validator of `prev`.
pub proof fn removals_empty_iff_all_kept(prev: Seq<Validator>, next: Seq<Validator>)
    ensures
        removals(prev, next).len() == 0 <==> forall|i: int|
            0 <= i < prev.len() ==> lookup(next, #[trigger] prev[i].public_key) is Some,
    decreases prev.len(),
{
    if prev.len() > 0 {
        removals_empty_iff_all_kept(prev.drop_last(), next);
        if removals(prev, next).len() == 0 {
            assert forall|i: int| 0 <= i < prev.len() implies lookup(
                next,
                #[trigger] prev[i].public_key,
            ) is Some by {
                if i < prev.len() - 1 {
                    assert(prev.drop_last()[i] == prev[i]);
                }
            }
        } else if lookup(next, prev.last().public_key) is Some {
            let i = choose|i: int|
                0 <= i < prev.drop_last().len() && !(lookup(
                    next,
                    #[trigger] prev.drop_last()[i].public_key,
                ) is Some);
            assert(prev[i] == prev.drop_last()[i]);
        } else {
            assert(prev[prev.len() - 1] == prev.last());
        }
    }
}

/// There is nothing to change exactly when `prev` gives every validator of
/// `next` the power that it has in `next`.
pub proof fn changes_empty_iff_all_same(prev: Seq<Validator>, next: Seq<Validator>)
    ensures
        changes(prev, next).len() == 0 <==> forall|j: int|
            0 <= j < next.len() ==> lookup(prev, #[trigger] next[j].public_key) == Some(
                next[j].power,
            ),
    decreases next.len(),
{
    if next.len() > 0 {
        changes_empty_iff_all_same(prev, next.drop_last());
        if changes(prev, next).len() == 0 {
            assert forall|j: int| 0 <= j < next.len() implies lookup(
                prev,
                #[trigger] next[j].public_key,
            ) == Some(next[j].power) by {
                if j < next.len() - 1 {
                    assert(next.drop_last()[j] == next[j]);
                }
            }
        } else if lookup(prev, next.last().public_key) == Some(next.last().power) {
            let j = choose|j: int|
                0 <= j < next.drop_last().len() && lookup(
                    prev,
                    #[trigger] next.drop_last()[j].public_key,
                ) != Some(next.drop_last()[j].power);
            assert(next[j] == next.drop_last()[j]);
        } else {
            assert(next[next.len() - 1] == next.last());
        }
    }
}

/// The power updates are empty if and only if the power table has not
/// changed: both tables give every key the same power.
pub proof fn no_updates_iff_same_power(prev: Seq<Validator>, next: Seq<Validator>)
    requires
        distinct_keys(prev),
        distinct_keys(next),
    ensures
        power_changes(prev, next).len() == 0 <==> forall|key: ValidatorKey|
            lookup(prev, key) == lookup(next, key),
{
    removals_empty_iff_all_kept(prev, next);
    changes_empty_iff_all_same(prev, next);
    if power_changes(prev, next).len() == 0 {
        assert forall|key: ValidatorKey| lookup(prev, key) == lookup(next, key) by {
            lookup_finds_entries(prev, key);
            lookup_finds_entries(next, key);
            if lookup(next, key) is Some {
                let j = choose|j: int| 0 <= j < next.len() && next[j].public_key == key;
                lookup_of_entry(next, j);
                assert(lookup(prev, next[j].public_key) == Some(next[j].power));
            } else if lookup(prev, key) is Some {
                let i = choose|i: int| 0 <= i < prev.len() && prev[i].public_key == key;
                assert(lookup(next, prev[i].public_key) is Some);
            }
        }
    }
    if forall|key: ValidatorKey| lookup(prev, key) == lookup(next, key) {
        assert forall|i: int| 0 <= i < prev.len() implies lookup(
            next,
            #[trigger] prev[i].public_key,
        ) is Some by {
            lookup_of_entry(prev, i);
        }
        assert forall|j: int| 0 <= j < next.len() implies lookup(
            prev,
            #[trigger] next[j].public_key,
        ) == Some(next[j].power) by {
            lookup_of_entry(next, j);
        }
    }
}

/// A list of validators as a map from key to power.
pub open spec fn table_map(s: Seq<Validator>) -> Map<ValidatorKey, u64> {
    Map::new(|key: ValidatorKey| lookup(s, key) is Some, |key: ValidatorKey| lookup(s, key)->0)
}

/// What the consensus layer makes of a list of updates: it goes through
/// them in order, drops the validator of an entry with no power and gives
/// the validator of any other entry the power of the entry.
pub open spec fn apply_updates(table: Map<ValidatorKey, u64>, updates: Seq<Validator>) -> Map<
    ValidatorKey,
    u64,
>
    decreases updates.len(),
{
    if updates.len() == 0 {
        table
    } else {
        let rest = apply_updates(table, updates.drop_last());
        if updates.last().power == 0 {
            rest.remove(updates.last().public_key)
        } else {
            rest.insert(updates.last().public_key, updates.last().power)
        }
    }
}

/// What applying updates does to one key: the last update with that key
/// decides, and a key without an update stays as it was.
proof fn apply_updates_at(table: Map<ValidatorKey, u64>, updates: Seq<Validator>, key: ValidatorKey)
    ensures
        match lookup(updates, key) {
            Some(power) => if power == 0 {
                !apply_updates(table, updates).dom().contains(key)
            } else {
                apply_updates(table, updates).dom().contains(key) && apply_updates(
                    table,
                    updates,
                )[key] == power
            },
            None => {
                &&& apply_updates(table, updates).dom().contains(key) == table.dom().contains(key)
                &&& table.dom().contains(key) ==> apply_updates(table, updates)[key] == table[key]
            },
        },
    decreases updates.len(),
{
    if updates.len() > 0 {
        apply_updates_at(table, updates.drop_last(), key);
    }
}

/// The power of a key in two lists, one after the other: the second list
/// decides where it has the key.
proof fn lookup_of_concat(a: Seq<Validator>, b: Seq<Validator>, key: ValidatorKey)
    ensures
        lookup(a + b, key) == if lookup(b, key) is Some {
            lookup(b, key)
        } else {
            lookup(a, key)
        },
    decreases b.len(),
{
    if b.len() == 0 {
        assert(a + b =~= a);
    } else {
        assert((a + b).drop_last() =~= a + b.drop_last());
        assert((a + b).last() == b.last());
        lookup_of_concat(a, b.drop_last(), key);
    }
}

/// The removals hold a key, without power, exactly where `prev` has the key
/// and `next` does not.
proof fn lookup_of_removals(prev: Seq<Validator>, next: Seq<Validator>, key: ValidatorKey)
    ensures
        lookup(removals(prev, next), key) == if lookup(prev, key) is Some && lookup(next, key)
            is None {
            Some(0u64)
        } else {
            None
        },
    decreases prev.len(),
{
    if prev.len() > 0 {
        lookup_of_removals(prev.drop_last(), next, key);
        let rest = removals(prev.drop_last(), next);
        if lookup(next, prev.last().public_key) is None {
            let gone = Validator { public_key: prev.last().public_key, power: 0 };
            assert(rest.push(gone).drop_last() =~= rest);
            assert(rest.push(gone).last() == gone);
        }
    }
}

/// The changes hold a key, with its power in `next`, exactly where `next`
/// has the key and `prev` gives it another power or none.
proof fn lookup_of_changes(prev: Seq<Validator>, next: Seq<Validator>, key: ValidatorKey)
    requires
        distinct_keys(next),
    ensures
        lookup(changes(prev, next), key) == if lookup(next, key) is Some && lookup(prev, key)
            != lookup(next, key) {
            lookup(next, key)
        } else {
            None
        },
    decreases next.len(),
{
    if next.len() > 0 {
        let front = next.drop_last();
        assert(distinct_keys(front)) by {
            assert forall|i: int, j: int| 0 <= i < j < front.len() implies front[i].public_key
                != front[j].public_key by {
                assert(front[i] == next[i] && front[j] == next[j]);
            }
        }
        lookup_of_changes(prev, front, key);
        let rest = changes(prev, front);
        if next.last().public_key == key {
            lookup_finds_entries(front, key);
            if lookup(front, key) is Some {
                let i = choose|i: int| 0 <= i < front.len() && front[i].public_key == key;
                assert(next[i].public_key == next[next.len() - 1].public_key);
            }
        }
        if lookup(prev, next.last().public_key) != Some(next.last().power) {
            assert(rest.push(next.last()).drop_last() =~= rest);
            assert(rest.push(next.last()).last() == next.last());
        }
    }
}

/// The power that a well-formed table gives to a key is never zero.
proof fn lookup_is_positive(s: Seq<Validator>, key: ValidatorKey)
    requires
        positive_powers(s),
    ensures
        lookup(s, key) matches Some(power) ==> power > 0,
    decreases s.len(),
{
    if s.len() > 0 {
        assert(s.last() == s[s.len() - 1]);
        assert forall|i: int| 0 <= i < s.drop_last().len() implies s.drop_last()[i].power > 0 by {
            assert(s.drop_last()[i] == s[i]);
        }
        lookup_is_positive(s.drop_last(), key);
    }
}

/// What the updates from `prev` to `next` make of one key of the table
/// `prev`: what the table `next` says of it.
proof fn updates_lead_to_next_at(prev: Seq<Validator>, next: Seq<Validator>, key: ValidatorKey)
    requires
        well_formed_table(next),
    ensures
        apply_updates(table_map(prev), power_changes(prev, next)).dom().contains(key)
            == table_map(next).dom().contains(key),
        table_map(next).dom().contains(key) ==> apply_updates(
            table_map(prev),
            power_changes(prev, next),
        )[key] == table_map(next)[key],
{
    apply_updates_at(table_map(prev), power_changes(prev, next), key);
    lookup_of_concat(removals(prev, next), changes(prev, next), key);
    lookup_of_removals(prev, next, key);
    lookup_of_changes(prev, next, key);
    lookup_is_positive(next, key);
}

/// The power updates say all that has changed: a consensus layer that
/// holds the table `prev` and applies the updates from `prev` to `next`
/// holds the table `next`.
pub proof fn updates_lead_to_next(prev: Seq<Validator>, next: Seq<Validator>)
    requires
        well_formed_table(next),
    ensures
        apply_updates(table_map(prev), power_changes(prev, next)) == table_map(next),
{
    let applied = apply_updates(table_map(prev), power_changes(prev, next));
    assert forall|key: ValidatorKey| #[trigger]
        applied.dom().contains(key) == table_map(next).dom().contains(key) by {
        updates_lead_to_next_at(prev, next, key);
    }
    assert forall|key: ValidatorKey| #[trigger] applied.dom().contains(key) implies applied[key]
        == table_map(next)[key] by {
        updates_lead_to_next_at(prev, next, key);
    }
    assert(applied =~= table_map(next));
}

} // verus!
