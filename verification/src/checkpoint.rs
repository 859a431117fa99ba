//! Bottom-up checkpoints: when one is due, what it holds, and which ones
//! still await a validator's signature.
//!
//! The ledger mirrors what the gateway records of checkpoints: at most one
//! for a height, each with the validators that have signed it, and the power
//! table as it stood when the newest checkpoint was made.

use crate::validator::{
    power_changes, power_diff, well_formed_table, PowerTable, PowerUpdates, Validator,
    ValidatorKey,
};
use vstd::prelude::*;

verus! {

/// A summary of the subnet at one height, for the parent chain.
#[derive(Debug, PartialEq, Eq)]
pub struct Checkpoint {
    pub height: u64,
    pub block_hash: [u8; 32],
    /// The commitment to the subnet's state at this height.
    pub state_commitment: Vec<u8>,
    /// The outbound cross-subnet messages, each in its encoded form.
    pub msgs: Vec<Vec<u8>>,
}

/// A checkpoint as a mathematical value.
pub struct CheckpointView {
    pub height: u64,
    pub block_hash: [u8; 32],
    pub state_commitment: Seq<u8>,
    pub msgs: Seq<Seq<u8>>,
}

/// A list of byte strings as a mathematical value.
pub open spec fn byte_strings(list: Seq<Vec<u8>>) -> Seq<Seq<u8>> {
    Seq::new(list.len(), |i: int| list[i]@)
}

impl View for Checkpoint {
    type V = CheckpointView;

    open spec fn view(&self) -> CheckpointView {
        CheckpointView {
            height: self.height,
            block_hash: self.block_hash,
            state_commitment: self.state_commitment@,
            msgs: byte_strings(self.msgs@),
        }
    }
}

/// A list of checkpoints as a mathematical value.
pub open spec fn checkpoint_views(list: Seq<Checkpoint>) -> Seq<CheckpointView> {
    Seq::new(list.len(), |i: int| list[i]@)
}

/// Copies a byte string.
fn copy_bytes(bytes: &Vec<u8>) -> (copy: Vec<u8>)
    ensures
        copy@ == bytes@,
{
    let mut copy: Vec<u8> = Vec::new();
    let mut i: usize = 0;
    while i < bytes.len()
        invariant
            i <= bytes.len(),
            copy@ == bytes@.take(i as int),
        decreases bytes.len() - i,
    {
        copy.push(bytes[i]);
        assert(copy@ =~= bytes@.take(i + 1));
        i = i + 1;
    }
    assert(bytes@.take(bytes.len() as int) =~= bytes@);
    copy
}

/// Copies a list of byte strings.
fn copy_byte_strings(list: &Vec<Vec<u8>>) -> (copy: Vec<Vec<u8>>)
    ensures
        byte_strings(copy@) == byte_strings(list@),
{
    let mut copy: Vec<Vec<u8>> = Vec::new();
    let mut i: usize = 0;
    while i < list.len()
        invariant
            i <= list.len(),
            copy@.len() == i,
            forall|k: int| 0 <= k < i ==> copy@[k]@ == list@[k]@,
        decreases list.len() - i,
    {
        copy.push(copy_bytes(&list[i]));
        i = i + 1;
    }
    assert(byte_strings(copy@) =~= byte_strings(list@));
    copy
}

impl Clone for Checkpoint {
    /// A checkpoint with the same content.
    fn clone(&self) -> (copy: Checkpoint)
        ensures
            copy@ == self@,
    {
        Checkpoint {
            height: self.height,
            block_hash: self.block_hash,
            state_commitment: copy_bytes(&self.state_commitment),
            msgs: copy_byte_strings(&self.msgs),
        }
    }
}

/// What the ledger keeps of one checkpoint: the checkpoint, the validators
/// that have signed it, and whether its commit window has closed.
#[derive(Debug, PartialEq, Eq)]
pub struct CheckpointRecord {
    pub checkpoint: Checkpoint,
    pub signatories: Vec<ValidatorKey>,
    pub committed: bool,
}

/// A record as a mathematical value.
pub struct RecordView {
    pub checkpoint: CheckpointView,
    pub signatories: Seq<ValidatorKey>,
    pub committed: bool,
}

impl View for CheckpointRecord {
    type V = RecordView;

    open spec fn view(&self) -> RecordView {
        RecordView {
            checkpoint: self.checkpoint@,
            signatories: self.signatories@,
            committed: self.committed,
        }
    }
}

/// A list of records as a mathematical value.
pub open spec fn record_views(list: Seq<CheckpointRecord>) -> Seq<RecordView> {
    Seq::new(list.len(), |i: int| list[i]@)
}

/// Why a checkpoint that is due could not be made.
#[derive(Clone, Copy, Debug, PartialEq, Eq, Structural)]
pub enum CheckpointError {
    /// The hash of the current block is not known: there is nothing for the
    /// checkpoint to anchor to.
    MissingBlockHash,
    /// The gateway's power table could not be read.
    PowerTableUnreadable,
}

/// What a reader is told of a checkpoint that could not be made.
pub open spec fn checkpoint_error_text(error: CheckpointError) -> Seq<char> {
    match error {
        CheckpointError::MissingBlockHash => "block hash not set"@,
        CheckpointError::PowerTableUnreadable => "failed to get the current power table"@,
    }
}

impl CheckpointError {
    /// Says in words why the checkpoint could not be made.
    pub fn message(&self) -> (text: String)
        ensures
            text@ == checkpoint_error_text(*self),
    {
        match self {
            CheckpointError::MissingBlockHash => String::from_str("block hash not set"),
            CheckpointError::PowerTableUnreadable => String::from_str(
                "failed to get the current power table",
            ),
        }
    }
}

/// What the gateway holds when a block ends, as far as a checkpoint needs
/// it. The power table is `None` where it could not be read.
#[derive(Debug, PartialEq, Eq)]
pub struct GatewaySnapshot {
    pub state_commitment: Vec<u8>,
    pub msgs: Vec<Vec<u8>>,
    pub power_table: Option<PowerTable>,
}

/// The checkpoints of a subnet and the power table that the newest of them
/// was made with.
#[derive(Debug, PartialEq, Eq)]
pub struct CheckpointLedger {
    period: u64,
    power: PowerTable,
    records: Vec<CheckpointRecord>,
}

/// A ledger as a mathematical value.
pub struct LedgerView {
    /// The number of blocks between two checkpoints.
    pub period: u64,
    /// The power table as it stood at the newest checkpoint.
    pub power: Seq<Validator>,
    /// The checkpoints, by height.
    pub records: Seq<RecordView>,
}

impl View for CheckpointLedger {
    type V = LedgerView;

    closed spec fn view(&self) -> LedgerView {
        LedgerView {
            period: self.period,
            power: self.power@,
            records: record_views(self.records@),
        }
    }
}

/// A checkpoint is due at every height that is a positive multiple of the
/// period.
pub open spec fn is_due(period: u64, height: u64) -> bool {
    period > 0 && height > 0 && height % period == 0
}

/// The records stand by height, and no two have the same height.
pub open spec fn heights_increase(records: Seq<RecordView>) -> bool {
    forall|i: int, j: int|
        0 <= i < j < records.len() ==> records[i].checkpoint.height < records[j].checkpoint.height
}

/// No validator has signed the checkpoint twice.
pub open spec fn signed_once(record: RecordView) -> bool {
    forall|a: int, b: int|
        0 <= a < b < record.signatories.len() ==> record.signatories[a] != record.signatories[b]
}

/// A ledger is well formed when its power table is, there is at most one
/// checkpoint for a height, and no validator has signed a checkpoint twice.
pub open spec fn well_formed_ledger(l: LedgerView) -> bool {
    &&& well_formed_table(l.power)
    &&& heights_increase(l.records)
    &&& forall|i: int| 0 <= i < l.records.len() ==> signed_once(#[trigger] l.records[i])
}

/// Whether there is a checkpoint for `height`.
pub open spec fn has_checkpoint(records: Seq<RecordView>, height: u64) -> bool {
    exists|i: int| 0 <= i < records.len() && records[i].checkpoint.height == height
}

/// Where a checkpoint for `height` stands among the records, or would
/// stand: behind the last record of a lesser height.
pub open spec fn insert_position(records: Seq<RecordView>, height: u64) -> int
    decreases records.len(),
{
    if records.len() == 0 {
        0
    } else if records.last().checkpoint.height < height {
        records.len() as int
    } else {
        insert_position(records.drop_last(), height)
    }
}

/// The record of a checkpoint that was just made: nobody has signed it, and
/// its commit window is open.
pub open spec fn fresh_record(checkpoint: CheckpointView) -> RecordView {
    RecordView { checkpoint, signatories: Seq::empty(), committed: false }
}

/// What the end of a block at `height` does to the ledger, and what it
/// hands out.
///
/// Nothing happens where no checkpoint is due, or where the ledger has the
/// checkpoint of this height already. A checkpoint that is due needs the
/// hash of the block and the gateway's power table: without either, it
/// fails and the ledger stays as it is. Otherwise the checkpoint enters the
/// ledger, the power table of the ledger becomes the gateway's, and the
/// checkpoint comes back with what has changed between the two tables.
pub open spec fn created(
    l: LedgerView,
    height: u64,
    block_hash: Option<[u8; 32]>,
    state_commitment: Seq<u8>,
    msgs: Seq<Seq<u8>>,
    power: Option<Seq<Validator>>,
) -> (LedgerView, Result<Option<(CheckpointView, Seq<Validator>)>, CheckpointError>) {
    if !is_due(l.period, height) {
        (l, Ok(None))
    } else if block_hash is None {
        (l, Err(CheckpointError::MissingBlockHash))
    } else if has_checkpoint(l.records, height) {
        (l, Ok(None))
    } else if power is None {
        (l, Err(CheckpointError::PowerTableUnreadable))
    } else {
        let checkpoint = CheckpointView {
            height,
            block_hash: block_hash->0,
            state_commitment,
            msgs,
        };
        (
            LedgerView {
                period: l.period,
                power: power->0,
                records: l.records.insert(
                    insert_position(l.records, height),
                    fresh_record(checkpoint),
                ),
            },
            Ok(Some((checkpoint, power_changes(l.power, power->0)))),
        )
    }
}

/// The outcome of making a checkpoint as a mathematical value.
pub open spec fn created_view(made: Result<Option<(Checkpoint, PowerUpdates)>, CheckpointError>)
    -> Result<Option<(CheckpointView, Seq<Validator>)>, CheckpointError> {
    match made {
        Ok(Some((checkpoint, updates))) => Ok(Some((checkpoint@, updates@))),
        Ok(None) => Ok(None),
        Err(error) => Err(error),
    }
}

/// A power table that may be missing, as a mathematical value.
pub open spec fn power_view(power: Option<PowerTable>) -> Option<Seq<Validator>> {
    match power {
        Some(table) => Some(table@),
        None => None,
    }
}

/// Where the records stand by height, those before the insert position of a
/// height are below it and those from the position on are not.
pub proof fn insert_position_splits(records: Seq<RecordView>, height: u64)
    requires
        heights_increase(records),
    ensures
        0 <= insert_position(records, height) <= records.len(),
        forall|k: int|
            0 <= k < insert_position(records, height) ==> records[k].checkpoint.height < height,
        forall|k: int|
            insert_position(records, height) <= k < records.len() ==> records[k].checkpoint.height
                >= height,
        has_checkpoint(records, height) <==> insert_position(records, height) < records.len()
            && records[insert_position(records, height)].checkpoint.height == height,
    decreases records.len(),
{
    if records.len() > 0 {
        let front = records.drop_last();
        assert forall|i: int, j: int| 0 <= i < j < front.len() implies front[i].checkpoint.height
            < front[j].checkpoint.height by {
            assert(front[i] == records[i] && front[j] == records[j]);
        }
        insert_position_splits(front, height);
        let p = insert_position(records, height);
        if records.last().checkpoint.height < height {
            assert forall|k: int| 0 <= k < p implies records[k].checkpoint.height < height by {
                if k < records.len() - 1 {
                    assert(records[k].checkpoint.height < records[records.len() - 1].checkpoint.height);
                }
            }
        } else {
            assert forall|k: int| 0 <= k < p implies records[k].checkpoint.height < height by {
                assert(front[k] == records[k]);
            }
            assert forall|k: int| p <= k < records.len() implies records[k].checkpoint.height
                >= height by {
                if k < records.len() - 1 {
                    assert(front[k] == records[k]);
                }
            }
        }
        if has_checkpoint(records, height) {
            let i = choose|i: int| 0 <= i < records.len() && records[i].checkpoint.height == height;
            if i < p {
                assert(records[i].checkpoint.height < height);
            } else if i > p {
                assert(records[p].checkpoint.height < records[i].checkpoint.height);
            }
        }
    }
}

/// A checkpoint for a height that the records lack keeps them by height
/// when it goes in at its insert position.
pub proof fn insert_keeps_order(records: Seq<RecordView>, record: RecordView)
    requires
        heights_increase(records),
        !has_checkpoint(records, record.checkpoint.height),
    ensures
        heights_increase(
            records.insert(insert_position(records, record.checkpoint.height), record),
        ),
{
    let height = record.checkpoint.height;
    let p = insert_position(records, height);
    insert_position_splits(records, height);
    let grown = records.insert(p, record);
    assert forall|i: int, j: int| 0 <= i < j < grown.len() implies grown[i].checkpoint.height
        < grown[j].checkpoint.height by {
        if j < p {
            assert(grown[i] == records[i] && grown[j] == records[j]);
        } else if j == p {
            assert(grown[i] == records[i]);
        } else if i < p {
            assert(grown[i] == records[i] && grown[j] == records[j - 1]);
            assert(records[j - 1].checkpoint.height >= height);
        } else if i == p {
            assert(grown[j] == records[j - 1]);
            assert(records[j - 1].checkpoint.height >= height);
            assert(records[j - 1].checkpoint.height != height);
        } else {
            assert(grown[i] == records[i - 1] && grown[j] == records[j - 1]);
        }
    }
}

/// Whether a checkpoint still awaits the signature of `key`: its commit
/// window is open and `key` is not among those that have signed it.
pub open spec fn awaits_signature(record: RecordView, key: ValidatorKey) -> bool {
    !record.committed && !record.signatories.contains(key)
}

/// The checkpoints that await the signature of `key`, in the order of the
/// records.
pub open spec fn unsigned(records: Seq<RecordView>, key: ValidatorKey) -> Seq<CheckpointView>
    decreases records.len(),
{
    if records.len() == 0 {
        Seq::empty()
    } else {
        let rest = unsigned(records.drop_last(), key);
        if awaits_signature(records.last(), key) {
            rest.push(records.last().checkpoint)
        } else {
            rest
        }
    }
}

/// Why a signature could not be recorded.
#[derive(Clone, Copy, Debug, PartialEq, Eq, Structural)]
pub enum SignatureError {
    /// The ledger has no checkpoint for the height.
    UnknownCheckpoint,
    /// The commit window of the checkpoint has closed.
    WindowClosed,
    /// The validator has signed the checkpoint before.
    AlreadySigned,
}

/// What a reader is told of a signature that could not be recorded.
pub open spec fn signature_error_text(error: SignatureError) -> Seq<char> {
    match error {
        SignatureError::UnknownCheckpoint => "no checkpoint at this height"@,
        SignatureError::WindowClosed => "the commit window of the checkpoint has closed"@,
        SignatureError::AlreadySigned => "the validator has signed the checkpoint already"@,
    }
}

impl SignatureError {
    /// Says in words why the signature could not be recorded.
    pub fn message(&self) -> (text: String)
        ensures
            text@ == signature_error_text(*self),
    {
        match self {
            SignatureError::UnknownCheckpoint => String::from_str("no checkpoint at this height"),
            SignatureError::WindowClosed => String::from_str(
                "the commit window of the checkpoint has closed",
            ),
            SignatureError::AlreadySigned => String::from_str(
                "the validator has signed the checkpoint already",
            ),
        }
    }
}

/// The record with one more signature.
pub open spec fn with_signature(record: RecordView, key: ValidatorKey) -> RecordView {
    RecordView { signatories: record.signatories.push(key), ..record }
}

/// What recording the signature of `key` under the checkpoint of `height`
/// does to the ledger: the key joins the signatories of that checkpoint,
/// unless the ledger lacks the checkpoint, its window has closed, or the key
/// has signed it before.
pub open spec fn signed(l: LedgerView, height: u64, key: ValidatorKey) -> (
    LedgerView,
    Result<(), SignatureError>,
) {
    let p = insert_position(l.records, height);
    if !has_checkpoint(l.records, height) {
        (l, Err(SignatureError::UnknownCheckpoint))
    } else if l.records[p].committed {
        (l, Err(SignatureError::WindowClosed))
    } else if l.records[p].signatories.contains(key) {
        (l, Err(SignatureError::AlreadySigned))
    } else {
        (
            LedgerView { records: l.records.update(p, with_signature(l.records[p], key)), ..l },
            Ok(()),
        )
    }
}

/// The ledger once the commit window of the checkpoint of `height` has
/// closed. A ledger without that checkpoint stays as it is.
pub open spec fn committed(l: LedgerView, height: u64) -> LedgerView {
    let p = insert_position(l.records, height);
    if has_checkpoint(l.records, height) {
        LedgerView {
            records: l.records.update(p, RecordView { committed: true, ..l.records[p] }),
            ..l
        }
    } else {
        l
    }
}

/// Tells whether `key` is among those that have signed the checkpoint.
fn has_signed(record: &CheckpointRecord, key: &ValidatorKey) -> (yes: bool)
    ensures
        yes == record@.signatories.contains(*key),
{
    let mut i: usize = 0;
    while i < record.signatories.len()
        invariant
            i <= record.signatories.len(),
            forall|k: int| 0 <= k < i ==> record.signatories@[k] != *key,
        decreases record.signatories.len() - i,
    {
        if record.signatories[i].same(key) {
            assert(record@.signatories[i as int] == *key);
            return true;
        }
        i = i + 1;
    }
    false
}

impl CheckpointLedger {
    /// Whether the ledger is well formed.
    pub open spec fn wf(&self) -> bool {
        well_formed_ledger(self@)
    }

    /// The ledger of a subnet that makes a checkpoint every `period` blocks
    /// and starts with the power table `power`. It holds no checkpoint.
    pub fn new(period: u64, power: PowerTable) -> (ledger: CheckpointLedger)
        requires
            power.wf(),
        ensures
            ledger.wf(),
            ledger@ == (LedgerView { period, power: power@, records: Seq::empty() }),
    {
        let ledger = CheckpointLedger { period, power, records: Vec::new() };
        assert(ledger@.records =~= Seq::empty());
        ledger
    }

    /// Makes a ledger of what the gateway holds: the period, the power
    /// table of the newest checkpoint, and the checkpoints with their
    /// signatories. `None` where the records are not those of a well-formed
    /// ledger: they do not stand by height, two of them have the same
    /// height, or a validator has signed one of them twice.
    pub fn restore(period: u64, power: PowerTable, records: Vec<CheckpointRecord>) -> (made: Option<
        CheckpointLedger,
    >)
        requires
            power.wf(),
        ensures
            made is Some <==> well_formed_ledger(
                LedgerView { period, power: power@, records: record_views(records@) },
            ),
            made matches Some(ledger) ==> ledger.wf() && ledger@ == (LedgerView {
                period,
                power: power@,
                records: record_views(records@),
            }),
    {
        let ghost views = record_views(records@);
        let n: usize = records.len();
        let mut i: usize = 0;
        while i < n
            invariant
                i <= n,
                n == records@.len(),
                views == record_views(records@),
                forall|a: int, b: int|
                    0 <= a < b < i ==> views[a].checkpoint.height < views[b].checkpoint.height,
                forall|a: int| 0 <= a < i ==> signed_once(#[trigger] views[a]),
            decreases n - i,
        {
            if i > 0 && records[i - 1].checkpoint.height >= records[i].checkpoint.height {
                assert(!(views[i - 1].checkpoint.height < views[i as int].checkpoint.height));
                return None;
            }
            let signatories: &Vec<ValidatorKey> = &records[i].signatories;
            let mut b: usize = 0;
            while b < signatories.len()
                invariant
                    b <= signatories.len(),
                    i < n,
                    n == records@.len(),
                    views == record_views(records@),
                    signatories@ == views[i as int].signatories,
                    forall|x: int, y: int| 0 <= x < y < b ==> signatories@[x] != signatories@[y],
                decreases signatories.len() - b,
            {
                let mut a: usize = 0;
                while a < b
                    invariant
                        a <= b,
                        b < signatories.len(),
                        i < n,
                        n == records@.len(),
                        views == record_views(records@),
                        signatories@ == views[i as int].signatories,
                        forall|x: int| 0 <= x < a ==> signatories@[x] != signatories@[b as int],
                    decreases b - a,
                {
                    if signatories[a].same(&signatories[b]) {
                        assert(!signed_once(views[i as int]));
                        return None;
                    }
                    a = a + 1;
                }
                b = b + 1;
            }
            assert(signed_once(views[i as int]));
            assert forall|a: int, c: int| 0 <= a < c < i + 1 implies views[a].checkpoint.height
                < views[c].checkpoint.height by {
                if c == i && a < i - 1 {
                    assert(views[a].checkpoint.height < views[i - 1].checkpoint.height);
                }
            }
            i = i + 1;
        }
        Some(CheckpointLedger { period, power, records })
    }

    /// The number of blocks between two checkpoints.
    pub fn period(&self) -> (period: u64)
        ensures
            period == self@.period,
    {
        self.period
    }

    /// The power table as it stood at the newest checkpoint.
    pub fn power(&self) -> (power: &PowerTable)
        ensures
            power@ == self@.power,
    {
        &self.power
    }

    /// The checkpoints with their signatories, by height.
    pub fn records(&self) -> (records: &Vec<CheckpointRecord>)
        ensures
            record_views(records@) == self@.records,
    {
        &self.records
    }

    /// The checkpoint of `height`, if the ledger has it.
    pub fn checkpoint_at(&self, height: u64) -> (found: Option<&Checkpoint>)
        requires
            self.wf(),
        ensures
            match found {
                Some(checkpoint) => has_checkpoint(self@.records, height) && checkpoint@
                    == self@.records[insert_position(self@.records, height)].checkpoint
                    && checkpoint.height == height,
                None => !has_checkpoint(self@.records, height),
            },
    {
        let p: usize = self.position(height);
        proof {
            insert_position_splits(self@.records, height);
        }
        if p < self.records.len() && self.records[p].checkpoint.height == height {
            Some(&self.records[p].checkpoint)
        } else {
            None
        }
    }

    /// Tells whether a checkpoint is due at `height`.
    pub fn is_due(&self, height: u64) -> (due: bool)
        ensures
            due == is_due(self@.period, height),
    {
        self.period > 0 && height > 0 && height % self.period == 0
    }

    /// Finds where the checkpoint of `height` stands among the records, or
    /// would stand.
    fn position(&self, height: u64) -> (p: usize)
        ensures
            p == insert_position(self@.records, height),
    {
        let mut i: usize = self.records.len();
        assert(self@.records.take(i as int) =~= self@.records);
        while i > 0 && self.records[i - 1].checkpoint.height >= height
            invariant
                i <= self.records.len(),
                self@.records.len() == self.records.len(),
                insert_position(self@.records, height) == insert_position(
                    self@.records.take(i as int),
                    height,
                ),
            decreases i,
        {
            assert(self@.records.take(i as int).drop_last() =~= self@.records.take(i - 1));
            assert(self@.records.take(i as int).last() == self.records@[i - 1]@);
            i = i - 1;
        }
        proof {
            if i > 0 {
                assert(self@.records.take(i as int).last() == self.records@[i - 1]@);
            }
        }
        i
    }

    /// Makes the checkpoint of the block at `height`, if one is due and the
    /// ledger does not have it yet. The outcome and the ledger afterwards are
    /// those of `created`.
    pub fn maybe_create_checkpoint(
        &mut self,
        height: u64,
        block_hash: Option<[u8; 32]>,
        snapshot: GatewaySnapshot,
    ) -> (made: Result<Option<(Checkpoint, PowerUpdates)>, CheckpointError>)
        requires
            old(self).wf(),
            snapshot.power_table matches Some(table) ==> table.wf(),
        ensures
            final(self).wf(),
            (final(self)@, created_view(made)) == created(
                old(self)@,
                height,
                block_hash,
                snapshot.state_commitment@,
                byte_strings(snapshot.msgs@),
                power_view(snapshot.power_table),
            ),
    {
        if !self.is_due(height) {
            return Ok(None);
        }
        let hash: [u8; 32] = match block_hash {
            Some(hash) => hash,
            None => {
                return Err(CheckpointError::MissingBlockHash);
            },
        };
        let p: usize = self.position(height);
        proof {
            insert_position_splits(self@.records, height);
        }
        if p < self.records.len() && self.records[p].checkpoint.height == height {
            return Ok(None);
        }
        let GatewaySnapshot { state_commitment, msgs, power_table } = snapshot;
        let table: PowerTable = match power_table {
            Some(table) => table,
            None => {
                return Err(CheckpointError::PowerTableUnreadable);
            },
        };
        let updates = power_diff(&self.power, &table);
        let checkpoint = Checkpoint { height, block_hash: hash, state_commitment, msgs };
        let handed_out = checkpoint.clone();
        let ghost before = self@.records;
        let record = CheckpointRecord { checkpoint, signatories: Vec::new(), committed: false };
        proof {
            insert_keeps_order(before, record@);
        }
        self.records.insert(p, record);
        self.power = table;
        proof {
            let grown = before.insert(p as int, record@);
            assert(self@.records =~= grown);
            assert forall|i: int| 0 <= i < grown.len() implies signed_once(#[trigger] grown[i]) by {
                if i < p {
                    assert(grown[i] == before[i]);
                } else if i > p {
                    assert(grown[i] == before[i - 1]);
                }
            }
        }
        Ok(Some((handed_out, updates)))
    }

    /// Lists, by height, the checkpoints that still await the signature of
    /// the validator with this key: those whose commit window is open and
    /// that the validator is not among the signatories of.
    pub fn unsigned_checkpoints(&self, key: &ValidatorKey) -> (list: Vec<Checkpoint>)
        ensures
            checkpoint_views(list@) == unsigned(self@.records, *key),
            forall|a: int|
                0 <= a < list@.len() ==> lacks_signature(self@.records, *key, #[trigger] list@[a]@),
            self.wf() ==> forall|a: int, b: int|
                0 <= a < b < list@.len() ==> list@[a].height < list@[b].height,
    {
        let mut list: Vec<Checkpoint> = Vec::new();
        let n: usize = self.records.len();
        let mut i: usize = 0;
        while i < n
            invariant
                i <= n,
                n == self.records.len(),
                self@.records.len() == n,
                checkpoint_views(list@) == unsigned(self@.records.take(i as int), *key),
            decreases n - i,
        {
            assert(self@.records.take(i + 1).drop_last() =~= self@.records.take(i as int));
            assert(self@.records.take(i + 1).last() == self.records@[i as int]@);
            if !self.records[i].committed && !has_signed(&self.records[i], key) {
                let ghost before = checkpoint_views(list@);
                list.push(self.records[i].checkpoint.clone());
                assert(checkpoint_views(list@) =~= before.push(self.records@[i as int]@.checkpoint));
            }
            i = i + 1;
        }
        assert(self@.records.take(n as int) =~= self@.records);
        proof {
            unsigned_lack_signature(self@, *key);
            assert forall|a: int| 0 <= a < list@.len() implies lacks_signature(
                self@.records,
                *key,
                #[trigger] list@[a]@,
            ) by {
                assert(checkpoint_views(list@)[a] == list@[a]@);
            }
            if self.wf() {
                unsigned_by_height(self@.records, *key);
                assert forall|a: int, b: int| 0 <= a < b < list@.len() implies list@[a].height
                    < list@[b].height by {
                    assert(checkpoint_views(list@)[a] == list@[a]@);
                    assert(checkpoint_views(list@)[b] == list@[b]@);
                }
            }
        }
        list
    }

    /// Records that the validator with this key has signed the checkpoint
    /// of `height`. The outcome and the ledger afterwards are those of
    /// `signed`.
    pub fn record_signature(&mut self, height: u64, key: &ValidatorKey) -> (done: Result<
        (),
        SignatureError,
    >)
        requires
            old(self).wf(),
        ensures
            final(self).wf(),
            (final(self)@, done) == signed(old(self)@, height, *key),
    {
        let p: usize = self.position(height);
        proof {
            insert_position_splits(self@.records, height);
        }
        if p >= self.records.len() || self.records[p].checkpoint.height != height {
            return Err(SignatureError::UnknownCheckpoint);
        }
        if self.records[p].committed {
            return Err(SignatureError::WindowClosed);
        }
        if has_signed(&self.records[p], key) {
            return Err(SignatureError::AlreadySigned);
        }
        let ghost before = self@.records;
        let mut record = self.records.remove(p);
        record.signatories.push(*key);
        self.records.insert(p, record);
        proof {
            let after = before.update(p as int, with_signature(before[p as int], *key));
            assert(self@.records =~= after);
            assert forall|i: int| 0 <= i < after.len() implies signed_once(#[trigger] after[i]) by {
                if i != p {
                    assert(after[i] == before[i]);
                } else {
                    assert(signed_once(before[i]));
                }
            }
        }
        Ok(())
    }

    /// Closes the commit window of the checkpoint of `height`, and tells
    /// whether the ledger has that checkpoint.
    pub fn mark_committed(&mut self, height: u64) -> (found: bool)
        requires
            old(self).wf(),
        ensures
            final(self).wf(),
            found == has_checkpoint(old(self)@.records, height),
            final(self)@ == committed(old(self)@, height),
    {
        let p: usize = self.position(height);
        proof {
            insert_position_splits(self@.records, height);
        }
        if p >= self.records.len() || self.records[p].checkpoint.height != height {
            return false;
        }
        let ghost before = self@.records;
        let mut record = self.records.remove(p);
        record.committed = true;
        self.records.insert(p, record);
        proof {
            let after = before.update(p as int, RecordView { committed: true, ..before[p as int] });
            assert(self@.records =~= after);
            assert forall|i: int| 0 <= i < after.len() implies signed_once(#[trigger] after[i]) by {
                if i != p {
                    assert(after[i] == before[i]);
                } else {
                    assert(signed_once(before[i]));
                }
            }
        }
        true
    }
}

/// A checkpoint awaits the signature of `key` exactly when some record
/// holds it whose window is open and that `key` has not signed.
pub proof fn unsigned_members(records: Seq<RecordView>, key: ValidatorKey, checkpoint: CheckpointView)
    ensures
        unsigned(records, key).contains(checkpoint) <==> exists|i: int|
            0 <= i < records.len() && awaits_signature(#[trigger] records[i], key)
                && records[i].checkpoint == checkpoint,
    decreases records.len(),
{
    if records.len() > 0 {
        let front = records.drop_last();
        let rest = unsigned(front, key);
        unsigned_members(front, key, checkpoint);
        if unsigned(records, key).contains(checkpoint) {
            let a = choose|a: int|
                0 <= a < unsigned(records, key).len() && unsigned(records, key)[a] == checkpoint;
            if a < rest.len() {
                assert(rest[a] == checkpoint);
                assert(rest.contains(checkpoint));
                let i = choose|i: int|
                    0 <= i < front.len() && awaits_signature(#[trigger] front[i], key)
                        && front[i].checkpoint == checkpoint;
                assert(records[i] == front[i]);
            } else {
                assert(records[records.len() - 1] == records.last());
            }
        }
        if exists|i: int|
            0 <= i < records.len() && awaits_signature(#[trigger] records[i], key)
                && records[i].checkpoint == checkpoint {
            let i = choose|i: int|
                0 <= i < records.len() && awaits_signature(#[trigger] records[i], key)
                    && records[i].checkpoint == checkpoint;
            if i < records.len() - 1 {
                assert(front[i] == records[i]);
                assert(rest.contains(checkpoint));
                let a = choose|a: int| 0 <= a < rest.len() && rest[a] == checkpoint;
                assert(unsigned(records, key)[a] == checkpoint);
            } else {
                assert(unsigned(records, key)[rest.len() as int] == checkpoint);
            }
        }
    }
}

/// The checkpoints that await a signature come by height: where the
/// records stand by height, so does the list.
pub proof fn unsigned_by_height(records: Seq<RecordView>, key: ValidatorKey)
    requires
        heights_increase(records),
    ensures
        forall|a: int, b: int|
            0 <= a < b < unsigned(records, key).len() ==> unsigned(records, key)[a].height
                < unsigned(records, key)[b].height,
    decreases records.len(),
{
    if records.len() > 0 {
        let front = records.drop_last();
        let rest = unsigned(front, key);
        assert forall|i: int, j: int| 0 <= i < j < front.len() implies front[i].checkpoint.height
            < front[j].checkpoint.height by {
            assert(front[i] == records[i] && front[j] == records[j]);
        }
        unsigned_by_height(front, key);
        assert forall|a: int, b: int| 0 <= a < b < unsigned(records, key).len() implies unsigned(
            records,
            key,
        )[a].height < unsigned(records, key)[b].height by {
            if b == rest.len() {
                assert(rest.contains(rest[a]));
                unsigned_members(front, key, rest[a]);
                let i = choose|i: int|
                    0 <= i < front.len() && awaits_signature(#[trigger] front[i], key)
                        && front[i].checkpoint == rest[a];
                assert(front[i] == records[i]);
                assert(records[i].checkpoint.height < records[records.len() - 1].checkpoint.height);
            }
        }
    }
}

/// Whether some record holds `checkpoint` with its window open and without
/// `key` among its signatories.
pub open spec fn lacks_signature(
    records: Seq<RecordView>,
    key: ValidatorKey,
    checkpoint: CheckpointView,
) -> bool {
    exists|i: int|
        0 <= i < records.len() && awaits_signature(#[trigger] records[i], key)
            && records[i].checkpoint == checkpoint
}

/// Every checkpoint that the list holds lacks the signature of `key`: it
/// stands in the ledger with its window open and without `key` among its
/// signatories. And the list holds every such checkpoint.
pub proof fn unsigned_lack_signature(l: LedgerView, key: ValidatorKey)
    ensures
        forall|a: int|
            0 <= a < unsigned(l.records, key).len() ==> lacks_signature(
                l.records,
                key,
                #[trigger] unsigned(l.records, key)[a],
            ),
        forall|i: int|
            0 <= i < l.records.len() && awaits_signature(#[trigger] l.records[i], key) ==> unsigned(
                l.records,
                key,
            ).contains(l.records[i].checkpoint),
{
    let list = unsigned(l.records, key);
    assert forall|a: int| 0 <= a < list.len() implies lacks_signature(
        l.records,
        key,
        #[trigger] list[a],
    ) by {
        assert(list.contains(list[a]));
        unsigned_members(l.records, key, list[a]);
    }
    assert forall|i: int|
        0 <= i < l.records.len() && awaits_signature(#[trigger] l.records[i], key) implies list.contains(
        l.records[i].checkpoint,
    ) by {
        unsigned_members(l.records, key, l.records[i].checkpoint);
    }
}

/// Once the signature of `key` under the checkpoint of `height` is
/// recorded, that checkpoint no longer awaits the signature of `key`: no
/// checkpoint of that height is in the list. The checkpoints of other
/// heights await it as before.
pub proof fn signed_checkpoint_leaves_list(l: LedgerView, height: u64, key: ValidatorKey)
    requires
        well_formed_ledger(l),
        signed(l, height, key).1 is Ok,
    ensures
        forall|a: int|
            0 <= a < unsigned(signed(l, height, key).0.records, key).len() ==> #[trigger] unsigned(
                signed(l, height, key).0.records,
                key,
            )[a].height != height,
        forall|c: CheckpointView|
            c.height != height ==> (#[trigger] unsigned(signed(l, height, key).0.records, key).contains(
                c,
            ) <==> unsigned(l.records, key).contains(c)),
{
    let p = insert_position(l.records, height);
    insert_position_splits(l.records, height);
    let after = signed(l, height, key).0.records;
    let list = unsigned(after, key);
    assert(after[p].signatories.last() == key);
    assert(after[p].signatories.contains(key));
    assert forall|a: int| 0 <= a < list.len() implies #[trigger] list[a].height != height by {
        assert(list.contains(list[a]));
        unsigned_members(after, key, list[a]);
        let i = choose|i: int|
            0 <= i < after.len() && awaits_signature(#[trigger] after[i], key) && after[i].checkpoint
                == list[a];
        if i != p {
            assert(after[i] == l.records[i]);
            if i < p {
                assert(l.records[i].checkpoint.height < l.records[p].checkpoint.height);
            } else {
                assert(l.records[p].checkpoint.height < l.records[i].checkpoint.height);
            }
        }
    }
    assert forall|c: CheckpointView| c.height != height implies (#[trigger] list.contains(c)
        <==> unsigned(l.records, key).contains(c)) by {
        unsigned_members(after, key, c);
        unsigned_members(l.records, key, c);
        if list.contains(c) {
            let i = choose|i: int|
                0 <= i < after.len() && awaits_signature(#[trigger] after[i], key)
                    && after[i].checkpoint == c;
            assert(after[i] == l.records[i]);
        }
        if unsigned(l.records, key).contains(c) {
            let i = choose|i: int|
                0 <= i < l.records.len() && awaits_signature(#[trigger] l.records[i], key)
                    && l.records[i].checkpoint == c;
            assert(after[i] == l.records[i]);
        }
    }
}

/// A checkpoint that was just made awaits the signature of every
/// validator.
pub proof fn fresh_checkpoint_is_unsigned(
    l: LedgerView,
    height: u64,
    block_hash: Option<[u8; 32]>,
    state_commitment: Seq<u8>,
    msgs: Seq<Seq<u8>>,
    power: Option<Seq<Validator>>,
    key: ValidatorKey,
)
    requires
        heights_increase(l.records),
        created(l, height, block_hash, state_commitment, msgs, power).1 matches Ok(Some(_)),
    ensures
        created(l, height, block_hash, state_commitment, msgs, power).1 matches Ok(Some(made))
            && unsigned(
            created(l, height, block_hash, state_commitment, msgs, power).0.records,
            key,
        ).contains(made.0),
{
    let after = created(l, height, block_hash, state_commitment, msgs, power).0.records;
    let made = created(l, height, block_hash, state_commitment, msgs, power).1->Ok_0->0;
    let checkpoint = made.0;
    let p = insert_position(l.records, height);
    insert_position_splits(l.records, height);
    assert(after[p] == fresh_record(checkpoint));
    assert(awaits_signature(after[p], key));
    unsigned_members(after, key, checkpoint);
}

/// There is exactly one checkpoint for a height at which one is due. The
/// end of a block at such a height, with the hash of the block known and
/// the power table readable, makes the checkpoint of that height and hash,
/// and the ledger then has it. A second end of the same block makes none:
/// it hands out no checkpoint and leaves the ledger as it is, whatever it
/// is given. And a well-formed ledger never has two checkpoints of one
/// height.
pub proof fn one_checkpoint_per_height(
    l: LedgerView,
    height: u64,
    block_hash: [u8; 32],
    state_commitment: Seq<u8>,
    msgs: Seq<Seq<u8>>,
    power: Seq<Validator>,
    again_hash: Option<[u8; 32]>,
    again_commitment: Seq<u8>,
    again_msgs: Seq<Seq<u8>>,
    again_power: Option<Seq<Validator>>,
)
    requires
        well_formed_ledger(l),
        well_formed_table(power),
        is_due(l.period, height),
        !has_checkpoint(l.records, height),
    ensures
        ({
            let first = created(l, height, Some(block_hash), state_commitment, msgs, Some(power));
            let second = created(
                first.0,
                height,
                again_hash,
                again_commitment,
                again_msgs,
                again_power,
            );
            &&& first.1 matches Ok(Some(made)) && made.0.height == height && made.0.block_hash
                == block_hash
            &&& well_formed_ledger(first.0)
            &&& has_checkpoint(first.0.records, height)
            &&& first.0.records.len() == l.records.len() + 1
            &&& second.0 == first.0
            &&& !(second.1 matches Ok(Some(_)))
            &&& again_hash is Some ==> second.1 matches Ok(None)
        }),
{
    let first = created(l, height, Some(block_hash), state_commitment, msgs, Some(power));
    let p = insert_position(l.records, height);
    insert_position_splits(l.records, height);
    let made = first.1->Ok_0->0;
    let record = fresh_record(made.0);
    insert_keeps_order(l.records, record);
    assert(first.0.records[p] == record);
    assert forall|i: int| 0 <= i < first.0.records.len() implies signed_once(
        #[trigger] first.0.records[i],
    ) by {
        if i < p {
            assert(first.0.records[i] == l.records[i]);
        } else if i > p {
            assert(first.0.records[i] == l.records[i - 1]);
        }
    }
}

/// A checkpoint, once made, is never made again: where the ledger has the
/// checkpoint of a height, the end of a block at that height leaves the
/// ledger as it is and hands out no checkpoint, whatever it is given.
pub proof fn existing_checkpoint_is_kept(
    l: LedgerView,
    height: u64,
    block_hash: Option<[u8; 32]>,
    state_commitment: Seq<u8>,
    msgs: Seq<Seq<u8>>,
    power: Option<Seq<Validator>>,
)
    requires
        has_checkpoint(l.records, height),
    ensures
        created(l, height, block_hash, state_commitment, msgs, power).0 == l,
        !(created(l, height, block_hash, state_commitment, msgs, power).1 matches Ok(Some(_))),
{
}

/// However a block ends, the ledger stays well formed: there is never a
/// second checkpoint for a height.
pub proof fn created_keeps_ledger_well_formed(
    l: LedgerView,
    height: u64,
    block_hash: Option<[u8; 32]>,
    state_commitment: Seq<u8>,
    msgs: Seq<Seq<u8>>,
    power: Option<Seq<Validator>>,
)
    requires
        well_formed_ledger(l),
        power matches Some(table) ==> well_formed_table(table),
    ensures
        well_formed_ledger(created(l, height, block_hash, state_commitment, msgs, power).0),
{
    let after = created(l, height, block_hash, state_commitment, msgs, power);
    if after.1 matches Ok(Some(_)) {
        let made = after.1->Ok_0->0;
        let p = insert_position(l.records, height);
        insert_position_splits(l.records, height);
        insert_keeps_order(l.records, fresh_record(made.0));
        assert forall|i: int| 0 <= i < after.0.records.len() implies signed_once(
            #[trigger] after.0.records[i],
        ) by {
            if i < p {
                assert(after.0.records[i] == l.records[i]);
            } else if i > p {
                assert(after.0.records[i] == l.records[i - 1]);
            }
        }
    }
}

} // verus!
