//! The state machine of an atomic replace of the records under one key.

use vstd::prelude::*;

verus! {

/// Where an atomic replace of one dataset key stands.
#[derive(Debug, Clone, Copy, PartialEq, Eq, Structural)]
pub enum TxState {
    /// A store transaction is open; the count of existing records is awaited.
    Started,
    /// Records exist for the key; the caller's confirmation is awaited.
    Checked,
    /// Replacing was confirmed; the deletion of the existing records is awaited.
    Confirmed,
    /// No old record is left (deleted, or none existed); record `inserted`
    /// of the new ones is being inserted.
    Deleted,
    /// Every new record is inserted; the commit is awaited.
    Inserted,
    /// The replace is durable.
    Committed,
    /// The caller declined to replace existing records; nothing changed.
    Aborted,
    /// A store operation failed; the transaction is rolled back.
    RolledBack,
}

/// What the store or the caller reports back.
#[derive(Debug, Clone, Copy, PartialEq, Eq, Structural)]
pub enum TxEvent {
    /// The number of records stored under the key.
    Counted(u64),
    /// The caller's answer to the confirmation request.
    Answer(bool),
    /// The requested store operation succeeded.
    Succeeded,
    /// The requested store operation failed.
    Failed,
}

/// What to do next.
#[derive(Debug, Clone, Copy, PartialEq, Eq, Structural)]
pub enum TxAction {
    /// Count the records stored under the key.
    Count,
    /// Ask the caller whether to replace this many existing records.
    Confirm(u64),
    /// Delete every record stored under the key.
    Delete,
    /// Insert the new record at this position.
    Insert(usize),
    /// Commit the transaction.
    Commit,
    /// Roll the transaction back.
    Rollback,
    /// Nothing: the transaction is over.
    Stop,
}

/// How a finished replace ended.
#[derive(Debug, Clone, Copy, PartialEq, Eq, Structural)]
pub enum ReplaceOutcome {
    Replaced,
    Declined,
    Failed,
}

/// An in-flight "delete existing, then insert new" replace of the records
/// stored under one dataset key, run inside one store transaction.
#[derive(Debug, Clone)]
pub struct ReplaceTransaction {
    pub key: String,
    pub state: TxState,
    /// Records stored under the key before the transaction.
    pub existing: u64,
    /// New records to insert.
    pub total: usize,
    /// New records inserted so far.
    pub inserted: usize,
    /// The existing records were deleted.
    pub deleted: bool,
}

/// Old records are out of the way: none existed, or they were deleted.
pub open spec fn cleared(s: ReplaceTransaction) -> bool {
    s.existing == 0 || s.deleted
}

/// Entering the insert phase.
pub open spec fn begin_insert(s: ReplaceTransaction) -> (ReplaceTransaction, TxAction) {
    if s.total == 0 {
        (ReplaceTransaction { state: TxState::Inserted, inserted: 0, ..s }, TxAction::Commit)
    } else {
        (ReplaceTransaction { state: TxState::Deleted, inserted: 0, ..s }, TxAction::Insert(0))
    }
}

/// Any failure, or an event that the state does not await, rolls back.
pub open spec fn fail(s: ReplaceTransaction) -> (ReplaceTransaction, TxAction) {
    (ReplaceTransaction { state: TxState::RolledBack, ..s }, TxAction::Rollback)
}

/// The transition on event `e`: the next state and the action to perform.
pub open spec fn next_spec(s: ReplaceTransaction, e: TxEvent) -> (ReplaceTransaction, TxAction) {
    match s.state {
        TxState::Started => match e {
            TxEvent::Counted(n) => if n == 0 {
                begin_insert(ReplaceTransaction { existing: 0, ..s })
            } else {
                (ReplaceTransaction { state: TxState::Checked, existing: n, ..s }, TxAction::Confirm(n))
            },
            _ => fail(s),
        },
        TxState::Checked => match e {
            TxEvent::Answer(true) => (
                ReplaceTransaction { state: TxState::Confirmed, ..s },
                TxAction::Delete,
            ),
            TxEvent::Answer(false) => (
                ReplaceTransaction { state: TxState::Aborted, ..s },
                TxAction::Rollback,
            ),
            _ => fail(s),
        },
        TxState::Confirmed => match e {
            TxEvent::Succeeded => begin_insert(ReplaceTransaction { deleted: true, ..s }),
            _ => fail(s),
        },
        TxState::Deleted => match e {
            TxEvent::Succeeded => if s.inserted + 1 == s.total {
                (
                    ReplaceTransaction {
                        state: TxState::Inserted,
                        inserted: (s.inserted + 1) as usize,
                        ..s
                    },
                    TxAction::Commit,
                )
            } else {
                (
                    ReplaceTransaction { inserted: (s.inserted + 1) as usize, ..s },
                    TxAction::Insert((s.inserted + 1) as usize),
                )
            },
            _ => fail(s),
        },
        TxState::Inserted => match e {
            TxEvent::Succeeded => (
                ReplaceTransaction { state: TxState::Committed, ..s },
                TxAction::Stop,
            ),
            _ => fail(s),
        },
        _ => (s, TxAction::Stop),
    }
}

/// The number of records under the key that the store holds once the
/// transaction is over: the new records if it committed, else the records
/// it held before (`prior`), since nothing uncommitted is kept.
pub open spec fn count_after(s: ReplaceTransaction, prior: int) -> int {
    if s.state == TxState::Committed {
        s.total as int
    } else {
        prior
    }
}

/// A replace that has just been opened.
pub open spec fn started(key: String, total: usize) -> ReplaceTransaction {
    ReplaceTransaction {
        key,
        state: TxState::Started,
        existing: 0,
        total,
        inserted: 0,
        deleted: false,
    }
}

impl ReplaceTransaction {
    pub open spec fn wf(&self) -> bool {
        &&& self.inserted <= self.total
        &&& self.state == TxState::Started ==> self.existing == 0 && self.inserted == 0
            && !self.deleted
        &&& self.state == TxState::Checked ==> self.existing > 0 && self.inserted == 0
            && !self.deleted
        &&& self.state == TxState::Confirmed ==> self.existing > 0 && self.inserted == 0
            && !self.deleted
        &&& self.state == TxState::Deleted ==> cleared(*self) && self.inserted < self.total
        &&& self.state == TxState::Inserted ==> cleared(*self) && self.inserted == self.total
        &&& self.state == TxState::Committed ==> cleared(*self) && self.inserted == self.total
    }

    /// A replace of the records under `key` by `total` new ones, in a store
    /// transaction that was just opened. The first action is to count the
    /// existing records.
    pub fn new(key: String, total: usize) -> (r: (ReplaceTransaction, TxAction))
        ensures
            r.0 == started(key, total),
            r.0.wf(),
            r.1 == TxAction::Count,
    {
        (
            ReplaceTransaction {
                key,
                state: TxState::Started,
                existing: 0,
                total,
                inserted: 0,
                deleted: false,
            },
            TxAction::Count,
        )
    }

    fn begin_insert(&mut self) -> (a: TxAction)
        requires
            old(self).inserted <= old(self).total,
        ensures
            (*final(self), a) == begin_insert(*old(self)),
    {
        self.inserted = 0;
        if self.total == 0 {
            self.state = TxState::Inserted;
            TxAction::Commit
        } else {
            self.state = TxState::Deleted;
            TxAction::Insert(0)
        }
    }

    fn fail(&mut self) -> (a: TxAction)
        ensures
            (*final(self), a) == fail(*old(self)),
    {
        self.state = TxState::RolledBack;
        TxAction::Rollback
    }

    /// Takes the report of the last action and decides the next one.
    pub fn step(&mut self, e: TxEvent) -> (a: TxAction)
        requires
            old(self).wf(),
        ensures
            (*final(self), a) == next_spec(*old(self), e),
            final(self).wf(),
            a == TxAction::Commit ==> final(self).inserted == final(self).total && cleared(*final(self)),
    {
        match self.state {
            TxState::Started => match e {
                TxEvent::Counted(n) => {
                    if n == 0 {
                        self.existing = 0;
                        self.begin_insert()
                    } else {
                        self.state = TxState::Checked;
                        self.existing = n;
                        TxAction::Confirm(n)
                    }
                },
                _ => self.fail(),
            },
            TxState::Checked => match e {
                TxEvent::Answer(true) => {
                    self.state = TxState::Confirmed;
                    TxAction::Delete
                },
                TxEvent::Answer(false) => {
                    self.state = TxState::Aborted;
                    TxAction::Rollback
                },
                _ => self.fail(),
            },
            TxState::Confirmed => match e {
                TxEvent::Succeeded => {
                    self.deleted = true;
                    self.begin_insert()
                },
                _ => self.fail(),
            },
            TxState::Deleted => match e {
                TxEvent::Succeeded => {
                    self.inserted = self.inserted + 1;
                    if self.inserted == self.total {
                        self.state = TxState::Inserted;
                        TxAction::Commit
                    } else {
                        TxAction::Insert(self.inserted)
                    }
                },
                _ => self.fail(),
            },
            TxState::Inserted => match e {
                TxEvent::Succeeded => {
                    self.state = TxState::Committed;
                    TxAction::Stop
                },
                _ => self.fail(),
            },
            _ => TxAction::Stop,
        }
    }

    /// How the transaction ended, once it has.
    pub fn outcome(&self) -> (r: Option<ReplaceOutcome>)
        ensures
            r == match self.state {
                TxState::Committed => Some(ReplaceOutcome::Replaced),
                TxState::Aborted => Some(ReplaceOutcome::Declined),
                TxState::RolledBack => Some(ReplaceOutcome::Failed),
                _ => None::<ReplaceOutcome>,
            },
    {
        match self.state {
            TxState::Committed => Some(ReplaceOutcome::Replaced),
            TxState::Aborted => Some(ReplaceOutcome::Declined),
            TxState::RolledBack => Some(ReplaceOutcome::Failed),
            _ => None,
        }
    }
}

/// Where no record exists under the key, the replace goes straight to
/// inserting (or, with nothing to insert, to committing) without asking
/// for confirmation.
pub proof fn lemma_no_prior_records_skip_confirmation(key: String, total: usize)
    ensures
        next_spec(started(key, total), TxEvent::Counted(0)).1 == if total == 0 {
            TxAction::Commit
        } else {
            TxAction::Insert(0)
        },
        next_spec(started(key, total), TxEvent::Counted(0)).0.state != TxState::Checked,
        !(next_spec(started(key, total), TxEvent::Counted(0)).1 is Confirm),
{
}

/// Where records exist under the key and the caller declines to replace
/// them, the transaction is aborted and rolled back, and the store keeps
/// the records it had, whatever is reported afterwards.
pub proof fn lemma_declined_keeps_records(key: String, total: usize, n: u64, e: TxEvent)
    requires
        n >= 1,
    ensures
        ({
            let (s1, a1) = next_spec(started(key, total), TxEvent::Counted(n));
            let (s2, a2) = next_spec(s1, TxEvent::Answer(false));
            &&& a1 == TxAction::Confirm(n)
            &&& s2.state == TxState::Aborted
            &&& a2 == TxAction::Rollback
            &&& count_after(s2, n as int) == n
            &&& next_spec(s2, e) == (s2, TxAction::Stop)
        }),
{
}

/// A failure reported at any point before the transaction is over rolls it
/// back, and the store keeps the records it had before the transaction.
pub proof fn lemma_failure_rolls_back(s: ReplaceTransaction, prior: int)
    requires
        s.wf(),
        s.state != TxState::Committed,
        s.state != TxState::Aborted,
        s.state != TxState::RolledBack,
    ensures
        next_spec(s, TxEvent::Failed).0.state == TxState::RolledBack,
        next_spec(s, TxEvent::Failed).1 == TxAction::Rollback,
        count_after(next_spec(s, TxEvent::Failed).0, prior) == prior,
{
}

/// The transaction after it has taken each of `events` in turn.
pub open spec fn run(s: ReplaceTransaction, events: Seq<TxEvent>) -> ReplaceTransaction
    decreases events.len(),
{
    if events.len() == 0 {
        s
    } else {
        run(next_spec(s, events[0]).0, events.drop_first())
    }
}

/// `k` reports of success in a row.
pub open spec fn successes(k: nat) -> Seq<TxEvent> {
    Seq::new(k, |_i: int| TxEvent::Succeeded)
}

proof fn lemma_run_append(s: ReplaceTransaction, a: Seq<TxEvent>, b: Seq<TxEvent>)
    ensures
        run(s, a + b) == run(run(s, a), b),
    decreases a.len(),
{
    if a.len() > 0 {
        assert((a + b).drop_first() =~= a.drop_first() + b);
        assert((a + b)[0] == a[0]);
        lemma_run_append(next_spec(s, a[0]).0, a.drop_first(), b);
    } else {
        assert(a + b =~= b);
    }
}

proof fn lemma_inserting_run(s: ReplaceTransaction, k: nat)
    requires
        s.state == TxState::Deleted,
        s.inserted + k < s.total,
    ensures
        run(s, successes(k)) == (ReplaceTransaction { inserted: (s.inserted + k) as usize, ..s }),
    decreases k,
{
    if k == 0 {
        assert(successes(0) =~= Seq::<TxEvent>::empty());
    } else {
        let t = next_spec(s, TxEvent::Succeeded).0;
        assert(successes(k).drop_first() =~= successes((k - 1) as nat));
        lemma_inserting_run(t, (k - 1) as nat);
    }
}

/// An insert that fails after `k` of the new records went in rolls the
/// whole replace back: none of them is kept, and the store keeps the `n`
/// records it held before the transaction.
pub proof fn lemma_insert_failure_keeps_records(key: String, total: usize, n: u64, k: nat)
    requires
        k < total,
    ensures
        ({
            let opening = if n == 0 {
                seq![TxEvent::Counted(0)]
            } else {
                seq![TxEvent::Counted(n), TxEvent::Answer(true), TxEvent::Succeeded]
            };
            let s = run(started(key, total), opening + successes(k) + seq![TxEvent::Failed]);
            &&& s.state == TxState::RolledBack
            &&& count_after(s, n as int) == n
        }),
{
    let s0 = started(key, total);
    let opening = if n == 0 {
        seq![TxEvent::Counted(0)]
    } else {
        seq![TxEvent::Counted(n), TxEvent::Answer(true), TxEvent::Succeeded]
    };
    let s1 = run(s0, opening);
    reveal_with_fuel(run, 4);
    if n == 0 {
        assert(opening.drop_first() =~= Seq::<TxEvent>::empty());
    } else {
        assert(opening.drop_first() =~= seq![TxEvent::Answer(true), TxEvent::Succeeded]);
        assert(opening.drop_first().drop_first() =~= seq![TxEvent::Succeeded]);
        assert(opening.drop_first().drop_first().drop_first() =~= Seq::<TxEvent>::empty());
    }
    assert(s1.state == TxState::Deleted && s1.inserted == 0);
    lemma_inserting_run(s1, k);
    let s2 = run(s1, successes(k));
    lemma_run_append(s0, opening, successes(k));
    lemma_run_append(s0, opening + successes(k), seq![TxEvent::Failed]);
    assert(seq![TxEvent::Failed].drop_first() =~= Seq::<TxEvent>::empty());
    assert(run(s2, seq![TxEvent::Failed]).state == TxState::RolledBack);
}

} // verus!
