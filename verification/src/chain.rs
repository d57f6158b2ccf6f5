//! The chain transaction confirmation engine.
//!
//! A submitted transaction hash is persisted at once as a pending record,
//! then a poll loop asks the ledger node for a receipt until one arrives.
//! Transient faults (no receipt yet, an RPC error) are retried; the first
//! receipt decides the terminal status, which is written exactly once as an
//! update keyed by the hash. On boot, every record still pending is handed
//! back to the same procedure.
//!
//! The polling itself suspends on the network, so the loop here runs over
//! the sequence of poll outcomes the node returned; the caller performs the
//! polls and the sleeps between them.

use vstd::prelude::*;

use crate::error::Error;

verus! {

/// Terminal status of a transaction that failed on chain.
pub const SEND_STATUS_FAILED: i32 = -1;

/// Status of a transaction submitted but not yet decided.
pub const SEND_STATUS_PENDING: i32 = 0;

/// Terminal status of a transaction included with success.
pub const SEND_STATUS_CONFIRMED: i32 = 1;

/// One row of the transaction ledger, keyed by its hash.
#[derive(Debug)]
pub struct TxRecord {
    pub tx_hash: String,
    pub send_status: i32,
    pub block_number: Option<i64>,
    pub created_at: i64,
    pub updated_at: i64,
}

impl Clone for TxRecord {
    fn clone(&self) -> (r: Self)
        ensures
            r == *self,
    {
        TxRecord {
            tx_hash: self.tx_hash.clone(),
            send_status: self.send_status,
            block_number: self.block_number,
            created_at: self.created_at,
            updated_at: self.updated_at,
        }
    }
}

/// What one receipt fetch returned.
#[derive(Clone, Copy, PartialEq, Eq, Structural, Debug)]
pub struct TxReceipt {
    /// Whether the receipt's status flag reports success.
    pub status_ok: bool,
    /// The block the transaction was included in, where the node reported one.
    pub block_number: Option<i64>,
}

/// What one poll of the node produced.
#[derive(Clone, Copy, PartialEq, Eq, Structural, Debug)]
pub enum PollOutcome {
    /// A receipt is available.
    Receipt(TxReceipt),
    /// No receipt yet: the transaction is still unconfirmed.
    NotFound,
    /// The node could not be asked; a transient infrastructure fault.
    RpcError,
}

/// What the confirmation procedure does with one poll outcome.
#[derive(Clone, Copy, PartialEq, Eq, Structural, Debug)]
pub enum ConfirmStep {
    /// Poll again after the backoff.
    Retry,
    /// Write this terminal status and stop.
    Finalize { send_status: i32, block_number: Option<i64> },
}

/// A poll outcome that ends the loop: only an actual receipt decides.
pub open spec fn is_decisive(o: PollOutcome) -> bool {
    o is Receipt
}

/// The decision taken on one poll outcome: a successful receipt confirms
/// with its block number, a failed receipt marks failure with no block, and
/// anything transient is retried.
pub open spec fn spec_confirm_decision(o: PollOutcome) -> ConfirmStep {
    match o {
        PollOutcome::Receipt(rc) => if rc.status_ok {
            ConfirmStep::Finalize { send_status: SEND_STATUS_CONFIRMED, block_number: rc.block_number }
        } else {
            ConfirmStep::Finalize { send_status: SEND_STATUS_FAILED, block_number: None }
        },
        PollOutcome::NotFound => ConfirmStep::Retry,
        PollOutcome::RpcError => ConfirmStep::Retry,
    }
}

pub fn confirm_decision(outcome: &PollOutcome) -> (r: ConfirmStep)
    ensures
        r == spec_confirm_decision(*outcome),
{
    match outcome {
        PollOutcome::Receipt(rc) => {
            if rc.status_ok {
                ConfirmStep::Finalize { send_status: SEND_STATUS_CONFIRMED, block_number: rc.block_number }
            } else {
                ConfirmStep::Finalize { send_status: SEND_STATUS_FAILED, block_number: None }
            }
        },
        PollOutcome::NotFound => ConfirmStep::Retry,
        PollOutcome::RpcError => ConfirmStep::Retry,
    }
}

/// The first receipt in a trace of poll outcomes, if any arrived.
pub open spec fn first_receipt(os: Seq<PollOutcome>) -> Option<PollOutcome>
    decreases os.len(),
{
    if os.len() == 0 {
        None
    } else if is_decisive(os[0]) {
        Some(os[0])
    } else {
        first_receipt(os.drop_first())
    }
}

proof fn lemma_first_receipt_skip(os: Seq<PollOutcome>, i: int)
    requires
        0 <= i <= os.len(),
        forall|j: int| 0 <= j < i ==> !is_decisive(os[j]),
    ensures
        first_receipt(os) == first_receipt(os.subrange(i, os.len() as int)),
    decreases i,
{
    if i > 0 {
        assert(os.subrange(0, os.len() as int) =~= os);
        assert(os.subrange(i - 1, os.len() as int).drop_first() =~= os.subrange(
            i,
            os.len() as int,
        ));
        lemma_first_receipt_skip(os, i - 1);
    } else {
        assert(os.subrange(0, os.len() as int) =~= os);
    }
}

/// The records under a given status, in ledger order.
pub open spec fn with_status(s: Seq<TxRecord>, status: i32) -> Seq<TxRecord>
    decreases s.len(),
{
    if s.len() == 0 {
        Seq::empty()
    } else if s.last().send_status == status {
        with_status(s.drop_last(), status).push(s.last())
    } else {
        with_status(s.drop_last(), status)
    }
}

/// Every record `with_status` selects carries that status.
pub proof fn lemma_with_status_selects(s: Seq<TxRecord>, status: i32)
    ensures
        forall|k: int|
            0 <= k < with_status(s, status).len() ==> (#[trigger] with_status(s, status)[
                k
            ]).send_status == status,
    decreases s.len(),
{
    if s.len() > 0 {
        lemma_with_status_selects(s.drop_last(), status);
    }
}

/// Every record under the status is selected: the recovery sweep misses
/// none of the pending records.
pub proof fn lemma_with_status_contains(s: Seq<TxRecord>, status: i32, i: int)
    requires
        0 <= i < s.len(),
        s[i].send_status == status,
    ensures
        with_status(s, status).contains(s[i]),
    decreases s.len(),
{
    let pre = with_status(s.drop_last(), status);
    if i < s.len() - 1 {
        lemma_with_status_contains(s.drop_last(), status, i);
        assert(s.drop_last()[i] == s[i]);
        let k = choose|k: int| 0 <= k < pre.len() && pre[k] == s[i];
        if s.last().send_status == status {
            assert(pre.push(s.last())[k] == s[i]);
        }
    } else {
        assert(pre.push(s.last())[pre.len() as int] == s[i]);
    }
}

/// That a record with this hash exists at index `i`.
pub open spec fn hash_at(s: Seq<TxRecord>, h: Seq<char>, i: int) -> bool {
    0 <= i < s.len() && s[i].tx_hash@ == h
}

/// That some record carries this hash.
pub open spec fn has_hash(s: Seq<TxRecord>, h: Seq<char>) -> bool {
    exists|i: int| hash_at(s, h, i)
}

/// The one terminal write: every record under the hash takes the terminal
/// status, block number and update time, and no other record moves. Keyed
/// by the hash, it is a pure upsert: see
/// [`lemma_terminal_write_idempotent`].
pub open spec fn terminal_write(
    pre: Seq<TxRecord>,
    post: Seq<TxRecord>,
    h: Seq<char>,
    status: i32,
    block_number: Option<i64>,
    now: i64,
) -> bool {
    &&& post.len() == pre.len()
    &&& forall|j: int| 0 <= j < pre.len() && pre[j].tx_hash@ != h ==> post[j] == pre[j]
    &&& forall|j: int|
        0 <= j < pre.len() && pre[j].tx_hash@ == h ==> {
            &&& (#[trigger] post[j]).tx_hash == pre[j].tx_hash
            &&& post[j].send_status == status
            &&& post[j].block_number == block_number
            &&& post[j].created_at == pre[j].created_at
            &&& post[j].updated_at == now
        }
}

/// Law: the terminal write is idempotent. Two confirmation procedures for
/// the same hash that learned the same receipt outcome leave, whatever
/// their order, exactly the state a single write leaves.
pub proof fn lemma_terminal_write_idempotent(
    pre: Seq<TxRecord>,
    mid: Seq<TxRecord>,
    post: Seq<TxRecord>,
    h: Seq<char>,
    status: i32,
    block_number: Option<i64>,
    now: i64,
)
    requires
        terminal_write(pre, mid, h, status, block_number, now),
        terminal_write(mid, post, h, status, block_number, now),
    ensures
        post == mid,
{
    assert forall|j: int| 0 <= j < mid.len() implies post[j] == mid[j] by {
        if pre[j].tx_hash@ == h {
            assert(mid[j].tx_hash@ == h);
        }
    }
    assert(post =~= mid);
}

/// The persistent transaction ledger: one row per submitted hash. Models
/// the durable store the engine writes through; hashes are unique, as the
/// store's natural key makes them.
pub struct TxLedger {
    records: Vec<TxRecord>,
}

impl View for TxLedger {
    type V = Seq<TxRecord>;

    closed spec fn view(&self) -> Seq<TxRecord> {
        self.records@
    }
}

impl TxLedger {
    /// Hashes are unique: the hash is the row's natural key.
    pub open spec fn wf(self) -> bool {
        forall|i: int, j: int|
            0 <= i < j < self@.len() ==> (#[trigger] self@[i]).tx_hash@ != (
            #[trigger] self@[j]).tx_hash@
    }

    pub fn new() -> (r: TxLedger)
        ensures
            r@ =~= Seq::<TxRecord>::empty(),
            r.wf(),
    {
        TxLedger { records: Vec::new() }
    }

    fn find_index(&self, tx_hash: &str) -> (r: Option<usize>)
        ensures
            match r {
                Some(i) => hash_at(self@, tx_hash@, i as int),
                None => !has_hash(self@, tx_hash@),
            },
    {
        let h = tx_hash.to_owned();
        let n = self.records.len();
        let mut i: usize = 0;
        while i < n
            invariant
                n == self@.len(),
                i <= n,
                h@ == tx_hash@,
                forall|j: int| 0 <= j < i ==> (#[trigger] self@[j]).tx_hash@ != tx_hash@,
            decreases n - i,
        {
            if self.records[i].tx_hash == h {
                return Some(i);
            }
            i = i + 1;
        }
        None
    }

    /// Records a just-submitted transaction as pending. This write happens
    /// the instant the node accepts the transaction, before any poll.
    pub fn create(&mut self, tx_hash: &str, now: i64) -> (r: Result<(), Error>)
        requires
            old(self).wf(),
        ensures
            final(self).wf(),
            match r {
                Ok(()) => {
                    &&& !has_hash(old(self)@, tx_hash@)
                    &&& final(self)@.len() == old(self)@.len() + 1
                    &&& final(self)@.drop_last() == old(self)@
                    &&& final(self)@.last().tx_hash@ == tx_hash@
                    &&& final(self)@.last().send_status == SEND_STATUS_PENDING
                    &&& final(self)@.last().block_number is None
                    &&& final(self)@.last().created_at == now
                    &&& final(self)@.last().updated_at == now
                },
                Err(e) => {
                    &&& e == Error::DuplicateRecord
                    &&& has_hash(old(self)@, tx_hash@)
                    &&& final(self)@ == old(self)@
                },
            },
    {
        match self.find_index(tx_hash) {
            Some(_) => Err(Error::DuplicateRecord),
            None => {
                let rec = TxRecord {
                    tx_hash: tx_hash.to_owned(),
                    send_status: SEND_STATUS_PENDING,
                    block_number: None,
                    created_at: now,
                    updated_at: now,
                };
                self.records.push(rec);
                proof {
                    assert(self@.drop_last() =~= old(self)@);
                    assert forall|i: int, j: int| 0 <= i < j < self@.len() implies (
                    #[trigger] self@[i]).tx_hash@ != (#[trigger] self@[j]).tx_hash@ by {
                        if j == self@.len() - 1 {
                            assert(!hash_at(old(self)@, tx_hash@, i));
                        }
                    }
                }
                Ok(())
            },
        }
    }

    /// The terminal write: sets the status and block number of the record
    /// under the hash, an update keyed by the hash that touches nothing
    /// else.
    pub fn update_send_status(
        &mut self,
        tx_hash: &str,
        send_status: i32,
        block_number: Option<i64>,
        now: i64,
    ) -> (r: Result<(), Error>)
        requires
            old(self).wf(),
        ensures
            final(self).wf(),
            match r {
                Ok(()) => has_hash(old(self)@, tx_hash@) && terminal_write(
                    old(self)@,
                    final(self)@,
                    tx_hash@,
                    send_status,
                    block_number,
                    now,
                ),
                Err(e) => {
                    &&& e == Error::RecordNotFound
                    &&& !has_hash(old(self)@, tx_hash@)
                    &&& final(self)@ == old(self)@
                },
            },
    {
        match self.find_index(tx_hash) {
            None => Err(Error::RecordNotFound),
            Some(i) => {
                let updated = TxRecord {
                    tx_hash: self.records[i].tx_hash.clone(),
                    send_status,
                    block_number,
                    created_at: self.records[i].created_at,
                    updated_at: now,
                };
                self.records.set(i, updated);
                proof {
                    assert forall|j: int|
                        0 <= j < old(self)@.len() && old(self)@[j].tx_hash@ == tx_hash@ implies j
                        == i as int by {}
                }
                Ok(())
            },
        }
    }

    /// All records under a given status, in ledger order.
    pub fn find_by_send_status(&self, send_status: i32) -> (r: Vec<TxRecord>)
        ensures
            r@ == with_status(self@, send_status),
    {
        let n = self.records.len();
        let mut r: Vec<TxRecord> = Vec::new();
        let mut i: usize = 0;
        while i < n
            invariant
                n == self@.len(),
                i <= n,
                r@ == with_status(self@.take(i as int), send_status),
            decreases n - i,
        {
            if self.records[i].send_status == send_status {
                r.push(self.records[i].clone());
            }
            proof {
                assert(self@.take(i + 1 as int).drop_last() =~= self@.take(i as int));
                assert(self@.take(i + 1 as int).last() == self@[i as int]);
            }
            i = i + 1;
        }
        proof {
            assert(self@.take(n as int) =~= self@);
        }
        r
    }

    /// The boot-time recovery sweep's work list: exactly the records still
    /// pending, one entry per record, each to be handed back to the
    /// confirmation procedure.
    pub fn confirm_pending_txs(&self) -> (r: Vec<TxRecord>)
        ensures
            r@ == with_status(self@, SEND_STATUS_PENDING),
    {
        self.find_by_send_status(SEND_STATUS_PENDING)
    }
}

/// The confirmation procedure for one hash, run over the poll outcomes the
/// node returned, in order. Transient outcomes are retried past; the first
/// receipt decides, and its terminal status is written exactly once.
///
/// Returns `Ok(true)` when a terminal status was persisted, `Ok(false)`
/// when the trace held no receipt (nothing is written then: the procedure
/// never gives up silently — the caller polls on or runs recovery later).
pub fn confirm_tx(
    ledger: &mut TxLedger,
    tx_hash: &str,
    outcomes: &Vec<PollOutcome>,
    now: i64,
) -> (r: Result<bool, Error>)
    requires
        old(ledger).wf(),
    ensures
        final(ledger).wf(),
        match r {
            Ok(true) => {
                &&& first_receipt(outcomes@) is Some
                &&& has_hash(old(ledger)@, tx_hash@)
                &&& {
                    let step = spec_confirm_decision(first_receipt(outcomes@).unwrap());
                    &&& step is Finalize
                    &&& terminal_write(
                        old(ledger)@,
                        final(ledger)@,
                        tx_hash@,
                        step->Finalize_send_status,
                        step->Finalize_block_number,
                        now,
                    )
                }
            },
            Ok(false) => first_receipt(outcomes@) is None && final(ledger)@ == old(ledger)@,
            Err(e) => {
                &&& e == Error::RecordNotFound
                &&& first_receipt(outcomes@) is Some
                &&& !has_hash(old(ledger)@, tx_hash@)
                &&& final(ledger)@ == old(ledger)@
            },
        },
{
    let n = outcomes.len();
    let mut i: usize = 0;
    while i < n
        invariant
            old(ledger).wf(),
            ledger == old(ledger),
            n == outcomes@.len(),
            i <= n,
            forall|j: int| 0 <= j < i ==> !is_decisive(outcomes@[j]),
        decreases n - i,
    {
        match confirm_decision(&outcomes[i]) {
            ConfirmStep::Retry => {
                i = i + 1;
            },
            ConfirmStep::Finalize { send_status, block_number } => {
                proof {
                    lemma_first_receipt_skip(outcomes@, i as int);
                    assert(outcomes@.subrange(i as int, n as int)[0] == outcomes@[i as int]);
                }
                match ledger.update_send_status(tx_hash, send_status, block_number, now) {
                    Ok(()) => {
                        return Ok(true);
                    },
                    Err(e) => {
                        return Err(e);
                    },
                }
            },
        }
    }
    proof {
        lemma_first_receipt_skip(outcomes@, n as int);
        assert(outcomes@.subrange(n as int, n as int) =~= Seq::<PollOutcome>::empty());
    }
    Ok(false)
}

} // verus!
