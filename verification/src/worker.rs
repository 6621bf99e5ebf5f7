//! The rules of a faucet worker: when its loop stops, which queued jobs make
//! it into a batch transaction, and what every job of a batch is answered.
//!
//! A worker drains up to `max_batch_size` queued orders, builds one note per
//! order, mints all of them in a single transaction and answers each order.
//! Building notes and submitting the transaction happen outside; the
//! functions here take what those steps produced and decide the rest.

use vstd::prelude::*;
use vstd::string::*;

use crate::mint::{MintOutcome, NoteKind};
use crate::text::concat2;

use base64::prelude::{Engine, BASE64_STANDARD};
use miden_protocol::asset::AssetAmount;
use miden_protocol::errors::AssetError;

verus! {

/// The largest amount a fungible asset can hold: 2^63 - 2^31.
pub const MAX_ASSET_AMOUNT: u64 = 9223372034707292160;

// ---------------------------------------------------------------------------
// The worker loop
// ---------------------------------------------------------------------------

/// What woke a worker up.
#[derive(Debug, Clone, Copy, PartialEq, Eq, Structural)]
pub enum WorkerEvent {
    /// The service is shutting down.
    Cancelled,
    /// This many orders were taken from the queue; zero means the queue is
    /// closed and empty.
    Received(usize),
}

/// Whether the worker processes a batch (`true`) or stops (`false`).
pub fn keeps_running(event: WorkerEvent) -> (r: bool)
    ensures
        r <==> (event matches WorkerEvent::Received(n) && n > 0),
{
    match event {
        WorkerEvent::Cancelled => false,
        WorkerEvent::Received(n) => n > 0,
    }
}

/// The startup error a worker reports for its token.
pub fn startup_failure(symbol: &str, detail: &str) -> (r: String)
    ensures
        r@ == "["@ + symbol@ + "] "@ + detail@,
{
    let s = String::from_str("[");
    let s = s.concat(symbol);
    let s = s.concat("] ");
    s.concat(detail)
}

// ---------------------------------------------------------------------------
// Preparing the jobs of a batch
// ---------------------------------------------------------------------------

/// The text of the error that the protocol reports for an asset amount above
/// [`MAX_ASSET_AMOUNT`].
pub uninterp spec fn asset_amount_error(amount: u64) -> Seq<char>;

#[verifier::external_type_specification]
#[verifier::external_body]
pub struct ExAssetAmount(AssetAmount);

#[verifier::external_type_specification]
#[verifier::external_body]
pub struct ExAssetError(AssetError);

/// Calls `AssetAmount::new`, which accepts exactly the amounts up to
/// [`MAX_ASSET_AMOUNT`]; it is the only check `FungibleAsset::new` makes.
#[verifier::external_body]
pub(crate) fn asset_amount_new(amount: u64) -> (r: Result<AssetAmount, String>)
    ensures
        r is Ok <==> amount <= MAX_ASSET_AMOUNT,
        r matches Err(e) ==> e@ == asset_amount_error(amount),
{
    match AssetAmount::new(amount) {
        Ok(a) => Ok(a),
        Err(e) => Err(e.to_string()),
    }
}

/// What [`check_amount`] answers for `amount`.
pub open spec fn amount_check(amount: u64) -> Result<(), Seq<char>> {
    if amount <= MAX_ASSET_AMOUNT {
        Ok(())
    } else {
        Err("invalid amount: "@ + asset_amount_error(amount))
    }
}

/// Whether the faucet can make an asset of `amount`, and the answer to the
/// order if it cannot.
pub fn check_amount(amount: u64) -> (r: Result<(), String>)
    ensures
        r is Ok <==> amount_check(amount) is Ok,
        r is Ok <==> amount <= MAX_ASSET_AMOUNT,
        r matches Err(e) ==> amount_check(amount) == Err::<(), Seq<char>>(e@),
        r matches Err(e) ==> e@ == "invalid amount: "@ + asset_amount_error(amount),
{
    match asset_amount_new(amount) {
        Ok(_) => Ok(()),
        Err(e) => Err(concat2("invalid amount: ", e.as_str())),
    }
}

/// The answer to an order whose note could not be built.
pub fn note_build_failure(detail: &str) -> (r: String)
    ensures
        r@ == "failed to build note: "@ + detail@,
{
    concat2("failed to build note: ", detail)
}

/// The jobs of a batch, split by whether they got a note.
#[derive(Debug)]
pub struct BatchPlan {
    /// Indices of the jobs that go into the transaction, in queue order.
    pub pending: Vec<usize>,
    /// Indices of the jobs answered at once, with their answer, in queue order.
    pub rejected: Vec<(usize, String)>,
}

/// The indices of the prepared jobs, in order.
pub open spec fn accepted_jobs(checks: Seq<Result<(), String>>) -> Seq<usize>
    decreases checks.len(),
{
    if checks.len() == 0 {
        Seq::empty()
    } else {
        let rest = accepted_jobs(checks.drop_last());
        if checks.last() is Ok {
            rest.push((checks.len() - 1) as usize)
        } else {
            rest
        }
    }
}

/// The indices of the jobs that failed, with their answers, in order.
pub open spec fn rejected_jobs(checks: Seq<Result<(), String>>) -> Seq<(usize, Seq<char>)>
    decreases checks.len(),
{
    if checks.len() == 0 {
        Seq::empty()
    } else {
        let rest = rejected_jobs(checks.drop_last());
        match checks.last() {
            Ok(_) => rest,
            Err(e) => rest.push(((checks.len() - 1) as usize, e@)),
        }
    }
}

/// Splits a batch by the outcome of preparing each job (an asset and a note
/// per job): the prepared ones go into the transaction, the others are
/// answered with their error.
pub fn plan_batch(checks: &Vec<Result<(), String>>) -> (plan: BatchPlan)
    ensures
        plan.pending@ == accepted_jobs(checks@),
        plan.rejected@.len() == rejected_jobs(checks@).len(),
        forall|k: int| 0 <= k < plan.rejected@.len() ==> {
            &&& (#[trigger] plan.rejected@[k]).0 == rejected_jobs(checks@)[k].0
            &&& plan.rejected@[k].1@ == rejected_jobs(checks@)[k].1
        },
{
    let n: usize = checks.len();
    let mut pending: Vec<usize> = Vec::new();
    let mut rejected: Vec<(usize, String)> = Vec::new();
    let mut i: usize = 0;
    while i < n
        invariant
            n == checks@.len(),
            i <= n,
            pending@ == accepted_jobs(checks@.take(i as int)),
            rejected@.len() == rejected_jobs(checks@.take(i as int)).len(),
            forall|k: int| 0 <= k < rejected@.len() ==> {
                &&& (#[trigger] rejected@[k]).0 == rejected_jobs(checks@.take(i as int))[k].0
                &&& rejected@[k].1@ == rejected_jobs(checks@.take(i as int))[k].1
            },
        decreases n - i,
    {
        let ghost prefix = checks@.take(i + 1);
        assert(prefix.drop_last() =~= checks@.take(i as int));
        assert(prefix.last() == checks@[i as int]);
        match &checks[i] {
            Ok(()) => {
                pending.push(i);
            },
            Err(e) => {
                rejected.push((i, e.clone()));
            },
        }
        i = i + 1;
    }
    assert(checks@.take(n as int) =~= checks@);
    BatchPlan { pending, rejected }
}

// ---------------------------------------------------------------------------
// Answering a batch
// ---------------------------------------------------------------------------

/// A job whose note went into the batch transaction.
#[derive(Debug, Clone)]
pub struct PendingNote {
    /// Hex id of the note.
    pub note_id: String,
    /// The note type the order asked for.
    pub note_type: NoteKind,
    /// The serialized note file (note details, tag and block); used for private
    /// notes only.
    pub note_file: Vec<u8>,
}

/// How the batch transaction went.
#[derive(Debug, Clone)]
pub enum Submission {
    /// The transaction request could not be built.
    RequestRejected(String),
    /// Proving or submitting the transaction failed.
    Failed(String),
    /// The transaction was submitted; its hex id.
    Submitted(String),
}

/// Standard base64 (with padding) of the bytes.
pub uninterp spec fn base64_standard(bytes: Seq<u8>) -> Seq<char>;

/// Encodes bytes in standard base64 (`BASE64_STANDARD.encode`).
#[verifier::external_body]
fn encode_base64(bytes: &[u8]) -> (r: String)
    ensures
        r@ == base64_standard(bytes@),
{
    BASE64_STANDARD.encode(bytes)
}

/// The error every job of a batch gets when the transaction request cannot
/// be built.
pub open spec fn request_failure(e: Seq<char>) -> Seq<char> {
    "failed to build mint transaction: "@ + e
}

/// The error every job of a batch gets when the transaction fails.
pub open spec fn submit_failure(e: Seq<char>) -> Seq<char> {
    "mint transaction failed: "@ + e
}

/// The answer a pending job gets: the shared transaction id, its note id, and
/// the note file in base64 for a private note.
pub open spec fn settled(answer: Result<MintOutcome, String>, note: PendingNote, s: Submission) -> bool {
    match s {
        Submission::RequestRejected(e) => answer matches Err(m) && m@ == request_failure(e@),
        Submission::Failed(e) => answer matches Err(m) && m@ == submit_failure(e@),
        Submission::Submitted(tx) => answer matches Ok(o) && {
            &&& o.tx_id@ == tx@
            &&& o.note_id@ == note.note_id@
            &&& match note.note_type {
                NoteKind::Public => o.note_b64 is None,
                NoteKind::Private => o.note_b64 matches Some(b) && b@ == base64_standard(note.note_file@),
            }
        },
    }
}

fn settle_one(note: &PendingNote, s: &Submission) -> (r: Result<MintOutcome, String>)
    ensures
        settled(r, *note, *s),
{
    match s {
        Submission::RequestRejected(e) => Err(concat2("failed to build mint transaction: ", e.as_str())),
        Submission::Failed(e) => Err(concat2("mint transaction failed: ", e.as_str())),
        Submission::Submitted(tx) => {
            let note_b64 = match note.note_type {
                NoteKind::Public => None,
                NoteKind::Private => Some(encode_base64(note.note_file.as_slice())),
            };
            Ok(MintOutcome { tx_id: tx.clone(), note_id: note.note_id.clone(), note_b64 })
        },
    }
}

/// The answers to the jobs of a batch, one per pending note, in order.
pub fn settle_batch(notes: &Vec<PendingNote>, s: &Submission) -> (r: Vec<Result<MintOutcome, String>>)
    ensures
        r@.len() == notes@.len(),
        forall|i: int| 0 <= i < notes@.len() ==> settled(#[trigger] r@[i], notes@[i], *s),
{
    let n: usize = notes.len();
    let mut answers: Vec<Result<MintOutcome, String>> = Vec::new();
    let mut i: usize = 0;
    while i < n
        invariant
            n == notes@.len(),
            i <= n,
            answers@.len() == i,
            forall|j: int| 0 <= j < i ==> settled(#[trigger] answers@[j], notes@[j], *s),
        decreases n - i,
    {
        let a = settle_one(&notes[i], s);
        answers.push(a);
        i = i + 1;
    }
    answers
}

// ---------------------------------------------------------------------------
// Laws
// ---------------------------------------------------------------------------

/// Every job of a batch is either in the transaction or answered at once,
/// never both and never neither: the two lists hold, in increasing order,
/// exactly the indices of the prepared jobs and of the failed ones (with the
/// failure as the answer).
pub proof fn lemma_batch_partition(checks: Seq<Result<(), String>>)
    requires
        checks.len() <= usize::MAX,
    ensures
        accepted_jobs(checks).len() + rejected_jobs(checks).len() == checks.len(),
        forall|i: int| 0 <= i < checks.len() ==> (checks[i] is Ok <==> accepted_jobs(checks).contains(
            i as usize,
        )),
        forall|i: int| 0 <= i < checks.len() ==> (checks[i] is Err <==> exists|k: int|
            0 <= k < rejected_jobs(checks).len() && #[trigger] rejected_jobs(checks)[k].0 == i),
        forall|k: int| 0 <= k < rejected_jobs(checks).len() ==> {
            let (i, msg) = #[trigger] rejected_jobs(checks)[k];
            &&& i < checks.len()
            &&& checks[i as int] matches Err(e) && e@ == msg
        },
        forall|a: int, b: int|
            0 <= a < b < accepted_jobs(checks).len() ==> #[trigger] accepted_jobs(checks)[a]
                < #[trigger] accepted_jobs(checks)[b],
        forall|a: int, b: int|
            0 <= a < b < rejected_jobs(checks).len() ==> (#[trigger] rejected_jobs(checks)[a]).0
                < (#[trigger] rejected_jobs(checks)[b]).0,
    decreases checks.len(),
{
    if checks.len() > 0 {
        let prefix = checks.drop_last();
        let last = (checks.len() - 1) as usize;
        lemma_batch_partition(prefix);
        lemma_jobs_below(prefix);
        assert forall|i: int| 0 <= i < prefix.len() implies prefix[i] == checks[i] by {}
        let acc = accepted_jobs(checks);
        let rej = rejected_jobs(checks);
        assert forall|i: int| 0 <= i < checks.len() implies (checks[i] is Ok <==> acc.contains(
            i as usize,
        )) by {
            if i < prefix.len() {
                if checks[i] is Ok {
                    let k = choose|k: int| 0 <= k < accepted_jobs(prefix).len() && accepted_jobs(prefix)[k] == i as usize;
                    assert(acc[k] == i as usize);
                }
                if acc.contains(i as usize) {
                    let k = choose|k: int| 0 <= k < acc.len() && acc[k] == i as usize;
                    if k < accepted_jobs(prefix).len() {
                        assert(accepted_jobs(prefix).contains(i as usize));
                    }
                }
            } else {
                if checks[i] is Ok {
                    assert(acc[acc.len() - 1] == i as usize);
                }
                if acc.contains(i as usize) {
                    let k = choose|k: int| 0 <= k < acc.len() && acc[k] == i as usize;
                    if k < accepted_jobs(prefix).len() {
                        assert(accepted_jobs(prefix)[k] < prefix.len());
                    }
                }
            }
        }
        assert forall|i: int| 0 <= i < checks.len() implies (checks[i] is Err <==> exists|k: int|
            0 <= k < rej.len() && #[trigger] rej[k].0 == i) by {
            if i < prefix.len() {
                if checks[i] is Err {
                    let k = choose|k: int| 0 <= k < rejected_jobs(prefix).len() && #[trigger] rejected_jobs(prefix)[k].0 == i;
                    assert(rej[k].0 == i);
                }
                if exists|k: int| 0 <= k < rej.len() && #[trigger] rej[k].0 == i {
                    let k = choose|k: int| 0 <= k < rej.len() && #[trigger] rej[k].0 == i;
                    if k < rejected_jobs(prefix).len() {
                        assert(rejected_jobs(prefix)[k].0 == i);
                    }
                }
            } else {
                if checks[i] is Err {
                    assert(rej[rej.len() - 1].0 == i);
                }
                if exists|k: int| 0 <= k < rej.len() && #[trigger] rej[k].0 == i {
                    let k = choose|k: int| 0 <= k < rej.len() && #[trigger] rej[k].0 == i;
                    if k < rejected_jobs(prefix).len() {
                        assert(rejected_jobs(prefix)[k].0 < prefix.len());
                    }
                }
            }
        }
    }
}

/// The indices that the two lists hold are below the batch size.
proof fn lemma_jobs_below(checks: Seq<Result<(), String>>)
    requires
        checks.len() <= usize::MAX,
    ensures
        forall|k: int| 0 <= k < accepted_jobs(checks).len() ==> #[trigger] accepted_jobs(checks)[k]
            < checks.len(),
        forall|k: int| 0 <= k < rejected_jobs(checks).len() ==> (#[trigger] rejected_jobs(checks)[k]).0
            < checks.len(),
    decreases checks.len(),
{
    if checks.len() > 0 {
        let prefix = checks.drop_last();
        lemma_jobs_below(prefix);
        let acc = accepted_jobs(checks);
        let rej = rejected_jobs(checks);
        assert forall|k: int| 0 <= k < acc.len() implies #[trigger] acc[k] < checks.len() by {
            if k < accepted_jobs(prefix).len() {
                assert(acc[k] == accepted_jobs(prefix)[k]);
            }
        }
        assert forall|k: int| 0 <= k < rej.len() implies (#[trigger] rej[k]).0 < checks.len() by {
            if k < rejected_jobs(prefix).len() {
                assert(rej[k] == rejected_jobs(prefix)[k]);
            }
        }
    }
}

/// After a successful submission every pending job is answered with the same
/// transaction id and with its own note's id, and a job gets a note file (the
/// base64 of its serialized note) exactly when its note is private; after a
/// failure every pending job gets the same error.
pub proof fn lemma_batch_shares_fate(
    answers: Seq<Result<MintOutcome, String>>,
    notes: Seq<PendingNote>,
    s: Submission,
)
    requires
        answers.len() == notes.len(),
        forall|i: int| 0 <= i < notes.len() ==> settled(#[trigger] answers[i], notes[i], s),
    ensures
        s matches Submission::Submitted(tx) ==> forall|i: int| 0 <= i < answers.len() ==> {
            &&& #[trigger] answers[i] matches Ok(o)
            &&& o.tx_id@ == tx@
            &&& o.note_id@ == notes[i].note_id@
            &&& (o.note_b64 is Some <==> notes[i].note_type == NoteKind::Private)
            &&& (notes[i].note_type == NoteKind::Private ==> o.note_b64 == Some(
                o.note_b64->0,
            ) && o.note_b64->0@ == base64_standard(notes[i].note_file@))
        },
        !(s is Submitted) ==> forall|i: int, j: int|
            0 <= i < answers.len() && 0 <= j < answers.len() ==> {
                &&& #[trigger] answers[i] matches Err(a)
                &&& #[trigger] answers[j] matches Err(b)
                &&& a@ == b@
            },
{
}

} // verus!
