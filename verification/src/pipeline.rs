//! The batch enrichment pipeline, as an explicit machine.
//!
//! All network and storage effects are outside the library, so the pipeline
//! is a state machine: each completed outside call is handed back as an
//! [`Event`], and each [`step`](Pipeline::step) returns the next state
//! together with the [`Action`]s the caller must perform. Every decision —
//! deduplication, batching, partial-failure accounting, progress reporting —
//! is made and verified here.
//!
//! Embedding vectors pass through the pipeline opaquely as
//! [`pgvector::Vector`] values: the logic pairs them with items and counts
//! them, and never looks inside one.

use vstd::prelude::*;

use crate::text::embedding_text_spec;
use crate::text::repo_to_embedding_text;
use crate::types::Repository;
use crate::BATCH_SIZE;
use crate::EMBEDDING_SUB_BATCH_SIZE;

verus! {

#[verifier::external_type_specification]
#[verifier::external_body]
pub struct ExVector(pgvector::Vector);

/// Where the pipeline currently waits.
#[derive(Debug, Clone, Copy, PartialEq, Eq)]
pub enum Phase {
    /// Waiting for the raw item list from the source.
    FetchingSource,
    /// Waiting for the set of item ids the store already knows.
    CheckingExisting,
    /// Waiting for the auxiliary content of the current batch.
    FetchingContent,
    /// Waiting for the embedding vectors of the current sub-batch.
    Embedding,
    /// Waiting for the source account's display name.
    FetchingUser,
    /// Waiting for the membership-set overwrite to be acknowledged.
    WritingMembership,
    /// The run ended; the job record is terminal.
    Done,
}

/// The result of one outside call, handed back to the pipeline.
/// Error payloads carry the outside error's message.
#[derive(Debug)]
pub enum Event {
    SourceListed(Result<Vec<Repository>, String>),
    ExistingIdsFetched(Result<Vec<u64>, String>),
    /// One entry per item of the current batch: the auxiliary content, or
    /// `None` when none was found or its fetch failed.
    ContentFetched(Vec<Option<String>>),
    /// The provider's answer for one sub-batch of texts.
    EmbeddingsComputed(Result<Vec<pgvector::Vector>, String>),
    UserFetched(Result<String, String>),
    MembershipWritten(Result<(), String>),
}

/// One outside effect the caller must perform after a step.
#[derive(Debug, PartialEq)]
pub enum Action {
    /// Write an in-progress status label to the job record.
    SetStatus(String),
    /// Fetch the user's raw item list from the source.
    FetchSource,
    /// Ask the store which of these ids it already has.
    QueryExisting(Vec<u64>),
    /// Write a progress checkpoint to the job record, before anything else
    /// runs.
    UpdateProgress { total: usize, processed: usize, failed: usize },
    /// Fetch auxiliary content for each (owner, name) pair, fanned out.
    FetchContent(Vec<(String, String)>),
    /// Ask the embedding provider for vectors of these texts, in order.
    EmbedTexts(Vec<String>),
    /// Upsert the enriched item with its vector into the store.
    UpsertItem(Repository, pgvector::Vector),
    /// Record an item whose content fetch came back empty, so later runs
    /// skip it.
    TrackUnenriched { id: u64, name: String, owner: String },
    /// Fetch the authenticated user's display name from the source.
    FetchUserName,
    /// Overwrite the user's membership set wholesale.
    WriteMembership { user_id: u64, repo_ids: Vec<u64>, username: String },
    /// Mark the job record completed.
    CompleteJob,
    /// Mark the job record failed.
    FailJob,
}

/// The ids of `items`, in order.
pub open spec fn ids_of(items: Seq<Repository>) -> Seq<u64>
    decreases items.len(),
{
    if items.len() == 0 {
        Seq::empty()
    } else {
        ids_of(items.drop_last()).push(items.last().id)
    }
}

/// The items of `items` whose id is not among `existing`, in order: the
/// items a run still has to enrich.
pub open spec fn new_items(items: Seq<Repository>, existing: Seq<u64>) -> Seq<Repository>
    decreases items.len(),
{
    if items.len() == 0 {
        Seq::empty()
    } else {
        let rest = new_items(items.drop_last(), existing);
        if existing.contains(items.last().id) {
            rest
        } else {
            rest.push(items.last())
        }
    }
}

/// Law: enrichment is idempotent per item id. When the store already knows
/// every id of the list — as it does on a second run over an unchanged
/// list — nothing is left to enrich, so the run asks the embedding provider
/// for nothing.
pub proof fn lemma_no_new_items_when_all_known(items: Seq<Repository>, existing: Seq<u64>)
    requires
        forall|i: int| 0 <= i < items.len() ==> existing.contains(#[trigger] items[i].id),
    ensures
        new_items(items, existing).len() == 0,
    decreases items.len(),
{
    if items.len() > 0 {
        lemma_no_new_items_when_all_known(items.drop_last(), existing);
    }
}

/// The items of the batch whose content arrived, each carrying its content.
pub open spec fn enriched_items(batch: Seq<Repository>, contents: Seq<Option<String>>) -> Seq<
    Repository,
>
    decreases batch.len(),
{
    if batch.len() == 0 {
        Seq::empty()
    } else {
        let rest = enriched_items(batch.drop_last(), contents.drop_last());
        match contents.last() {
            Some(c) => rest.push(Repository { readme_content: Some(c), ..batch.last() }),
            None => rest,
        }
    }
}

/// One tracking action for each item of the batch whose content came back
/// empty, in batch order.
pub open spec fn marker_actions(batch: Seq<Repository>, contents: Seq<Option<String>>) -> Seq<
    Action,
>
    decreases batch.len(),
{
    if batch.len() == 0 {
        Seq::empty()
    } else {
        let rest = marker_actions(batch.drop_last(), contents.drop_last());
        match contents.last() {
            Some(_) => rest,
            None => rest.push(
                Action::TrackUnenriched {
                    id: batch.last().id,
                    name: batch.last().name,
                    owner: batch.last().owner,
                },
            ),
        }
    }
}

/// True exactly when `ids` holds `id`.
pub fn contains_id(ids: &Vec<u64>, id: u64) -> (r: bool)
    ensures
        r == ids@.contains(id),
{
    let mut i: usize = 0;
    while i < ids.len()
        invariant
            i <= ids@.len(),
            forall|k: int| 0 <= k < i ==> ids@[k] != id,
        decreases ids@.len() - i,
    {
        if ids[i] == id {
            return true;
        }
        i += 1;
    }
    false
}

/// Reverse a vector, moving its elements.
#[verifier::loop_isolation(false)]
pub fn reverse_vec<T>(v: Vec<T>) -> (r: Vec<T>)
    ensures
        r@ == v@.reverse(),
{
    let ghost orig = v@;
    let mut rest = v;
    let mut r: Vec<T> = Vec::new();
    while rest.len() > 0
        invariant
            rest@.len() <= orig.len(),
            rest@ == orig.take(rest@.len() as int),
            r@ == orig.skip(rest@.len() as int).reverse(),
        decreases rest@.len(),
    {
        let ghost n = rest@.len() as int;
        let x = rest.pop().unwrap();
        r.push(x);
        proof {
            assert(rest@ =~= orig.take(n - 1));
            assert(r@ =~= orig.skip(n - 1).reverse());
        }
    }
    proof {
        assert(orig.skip(0) =~= orig);
    }
    r
}

/// The ids of every item, in order.
pub fn collect_ids(items: &Vec<Repository>) -> (r: Vec<u64>)
    ensures
        r@ == ids_of(items@),
{
    let mut r: Vec<u64> = Vec::new();
    let mut i: usize = 0;
    while i < items.len()
        invariant
            i <= items@.len(),
            r@ == ids_of(items@.take(i as int)),
        decreases items@.len() - i,
    {
        r.push(items[i].id);
        proof {
            let next = items@.take(i + 1);
            assert(next.drop_last() =~= items@.take(i as int));
        }
        i += 1;
    }
    proof {
        assert(items@.take(items@.len() as int) =~= items@);
    }
    r
}

/// Keep the items whose id the store does not know yet, in order,
/// moving them out of the input list.
#[verifier::loop_isolation(false)]
pub fn filter_new_items(items: Vec<Repository>, existing: &Vec<u64>) -> (r: Vec<Repository>)
    ensures
        r@ == new_items(items@, existing@),
{
    let ghost orig = items@;
    let mut rest = items;
    let mut rev: Vec<Repository> = Vec::new();
    while rest.len() > 0
        invariant
            rest@.len() <= orig.len(),
            rest@ == orig.take(rest@.len() as int),
            new_items(orig, existing@) == new_items(rest@, existing@) + rev@.reverse(),
        decreases rest@.len(),
    {
        let ghost n = rest@.len() as int;
        let ghost pre = rest@;
        let ghost prev_rev = rev@;
        let x = rest.pop().unwrap();
        if !contains_id(existing, x.id) {
            rev.push(x);
            proof {
                assert(rev@.reverse() =~= seq![pre.last()] + prev_rev.reverse());
                assert(new_items(pre, existing@) =~= new_items(pre.drop_last(), existing@).push(
                    pre.last(),
                ));
                assert(new_items(pre.drop_last(), existing@).push(pre.last()) =~= new_items(
                    pre.drop_last(),
                    existing@,
                ) + seq![pre.last()]);
                assert(new_items(rest@, existing@) + rev@.reverse() =~= new_items(
                    pre,
                    existing@,
                ) + prev_rev.reverse());
            }
        }
        proof {
            assert(rest@ =~= orig.take(n - 1));
        }
    }
    proof {
        assert(new_items(rest@, existing@) + rev@.reverse() =~= rev@.reverse());
    }
    reverse_vec(rev)
}

/// One content request per item of the batch: its (owner, name) pair.
pub open spec fn content_request_pairs(batch: Seq<Repository>) -> Seq<(String, String)>
    decreases batch.len(),
{
    if batch.len() == 0 {
        Seq::empty()
    } else {
        content_request_pairs(batch.drop_last()).push((batch.last().owner, batch.last().name))
    }
}

/// One upsert per enriched item, paired with its vector in order.
pub open spec fn upsert_actions(ready: Seq<Repository>, vectors: Seq<pgvector::Vector>) -> Seq<
    Action,
>
    decreases ready.len(),
{
    if ready.len() == 0 {
        Seq::empty()
    } else {
        upsert_actions(ready.drop_last(), vectors.drop_last()).push(
            Action::UpsertItem(ready.last(), vectors.last()),
        )
    }
}

/// The size of the batch formed from `remaining` items.
pub open spec fn next_batch_len(remaining: int) -> int {
    if remaining <= BATCH_SIZE as int {
        remaining
    } else {
        BATCH_SIZE as int
    }
}

/// The number of texts of the next provider request, when `unsent` texts
/// still wait.
pub open spec fn next_chunk_len(unsent: int) -> int {
    if unsent <= EMBEDDING_SUB_BATCH_SIZE as int {
        unsent
    } else {
        EMBEDDING_SUB_BATCH_SIZE as int
    }
}

/// The enrichment pipeline of one job. Between steps it waits for exactly
/// one outside call, named by `phase`.
#[derive(Debug)]
pub struct Pipeline {
    pub user_id: u64,
    pub job_id: u64,
    pub phase: Phase,
    /// Item count of the run, set once the source has answered.
    pub total: usize,
    /// The ids of every source item, kept for the final membership write.
    pub all_ids: Vec<u64>,
    /// Source items held between the source answer and deduplication.
    pub source_items: Vec<Repository>,
    /// Items that still need enrichment and are not yet in a batch.
    pub to_process: Vec<Repository>,
    /// How many items the store already knew.
    pub already_existing: usize,
    /// Items of batches that have finished, either way.
    pub resolved: usize,
    /// Size of the current batch.
    pub batch_len: usize,
    /// The current batch, waiting for its auxiliary content.
    pub batch_items: Vec<Repository>,
    /// Items of the current batch that obtained content, awaiting vectors.
    pub batch_ready: Vec<Repository>,
    /// Embedding texts, aligned with `batch_ready`.
    pub batch_texts: Vec<String>,
    /// How many texts have their vectors already.
    pub batch_sent: usize,
    /// The vectors received so far, aligned with `batch_ready`.
    pub batch_vectors: Vec<pgvector::Vector>,
    /// Items successfully embedded and upserted, cumulative.
    pub succeeded: usize,
    /// Items counted as failed (whole failed batches), cumulative.
    pub failed: usize,
    /// Progress last written to the job record.
    pub reported_processed: usize,
    pub reported_failed: usize,
}

impl Pipeline {
    /// Counter bookkeeping that holds from deduplication on.
    pub open spec fn counts_ok(self) -> bool {
        &&& self.source_items@.len() == 0
        &&& self.all_ids@.len() == self.total
        &&& self.already_existing + self.resolved + self.batch_len + self.to_process@.len()
            == self.total
        &&& self.succeeded + self.failed <= self.resolved
        &&& self.reported_processed <= self.already_existing + self.succeeded
        &&& self.reported_failed == self.failed
    }

    /// All progress counters still untouched.
    pub open spec fn counters_zero(self) -> bool {
        &&& self.already_existing == 0
        &&& self.resolved == 0
        &&& self.succeeded == 0
        &&& self.failed == 0
        &&& self.reported_processed == 0
        &&& self.reported_failed == 0
    }

    /// No batch is in flight.
    pub open spec fn batch_clear(self) -> bool {
        &&& self.batch_len == 0
        &&& self.batch_items@.len() == 0
        &&& self.batch_ready@.len() == 0
        &&& self.batch_texts@.len() == 0
        &&& self.batch_sent == 0
        &&& self.batch_vectors@.len() == 0
    }

    /// The state invariant, by phase.
    pub open spec fn inv(self) -> bool {
        match self.phase {
            Phase::FetchingSource => {
                &&& self.counters_zero()
                &&& self.batch_clear()
                &&& self.total == 0
                &&& self.all_ids@.len() == 0
                &&& self.source_items@.len() == 0
                &&& self.to_process@.len() == 0
            },
            Phase::CheckingExisting => {
                &&& self.counters_zero()
                &&& self.batch_clear()
                &&& self.total == self.source_items@.len()
                &&& self.total > 0
                &&& self.all_ids@ == ids_of(self.source_items@)
                &&& self.to_process@.len() == 0
            },
            Phase::FetchingContent => {
                &&& self.counts_ok()
                &&& self.batch_len > 0
                &&& self.batch_items@.len() == self.batch_len
                &&& self.batch_ready@.len() == 0
                &&& self.batch_texts@.len() == 0
                &&& self.batch_sent == 0
                &&& self.batch_vectors@.len() == 0
            },
            Phase::Embedding => {
                &&& self.counts_ok()
                &&& self.batch_len > 0
                &&& self.batch_items@.len() == 0
                &&& 0 < self.batch_ready@.len() <= self.batch_len
                &&& self.batch_texts@.len() == self.batch_ready@.len()
                &&& self.batch_sent < self.batch_texts@.len()
                &&& self.batch_vectors@.len() == self.batch_sent
                &&& forall|i: int|
                    0 <= i < self.batch_texts@.len() ==> (#[trigger] self.batch_texts@[i])@
                        == embedding_text_spec(self.batch_ready@[i])
            },
            Phase::FetchingUser | Phase::WritingMembership => {
                &&& self.counts_ok()
                &&& self.batch_clear()
                &&& self.to_process@.len() == 0
                &&& self.total > 0
            },
            Phase::Done => true,
        }
    }

    /// The run will ask the provider for nothing more: the phases past the
    /// batching loop, with no work queued.
    pub open spec fn quiescent(self) -> bool {
        &&& self.phase is FetchingUser || self.phase is WritingMembership || self.phase is Done
        &&& self.to_process@.len() == 0
        &&& self.batch_len == 0
    }

    /// Which events a state can take.
    pub open spec fn event_fits(self, event: Event) -> bool {
        match event {
            Event::SourceListed(_) => self.phase is FetchingSource,
            Event::ExistingIdsFetched(_) => self.phase is CheckingExisting,
            Event::ContentFetched(contents) => self.phase is FetchingContent && contents@.len()
                == self.batch_len,
            Event::EmbeddingsComputed(_) => self.phase is Embedding,
            Event::UserFetched(_) => self.phase is FetchingUser,
            Event::MembershipWritten(_) => self.phase is WritingMembership,
        }
    }

    /// Fields every step leaves alone.
    pub open spec fn same_identity(self, post: Pipeline) -> bool {
        &&& post.user_id == self.user_id
        &&& post.job_id == self.job_id
    }

    /// How a step ends a batch and moves on: either the next batch of at
    /// most [`BATCH_SIZE`] items is formed and its content requested, or —
    /// with nothing left — the final membership phase begins. `resolved`,
    /// `succeeded`, `failed` and the reported counters are the caller's to
    /// constrain; `tail` is the trailing action sequence.
    pub open spec fn advance_rel(self, post: Pipeline, tail: Seq<Action>) -> bool {
        &&& self.same_identity(post)
        &&& post.total == self.total
        &&& post.all_ids == self.all_ids
        &&& post.already_existing == self.already_existing
        &&& post.source_items@.len() == 0
        &&& post.batch_ready@.len() == 0
        &&& post.batch_texts@.len() == 0
        &&& post.batch_sent == 0
        &&& post.batch_vectors@.len() == 0
        &&& if self.to_process@.len() == 0 {
            &&& post.phase is FetchingUser
            &&& post.batch_len == 0
            &&& post.batch_items@.len() == 0
            &&& post.to_process@.len() == 0
            &&& tail =~= seq![Action::FetchUserName]
        } else {
            let k = next_batch_len(self.to_process@.len() as int);
            &&& post.phase is FetchingContent
            &&& post.batch_len == k
            &&& post.batch_items@ == self.to_process@.take(k)
            &&& post.to_process@ == self.to_process@.skip(k)
            &&& tail.len() == 1
            &&& tail[0] matches Action::FetchContent(ps) && ps@ == content_request_pairs(
                self.to_process@.take(k),
            )
        }
    }
}

impl Pipeline {
    /// The source listing arrived (or failed): record the total, report
    /// zero progress, and ask the store which ids it knows. An empty list
    /// completes the job at once; a source failure ends it as failed.
    pub open spec fn source_rel(self, outcome: Result<Vec<Repository>, String>, post: Pipeline, acts: Seq<Action>) -> bool {
        match outcome {
            Err(_) => {
                &&& post == (Pipeline { phase: Phase::Done, ..self })
                &&& acts =~= seq![Action::FailJob]
            },
            Ok(items) => {
                if items@.len() == 0 {
                    &&& post == (Pipeline { phase: Phase::Done, ..self })
                    &&& acts.len() == 3
                    &&& acts[0] == (Action::UpdateProgress { total: 0, processed: 0, failed: 0 })
                    &&& acts[1] matches Action::SetStatus(label) && label@ == "Creating embeddings..."@
                    &&& acts[2] == Action::CompleteJob
                } else {
                    &&& self.same_identity(post)
                    &&& post.phase is CheckingExisting
                    &&& post.total == items@.len()
                    &&& post.all_ids@ == ids_of(items@)
                    &&& post.source_items == items
                    &&& post.counters_zero()
                    &&& post.batch_clear()
                    &&& post.to_process@.len() == 0
                    &&& acts.len() == 3
                    &&& acts[0] matches Action::UpdateProgress { total, processed, failed }
                        && total == items@.len() && processed == 0 && failed == 0
                    &&& acts[1] matches Action::SetStatus(label) && label@ == "Creating embeddings..."@
                    &&& acts[2] matches Action::QueryExisting(ids) && ids@ == ids_of(items@)
                }
            },
        }
    }

    /// The store's known-id answer arrived (or failed): drop the items the
    /// store already has, count them as processed, and start the first
    /// batch — or, with nothing new, go straight to the membership phase.
    /// A store failure here ends the job as failed with every item counted
    /// failed.
    pub open spec fn existing_rel(self, outcome: Result<Vec<u64>, String>, post: Pipeline, acts: Seq<Action>) -> bool {
        match outcome {
            Err(_) => {
                &&& post == (Pipeline { phase: Phase::Done, reported_failed: self.total, ..self })
                &&& acts.len() == 2
                &&& acts[0] == (Action::UpdateProgress {
                    total: self.total,
                    processed: 0,
                    failed: self.total,
                })
                &&& acts[1] == Action::FailJob
            },
            Ok(existing) => {
                let fresh = new_items(self.source_items@, existing@);
                if fresh.len() == 0 {
                    &&& self.same_identity(post)
                    &&& post.phase is FetchingUser
                    &&& post.total == self.total
                    &&& post.all_ids == self.all_ids
                    &&& post.already_existing == self.total
                    &&& post.resolved == 0
                    &&& post.succeeded == 0
                    &&& post.failed == 0
                    &&& post.reported_processed == self.total
                    &&& post.reported_failed == 0
                    &&& post.batch_clear()
                    &&& post.to_process@.len() == 0
                    &&& post.source_items@.len() == 0
                    &&& acts.len() == 2
                    &&& acts[0] == (Action::UpdateProgress {
                        total: self.total,
                        processed: self.total,
                        failed: 0,
                    })
                    &&& acts[1] == Action::FetchUserName
                } else {
                    let k = next_batch_len(fresh.len() as int);
                    &&& self.same_identity(post)
                    &&& post.phase is FetchingContent
                    &&& post.total == self.total
                    &&& post.all_ids == self.all_ids
                    &&& post.already_existing + fresh.len() == self.total
                    &&& post.resolved == 0
                    &&& post.succeeded == 0
                    &&& post.failed == 0
                    &&& post.reported_processed == 0
                    &&& post.reported_failed == 0
                    &&& post.batch_len == k
                    &&& post.batch_items@ == fresh.take(k)
                    &&& post.to_process@ == fresh.skip(k)
                    &&& post.source_items@.len() == 0
                    &&& post.batch_ready@.len() == 0
                    &&& post.batch_texts@.len() == 0
                    &&& post.batch_sent == 0
                    &&& post.batch_vectors@.len() == 0
                    &&& acts.len() == 1
                    &&& acts[0] matches Action::FetchContent(ps) && ps@ == content_request_pairs(
                        fresh.take(k),
                    )
                }
            },
        }
    }

    /// The batch's auxiliary content arrived: items without content are
    /// marked tracked-unenriched and excluded; the rest carry their content
    /// forward and their texts go to the provider, at most
    /// [`EMBEDDING_SUB_BATCH_SIZE`] per request. A batch left with no items
    /// finishes at once with a progress checkpoint.
    pub open spec fn content_rel(self, contents: Vec<Option<String>>, post: Pipeline, acts: Seq<Action>) -> bool {
        let ready = enriched_items(self.batch_items@, contents@);
        let markers = marker_actions(self.batch_items@, contents@);
        if ready.len() == 0 {
            &&& post.resolved == self.resolved + self.batch_len
            &&& post.succeeded == self.succeeded
            &&& post.failed == self.failed
            &&& post.reported_processed == self.already_existing + self.succeeded
            &&& post.reported_failed == self.failed
            &&& acts.len() >= markers.len() + 1
            &&& acts.take(markers.len() as int) == markers
            &&& acts[markers.len() as int] == (Action::UpdateProgress {
                total: self.total,
                processed: (self.already_existing + self.succeeded) as usize,
                failed: self.failed,
            })
            &&& Pipeline::advance_rel(
                Pipeline { resolved: (self.resolved + self.batch_len) as usize, ..self },
                post,
                acts.skip(markers.len() as int + 1),
            )
        } else {
            &&& self.same_identity(post)
            &&& post.phase is Embedding
            &&& post.total == self.total
            &&& post.all_ids == self.all_ids
            &&& post.to_process == self.to_process
            &&& post.already_existing == self.already_existing
            &&& post.resolved == self.resolved
            &&& post.succeeded == self.succeeded
            &&& post.failed == self.failed
            &&& post.reported_processed == self.reported_processed
            &&& post.reported_failed == self.reported_failed
            &&& post.batch_len == self.batch_len
            &&& post.batch_items@.len() == 0
            &&& post.source_items@.len() == 0
            &&& post.batch_ready@ == ready
            &&& post.batch_texts@.len() == ready.len()
            &&& (forall|i: int|
                0 <= i < ready.len() ==> (#[trigger] post.batch_texts@[i])@
                    == embedding_text_spec(ready[i]))
            &&& post.batch_sent == 0
            &&& post.batch_vectors@.len() == 0
            &&& acts.len() == markers.len() + 1
            &&& acts.take(markers.len() as int) == markers
            &&& acts.last() matches Action::EmbedTexts(ts) && ts@.len() == next_chunk_len(
                ready.len() as int,
            ) && (forall|i: int|
                0 <= i < ts@.len() ==> (#[trigger] ts@[i])@ == embedding_text_spec(ready[i]))
        }
    }

    /// A provider answer arrived for the current sub-batch. The right
    /// number of vectors advances the batch: either the next sub-batch goes
    /// out, or — with every text answered — the enriched items are upserted
    /// with their vectors, counted as succeeded, and a progress checkpoint
    /// is written. A provider error, or an answer of the wrong length, ends
    /// the whole batch as failed.
    pub open spec fn embed_rel(self, outcome: Result<Vec<pgvector::Vector>, String>, post: Pipeline, acts: Seq<Action>) -> bool {
        let expected = next_chunk_len(self.batch_texts@.len() - self.batch_sent);
        let good = outcome matches Ok(vecs) && vecs@.len() == expected;
        if !good {
            &&& post.resolved == self.resolved + self.batch_len
            &&& post.succeeded == self.succeeded
            &&& post.failed == self.failed + self.batch_len
            &&& post.reported_processed == self.already_existing + self.succeeded
            &&& post.reported_failed == self.failed + self.batch_len
            &&& acts.len() >= 1
            &&& acts[0] == (Action::UpdateProgress {
                total: self.total,
                processed: (self.already_existing + self.succeeded) as usize,
                failed: (self.failed + self.batch_len) as usize,
            })
            &&& Pipeline::advance_rel(
                Pipeline {
                    resolved: (self.resolved + self.batch_len) as usize,
                    failed: (self.failed + self.batch_len) as usize,
                    ..self
                },
                post,
                acts.skip(1),
            )
        } else {
            let vecs = outcome->Ok_0;
            let sent = self.batch_sent + expected;
            let vectors = self.batch_vectors@ + vecs@;
            if sent < self.batch_texts@.len() {
                &&& self.same_identity(post)
                &&& post == (Pipeline {
                    batch_sent: sent as usize,
                    batch_vectors: post.batch_vectors,
                    ..self
                })
                &&& post.batch_vectors@ == vectors
                &&& acts.len() == 1
                &&& acts[0] matches Action::EmbedTexts(ts) && ts@.len() == next_chunk_len(
                    self.batch_texts@.len() - sent,
                ) && (forall|i: int|
                    0 <= i < ts@.len() ==> (#[trigger] ts@[i])@ == self.batch_texts@[sent + i]@)
            } else {
                &&& post.resolved == self.resolved + self.batch_len
                &&& post.succeeded == self.succeeded + self.batch_ready@.len()
                &&& post.failed == self.failed
                &&& post.reported_processed == self.already_existing + self.succeeded
                    + self.batch_ready@.len()
                &&& post.reported_failed == self.failed
                &&& acts.len() >= self.batch_ready@.len() + 1
                &&& acts.take(self.batch_ready@.len() as int) == upsert_actions(
                    self.batch_ready@,
                    vectors,
                )
                &&& acts[self.batch_ready@.len() as int] == (Action::UpdateProgress {
                    total: self.total,
                    processed: (self.already_existing + self.succeeded
                        + self.batch_ready@.len()) as usize,
                    failed: self.failed,
                })
                &&& Pipeline::advance_rel(
                    Pipeline {
                        resolved: (self.resolved + self.batch_len) as usize,
                        succeeded: (self.succeeded + self.batch_ready@.len()) as usize,
                        ..self
                    },
                    post,
                    acts.skip(self.batch_ready@.len() as int + 1),
                )
            }
        }
    }

    /// The display name arrived (or did not): with it, the membership set
    /// is overwritten wholesale with every source item id; without it the
    /// job ends as failed.
    pub open spec fn user_rel(self, outcome: Result<String, String>, post: Pipeline, acts: Seq<Action>) -> bool {
        match outcome {
            Ok(name) => {
                &&& post == (Pipeline { phase: Phase::WritingMembership, ..self })
                &&& acts.len() == 1
                &&& acts[0] matches Action::WriteMembership { user_id, repo_ids, username }
                    && user_id == self.user_id && repo_ids@ == self.all_ids@ && username == name
            },
            Err(_) => {
                &&& post == (Pipeline { phase: Phase::Done, ..self })
                &&& acts =~= seq![Action::FailJob]
            },
        }
    }

    /// The membership write was acknowledged (or failed): the job record
    /// turns terminal — completed only if the write went through, since set
    /// membership is part of job completion.
    pub open spec fn membership_rel(self, outcome: Result<(), String>, post: Pipeline, acts: Seq<Action>) -> bool {
        match outcome {
            Ok(_) => {
                &&& post == (Pipeline { phase: Phase::Done, ..self })
                &&& acts =~= seq![Action::CompleteJob]
            },
            Err(_) => {
                &&& post == (Pipeline { phase: Phase::Done, ..self })
                &&& acts =~= seq![Action::FailJob]
            },
        }
    }

    /// The full step relation: what one [`Pipeline::step`] call does, for
    /// every state and event.
    pub open spec fn step_rel(self, event: Event, post: Pipeline, acts: Seq<Action>) -> bool {
        match event {
            Event::SourceListed(outcome) => self.source_rel(outcome, post, acts),
            Event::ExistingIdsFetched(outcome) => self.existing_rel(outcome, post, acts),
            Event::ContentFetched(contents) => self.content_rel(contents, post, acts),
            Event::EmbeddingsComputed(outcome) => self.embed_rel(outcome, post, acts),
            Event::UserFetched(outcome) => self.user_rel(outcome, post, acts),
            Event::MembershipWritten(outcome) => self.membership_rel(outcome, post, acts),
        }
    }
}

/// `ids_of` keeps the length.
pub proof fn lemma_ids_of_len(items: Seq<Repository>)
    ensures
        ids_of(items).len() == items.len(),
    decreases items.len(),
{
    if items.len() > 0 {
        lemma_ids_of_len(items.drop_last());
    }
}

/// Deduplication never grows the list.
pub proof fn lemma_new_items_len(items: Seq<Repository>, existing: Seq<u64>)
    ensures
        new_items(items, existing).len() <= items.len(),
    decreases items.len(),
{
    if items.len() > 0 {
        lemma_new_items_len(items.drop_last(), existing);
    }
}

/// At most every batch item obtains content.
pub proof fn lemma_enriched_items_len(batch: Seq<Repository>, contents: Seq<Option<String>>)
    ensures
        enriched_items(batch, contents).len() <= batch.len(),
    decreases batch.len(),
{
    if batch.len() > 0 {
        lemma_enriched_items_len(batch.drop_last(), contents.drop_last());
    }
}

/// Every marker action is a tracking entry.
pub proof fn lemma_marker_actions_kinds(batch: Seq<Repository>, contents: Seq<Option<String>>)
    ensures
        forall|j: int|
            0 <= j < marker_actions(batch, contents).len() ==> (#[trigger] marker_actions(
                batch,
                contents,
            )[j]) is TrackUnenriched,
    decreases batch.len(),
{
    if batch.len() > 0 {
        lemma_marker_actions_kinds(batch.drop_last(), contents.drop_last());
    }
}

/// Every upsert action is an item upsert.
pub proof fn lemma_upsert_actions_kinds(ready: Seq<Repository>, vectors: Seq<pgvector::Vector>)
    ensures
        upsert_actions(ready, vectors).len() == ready.len(),
        forall|j: int|
            0 <= j < ready.len() ==> (#[trigger] upsert_actions(ready, vectors)[j]) is UpsertItem,
    decreases ready.len(),
{
    if ready.len() > 0 {
        lemma_upsert_actions_kinds(ready.drop_last(), vectors.drop_last());
    }
}

/// Law: a step keeps the pipeline invariant.
pub proof fn lemma_step_preserves_inv(pre: Pipeline, event: Event, post: Pipeline, acts: Seq<
    Action,
>)
    requires
        pre.inv(),
        pre.event_fits(event),
        pre.step_rel(event, post, acts),
    ensures
        post.inv(),
{
    match event {
        Event::SourceListed(outcome) => {
            match outcome {
                Ok(items) => {
                    if items@.len() > 0 {
                        lemma_ids_of_len(items@);
                    }
                },
                Err(_) => {},
            }
        },
        Event::ExistingIdsFetched(outcome) => {
            match outcome {
                Ok(existing) => {
                    lemma_new_items_len(pre.source_items@, existing@);
                    lemma_ids_of_len(pre.source_items@);
                },
                Err(_) => {},
            }
        },
        Event::ContentFetched(contents) => {
            lemma_enriched_items_len(pre.batch_items@, contents@);
        },
        Event::EmbeddingsComputed(_) => {},
        Event::UserFetched(_) => {},
        Event::MembershipWritten(_) => {},
    }
}

/// What must hold of one emitted action for progress monotonicity: any
/// progress checkpoint carries exactly the new reported counters, no less
/// than what was reported before, and within the total.
pub open spec fn progress_action_ok(pre: Pipeline, post: Pipeline, a: Action) -> bool {
    a matches Action::UpdateProgress { total, processed, failed } ==> total == post.total
        && processed == post.reported_processed && failed == post.reported_failed
        && pre.reported_processed <= processed && processed + failed <= total
}

/// Law: progress is monotone. Across any step, the processed count last
/// written to the job record never decreases, and every progress
/// checkpoint a step emits carries exactly the new reported counters, with
/// `processed + failed <= total`. Polling the job record therefore sees
/// non-decreasing processed values that never exceed the total.
pub proof fn lemma_step_progress_monotone(pre: Pipeline, event: Event, post: Pipeline, acts: Seq<
    Action,
>)
    requires
        pre.inv(),
        pre.event_fits(event),
        pre.step_rel(event, post, acts),
    ensures
        post.reported_processed >= pre.reported_processed,
        post.total == if pre.phase is FetchingSource {
            post.total as int
        } else {
            pre.total as int
        },
        forall|a: Action| #[trigger] acts.contains(a) ==> progress_action_ok(pre, post, a),
{
    assert forall|a: Action| #[trigger] acts.contains(a) implies progress_action_ok(
        pre,
        post,
        a,
    ) by {
        let i = choose|i: int| 0 <= i < acts.len() && acts[i] == a;
        match event {
            Event::SourceListed(_) => {
                assert(i == 0 || i == 1 || i == 2);
            },
            Event::ExistingIdsFetched(_) => {
                assert(i == 0 || i == 1);
            },
            Event::ContentFetched(contents) => {
                lemma_marker_actions_kinds(pre.batch_items@, contents@);
                let m = marker_actions(pre.batch_items@, contents@).len() as int;
                if i < m {
                    assert(acts[i] == acts.take(m)[i]);
                } else if i > m {
                    assert(acts[i] == acts.skip(m + 1)[i - m - 1]);
                }
            },
            Event::EmbeddingsComputed(outcome) => {
                let expected = next_chunk_len(pre.batch_texts@.len() - pre.batch_sent);
                let good = outcome matches Ok(vecs) && vecs@.len() == expected;
                if !good {
                    if i > 0 {
                        assert(acts[i] == acts.skip(1)[i - 1]);
                    }
                } else {
                    let vecs = outcome->Ok_0;
                    let sent = pre.batch_sent + expected;
                    if sent < pre.batch_texts@.len() {
                        assert(i == 0);
                    } else {
                        lemma_upsert_actions_kinds(pre.batch_ready@, pre.batch_vectors@ + vecs@);
                        let m = pre.batch_ready@.len() as int;
                        if i < m {
                            assert(acts[i] == acts.take(m)[i]);
                        } else if i > m {
                            assert(acts[i] == acts.skip(m + 1)[i - m - 1]);
                        }
                    }
                }
            },
            Event::UserFetched(_) => {},
            Event::MembershipWritten(_) => {},
        }
    }
}

/// Law: enrichment work never restarts. Once the pipeline is past its
/// batching loop with nothing queued — as it is straight away when the
/// store already knew every id — no later step asks the embedding provider
/// for anything, fetches content, or touches the store's items.
pub proof fn lemma_step_quiescent(pre: Pipeline, event: Event, post: Pipeline, acts: Seq<Action>)
    requires
        pre.inv(),
        pre.event_fits(event),
        pre.step_rel(event, post, acts),
        pre.quiescent(),
    ensures
        post.quiescent(),
        forall|i: int|
            0 <= i < acts.len() ==> !((#[trigger] acts[i]) is EmbedTexts) && !(acts[i] is
            FetchContent) && !(acts[i] is UpsertItem) && !(acts[i] is TrackUnenriched),
{
}

/// Copy a list of ids.
pub fn copy_ids(ids: &Vec<u64>) -> (r: Vec<u64>)
    ensures
        r@ == ids@,
{
    let mut r: Vec<u64> = Vec::new();
    let mut i: usize = 0;
    while i < ids.len()
        invariant
            i <= ids@.len(),
            r@ == ids@.take(i as int),
        decreases ids@.len() - i,
    {
        r.push(ids[i]);
        proof {
            assert(r@ =~= ids@.take(i + 1));
        }
        i += 1;
    }
    proof {
        assert(ids@.take(ids@.len() as int) =~= ids@);
    }
    r
}

/// The (owner, name) pair of every batch item, for the content fan-out.
fn request_pairs(batch: &Vec<Repository>) -> (r: Vec<(String, String)>)
    ensures
        r@ == content_request_pairs(batch@),
{
    let mut r: Vec<(String, String)> = Vec::new();
    let mut i: usize = 0;
    while i < batch.len()
        invariant
            i <= batch@.len(),
            r@ == content_request_pairs(batch@.take(i as int)),
        decreases batch@.len() - i,
    {
        r.push((batch[i].owner.clone(), batch[i].name.clone()));
        proof {
            let next = batch@.take(i + 1);
            assert(next.drop_last() =~= batch@.take(i as int));
            assert(r@ =~= content_request_pairs(next));
        }
        i += 1;
    }
    proof {
        assert(batch@.take(batch@.len() as int) =~= batch@);
    }
    r
}

/// Copies of the texts in positions `from..from + count`.
fn clone_text_range(texts: &Vec<String>, from: usize, count: usize) -> (r: Vec<String>)
    requires
        from + count <= texts@.len(),
    ensures
        r@.len() == count,
        forall|i: int| 0 <= i < count ==> (#[trigger] r@[i])@ == texts@[from + i]@,
{
    let n = texts.len();
    let mut r: Vec<String> = Vec::new();
    let mut i: usize = 0;
    while i < count
        invariant
            n == texts@.len(),
            from + count <= n,
            i <= count,
            r@.len() == i,
            forall|k: int| 0 <= k < i ==> (#[trigger] r@[k])@ == texts@[from + k]@,
        decreases count - i,
    {
        r.push(texts[from + i].clone());
        i += 1;
    }
    r
}

impl Pipeline {
    /// End-of-batch transition: form the next batch and request its
    /// content, or — with nothing left — enter the membership phase.
    /// `self` is the state with the finished batch already accounted for
    /// and its fields cleared; the emitted actions are appended to `acts`.
    fn advance(self, acts: &mut Vec<Action>) -> (post: Pipeline)
        requires
            self.batch_items@.len() == 0,
            self.batch_ready@.len() == 0,
            self.batch_texts@.len() == 0,
            self.batch_sent == 0,
            self.batch_vectors@.len() == 0,
            self.source_items@.len() == 0,
        ensures
            final(acts)@.len() > old(acts)@.len(),
            final(acts)@.take(old(acts)@.len() as int) == old(acts)@,
            self.advance_rel(post, final(acts)@.skip(old(acts)@.len() as int)),
            post.resolved == self.resolved,
            post.succeeded == self.succeeded,
            post.failed == self.failed,
            post.reported_processed == self.reported_processed,
            post.reported_failed == self.reported_failed,
    {
        let ghost base = acts@;
        if self.to_process.len() == 0 {
            acts.push(Action::FetchUserName);
            proof {
                assert(acts@.take(base.len() as int) =~= base);
                assert(acts@.skip(base.len() as int) =~= seq![Action::FetchUserName]);
            }
            Pipeline { phase: Phase::FetchingUser, batch_len: 0, ..self }
        } else {
            let remaining = self.to_process.len();
            let k = if remaining > BATCH_SIZE {
                BATCH_SIZE
            } else {
                remaining
            };
            let mut batch = self.to_process;
            let rest = batch.split_off(k);
            let pairs = request_pairs(&batch);
            acts.push(Action::FetchContent(pairs));
            proof {
                assert(acts@.take(base.len() as int) =~= base);
                assert(acts@.skip(base.len() as int) =~= seq![acts@.last()]);
            }
            Pipeline {
                phase: Phase::FetchingContent,
                batch_len: k,
                batch_items: batch,
                to_process: rest,
                ..self
            }
        }
    }
}

impl Pipeline {
    /// A fresh pipeline for one job, with the opening actions: set the
    /// fetching status, then fetch the source list.
    pub fn start(user_id: u64, job_id: u64) -> (r: (Pipeline, Vec<Action>))
        ensures
            r.0.inv(),
            r.0.phase is FetchingSource,
            r.0.user_id == user_id,
            r.0.job_id == job_id,
            r.1@.len() == 2,
            r.1@[0] matches Action::SetStatus(label) && label@ == "Fetching stars..."@,
            r.1@[1] == Action::FetchSource,
    {
        let p = Pipeline {
            user_id,
            job_id,
            phase: Phase::FetchingSource,
            total: 0,
            all_ids: Vec::new(),
            source_items: Vec::new(),
            to_process: Vec::new(),
            already_existing: 0,
            resolved: 0,
            batch_len: 0,
            batch_items: Vec::new(),
            batch_ready: Vec::new(),
            batch_texts: Vec::new(),
            batch_sent: 0,
            batch_vectors: Vec::new(),
            succeeded: 0,
            failed: 0,
            reported_processed: 0,
            reported_failed: 0,
        };
        let mut acts: Vec<Action> = Vec::new();
        acts.push(Action::SetStatus("Fetching stars...".to_owned()));
        acts.push(Action::FetchSource);
        (p, acts)
    }

    /// Handle the source listing.
    fn on_source(self, outcome: Result<Vec<Repository>, String>) -> (r: (Pipeline, Vec<Action>))
        requires
            self.inv(),
            self.phase is FetchingSource,
        ensures
            self.source_rel(outcome, r.0, r.1@),
    {
        match outcome {
            Err(_) => {
                let mut acts: Vec<Action> = Vec::new();
                acts.push(Action::FailJob);
                proof {
                    assert(acts@ =~= seq![Action::FailJob]);
                }
                (Pipeline { phase: Phase::Done, ..self }, acts)
            },
            Ok(items) => {
                let n = items.len();
                let mut acts: Vec<Action> = Vec::new();
                acts.push(Action::UpdateProgress { total: n, processed: 0, failed: 0 });
                acts.push(Action::SetStatus("Creating embeddings...".to_owned()));
                if n == 0 {
                    acts.push(Action::CompleteJob);
                    (Pipeline { phase: Phase::Done, ..self }, acts)
                } else {
                    let ids = collect_ids(&items);
                    let query_ids = copy_ids(&ids);
                    acts.push(Action::QueryExisting(query_ids));
                    let post = Pipeline {
                        phase: Phase::CheckingExisting,
                        total: n,
                        all_ids: ids,
                        source_items: items,
                        ..self
                    };
                    (post, acts)
                }
            },
        }
    }

    /// Handle the store's known-id answer.
    fn on_existing(self, outcome: Result<Vec<u64>, String>) -> (r: (Pipeline, Vec<Action>))
        requires
            self.inv(),
            self.phase is CheckingExisting,
        ensures
            self.existing_rel(outcome, r.0, r.1@),
    {
        match outcome {
            Err(_) => {
                let mut acts: Vec<Action> = Vec::new();
                acts.push(
                    Action::UpdateProgress { total: self.total, processed: 0, failed: self.total },
                );
                acts.push(Action::FailJob);
                let reported_failed = self.total;
                (Pipeline { phase: Phase::Done, reported_failed, ..self }, acts)
            },
            Ok(existing) => {
                let total = self.total;
                let ghost src = self.source_items@;
                let fresh = filter_new_items(self.source_items, &existing);
                proof {
                    lemma_new_items_len(src, existing@);
                }
                let already = total - fresh.len();
                if fresh.len() == 0 {
                    let mut acts: Vec<Action> = Vec::new();
                    acts.push(
                        Action::UpdateProgress { total, processed: total, failed: 0 },
                    );
                    acts.push(Action::FetchUserName);
                    let post = Pipeline {
                        phase: Phase::FetchingUser,
                        already_existing: total,
                        reported_processed: total,
                        source_items: fresh,
                        ..self
                    };
                    (post, acts)
                } else {
                    let remaining = fresh.len();
                    let k = if remaining > BATCH_SIZE {
                        BATCH_SIZE
                    } else {
                        remaining
                    };
                    let mut batch = fresh;
                    let rest = batch.split_off(k);
                    let pairs = request_pairs(&batch);
                    let mut acts: Vec<Action> = Vec::new();
                    acts.push(Action::FetchContent(pairs));
                    let post = Pipeline {
                        phase: Phase::FetchingContent,
                        already_existing: already,
                        batch_len: k,
                        batch_items: batch,
                        to_process: rest,
                        source_items: Vec::new(),
                        ..self
                    };
                    (post, acts)
                }
            },
        }
    }

    /// Handle the display-name answer.
    fn on_user(self, outcome: Result<String, String>) -> (r: (Pipeline, Vec<Action>))
        requires
            self.inv(),
            self.phase is FetchingUser,
        ensures
            self.user_rel(outcome, r.0, r.1@),
    {
        match outcome {
            Ok(name) => {
                let ids = copy_ids(&self.all_ids);
                let mut acts: Vec<Action> = Vec::new();
                acts.push(
                    Action::WriteMembership {
                        user_id: self.user_id,
                        repo_ids: ids,
                        username: name,
                    },
                );
                (Pipeline { phase: Phase::WritingMembership, ..self }, acts)
            },
            Err(_) => {
                let mut acts: Vec<Action> = Vec::new();
                acts.push(Action::FailJob);
                proof {
                    assert(acts@ =~= seq![Action::FailJob]);
                }
                (Pipeline { phase: Phase::Done, ..self }, acts)
            },
        }
    }

    /// Handle the membership-write acknowledgement.
    fn on_membership(self, outcome: Result<(), String>) -> (r: (Pipeline, Vec<Action>))
        requires
            self.inv(),
            self.phase is WritingMembership,
        ensures
            self.membership_rel(outcome, r.0, r.1@),
    {
        let mut acts: Vec<Action> = Vec::new();
        match outcome {
            Ok(_) => {
                acts.push(Action::CompleteJob);
                proof {
                    assert(acts@ =~= seq![Action::CompleteJob]);
                }
            },
            Err(_) => {
                acts.push(Action::FailJob);
                proof {
                    assert(acts@ =~= seq![Action::FailJob]);
                }
            },
        }
        (Pipeline { phase: Phase::Done, ..self }, acts)
    }
}

impl Pipeline {
    /// Handle the auxiliary content of the current batch.
    #[verifier::loop_isolation(false)]
    fn on_content(self, contents: Vec<Option<String>>) -> (r: (Pipeline, Vec<Action>))
        requires
            self.inv(),
            self.phase is FetchingContent,
            contents@.len() == self.batch_len,
        ensures
            self.content_rel(contents, r.0, r.1@),
    {
        let ghost orig_b = self.batch_items@;
        let ghost orig_c = contents@;
        let Pipeline {
            user_id,
            job_id,
            phase,
            total,
            all_ids,
            source_items,
            to_process,
            already_existing,
            resolved,
            batch_len,
            batch_items,
            batch_ready,
            batch_texts,
            batch_sent,
            batch_vectors,
            succeeded,
            failed,
            reported_processed,
            reported_failed,
        } = self;
        let mut bi = batch_items;
        let mut cs = contents;
        let mut rev_ready: Vec<Repository> = Vec::new();
        let mut rev_markers: Vec<Action> = Vec::new();
        while bi.len() > 0
            invariant
                bi@.len() == cs@.len(),
                bi@.len() <= orig_b.len(),
                bi@ == orig_b.take(bi@.len() as int),
                cs@ == orig_c.take(cs@.len() as int),
                enriched_items(orig_b, orig_c) == enriched_items(bi@, cs@) + rev_ready@.reverse(),
                marker_actions(orig_b, orig_c) == marker_actions(bi@, cs@)
                    + rev_markers@.reverse(),
            decreases bi@.len(),
        {
            let ghost pre_b = bi@;
            let ghost pre_c = cs@;
            let ghost prev_ready = rev_ready@;
            let ghost prev_markers = rev_markers@;
            let item = bi.pop().unwrap();
            let content = cs.pop().unwrap();
            match content {
                Some(text) => {
                    let mut enriched = item;
                    enriched.readme_content = Some(text);
                    rev_ready.push(enriched);
                    proof {
                        assert(rev_ready@.reverse() =~= seq![rev_ready@.last()]
                            + prev_ready.reverse());
                        assert(enriched_items(pre_b, pre_c) =~= enriched_items(
                            pre_b.drop_last(),
                            pre_c.drop_last(),
                        ) + seq![rev_ready@.last()]);
                        assert(enriched_items(bi@, cs@) + rev_ready@.reverse() =~= enriched_items(
                            pre_b,
                            pre_c,
                        ) + prev_ready.reverse());
                    }
                },
                None => {
                    rev_markers.push(
                        Action::TrackUnenriched { id: item.id, name: item.name, owner: item.owner },
                    );
                    proof {
                        assert(rev_markers@.reverse() =~= seq![rev_markers@.last()]
                            + prev_markers.reverse());
                        assert(marker_actions(pre_b, pre_c) =~= marker_actions(
                            pre_b.drop_last(),
                            pre_c.drop_last(),
                        ) + seq![rev_markers@.last()]);
                        assert(marker_actions(bi@, cs@) + rev_markers@.reverse()
                            =~= marker_actions(pre_b, pre_c) + prev_markers.reverse());
                    }
                },
            }
            proof {
                assert(bi@ =~= orig_b.take(pre_b.len() - 1));
                assert(cs@ =~= orig_c.take(pre_c.len() - 1));
            }
        }
        proof {
            assert(enriched_items(bi@, cs@) + rev_ready@.reverse() =~= rev_ready@.reverse());
            assert(marker_actions(bi@, cs@) + rev_markers@.reverse() =~= rev_markers@.reverse());
        }
        let ready = reverse_vec(rev_ready);
        let mut acts = reverse_vec(rev_markers);
        let ghost markers = marker_actions(orig_b, orig_c);
        proof {
            assert(ready@ =~= enriched_items(orig_b, orig_c));
            assert(acts@ =~= markers);
        }
        if ready.len() == 0 {
            proof {
                assert(already_existing + succeeded <= total);
            }
            acts.push(
                Action::UpdateProgress {
                    total,
                    processed: already_existing + succeeded,
                    failed,
                },
            );
            proof {
                assert(acts@.take(markers.len() as int) =~= markers);
            }
            let mid = Pipeline {
                user_id,
                job_id,
                phase,
                total,
                all_ids,
                source_items,
                to_process,
                already_existing,
                resolved: resolved + batch_len,
                batch_len,
                batch_items: bi,
                batch_ready: ready,
                batch_texts,
                batch_sent,
                batch_vectors,
                succeeded,
                failed,
                reported_processed: already_existing + succeeded,
                reported_failed: failed,
            };
            let ghost pre_acts = acts@;
            let post = mid.advance(&mut acts);
            proof {
                assert(acts@.take(markers.len() as int) =~= pre_acts.take(markers.len() as int));
                assert(acts@[markers.len() as int] == pre_acts[markers.len() as int]);
            }
            (post, acts)
        } else {
            let mut texts: Vec<String> = Vec::new();
            let mut i: usize = 0;
            while i < ready.len()
                invariant
                    i <= ready@.len(),
                    texts@.len() == i,
                    forall|k: int|
                        0 <= k < i ==> (#[trigger] texts@[k])@ == embedding_text_spec(ready@[k]),
                decreases ready@.len() - i,
            {
                texts.push(repo_to_embedding_text(&ready[i]));
                i += 1;
            }
            let chunk_len = if texts.len() > EMBEDDING_SUB_BATCH_SIZE {
                EMBEDDING_SUB_BATCH_SIZE
            } else {
                texts.len()
            };
            let chunk = clone_text_range(&texts, 0, chunk_len);
            acts.push(Action::EmbedTexts(chunk));
            proof {
                assert(acts@.take(markers.len() as int) =~= markers);
            }
            let post = Pipeline {
                user_id,
                job_id,
                phase: Phase::Embedding,
                total,
                all_ids,
                source_items,
                to_process,
                already_existing,
                resolved,
                batch_len,
                batch_items: bi,
                batch_ready: ready,
                batch_texts: texts,
                batch_sent,
                batch_vectors,
                succeeded,
                failed,
                reported_processed,
                reported_failed,
            };
            (post, acts)
        }
    }

    /// Handle one provider answer for the current sub-batch.
    #[verifier::loop_isolation(false)]
    fn on_embeddings(self, outcome: Result<Vec<pgvector::Vector>, String>) -> (r: (
        Pipeline,
        Vec<Action>,
    ))
        requires
            self.inv(),
            self.phase is Embedding,
        ensures
            self.embed_rel(outcome, r.0, r.1@),
    {
        let Pipeline {
            user_id,
            job_id,
            phase,
            total,
            all_ids,
            source_items,
            to_process,
            already_existing,
            resolved,
            batch_len,
            batch_items,
            batch_ready,
            batch_texts,
            batch_sent,
            batch_vectors,
            succeeded,
            failed,
            reported_processed,
            reported_failed,
        } = self;
        let unsent = batch_texts.len() - batch_sent;
        let expected = if unsent > EMBEDDING_SUB_BATCH_SIZE {
            EMBEDDING_SUB_BATCH_SIZE
        } else {
            unsent
        };
        let good_vecs = match outcome {
            Ok(vecs) => {
                if vecs.len() == expected {
                    Some(vecs)
                } else {
                    None
                }
            },
            Err(_) => None,
        };
        match good_vecs {
            None => {
                proof {
                    assert(already_existing + succeeded <= total);
                    assert(failed + batch_len <= total);
                }
                let mut acts: Vec<Action> = Vec::new();
                acts.push(
                    Action::UpdateProgress {
                        total,
                        processed: already_existing + succeeded,
                        failed: failed + batch_len,
                    },
                );
                let ghost pre_acts = acts@;
                let mut bready = batch_ready;
                bready.clear();
                let mut btexts = batch_texts;
                btexts.clear();
                let mut bvec = batch_vectors;
                bvec.clear();
                let mid = Pipeline {
                    user_id,
                    job_id,
                    phase,
                    total,
                    all_ids,
                    source_items,
                    to_process,
                    already_existing,
                    resolved: resolved + batch_len,
                    batch_len,
                    batch_items,
                    batch_ready: bready,
                    batch_texts: btexts,
                    batch_sent: 0,
                    batch_vectors: bvec,
                    succeeded,
                    failed: failed + batch_len,
                    reported_processed: already_existing + succeeded,
                    reported_failed: failed + batch_len,
                };
                let post = mid.advance(&mut acts);
                proof {
                    assert(acts@[0] == pre_acts[0]);
                }
                (post, acts)
            },
            Some(vecs) => {
                let mut vectors = batch_vectors;
                let mut incoming = vecs;
                vectors.append(&mut incoming);
                let sent2 = batch_sent + expected;
                if sent2 < batch_texts.len() {
                    let rem = batch_texts.len() - sent2;
                    let k = if rem > EMBEDDING_SUB_BATCH_SIZE {
                        EMBEDDING_SUB_BATCH_SIZE
                    } else {
                        rem
                    };
                    let chunk = clone_text_range(&batch_texts, sent2, k);
                    let mut acts: Vec<Action> = Vec::new();
                    acts.push(Action::EmbedTexts(chunk));
                    let post = Pipeline {
                        user_id,
                        job_id,
                        phase,
                        total,
                        all_ids,
                        source_items,
                        to_process,
                        already_existing,
                        resolved,
                        batch_len,
                        batch_items,
                        batch_ready,
                        batch_texts,
                        batch_sent: sent2,
                        batch_vectors: vectors,
                        succeeded,
                        failed,
                        reported_processed,
                        reported_failed,
                    };
                    (post, acts)
                } else {
                    let ghost orig_r = batch_ready@;
                    let ghost orig_v = vectors@;
                    let ready_len = batch_ready.len();
                    let mut rready = batch_ready;
                    let mut rvec = vectors;
                    let mut rev_ups: Vec<Action> = Vec::new();
                    while rready.len() > 0
                        invariant
                            rready@.len() == rvec@.len(),
                            rready@.len() <= orig_r.len(),
                            rready@ == orig_r.take(rready@.len() as int),
                            rvec@ == orig_v.take(rvec@.len() as int),
                            upsert_actions(orig_r, orig_v) == upsert_actions(rready@, rvec@)
                                + rev_ups@.reverse(),
                        decreases rready@.len(),
                    {
                        let ghost pre_r = rready@;
                        let ghost pre_v = rvec@;
                        let ghost prev_ups = rev_ups@;
                        let item = rready.pop().unwrap();
                        let vector = rvec.pop().unwrap();
                        rev_ups.push(Action::UpsertItem(item, vector));
                        proof {
                            assert(rev_ups@.reverse() =~= seq![rev_ups@.last()]
                                + prev_ups.reverse());
                            assert(upsert_actions(pre_r, pre_v) =~= upsert_actions(
                                pre_r.drop_last(),
                                pre_v.drop_last(),
                            ) + seq![rev_ups@.last()]);
                            assert(upsert_actions(rready@, rvec@) + rev_ups@.reverse()
                                =~= upsert_actions(pre_r, pre_v) + prev_ups.reverse());
                            assert(rready@ =~= orig_r.take(pre_r.len() - 1));
                            assert(rvec@ =~= orig_v.take(pre_v.len() - 1));
                        }
                    }
                    proof {
                        assert(upsert_actions(rready@, rvec@) + rev_ups@.reverse()
                            =~= rev_ups@.reverse());
                    }
                    let mut acts = reverse_vec(rev_ups);
                    proof {
                        assert(acts@ =~= upsert_actions(orig_r, orig_v));
                    }
                    proof {
                        lemma_upsert_actions_kinds(orig_r, orig_v);
                        assert(already_existing + succeeded + ready_len <= total);
                    }
                    acts.push(
                        Action::UpdateProgress {
                            total,
                            processed: already_existing + succeeded + ready_len,
                            failed,
                        },
                    );
                    proof {
                        assert(acts@.take(ready_len as int) =~= upsert_actions(orig_r, orig_v));
                    }
                    let ghost pre_acts = acts@;
                    let mut btexts = batch_texts;
                    btexts.clear();
                    let mid = Pipeline {
                        user_id,
                        job_id,
                        phase,
                        total,
                        all_ids,
                        source_items,
                        to_process,
                        already_existing,
                        resolved: resolved + batch_len,
                        batch_len,
                        batch_items,
                        batch_ready: rready,
                        batch_texts: btexts,
                        batch_sent: 0,
                        batch_vectors: rvec,
                        succeeded: succeeded + ready_len,
                        failed,
                        reported_processed: already_existing + succeeded + ready_len,
                        reported_failed: failed,
                    };
                    let post = mid.advance(&mut acts);
                    proof {
                        assert(acts@.take(ready_len as int) =~= pre_acts.take(ready_len as int));
                        assert(acts@[ready_len as int] == pre_acts[ready_len as int]);
                    }
                    (post, acts)
                }
            },
        }
    }

    /// One pipeline step: take the answer of the outside call the state
    /// waits for, and return the next state with the actions to perform,
    /// exactly as [`Pipeline::step_rel`] describes. The step keeps the
    /// invariant.
    pub fn step(self, event: Event) -> (r: (Pipeline, Vec<Action>))
        requires
            self.inv(),
            self.event_fits(event),
        ensures
            self.step_rel(event, r.0, r.1@),
            r.0.inv(),
    {
        let ghost pre = self;
        let ghost ev = event;
        let r = match event {
            Event::SourceListed(outcome) => self.on_source(outcome),
            Event::ExistingIdsFetched(outcome) => self.on_existing(outcome),
            Event::ContentFetched(contents) => self.on_content(contents),
            Event::EmbeddingsComputed(outcome) => self.on_embeddings(outcome),
            Event::UserFetched(outcome) => self.on_user(outcome),
            Event::MembershipWritten(outcome) => self.on_membership(outcome),
        };
        proof {
            lemma_step_preserves_inv(pre, ev, r.0, r.1@);
        }
        r
    }
}

/// A complete or partial run of the pipeline: `states[0]` steps through
/// `events` to `states[events.len()]`, emitting `actions[i]` at step `i`.
pub open spec fn is_run(states: Seq<Pipeline>, events: Seq<Event>, actions: Seq<Seq<Action>>) -> bool {
    &&& states.len() == events.len() + 1
    &&& actions.len() == events.len()
    &&& forall|i: int|
        0 <= i < events.len() ==> (#[trigger] states[i]).event_fits(events[i])
            && states[i].step_rel(events[i], states[i + 1], actions[i])
}


/// The state a run reaches after `k` steps is valid.
proof fn lemma_run_inv_upto(
    states: Seq<Pipeline>,
    events: Seq<Event>,
    actions: Seq<Seq<Action>>,
    k: int,
)
    requires
        is_run(states, events, actions),
        states[0].inv(),
        0 <= k < states.len(),
    ensures
        states[k].inv(),
    decreases k,
{
    if k > 0 {
        lemma_run_inv_upto(states, events, actions, k - 1);
        lemma_step_preserves_inv(states[k - 1], events[k - 1], states[k], actions[k - 1]);
    }
}

/// Every state of a run from a valid state is valid.
pub proof fn lemma_run_inv(states: Seq<Pipeline>, events: Seq<Event>, actions: Seq<Seq<Action>>)
    requires
        is_run(states, events, actions),
        states[0].inv(),
    ensures
        forall|i: int| 0 <= i < states.len() ==> (#[trigger] states[i]).inv(),
{
    assert forall|i: int| 0 <= i < states.len() implies (#[trigger] states[i]).inv() by {
        lemma_run_inv_upto(states, events, actions, i);
    }
}

/// The reported processed count never shrinks between two points of a run.
proof fn lemma_run_monotone_upto(
    states: Seq<Pipeline>,
    events: Seq<Event>,
    actions: Seq<Seq<Action>>,
    i: int,
    j: int,
)
    requires
        is_run(states, events, actions),
        states[0].inv(),
        0 <= i <= j < states.len(),
    ensures
        states[i].reported_processed <= states[j].reported_processed,
    decreases j - i,
{
    if i < j {
        lemma_run_monotone_upto(states, events, actions, i, j - 1);
        lemma_run_inv_upto(states, events, actions, j - 1);
        lemma_step_progress_monotone(states[j - 1], events[j - 1], states[j], actions[j - 1]);
    }
}

/// Law: progress is monotone over a whole run. From any valid starting
/// state, the processed count last written to the job record never
/// decreases from step to step, and every progress checkpoint emitted
/// anywhere in the run carries exactly the counters reported after its
/// step, within the job's total. An observer polling the job record
/// between steps therefore sees non-decreasing processed values that never
/// exceed the total.
pub proof fn lemma_run_progress_monotone(
    states: Seq<Pipeline>,
    events: Seq<Event>,
    actions: Seq<Seq<Action>>,
)
    requires
        is_run(states, events, actions),
        states[0].inv(),
    ensures
        forall|i: int, j: int|
            0 <= i <= j < states.len() ==> (#[trigger] states[i]).reported_processed <= (
            #[trigger] states[j]).reported_processed,
        forall|i: int, a: Action|
            0 <= i < actions.len() && #[trigger] actions[i].contains(a) ==> progress_action_ok(
                states[i],
                states[i + 1],
                a,
            ),
{
    assert forall|i: int, j: int|
        0 <= i <= j < states.len() implies (#[trigger] states[i]).reported_processed <= (
    #[trigger] states[j]).reported_processed by {
        lemma_run_monotone_upto(states, events, actions, i, j);
    }
    assert forall|i: int, a: Action|
        0 <= i < actions.len() && #[trigger] actions[i].contains(a) implies progress_action_ok(
        states[i],
        states[i + 1],
        a,
    ) by {
        lemma_run_inv_upto(states, events, actions, i);
        lemma_step_progress_monotone(states[i], events[i], states[i + 1], actions[i]);
    }
}

/// A quiescent run state stays quiescent `k` steps later.
proof fn lemma_run_quiescent_upto(
    states: Seq<Pipeline>,
    events: Seq<Event>,
    actions: Seq<Seq<Action>>,
    k: int,
)
    requires
        is_run(states, events, actions),
        states[0].inv(),
        states[0].quiescent(),
        0 <= k < states.len(),
    ensures
        states[k].quiescent(),
    decreases k,
{
    if k > 0 {
        lemma_run_quiescent_upto(states, events, actions, k - 1);
        lemma_run_inv_upto(states, events, actions, k - 1);
        lemma_step_quiescent(states[k - 1], events[k - 1], states[k], actions[k - 1]);
    }
}

/// Law: enrichment never restarts. Once a run reaches a quiescent state —
/// as it does at once when the store already knew every id of the source
/// list — every later step keeps it quiescent, and no step of the run asks
/// the provider for embeddings, fetches content, or writes items.
pub proof fn lemma_run_stays_quiescent(
    states: Seq<Pipeline>,
    events: Seq<Event>,
    actions: Seq<Seq<Action>>,
)
    requires
        is_run(states, events, actions),
        states[0].inv(),
        states[0].quiescent(),
    ensures
        forall|i: int| 0 <= i < states.len() ==> (#[trigger] states[i]).quiescent(),
        forall|i: int, a: Action|
            0 <= i < actions.len() && #[trigger] actions[i].contains(a) ==> !(a is EmbedTexts)
                && !(a is FetchContent) && !(a is UpsertItem) && !(a is TrackUnenriched),
{
    assert forall|i: int| 0 <= i < states.len() implies (#[trigger] states[i]).quiescent() by {
        lemma_run_quiescent_upto(states, events, actions, i);
    }
    assert forall|i: int, a: Action|
        0 <= i < actions.len() && #[trigger] actions[i].contains(a) implies !(a is EmbedTexts)
        && !(a is FetchContent) && !(a is UpsertItem) && !(a is TrackUnenriched) by {
        lemma_run_quiescent_upto(states, events, actions, i);
        lemma_run_inv_upto(states, events, actions, i);
        lemma_step_quiescent(states[i], events[i], states[i + 1], actions[i]);
    }
}

/// Law: a second run over an unchanged list asks the provider for nothing.
/// When the store already knows every id the source listed — as it does
/// after a successful run over the same list — the deduplication step
/// leaves nothing to enrich and the run is quiescent from that point on.
pub proof fn lemma_second_run_quiescent(
    pre: Pipeline,
    existing: Vec<u64>,
    post: Pipeline,
    acts: Seq<Action>,
)
    requires
        pre.inv(),
        pre.phase is CheckingExisting,
        pre.existing_rel(Ok(existing), post, acts),
        forall|i: int|
            0 <= i < pre.source_items@.len() ==> existing@.contains(
                #[trigger] pre.source_items@[i].id,
            ),
    ensures
        post.quiescent(),
        forall|i: int| 0 <= i < acts.len() ==> !((#[trigger] acts[i]) is EmbedTexts),
{
    lemma_no_new_items_when_all_known(pre.source_items@, existing@);
}

} // verus!
