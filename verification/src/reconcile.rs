//! The first reconciliation: list the store's records, look up this
//! machine's address, and write at most one batch that brings the store in
//! step. The reconciler decides; its caller performs each request that is
//! pending and hands back what came of it.

use crate::client::{
    batch_endpoint, batch_outcome, batch_url, creation_outcome, dns_batch, dns_batch_with_create,
    dns_records, failure_in, listing_endpoint, listing_outcome, listing_url, lookup_outcome,
    public_ip, Failure, FailureView, RequestFailure, RequestFailureView, IP_LOOKUP_URL,
};
use crate::plan::{
    after_writes, lemma_in_step_needs_no_write, lemma_missing_name_is_created,
    lemma_reconcile_twice, plan, plan_of, record_names, synced_ids, unmatched, ReconciliationPlan,
    ReconciliationPlanView,
};
use crate::report::{
    changes_text, in_step_line, in_step_text, log_changes, Level, LogLine, LogLineView,
};
use crate::types::{
    deep, APIErrorView, Batch, BatchResult, BatchWithCreate, BatchWithCreateResult,
    BatchWithCreateResultView, BatchWithCreateView, Record, RecordUpdateView, RecordView, Records,
    RecordsView, IP,
};
use vstd::prelude::*;
use vstd::string::StringExecFns;

verus! {

/// What the reconciliation waits for.
#[derive(Clone, Debug, PartialEq, Eq)]
pub enum SyncPhase {
    /// The listing of the store's records.
    Listing,
    /// This machine's address; the store has listed `records`.
    Lookup { records: Vec<Record> },
    /// The answer to the batch that carries out `plan`.
    Writing { plan: ReconciliationPlan },
    /// Nothing more: the store serves the desired names with `ip`, in the
    /// records that it knows as `ids`.
    Synced { ids: Vec<String>, ip: String },
    /// Nothing more: the reconciliation failed.
    Failed { failure: Failure },
}

/// The model of [`SyncPhase`].
pub enum SyncPhaseView {
    Listing,
    Lookup { records: Seq<RecordView> },
    Writing { plan: ReconciliationPlanView },
    Synced { ids: Seq<Seq<char>>, ip: Seq<char> },
    Failed { failure: FailureView },
}

impl View for SyncPhase {
    type V = SyncPhaseView;

    open spec fn view(&self) -> SyncPhaseView {
        match self {
            SyncPhase::Listing => SyncPhaseView::Listing,
            SyncPhase::Lookup { records } => SyncPhaseView::Lookup { records: records.deep_view() },
            SyncPhase::Writing { plan } => SyncPhaseView::Writing { plan: plan@ },
            SyncPhase::Synced { ids, ip } => SyncPhaseView::Synced {
                ids: ids.deep_view(),
                ip: ip@,
            },
            SyncPhase::Failed { failure } => SyncPhaseView::Failed { failure: failure@ },
        }
    }
}

/// The reconciliation of the names `desired` in the zone `zone_id`.
#[derive(Clone, Debug, PartialEq, Eq)]
pub struct Reconciler {
    pub desired: Vec<String>,
    pub zone_id: String,
    pub phase: SyncPhase,
}

/// The model of [`Reconciler`].
pub struct ReconcilerView {
    pub desired: Seq<Seq<char>>,
    pub zone_id: Seq<char>,
    pub phase: SyncPhaseView,
}

impl View for Reconciler {
    type V = ReconcilerView;

    open spec fn view(&self) -> ReconcilerView {
        ReconcilerView {
            desired: self.desired.deep_view(),
            zone_id: self.zone_id@,
            phase: self.phase@,
        }
    }
}

/// What came of a request.
#[derive(Debug, PartialEq, Eq)]
pub enum SyncEvent {
    Listed(Result<Records, RequestFailure>),
    LookedUp(Result<IP, RequestFailure>),
    Updated(Result<BatchResult, RequestFailure>),
    Created(Result<BatchWithCreateResult, RequestFailure>),
}

/// The model of [`SyncEvent`].
pub enum SyncEventView {
    Listed(Result<RecordsView, RequestFailureView>),
    LookedUp(Result<Seq<char>, RequestFailureView>),
    Updated(Result<Seq<APIErrorView>, RequestFailureView>),
    Created(Result<BatchWithCreateResultView, RequestFailureView>),
}

impl View for SyncEvent {
    type V = SyncEventView;

    open spec fn view(&self) -> SyncEventView {
        match self {
            SyncEvent::Listed(response) => SyncEventView::Listed(deep(*response)),
            SyncEvent::LookedUp(response) => SyncEventView::LookedUp(deep(*response)),
            SyncEvent::Updated(response) => SyncEventView::Updated(deep(*response)),
            SyncEvent::Created(response) => SyncEventView::Created(deep(*response)),
        }
    }
}

/// The request that a reconciliation wants made.
#[derive(Clone, Debug, PartialEq, Eq)]
pub enum SyncRequest {
    /// List the address records of the zone, at `url`.
    List { url: String },
    /// Look up this machine's address, at `url`.
    LookUp { url: String },
    /// Send the updates to `url`.
    Update { url: String, batch: Batch },
    /// Send the updates and creations to `url`.
    Create { url: String, batch: BatchWithCreate },
    /// None: the reconciliation is over.
    Nothing,
}

/// The model of [`SyncRequest`].
pub enum SyncRequestView {
    List { url: Seq<char> },
    LookUp { url: Seq<char> },
    Update { url: Seq<char>, batch: Seq<RecordUpdateView> },
    Create { url: Seq<char>, batch: BatchWithCreateView },
    Nothing,
}

impl View for SyncRequest {
    type V = SyncRequestView;

    open spec fn view(&self) -> SyncRequestView {
        match self {
            SyncRequest::List { url } => SyncRequestView::List { url: url@ },
            SyncRequest::LookUp { url } => SyncRequestView::LookUp { url: url@ },
            SyncRequest::Update { url, batch } => SyncRequestView::Update {
                url: url@,
                batch: batch@,
            },
            SyncRequest::Create { url, batch } => SyncRequestView::Create {
                url: url@,
                batch: batch@,
            },
            SyncRequest::Nothing => SyncRequestView::Nothing,
        }
    }
}

/// A step of the reconciliation: where it stands afterwards, and the lines
/// to log.
pub struct SyncStep {
    pub phase: SyncPhaseView,
    pub lines: Seq<LogLineView>,
}

/// The phase that a failure ends the reconciliation in; `context` says
/// during what it arose.
pub open spec fn failed(context: Seq<char>, failure: FailureView) -> SyncStep {
    SyncStep {
        phase: SyncPhaseView::Failed { failure: failure_in(context, failure) },
        lines: Seq::empty(),
    }
}

/// The phase that a reconciliation ends in once `plan` is carried out and
/// the store has named the records it `created`.
pub open spec fn written(plan: ReconciliationPlanView, created: Seq<Seq<char>>) -> SyncStep {
    SyncStep {
        phase: SyncPhaseView::Synced { ids: synced_ids(plan, created), ip: plan.content },
        lines: seq![
            LogLineView {
                level: Level::Info,
                text: changes_text(
                    plan.content,
                    plan.unmatched.len(),
                    plan.matched_changed().len(),
                ),
            },
        ],
    }
}

/// The rule of the reconciliation.
///
/// The listing is read first, then the address; any failure ends the
/// reconciliation, under the heading of what was being done. With both in
/// hand the plan is made. Where it asks for no write, the reconciliation is
/// over, with the identifiers of the matched records. Else one batch is
/// awaited: with creations where names are unmatched, without where only
/// updates are due. Its good answer ends the reconciliation with the
/// identifiers of the matched records and, behind them, of the created ones.
/// What does not answer the pending request changes nothing.
pub open spec fn sync_step(state: ReconcilerView, event: SyncEventView) -> SyncStep {
    match (state.phase, event) {
        (
            SyncPhaseView::Listing,
            SyncEventView::Listed(response),
        ) => match listing_outcome(response) {
            Ok(records) => SyncStep {
                phase: SyncPhaseView::Lookup { records: records },
                lines: Seq::empty(),
            },
            Err(failure) => failed("DNS records retrieval"@, failure),
        },
        (
            SyncPhaseView::Lookup { records },
            SyncEventView::LookedUp(response),
        ) => match lookup_outcome(response) {
            Ok(ip) => {
                let plan = plan_of(state.desired, records, ip);
                if plan.converged() {
                    SyncStep {
                        phase: SyncPhaseView::Synced { ids: plan.ids(), ip: ip },
                        lines: seq![LogLineView { level: Level::Info, text: in_step_text(ip) }],
                    }
                } else {
                    SyncStep { phase: SyncPhaseView::Writing { plan: plan }, lines: Seq::empty() }
                }
            },
            Err(failure) => failed("Public IP retrieval"@, failure),
        },
        (
            SyncPhaseView::Writing { plan },
            SyncEventView::Created(response),
        ) => if plan.unmatched.len() > 0 {
            match creation_outcome(response) {
                Ok(created) => written(plan, created),
                Err(failure) => failed("DNS records batch operation"@, failure),
            }
        } else {
            SyncStep { phase: state.phase, lines: Seq::empty() }
        },
        (
            SyncPhaseView::Writing { plan },
            SyncEventView::Updated(response),
        ) => if plan.unmatched.len() == 0 {
            match batch_outcome(response) {
                Ok(_) => written(plan, Seq::empty()),
                Err(failure) => failed("DNS records batch operation"@, failure),
            }
        } else {
            SyncStep { phase: state.phase, lines: Seq::empty() }
        },
        _ => SyncStep { phase: state.phase, lines: Seq::empty() },
    }
}

/// The request that is pending in a state of the reconciliation.
pub open spec fn sync_request(state: ReconcilerView) -> SyncRequestView {
    match state.phase {
        SyncPhaseView::Listing => SyncRequestView::List { url: listing_endpoint(state.zone_id) },
        SyncPhaseView::Lookup { .. } => SyncRequestView::LookUp { url: IP_LOOKUP_URL@ },
        SyncPhaseView::Writing { plan } => if plan.unmatched.len() > 0 {
            SyncRequestView::Create {
                url: batch_endpoint(state.zone_id),
                batch: BatchWithCreateView { patches: plan.patches(), posts: plan.posts() },
            }
        } else {
            SyncRequestView::Update { url: batch_endpoint(state.zone_id), batch: plan.patches() }
        },
        _ => SyncRequestView::Nothing,
    }
}

/// Takes the reconciliation one step on: `event` is what came of the request
/// that was pending. Returns the reconciliation as it stands now and the
/// lines to log.
pub fn sync_records(state: Reconciler, event: SyncEvent) -> (next: (Reconciler, Vec<LogLine>))
    ensures
        next.0@ == (ReconcilerView { phase: sync_step(state@, event@).phase, ..state@ }),
        next.1.deep_view() == sync_step(state@, event@).lines,
{
    let Reconciler { desired, zone_id, phase } = state;
    let mut lines: Vec<LogLine> = Vec::new();
    let phase = match (phase, event) {
        (SyncPhase::Listing, SyncEvent::Listed(response)) => match dns_records(response) {
            Ok(records) => SyncPhase::Lookup { records },
            Err(failure) => SyncPhase::Failed { failure: failure.context("DNS records retrieval") },
        },
        (SyncPhase::Lookup { records }, SyncEvent::LookedUp(response)) => match public_ip(
            response,
        ) {
            Ok(ip) => {
                let plan = plan(&desired, &records, &ip);
                if plan.is_converged() {
                    lines.push(in_step_line(Level::Info, &ip));
                    SyncPhase::Synced { ids: plan.ids(), ip }
                } else {
                    SyncPhase::Writing { plan }
                }
            },
            Err(failure) => SyncPhase::Failed { failure: failure.context("Public IP retrieval") },
        },
        (SyncPhase::Writing { plan }, SyncEvent::Created(response)) => {
            if plan.unmatched.len() > 0 {
                match dns_batch_with_create(response) {
                    Ok(created) => {
                        lines.push(written_line(&plan));
                        SyncPhase::Synced { ids: ids_after(&plan, created), ip: plan.content }
                    },
                    Err(failure) => SyncPhase::Failed {
                        failure: failure.context("DNS records batch operation"),
                    },
                }
            } else {
                SyncPhase::Writing { plan }
            }
        },
        (SyncPhase::Writing { plan }, SyncEvent::Updated(response)) => {
            if plan.unmatched.len() == 0 {
                match dns_batch(response) {
                    Ok(_) => {
                        lines.push(written_line(&plan));
                        SyncPhase::Synced { ids: ids_after(&plan, Vec::new()), ip: plan.content }
                    },
                    Err(failure) => SyncPhase::Failed {
                        failure: failure.context("DNS records batch operation"),
                    },
                }
            } else {
                SyncPhase::Writing { plan }
            }
        },
        (phase, _) => phase,
    };
    (Reconciler { desired, zone_id, phase }, lines)
}

fn written_line(plan: &ReconciliationPlan) -> (line: LogLine)
    ensures
        line@ == written(plan@, Seq::empty()).lines[0],
{
    let changed = plan.matched_changed();
    log_changes(&plan.content, plan.unmatched.len(), changed.len())
}

fn ids_after(plan: &ReconciliationPlan, created: Vec<String>) -> (ids: Vec<String>)
    ensures
        ids.deep_view() == synced_ids(plan@, created.deep_view()),
{
    let mut ids = plan.ids();
    let mut created = created;
    ids.append(&mut created);
    ids
}

/// A list of the same names.
fn copy_names(list: &Vec<String>) -> (copy: Vec<String>)
    ensures
        copy.deep_view() == list.deep_view(),
{
    let mut copy: Vec<String> = Vec::new();
    let mut k: usize = 0;
    while k < list.len()
        invariant
            k <= list.len(),
            copy.deep_view() == list.deep_view().take(k as int),
        decreases list.len() - k,
    {
        let ghost before = copy.deep_view();
        copy.push(list[k].clone());
        assert(copy.deep_view() =~= before.push(list.deep_view()[k as int]));
        k += 1;
    }
    copy
}

/// What a reconciliation has come to: nothing while a request is pending;
/// then either the identifiers to keep in step, the address that they
/// publish and where to send further batches, or the failure.
pub open spec fn sync_outcome(state: ReconcilerView) -> Option<
    Result<(Seq<Seq<char>>, Seq<char>, Seq<char>), FailureView>,
> {
    match state.phase {
        SyncPhaseView::Synced { ids, ip } => Some(Ok((ids, ip, batch_endpoint(state.zone_id)))),
        SyncPhaseView::Failed { failure } => Some(Err(failure)),
        _ => None,
    }
}

impl Reconciler {
    /// A reconciliation of `desired` in the zone `zone_id`, at its start.
    pub fn new(desired: &Vec<String>, zone_id: &String) -> (reconciler: Reconciler)
        ensures
            reconciler@ == (ReconcilerView {
                desired: desired.deep_view(),
                zone_id: zone_id@,
                phase: SyncPhaseView::Listing,
            }),
    {
        Reconciler {
            desired: copy_names(desired),
            zone_id: zone_id.clone(),
            phase: SyncPhase::Listing,
        }
    }

    /// The request to make next.
    pub fn pending(&self) -> (request: SyncRequest)
        ensures
            request@ == sync_request(self@),
    {
        match &self.phase {
            SyncPhase::Listing => SyncRequest::List { url: listing_url(&self.zone_id) },
            SyncPhase::Lookup { .. } => SyncRequest::LookUp {
                url: String::from_str(IP_LOOKUP_URL),
            },
            SyncPhase::Writing { plan } => {
                if plan.unmatched.len() > 0 {
                    SyncRequest::Create {
                        url: batch_url(&self.zone_id),
                        batch: BatchWithCreate { patches: plan.patches(), posts: plan.posts() },
                    }
                } else {
                    SyncRequest::Update {
                        url: batch_url(&self.zone_id),
                        batch: Batch { patches: plan.patches() },
                    }
                }
            },
            _ => SyncRequest::Nothing,
        }
    }

    /// What the reconciliation has come to, once no request is pending.
    pub fn outcome(self) -> (outcome: Option<Result<(Vec<String>, String, String), Failure>>)
        ensures
            match sync_outcome(self@) {
                Some(Ok(synced)) => outcome matches Some(Ok(found)) && found.deep_view() == synced,
                Some(Err(failure)) => outcome matches Some(Err(found)) && found@ == failure,
                None => outcome is None,
            },
    {
        match self.phase {
            SyncPhase::Synced { ids, ip } => Some(Ok((ids, ip, batch_url(&self.zone_id)))),
            SyncPhase::Failed { failure } => Some(Err(failure)),
            _ => None,
        }
    }
}

/// A reconciliation that is over stays as it ended, whatever comes: it asks
/// for nothing more, and a failed one never comes to identifiers to watch.
pub proof fn lemma_reconciliation_ends(state: ReconcilerView, event: SyncEventView)
    requires
        state.phase is Synced || state.phase is Failed,
    ensures
        sync_step(state, event).phase == state.phase,
        sync_step(state, event).lines.len() == 0,
        sync_request(state) is Nothing,
        state.phase is Failed ==> sync_outcome(state) matches Some(Err(_)),
{
}

/// How far a reconciliation has come: nothing read yet, the listing read,
/// the address read as well, or over.
pub open spec fn progress(phase: SyncPhaseView) -> nat {
    match phase {
        SyncPhaseView::Listing => 0,
        SyncPhaseView::Lookup { .. } => 1,
        SyncPhaseView::Writing { .. } => 2,
        _ => 3,
    }
}

/// A reconciliation only goes forward: a step either leaves it as it is or
/// takes it further, and it asks for the listing, for the address and for a
/// batch each at one stage only. So the store is listed once, the address is
/// looked up once, and at most one batch is sent.
pub proof fn lemma_reconciliation_goes_forward(state: ReconcilerView, event: SyncEventView)
    ensures
        ({
            let next = sync_step(state, event).phase;
            &&& progress(next) >= progress(state.phase)
            &&& progress(next) == progress(state.phase) ==> next == state.phase
            &&& sync_request(state) is List <==> progress(state.phase) == 0
            &&& sync_request(state) is LookUp <==> progress(state.phase) == 1
            &&& sync_request(state) is Update || sync_request(state) is Create <==> progress(
                state.phase,
            ) == 2
        }),
{
}

/// Where the store serves every desired name and all its records publish the
/// address that the lookup tells, the reconciliation ends with the lookup:
/// no batch is asked for.
pub proof fn lemma_in_step_store_gets_no_batch(state: ReconcilerView, ip: Seq<char>)
    requires
        state.phase is Lookup,
        forall|x: Seq<char>| #[trigger]
            state.desired.contains(x) ==> record_names(
                state.phase->Lookup_records,
            ).contains(x),
        forall|j: int|
            0 <= j < state.phase->Lookup_records.len() ==> (
            #[trigger] state.phase->Lookup_records[j]).content == ip,
    ensures
        ({
            let next = ReconcilerView {
                phase: sync_step(state, SyncEventView::LookedUp(Ok(ip))).phase,
                ..state
            };
            &&& next.phase is Synced
            &&& sync_request(next) is Nothing
        }),
{
    lemma_in_step_needs_no_write(state.desired, state.phase->Lookup_records, ip);
}

/// Where a desired name is missing from the store, the reconciliation asks
/// for a batch with creations, of which exactly one is for that name; and
/// when the store answers with as many identifiers as creations, the
/// identifier at that creation's place ends up behind those of the matched
/// records, at the same place among the created.
pub proof fn lemma_missing_name_gets_created(
    state: ReconcilerView,
    ip: Seq<char>,
    created: Seq<Seq<char>>,
    x: Seq<char>,
)
    requires
        state.phase is Lookup,
        state.desired.contains(x),
        !record_names(state.phase->Lookup_records).contains(x),
        created.len() == unmatched(state.desired, state.phase->Lookup_records).len(),
    ensures
        ({
            let plan = plan_of(state.desired, state.phase->Lookup_records, ip);
            let writing = ReconcilerView {
                phase: sync_step(state, SyncEventView::LookedUp(Ok(ip))).phase,
                ..state
            };
            let answer = SyncEventView::Created(
                Ok(BatchWithCreateResultView { posts: created, errors: Seq::empty() }),
            );
            let synced = sync_step(writing, answer).phase;
            &&& writing.phase == SyncPhaseView::Writing { plan: plan }
            &&& sync_request(writing) matches SyncRequestView::Create { batch, .. }
                && exists|k: int|
                {
                    &&& 0 <= k < batch.posts.len()
                    &&& (#[trigger] batch.posts[k]).name == x
                    &&& forall|m: int|
                        0 <= m < batch.posts.len() && (#[trigger] batch.posts[m]).name == x ==> m
                            == k
                    &&& synced matches SyncPhaseView::Synced { ids, .. } && ids[plan.matched.len()
                        + k] == created[k]
                }
        }),
{
    let records = state.phase->Lookup_records;
    let plan = plan_of(state.desired, records, ip);
    lemma_missing_name_is_created(state.desired, records, ip, created, x);
    let k = choose|k: int|
        {
            &&& 0 <= k < plan.posts().len()
            &&& (#[trigger] plan.posts()[k]).name == x
            &&& forall|m: int|
                0 <= m < plan.posts().len() && (#[trigger] plan.posts()[m]).name == x ==> m == k
            &&& k < created.len() ==> synced_ids(plan, created)[plan.matched.len() + k]
                == created[k]
        };
    let writing = ReconcilerView {
        phase: sync_step(state, SyncEventView::LookedUp(Ok(ip))).phase,
        ..state
    };
    let batch = sync_request(writing)->Create_batch;
    assert(batch.posts[k].name == x);
}

/// Reconciling is idempotent: a second reconciliation of the same names,
/// against the store as the writes of the first left it and with the same
/// address, ends with the lookup and asks for no batch.
pub proof fn lemma_second_reconciliation_gets_no_batch(
    desired: Seq<Seq<char>>,
    zone_id: Seq<char>,
    remote: Seq<RecordView>,
    ip: Seq<char>,
    created: Seq<Seq<char>>,
)
    ensures
        ({
            let again = ReconcilerView {
                desired: desired,
                zone_id: zone_id,
                phase: SyncPhaseView::Lookup {
                    records: after_writes(desired, remote, ip, created),
                },
            };
            let next = ReconcilerView {
                phase: sync_step(again, SyncEventView::LookedUp(Ok(ip))).phase,
                ..again
            };
            &&& next.phase is Synced
            &&& sync_request(next) is Nothing
        }),
{
    lemma_reconcile_twice(desired, remote, ip, created);
}

} // verus!
