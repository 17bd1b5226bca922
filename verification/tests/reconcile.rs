use dynaflare::client::{Failure, FailureKind, RequestFailure};
use dynaflare::reconcile::{sync_records, Reconciler, SyncEvent, SyncPhase, SyncRequest};
use dynaflare::report::{Level, LogLine};
use dynaflare::types::{
    APIError, Batch, BatchResult, BatchWithCreate, BatchWithCreateResult, CreateResult,
    NewRecord, Record, RecordCreate, RecordUpdate, Records, IP, TTL,
};

const ZONE: &str = "zone1";
const LIST_URL: &str = "https://api.cloudflare.com/client/v4/zones/zone1/dns_records?type=A";
const BATCH_URL: &str = "https://api.cloudflare.com/client/v4/zones/zone1/dns_records/batch";
const LOOKUP_URL: &str = "https://api.ipify.org?format=json";

fn record(id: &str, name: &str, content: &str) -> Record {
    Record { id: id.to_string(), name: name.to_string(), content: content.to_string() }
}

fn strings(items: &[&str]) -> Vec<String> {
    items.iter().map(|item| item.to_string()).collect()
}

fn start(desired: &[&str]) -> Reconciler {
    Reconciler::new(&strings(desired), &ZONE.to_string())
}

fn listed(records: &[Record]) -> SyncEvent {
    SyncEvent::Listed(Ok(Records { result: records.to_vec(), errors: Vec::new() }))
}

fn looked_up(ip: &str) -> SyncEvent {
    SyncEvent::LookedUp(Ok(IP { ip: ip.to_string() }))
}

fn created(ids: &[&str]) -> SyncEvent {
    SyncEvent::Created(Ok(BatchWithCreateResult {
        result: CreateResult {
            posts: ids.iter().map(|id| NewRecord { id: id.to_string() }).collect(),
        },
        errors: Vec::new(),
    }))
}

fn updated() -> SyncEvent {
    SyncEvent::Updated(Ok(BatchResult { errors: Vec::new() }))
}

fn update(id: &str, content: &str) -> RecordUpdate {
    RecordUpdate { id: id.to_string(), content: content.to_string() }
}

fn create(name: &str, content: &str) -> RecordCreate {
    RecordCreate { name: name.to_string(), content: content.to_string(), ttl: TTL::TTL }
}

fn info(text: &str) -> LogLine {
    LogLine { level: Level::Info, text: text.to_string() }
}

fn silent(step: (Reconciler, Vec<LogLine>)) -> Reconciler {
    assert_eq!(step.1, Vec::<LogLine>::new());
    step.0
}

#[test]
fn reconcile_home_and_office_end_to_end() {
    let r = start(&["home", "office"]);
    assert_eq!(r.phase, SyncPhase::Listing);
    assert_eq!(r.pending(), SyncRequest::List { url: LIST_URL.to_string() });
    let r = silent(sync_records(r, listed(&[record("1", "home", "1.1.1.1")])));
    assert_eq!(r.pending(), SyncRequest::LookUp { url: LOOKUP_URL.to_string() });
    let r = silent(sync_records(r, looked_up("2.2.2.2")));
    assert_eq!(
        r.pending(),
        SyncRequest::Create {
            url: BATCH_URL.to_string(),
            batch: BatchWithCreate {
                patches: vec![update("1", "2.2.2.2")],
                posts: vec![create("office", "2.2.2.2")],
            },
        }
    );
    let (r, lines) = sync_records(r, created(&["77"]));
    assert_eq!(lines, vec![info("Public IP is 2.2.2.2. Records created: 1, Records updated: 1.")]);
    assert_eq!(r.pending(), SyncRequest::Nothing);
    assert_eq!(
        r.outcome(),
        Some(Ok((strings(&["1", "77"]), "2.2.2.2".to_string(), BATCH_URL.to_string())))
    );
}

#[test]
fn reconcile_store_in_step_sends_no_batch() {
    let r = start(&["home", "office"]);
    let remote = [record("1", "home", "2.2.2.2"), record("2", "office", "2.2.2.2")];
    let r = silent(sync_records(r, listed(&remote)));
    let (r, lines) = sync_records(r, looked_up("2.2.2.2"));
    assert_eq!(lines, vec![info("Public IP is 2.2.2.2. No records changes needed.")]);
    assert_eq!(r.pending(), SyncRequest::Nothing);
    assert_eq!(
        r.outcome(),
        Some(Ok((strings(&["1", "2"]), "2.2.2.2".to_string(), BATCH_URL.to_string())))
    );
}

#[test]
fn reconcile_updates_only_sends_a_batch_without_creations() {
    let r = start(&["home", "office"]);
    let remote = [record("1", "home", "1.1.1.1"), record("2", "office", "2.2.2.2")];
    let r = silent(sync_records(r, listed(&remote)));
    let r = silent(sync_records(r, looked_up("2.2.2.2")));
    assert_eq!(
        r.pending(),
        SyncRequest::Update {
            url: BATCH_URL.to_string(),
            batch: Batch { patches: vec![update("1", "2.2.2.2")] },
        }
    );
    let (r, lines) = sync_records(r, updated());
    assert_eq!(lines, vec![info("Public IP is 2.2.2.2. Records created: 0, Records updated: 1.")]);
    assert_eq!(
        r.outcome(),
        Some(Ok((strings(&["1", "2"]), "2.2.2.2".to_string(), BATCH_URL.to_string())))
    );
}

#[test]
fn reconcile_puts_created_identifiers_behind_the_matched_in_order() {
    let r = start(&["a", "b", "c", "d"]);
    let r = silent(sync_records(r, listed(&[record("5", "c", "2.2.2.2")])));
    let r = silent(sync_records(r, looked_up("2.2.2.2")));
    assert_eq!(
        r.pending(),
        SyncRequest::Create {
            url: BATCH_URL.to_string(),
            batch: BatchWithCreate {
                patches: Vec::new(),
                posts: vec![create("a", "2.2.2.2"), create("b", "2.2.2.2"), create("d", "2.2.2.2")],
            },
        }
    );
    let (r, lines) = sync_records(r, created(&["10", "11", "12"]));
    assert_eq!(lines, vec![info("Public IP is 2.2.2.2. Records created: 3, Records updated: 0.")]);
    assert_eq!(
        r.outcome(),
        Some(Ok((strings(&["5", "10", "11", "12"]), "2.2.2.2".to_string(), BATCH_URL.to_string())))
    );
}

#[test]
fn reconcile_twice_sends_no_batch_the_second_time() {
    let desired = ["home", "office"];
    let r = start(&desired);
    let r = silent(sync_records(r, listed(&[record("1", "home", "1.1.1.1")])));
    let r = silent(sync_records(r, looked_up("2.2.2.2")));
    let (r, _) = sync_records(r, created(&["77"]));
    assert!(matches!(r.phase, SyncPhase::Synced { .. }));
    let again = start(&desired);
    let later = [record("1", "home", "2.2.2.2"), record("77", "office", "2.2.2.2")];
    let again = silent(sync_records(again, listed(&later)));
    let (again, _) = sync_records(again, looked_up("2.2.2.2"));
    assert_eq!(again.pending(), SyncRequest::Nothing);
    assert!(matches!(again.phase, SyncPhase::Synced { .. }));
}

fn failed(kind: FailureKind, message: &str) -> SyncPhase {
    SyncPhase::Failed { failure: Failure { kind, message: message.to_string() } }
}

#[test]
fn reconcile_fails_with_the_listing() {
    let r = silent(sync_records(
        start(&["home"]),
        SyncEvent::Listed(Err(RequestFailure::Status { code: 404, body: "none".to_string() })),
    ));
    assert_eq!(
        r.phase,
        failed(FailureKind::InvalidZone, "DNS records retrieval: Invalid zone: [404] none")
    );
    assert_eq!(r.pending(), SyncRequest::Nothing);
    let r = silent(sync_records(
        start(&["home"]),
        SyncEvent::Listed(Err(RequestFailure::Status { code: 400, body: "".to_string() })),
    ));
    assert_eq!(
        r.phase,
        failed(FailureKind::InvalidCredential, "DNS records retrieval: Invalid API token: [400] ")
    );
    let r = silent(sync_records(
        start(&["home"]),
        SyncEvent::Listed(Ok(Records {
            result: Vec::new(),
            errors: vec![APIError { code: 6003, message: "Invalid request headers".to_string() }],
        })),
    ));
    assert_eq!(
        r.phase,
        failed(FailureKind::Remote, "DNS records retrieval: [6003] Invalid request headers ")
    );
    assert_eq!(
        r.outcome(),
        Some(Err(Failure {
            kind: FailureKind::Remote,
            message: "DNS records retrieval: [6003] Invalid request headers ".to_string(),
        }))
    );
}

#[test]
fn reconcile_fails_with_the_lookup() {
    let r = silent(sync_records(start(&["home"]), listed(&[])));
    let r = silent(sync_records(
        r,
        SyncEvent::LookedUp(Err(RequestFailure::Transport { message: "timed out".to_string() })),
    ));
    assert_eq!(r.phase, failed(FailureKind::Transport, "Public IP retrieval: timed out"));
    assert_eq!(r.pending(), SyncRequest::Nothing);
}

#[test]
fn reconcile_fails_with_the_batch() {
    let r = silent(sync_records(start(&["home"]), listed(&[])));
    let r = silent(sync_records(r, looked_up("2.2.2.2")));
    let r = silent(sync_records(
        r,
        SyncEvent::Created(Err(RequestFailure::Status { code: 500, body: "oops".to_string() })),
    ));
    assert_eq!(r.phase, failed(FailureKind::Transport, "DNS records batch operation: [500] oops"));

    let r = silent(sync_records(start(&["home"]), listed(&[record("1", "home", "1.1.1.1")])));
    let r = silent(sync_records(r, looked_up("2.2.2.2")));
    let r = silent(sync_records(
        r,
        SyncEvent::Updated(Ok(BatchResult {
            errors: vec![APIError { code: 81044, message: "Record not found".to_string() }],
        })),
    ));
    assert_eq!(
        r.phase,
        failed(FailureKind::Remote, "DNS records batch operation: [81044] Record not found ")
    );
    assert_eq!(r.pending(), SyncRequest::Nothing);
}

#[test]
fn reconcile_ignores_what_does_not_answer_the_pending_request() {
    let r = start(&["home"]);
    let r = silent(sync_records(r, looked_up("2.2.2.2")));
    assert_eq!(r.phase, SyncPhase::Listing);
    let r = silent(sync_records(r, updated()));
    assert_eq!(r.phase, SyncPhase::Listing);
    assert_eq!(r.clone().outcome(), None);
    let r = silent(sync_records(r, listed(&[])));
    let waiting = r.clone();
    let r = silent(sync_records(r, listed(&[record("1", "home", "1.1.1.1")])));
    assert_eq!(r, waiting);
    let r = silent(sync_records(r, looked_up("2.2.2.2")));
    let writing = r.clone();
    let r = silent(sync_records(r, updated()));
    assert_eq!(r, writing);
    let r = silent(sync_records(r, looked_up("3.3.3.3")));
    assert_eq!(r, writing);
    let (r, _) = sync_records(r, created(&["4"]));
    let done = r.clone();
    let r = silent(sync_records(r, created(&["5"])));
    assert_eq!(r, done);

    let r = silent(sync_records(start(&["home"]), listed(&[record("1", "home", "1.1.1.1")])));
    let r = silent(sync_records(r, looked_up("2.2.2.2")));
    let writing = r.clone();
    let r = silent(sync_records(r, created(&["9"])));
    assert_eq!(r, writing);
}

#[test]
fn reconcile_starts_with_the_names_as_they_are() {
    let r = start(&["b", "a", "", "a"]);
    assert_eq!(r.desired, strings(&["b", "a", "", "a"]));
    assert_eq!(r.zone_id, ZONE);
    assert_eq!(r.phase, SyncPhase::Listing);
}
