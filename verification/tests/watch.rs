use dynaflare::client::RequestFailure;
use dynaflare::report::{Level, LogLine};
use dynaflare::types::{APIError, Batch, BatchResult, RecordUpdate, IP};
use dynaflare::watch::{watch, RunState, WatchEvent, WatchPhase, WatchRequest};

const BATCH_URL: &str = "https://api.cloudflare.com/client/v4/zones/zone1/dns_records/batch";
const LOOKUP_URL: &str = "https://api.ipify.org?format=json";
const PAUSE: u64 = 300_000_000_000;

fn strings(items: &[&str]) -> Vec<String> {
    items.iter().map(|item| item.to_string()).collect()
}

fn start(ids: &[&str], ip: &str, group: bool) -> RunState {
    RunState::new(strings(ids), ip.to_string(), BATCH_URL.to_string(), PAUSE, group)
}

fn looked_up(ip: &str) -> WatchEvent {
    WatchEvent::LookedUp(Ok(IP { ip: ip.to_string() }))
}

fn lookup_failed(message: &str) -> WatchEvent {
    WatchEvent::LookedUp(Err(RequestFailure::Transport { message: message.to_string() }))
}

fn updated() -> WatchEvent {
    WatchEvent::Updated(Ok(BatchResult { errors: Vec::new() }))
}

fn line(level: Level, text: &str) -> LogLine {
    LogLine { level, text: text.to_string() }
}

fn update(id: &str, content: &str) -> RecordUpdate {
    RecordUpdate { id: id.to_string(), content: content.to_string() }
}

/// Runs cycles in which nothing fails, one for each address that the lookup
/// tells, and returns the batches that were sent.
fn run(state: RunState, addresses: &[&str]) -> (RunState, Vec<(usize, Batch)>, Vec<LogLine>) {
    let mut state = state;
    let mut sent = Vec::new();
    let mut logged = Vec::new();
    for (cycle, address) in addresses.iter().enumerate() {
        assert_eq!(state.pending(), WatchRequest::Sleep { nanoseconds: PAUSE });
        let (next, lines) = watch(state, WatchEvent::Elapsed);
        assert_eq!(lines, Vec::<LogLine>::new());
        assert_eq!(next.pending(), WatchRequest::LookUp { url: LOOKUP_URL.to_string() });
        let (next, lines) = watch(next, looked_up(address));
        logged.extend(lines);
        state = match next.pending() {
            WatchRequest::Update { url, batch } => {
                assert_eq!(url, BATCH_URL);
                sent.push((cycle, batch));
                let (next, lines) = watch(next, updated());
                logged.extend(lines);
                next
            }
            _ => next,
        };
    }
    (state, sent, logged)
}

#[test]
fn watch_sends_one_batch_when_the_address_changes() {
    let state = start(&["1", "77"], "1.1.1.1", false);
    let (state, sent, logged) =
        run(state, &["1.1.1.1", "1.1.1.1", "2.2.2.2", "2.2.2.2", "2.2.2.2"]);
    assert_eq!(
        sent,
        vec![(2, Batch { patches: vec![update("1", "2.2.2.2"), update("77", "2.2.2.2")] })]
    );
    assert_eq!(state.last_ip, "2.2.2.2");
    assert_eq!(state.phase, WatchPhase::Idle);
    assert_eq!(state.ids, strings(&["1", "77"]));
    assert_eq!(state.interval, PAUSE);
    assert_eq!(state.url, BATCH_URL);
    assert_eq!(
        logged,
        vec![
            line(Level::Debug, "Public IP is 1.1.1.1. No records changes needed."),
            line(Level::Debug, "Public IP is 1.1.1.1. No records changes needed."),
            line(
                Level::Info,
                "Public IP changed, DNS records have been updated. Current: 2.2.2.2 Previous: 1.1.1.1 Records updated: 2"
            ),
            line(Level::Debug, "Public IP is 2.2.2.2. No records changes needed."),
            line(Level::Debug, "Public IP is 2.2.2.2. No records changes needed."),
        ]
    );
}

#[test]
fn watch_published_address_is_kept_through_unchanged_cycles() {
    let (state, sent, _) = run(start(&["1"], "1.1.1.1", true), &["1.1.1.1", "1.1.1.1"]);
    assert_eq!(sent, Vec::new());
    assert_eq!(state, start(&["1"], "1.1.1.1", true));
}

#[test]
fn watch_lookup_failure_is_reported_and_the_watch_goes_on() {
    let state = start(&["1"], "1.1.1.1", true);
    let (state, _) = watch(state, WatchEvent::Elapsed);
    let (state, lines) = watch(state, lookup_failed("timed out"));
    assert_eq!(lines, vec![line(Level::Error, "Retrieving Public IP: timed out")]);
    assert_eq!(state.phase, WatchPhase::Idle);
    assert_eq!(state.pending(), WatchRequest::Sleep { nanoseconds: PAUSE });
    assert_eq!(state.last_ip, "1.1.1.1");
    assert_eq!(state.error_count, 1);
    assert_eq!(state.last_error, "Retrieving Public IP: timed out");
}

#[test]
fn watch_groups_a_failure_that_repeats() {
    let mut state = start(&["1"], "1.1.1.1", true);
    let mut logged = Vec::new();
    for _ in 0..4 {
        let (next, _) = watch(state, WatchEvent::Elapsed);
        let (next, lines) = watch(next, lookup_failed("timed out"));
        logged.extend(lines);
        state = next;
    }
    assert_eq!(logged, vec![line(Level::Error, "Retrieving Public IP: timed out")]);
    assert_eq!(state.error_count, 4);
    let (state, _) = watch(state, WatchEvent::Elapsed);
    let (state, lines) = watch(state, looked_up("1.1.1.1"));
    assert_eq!(
        lines,
        vec![
            line(Level::Error, "additional 3 errors of: Retrieving Public IP: timed out"),
            line(Level::Info, "Public IP is 1.1.1.1. No records changes needed."),
        ]
    );
    assert_eq!(state.error_count, 0);
    assert_eq!(state.last_error, "");
}

#[test]
fn watch_without_grouping_logs_every_failure() {
    let mut state = start(&["1"], "1.1.1.1", false);
    let mut logged = Vec::new();
    for _ in 0..3 {
        let (next, _) = watch(state, WatchEvent::Elapsed);
        let (next, lines) = watch(next, lookup_failed("timed out"));
        logged.extend(lines);
        state = next;
    }
    assert_eq!(logged.len(), 3);
    assert!(logged.iter().all(|l| *l == line(Level::Error, "Retrieving Public IP: timed out")));
    assert_eq!(state.error_count, 0);
    assert_eq!(state.last_error, "");
}

#[test]
fn watch_batch_failure_leaves_the_address_for_the_next_cycle() {
    let state = start(&["1", "2"], "1.1.1.1", true);
    let (state, _) = watch(state, WatchEvent::Elapsed);
    let (state, lines) = watch(state, looked_up("2.2.2.2"));
    assert_eq!(lines, Vec::<LogLine>::new());
    assert_eq!(state.phase, WatchPhase::Checking { observed: Some("2.2.2.2".to_string()) });
    let (state, lines) = watch(
        state,
        WatchEvent::Updated(Err(RequestFailure::Status { code: 502, body: "bad gateway".to_string() })),
    );
    assert_eq!(
        lines,
        vec![line(Level::Error, "DNS records batch operation: [502] bad gateway")]
    );
    assert_eq!(state.last_ip, "1.1.1.1");
    assert_eq!(state.phase, WatchPhase::Idle);

    let (state, _) = watch(state, WatchEvent::Elapsed);
    let (state, _) = watch(state, looked_up("2.2.2.2"));
    assert_eq!(
        state.pending(),
        WatchRequest::Update {
            url: BATCH_URL.to_string(),
            batch: Batch { patches: vec![update("1", "2.2.2.2"), update("2", "2.2.2.2")] },
        }
    );
    let (state, lines) = watch(
        state,
        WatchEvent::Updated(Ok(BatchResult {
            errors: vec![APIError { code: 81044, message: "Record not found".to_string() }],
        })),
    );
    assert_eq!(
        lines,
        vec![line(Level::Error, "DNS records batch operation: [81044] Record not found ")]
    );
    assert_eq!(state.last_ip, "1.1.1.1");

    let (state, _) = watch(state, WatchEvent::Elapsed);
    let (state, _) = watch(state, looked_up("2.2.2.2"));
    let (state, lines) = watch(state, updated());
    assert_eq!(
        lines,
        vec![line(
            Level::Info,
            "Public IP changed, DNS records have been updated. Current: 2.2.2.2 Previous: 1.1.1.1 Records updated: 2"
        )]
    );
    assert_eq!(state.last_ip, "2.2.2.2");
    assert_eq!(state.error_count, 0);
}

#[test]
fn watch_counts_repeats_before_a_successful_update() {
    let mut state = start(&["1"], "1.1.1.1", true);
    for _ in 0..2 {
        let (next, _) = watch(state, WatchEvent::Elapsed);
        let (next, _) = watch(next, lookup_failed("down"));
        state = next;
    }
    let (state, _) = watch(state, WatchEvent::Elapsed);
    let (state, _) = watch(state, looked_up("2.2.2.2"));
    let (state, lines) = watch(state, updated());
    assert_eq!(
        lines,
        vec![
            line(Level::Error, "additional 1 errors of: Retrieving Public IP: down"),
            line(
                Level::Info,
                "Public IP changed, DNS records have been updated. Current: 2.2.2.2 Previous: 1.1.1.1 Records updated: 1"
            ),
        ]
    );
    assert_eq!(state.error_count, 0);
}

#[test]
fn watch_ignores_what_does_not_answer_the_pending_request() {
    let idle = start(&["1"], "1.1.1.1", true);
    let (state, lines) = watch(idle.clone(), looked_up("2.2.2.2"));
    assert_eq!((state, lines), (idle.clone(), Vec::new()));
    let (state, lines) = watch(idle.clone(), updated());
    assert_eq!((state, lines), (idle.clone(), Vec::new()));

    let (checking, _) = watch(idle, WatchEvent::Elapsed);
    assert_eq!(checking.phase, WatchPhase::Checking { observed: None });
    let (state, lines) = watch(checking.clone(), WatchEvent::Elapsed);
    assert_eq!((state, lines), (checking.clone(), Vec::new()));
    let (state, lines) = watch(checking.clone(), updated());
    assert_eq!((state, lines), (checking.clone(), Vec::new()));

    let (sending, _) = watch(checking, looked_up("2.2.2.2"));
    let (state, lines) = watch(sending.clone(), looked_up("3.3.3.3"));
    assert_eq!((state, lines), (sending.clone(), Vec::new()));
    let (state, lines) = watch(sending.clone(), WatchEvent::Elapsed);
    assert_eq!((state, lines), (sending, Vec::new()));
}
