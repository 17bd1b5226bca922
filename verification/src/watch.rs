//! The watch that follows the reconciliation: after every pause, look up
//! this machine's address again and, where it has changed, send the records
//! after it. A cycle that fails is reported and tried again after the next
//! pause; no failure ends the watch.

use crate::client::{
    batch_outcome, dns_batch, failure_in, lookup_outcome, public_ip, RequestFailure,
    RequestFailureView, IP_LOOKUP_URL,
};
use crate::report::{
    as_errors, has_room, in_step_line, in_step_text, log_errors, moved_line, moved_text, reported,
    Level, LogLine, LogLineView,
};
use crate::types::{deep, APIErrorView, Batch, BatchResult, RecordUpdate, RecordUpdateView, IP};
use vstd::prelude::*;
use vstd::string::StringExecFns;

verus! {

/// Where the watch stands.
#[derive(Clone, Debug, PartialEq, Eq)]
pub enum WatchPhase {
    /// The pause between two cycles.
    Idle,
    /// A cycle: the lookup is awaited while nothing is `observed`; then the
    /// answer to the batch that sends the records after the `observed`
    /// address.
    Checking { observed: Option<String> },
}

/// The model of [`WatchPhase`].
pub enum WatchPhaseView {
    Idle,
    Checking { observed: Option<Seq<char>> },
}

impl View for WatchPhase {
    type V = WatchPhaseView;

    open spec fn view(&self) -> WatchPhaseView {
        match self {
            WatchPhase::Idle => WatchPhaseView::Idle,
            WatchPhase::Checking { observed } => WatchPhaseView::Checking {
                observed: observed.deep_view(),
            },
        }
    }
}

/// What the watch carries from cycle to cycle: the identifiers of the
/// records it keeps in step, in the order of the reconciliation; the address
/// that they publish; where batches go; the pause between two cycles, in
/// nanoseconds; and what the reporting of failures keeps.
#[derive(Clone, Debug, PartialEq, Eq)]
pub struct RunState {
    pub ids: Vec<String>,
    pub last_ip: String,
    pub url: String,
    pub interval: u64,
    pub last_error: String,
    pub error_count: usize,
    pub group_errors: bool,
    pub phase: WatchPhase,
}

/// The model of [`RunState`].
pub struct RunStateView {
    pub ids: Seq<Seq<char>>,
    pub last_ip: Seq<char>,
    pub url: Seq<char>,
    pub interval: u64,
    pub last_error: Seq<char>,
    pub error_count: usize,
    pub group_errors: bool,
    pub phase: WatchPhaseView,
}

impl View for RunState {
    type V = RunStateView;

    open spec fn view(&self) -> RunStateView {
        RunStateView {
            ids: self.ids.deep_view(),
            last_ip: self.last_ip@,
            url: self.url@,
            interval: self.interval,
            last_error: self.last_error@,
            error_count: self.error_count,
            group_errors: self.group_errors,
            phase: self.phase@,
        }
    }
}

/// What happened since the last step of the watch.
#[derive(Debug, PartialEq, Eq)]
pub enum WatchEvent {
    /// The pause is over.
    Elapsed,
    /// The lookup of the address was answered, or failed.
    LookedUp(Result<IP, RequestFailure>),
    /// The batch was answered, or failed.
    Updated(Result<BatchResult, RequestFailure>),
}

/// The model of [`WatchEvent`].
pub enum WatchEventView {
    Elapsed,
    LookedUp(Result<Seq<char>, RequestFailureView>),
    Updated(Result<Seq<APIErrorView>, RequestFailureView>),
}

impl View for WatchEvent {
    type V = WatchEventView;

    open spec fn view(&self) -> WatchEventView {
        match self {
            WatchEvent::Elapsed => WatchEventView::Elapsed,
            WatchEvent::LookedUp(response) => WatchEventView::LookedUp(deep(*response)),
            WatchEvent::Updated(response) => WatchEventView::Updated(deep(*response)),
        }
    }
}

/// What the watch wants done next.
#[derive(Clone, Debug, PartialEq, Eq)]
pub enum WatchRequest {
    /// Pause for so many nanoseconds.
    Sleep { nanoseconds: u64 },
    /// Look up this machine's address, at `url`.
    LookUp { url: String },
    /// Send the updates to `url`.
    Update { url: String, batch: Batch },
}

/// The model of [`WatchRequest`].
pub enum WatchRequestView {
    Sleep { nanoseconds: u64 },
    LookUp { url: Seq<char> },
    Update { url: Seq<char>, batch: Seq<RecordUpdateView> },
}

impl View for WatchRequest {
    type V = WatchRequestView;

    open spec fn view(&self) -> WatchRequestView {
        match self {
            WatchRequest::Sleep { nanoseconds } => WatchRequestView::Sleep {
                nanoseconds: *nanoseconds,
            },
            WatchRequest::LookUp { url } => WatchRequestView::LookUp { url: url@ },
            WatchRequest::Update { url, batch } => WatchRequestView::Update {
                url: url@,
                batch: batch@,
            },
        }
    }
}

/// A step of the watch: the state afterwards, and the lines to log.
pub struct WatchStep {
    pub state: RunStateView,
    pub lines: Seq<LogLineView>,
}

/// The updates that send every record after `ip`.
pub open spec fn updates_for(ids: Seq<Seq<char>>, ip: Seq<char>) -> Seq<RecordUpdateView> {
    Seq::new(ids.len(), |k: int| RecordUpdateView { id: ids[k], content: ip })
}

/// The signature of the failure that a step reports, if it reports one: the
/// message of the failure under the heading of what the cycle was doing.
pub open spec fn step_failure(state: RunStateView, event: WatchEventView) -> Option<Seq<char>> {
    match (state.phase, event) {
        (
            WatchPhaseView::Checking { observed: None },
            WatchEventView::LookedUp(response),
        ) => match lookup_outcome(response) {
            Ok(_) => None,
            Err(failure) => Some(failure_in("Retrieving Public IP"@, failure).message),
        },
        (
            WatchPhaseView::Checking { observed: Some(_) },
            WatchEventView::Updated(response),
        ) => match batch_outcome(response) {
            Ok(_) => None,
            Err(failure) => Some(failure_in("DNS records batch operation"@, failure).message),
        },
        _ => None,
    }
}

/// The end of a cycle: the watch pauses again, with `last_ip` as the address
/// that the records publish, and the outcome is reported; `signature` is
/// that of the failure, if the cycle failed. `lines` follow what the
/// reporting logs.
pub open spec fn cycle_end(
    state: RunStateView,
    last_ip: Seq<char>,
    signature: Option<Seq<char>>,
    lines: Seq<LogLineView>,
) -> WatchStep {
    let r = reported(state.last_error, state.error_count as nat, signature, state.group_errors);
    WatchStep {
        state: RunStateView {
            last_ip: last_ip,
            last_error: r.last,
            error_count: r.count as usize,
            phase: WatchPhaseView::Idle,
            ..state
        },
        lines: as_errors(r.lines) + lines,
    }
}

/// The rule of the watch.
///
/// When the pause is over a cycle begins with the lookup of the address. A
/// lookup that fails ends the cycle. An address that is the one the records
/// publish ends it too, with a line that says so: at the level of
/// information if failures came before, quietly else. Any other address is
/// observed, and the batch that sends every record after it is awaited; its
/// good answer makes the observed address the published one, its failure
/// leaves the published address as it was, so that the next cycle tries
/// again. The end of every cycle is reported. What does not answer the
/// pending request changes nothing.
pub open spec fn watch_step(state: RunStateView, event: WatchEventView) -> WatchStep {
    match (state.phase, event) {
        (WatchPhaseView::Idle, WatchEventView::Elapsed) => WatchStep {
            state: RunStateView { phase: WatchPhaseView::Checking { observed: None }, ..state },
            lines: Seq::empty(),
        },
        (
            WatchPhaseView::Checking { observed: None },
            WatchEventView::LookedUp(response),
        ) => match lookup_outcome(response) {
            Ok(ip) => if ip == state.last_ip {
                cycle_end(
                    state,
                    state.last_ip,
                    None,
                    seq![
                        LogLineView {
                            level: if state.error_count == 0 {
                                Level::Debug
                            } else {
                                Level::Info
                            },
                            text: in_step_text(ip),
                        },
                    ],
                )
            } else {
                WatchStep {
                    state: RunStateView {
                        phase: WatchPhaseView::Checking { observed: Some(ip) },
                        ..state
                    },
                    lines: Seq::empty(),
                }
            },
            Err(_) => cycle_end(state, state.last_ip, step_failure(state, event), Seq::empty()),
        },
        (
            WatchPhaseView::Checking { observed: Some(ip) },
            WatchEventView::Updated(response),
        ) => match batch_outcome(response) {
            Ok(_) => cycle_end(
                state,
                ip,
                None,
                seq![
                    LogLineView {
                        level: Level::Info,
                        text: moved_text(ip, state.last_ip, state.ids.len()),
                    },
                ],
            ),
            Err(_) => cycle_end(state, state.last_ip, step_failure(state, event), Seq::empty()),
        },
        _ => WatchStep { state: state, lines: Seq::empty() },
    }
}

/// What is pending in a state of the watch: the pause, always of the same
/// length, between two cycles; in a cycle the lookup, and then the batch that
/// sends every record after the observed address.
pub open spec fn watch_request(state: RunStateView) -> WatchRequestView {
    match state.phase {
        WatchPhaseView::Idle => WatchRequestView::Sleep { nanoseconds: state.interval },
        WatchPhaseView::Checking { observed: None } => WatchRequestView::LookUp {
            url: IP_LOOKUP_URL@,
        },
        WatchPhaseView::Checking { observed: Some(ip) } => WatchRequestView::Update {
            url: state.url,
            batch: updates_for(state.ids, ip),
        },
    }
}

fn updates(ids: &Vec<String>, ip: &String) -> (batch: Batch)
    ensures
        batch@ == updates_for(ids.deep_view(), ip@),
{
    let mut patches: Vec<RecordUpdate> = Vec::new();
    let mut k: usize = 0;
    while k < ids.len()
        invariant
            k <= ids.len(),
            patches.deep_view() == updates_for(ids.deep_view(), ip@).take(k as int),
        decreases ids.len() - k,
    {
        let ghost before = patches.deep_view();
        patches.push(RecordUpdate { id: ids[k].clone(), content: ip.clone() });
        assert(patches.deep_view() =~= before.push(updates_for(ids.deep_view(), ip@)[k as int]));
        k += 1;
    }
    Batch { patches }
}

impl RunState {
    /// The watch over the records `ids`, which publish `last_ip`, at its
    /// start: pausing, with no failure to remember.
    pub fn new(
        ids: Vec<String>,
        last_ip: String,
        url: String,
        interval: u64,
        group_errors: bool,
    ) -> (state: RunState)
        ensures
            state@ == (RunStateView {
                ids: ids.deep_view(),
                last_ip: last_ip@,
                url: url@,
                interval: interval,
                last_error: Seq::empty(),
                error_count: 0,
                group_errors: group_errors,
                phase: WatchPhaseView::Idle,
            }),
    {
        RunState {
            ids,
            last_ip,
            url,
            interval,
            last_error: String::new(),
            error_count: 0,
            group_errors,
            phase: WatchPhase::Idle,
        }
    }

    /// What to do next.
    pub fn pending(&self) -> (request: WatchRequest)
        ensures
            request@ == watch_request(self@),
    {
        match &self.phase {
            WatchPhase::Idle => WatchRequest::Sleep { nanoseconds: self.interval },
            WatchPhase::Checking { observed: None } => WatchRequest::LookUp {
                url: String::from_str(IP_LOOKUP_URL),
            },
            WatchPhase::Checking { observed: Some(ip) } => WatchRequest::Update {
                url: self.url.clone(),
                batch: updates(&self.ids, ip),
            },
        }
    }
}

/// Takes the watch one step on: `event` is what happened since the last
/// step. Returns the state as it is now and the lines to log.
pub fn watch(state: RunState, event: WatchEvent) -> (next: (RunState, Vec<LogLine>))
    requires
        has_room(
            state@.last_error,
            state@.error_count,
            step_failure(state@, event@),
            state@.group_errors,
        ),
    ensures
        next.0@ == watch_step(state@, event@).state,
        next.1.deep_view() == watch_step(state@, event@).lines,
{
    let RunState { ids, last_ip, url, interval, last_error, error_count, group_errors, phase } =
        state;
    let mut last_ip = last_ip;
    let mut last_error = last_error;
    let mut error_count = error_count;
    let mut lines: Vec<LogLine> = Vec::new();
    let phase = match (phase, event) {
        (WatchPhase::Idle, WatchEvent::Elapsed) => WatchPhase::Checking { observed: None },
        (WatchPhase::Checking { observed: None }, WatchEvent::LookedUp(response)) => {
            match public_ip(response) {
                Ok(ip) => {
                    if ip == last_ip {
                        let level = if error_count == 0 {
                            Level::Debug
                        } else {
                            Level::Info
                        };
                        lines = log_errors(None, &mut last_error, &mut error_count, &group_errors);
                        lines.push(in_step_line(level, &ip));
                        WatchPhase::Idle
                    } else {
                        WatchPhase::Checking { observed: Some(ip) }
                    }
                },
                Err(failure) => {
                    let failure = failure.context("Retrieving Public IP");
                    lines = log_errors(
                        Some(failure.message),
                        &mut last_error,
                        &mut error_count,
                        &group_errors,
                    );
                    WatchPhase::Idle
                },
            }
        },
        (WatchPhase::Checking { observed: Some(ip) }, WatchEvent::Updated(response)) => {
            match dns_batch(response) {
                Ok(_) => {
                    lines = log_errors(None, &mut last_error, &mut error_count, &group_errors);
                    lines.push(moved_line(&ip, &last_ip, ids.len()));
                    last_ip = ip;
                },
                Err(failure) => {
                    let failure = failure.context("DNS records batch operation");
                    lines = log_errors(
                        Some(failure.message),
                        &mut last_error,
                        &mut error_count,
                        &group_errors,
                    );
                },
            }
            WatchPhase::Idle
        },
        (phase, _) => phase,
    };
    let next = RunState {
        ids,
        last_ip,
        url,
        interval,
        last_error,
        error_count,
        group_errors,
        phase,
    };
    (next, lines)
}

/// No step of the watch changes the identifiers, where the batches go, the
/// length of the pause, or whether failures are grouped; and the published
/// address changes only with the good answer to a batch, to the address that
/// the batch sent the records after.
pub proof fn lemma_watch_keeps_its_records(state: RunStateView, event: WatchEventView)
    ensures
        ({
            let next = watch_step(state, event).state;
            &&& next.ids == state.ids
            &&& next.url == state.url
            &&& next.interval == state.interval
            &&& next.group_errors == state.group_errors
            &&& next.last_ip != state.last_ip ==> {
                &&& state.phase == (WatchPhaseView::Checking { observed: Some(next.last_ip) })
                &&& event matches WatchEventView::Updated(response) && batch_outcome(response) is Ok
            }
        }),
{
}

/// A cycle of the watch, and the number of batches that it sent.
pub struct WatchCycle {
    pub state: RunStateView,
    pub batches: nat,
}

/// A cycle in which nothing fails: the pause ends, the lookup tells `ip`,
/// and the store takes the batch, if the watch sends one.
pub open spec fn good_cycle(state: RunStateView, ip: Seq<char>) -> WatchCycle {
    let begun = watch_step(state, WatchEventView::Elapsed).state;
    let looked = watch_step(begun, WatchEventView::LookedUp(Ok(ip))).state;
    if watch_request(looked) is Update {
        WatchCycle {
            state: watch_step(looked, WatchEventView::Updated(Ok(Seq::empty()))).state,
            batches: 1,
        }
    } else {
        WatchCycle { state: looked, batches: 0 }
    }
}

/// A cycle sends a batch exactly when the address that the lookup tells is
/// not the published one, and the batch sends every record after it; after
/// the cycle the watch pauses and the address told is the published one.
pub proof fn lemma_cycle_follows_the_address(state: RunStateView, ip: Seq<char>)
    requires
        state.phase is Idle,
    ensures
        ({
            let begun = watch_step(state, WatchEventView::Elapsed).state;
            let looked = watch_step(begun, WatchEventView::LookedUp(Ok(ip))).state;
            let cycle = good_cycle(state, ip);
            &&& cycle.batches == if ip == state.last_ip {
                0nat
            } else {
                1nat
            }
            &&& ip != state.last_ip ==> watch_request(looked) == (WatchRequestView::Update {
                url: state.url,
                batch: updates_for(state.ids, ip),
            })
            &&& cycle.state.phase is Idle
            &&& cycle.state.last_ip == ip
            &&& cycle.state.ids == state.ids
            &&& cycle.state.url == state.url
        }),
{
}

/// Where the lookup tells the published address twice and then another one
/// three times, the watch sends one batch in all, in the third cycle, and
/// from then on the other address is the published one.
pub proof fn lemma_one_batch_per_change(state: RunStateView, other: Seq<char>)
    requires
        state.phase is Idle,
        other != state.last_ip,
    ensures
        ({
            let first = good_cycle(state, state.last_ip);
            let second = good_cycle(first.state, state.last_ip);
            let third = good_cycle(second.state, other);
            let fourth = good_cycle(third.state, other);
            let fifth = good_cycle(fourth.state, other);
            &&& first.batches == 0 && first.state.last_ip == state.last_ip
            &&& second.batches == 0 && second.state.last_ip == state.last_ip
            &&& third.batches == 1 && third.state.last_ip == other
            &&& fourth.batches == 0 && fourth.state.last_ip == other
            &&& fifth.batches == 0 && fifth.state.last_ip == other
        }),
{
    let first = good_cycle(state, state.last_ip);
    lemma_cycle_follows_the_address(state, state.last_ip);
    let second = good_cycle(first.state, state.last_ip);
    lemma_cycle_follows_the_address(first.state, state.last_ip);
    let third = good_cycle(second.state, other);
    lemma_cycle_follows_the_address(second.state, other);
    let fourth = good_cycle(third.state, other);
    lemma_cycle_follows_the_address(third.state, other);
    lemma_cycle_follows_the_address(fourth.state, other);
}

} // verus!
