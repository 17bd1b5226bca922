//! What the answers of the remote record store and of the address lookup
//! mean: which are failures, of what kind, and what a good answer holds.
//! The requests themselves are made elsewhere; this module gets what came
//! back, as plain values.

use crate::text::{decimal, decimal_string};
use crate::types::{
    deep, APIError, APIErrorView, BatchResult, BatchWithCreateResult, BatchWithCreateResultView,
    Record, RecordView, Records, RecordsView, IP,
};
use vstd::prelude::*;
use vstd::string::StringExecFns;

verus! {

/// The address of the lookup service that tells this machine's public address.
pub const IP_LOOKUP_URL: &'static str = "https://api.ipify.org?format=json";

/// The header that carries the credential.
pub const AUTHORIZATION_HEADER: &'static str = "Authorization";

/// The header that names the format of a write.
pub const CONTENT_TYPE_HEADER: &'static str = "Content-Type";

/// The format of a write.
pub const JSON_MIME: &'static str = "application/json";

/// A request that got no good answer: the store answered with a status that
/// is no success, or no answer came at all.
#[derive(Clone, Debug, PartialEq, Eq)]
pub enum RequestFailure {
    Status { code: u16, body: String },
    Transport { message: String },
}

/// The model of [`RequestFailure`].
pub enum RequestFailureView {
    Status { code: u16, body: Seq<char> },
    Transport { message: Seq<char> },
}

impl View for RequestFailure {
    type V = RequestFailureView;

    open spec fn view(&self) -> RequestFailureView {
        match self {
            RequestFailure::Status { code, body } => RequestFailureView::Status {
                code: *code,
                body: body@,
            },
            RequestFailure::Transport { message } => RequestFailureView::Transport {
                message: message@,
            },
        }
    }
}

impl DeepView for RequestFailure {
    type V = RequestFailureView;

    open spec fn deep_view(&self) -> RequestFailureView {
        self@
    }
}

/// The kinds of failure that callers tell apart.
#[derive(Clone, Copy, Debug, PartialEq, Eq)]
pub enum FailureKind {
    /// The store does not know the zone.
    InvalidZone,
    /// The store does not take the credential.
    InvalidCredential,
    /// No usable answer came.
    Transport,
    /// The store answered, and its answer lists errors.
    Remote,
}

/// A failure with the text that describes it.
#[derive(Clone, Debug, PartialEq, Eq)]
pub struct Failure {
    pub kind: FailureKind,
    pub message: String,
}

/// The model of [`Failure`].
pub struct FailureView {
    pub kind: FailureKind,
    pub message: Seq<char>,
}

impl View for Failure {
    type V = FailureView;

    open spec fn view(&self) -> FailureView {
        FailureView { kind: self.kind, message: self.message@ }
    }
}

impl DeepView for Failure {
    type V = FailureView;

    open spec fn deep_view(&self) -> FailureView {
        self@
    }
}

/// A status that is no success, as text: the code in brackets, then what the
/// store sent with it.
pub open spec fn status_text(code: u16, body: Seq<char>) -> Seq<char> {
    "["@ + decimal(code as nat) + "] "@ + body
}

/// A text under the heading that says during what it arose.
pub open spec fn in_context(context: Seq<char>, message: Seq<char>) -> Seq<char> {
    context + ": "@ + message
}

/// A failure under the heading that says during what it arose.
pub open spec fn failure_in(context: Seq<char>, failure: FailureView) -> FailureView {
    FailureView { kind: failure.kind, message: in_context(context, failure.message) }
}

/// What a request without a good answer amounts to when nothing more is
/// known of it: no usable answer, described by the status or by what went
/// wrong on the way.
pub open spec fn transport_failure(failure: RequestFailureView) -> FailureView {
    match failure {
        RequestFailureView::Status { code, body } => FailureView {
            kind: FailureKind::Transport,
            message: status_text(code, body),
        },
        RequestFailureView::Transport { message } => FailureView {
            kind: FailureKind::Transport,
            message: message,
        },
    }
}

/// What a failed listing of the records amounts to: the status 404 says that
/// the zone is unknown, the status 400 that the credential is not taken;
/// everything else is no usable answer.
pub open spec fn listing_failure(failure: RequestFailureView) -> FailureView {
    match failure {
        RequestFailureView::Status { code, body } => if code == 404 {
            failure_in(
                "Invalid zone"@,
                FailureView { kind: FailureKind::InvalidZone, message: status_text(code, body) },
            )
        } else if code == 400 {
            failure_in(
                "Invalid API token"@,
                FailureView {
                    kind: FailureKind::InvalidCredential,
                    message: status_text(code, body),
                },
            )
        } else {
            transport_failure(failure)
        },
        _ => transport_failure(failure),
    }
}

/// One error of the store as text: its code in brackets, its message, a blank.
pub open spec fn error_text(error: APIErrorView) -> Seq<char> {
    "["@ + decimal(error.code as nat) + "] "@ + error.message + " "@
}

/// The errors of the store as one text, each as `error_text` has it, in
/// their order.
pub open spec fn flattened(errors: Seq<APIErrorView>) -> Seq<char>
    decreases errors.len(),
{
    if errors.len() == 0 {
        Seq::empty()
    } else {
        flattened(errors.drop_last()) + error_text(errors.last())
    }
}

/// The failure that a list of errors in an answer of the store amounts to.
pub open spec fn remote_failure(errors: Seq<APIErrorView>) -> FailureView {
    FailureView { kind: FailureKind::Remote, message: flattened(errors) }
}

/// What a listing of the records yields: the records, unless the request
/// failed or the answer lists errors.
pub open spec fn listing_outcome(response: Result<RecordsView, RequestFailureView>) -> Result<
    Seq<RecordView>,
    FailureView,
> {
    match response {
        Ok(data) => if data.errors.len() == 0 {
            Ok(data.result)
        } else {
            Err(remote_failure(data.errors))
        },
        Err(failure) => Err(listing_failure(failure)),
    }
}

/// What the address lookup yields: the address, unless the request failed.
pub open spec fn lookup_outcome(response: Result<Seq<char>, RequestFailureView>) -> Result<
    Seq<char>,
    FailureView,
> {
    match response {
        Ok(ip) => Ok(ip),
        Err(failure) => Err(transport_failure(failure)),
    }
}

/// What a batch of updates yields: nothing, unless the request failed or the
/// answer lists errors.
pub open spec fn batch_outcome(response: Result<Seq<APIErrorView>, RequestFailureView>) -> Result<
    (),
    FailureView,
> {
    match response {
        Ok(errors) => if errors.len() == 0 {
            Ok(())
        } else {
            Err(remote_failure(errors))
        },
        Err(failure) => Err(transport_failure(failure)),
    }
}

/// What a batch with creations yields: the identifiers of the created
/// records, in the order of the answer, unless the request failed or the
/// answer lists errors.
pub open spec fn creation_outcome(
    response: Result<BatchWithCreateResultView, RequestFailureView>,
) -> Result<Seq<Seq<char>>, FailureView> {
    match response {
        Ok(data) => if data.errors.len() == 0 {
            Ok(data.posts)
        } else {
            Err(remote_failure(data.errors))
        },
        Err(failure) => Err(transport_failure(failure)),
    }
}

impl Failure {
    /// The same failure with `context` put before its message.
    pub fn context(self, context: &str) -> (failure: Failure)
        ensures
            failure@ == failure_in(context@, self@),
    {
        let mut message = String::from_str(context);
        message.append(": ");
        message.append(self.message.as_str());
        Failure { kind: self.kind, message }
    }
}

fn status_message(code: u16, body: &String) -> (text: String)
    ensures
        text@ == status_text(code, body@),
{
    let mut text = String::from_str("[");
    text.append(decimal_string(code as u64).as_str());
    text.append("] ");
    text.append(body.as_str());
    text
}

/// Writes the errors of the store as one text.
pub fn flatten_error(errors: Vec<APIError>) -> (text: String)
    ensures
        text@ == flattened(errors.deep_view()),
{
    let ghost all = errors.deep_view();
    let mut text = String::new();
    let mut i: usize = 0;
    while i < errors.len()
        invariant
            i <= errors.len(),
            all == errors.deep_view(),
            text@ == flattened(all.take(i as int)),
        decreases errors.len() - i,
    {
        text.append("[");
        text.append(decimal_string(errors[i].code as u64).as_str());
        text.append("] ");
        text.append(errors[i].message.as_str());
        text.append(" ");
        proof {
            assert(all.take(i + 1).drop_last() =~= all.take(i as int));
        }
        i += 1;
    }
    assert(all.take(errors.len() as int) =~= all);
    text
}

/// Turns a request without a good answer into the failure to report.
pub fn request_error(error: RequestFailure) -> (failure: Failure)
    ensures
        failure@ == transport_failure(error@),
{
    match error {
        RequestFailure::Status { code, body } => Failure {
            kind: FailureKind::Transport,
            message: status_message(code, &body),
        },
        RequestFailure::Transport { message } => Failure { kind: FailureKind::Transport, message },
    }
}

/// Reads the answer to a listing of the zone's address records.
pub fn dns_records(response: Result<Records, RequestFailure>) -> (outcome: Result<
    Vec<Record>,
    Failure,
>)
    ensures
        deep(outcome) == listing_outcome(deep(response)),
{
    match response {
        Ok(data) => {
            if data.errors.is_empty() {
                Ok(data.result)
            } else {
                Err(Failure { kind: FailureKind::Remote, message: flatten_error(data.errors) })
            }
        },
        Err(RequestFailure::Status { code, body }) => {
            if code == 404 {
                Err(
                    Failure {
                        kind: FailureKind::InvalidZone,
                        message: status_message(code, &body),
                    }.context("Invalid zone"),
                )
            } else if code == 400 {
                Err(
                    Failure {
                        kind: FailureKind::InvalidCredential,
                        message: status_message(code, &body),
                    }.context("Invalid API token"),
                )
            } else {
                Err(request_error(RequestFailure::Status { code, body }))
            }
        },
        Err(error) => Err(request_error(error)),
    }
}

/// Reads the answer of the address lookup.
pub fn public_ip(response: Result<IP, RequestFailure>) -> (outcome: Result<String, Failure>)
    ensures
        deep(outcome) == lookup_outcome(deep(response)),
{
    match response {
        Ok(data) => Ok(data.ip),
        Err(error) => Err(request_error(error)),
    }
}

/// Reads the answer to a batch that only updates records.
pub fn dns_batch(response: Result<BatchResult, RequestFailure>) -> (outcome: Result<(), Failure>)
    ensures
        deep(outcome) == batch_outcome(deep(response)),
{
    match response {
        Ok(data) => {
            if data.errors.is_empty() {
                Ok(())
            } else {
                Err(Failure { kind: FailureKind::Remote, message: flatten_error(data.errors) })
            }
        },
        Err(error) => Err(request_error(error)),
    }
}

/// Reads the answer to a batch that updates and creates records.
pub fn dns_batch_with_create(response: Result<BatchWithCreateResult, RequestFailure>) -> (outcome:
    Result<Vec<String>, Failure>)
    ensures
        deep(outcome) == creation_outcome(deep(response)),
{
    match response {
        Ok(data) => {
            if data.errors.is_empty() {
                let posts = data.result.posts;
                let mut ids: Vec<String> = Vec::new();
                let mut k: usize = 0;
                while k < posts.len()
                    invariant
                        k <= posts.len(),
                        ids.deep_view() == posts.deep_view().take(k as int),
                    decreases posts.len() - k,
                {
                    let ghost before = ids.deep_view();
                    ids.push(posts[k].id.clone());
                    assert(ids.deep_view() =~= before.push(posts.deep_view()[k as int]));
                    k += 1;
                }
                assert(ids.deep_view() =~= posts.deep_view());
                Ok(ids)
            } else {
                Err(Failure { kind: FailureKind::Remote, message: flatten_error(data.errors) })
            }
        },
        Err(error) => Err(request_error(error)),
    }
}

/// Where the address records of a zone are listed and written.
pub open spec fn zone_endpoint(zone_id: Seq<char>) -> Seq<char> {
    "https://api.cloudflare.com/client/v4/zones/"@ + zone_id + "/dns_records"@
}

/// Where the address records of a zone are listed, and only they.
pub open spec fn listing_endpoint(zone_id: Seq<char>) -> Seq<char> {
    zone_endpoint(zone_id) + "?type=A"@
}

/// Where the batches of a zone go.
pub open spec fn batch_endpoint(zone_id: Seq<char>) -> Seq<char> {
    zone_endpoint(zone_id) + "/batch"@
}

fn zone_url(zone_id: &String) -> (url: String)
    ensures
        url@ == zone_endpoint(zone_id@),
{
    let mut url = String::from_str("https://api.cloudflare.com/client/v4/zones/");
    url.append(zone_id.as_str());
    url.append("/dns_records");
    url
}

/// The address at which the address records of the zone are listed.
pub fn listing_url(zone_id: &String) -> (url: String)
    ensures
        url@ == listing_endpoint(zone_id@),
{
    let mut url = zone_url(zone_id);
    url.append("?type=A");
    url
}

/// The address to which the batches of the zone go.
pub fn batch_url(zone_id: &String) -> (url: String)
    ensures
        url@ == batch_endpoint(zone_id@),
{
    let mut url = zone_url(zone_id);
    url.append("/batch");
    url
}

} // verus!
