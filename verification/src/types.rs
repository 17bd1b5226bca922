//! The values exchanged with the remote record store, and their models.
//!
//! Every type has a view in which each `String` is a `Seq<char>` and each
//! `Vec` a `Seq`; contracts throughout the crate speak of these views.

use vstd::prelude::*;

verus! {

/// An address record as the store reports it. `id` is assigned by the store
/// and opaque; `content` is the address the record currently publishes.
#[derive(Clone, Debug, PartialEq, Eq)]
pub struct Record {
    pub id: String,
    pub name: String,
    pub content: String,
}

/// The model of [`Record`].
pub struct RecordView {
    pub id: Seq<char>,
    pub name: Seq<char>,
    pub content: Seq<char>,
}

impl View for Record {
    type V = RecordView;

    open spec fn view(&self) -> RecordView {
        RecordView { id: self.id@, name: self.name@, content: self.content@ }
    }
}

impl DeepView for Record {
    type V = RecordView;

    open spec fn deep_view(&self) -> RecordView {
        self@
    }
}

/// One entry of the error list that the store sends with a response.
#[derive(Clone, Debug, PartialEq, Eq)]
pub struct APIError {
    pub code: u32,
    pub message: String,
}

/// The model of [`APIError`].
pub struct APIErrorView {
    pub code: u32,
    pub message: Seq<char>,
}

impl View for APIError {
    type V = APIErrorView;

    open spec fn view(&self) -> APIErrorView {
        APIErrorView { code: self.code, message: self.message@ }
    }
}

impl DeepView for APIError {
    type V = APIErrorView;

    open spec fn deep_view(&self) -> APIErrorView {
        self@
    }
}

/// The answer to a listing of a zone's address records.
#[derive(Clone, Debug, PartialEq, Eq)]
pub struct Records {
    pub result: Vec<Record>,
    pub errors: Vec<APIError>,
}

/// The model of [`Records`].
pub struct RecordsView {
    pub result: Seq<RecordView>,
    pub errors: Seq<APIErrorView>,
}

impl View for Records {
    type V = RecordsView;

    open spec fn view(&self) -> RecordsView {
        RecordsView { result: self.result.deep_view(), errors: self.errors.deep_view() }
    }
}

impl DeepView for Records {
    type V = RecordsView;

    open spec fn deep_view(&self) -> RecordsView {
        self@
    }
}

/// The answer of the address lookup service.
#[derive(Clone, Debug, PartialEq, Eq)]
pub struct IP {
    pub ip: String,
}

impl View for IP {
    type V = Seq<char>;

    open spec fn view(&self) -> Seq<char> {
        self.ip@
    }
}

impl DeepView for IP {
    type V = Seq<char>;

    open spec fn deep_view(&self) -> Seq<char> {
        self@
    }
}

/// The answer to a batch that only updates records.
#[derive(Clone, Debug, PartialEq, Eq)]
pub struct BatchResult {
    pub errors: Vec<APIError>,
}

impl View for BatchResult {
    type V = Seq<APIErrorView>;

    open spec fn view(&self) -> Seq<APIErrorView> {
        self.errors.deep_view()
    }
}

impl DeepView for BatchResult {
    type V = Seq<APIErrorView>;

    open spec fn deep_view(&self) -> Seq<APIErrorView> {
        self@
    }
}

/// A record that a batch created, as the store names it.
#[derive(Clone, Debug, PartialEq, Eq)]
pub struct NewRecord {
    pub id: String,
}

impl View for NewRecord {
    type V = Seq<char>;

    open spec fn view(&self) -> Seq<char> {
        self.id@
    }
}

impl DeepView for NewRecord {
    type V = Seq<char>;

    open spec fn deep_view(&self) -> Seq<char> {
        self@
    }
}

/// The records that a batch created, in the order in which it asked for them.
#[derive(Clone, Debug, PartialEq, Eq)]
pub struct CreateResult {
    pub posts: Vec<NewRecord>,
}

impl View for CreateResult {
    type V = Seq<Seq<char>>;

    open spec fn view(&self) -> Seq<Seq<char>> {
        self.posts.deep_view()
    }
}

impl DeepView for CreateResult {
    type V = Seq<Seq<char>>;

    open spec fn deep_view(&self) -> Seq<Seq<char>> {
        self@
    }
}

/// The answer to a batch that updates and creates records.
#[derive(Clone, Debug, PartialEq, Eq)]
pub struct BatchWithCreateResult {
    pub result: CreateResult,
    pub errors: Vec<APIError>,
}

/// The model of [`BatchWithCreateResult`].
pub struct BatchWithCreateResultView {
    pub posts: Seq<Seq<char>>,
    pub errors: Seq<APIErrorView>,
}

impl View for BatchWithCreateResult {
    type V = BatchWithCreateResultView;

    open spec fn view(&self) -> BatchWithCreateResultView {
        BatchWithCreateResultView { posts: self.result@, errors: self.errors.deep_view() }
    }
}

impl DeepView for BatchWithCreateResult {
    type V = BatchWithCreateResultView;

    open spec fn deep_view(&self) -> BatchWithCreateResultView {
        self@
    }
}

/// New content for the record that the store knows as `id`.
#[derive(Clone, Debug, PartialEq, Eq)]
pub struct RecordUpdate {
    pub id: String,
    pub content: String,
}

/// The model of [`RecordUpdate`].
pub struct RecordUpdateView {
    pub id: Seq<char>,
    pub content: Seq<char>,
}

impl View for RecordUpdate {
    type V = RecordUpdateView;

    open spec fn view(&self) -> RecordUpdateView {
        RecordUpdateView { id: self.id@, content: self.content@ }
    }
}

impl DeepView for RecordUpdate {
    type V = RecordUpdateView;

    open spec fn deep_view(&self) -> RecordUpdateView {
        self@
    }
}

/// The one time to live that created records get.
#[derive(Clone, Copy, Debug, PartialEq, Eq)]
pub enum TTL {
    TTL,
}

/// The time to live of created records, in seconds.
pub const DEFAULT_TTL: u16 = 60;

impl TTL {
    /// The time to live in seconds.
    pub fn seconds(&self) -> (s: u16)
        ensures
            s == DEFAULT_TTL,
    {
        DEFAULT_TTL
    }
}

/// A record to create under `name`.
#[derive(Clone, Debug, PartialEq, Eq)]
pub struct RecordCreate {
    pub name: String,
    pub content: String,
    pub ttl: TTL,
}

/// The model of [`RecordCreate`].
pub struct RecordCreateView {
    pub name: Seq<char>,
    pub content: Seq<char>,
}

impl View for RecordCreate {
    type V = RecordCreateView;

    open spec fn view(&self) -> RecordCreateView {
        RecordCreateView { name: self.name@, content: self.content@ }
    }
}

impl DeepView for RecordCreate {
    type V = RecordCreateView;

    open spec fn deep_view(&self) -> RecordCreateView {
        self@
    }
}

/// A write that only updates records.
#[derive(Clone, Debug, PartialEq, Eq)]
pub struct Batch {
    pub patches: Vec<RecordUpdate>,
}

impl View for Batch {
    type V = Seq<RecordUpdateView>;

    open spec fn view(&self) -> Seq<RecordUpdateView> {
        self.patches.deep_view()
    }
}

impl DeepView for Batch {
    type V = Seq<RecordUpdateView>;

    open spec fn deep_view(&self) -> Seq<RecordUpdateView> {
        self@
    }
}

/// A write that updates records and creates others.
#[derive(Clone, Debug, PartialEq, Eq)]
pub struct BatchWithCreate {
    pub patches: Vec<RecordUpdate>,
    pub posts: Vec<RecordCreate>,
}

/// The model of [`BatchWithCreate`].
pub struct BatchWithCreateView {
    pub patches: Seq<RecordUpdateView>,
    pub posts: Seq<RecordCreateView>,
}

impl View for BatchWithCreate {
    type V = BatchWithCreateView;

    open spec fn view(&self) -> BatchWithCreateView {
        BatchWithCreateView { patches: self.patches.deep_view(), posts: self.posts.deep_view() }
    }
}

impl DeepView for BatchWithCreate {
    type V = BatchWithCreateView;

    open spec fn deep_view(&self) -> BatchWithCreateView {
        self@
    }
}

/// The model of an outcome: that of what it holds.
pub open spec fn deep<T: DeepView, E: DeepView>(outcome: Result<T, E>) -> Result<T::V, E::V> {
    match outcome {
        Ok(value) => Ok(value.deep_view()),
        Err(failure) => Err(failure.deep_view()),
    }
}

} // verus!
