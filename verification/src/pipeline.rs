//! Pipeline orchestrator: resolve the link, probe the length, consult the
//! cache, then serve from it or fetch and store.
//!
//! The orchestrator decides and never performs: each step takes what the
//! last action brought back and names the next action. Whoever drives it
//! does the network and file work in between.

use crate::cache::{lookup, Lookup};
use crate::config::Config;
use crate::error::{Failure, FetchError};
use crate::link::{resolve, resolve_model};
use crate::probe::{probe_length, probe_model};
use vstd::prelude::*;

verus! {

/// Where a run stands.
#[derive(Debug, Clone, PartialEq, Eq)]
pub enum State {
    /// The listing page was requested; its markup is awaited.
    ResolvingLink,
    /// The document's address is known; its length is awaited.
    ProbingLength { document: String },
    /// The expected length is known; the slot's stored length is awaited.
    CheckingCache { document: String, expected_length: u64 },
    /// The slot is valid; its contents are awaited.
    ServingFromCache,
    /// The slot is stale or empty; the document's body is awaited.
    Fetching { document: String },
    /// The body arrived; the write to the slot is awaited.
    Storing { bytes: Vec<u8> },
    /// The run succeeded with these bytes.
    Done { bytes: Vec<u8> },
    /// The run failed for good.
    Failed { error: FetchError },
}

/// What the last action brought back.
#[derive(Debug, Clone, PartialEq, Eq)]
pub enum Event {
    /// The listing page's markup.
    PageLoaded { html: String },
    /// The length that the document's metadata advertised, if any.
    LengthProbed { advertised: Option<u64> },
    /// The number of bytes the slot holds (zero where it was just created).
    CacheInspected { stored_length: u64 },
    /// The slot's entire contents.
    CacheRead { bytes: Vec<u8> },
    /// The document's body, after the stream ended normally.
    Downloaded { bytes: Vec<u8> },
    /// The slot now holds what was handed over, and nothing else.
    CacheWritten,
    /// The action could not be carried out.
    Failed { cause: String },
    /// The connection closed before the body was complete.
    Interrupted { cause: String },
}

/// What to do next.
#[derive(Debug, Clone, PartialEq, Eq)]
pub enum Action {
    /// Request the listing page at `url` and read its markup.
    FetchPage { url: String },
    /// Request the metadata of `url` without reading its body.
    ProbeLength { url: String },
    /// Open the slot, creating it empty where absent, and measure it.
    InspectCache,
    /// Read the slot's entire contents.
    ReadCache,
    /// Stream the body of `url`, sizing the buffer for `expected_length`.
    Download { url: String, expected_length: u64 },
    /// Replace the slot's entire contents with `bytes`.
    WriteCache { bytes: Vec<u8> },
    /// Nothing: the run is over, or the event was not awaited.
    Stop,
}

/// Mathematical value of a [`State`].
pub enum StateView {
    ResolvingLink,
    ProbingLength { document: Seq<char> },
    CheckingCache { document: Seq<char>, expected_length: u64 },
    ServingFromCache,
    Fetching { document: Seq<char> },
    Storing { bytes: Seq<u8> },
    Done { bytes: Seq<u8> },
    Failed { error: Failure },
}

/// Mathematical value of an [`Event`].
pub enum EventView {
    PageLoaded { html: Seq<char> },
    LengthProbed { advertised: Option<u64> },
    CacheInspected { stored_length: u64 },
    CacheRead { bytes: Seq<u8> },
    Downloaded { bytes: Seq<u8> },
    CacheWritten,
    Failed { cause: Seq<char> },
    Interrupted { cause: Seq<char> },
}

/// Mathematical value of an [`Action`].
pub enum ActionView {
    FetchPage { url: Seq<char> },
    ProbeLength { url: Seq<char> },
    InspectCache,
    ReadCache,
    Download { url: Seq<char>, expected_length: u64 },
    WriteCache { bytes: Seq<u8> },
    Stop,
}

impl View for State {
    type V = StateView;

    open spec fn view(&self) -> StateView {
        match self {
            State::ResolvingLink => StateView::ResolvingLink,
            State::ProbingLength { document } => StateView::ProbingLength { document: document@ },
            State::CheckingCache { document, expected_length } => StateView::CheckingCache {
                document: document@,
                expected_length: *expected_length,
            },
            State::ServingFromCache => StateView::ServingFromCache,
            State::Fetching { document } => StateView::Fetching { document: document@ },
            State::Storing { bytes } => StateView::Storing { bytes: bytes@ },
            State::Done { bytes } => StateView::Done { bytes: bytes@ },
            State::Failed { error } => StateView::Failed { error: error@ },
        }
    }
}

impl View for Event {
    type V = EventView;

    open spec fn view(&self) -> EventView {
        match self {
            Event::PageLoaded { html } => EventView::PageLoaded { html: html@ },
            Event::LengthProbed { advertised } => EventView::LengthProbed {
                advertised: *advertised,
            },
            Event::CacheInspected { stored_length } => EventView::CacheInspected {
                stored_length: *stored_length,
            },
            Event::CacheRead { bytes } => EventView::CacheRead { bytes: bytes@ },
            Event::Downloaded { bytes } => EventView::Downloaded { bytes: bytes@ },
            Event::CacheWritten => EventView::CacheWritten,
            Event::Failed { cause } => EventView::Failed { cause: cause@ },
            Event::Interrupted { cause } => EventView::Interrupted { cause: cause@ },
        }
    }
}

impl View for Action {
    type V = ActionView;

    open spec fn view(&self) -> ActionView {
        match self {
            Action::FetchPage { url } => ActionView::FetchPage { url: url@ },
            Action::ProbeLength { url } => ActionView::ProbeLength { url: url@ },
            Action::InspectCache => ActionView::InspectCache,
            Action::ReadCache => ActionView::ReadCache,
            Action::Download { url, expected_length } => ActionView::Download {
                url: url@,
                expected_length: *expected_length,
            },
            Action::WriteCache { bytes } => ActionView::WriteCache { bytes: bytes@ },
            Action::Stop => ActionView::Stop,
        }
    }
}

/// How a run begins: the listing page is requested.
pub open spec fn opening(config: Config) -> (StateView, ActionView) {
    (StateView::ResolvingLink, ActionView::FetchPage { url: config.page_address() })
}

/// A failed run, with nothing left to do.
pub open spec fn failed(error: Failure) -> (StateView, ActionView) {
    (StateView::Failed { error }, ActionView::Stop)
}

/// The step taken once the listing page's markup is known.
pub open spec fn after_page(config: Config, html: Seq<char>) -> (StateView, ActionView) {
    match resolve_model(html, config.pattern_text()) {
        Ok(path) => (
            StateView::ProbingLength { document: config.document_address(path) },
            ActionView::ProbeLength { url: config.document_address(path) },
        ),
        Err(error) => failed(error),
    }
}

/// The step taken once the probe of `document` has answered.
pub open spec fn after_probe(document: Seq<char>, advertised: Option<u64>) -> (
    StateView,
    ActionView,
) {
    match probe_model(document, advertised) {
        Ok(expected_length) => (
            StateView::CheckingCache { document, expected_length },
            ActionView::InspectCache,
        ),
        Err(error) => failed(error),
    }
}

/// The step taken once the slot's stored length is known: serve on a hit,
/// fetch on a miss.
pub open spec fn after_inspection(
    document: Seq<char>,
    expected_length: u64,
    stored_length: u64,
) -> (StateView, ActionView) {
    if stored_length == expected_length {
        (StateView::ServingFromCache, ActionView::ReadCache)
    } else {
        (
            StateView::Fetching { document },
            ActionView::Download { url: document, expected_length },
        )
    }
}

/// The failure that `cause` means in `state`: a network error against the
/// address being requested, or a cache error while the slot is in use.
pub open spec fn failure_in(config: Config, state: StateView, cause: Seq<char>) -> Failure {
    match state {
        StateView::ResolvingLink => Failure::NetworkError { url: config.page_address(), cause },
        StateView::ProbingLength { document } => Failure::NetworkError { url: document, cause },
        StateView::Fetching { document } => Failure::NetworkError { url: document, cause },
        _ => Failure::CacheIOError { cause },
    }
}

/// Whether a run in `state` is over.
pub open spec fn is_over(state: StateView) -> bool {
    state is Done || state is Failed
}

/// The orchestrator's rule: the state and action that follow `event` in
/// `state`. An event that `state` does not await changes nothing and asks
/// for nothing; so does every event once the run is over.
pub open spec fn transition(config: Config, state: StateView, event: EventView) -> (
    StateView,
    ActionView,
) {
    match (state, event) {
        (StateView::ResolvingLink, EventView::PageLoaded { html }) => after_page(config, html),
        (StateView::ProbingLength { document }, EventView::LengthProbed { advertised }) => {
            after_probe(document, advertised)
        },
        (
            StateView::CheckingCache { document, expected_length },
            EventView::CacheInspected { stored_length },
        ) => after_inspection(document, expected_length, stored_length),
        (StateView::ServingFromCache, EventView::CacheRead { bytes }) => (
            StateView::Done { bytes },
            ActionView::Stop,
        ),
        (StateView::Fetching { .. }, EventView::Downloaded { bytes }) => (
            StateView::Storing { bytes },
            ActionView::WriteCache { bytes },
        ),
        (StateView::Fetching { .. }, EventView::Interrupted { cause }) => failed(
            Failure::TransferInterrupted { cause },
        ),
        (StateView::Storing { bytes }, EventView::CacheWritten) => (
            StateView::Done { bytes },
            ActionView::Stop,
        ),
        (_, EventView::Failed { cause }) => if is_over(state) {
            (state, ActionView::Stop)
        } else {
            failed(failure_in(config, state, cause))
        },
        _ => (state, ActionView::Stop),
    }
}

/// Mathematical value of a step: where the run stands, and what to do.
pub open spec fn step_view(next: (State, Action)) -> (StateView, ActionView) {
    (next.0@, next.1@)
}

/// Ends a run with `error`.
fn fail(error: FetchError) -> (next: (State, Action))
    ensures
        step_view(next) == failed(error@),
{
    (State::Failed { error }, Action::Stop)
}

/// Begins a run: nothing is known yet, and the listing page is requested.
pub fn start(config: &Config) -> (next: (State, Action))
    ensures
        step_view(next) == opening(*config),
{
    (State::ResolvingLink, Action::FetchPage { url: config.page_url() })
}

/// Runs the link resolver on the page's markup and, where it finds the
/// document, asks for its length.
fn on_page(config: &Config, html: &str) -> (next: (State, Action))
    ensures
        step_view(next) == after_page(*config, html@),
{
    match resolve(html, config.pattern()) {
        Ok(path) => {
            let document = config.document_url(path.as_str());
            let url = document.clone();
            (State::ProbingLength { document }, Action::ProbeLength { url })
        },
        Err(error) => fail(error),
    }
}

/// Takes the probe's answer and, where it holds a length, turns to the
/// cache.
fn on_probe(document: String, advertised: Option<u64>) -> (next: (State, Action))
    ensures
        step_view(next) == after_probe(document@, advertised),
{
    match probe_length(document.as_str(), advertised) {
        Ok(expected_length) => (
            State::CheckingCache { document, expected_length },
            Action::InspectCache,
        ),
        Err(error) => fail(error),
    }
}

/// Compares the slot's length with the expected one: a hit is served, a
/// miss is fetched.
fn on_inspection(document: String, expected_length: u64, stored_length: u64) -> (next: (
    State,
    Action,
))
    ensures
        step_view(next) == after_inspection(document@, expected_length, stored_length),
{
    match lookup(stored_length, expected_length) {
        Lookup::Hit => (State::ServingFromCache, Action::ReadCache),
        Lookup::Miss => {
            let url = document.clone();
            (State::Fetching { document }, Action::Download { url, expected_length })
        },
    }
}

/// Names the failure that `cause` means while `state` is awaited.
fn failure_of(config: &Config, state: State, cause: String) -> (error: FetchError)
    ensures
        error@ == failure_in(*config, state@, cause@),
{
    match state {
        State::ResolvingLink => FetchError::NetworkError { url: config.page_url(), cause },
        State::ProbingLength { document } => FetchError::NetworkError { url: document, cause },
        State::Fetching { document } => FetchError::NetworkError { url: document, cause },
        _ => FetchError::CacheIOError { cause },
    }
}

/// Whether the run is over: it succeeded or failed, and no event moves it.
pub fn is_finished(state: &State) -> (over: bool)
    ensures
        over == is_over(state@),
{
    match state {
        State::Done { .. } => true,
        State::Failed { .. } => true,
        _ => false,
    }
}

/// Takes one step: from where the run stands and what the last action
/// brought back, to where it stands now and what to do next.
pub fn step(config: &Config, state: State, event: Event) -> (next: (State, Action))
    ensures
        step_view(next) == transition(*config, state@, event@),
{
    match (state, event) {
        (State::ResolvingLink, Event::PageLoaded { html }) => on_page(config, html.as_str()),
        (State::ProbingLength { document }, Event::LengthProbed { advertised }) => on_probe(
            document,
            advertised,
        ),
        (
            State::CheckingCache { document, expected_length },
            Event::CacheInspected { stored_length },
        ) => on_inspection(document, expected_length, stored_length),
        (State::ServingFromCache, Event::CacheRead { bytes }) => (
            State::Done { bytes },
            Action::Stop,
        ),
        (State::Fetching { .. }, Event::Downloaded { bytes }) => {
            let copy = bytes.clone();
            (State::Storing { bytes }, Action::WriteCache { bytes: copy })
        },
        (State::Fetching { .. }, Event::Interrupted { cause }) => fail(
            FetchError::TransferInterrupted { cause },
        ),
        (State::Storing { bytes }, Event::CacheWritten) => (State::Done { bytes }, Action::Stop),
        (state, Event::Failed { cause }) => {
            if is_finished(&state) {
                (state, Action::Stop)
            } else {
                fail(failure_of(config, state, cause))
            }
        },
        (state, _) => (state, Action::Stop),
    }
}

/// No retries: once a run is over, no event moves it or asks for anything.
pub proof fn lemma_finished_runs_stay_finished(config: Config, state: StateView, event: EventView)
    requires
        is_over(state),
    ensures
        transition(config, state, event) == (state, ActionView::Stop),
{
}

/// The slot is written only with a body that arrived whole: a write is
/// asked for in no other step than the one that follows a finished
/// download, and with exactly the downloaded bytes.
pub proof fn lemma_only_a_finished_download_is_written(
    config: Config,
    state: StateView,
    event: EventView,
)
    requires
        transition(config, state, event).1 is WriteCache,
    ensures
        state is Fetching,
        event is Downloaded,
        transition(config, state, event).1->WriteCache_bytes == event->Downloaded_bytes,
        transition(config, state, event).0 == (StateView::Storing {
            bytes: event->Downloaded_bytes,
        }),
{
}

/// Every failure is final: a step that fails asks for nothing more.
pub proof fn lemma_failure_ends_the_run(config: Config, state: StateView, event: EventView)
    requires
        transition(config, state, event).0 is Failed,
    ensures
        transition(config, state, event).1 is Stop,
{
}

/// The expected length comes first: the slot is consulted in no other step
/// than the one in which the probe answered with a definite length, and it
/// is held against exactly that length.
pub proof fn lemma_cache_is_consulted_only_with_a_length(
    config: Config,
    state: StateView,
    event: EventView,
)
    requires
        transition(config, state, event).1 is InspectCache,
    ensures
        state is ProbingLength,
        event == (EventView::LengthProbed {
            advertised: Some(transition(config, state, event).0->CheckingCache_expected_length),
        }),
        transition(config, state, event).0 is CheckingCache,
{
}

/// Nothing partial is handed out: a run succeeds only with the slot's whole
/// contents after a hit, or with a downloaded body once it has been stored.
pub proof fn lemma_success_hands_out_whole_bytes(
    config: Config,
    state: StateView,
    event: EventView,
)
    requires
        !(state is Done),
        transition(config, state, event).0 is Done,
    ensures
        ({
            let bytes = transition(config, state, event).0->Done_bytes;
            ||| state is ServingFromCache && event == (EventView::CacheRead { bytes })
            ||| state == (StateView::Storing { bytes }) && event is CacheWritten
        }),
{
}

} // verus!
