//! One run, as a machine that never performs a call itself.
//!
//! A run lists the zone's records, asks for the caller's address, decides,
//! and may send one update. The machine says which call comes next; its
//! driver performs the call and reports back what came of it. [`start`] gives
//! the first call, [`step`] each following one, until the action is
//! [`Action::Stop`] and the state carries the [`Outcome`].

use crate::config::{checked, Config, ConfigError, ConfigView};
use crate::matcher::{find_subdomain_record, matched_record};
use crate::reconcile::{decide, reconcile, reports_success, update_succeeded, Decision, DecisionView};
use crate::record::{record_views, text_view, Record, RecordView, Response, ResponseView};
use crate::request::{
    api_headers, header_views, headers_for, ip_lookup_address, ip_lookup_url, record_address,
    record_url, records_address, records_url, Header, HeaderView,
};
use crate::text::{trim, trimmed};
use vstd::prelude::*;

verus! {

/// One of the three calls that a run can make.
#[derive(Debug, Clone, Copy, PartialEq, Eq)]
pub enum Call {
    /// Listing the records of the zone.
    ListRecords,
    /// Asking for the caller's public IP address.
    ResolveIp,
    /// Sending the updated record.
    UpdateRecord,
}

/// Why a run ended without a decision. Every one of these is fatal: nothing
/// is retried.
#[derive(Debug, Clone, Copy, PartialEq, Eq)]
pub enum Error {
    /// The inputs of the run were refused before any call was made.
    Config(ConfigError),
    /// A request could not be sent, or its reply could not be read.
    Network(Call),
    /// The reply to the listing is not a list of records.
    Decode,
}

/// How a run ended.
#[derive(Debug, Clone, Copy, PartialEq, Eq)]
pub enum Outcome {
    /// No record carries the name. Nothing was sent.
    NoRecord,
    /// The record was taken to be in sync. Nothing was sent.
    InSync,
    /// The update was sent and the reply reports success.
    Updated,
    /// The update was sent and the reply does not report success: the
    /// provider's record may now differ from the caller's address. This ends
    /// the run like any other outcome; it is not an [`Error`].
    UpdateRejected,
    /// The run was given up.
    Aborted(Error),
}

/// Where a run stands.
#[derive(Debug, PartialEq)]
pub enum State {
    /// The listing has been asked for.
    ListingRecords(Config),
    /// The zone's records are known; the caller's address has been asked for.
    ResolvingIp(Config, Vec<Record>),
    /// The update has been sent.
    Updating,
    /// The run is over.
    Finished(Outcome),
}

/// What came of the call that the driver was asked to perform.
#[derive(Debug, PartialEq)]
pub enum Event {
    /// The request could not be sent, or its reply could not be read.
    TransportFailed,
    /// The reply to the listing, decoded.
    Listed(Response),
    /// The reply to the listing was read, but is not a list of records.
    Undecodable,
    /// The raw text of the reply to the address lookup or to the update.
    Text(String),
}

/// What the driver is to do next.
#[derive(Debug, PartialEq)]
pub enum Action {
    /// GET `url` with `headers`, decode the reply, and report
    /// [`Event::Listed`], [`Event::Undecodable`] or [`Event::TransportFailed`].
    ListRecords { url: String, headers: Vec<Header> },
    /// GET `url` without following redirects, and report [`Event::Text`] or
    /// [`Event::TransportFailed`].
    ResolveIp { url: String },
    /// PUT the whole of `record`, as JSON, to `url` with `headers`, and report
    /// [`Event::Text`] or [`Event::TransportFailed`].
    UpdateRecord { url: String, headers: Vec<Header>, record: Record },
    /// Nothing: the run is over.
    Stop,
}

/// What a [`State`] holds, as mathematical values.
pub ghost enum StateView {
    ListingRecords(ConfigView),
    ResolvingIp(ConfigView, Seq<RecordView>),
    Updating,
    Finished(Outcome),
}

/// What an [`Event`] holds, as mathematical values.
pub ghost enum EventView {
    TransportFailed,
    Listed(ResponseView),
    Undecodable,
    Text(Seq<char>),
}

/// What an [`Action`] holds, as mathematical values.
pub ghost enum ActionView {
    ListRecords { url: Seq<char>, headers: Seq<HeaderView> },
    ResolveIp { url: Seq<char> },
    UpdateRecord { url: Seq<char>, headers: Seq<HeaderView>, record: RecordView },
    Stop,
}

impl View for State {
    type V = StateView;

    open spec fn view(&self) -> StateView {
        match self {
            State::ListingRecords(config) => StateView::ListingRecords(config@),
            State::ResolvingIp(config, records) => StateView::ResolvingIp(
                config@,
                record_views(records@),
            ),
            State::Updating => StateView::Updating,
            State::Finished(outcome) => StateView::Finished(*outcome),
        }
    }
}

impl View for Event {
    type V = EventView;

    open spec fn view(&self) -> EventView {
        match self {
            Event::TransportFailed => EventView::TransportFailed,
            Event::Listed(response) => EventView::Listed(response@),
            Event::Undecodable => EventView::Undecodable,
            Event::Text(body) => EventView::Text(body@),
        }
    }
}

impl View for Action {
    type V = ActionView;

    open spec fn view(&self) -> ActionView {
        match self {
            Action::ListRecords { url, headers } => ActionView::ListRecords {
                url: url@,
                headers: header_views(headers@),
            },
            Action::ResolveIp { url } => ActionView::ResolveIp { url: url@ },
            Action::UpdateRecord { url, headers, record } => ActionView::UpdateRecord {
                url: url@,
                headers: header_views(headers@),
                record: record@,
            },
            Action::Stop => ActionView::Stop,
        }
    }
}

/// The end of a run: the state that carries `outcome`, and no further call.
pub open spec fn finished(outcome: Outcome) -> (StateView, ActionView) {
    (StateView::Finished(outcome), ActionView::Stop)
}

/// How a run begins. Inputs that [`checked`] refuses end it at once, before
/// any call; others ask for the listing of the zone.
pub open spec fn begin(name: Seq<char>, zone: Seq<char>, token: Option<Seq<char>>) -> (
    StateView,
    ActionView,
) {
    match checked(name, zone, token) {
        Err(reason) => finished(Outcome::Aborted(Error::Config(reason))),
        Ok(config) => (
            StateView::ListingRecords(config),
            ActionView::ListRecords {
                url: records_url(config.zone),
                headers: api_headers(config.token),
            },
        ),
    }
}

/// What the run does once the caller's address is known: the reply `body`,
/// without the white space around it, is the address; the first record of
/// `records` that `config.name` selects is reconciled with it.
pub open spec fn settle(config: ConfigView, records: Seq<RecordView>, body: Seq<char>) -> (
    StateView,
    ActionView,
) {
    match decide(trimmed(body), matched_record(records, config.name)) {
        DecisionView::NoRecord => finished(Outcome::NoRecord),
        DecisionView::InSync => finished(Outcome::InSync),
        DecisionView::Update(record) => (
            StateView::Updating,
            ActionView::UpdateRecord {
                url: record_url(config.zone, record.id),
                headers: api_headers(config.token),
                record,
            },
        ),
    }
}

/// How a run goes on from `state` when the driver reports `event`: the next
/// state and the next action, or `None` where `event` answers no call that
/// `state` is waiting for.
pub open spec fn advance(state: StateView, event: EventView) -> Option<(StateView, ActionView)> {
    match (state, event) {
        (StateView::ListingRecords(_), EventView::TransportFailed) => Some(
            finished(Outcome::Aborted(Error::Network(Call::ListRecords))),
        ),
        (StateView::ListingRecords(_), EventView::Undecodable) => Some(
            finished(Outcome::Aborted(Error::Decode)),
        ),
        (StateView::ListingRecords(config), EventView::Listed(response)) => Some(
            (
                StateView::ResolvingIp(config, response.records),
                ActionView::ResolveIp { url: ip_lookup_url() },
            ),
        ),
        (StateView::ResolvingIp(_, _), EventView::TransportFailed) => Some(
            finished(Outcome::Aborted(Error::Network(Call::ResolveIp))),
        ),
        (StateView::ResolvingIp(config, records), EventView::Text(body)) => Some(
            settle(config, records, body),
        ),
        (StateView::Updating, EventView::TransportFailed) => Some(
            finished(Outcome::Aborted(Error::Network(Call::UpdateRecord))),
        ),
        (StateView::Updating, EventView::Text(body)) => Some(
            finished(
                if reports_success(body) {
                    Outcome::Updated
                } else {
                    Outcome::UpdateRejected
                },
            ),
        ),
        _ => None,
    }
}

/// The views of a state and an action.
pub open spec fn pair_view(pair: (State, Action)) -> (StateView, ActionView) {
    (pair.0@, pair.1@)
}

/// The view of what [`step`] returns.
pub open spec fn step_view(next: Option<(State, Action)>) -> Option<(StateView, ActionView)> {
    match next {
        Some(pair) => Some(pair_view(pair)),
        None => None,
    }
}

/// Begins a run that is to keep the record `name` of `zone` in sync, with
/// the credential `token` if there is one.
pub fn start(name: String, zone: String, token: Option<String>) -> (first: (State, Action))
    ensures
        pair_view(first) == begin(name@, zone@, text_view(token)),
{
    match Config::new(name, zone, token) {
        Err(reason) => (State::Finished(Outcome::Aborted(Error::Config(reason))), Action::Stop),
        Ok(config) => {
            let url = records_address(config.zone().as_str());
            let headers = headers_for(config.token().as_str());
            (State::ListingRecords(config), Action::ListRecords { url, headers })
        },
    }
}

/// Takes the run from `state` to its next state on `event`, and says what
/// the driver is to do next. `None` where `event` answers no call that
/// `state` is waiting for.
pub fn step(state: State, event: Event) -> (next: Option<(State, Action)>)
    ensures
        step_view(next) == advance(state@, event@),
{
    match state {
        State::ListingRecords(config) => match event {
            Event::TransportFailed => Some(abort(Error::Network(Call::ListRecords))),
            Event::Undecodable => Some(abort(Error::Decode)),
            Event::Listed(response) => Some(
                (
                    State::ResolvingIp(config, response.records),
                    Action::ResolveIp { url: ip_lookup_address() },
                ),
            ),
            Event::Text(_) => None,
        },
        State::ResolvingIp(config, records) => match event {
            Event::TransportFailed => Some(abort(Error::Network(Call::ResolveIp))),
            Event::Text(body) => Some(settle_on(&config, &records, body.as_str())),
            _ => None,
        },
        State::Updating => match event {
            Event::TransportFailed => Some(abort(Error::Network(Call::UpdateRecord))),
            Event::Text(body) => {
                let outcome = if update_succeeded(body.as_str()) {
                    Outcome::Updated
                } else {
                    Outcome::UpdateRejected
                };
                Some((State::Finished(outcome), Action::Stop))
            },
            _ => None,
        },
        State::Finished(_) => None,
    }
}

/// The end of a run that is given up for `error`.
fn abort(error: Error) -> (end: (State, Action))
    ensures
        pair_view(end) == finished(Outcome::Aborted(error)),
{
    (State::Finished(Outcome::Aborted(error)), Action::Stop)
}

/// The step that follows the reply `body` to the address lookup.
fn settle_on(config: &Config, records: &Vec<Record>, body: &str) -> (next: (State, Action))
    ensures
        pair_view(next) == settle(config@, record_views(records@), body@),
{
    let current_ip = trim(body).to_owned();
    let found = find_subdomain_record(records.as_slice(), config.name());
    match reconcile(&current_ip, found) {
        Decision::NoRecord => (State::Finished(Outcome::NoRecord), Action::Stop),
        Decision::InSync => (State::Finished(Outcome::InSync), Action::Stop),
        Decision::Update(record) => {
            let url = record_address(config.zone().as_str(), record.id.as_str());
            let headers = headers_for(config.token().as_str());
            (State::Updating, Action::UpdateRecord { url, headers, record })
        },
    }
}

} // verus!
