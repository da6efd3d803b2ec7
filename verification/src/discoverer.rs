//! Discovery as a machine: poll, wait between polls, stop at the first usable address or
//! when the attempts are used up.

use vstd::prelude::*;
use vstd::string::*;
use crate::discovery::{
    body_targets, endpoint_text, endpoint_url, parse_targets, select_address, selected,
    DEFAULT_INTERVAL_MILLIS, DEFAULT_MAX_ATTEMPTS,
};
use crate::json::json_of_text;

verus! {

/// How one poll of the endpoint ended.
#[derive(Debug)]
pub enum PollOutcome {
    /// The request failed; the text says why.
    Failed(String),
    /// The endpoint answered with this body.
    Body(String),
}

/// Why a poll gave no address.
#[derive(Debug)]
pub enum PollFailure {
    /// The request failed; the text says why.
    Transport(String),
    /// The body is not a list of descriptors.
    Malformed,
    /// No descriptor has a usable address yet.
    NoTarget,
}

/// The mathematical value of a [`PollOutcome`]: texts as sequences of characters.
pub enum PollView {
    Failed(Seq<char>),
    Body(Seq<char>),
}

/// The mathematical value of a [`PollFailure`]: texts as sequences of characters.
pub enum PollFailureView {
    Transport(Seq<char>),
    Malformed,
    NoTarget,
}

impl View for PollOutcome {
    type V = PollView;

    open spec fn view(&self) -> PollView {
        match self {
            PollOutcome::Failed(d) => PollView::Failed(d@),
            PollOutcome::Body(b) => PollView::Body(b@),
        }
    }
}

impl View for PollFailure {
    type V = PollFailureView;

    open spec fn view(&self) -> PollFailureView {
        match self {
            PollFailure::Transport(d) => PollFailureView::Transport(d@),
            PollFailure::Malformed => PollFailureView::Malformed,
            PollFailure::NoTarget => PollFailureView::NoTarget,
        }
    }
}

impl PollFailureView {
    /// The line logged for a failed poll; a poll that merely found no target logs nothing.
    pub open spec fn message(self) -> Option<Seq<char>> {
        match self {
            PollFailureView::Transport(d) => Some("[!] HTTP Request Failed: "@ + d),
            PollFailureView::Malformed => Some("[!] JSON Parse Failed"@),
            PollFailureView::NoTarget => None,
        }
    }
}

impl PollFailure {
    /// The line to log for this failure, if any.
    pub fn message(&self) -> (r: Option<String>)
        ensures
            match r {
                Some(m) => self@.message() == Some(m@),
                None => self@.message() is None,
            },
    {
        match self {
            PollFailure::Transport(d) => Some(
                String::from_str("[!] HTTP Request Failed: ").concat(d.as_str()),
            ),
            PollFailure::Malformed => Some(String::from_str("[!] JSON Parse Failed")),
            PollFailure::NoTarget => None,
        }
    }
}

/// The address that a list of descriptors yields, or why it yields none.
pub open spec fn targets_result(targets: Option<Seq<Option<Seq<char>>>>) -> Result<
    Seq<char>,
    PollFailureView,
> {
    match targets {
        Some(ts) => match selected(ts) {
            Some(a) => Ok(a),
            None => Err(PollFailureView::NoTarget),
        },
        None => Err(PollFailureView::Malformed),
    }
}

/// The address that a poll yields, or why it yields none.
pub open spec fn poll_result(outcome: PollView) -> Result<Seq<char>, PollFailureView> {
    match outcome {
        PollView::Failed(d) => Err(PollFailureView::Transport(d)),
        PollView::Body(b) => targets_result(body_targets(json_of_text(b))),
    }
}

/// What the result of a poll looks like to a contract.
pub open spec fn address_view(r: Result<String, PollFailure>) -> Result<
    Seq<char>,
    PollFailureView,
> {
    match r {
        Ok(a) => Ok(a@),
        Err(f) => Err(f@),
    }
}

/// Reads the address out of a poll's outcome.
pub fn examine(outcome: PollOutcome) -> (r: Result<String, PollFailure>)
    ensures
        address_view(r) == poll_result(outcome@),
{
    match outcome {
        PollOutcome::Failed(detail) => Err(PollFailure::Transport(detail)),
        PollOutcome::Body(body) => match parse_targets(body.as_str()) {
            Some(targets) => match select_address(&targets) {
                Some(address) => Ok(address),
                None => Err(PollFailure::NoTarget),
            },
            None => Err(PollFailure::Malformed),
        },
    }
}

/// Where discovery stands.
#[derive(Debug, Clone, Copy, PartialEq, Eq, Structural)]
pub enum DiscoveryState {
    /// A poll is due or under way.
    Polling,
    /// The wait before the next poll is due or under way.
    Waiting,
    /// An address was found.
    Found,
    /// The attempts are used up.
    Exhausted,
}

/// What happened outside.
#[derive(Debug)]
pub enum DiscoveryEvent {
    /// A poll ended.
    Polled(PollOutcome),
    /// The wait is over.
    Waited,
}

/// What the caller is to do next.
#[derive(Debug)]
pub enum DiscoveryAction {
    /// Request `url`.
    Poll { url: String },
    /// Wait for `millis` milliseconds; the poll before failed for `cause`.
    Wait { millis: u64, cause: PollFailure },
    /// Open the control channel at this address.
    Connect(String),
    /// Stop without an address; the last poll, if there was one, failed for `last`.
    GiveUp { last: Option<PollFailure> },
    /// Nothing: the event came out of turn and changed nothing.
    Ignore,
}

/// The mathematical value of a [`DiscoveryEvent`]: texts as sequences of characters.
pub enum DiscoveryEventView {
    Polled(PollView),
    Waited,
}

/// The mathematical value of a [`DiscoveryAction`]: texts as sequences of characters.
pub enum DiscoveryActionView {
    Poll { url: Seq<char> },
    Wait { millis: u64, cause: PollFailureView },
    Connect(Seq<char>),
    GiveUp { last: Option<PollFailureView> },
    Ignore,
}

impl View for DiscoveryEvent {
    type V = DiscoveryEventView;

    open spec fn view(&self) -> DiscoveryEventView {
        match self {
            DiscoveryEvent::Polled(o) => DiscoveryEventView::Polled(o@),
            DiscoveryEvent::Waited => DiscoveryEventView::Waited,
        }
    }
}

impl View for DiscoveryAction {
    type V = DiscoveryActionView;

    open spec fn view(&self) -> DiscoveryActionView {
        match self {
            DiscoveryAction::Poll { url } => DiscoveryActionView::Poll { url: url@ },
            DiscoveryAction::Wait { millis, cause } => DiscoveryActionView::Wait {
                millis: *millis,
                cause: cause@,
            },
            DiscoveryAction::Connect(a) => DiscoveryActionView::Connect(a@),
            DiscoveryAction::GiveUp { last } => DiscoveryActionView::GiveUp {
                last: match last {
                    Some(c) => Some(c@),
                    None => None,
                },
            },
            DiscoveryAction::Ignore => DiscoveryActionView::Ignore,
        }
    }
}

/// The discoverer: what it polls, how often and how far apart, and how many polls have
/// failed so far.
#[derive(Debug, Clone, Copy, PartialEq, Eq, Structural)]
pub struct Discoverer {
    pub port: u16,
    pub max_attempts: u32,
    pub interval_millis: u64,
    pub failed: u32,
    pub state: DiscoveryState,
}

impl Discoverer {
    /// While a poll or a wait is due, attempts are left; once they are used up, discovery
    /// has stopped.
    pub open spec fn well_formed(self) -> bool {
        &&& self.failed <= self.max_attempts
        &&& (self.state == DiscoveryState::Polling || self.state == DiscoveryState::Waiting
            ==> self.failed < self.max_attempts)
        &&& (self.state == DiscoveryState::Exhausted ==> self.failed == self.max_attempts)
    }

    /// The discoverer before its first poll.
    pub open spec fn initial(port: u16, max_attempts: u32, interval_millis: u64) -> Discoverer {
        Discoverer {
            port,
            max_attempts,
            interval_millis,
            failed: 0,
            state: if max_attempts == 0 {
                DiscoveryState::Exhausted
            } else {
                DiscoveryState::Polling
            },
        }
    }

    /// The action with which discovery begins.
    pub open spec fn first_action(self) -> DiscoveryActionView {
        if self.state == DiscoveryState::Polling {
            DiscoveryActionView::Poll { url: endpoint_text(self.port as nat) }
        } else {
            DiscoveryActionView::GiveUp { last: None }
        }
    }

    /// The number of failed polls once one more has failed.
    pub open spec fn failed_after(self) -> u32 {
        if self.failed < self.max_attempts {
            (self.failed + 1) as u32
        } else {
            self.failed
        }
    }

    /// The discoverer after a poll that ended with `result`, and the action that is due.
    pub open spec fn on_polled(self, result: Result<Seq<char>, PollFailureView>) -> (
        Discoverer,
        DiscoveryActionView,
    ) {
        match result {
            Ok(address) => (
                Discoverer { state: DiscoveryState::Found, ..self },
                DiscoveryActionView::Connect(address),
            ),
            Err(cause) => {
                let failed = self.failed_after();
                if failed >= self.max_attempts {
                    (
                        Discoverer { failed, state: DiscoveryState::Exhausted, ..self },
                        DiscoveryActionView::GiveUp { last: Some(cause) },
                    )
                } else {
                    (
                        Discoverer { failed, state: DiscoveryState::Waiting, ..self },
                        DiscoveryActionView::Wait { millis: self.interval_millis, cause },
                    )
                }
            },
        }
    }

    /// The discoverer after `event`, and the action that is due.
    pub open spec fn next(self, event: DiscoveryEventView) -> (Discoverer, DiscoveryActionView) {
        match self.state {
            DiscoveryState::Polling => match event {
                DiscoveryEventView::Polled(outcome) => self.on_polled(poll_result(outcome)),
                DiscoveryEventView::Waited => (self, DiscoveryActionView::Ignore),
            },
            DiscoveryState::Waiting => match event {
                DiscoveryEventView::Waited => (
                    Discoverer { state: DiscoveryState::Polling, ..self },
                    DiscoveryActionView::Poll { url: endpoint_text(self.port as nat) },
                ),
                DiscoveryEventView::Polled(_) => (self, DiscoveryActionView::Ignore),
            },
            DiscoveryState::Found => (self, DiscoveryActionView::Ignore),
            DiscoveryState::Exhausted => (self, DiscoveryActionView::GiveUp { last: None }),
        }
    }

    /// The discoverer after one failed poll for each of `causes`, each but the last followed
    /// by its wait, and the last not yet followed by anything.
    pub open spec fn after_failures(self, causes: Seq<PollFailureView>) -> Discoverer
        decreases causes.len(),
    {
        if causes.len() == 0 {
            self
        } else {
            let before = self.after_failures(causes.drop_last());
            let ready = if before.state == DiscoveryState::Waiting {
                before.next(DiscoveryEventView::Waited).0
            } else {
                before
            };
            ready.on_polled(Err(causes.last())).0
        }
    }

    /// A discoverer for `port` that polls at most `max_attempts` times, `interval_millis`
    /// apart, and the action with which it begins.
    pub fn start(port: u16, max_attempts: u32, interval_millis: u64) -> (r: (
        Discoverer,
        DiscoveryAction,
    ))
        ensures
            r.0 == Self::initial(port, max_attempts, interval_millis),
            r.1@ == r.0.first_action(),
            r.0.well_formed(),
    {
        if max_attempts == 0 {
            (
                Discoverer {
                    port,
                    max_attempts,
                    interval_millis,
                    failed: 0,
                    state: DiscoveryState::Exhausted,
                },
                DiscoveryAction::GiveUp { last: None },
            )
        } else {
            (
                Discoverer {
                    port,
                    max_attempts,
                    interval_millis,
                    failed: 0,
                    state: DiscoveryState::Polling,
                },
                DiscoveryAction::Poll { url: endpoint_url(port) },
            )
        }
    }

    /// A discoverer for `port` with the usual number of attempts and the usual interval.
    pub fn with_defaults(port: u16) -> (r: (Discoverer, DiscoveryAction))
        ensures
            r.0 == Self::initial(port, DEFAULT_MAX_ATTEMPTS, DEFAULT_INTERVAL_MILLIS),
            r.1@ == r.0.first_action(),
            r.0.well_formed(),
    {
        Self::start(port, DEFAULT_MAX_ATTEMPTS, DEFAULT_INTERVAL_MILLIS)
    }

    /// Takes the result of a poll while one is due.
    pub fn polled(&mut self, result: Result<String, PollFailure>) -> (r: DiscoveryAction)
        ensures
            (*final(self), r@) == old(self).on_polled(address_view(result)),
    {
        match result {
            Ok(address) => {
                self.state = DiscoveryState::Found;
                DiscoveryAction::Connect(address)
            },
            Err(cause) => {
                if self.failed < self.max_attempts {
                    self.failed = self.failed + 1;
                }
                if self.failed >= self.max_attempts {
                    self.state = DiscoveryState::Exhausted;
                    DiscoveryAction::GiveUp { last: Some(cause) }
                } else {
                    self.state = DiscoveryState::Waiting;
                    DiscoveryAction::Wait { millis: self.interval_millis, cause }
                }
            },
        }
    }

    /// Takes the next event and says what is to be done.
    pub fn step(&mut self, event: DiscoveryEvent) -> (r: DiscoveryAction)
        ensures
            (*final(self), r@) == old(self).next(event@),
            old(self).well_formed() ==> final(self).well_formed(),
    {
        match self.state {
            DiscoveryState::Polling => match event {
                DiscoveryEvent::Polled(outcome) => self.polled(examine(outcome)),
                DiscoveryEvent::Waited => DiscoveryAction::Ignore,
            },
            DiscoveryState::Waiting => match event {
                DiscoveryEvent::Waited => {
                    self.state = DiscoveryState::Polling;
                    DiscoveryAction::Poll { url: endpoint_url(self.port) }
                },
                DiscoveryEvent::Polled(_) => DiscoveryAction::Ignore,
            },
            DiscoveryState::Found => DiscoveryAction::Ignore,
            DiscoveryState::Exhausted => DiscoveryAction::GiveUp { last: None },
        }
    }
}

/// Discovery gives up after exactly `max_attempts` failed polls and not before: while
/// fewer polls have failed, the wait of the configured length is due and then the next
/// poll; the poll that brings the count to `max_attempts` is answered with giving up.
pub proof fn lemma_gives_up_after_max_attempts(
    port: u16,
    max_attempts: u32,
    interval_millis: u64,
    causes: Seq<PollFailureView>,
)
    requires
        causes.len() <= max_attempts,
    ensures
        ({
            let start = Discoverer::initial(port, max_attempts, interval_millis);
            let end = start.after_failures(causes);
            &&& end.failed == causes.len()
            &&& end.port == port && end.max_attempts == max_attempts && end.interval_millis
                == interval_millis
            &&& end.well_formed()
            &&& causes.len() == 0 ==> end == start
            &&& causes.len() < max_attempts ==> end.state != DiscoveryState::Exhausted
            &&& 0 < causes.len() < max_attempts ==> {
                &&& end.state == DiscoveryState::Waiting
                &&& end.next(DiscoveryEventView::Waited).0.state == DiscoveryState::Polling
                &&& end.next(DiscoveryEventView::Waited).1 is Poll
            }
            &&& causes.len() == max_attempts ==> end.state == DiscoveryState::Exhausted
        }),
    decreases causes.len(),
{
    if causes.len() > 0 {
        lemma_gives_up_after_max_attempts(port, max_attempts, interval_millis, causes.drop_last());
    }
}

/// A failed poll is answered with a wait of the configured interval while attempts are
/// left, and with giving up when it was the last one allowed.
pub proof fn lemma_failed_poll(discoverer: Discoverer, cause: PollFailureView)
    requires
        discoverer.well_formed(),
        discoverer.state == DiscoveryState::Polling,
    ensures
        discoverer.failed + 1 < discoverer.max_attempts ==> discoverer.on_polled(Err(cause)).1
            == (DiscoveryActionView::Wait { millis: discoverer.interval_millis, cause }),
        discoverer.failed + 1 == discoverer.max_attempts ==> discoverer.on_polled(Err(cause)).1
            == (DiscoveryActionView::GiveUp { last: Some(cause) }),
        discoverer.on_polled(Err(cause)).0.failed == discoverer.failed + 1,
{
}

/// Every step keeps the discoverer well-formed.
pub proof fn lemma_discovery_step_keeps_well_formed(
    discoverer: Discoverer,
    event: DiscoveryEventView,
)
    requires
        discoverer.well_formed(),
    ensures
        discoverer.next(event).0.well_formed(),
{
}

} // verus!
