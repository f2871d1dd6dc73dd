//! Choosing the host on which a workload is started.
//!
//! A host that the caller names is taken as it is and nothing is asked of the
//! lattice. Otherwise an auction is held and the first host that answered is
//! taken, provided that its identifier is a host key; if it is not, the
//! placement fails and no other answer is turned to. The answers come in the
//! order in which the transport delivered them, so among several willing
//! hosts the choice is arbitrary.

use vstd::prelude::*;
use vstd::string::*;
use crate::manifest::{copy_labels, labels_view, Label, LabelView, Operation, OperationView};
use crate::id::{checked, key_shaped, parse_id, IdError, IdErrorView, IdKind};
use crate::text::{copy_opt, join2, join4, opt_text};

verus! {

/// The two kinds of workload that a host can start.
#[derive(Debug, Clone, Copy, PartialEq, Eq, Structural)]
pub enum WorkloadKind {
    Actor,
    Provider,
}

/// How long an auction for an actor collects answers when the caller sets no
/// window, in milliseconds.
pub const DEFAULT_ACTOR_AUCTION_WINDOW_MS: u64 = 2000;

/// How long an auction for a provider collects answers when the caller sets
/// no window, in milliseconds.
pub const DEFAULT_PROVIDER_AUCTION_WINDOW_MS: u64 = 5000;

/// How long the start of an actor may take when the caller sets no response
/// timeout, in milliseconds.
pub const DEFAULT_ACTOR_START_TIMEOUT_MS: u64 = 15000;

/// How long the start of a provider may take when the caller sets no response
/// timeout, in milliseconds.
pub const DEFAULT_PROVIDER_START_TIMEOUT_MS: u64 = 60000;

/// The auction window of a kind of workload when none is set.
pub open spec fn default_window(kind: WorkloadKind) -> u64 {
    match kind {
        WorkloadKind::Actor => DEFAULT_ACTOR_AUCTION_WINDOW_MS,
        WorkloadKind::Provider => DEFAULT_PROVIDER_AUCTION_WINDOW_MS,
    }
}

/// The response timeout of the start of a kind of workload when none is set.
pub open spec fn default_start_timeout(kind: WorkloadKind) -> u64 {
    match kind {
        WorkloadKind::Actor => DEFAULT_ACTOR_START_TIMEOUT_MS,
        WorkloadKind::Provider => DEFAULT_PROVIDER_START_TIMEOUT_MS,
    }
}

/// A value that the caller set, else the fallback.
pub open spec fn set_or(explicit: Option<u64>, fallback: u64) -> u64 {
    match explicit {
        Some(v) => v,
        None => fallback,
    }
}

/// The window of an auction: the one that the caller set, else the default of
/// the workload's kind.
pub fn auction_window_ms(kind: WorkloadKind, explicit: Option<u64>) -> (ms: u64)
    ensures
        ms == set_or(explicit, default_window(kind)),
{
    match explicit {
        Some(v) => v,
        None => match kind {
            WorkloadKind::Actor => DEFAULT_ACTOR_AUCTION_WINDOW_MS,
            WorkloadKind::Provider => DEFAULT_PROVIDER_AUCTION_WINDOW_MS,
        },
    }
}

/// The response timeout of a start: the one that the caller set, else the
/// default of the workload's kind, which leaves time to fetch the artifact.
pub fn start_timeout_ms(kind: WorkloadKind, explicit: Option<u64>) -> (ms: u64)
    ensures
        ms == set_or(explicit, default_start_timeout(kind)),
{
    match explicit {
        Some(v) => v,
        None => match kind {
            WorkloadKind::Actor => DEFAULT_ACTOR_START_TIMEOUT_MS,
            WorkloadKind::Provider => DEFAULT_PROVIDER_START_TIMEOUT_MS,
        },
    }
}

/// What is to be placed, and what the caller fixed about the placement.
#[derive(Debug, Clone, PartialEq, Eq)]
pub struct PlacementRequest {
    pub kind: WorkloadKind,
    pub explicit_host: Option<String>,
    pub workload_ref: String,
    pub link_name: Option<String>,
    pub constraints: Vec<Label>,
    pub auction_window_ms: Option<u64>,
}

/// The broadcast that asks the hosts of the lattice to offer themselves.
#[derive(Debug, Clone, PartialEq, Eq)]
pub struct AuctionRequest {
    pub kind: WorkloadKind,
    pub workload_ref: String,
    pub link_name: Option<String>,
    pub constraints: Vec<Label>,
    pub window_ms: u64,
}

/// What a [`AuctionRequest`] stands for in contracts, with texts as sequences of
/// characters.
pub struct AuctionRequestView {
    pub kind: WorkloadKind,
    pub workload_ref: Seq<char>,
    pub link_name: Option<Seq<char>>,
    pub constraints: Seq<LabelView>,
    pub window_ms: u64,
}

impl View for AuctionRequest {
    type V = AuctionRequestView;

    open spec fn view(&self) -> AuctionRequestView {
        AuctionRequestView {
            kind: self.kind,
            workload_ref: self.workload_ref@,
            link_name: opt_text(self.link_name),
            constraints: labels_view(self.constraints@),
            window_ms: self.window_ms,
        }
    }
}

/// The auction that a request leads to where it names no host.
pub open spec fn auction_for(request: PlacementRequest) -> AuctionRequestView {
    AuctionRequestView {
        kind: request.kind,
        workload_ref: request.workload_ref@,
        link_name: opt_text(request.link_name),
        constraints: labels_view(request.constraints@),
        window_ms: set_or(request.auction_window_ms, default_window(request.kind)),
    }
}

/// One host's answer to an auction.
#[derive(Debug, Clone, PartialEq, Eq)]
pub struct AuctionResponse {
    pub host_id: String,
    pub metadata: Vec<Label>,
}

/// The hosts that answered, in the order of the answers.
pub open spec fn host_ids(responses: Seq<AuctionResponse>) -> Seq<Seq<char>> {
    Seq::new(responses.len(), |i: int| responses[i].host_id@)
}

/// Why no host was found.
#[derive(Debug, Clone, PartialEq, Eq)]
pub enum PlacementError {
    /// The auction window went by without an answer.
    NoSuitableHost { kind: WorkloadKind, workload_ref: String },
    /// The auction itself could not be held.
    Transport(String),
    /// The first host that answered gave an identifier that is no host key.
    MalformedHost { host_id: String, reason: IdError },
}

/// What a [`PlacementError`] stands for in contracts, with texts as sequences of
/// characters.
pub enum PlacementErrorView {
    NoSuitableHost { kind: WorkloadKind, workload_ref: Seq<char> },
    Transport(Seq<char>),
    MalformedHost { host_id: Seq<char>, reason: IdErrorView },
}

impl View for PlacementError {
    type V = PlacementErrorView;

    open spec fn view(&self) -> PlacementErrorView {
        match *self {
            PlacementError::NoSuitableHost { kind, workload_ref } => {
                PlacementErrorView::NoSuitableHost { kind, workload_ref: workload_ref@ }
            },
            PlacementError::Transport(reason) => PlacementErrorView::Transport(reason@),
            PlacementError::MalformedHost { host_id, reason } => PlacementErrorView::MalformedHost {
                host_id: host_id@,
                reason: reason@,
            },
        }
    }
}

/// The description of a placement error for the user.
pub open spec fn error_text(e: PlacementErrorView) -> Seq<char> {
    match e {
        PlacementErrorView::NoSuitableHost { kind, workload_ref } => match kind {
            WorkloadKind::Actor => "No suitable hosts found for actor "@ + workload_ref,
            WorkloadKind::Provider => "No suitable hosts found for provider "@ + workload_ref,
        },
        PlacementErrorView::Transport(reason) => reason,
        PlacementErrorView::MalformedHost { host_id, reason } => "Malformed host id "@ + host_id
            + " in the auction's answer: "@ + crate::id::error_text(reason),
    }
}

impl PlacementError {
    /// The description of this error for the user.
    pub fn message(&self) -> (m: String)
        ensures
            m@ == error_text(self@),
    {
        match self {
            PlacementError::NoSuitableHost { kind, workload_ref } => match kind {
                WorkloadKind::Actor => join2(
                    "No suitable hosts found for actor ",
                    workload_ref.as_str(),
                ),
                WorkloadKind::Provider => join2(
                    "No suitable hosts found for provider ",
                    workload_ref.as_str(),
                ),
            },
            PlacementError::Transport(reason) => reason.clone(),
            PlacementError::MalformedHost { host_id, reason } => {
                let why = reason.message();
                join4(
                    "Malformed host id ",
                    host_id.as_str(),
                    " in the auction's answer: ",
                    why.as_str(),
                )
            },
        }
    }
}

/// A host or the reason why there is none, by view.
pub open spec fn resolution_view(r: Result<String, PlacementError>) -> Result<
    Seq<char>,
    PlacementErrorView,
> {
    match r {
        Ok(host) => Ok(host@),
        Err(e) => Err(e@),
    }
}

/// The name under which the identifier of an answering host is checked.
pub open spec fn answer_field() -> Seq<char> {
    "host_id"@
}

/// The host that an auction settles on: the first that answered, where its
/// identifier is a host key. With no answer there is no host; with a first
/// answer whose identifier is no host key there is none either, and the
/// other answers are not turned to.
pub open spec fn chosen(kind: WorkloadKind, workload_ref: Seq<char>, hosts: Seq<Seq<char>>) -> Result<
    Seq<char>,
    PlacementErrorView,
> {
    if hosts.len() == 0 {
        Err(PlacementErrorView::NoSuitableHost { kind, workload_ref })
    } else {
        match checked(IdKind::Host, answer_field(), hosts[0]) {
            Ok(host) => Ok(host),
            Err(reason) => Err(PlacementErrorView::MalformedHost { host_id: hosts[0], reason }),
        }
    }
}

/// What an ended auction settles on: where it could not be held, the
/// transport's failure; else the choice among the answers.
pub open spec fn concluded(
    kind: WorkloadKind,
    workload_ref: Seq<char>,
    auction: Result<Vec<AuctionResponse>, String>,
) -> Result<Seq<char>, PlacementErrorView> {
    match auction {
        Ok(responses) => chosen(kind, workload_ref, host_ids(responses@)),
        Err(reason) => Err(PlacementErrorView::Transport(reason@)),
    }
}

/// Picks the host among the answers of an auction: the first one, without a
/// look at the others; with no answer there is no suitable host, and a first
/// answer whose identifier is no host key fails the placement.
pub fn choose_host(kind: WorkloadKind, workload_ref: &str, responses: &Vec<AuctionResponse>) -> (r:
    Result<String, PlacementError>)
    ensures
        resolution_view(r) == chosen(kind, workload_ref@, host_ids(responses@)),
{
    if responses.len() == 0 {
        Err(PlacementError::NoSuitableHost { kind, workload_ref: String::from_str(workload_ref) })
    } else {
        match parse_id(IdKind::Host, "host_id", responses[0].host_id.as_str()) {
            Ok(host) => Ok(host),
            Err(reason) => Err(
                PlacementError::MalformedHost { host_id: responses[0].host_id.clone(), reason },
            ),
        }
    }
}

/// Settles a placement once the auction has ended, with its answers or with
/// the reason why it could not be held.
pub fn conclude(
    kind: WorkloadKind,
    workload_ref: &str,
    auction: &Result<Vec<AuctionResponse>, String>,
) -> (r: Result<String, PlacementError>)
    ensures
        resolution_view(r) == concluded(kind, workload_ref@, *auction),
{
    match auction {
        Ok(responses) => choose_host(kind, workload_ref, responses),
        Err(reason) => Err(PlacementError::Transport(reason.clone())),
    }
}

/// What a placement needs first: nothing, the host being named, or an auction.
#[derive(Debug, Clone, PartialEq, Eq)]
pub enum PlacementStep {
    Resolved(String),
    Auction(AuctionRequest),
}

/// The first step of a placement. A named host settles it at once, whatever
/// the constraints say; otherwise the auction to hold is handed out, with the
/// workload's reference, the constraints as given and the window that applies.
pub fn first_step(request: &PlacementRequest) -> (step: PlacementStep)
    ensures
        match request.explicit_host {
            Some(host) => step matches PlacementStep::Resolved(h) && h@ == host@,
            None => step matches PlacementStep::Auction(a) && a@ == auction_for(*request),
        },
{
    match &request.explicit_host {
        Some(host) => PlacementStep::Resolved(host.clone()),
        None => PlacementStep::Auction(
            AuctionRequest {
                kind: request.kind,
                workload_ref: request.workload_ref.clone(),
                link_name: copy_opt(&request.link_name),
                constraints: copy_labels(&request.constraints),
                window_ms: auction_window_ms(request.kind, request.auction_window_ms),
            },
        ),
    }
}

/// Resolves the host of a workload. A named host is returned unchanged and
/// `auction_fn` is not called. Otherwise `auction_fn` is called once, with the
/// auction of the request, and the result is what its answers settle on.
pub fn resolve_host<F: FnOnce(AuctionRequest) -> Result<Vec<AuctionResponse>, String>>(
    request: &PlacementRequest,
    auction_fn: F,
) -> (r: Result<String, PlacementError>)
    requires
        request.explicit_host is None ==> forall|a: AuctionRequest|
            a@ == auction_for(*request) ==> call_requires(auction_fn, (a,)),
    ensures
        request.explicit_host matches Some(host) ==> resolution_view(r) == Ok::<
            Seq<char>,
            PlacementErrorView,
        >(host@),
        request.explicit_host is None ==> exists|
            a: AuctionRequest,
            auction: Result<Vec<AuctionResponse>, String>,
        |
            a@ == auction_for(*request) && call_ensures(auction_fn, (a,), auction)
                && resolution_view(r) == concluded(request.kind, request.workload_ref@, auction),
{
    match first_step(request) {
        PlacementStep::Resolved(host) => Ok(host),
        PlacementStep::Auction(a) => {
            let auction = auction_fn(a);
            conclude(request.kind, request.workload_ref.as_str(), &auction)
        },
    }
}

/// The request that starts the workload on the host that was found. A
/// provider is started under its link name.
pub open spec fn start_on(request: PlacementRequest, host: Seq<char>) -> OperationView {
    match request.kind {
        WorkloadKind::Actor => OperationView::StartActor {
            host_id: host,
            actor_ref: request.workload_ref@,
        },
        WorkloadKind::Provider => OperationView::StartProvider {
            host_id: host,
            image_ref: request.workload_ref@,
            link_name: opt_text(request.link_name),
        },
    }
}

/// The request that starts the workload of `request` on `host_id`.
pub fn start_operation(request: &PlacementRequest, host_id: &str) -> (op: Operation)
    ensures
        op@ == start_on(*request, host_id@),
{
    match request.kind {
        WorkloadKind::Actor => Operation::StartActor {
            host_id: String::from_str(host_id),
            actor_ref: request.workload_ref.clone(),
        },
        WorkloadKind::Provider => Operation::StartProvider {
            host_id: String::from_str(host_id),
            image_ref: request.workload_ref.clone(),
            link_name: copy_opt(&request.link_name),
        },
    }
}

/// What a start asks of the caller next.
#[derive(Debug, Clone, PartialEq, Eq)]
pub enum StartStep {
    /// Hold this auction and come back with what it brought.
    Auction(AuctionRequest),
    /// Send this start request; the placement is settled.
    Send(Operation),
    /// No host was found: nothing is sent.
    Failed(PlacementError),
}

/// What a [`StartStep`] stands for in contracts, with texts as sequences of
/// characters.
pub enum StartStepView {
    Auction(AuctionRequestView),
    Send(OperationView),
    Failed(PlacementErrorView),
}

impl View for StartStep {
    type V = StartStepView;

    open spec fn view(&self) -> StartStepView {
        match *self {
            StartStep::Auction(a) => StartStepView::Auction(a@),
            StartStep::Send(op) => StartStepView::Send(op@),
            StartStep::Failed(e) => StartStepView::Failed(e@),
        }
    }
}

/// The step that opens a start: with a named host the start request for that
/// host, else the auction.
pub open spec fn opening(request: PlacementRequest) -> StartStepView {
    match request.explicit_host {
        Some(host) => StartStepView::Send(start_on(request, host@)),
        None => StartStepView::Auction(auction_for(request)),
    }
}

/// The step that follows an auction: the start request for the host that was
/// chosen, or the failure.
pub open spec fn following(
    request: PlacementRequest,
    auction: Result<Vec<AuctionResponse>, String>,
) -> StartStepView {
    match concluded(request.kind, request.workload_ref@, auction) {
        Ok(host) => StartStepView::Send(start_on(request, host)),
        Err(e) => StartStepView::Failed(e),
    }
}

/// Opens the start of a workload: says whether an auction has to be held
/// first, or which start request to send at once.
pub fn begin_start(request: &PlacementRequest) -> (step: StartStep)
    ensures
        step@ == opening(*request),
{
    match first_step(request) {
        PlacementStep::Resolved(host) => StartStep::Send(start_operation(request, host.as_str())),
        PlacementStep::Auction(a) => StartStep::Auction(a),
    }
}

/// Goes on with a start once its auction has ended: the start request for the
/// first host that answered, or the reason why nothing is started.
pub fn after_auction(request: &PlacementRequest, auction: &Result<Vec<AuctionResponse>, String>) -> (step:
    StartStep)
    ensures
        step@ == following(*request, *auction),
{
    match conclude(request.kind, request.workload_ref.as_str(), auction) {
        Ok(host) => StartStep::Send(start_operation(request, host.as_str())),
        Err(e) => StartStep::Failed(e),
    }
}

/// A provider's auction is given more time than an actor's where the caller
/// sets no window, and so is its start.
pub proof fn provider_defaults_are_longer()
    ensures
        default_window(WorkloadKind::Provider) > default_window(WorkloadKind::Actor),
        default_start_timeout(WorkloadKind::Provider) > default_start_timeout(WorkloadKind::Actor),
{
}

/// A window or timeout that the caller sets is the one that applies.
pub proof fn explicit_value_overrides_default(v: u64, fallback: u64)
    ensures
        set_or(Some(v), fallback) == v,
        set_or(None, fallback) == fallback,
{
}

/// With at least one answer the first host is chosen where its identifier is
/// a host key, whatever the other answers are.
pub proof fn first_answer_wins(
    kind: WorkloadKind,
    workload_ref: Seq<char>,
    first: Seq<char>,
    rest_a: Seq<Seq<char>>,
    rest_b: Seq<Seq<char>>,
)
    requires
        key_shaped(IdKind::Host, first),
    ensures
        chosen(kind, workload_ref, seq![first] + rest_a) == Ok::<Seq<char>, PlacementErrorView>(
            first,
        ),
        chosen(kind, workload_ref, seq![first] + rest_a) == chosen(
            kind,
            workload_ref,
            seq![first] + rest_b,
        ),
{
}

/// A first answer whose identifier is no host key fails the placement,
/// whatever the other answers are: none of them is chosen in its place.
pub proof fn malformed_first_answer_fails(
    kind: WorkloadKind,
    workload_ref: Seq<char>,
    first: Seq<char>,
    rest: Seq<Seq<char>>,
)
    requires
        !key_shaped(IdKind::Host, first),
    ensures
        chosen(kind, workload_ref, seq![first] + rest) matches Err(
            PlacementErrorView::MalformedHost { host_id, .. },
        ) && host_id == first,
{
}

/// A start with a named host holds no auction, whatever its constraints, and
/// starts the workload on that very host.
pub proof fn named_host_needs_no_auction(request: PlacementRequest)
    requires
        request.explicit_host is Some,
    ensures
        opening(request) == StartStepView::Send(start_on(request, request.explicit_host->0@)),
        !(opening(request) is Auction),
{
}

/// An auction without answers leads to no start request.
pub proof fn no_answer_no_start(request: PlacementRequest, answers: Vec<AuctionResponse>)
    requires
        answers@.len() == 0,
    ensures
        following(request, Ok(answers)) == StartStepView::Failed(
            PlacementErrorView::NoSuitableHost {
                kind: request.kind,
                workload_ref: request.workload_ref@,
            },
        ),
{
}

/// A first answer whose identifier is no host key leads to no start request.
pub proof fn malformed_answer_no_start(request: PlacementRequest, answers: Vec<AuctionResponse>)
    requires
        answers@.len() > 0,
        !key_shaped(IdKind::Host, answers@[0].host_id@),
    ensures
        following(request, Ok(answers)) matches StartStepView::Failed(
            PlacementErrorView::MalformedHost { host_id, .. },
        ) && host_id == answers@[0].host_id@,
{
}

/// With no answer the placement fails for want of a suitable host.
pub proof fn no_answer_no_host(kind: WorkloadKind, workload_ref: Seq<char>)
    ensures
        chosen(kind, workload_ref, Seq::<Seq<char>>::empty()) == Err::<
            Seq<char>,
            PlacementErrorView,
        >(PlacementErrorView::NoSuitableHost { kind, workload_ref }),
{
}

} // verus!
