//! What a reply to one operation means: the outcome that is recorded and the
//! line that is reported for it.

use vstd::prelude::*;
use vstd::string::*;
use crate::manifest::{Operation, OperationKind, OperationView};
use crate::text::{join2, join3, join4, opt_text, text_or_empty};

verus! {

/// The answer of a host to a mutating request: taken up or declined, with the
/// host's explanation where it gave one.
#[derive(Debug, Clone, PartialEq, Eq)]
pub struct Acknowledgement {
    pub accepted: bool,
    pub error: Option<String>,
}

/// What a [`Acknowledgement`] stands for in contracts, with texts as sequences of
/// characters.
pub struct AcknowledgementView {
    pub accepted: bool,
    pub error: Option<Seq<char>>,
}

impl View for Acknowledgement {
    type V = AcknowledgementView;

    open spec fn view(&self) -> AcknowledgementView {
        AcknowledgementView { accepted: self.accepted, error: opt_text(self.error) }
    }
}

/// How one request ended: an acknowledgement came back, or the request could
/// not be delivered or answered in time.
#[derive(Debug, Clone, PartialEq, Eq)]
pub enum Reply {
    Answered(Acknowledgement),
    Failed(String),
}

/// What a [`Reply`] stands for in contracts, with texts as sequences of
/// characters.
pub enum ReplyView {
    Answered(AcknowledgementView),
    Failed(Seq<char>),
}

impl View for Reply {
    type V = ReplyView;

    open spec fn view(&self) -> ReplyView {
        match *self {
            Reply::Answered(ack) => ReplyView::Answered(ack@),
            Reply::Failed(reason) => ReplyView::Failed(reason@),
        }
    }
}

/// The replies of a list, each by its view.
pub open spec fn replies_view(replies: Seq<Reply>) -> Seq<ReplyView> {
    Seq::new(replies.len(), |i: int| replies[i]@)
}

/// What is kept of one manifest item once its request has ended.
#[derive(Debug, Clone, PartialEq, Eq)]
pub struct OperationOutcome {
    pub kind: OperationKind,
    pub description: String,
    pub accepted: bool,
    pub error: Option<String>,
}

/// What a [`OperationOutcome`] stands for in contracts, with texts as sequences of
/// characters.
pub struct OperationOutcomeView {
    pub kind: OperationKind,
    pub description: Seq<char>,
    pub accepted: bool,
    pub error: Option<Seq<char>>,
}

impl View for OperationOutcome {
    type V = OperationOutcomeView;

    open spec fn view(&self) -> OperationOutcomeView {
        OperationOutcomeView {
            kind: self.kind,
            description: self.description@,
            accepted: self.accepted,
            error: opt_text(self.error),
        }
    }
}

/// The outcomes of a list, each by its view.
pub open spec fn outcomes_view(outcomes: Seq<OperationOutcome>) -> Seq<OperationOutcomeView> {
    Seq::new(outcomes.len(), |i: int| outcomes[i]@)
}

/// The group of an operation.
pub open spec fn kind_of(op: OperationView) -> OperationKind {
    match op {
        OperationView::StartActor { .. } => OperationKind::StartActor,
        OperationView::StartProvider { .. } => OperationKind::StartProvider,
        OperationView::PutLink { .. } => OperationKind::PutLink,
    }
}

/// What an operation is about: the reference that is started, or the two ends
/// of the link.
pub open spec fn describe(op: OperationView) -> Seq<char> {
    match op {
        OperationView::StartActor { actor_ref, .. } => actor_ref,
        OperationView::StartProvider { image_ref, .. } => image_ref,
        OperationView::PutLink { actor, provider_id, .. } => actor + " -> "@ + provider_id,
    }
}

/// Whether a reply says that the host took the request up.
pub open spec fn reply_accepted(reply: ReplyView) -> bool {
    match reply {
        ReplyView::Answered(ack) => ack.accepted,
        ReplyView::Failed(_) => false,
    }
}

/// The failure a reply carries: none where the host accepted, the host's
/// explanation where it declined, the transport's where no answer came.
pub open spec fn reply_error(reply: ReplyView) -> Option<Seq<char>> {
    match reply {
        ReplyView::Answered(ack) => if ack.accepted {
            None
        } else {
            Some(text_or_empty(ack.error))
        },
        ReplyView::Failed(reason) => Some(reason),
    }
}

/// The outcome recorded for `op` when its request ended with `reply`.
pub open spec fn outcome_for(op: OperationView, reply: ReplyView) -> OperationOutcomeView {
    OperationOutcomeView {
        kind: kind_of(op),
        description: describe(op),
        accepted: reply_accepted(reply),
        error: reply_error(reply),
    }
}

/// The words that open the report of an answered request.
pub open spec fn subject(op: OperationView) -> Seq<char> {
    match op {
        OperationView::StartActor { actor_ref, .. } => "Instruction to start actor "@ + actor_ref,
        OperationView::StartProvider { image_ref, .. } => "Instruction to start provider "@
            + image_ref,
        OperationView::PutLink { actor, provider_id, .. } => "Link def submission from "@ + actor
            + " to "@ + provider_id,
    }
}

/// The words that open the report of a request that got no answer.
pub open spec fn send_failure(op: OperationView) -> Seq<char> {
    match op {
        OperationView::StartActor { .. } => "Failed to send start actor: "@,
        OperationView::StartProvider { .. } => "Failed to send start capability message: "@,
        OperationView::PutLink { .. } => "Failed to send link def: "@,
    }
}

/// The line reported for `op` when its request ended with `reply`.
pub open spec fn report_for(op: OperationView, reply: ReplyView) -> Seq<char> {
    match reply {
        ReplyView::Answered(ack) => if ack.accepted {
            subject(op) + " acknowledged."@
        } else {
            subject(op) + " not acked: "@ + text_or_empty(ack.error)
        },
        ReplyView::Failed(reason) => send_failure(op) + reason,
    }
}

impl Reply {
    /// Whether the host took the request up.
    pub fn accepted(&self) -> (b: bool)
        ensures
            b == reply_accepted(self@),
    {
        match self {
            Reply::Answered(ack) => ack.accepted,
            Reply::Failed(_) => false,
        }
    }

    /// The failure to show for the request: none where the host accepted, the
    /// host's explanation where it declined, the transport's description
    /// where no answer came.
    pub fn failure(&self) -> (f: Option<String>)
        ensures
            opt_text(f) == reply_error(self@),
    {
        match self {
            Reply::Answered(ack) => {
                if ack.accepted {
                    None
                } else {
                    match &ack.error {
                        Some(e) => Some(e.clone()),
                        None => Some(String::new()),
                    }
                }
            },
            Reply::Failed(reason) => Some(reason.clone()),
        }
    }
}

impl Operation {
    /// The group this operation belongs to.
    pub fn kind(&self) -> (k: OperationKind)
        ensures
            k == kind_of(self@),
    {
        match self {
            Operation::StartActor { .. } => OperationKind::StartActor,
            Operation::StartProvider { .. } => OperationKind::StartProvider,
            Operation::PutLink { .. } => OperationKind::PutLink,
        }
    }

    /// What this operation is about.
    pub fn description(&self) -> (d: String)
        ensures
            d@ == describe(self@),
    {
        match self {
            Operation::StartActor { actor_ref, .. } => actor_ref.clone(),
            Operation::StartProvider { image_ref, .. } => image_ref.clone(),
            Operation::PutLink { actor, provider_id, .. } => join3(
                actor.as_str(),
                " -> ",
                provider_id.as_str(),
            ),
        }
    }

    /// The outcome to record when the request for this operation ended with
    /// `reply`. An item counts as accepted only if the host said so; a
    /// declined or undelivered request keeps its explanation.
    pub fn outcome(&self, reply: &Reply) -> (o: OperationOutcome)
        ensures
            o@ == outcome_for(self@, reply@),
    {
        OperationOutcome {
            kind: self.kind(),
            description: self.description(),
            accepted: reply.accepted(),
            error: reply.failure(),
        }
    }

    fn subject_text(&self) -> (s: String)
        ensures
            s@ == subject(self@),
    {
        match self {
            Operation::StartActor { actor_ref, .. } => join2(
                "Instruction to start actor ",
                actor_ref.as_str(),
            ),
            Operation::StartProvider { image_ref, .. } => join2(
                "Instruction to start provider ",
                image_ref.as_str(),
            ),
            Operation::PutLink { actor, provider_id, .. } => join4(
                "Link def submission from ",
                actor.as_str(),
                " to ",
                provider_id.as_str(),
            ),
        }
    }

    /// The line to report when the request for this operation ended with
    /// `reply`.
    pub fn report(&self, reply: &Reply) -> (line: String)
        ensures
            line@ == report_for(self@, reply@),
    {
        match reply {
            Reply::Answered(ack) => {
                let s = self.subject_text();
                if ack.accepted {
                    join2(s.as_str(), " acknowledged.")
                } else {
                    match &ack.error {
                        Some(e) => join3(s.as_str(), " not acked: ", e.as_str()),
                        None => {
                            assert(subject(self@) + " not acked: "@ + Seq::<char>::empty()
                                =~= subject(self@) + " not acked: "@);
                            join2(s.as_str(), " not acked: ")
                        },
                    }
                }
            },
            Reply::Failed(reason) => match self {
                Operation::StartActor { .. } => join2(
                    "Failed to send start actor: ",
                    reason.as_str(),
                ),
                Operation::StartProvider { .. } => join2(
                    "Failed to send start capability message: ",
                    reason.as_str(),
                ),
                Operation::PutLink { .. } => join2("Failed to send link def: ", reason.as_str()),
            },
        }
    }
}

} // verus!
