//! The phases that the handling of one search goes through.

use crate::config::MeiliConfigView;
use crate::forward::{received, Progress, ProgressView};
use crate::outcome::{resolved, Outcome, OutcomeView, UpstreamReplyView};
use vstd::prelude::*;

verus! {

/// Where the handling of a search stands. It begins as `Received`, and the
/// last four are the ways in which it can end.
#[derive(Debug, Clone, Copy, PartialEq, Eq, Structural)]
pub enum Phase {
    /// The request has come in.
    Received,
    /// Its query is being looked at.
    Validating,
    /// The request went upstream and the reply is awaited.
    Forwarding,
    /// Over: the query was empty.
    Rejected,
    /// Over: the engine could not be reached.
    TransportFailed,
    /// Over: the engine's answer was not in the expected form.
    ParseFailed,
    /// Over: the hits were returned.
    Completed,
}

/// Whether the handling is over in phase `p`.
pub open spec fn is_terminal(p: Phase) -> bool {
    p == Phase::Rejected || p == Phase::TransportFailed || p == Phase::ParseFailed || p
        == Phase::Completed
}

/// Whether the handling can go from `from` to `to` in one move.
pub open spec fn moves_to(from: Phase, to: Phase) -> bool {
    match from {
        Phase::Received => to == Phase::Validating,
        Phase::Validating => to == Phase::Rejected || to == Phase::Forwarding,
        Phase::Forwarding => to == Phase::TransportFailed || to == Phase::ParseFailed || to
            == Phase::Completed,
        _ => false,
    }
}

/// The phase in which the handling ended with `outcome`.
pub open spec fn phase_of_outcome(outcome: OutcomeView) -> Phase {
    match outcome {
        OutcomeView::Success(_) => Phase::Completed,
        OutcomeView::BadRequest(_) => Phase::Rejected,
        OutcomeView::UpstreamTransportError => Phase::TransportFailed,
        OutcomeView::UpstreamFormatError => Phase::ParseFailed,
    }
}

/// The phase that the handling is in once the query has been looked at.
pub open spec fn phase_of_progress(progress: ProgressView) -> Phase {
    match progress {
        ProgressView::Forward(_) => Phase::Forwarding,
        ProgressView::Done(outcome) => phase_of_outcome(outcome),
    }
}

impl Phase {
    /// Whether the handling is over in this phase.
    pub fn is_terminal(&self) -> (r: bool)
        ensures
            r == is_terminal(*self),
    {
        match self {
            Phase::Rejected | Phase::TransportFailed | Phase::ParseFailed | Phase::Completed => true,
            _ => false,
        }
    }

    /// Whether the handling can go from this phase to `to` in one move.
    pub fn moves_to(&self, to: Phase) -> (r: bool)
        ensures
            r == moves_to(*self, to),
    {
        match self {
            Phase::Received => to == Phase::Validating,
            Phase::Validating => to == Phase::Rejected || to == Phase::Forwarding,
            Phase::Forwarding => to == Phase::TransportFailed || to == Phase::ParseFailed || to
                == Phase::Completed,
            _ => false,
        }
    }
}

impl Outcome {
    /// The phase in which the handling ended with this outcome.
    pub fn phase(&self) -> (r: Phase)
        ensures
            r == phase_of_outcome(self@),
            is_terminal(r),
    {
        match self {
            Outcome::Success(_) => Phase::Completed,
            Outcome::BadRequest(_) => Phase::Rejected,
            Outcome::UpstreamTransportError => Phase::TransportFailed,
            Outcome::UpstreamFormatError => Phase::ParseFailed,
        }
    }
}

impl Progress {
    /// The phase that the handling is in.
    pub fn phase(&self) -> (r: Phase)
        ensures
            r == phase_of_progress(self@),
    {
        match self {
            Progress::Forward(_) => Phase::Forwarding,
            Progress::Done(outcome) => outcome.phase(),
        }
    }
}

/// No move leaves a phase in which the handling is over, and the handling is
/// over in just the phases that no move leaves: nothing is tried again.
pub proof fn lemma_terminal_phases_are_final(p: Phase)
    ensures
        is_terminal(p) <==> forall|next: Phase| !moves_to(p, next),
{
    if !is_terminal(p) {
        match p {
            Phase::Received => {
                assert(moves_to(p, Phase::Validating));
            },
            Phase::Validating => {
                assert(moves_to(p, Phase::Rejected));
            },
            _ => {
                assert(moves_to(p, Phase::Completed));
            },
        }
    }
}

/// Every outcome ends the handling.
pub proof fn lemma_outcome_is_terminal(outcome: OutcomeView)
    ensures
        is_terminal(phase_of_outcome(outcome)),
{
}

/// Looking at the query takes the handling from `Validating` to `Rejected`
/// or to `Forwarding`, whatever the query is.
pub proof fn lemma_validation_is_a_move(config: MeiliConfigView, q: Seq<char>)
    ensures
        moves_to(Phase::Validating, phase_of_progress(received(config, q))),
{
}

/// The engine's reply takes the handling from `Forwarding` to its end,
/// however the exchange went.
pub proof fn lemma_reply_is_a_move(reply: UpstreamReplyView)
    ensures
        moves_to(Phase::Forwarding, phase_of_outcome(resolved(reply))),
        is_terminal(phase_of_outcome(resolved(reply))),
{
}

} // verus!
