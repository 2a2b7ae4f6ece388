//! The per-call fetch state machine.
//!
//! One fetch is strictly linear: the client is built, the request is sent,
//! the status is checked, the body is read; every step either advances the
//! machine or rejects it with the error of that step, and a finished machine
//! never moves again. The host driver performs the outside work each state
//! asks for and feeds the outcome back as an event.

use vstd::prelude::*;
use crate::digits::dec_digits;
use crate::error::FetchError;
use crate::error::spec_message;
use crate::spec_is_success;

verus! {

/// Where one fetch stands. `Resolved` and `Rejected` are terminal.
#[derive(Debug, PartialEq, Eq)]
pub enum FetchState {
    /// The HTTP client is about to be built; nothing has been sent.
    ClientBuilding,
    /// The client exists; the request is in flight, headers not yet in.
    Requesting,
    /// The status was a success; the body is being read.
    BodyReading,
    /// The fetch succeeded with exactly these body bytes.
    Resolved { body: Vec<u8> },
    /// The fetch failed; `error` says at which step and why.
    Rejected { error: FetchError },
}

/// The outcome of one piece of outside work, reported back to the machine.
#[derive(Debug, PartialEq, Eq)]
pub enum FetchEvent {
    /// Client construction finished; `Err` carries the builder's diagnostic.
    ClientBuilt { outcome: Result<(), String> },
    /// The response head arrived (status code and reason phrase), or the
    /// transport failed with the given diagnostic.
    HeadReceived { outcome: Result<(u16, String), String> },
    /// The full body arrived, or the stream failed with the given diagnostic.
    BodyReceived { outcome: Result<Vec<u8>, String> },
}

/// What the driver must do next in a given state.
#[derive(Debug, PartialEq, Eq)]
pub enum FetchAction {
    /// Build the HTTP client with the fixed user-agent header.
    BuildClient,
    /// Send the GET request and await the response head.
    SendRequest,
    /// Await the full response body.
    ReadBody,
    /// Nothing: the fetch is finished, resolve or reject the handle.
    Finish,
}

/// The transition relation of one fetch. A terminal state never moves, and an
/// event that does not answer the current state's pending work changes
/// nothing.
pub open spec fn spec_step(s: FetchState, e: FetchEvent) -> FetchState {
    match (s, e) {
        (FetchState::ClientBuilding, FetchEvent::ClientBuilt { outcome }) => match outcome {
            Ok(_) => FetchState::Requesting,
            Err(detail) => FetchState::Rejected { error: FetchError::ClientBuild { detail } },
        },
        (FetchState::Requesting, FetchEvent::HeadReceived { outcome }) => match outcome {
            Ok(head) => if spec_is_success(head.0) {
                FetchState::BodyReading
            } else {
                FetchState::Rejected {
                    error: FetchError::Protocol { status: head.0, reason: head.1 },
                }
            },
            Err(detail) => FetchState::Rejected { error: FetchError::Transport { detail } },
        },
        (FetchState::BodyReading, FetchEvent::BodyReceived { outcome }) => match outcome {
            Ok(body) => FetchState::Resolved { body },
            Err(detail) => FetchState::Rejected { error: FetchError::Stream { detail } },
        },
        (other, _) => other,
    }
}

/// A fresh fetch, about to build its client. Each call owns its own machine;
/// nothing is shared between two fetches.
pub fn start() -> (s: FetchState)
    ensures
        s == FetchState::ClientBuilding,
{
    FetchState::ClientBuilding
}

/// Advances one fetch by one event, exactly as `spec_step` says.
pub fn step(s: FetchState, e: FetchEvent) -> (next: FetchState)
    ensures
        next == spec_step(s, e),
{
    match (s, e) {
        (FetchState::ClientBuilding, FetchEvent::ClientBuilt { outcome }) => match outcome {
            Ok(_) => FetchState::Requesting,
            Err(detail) => FetchState::Rejected { error: FetchError::ClientBuild { detail } },
        },
        (FetchState::Requesting, FetchEvent::HeadReceived { outcome }) => match outcome {
            Ok(head) => if crate::is_success_status(head.0) {
                FetchState::BodyReading
            } else {
                FetchState::Rejected {
                    error: FetchError::Protocol { status: head.0, reason: head.1 },
                }
            },
            Err(detail) => FetchState::Rejected { error: FetchError::Transport { detail } },
        },
        (FetchState::BodyReading, FetchEvent::BodyReceived { outcome }) => match outcome {
            Ok(body) => FetchState::Resolved { body },
            Err(detail) => FetchState::Rejected { error: FetchError::Stream { detail } },
        },
        (other, _) => other,
    }
}

/// The outside work pending in a state.
pub open spec fn spec_next_action(s: FetchState) -> FetchAction {
    match s {
        FetchState::ClientBuilding => FetchAction::BuildClient,
        FetchState::Requesting => FetchAction::SendRequest,
        FetchState::BodyReading => FetchAction::ReadBody,
        FetchState::Resolved { .. } => FetchAction::Finish,
        FetchState::Rejected { .. } => FetchAction::Finish,
    }
}

/// Tells the driver what to do next.
pub fn next_action(s: &FetchState) -> (a: FetchAction)
    ensures
        a == spec_next_action(*s),
{
    match s {
        FetchState::ClientBuilding => FetchAction::BuildClient,
        FetchState::Requesting => FetchAction::SendRequest,
        FetchState::BodyReading => FetchAction::ReadBody,
        FetchState::Resolved { .. } => FetchAction::Finish,
        FetchState::Rejected { .. } => FetchAction::Finish,
    }
}

/// Where a fetch ends after a whole sequence of events, first event first.
pub open spec fn run(init: FetchState, events: Seq<FetchEvent>) -> FetchState
    decreases events.len(),
{
    if events.len() == 0 {
        init
    } else {
        run(spec_step(init, events[0]), events.drop_first())
    }
}

proof fn lemma_run_one(init: FetchState, e1: FetchEvent)
    ensures
        run(init, seq![e1]) == spec_step(init, e1),
{
    let evs = seq![e1];
    assert(evs[0] == e1);
    assert(run(init, evs) == run(spec_step(init, e1), evs.drop_first()));
    assert(evs.drop_first().len() == 0);
    assert(run(spec_step(init, e1), evs.drop_first()) == spec_step(init, e1));
}

proof fn lemma_run_two(init: FetchState, e1: FetchEvent, e2: FetchEvent)
    ensures
        run(init, seq![e1, e2]) == spec_step(spec_step(init, e1), e2),
{
    let evs = seq![e1, e2];
    assert(evs[0] == e1);
    assert(evs.drop_first() =~= seq![e2]);
    assert(run(init, evs) == run(spec_step(init, e1), seq![e2]));
    lemma_run_one(spec_step(init, e1), e2);
}

proof fn lemma_run_three(init: FetchState, e1: FetchEvent, e2: FetchEvent, e3: FetchEvent)
    ensures
        run(init, seq![e1, e2, e3]) == spec_step(spec_step(spec_step(init, e1), e2), e3),
{
    let evs = seq![e1, e2, e3];
    assert(evs[0] == e1);
    assert(evs.drop_first() =~= seq![e2, e3]);
    assert(run(init, evs) == run(spec_step(init, e1), seq![e2, e3]));
    lemma_run_two(spec_step(init, e1), e2, e3);
}

/// Law: a fetch whose client builds, whose server answers a status in the
/// success range, and whose body arrives as `body`, resolves with exactly
/// those bytes — byte for byte, whatever their length, the empty body
/// included.
pub proof fn lemma_success_resolves_exact_body(status: u16, reason: String, body: Vec<u8>)
    requires
        spec_is_success(status),
    ensures
        run(
            FetchState::ClientBuilding,
            seq![
                FetchEvent::ClientBuilt { outcome: Ok(()) },
                FetchEvent::HeadReceived { outcome: Ok((status, reason)) },
                FetchEvent::BodyReceived { outcome: Ok(body) },
            ],
        ) == (FetchState::Resolved { body }),
{
    lemma_run_three(
        FetchState::ClientBuilding,
        FetchEvent::ClientBuilt { outcome: Ok(()) },
        FetchEvent::HeadReceived { outcome: Ok((status, reason)) },
        FetchEvent::BodyReceived { outcome: Ok(body) },
    );
}

/// Law: a fetch whose server answers a status outside the success range
/// rejects with a protocol error; the rejection message carries the status
/// code in decimal right after its fixed prefix; and the body is never
/// surfaced — even a body outcome delivered afterwards leaves the fetch
/// rejected.
pub proof fn lemma_non_success_rejects_with_status(
    status: u16,
    reason: String,
    late: Result<Vec<u8>, String>,
)
    requires
        !spec_is_success(status),
    ensures
        ({
            let end = run(
                FetchState::ClientBuilding,
                seq![
                    FetchEvent::ClientBuilt { outcome: Ok(()) },
                    FetchEvent::HeadReceived { outcome: Ok((status, reason)) },
                ],
            );
            let err = FetchError::Protocol { status, reason };
            let digits = dec_digits(status as nat);
            &&& end == (FetchState::Rejected { error: err })
            &&& spec_message(err).subrange(12, 12 + digits.len() as int) == digits
            &&& spec_step(end, FetchEvent::BodyReceived { outcome: late }) == end
        }),
{
    lemma_run_two(
        FetchState::ClientBuilding,
        FetchEvent::ClientBuilt { outcome: Ok(()) },
        FetchEvent::HeadReceived { outcome: Ok((status, reason)) },
    );
    let err = FetchError::Protocol { status, reason };
    let digits = dec_digits(status as nat);
    reveal_strlit("HTTP error: ");
    assert("HTTP error: "@.len() == 12);
    assert(spec_message(err).subrange(12, 12 + digits.len() as int) =~= digits);
}

/// Law: a fetch whose request cannot be delivered rejects with a transport
/// error, and the rejection message is the transport-failure indicator
/// `"Request failed: "` followed by the underlying detail.
pub proof fn lemma_transport_failure_rejects(detail: String)
    ensures
        ({
            let end = run(
                FetchState::ClientBuilding,
                seq![
                    FetchEvent::ClientBuilt { outcome: Ok(()) },
                    FetchEvent::HeadReceived { outcome: Err(detail) },
                ],
            );
            let err = FetchError::Transport { detail };
            &&& end == (FetchState::Rejected { error: err })
            &&& spec_message(err) == "Request failed: "@ + detail@
        }),
{
    lemma_run_two(
        FetchState::ClientBuilding,
        FetchEvent::ClientBuilt { outcome: Ok(()) },
        FetchEvent::HeadReceived { outcome: Err(detail) },
    );
}

/// Law: a fetch whose connection drops after a successful status but before
/// the body completes rejects with a body-read failure — no bytes, partial or
/// otherwise, are ever resolved — and the rejection message is the body-read
/// indicator `"Failed to get bytes: "` followed by the underlying detail.
pub proof fn lemma_body_failure_rejects(status: u16, reason: String, detail: String)
    requires
        spec_is_success(status),
    ensures
        ({
            let end = run(
                FetchState::ClientBuilding,
                seq![
                    FetchEvent::ClientBuilt { outcome: Ok(()) },
                    FetchEvent::HeadReceived { outcome: Ok((status, reason)) },
                    FetchEvent::BodyReceived { outcome: Err(detail) },
                ],
            );
            let err = FetchError::Stream { detail };
            &&& end == (FetchState::Rejected { error: err })
            &&& end !is Resolved
            &&& spec_message(err) == "Failed to get bytes: "@ + detail@
        }),
{
    lemma_run_three(
        FetchState::ClientBuilding,
        FetchEvent::ClientBuilt { outcome: Ok(()) },
        FetchEvent::HeadReceived { outcome: Ok((status, reason)) },
        FetchEvent::BodyReceived { outcome: Err(detail) },
    );
}

/// Law: a fetch whose client cannot be built rejects before any network work,
/// with the client-build diagnostic carrying the builder's detail.
pub proof fn lemma_client_build_failure_rejects(detail: String)
    ensures
        ({
            let end = run(
                FetchState::ClientBuilding,
                seq![FetchEvent::ClientBuilt { outcome: Err(detail) }],
            );
            let err = FetchError::ClientBuild { detail };
            &&& end == (FetchState::Rejected { error: err })
            &&& spec_message(err) == "Failed to build client: "@ + detail@
        }),
{
    lemma_run_one(FetchState::ClientBuilding, FetchEvent::ClientBuilt { outcome: Err(detail) });
}

/// Law: a finished fetch never moves again. Once resolved or rejected, every
/// further event leaves the machine unchanged, so the async handle is
/// completed at most once and a rejected fetch never turns into a success.
pub proof fn lemma_terminal_states_stay(s: FetchState, e: FetchEvent)
    requires
        s is Resolved || s is Rejected,
    ensures
        spec_step(s, e) == s,
{
}

} // verus!
