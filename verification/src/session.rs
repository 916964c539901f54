//! The session state machine.
//!
//! A negotiation session moves through an explicit progression of
//! states, and that progression is the single source of truth for
//! which affordance of the surrounding interface is active.  The
//! transition table is total: an event that a state does not accept
//! leaves the state unchanged, and a fatal error moves any state to
//! the terminal `Failed`.  A failed session is discarded, never
//! recovered in place.

use vstd::prelude::*;

verus! {

/// Which side of the exchange this session plays.  Fixed for the
/// lifetime of a session.
#[derive(Clone, Copy, PartialEq, Eq, Structural, Debug)]
pub enum NegotiationRole {
    /// Creates the offer and consumes the answer.
    Initiator,
    /// Consumes the offer and creates the answer.
    Responder,
}

/// Everything that can go wrong during a negotiation attempt.
#[derive(Clone, Copy, PartialEq, Eq, Structural, Debug)]
pub enum NegotiationError {
    /// No connection handle was present when an action was attempted.
    /// Fatal: the session is reported and reset.
    NoConnection,
    /// The capture device was absent or access was denied.
    MediaUnavailable,
    /// The platform failed while setting up capture.
    MediaAcquisitionFailed,
    /// The connection object failed to create a description.
    DescriptionCreationFailed,
    /// A description could not be applied to the connection.
    DescriptionApplyFailed,
    /// Submitted signaling text was empty or only whitespace.  A local
    /// validation error: the user is re-prompted, nothing changes.
    EmptyInput,
    /// Submitted signaling text carried no role line.
    MalformedInput,
    /// The platform never signalled that candidate gathering was
    /// complete within the bounded wait.
    GatheringTimeout,
    /// A remote description was already applied to this session; it
    /// must not be applied twice.
    RemoteAlreadyApplied,
    /// A negotiation step is already in flight, or the session is
    /// terminal; a new attempt needs a new session.
    SessionActive,
}

/// The explicit progression a negotiation session moves through.
#[derive(Clone, Copy, PartialEq, Eq, Structural, Debug)]
pub enum SessionState {
    /// No connection attempt started.
    Idle,
    /// Media and connection attached; the local description is being
    /// generated.
    AwaitingLocalReady,
    /// The local signaling text is available for display and copy.
    LocalReady,
    /// The user is expected to paste the remote text.
    AwaitingRemoteInput,
    /// The remote description is being applied, or the answer built.
    Negotiating,
    /// Terminal success.
    Connected,
    /// Terminal failure, with its reason.
    Failed(NegotiationError),
}

/// The inputs that drive the session state machine.
#[derive(Clone, Copy, PartialEq, Eq, Structural, Debug)]
pub enum SessionEvent {
    /// The user started the session as initiator.
    Start,
    /// The complete local offer became available.
    OfferReady,
    /// The user advanced from the displayed local text to the remote
    /// input.
    UserAdvances,
    /// The user submitted remote text; `empty` says whether it was
    /// blank.
    UserSubmitsRemoteText {
        /// Whether the submitted text was empty or only whitespace.
        empty: bool,
    },
    /// The remote description was applied.
    RemoteApplied,
    /// An unrecoverable error for this session.
    FatalError(NegotiationError),
}

/// The transition table.  An event a state does not accept leaves the
/// state unchanged; blank remote text in particular causes no
/// transition and is surfaced only as a validation message.  A fatal
/// error moves any state to `Failed`.
pub open spec fn session_step(s: SessionState, e: SessionEvent) -> SessionState {
    match e {
        SessionEvent::FatalError(reason) => SessionState::Failed(reason),
        SessionEvent::Start => if s is Idle {
            SessionState::AwaitingLocalReady
        } else {
            s
        },
        SessionEvent::OfferReady => if s is AwaitingLocalReady {
            SessionState::LocalReady
        } else {
            s
        },
        SessionEvent::UserAdvances => if s is LocalReady {
            SessionState::AwaitingRemoteInput
        } else {
            s
        },
        SessionEvent::UserSubmitsRemoteText { empty } => if s is AwaitingRemoteInput && !empty {
            SessionState::Negotiating
        } else {
            s
        },
        SessionEvent::RemoteApplied => if s is Negotiating {
            SessionState::Connected
        } else {
            s
        },
    }
}

/// Apply one event to a session state.
pub fn advance(s: SessionState, e: SessionEvent) -> (r: SessionState)
    ensures
        r == session_step(s, e),
{
    match e {
        SessionEvent::FatalError(reason) => SessionState::Failed(reason),
        SessionEvent::Start => match s {
            SessionState::Idle => SessionState::AwaitingLocalReady,
            _ => s,
        },
        SessionEvent::OfferReady => match s {
            SessionState::AwaitingLocalReady => SessionState::LocalReady,
            _ => s,
        },
        SessionEvent::UserAdvances => match s {
            SessionState::LocalReady => SessionState::AwaitingRemoteInput,
            _ => s,
        },
        SessionEvent::UserSubmitsRemoteText { empty } => match s {
            SessionState::AwaitingRemoteInput => if empty {
                s
            } else {
                SessionState::Negotiating
            },
            _ => s,
        },
        SessionEvent::RemoteApplied => match s {
            SessionState::Negotiating => SessionState::Connected,
            _ => s,
        },
    }
}

/// The two terminal states: once reached, no event but a fatal error
/// changes the session, and a fatal error only rewrites the failure
/// reason.
pub open spec fn is_terminal(s: SessionState) -> bool {
    s is Connected || s is Failed
}

/// Law: blank remote text never moves the state machine.
pub proof fn lemma_blank_text_changes_nothing(s: SessionState)
    ensures
        session_step(s, SessionEvent::UserSubmitsRemoteText { empty: true }) == s,
{
}

/// Law: no event moves a terminal session anywhere but `Failed`.
pub proof fn lemma_terminal_stays_terminal(s: SessionState, e: SessionEvent)
    requires
        is_terminal(s),
    ensures
        is_terminal(session_step(s, e)),
{
}

} // verus!
