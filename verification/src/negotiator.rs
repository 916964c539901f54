//! The connection negotiator.
//!
//! One value of `Negotiator` owns one negotiation session: its place
//! in the session state machine, the micro-step of the platform
//! sequence currently in flight, and everything gathered so far.  The
//! platform's suspendable calls (media capture, description creation
//! and application, candidate gathering) run outside the library: each
//! public method returns the next action the surrounding event loop
//! must perform, and the loop feeds the outcome back through
//! `on_event`.  A platform outcome that does not belong to the step in
//! flight is discarded, so a stale completion can never corrupt a
//! newer session's state.

use vstd::prelude::*;

use crate::codec::DescriptionRole;
use crate::codec::SessionDescription;
use crate::codec::encoded;
use crate::codec::is_blank;
use crate::codec::parsed_payload;
use crate::codec::parsed_role;
use crate::codec::well_formed;
use crate::codec::decode;
use crate::codec::encode;
use crate::codec::is_blank_text;
use crate::media::LocalMediaStream;
use crate::media::MediaError;
use crate::media::MediaOption;
use crate::session::NegotiationError;
use crate::session::NegotiationRole;
use crate::session::SessionEvent;
use crate::session::SessionState;
use crate::session::session_step;

verus! {

/// The application-wide connection flag the rest of the interface
/// observes.
#[derive(Clone, Copy, PartialEq, Eq, Structural, Debug)]
pub enum AppState {
    /// No live link; the configuration view is active.
    Stable,
    /// A peer link is established.
    Connected,
}

/// The platform step a session is suspended on, if any.
#[derive(Clone, Copy, PartialEq, Eq, Structural, Debug)]
pub enum Phase {
    /// No platform step is in flight.
    Inactive,
    /// Waiting for the media capture request.
    RequestingMedia,
    /// Waiting for the local tracks to be attached to the connection.
    AttachingTracks,
    /// Waiting for the candidate and inbound-track observers to be
    /// registered.  Registration must finish strictly before any
    /// description is created or applied, or outbound candidates and
    /// the gathering-complete signal would be lost.
    RegisteringObservers,
    /// Responder: waiting for the remote offer to be applied.
    ApplyingRemote,
    /// Waiting for the connection to create the offer or the answer.
    CreatingDescription,
    /// Waiting for the created description to be set locally.
    ApplyingLocal,
    /// Waiting for candidate gathering to reach completion.
    Gathering,
    /// Initiator: waiting for the pasted remote answer to be applied.
    ApplyingAnswer,
}

/// The outcome of a platform step, handed back by the event loop.
#[derive(Clone, Debug)]
pub enum PlatformEvent {
    /// Media capture succeeded with this stream.
    MediaReady(LocalMediaStream),
    /// Media capture failed.
    MediaFailed(MediaError),
    /// The local tracks were attached to the connection.
    TracksAttached,
    /// Attaching the local tracks failed.
    TrackAttachFailed,
    /// The candidate and inbound-track observers are registered.
    ObserversRegistered,
    /// The connection created a description with this payload.
    DescriptionCreated(Vec<u8>),
    /// The connection failed to create a description.
    DescriptionRejected,
    /// The created description was set as the local description.
    LocalApplied,
    /// Setting the local description failed.
    LocalRejected,
    /// The remote description was applied to the connection.
    RemoteApplied,
    /// Applying the remote description failed.
    RemoteRejected,
    /// The platform signalled that candidate gathering is complete.
    GatheringComplete,
    /// The bounded wait for gathering completion ran out.
    GatheringTimedOut,
    /// An inbound track arrived; the remote stream is now populated.
    RemoteTrackArrived,
}

/// The next platform step the surrounding event loop must perform.
#[derive(Clone, Copy, PartialEq, Eq, Structural, Debug)]
pub enum NegotiatorAction {
    /// Request local media capture for the session's media option.
    RequestMedia,
    /// Attach the acquired local stream's tracks to the connection.
    AttachLocalTracks,
    /// Register the candidate and inbound-track observers.
    RegisterObservers,
    /// Ask the connection for an offer.
    CreateOffer,
    /// Ask the connection for an answer.
    CreateAnswer,
    /// Set the created description as the local description.
    ApplyLocalDescription,
    /// Apply the stored remote description to the connection.
    ApplyRemoteDescription,
    /// Wait (bounded) for candidate gathering to complete.
    AwaitGathering,
    /// Display the finished local signaling text for copying.
    PublishLocalText,
    /// Hand the finished answer text to the peer.
    DeliverAnswerText,
    /// Clear both displayed text fields.
    ClearDisplays,
    /// Surface the carried failure to the user.
    ReportFailure(NegotiationError),
    /// Nothing to do.
    NoAction,
}

/// One negotiation session.
#[derive(Clone, Debug)]
#[verifier::ext_equal]
pub struct Negotiator {
    /// Where the session stands in the state machine.
    pub state: SessionState,
    /// The platform step in flight, if any.
    pub phase: Phase,
    /// Which side this session plays; fixed once chosen.
    pub role: Option<NegotiationRole>,
    /// Which media the session requests; chosen before it starts.
    pub media_option: MediaOption,
    /// Whether a connection handle exists for this session.
    pub has_connection: bool,
    /// The acquired local stream, once capture succeeded.
    pub local_stream: Option<LocalMediaStream>,
    /// Whether the local tracks are attached to the connection.
    pub tracks_attached: bool,
    /// Whether the candidate and inbound-track observers are
    /// registered.
    pub observers_registered: bool,
    /// Whether the platform has signalled gathering completion.
    pub gathering_complete: bool,
    /// The local description, once created.
    pub local_description: Option<SessionDescription>,
    /// The decoded remote description, once submitted.
    pub remote_description: Option<SessionDescription>,
    /// Whether a remote description has been applied to the
    /// connection.  It must never be applied twice.
    pub remote_applied: bool,
    /// Whether an inbound track has populated the remote stream.
    pub remote_stream_present: bool,
    /// The application-wide connection flag.
    pub app_flag: AppState,
}

impl Negotiator {
    /// Everything a session must keep true between steps.
    pub open spec fn wf(self) -> bool {
        &&& (self.state is LocalReady ==> self.gathering_complete && self.local_description
            is Some && self.phase is Inactive && (self.role matches Some(
            NegotiationRole::Initiator,
        )) && self.observers_registered)
        &&& (self.state is AwaitingRemoteInput ==> self.observers_registered
            && self.gathering_complete && (self.role matches Some(NegotiationRole::Initiator))
            && self.phase is Inactive)
        &&& (self.state is Connected ==> self.remote_applied && self.phase is Inactive
            && self.app_flag is Connected)
        &&& (self.state is Connected && (self.role matches Some(NegotiationRole::Responder))
            ==> self.gathering_complete && self.local_description is Some)
        &&& (self.state is Idle ==> self.phase is Inactive)
        &&& (self.state is AwaitingLocalReady ==> (self.role matches Some(
            NegotiationRole::Initiator,
        )))
        &&& (self.phase !is Inactive ==> (self.state is AwaitingLocalReady || self.state
            is Negotiating) && self.role is Some)
        &&& ((self.phase is ApplyingRemote || self.phase is CreatingDescription || self.phase
            is ApplyingLocal || self.phase is Gathering || self.phase is ApplyingAnswer)
            ==> self.observers_registered)
        &&& ((self.phase is ApplyingLocal || self.phase is Gathering)
            ==> self.local_description is Some)
        &&& ((self.role matches Some(NegotiationRole::Responder)) && (self.phase
            is CreatingDescription || self.phase is ApplyingLocal || self.phase is Gathering)
            ==> self.remote_applied)
        &&& (self.phase is ApplyingAnswer ==> (self.role matches Some(NegotiationRole::Initiator))
            && self.gathering_complete && self.state is Negotiating)
        &&& (self.phase is ApplyingRemote ==> (self.role matches Some(NegotiationRole::Responder)))
        &&& ((self.role matches Some(NegotiationRole::Initiator)) && (self.phase
            is RequestingMedia || self.phase is AttachingTracks || self.phase
            is RegisteringObservers || self.phase is CreatingDescription || self.phase
            is ApplyingLocal || self.phase is Gathering) ==> self.state is AwaitingLocalReady)
        &&& ((self.role matches Some(NegotiationRole::Responder)) && self.phase !is Inactive
            ==> self.state is Negotiating)
    }

    /// A session that has not started: idle, nothing in flight,
    /// nothing gathered, flag stable.
    pub open spec fn fresh(media_option: MediaOption, has_connection: bool) -> Negotiator {
        Negotiator {
            state: SessionState::Idle,
            phase: Phase::Inactive,
            role: None,
            media_option,
            has_connection,
            local_stream: None,
            tracks_attached: false,
            observers_registered: false,
            gathering_complete: false,
            local_description: None,
            remote_description: None,
            remote_applied: false,
            remote_stream_present: false,
            app_flag: AppState::Stable,
        }
    }

    /// Make a new session for the given media option, with or without
    /// a connection handle.
    pub fn new(media_option: MediaOption, has_connection: bool) -> (r: Negotiator)
        ensures
            r == Negotiator::fresh(media_option, has_connection),
            r.wf(),
    {
        Negotiator {
            state: SessionState::Idle,
            phase: Phase::Inactive,
            role: None,
            media_option,
            has_connection,
            local_stream: None,
            tracks_attached: false,
            observers_registered: false,
            gathering_complete: false,
            local_description: None,
            remote_description: None,
            remote_applied: false,
            remote_stream_present: false,
            app_flag: AppState::Stable,
        }
    }

    /// Whether the local signaling text is available for display: the
    /// initiator's offer once `LocalReady`, or the responder's answer
    /// once connected.
    pub open spec fn local_text_available(self) -> bool {
        self.state is LocalReady || (self.state is Connected && self.role == Some(
            NegotiationRole::Responder,
        ))
    }

    /// The fields an accept attempt never touches.
    pub open spec fn same_attempt_data(a: Negotiator, b: Negotiator) -> bool {
        &&& a.media_option == b.media_option
        &&& a.has_connection == b.has_connection
        &&& a.local_stream == b.local_stream
        &&& a.tracks_attached == b.tracks_attached
        &&& a.observers_registered == b.observers_registered
        &&& a.gathering_complete == b.gathering_complete
        &&& a.local_description == b.local_description
        &&& a.remote_applied == b.remote_applied
        &&& a.remote_stream_present == b.remote_stream_present
        &&& a.app_flag == b.app_flag
    }

    /// What is left of a session whose attempt was abandoned: back to
    /// idle with the attempt's gathered data discarded, ready for a
    /// fresh start on the same configuration.
    pub open spec fn reset_attempt(pre: Negotiator) -> Negotiator {
        Negotiator {
            state: SessionState::Idle,
            phase: Phase::Inactive,
            role: None,
            local_stream: None,
            tracks_attached: false,
            observers_registered: false,
            gathering_complete: false,
            local_description: None,
            remote_description: None,
            app_flag: AppState::Stable,
            ..pre
        }
    }

    /// Where a failed platform step leaves the session: a responder
    /// attempt is abandoned back to idle so corrected remote text can
    /// be re-submitted, while an initiator session becomes terminally
    /// failed, with the application flag reset either way.
    pub open spec fn aborted(pre: Negotiator, err: NegotiationError) -> Negotiator {
        if pre.role matches Some(NegotiationRole::Responder) {
            Negotiator::reset_attempt(pre)
        } else {
            Negotiator {
                state: SessionState::Failed(err),
                phase: Phase::Inactive,
                app_flag: AppState::Stable,
                ..pre
            }
        }
    }

    /// The failure a media error means for the session.
    pub open spec fn media_failure_reason(me: MediaError) -> NegotiationError {
        match me {
            MediaError::Unavailable => NegotiationError::MediaUnavailable,
            MediaError::AcquisitionFailed => NegotiationError::MediaAcquisitionFailed,
        }
    }

    /// The transition table for platform outcomes: given the session
    /// and an event, the session afterwards and the next action for
    /// the event loop.  An outcome that does not belong to the step in
    /// flight is discarded unchanged.
    pub open spec fn step(pre: Negotiator, e: PlatformEvent) -> (Negotiator, NegotiatorAction) {
        match e {
            PlatformEvent::RemoteTrackArrived => (
                Negotiator { remote_stream_present: true, ..pre },
                NegotiatorAction::NoAction,
            ),
            PlatformEvent::MediaReady(ms) => if pre.phase is RequestingMedia {
                (
                    Negotiator { local_stream: Some(ms), phase: Phase::AttachingTracks, ..pre },
                    NegotiatorAction::AttachLocalTracks,
                )
            } else {
                (pre, NegotiatorAction::NoAction)
            },
            PlatformEvent::MediaFailed(me) => if pre.phase is RequestingMedia {
                (
                    Negotiator::aborted(pre, Negotiator::media_failure_reason(me)),
                    NegotiatorAction::ReportFailure(Negotiator::media_failure_reason(me)),
                )
            } else {
                (pre, NegotiatorAction::NoAction)
            },
            PlatformEvent::TracksAttached => if pre.phase is AttachingTracks {
                (
                    Negotiator { tracks_attached: true, phase: Phase::RegisteringObservers, ..pre },
                    NegotiatorAction::RegisterObservers,
                )
            } else {
                (pre, NegotiatorAction::NoAction)
            },
            PlatformEvent::TrackAttachFailed => if pre.phase is AttachingTracks {
                (
                    Negotiator::aborted(pre, NegotiationError::MediaAcquisitionFailed),
                    NegotiatorAction::ReportFailure(NegotiationError::MediaAcquisitionFailed),
                )
            } else {
                (pre, NegotiatorAction::NoAction)
            },
            PlatformEvent::ObserversRegistered => if pre.phase is RegisteringObservers && pre.role
                is Some {
                if pre.role matches Some(NegotiationRole::Responder) {
                    (
                        Negotiator {
                            observers_registered: true,
                            phase: Phase::ApplyingRemote,
                            ..pre
                        },
                        NegotiatorAction::ApplyRemoteDescription,
                    )
                } else {
                    (
                        Negotiator {
                            observers_registered: true,
                            phase: Phase::CreatingDescription,
                            ..pre
                        },
                        NegotiatorAction::CreateOffer,
                    )
                }
            } else {
                (pre, NegotiatorAction::NoAction)
            },
            PlatformEvent::DescriptionCreated(p) => if pre.phase is CreatingDescription && pre.role
                is Some {
                (
                    Negotiator {
                        local_description: Some(
                            SessionDescription {
                                role: if pre.role matches Some(NegotiationRole::Responder) {
                                    DescriptionRole::Answer
                                } else {
                                    DescriptionRole::Offer
                                },
                                payload: p,
                            },
                        ),
                        phase: Phase::ApplyingLocal,
                        ..pre
                    },
                    NegotiatorAction::ApplyLocalDescription,
                )
            } else {
                (pre, NegotiatorAction::NoAction)
            },
            PlatformEvent::DescriptionRejected => if pre.phase is CreatingDescription {
                (
                    Negotiator::aborted(pre, NegotiationError::DescriptionCreationFailed),
                    NegotiatorAction::ReportFailure(NegotiationError::DescriptionCreationFailed),
                )
            } else {
                (pre, NegotiatorAction::NoAction)
            },
            PlatformEvent::LocalApplied => if pre.phase is ApplyingLocal {
                (
                    Negotiator { phase: Phase::Gathering, ..pre },
                    NegotiatorAction::AwaitGathering,
                )
            } else {
                (pre, NegotiatorAction::NoAction)
            },
            PlatformEvent::LocalRejected => if pre.phase is ApplyingLocal {
                (
                    Negotiator::aborted(pre, NegotiationError::DescriptionApplyFailed),
                    NegotiatorAction::ReportFailure(NegotiationError::DescriptionApplyFailed),
                )
            } else {
                (pre, NegotiatorAction::NoAction)
            },
            PlatformEvent::RemoteApplied => if pre.phase is ApplyingRemote {
                (
                    Negotiator { remote_applied: true, phase: Phase::CreatingDescription, ..pre },
                    NegotiatorAction::CreateAnswer,
                )
            } else if pre.phase is ApplyingAnswer {
                (
                    Negotiator {
                        remote_applied: true,
                        state: SessionState::Connected,
                        phase: Phase::Inactive,
                        app_flag: AppState::Connected,
                        ..pre
                    },
                    NegotiatorAction::ClearDisplays,
                )
            } else {
                (pre, NegotiatorAction::NoAction)
            },
            PlatformEvent::RemoteRejected => if pre.phase is ApplyingRemote {
                (
                    Negotiator::aborted(pre, NegotiationError::DescriptionApplyFailed),
                    NegotiatorAction::ReportFailure(NegotiationError::DescriptionApplyFailed),
                )
            } else if pre.phase is ApplyingAnswer {
                (
                    Negotiator {
                        state: SessionState::AwaitingRemoteInput,
                        phase: Phase::Inactive,
                        remote_description: None,
                        ..pre
                    },
                    NegotiatorAction::ReportFailure(NegotiationError::DescriptionApplyFailed),
                )
            } else {
                (pre, NegotiatorAction::NoAction)
            },
            PlatformEvent::GatheringComplete => if pre.phase is Gathering {
                if pre.role matches Some(NegotiationRole::Responder) {
                    (
                        Negotiator {
                            gathering_complete: true,
                            state: SessionState::Connected,
                            phase: Phase::Inactive,
                            app_flag: AppState::Connected,
                            ..pre
                        },
                        NegotiatorAction::DeliverAnswerText,
                    )
                } else {
                    (
                        Negotiator {
                            gathering_complete: true,
                            state: SessionState::LocalReady,
                            phase: Phase::Inactive,
                            ..pre
                        },
                        NegotiatorAction::PublishLocalText,
                    )
                }
            } else {
                (pre, NegotiatorAction::NoAction)
            },
            PlatformEvent::GatheringTimedOut => if pre.phase is Gathering {
                (
                    Negotiator::aborted(pre, NegotiationError::GatheringTimeout),
                    NegotiatorAction::ReportFailure(NegotiationError::GatheringTimeout),
                )
            } else {
                (pre, NegotiatorAction::NoAction)
            },
        }
    }

    /// Law: the transition table keeps a session well formed.
    pub proof fn lemma_step_preserves_wf(pre: Negotiator, e: PlatformEvent)
        requires
            pre.wf(),
        ensures
            Negotiator::step(pre, e).0.wf(),
    {
        match e {
            PlatformEvent::MediaReady(ms) => {},
            PlatformEvent::MediaFailed(me) => {},
            PlatformEvent::TracksAttached => {},
            PlatformEvent::TrackAttachFailed => {},
            PlatformEvent::ObserversRegistered => {},
            PlatformEvent::DescriptionCreated(p) => {},
            PlatformEvent::DescriptionRejected => {},
            PlatformEvent::LocalApplied => {},
            PlatformEvent::LocalRejected => {},
            PlatformEvent::RemoteApplied => {},
            PlatformEvent::RemoteRejected => {},
            PlatformEvent::GatheringComplete => {},
            PlatformEvent::GatheringTimedOut => {},
            PlatformEvent::RemoteTrackArrived => {},
        }
    }

    /// Law: the local description is never available for display
    /// before the platform has signalled that candidate gathering is
    /// complete.
    pub proof fn lemma_no_text_before_gathering_done(n: Negotiator)
        requires
            n.wf(),
            !n.gathering_complete,
        ensures
            !n.local_text_available(),
            n.state !is LocalReady,
    {
    }

    /// Law: the initiator's gathering completion is exactly the
    /// session state machine's offer-ready transition — it takes
    /// `AwaitingLocalReady` to `LocalReady`.
    pub proof fn lemma_gathering_completion_is_offer_ready(pre: Negotiator)
        requires
            pre.wf(),
            pre.phase is Gathering,
            pre.role matches Some(NegotiationRole::Initiator),
        ensures
            Negotiator::step(pre, PlatformEvent::GatheringComplete).0.state == session_step(
                pre.state,
                SessionEvent::OfferReady,
            ),
    {
    }

    /// Law: the responder's gathering completion is exactly the
    /// session state machine's remote-applied transition — it takes
    /// `Negotiating` to `Connected`.
    pub proof fn lemma_gathering_completion_connects_responder(pre: Negotiator)
        requires
            pre.wf(),
            pre.phase is Gathering,
            pre.role matches Some(NegotiationRole::Responder),
        ensures
            Negotiator::step(pre, PlatformEvent::GatheringComplete).0.state == session_step(
                pre.state,
                SessionEvent::RemoteApplied,
            ),
    {
    }

    /// Law: the initiator's answer application is exactly the session
    /// state machine's remote-applied transition — it takes
    /// `Negotiating` to `Connected`.
    pub proof fn lemma_answer_application_connects(pre: Negotiator)
        requires
            pre.wf(),
            pre.phase is ApplyingAnswer,
        ensures
            Negotiator::step(pre, PlatformEvent::RemoteApplied).0.state == session_step(
                pre.state,
                SessionEvent::RemoteApplied,
            ),
    {
    }

    /// Abandon the attempt after a failed platform step: responder
    /// back to idle, initiator to terminal failure, flag reset.
    fn abort_attempt(&mut self, err: NegotiationError) -> (r: NegotiatorAction)
        ensures
            *final(self) == Negotiator::aborted(*old(self), err),
            r == NegotiatorAction::ReportFailure(err),
    {
        let responder = match self.role {
            Some(NegotiationRole::Responder) => true,
            _ => false,
        };
        if responder {
            self.state = SessionState::Idle;
            self.phase = Phase::Inactive;
            self.role = None;
            self.local_stream = None;
            self.tracks_attached = false;
            self.observers_registered = false;
            self.gathering_complete = false;
            self.local_description = None;
            self.remote_description = None;
            self.app_flag = AppState::Stable;
        } else {
            self.state = SessionState::Failed(err);
            self.phase = Phase::Inactive;
            self.app_flag = AppState::Stable;
        }
        NegotiatorAction::ReportFailure(err)
    }

    /// Start this session as the initiator.
    ///
    /// Requires an existing connection handle: without one the call
    /// fails fast, the application flag falls back to `Stable`, and
    /// the session state is left untouched.  From any state but idle
    /// the call is rejected outright.  On success the session enters
    /// `AwaitingLocalReady` and the event loop must request media.
    pub fn start_as_initiator(&mut self) -> (r: Result<NegotiatorAction, NegotiationError>)
        requires
            old(self).wf(),
        ensures
            final(self).wf(),
            old(self).state !is Idle ==> r == Err::<NegotiatorAction, NegotiationError>(
                NegotiationError::SessionActive,
            ) && *final(self) == *old(self),
            old(self).state is Idle && !old(self).has_connection ==> r == Err::<
                NegotiatorAction,
                NegotiationError,
            >(NegotiationError::NoConnection) && *final(self) == (Negotiator {
                app_flag: AppState::Stable,
                ..*old(self)
            }),
            old(self).state is Idle && old(self).has_connection ==> r == Ok::<
                NegotiatorAction,
                NegotiationError,
            >(NegotiatorAction::RequestMedia) && *final(self) == (Negotiator {
                state: SessionState::AwaitingLocalReady,
                phase: Phase::RequestingMedia,
                role: Some(NegotiationRole::Initiator),
                ..*old(self)
            }),
    {
        let idle = match self.state {
            SessionState::Idle => true,
            _ => false,
        };
        if !idle {
            return Err(NegotiationError::SessionActive);
        }
        if !self.has_connection {
            self.app_flag = AppState::Stable;
            return Err(NegotiationError::NoConnection);
        }
        self.state = SessionState::AwaitingLocalReady;
        self.phase = Phase::RequestingMedia;
        self.role = Some(NegotiationRole::Initiator);
        Ok(NegotiatorAction::RequestMedia)
    }

    /// Move from the displayed local text to awaiting the pasted
    /// remote text.
    pub fn advance_to_remote_input(&mut self) -> (r: Result<(), NegotiationError>)
        requires
            old(self).wf(),
        ensures
            final(self).wf(),
            old(self).state is LocalReady ==> r == Ok::<(), NegotiationError>(()) && *final(self)
                == (Negotiator { state: SessionState::AwaitingRemoteInput, ..*old(self) }),
            old(self).state !is LocalReady ==> r == Err::<(), NegotiationError>(
                NegotiationError::SessionActive,
            ) && *final(self) == *old(self),
    {
        let ready = match self.state {
            SessionState::LocalReady => true,
            _ => false,
        };
        if !ready {
            return Err(NegotiationError::SessionActive);
        }
        self.state = SessionState::AwaitingRemoteInput;
        Ok(())
    }

    /// Submit remote signaling text to this session.
    ///
    /// Blank text is a local validation error: the call reports
    /// `EmptyInput` and changes nothing at all.  Once a remote
    /// description has been applied — in particular once the session
    /// is connected — a further submission is rejected with
    /// `RemoteAlreadyApplied` and changes nothing.  Without a
    /// connection handle the call fails with `NoConnection` and only
    /// resets the application flag.  Otherwise, text that decodes is
    /// stored and the session enters `Negotiating`: a waiting
    /// initiator goes on to apply the answer, an idle session takes
    /// the responder role and starts building its answer; text that
    /// does not decode is reported and the state is left unchanged for
    /// a corrected re-submission.
    pub fn accept_as_responder(&mut self, text: &Vec<u8>) -> (r: Result<
        NegotiatorAction,
        NegotiationError,
    >)
        requires
            old(self).wf(),
        ensures
            final(self).wf(),
            is_blank(text@) ==> {
                &&& r == Err::<NegotiatorAction, NegotiationError>(NegotiationError::EmptyInput)
                &&& *final(self) == *old(self)
            },
            !is_blank(text@) && (old(self).state is Connected || old(self).remote_applied) ==> {
                &&& r == Err::<NegotiatorAction, NegotiationError>(
                    NegotiationError::RemoteAlreadyApplied,
                )
                &&& *final(self) == *old(self)
            },
            !is_blank(text@) && !(old(self).state is Connected || old(self).remote_applied)
                && !old(self).has_connection ==> {
                &&& r == Err::<NegotiatorAction, NegotiationError>(NegotiationError::NoConnection)
                &&& *final(self) == (Negotiator { app_flag: AppState::Stable, ..*old(self) })
            },
            !is_blank(text@) && !(old(self).state is Connected || old(self).remote_applied)
                && old(self).has_connection
                && !(old(self).state is AwaitingRemoteInput || old(self).state is Idle) ==> {
                &&& r == Err::<NegotiatorAction, NegotiationError>(NegotiationError::SessionActive)
                &&& *final(self) == *old(self)
            },
            !is_blank(text@) && !(old(self).state is Connected || old(self).remote_applied)
                && old(self).has_connection
                && (old(self).state is AwaitingRemoteInput || old(self).state is Idle)
                && !well_formed(text@) ==> {
                &&& r == Err::<NegotiatorAction, NegotiationError>(NegotiationError::MalformedInput)
                &&& *final(self) == *old(self)
            },
            !is_blank(text@) && !old(self).remote_applied && old(self).has_connection
                && old(self).state is AwaitingRemoteInput && well_formed(text@) ==> {
                &&& r == Ok::<NegotiatorAction, NegotiationError>(
                    NegotiatorAction::ApplyRemoteDescription,
                )
                &&& final(self).state is Negotiating
                &&& final(self).phase is ApplyingAnswer
                &&& final(self).role == old(self).role
                &&& (final(self).remote_description matches Some(d) && d.role == parsed_role(text@)
                    && d.payload@ == parsed_payload(text@))
                &&& Negotiator::same_attempt_data(*old(self), *final(self))
            },
            !is_blank(text@) && !old(self).remote_applied && old(self).has_connection
                && old(self).state is Idle && well_formed(text@) ==> {
                &&& r == Ok::<NegotiatorAction, NegotiationError>(
                    NegotiatorAction::RegisterObservers,
                )
                &&& final(self).state is Negotiating
                &&& final(self).phase is RegisteringObservers
                &&& final(self).role matches Some(NegotiationRole::Responder)
                &&& (final(self).remote_description matches Some(d) && d.role == parsed_role(text@)
                    && d.payload@ == parsed_payload(text@))
                &&& Negotiator::same_attempt_data(*old(self), *final(self))
            },
    {
        if is_blank_text(text) {
            return Err(NegotiationError::EmptyInput);
        }
        let connected = match self.state {
            SessionState::Connected => true,
            _ => false,
        };
        if connected || self.remote_applied {
            return Err(NegotiationError::RemoteAlreadyApplied);
        }
        if !self.has_connection {
            self.app_flag = AppState::Stable;
            return Err(NegotiationError::NoConnection);
        }
        let awaiting = match self.state {
            SessionState::AwaitingRemoteInput => true,
            _ => false,
        };
        let idle = match self.state {
            SessionState::Idle => true,
            _ => false,
        };
        if !awaiting && !idle {
            return Err(NegotiationError::SessionActive);
        }
        let desc = match decode(text) {
            Ok(d) => d,
            Err(_) => {
                return Err(NegotiationError::MalformedInput);
            },
        };
        self.remote_description = Some(desc);
        self.state = SessionState::Negotiating;
        if awaiting {
            self.phase = Phase::ApplyingAnswer;
            Ok(NegotiatorAction::ApplyRemoteDescription)
        } else {
            self.role = Some(NegotiationRole::Responder);
            self.phase = Phase::RegisteringObservers;
            Ok(NegotiatorAction::RegisterObservers)
        }
    }

    /// Feed the outcome of a platform step back into the session.
    pub fn on_event(&mut self, e: PlatformEvent) -> (r: NegotiatorAction)
        requires
            old(self).wf(),
        ensures
            *final(self) == Negotiator::step(*old(self), e).0,
            r == Negotiator::step(*old(self), e).1,
            final(self).wf(),
    {
        proof {
            Negotiator::lemma_step_preserves_wf(*old(self), e);
        }
        match e {
            PlatformEvent::RemoteTrackArrived => {
                self.remote_stream_present = true;
                NegotiatorAction::NoAction
            },
            PlatformEvent::MediaReady(ms) => {
                match self.phase {
                    Phase::RequestingMedia => {
                        self.local_stream = Some(ms);
                        self.phase = Phase::AttachingTracks;
                        NegotiatorAction::AttachLocalTracks
                    },
                    _ => NegotiatorAction::NoAction,
                }
            },
            PlatformEvent::MediaFailed(me) => {
                match self.phase {
                    Phase::RequestingMedia => {
                        let err = match me {
                            MediaError::Unavailable => NegotiationError::MediaUnavailable,
                            MediaError::AcquisitionFailed => NegotiationError::MediaAcquisitionFailed,
                        };
                        self.abort_attempt(err)
                    },
                    _ => NegotiatorAction::NoAction,
                }
            },
            PlatformEvent::TracksAttached => {
                match self.phase {
                    Phase::AttachingTracks => {
                        self.tracks_attached = true;
                        self.phase = Phase::RegisteringObservers;
                        NegotiatorAction::RegisterObservers
                    },
                    _ => NegotiatorAction::NoAction,
                }
            },
            PlatformEvent::TrackAttachFailed => {
                match self.phase {
                    Phase::AttachingTracks => {
                        self.abort_attempt(NegotiationError::MediaAcquisitionFailed)
                    },
                    _ => NegotiatorAction::NoAction,
                }
            },
            PlatformEvent::ObserversRegistered => {
                match self.phase {
                    Phase::RegisteringObservers => {
                        match self.role {
                            Some(NegotiationRole::Responder) => {
                                self.observers_registered = true;
                                self.phase = Phase::ApplyingRemote;
                                NegotiatorAction::ApplyRemoteDescription
                            },
                            Some(NegotiationRole::Initiator) => {
                                self.observers_registered = true;
                                self.phase = Phase::CreatingDescription;
                                NegotiatorAction::CreateOffer
                            },
                            None => NegotiatorAction::NoAction,
                        }
                    },
                    _ => NegotiatorAction::NoAction,
                }
            },
            PlatformEvent::DescriptionCreated(p) => {
                match self.phase {
                    Phase::CreatingDescription => {
                        match self.role {
                            Some(NegotiationRole::Responder) => {
                                self.local_description = Some(
                                    SessionDescription {
                                        role: DescriptionRole::Answer,
                                        payload: p,
                                    },
                                );
                                self.phase = Phase::ApplyingLocal;
                                NegotiatorAction::ApplyLocalDescription
                            },
                            Some(NegotiationRole::Initiator) => {
                                self.local_description = Some(
                                    SessionDescription { role: DescriptionRole::Offer, payload: p },
                                );
                                self.phase = Phase::ApplyingLocal;
                                NegotiatorAction::ApplyLocalDescription
                            },
                            None => NegotiatorAction::NoAction,
                        }
                    },
                    _ => NegotiatorAction::NoAction,
                }
            },
            PlatformEvent::DescriptionRejected => {
                match self.phase {
                    Phase::CreatingDescription => {
                        self.abort_attempt(NegotiationError::DescriptionCreationFailed)
                    },
                    _ => NegotiatorAction::NoAction,
                }
            },
            PlatformEvent::LocalApplied => {
                match self.phase {
                    Phase::ApplyingLocal => {
                        self.phase = Phase::Gathering;
                        NegotiatorAction::AwaitGathering
                    },
                    _ => NegotiatorAction::NoAction,
                }
            },
            PlatformEvent::LocalRejected => {
                match self.phase {
                    Phase::ApplyingLocal => {
                        self.abort_attempt(NegotiationError::DescriptionApplyFailed)
                    },
                    _ => NegotiatorAction::NoAction,
                }
            },
            PlatformEvent::RemoteApplied => {
                match self.phase {
                    Phase::ApplyingRemote => {
                        self.remote_applied = true;
                        self.phase = Phase::CreatingDescription;
                        NegotiatorAction::CreateAnswer
                    },
                    Phase::ApplyingAnswer => {
                        self.remote_applied = true;
                        self.state = SessionState::Connected;
                        self.phase = Phase::Inactive;
                        self.app_flag = AppState::Connected;
                        NegotiatorAction::ClearDisplays
                    },
                    _ => NegotiatorAction::NoAction,
                }
            },
            PlatformEvent::RemoteRejected => {
                match self.phase {
                    Phase::ApplyingRemote => {
                        self.abort_attempt(NegotiationError::DescriptionApplyFailed)
                    },
                    Phase::ApplyingAnswer => {
                        self.state = SessionState::AwaitingRemoteInput;
                        self.phase = Phase::Inactive;
                        self.remote_description = None;
                        NegotiatorAction::ReportFailure(NegotiationError::DescriptionApplyFailed)
                    },
                    _ => NegotiatorAction::NoAction,
                }
            },
            PlatformEvent::GatheringComplete => {
                match self.phase {
                    Phase::Gathering => {
                        match self.role {
                            Some(NegotiationRole::Responder) => {
                                self.gathering_complete = true;
                                self.state = SessionState::Connected;
                                self.phase = Phase::Inactive;
                                self.app_flag = AppState::Connected;
                                NegotiatorAction::DeliverAnswerText
                            },
                            _ => {
                                self.gathering_complete = true;
                                self.state = SessionState::LocalReady;
                                self.phase = Phase::Inactive;
                                NegotiatorAction::PublishLocalText
                            },
                        }
                    },
                    _ => NegotiatorAction::NoAction,
                }
            },
            PlatformEvent::GatheringTimedOut => {
                match self.phase {
                    Phase::Gathering => {
                        self.abort_attempt(NegotiationError::GatheringTimeout)
                    },
                    _ => NegotiatorAction::NoAction,
                }
            },
        }
    }

    /// The local signaling text, if it is ready for display: the
    /// encoded offer once the initiator reaches `LocalReady`, the
    /// encoded answer once the responder connects, and nothing before
    /// gathering has completed.
    pub fn local_signaling_text(&self) -> (r: Option<Vec<u8>>)
        requires
            self.wf(),
        ensures
            r is Some <==> self.local_text_available(),
            self.local_text_available() ==> (r matches Some(t) && self.local_description matches
                Some(d) && t@ == encoded(d.role, d.payload@)),
            r is Some ==> self.gathering_complete,
    {
        let available = match self.state {
            SessionState::LocalReady => true,
            SessionState::Connected => match self.role {
                Some(NegotiationRole::Responder) => true,
                _ => false,
            },
            _ => false,
        };
        if available {
            match &self.local_description {
                Some(d) => Some(encode(d)),
                None => {
                    proof {
                        assert(false);
                    }
                    None
                },
            }
        } else {
            None
        }
    }
}

} // verus!
