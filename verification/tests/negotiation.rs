use peerlink::media::LocalMediaStream;
use peerlink::media::MediaError;
use peerlink::media::MediaOption;
use peerlink::negotiator::AppState;
use peerlink::negotiator::Negotiator;
use peerlink::negotiator::NegotiatorAction;
use peerlink::negotiator::Phase;
use peerlink::negotiator::PlatformEvent;
use peerlink::session::NegotiationError;
use peerlink::session::NegotiationRole;
use peerlink::session::SessionState;

/// Drive a freshly started initiator session through the platform
/// sequence up to (but not including) gathering completion.
fn drive_initiator_to_gathering(n: &mut Negotiator, offer_payload: &[u8]) {
    assert_eq!(n.start_as_initiator(), Ok(NegotiatorAction::RequestMedia));
    assert_eq!(n.state, SessionState::AwaitingLocalReady);
    let a = n.on_event(PlatformEvent::MediaReady(LocalMediaStream {
        has_audio: true,
        has_video: true,
    }));
    assert_eq!(a, NegotiatorAction::AttachLocalTracks);
    let a = n.on_event(PlatformEvent::TracksAttached);
    assert_eq!(a, NegotiatorAction::RegisterObservers);
    let a = n.on_event(PlatformEvent::ObserversRegistered);
    assert_eq!(a, NegotiatorAction::CreateOffer);
    let a = n.on_event(PlatformEvent::DescriptionCreated(offer_payload.to_vec()));
    assert_eq!(a, NegotiatorAction::ApplyLocalDescription);
    let a = n.on_event(PlatformEvent::LocalApplied);
    assert_eq!(a, NegotiatorAction::AwaitGathering);
}

/// Drive a responder session that just accepted an offer through the
/// platform sequence to connection, returning its answer text.
fn drive_responder_to_connected(n: &mut Negotiator, answer_payload: &[u8]) -> Vec<u8> {
    let a = n.on_event(PlatformEvent::ObserversRegistered);
    assert_eq!(a, NegotiatorAction::ApplyRemoteDescription);
    let a = n.on_event(PlatformEvent::RemoteApplied);
    assert_eq!(a, NegotiatorAction::CreateAnswer);
    let a = n.on_event(PlatformEvent::DescriptionCreated(answer_payload.to_vec()));
    assert_eq!(a, NegotiatorAction::ApplyLocalDescription);
    let a = n.on_event(PlatformEvent::LocalApplied);
    assert_eq!(a, NegotiatorAction::AwaitGathering);
    let a = n.on_event(PlatformEvent::GatheringComplete);
    assert_eq!(a, NegotiatorAction::DeliverAnswerText);
    assert_eq!(n.state, SessionState::Connected);
    n.local_signaling_text().unwrap()
}

#[test]
fn start_without_connection_leaves_idle_and_flag_stable() {
    let mut n = Negotiator::new(MediaOption::AudioVideo, false);
    assert_eq!(n.start_as_initiator(), Err(NegotiationError::NoConnection));
    assert_eq!(n.state, SessionState::Idle);
    assert_eq!(n.app_flag, AppState::Stable);
}

#[test]
fn local_text_is_unavailable_until_gathering_completes() {
    let mut n = Negotiator::new(MediaOption::AudioVideo, true);
    assert!(n.local_signaling_text().is_none());
    drive_initiator_to_gathering(&mut n, b"offer body");
    // Gathering is still in progress: nothing to display yet.
    assert!(!n.gathering_complete);
    assert!(n.local_signaling_text().is_none());
    assert_ne!(n.state, SessionState::LocalReady);
    let a = n.on_event(PlatformEvent::GatheringComplete);
    assert_eq!(a, NegotiatorAction::PublishLocalText);
    assert_eq!(n.state, SessionState::LocalReady);
    assert_eq!(n.local_signaling_text().unwrap(), b"offer\noffer body".to_vec());
}

#[test]
fn two_sessions_connect_through_exchanged_text() {
    // First session: initiator with audio and video, up to its
    // displayed offer text.
    let mut a = Negotiator::new(MediaOption::AudioVideo, true);
    drive_initiator_to_gathering(&mut a, b"offer body");
    a.on_event(PlatformEvent::GatheringComplete);
    assert_eq!(a.state, SessionState::LocalReady);
    let offer_text = a.local_signaling_text().unwrap();
    assert!(!offer_text.is_empty());

    // Second session: responder fed the first session's text.
    let mut b = Negotiator::new(MediaOption::AudioVideo, true);
    assert_eq!(
        b.accept_as_responder(&offer_text),
        Ok(NegotiatorAction::RegisterObservers)
    );
    assert_eq!(b.state, SessionState::Negotiating);
    assert_eq!(b.role, Some(NegotiationRole::Responder));
    let answer_text = drive_responder_to_connected(&mut b, b"answer body");
    assert_eq!(b.app_flag, AppState::Connected);
    assert_eq!(answer_text, b"answer\nanswer body".to_vec());

    // The answer comes back to the first session.
    assert_eq!(a.advance_to_remote_input(), Ok(()));
    assert_eq!(a.state, SessionState::AwaitingRemoteInput);
    assert_eq!(
        a.accept_as_responder(&answer_text),
        Ok(NegotiatorAction::ApplyRemoteDescription)
    );
    assert_eq!(a.state, SessionState::Negotiating);
    let act = a.on_event(PlatformEvent::RemoteApplied);
    assert_eq!(act, NegotiatorAction::ClearDisplays);
    assert_eq!(a.state, SessionState::Connected);
    assert_eq!(a.app_flag, AppState::Connected);
    // The initiator's displayed text is cleared once connected.
    assert!(a.local_signaling_text().is_none());
}

#[test]
fn empty_remote_text_changes_nothing() {
    let mut n = Negotiator::new(MediaOption::AudioVideo, true);
    drive_initiator_to_gathering(&mut n, b"offer body");
    n.on_event(PlatformEvent::GatheringComplete);
    n.advance_to_remote_input().unwrap();
    let before = n.clone();
    assert_eq!(
        n.accept_as_responder(&Vec::new()),
        Err(NegotiationError::EmptyInput)
    );
    assert_eq!(n.state, SessionState::AwaitingRemoteInput);
    assert_eq!(n.state, before.state);
    assert_eq!(n.phase, before.phase);
    assert_eq!(n.app_flag, before.app_flag);
    assert_eq!(n.remote_description, before.remote_description);
    // Whitespace-only input is the same user error.
    assert_eq!(
        n.accept_as_responder(&b" \n\t ".to_vec()),
        Err(NegotiationError::EmptyInput)
    );
    assert_eq!(n.state, SessionState::AwaitingRemoteInput);
}

#[test]
fn malformed_remote_text_reports_and_keeps_state() {
    let mut n = Negotiator::new(MediaOption::AudioVideo, true);
    drive_initiator_to_gathering(&mut n, b"offer body");
    n.on_event(PlatformEvent::GatheringComplete);
    n.advance_to_remote_input().unwrap();
    assert_eq!(
        n.accept_as_responder(&b"not signaling text".to_vec()),
        Err(NegotiationError::MalformedInput)
    );
    assert_eq!(n.state, SessionState::AwaitingRemoteInput);
}

#[test]
fn second_accept_after_connected_is_rejected() {
    let mut a = Negotiator::new(MediaOption::AudioVideo, true);
    drive_initiator_to_gathering(&mut a, b"offer body");
    a.on_event(PlatformEvent::GatheringComplete);
    let mut b = Negotiator::new(MediaOption::AudioVideo, true);
    b.accept_as_responder(&a.local_signaling_text().unwrap()).unwrap();
    let answer_text = drive_responder_to_connected(&mut b, b"answer body");
    a.advance_to_remote_input().unwrap();
    a.accept_as_responder(&answer_text).unwrap();
    a.on_event(PlatformEvent::RemoteApplied);
    assert_eq!(a.state, SessionState::Connected);
    // A second remote description must not be applied.
    assert_eq!(
        a.accept_as_responder(&answer_text),
        Err(NegotiationError::RemoteAlreadyApplied)
    );
    assert_eq!(a.state, SessionState::Connected);
    assert_eq!(
        b.accept_as_responder(&answer_text),
        Err(NegotiationError::RemoteAlreadyApplied)
    );
    assert_eq!(b.state, SessionState::Connected);
}

#[test]
fn accept_without_connection_resets_flag_only() {
    let mut n = Negotiator::new(MediaOption::AudioVideo, false);
    assert_eq!(
        n.accept_as_responder(&b"offer\nbody".to_vec()),
        Err(NegotiationError::NoConnection)
    );
    assert_eq!(n.state, SessionState::Idle);
    assert_eq!(n.app_flag, AppState::Stable);
}

#[test]
fn media_denied_fails_the_initiator_session() {
    let mut n = Negotiator::new(MediaOption::AudioOnly, true);
    n.start_as_initiator().unwrap();
    let a = n.on_event(PlatformEvent::MediaFailed(MediaError::Unavailable));
    assert_eq!(
        a,
        NegotiatorAction::ReportFailure(NegotiationError::MediaUnavailable)
    );
    assert_eq!(
        n.state,
        SessionState::Failed(NegotiationError::MediaUnavailable)
    );
    assert_eq!(n.app_flag, AppState::Stable);
    // A failed session is discarded, never restarted in place.
    assert_eq!(n.start_as_initiator(), Err(NegotiationError::SessionActive));
}

#[test]
fn attach_failure_fails_the_initiator_session() {
    let mut n = Negotiator::new(MediaOption::AudioVideo, true);
    n.start_as_initiator().unwrap();
    n.on_event(PlatformEvent::MediaReady(LocalMediaStream {
        has_audio: true,
        has_video: true,
    }));
    let a = n.on_event(PlatformEvent::TrackAttachFailed);
    assert_eq!(
        a,
        NegotiatorAction::ReportFailure(NegotiationError::MediaAcquisitionFailed)
    );
    assert_eq!(
        n.state,
        SessionState::Failed(NegotiationError::MediaAcquisitionFailed)
    );
}

#[test]
fn description_rejection_fails_the_initiator_session() {
    let mut n = Negotiator::new(MediaOption::AudioVideo, true);
    n.start_as_initiator().unwrap();
    n.on_event(PlatformEvent::MediaReady(LocalMediaStream {
        has_audio: true,
        has_video: true,
    }));
    n.on_event(PlatformEvent::TracksAttached);
    n.on_event(PlatformEvent::ObserversRegistered);
    let a = n.on_event(PlatformEvent::DescriptionRejected);
    assert_eq!(
        a,
        NegotiatorAction::ReportFailure(NegotiationError::DescriptionCreationFailed)
    );
    assert_eq!(
        n.state,
        SessionState::Failed(NegotiationError::DescriptionCreationFailed)
    );
}

#[test]
fn gathering_timeout_fails_the_initiator_session() {
    let mut n = Negotiator::new(MediaOption::AudioVideo, true);
    drive_initiator_to_gathering(&mut n, b"offer body");
    let a = n.on_event(PlatformEvent::GatheringTimedOut);
    assert_eq!(
        a,
        NegotiatorAction::ReportFailure(NegotiationError::GatheringTimeout)
    );
    assert_eq!(
        n.state,
        SessionState::Failed(NegotiationError::GatheringTimeout)
    );
    assert_eq!(n.app_flag, AppState::Stable);
}

#[test]
fn responder_failure_returns_to_idle_for_resubmission() {
    let mut n = Negotiator::new(MediaOption::AudioVideo, true);
    n.accept_as_responder(&b"offer\nbody".to_vec()).unwrap();
    n.on_event(PlatformEvent::ObserversRegistered);
    let a = n.on_event(PlatformEvent::RemoteRejected);
    assert_eq!(
        a,
        NegotiatorAction::ReportFailure(NegotiationError::DescriptionApplyFailed)
    );
    assert_eq!(n.state, SessionState::Idle);
    assert_eq!(n.role, None);
    // Corrected text can be submitted again.
    assert_eq!(
        n.accept_as_responder(&b"offer\nbody".to_vec()),
        Ok(NegotiatorAction::RegisterObservers)
    );
}

#[test]
fn rejected_answer_returns_to_awaiting_remote_input() {
    let mut n = Negotiator::new(MediaOption::AudioVideo, true);
    drive_initiator_to_gathering(&mut n, b"offer body");
    n.on_event(PlatformEvent::GatheringComplete);
    n.advance_to_remote_input().unwrap();
    n.accept_as_responder(&b"answer\nbody".to_vec()).unwrap();
    let a = n.on_event(PlatformEvent::RemoteRejected);
    assert_eq!(
        a,
        NegotiatorAction::ReportFailure(NegotiationError::DescriptionApplyFailed)
    );
    assert_eq!(n.state, SessionState::AwaitingRemoteInput);
    assert_eq!(n.remote_description, None);
}

#[test]
fn stale_platform_outcomes_are_discarded() {
    let mut n = Negotiator::new(MediaOption::AudioVideo, true);
    let before = n.clone();
    assert_eq!(
        n.on_event(PlatformEvent::GatheringComplete),
        NegotiatorAction::NoAction
    );
    assert_eq!(
        n.on_event(PlatformEvent::DescriptionCreated(b"late".to_vec())),
        NegotiatorAction::NoAction
    );
    assert_eq!(n.state, before.state);
    assert_eq!(n.phase, before.phase);
    assert_eq!(n.local_description, before.local_description);
}

#[test]
fn inbound_track_populates_remote_stream() {
    let mut n = Negotiator::new(MediaOption::AudioVideo, true);
    assert!(!n.remote_stream_present);
    assert_eq!(
        n.on_event(PlatformEvent::RemoteTrackArrived),
        NegotiatorAction::NoAction
    );
    assert!(n.remote_stream_present);
}

#[test]
fn start_twice_is_rejected_while_in_flight() {
    let mut n = Negotiator::new(MediaOption::AudioVideo, true);
    n.start_as_initiator().unwrap();
    assert_eq!(n.start_as_initiator(), Err(NegotiationError::SessionActive));
    assert_eq!(n.state, SessionState::AwaitingLocalReady);
    assert_eq!(n.phase, Phase::RequestingMedia);
}
