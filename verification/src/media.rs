//! Local media acquisition.
//!
//! A negotiation attempt requests local capture tracks according to a
//! user-selected `MediaOption`.  The platform's capture call (and its
//! permission prompt) happens outside the library; its outcome is
//! handed in as a `MediaGrant`, and `acquire` turns option and outcome
//! into either a stream whose track set matches exactly the requested
//! modalities, or an error.

use vstd::prelude::*;

verus! {

/// Which local media streams a negotiation attempt requests.
#[derive(Clone, Copy, PartialEq, Eq, Structural, Debug)]
pub enum MediaOption {
    /// Request no capture tracks at all.
    NoMedia,
    /// Request an audio track only.
    AudioOnly,
    /// Request a video track only.
    VideoOnly,
    /// Request both an audio and a video track.
    AudioVideo,
}

/// The set of capture tracks attached to the outgoing connection.
#[derive(Clone, Copy, PartialEq, Eq, Structural, Debug)]
pub struct LocalMediaStream {
    /// Whether the stream carries an audio track.
    pub has_audio: bool,
    /// Whether the stream carries a video track.
    pub has_video: bool,
}

/// Failure of the platform capture call.
#[derive(Clone, Copy, PartialEq, Eq, Structural, Debug)]
pub enum MediaError {
    /// The device is absent or the user denied access.
    Unavailable,
    /// The platform failed while setting up capture.
    AcquisitionFailed,
}

/// Outcome of the platform's capture request, as reported by the
/// surrounding event loop.
#[derive(Clone, Copy, PartialEq, Eq, Structural, Debug)]
pub enum MediaGrant {
    /// The requested devices were opened.
    Granted,
    /// Access was denied or no device was present.
    Denied,
    /// The platform failed for another reason.
    PlatformFailure,
}

/// Whether the option asks for an audio track.
pub open spec fn wants_audio(option: MediaOption) -> bool {
    option is AudioOnly || option is AudioVideo
}

/// Whether the option asks for a video track.
pub open spec fn wants_video(option: MediaOption) -> bool {
    option is VideoOnly || option is AudioVideo
}

/// Turn the selected option and the platform's outcome into the local
/// stream for this attempt.
///
/// An option that selects no media yields an empty stream outright and
/// never an error; otherwise the platform outcome decides, and a
/// granted request yields a stream whose track set matches the option
/// exactly.
pub fn acquire(option: MediaOption, grant: MediaGrant) -> (r: Result<
    LocalMediaStream,
    MediaError,
>)
    ensures
        option is NoMedia ==> r == Ok::<LocalMediaStream, MediaError>(
            LocalMediaStream { has_audio: false, has_video: false },
        ),
        option !is NoMedia && grant is Granted ==> r == Ok::<LocalMediaStream, MediaError>(
            LocalMediaStream { has_audio: wants_audio(option), has_video: wants_video(option) },
        ),
        option !is NoMedia && grant is Denied ==> r == Err::<LocalMediaStream, MediaError>(
            MediaError::Unavailable,
        ),
        option !is NoMedia && grant is PlatformFailure ==> r == Err::<
            LocalMediaStream,
            MediaError,
        >(MediaError::AcquisitionFailed),
        r matches Ok(s) ==> s.has_audio == wants_audio(option) && s.has_video == wants_video(
            option,
        ),
{
    match option {
        MediaOption::NoMedia => Ok(LocalMediaStream { has_audio: false, has_video: false }),
        _ => match grant {
            MediaGrant::Granted => Ok(
                LocalMediaStream {
                    has_audio: matches!(option, MediaOption::AudioOnly | MediaOption::AudioVideo),
                    has_video: matches!(option, MediaOption::VideoOnly | MediaOption::AudioVideo),
                },
            ),
            MediaGrant::Denied => Err(MediaError::Unavailable),
            MediaGrant::PlatformFailure => Err(MediaError::AcquisitionFailed),
        },
    }
}

} // verus!
