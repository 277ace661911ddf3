//! The wire protocol between the session manager and the audio worker,
//! the error taxonomy, and the exact interpretation of each response.

use vstd::prelude::*;

verus! {

/// One request to the audio worker. Immutable once sent; the worker consumes
/// commands strictly in the order they were handed over and emits exactly one
/// response per command.
#[derive(Clone, Debug, PartialEq)]
pub enum AudioCommand {
    EnumerateRecordingDevices,
    InitRecordingSession(String),
    CloseRecordingSession,
    StartRecording,
    StopRecording,
    CloseThread,
}

/// The single message the worker returns for a given command.
///
/// Captured audio is carried as the raw bit pattern of each 32-bit sample;
/// the capture layer converts to and from its numeric sample type at the
/// boundary, so the payload moves through this core unchanged.
#[derive(Clone, Debug, PartialEq)]
pub enum AudioResponse {
    Success,
    Error(String),
    RecordingDeviceList(Vec<String>),
    AudioData(Vec<u32>),
}

/// The caller-facing error taxonomy. Every internal failure mode — closed
/// channel, failed spawn, malformed response — is converted into exactly one
/// of these kinds at the dispatcher boundary; nothing terminates the calling
/// context abnormally.
#[derive(Clone, Debug, PartialEq)]
pub enum RecorderError {
    /// The registry was still empty right after initialization: defensive,
    /// should not occur in normal operation.
    ThreadNotInitialized,
    /// The worker could not be spawned, or its command channel is closed.
    SendError(String),
    /// The response channel closed without a message: the worker died
    /// mid-request.
    ReceiveError(String),
    /// A worker-reported domain failure, or a protocol mismatch.
    AudioError(String),
    /// Reserved for operations requiring an active session.
    NoActiveRecording,
    /// The registry's lock could not be acquired.
    LockError(String),
}

/// One enumerated capture device. Device identity is the label itself: there
/// is no separate id namespace, so `device_id` always equals `label`.
#[derive(Clone, Debug, PartialEq)]
pub struct DeviceInfo {
    pub device_id: String,
    pub label: String,
}

/// The worker endpoint as the session manager sees it: a way to spawn the
/// one worker and its channel pair, to hand it a command, and to block for
/// its single response.
///
/// Implementations live outside this crate (the real audio thread, or a
/// scripted stand-in); no method carries a postcondition, so everything
/// proved about the session manager holds for every possible implementation.
pub trait WorkerLink: Sized {
    /// Spawn the worker and return the linked endpoint; the error carries
    /// the reason the spawn failed.
    fn spawn() -> Result<Self, String>;

    /// Hand one command to the worker; the error means the command channel
    /// is closed.
    fn send(&mut self, cmd: &AudioCommand) -> Result<(), String>;

    /// Block until the worker's single response to the last sent command
    /// arrives; the error means the response channel closed without one.
    fn recv(&mut self) -> Result<AudioResponse, String>;
}

/// The message reported whenever a well-formed response arrives in a variant
/// the issued command does not admit.
pub open spec fn unexpected_response_msg() -> Seq<char> {
    "Unexpected response"@
}

/// Holds when `r` reports a protocol mismatch: a well-formed response of the
/// wrong variant is never silently accepted, always surfaced as this error.
pub open spec fn is_unexpected_response<T>(r: Result<T, RecorderError>) -> bool {
    &&& r matches Err(e)
    &&& e matches RecorderError::AudioError(m)
    &&& m@ == unexpected_response_msg()
}

/// The exact result of an operation whose only success variant is
/// `Success`: init session, close session, start recording, close worker.
pub open spec fn ack_outcome(resp: AudioResponse, r: Result<(), RecorderError>) -> bool {
    match resp {
        AudioResponse::Success => r is Ok,
        AudioResponse::Error(m) => r == Result::<(), RecorderError>::Err(
            RecorderError::AudioError(m),
        ),
        _ => is_unexpected_response(r),
    }
}

/// Each device mirrors one label, in order: identity and label are both the
/// worker's label string.
pub open spec fn devices_mirror_labels(devs: Seq<DeviceInfo>, labels: Seq<String>) -> bool {
    &&& devs.len() == labels.len()
    &&& forall|i: int|
        0 <= i < devs.len() ==> (#[trigger] devs[i]).device_id@ == labels[i]@ && devs[i].label@
            == labels[i]@
}

/// The exact result of enumeration: a device list maps to mirrored
/// `DeviceInfo` pairs, order preserved.
pub open spec fn device_list_outcome(
    resp: AudioResponse,
    r: Result<Vec<DeviceInfo>, RecorderError>,
) -> bool {
    match resp {
        AudioResponse::RecordingDeviceList(labels) => {
            &&& r matches Ok(devs)
            &&& devices_mirror_labels(devs@, labels@)
        },
        AudioResponse::Error(m) => r == Result::<Vec<DeviceInfo>, RecorderError>::Err(
            RecorderError::AudioError(m),
        ),
        _ => is_unexpected_response(r),
    }
}

/// The exact result of stopping a recording: the captured samples are
/// returned unchanged.
pub open spec fn audio_data_outcome(
    resp: AudioResponse,
    r: Result<Vec<u32>, RecorderError>,
) -> bool {
    match resp {
        AudioResponse::AudioData(data) => {
            &&& r matches Ok(d)
            &&& d@ == data@
        },
        AudioResponse::Error(m) => r == Result::<Vec<u32>, RecorderError>::Err(
            RecorderError::AudioError(m),
        ),
        _ => is_unexpected_response(r),
    }
}

/// The exact result of cancelling a recording: the same command and reply as
/// a stop, but the payload is discarded — "cancel" is a caller-side
/// convention, not a worker-level abort.
pub open spec fn discard_outcome(resp: AudioResponse, r: Result<(), RecorderError>) -> bool {
    match resp {
        AudioResponse::AudioData(_) => r is Ok,
        AudioResponse::Error(m) => r == Result::<(), RecorderError>::Err(
            RecorderError::AudioError(m),
        ),
        _ => is_unexpected_response(r),
    }
}

/// Mirror each label into a `(device_id, label)` pair, preserving order.
pub fn devices_from_labels(labels: Vec<String>) -> (devs: Vec<DeviceInfo>)
    ensures
        devices_mirror_labels(devs@, labels@),
{
    let mut devs: Vec<DeviceInfo> = Vec::new();
    let mut i: usize = 0;
    while i < labels.len()
        invariant
            i <= labels.len(),
            devs@.len() == i,
            forall|j: int|
                0 <= j < i ==> (#[trigger] devs@[j]).device_id@ == labels@[j]@ && devs@[j].label@
                    == labels@[j]@,
        decreases labels.len() - i,
    {
        let label = labels[i].clone();
        devs.push(DeviceInfo { device_id: label.clone(), label });
        i = i + 1;
    }
    devs
}

} // verus!
