//! The session manager: lazy worker lifecycle, the fully serialized
//! round-trip dispatcher, the mirrored recording flag, and the operations
//! built on the dispatcher.

use vstd::prelude::*;

use crate::protocol::AudioCommand;
use crate::protocol::AudioResponse;
use crate::protocol::DeviceInfo;
use crate::protocol::RecorderError;
use crate::protocol::WorkerLink;
use crate::protocol::ack_outcome;
use crate::protocol::audio_data_outcome;
use crate::protocol::device_list_outcome;
use crate::protocol::devices_from_labels;
use crate::protocol::discard_outcome;

verus! {

/// The one holder of the live worker endpoint and the mirrored recording
/// flag.
///
/// Every operation takes `&mut self`, so commands from concurrent callers
/// are serialized by exclusive access: no two commands are ever outstanding
/// at once, and the worker observes them in exactly the order the calls
/// were granted access. A caller that wants to share one `Recorder` across
/// threads wraps it in a lock and holds the lock for the whole round trip,
/// which is the same serialization policy.
///
/// The two ghost logs record, in order, every command handed to the worker
/// and every response received back; the contracts of the operations speak
/// of the state only through them and the two live fields.
pub struct Recorder<W> {
    /// The live worker endpoint; `None` means no worker is running.
    pub worker: Option<W>,
    /// The last known recording status, mutated only by successful
    /// responses.
    pub recording: bool,
    /// Every command handed to the worker so far, oldest first.
    pub sent: Ghost<Seq<AudioCommand>>,
    /// Every response received from the worker so far, oldest first.
    pub received: Ghost<Seq<AudioResponse>>,
}

/// What one dispatcher round trip guarantees, whatever the link did.
///
/// Exactly one of three things happened: no command went out (spawn or send
/// failure, reported as `SendError`), a command went out but no response
/// came back (`ReceiveError`), or a command went out and its single response
/// came back. The recording flag is never touched by the dispatcher itself,
/// and a worker that was running stays registered.
pub open spec fn dispatch_post<W>(
    pre: Recorder<W>,
    post: Recorder<W>,
    cmd: AudioCommand,
    r: Result<AudioResponse, RecorderError>,
) -> bool {
    &&& post.recording == pre.recording
    &&& (pre.worker is Some ==> post.worker is Some)
    &&& (post.worker is None ==> pre.worker is None && r matches Err(
        RecorderError::SendError(_),
    ))
    &&& match r {
        Ok(resp) => {
            &&& post.worker is Some
            &&& post.sent@ == pre.sent@.push(cmd)
            &&& post.received@ == pre.received@.push(resp)
        },
        Err(e) => {
            &&& post.received@ == pre.received@
            &&& match e {
                RecorderError::SendError(_) => post.sent@ == pre.sent@,
                RecorderError::ReceiveError(_) => {
                    &&& post.worker is Some
                    &&& post.sent@ == pre.sent@.push(cmd)
                },
                _ => false,
            }
        },
    }
}

/// What one operation guarantees, whatever the link did.
///
/// `outcome` is the operation's exact response interpretation, and
/// `rec_on_ok` the value the recording flag takes on success (`None`: the
/// operation leaves it alone). If a response arrived, the result is exactly
/// the interpretation of that response; if none did, the result is the
/// transport error, nothing was interpreted, and the flag is untouched. An
/// error result never changes the flag.
pub open spec fn op_post<W, T>(
    pre: Recorder<W>,
    post: Recorder<W>,
    cmd: AudioCommand,
    r: Result<T, RecorderError>,
    outcome: spec_fn(AudioResponse, Result<T, RecorderError>) -> bool,
    rec_on_ok: Option<bool>,
) -> bool {
    &&& (r is Ok ==> post.recording == if rec_on_ok is Some {
        rec_on_ok->0
    } else {
        pre.recording
    })
    &&& (r is Err ==> post.recording == pre.recording)
    &&& (pre.worker is Some ==> post.worker is Some)
    &&& (post.worker is None ==> pre.worker is None && r matches Err(
        RecorderError::SendError(_),
    ))
    &&& if post.received@.len() != pre.received@.len() {
        // the worker replied: the result is that reply, interpreted
        &&& post.worker is Some
        &&& post.sent@ == pre.sent@.push(cmd)
        &&& post.received@ == pre.received@.push(post.received@.last())
        &&& outcome(post.received@.last(), r)
    } else {
        // no reply: a transport failure, surfaced immediately
        &&& post.received@ == pre.received@
        &&& match r {
            Err(RecorderError::SendError(_)) => post.sent@ == pre.sent@,
            Err(RecorderError::ReceiveError(_)) => post.sent@ == pre.sent@.push(cmd),
            _ => false,
        }
    }
}

/// What the explicit worker teardown guarantees.
///
/// The entry is removed before anything is sent, so afterwards no worker is
/// registered whatever the outcome. With no worker present the teardown is
/// a success that sends nothing; with one present, the close command goes
/// through the usual round trip and its reply is interpreted like any
/// acknowledgement.
pub open spec fn teardown_post<W>(
    pre: Recorder<W>,
    post: Recorder<W>,
    r: Result<(), RecorderError>,
) -> bool {
    &&& post.worker is None
    &&& post.recording == pre.recording
    &&& (pre.worker is None ==> {
        &&& r is Ok
        &&& post.sent@ == pre.sent@
        &&& post.received@ == pre.received@
    })
    &&& (pre.worker is Some ==> if post.received@.len() != pre.received@.len() {
        &&& post.sent@ == pre.sent@.push(AudioCommand::CloseThread)
        &&& post.received@ == pre.received@.push(post.received@.last())
        &&& ack_outcome(post.received@.last(), r)
    } else {
        &&& post.received@ == pre.received@
        &&& match r {
            Err(RecorderError::SendError(_)) => post.sent@ == pre.sent@,
            Err(RecorderError::ReceiveError(_)) => post.sent@ == pre.sent@.push(
                AudioCommand::CloseThread,
            ),
            _ => false,
        }
    })
}

impl<W: WorkerLink> Recorder<W> {
    /// A fresh session manager: no worker, not recording, nothing exchanged.
    pub fn new() -> (r: Recorder<W>)
        ensures
            r.worker is None,
            r.recording == false,
            r.sent@ == Seq::<AudioCommand>::empty(),
            r.received@ == Seq::<AudioResponse>::empty(),
    {
        Recorder {
            worker: None,
            recording: false,
            sent: Ghost(Seq::empty()),
            received: Ghost(Seq::empty()),
        }
    }

    /// Idempotent lazy initialization: if a worker is already registered,
    /// nothing happens; otherwise one spawn is attempted. On spawn failure
    /// the registry is left empty — a later call can retry — and the
    /// failure is reported as a `SendError`. Nothing is ever sent here.
    pub fn ensure_thread_initialized(&mut self) -> (r: Result<(), RecorderError>)
        ensures
            r is Ok <==> final(self).worker is Some,
            old(self).worker is Some ==> *final(self) == *old(self),
            r matches Err(e) ==> {
                &&& e matches RecorderError::SendError(_)
                &&& final(self).worker is None
            },
            final(self).recording == old(self).recording,
            final(self).sent@ == old(self).sent@,
            final(self).received@ == old(self).received@,
    {
        if self.worker.is_some() {
            return Ok(());
        }
        match W::spawn() {
            Ok(w) => {
                self.worker = Some(w);
                Ok(())
            },
            Err(e) => Err(RecorderError::SendError(e)),
        }
    }

    /// The dispatcher: ensure the worker is initialized, hand it `cmd`, and
    /// block for the single matching response. A spawn or send failure is a
    /// `SendError`; a response channel that closes without a message is a
    /// `ReceiveError`. The raw response is returned uninterpreted.
    pub fn with_thread(&mut self, cmd: &AudioCommand) -> (r: Result<
        AudioResponse,
        RecorderError,
    >)
        ensures
            dispatch_post(*old(self), *final(self), *cmd, r),
    {
        if let Err(e) = self.ensure_thread_initialized() {
            return Err(e);
        }
        match &mut self.worker {
            None => Err(RecorderError::ThreadNotInitialized),
            Some(w) => {
                match w.send(cmd) {
                    Err(m) => Err(RecorderError::SendError(m)),
                    Ok(()) => {
                        self.sent = Ghost(self.sent@.push(*cmd));
                        match w.recv() {
                            Err(m) => Err(RecorderError::ReceiveError(m)),
                            Ok(resp) => {
                                self.received = Ghost(self.received@.push(resp));
                                Ok(resp)
                            },
                        }
                    },
                }
            },
        }
    }

    /// Ask the worker for its capture devices. On a device list each label
    /// becomes one `(device_id, label)` pair with the label as its own
    /// identity, order preserved; the recording flag is never touched.
    pub fn enumerate_recording_devices(&mut self) -> (r: Result<Vec<DeviceInfo>, RecorderError>)
        ensures
            op_post(
                *old(self),
                *final(self),
                AudioCommand::EnumerateRecordingDevices,
                r,
                (|resp: AudioResponse, rr: Result<Vec<DeviceInfo>, RecorderError>|
                    device_list_outcome(resp, rr)),
                None,
            ),
    {
        match self.with_thread(&AudioCommand::EnumerateRecordingDevices) {
            Err(e) => Err(e),
            Ok(AudioResponse::RecordingDeviceList(labels)) => Ok(devices_from_labels(labels)),
            Ok(AudioResponse::Error(m)) => Err(RecorderError::AudioError(m)),
            Ok(_) => Err(RecorderError::AudioError("Unexpected response".to_owned())),
        }
    }

    /// Open a capture session on the named device. Success changes nothing
    /// but the worker's own session state.
    pub fn init_recording_session(&mut self, device_name: String) -> (r: Result<
        (),
        RecorderError,
    >)
        ensures
            op_post(
                *old(self),
                *final(self),
                AudioCommand::InitRecordingSession(device_name),
                r,
                (|resp: AudioResponse, rr: Result<(), RecorderError>| ack_outcome(resp, rr)),
                None,
            ),
    {
        let cmd = AudioCommand::InitRecordingSession(device_name);
        match self.with_thread(&cmd) {
            Err(e) => Err(e),
            Ok(AudioResponse::Success) => Ok(()),
            Ok(AudioResponse::Error(m)) => Err(RecorderError::AudioError(m)),
            Ok(_) => Err(RecorderError::AudioError("Unexpected response".to_owned())),
        }
    }

    /// Close the capture session. On success the recording flag is cleared,
    /// whatever it was.
    pub fn close_recording_session(&mut self) -> (r: Result<(), RecorderError>)
        ensures
            op_post(
                *old(self),
                *final(self),
                AudioCommand::CloseRecordingSession,
                r,
                (|resp: AudioResponse, rr: Result<(), RecorderError>| ack_outcome(resp, rr)),
                Some(false),
            ),
    {
        match self.with_thread(&AudioCommand::CloseRecordingSession) {
            Err(e) => Err(e),
            Ok(AudioResponse::Success) => {
                self.recording = false;
                Ok(())
            },
            Ok(AudioResponse::Error(m)) => Err(RecorderError::AudioError(m)),
            Ok(_) => Err(RecorderError::AudioError("Unexpected response".to_owned())),
        }
    }

    /// Start capturing. On success the recording flag is set; on any error
    /// it is untouched.
    pub fn start_recording(&mut self) -> (r: Result<(), RecorderError>)
        ensures
            op_post(
                *old(self),
                *final(self),
                AudioCommand::StartRecording,
                r,
                (|resp: AudioResponse, rr: Result<(), RecorderError>| ack_outcome(resp, rr)),
                Some(true),
            ),
    {
        match self.with_thread(&AudioCommand::StartRecording) {
            Err(e) => Err(e),
            Ok(AudioResponse::Success) => {
                self.recording = true;
                Ok(())
            },
            Ok(AudioResponse::Error(m)) => Err(RecorderError::AudioError(m)),
            Ok(_) => Err(RecorderError::AudioError("Unexpected response".to_owned())),
        }
    }

    /// Stop capturing and return the recorded samples unchanged. On success
    /// the recording flag is cleared.
    pub fn stop_recording(&mut self) -> (r: Result<Vec<u32>, RecorderError>)
        ensures
            op_post(
                *old(self),
                *final(self),
                AudioCommand::StopRecording,
                r,
                (|resp: AudioResponse, rr: Result<Vec<u32>, RecorderError>|
                    audio_data_outcome(resp, rr)),
                Some(false),
            ),
    {
        match self.with_thread(&AudioCommand::StopRecording) {
            Err(e) => Err(e),
            Ok(AudioResponse::AudioData(data)) => {
                self.recording = false;
                Ok(data)
            },
            Ok(AudioResponse::Error(m)) => Err(RecorderError::AudioError(m)),
            Ok(_) => Err(RecorderError::AudioError("Unexpected response".to_owned())),
        }
    }

    /// Stop capturing and discard the samples: the identical command and
    /// reply as a stop — the worker has no distinct preemption signal — so
    /// only what is done with the payload differs. On success the recording
    /// flag is cleared.
    pub fn cancel_recording(&mut self) -> (r: Result<(), RecorderError>)
        ensures
            op_post(
                *old(self),
                *final(self),
                AudioCommand::StopRecording,
                r,
                (|resp: AudioResponse, rr: Result<(), RecorderError>| discard_outcome(resp, rr)),
                Some(false),
            ),
    {
        match self.with_thread(&AudioCommand::StopRecording) {
            Err(e) => Err(e),
            Ok(AudioResponse::AudioData(_)) => {
                self.recording = false;
                Ok(())
            },
            Ok(AudioResponse::Error(m)) => Err(RecorderError::AudioError(m)),
            Ok(_) => Err(RecorderError::AudioError("Unexpected response".to_owned())),
        }
    }

    /// Explicit worker teardown. The entry is removed before anything is
    /// sent, so a concurrent caller sees "no worker" rather than a
    /// half-closed one; then the close command is sent and its
    /// acknowledgement awaited. With no worker registered this is an
    /// idempotent success that sends nothing.
    pub fn close_thread(&mut self) -> (r: Result<(), RecorderError>)
        ensures
            teardown_post(*old(self), *final(self), r),
    {
        let mut entry: Option<W> = None;
        core::mem::swap(&mut entry, &mut self.worker);
        match entry {
            None => Ok(()),
            Some(mut w) => {
                match w.send(&AudioCommand::CloseThread) {
                    Err(m) => Err(RecorderError::SendError(m)),
                    Ok(()) => {
                        self.sent = Ghost(self.sent@.push(AudioCommand::CloseThread));
                        match w.recv() {
                            Err(m) => Err(RecorderError::ReceiveError(m)),
                            Ok(AudioResponse::Success) => {
                                self.received = Ghost(
                                    self.received@.push(AudioResponse::Success),
                                );
                                Ok(())
                            },
                            Ok(resp) => {
                                self.received = Ghost(self.received@.push(resp));
                                match resp {
                                    AudioResponse::Error(m) => Err(RecorderError::AudioError(m)),
                                    _ => Err(
                                        RecorderError::AudioError(
                                            "Unexpected response".to_owned(),
                                        ),
                                    ),
                                }
                            },
                        }
                    },
                }
            },
        }
    }

    /// The last known recording status.
    pub fn is_recording(&self) -> (b: bool)
        ensures
            b == self.recording,
    {
        self.recording
    }

    /// Whether a worker is currently registered.
    pub fn worker_running(&self) -> (b: bool)
        ensures
            b == (self.worker is Some),
    {
        self.worker.is_some()
    }
}

} // verus!
