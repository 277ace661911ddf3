use std::collections::VecDeque;

use recorder_core::protocol::AudioCommand;
use recorder_core::protocol::AudioResponse;
use recorder_core::protocol::DeviceInfo;
use recorder_core::protocol::RecorderError;
use recorder_core::protocol::WorkerLink;
use recorder_core::recorder::Recorder;

/// A worker stand-in that behaves like a healthy device layer: a device
/// list for enumeration, captured samples for a stop, success otherwise.
struct EchoLink {
    log: Vec<AudioCommand>,
}

impl WorkerLink for EchoLink {
    fn spawn() -> Result<Self, String> {
        Ok(EchoLink { log: Vec::new() })
    }

    fn send(&mut self, cmd: &AudioCommand) -> Result<(), String> {
        self.log.push(cmd.clone());
        Ok(())
    }

    fn recv(&mut self) -> Result<AudioResponse, String> {
        match self.log.last() {
            Some(AudioCommand::EnumerateRecordingDevices) => Ok(
                AudioResponse::RecordingDeviceList(vec![
                    "Mic A".to_string(),
                    "Mic B".to_string(),
                ]),
            ),
            Some(AudioCommand::StopRecording) => Ok(AudioResponse::AudioData(vec![
                0.1f32.to_bits(),
                0.2f32.to_bits(),
                0.3f32.to_bits(),
            ])),
            _ => Ok(AudioResponse::Success),
        }
    }
}

/// A worker stand-in replaying a fixed script of responses, recording every
/// command it is handed; an exhausted script closes the response channel.
struct ScriptLink {
    script: VecDeque<AudioResponse>,
    log: Vec<AudioCommand>,
}

impl ScriptLink {
    fn with_script(responses: Vec<AudioResponse>) -> ScriptLink {
        ScriptLink { script: responses.into_iter().collect(), log: Vec::new() }
    }
}

impl WorkerLink for ScriptLink {
    fn spawn() -> Result<Self, String> {
        Ok(ScriptLink::with_script(Vec::new()))
    }

    fn send(&mut self, cmd: &AudioCommand) -> Result<(), String> {
        self.log.push(cmd.clone());
        Ok(())
    }

    fn recv(&mut self) -> Result<AudioResponse, String> {
        self.script.pop_front().ok_or_else(|| "worker hung up".to_string())
    }
}

/// A worker that can never be spawned.
struct NoSpawnLink;

impl WorkerLink for NoSpawnLink {
    fn spawn() -> Result<Self, String> {
        Err("no audio thread".to_string())
    }

    fn send(&mut self, _cmd: &AudioCommand) -> Result<(), String> {
        Ok(())
    }

    fn recv(&mut self) -> Result<AudioResponse, String> {
        Ok(AudioResponse::Success)
    }
}

/// A worker whose command channel is closed.
struct DeadSendLink;

impl WorkerLink for DeadSendLink {
    fn spawn() -> Result<Self, String> {
        Ok(DeadSendLink)
    }

    fn send(&mut self, _cmd: &AudioCommand) -> Result<(), String> {
        Err("sending on a closed channel".to_string())
    }

    fn recv(&mut self) -> Result<AudioResponse, String> {
        Ok(AudioResponse::Success)
    }
}

fn scripted(responses: Vec<AudioResponse>) -> Recorder<ScriptLink> {
    let mut rec = Recorder::new();
    rec.worker = Some(ScriptLink::with_script(responses));
    rec
}

#[test]
fn lazy_init_is_idempotent() {
    let mut rec: Recorder<EchoLink> = Recorder::new();
    assert!(!rec.worker_running());
    assert!(rec.ensure_thread_initialized().is_ok());
    assert!(rec.worker_running());
    assert!(rec.ensure_thread_initialized().is_ok());
    assert!(rec.worker_running());
}

#[test]
fn enumerate_round_trip_preserves_order() {
    let mut rec: Recorder<EchoLink> = Recorder::new();
    let devices = rec.enumerate_recording_devices().unwrap();
    let expected = vec![
        DeviceInfo { device_id: "Mic A".to_string(), label: "Mic A".to_string() },
        DeviceInfo { device_id: "Mic B".to_string(), label: "Mic B".to_string() },
    ];
    assert_eq!(devices, expected);
    assert!(!rec.is_recording());
}

#[test]
fn start_sets_recording_flag() {
    let mut rec: Recorder<EchoLink> = Recorder::new();
    assert!(!rec.is_recording());
    assert!(rec.start_recording().is_ok());
    assert!(rec.is_recording());
}

#[test]
fn stop_returns_samples_and_clears_flag() {
    let mut rec: Recorder<EchoLink> = Recorder::new();
    assert!(rec.start_recording().is_ok());
    let bits = rec.stop_recording().unwrap();
    let samples: Vec<f32> = bits.into_iter().map(f32::from_bits).collect();
    assert_eq!(samples, vec![0.1f32, 0.2f32, 0.3f32]);
    assert!(!rec.is_recording());
}

#[test]
fn cancel_discards_samples_and_clears_flag() {
    let mut rec: Recorder<EchoLink> = Recorder::new();
    assert!(rec.start_recording().is_ok());
    assert!(rec.is_recording());
    assert_eq!(rec.cancel_recording(), Ok(()));
    assert!(!rec.is_recording());
}

#[test]
fn stop_and_cancel_issue_the_same_command() {
    let mut rec = scripted(vec![
        AudioResponse::AudioData(vec![1, 2, 3]),
        AudioResponse::AudioData(vec![4, 5]),
    ]);
    assert_eq!(rec.stop_recording(), Ok(vec![1, 2, 3]));
    assert_eq!(rec.cancel_recording(), Ok(()));
    let log = &rec.worker.as_ref().unwrap().log;
    assert_eq!(*log, vec![AudioCommand::StopRecording, AudioCommand::StopRecording]);
}

#[test]
fn close_session_clears_recording_flag() {
    let mut rec: Recorder<EchoLink> = Recorder::new();
    assert!(rec.start_recording().is_ok());
    assert!(rec.close_recording_session().is_ok());
    assert!(!rec.is_recording());
}

#[test]
fn init_session_carries_device_name() {
    let mut rec = scripted(vec![AudioResponse::Success]);
    assert!(rec.init_recording_session("Mic B".to_string()).is_ok());
    let log = &rec.worker.as_ref().unwrap().log;
    assert_eq!(*log, vec![AudioCommand::InitRecordingSession("Mic B".to_string())]);
}

#[test]
fn commands_reach_worker_in_invocation_order() {
    let mut rec = scripted(vec![
        AudioResponse::Success,
        AudioResponse::Success,
        AudioResponse::AudioData(vec![7]),
        AudioResponse::Success,
    ]);
    assert!(rec.init_recording_session("Mic A".to_string()).is_ok());
    assert!(rec.start_recording().is_ok());
    assert!(rec.stop_recording().is_ok());
    assert!(rec.close_recording_session().is_ok());
    let log = &rec.worker.as_ref().unwrap().log;
    assert_eq!(
        *log,
        vec![
            AudioCommand::InitRecordingSession("Mic A".to_string()),
            AudioCommand::StartRecording,
            AudioCommand::StopRecording,
            AudioCommand::CloseRecordingSession,
        ]
    );
}

#[test]
fn error_response_surfaces_message_and_leaves_flag() {
    let mut rec = scripted(vec![
        AudioResponse::Success,
        AudioResponse::Error("device lost".to_string()),
    ]);
    assert!(rec.start_recording().is_ok());
    assert!(rec.is_recording());
    assert_eq!(
        rec.stop_recording(),
        Err(RecorderError::AudioError("device lost".to_string()))
    );
    assert!(rec.is_recording());
}

#[test]
fn unexpected_response_reports_audio_error() {
    let mut rec = scripted(vec![
        AudioResponse::Success,
        AudioResponse::RecordingDeviceList(vec!["Mic A".to_string()]),
    ]);
    assert!(rec.start_recording().is_ok());
    assert_eq!(
        rec.start_recording(),
        Err(RecorderError::AudioError("Unexpected response".to_string()))
    );
    assert!(rec.is_recording());
}

#[test]
fn unexpected_response_to_stop_reports_audio_error() {
    let mut rec = scripted(vec![AudioResponse::Success]);
    assert_eq!(
        rec.stop_recording(),
        Err(RecorderError::AudioError("Unexpected response".to_string()))
    );
    assert!(!rec.is_recording());
}

#[test]
fn spawn_failure_gives_send_error_everywhere() {
    let mut rec: Recorder<NoSpawnLink> = Recorder::new();
    assert!(matches!(
        rec.ensure_thread_initialized(),
        Err(RecorderError::SendError(_))
    ));
    assert!(matches!(
        rec.enumerate_recording_devices(),
        Err(RecorderError::SendError(_))
    ));
    assert!(matches!(
        rec.init_recording_session("Mic A".to_string()),
        Err(RecorderError::SendError(_))
    ));
    assert!(matches!(
        rec.close_recording_session(),
        Err(RecorderError::SendError(_))
    ));
    assert!(matches!(rec.start_recording(), Err(RecorderError::SendError(_))));
    assert!(matches!(rec.stop_recording(), Err(RecorderError::SendError(_))));
    assert!(matches!(rec.cancel_recording(), Err(RecorderError::SendError(_))));
    assert!(!rec.worker_running());
    assert!(!rec.is_recording());
    // teardown with no worker is still an immediate success
    assert_eq!(rec.close_thread(), Ok(()));
}

#[test]
fn closed_command_channel_gives_send_error() {
    let mut rec: Recorder<DeadSendLink> = Recorder::new();
    assert_eq!(
        rec.start_recording(),
        Err(RecorderError::SendError("sending on a closed channel".to_string()))
    );
    // the entry stays registered: a send failure does not tear the worker down
    assert!(rec.worker_running());
}

#[test]
fn closed_response_channel_gives_receive_error() {
    let mut rec = scripted(Vec::new());
    assert_eq!(
        rec.start_recording(),
        Err(RecorderError::ReceiveError("worker hung up".to_string()))
    );
    assert!(!rec.is_recording());
}

#[test]
fn teardown_twice_both_succeed() {
    let mut rec = scripted(vec![AudioResponse::Success]);
    assert_eq!(rec.close_thread(), Ok(()));
    assert!(!rec.worker_running());
    // the script is spent: a second round trip would be a receive error,
    // so this success shows the second teardown sent nothing
    assert_eq!(rec.close_thread(), Ok(()));
    assert!(!rec.worker_running());
}

#[test]
fn teardown_removes_entry_even_on_failure() {
    let mut rec = scripted(Vec::new());
    assert_eq!(
        rec.close_thread(),
        Err(RecorderError::ReceiveError("worker hung up".to_string()))
    );
    assert!(!rec.worker_running());
}

#[test]
fn teardown_reports_worker_error() {
    let mut rec = scripted(vec![AudioResponse::Error("still busy".to_string())]);
    assert_eq!(
        rec.close_thread(),
        Err(RecorderError::AudioError("still busy".to_string()))
    );
    assert!(!rec.worker_running());
}

#[test]
fn teardown_then_lazy_respawn() {
    let mut rec: Recorder<EchoLink> = Recorder::new();
    assert!(rec.ensure_thread_initialized().is_ok());
    assert_eq!(rec.close_thread(), Ok(()));
    assert!(!rec.worker_running());
    // the next operation lazily spawns a fresh worker
    assert!(rec.start_recording().is_ok());
    assert!(rec.worker_running());
}
