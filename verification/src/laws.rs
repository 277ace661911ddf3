//! The guarantees that relate several operations, stated and proved once
//! over the operations' contracts.

use vstd::prelude::*;

use crate::protocol::AudioCommand;
use crate::protocol::AudioResponse;
use crate::protocol::RecorderError;
use crate::protocol::ack_outcome;
use crate::protocol::audio_data_outcome;
use crate::protocol::discard_outcome;
use crate::protocol::is_unexpected_response;
use crate::recorder::Recorder;
use crate::recorder::op_post;
use crate::recorder::teardown_post;

verus! {

/// Idempotent teardown: after any teardown no worker is registered, so a
/// second teardown directly after a first always returns success, sends no
/// command, and leaves the state exactly as the first left it.
pub proof fn lemma_teardown_idempotent<W>(
    s0: Recorder<W>,
    s1: Recorder<W>,
    s2: Recorder<W>,
    r1: Result<(), RecorderError>,
    r2: Result<(), RecorderError>,
)
    requires
        teardown_post(s0, s1, r1),
        teardown_post(s1, s2, r2),
    ensures
        r2 is Ok,
        s2.worker is None,
        s2.recording == s1.recording,
        s2.sent@ == s1.sent@,
        s2.received@ == s1.received@,
{
}

/// Total ordering: each operation hands the worker at most its own one
/// command, and two operations run in succession extend the worker's
/// command sequence with their commands in exactly that order — no
/// interleaving, never two commands outstanding at once.
pub proof fn lemma_total_ordering<W, T1, T2>(
    s0: Recorder<W>,
    s1: Recorder<W>,
    s2: Recorder<W>,
    c1: AudioCommand,
    c2: AudioCommand,
    r1: Result<T1, RecorderError>,
    r2: Result<T2, RecorderError>,
    o1: spec_fn(AudioResponse, Result<T1, RecorderError>) -> bool,
    o2: spec_fn(AudioResponse, Result<T2, RecorderError>) -> bool,
    k1: Option<bool>,
    k2: Option<bool>,
)
    requires
        op_post(s0, s1, c1, r1, o1, k1),
        op_post(s1, s2, c2, r2, o2, k2),
    ensures
        s1.sent@ == s0.sent@ || s1.sent@ == s0.sent@.push(c1),
        s2.sent@ == s1.sent@ || s2.sent@ == s1.sent@.push(c2),
        (s1.sent@ == s0.sent@.push(c1) && s2.sent@ == s1.sent@.push(c2)) ==> s2.sent@ == s0.sent@
            + seq![c1, c2],
{
    assert(s0.sent@.push(c1).push(c2) =~= s0.sent@ + seq![c1, c2]);
}

/// State consistency: a successful operation leaves the recording flag at
/// the value its contract names — set by a start, cleared by a stop, a
/// cancel, or a session close, untouched by the others — and any error
/// leaves the flag exactly as it was.
pub proof fn lemma_recording_state_consistency<W, T>(
    pre: Recorder<W>,
    post: Recorder<W>,
    cmd: AudioCommand,
    r: Result<T, RecorderError>,
    outcome: spec_fn(AudioResponse, Result<T, RecorderError>) -> bool,
    rec_on_ok: Option<bool>,
)
    requires
        op_post(pre, post, cmd, r, outcome, rec_on_ok),
    ensures
        r is Ok ==> (rec_on_ok matches Some(b) ==> post.recording == b),
        r is Ok && rec_on_ok is None ==> post.recording == pre.recording,
        r is Err ==> post.recording == pre.recording,
{
}

/// No-worker safety: an operation that ends with no worker registered — in
/// particular any operation whose worker spawn failed — reported a
/// send-class error, found no worker to begin with, and handed nothing to
/// anyone.
pub proof fn lemma_no_worker_safety<W, T>(
    pre: Recorder<W>,
    post: Recorder<W>,
    cmd: AudioCommand,
    r: Result<T, RecorderError>,
    outcome: spec_fn(AudioResponse, Result<T, RecorderError>) -> bool,
    rec_on_ok: Option<bool>,
)
    requires
        op_post(pre, post, cmd, r, outcome, rec_on_ok),
        post.worker is None,
    ensures
        r matches Err(e) && e matches RecorderError::SendError(_),
        pre.worker is None,
        post.sent@ == pre.sent@,
        post.received@ == pre.received@,
        post.recording == pre.recording,
{
}

/// One response per command: an operation never collects more responses
/// than it handed out commands, so a recorder that has seen at most one
/// response for each command keeps that property across every operation.
pub proof fn lemma_at_most_one_response_each<W, T>(
    pre: Recorder<W>,
    post: Recorder<W>,
    cmd: AudioCommand,
    r: Result<T, RecorderError>,
    outcome: spec_fn(AudioResponse, Result<T, RecorderError>) -> bool,
    rec_on_ok: Option<bool>,
)
    requires
        op_post(pre, post, cmd, r, outcome, rec_on_ok),
        pre.received@.len() <= pre.sent@.len(),
    ensures
        post.received@.len() <= post.sent@.len(),
{
}

/// Stop and cancel diverge only in what is done with the payload: for the
/// identical audio-data reply, a stop returns the samples unchanged and a
/// cancel returns plain success, and both succeed.
pub proof fn lemma_stop_cancel_divergence(
    data: Vec<u32>,
    rs: Result<Vec<u32>, RecorderError>,
    rc: Result<(), RecorderError>,
)
    requires
        audio_data_outcome(AudioResponse::AudioData(data), rs),
        discard_outcome(AudioResponse::AudioData(data), rc),
    ensures
        rs matches Ok(d) && d@ == data@,
        rc is Ok,
{
}

/// A well-formed reply outside the variants an acknowledgement command
/// admits is reported as the "unexpected response" error, never silently
/// accepted; with `lemma_recording_state_consistency` the recording flag is
/// then untouched.
pub proof fn lemma_ack_rejects_unexpected(resp: AudioResponse, r: Result<(), RecorderError>)
    requires
        ack_outcome(resp, r),
        !(resp is Success),
        !(resp is Error),
    ensures
        is_unexpected_response(r),
{
}

} // verus!
