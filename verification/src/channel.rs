//! One synthesis channel: the per-request state machine, the dispatcher that
//! maps a control request to a transition plus a response, and the real-time
//! pull path that hands out one frame per tick and is the single place that
//! surfaces deferred stop responses and completion events.

use vstd::prelude::*;

use crate::engine::Engine;
use crate::messages::{CompletionCause, Event, Request, RequestKind, Response, ResponseKind};
use crate::source::Synthesizer;

verus! {

/// The request-lifecycle state of one channel. A pending stop is a flag, not
/// a state: it must surface at the next frame boundary, not synchronously.
#[derive(Clone, Copy, Debug)]
pub struct ChannelState {
    /// The in-flight speak request, if any.
    pub speak_request: Option<u64>,
    /// A stop response that the pull path still owes, if any.
    pub stop_response: Option<Response>,
    /// Whether the cursor is held still while the job keeps producing.
    pub paused: bool,
}

/// A synthesis job ready to be launched: the resource to open and read, and
/// the sending end of the result channel that the job's one send attempt (on
/// success only) goes through.
pub struct SynthesisJob {
    pub filename: String,
    pub result_tx: std::sync::mpsc::Sender<Vec<u8>>,
}

/// What one dispatched control request produced: at most one immediate
/// response, and at most one job to launch.
pub struct DispatchOutcome {
    pub response: Option<Response>,
    pub job: Option<SynthesisJob>,
}

/// What one real-time tick produced: a surfaced stop response, a completion
/// event, and whether the frame carries audio.
#[derive(Clone, Copy, Debug, PartialEq, Eq)]
pub struct TickOutcome {
    pub emitted: Option<Response>,
    pub completion: Option<Event>,
    pub audio: bool,
}

/// The transition table of the state machine: the state after dispatching
/// `req` in state `st`, where `codec_ok` says whether the negotiated audio
/// format was available at speak time. While a stop is pending, new
/// speak/pause/resume requests are still accepted, not rejected.
pub open spec fn dispatch_state(st: ChannelState, req: Request, codec_ok: bool) -> ChannelState {
    match req.kind {
        RequestKind::Speak => if codec_ok {
            ChannelState { speak_request: Some(req.id), stop_response: st.stop_response, paused: st.paused }
        } else {
            st
        },
        RequestKind::Stop | RequestKind::BargeIn => ChannelState {
            speak_request: st.speak_request,
            stop_response: Some(Response { request_id: req.id, kind: ResponseKind::Success }),
            paused: st.paused,
        },
        RequestKind::Pause => ChannelState { speak_request: st.speak_request, stop_response: st.stop_response, paused: true },
        RequestKind::Resume => ChannelState { speak_request: st.speak_request, stop_response: st.stop_response, paused: false },
        RequestKind::Other => st,
    }
}

/// The immediate response owed for `req`: none for a stop or barge-in (that
/// response is deferred to the pull path), a failure for a rejected speak or
/// an unrecognized verb, otherwise an acknowledgment.
pub open spec fn dispatch_response(req: Request, codec_ok: bool) -> Option<Response> {
    match req.kind {
        RequestKind::Speak => if codec_ok {
            Some(Response { request_id: req.id, kind: ResponseKind::InProgress })
        } else {
            Some(Response { request_id: req.id, kind: ResponseKind::MethodFailed })
        },
        RequestKind::Stop | RequestKind::BargeIn => None,
        RequestKind::Pause | RequestKind::Resume => Some(Response { request_id: req.id, kind: ResponseKind::Success }),
        RequestKind::Other => Some(Response { request_id: req.id, kind: ResponseKind::MethodFailed }),
    }
}

/// Whether dispatching `req` launches a synthesis job.
pub open spec fn dispatch_starts_job(req: Request, codec_ok: bool) -> bool {
    req.kind is Speak && codec_ok
}

/// The pull path advances audio this tick: a speak is active, no stop is
/// pending, and the channel is not paused.
pub open spec fn pulling(st: ChannelState) -> bool {
    st.stop_response is None && st.speak_request is Some && !st.paused
}

/// One active media session: its state machine and its audio source.
pub struct Channel {
    state: ChannelState,
    audio_source: Synthesizer,
    filename: String,
}

impl Channel {
    /// The request-lifecycle state, observed and (on stop or completion)
    /// mutated by the pull path.
    pub closed spec fn st(self) -> ChannelState {
        self.state
    }

    /// The channel's audio source.
    pub closed spec fn source(self) -> Synthesizer {
        self.audio_source
    }

    /// Exec view of [`Channel::st`], for callers outside the proof.
    pub fn state(&self) -> (s: ChannelState)
        ensures
            s == self.st(),
    {
        self.state
    }

    /// The locator handed to each synthesis job, copied from the engine.
    pub closed spec fn locator(self) -> Seq<char> {
        self.filename@
    }

    pub open spec fn wf(self) -> bool {
        self.source().wf()
    }

    /// A fresh channel of `engine`: idle, nothing pending, source empty.
    pub fn new(engine: &Engine) -> (c: Channel)
        ensures
            c.wf(),
            c.st().speak_request is None,
            c.st().stop_response is None,
            !c.st().paused,
            c.source().cleared(),
            c.locator() == engine.locator(),
    {
        Channel {
            state: ChannelState { speak_request: None, stop_response: None, paused: false },
            audio_source: Synthesizer::new(),
            filename: engine.filename().clone(),
        }
    }

    /// Handles a speak request. Rejected (no state change, no job) when the
    /// negotiated audio format is unavailable; otherwise the source is
    /// prepared for a new cycle, the request is recorded as active, an
    /// in-progress acknowledgment is owed at once, and a job is handed back
    /// to be launched.
    pub fn synth_channel_speak(&mut self, request: Request, codec_ok: bool) -> (out: DispatchOutcome)
        requires
            old(self).wf(),
            request.kind is Speak,
        ensures
            final(self).wf(),
            final(self).locator() == old(self).locator(),
            final(self).st() == dispatch_state(old(self).st(), request, codec_ok),
            out.response == dispatch_response(request, codec_ok),
            out.job is Some <==> codec_ok,
            out.job matches Some(job) ==> job.filename@ == old(self).locator(),
            codec_ok ==> final(self).source().cleared(),
            !codec_ok ==> final(self).source() == old(self).source(),
    {
        if !codec_ok {
            DispatchOutcome {
                response: Some(Response { request_id: request.id, kind: ResponseKind::MethodFailed }),
                job: None,
            }
        } else {
            let result_tx = self.audio_source.prepare();
            self.state.speak_request = Some(request.id);
            DispatchOutcome {
                response: Some(Response { request_id: request.id, kind: ResponseKind::InProgress }),
                job: Some(SynthesisJob { filename: self.filename.clone(), result_tx }),
            }
        }
    }

    /// Handles a stop or barge-in: no immediate response; the response is
    /// stored for the pull path to surface at the next frame boundary. A
    /// second stop before the first surfaces overwrites it (last write wins).
    pub fn synth_channel_stop(&mut self, request: Request) -> (out: DispatchOutcome)
        requires
            old(self).wf(),
            request.kind is Stop || request.kind is BargeIn,
        ensures
            final(self).wf(),
            final(self).locator() == old(self).locator(),
            final(self).st() == dispatch_state(old(self).st(), request, true),
            out.response is None,
            out.job is None,
            final(self).source() == old(self).source(),
    {
        self.state.stop_response = Some(Response { request_id: request.id, kind: ResponseKind::Success });
        DispatchOutcome { response: None, job: None }
    }

    /// Handles a pause: sets the paused flag and acknowledges at once. The
    /// pull path stops advancing the cursor; the job keeps producing.
    pub fn synth_channel_pause(&mut self, request: Request) -> (out: DispatchOutcome)
        requires
            old(self).wf(),
            request.kind is Pause,
        ensures
            final(self).wf(),
            final(self).locator() == old(self).locator(),
            final(self).st() == dispatch_state(old(self).st(), request, true),
            out.response == dispatch_response(request, true),
            out.job is None,
            final(self).source() == old(self).source(),
    {
        self.state.paused = true;
        DispatchOutcome {
            response: Some(Response { request_id: request.id, kind: ResponseKind::Success }),
            job: None,
        }
    }

    /// Handles a resume: clears the paused flag and acknowledges at once.
    pub fn synth_channel_resume(&mut self, request: Request) -> (out: DispatchOutcome)
        requires
            old(self).wf(),
            request.kind is Resume,
        ensures
            final(self).wf(),
            final(self).locator() == old(self).locator(),
            final(self).st() == dispatch_state(old(self).st(), request, true),
            out.response == dispatch_response(request, true),
            out.job is None,
            final(self).source() == old(self).source(),
    {
        self.state.paused = false;
        DispatchOutcome {
            response: Some(Response { request_id: request.id, kind: ResponseKind::Success }),
            job: None,
        }
    }

    /// Maps one control request to its transition, its immediate response (if
    /// any) and the job to launch (if any), exactly as the transition table
    /// [`dispatch_state`] and [`dispatch_response`] state. An unrecognized
    /// verb changes nothing and fails at once.
    pub fn synth_channel_request_dispatch(&mut self, request: Request, codec_ok: bool) -> (out: DispatchOutcome)
        requires
            old(self).wf(),
        ensures
            final(self).wf(),
            final(self).locator() == old(self).locator(),
            final(self).st() == dispatch_state(old(self).st(), request, codec_ok),
            out.response == dispatch_response(request, codec_ok),
            out.job is Some <==> dispatch_starts_job(request, codec_ok),
            out.job matches Some(job) ==> job.filename@ == old(self).locator(),
            dispatch_starts_job(request, codec_ok) ==> final(self).source().cleared(),
            !dispatch_starts_job(request, codec_ok) ==> final(self).source() == old(self).source(),
    {
        match request.kind {
            RequestKind::Speak => self.synth_channel_speak(request, codec_ok),
            RequestKind::Stop => self.synth_channel_stop(request),
            RequestKind::BargeIn => self.synth_channel_stop(request),
            RequestKind::Pause => self.synth_channel_pause(request),
            RequestKind::Resume => self.synth_channel_resume(request),
            RequestKind::Other => DispatchOutcome {
                response: Some(Response { request_id: request.id, kind: ResponseKind::MethodFailed }),
                job: None,
            },
        }
    }

    /// The real-time pull path, called once per frame tick; never blocks. In
    /// priority order: a pending stop response surfaces (silent frame, state
    /// cleared, source reset); else an active, unpaused speak reads one frame
    /// (a full frame carries audio; a short one ends the cycle with a
    /// completion event and a reset); else the frame passes through unchanged.
    pub fn stream_read(&mut self, frame: &mut Vec<u8>) -> (t: TickOutcome)
        requires
            old(self).wf(),
        ensures
            final(self).wf(),
            final(self).locator() == old(self).locator(),
            final(frame)@.len() == old(frame)@.len(),
            // A stop was pending: surface it, clear the cycle, silence.
            old(self).st().stop_response is Some ==> {
                &&& t.emitted == old(self).st().stop_response
                &&& t.completion is None
                &&& !t.audio
                &&& final(self).st().stop_response is None
                &&& final(self).st().speak_request is None
                &&& !final(self).st().paused
                &&& final(self).source().cleared()
                &&& final(frame)@ == old(frame)@
            },
            // Idle or paused: nothing moves.
            old(self).st().stop_response is None && !pulling(old(self).st()) ==> {
                &&& t.emitted is None
                &&& t.completion is None
                &&& !t.audio
                &&& final(self).st() == old(self).st()
                &&& final(self).source() == old(self).source()
                &&& final(frame)@ == old(frame)@
            },
            // Active with the payload already in: deterministic.
            pulling(old(self).st()) && old(self).source().ready() ==> ({
                let p = old(self).source().payload();
                let c = old(self).source().cursor();
                let n = old(frame)@.len() as int;
                &&& t.emitted is None
                &&& (p.len() - c >= n ==> {
                    &&& t.audio
                    &&& t.completion is None
                    &&& final(self).st() == old(self).st()
                    &&& final(self).source().ready()
                    &&& final(self).source().payload() == p
                    &&& final(self).source().cursor() == c + n
                    &&& forall|i: int| 0 <= i < n ==> final(frame)@[i] == p[c + i]
                })
                &&& (p.len() - c < n ==> {
                    &&& !t.audio
                    &&& t.completion == Some(Event { request_id: old(self).st().speak_request->Some_0, cause: CompletionCause::Normal })
                    &&& final(self).st().speak_request is None
                    &&& final(self).st().stop_response is None
                    &&& final(self).st().paused == old(self).st().paused
                    &&& final(self).source().cleared()
                    &&& forall|i: int| 0 <= i < p.len() - c ==> final(frame)@[i] == p[c + i]
                    &&& forall|i: int| p.len() - c <= i < n ==> final(frame)@[i] == old(frame)@[i]
                })
            }),
            // Active while the result is still out: every poll outcome covered.
            pulling(old(self).st()) && !old(self).source().ready() ==> ({
                let n = old(frame)@.len() as int;
                &&& t.emitted is None
                &&& (t.audio <==> t.completion is None)
                // Nothing arrived: a full frame of silence, nothing moves.
                &&& (t.completion is None && !final(self).source().ready() ==> {
                    &&& final(self).st() == old(self).st()
                    &&& final(self).source().cleared()
                    &&& forall|i: int| 0 <= i < n ==> final(frame)@[i] == 0
                })
                // At least a frame of payload arrived: audio starts flowing.
                &&& (t.completion is None && final(self).source().ready() ==> {
                    &&& final(self).st() == old(self).st()
                    &&& final(self).source().payload().len() >= n
                    &&& final(self).source().cursor() == n
                    &&& forall|i: int| 0 <= i < n ==> final(frame)@[i] == final(self).source().payload()[i]
                })
                // A short payload arrived, or the producer was gone: the
                // cycle completes with the same cause either way.
                &&& (t.completion is Some ==> {
                    &&& t.completion == Some(Event { request_id: old(self).st().speak_request->Some_0, cause: CompletionCause::Normal })
                    &&& !t.audio
                    &&& final(self).st().speak_request is None
                    &&& final(self).st().stop_response is None
                    &&& final(self).st().paused == old(self).st().paused
                    &&& final(self).source().cleared()
                })
            }),
    {
        let emitted = self.state.stop_response;
        if emitted.is_some() {
            self.state.stop_response = None;
            self.state.speak_request = None;
            self.state.paused = false;
            self.audio_source.reset();
            return TickOutcome { emitted, completion: None, audio: false };
        }
        if self.state.speak_request.is_some() && !self.state.paused {
            let size = frame.len();
            let have_read = self.audio_source.read(frame);
            if have_read == size {
                TickOutcome { emitted: None, completion: None, audio: true }
            } else {
                let request_id = self.state.speak_request.unwrap();
                self.state.speak_request = None;
                self.audio_source.reset();
                TickOutcome {
                    emitted: None,
                    completion: Some(Event { request_id, cause: CompletionCause::Normal }),
                    audio: false,
                }
            }
        } else {
            TickOutcome { emitted: None, completion: None, audio: false }
        }
    }

    /// Exec view of the source's ready flag, for callers outside the proof.
    pub fn audio_ready(&self) -> (r: bool)
        ensures
            r == self.source().ready(),
    {
        self.audio_source.is_ready()
    }

    /// Exec view of the source's cursor, for callers outside the proof.
    pub fn audio_position(&self) -> (r: usize)
        ensures
            r == self.source().cursor(),
    {
        self.audio_source.position()
    }
}

} // verus!
