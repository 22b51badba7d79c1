use tts_channel::channel::Channel;
use tts_channel::engine::Engine;
use tts_channel::messages::{CompletionCause, Event, Request, RequestKind, Response, ResponseKind};

fn engine() -> Engine {
    Engine::new(String::from("hello.raw"))
}

fn speak(id: u64) -> Request {
    Request { id, kind: RequestKind::Speak }
}

fn req(id: u64, kind: RequestKind) -> Request {
    Request { id, kind }
}

fn payload(len: usize) -> Vec<u8> {
    (0..len).map(|i| (i % 251) as u8).collect()
}

#[test]
fn speak_eight_frames_then_completion() {
    let e = engine();
    assert_eq!(e.filename().as_str(), "hello.raw");
    let mut c = Channel::new(&e);
    let out = c.synth_channel_request_dispatch(speak(1), true);
    assert_eq!(
        out.response,
        Some(Response { request_id: 1, kind: ResponseKind::InProgress })
    );
    let job = out.job.expect("an accepted speak launches a job");
    assert_eq!(job.filename, "hello.raw");
    assert_eq!(c.state().speak_request, Some(1));

    // The job delivers the whole 8000-byte payload.
    let audio = payload(8000);
    job.result_tx.send(audio.clone()).unwrap();

    // Eight full 1000-byte audio frames...
    for k in 0..8usize {
        let mut frame = vec![0u8; 1000];
        let t = c.stream_read(&mut frame);
        assert!(t.audio);
        assert!(t.emitted.is_none());
        assert!(t.completion.is_none());
        assert_eq!(&frame[..], &audio[k * 1000..(k + 1) * 1000]);
    }
    // ...then one zero-byte read that triggers the completion event.
    let mut frame = vec![0u8; 1000];
    let t = c.stream_read(&mut frame);
    assert!(!t.audio);
    assert_eq!(
        t.completion,
        Some(Event { request_id: 1, cause: CompletionCause::Normal })
    );
    assert_eq!(c.state().speak_request, None);

    // Afterwards the channel is idle: ticks change nothing.
    let t = c.stream_read(&mut frame);
    assert!(!t.audio);
    assert!(t.completion.is_none());
    assert!(t.emitted.is_none());
}

#[test]
fn silence_frames_while_synthesis_is_warming_up() {
    let e = engine();
    let mut c = Channel::new(&e);
    let out = c.synth_channel_request_dispatch(speak(1), true);
    let _tx = out.job.unwrap().result_tx;
    assert!(!c.audio_ready());
    // No result yet: the tick still gets a full frame, of silence.
    let mut frame = vec![0xAAu8; 100];
    let t = c.stream_read(&mut frame);
    assert!(t.audio);
    assert!(t.completion.is_none());
    assert!(frame.iter().all(|&b| b == 0));
    assert_eq!(c.audio_position(), 0);
    assert!(!c.audio_ready());
}

#[test]
fn stop_before_completion_surfaces_on_next_tick() {
    let e = engine();
    let mut c = Channel::new(&e);
    let out = c.synth_channel_request_dispatch(speak(1), true);
    let _tx = out.job.unwrap().result_tx;

    let out = c.synth_channel_request_dispatch(req(2, RequestKind::Stop), true);
    assert!(out.response.is_none(), "the stop response is deferred");
    assert!(out.job.is_none());

    let mut frame = vec![7u8; 16];
    let t = c.stream_read(&mut frame);
    assert_eq!(
        t.emitted,
        Some(Response { request_id: 2, kind: ResponseKind::Success })
    );
    assert!(!t.audio);
    assert!(t.completion.is_none());
    assert_eq!(&frame[..], &[7u8; 16], "the stop tick does not touch the frame");
    assert_eq!(c.state().speak_request, None);
    assert_eq!(c.state().stop_response, None);

    // Subsequent ticks: silence only, nothing emitted.
    let t = c.stream_read(&mut frame);
    assert!(!t.audio);
    assert!(t.emitted.is_none());
    assert!(t.completion.is_none());
}

#[test]
fn pause_holds_the_cursor_and_resume_continues() {
    let e = engine();
    let mut c = Channel::new(&e);
    let out = c.synth_channel_request_dispatch(speak(1), true);
    let audio = payload(3000);
    out.job.unwrap().result_tx.send(audio.clone()).unwrap();

    let mut frame = vec![0u8; 1000];
    let t = c.stream_read(&mut frame);
    assert!(t.audio);
    assert_eq!(c.audio_position(), 1000);

    let out = c.synth_channel_request_dispatch(req(2, RequestKind::Pause), true);
    assert_eq!(
        out.response,
        Some(Response { request_id: 2, kind: ResponseKind::Success })
    );
    // Paused ticks do not advance the cursor.
    for _ in 0..5 {
        let t = c.stream_read(&mut frame);
        assert!(!t.audio);
        assert!(t.completion.is_none());
        assert_eq!(c.audio_position(), 1000);
    }

    let out = c.synth_channel_request_dispatch(req(3, RequestKind::Resume), true);
    assert_eq!(
        out.response,
        Some(Response { request_id: 3, kind: ResponseKind::Success })
    );
    // The cursor resumes from the same offset.
    let t = c.stream_read(&mut frame);
    assert!(t.audio);
    assert_eq!(c.audio_position(), 2000);
    assert_eq!(&frame[..], &audio[1000..2000]);
}

#[test]
fn unresolvable_locator_completes_with_normal_cause() {
    let e = Engine::new(String::from("no-such-resource.raw"));
    let mut c = Channel::new(&e);
    let out = c.synth_channel_request_dispatch(speak(1), true);
    // The job fails to open the resource and goes away without sending.
    drop(out.job);
    let mut frame = vec![0u8; 1000];
    let t = c.stream_read(&mut frame);
    assert!(!t.audio);
    assert_eq!(
        t.completion,
        Some(Event { request_id: 1, cause: CompletionCause::Normal })
    );
    assert_eq!(c.state().speak_request, None);
}

#[test]
fn new_speak_replaces_the_active_cycle() {
    let e = engine();
    let mut c = Channel::new(&e);
    let first = c.synth_channel_request_dispatch(speak(1), true);
    let first_tx = first.job.unwrap().result_tx;
    first_tx.send(payload(2000)).unwrap();
    let mut frame = vec![0u8; 1000];
    assert!(c.stream_read(&mut frame).audio);
    assert_eq!(c.audio_position(), 1000);

    // A second speak starts a fresh cycle: the source is reset and the old
    // cycle's channel is replaced.
    let second = c.synth_channel_request_dispatch(speak(2), true);
    assert_eq!(c.state().speak_request, Some(2));
    assert_eq!(c.audio_position(), 0);
    assert!(!c.audio_ready());

    // A late result of the first job can no longer be delivered.
    assert!(first_tx.send(payload(500)).is_err());
    let t = c.stream_read(&mut frame);
    assert!(t.audio);
    assert!(frame.iter().all(|&b| b == 0), "the new cycle is still warming up");

    // The second cycle's audio flows once its own job delivers.
    let audio = payload(1000);
    second.job.unwrap().result_tx.send(audio.clone()).unwrap();
    let t = c.stream_read(&mut frame);
    assert!(t.audio);
    assert_eq!(&frame[..], &audio[..]);
}

#[test]
fn speak_rejected_when_codec_unavailable() {
    let e = engine();
    let mut c = Channel::new(&e);
    let out = c.synth_channel_request_dispatch(speak(1), false);
    assert_eq!(
        out.response,
        Some(Response { request_id: 1, kind: ResponseKind::MethodFailed })
    );
    assert!(out.job.is_none());
    assert_eq!(c.state().speak_request, None, "no state change on rejection");
}

#[test]
fn unrecognized_request_fails_immediately() {
    let e = engine();
    let mut c = Channel::new(&e);
    let out = c.synth_channel_request_dispatch(req(9, RequestKind::Other), true);
    assert_eq!(
        out.response,
        Some(Response { request_id: 9, kind: ResponseKind::MethodFailed })
    );
    assert!(out.job.is_none());
    assert_eq!(c.state().speak_request, None);
    assert!(!c.state().paused);
}

#[test]
fn second_stop_overwrites_the_first() {
    let e = engine();
    let mut c = Channel::new(&e);
    c.synth_channel_request_dispatch(speak(1), true);
    c.synth_channel_request_dispatch(req(2, RequestKind::Stop), true);
    c.synth_channel_request_dispatch(req(3, RequestKind::Stop), true);
    let mut frame = vec![0u8; 8];
    let t = c.stream_read(&mut frame);
    // Last write wins: the surfaced response belongs to the second stop.
    assert_eq!(
        t.emitted,
        Some(Response { request_id: 3, kind: ResponseKind::Success })
    );
}

#[test]
fn barge_in_acts_as_stop() {
    let e = engine();
    let mut c = Channel::new(&e);
    c.synth_channel_request_dispatch(speak(1), true);
    let out = c.synth_channel_request_dispatch(req(2, RequestKind::BargeIn), true);
    assert!(out.response.is_none());
    let mut frame = vec![0u8; 8];
    let t = c.stream_read(&mut frame);
    assert_eq!(
        t.emitted,
        Some(Response { request_id: 2, kind: ResponseKind::Success })
    );
}

#[test]
fn requests_are_still_accepted_while_a_stop_is_pending() {
    let e = engine();
    let mut c = Channel::new(&e);
    c.synth_channel_request_dispatch(speak(1), true);
    c.synth_channel_request_dispatch(req(2, RequestKind::Stop), true);
    // The state machine does not special-case a pending stop.
    let out = c.synth_channel_request_dispatch(speak(3), true);
    assert_eq!(
        out.response,
        Some(Response { request_id: 3, kind: ResponseKind::InProgress })
    );
    assert_eq!(c.state().speak_request, Some(3));
    // The pending stop still takes priority at the next frame boundary and
    // tears the new cycle down with it.
    let mut frame = vec![0u8; 8];
    let t = c.stream_read(&mut frame);
    assert_eq!(
        t.emitted,
        Some(Response { request_id: 2, kind: ResponseKind::Success })
    );
    assert_eq!(c.state().speak_request, None);
}
