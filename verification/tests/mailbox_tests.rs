use tts_channel::channel::Channel;
use tts_channel::engine::Engine;
use tts_channel::mailbox::{
    channel_close, channel_open, channel_process_request, synth_msg_process, Mailbox, WorkerOutput,
};
use tts_channel::messages::{Request, RequestKind, ResponseKind, TaskMsg};

fn req(id: u64, kind: RequestKind) -> Request {
    Request { id, kind }
}

#[test]
fn messages_leave_in_submission_order() {
    let mut m = Mailbox::new();
    channel_open(&mut m);
    channel_process_request(&mut m, req(1, RequestKind::Speak));
    channel_process_request(&mut m, req(2, RequestKind::Stop));
    channel_close(&mut m);
    assert_eq!(m.len(), 4);

    assert_eq!(m.take_next(), Some(TaskMsg::OpenChannel));
    assert_eq!(
        m.take_next(),
        Some(TaskMsg::RequestProcess(req(1, RequestKind::Speak)))
    );
    assert_eq!(
        m.take_next(),
        Some(TaskMsg::RequestProcess(req(2, RequestKind::Stop)))
    );
    assert_eq!(m.take_next(), Some(TaskMsg::CloseChannel));
    assert_eq!(m.take_next(), None);
    assert_eq!(m.len(), 0);
}

#[test]
fn interleaved_signal_and_take_keeps_order() {
    let mut m = Mailbox::new();
    channel_process_request(&mut m, req(1, RequestKind::Pause));
    channel_process_request(&mut m, req(2, RequestKind::Resume));
    assert_eq!(
        m.take_next(),
        Some(TaskMsg::RequestProcess(req(1, RequestKind::Pause)))
    );
    channel_process_request(&mut m, req(3, RequestKind::Stop));
    assert_eq!(
        m.take_next(),
        Some(TaskMsg::RequestProcess(req(2, RequestKind::Resume)))
    );
    assert_eq!(
        m.take_next(),
        Some(TaskMsg::RequestProcess(req(3, RequestKind::Stop)))
    );
}

#[test]
fn worker_executes_each_message_kind() {
    let e = Engine::new(String::from("hello.raw"));
    let mut c = Channel::new(&e);

    let out = synth_msg_process(&mut c, TaskMsg::OpenChannel, true);
    assert!(matches!(out, WorkerOutput::Opened));

    let out = synth_msg_process(
        &mut c,
        TaskMsg::RequestProcess(req(1, RequestKind::Speak)),
        true,
    );
    match out {
        WorkerOutput::Dispatched(d) => {
            let resp = d.response.unwrap();
            assert_eq!(resp.request_id, 1);
            assert_eq!(resp.kind, ResponseKind::InProgress);
            assert!(d.job.is_some());
        }
        _ => panic!("a request message must be dispatched"),
    }
    assert_eq!(c.state().speak_request, Some(1));

    let out = synth_msg_process(&mut c, TaskMsg::CloseChannel, true);
    assert!(matches!(out, WorkerOutput::Closed));
    assert_eq!(c.state().speak_request, Some(1), "close does not touch state");
}

#[test]
fn requests_processed_in_fifo_order_change_state_in_order() {
    let e = Engine::new(String::from("hello.raw"));
    let mut c = Channel::new(&e);
    let mut m = Mailbox::new();
    channel_process_request(&mut m, req(1, RequestKind::Speak));
    channel_process_request(&mut m, req(2, RequestKind::Pause));
    channel_process_request(&mut m, req(3, RequestKind::Resume));

    while let Some(msg) = m.take_next() {
        synth_msg_process(&mut c, msg, true);
    }
    // Resume was submitted last, so it was processed last.
    assert!(!c.state().paused);
    assert_eq!(c.state().speak_request, Some(1));
}
