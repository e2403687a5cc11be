use ws_control::frame::{greeting, FrameSend, FrameStep, SendOutcome};
use ws_control::report::Opcode;
use ws_control::settings::EndpointRole;

/// Drives a send to completion, answering each step from `answer`, and
/// returns every step handed out.
fn drive(f: &mut FrameSend, answer: impl Fn(FrameStep) -> bool) -> Vec<FrameStep> {
    let mut steps = vec![f.pending()];
    let mut s = f.pending();
    while s != FrameStep::Done {
        s = f.step(answer(s));
        steps.push(s);
    }
    steps
}

fn destroys(steps: &[FrameStep]) -> usize {
    steps.iter().filter(|s| **s == FrameStep::Destroy).count()
}

#[test]
fn client_greets_with_one_text_frame() {
    let mut g = greeting(EndpointRole::Client, true).expect("client greets");
    assert_eq!(g.pending(), FrameStep::Create(Opcode::Text));
    let steps = drive(&mut g, |_| true);
    assert_eq!(
        steps,
        vec![
            FrameStep::Create(Opcode::Text),
            FrameStep::Append(0),
            FrameStep::Transmit,
            FrameStep::Destroy,
            FrameStep::Done,
        ]
    );
    assert_eq!(g.chunk(0).as_slice(), b"hello world!");
    assert_eq!(steps.iter().filter(|s| **s == FrameStep::Transmit).count(), 1);
    assert_eq!(g.outcome(), Some(SendOutcome::Sent));
}

#[test]
fn server_sends_no_greeting() {
    assert!(greeting(EndpointRole::Server, true).is_none());
}

#[test]
fn no_greeting_without_frame_helpers() {
    assert!(greeting(EndpointRole::Client, false).is_none());
}

#[test]
fn rejected_chunk_still_destroys_once() {
    let chunks = vec![b"ab".to_vec(), b"cd".to_vec(), b"ef".to_vec()];
    let mut f = FrameSend::new(Opcode::Binary, chunks);
    let steps = drive(&mut f, |s| s != FrameStep::Append(1));
    assert_eq!(
        steps,
        vec![
            FrameStep::Create(Opcode::Binary),
            FrameStep::Append(0),
            FrameStep::Append(1),
            FrameStep::Destroy,
            FrameStep::Done,
        ]
    );
    assert_eq!(destroys(&steps), 1);
    assert_eq!(f.outcome(), Some(SendOutcome::AppendRejected));
}

#[test]
fn failed_transmit_still_destroys_once() {
    let mut f = FrameSend::new(Opcode::Text, vec![b"x".to_vec()]);
    let steps = drive(&mut f, |s| s != FrameStep::Transmit);
    assert_eq!(destroys(&steps), 1);
    assert_eq!(steps[steps.len() - 2], FrameStep::Destroy);
    assert_eq!(f.outcome(), Some(SendOutcome::TransmitFailed));
}

#[test]
fn failed_create_destroys_nothing() {
    let mut f = FrameSend::new(Opcode::Text, vec![b"x".to_vec()]);
    let steps = drive(&mut f, |_| false);
    assert_eq!(steps, vec![FrameStep::Create(Opcode::Text), FrameStep::Done]);
    assert_eq!(destroys(&steps), 0);
    assert_eq!(f.outcome(), Some(SendOutcome::NotCreated));
}

#[test]
fn empty_frame_goes_straight_to_transmit() {
    let mut f = FrameSend::new(Opcode::Pong, Vec::new());
    let steps = drive(&mut f, |_| true);
    assert_eq!(
        steps,
        vec![
            FrameStep::Create(Opcode::Pong),
            FrameStep::Transmit,
            FrameStep::Destroy,
            FrameStep::Done,
        ]
    );
}

#[test]
fn finished_send_stays_done() {
    let mut f = FrameSend::new(Opcode::Text, Vec::new());
    drive(&mut f, |_| true);
    assert_eq!(f.step(true), FrameStep::Done);
    assert_eq!(f.step(false), FrameStep::Done);
    assert_eq!(f.outcome(), Some(SendOutcome::Sent));
}
