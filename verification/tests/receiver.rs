use rdev::codec::encode;
use rdev::config::{Endpoint, Receiver, Sender};
use rdev::failure::Failure;
use rdev::receiver::{
    ReceiverAction, ReceiverEvent, ReceiverPhase, ReceiverPipeline, EXECUTABLE_MODE, OWNER_EXECUTE,
};
use rdev::sender::{SenderAction, SenderEvent, SenderPipeline};
use rdev::watch::{ChangeEvent, ChangeKind, WatchHandle};

fn config(file: &str) -> Receiver {
    Receiver { file: file.to_owned(), listen: Endpoint::new("127.0.0.1:9000".to_owned()) }
}

fn accepting(file: &str) -> ReceiverPipeline {
    let mut receiver = ReceiverPipeline::new(config(file)).unwrap();
    receiver.step(ReceiverEvent::Started);
    assert_eq!(receiver.step(ReceiverEvent::Bound), ReceiverAction::Accept);
    receiver
}

#[test]
fn receiver_needs_a_file_name() {
    for file in ["", "/", ".", "..", "out/..", "./"] {
        assert_eq!(ReceiverPipeline::new(config(file)).err(), Some(Failure::InvalidPath));
    }
}

#[test]
fn receiver_stores_a_bare_name_in_the_current_directory() {
    assert_eq!(ReceiverPipeline::new(config("artifact")).unwrap().destination(), "./artifact");
    assert_eq!(ReceiverPipeline::new(config("out/artifact")).unwrap().destination(), "out/artifact");
    assert_eq!(ReceiverPipeline::new(config("/opt/artifact")).unwrap().destination(), "/opt/artifact");
    assert_eq!(ReceiverPipeline::new(config("/artifact")).unwrap().destination(), "/artifact");
    assert_eq!(ReceiverPipeline::new(config("out//artifact/")).unwrap().destination(), "out/artifact");
}

#[test]
fn receiver_starts_by_binding_its_endpoint() {
    let mut receiver = ReceiverPipeline::new(config("artifact")).unwrap();
    assert_eq!(receiver.phase(), ReceiverPhase::Idle);
    assert_eq!(
        receiver.step(ReceiverEvent::Started),
        ReceiverAction::Bind { endpoint: Endpoint::new("127.0.0.1:9000".to_owned()) }
    );
    assert_eq!(receiver.phase(), ReceiverPhase::Binding);
    assert_eq!(receiver.step(ReceiverEvent::Bound), ReceiverAction::Accept);
    assert_eq!(receiver.phase(), ReceiverPhase::Accepting);
}

#[test]
fn receiver_stores_what_it_received_as_an_executable() {
    let mut receiver = accepting("artifact");
    let contents = b"#!/bin/sh\nexit 3\n".to_vec();
    let wire = encode(&contents).unwrap();
    assert_eq!(
        receiver.step(ReceiverEvent::Received(wire)),
        ReceiverAction::Persist { path: "./artifact".to_owned(), mode: 0o755, contents }
    );
    assert_eq!(receiver.phase(), ReceiverPhase::Persisting);
}

#[test]
fn stored_files_may_be_run_by_their_owner() {
    assert_eq!(EXECUTABLE_MODE, 0o755);
    assert_eq!(OWNER_EXECUTE, 0o100);
    assert_eq!(EXECUTABLE_MODE & OWNER_EXECUTE, OWNER_EXECUTE);
    assert_eq!(EXECUTABLE_MODE & 0o011, 0o011);
    assert_eq!(EXECUTABLE_MODE & 0o022, 0);
}

#[test]
fn receiver_runs_the_file_once_it_is_written() {
    let mut receiver = accepting("out/artifact");
    receiver.step(ReceiverEvent::Received(encode(b"x").unwrap()));
    assert_eq!(
        receiver.step(ReceiverEvent::Persisted),
        ReceiverAction::Execute { path: "out/artifact".to_owned() }
    );
    assert_eq!(receiver.phase(), ReceiverPhase::Executing);
}

#[test]
fn receiver_accepts_again_however_the_file_ended() {
    for code in [Some(0), Some(1), Some(-1), Some(255), None] {
        let mut receiver = accepting("artifact");
        receiver.step(ReceiverEvent::Received(encode(b"x").unwrap()));
        receiver.step(ReceiverEvent::Persisted);
        assert_eq!(receiver.step(ReceiverEvent::Exited(code)), ReceiverAction::Accept);
        assert_eq!(receiver.phase(), ReceiverPhase::Accepting);
    }
}

#[test]
fn receiver_refuses_a_stream_it_cannot_read() {
    let mut receiver = accepting("artifact");
    assert_eq!(
        receiver.step(ReceiverEvent::Received(b"not a stream".to_vec())),
        ReceiverAction::Abort { failure: Failure::Codec }
    );
    assert_eq!(receiver.phase(), ReceiverPhase::Failed(Failure::Codec));

    let mut cut = accepting("artifact");
    let wire = encode(&vec![7u8; 10_000]).unwrap();
    assert_eq!(
        cut.step(ReceiverEvent::Received(wire[..wire.len() - 4].to_vec())),
        ReceiverAction::Abort { failure: Failure::Codec }
    );
}

#[test]
fn receiver_takes_the_outcome_of_decompressing() {
    let mut receiver = accepting("artifact");
    assert_eq!(
        receiver.on_decoded(Ok(vec![9, 8, 7])),
        ReceiverAction::Persist { path: "./artifact".to_owned(), mode: 0o755, contents: vec![9, 8, 7] }
    );

    let mut failing = accepting("artifact");
    assert_eq!(failing.on_decoded(Err(Failure::Codec)), ReceiverAction::Abort { failure: Failure::Codec });
    assert_eq!(failing.phase(), ReceiverPhase::Failed(Failure::Codec));

    let mut idle = ReceiverPipeline::new(config("artifact")).unwrap();
    assert_eq!(idle.on_decoded(Ok(vec![1])), ReceiverAction::Abort { failure: Failure::Unexpected });
}

#[test]
fn receiver_failure_is_final() {
    let mut receiver = ReceiverPipeline::new(config("artifact")).unwrap();
    receiver.step(ReceiverEvent::Started);
    assert_eq!(
        receiver.step(ReceiverEvent::Failed(Failure::Resource)),
        ReceiverAction::Abort { failure: Failure::Resource }
    );
    for event in [
        ReceiverEvent::Started,
        ReceiverEvent::Bound,
        ReceiverEvent::Received(encode(b"x").unwrap()),
        ReceiverEvent::Persisted,
        ReceiverEvent::Exited(Some(0)),
        ReceiverEvent::Failed(Failure::Process),
    ] {
        assert_eq!(receiver.step(event), ReceiverAction::Abort { failure: Failure::Resource });
        assert_eq!(receiver.phase(), ReceiverPhase::Failed(Failure::Resource));
    }
}

#[test]
fn receiver_stops_when_the_file_cannot_be_started() {
    let mut receiver = accepting("artifact");
    receiver.step(ReceiverEvent::Received(encode(b"x").unwrap()));
    receiver.step(ReceiverEvent::Persisted);
    assert_eq!(
        receiver.step(ReceiverEvent::Failed(Failure::Process)),
        ReceiverAction::Abort { failure: Failure::Process }
    );
}

#[test]
fn receiver_stops_on_an_event_out_of_turn() {
    let unexpected = ReceiverAction::Abort { failure: Failure::Unexpected };
    let mut idle = ReceiverPipeline::new(config("artifact")).unwrap();
    assert_eq!(idle.step(ReceiverEvent::Bound), unexpected);

    let mut second_transfer = accepting("artifact");
    second_transfer.step(ReceiverEvent::Received(encode(b"x").unwrap()));
    assert_eq!(second_transfer.step(ReceiverEvent::Received(encode(b"y").unwrap())), unexpected);

    let mut run_early = accepting("artifact");
    assert_eq!(run_early.step(ReceiverEvent::Persisted), unexpected);

    let mut exited_early = accepting("artifact");
    assert_eq!(exited_early.step(ReceiverEvent::Exited(Some(0))), unexpected);
}

#[test]
fn a_change_travels_from_the_sender_to_the_receiver() {
    let address = "127.0.0.1:9000";
    let mut receiver = ReceiverPipeline::new(Receiver {
        file: "artifact".to_owned(),
        listen: Endpoint::new(address.to_owned()),
    })
    .unwrap();
    assert_eq!(
        receiver.step(ReceiverEvent::Started),
        ReceiverAction::Bind { endpoint: Endpoint::new(address.to_owned()) }
    );
    assert_eq!(receiver.step(ReceiverEvent::Bound), ReceiverAction::Accept);

    let mut sender = SenderPipeline::new(Sender {
        file: "work/artifact".to_owned(),
        receiver_addr: Endpoint::new(address.to_owned()),
    })
    .unwrap();
    assert_eq!(sender.step(SenderEvent::Started), SenderAction::Arm { directory: "work".to_owned() });
    assert_eq!(sender.step(SenderEvent::Armed(WatchHandle { id: 1 })), SenderAction::Poll);

    let written = vec![ChangeEvent {
        kind: ChangeKind::ClosedAfterWrite,
        name: Some("artifact".to_owned()),
    }];
    assert_eq!(
        sender.step(SenderEvent::Changed(written)),
        SenderAction::Disarm { handle: WatchHandle { id: 1 } }
    );
    assert_eq!(
        sender.step(SenderEvent::Disarmed),
        SenderAction::Strip { input: "work/artifact".to_owned(), output: "/tmp/artifact".to_owned() }
    );

    let stripped: Vec<u8> = (0..20_000u32).map(|i| (i * i % 253) as u8).collect();
    let payload = match sender.step(SenderEvent::Stripped(stripped.clone())) {
        SenderAction::Send { endpoint, payload } => {
            assert_eq!(endpoint.address(), address);
            payload
        }
        other => panic!("unexpected action {:?}", other),
    };
    assert_eq!(sender.step(SenderEvent::Sent), SenderAction::Arm { directory: "work".to_owned() });

    assert_eq!(
        receiver.step(ReceiverEvent::Received(payload)),
        ReceiverAction::Persist {
            path: "./artifact".to_owned(),
            mode: EXECUTABLE_MODE,
            contents: stripped
        }
    );
    let mut launches = 0;
    let mut action = receiver.step(ReceiverEvent::Persisted);
    if action == (ReceiverAction::Execute { path: "./artifact".to_owned() }) {
        launches += 1;
        action = receiver.step(ReceiverEvent::Exited(Some(0)));
    }
    assert_eq!(action, ReceiverAction::Accept);
    assert_eq!(launches, 1);
}
