use xelis::miner::messages::{GetMinerWorkResult, SocketMessage, ThreadNotification};
use xelis::miner::session::{
    communication_step, getwork_url, handle_websocket_message, sanitize_daemon_address,
    IncomingMessage, LinkAction, LinkEvent, LinkState, MessageError, MessageOutcome, MinerStats,
    RECONNECT_DELAY_SECS,
};
use xelis::miner::work::{Algorithm, MinerWork};

fn stats() -> MinerStats {
    MinerStats { blocks_found: 3, blocks_rejected: 1, topoheight: 10 }
}

fn work() -> MinerWork {
    MinerWork { header_work_hash: [1u8; 32], timestamp: 5, nonce: 0, extra_nonce: [0u8; 32], miner: [2u8; 32] }
}

#[test]
fn new_job_is_decoded_and_handed_on() {
    let mut s = stats();
    let job = GetMinerWorkResult {
        algorithm: Some(Algorithm::V1),
        miner_work: work().to_hex(),
        height: Some(50),
        topoheight: Some(60),
        difficulty: Some(9),
    };
    let res = handle_websocket_message(&mut s, IncomingMessage::Text(Some(SocketMessage::NewJob(job))));
    assert_eq!(
        res,
        Ok(MessageOutcome {
            exit: false,
            job: Some(ThreadNotification::NewJob { algorithm: Algorithm::V1, work: work(), difficulty: 9, height: 50 }),
        })
    );
    assert_eq!(s, MinerStats { topoheight: 60, ..stats() });
}

#[test]
fn job_with_bad_work_is_an_error() {
    let mut s = stats();
    let job = GetMinerWorkResult {
        algorithm: Some(Algorithm::V1),
        miner_work: "00ff".to_string(),
        height: Some(50),
        topoheight: Some(60),
        difficulty: Some(9),
    };
    let res = handle_websocket_message(&mut s, IncomingMessage::Text(Some(SocketMessage::NewJob(job))));
    assert_eq!(res, Err(MessageError::InvalidMinerWork));
    assert_eq!(s, stats());
}

#[test]
fn job_without_all_its_parts_is_ignored() {
    let mut s = stats();
    let complete = GetMinerWorkResult {
        algorithm: Some(Algorithm::V1),
        miner_work: work().to_hex(),
        height: Some(50),
        topoheight: Some(60),
        difficulty: Some(9),
    };
    let variants = [
        GetMinerWorkResult { algorithm: None, ..complete.clone() },
        GetMinerWorkResult { height: None, ..complete.clone() },
        GetMinerWorkResult { topoheight: None, ..complete.clone() },
        GetMinerWorkResult { difficulty: None, ..complete.clone() },
        GetMinerWorkResult { difficulty: None, miner_work: "zz".to_string(), ..complete.clone() },
    ];
    for job in variants {
        let res = handle_websocket_message(&mut s, IncomingMessage::Text(Some(SocketMessage::NewJob(job))));
        assert_eq!(res, Ok(MessageOutcome { exit: false, job: None }));
    }
    assert_eq!(s, stats());
}

#[test]
fn accepted_and_rejected_blocks_are_counted() {
    let mut s = stats();
    let ok = handle_websocket_message(&mut s, IncomingMessage::Text(Some(SocketMessage::BlockAccepted)));
    assert_eq!(ok, Ok(MessageOutcome { exit: false, job: None }));
    assert_eq!(s.blocks_found, 4);
    let rejected = IncomingMessage::Text(Some(SocketMessage::BlockRejected("stale".to_string())));
    let ok = handle_websocket_message(&mut s, rejected);
    assert_eq!(ok, Ok(MessageOutcome { exit: false, job: None }));
    assert_eq!(s.blocks_rejected, 2);
    let mut full = MinerStats { blocks_found: usize::MAX, ..stats() };
    let _ = handle_websocket_message(&mut full, IncomingMessage::Text(Some(SocketMessage::BlockAccepted)));
    assert_eq!(full.blocks_found, 0);
}

#[test]
fn other_messages() {
    let mut s = stats();
    let keep = Ok(MessageOutcome { exit: false, job: None });
    let leave = Ok(MessageOutcome { exit: true, job: None });
    assert_eq!(handle_websocket_message(&mut s, IncomingMessage::Text(None)), keep);
    assert_eq!(handle_websocket_message(&mut s, IncomingMessage::Ping), keep);
    assert_eq!(handle_websocket_message(&mut s, IncomingMessage::Pong), keep);
    assert_eq!(handle_websocket_message(&mut s, IncomingMessage::Close(None)), leave);
    assert_eq!(handle_websocket_message(&mut s, IncomingMessage::Close(Some("bye".to_string()))), leave);
    assert_eq!(handle_websocket_message(&mut s, IncomingMessage::Other), leave);
    assert_eq!(handle_websocket_message(&mut s, IncomingMessage::Failed), Err(MessageError::Transport));
    assert_eq!(s, stats());
}

#[test]
fn connection_life_cycle() {
    let retry = LinkAction::RetryLater { seconds: RECONNECT_DELAY_SECS };
    let close = LinkAction::CloseAndRetry { seconds: 10 };
    assert_eq!(communication_step(LinkState::Disconnected, LinkEvent::ConnectResponse { status: 101 }), (LinkState::Connected, LinkAction::Listen));
    assert_eq!(communication_step(LinkState::Disconnected, LinkEvent::ConnectResponse { status: 404 }), (LinkState::Disconnected, retry));
    assert_eq!(communication_step(LinkState::Disconnected, LinkEvent::ConnectResponse { status: 503 }), (LinkState::Disconnected, retry));
    assert_eq!(communication_step(LinkState::Disconnected, LinkEvent::ConnectResponse { status: 600 }), (LinkState::Connected, LinkAction::Listen));
    assert_eq!(communication_step(LinkState::Disconnected, LinkEvent::ConnectError), (LinkState::Disconnected, retry));
    assert_eq!(communication_step(LinkState::Connected, LinkEvent::MessageHandled { exit: false }), (LinkState::Connected, LinkAction::Listen));
    assert_eq!(communication_step(LinkState::Connected, LinkEvent::MessageHandled { exit: true }), (LinkState::Disconnected, close));
    assert_eq!(communication_step(LinkState::Connected, LinkEvent::MessageFailed), (LinkState::Disconnected, close));
    assert_eq!(communication_step(LinkState::Connected, LinkEvent::BlockFound), (LinkState::Connected, LinkAction::Submit));
    assert_eq!(communication_step(LinkState::Connected, LinkEvent::SubmitSent), (LinkState::Connected, LinkAction::Listen));
    assert_eq!(communication_step(LinkState::Connected, LinkEvent::SubmitFailed), (LinkState::Disconnected, close));
}

#[test]
fn getwork_url_joins_its_parts() {
    assert_eq!(getwork_url("ws://127.0.0.1:8080", "xel:abc", "rig1"), "ws://127.0.0.1:8080/getwork/xel:abc/rig1");
}

#[test]
fn daemon_addresses_become_websocket_addresses() {
    assert_eq!(sanitize_daemon_address("127.0.0.1:8080"), "ws://127.0.0.1:8080");
    assert_eq!(sanitize_daemon_address("http://node.example"), "ws://node.example");
    assert_eq!(sanitize_daemon_address("https://node.example/"), "wss://node.example");
    assert_eq!(sanitize_daemon_address("wss://node.example"), "wss://node.example");
    assert_eq!(sanitize_daemon_address("ws://node.example/"), "ws://node.example");
    assert_eq!(sanitize_daemon_address("node/"), "ws://node");
}
