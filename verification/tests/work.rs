use xelis::miner::messages::{GetMinerWorkResult, SocketMessage, ThreadNotification};
use xelis::miner::work::{Algorithm, MinerWork, BLOCK_WORK_SIZE};

fn sample_work() -> MinerWork {
    MinerWork {
        header_work_hash: [0xabu8; 32],
        timestamp: 0x0102030405060708,
        nonce: 42,
        extra_nonce: [0u8; 32],
        miner: [0xcdu8; 32],
    }
}

#[test]
fn work_bytes_layout_is_big_endian() {
    let bytes = sample_work().to_bytes();
    assert_eq!(bytes.len(), BLOCK_WORK_SIZE);
    assert_eq!(&bytes[..32], &[0xabu8; 32][..]);
    assert_eq!(&bytes[32..40], &[1u8, 2, 3, 4, 5, 6, 7, 8][..]);
    assert_eq!(&bytes[40..48], &[0u8, 0, 0, 0, 0, 0, 0, 42][..]);
    assert_eq!(&bytes[48..80], &[0u8; 32][..]);
    assert_eq!(&bytes[80..], &[0xcdu8; 32][..]);
}

#[test]
fn work_bytes_roundtrip() {
    let work = sample_work();
    assert_eq!(MinerWork::from_bytes(&work.to_bytes()), Some(work));
    assert_eq!(MinerWork::from_bytes(&[0u8; 111]), None);
    assert_eq!(MinerWork::from_bytes(&[0u8; 113]), None);
}

#[test]
fn work_hex_roundtrip() {
    let work = sample_work();
    let hex = work.to_hex();
    assert_eq!(hex.len(), 2 * BLOCK_WORK_SIZE);
    assert!(hex.starts_with("abab"));
    assert_eq!(MinerWork::from_hex(&hex), Some(work));
    assert_eq!(MinerWork::from_hex(&hex.to_uppercase()), Some(work));
    assert_eq!(MinerWork::from_hex(&hex[2..]), None);
    assert_eq!(MinerWork::from_hex("zz"), None);
}

#[test]
fn thread_id_goes_into_the_extra_nonce() {
    let mut work = sample_work();
    work.set_thread_id_u16(0x1234);
    assert_eq!(work.extra_nonce[30], 0x12);
    assert_eq!(work.extra_nonce[31], 0x34);
    assert_eq!(&work.extra_nonce[..30], &[0u8; 30][..]);
    assert_eq!(work.timestamp, sample_work().timestamp);
    work.set_timestamp(99);
    assert_eq!(work.get_timestamp(), 99);
}

#[test]
fn new_job_notification_becomes_a_socket_message() {
    let work = sample_work();
    let notification = ThreadNotification::NewJob { algorithm: Algorithm::V2, work, difficulty: 1000, height: 77 };
    let expected = Some(SocketMessage::NewJob(GetMinerWorkResult {
        algorithm: None,
        miner_work: work.to_hex(),
        height: None,
        topoheight: None,
        difficulty: None,
    }));
    assert_eq!(notification.into_socket_message(), expected);
    // the message depends on the block work alone
    let other = ThreadNotification::NewJob { algorithm: Algorithm::V1, work, difficulty: 5, height: 9 };
    assert_eq!(other.into_socket_message(), expected);
    assert_eq!(GetMinerWorkResult::from_work(work), match expected { Some(SocketMessage::NewJob(job)) => job, _ => unreachable!() });
    assert_eq!(ThreadNotification::Exit.into_socket_message(), None);
    assert_eq!(ThreadNotification::WebSocketClosed.into_socket_message(), None);
}
