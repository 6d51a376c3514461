use xelis::miner::messages::ThreadNotification;
use xelis::miner::thread::{
    mining_step, refreshed_timestamp, should_poll, thread_action, MiningJob, MiningStep, ThreadAction,
};
use xelis::miner::work::{Algorithm, MinerWork};

fn work() -> MinerWork {
    MinerWork { header_work_hash: [1u8; 32], timestamp: 1000, nonce: 7, extra_nonce: [9u8; 32], miner: [2u8; 32] }
}

#[test]
fn notifications_become_thread_actions() {
    assert_eq!(thread_action(1, None), ThreadAction::DrainLagged);
    assert_eq!(thread_action(1, Some(ThreadNotification::WebSocketClosed)), ThreadAction::WaitForJob);
    assert_eq!(thread_action(1, Some(ThreadNotification::Exit)), ThreadAction::Stop);
    let job = ThreadNotification::NewJob { algorithm: Algorithm::V2, work: work(), difficulty: 5, height: 3 };
    let mut expected_work = work();
    expected_work.extra_nonce[30] = 0x01;
    expected_work.extra_nonce[31] = 0x02;
    assert_eq!(
        thread_action(0x0102, Some(job)),
        ThreadAction::Mine(MiningJob {
            algorithm: Algorithm::V2,
            work: expected_work,
            difficulty: 5,
            height: 3,
            initial_timestamp: 1000,
        })
    );
}

#[test]
fn threads_mine_different_works() {
    let job = |id| match thread_action(id, Some(ThreadNotification::NewJob { algorithm: Algorithm::V1, work: work(), difficulty: 1, height: 1 })) {
        ThreadAction::Mine(job) => job.work,
        _ => unreachable!(),
    };
    assert_ne!(job(0), job(1));
    assert_ne!(job(1), job(256));
}

#[test]
fn polls_every_ten_nonces() {
    assert!(should_poll(0));
    assert!(!should_poll(1));
    assert!(!should_poll(9));
    assert!(should_poll(10));
    assert!(should_poll(1230));
}

#[test]
fn timestamp_moves_with_elapsed_time() {
    assert_eq!(refreshed_timestamp(1000, 250), 1250);
    assert_eq!(refreshed_timestamp(5, (1u128 << 64) + 3), 8);
}

#[test]
fn mining_steps() {
    assert_eq!(mining_step(0, true, true), MiningStep::Submit);
    assert_eq!(mining_step(7, true, false), MiningStep::Submit);
    assert_eq!(mining_step(0, false, true), MiningStep::Abandon);
    assert_eq!(mining_step(20, false, true), MiningStep::Abandon);
    assert_eq!(mining_step(21, false, true), MiningStep::Continue { poll: false });
    assert_eq!(mining_step(30, false, false), MiningStep::Continue { poll: true });
    assert_eq!(mining_step(31, false, false), MiningStep::Continue { poll: false });
}

#[test]
fn stale_job_is_dropped_within_ten_nonces() {
    for start in 0u64..25 {
        let dropped = (start..start + 10).any(|t| mining_step(t, false, true) == MiningStep::Abandon);
        assert!(dropped);
    }
}
