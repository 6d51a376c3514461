//! A mining thread's decisions: what to do with each notification, when to
//! look for a newer job, and the timestamp of the work being hashed.
use crate::miner::messages::ThreadNotification;
use crate::miner::work::{Algorithm, Difficulty, MinerWork};
use vstd::prelude::*;

verus! {

/// How many nonces a thread tries between two looks for a newer job (and
/// two updates of the work's timestamp and of the hash counter).
pub const UPDATE_EVERY_NONCE: u64 = 10;

/// A job as a mining thread works on it.
#[derive(Debug, Clone, PartialEq, Eq)]
pub struct MiningJob {
    /// The proof-of-work algorithm.
    pub algorithm: Algorithm,
    /// The block work, with the thread's id in its extra nonce.
    pub work: MinerWork,
    /// The difficulty the block must reach.
    pub difficulty: Difficulty,
    /// The height of the block.
    pub height: u64,
    /// The work's timestamp when the job arrived, in milliseconds.
    pub initial_timestamp: u64,
}

/// What a mining thread does next.
#[derive(Debug, Clone, PartialEq, Eq)]
pub enum ThreadAction {
    /// Receiving failed (the channel lags): empty it, pause, receive again.
    DrainLagged,
    /// The connection closed: wait until a new job is pending.
    WaitForJob,
    /// Stop the thread.
    Stop,
    /// Mine the job.
    Mine(MiningJob),
}

/// Whether `w` is `orig` with the thread id `id` written, big-endian, into
/// the last two bytes of its extra nonce.
pub open spec fn is_thread_work(orig: MinerWork, id: u16, w: MinerWork) -> bool {
    &&& w.extra_nonce@ == orig.extra_nonce@.update(30, (id >> 8u16) as u8).update(31, id as u8)
    &&& w.header_work_hash == orig.header_work_hash
    &&& w.timestamp == orig.timestamp
    &&& w.nonce == orig.nonce
    &&& w.miner == orig.miner
}

/// What thread `id` does with what it received (`None` when receiving
/// failed): a new job is mined with the thread's id in its extra nonce.
pub fn thread_action(id: u16, received: Option<ThreadNotification>) -> (res: ThreadAction)
    ensures
        match received {
            None => res == ThreadAction::DrainLagged,
            Some(ThreadNotification::WebSocketClosed) => res == ThreadAction::WaitForJob,
            Some(ThreadNotification::Exit) => res == ThreadAction::Stop,
            Some(ThreadNotification::NewJob { algorithm, work, difficulty, height }) => match res {
                ThreadAction::Mine(job) => {
                    &&& job.algorithm == algorithm
                    &&& is_thread_work(work, id, job.work)
                    &&& job.difficulty == difficulty
                    &&& job.height == height
                    &&& job.initial_timestamp == work.timestamp
                },
                _ => false,
            },
        },
{
    match received {
        None => ThreadAction::DrainLagged,
        Some(ThreadNotification::WebSocketClosed) => ThreadAction::WaitForJob,
        Some(ThreadNotification::Exit) => ThreadAction::Stop,
        Some(ThreadNotification::NewJob { algorithm, work, difficulty, height }) => {
            let mut new_work = work;
            new_work.set_thread_id_u16(id);
            let initial_timestamp = new_work.get_timestamp();
            ThreadAction::Mine(
                MiningJob { algorithm, work: new_work, difficulty, height, initial_timestamp },
            )
        },
    }
}

/// Whether, after `tries` failed nonces, the thread looks for a newer job.
pub fn should_poll(tries: u64) -> (res: bool)
    ensures
        res == (tries % UPDATE_EVERY_NONCE == 0),
{
    tries % UPDATE_EVERY_NONCE == 0
}

/// What a mining thread does after hashing a nonce of its job.
#[derive(Debug, Clone, Copy, PartialEq, Eq, Structural)]
pub enum MiningStep {
    /// The hash meets the target: send the work as a found block.
    Submit,
    /// A newer notification is pending: drop the job and take it.
    Abandon,
    /// Try the next nonce; when `poll` is set, first refresh the work's
    /// timestamp and add the nonces tried to the hash counter.
    Continue { poll: bool },
}

/// The step after `tries` failed nonces, given whether the last hash meets
/// the target and whether a newer notification is pending (looked at only
/// every [`UPDATE_EVERY_NONCE`] nonces).
pub open spec fn mining_step_of(tries: u64, meets_target: bool, job_pending: bool) -> MiningStep {
    if meets_target {
        MiningStep::Submit
    } else if tries % UPDATE_EVERY_NONCE == 0 && job_pending {
        MiningStep::Abandon
    } else {
        MiningStep::Continue { poll: tries % UPDATE_EVERY_NONCE == 0 }
    }
}

/// What a mining thread does after hashing a nonce (see [`mining_step_of`]):
/// a hash that meets the target is submitted, and only such a hash; a job
/// with a newer notification pending is dropped when the thread looks.
pub fn mining_step(tries: u64, meets_target: bool, job_pending: bool) -> (res: MiningStep)
    ensures
        res == mining_step_of(tries, meets_target, job_pending),
{
    if meets_target {
        MiningStep::Submit
    } else if should_poll(tries) && job_pending {
        MiningStep::Abandon
    } else {
        MiningStep::Continue { poll: should_poll(tries) }
    }
}

/// A hash that misses the target with no newer job pending never ends the
/// job, and the thread refreshes its work and counts its nonces exactly every
/// tenth try: of any ten consecutive tries, exactly one polls.
pub proof fn law_poll_every_ten(tries: u64)
    ensures
        mining_step_of(tries, false, false) == (MiningStep::Continue { poll: tries % 10 == 0 }),
        tries % 10 == 0 ==> forall|k: u64|
            0 < k < 10 && tries + k <= u64::MAX ==> #[trigger] mining_step_of((tries + k) as u64, false, false)
                == (MiningStep::Continue { poll: false }),
        tries + 9 <= u64::MAX ==> exists|k: u64|
            k < 10 && #[trigger] mining_step_of((tries + k) as u64, false, false) == (MiningStep::Continue {
                poll: true,
            }),
{
    let k: u64 = ((10 - (tries % 10) as int) % 10) as u64;
    if tries + 9 <= u64::MAX {
        assert(((tries + k) as u64) % 10 == 0);
        assert(mining_step_of((tries + k) as u64, false, false) == (MiningStep::Continue { poll: true }));
    }
}

/// A hash that meets the target is always submitted, and a miss never is.
pub proof fn law_submit_exactly_on_target(tries: u64, job_pending: bool)
    ensures
        mining_step_of(tries, true, job_pending) == MiningStep::Submit,
        mining_step_of(tries, false, job_pending) != MiningStep::Submit,
{
}

/// A job whose hashes keep missing the target is dropped within
/// [`UPDATE_EVERY_NONCE`] nonces once a newer notification is pending.
pub proof fn law_stale_job_dropped(start: u64)
    requires
        start + UPDATE_EVERY_NONCE <= u64::MAX,
    ensures
        exists|k: u64|
            k < UPDATE_EVERY_NONCE && #[trigger] mining_step_of((start + k) as u64, false, true)
                == MiningStep::Abandon,
{
    let k: u64 = ((10 - (start % 10) as int) % 10) as u64;
    assert(((start + k) as u64) % UPDATE_EVERY_NONCE == 0);
    assert(mining_step_of((start + k) as u64, false, true) == MiningStep::Abandon);
}

/// The work's timestamp once `elapsed_ms` milliseconds have passed since the
/// job arrived (the elapsed time cut to 64 bits).
pub fn refreshed_timestamp(initial_timestamp: u64, elapsed_ms: u128) -> (res: u64)
    requires
        initial_timestamp + (elapsed_ms as u64) <= u64::MAX,
    ensures
        res == initial_timestamp + (elapsed_ms as u64),
{
    initial_timestamp + (elapsed_ms as u64)
}

/// Two threads with different ids never hash the same work for one job.
pub proof fn law_thread_works_differ(orig: MinerWork, id1: u16, id2: u16, w1: MinerWork, w2: MinerWork)
    requires
        id1 != id2,
        is_thread_work(orig, id1, w1),
        is_thread_work(orig, id2, w2),
    ensures
        w1 != w2,
{
    if w1 == w2 {
        assert(w1.extra_nonce@[30] == w2.extra_nonce@[30]);
        assert(w1.extra_nonce@[31] == w2.extra_nonce@[31]);
        assert(((id1 >> 8u16) as u8 == (id2 >> 8u16) as u8 && id1 as u8 == id2 as u8) ==> id1 == id2)
            by (bit_vector);
    }
}

} // verus!
