//! Messages between the daemon, the communication task and the mining threads.
use crate::encoding::hex_encode;
use crate::miner::work::{
    lemma_work_hex_roundtrip, work_bytes, work_from_hex, Algorithm, Difficulty, MinerWork,
};
use vstd::prelude::*;

verus! {

/// A mining job as the daemon sends it. A job made from a block work alone
/// carries only the block work.
#[derive(Debug, Clone, PartialEq, Eq)]
pub struct GetMinerWorkResult {
    /// The proof-of-work algorithm to mine with.
    pub algorithm: Option<Algorithm>,
    /// The block work, as hexadecimal.
    pub miner_work: String,
    /// The height of the block being mined.
    pub height: Option<u64>,
    /// The topological height of the block being mined.
    pub topoheight: Option<u64>,
    /// The difficulty the block must reach.
    pub difficulty: Option<Difficulty>,
}

impl GetMinerWorkResult {
    /// The job that carries `work` and nothing else.
    pub fn from_work(work: MinerWork) -> (res: GetMinerWorkResult)
        ensures
            res.miner_work@ == hex_encode(work_bytes(work)),
            res.algorithm is None,
            res.height is None,
            res.topoheight is None,
            res.difficulty is None,
    {
        GetMinerWorkResult {
            algorithm: None,
            miner_work: work.to_hex(),
            height: None,
            topoheight: None,
            difficulty: None,
        }
    }
}

/// Messages the daemon sends over the WebSocket.
#[derive(Debug, Clone, PartialEq, Eq)]
pub enum SocketMessage {
    /// A new job to mine.
    NewJob(GetMinerWorkResult),
    /// A block the miner found was accepted.
    BlockAccepted,
    /// A block the miner found was rejected, with the reason.
    BlockRejected(String),
}

/// Notifications the communication task sends to the mining threads.
#[derive(Debug, Clone, PartialEq, Eq)]
pub enum ThreadNotification {
    /// A new job for the mining threads.
    NewJob { algorithm: Algorithm, work: MinerWork, difficulty: Difficulty, height: u64 },
    /// The WebSocket connection was closed.
    WebSocketClosed,
    /// All threads must stop.
    Exit,
}

/// The block work, as hexadecimal, of the job that a notification stands
/// for: a new job's block work; the other notifications stand for no job.
pub open spec fn socket_message_of(n: ThreadNotification) -> Option<Seq<char>> {
    match n {
        ThreadNotification::NewJob { work, .. } => Some(hex_encode(work_bytes(work))),
        _ => None,
    }
}

/// Whether `m` is a new job that carries the block work `text` and nothing
/// else.
pub open spec fn is_work_only_job(m: SocketMessage, text: Seq<char>) -> bool {
    match m {
        SocketMessage::NewJob(job) => {
            &&& job.miner_work@ == text
            &&& job.algorithm is None
            &&& job.height is None
            &&& job.topoheight is None
            &&& job.difficulty is None
        },
        _ => false,
    }
}

impl ThreadNotification {
    /// The socket message a notification stands for: a new job becomes the
    /// job made from its block work alone; the others stand for none.
    pub fn into_socket_message(self) -> (res: Option<SocketMessage>)
        ensures
            match socket_message_of(self) {
                Some(text) => res matches Some(m) && is_work_only_job(m, text),
                None => res is None,
            },
    {
        match self {
            ThreadNotification::NewJob { work, .. } => Some(
                SocketMessage::NewJob(GetMinerWorkResult::from_work(work)),
            ),
            ThreadNotification::WebSocketClosed => None,
            ThreadNotification::Exit => None,
        }
    }
}

/// A job handed to the threads and sent on as a socket message carries its
/// block work in a form that reads back to the same block work.
pub proof fn law_job_message_keeps_work(algorithm: Algorithm, work: MinerWork, difficulty: Difficulty, height: u64)
    ensures
        socket_message_of(ThreadNotification::NewJob { algorithm, work, difficulty, height }) matches Some(
            text,
        ) && work_from_hex(text) == Some(work),
{
    lemma_work_hex_roundtrip(work);
}

} // verus!
