//! The communication task's decisions: the daemon's address, the handling of
//! each WebSocket message, and the life cycle of the connection.
use crate::miner::messages::{GetMinerWorkResult, SocketMessage, ThreadNotification};
use crate::miner::work::{work_from_hex, MinerWork};
use vstd::prelude::*;
use vstd::string::{StrSliceExecFns, StringExecFns};

verus! {

/// What the miner counts of the daemon's answers.
#[derive(Debug, Clone, Copy, PartialEq, Eq, Structural)]
pub struct MinerStats {
    /// Blocks the daemon accepted (wrapping on overflow).
    pub blocks_found: usize,
    /// Blocks the daemon rejected (wrapping on overflow).
    pub blocks_rejected: usize,
    /// The topological height of the last job.
    pub topoheight: u64,
}

/// `n + 1`, wrapping to 0 past `usize::MAX`.
pub open spec fn wrapping_inc(n: usize) -> usize {
    if n == usize::MAX {
        0
    } else {
        (n + 1) as usize
    }
}

/// `n + 1`, wrapping to 0 past `usize::MAX`.
fn wrapping_increment(n: usize) -> (res: usize)
    ensures
        res == wrapping_inc(n),
{
    if n == usize::MAX {
        0
    } else {
        n + 1
    }
}

/// A message read from the daemon's WebSocket.
#[derive(Debug, Clone, PartialEq, Eq)]
pub enum IncomingMessage {
    /// A text message, with the socket message it parses to, if any.
    Text(Option<SocketMessage>),
    /// The daemon closed the connection, with its reason if given.
    Close(Option<String>),
    /// A ping.
    Ping,
    /// A pong.
    Pong,
    /// Any other kind of message (binary, raw frame).
    Other,
    /// Reading from the WebSocket failed.
    Failed,
}

/// Why a message could not be handled.
#[derive(Debug, Clone, Copy, PartialEq, Eq, Structural)]
pub enum MessageError {
    /// Reading from the WebSocket failed.
    Transport,
    /// The job's block work is not the hexadecimal form of a block work.
    InvalidMinerWork,
}

/// What a handled message leads to.
#[derive(Debug, Clone, PartialEq, Eq)]
pub struct MessageOutcome {
    /// Whether the connection must be left.
    pub exit: bool,
    /// A new job to hand to the mining threads (its timer starts now).
    pub job: Option<ThreadNotification>,
}

/// What a job from the daemon gives the mining threads: nothing when the
/// job lacks a part (it is not a job the daemon sends: such a text is
/// ignored), else a new job once its block work decodes.
pub open spec fn job_notification(job: GetMinerWorkResult) -> Result<Option<ThreadNotification>, MessageError> {
    match (job.algorithm, job.difficulty, job.height, job.topoheight) {
        (Some(algorithm), Some(difficulty), Some(height), Some(_)) => match work_from_hex(
            job.miner_work@,
        ) {
            Some(work) => Ok(Some(ThreadNotification::NewJob { algorithm, work, difficulty, height })),
            None => Err(MessageError::InvalidMinerWork),
        },
        _ => Ok(None),
    }
}

/// Handles a message from the daemon: a new job is decoded and handed on,
/// and its topological height kept (a job that lacks a part is ignored like
/// any text that is not a socket message; one whose block work does not
/// decode is an error); accepted and rejected blocks are counted;
/// a close or an unexpected kind of message ends the connection; a text that
/// is not a socket message, a ping and a pong change nothing.
pub fn handle_websocket_message(stats: &mut MinerStats, message: IncomingMessage) -> (res: Result<MessageOutcome, MessageError>)
    ensures
        match message {
            IncomingMessage::Failed => res == Err::<MessageOutcome, MessageError>(MessageError::Transport)
                && *final(stats) == *old(stats),
            IncomingMessage::Text(None) => res == Ok::<MessageOutcome, MessageError>(
                MessageOutcome { exit: false, job: None },
            ) && *final(stats) == *old(stats),
            IncomingMessage::Text(Some(SocketMessage::NewJob(job))) => match job_notification(job) {
                Err(e) => res == Err::<MessageOutcome, MessageError>(e) && *final(stats) == *old(stats),
                Ok(None) => res == Ok::<MessageOutcome, MessageError>(
                    MessageOutcome { exit: false, job: None },
                ) && *final(stats) == *old(stats),
                Ok(Some(n)) => res == Ok::<MessageOutcome, MessageError>(
                    MessageOutcome { exit: false, job: Some(n) },
                ) && *final(stats) == (MinerStats { topoheight: job.topoheight->0, ..*old(stats) }),
            },
            IncomingMessage::Text(Some(SocketMessage::BlockAccepted)) => res == Ok::<
                MessageOutcome,
                MessageError,
            >(MessageOutcome { exit: false, job: None }) && *final(stats) == (MinerStats {
                blocks_found: wrapping_inc(old(stats).blocks_found),
                ..*old(stats)
            }),
            IncomingMessage::Text(Some(SocketMessage::BlockRejected(_))) => res == Ok::<
                MessageOutcome,
                MessageError,
            >(MessageOutcome { exit: false, job: None }) && *final(stats) == (MinerStats {
                blocks_rejected: wrapping_inc(old(stats).blocks_rejected),
                ..*old(stats)
            }),
            IncomingMessage::Close(_) => res == Ok::<MessageOutcome, MessageError>(
                MessageOutcome { exit: true, job: None },
            ) && *final(stats) == *old(stats),
            IncomingMessage::Ping | IncomingMessage::Pong => res == Ok::<
                MessageOutcome,
                MessageError,
            >(MessageOutcome { exit: false, job: None }) && *final(stats) == *old(stats),
            IncomingMessage::Other => res == Ok::<MessageOutcome, MessageError>(
                MessageOutcome { exit: true, job: None },
            ) && *final(stats) == *old(stats),
        },
{
    match message {
        IncomingMessage::Failed => Err(MessageError::Transport),
        IncomingMessage::Text(parsed) => {
            match parsed {
                Some(SocketMessage::NewJob(job)) => {
                    let (algorithm, difficulty, height, topoheight) = match (
                        job.algorithm,
                        job.difficulty,
                        job.height,
                        job.topoheight,
                    ) {
                        (Some(a), Some(d), Some(h), Some(t)) => (a, d, h, t),
                        _ => return Ok(MessageOutcome { exit: false, job: None }),
                    };
                    let work = match MinerWork::from_hex(job.miner_work.as_str()) {
                        Some(w) => w,
                        None => return Err(MessageError::InvalidMinerWork),
                    };
                    stats.topoheight = topoheight;
                    Ok(
                        MessageOutcome {
                            exit: false,
                            job: Some(ThreadNotification::NewJob { algorithm, work, difficulty, height }),
                        },
                    )
                },
                Some(SocketMessage::BlockAccepted) => {
                    stats.blocks_found = wrapping_increment(stats.blocks_found);
                    Ok(MessageOutcome { exit: false, job: None })
                },
                Some(SocketMessage::BlockRejected(_)) => {
                    stats.blocks_rejected = wrapping_increment(stats.blocks_rejected);
                    Ok(MessageOutcome { exit: false, job: None })
                },
                None => Ok(MessageOutcome { exit: false, job: None }),
            }
        },
        IncomingMessage::Close(_) => Ok(MessageOutcome { exit: true, job: None }),
        IncomingMessage::Ping => Ok(MessageOutcome { exit: false, job: None }),
        IncomingMessage::Pong => Ok(MessageOutcome { exit: false, job: None }),
        IncomingMessage::Other => Ok(MessageOutcome { exit: true, job: None }),
    }
}

/// Seconds the communication task waits before connecting again.
pub const RECONNECT_DELAY_SECS: u64 = 10;

/// Whether the connection to the daemon is up.
#[derive(Debug, Clone, Copy, PartialEq, Eq, Structural)]
pub enum LinkState {
    Disconnected,
    Connected,
}

/// What happened to the communication task.
#[derive(Debug, Clone, Copy, PartialEq, Eq, Structural)]
pub enum LinkEvent {
    /// The WebSocket handshake got an HTTP response with this status.
    ConnectResponse { status: u16 },
    /// The WebSocket handshake failed.
    ConnectError,
    /// A message was handled; `exit` tells whether the connection must end.
    MessageHandled { exit: bool },
    /// A message could not be handled.
    MessageFailed,
    /// A mining thread found a block.
    BlockFound,
    /// The found block was sent to the daemon.
    SubmitSent,
    /// The found block could not be sent to the daemon.
    SubmitFailed,
}

/// What the communication task does next.
#[derive(Debug, Clone, Copy, PartialEq, Eq, Structural)]
pub enum LinkAction {
    /// Wait `seconds`, then connect again.
    RetryLater { seconds: u64 },
    /// Wait for the next message from the daemon or block from a thread.
    Listen,
    /// Send the found block to the daemon.
    Submit,
    /// Mark the connection down, tell the threads it closed, wait `seconds`,
    /// then connect again.
    CloseAndRetry { seconds: u64 },
}

/// Whether an HTTP status is a client or server error (400 to 599).
pub open spec fn is_error_status(status: u16) -> bool {
    400 <= status <= 599
}

/// Whether `event` can happen in `state`: handshake results while
/// disconnected, everything else while connected.
pub open spec fn event_fits(state: LinkState, event: LinkEvent) -> bool {
    match event {
        LinkEvent::ConnectResponse { .. } | LinkEvent::ConnectError => state == LinkState::Disconnected,
        _ => state == LinkState::Connected,
    }
}

/// The next state and action of the communication task.
pub open spec fn link_transition(state: LinkState, event: LinkEvent) -> (LinkState, LinkAction) {
    match event {
        LinkEvent::ConnectResponse { status } => if is_error_status(status) {
            (LinkState::Disconnected, LinkAction::RetryLater { seconds: RECONNECT_DELAY_SECS })
        } else {
            (LinkState::Connected, LinkAction::Listen)
        },
        LinkEvent::ConnectError => (
            LinkState::Disconnected,
            LinkAction::RetryLater { seconds: RECONNECT_DELAY_SECS },
        ),
        LinkEvent::MessageHandled { exit } => if exit {
            (LinkState::Disconnected, LinkAction::CloseAndRetry { seconds: RECONNECT_DELAY_SECS })
        } else {
            (LinkState::Connected, LinkAction::Listen)
        },
        LinkEvent::MessageFailed | LinkEvent::SubmitFailed => (
            LinkState::Disconnected,
            LinkAction::CloseAndRetry { seconds: RECONNECT_DELAY_SECS },
        ),
        LinkEvent::BlockFound => (LinkState::Connected, LinkAction::Submit),
        LinkEvent::SubmitSent => (LinkState::Connected, LinkAction::Listen),
    }
}

/// Decides what the communication task does after `event`: a handshake
/// answered with an error status or failing is retried later; a successful
/// one starts listening; a message that ends the connection or fails, and a
/// block that cannot be sent, close the connection and retry later; a found
/// block is submitted.
pub fn communication_step(state: LinkState, event: LinkEvent) -> (res: (LinkState, LinkAction))
    ensures
        res == link_transition(state, event),
{
    match event {
        LinkEvent::ConnectResponse { status } => {
            if 400 <= status && status <= 599 {
                (LinkState::Disconnected, LinkAction::RetryLater { seconds: RECONNECT_DELAY_SECS })
            } else {
                (LinkState::Connected, LinkAction::Listen)
            }
        },
        LinkEvent::ConnectError => (
            LinkState::Disconnected,
            LinkAction::RetryLater { seconds: RECONNECT_DELAY_SECS },
        ),
        LinkEvent::MessageHandled { exit } => {
            if exit {
                (LinkState::Disconnected, LinkAction::CloseAndRetry { seconds: RECONNECT_DELAY_SECS })
            } else {
                (LinkState::Connected, LinkAction::Listen)
            }
        },
        LinkEvent::MessageFailed | LinkEvent::SubmitFailed => (
            LinkState::Disconnected,
            LinkAction::CloseAndRetry { seconds: RECONNECT_DELAY_SECS },
        ),
        LinkEvent::BlockFound => (LinkState::Connected, LinkAction::Submit),
        LinkEvent::SubmitSent => (LinkState::Connected, LinkAction::Listen),
    }
}

/// Every transition keeps the task in a state where its next events can
/// happen: after a retry it is disconnected, while listening or submitting it
/// is connected.
pub proof fn law_link_action_matches_state(state: LinkState, event: LinkEvent)
    requires
        event_fits(state, event),
    ensures
        ({
            let (next, action) = link_transition(state, event);
            match action {
                LinkAction::RetryLater { .. } | LinkAction::CloseAndRetry { .. } => next
                    == LinkState::Disconnected,
                LinkAction::Listen | LinkAction::Submit => next == LinkState::Connected,
            }
        }),
{
}

/// The state the communication task reaches from `state` through `events`.
pub open spec fn link_run(state: LinkState, events: Seq<LinkEvent>) -> LinkState
    decreases events.len(),
{
    if events.len() == 0 {
        state
    } else {
        link_transition(link_run(state, events.drop_last()), events.last()).0
    }
}

/// Whether each of `events` can happen in the state the ones before it lead
/// to from `state`.
pub open spec fn run_fits(state: LinkState, events: Seq<LinkEvent>) -> bool
    decreases events.len(),
{
    events.len() == 0 || (run_fits(state, events.drop_last()) && event_fits(
        link_run(state, events.drop_last()),
        events.last(),
    ))
}

/// Whether `event` is a handshake answered with a status that is not an error.
pub open spec fn handshake_succeeds(event: LinkEvent) -> bool {
    event matches LinkEvent::ConnectResponse { status } && !is_error_status(status)
}

/// Whether `event` leaves the task disconnected: a failed handshake, a
/// message that ends the connection or cannot be handled, a block that
/// cannot be sent.
pub open spec fn goes_down(event: LinkEvent) -> bool {
    match event {
        LinkEvent::ConnectResponse { status } => is_error_status(status),
        LinkEvent::ConnectError | LinkEvent::MessageFailed | LinkEvent::SubmitFailed => true,
        LinkEvent::MessageHandled { exit } => exit,
        _ => false,
    }
}

/// Whether some event of `events` is a successful handshake that no later
/// event takes down.
pub open spec fn connected_since_handshake(events: Seq<LinkEvent>) -> bool {
    exists|i: int|
        0 <= i < events.len() && #[trigger] handshake_succeeds(events[i]) && forall|j: int|
            i < j < events.len() ==> !#[trigger] goes_down(events[j])
}

/// Starting disconnected, through any run of events that can happen, the
/// task is connected exactly when a successful handshake happened and
/// nothing took the connection down since. (Messages are read and blocks
/// sent only while connected: that is what `run_fits` asks of each event.)
pub proof fn law_connected_only_after_handshake(events: Seq<LinkEvent>)
    requires
        run_fits(LinkState::Disconnected, events),
    ensures
        link_run(LinkState::Disconnected, events) == LinkState::Connected
            <==> connected_since_handshake(events),
    decreases events.len(),
{
    if events.len() > 0 {
        let prev = events.drop_last();
        let e = events.last();
        let n = events.len() - 1;
        law_connected_only_after_handshake(prev);
        assert(events[n] == e);
        if handshake_succeeds(e) {
            assert(handshake_succeeds(events[n]));
        } else if goes_down(e) {
            if connected_since_handshake(events) {
                let i = choose|i: int|
                    0 <= i < events.len() && #[trigger] handshake_succeeds(events[i]) && forall|j: int|
                        i < j < events.len() ==> !#[trigger] goes_down(events[j]);
                if i < n {
                    assert(goes_down(events[n]));
                }
            }
        } else {
            assert(link_run(LinkState::Disconnected, prev) == LinkState::Connected);
            if connected_since_handshake(events) {
                let i = choose|i: int|
                    0 <= i < events.len() && #[trigger] handshake_succeeds(events[i]) && forall|j: int|
                        i < j < events.len() ==> !#[trigger] goes_down(events[j]);
                assert(i < n);
                assert(prev[i] == events[i]);
                assert forall|j: int| i < j < prev.len() implies !#[trigger] goes_down(prev[j]) by {
                    assert(prev[j] == events[j]);
                }
            }
            let i = choose|i: int|
                0 <= i < prev.len() && #[trigger] handshake_succeeds(prev[i]) && forall|j: int|
                    i < j < prev.len() ==> !#[trigger] goes_down(prev[j]);
            assert(prev[i] == events[i]);
            assert forall|j: int| i < j < events.len() implies !#[trigger] goes_down(events[j]) by {
                if j < n {
                    assert(prev[j] == events[j]);
                }
            }
        }
    }
}

/// In any run of events that can happen, every found block is submitted
/// with the connection kept, and a failed submission gives the connection
/// up.
pub proof fn law_found_blocks_submitted(events: Seq<LinkEvent>, k: int)
    requires
        run_fits(LinkState::Disconnected, events),
        0 <= k < events.len(),
    ensures
        events[k] == LinkEvent::BlockFound ==> link_transition(
            link_run(LinkState::Disconnected, events.take(k)),
            events[k],
        ) == (LinkState::Connected, LinkAction::Submit),
        events[k] == LinkEvent::SubmitFailed ==> link_transition(
            link_run(LinkState::Disconnected, events.take(k)),
            events[k],
        ).0 == LinkState::Disconnected,
{
}

/// A complete job whose block work decodes is handed on with the job's own
/// algorithm, difficulty and height, and the decoded block work; a job whose
/// block work does not decode is an error; an incomplete job gives nothing.
pub proof fn law_job_handed_on_as_sent(job: GetMinerWorkResult)
    ensures
        job.algorithm is Some && job.difficulty is Some && job.height is Some && job.topoheight is Some
            ==> match work_from_hex(job.miner_work@) {
            Some(work) => job_notification(job) == Ok::<Option<ThreadNotification>, MessageError>(
                Some(
                    ThreadNotification::NewJob {
                        algorithm: job.algorithm->0,
                        work,
                        difficulty: job.difficulty->0,
                        height: job.height->0,
                    },
                ),
            ),
            None => job_notification(job) == Err::<Option<ThreadNotification>, MessageError>(
                MessageError::InvalidMinerWork,
            ),
        },
        !(job.algorithm is Some && job.difficulty is Some && job.height is Some && job.topoheight is Some)
            ==> job_notification(job) == Ok::<Option<ThreadNotification>, MessageError>(None),
{
}

/// A handshake connects and starts listening exactly when its status is not
/// a client or server error (below 400 or above 599, such as 101 or 200);
/// otherwise the task stays disconnected and retries after 10 seconds.
pub proof fn law_handshake_status(status: u16)
    ensures
        (status < 400 || status > 599) ==> link_transition(
            LinkState::Disconnected,
            LinkEvent::ConnectResponse { status },
        ) == (LinkState::Connected, LinkAction::Listen),
        (400 <= status && status <= 599) ==> link_transition(
            LinkState::Disconnected,
            LinkEvent::ConnectResponse { status },
        ) == (LinkState::Disconnected, LinkAction::RetryLater { seconds: 10 }),
{
}

/// The URL of the daemon's mining WebSocket for a miner address and worker.
pub fn getwork_url(daemon_address: &str, address: &str, worker: &str) -> (res: String)
    ensures
        res@ == daemon_address@ + "/getwork/"@ + address@ + "/"@ + worker@,
{
    let mut url = daemon_address.to_owned();
    url.append("/getwork/");
    url.append(address);
    url.append("/");
    url.append(worker);
    url
}

/// Whether `text` begins with `prefix`.
pub open spec fn has_prefix(text: Seq<char>, prefix: Seq<char>) -> bool {
    prefix.len() <= text.len() && text.take(prefix.len() as int) == prefix
}

/// Whether `text` begins with `prefix`.
fn starts_with(text: &str, prefix: &str) -> (res: bool)
    ensures
        res == has_prefix(text@, prefix@),
{
    let n = prefix.unicode_len();
    let m = text.unicode_len();
    if n > m {
        return false;
    }
    let mut i: usize = 0;
    while i < n
        invariant
            n == prefix@.len(),
            m == text@.len(),
            n <= m,
            i <= n,
            forall|j: int| 0 <= j < i ==> text@[j] == prefix@[j],
        decreases n - i,
    {
        if text.get_char(i) != prefix.get_char(i) {
            assert(text@.take(n as int)[i as int] != prefix@[i as int]);
            return false;
        }
        i = i + 1;
    }
    assert(text@.take(n as int) =~= prefix@);
    true
}

/// The WebSocket form of a daemon address: an `https://` or `http://` scheme
/// becomes `wss://` or `ws://`, an address without a `ws://` or `wss://`
/// scheme gets `ws://`, and one trailing `/` is dropped.
pub open spec fn sanitized_address(address: Seq<char>) -> Seq<char> {
    let t = if has_prefix(address, "https://"@) {
        "wss://"@ + address.skip(8)
    } else if has_prefix(address, "http://"@) {
        "ws://"@ + address.skip(7)
    } else if has_prefix(address, "ws://"@) || has_prefix(address, "wss://"@) {
        address
    } else {
        "ws://"@ + address
    };
    if t.len() > 0 && t.last() == '/' {
        t.drop_last()
    } else {
        t
    }
}

/// The WebSocket form of a daemon address (see [`sanitized_address`]).
pub fn sanitize_daemon_address(address: &str) -> (res: String)
    ensures
        res@ == sanitized_address(address@),
{
    proof {
        reveal_strlit("https://");
        reveal_strlit("http://");
    }
    let len = address.unicode_len();
    let mut target: String;
    if starts_with(address, "https://") {
        target = "wss://".to_owned();
        target.append(address.substring_char(8, len));
    } else if starts_with(address, "http://") {
        target = "ws://".to_owned();
        target.append(address.substring_char(7, len));
    } else if starts_with(address, "ws://") || starts_with(address, "wss://") {
        target = address.to_owned();
    } else {
        target = "ws://".to_owned();
        target.append(address);
    }
    assert(address@.skip(8) =~= address@.subrange(8, len as int));
    assert(address@.skip(7) =~= address@.subrange(7, len as int));
    let tlen = target.as_str().unicode_len();
    if tlen > 0 && target.as_str().get_char(tlen - 1) == '/' {
        let trimmed = target.as_str().substring_char(0, tlen - 1).to_owned();
        assert(trimmed@ =~= target@.drop_last());
        trimmed
    } else {
        target
    }
}

} // verus!
