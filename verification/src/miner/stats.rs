//! The texts the miner shows: the statistics served over HTTP and the
//! status line of the prompt.
use crate::encoding::{decimal_chars, push_decimal};
use vstd::prelude::*;
use vstd::string::StringExecFns;

verus! {

/// An HTTP response carrying the JSON text `contents`.
pub open spec fn http_json_response_text(contents: &str) -> Seq<char> {
    "HTTP/1.1 200 OK\r\n"@ + "Content-Type: application/json\r\n"@ + "Content-Length: "@
        + decimal_chars(contents.len() as nat) + "\r\n\r\n"@ + contents@
}

/// The HTTP response that serves the JSON text `contents`: status 200, its
/// content type, its length in bytes, then the text.
pub fn http_json_response(contents: &str) -> (res: String)
    ensures
        res@ == http_json_response_text(contents),
{
    let mut response = "HTTP/1.1 200 OK\r\n".to_owned();
    response.append("Content-Type: application/json\r\n");
    response.append("Content-Length: ");
    let length = contents.len();
    push_decimal(&mut response, length as u64);
    response.append("\r\n\r\n");
    response.append(contents);
    response
}

/// The prompt's status line: the title, the topological height, the
/// accepted and rejected blocks, the hashrate as given, and the connection
/// status, then the prompt sign.
pub open spec fn status_line_text(topoheight: u64, accepted: usize, rejected: usize, hashrate: Seq<char>, connected: bool) -> Seq<char> {
    "XELIS Miner | TopoHeight: "@ + decimal_chars(topoheight as nat) + " | Accepted: "@
        + decimal_chars(accepted as nat) + " | Rejected: "@ + decimal_chars(rejected as nat) + " | "@
        + hashrate + " | "@ + (if connected {
        "Online"@
    } else {
        "Offline"@
    }) + " >> "@
}

/// The prompt's status line (see [`status_line_text`]).
pub fn status_line(topoheight: u64, accepted: usize, rejected: usize, hashrate: &str, connected: bool) -> (res: String)
    ensures
        res@ == status_line_text(topoheight, accepted, rejected, hashrate@, connected),
{
    let mut line = "XELIS Miner | TopoHeight: ".to_owned();
    push_decimal(&mut line, topoheight);
    line.append(" | Accepted: ");
    push_decimal(&mut line, accepted as u64);
    line.append(" | Rejected: ");
    push_decimal(&mut line, rejected as u64);
    line.append(" | ");
    line.append(hashrate);
    line.append(" | ");
    if connected {
        line.append("Online");
    } else {
        line.append("Offline");
    }
    line.append(" >> ");
    line
}

/// The fields of the status line before the hashrate, each counter printed
/// as given: the topological height, the accepted count and the rejected
/// count in decimal (see `law_decimal_chars`).
pub open spec fn status_counters_text(topoheight: u64, accepted: usize, rejected: usize) -> Seq<char> {
    "XELIS Miner | TopoHeight: "@ + decimal_chars(topoheight as nat) + " | Accepted: "@
        + decimal_chars(accepted as nat) + " | Rejected: "@ + decimal_chars(rejected as nat) + " | "@
}

/// The status line begins with its counters, each as given, so the accepted
/// count shown does not depend on the rejected one; it ends with the
/// connection status.
pub proof fn law_status_line_counters(topoheight: u64, accepted: usize, rejected: usize, other_rejected: usize, hashrate: Seq<char>, connected: bool)
    ensures
        status_line_text(topoheight, accepted, rejected, hashrate, connected).take(
            status_counters_text(topoheight, accepted, rejected).len() as int,
        ) == status_counters_text(topoheight, accepted, rejected),
        ({
            let head = "XELIS Miner | TopoHeight: "@ + decimal_chars(topoheight as nat) + " | Accepted: "@
                + decimal_chars(accepted as nat) + " | Rejected: "@;
            status_line_text(topoheight, accepted, rejected, hashrate, connected).take(head.len() as int)
                == status_line_text(topoheight, accepted, other_rejected, hashrate, connected).take(
                head.len() as int,
            )
        }),
        status_line_text(topoheight, accepted, rejected, hashrate, connected) == status_counters_text(
            topoheight,
            accepted,
            rejected,
        ) + hashrate + " | "@ + (if connected {
            "Online"@
        } else {
            "Offline"@
        }) + " >> "@,
{
    let head = "XELIS Miner | TopoHeight: "@ + decimal_chars(topoheight as nat) + " | Accepted: "@
        + decimal_chars(accepted as nat) + " | Rejected: "@;
    let counters = status_counters_text(topoheight, accepted, rejected);
    let tail = hashrate + " | "@ + (if connected {
        "Online"@
    } else {
        "Offline"@
    }) + " >> "@;
    let line = status_line_text(topoheight, accepted, rejected, hashrate, connected);
    assert(line =~= counters + tail);
    assert((counters + tail).take(counters.len() as int) =~= counters);
    let other = status_line_text(topoheight, accepted, other_rejected, hashrate, connected);
    let other_counters = status_counters_text(topoheight, accepted, other_rejected);
    assert(other =~= other_counters + tail);
    assert(counters =~= head + decimal_chars(rejected as nat) + " | "@);
    assert(other_counters =~= head + decimal_chars(other_rejected as nat) + " | "@);
    assert(line.take(head.len() as int) =~= head);
    assert(other.take(head.len() as int) =~= head);
}

} // verus!
