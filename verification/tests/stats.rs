use xelis::miner::stats::{http_json_response, status_line};

#[test]
fn stats_response_has_headers_and_length() {
    let body = "{\"accepted\":1}";
    assert_eq!(
        http_json_response(body),
        "HTTP/1.1 200 OK\r\nContent-Type: application/json\r\nContent-Length: 14\r\n\r\n{\"accepted\":1}"
    );
    assert_eq!(http_json_response(""), "HTTP/1.1 200 OK\r\nContent-Type: application/json\r\nContent-Length: 0\r\n\r\n");
    // the length counts bytes
    assert!(http_json_response("é").contains("Content-Length: 2\r\n"));
}

#[test]
fn status_line_lists_the_counters() {
    assert_eq!(
        status_line(120, 4, 0, "1.50 KH/s", true),
        "XELIS Miner | TopoHeight: 120 | Accepted: 4 | Rejected: 0 | 1.50 KH/s | Online >> "
    );
    assert!(status_line(0, 0, 0, "0 H/s", false).ends_with("| Offline >> "));
}
