use ore_cli::messages::{failed_transaction_line, json_escape, landed_mine_line, started_line};

#[test]
fn started_line_bytes() {
    assert_eq!(started_line(), b"{\"msg_type\":\"started\"}".to_vec());
}

#[test]
fn landed_line_bytes() {
    assert_eq!(
        landed_mine_line(),
        b"{\"msg_type\":\"landed_mine_transaction\"}".to_vec()
    );
}

#[test]
fn failed_line_embeds_plain_error() {
    assert_eq!(
        failed_transaction_line(b"connection refused"),
        b"{\"msg_type\":\"failed_transaction\",\"error\":\"connection refused\"}".to_vec()
    );
}

#[test]
fn failed_line_escapes_error() {
    let line = failed_transaction_line(b"bad \"bus\"\\id\n");
    assert_eq!(
        line,
        b"{\"msg_type\":\"failed_transaction\",\"error\":\"bad \\\"bus\\\"\\\\id\\u000a\"}"
            .to_vec()
    );
    // the line stays valid single-line JSON: no raw quote, backslash-escape
    // pairs only, no control bytes
    assert!(!line.iter().any(|&b| b < 0x20));
}

#[test]
fn escape_handles_quotes_backslashes_and_controls() {
    assert_eq!(json_escape(b"plain"), b"plain".to_vec());
    assert_eq!(json_escape(b"\""), b"\\\"".to_vec());
    assert_eq!(json_escape(b"\\"), b"\\\\".to_vec());
    assert_eq!(json_escape(&[0x00]), b"\\u0000".to_vec());
    assert_eq!(json_escape(&[0x1f]), b"\\u001f".to_vec());
    assert_eq!(json_escape(&[0x09, 0x0d]), b"\\u0009\\u000d".to_vec());
    // non-ASCII UTF-8 bytes pass through untouched
    assert_eq!(json_escape("héllo".as_bytes()), "héllo".as_bytes().to_vec());
}
