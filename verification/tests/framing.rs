use echonet::framer::{
    count_line_feeds, frame_command, CommandError, CommandExchange, ExchangeStatus, ReadEvent,
};

#[test]
fn frame_appends_terminator() {
    let line = frame_command(b"ATE0");
    assert_eq!(line, b"ATE0\r\n".to_vec());
}

#[test]
fn frame_empty_command_is_bare_terminator() {
    let line = frame_command(b"");
    assert_eq!(line, b"\r\n".to_vec());
}

#[test]
fn counts_line_feeds_only() {
    assert_eq!(count_line_feeds(b""), 0);
    assert_eq!(count_line_feeds(b"no terminator here"), 0);
    assert_eq!(count_line_feeds(b"\r\r\r"), 0);
    assert_eq!(count_line_feeds(b"a\nb\nc\n"), 3);
    assert_eq!(count_line_feeds(b"\n\n"), 2);
}

#[test]
fn exchange_completes_on_two_line_feeds_across_reads() {
    // Command echo line arrives first, then the OK line: the second read
    // completes the exchange.
    let mut e = CommandExchange::new();
    let first = e.step(ReadEvent::Data(b"ATE0\r\n".to_vec()));
    assert_eq!(first, ExchangeStatus::Pending);
    let second = e.step(ReadEvent::Data(b"OK\r\n".to_vec()));
    assert_eq!(second, ExchangeStatus::Complete);
    assert!(e.is_complete());
}

#[test]
fn exchange_completes_within_single_read() {
    let mut e = CommandExchange::new();
    let status = e.step(ReadEvent::Data(b"ATE0\r\nOK\r\n".to_vec()));
    assert_eq!(status, ExchangeStatus::Complete);
}

#[test]
fn completion_ignores_reply_content() {
    // Two line feeds complete the exchange even when the text around them
    // spells an error.
    let mut e = CommandExchange::new();
    let status = e.step(ReadEvent::Data(b"ERROR\r\nERROR\r\n".to_vec()));
    assert_eq!(status, ExchangeStatus::Complete);
}

#[test]
fn one_line_feed_is_not_enough() {
    let mut e = CommandExchange::new();
    let status = e.step(ReadEvent::Data(b"lots of text, one newline\n".to_vec()));
    assert_eq!(status, ExchangeStatus::Pending);
    assert!(!e.is_complete());
}

#[test]
fn timed_out_read_aborts_with_timeout_tag() {
    let mut e = CommandExchange::new();
    let status = e.step(ReadEvent::TimedOut);
    assert_eq!(status, ExchangeStatus::Aborted(CommandError::Timeout));
    assert_ne!(status, ExchangeStatus::Aborted(CommandError::Transport));
}

#[test]
fn transport_error_aborts_with_transport_tag() {
    let mut e = CommandExchange::new();
    let status = e.step(ReadEvent::Failed);
    assert_eq!(status, ExchangeStatus::Aborted(CommandError::Transport));
}

#[test]
fn timeout_aborts_even_after_progress() {
    let mut e = CommandExchange::new();
    assert_eq!(
        e.step(ReadEvent::Data(b"partial\r\n".to_vec())),
        ExchangeStatus::Pending
    );
    assert_eq!(
        e.step(ReadEvent::TimedOut),
        ExchangeStatus::Aborted(CommandError::Timeout)
    );
}
