use honcho_ai::error::{HonchoError, Result};
use honcho_ai::sse::{SseEvent, SseParser, MAX_SSE_LINE_BYTES};

fn data_line(json: &str) -> Vec<u8> {
    format!("data: {json}\n\n").into_bytes()
}

#[test]
fn f8_2_2_basic_data_line() {
    let mut p = SseParser::new();
    let r = p
        .feed(&data_line(r#"{"delta":{"content":"hello"}}"#))
        .unwrap();
    assert_eq!(r, vec!["hello"]);
    assert!(!p.done());
}

#[test]
fn f8_2_3_done_flag() {
    let mut p = SseParser::new();
    let r = p.feed(&data_line(r#"{"done":true}"#)).unwrap();
    assert!(r.is_empty());
    assert!(p.done());
}

#[test]
fn f8_2_4_consecutive_chunks() {
    let mut p = SseParser::new();
    let mut all = Vec::new();
    all.extend(
        p.feed(&data_line(r#"{"delta":{"content":"hello"}}"#))
            .unwrap(),
    );
    all.extend(
        p.feed(&data_line(r#"{"delta":{"content":" world"}}"#))
            .unwrap(),
    );
    assert_eq!(all, vec!["hello", " world"]);
}

#[test]
fn f8_2_5_split_utf8_codepoint() {
    let mut full: Vec<u8> = b"data: {\"delta\":{\"content\":\"abc".to_vec();
    full.extend_from_slice("\u{00e9}".as_bytes());
    full.extend_from_slice(b"\"}}\n\n");

    let split_pos = full.iter().position(|&b| b == 0xC3).map_or(0, |p| p + 1);

    let mut p = SseParser::new();
    let mut results = Vec::new();
    results.extend(p.feed(&full[..split_pos]).unwrap());
    results.extend(p.feed(&full[split_pos..]).unwrap());
    assert_eq!(results, vec!["abc\u{00e9}"]);
}

#[test]
fn f8_2_6_split_line_across_chunks() {
    let full = b"data: {\"delta\":{\"content\":\"hello\"}}\n\n";
    let mid = full.len() / 2;

    let mut p = SseParser::new();
    let mut results = Vec::new();
    results.extend(p.feed(&full[..mid]).unwrap());
    assert!(results.is_empty());
    results.extend(p.feed(&full[mid..]).unwrap());
    assert_eq!(results, vec!["hello"]);
}

#[test]
fn f8_2_7_ignore_non_data_lines() {
    let mut p = SseParser::new();
    let mut all = Vec::new();
    all.extend(p.feed(b": heartbeat\n").unwrap());
    all.extend(p.feed(b"event: foo\n").unwrap());
    all.extend(
        p.feed(&data_line(r#"{"delta":{"content":"yes"}}"#))
            .unwrap(),
    );
    assert_eq!(all, vec!["yes"]);
}

#[test]
fn f8_2_8_empty_data_line() {
    let mut p = SseParser::new();
    let r = p
        .feed(b"data:\n\ndata: {\"delta\":{\"content\":\"x\"}}\n\n")
        .unwrap();
    assert_eq!(r, vec!["x"]);
}

#[test]
fn f8_2_9_data_without_space() {
    let mut p = SseParser::new();
    let r = p
        .feed(b"data:{\"delta\":{\"content\":\"nospace\"}}\n\n")
        .unwrap();
    assert_eq!(r, vec!["nospace"]);
}

#[test]
fn f8_2_10_malformed_json() {
    let mut p = SseParser::new();
    let r = p.feed(b"data: {garbage\n\n").unwrap();
    assert!(r.is_empty());
    assert!(!p.done());
}

#[test]
fn f8_2_11_crlf() {
    let mut p = SseParser::new();
    let r = p
        .feed(b"data: {\"delta\":{\"content\":\"crlf\"}}\r\n\r\n")
        .unwrap();
    assert_eq!(r, vec!["crlf"]);
}

#[test]
fn f8_2_12_lf_only() {
    let mut p = SseParser::new();
    let r = p
        .feed(b"data: {\"delta\":{\"content\":\"lf\"}}\n\n")
        .unwrap();
    assert_eq!(r, vec!["lf"]);
}

#[test]
fn f8_2_13_cr_only() {
    let mut p = SseParser::new();
    let r = p
        .feed(b"data: {\"delta\":{\"content\":\"cr\"}}\r\r")
        .unwrap();
    assert_eq!(r, vec!["cr"]);
}

#[test]
fn f8_2_14_delta_without_content() {
    let mut p = SseParser::new();
    let r = p.feed(&data_line(r#"{"delta":{}}"#)).unwrap();
    assert!(r.is_empty());
}

#[test]
fn f8_2_15_non_string_content() {
    let mut p = SseParser::new();
    let r = p.feed(&data_line(r#"{"delta":{"content":42}}"#)).unwrap();
    assert!(r.is_empty());
}

#[test]
fn f8_2_16_non_dict_json() {
    let mut p = SseParser::new();
    let r = p.feed(b"data: [\"not\",\"dict\"]\n\n").unwrap();
    assert!(r.is_empty());
}

#[test]
fn f8_2_17_finalize_flushes_remaining() {
    let mut p = SseParser::new();
    p.feed(b"data: {\"delta\":{\"content\":\"partial\"}}")
        .unwrap();
    let r = p.finalize().unwrap();
    assert_eq!(r, vec!["partial"]);
}

#[test]
fn done_stops_further_feeds() {
    let mut p = SseParser::new();
    let mut all = Vec::new();
    all.extend(
        p.feed(&data_line(r#"{"delta":{"content":"before"}}"#))
            .unwrap(),
    );
    all.extend(p.feed(&data_line(r#"{"done":true}"#)).unwrap());
    all.extend(
        p.feed(&data_line(r#"{"delta":{"content":"after"}}"#))
            .unwrap(),
    );
    assert_eq!(all, vec!["before"]);
    assert!(p.done());
}

#[test]
fn finalize_after_done_yields_nothing() {
    let mut p = SseParser::new();
    p.feed(&data_line(r#"{"done":true}"#)).unwrap();
    let r = p.finalize().unwrap();
    assert!(r.is_empty());
}

#[test]
fn empty_chunk_returns_empty() {
    let mut p = SseParser::new();
    let r = p.feed(b"").unwrap();
    assert!(r.is_empty());
}

#[test]
fn invalid_utf8_byte_does_not_block_subsequent_valid_bytes() {
    let mut p = SseParser::new();

    let mut chunk1 = b"data: {\"delta\":{\"content\":\"".to_vec();
    chunk1.push(0xFF);
    chunk1.extend_from_slice(b"\"}}\n\n");
    let r1 = p.feed(&chunk1).unwrap();
    assert_eq!(r1, vec!["\u{FFFD}"]);

    let r2 = p.feed(&data_line(r#"{"delta":{"content":"ok"}}"#)).unwrap();
    assert_eq!(r2, vec!["ok"]);
}

#[test]
fn default_impl() {
    let p = SseParser::default();
    assert!(!p.done());
}

#[test]
fn multiple_data_lines_in_one_chunk() {
    let mut p = SseParser::new();
    let input = b"data: {\"delta\":{\"content\":\"a\"}}\n\
                  data: {\"delta\":{\"content\":\"b\"}}\n\n";
    let r = p.feed(input).unwrap();
    assert_eq!(r, vec!["a", "b"]);
}

#[test]
fn feed_rejects_oversized_line() {
    let mut p = SseParser::new();
    let huge = vec![b'a'; MAX_SSE_LINE_BYTES + 1];
    let result = p.feed(&huge);
    assert!(result.is_err());
}

#[test]
fn feed_rejects_unterminated_line_across_chunks() {
    let mut p = SseParser::new();
    let half = vec![b'a'; (MAX_SSE_LINE_BYTES / 2) + 1];
    assert!(p.feed(&half).is_ok());
    assert!(p.feed(&half).is_err());
}

#[test]
fn feed_accepts_large_chunk_of_complete_lines() {
    let mut p = SseParser::new();
    let content = "x".repeat(2048);
    let line = format!("data: {{\"delta\":{{\"content\":\"{content}\"}}}}\n");
    let line_count = (MAX_SSE_LINE_BYTES / line.len()) + 2;
    let chunk = line.repeat(line_count);
    assert!(chunk.len() > MAX_SSE_LINE_BYTES);

    let r = p
        .feed(chunk.as_bytes())
        .expect("large chunk of complete lines must be accepted");
    assert_eq!(r.len(), line_count);
    assert!(r.iter().all(|s| s == &content));
}

#[test]
fn finalize_rejects_oversized_line() {
    let mut p = SseParser::new();
    // Grow the buffered, unterminated line beyond the limit (feed already
    // refuses it but keeps the bytes), then finalize must refuse it too.
    let huge = vec![b'a'; MAX_SSE_LINE_BYTES + 1];
    assert!(p.feed(&huge).is_err());
    let result = p.finalize();
    assert!(result.is_err());
}

#[test]
fn finalize_returns_buffered_content_from_multiple_partial_feeds() {
    let mut p = SseParser::new();
    p.feed(b"data: {\"delta\":{\"content\":\"part").unwrap();
    p.feed(b"_two\"}}").unwrap();
    let r = p.finalize().unwrap();
    assert_eq!(r, vec!["part_two"]);
}

#[test]
fn split_crlf_across_chunks_yields_one_line() {
    let mut p = SseParser::new();
    let mut all = Vec::new();
    all.extend(p.feed(b"data: {\"delta\":{\"content\":\"a\"}}\r").unwrap());
    all.extend(p.feed(b"\ndata: {\"delta\":{\"content\":\"b\"}}\n").unwrap());
    assert_eq!(all, vec!["a", "b"]);
}

#[test]
fn finalize_replaces_unfinished_character() {
    let mut p = SseParser::new();
    let mut chunk = b"data: {\"delta\":{\"content\":\"x\"}}\n".to_vec();
    chunk.push(0xE2);
    assert_eq!(p.feed(&chunk).unwrap(), vec!["x"]);
    assert!(p.finalize().unwrap().is_empty());
}

#[test]
fn done_false_falls_through_to_delta() {
    let mut p = SseParser::new();
    let r = p
        .feed(&data_line(r#"{"done":false,"delta":{"content":"go"}}"#))
        .unwrap();
    assert_eq!(r, vec!["go"]);
    assert!(!p.done());
}

/// Runs the step function over `events` as a stream consumer would: stops
/// at the first step that ends the stream, and sends the end of the bytes
/// when the events run out.
fn run_stream(events: Vec<SseEvent>) -> Vec<Result<String>> {
    let mut p = SseParser::new();
    let mut out = Vec::new();
    for ev in events {
        let (items, finished) = p.on_event(ev);
        out.extend(items);
        if finished {
            return out;
        }
    }
    let (items, _) = p.on_event(SseEvent::End);
    out.extend(items);
    out
}

#[test]
fn parse_sse_stream_yields_all_content_until_done() {
    let results = run_stream(vec![
        SseEvent::Chunk(data_line(r#"{"delta":{"content":"hello"}}"#)),
        SseEvent::Chunk(data_line(r#"{"delta":{"content":" world"}}"#)),
        SseEvent::Chunk(data_line(r#"{"delta":{"content":"!"}}"#)),
    ]);
    assert_eq!(results.len(), 3);
    assert_eq!(results[0].as_ref().unwrap(), "hello");
    assert_eq!(results[1].as_ref().unwrap(), " world");
    assert_eq!(results[2].as_ref().unwrap(), "!");
}

#[test]
fn parse_sse_stream_terminates_on_done_flag_even_with_trailing_bytes() {
    let results = run_stream(vec![
        SseEvent::Chunk(data_line(r#"{"delta":{"content":"first"}}"#)),
        SseEvent::Chunk(data_line(r#"{"done":true}"#)),
        SseEvent::Chunk(data_line(r#"{"delta":{"content":"ignored"}}"#)),
    ]);
    assert_eq!(results.len(), 1);
    assert_eq!(results[0].as_ref().unwrap(), "first");
}

#[test]
fn parse_sse_stream_finalizes_on_eof() {
    let results = run_stream(vec![SseEvent::Chunk(
        b"data: {\"delta\":{\"content\":\"partial\"}}".to_vec(),
    )]);
    assert_eq!(results.len(), 1);
    assert_eq!(results[0].as_ref().unwrap(), "partial");
}

#[test]
fn parse_sse_stream_propagates_io_error_from_byte_stream() {
    let results = run_stream(vec![
        SseEvent::Chunk(data_line(r#"{"delta":{"content":"before_err"}}"#)),
        SseEvent::Failed("error sending request".to_string()),
    ]);
    assert_eq!(results.len(), 2);
    assert_eq!(results[0].as_ref().unwrap(), "before_err");
    assert!(matches!(results[1], Err(HonchoError::Connection { .. })));
    assert_eq!(results[1].as_ref().unwrap_err().message(), "error sending request");
}

#[test]
fn parse_sse_stream_flushes_buffered_content_before_error() {
    let results = run_stream(vec![
        SseEvent::Chunk(b"data: {\"delta\":{\"content\":\"buffered\"}}".to_vec()),
        SseEvent::Failed("reset".to_string()),
    ]);
    assert_eq!(results.len(), 2);
    assert_eq!(results[0].as_ref().unwrap(), "buffered");
    assert!(matches!(results[1], Err(HonchoError::Connection { .. })));
}

#[test]
fn oversized_line_ends_the_stream_with_one_error() {
    let results = run_stream(vec![
        SseEvent::Chunk(vec![b'x'; MAX_SSE_LINE_BYTES + 1]),
        SseEvent::Chunk(data_line(r#"{"delta":{"content":"never"}}"#)),
    ]);
    assert_eq!(results.len(), 1);
    assert_eq!(
        results[0].as_ref().unwrap_err().message(),
        "SSE line exceeded maximum length of 1048576 bytes"
    );
}

#[test]
fn end_without_content_yields_nothing() {
    assert!(run_stream(vec![]).is_empty());
}

#[test]
fn any_cut_into_chunks_reads_the_same() {
    let mut full: Vec<u8> = b"data: {\"delta\":{\"content\":\"h\xC3\xA9\xF0\x9F\x98\x80\"}}\r\n".to_vec();
    full.extend_from_slice(b"data: {\"delta\":{\"content\":\"\xE2\x82\xAC\"}}\r\ndata: {\"done\": true}\n");
    let mut whole = SseParser::new();
    let expected = whole.feed(&full).unwrap();
    assert_eq!(expected, vec!["h\u{e9}\u{1F600}", "\u{20AC}"]);
    assert!(whole.done());
    for cut in 0..=full.len() {
        let mut p = SseParser::new();
        let mut got = p.feed(&full[..cut]).unwrap();
        got.extend(p.feed(&full[cut..]).unwrap());
        assert_eq!(got, expected, "cut at {cut}");
        assert!(p.done(), "cut at {cut}");
    }
}

#[test]
fn invalid_sequences_become_one_replacement_each() {
    let mut p = SseParser::new();
    let line: &[u8] = b"data: {\"delta\":{\"content\":\"a\xE0\x80b\xF0\x9F\x98c\xFFd\"}}\n";
    let got = p.feed(line).unwrap();
    assert_eq!(got, vec!["a\u{FFFD}\u{FFFD}b\u{FFFD}c\u{FFFD}d"]);
    assert!(!p.done());
}

#[test]
fn done_is_set_only_by_a_complete_done_line() {
    let mut p = SseParser::new();
    p.feed(b"data: {\"done\": false}\n").unwrap();
    assert!(!p.done());
    p.feed(b"data: {\"done\": true}").unwrap();
    assert!(!p.done());
    p.feed(b"\n").unwrap();
    assert!(p.done());
}

#[test]
fn invalid_bytes_weigh_three_each_against_the_line_limit() {
    let fits = vec![0xFFu8; MAX_SSE_LINE_BYTES / 3];
    assert!(SseParser::new().feed(&fits).is_ok());
    let over = vec![0xFFu8; MAX_SSE_LINE_BYTES / 3 + 1];
    assert!(SseParser::new().feed(&over).is_err());
}
