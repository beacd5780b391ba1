use trumpet::sse::SseLineParser;

#[test]
fn parser_emits_frame_on_blank_line() {
    let mut p = SseLineParser::default();
    let frames = p.feed(b"event: agent_registered\ndata: {\"id\":\"x\"}\n\n");
    assert_eq!(frames.len(), 1, "must emit exactly one frame");
    assert_eq!(frames[0].event_type.as_deref(), Some("agent_registered"));
    assert_eq!(frames[0].data.as_deref(), Some("{\"id\":\"x\"}"));
}

#[test]
fn parser_tolerates_chunked_size_lines() {
    let mut p = SseLineParser::default();
    let bytes = b"1a\r\nevent: x\ndata: y\n\n\r\n";
    let frames = p.feed(bytes);
    assert_eq!(frames.len(), 1, "chunk-size line must be skipped");
    assert_eq!(frames[0].event_type.as_deref(), Some("x"));
    assert_eq!(frames[0].data.as_deref(), Some("y"));
}

#[test]
fn parser_handles_split_chunks() {
    let mut p = SseLineParser::default();
    let frames1 = p.feed(b"event: x\nda");
    assert!(frames1.is_empty(), "frame not yet complete");
    let frames2 = p.feed(b"ta: y\n\n");
    assert_eq!(frames2.len(), 1, "frame completes once second chunk arrives");
    assert_eq!(frames2[0].event_type.as_deref(), Some("x"));
    assert_eq!(frames2[0].data.as_deref(), Some("y"));
}

#[test]
fn parser_ignores_blank_lines_without_fields() {
    let mut p = SseLineParser::default();
    assert!(p.feed(b"\n\n: comment\n\n").is_empty());
}

#[test]
fn parser_emits_frame_with_only_data() {
    let mut p = SseLineParser::default();
    let frames = p.feed(b"data: only\r\n\r\n");
    assert_eq!(frames.len(), 1);
    assert_eq!(frames[0].event_type, None);
    assert_eq!(frames[0].data.as_deref(), Some("only"));
}

#[test]
fn parser_later_field_replaces_earlier() {
    let mut p = SseLineParser::default();
    let frames = p.feed(b"event: a\nevent: b\ndata: 1\ndata: 2\n\nevent: c\n\n");
    assert_eq!(frames.len(), 2);
    assert_eq!(frames[0].event_type.as_deref(), Some("b"));
    assert_eq!(frames[0].data.as_deref(), Some("2"));
    assert_eq!(frames[1].event_type.as_deref(), Some("c"));
    assert_eq!(frames[1].data, None);
}

#[test]
fn split_feeds_give_the_same_frames_as_one_feed() {
    let input: &[u8] = b"event: one\ndata: 1\n\nevent: two\ndata: 2\n\n";
    let mut whole = SseLineParser::default();
    let all = whole.feed(input);
    for cut in 0..input.len() {
        let mut p = SseLineParser::default();
        let mut got = p.feed(&input[..cut]);
        got.extend(p.feed(&input[cut..]));
        assert_eq!(got.len(), all.len());
        for (a, b) in got.iter().zip(all.iter()) {
            assert_eq!(a.event_type, b.event_type);
            assert_eq!(a.data, b.data);
        }
    }
}

#[test]
fn parser_byte_chunks_at_char_boundaries_match_whole() {
    let whole = "event: grüße\ndata: ünïcode\n\n".as_bytes();
    let split = "event: grü".len();
    let mut p1 = SseLineParser::default();
    let mut frames = p1.feed(&whole[..split]);
    frames.extend(p1.feed(&whole[split..]));
    let mut p2 = SseLineParser::default();
    let once = p2.feed(whole);
    assert_eq!(frames.len(), 1);
    assert_eq!(once.len(), 1);
    assert_eq!(frames[0].event_type, once[0].event_type);
    assert_eq!(frames[0].data, once[0].data);
    assert_eq!(once[0].event_type.as_deref(), Some("grüße"));
}
