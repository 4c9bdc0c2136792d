//! The chunked streaming decoder, fed byte chunks as a transport would.

use bigmodel::chat::response::{ChatApiResponseStream, ChunkedEventDecoder};
use bigmodel::json::JsonValue;
use bigmodel::lines::LineFrameExtractor;
use bigmodel::rtav::event::Event;
use bigmodel::utf8buf::ByteAccumulator;

fn decode_all(decoder: &mut ChunkedEventDecoder, chunks: &[&[u8]]) -> Vec<String> {
    let mut out: Vec<String> = Vec::new();
    for c in chunks {
        out.extend(decoder.decode_chunk(c));
    }
    out
}

#[test]
fn two_line_stream_emits_exactly_hi() {
    // a streamed choice carries no index here; it is optional and reads
    // as zero
    let mut d = ChunkedEventDecoder::new();
    let line1 = b"data: {\"choices\":[{\"delta\":{\"role\":\"assistant\",\"content\":\"hi\"}}]}\n";
    let line2 = b"data: [DONE]\n";
    let mut out = decode_all(&mut d, &[line1, line2]);
    assert_eq!(out.len(), 1);
    assert_eq!(out.remove(0), "hi");
    assert!(d.finish().is_none());
}

#[test]
fn explicit_choice_index_also_decodes() {
    let mut d = ChunkedEventDecoder::new();
    let line = b"data: {\"choices\":[{\"index\":2,\"delta\":{\"role\":\"assistant\",\"content\":\"yo\"}}]}\n";
    assert_eq!(d.decode_chunk(line), vec!["yo".to_string()]);
    // a non-numeric index is still a shape mismatch
    let bad = b"data: {\"choices\":[{\"index\":\"x\",\"delta\":{\"role\":\"assistant\",\"content\":\"no\"}}]}\n";
    let out = d.decode_chunk(bad);
    assert_eq!(out.len(), 1);
    assert!(out[0].starts_with("JSON format is correct, but does not match"));
}

#[test]
fn streamed_record_reads_usage_and_web_search_back() {
    let frame = Event::parse(
        b"{\"created\":7,\"usage\":{\"prompt_tokens\":1,\"completion_tokens\":2,\"total_tokens\":3},\"web_search\":[{\"title\":\"t\",\"link\":\"l\",\"content\":\"c\"}]}",
    )
    .unwrap();
    let rec = ChatApiResponseStream::from_json(&JsonValue::Obj(frame.entries)).unwrap();
    assert_eq!(rec.created, Some(7));
    let u = rec.usage.unwrap();
    assert_eq!((u.prompt_tokens, u.completion_tokens, u.total_tokens), (1, 2, 3));
    let ws = rec.web_search.unwrap();
    assert_eq!(ws.len(), 1);
    assert_eq!(ws[0].title, "t");
    assert_eq!(ws[0].link, "l");
    assert_eq!(ws[0].content, "c");
}

#[test]
fn invalid_json_yields_marker_and_stream_continues() {
    let mut d = ChunkedEventDecoder::new();
    let out1 = d.decode_chunk(b"data: not-json\n");
    assert_eq!(out1.len(), 1);
    assert_eq!(out1[0], "Invalid JSON data: not-json");
    // the stream keeps decoding well-formed lines afterwards
    let out2 = d.decode_chunk(
        b"data: {\"choices\":[{\"index\":0,\"delta\":{\"role\":\"assistant\",\"content\":\"ok\"}}]}\n",
    );
    assert_eq!(out2, vec!["ok".to_string()]);
}

#[test]
fn shape_mismatch_gets_its_own_marker() {
    let mut d = ChunkedEventDecoder::new();
    let out = d.decode_chunk(b"data: {\"choices\":\"nope\"}\n");
    assert_eq!(out.len(), 1);
    assert_eq!(
        out[0],
        "JSON format is correct, but does not match ChatApiResponseStream structure: {\"choices\":\"nope\"}"
    );
}

#[test]
fn lines_without_prefix_and_empty_lines_are_ignored() {
    let mut d = ChunkedEventDecoder::new();
    let out = d.decode_chunk(b"\n   \nevent: noise\n: comment\n");
    assert!(out.is_empty());
}

#[test]
fn split_mid_codepoint_reassembles_text() {
    // the two-byte encoding of a non-ASCII character is cut between chunks
    let text = "data: {\"choices\":[{\"index\":0,\"delta\":{\"role\":\"assistant\",\"content\":\"caf\u{e9}!\"}}]}\n";
    let bytes = text.as_bytes();
    let mut d = ChunkedEventDecoder::new();
    let mut out: Vec<String> = Vec::new();
    // feed one byte at a time: every split point is exercised
    for b in bytes {
        out.extend(d.decode_chunk(std::slice::from_ref(b)));
    }
    assert_eq!(out, vec!["caf\u{e9}!".to_string()]);
}

#[test]
fn accumulator_split_invariance_concrete() {
    // concatenated output over all chunk splits equals the original text
    let text = "a\u{e9}\u{4e2d}\u{1f600}z".as_bytes();
    for cut in 0..=text.len() {
        let mut acc = ByteAccumulator::new();
        let mut got: Vec<u8> = Vec::new();
        got.extend(acc.accumulate(&text[..cut]));
        got.extend(acc.accumulate(&text[cut..]));
        assert_eq!(got, text, "split at {cut}");
    }
}

#[test]
fn line_extraction_chunk_invariance_concrete() {
    let text = b"alpha\nbeta\ngamma";
    for cut in 0..=text.len() {
        let mut ex = LineFrameExtractor::new();
        let mut lines: Vec<Vec<u8>> = Vec::new();
        lines.extend(ex.feed(&text[..cut]));
        lines.extend(ex.feed(&text[cut..]));
        assert_eq!(lines, vec![b"alpha".to_vec(), b"beta".to_vec()], "split at {cut}");
        assert_eq!(ex.peek_buffered(), b"gamma");
    }
}

#[test]
fn finish_surfaces_remaining_data() {
    let mut d = ChunkedEventDecoder::new();
    let out = d.decode_chunk(b"data: tail with no newline");
    assert!(out.is_empty());
    let rest = d.finish().expect("unterminated line must be surfaced");
    assert_eq!(rest, "Remaining unprocessed data: data: tail with no newline");
}

#[test]
fn tool_call_fragments_are_rendered_when_content_is_empty() {
    let mut d = ChunkedEventDecoder::new();
    let line = b"data: {\"choices\":[{\"index\":0,\"delta\":{\"role\":\"assistant\",\"tool_calls\":[{\"id\":\"c1\",\"type\":\"function\",\"name\":\"get_weather\",\"arguments\":\"{}\"}]}}]}\n";
    let out = d.decode_chunk(line);
    assert_eq!(out, vec!["get_weather({})".to_string()]);
}

#[test]
fn sentinel_is_consumed_even_with_surrounding_whitespace() {
    let mut d = ChunkedEventDecoder::new();
    let out = d.decode_chunk(b"  data: [DONE]  \r\n");
    assert!(out.is_empty());
    assert!(d.finish().is_none());
}

#[test]
fn empty_content_choices_are_suppressed() {
    let mut d = ChunkedEventDecoder::new();
    let line = b"data: {\"choices\":[{\"index\":0,\"delta\":{\"role\":\"assistant\",\"content\":\"\"}}]}\n";
    let out = d.decode_chunk(line);
    assert!(out.is_empty());
}
