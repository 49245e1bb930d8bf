use lichess::decode::{decode_line, decode_line_strict, LineOutcome, NdjsonDecoder};
use lichess::filter::filter_blank_lines;
use lichess::json::Shape;
use lichess::lines::LineSplitter;

fn lines_of_chunks(chunks: &[&[u8]]) -> Vec<Vec<u8>> {
    let mut splitter = LineSplitter::new();
    let mut out: Vec<Vec<u8>> = Vec::new();
    for chunk in chunks {
        out.extend(splitter.push_chunk(chunk));
    }
    out
}

#[test]
fn chunk_boundary_independence() {
    let text: &[u8] = b"first line\nsecond\r\n\nthird record here\n tail";
    let whole = lines_of_chunks(&[text]);
    let cuts: &[&[&[u8]]] = &[
        &[b"first line\nsecond\r", b"\n\nthird record here\n tail"],
        &[b"first", b" line", b"\n", b"second\r\n\nthird record here\n tail"],
        &[b"first line\nsecond\r\n\nthird record h", b"ere\n", b" tail"],
        &[
            b"f", b"irst line\ns", b"econd", b"\r", b"\n", b"\n", b"third record here",
            b"\n tail",
        ],
    ];
    for chunks in cuts {
        assert_eq!(lines_of_chunks(chunks), whole);
    }
    assert_eq!(
        whole,
        vec![
            b"first line".to_vec(),
            b"second".to_vec(),
            b"".to_vec(),
            b"third record here".to_vec()
        ]
    );
}

#[test]
fn terminator_split_across_chunks() {
    let mut splitter = LineSplitter::new();
    assert_eq!(splitter.push_chunk(b"one\r"), Vec::<Vec<u8>>::new());
    assert_eq!(splitter.push_chunk(b"\ntwo"), vec![b"one".to_vec()]);
}

#[test]
fn trailing_partial_line_stays_buffered() {
    let mut splitter = LineSplitter::new();
    assert_eq!(splitter.push_chunk(b"a\nb"), vec![b"a".to_vec()]);
    assert_eq!(splitter.finish(), b"b".to_vec());
}

#[test]
fn blank_lines_are_dropped() {
    let lines: Vec<Vec<u8>> = vec![
        b"".to_vec(),
        b"a".to_vec(),
        b"".to_vec(),
        b"b".to_vec(),
        b"".to_vec(),
    ];
    assert_eq!(
        filter_blank_lines(lines),
        vec![b"a".to_vec(), b"b".to_vec()]
    );
}

#[test]
fn malformed_lines_are_skipped() {
    let shape = Shape::Field(String::from("x"), Box::new(Shape::Integer));
    let mut decoder = NdjsonDecoder::new(shape);
    let items = decoder.push_chunk(b"{\"x\":1}\nnot json\n{\"x\":2}\n");
    let expected = vec![
        serde_json::from_str::<serde_json::Value>("{\"x\":1}").unwrap(),
        serde_json::from_str::<serde_json::Value>("{\"x\":2}").unwrap(),
    ];
    assert_eq!(items, expected);
}

#[test]
fn wrong_shape_lines_are_skipped() {
    let shape = Shape::Field(String::from("x"), Box::new(Shape::Integer));
    let mut decoder = NdjsonDecoder::new(shape);
    let items = decoder.push_chunk(b"{\"x\":\"text\"}\n{\"y\":1}\n{\"x\":3}\n7\n");
    assert_eq!(
        items,
        vec![serde_json::from_str::<serde_json::Value>("{\"x\":3}").unwrap()]
    );
}

#[test]
fn heartbeats_never_reach_the_decoder() {
    let mut decoder = NdjsonDecoder::new(Shape::Any);
    let mut items = decoder.push_chunk(b"\r\n{\"a\":1}\n\n");
    items.extend(decoder.push_chunk(b"\n\n{\"b\":2}\n"));
    let expected = vec![
        serde_json::from_str::<serde_json::Value>("{\"a\":1}").unwrap(),
        serde_json::from_str::<serde_json::Value>("{\"b\":2}").unwrap(),
    ];
    assert_eq!(items, expected);
}

#[test]
fn record_split_across_chunks_decodes_once() {
    let mut decoder = NdjsonDecoder::new(Shape::Any);
    assert_eq!(decoder.push_chunk(b"{\"x\":"), Vec::<serde_json::Value>::new());
    assert_eq!(
        decoder.push_chunk(b"1}\n"),
        vec![serde_json::from_str::<serde_json::Value>("{\"x\":1}").unwrap()]
    );
    assert_eq!(decoder.finish(), Vec::<u8>::new());
}

#[test]
fn strict_pipeline_reports_every_fate_in_order() {
    let shape = Shape::Field(String::from("x"), Box::new(Shape::Integer));
    let mut decoder = NdjsonDecoder::new(shape);
    let outcomes = decoder.push_chunk(b"\n{\"x\":1}\nbroken\n\n{\"x\":\"s\"}\n");
    assert_eq!(outcomes.len(), 1);
    let shape = Shape::Field(String::from("x"), Box::new(Shape::Integer));
    let mut strict = NdjsonDecoder::new(shape);
    let fates = strict.push_chunk_strict(b"\n{\"x\":1}\nbroken\n\n{\"x\":\"s\"}\n");
    assert_eq!(fates.len(), 3);
    assert!(matches!(fates[0], LineOutcome::Decoded(_)));
    assert!(matches!(fates[1], LineOutcome::NotJson));
    assert!(matches!(fates[2], LineOutcome::WrongShape(_)));
}

#[test]
fn strict_decoder_reports_each_fate() {
    let shape = Shape::Field(String::from("x"), Box::new(Shape::Integer));
    assert!(matches!(
        decode_line_strict(b"{\"x\":1}", &shape),
        LineOutcome::Decoded(_)
    ));
    assert!(matches!(
        decode_line_strict(b"not json", &shape),
        LineOutcome::NotJson
    ));
    assert!(matches!(
        decode_line_strict(b"{\"x\":\"s\"}", &shape),
        LineOutcome::WrongShape(_)
    ));
}

#[test]
fn lenient_decoder_hands_the_document_through() {
    let decoded = decode_line(b"{\"deep\":[1,2,{\"k\":null}]}", &Shape::Object).unwrap();
    assert_eq!(
        decoded,
        serde_json::from_str::<serde_json::Value>("{\"deep\":[1,2,{\"k\":null}]}").unwrap()
    );
    assert_eq!(decode_line(b"[1,2]", &Shape::Object), None);
}

#[test]
fn shape_kinds_discriminate() {
    assert!(decode_line(b"true", &Shape::Boolean).is_some());
    assert!(decode_line(b"3", &Shape::Boolean).is_none());
    assert!(decode_line(b"3", &Shape::Integer).is_some());
    assert!(decode_line(b"3.5", &Shape::Integer).is_none());
    assert!(decode_line(b"\"s\"", &Shape::Text).is_some());
    assert!(decode_line(b"{}", &Shape::Text).is_none());
    assert!(decode_line(b"{}", &Shape::Object).is_some());
    let nested = Shape::Field(
        String::from("a"),
        Box::new(Shape::Field(String::from("b"), Box::new(Shape::Text))),
    );
    assert!(decode_line(b"{\"a\":{\"b\":\"c\"}}", &nested).is_some());
    assert!(decode_line(b"{\"a\":{\"b\":3}}", &nested).is_none());
}
