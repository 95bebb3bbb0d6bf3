use base64::Engine;
use blob2json::BlobBuilder;
use blob2json::kv::parse_key_val;

fn decode(body: &str) -> Vec<u8> {
    base64::engine::general_purpose::STANDARD
        .decode(body)
        .expect("body must be valid standard base64")
}

#[test]
fn body_decodes_back_to_input() {
    let builder = BlobBuilder::default();
    let cases: Vec<Vec<u8>> = vec![
        vec![],
        vec![0x00],
        vec![0xff, 0x00],
        vec![0x68, 0x69],
        vec![1, 2, 3],
        vec![1, 2, 3, 4],
        vec![250, 251, 252, 253, 254, 255, 0],
        (0u8..=255).collect(),
    ];
    for bytes in cases {
        let blob = builder.bytes2blob(&bytes, String::from("n"));
        assert_eq!(decode(&blob.body), bytes);
    }
}

#[test]
fn hi_encodes_to_expected_body() {
    let builder = BlobBuilder::default();
    let blob = builder.bytes2blob(&[0x68, 0x69], String::from("greet"));
    assert_eq!(blob.body, "aGk=");
}

#[test]
fn end_to_end_example_object() {
    let builder = BlobBuilder::default();
    let blob = builder.bytes2blob(&[0x68, 0x69], String::from("greet"));
    assert_eq!(
        blob.to_json(),
        "{\"name\":\"greet\",\"content_type\":\"application/octet-stream\",\
         \"content_encoding\":\"\",\"content_transfer_encoding\":\"base64\",\
         \"body\":\"aGk=\"}"
    );
}

#[test]
fn default_and_empty_input_object() {
    let builder = BlobBuilder::default();
    let blob = builder.bytes2blob(&[], String::from("x"));
    assert_eq!(
        blob.to_json(),
        "{\"name\":\"x\",\"content_type\":\"application/octet-stream\",\
         \"content_encoding\":\"\",\"content_transfer_encoding\":\"base64\",\
         \"body\":\"\"}"
    );
}

#[test]
fn transfer_encoding_is_always_base64() {
    let b1 = BlobBuilder::default().bytes2blob(&[1, 2], String::from("a"));
    assert_eq!(b1.content_transfer_encoding, "base64");
    let b2 = BlobBuilder::default()
        .with_content_type(String::from("text/plain"))
        .with_content_encoding(String::from("gzip"))
        .with_max_bytes(7)
        .bytes2blob(&[], String::from("b"));
    assert_eq!(b2.content_transfer_encoding, "base64");
    let b3 = BlobBuilder::default()
        .rdr2blob(&b"xyz"[..], String::from("c"))
        .unwrap();
    assert_eq!(b3.content_transfer_encoding, "base64");
}

#[test]
fn setters_replace_their_field() {
    let blob = BlobBuilder::default()
        .with_content_type(String::from("text/plain"))
        .with_content_encoding(String::from("gzip"))
        .bytes2blob(b"hi", String::from("n"));
    assert_eq!(blob.content_type, "text/plain");
    assert_eq!(blob.content_encoding, "gzip");
    assert_eq!(
        blob.to_json(),
        "{\"name\":\"n\",\"content_type\":\"text/plain\",\
         \"content_encoding\":\"gzip\",\"content_transfer_encoding\":\"base64\",\
         \"body\":\"aGk=\"}"
    );
}

#[test]
fn short_source_reads_whole_and_matches_bytes2blob() {
    let data = b"hello world";
    let builder = BlobBuilder::default();
    let from_rdr = builder.rdr2blob(&data[..], String::from("n")).unwrap();
    let from_bytes = builder.bytes2blob(data, String::from("n"));
    assert_eq!(from_rdr.name, from_bytes.name);
    assert_eq!(from_rdr.content_type, from_bytes.content_type);
    assert_eq!(from_rdr.content_encoding, from_bytes.content_encoding);
    assert_eq!(
        from_rdr.content_transfer_encoding,
        from_bytes.content_transfer_encoding
    );
    assert_eq!(from_rdr.body, from_bytes.body);
    assert_eq!(from_rdr.metadata, from_bytes.metadata);
    assert_eq!(decode(&from_rdr.body), data);
}

#[test]
fn long_source_is_truncated_to_cap() {
    let data = b"0123456789";
    let builder = BlobBuilder::default().with_max_bytes(4);
    let blob = builder.rdr2blob(&data[..], String::from("n")).unwrap();
    assert_eq!(decode(&blob.body), b"0123");
}

#[test]
fn cap_equal_to_length_keeps_everything() {
    let data = b"abcd";
    let builder = BlobBuilder::default().with_max_bytes(4);
    let blob = builder.rdr2blob(&data[..], String::from("n")).unwrap();
    assert_eq!(decode(&blob.body), data);
}

#[test]
fn zero_cap_yields_empty_body() {
    let data = b"plenty of input";
    let builder = BlobBuilder::default().with_max_bytes(0);
    let blob = builder.rdr2blob(&data[..], String::from("n")).unwrap();
    assert_eq!(blob.body, "");
}

#[test]
fn builder_is_reusable() {
    let builder = BlobBuilder::default();
    let one = builder.bytes2blob(b"one", String::from("a"));
    let two = builder.bytes2blob(b"two", String::from("b"));
    assert_eq!(decode(&one.body), b"one");
    assert_eq!(decode(&two.body), b"two");
}

#[test]
fn no_metadata_omits_the_key() {
    let blob = BlobBuilder::default().bytes2blob(&[], String::from("n"));
    assert!(blob.metadata.is_none());
    assert!(!blob.to_json().contains("metadata"));
}

#[test]
fn metadata_serializes_as_an_object() {
    let builder = BlobBuilder::default()
        .with_metadata(vec![(String::from("a"), String::from("b"))]);
    let blob = builder.bytes2blob(&[], String::from("n"));
    assert_eq!(
        blob.to_json(),
        "{\"name\":\"n\",\"content_type\":\"application/octet-stream\",\
         \"content_encoding\":\"\",\"content_transfer_encoding\":\"base64\",\
         \"body\":\"\",\"metadata\":{\"a\":\"b\"}}"
    );
}

#[test]
fn metadata_keeps_the_given_order() {
    let builder = BlobBuilder::default().with_metadata(vec![
        (String::from("k1"), String::from("v1")),
        (String::from("k2"), String::from("v2")),
    ]);
    let blob = builder.bytes2blob(&[], String::from("n"));
    assert!(blob
        .to_json()
        .ends_with("\"metadata\":{\"k1\":\"v1\",\"k2\":\"v2\"}}"));
}

#[test]
fn empty_metadata_still_serializes_when_set() {
    let builder = BlobBuilder::default().with_metadata(Vec::new());
    let blob = builder.bytes2blob(&[], String::from("n"));
    assert!(blob.to_json().ends_with("\"metadata\":{}}"));
}

#[test]
fn json_escapes_match_the_serializer() {
    let name = "a\"b\\c\nd\te\ru{\u{1}}\u{8}\u{c}";
    let blob = BlobBuilder::default().bytes2blob(&[], String::from(name));
    let expected_name = serde_json::to_string(name).unwrap();
    let json = blob.to_json();
    assert!(json.starts_with(&format!("{{\"name\":{}", expected_name)));
    assert_eq!(
        expected_name,
        "\"a\\\"b\\\\c\\nd\\te\\ru{\\u0001}\\b\\f\""
    );
}

struct FailingReader;

impl std::io::Read for FailingReader {
    fn read(&mut self, _buf: &mut [u8]) -> std::io::Result<usize> {
        Err(std::io::Error::new(
            std::io::ErrorKind::BrokenPipe,
            "broken pipe",
        ))
    }
}

impl std::io::BufRead for FailingReader {
    fn fill_buf(&mut self) -> std::io::Result<&[u8]> {
        Err(std::io::Error::new(
            std::io::ErrorKind::BrokenPipe,
            "broken pipe",
        ))
    }

    fn consume(&mut self, _amt: usize) {}
}

#[test]
fn read_failure_propagates() {
    let builder = BlobBuilder::default();
    let result = builder.rdr2blob(FailingReader, String::from("n"));
    assert!(result.is_err());
    assert_eq!(
        result.unwrap_err().kind(),
        std::io::ErrorKind::BrokenPipe
    );
}

/// Delivers its bytes one at a time, so a bounded read needs many calls.
struct TrickleReader {
    data: Vec<u8>,
    pos: usize,
}

impl std::io::Read for TrickleReader {
    fn read(&mut self, buf: &mut [u8]) -> std::io::Result<usize> {
        if self.pos >= self.data.len() || buf.is_empty() {
            return Ok(0);
        }
        buf[0] = self.data[self.pos];
        self.pos += 1;
        Ok(1)
    }
}

impl std::io::BufRead for TrickleReader {
    fn fill_buf(&mut self) -> std::io::Result<&[u8]> {
        Ok(&self.data[self.pos..])
    }

    fn consume(&mut self, amt: usize) {
        self.pos += amt;
    }
}

#[test]
fn trickling_source_is_read_to_the_cap() {
    let data: Vec<u8> = (0u8..100).collect();
    let rdr = TrickleReader {
        data: data.clone(),
        pos: 0,
    };
    let builder = BlobBuilder::default().with_max_bytes(64);
    let blob = builder.rdr2blob(rdr, String::from("n")).unwrap();
    assert_eq!(decode(&blob.body), &data[..64]);
}

#[test]
fn parse_key_val_splits_at_first_equals() {
    assert_eq!(
        parse_key_val("k=v"),
        Some((String::from("k"), String::from("v")))
    );
    assert_eq!(
        parse_key_val("a=b=c"),
        Some((String::from("a"), String::from("b=c")))
    );
    assert_eq!(
        parse_key_val("=x"),
        Some((String::from(""), String::from("x")))
    );
    assert_eq!(
        parse_key_val("trailing="),
        Some((String::from("trailing"), String::from("")))
    );
    assert_eq!(parse_key_val("no separator"), None);
    assert_eq!(parse_key_val(""), None);
}

#[test]
fn rdr_end_to_end_object() {
    let blob = BlobBuilder::default()
        .rdr2blob(&[0x68u8, 0x69u8][..], String::from("greet"))
        .unwrap();
    assert_eq!(
        blob.to_json(),
        "{\"name\":\"greet\",\"content_type\":\"application/octet-stream\",\
         \"content_encoding\":\"\",\"content_transfer_encoding\":\"base64\",\
         \"body\":\"aGk=\"}"
    );
}

#[test]
fn merge_key_vals_keeps_first_position_last_value() {
    let pairs = vec![
        (String::from("a"), String::from("1")),
        (String::from("b"), String::from("2")),
        (String::from("a"), String::from("3")),
    ];
    let merged = blob2json::kv::merge_key_vals(&pairs);
    assert_eq!(
        merged,
        vec![
            (String::from("a"), String::from("3")),
            (String::from("b"), String::from("2")),
        ]
    );
}

#[test]
fn merged_metadata_serializes_without_repeated_keys() {
    let pairs = vec![
        (String::from("k"), String::from("old")),
        (String::from("k"), String::from("new")),
    ];
    let builder = BlobBuilder::default().with_metadata(blob2json::kv::merge_key_vals(&pairs));
    let blob = builder.bytes2blob(&[], String::from("n"));
    assert!(blob.to_json().ends_with("\"metadata\":{\"k\":\"new\"}}"));
}
