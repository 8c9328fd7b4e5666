use std::io::Write;
use vjmapper::base64::{base64_encoder, Base64Encoder};
use vjmapper::server::encode_png;

#[test]
fn test_base64_encoder() {
    let mut encoder = Base64Encoder::new();
    encoder.write_all(b"Hello").unwrap();
    let result = encoder.finish();
    assert_eq!(result, "SGVsbG8=");
}

#[test]
fn base64_empty_input_gives_empty_text() {
    let encoder = base64_encoder();
    assert_eq!(encoder.finish(), "");
}

#[test]
fn base64_padding_for_each_remainder() {
    let cases: [(&[u8], &str); 6] = [
        (b"M", "TQ=="),
        (b"Ma", "TWE="),
        (b"Man", "TWFu"),
        (b"foob", "Zm9vYg=="),
        (b"fooba", "Zm9vYmE="),
        (b"foobar", "Zm9vYmFy"),
    ];
    for (input, expected) in cases.iter() {
        let mut e = Base64Encoder::new();
        e.write_all(input).unwrap();
        assert_eq!(e.finish(), *expected);
    }
}

#[test]
fn base64_uses_plus_and_slash() {
    let mut e = Base64Encoder::new();
    e.write_all(&[0xfb, 0xff, 0xbf]).unwrap();
    assert_eq!(e.finish(), "+/+/");
}

#[test]
fn base64_writes_accumulate() {
    let mut a = Base64Encoder::new();
    assert_eq!(a.write(b"Hel").unwrap(), 3);
    assert_eq!(a.write(b"lo").unwrap(), 2);
    a.flush().unwrap();
    let mut b = Base64Encoder::new();
    b.write_all(b"Hello").unwrap();
    assert_eq!(a.finish(), b.finish());
}

#[test]
fn base64_length_is_four_per_started_group() {
    for n in 0..20usize {
        let data: Vec<u8> = (0..n as u8).collect();
        let mut e = Base64Encoder::new();
        e.write_all(&data).unwrap();
        assert_eq!(e.finish().len(), 4 * ((n + 2) / 3));
    }
}

#[test]
fn base64_concat_at_group_boundary() {
    let a = b"abcdef";
    let b = b"xy";
    let mut whole = Base64Encoder::new();
    whole.write_all(a).unwrap();
    whole.write_all(b).unwrap();
    let mut first = Base64Encoder::new();
    first.write_all(a).unwrap();
    let mut second = Base64Encoder::new();
    second.write_all(b).unwrap();
    assert_eq!(whole.finish(), first.finish() + &second.finish());
}

#[test]
fn png_payload_is_base64_of_bytes() {
    assert_eq!(encode_png(&[0x89, 0x50, 0x4e, 0x47]), "iVBORw==");
}

#[test]
fn different_data_encode_differently() {
    let inputs: Vec<&[u8]> = vec![b"", b"a", b"b", b"ab", b"abc", b"abd", b"\x00", b"\x00\x00"];
    let texts: Vec<String> = inputs.iter().map(|d| encode_png(d)).collect();
    for i in 0..texts.len() {
        for j in 0..texts.len() {
            assert_eq!(i == j, texts[i] == texts[j]);
        }
    }
}
