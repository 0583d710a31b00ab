use malstrap::digest::{DigestError, DigestState, Digests};
use malstrap::hex_text::{decode_hex, digest_from_hex, encode_hex};
use malstrap::sample::{classify, Fingerprinter, IngestError, Sample};

#[test]
fn encode_hex_gives_two_lower_digits_per_byte() {
    assert_eq!(encode_hex(&[0x00, 0xff, 0x10, 0xab]), "00ff10ab");
    assert_eq!(encode_hex(&[]), "");
}

#[test]
fn decode_hex_reads_either_case() {
    assert_eq!(decode_hex("00ff10AB"), Some(vec![0x00, 0xff, 0x10, 0xab]));
    assert_eq!(decode_hex(""), Some(vec![]));
}

#[test]
fn decode_hex_rejects_odd_length_and_bad_digits() {
    assert_eq!(decode_hex("abc"), None);
    assert_eq!(decode_hex("zz"), None);
    assert_eq!(decode_hex("é0"), None);
}

#[test]
fn hex_round_trip_for_each_digest_width() {
    for width in [16usize, 32, 64] {
        let bytes: Vec<u8> = (0..width).map(|i| (i * 37 % 256) as u8).collect();
        let text = encode_hex(&bytes);
        assert_eq!(text.len(), 2 * width);
        assert_eq!(decode_hex(&text), Some(bytes.clone()));
        assert_eq!(digest_from_hex(&text, width), Some(bytes));
    }
}

#[test]
fn digest_from_hex_rejects_other_widths() {
    let text = encode_hex(&[1u8; 16]);
    assert_eq!(digest_from_hex(&text, 32), None);
    assert_eq!(digest_from_hex("0g", 1), None);
}

fn ingest(name: &str, chunks: &[&[u8]]) -> Sample {
    let mut f = Fingerprinter::new().unwrap();
    for c in chunks {
        f.update(c).unwrap();
    }
    Sample::new(name, f).unwrap()
}

#[test]
fn fingerprint_of_abc_matches_known_digests() {
    let s = ingest("abc.txt", &[b"abc"]);
    assert_eq!(s.name, "abc.txt");
    assert_eq!(s.path, "");
    assert_eq!(s.md5_hex(), "900150983cd24fb0d6963f7d28e17f72");
    assert_eq!(
        s.sha256_hex(),
        "ba7816bf8f01cfea414140de5dae2223b00361a396177a9cb410ff61f20015ad"
    );
    assert_eq!(
        s.sha512_hex(),
        "ddaf35a193617abacc417349ae20413112e6fa4e89a97ea20a9eeee64b55d39a2192992a274fc1a836ba3c23a3feebbd454d4423643ce80e2a9ac94fa54ca49f"
    );
    assert!(s.local_report.is_none());
    assert!(s.vt_report.is_none());
}

#[test]
fn fingerprint_does_not_depend_on_chunking() {
    let whole = ingest("a", &[b"hello, world"]);
    let split = ingest("a", &[b"hel", b"", b"lo, w", b"orld"]);
    assert_eq!(whole.md5, split.md5);
    assert_eq!(whole.sha256, split.sha256);
    assert_eq!(whole.sha512, split.sha512);
    assert_eq!(whole.magic, split.magic);
}

#[test]
fn fingerprint_of_empty_file() {
    let s = ingest("empty", &[]);
    assert_eq!(s.md5_hex(), "d41d8cd98f00b204e9800998ecf8427e");
    assert_eq!(s.md5.len(), 16);
    assert_eq!(s.sha256.len(), 32);
    assert_eq!(s.sha512.len(), 64);
}

#[test]
fn digest_state_finishes_with_three_widths() {
    let mut d = DigestState::new().unwrap();
    d.update(b"abc").unwrap();
    let out = d.finish().unwrap();
    assert_eq!(encode_hex(&out.md5), "900150983cd24fb0d6963f7d28e17f72");
    assert_eq!(out.sha256.len(), 32);
    assert_eq!(out.sha512.len(), 64);
}

#[test]
fn classification_is_deterministic() {
    let content = b"\x89PNG\r\n\x1a\n\0\0\0\rIHDR";
    assert_eq!(classify(content), classify(content));
    let a = ingest("one.bin", &[content]);
    let b = ingest("two.dat", &[&content[..4], &content[4..]]);
    assert_eq!(a.magic, b.magic);
}

#[test]
fn classification_reads_content_not_names() {
    assert_eq!(classify(b"plain words"), "text/plain");
    assert_eq!(classify(b"\x00\x01\x02binary"), "application/octet-stream");
    let s = ingest("looks_like.exe", &[b"plain words"]);
    assert_eq!(s.magic, "text/plain");
}

#[test]
fn ingest_error_variants_are_distinct() {
    assert_ne!(IngestError::Unreadable, IngestError::DigestFailed);
}

#[test]
fn digests_checked_accepts_only_the_three_widths() {
    let d = Digests::checked(vec![1; 16], vec![2; 32], vec![3; 64]).unwrap();
    assert_eq!(d.md5, vec![1u8; 16]);
    assert_eq!(d.sha256, vec![2u8; 32]);
    assert_eq!(d.sha512, vec![3u8; 64]);
    assert_eq!(Digests::checked(vec![1; 15], vec![2; 32], vec![3; 64]).unwrap_err(), DigestError::Width);
    assert_eq!(Digests::checked(vec![1; 16], vec![2; 64], vec![3; 64]).unwrap_err(), DigestError::Width);
    assert_eq!(Digests::checked(vec![1; 16], vec![2; 32], vec![3; 32]).unwrap_err(), DigestError::Width);
}
