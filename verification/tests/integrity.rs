//! Checksum verification and the deployment data model, exercised on
//! concrete values.

use hawkbit::checksum;
use hawkbit::{
    Artifact, Chunk, ChecksumType, ConfirmationInfo, Deployment, DownloadOutcome, Error,
};

fn artifact(md5: Option<&str>, sha1: Option<&str>, sha256: Option<&str>) -> Artifact {
    Artifact {
        filename: "rootfs.img".to_string(),
        size: 11,
        md5: md5.map(|s| s.to_string()),
        sha1: sha1.map(|s| s.to_string()),
        sha256: sha256.map(|s| s.to_string()),
        download_url: Some("https://h/t/c/artifacts/1/download".to_string()),
        md5sum_url: None,
    }
}

const HELLO_SHA256: &str = "b94d27b9934d3e08a52e52d7da7dabfac484efe37a5380ee9088f7ace2efcde9";

#[test]
fn matching_sha256_verifies_and_forwards_bytes() {
    let art = artifact(None, None, Some(HELLO_SHA256));
    let chunks = vec![b"hello".to_vec(), b" world".to_vec()];
    let mut sink: Vec<u8> = Vec::new();
    let outcome = art.verify_download(&chunks, &mut sink).unwrap();
    assert_eq!(outcome, DownloadOutcome::Verified(ChecksumType::Sha256));
    assert_eq!(sink, b"hello world".to_vec());
}

#[test]
fn digest_comparison_is_case_insensitive() {
    let upper = HELLO_SHA256.to_uppercase();
    let art = artifact(None, None, Some(&upper));
    let chunks = vec![b"hello world".to_vec()];
    let mut sink: Vec<u8> = Vec::new();
    let outcome = art.verify_download(&chunks, &mut sink).unwrap();
    assert_eq!(outcome, DownloadOutcome::Verified(ChecksumType::Sha256));
}

#[test]
fn mismatched_digest_fails_but_bytes_reached_the_sink() {
    let wrong = "0000000000000000000000000000000000000000000000000000000000000000";
    let art = artifact(None, None, Some(wrong));
    let chunks = vec![b"hello".to_vec(), b" world".to_vec()];
    let mut sink: Vec<u8> = Vec::new();
    let r = art.verify_download(&chunks, &mut sink);
    assert_eq!(r.err(), Some(Error::ChecksumError(ChecksumType::Sha256)));
    // Stream-then-check: the sink still received what was read.
    assert_eq!(sink, b"hello world".to_vec());
}

#[test]
fn no_declared_digest_is_accepted_unverified() {
    let art = artifact(None, None, None);
    let chunks = vec![b"hello world".to_vec()];
    let mut sink: Vec<u8> = Vec::new();
    let outcome = art.verify_download(&chunks, &mut sink).unwrap();
    assert_eq!(outcome, DownloadOutcome::Unverified);
    assert_eq!(sink, b"hello world".to_vec());
}

#[test]
fn strongest_digest_is_preferred() {
    let art = artifact(Some("x"), Some("y"), Some("z"));
    assert_eq!(art.strongest_digest(), Some(ChecksumType::Sha256));
    let art = artifact(Some("x"), Some("y"), None);
    assert_eq!(art.strongest_digest(), Some(ChecksumType::Sha1));
    let art = artifact(Some("x"), None, None);
    assert_eq!(art.strongest_digest(), Some(ChecksumType::Md5));
    let art = artifact(None, None, None);
    assert_eq!(art.strongest_digest(), None);
}

#[test]
fn digest_lookup_by_algorithm() {
    let art = artifact(Some("m"), None, Some("s"));
    assert_eq!(art.digest(ChecksumType::Md5).clone(), Some("m".to_string()));
    assert_eq!(art.digest(ChecksumType::Sha1).clone(), None);
    assert_eq!(art.digest(ChecksumType::Sha256).clone(), Some("s".to_string()));
}

#[test]
fn verify_matches_known_vectors() {
    let chunks = vec![b"abc".to_vec()];

    let mut sink: Vec<u8> = Vec::new();
    let r = checksum::verify(
        "900150983cd24fb0d6963f7d28e17f72",
        ChecksumType::Md5,
        &chunks,
        &mut sink,
    );
    assert_eq!(r, Ok(()));

    let mut sink: Vec<u8> = Vec::new();
    let r = checksum::verify(
        "a9993e364706816aba3e25717850c26c9cd0d89d",
        ChecksumType::Sha1,
        &chunks,
        &mut sink,
    );
    assert_eq!(r, Ok(()));

    let mut sink: Vec<u8> = Vec::new();
    let r = checksum::verify(
        "ba7816bf8f01cfea414140de5dae2223b00361a396177a9cb410ff61f20015ad",
        ChecksumType::Sha256,
        &chunks,
        &mut sink,
    );
    assert_eq!(r, Ok(()));
    assert_eq!(sink, b"abc".to_vec());
}

#[test]
fn empty_stream_has_the_empty_digest() {
    let chunks: Vec<Vec<u8>> = Vec::new();
    let mut sink: Vec<u8> = Vec::new();
    let r = checksum::verify(
        "e3b0c44298fc1c149afbf4c8996fb92427ae41e4649b934ca495991b7852b855",
        ChecksumType::Sha256,
        &chunks,
        &mut sink,
    );
    assert_eq!(r, Ok(()));
    assert!(sink.is_empty());
}

#[test]
fn wrong_length_digest_mismatches() {
    let chunks = vec![b"abc".to_vec()];
    let mut sink: Vec<u8> = Vec::new();
    let r = checksum::verify("ba7816", ChecksumType::Sha256, &chunks, &mut sink);
    assert_eq!(r.err(), Some(Error::ChecksumError(ChecksumType::Sha256)));
}

fn sample_deployment() -> Deployment {
    let chunk_a = Chunk {
        part: "os".to_string(),
        version: "1.0".to_string(),
        name: "rootfs".to_string(),
        artifacts: vec![artifact(None, None, Some(HELLO_SHA256))],
        metadata: vec![
            ("k1".to_string(), "v1".to_string()),
            ("k2".to_string(), "v2".to_string()),
        ],
    };
    let chunk_b = Chunk {
        part: "app".to_string(),
        version: "2.0".to_string(),
        name: "bundle".to_string(),
        artifacts: vec![],
        metadata: vec![("k3".to_string(), "v3".to_string())],
    };
    Deployment::new("10".to_string(), vec![chunk_a, chunk_b])
}

#[test]
fn metadata_flattens_in_chunk_then_declaration_order() {
    let dep = sample_deployment();
    assert_eq!(
        dep.metadata(),
        vec![
            ("k1".to_string(), "v1".to_string()),
            ("k2".to_string(), "v2".to_string()),
            ("k3".to_string(), "v3".to_string()),
        ]
    );
    assert_eq!(dep.action_id(), "10");
    assert_eq!(dep.chunks().len(), 2);
}

#[test]
fn metadata_only_chunk_is_valid() {
    let dep = sample_deployment();
    assert!(dep.chunks()[1].artifacts.is_empty());
    assert_eq!(dep.chunks()[1].metadata.len(), 1);
}

#[test]
fn confirmation_info_exposes_id_and_metadata() {
    let info = ConfirmationInfo::new("10".to_string(), sample_deployment());
    assert_eq!(info.action_id(), "10");
    assert_eq!(
        info.metadata(),
        vec![
            ("k1".to_string(), "v1".to_string()),
            ("k2".to_string(), "v2".to_string()),
            ("k3".to_string(), "v3".to_string()),
        ]
    );
}

#[test]
fn error_messages_name_the_failure() {
    assert!(!Error::InvalidSleep.message().is_empty());
    assert!(!Error::ChecksumError(ChecksumType::Md5).message().is_empty());
}
