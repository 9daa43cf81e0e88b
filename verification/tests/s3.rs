use debian_s3::client::{Compression, GetObjectFailure, S3ReleaseClient, S3RepositoryClient, get_path_error};
use debian_s3::error::{DebianError, IoErrorKind, IoFailure};
use debian_s3::path::{object_key, trim_slashes_str};
use debian_s3::region::{bucket_region_from_response, region_from_location, Region};
use debian_s3::client::release_fallback;
use debian_s3::digest::{content_matches, ContentDigest, MultiContentDigest};
use debian_s3::writer::{
    ObjectProbe, RepositoryPathVerificationState, S3Writer, VerifyAction, VerifyEvent, VerifyPhase,
};

#[test]
fn test_s3_repository_client_creation() {
    let region = Region::new("us-east-1");
    let client = S3RepositoryClient::new_with_region(region.clone(), "test-bucket", Some("test-prefix"));

    assert_eq!(client.bucket(), "test-bucket");
    assert_eq!(client.key_prefix(), Some("test-prefix"));
    assert_eq!(client.region(), &region);
}

#[test]
fn test_s3_path_to_key_with_prefix() {
    let region = Region::new("us-east-1");
    let client = S3RepositoryClient::new_with_region(region, "test-bucket", Some("my-repo"));

    assert_eq!(client.path_to_key("dists/stable/Release"), "my-repo/dists/stable/Release");
    assert_eq!(client.path_to_key("/pool/main/package.deb"), "my-repo/pool/main/package.deb");
}

#[test]
fn test_s3_path_to_key_without_prefix() {
    let region = Region::new("us-east-1");
    let client = S3RepositoryClient::new_with_region(region, "test-bucket", None);

    assert_eq!(client.path_to_key("dists/stable/Release"), "dists/stable/Release");
    assert_eq!(client.path_to_key("/pool/main/package.deb"), "pool/main/package.deb");
}

#[test]
fn test_s3_repository_client_url() {
    let region = Region::new("us-east-1");
    let client_with_prefix = S3RepositoryClient::new_with_region(region.clone(), "test-bucket", Some("my-repo"));

    let url = client_with_prefix.url().unwrap();
    assert_eq!(url.to_string(), "s3://test-bucket/my-repo");

    let client_without_prefix = S3RepositoryClient::new_with_region(region, "test-bucket", None);

    let url = client_without_prefix.url().unwrap();
    assert_eq!(url.to_string(), "s3://test-bucket");
}

#[test]
fn test_s3_release_client_path_to_key() {
    let release_client = S3ReleaseClient {
        bucket: "test-bucket".to_string(),
        key_prefix: Some("my-repo".to_string()),
        relative_path: "dists/stable".to_string(),
        release: "Origin: Test\nSuite: stable\n".to_string(),
        fetch_compression: Compression::Gzip,
    };

    assert_eq!(
        release_client.path_to_key("main/binary-amd64/Packages"),
        "my-repo/main/binary-amd64/Packages"
    );
}

#[test]
fn trim_removes_outer_slashes_only() {
    assert_eq!(trim_slashes_str(""), "");
    assert_eq!(trim_slashes_str("///"), "");
    assert_eq!(trim_slashes_str("/a/b/"), "a/b");
    assert_eq!(trim_slashes_str("//a//b//"), "a//b");
    assert_eq!(trim_slashes_str("plain"), "plain");
    assert_eq!(trim_slashes_str("/ünï/cødé/"), "ünï/cødé");
}

#[test]
fn trim_is_idempotent() {
    for s in ["", "/", "//x//", "a/b", "/a/"] {
        let once = trim_slashes_str(s);
        assert_eq!(trim_slashes_str(&once), once);
    }
}

#[test]
fn key_ignores_outer_slashes() {
    let a = object_key(Some("repo"), "dists/x");
    assert_eq!(object_key(Some("repo"), "/dists/x"), a);
    assert_eq!(object_key(Some("repo"), "dists/x/"), a);
    assert_eq!(object_key(Some("repo"), "//dists/x//"), a);
    assert_eq!(a, "repo/dists/x");
}

#[test]
fn key_of_key_without_prefix() {
    let k = object_key(None, "/pool/a.deb/");
    assert_eq!(object_key(None, &k), k);
}

#[test]
fn key_prefix_is_trimmed_on_construction() {
    let client = S3RepositoryClient::new_with_region(Region::new("eu-west-1"), "b", Some("/my-repo/"));
    assert_eq!(client.key_prefix(), Some("my-repo"));
    assert_eq!(client.path_to_key("x"), "my-repo/x");
    let writer = S3Writer::new("b", Some("//my-repo"));
    assert_eq!(writer.path_to_key("x"), "my-repo/x");
}

#[test]
fn key_with_prefix_made_of_slashes() {
    let client = S3RepositoryClient::new_with_region(Region::new("eu-west-1"), "b", Some("/"));
    assert_eq!(client.key_prefix(), Some(""));
    assert_eq!(client.path_to_key("x"), "/x");
}

#[test]
fn writer_and_reader_agree_on_keys() {
    let client = S3RepositoryClient::new_with_region(Region::new("eu-west-1"), "b", Some("repo/"));
    let writer = S3Writer::new("b", Some("/repo"));
    for p in ["dists/stable/Release", "/pool/main/p.deb", "x/"] {
        assert_eq!(client.path_to_key(p), writer.path_to_key(p));
    }
}

#[test]
fn new_uses_configured_region_or_default() {
    let c = S3RepositoryClient::new("b", None, Some(Region::new("ap-south-1")));
    assert_eq!(c.region().as_str(), "ap-south-1");
    let c = S3RepositoryClient::new("b", None, None);
    assert_eq!(c.region().as_str(), "us-east-1");
    assert_eq!(c.key_prefix(), None);
}

#[test]
fn url_parse_error_is_reported() {
    let c = S3RepositoryClient::new_with_region(Region::new("us-east-1"), "bad bucket", None);
    match c.url() {
        Err(DebianError::Other(m)) => assert!(m.starts_with("Invalid S3 URL: "), "{}", m),
        other => panic!("unexpected {:?}", other),
    }
}

#[test]
fn url_is_the_parsed_serialization() {
    let c = S3RepositoryClient::new_with_region(Region::new("us-east-1"), "bucket", Some("a/./b"));
    assert_eq!(c.url().unwrap(), "s3://bucket/a/b");
}

#[test]
fn release_client_url_and_keys() {
    let client = S3RepositoryClient::new_with_region(Region::new("us-east-1"), "test-bucket", Some("my-repo"));
    let release = client.release_reader_with_distribution_path("/dists/stable/", 7u32);
    assert_eq!(release.root_relative_path(), "dists/stable");
    assert_eq!(*release.release_file(), 7u32);
    assert_eq!(release.preferred_compression(), Compression::Xz);
    assert_eq!(release.url().unwrap(), "s3://test-bucket/my-repo/dists/stable");
    assert_eq!(release.get_path_key("/main/binary-amd64/Packages"), "my-repo/dists/stable/main/binary-amd64/Packages");

    let plain = S3RepositoryClient::new_with_region(Region::new("us-east-1"), "test-bucket", None);
    let release = plain.release_reader_with_distribution_path("dists/stable", ());
    assert_eq!(release.url().unwrap(), "s3://test-bucket/dists/stable");
    assert_eq!(release.get_path_key("Release"), "dists/stable/Release");
}

#[test]
fn release_file_paths_are_below_the_distribution() {
    let (inrelease, release) = S3RepositoryClient::release_file_paths("/dists/bookworm/");
    assert_eq!(inrelease, "dists/bookworm/InRelease");
    assert_eq!(release, "dists/bookworm/Release");
}

#[test]
fn preferred_compression_can_be_set() {
    let client = S3RepositoryClient::new_with_region(Region::new("us-east-1"), "b", None);
    let mut release = client.release_reader_with_distribution_path("d", ());
    release.set_preferred_compression(Compression::Gzip);
    assert_eq!(release.preferred_compression(), Compression::Gzip);
    assert_eq!(
        Compression::default_preferred_order(),
        vec![Compression::Xz, Compression::Lzma, Compression::Gzip, Compression::Bzip2, Compression::NoCompression]
    );
}

#[test]
fn get_path_errors() {
    match get_path_error("dists/x", "repo/dists/x", GetObjectFailure::NoSuchKey) {
        DebianError::RepositoryIoPath(p, IoFailure::Described { kind, message }) => {
            assert_eq!(p, "dists/x");
            assert_eq!(kind, IoErrorKind::NotFound);
            assert_eq!(message, "S3 key not found: repo/dists/x");
        }
        other => panic!("unexpected {:?}", other),
    }
    match get_path_error("dists/x", "repo/dists/x", GetObjectFailure::Other("timeout".to_string())) {
        DebianError::RepositoryIoPath(p, IoFailure::Described { kind, message }) => {
            assert_eq!(p, "dists/x");
            assert_eq!(kind, IoErrorKind::Other);
            assert_eq!(message, "S3 error: timeout");
        }
        other => panic!("unexpected {:?}", other),
    }
}

#[test]
fn bucket_region_from_location() {
    assert_eq!(region_from_location(Some("eu-central-1")).as_str(), "eu-central-1");
    assert_eq!(region_from_location(None).as_str(), "us-east-1");
    assert_eq!(bucket_region_from_response(Ok(Some("sa-east-1".to_string()))).unwrap().as_str(), "sa-east-1");
    assert_eq!(bucket_region_from_response(Ok(None)).unwrap().as_str(), "us-east-1");
    match bucket_region_from_response(Err("denied".to_string())) {
        Err(DebianError::Io(IoFailure::Described { kind, message })) => {
            assert_eq!(kind, IoErrorKind::Other);
            assert_eq!(message, "S3 error: denied");
        }
        other => panic!("unexpected {:?}", other),
    }
}

#[test]
fn write_path_outcomes() {
    let w = S3Writer::write_path_outcome("pool/a.deb", 42, Ok(())).unwrap();
    assert_eq!(w.path, "pool/a.deb");
    assert_eq!(w.bytes_written, 42);
    match S3Writer::write_path_outcome("pool/a.deb", 42, Err("no".to_string())) {
        Err(DebianError::RepositoryIoPath(p, IoFailure::Described { kind, message })) => {
            assert_eq!(p, "pool/a.deb");
            assert_eq!(kind, IoErrorKind::Other);
            assert_eq!(message, "S3 error: no");
        }
        other => panic!("unexpected {:?}", other),
    }
}

fn hex(bytes: &[u8]) -> String {
    bytes.iter().map(|b| format!("{:02x}", b)).collect()
}

fn unhex(s: &str) -> Vec<u8> {
    (0..s.len()).step_by(2).map(|i| u8::from_str_radix(&s[i..i + 2], 16).unwrap()).collect()
}

const ABC_MD5: &str = "900150983cd24fb0d6963f7d28e17f72";
const ABC_SHA1: &str = "a9993e364706816aba3e25717850c26c9cd0d89d";
const ABC_SHA256: &str = "ba7816bf8f01cfea414140de5dae2223b00361a396177a9cb410ff61f20015ad";

#[test]
fn digests_of_known_content() {
    let d = MultiContentDigest::of(b"abc");
    assert_eq!(hex(&d.md5), ABC_MD5);
    assert_eq!(hex(&d.sha1), ABC_SHA1);
    assert_eq!(hex(&d.sha256), ABC_SHA256);
}

#[test]
fn digest_matching() {
    let d = MultiContentDigest::of(b"abc");
    assert!(d.matches_digest(&ContentDigest::Md5(unhex(ABC_MD5))));
    assert!(d.matches_digest(&ContentDigest::Sha1(unhex(ABC_SHA1))));
    assert!(d.matches_digest(&ContentDigest::Sha256(unhex(ABC_SHA256))));
    assert!(!d.matches_digest(&ContentDigest::Sha256(unhex(ABC_MD5))));
    assert!(content_matches(b"abc", &ContentDigest::Sha1(unhex(ABC_SHA1))));
    assert!(!content_matches(b"abd", &ContentDigest::Sha1(unhex(ABC_SHA1))));
}

fn done_state(a: VerifyAction) -> RepositoryPathVerificationState {
    match a {
        VerifyAction::Done(Ok(v)) => v.state,
        _ => panic!("not done with a state"),
    }
}

#[test]
fn verify_without_expected_content() {
    let w = S3Writer::new("b", Some("repo"));
    let (mut v, a) = w.verify_path("dists/x", None);
    match a {
        VerifyAction::HeadObject(k) => assert_eq!(k, "repo/dists/x"),
        _ => panic!("expected a head request"),
    }
    let a = v.step(VerifyEvent::Response(ObjectProbe::Found { content_length: Some(3) }));
    assert_eq!(done_state(a), RepositoryPathVerificationState::ExistsNoIntegrityCheck);
    assert_eq!(v.phase(), VerifyPhase::Finished);

    let (mut v, _) = w.verify_path("dists/x", None);
    let a = v.step(VerifyEvent::Response(ObjectProbe::Missing));
    assert_eq!(done_state(a), RepositoryPathVerificationState::Missing);

    let (mut v, _) = w.verify_path("dists/x", None);
    match v.step(VerifyEvent::Response(ObjectProbe::Failed("boom".to_string()))) {
        VerifyAction::Done(Err(DebianError::RepositoryIoPath(p, IoFailure::Described { message, .. }))) => {
            assert_eq!(p, "dists/x");
            assert_eq!(message, "S3 error: boom");
        }
        _ => panic!("expected an error"),
    }
}

#[test]
fn write_then_verify_reads_until_size() {
    let content = b"0123456789".to_vec();
    let w = S3Writer::new("b", None);
    let written = S3Writer::write_path_outcome("/pool/p.deb", content.len(), Ok(())).unwrap();
    assert_eq!(written.bytes_written, 10);
    let expected = Some((10u64, ContentDigest::Sha256(MultiContentDigest::of(&content).sha256)));
    let (mut v, a) = w.verify_path("/pool/p.deb", expected);
    match a {
        VerifyAction::GetObject(k) => assert_eq!(k, "pool/p.deb"),
        _ => panic!("expected an object request"),
    }
    assert!(matches!(v.step(VerifyEvent::Response(ObjectProbe::Found { content_length: Some(10) })), VerifyAction::ReadChunk));
    assert_eq!(v.phase(), VerifyPhase::Reading(10));
    assert!(matches!(v.step(VerifyEvent::ChunkRead(content[..4].to_vec())), VerifyAction::ReadChunk));
    assert_eq!(v.phase(), VerifyPhase::Reading(6));
    let a = v.step(VerifyEvent::ChunkRead(content[4..].to_vec()));
    assert_eq!(done_state(a), RepositoryPathVerificationState::ExistsIntegrityVerified);
    assert_eq!(v.phase(), VerifyPhase::Finished);
}

#[test]
fn verify_detects_other_content() {
    let w = S3Writer::new("b", None);
    let expected = Some((3u64, ContentDigest::Md5(unhex(ABC_MD5))));
    let (mut v, _) = w.verify_path("p", expected);
    v.step(VerifyEvent::Response(ObjectProbe::Found { content_length: None }));
    let a = v.step(VerifyEvent::ChunkRead(b"abd".to_vec()));
    assert_eq!(done_state(a), RepositoryPathVerificationState::ExistsIntegrityMismatch);
}

#[test]
fn verify_stops_at_end_of_body() {
    let w = S3Writer::new("b", None);
    let (mut v, _) = w.verify_path("p", Some((10u64, ContentDigest::Sha1(unhex(ABC_SHA1)))));
    assert!(matches!(v.step(VerifyEvent::Response(ObjectProbe::Found { content_length: None })), VerifyAction::ReadChunk));
    assert!(matches!(v.step(VerifyEvent::ChunkRead(b"ab".to_vec())), VerifyAction::ReadChunk));
    assert!(matches!(v.step(VerifyEvent::ChunkRead(b"c".to_vec())), VerifyAction::ReadChunk));
    let a = v.step(VerifyEvent::ChunkRead(Vec::new()));
    assert_eq!(done_state(a), RepositoryPathVerificationState::ExistsIntegrityVerified);
}

#[test]
fn verify_content_length_fast_path() {
    let w = S3Writer::new("b", None);
    let (mut v, _) = w.verify_path("p", Some((10u64, ContentDigest::Md5(vec![9]))));
    let a = v.step(VerifyEvent::Response(ObjectProbe::Found { content_length: Some(11) }));
    assert_eq!(done_state(a), RepositoryPathVerificationState::ExistsIntegrityMismatch);

    let (mut v, _) = w.verify_path("p", Some((10u64, ContentDigest::Md5(vec![9]))));
    let a = v.step(VerifyEvent::Response(ObjectProbe::Missing));
    assert_eq!(done_state(a), RepositoryPathVerificationState::Missing);
}

#[test]
fn verify_empty_content_reads_once() {
    let w = S3Writer::new("b", None);
    let empty_sha256 = MultiContentDigest::of(b"").sha256;
    let (mut v, _) = w.verify_path("p", Some((0u64, ContentDigest::Sha256(empty_sha256))));
    assert!(matches!(v.step(VerifyEvent::Response(ObjectProbe::Found { content_length: Some(0) })), VerifyAction::ReadChunk));
    let a = v.step(VerifyEvent::ChunkRead(Vec::new()));
    assert_eq!(done_state(a), RepositoryPathVerificationState::ExistsIntegrityVerified);
}

#[test]
fn verify_read_failure_is_the_read_error() {
    let w = S3Writer::new("b", None);
    let (mut v, _) = w.verify_path("p", Some((10u64, ContentDigest::Md5(vec![9]))));
    v.step(VerifyEvent::Response(ObjectProbe::Found { content_length: None }));
    let error = std::io::Error::new(std::io::ErrorKind::ConnectionReset, "reset");
    match v.step(VerifyEvent::ReadFailed(error)) {
        VerifyAction::Done(Err(DebianError::RepositoryIoPath(p, IoFailure::Raised(e)))) => {
            assert_eq!(p, "p");
            assert_eq!(e.kind(), std::io::ErrorKind::ConnectionReset);
            assert_eq!(e.to_string(), "reset");
        }
        _ => panic!("expected the read error"),
    }
}

#[test]
fn release_fallback_only_when_inrelease_is_not_found() {
    let missing = get_path_error("d/InRelease", "d/InRelease", GetObjectFailure::NoSuchKey);
    assert!(release_fallback::<()>(&Err(missing)));
    let failed = get_path_error("d/InRelease", "d/InRelease", GetObjectFailure::Other("x".to_string()));
    assert!(!release_fallback::<()>(&Err(failed)));
    assert!(!release_fallback(&Ok(vec![1u8])));
    assert!(!release_fallback::<()>(&Err(DebianError::Other("o".to_string()))));
}

#[test]
fn legacy_eu_location_is_eu_west_1() {
    assert_eq!(region_from_location(Some("EU")).as_str(), "eu-west-1");
    assert_eq!(bucket_region_from_response(Ok(Some("EU".to_string()))).unwrap().as_str(), "eu-west-1");
    assert_eq!(region_from_location(Some("eu-west-1")).as_str(), "eu-west-1");
    assert_eq!(region_from_location(Some("EUROPE")).as_str(), "EUROPE");
}

#[test]
fn feed_chunks_at_hand() {
    let content = b"0123456789".to_vec();
    let w = S3Writer::new("b", None);
    let expected = Some((10u64, ContentDigest::Md5(MultiContentDigest::of(&content).md5)));
    let (mut v, _) = w.verify_path("p", expected.clone());
    v.step(VerifyEvent::Response(ObjectProbe::Found { content_length: None }));
    let a = v.feed_chunks(vec![content[..3].to_vec(), content[3..7].to_vec(), content[7..].to_vec(), b"more".to_vec()]);
    assert_eq!(done_state(a), RepositoryPathVerificationState::ExistsIntegrityVerified);

    let (mut v, _) = w.verify_path("p", expected);
    v.step(VerifyEvent::Response(ObjectProbe::Found { content_length: None }));
    assert!(matches!(v.feed_chunks(vec![content[..3].to_vec()]), VerifyAction::ReadChunk));
    assert_eq!(v.phase(), VerifyPhase::Reading(7));
    let a = v.feed_chunks(vec![content[3..].to_vec()]);
    assert_eq!(done_state(a), RepositoryPathVerificationState::ExistsIntegrityVerified);
}
