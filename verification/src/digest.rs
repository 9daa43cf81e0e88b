//! Content digests: MD5, SHA-1 and SHA-256 of byte strings, and the matching
//! of a content against an expected digest.
use sha2::Digest;
use vstd::prelude::*;

verus! {

/// What `md5::Md5::digest` gives for `data`: its MD5 digest.
pub uninterp spec fn md5_of(data: Seq<u8>) -> Seq<u8>;

/// What `sha1::Sha1::digest` gives for `data`: its SHA-1 digest.
pub uninterp spec fn sha1_of(data: Seq<u8>) -> Seq<u8>;

/// What `sha2::Sha256::digest` gives for `data`: its SHA-256 digest.
pub uninterp spec fn sha256_of(data: Seq<u8>) -> Seq<u8>;

/// The MD5 digest of `data`, by `md5::Md5::digest`. The contract claims that
/// the result is what `md5_of` names for `data`, and that it is 16 bytes long.
#[verifier::external_body]
fn md5_digest(data: &[u8]) -> (r: Vec<u8>)
    ensures
        r@ == md5_of(data@),
        r@.len() == 16,
{
    md5::Md5::digest(data).to_vec()
}

/// The SHA-1 digest of `data`, by `sha1::Sha1::digest`. The contract claims
/// that the result is what `sha1_of` names for `data`, and that it is 20
/// bytes long.
#[verifier::external_body]
fn sha1_digest(data: &[u8]) -> (r: Vec<u8>)
    ensures
        r@ == sha1_of(data@),
        r@.len() == 20,
{
    sha1::Sha1::digest(data).to_vec()
}

/// The SHA-256 digest of `data`, by `sha2::Sha256::digest`. The contract
/// claims that the result is what `sha256_of` names for `data`, and that it
/// is 32 bytes long.
#[verifier::external_body]
fn sha256_digest(data: &[u8]) -> (r: Vec<u8>)
    ensures
        r@ == sha256_of(data@),
        r@.len() == 32,
{
    sha2::Sha256::digest(data).to_vec()
}

/// A hash function that computes digests.
#[derive(Clone, Copy, Debug, PartialEq, Eq, Structural)]
pub enum DigestAlgorithm {
    Md5,
    Sha1,
    Sha256,
}

/// The digest of `data` under `algorithm`.
pub open spec fn digest_of(algorithm: DigestAlgorithm, data: Seq<u8>) -> Seq<u8> {
    match algorithm {
        DigestAlgorithm::Md5 => md5_of(data),
        DigestAlgorithm::Sha1 => sha1_of(data),
        DigestAlgorithm::Sha256 => sha256_of(data),
    }
}

/// Whether `expected`, a digest under its hash function, is the digest of
/// `data`.
pub open spec fn digest_matches(data: Seq<u8>, expected: (DigestAlgorithm, Seq<u8>)) -> bool {
    digest_of(expected.0, data) == expected.1
}

/// The digest of a content, by the hash function that computed it.
#[derive(Clone, Debug)]
pub enum ContentDigest {
    Md5(Vec<u8>),
    Sha1(Vec<u8>),
    Sha256(Vec<u8>),
}

impl View for ContentDigest {
    type V = (DigestAlgorithm, Seq<u8>);

    open spec fn view(&self) -> (DigestAlgorithm, Seq<u8>) {
        match self {
            ContentDigest::Md5(d) => (DigestAlgorithm::Md5, d@),
            ContentDigest::Sha1(d) => (DigestAlgorithm::Sha1, d@),
            ContentDigest::Sha256(d) => (DigestAlgorithm::Sha256, d@),
        }
    }
}

/// The digests of one content under each supported hash function.
#[derive(Clone, Debug)]
pub struct MultiContentDigest {
    pub md5: Vec<u8>,
    pub sha1: Vec<u8>,
    pub sha256: Vec<u8>,
}

impl MultiContentDigest {
    /// The digest held under `algorithm`.
    pub open spec fn spec_digest(&self, algorithm: DigestAlgorithm) -> Seq<u8> {
        match algorithm {
            DigestAlgorithm::Md5 => self.md5@,
            DigestAlgorithm::Sha1 => self.sha1@,
            DigestAlgorithm::Sha256 => self.sha256@,
        }
    }

    /// The digests of `data`.
    pub fn of(data: &[u8]) -> (r: MultiContentDigest)
        ensures
            r.md5@ == md5_of(data@),
            r.sha1@ == sha1_of(data@),
            r.sha256@ == sha256_of(data@),
    {
        MultiContentDigest {
            md5: md5_digest(data),
            sha1: sha1_digest(data),
            sha256: sha256_digest(data),
        }
    }

    /// Whether `digest` is the digest held under its hash function.
    pub fn matches_digest(&self, digest: &ContentDigest) -> (r: bool)
        ensures
            r == (self.spec_digest(digest@.0) == digest@.1),
    {
        match digest {
            ContentDigest::Md5(d) => bytes_equal(self.md5.as_slice(), d.as_slice()),
            ContentDigest::Sha1(d) => bytes_equal(self.sha1.as_slice(), d.as_slice()),
            ContentDigest::Sha256(d) => bytes_equal(self.sha256.as_slice(), d.as_slice()),
        }
    }
}

/// Whether `expected` is the digest of `data` under its hash function.
pub fn content_matches(data: &[u8], expected: &ContentDigest) -> (r: bool)
    ensures
        r == digest_matches(data@, expected@),
{
    let digests = MultiContentDigest::of(data);
    digests.matches_digest(expected)
}

/// Whether two byte strings are equal.
fn bytes_equal(a: &[u8], b: &[u8]) -> (r: bool)
    ensures
        r == (a@ == b@),
{
    if a.len() != b.len() {
        return false;
    }
    let mut i: usize = 0;
    while i < a.len()
        invariant
            a@.len() == b@.len(),
            i <= a@.len(),
            forall|k: int| 0 <= k < i ==> a@[k] == b@[k],
        decreases a@.len() - i,
    {
        if a[i] != b[i] {
            return false;
        }
        i = i + 1;
    }
    assert(a@ =~= b@);
    true
}

} // verus!
