//! Clients that read a Debian repository held in an S3 bucket: the client of
//! the repository root, and the client of one distribution in it.
use crate::error::{
    key_not_found_message, prefixed, repository_io_error, s3_error_message, s3_path_error,
    DebianError, ErrorModel, FailureModel, IoErrorKind, IoFailure,
};
use crate::location::{
    join_with_slash, parse_location, s3_location, s3_location_text, url_outcome, url_parse,
    url_result_view,
};
use crate::path::{
    key_for_path, lemma_key_ends, lemma_trim_ends, object_key, opt_str_view, opt_view,
    slash_free_ends, trim_slashes, trim_slashes_str, trimmed_prefix,
};
use crate::region::{default_region_name, Region};
use vstd::prelude::*;

verus! {

/// Compression formats of repository files.
#[derive(Clone, Copy, Debug, PartialEq, Eq, Structural)]
pub enum Compression {
    /// No compression.
    NoCompression,
    /// XZ compression.
    Xz,
    /// Gzip compression.
    Gzip,
    /// Bzip2 compression.
    Bzip2,
    /// LZMA compression.
    Lzma,
}

/// The order in which compression formats are preferred, most preferred first.
pub open spec fn preferred_compression_order() -> Seq<Compression> {
    seq![Compression::Xz, Compression::Lzma, Compression::Gzip, Compression::Bzip2, Compression::NoCompression]
}

impl Compression {
    /// The compression formats in the order in which they are preferred.
    pub fn default_preferred_order() -> (r: Vec<Compression>)
        ensures
            r@ == preferred_compression_order(),
    {
        let mut v: Vec<Compression> = Vec::new();
        v.push(Compression::Xz);
        v.push(Compression::Lzma);
        v.push(Compression::Gzip);
        v.push(Compression::Bzip2);
        v.push(Compression::NoCompression);
        v
    }
}

/// A failed request for the object behind a repository path.
pub enum GetObjectFailure {
    /// The bucket holds no object under the key.
    NoSuchKey,
    /// Any other failure, by its description.
    Other(String),
}

/// The error that a failed object request for `path` (under `key`) yields: an
/// I/O error of kind `NotFound` naming the key where the bucket holds no such
/// key, else one of kind `Other` that carries the failure's description.
pub open spec fn get_path_error_model(
    path: Seq<char>,
    key: Seq<char>,
    failure: GetObjectFailure,
) -> ErrorModel {
    match failure {
        GetObjectFailure::NoSuchKey => ErrorModel::RepositoryIoPath(
            path,
            FailureModel::Described(IoErrorKind::NotFound, key_not_found_message(key)),
        ),
        GetObjectFailure::Other(d) => ErrorModel::RepositoryIoPath(
            path,
            FailureModel::Described(IoErrorKind::Other, s3_error_message(d@)),
        ),
    }
}

/// The error of a failed object request for `path`, whose key is `key`.
pub fn get_path_error(path: &str, key: &str, failure: GetObjectFailure) -> (r: DebianError)
    ensures
        r@ == get_path_error_model(path@, key@, failure),
{
    match failure {
        GetObjectFailure::NoSuchKey => repository_io_error(
            path,
            IoFailure::Described {
                kind: IoErrorKind::NotFound,
                message: prefixed("S3 key not found: ", key),
            },
        ),
        GetObjectFailure::Other(d) => s3_path_error(path, d.as_str()),
    }
}

/// Whether a distribution is read from its `Release` file after the attempt
/// on its `InRelease` file ended with `inrelease`: exactly where that attempt
/// failed because the `InRelease` file is not found (a path error of kind
/// `NotFound`); any other error is returned as it is.
pub fn release_fallback<T>(inrelease: &Result<T, DebianError>) -> (r: bool)
    ensures
        r <==> (inrelease matches Err(e) && e@ matches ErrorModel::RepositoryIoPath(
            _,
            FailureModel::Described(IoErrorKind::NotFound, _),
        )),
{
    match inrelease {
        Err(DebianError::RepositoryIoPath(_, IoFailure::Described { kind, .. })) => {
            *kind == IoErrorKind::NotFound
        },
        _ => false,
    }
}

/// An optional string as an optional string slice.
fn opt_as_str(o: &Option<String>) -> (r: Option<&str>)
    ensures
        opt_str_view(r) == opt_view(*o),
{
    match o {
        Some(s) => Some(s.as_str()),
        None => None,
    }
}

/// An optional key prefix with its leading and trailing `/` removed.
pub(crate) fn trim_prefix(key_prefix: Option<&str>) -> (r: Option<String>)
    ensures
        opt_view(r) == trimmed_prefix(opt_str_view(key_prefix)),
        r matches Some(p) ==> slash_free_ends(p@),
{
    match key_prefix {
        Some(p) => {
            let t = trim_slashes_str(p);
            proof {
                lemma_trim_ends(p@);
            }
            Some(t)
        },
        None => None,
    }
}

/// A client that reads a repository from an S3 bucket, under an optional key
/// prefix.
pub struct S3RepositoryClient {
    bucket: String,
    key_prefix: Option<String>,
    region: Region,
}

impl S3RepositoryClient {
    /// Well-formedness: the stored key prefix neither begins nor ends with `/`.
    #[verifier::type_invariant]
    spec fn prefix_trimmed(&self) -> bool {
        self.key_prefix matches Some(p) ==> slash_free_ends(p@)
    }

    /// The bucket's name.
    pub closed spec fn spec_bucket(&self) -> Seq<char> {
        self.bucket@
    }

    /// The key prefix, if any.
    pub closed spec fn spec_key_prefix(&self) -> Option<Seq<char>> {
        opt_view(self.key_prefix)
    }

    /// The region's name.
    pub closed spec fn spec_region(&self) -> Seq<char> {
        self.region@
    }

    /// A client of `bucket` under `key_prefix` (its leading and trailing `/`
    /// removed), in the region that the configuration names, or in
    /// `us-east-1` where it names none.
    pub fn new(bucket: &str, key_prefix: Option<&str>, configured_region: Option<Region>) -> (c:
        Self)
        ensures
            c.spec_bucket() == bucket@,
            c.spec_key_prefix() == trimmed_prefix(opt_str_view(key_prefix)),
            c.spec_region() == match configured_region {
                Some(r) => r@,
                None => default_region_name(),
            },
    {
        let region = match configured_region {
            Some(r) => r,
            None => Region::default_region(),
        };
        S3RepositoryClient::new_with_region(region, bucket, key_prefix)
    }

    /// A client of `bucket` under `key_prefix` (its leading and trailing `/`
    /// removed), in `region`.
    pub fn new_with_region(region: Region, bucket: &str, key_prefix: Option<&str>) -> (c: Self)
        ensures
            c.spec_bucket() == bucket@,
            c.spec_key_prefix() == trimmed_prefix(opt_str_view(key_prefix)),
            c.spec_region() == region@,
    {
        S3RepositoryClient {
            bucket: String::from_str(bucket),
            key_prefix: trim_prefix(key_prefix),
            region,
        }
    }

    /// The key of a repository relative path. The stored prefix neither
    /// begins nor ends with `/`; where it is not empty (or there is none),
    /// the key of a path that is not made of `/` alone neither begins nor
    /// ends with `/`.
    pub fn path_to_key(&self, path: &str) -> (r: String)
        ensures
            r@ == key_for_path(self.spec_key_prefix(), path@),
            self.spec_key_prefix() matches Some(p) ==> slash_free_ends(p),
            (self.spec_key_prefix() matches Some(p) ==> p.len() > 0) && trim_slashes(path@).len()
                > 0 ==> slash_free_ends(r@),
    {
        proof {
            use_type_invariant(self);
            if (self.spec_key_prefix() matches Some(p) ==> p.len() > 0) && trim_slashes(path@).len() > 0 {
                lemma_key_ends(self.spec_key_prefix(), path@);
            }
        }
        object_key(opt_as_str(&self.key_prefix), path)
    }

    /// The bucket's name.
    pub fn bucket(&self) -> (r: &str)
        ensures
            r@ == self.spec_bucket(),
    {
        self.bucket.as_str()
    }

    /// The key prefix, if any.
    pub fn key_prefix(&self) -> (r: Option<&str>)
        ensures
            opt_str_view(r) == self.spec_key_prefix(),
            r matches Some(p) ==> slash_free_ends(p@),
    {
        proof {
            use_type_invariant(self);
        }
        opt_as_str(&self.key_prefix)
    }

    /// The region.
    pub fn region(&self) -> (r: &Region)
        ensures
            r@ == self.spec_region(),
    {
        &self.region
    }

    /// The repository's location, `s3://` with the bucket and the key prefix,
    /// parsed as a URL.
    pub fn url(&self) -> (r: Result<String, DebianError>)
        ensures
            url_result_view(r) == url_outcome(
                url_parse(s3_location(self.spec_bucket(), self.spec_key_prefix())),
            ),
    {
        let location = s3_location_text(self.bucket.as_str(), opt_as_str(&self.key_prefix));
        parse_location(location.as_str())
    }

    /// The paths of a distribution's `InRelease` and `Release` files, given
    /// the distribution's path.
    pub fn release_file_paths(path: &str) -> (r: (String, String))
        ensures
            r.0@ == trim_slashes(path@) + "/InRelease"@,
            r.1@ == trim_slashes(path@) + "/Release"@,
    {
        let distribution_path = trim_slashes_str(path);
        let mut inrelease = String::from_str(distribution_path.as_str());
        inrelease.append("/InRelease");
        let mut release = distribution_path;
        release.append("/Release");
        (inrelease, release)
    }

    /// The reader of the distribution at `path`, given its release file: it
    /// reads the same bucket under the same key prefix, below the
    /// distribution's path (trimmed of leading and trailing `/`), and fetches
    /// files in the most preferred compression format.
    pub fn release_reader_with_distribution_path<R>(&self, path: &str, release: R) -> (r:
        S3ReleaseClient<R>)
        ensures
            r.bucket@ == self.spec_bucket(),
            opt_view(r.key_prefix) == self.spec_key_prefix(),
            r.relative_path@ == trim_slashes(path@),
            r.release == release,
            r.fetch_compression == preferred_compression_order()[0],
    {
        let order = Compression::default_preferred_order();
        S3ReleaseClient {
            bucket: self.bucket.clone(),
            key_prefix: self.key_prefix.clone(),
            relative_path: trim_slashes_str(path),
            release,
            fetch_compression: order[0],
        }
    }
}

/// A client that reads one distribution of a repository held in an S3
/// bucket.
pub struct S3ReleaseClient<R> {
    /// The bucket's name.
    pub bucket: String,
    /// The repository's key prefix, if any.
    pub key_prefix: Option<String>,
    /// The distribution's path, relative to the repository root.
    pub relative_path: String,
    /// The distribution's release file.
    pub release: R,
    /// The compression format in which files are fetched.
    pub fetch_compression: Compression,
}

impl<R> S3ReleaseClient<R> {
    /// The key of a repository relative path.
    pub fn path_to_key(&self, path: &str) -> (r: String)
        ensures
            r@ == key_for_path(opt_view(self.key_prefix), path@),
    {
        object_key(opt_as_str(&self.key_prefix), path)
    }

    /// The key of a path relative to the distribution: the key of the
    /// distribution's path, a `/` and the trimmed path.
    pub fn get_path_key(&self, path: &str) -> (r: String)
        ensures
            r@ == key_for_path(
                opt_view(self.key_prefix),
                self.relative_path@ + "/"@ + trim_slashes(path@),
            ),
    {
        let trimmed = trim_slashes_str(path);
        let full_path = join_with_slash(self.relative_path.as_str(), trimmed.as_str());
        self.path_to_key(full_path.as_str())
    }

    /// The distribution's location, `s3://` with the bucket, the key prefix
    /// and the distribution's path, parsed as a URL.
    pub fn url(&self) -> (r: Result<String, DebianError>)
        ensures
            url_result_view(r) == url_outcome(
                url_parse(
                    s3_location(self.bucket@, opt_view(self.key_prefix)) + "/"@
                        + self.relative_path@,
                ),
            ),
    {
        let base = s3_location_text(self.bucket.as_str(), opt_as_str(&self.key_prefix));
        let location = join_with_slash(base.as_str(), self.relative_path.as_str());
        parse_location(location.as_str())
    }

    /// The distribution's path, relative to the repository root.
    pub fn root_relative_path(&self) -> (r: &str)
        ensures
            r@ == self.relative_path@,
    {
        self.relative_path.as_str()
    }

    /// The distribution's release file.
    pub fn release_file(&self) -> (r: &R)
        ensures
            *r == self.release,
    {
        &self.release
    }

    /// The compression format in which files are fetched.
    pub fn preferred_compression(&self) -> (r: Compression)
        ensures
            r == self.fetch_compression,
    {
        self.fetch_compression
    }

    /// Sets the compression format in which files are fetched.
    pub fn set_preferred_compression(&mut self, compression: Compression)
        ensures
            final(self).fetch_compression == compression,
            final(self).bucket == old(self).bucket,
            final(self).key_prefix == old(self).key_prefix,
            final(self).relative_path == old(self).relative_path,
            final(self).release == old(self).release,
    {
        self.fetch_compression = compression;
    }
}

} // verus!
