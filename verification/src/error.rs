//! Errors of the repository clients, and the messages they carry.
use vstd::prelude::*;

verus! {

/// The kind of an I/O failure.
#[derive(Clone, Copy, Debug, PartialEq, Eq, Structural)]
pub enum IoErrorKind {
    NotFound,
    Other,
}

/// `std::io::Error`, carried through the library as it was raised.
#[verifier::external_type_specification]
#[verifier::external_body]
pub struct ExIoError(std::io::Error);

/// An I/O failure: one the library describes by its kind and message, or one
/// raised by a read, kept as it was raised.
#[derive(Debug)]
pub enum IoFailure {
    Described { kind: IoErrorKind, message: String },
    Raised(std::io::Error),
}

/// Errors of the repository clients.
#[derive(Debug)]
pub enum DebianError {
    /// An I/O failure while reading or writing a repository path.
    RepositoryIoPath(String, IoFailure),
    /// An I/O failure not tied to a repository path.
    Io(IoFailure),
    /// Any other failure, described by its message.
    Other(String),
}

/// An `IoFailure` with its message taken by its view.
pub enum FailureModel {
    Described(IoErrorKind, Seq<char>),
    Raised(std::io::Error),
}

/// A `DebianError` with its strings taken by their views.
pub enum ErrorModel {
    RepositoryIoPath(Seq<char>, FailureModel),
    Io(FailureModel),
    Other(Seq<char>),
}

impl View for IoFailure {
    type V = FailureModel;

    open spec fn view(&self) -> FailureModel {
        match self {
            IoFailure::Described { kind, message } => FailureModel::Described(*kind, message@),
            IoFailure::Raised(e) => FailureModel::Raised(*e),
        }
    }
}

impl View for DebianError {
    type V = ErrorModel;

    open spec fn view(&self) -> ErrorModel {
        match self {
            DebianError::RepositoryIoPath(p, f) => ErrorModel::RepositoryIoPath(p@, f@),
            DebianError::Io(f) => ErrorModel::Io(f@),
            DebianError::Other(m) => ErrorModel::Other(m@),
        }
    }
}

/// The message of a failed store request, given the failure's description.
pub open spec fn s3_error_message(detail: Seq<char>) -> Seq<char> {
    "S3 error: "@ + detail
}

/// The message of a request for a key that the bucket does not hold.
pub open spec fn key_not_found_message(key: Seq<char>) -> Seq<char> {
    "S3 key not found: "@ + key
}

/// `prefix` followed by `rest`.
pub fn prefixed(prefix: &str, rest: &str) -> (r: String)
    ensures
        r@ == prefix@ + rest@,
{
    let mut s = String::from_str(prefix);
    s.append(rest);
    s
}

/// `S3 error: ` followed by the description of a failed request.
pub fn s3_error_text(detail: &str) -> (r: String)
    ensures
        r@ == s3_error_message(detail@),
{
    prefixed("S3 error: ", detail)
}

/// The error for an I/O failure on a repository path.
pub fn repository_io_error(path: &str, failure: IoFailure) -> (r: DebianError)
    ensures
        r@ == ErrorModel::RepositoryIoPath(path@, failure@),
{
    DebianError::RepositoryIoPath(String::from_str(path), failure)
}

/// The error for a failed store request on a repository path: an I/O failure
/// of kind `Other` whose message is `S3 error: ` and the request's description.
pub fn s3_path_error(path: &str, detail: &str) -> (r: DebianError)
    ensures
        r@ == ErrorModel::RepositoryIoPath(
            path@,
            FailureModel::Described(IoErrorKind::Other, s3_error_message(detail@)),
        ),
{
    repository_io_error(
        path,
        IoFailure::Described { kind: IoErrorKind::Other, message: s3_error_text(detail) },
    )
}

} // verus!
