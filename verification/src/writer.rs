//! Writing a repository to an S3 bucket, and checking what the bucket holds
//! under a repository path.
use crate::digest::{content_matches, digest_matches, ContentDigest, DigestAlgorithm};
use crate::error::{
    repository_io_error, s3_error_message, s3_path_error, DebianError, ErrorModel, FailureModel,
    IoErrorKind, IoFailure,
};
use crate::client::trim_prefix;
use crate::path::{
    key_for_path, lemma_key_ends, object_key, opt_str_view, opt_view, slash_free_ends, trim_slashes,
    trimmed_prefix,
};
use vstd::prelude::*;

verus! {

/// A writer of a repository into an S3 bucket, under an optional key prefix.
pub struct S3Writer {
    bucket: String,
    key_prefix: Option<String>,
}

/// The outcome of writing a repository path.
#[derive(Debug)]
pub struct RepositoryWrite {
    /// The path written.
    pub path: String,
    /// The number of bytes written.
    pub bytes_written: u64,
}

/// The size of the buffer into which an object's body is read while it is
/// checked.
pub const VERIFY_READ_BUFFER_SIZE: usize = 16384;

/// What the bucket holds under a repository path, as a check found it.
#[derive(Clone, Copy, Debug, PartialEq, Eq, Structural)]
pub enum RepositoryPathVerificationState {
    /// The path exists; its content was not checked.
    ExistsNoIntegrityCheck,
    /// The path exists and its content is the expected one.
    ExistsIntegrityVerified,
    /// The path exists and its content is not the expected one.
    ExistsIntegrityMismatch,
    /// The path does not exist.
    Missing,
}

/// The outcome of checking a repository path.
#[derive(Debug)]
pub struct RepositoryPathVerification {
    /// The path checked.
    pub path: String,
    /// What the check found.
    pub state: RepositoryPathVerificationState,
}

/// The answer to a request for the object (or the head of the object) behind
/// a repository path.
pub enum ObjectProbe {
    /// The object exists; the length of its content, where the answer gives it.
    Found { content_length: Option<i64> },
    /// The bucket holds no such object.
    Missing,
    /// The request failed; its description.
    Failed(String),
}

/// What happened since the last step of a path check.
pub enum VerifyEvent {
    /// The answer to the request that the last step asked for.
    Response(ObjectProbe),
    /// A read of the object's body gave these bytes (none at the end of the
    /// body).
    ChunkRead(Vec<u8>),
    /// A read of the object's body failed with this error.
    ReadFailed(std::io::Error),
}

/// What a path check asks for next.
pub enum VerifyAction {
    /// Ask for the head of the object under this key.
    HeadObject(String),
    /// Ask for the object under this key.
    GetObject(String),
    /// Read the next part of the object's body, at most
    /// `VERIFY_READ_BUFFER_SIZE` bytes.
    ReadChunk,
    /// The check is over, with this outcome.
    Done(Result<RepositoryPathVerification, DebianError>),
}

/// Where a path check stands.
#[derive(Clone, Copy, Debug, PartialEq, Eq, Structural)]
pub enum VerifyPhase {
    /// Waiting for the answer to a head request.
    AwaitHead,
    /// Waiting for the answer to an object request.
    AwaitGet,
    /// Reading the object's body; the number of bytes still expected.
    Reading(u64),
    /// The check is over.
    Finished,
}

/// Whether a check in `phase` can take `event`.
pub open spec fn phase_accepts(phase: VerifyPhase, event: VerifyEvent) -> bool {
    match phase {
        VerifyPhase::AwaitHead => event is Response,
        VerifyPhase::AwaitGet => event is Response,
        VerifyPhase::Reading(_) => match event {
            VerifyEvent::ChunkRead(chunk) => chunk@.len() <= VERIFY_READ_BUFFER_SIZE,
            VerifyEvent::ReadFailed(_) => true,
            _ => false,
        },
        VerifyPhase::Finished => false,
    }
}

/// The action is the end of the check, with the path and state given.
pub open spec fn done_with(action: VerifyAction, path: Seq<char>, state: RepositoryPathVerificationState) -> bool {
    action matches VerifyAction::Done(Ok(v)) && v.path@ == path && v.state == state
}

/// The action is the end of the check, with the error given.
pub open spec fn done_with_error(action: VerifyAction, error: ErrorModel) -> bool {
    action matches VerifyAction::Done(Err(e)) && e@ == error
}

/// Whether a reported content length differs from the expected size (the
/// length taken as a `u64`, as the bucket's answer is converted).
pub open spec fn length_mismatch(expected_size: u64, content_length: Option<i64>) -> bool {
    match content_length {
        Some(cl) => cl as u64 != expected_size,
        None => false,
    }
}

/// Whether a read of `size` bytes, with `remaining` bytes still expected, is
/// the last one: it gave all the expected bytes, or the body is at its end.
pub open spec fn read_is_last(remaining: int, size: int) -> bool {
    size >= remaining || size == 0
}

/// What a read does to a content check: the check reads on, with the bytes
/// still expected and all the bytes read so far, or it stops, with all the
/// bytes it read.
pub enum ReadStep {
    More(u64, Seq<u8>),
    Stop(Seq<u8>),
}

/// The effect of a read that gives `chunk`, with `remaining` bytes still
/// expected and `read` read so far.
pub open spec fn read_step(remaining: u64, read: Seq<u8>, chunk: Seq<u8>) -> ReadStep {
    if read_is_last(remaining as int, chunk.len() as int) {
        ReadStep::Stop(read + chunk)
    } else {
        ReadStep::More((remaining - chunk.len()) as u64, read + chunk)
    }
}

/// The bytes of a content read in chunks, in order.
pub open spec fn concat_chunks(chunks: Seq<Seq<u8>>) -> Seq<u8>
    decreases chunks.len(),
{
    if chunks.len() == 0 {
        Seq::<u8>::empty()
    } else {
        concat_chunks(chunks.drop_last()) + chunks.last()
    }
}

/// Chunks of bytes, taken by their views.
pub open spec fn chunk_views(chunks: Seq<Vec<u8>>) -> Seq<Seq<u8>> {
    chunks.map_values(|c: Vec<u8>| c@)
}

/// All the bytes that a content check has read when it stops, given the
/// bytes still expected, the bytes `read` so far and the chunks that the
/// following reads give, in order: each read is one `read_step`. `None` where
/// the chunks run out before the check stops.
pub open spec fn bytes_at_stop(remaining: u64, read: Seq<u8>, chunks: Seq<Seq<u8>>) -> Option<Seq<u8>>
    decreases chunks.len(),
{
    if chunks.len() == 0 {
        None
    } else {
        match read_step(remaining, read, chunks[0]) {
            ReadStep::Stop(b) => Some(b),
            ReadStep::More(r, b) => bytes_at_stop(r, b, chunks.drop_first()),
        }
    }
}

/// The state a content check ends in, given all the bytes it read and the
/// expected digest.
pub open spec fn integrity_state(read: Seq<u8>, expected: (DigestAlgorithm, Seq<u8>)) -> RepositoryPathVerificationState {
    if digest_matches(read, expected) {
        RepositoryPathVerificationState::ExistsIntegrityVerified
    } else {
        RepositoryPathVerificationState::ExistsIntegrityMismatch
    }
}

/// A check of what the bucket holds under one repository path.
pub struct PathVerifier {
    path: String,
    expected: Option<(u64, ContentDigest)>,
    phase: VerifyPhase,
    read: Vec<u8>,
}

impl PathVerifier {
    /// The path under check.
    pub closed spec fn spec_path(&self) -> Seq<char> {
        self.path@
    }

    /// The expected size and digest of the path's content, if any.
    pub closed spec fn spec_expected(&self) -> Option<(u64, ContentDigest)> {
        self.expected
    }

    /// Where the check stands.
    pub closed spec fn spec_phase(&self) -> VerifyPhase {
        self.phase
    }

    /// The bytes of the object's body read so far.
    pub closed spec fn spec_read(&self) -> Seq<u8> {
        self.read@
    }

    /// Where the check stands.
    pub fn phase(&self) -> (r: VerifyPhase)
        ensures
            r == self.spec_phase(),
    {
        self.phase
    }

    /// The next step of the check, given what happened since the last one.
    ///
    /// A head request answers `ExistsNoIntegrityCheck` where the object
    /// exists. An object request ends the check with `ExistsIntegrityMismatch`
    /// where the reported content length differs from the expected size, and
    /// otherwise has the body read until the expected number of bytes has been
    /// read or the body ends; the state is then `ExistsIntegrityVerified` where
    /// the digest of all the bytes read, under the expected digest's hash
    /// function, is the expected digest, and `ExistsIntegrityMismatch` where it
    /// is not. A missing object is `Missing`; a failed request is an I/O error
    /// of kind `Other` (`S3 error: ` and its description), and a failed read is
    /// that read's error, both on the path.
    pub fn step(&mut self, event: VerifyEvent) -> (action: VerifyAction)
        requires
            phase_accepts(old(self).spec_phase(), event),
        ensures
            final(self).spec_path() == old(self).spec_path(),
            final(self).spec_expected() == old(self).spec_expected(),
            action is Done <==> final(self).spec_phase() == VerifyPhase::Finished,
            old(self).spec_phase() == VerifyPhase::AwaitHead ==> match event {
                VerifyEvent::Response(ObjectProbe::Found { .. }) => done_with(
                    action,
                    old(self).spec_path(),
                    RepositoryPathVerificationState::ExistsNoIntegrityCheck,
                ),
                VerifyEvent::Response(ObjectProbe::Missing) => done_with(
                    action,
                    old(self).spec_path(),
                    RepositoryPathVerificationState::Missing,
                ),
                VerifyEvent::Response(ObjectProbe::Failed(d)) => done_with_error(
                    action,
                    ErrorModel::RepositoryIoPath(
                        old(self).spec_path(),
                        FailureModel::Described(IoErrorKind::Other, s3_error_message(d@)),
                    ),
                ),
                _ => false,
            },
            old(self).spec_phase() == VerifyPhase::AwaitGet ==> match event {
                VerifyEvent::Response(ObjectProbe::Found { content_length }) => match old(
                    self,
                ).spec_expected() {
                    Some((size, _)) => if length_mismatch(size, content_length) {
                        done_with(
                            action,
                            old(self).spec_path(),
                            RepositoryPathVerificationState::ExistsIntegrityMismatch,
                        )
                    } else {
                        &&& action is ReadChunk
                        &&& final(self).spec_phase() == VerifyPhase::Reading(size)
                        &&& final(self).spec_read() == Seq::<u8>::empty()
                    },
                    None => false,
                },
                VerifyEvent::Response(ObjectProbe::Missing) => done_with(
                    action,
                    old(self).spec_path(),
                    RepositoryPathVerificationState::Missing,
                ),
                VerifyEvent::Response(ObjectProbe::Failed(d)) => done_with_error(
                    action,
                    ErrorModel::RepositoryIoPath(
                        old(self).spec_path(),
                        FailureModel::Described(IoErrorKind::Other, s3_error_message(d@)),
                    ),
                ),
                _ => false,
            },
            old(self).spec_phase() is Reading ==> match event {
                VerifyEvent::ChunkRead(chunk) => match read_step(
                    old(self).spec_phase()->0,
                    old(self).spec_read(),
                    chunk@,
                ) {
                    ReadStep::More(remaining, read) => {
                        &&& action is ReadChunk
                        &&& final(self).spec_phase() == VerifyPhase::Reading(remaining)
                        &&& final(self).spec_read() == read
                    },
                    ReadStep::Stop(read) => {
                        &&& final(self).spec_read() == read
                        &&& match old(self).spec_expected() {
                            Some((_, digest)) => done_with(
                                action,
                                old(self).spec_path(),
                                integrity_state(read, digest@),
                            ),
                            None => false,
                        }
                    },
                },
                VerifyEvent::ReadFailed(e) => done_with_error(
                    action,
                    ErrorModel::RepositoryIoPath(old(self).spec_path(), FailureModel::Raised(e)),
                ),
                _ => false,
            },
    {
        proof {
            use_type_invariant(&*self);
        }
        match event {
            VerifyEvent::Response(probe) => {
                let with_content = self.phase == VerifyPhase::AwaitGet;
                match probe {
                    ObjectProbe::Found { content_length } => {
                        if !with_content {
                            self.finish(RepositoryPathVerificationState::ExistsNoIntegrityCheck)
                        } else {
                            let size = match &self.expected {
                                Some((s, _)) => *s,
                                None => 0,
                            };
                            let mismatch = match content_length {
                                Some(cl) => cl as u64 != size,
                                None => false,
                            };
                            if mismatch {
                                self.finish(
                                    RepositoryPathVerificationState::ExistsIntegrityMismatch,
                                )
                            } else {
                                self.phase = VerifyPhase::Reading(size);
                                self.read = Vec::new();
                                VerifyAction::ReadChunk
                            }
                        }
                    },
                    ObjectProbe::Missing => {
                        self.finish(RepositoryPathVerificationState::Missing)
                    },
                    ObjectProbe::Failed(d) => {
                        self.phase = VerifyPhase::Finished;
                        VerifyAction::Done(Err(s3_path_error(self.path.as_str(), d.as_str())))
                    },
                }
            },
            VerifyEvent::ChunkRead(chunk) => {
                let remaining = match self.phase {
                    VerifyPhase::Reading(r) => r,
                    _ => 0,
                };
                let size = chunk.len() as u64;
                let mut chunk = chunk;
                let mut read: Vec<u8> = Vec::new();
                std::mem::swap(&mut read, &mut self.read);
                read.append(&mut chunk);
                self.read = read;
                if size >= remaining || size == 0 {
                    let verified = match &self.expected {
                        Some((_, digest)) => content_matches(self.read.as_slice(), digest),
                        None => false,
                    };
                    if verified {
                        self.finish(RepositoryPathVerificationState::ExistsIntegrityVerified)
                    } else {
                        self.finish(RepositoryPathVerificationState::ExistsIntegrityMismatch)
                    }
                } else {
                    self.phase = VerifyPhase::Reading(remaining - size);
                    VerifyAction::ReadChunk
                }
            },
            VerifyEvent::ReadFailed(e) => {
                self.phase = VerifyPhase::Finished;
                VerifyAction::Done(Err(repository_io_error(self.path.as_str(), IoFailure::Raised(e))))
            },
        }
    }

    /// Feeds a check that is reading the object's body with chunks already
    /// at hand, in order, one `step` each, until the check stops or the chunks
    /// run out. Where it stops, it ends in the state that the digest of all
    /// the bytes read gives; where the chunks run out first, it asks for the
    /// next read, having read all of them.
    pub fn feed_chunks(&mut self, chunks: Vec<Vec<u8>>) -> (action: VerifyAction)
        requires
            old(self).spec_phase() is Reading,
            forall|i: int|
                0 <= i < chunks@.len() ==> #[trigger] chunks@[i]@.len() <= VERIFY_READ_BUFFER_SIZE,
        ensures
            final(self).spec_path() == old(self).spec_path(),
            final(self).spec_expected() == old(self).spec_expected(),
            match bytes_at_stop(old(self).spec_phase()->0, old(self).spec_read(), chunk_views(chunks@)) {
                Some(read) => {
                    &&& final(self).spec_read() == read
                    &&& match old(self).spec_expected() {
                        Some((_, digest)) => done_with(
                            action,
                            old(self).spec_path(),
                            integrity_state(read, digest@),
                        ),
                        None => false,
                    }
                },
                None => {
                    &&& action is ReadChunk
                    &&& final(self).spec_phase() is Reading
                    &&& final(self).spec_read() == old(self).spec_read() + concat_chunks(
                        chunk_views(chunks@),
                    )
                },
            },
    {
        let ghost all = chunk_views(chunks@);
        let ghost start_read = self.spec_read();
        let ghost start_phase = self.spec_phase();
        let mut rest = chunks;
        proof {
            assert(all.take(0) =~= Seq::<Seq<u8>>::empty());
            assert(start_read + concat_chunks(all.take(0)) =~= start_read);
            assert(chunk_views(rest@) =~= all.skip(0));
        }
        while rest.len() > 0
            invariant
                self.spec_path() == old(self).spec_path(),
                self.spec_expected() == old(self).spec_expected(),
                self.spec_phase() is Reading,
                all == chunk_views(chunks@),
                start_read == old(self).spec_read(),
                start_phase == old(self).spec_phase(),
                rest@.len() <= all.len(),
                chunk_views(rest@) == all.skip(all.len() - rest@.len()),
                forall|i: int|
                    0 <= i < rest@.len() ==> #[trigger] rest@[i]@.len() <= VERIFY_READ_BUFFER_SIZE,
                bytes_at_stop(start_phase->0, start_read, all) == bytes_at_stop(
                    self.spec_phase()->0,
                    self.spec_read(),
                    chunk_views(rest@),
                ),
                self.spec_read() == start_read + concat_chunks(all.take(all.len() - rest@.len())),
            decreases rest@.len(),
        {
            let ghost before = rest@;
            let ghost k = all.len() - rest@.len();
            let chunk = rest.remove(0);
            proof {
                let views = chunk_views(before);
                assert(views[0] == chunk@);
                assert(chunk_views(rest@) =~= views.drop_first());
                assert(all.skip(k + 1) =~= views.drop_first());
                assert(all[k] == chunk@);
                assert(all.take(k + 1).drop_last() =~= all.take(k));
                assert(start_read + concat_chunks(all.take(k + 1)) =~= start_read + concat_chunks(
                    all.take(k),
                ) + chunk@);
            }
            let action = self.step(VerifyEvent::ChunkRead(chunk));
            match action {
                VerifyAction::ReadChunk => {},
                _ => {
                    return action;
                },
            }
        }
        proof {
            assert(all.take(all.len() as int) =~= all);
        }
        VerifyAction::ReadChunk
    }

    /// Ends the check with the given state.
    fn finish(&mut self, state: RepositoryPathVerificationState) -> (action: VerifyAction)
        ensures
            final(self).spec_path() == old(self).spec_path(),
            final(self).spec_expected() == old(self).spec_expected(),
            final(self).spec_read() == old(self).spec_read(),
            final(self).spec_phase() == VerifyPhase::Finished,
            done_with(action, old(self).spec_path(), state),
    {
        self.phase = VerifyPhase::Finished;
        VerifyAction::Done(Ok(RepositoryPathVerification { path: self.path.clone(), state }))
    }

    /// Well-formedness: a check that reads content has an expected size and
    /// digest to hold it to.
    #[verifier::type_invariant]
    spec fn inv(&self) -> bool {
        match self.phase {
            VerifyPhase::AwaitGet | VerifyPhase::Reading(_) => self.expected is Some,
            _ => true,
        }
    }
}

impl S3Writer {
    /// Well-formedness: the stored key prefix neither begins nor ends with `/`.
    #[verifier::type_invariant]
    spec fn prefix_trimmed(&self) -> bool {
        self.key_prefix matches Some(p) ==> slash_free_ends(p@)
    }

    /// The bucket's name.
    pub closed spec fn spec_bucket(&self) -> Seq<char> {
        self.bucket@
    }

    /// The key prefix, if any.
    pub closed spec fn spec_key_prefix(&self) -> Option<Seq<char>> {
        opt_view(self.key_prefix)
    }

    /// A writer into `bucket` under `key_prefix` (its leading and trailing `/`
    /// removed).
    pub fn new(bucket: &str, key_prefix: Option<&str>) -> (w: Self)
        ensures
            w.spec_bucket() == bucket@,
            w.spec_key_prefix() == trimmed_prefix(opt_str_view(key_prefix)),
    {
        S3Writer { bucket: String::from_str(bucket), key_prefix: trim_prefix(key_prefix) }
    }

    /// The bucket's name.
    pub fn bucket(&self) -> (r: &str)
        ensures
            r@ == self.spec_bucket(),
    {
        self.bucket.as_str()
    }

    /// The key of a repository relative path. The stored prefix neither
    /// begins nor ends with `/`; where it is not empty (or there is none),
    /// the key of a path that is not made of `/` alone neither begins nor
    /// ends with `/`.
    pub fn path_to_key(&self, path: &str) -> (r: String)
        ensures
            r@ == key_for_path(self.spec_key_prefix(), path@),
            self.spec_key_prefix() matches Some(p) ==> slash_free_ends(p),
            (self.spec_key_prefix() matches Some(p) ==> p.len() > 0) && trim_slashes(path@).len()
                > 0 ==> slash_free_ends(r@),
    {
        proof {
            use_type_invariant(self);
            if (self.spec_key_prefix() matches Some(p) ==> p.len() > 0) && trim_slashes(path@).len() > 0 {
                lemma_key_ends(self.spec_key_prefix(), path@);
            }
        }
        let prefix = match &self.key_prefix {
            Some(p) => Some(p.as_str()),
            None => None,
        };
        object_key(prefix, path)
    }

    /// Starts a check of what the bucket holds under `path`. With an expected
    /// size and digest, the check asks for the object under the path's key;
    /// without, only for its head.
    pub fn verify_path(&self, path: &str, expected_content: Option<(u64, ContentDigest)>) -> (r: (
        PathVerifier,
        VerifyAction,
    ))
        ensures
            r.0.spec_path() == path@,
            r.0.spec_expected() == expected_content,
            match expected_content {
                Some(_) => {
                    &&& r.0.spec_phase() == VerifyPhase::AwaitGet
                    &&& r.1 matches VerifyAction::GetObject(k)
                    &&& k@ == key_for_path(self.spec_key_prefix(), path@)
                },
                None => {
                    &&& r.0.spec_phase() == VerifyPhase::AwaitHead
                    &&& r.1 matches VerifyAction::HeadObject(k)
                    &&& k@ == key_for_path(self.spec_key_prefix(), path@)
                },
            },
    {
        let key = self.path_to_key(path);
        let with_content = expected_content.is_some();
        let verifier = PathVerifier {
            path: String::from_str(path),
            expected: expected_content,
            read: Vec::new(),
            phase: if with_content {
                VerifyPhase::AwaitGet
            } else {
                VerifyPhase::AwaitHead
            },
        };
        if with_content {
            (verifier, VerifyAction::GetObject(key))
        } else {
            (verifier, VerifyAction::HeadObject(key))
        }
    }

    /// The outcome of writing `path`, given the number of bytes read from its
    /// content and the answer to the request that stored them (`Err` with the
    /// failure's description where it failed).
    pub fn write_path_outcome(path: &str, bytes_read: usize, put: Result<(), String>) -> (r: Result<
        RepositoryWrite,
        DebianError,
    >)
        ensures
            match put {
                Ok(()) => r matches Ok(w) && w.path@ == path@ && w.bytes_written == bytes_read,
                Err(d) => r matches Err(e) && e@ == ErrorModel::RepositoryIoPath(
                    path@,
                    FailureModel::Described(IoErrorKind::Other, s3_error_message(d@)),
                ),
            },
    {
        match put {
            Ok(()) => Ok(RepositoryWrite { path: String::from_str(path), bytes_written: bytes_read as u64 }),
            Err(d) => Err(s3_path_error(path, d.as_str())),
        }
    }
}

} // verus!
