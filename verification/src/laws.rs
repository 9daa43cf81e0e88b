//! Properties that hold across the clients' operations.
use crate::client::S3RepositoryClient;
use crate::path::{
    key_for_path, lemma_key_ends, lemma_trim_ends, lemma_trim_idempotent, lemma_trim_ignores_outer_slash,
    lemma_trim_slash_free, slash_free_ends, trim_slashes, trimmed_prefix,
};
use crate::client::{get_path_error_model, preferred_compression_order, Compression, GetObjectFailure};
use crate::digest::{
    digest_matches, digest_of, md5_of, sha1_of, sha256_of, DigestAlgorithm, MultiContentDigest,
};
use crate::error::{key_not_found_message, s3_error_message, ErrorModel, FailureModel, IoErrorKind};
use crate::error::DebianError;
use crate::digest::ContentDigest;
use crate::location::{s3_location, url_outcome, url_result_view};
use crate::path::{all_slashes, lemma_trim_shape, opt_str_view, opt_view};
use crate::region::{default_region_name, region_of_location};
use crate::writer::{
    bytes_at_stop, chunk_views, concat_chunks, done_with, done_with_error, VerifyAction, integrity_state, length_mismatch, phase_accepts, read_is_last,
    read_step, ObjectProbe, ReadStep, RepositoryPathVerificationState, S3Writer, VerifyEvent,
    VerifyPhase, VERIFY_READ_BUFFER_SIZE,
};
use vstd::prelude::*;

verus! {

/// A path and the same path with `/` put before it, or after it, or with its
/// leading and trailing `/` removed, all have the same key.
pub proof fn law_key_ignores_outer_slashes(prefix: Option<Seq<char>>, path: Seq<char>)
    ensures
        key_for_path(prefix, seq!['/'] + path) == key_for_path(prefix, path),
        key_for_path(prefix, path + seq!['/']) == key_for_path(prefix, path),
        key_for_path(prefix, trim_slashes(path)) == key_for_path(prefix, path),
{
    lemma_trim_ignores_outer_slash(path);
    lemma_trim_idempotent(path);
}

/// Without a key prefix, the key of a key is the key itself.
pub proof fn law_key_of_key(path: Seq<char>)
    ensures
        key_for_path(None, key_for_path(None, path)) == key_for_path(None, path),
{
    lemma_trim_idempotent(path);
}

/// A client stores its key prefix with neither a leading nor a trailing `/`;
/// and where the stored prefix is not empty (or there is none), the key of a
/// path that is not made of `/` alone neither begins nor ends with a `/`.
pub proof fn law_key_has_slash_free_ends(given_prefix: Option<Seq<char>>, path: Seq<char>)
    ensures
        trimmed_prefix(given_prefix) matches Some(p) ==> slash_free_ends(p),
        (match trimmed_prefix(given_prefix) {
            Some(p) => p.len() > 0,
            None => true,
        }) && trim_slashes(path).len() > 0 ==> slash_free_ends(
            key_for_path(trimmed_prefix(given_prefix), path),
        ),
{
    if let Some(g) = given_prefix {
        lemma_trim_ends(g);
    }
    if (match trimmed_prefix(given_prefix) {
        Some(p) => p.len() > 0,
        None => true,
    }) && trim_slashes(path).len() > 0 {
        lemma_key_ends(trimmed_prefix(given_prefix), path);
    }
}

/// A writer and a repository client built with the same key prefix (each
/// stores it trimmed, as `S3Writer::new`, `S3RepositoryClient::new` and
/// `S3RepositoryClient::new_with_region` ensure) map every path to the same
/// key: what the writer writes under a path, the client reads under that
/// path. The key does not depend on how the prefix was given, only on its
/// trimmed form.
pub proof fn law_writer_and_reader_agree(
    writer: S3Writer,
    reader: S3RepositoryClient,
    writer_prefix: Option<Seq<char>>,
    reader_prefix: Option<Seq<char>>,
    path: Seq<char>,
)
    requires
        writer.spec_key_prefix() == trimmed_prefix(writer_prefix),
        reader.spec_key_prefix() == trimmed_prefix(reader_prefix),
        trimmed_prefix(writer_prefix) == trimmed_prefix(reader_prefix),
    ensures
        key_for_path(writer.spec_key_prefix(), path) == key_for_path(reader.spec_key_prefix(), path),
{
}

/// Prefixes given with or without leading and trailing `/` are stored alike.
pub proof fn law_prefix_given_with_slashes(prefix: Seq<char>)
    ensures
        trimmed_prefix(Some(seq!['/'] + prefix)) == trimmed_prefix(Some(prefix)),
        trimmed_prefix(Some(prefix + seq!['/'])) == trimmed_prefix(Some(prefix)),
{
    lemma_trim_ignores_outer_slash(prefix);
}

/// A distribution reader gives a path the key of the distribution's path, a
/// `/` and the trimmed path. Where the distribution's path and the trimmed
/// path are both non-empty, that key is the prefix (if any) and a `/`, the
/// distribution's path, a `/` and the trimmed path: nothing more is removed.
pub proof fn law_distribution_key(
    prefix: Option<Seq<char>>,
    distribution_path: Seq<char>,
    path: Seq<char>,
)
    ensures
        trim_slashes(distribution_path).len() > 0 && trim_slashes(path).len() > 0 ==> key_for_path(
            prefix,
            trim_slashes(distribution_path) + "/"@ + trim_slashes(path),
        ) == match prefix {
            Some(p) => p + "/"@ + trim_slashes(distribution_path) + "/"@ + trim_slashes(path),
            None => trim_slashes(distribution_path) + "/"@ + trim_slashes(path),
        },
{
    reveal_strlit("/");
    let d = trim_slashes(distribution_path);
    let t = trim_slashes(path);
    let full = d + "/"@ + t;
    if d.len() > 0 && t.len() > 0 {
        lemma_trim_ends(distribution_path);
        lemma_trim_ends(path);
        assert(full[0] == d[0]);
        assert(full.last() == t.last());
        lemma_trim_slash_free(full);
        match prefix {
            Some(p) => {
                assert(p + seq!['/'] + full =~= p + "/"@ + d + "/"@ + t);
            },
            None => {},
        }
    }
}

/// `concat_chunks`, taken from the front: the first chunk, then the rest.
proof fn lemma_concat_front(chunks: Seq<Seq<u8>>)
    requires
        chunks.len() > 0,
    ensures
        concat_chunks(chunks) == chunks[0] + concat_chunks(chunks.drop_first()),
    decreases chunks.len(),
{
    if chunks.len() == 1 {
        assert(chunks.drop_last() =~= Seq::<Seq<u8>>::empty());
        assert(chunks.drop_first() =~= Seq::<Seq<u8>>::empty());
        assert(concat_chunks(chunks.drop_last()) =~= Seq::<u8>::empty());
        assert(concat_chunks(chunks.drop_first()) =~= Seq::<u8>::empty());
        assert(chunks.last() == chunks[0]);
        assert(concat_chunks(chunks) =~= chunks[0]);
    } else {
        let init = chunks.drop_last();
        lemma_concat_front(init);
        assert(init.drop_first() =~= chunks.drop_first().drop_last());
        assert(chunks.drop_first().last() == chunks.last());
        assert(concat_chunks(chunks) =~= chunks[0] + concat_chunks(chunks.drop_first()));
    }
}

/// A check whose expected bytes are exactly those of the chunks still to
/// come, all non-empty but perhaps the last, stops at the last chunk with
/// all of them read.
proof fn lemma_stop_at_end(remaining: u64, read: Seq<u8>, chunks: Seq<Seq<u8>>)
    requires
        remaining == concat_chunks(chunks).len(),
        chunks.len() > 0,
        forall|i: int| 0 <= i < chunks.len() - 1 ==> #[trigger] chunks[i].len() > 0,
    ensures
        bytes_at_stop(remaining, read, chunks) == Some(read + concat_chunks(chunks)),
    decreases chunks.len(),
{
    lemma_concat_front(chunks);
    let c = chunks[0];
    let rest = chunks.drop_first();
    if rest.len() == 0 {
        assert(concat_chunks(rest) =~= Seq::<u8>::empty());
        assert(read + concat_chunks(chunks) =~= read + c);
    } else if concat_chunks(rest).len() == 0 {
        assert(c.len() > 0);
        assert(read + concat_chunks(chunks) =~= read + c);
    } else {
        assert(c.len() > 0);
        assert forall|i: int| 0 <= i < rest.len() - 1 implies #[trigger] rest[i].len() > 0 by {
            assert(rest[i] == chunks[i + 1]);
        }
        lemma_stop_at_end((remaining - c.len()) as u64, read + c, rest);
        assert(read + c + concat_chunks(rest) =~= read + concat_chunks(chunks));
    }
}

/// The state in which a check of a path ends, given what it expects, the
/// answer to its request and the chunks that the reads of the body give; each
/// case is one `PathVerifier::step` (the reads are `feed_chunks`). `None`
/// where the request failed or the chunks run out before the check stops.
pub open spec fn check_outcome(
    expected: Option<(u64, (DigestAlgorithm, Seq<u8>))>,
    probe: ObjectProbe,
    chunks: Seq<Seq<u8>>,
) -> Option<RepositoryPathVerificationState> {
    match probe {
        ObjectProbe::Failed(_) => None,
        ObjectProbe::Missing => Some(RepositoryPathVerificationState::Missing),
        ObjectProbe::Found { content_length } => match expected {
            None => Some(RepositoryPathVerificationState::ExistsNoIntegrityCheck),
            Some((size, digest)) => if length_mismatch(size, content_length) {
                Some(RepositoryPathVerificationState::ExistsIntegrityMismatch)
            } else {
                match bytes_at_stop(size, Seq::<u8>::empty(), chunks) {
                    Some(read) => Some(integrity_state(read, digest)),
                    None => None,
                }
            },
        },
    }
}

/// Write, then check: where the object under a path holds exactly the bytes
/// written, and its body is read in chunks that are all non-empty but perhaps
/// the last, a check that expects the written size and the digest of the
/// written bytes under any hash function is not cut short by the content
/// length the bucket reports (or by its absence), stops with exactly the
/// written bytes read, and ends `ExistsIntegrityVerified`; a check that
/// expects nothing ends `ExistsNoIntegrityCheck`.
pub proof fn law_write_then_verify(
    bytes: Seq<u8>,
    chunks: Seq<Seq<u8>>,
    algorithm: DigestAlgorithm,
    reported_length: Option<i64>,
)
    requires
        concat_chunks(chunks) == bytes,
        chunks.len() > 0,
        forall|i: int| 0 <= i < chunks.len() - 1 ==> #[trigger] chunks[i].len() > 0,
        bytes.len() <= i64::MAX,
        reported_length is None || reported_length == Some(bytes.len() as i64),
    ensures
        bytes_at_stop(bytes.len() as u64, Seq::<u8>::empty(), chunks) == Some(bytes),
        check_outcome(
            Some((bytes.len() as u64, (algorithm, digest_of(algorithm, bytes)))),
            ObjectProbe::Found { content_length: reported_length },
            chunks,
        ) == Some(RepositoryPathVerificationState::ExistsIntegrityVerified),
        check_outcome(None, ObjectProbe::Found { content_length: reported_length }, chunks)
            == Some(RepositoryPathVerificationState::ExistsNoIntegrityCheck),
{
    lemma_stop_at_end(bytes.len() as u64, Seq::<u8>::empty(), chunks);
    assert(Seq::<u8>::empty() + bytes =~= bytes);
}

/// A check with `remaining` bytes still expected, whose reads each give at
/// most `VERIFY_READ_BUFFER_SIZE` bytes, has read, when it stops, no more
/// than what it had read, the bytes still expected and one buffer more.
pub proof fn law_read_bound(remaining: u64, read: Seq<u8>, chunks: Seq<Seq<u8>>)
    requires
        forall|i: int| 0 <= i < chunks.len() ==> #[trigger] chunks[i].len() <= VERIFY_READ_BUFFER_SIZE,
    ensures
        bytes_at_stop(remaining, read, chunks) matches Some(b) ==> b.len() <= read.len() + remaining
            + VERIFY_READ_BUFFER_SIZE,
    decreases chunks.len(),
{
    if chunks.len() > 0 {
        let c = chunks[0];
        assert(c.len() <= VERIFY_READ_BUFFER_SIZE);
        match read_step(remaining, read, c) {
            ReadStep::Stop(_) => {},
            ReadStep::More(r, b) => {
                let rest = chunks.drop_first();
                assert forall|i: int| 0 <= i < rest.len() implies #[trigger] rest[i].len()
                    <= VERIFY_READ_BUFFER_SIZE by {
                    assert(rest[i] == chunks[i + 1]);
                }
                law_read_bound(r, b, rest);
            },
        }
    }
}

/// A check stops within `max(remaining, 1)` reads: given that many reads
/// that each give at least one byte (as a body that never ends does), it has
/// stopped.
pub proof fn law_check_stops(remaining: u64, read: Seq<u8>, chunks: Seq<Seq<u8>>)
    requires
        chunks.len() >= remaining,
        chunks.len() >= 1,
        forall|i: int| 0 <= i < chunks.len() ==> #[trigger] chunks[i].len() > 0,
    ensures
        bytes_at_stop(remaining, read, chunks) is Some,
    decreases chunks.len(),
{
    let c = chunks[0];
    assert(c.len() > 0);
    match read_step(remaining, read, c) {
        ReadStep::Stop(_) => {},
        ReadStep::More(r, b) => {
            let rest = chunks.drop_first();
            assert forall|i: int| 0 <= i < rest.len() implies #[trigger] rest[i].len() > 0 by {
                assert(rest[i] == chunks[i + 1]);
            }
            law_check_stops(r, b, rest);
        },
    }
}

/// A content check ends `ExistsIntegrityVerified` exactly where the digest
/// of all the bytes it read, under the expected digest's hash function, is
/// the expected digest, and `ExistsIntegrityMismatch` otherwise: for MD5,
/// SHA-1 and SHA-256 alike.
pub proof fn law_integrity_verdict(read: Seq<u8>, expected: Seq<u8>)
    ensures
        integrity_state(read, (DigestAlgorithm::Md5, expected))
            == RepositoryPathVerificationState::ExistsIntegrityVerified <==> md5_of(read) == expected,
        integrity_state(read, (DigestAlgorithm::Sha1, expected))
            == RepositoryPathVerificationState::ExistsIntegrityVerified <==> sha1_of(read) == expected,
        integrity_state(read, (DigestAlgorithm::Sha256, expected))
            == RepositoryPathVerificationState::ExistsIntegrityVerified <==> sha256_of(read)
            == expected,
        forall|a: DigestAlgorithm|
            integrity_state(read, (a, expected))
                == RepositoryPathVerificationState::ExistsIntegrityVerified || integrity_state(
                read,
                (a, expected),
            ) == RepositoryPathVerificationState::ExistsIntegrityMismatch,
        forall|a: DigestAlgorithm|
            #![trigger digest_of(a, read)]
            digest_matches(read, (a, expected)) <==> digest_of(a, read) == expected,
        digest_of(DigestAlgorithm::Md5, read) == md5_of(read),
        digest_of(DigestAlgorithm::Sha1, read) == sha1_of(read),
        digest_of(DigestAlgorithm::Sha256, read) == sha256_of(read),
{
}

/// A check that ends `ExistsIntegrityVerified` after reading a body has
/// read bytes whose digest is the expected one.
pub proof fn law_verified_means_digest_matches(
    size: u64,
    algorithm: DigestAlgorithm,
    expected: Seq<u8>,
    probe: ObjectProbe,
    chunks: Seq<Seq<u8>>,
)
    requires
        probe is Found,
        check_outcome(Some((size, (algorithm, expected))), probe, chunks)
            == Some(RepositoryPathVerificationState::ExistsIntegrityVerified),
    ensures
        bytes_at_stop(size, Seq::<u8>::empty(), chunks) matches Some(read) && digest_of(
            algorithm,
            read,
        ) == expected,
{
}

/// The digests held for a content are its MD5, SHA-1 and SHA-256 digests,
/// each under its own hash function.
pub proof fn law_digest_fields(d: MultiContentDigest)
    ensures
        d.spec_digest(DigestAlgorithm::Md5) == d.md5@,
        d.spec_digest(DigestAlgorithm::Sha1) == d.sha1@,
        d.spec_digest(DigestAlgorithm::Sha256) == d.sha256@,
{
}

/// A bucket's region is the location constraint it reports, whatever that
/// constraint is, but for the legacy constraint `EU`, which is `eu-west-1`;
/// a bucket that reports none is in `us-east-1`.
pub proof fn law_region_of_location(constraint: Seq<char>)
    ensures
        constraint != "EU"@ ==> region_of_location(Some(constraint)) == constraint,
        region_of_location(Some("EU"@)) == "eu-west-1"@,
        region_of_location(None) == "us-east-1"@,
        default_region_name() == "us-east-1"@,
{
}

/// The location of a bucket is `s3://` and the bucket's name, whatever the
/// name; under a key prefix it is followed by a `/` and the prefix.
pub proof fn law_s3_location(bucket: Seq<char>, prefix: Seq<char>)
    ensures
        s3_location(bucket, Some(prefix)) == "s3://"@ + bucket + "/"@ + prefix,
        s3_location(bucket, None) == "s3://"@ + bucket,
{
}

/// A parsed location is the URL's text; a location that does not parse is
/// the error `Invalid S3 URL: ` with the parse error's text.
pub proof fn law_url_outcome(text: Seq<char>)
    ensures
        url_outcome(Ok(text)) == Ok::<Seq<char>, ErrorModel>(text),
        url_outcome(Err(text)) == Err::<Seq<char>, ErrorModel>(
            ErrorModel::Other("Invalid S3 URL: "@ + text),
        ),
{
}

/// A given key prefix is kept, trimmed of its leading and trailing `/`,
/// whatever it holds; no prefix stays no prefix.
pub proof fn law_prefix_kept(prefix: Seq<char>)
    ensures
        trimmed_prefix(Some(prefix)) == Some(trim_slashes(prefix)),
        trimmed_prefix(None) == None::<Seq<char>>,
{
}

/// The key of a path under a prefix is the prefix, a `/` and the trimmed
/// path; without a prefix it is the trimmed path.
pub proof fn law_key_for_path(prefix: Seq<char>, path: Seq<char>)
    ensures
        key_for_path(Some(prefix), path) == prefix + "/"@ + trim_slashes(path),
        key_for_path(None, path) == trim_slashes(path),
{
    reveal_strlit("/");
}

/// The error of a failed object request names the path; a missing key is
/// `NotFound` with `S3 key not found: ` and the key, and any other failure is
/// `Other` with `S3 error: ` and its description.
pub proof fn law_get_path_error(path: Seq<char>, key: Seq<char>, detail: String)
    ensures
        get_path_error_model(path, key, GetObjectFailure::NoSuchKey) == ErrorModel::RepositoryIoPath(
            path,
            FailureModel::Described(IoErrorKind::NotFound, "S3 key not found: "@ + key),
        ),
        get_path_error_model(path, key, GetObjectFailure::Other(detail))
            == ErrorModel::RepositoryIoPath(
            path,
            FailureModel::Described(IoErrorKind::Other, "S3 error: "@ + detail@),
        ),
        key_not_found_message(key) == "S3 key not found: "@ + key,
        s3_error_message(key) == "S3 error: "@ + key,
{
}

/// A reported content length disagrees with the expected size exactly where
/// it is given and, read as a byte count, differs from it; a length that is
/// not given never disagrees.
pub proof fn law_length_mismatch(size: u64, length: i64)
    ensures
        length >= 0 ==> (length_mismatch(size, Some(length)) <==> length != size),
        !length_mismatch(size, None),
{
}

/// A read is the last one exactly where it gives no bytes or at least the
/// bytes still expected; the bytes it gives are added to those read, and
/// otherwise the bytes still expected fall by its size.
pub proof fn law_read_step(remaining: u64, read: Seq<u8>, chunk: Seq<u8>)
    ensures
        read_step(remaining, read, chunk) is Stop <==> (chunk.len() == 0 || chunk.len()
            >= remaining),
        read_step(remaining, read, chunk) matches ReadStep::Stop(b) ==> b == read + chunk,
        read_step(remaining, read, chunk) matches ReadStep::More(r, b) ==> b == read + chunk && r
            == remaining - chunk.len() && 0 < r < remaining,
        read_is_last(remaining as int, chunk.len() as int) <==> (chunk.len() == 0 || chunk.len()
            >= remaining),
{
}

/// A check takes any answer to the request it made, and, while reading, any
/// read of at most `VERIFY_READ_BUFFER_SIZE` bytes and any read failure.
pub proof fn law_phase_accepts(event: VerifyEvent, remaining: u64)
    ensures
        event is Response ==> phase_accepts(VerifyPhase::AwaitHead, event) && phase_accepts(
            VerifyPhase::AwaitGet,
            event,
        ),
        event matches VerifyEvent::ChunkRead(c) && c@.len() <= VERIFY_READ_BUFFER_SIZE
            ==> phase_accepts(VerifyPhase::Reading(remaining), event),
        event is ReadFailed ==> phase_accepts(VerifyPhase::Reading(remaining), event),
{
}

/// The most preferred compression format is XZ.
pub proof fn law_preferred_compression()
    ensures
        preferred_compression_order().len() == 5,
        preferred_compression_order()[0] == Compression::Xz,
{
}

/// Trimming removes the `/` at both ends of a path and nothing else: the
/// result is `s[i..j]` for some `i <= j`, every character before `i` and from
/// `j` on is a `/`, and the result, where it is not empty, neither begins nor
/// ends with `/`.
pub proof fn law_trim_slashes(s: Seq<char>)
    ensures
        exists|i: int, j: int|
            0 <= i <= j <= s.len() && #[trigger] s.subrange(i, j) == trim_slashes(s) && (forall|
                k: int,
            | 0 <= k < i ==> s[k] == '/') && (forall|k: int| j <= k < s.len() ==> s[k] == '/'),
        trim_slashes(s).len() > 0 ==> trim_slashes(s)[0] != '/' && trim_slashes(s)[trim_slashes(
            s,
        ).len() - 1] != '/',
{
    lemma_trim_shape(s);
    let (i, j) = choose|i: int, j: int|
        0 <= i <= j <= s.len() && #[trigger] s.subrange(i, j) == trim_slashes(s) && all_slashes(
            s,
            0,
            i,
        ) && all_slashes(s, j, s.len() as int);
    assert(s.subrange(i, j) == trim_slashes(s));
}

/// What the ends of a string and a run of `/` mean.
pub proof fn law_slash_predicates(s: Seq<char>, from: int, to: int)
    ensures
        slash_free_ends(s) <==> (s.len() == 0 || (s[0] != '/' && s[s.len() - 1] != '/')),
        all_slashes(s, from, to) <==> (forall|k: int| from <= k < to ==> s[k] == '/'),
{
}

/// Optional strings are taken by their views, and kept absent where absent.
pub proof fn law_optional_views(s: String, t: &str)
    ensures
        opt_view(Some(s)) == Some(s@),
        opt_view(None) == None::<Seq<char>>,
        opt_str_view(Some(t)) == Some(t@),
        opt_str_view(None) == None::<Seq<char>>,
{
}

/// An error is taken by its path, its failure's kind and message (or the
/// raised error itself), or its message.
pub proof fn law_error_views(path: String, message: String, kind: IoErrorKind, raised: std::io::Error)
    ensures
        DebianError::RepositoryIoPath(path, crate::error::IoFailure::Described { kind, message })@
            == ErrorModel::RepositoryIoPath(path@, FailureModel::Described(kind, message@)),
        DebianError::RepositoryIoPath(path, crate::error::IoFailure::Raised(raised))@
            == ErrorModel::RepositoryIoPath(path@, FailureModel::Raised(raised)),
        DebianError::Io(crate::error::IoFailure::Described { kind, message })@ == ErrorModel::Io(
            FailureModel::Described(kind, message@),
        ),
        DebianError::Other(message)@ == ErrorModel::Other(message@),
{
}

/// A URL result is taken by the URL's text or by its error.
pub proof fn law_url_result_view(text: String, error: DebianError)
    ensures
        url_result_view(Ok(text)) == Ok::<Seq<char>, ErrorModel>(text@),
        url_result_view(Err(error)) == Err::<Seq<char>, ErrorModel>(error@),
{
}

/// A digest is taken by its hash function and its bytes.
pub proof fn law_content_digest_view(bytes: Vec<u8>)
    ensures
        ContentDigest::Md5(bytes)@ == (DigestAlgorithm::Md5, bytes@),
        ContentDigest::Sha1(bytes)@ == (DigestAlgorithm::Sha1, bytes@),
        ContentDigest::Sha256(bytes)@ == (DigestAlgorithm::Sha256, bytes@),
{
}

/// A check has ended with a state only where its action is the outcome
/// that names the path and that state, and with an error only where its
/// action is that error.
pub proof fn law_done(action: VerifyAction, path: Seq<char>, state: RepositoryPathVerificationState, error: ErrorModel)
    ensures
        done_with(action, path, state) <==> (action matches VerifyAction::Done(Ok(v)) && v.path@
            == path && v.state == state),
        done_with_error(action, error) <==> (action matches VerifyAction::Done(Err(e)) && e@
            == error),
{
}

/// The bytes of chunks read in turn: none for no chunks, and those of the
/// earlier chunks followed by the last one's.
pub proof fn law_concat_chunks(chunks: Seq<Seq<u8>>, chunk: Seq<u8>, vecs: Seq<Vec<u8>>)
    ensures
        concat_chunks(Seq::<Seq<u8>>::empty()) == Seq::<u8>::empty(),
        concat_chunks(chunks.push(chunk)) == concat_chunks(chunks) + chunk,
        chunk_views(vecs).len() == vecs.len(),
        forall|i: int| 0 <= i < vecs.len() ==> #[trigger] chunk_views(vecs)[i] == vecs[i]@,
{
    assert(chunks.push(chunk).drop_last() =~= chunks);
}

/// A run of reads stops at its first read that `read_step` stops; with no
/// chunks left it has not stopped.
pub proof fn law_bytes_at_stop(remaining: u64, read: Seq<u8>, chunks: Seq<Seq<u8>>)
    ensures
        bytes_at_stop(remaining, read, Seq::<Seq<u8>>::empty()) == None::<Seq<u8>>,
        chunks.len() > 0 ==> (read_step(remaining, read, chunks[0]) matches ReadStep::Stop(b)
            ==> bytes_at_stop(remaining, read, chunks) == Some(b)),
        chunks.len() > 0 ==> (read_step(remaining, read, chunks[0]) matches ReadStep::More(r, b)
            ==> bytes_at_stop(remaining, read, chunks) == bytes_at_stop(r, b, chunks.drop_first())),
{
}

} // verus!
