# debian_s3

Verified core of an S3-backed Debian repository client.

- `src/path.rs`: trimming of `/` from repository paths and the keys that paths map to.
- `src/client.rs`: the repository client, the per-distribution client, compression formats and the errors of object reads.
- `src/writer.rs`: the repository writer, write outcomes, and the step-by-step check of what a bucket holds under a path, which digests the bytes it reads.
- `src/digest.rs`: MD5, SHA-1 and SHA-256 digests (through the `md-5`, `sha1` and `sha2` crates) and digest matching.
- `src/location.rs`: `s3://` locations and their parsing as URLs (through the `url` crate).
- `src/region.rs`: regions and the region of a bucket.
- `src/error.rs`: errors and their messages.
- `src/laws.rs`: properties that relate several operations.
- `app/lib.rs`: the asynchronous S3 requests (AWS SDK), which hand their outcomes to the library.
