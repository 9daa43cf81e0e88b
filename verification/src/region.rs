//! AWS regions, and the region of a bucket as the store reports it.
use crate::error::{s3_error_message, s3_error_text, DebianError, ErrorModel, FailureModel, IoErrorKind, IoFailure};
use vstd::prelude::*;

verus! {

/// An AWS region, held by its name.
#[derive(Clone, Debug, PartialEq, Eq)]
pub struct Region {
    name: String,
}

impl View for Region {
    type V = Seq<char>;

    closed spec fn view(&self) -> Seq<char> {
        self.name@
    }
}

/// The name of the region used where none is configured or reported.
pub open spec fn default_region_name() -> Seq<char> {
    "us-east-1"@
}

impl Region {
    /// The region of the given name.
    pub fn new(name: &str) -> (r: Region)
        ensures
            r@ == name@,
    {
        Region { name: String::from_str(name) }
    }

    /// The region's name.
    pub fn as_str(&self) -> (r: &str)
        ensures
            r@ == self@,
    {
        self.name.as_str()
    }

    /// `us-east-1`, the region used where none is configured or reported.
    pub fn default_region() -> (r: Region)
        ensures
            r@ == default_region_name(),
    {
        Region::new("us-east-1")
    }
}

/// The name of the region that a bucket's location constraint denotes: the
/// legacy constraint `EU` denotes `eu-west-1`; any other constraint is the
/// region's name itself; a bucket that reports none is in `us-east-1`.
pub open spec fn region_of_location(constraint: Option<Seq<char>>) -> Seq<char> {
    match constraint {
        Some(c) => if c == "EU"@ {
            "eu-west-1"@
        } else {
            c
        },
        None => default_region_name(),
    }
}

/// The region that a bucket's location constraint denotes: `eu-west-1` for
/// the legacy constraint `EU`, the constraint itself for any other, and
/// `us-east-1` where the bucket reports none.
pub fn region_from_location(constraint: Option<&str>) -> (r: Region)
    ensures
        r@ == region_of_location(
            match constraint {
                Some(c) => Some(c@),
                None => None,
            },
        ),
{
    match constraint {
        Some(c) => {
            let legacy_eu = String::from_str(c) == String::from_str("EU");
            if legacy_eu {
                Region::new("eu-west-1")
            } else {
                Region::new(c)
            }
        },
        None => Region::default_region(),
    }
}

/// The region of a bucket, from the answer to its bucket-location request:
/// the region that the reported location constraint denotes.
/// A failed request is an I/O error of kind `Other` whose message is
/// `S3 error: ` and the failure's description.
pub fn bucket_region_from_response(response: Result<Option<String>, String>) -> (r: Result<
    Region,
    DebianError,
>)
    ensures
        match response {
            Ok(c) => r matches Ok(reg) && reg@ == region_of_location(
                match c {
                    Some(c) => Some(c@),
                    None => None,
                },
            ),
            Err(d) => r matches Err(e) && e@ == ErrorModel::Io(
                FailureModel::Described(IoErrorKind::Other, s3_error_message(d@)),
            ),
        },
{
    match response {
        Ok(Some(c)) => Ok(region_from_location(Some(c.as_str()))),
        Ok(None) => Ok(region_from_location(None)),
        Err(d) => Err(
            DebianError::Io(
                IoFailure::Described {
                    kind: IoErrorKind::Other,
                    message: s3_error_text(d.as_str()),
                },
            ),
        ),
    }
}

} // verus!
