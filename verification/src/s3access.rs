//! Trusted declarations for the storage client.
//!
//! A bucket handle is an opaque client bound to one bucket name, the shared
//! storage endpoint and shared credentials. It is built once per configured
//! site at startup and owned by the site registry; the streaming read itself
//! is issued at the process edge, outside this library.

use vstd::prelude::*;

verus! {

#[verifier::external_type_specification]
#[verifier::external_body]
pub struct ExBucket(s3::Bucket);

#[verifier::external_type_specification]
#[verifier::external_body]
pub struct ExRegion(s3::Region);

#[verifier::external_type_specification]
#[verifier::external_body]
pub struct ExCredentials(s3::creds::Credentials);

/// Relies on `s3::Region::Custom`: carries the given region name and endpoint
/// URL unchanged into the region value the client is built from.
#[verifier::external_body]
pub fn custom_region(region: &str, endpoint: &str) -> s3::Region {
    s3::Region::Custom { region: region.to_owned(), endpoint: endpoint.to_owned() }
}

/// Relies on `s3::Bucket::new` (and `Bucket::with_path_style`): builds a
/// client bound to the named bucket, the given region and the given
/// credentials, with path-style addressing; no request is issued yet.
#[verifier::external_body]
pub fn new_bucket(name: &str, region: &s3::Region, creds: &s3::creds::Credentials) -> Result<
    s3::Bucket,
    String,
> {
    match s3::Bucket::new(name, region.clone(), creds.clone()) {
        Ok(b) => Ok(*b.with_path_style()),
        Err(e) => Err(e.to_string()),
    }
}

} // verus!
