//! The configuration of the S3-compatible object store.
//!
//! The client itself lives at the unverified edge; the pipeline only
//! carries the configuration and fixes the presign lifetime.

use vstd::prelude::*;

verus! {

/// The configuration of the S3 bucket.
#[derive(Debug)]
pub struct Config {
    /// S3 key.
    pub key_id: String,

    /// S3 secret key.
    pub secret: String,

    /// S3 endpoint.
    pub endpoint: String,

    /// S3 region.
    pub region: String,

    /// S3 bucket.
    pub bucket: String,
}

impl Clone for Config {
    /// A clone of a configuration equals the configuration.
    fn clone(&self) -> (res: Config)
        ensures
            res == *self,
    {
        Config {
            key_id: self.key_id.clone(),
            secret: self.secret.clone(),
            endpoint: self.endpoint.clone(),
            region: self.region.clone(),
            bucket: self.bucket.clone(),
        }
    }
}

/// The lifetime of a presigned URL, in seconds.
pub fn presign_ttl_secs() -> (r: u64)
    ensures
        r == 3600,
{
    3600
}

} // verus!
