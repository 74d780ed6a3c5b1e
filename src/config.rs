//! Configuration of the query service: where the metadata service listens
//! and which bucket holds the data.

use vstd::prelude::*;

verus! {

/// Configuration pertaining to the meta service.
#[derive(Clone, Debug)]
pub struct MetaConfig {
    /// The endpoint that the meta service is listening on.
    pub endpoint: String,
    /// How long to wait for a connection, in seconds.
    pub connect_timeout_seconds: u64,
    /// How long to wait for the answer to a call, in seconds.
    pub timeout_seconds: u64,
}

/// Configuration pertaining to S3.
#[derive(Clone, Debug)]
pub struct S3Config {
    /// An S3 endpoint to use in place of the region's default one.
    pub endpoint: Option<String>,
    /// The name of the bucket containing the data to be queried.
    pub bucket_name: String,
}

/// Configuration for the querier.
#[derive(Clone, Debug)]
pub struct QueryConfig {
    pub meta: MetaConfig,
    pub s3: S3Config,
}

/// The URL of a bucket.
pub open spec fn bucket_url(bucket: Seq<char>) -> Seq<char> {
    "s3://"@ + bucket
}

impl S3Config {
    /// A copy of this configuration.
    pub fn copied(&self) -> (r: S3Config)
        ensures
            r.bucket_name@ == self.bucket_name@,
            r.endpoint is Some <==> self.endpoint is Some,
            r.endpoint matches Some(e) ==> e@ == self.endpoint->Some_0@,
    {
        S3Config {
            endpoint: match &self.endpoint {
                Some(e) => Some(e.clone()),
                None => None,
            },
            bucket_name: self.bucket_name.clone(),
        }
    }

    /// The URL of the bucket that holds the data, `s3://<bucket>`.
    pub fn bucket_url(&self) -> (r: String)
        ensures
            r@ == bucket_url(self.bucket_name@),
    {
        let url = "s3://".to_owned();
        url.concat(self.bucket_name.as_str())
    }
}

/// Hands out connections to the metadata service at the configured endpoint.
pub struct DirectMetaClientProvider {
    config: MetaConfig,
}

impl DirectMetaClientProvider {
    pub fn new(config: MetaConfig) -> (r: Self)
        ensures
            r.endpoint() == config.endpoint@,
            r.connect_timeout() == config.connect_timeout_seconds,
            r.call_timeout() == config.timeout_seconds,
    {
        DirectMetaClientProvider { config }
    }

    pub closed spec fn endpoint(&self) -> Seq<char> {
        self.config.endpoint@
    }

    pub closed spec fn connect_timeout(&self) -> u64 {
        self.config.connect_timeout_seconds
    }

    pub closed spec fn call_timeout(&self) -> u64 {
        self.config.timeout_seconds
    }

    /// The configuration that connections are made with.
    pub fn config(&self) -> (r: &MetaConfig)
        ensures
            r.endpoint@ == self.endpoint(),
            r.connect_timeout_seconds == self.connect_timeout(),
            r.timeout_seconds == self.call_timeout(),
    {
        &self.config
    }
}

} // verus!
