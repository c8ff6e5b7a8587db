//! Startup configuration: the validated settings the process runs with. The
//! caller reads the raw environment values; validation and defaulting happen
//! here, and a violation is a fatal startup error.

use vstd::prelude::*;
use crate::text::str_eq;

verus! {

/// The process configuration, read once at startup and fixed thereafter.
#[derive(Debug)]
pub struct Config {
    pub database_url: String,
    pub storage_provider: String,
    pub gcs_bucket: Option<String>,
    pub aws_s3_bucket: Option<String>,
    pub azure_blob_container: Option<String>,
}

impl Config {
    /// Validates the raw configuration values: the database URL is required;
    /// the storage provider defaults to the reference one; the selected
    /// provider's bucket or container must be present. Exactly the violations
    /// stated here are rejected, each with its fixed message.
    pub fn from_values(
        database_url: Option<String>,
        storage_provider: Option<String>,
        gcs_bucket: Option<String>,
        aws_s3_bucket: Option<String>,
        azure_blob_container: Option<String>,
    ) -> (r: Result<Config, String>)
        ensures
            database_url is None ==> (r matches Err(e) && e@ == "DATABASE_URL must be set"@),
            database_url matches Some(d) ==> {
                let provider = match storage_provider {
                    Some(p) => p@,
                    None => "gcs"@,
                };
                if provider == "gcs"@ && gcs_bucket is None {
                    r matches Err(e) && e@ == "STORAGE_PROVIDER is 'gcs' but GCS_BUCKET is not set"@
                } else if provider == "s3"@ && aws_s3_bucket is None {
                    r matches Err(e) && e@
                        == "STORAGE_PROVIDER is 's3' but AWS_S3_BUCKET is not set"@
                } else if provider == "azure"@ && azure_blob_container is None {
                    r matches Err(e) && e@
                        == "STORAGE_PROVIDER is 'azure' but AZURE_BLOB_CONTAINER is not set"@
                } else {
                    r matches Ok(c) && c.database_url@ == d@ && c.storage_provider@ == provider
                        && c.gcs_bucket == gcs_bucket && c.aws_s3_bucket == aws_s3_bucket
                        && c.azure_blob_container == azure_blob_container
                }
            },
    {
        let database_url = match database_url {
            Some(d) => d,
            None => {
                return Err(String::from_str("DATABASE_URL must be set"));
            },
        };
        let storage_provider = match storage_provider {
            Some(p) => p,
            None => String::from_str("gcs"),
        };
        if str_eq(storage_provider.as_str(), "gcs") && gcs_bucket.is_none() {
            return Err(String::from_str("STORAGE_PROVIDER is 'gcs' but GCS_BUCKET is not set"));
        }
        if str_eq(storage_provider.as_str(), "s3") && aws_s3_bucket.is_none() {
            return Err(String::from_str("STORAGE_PROVIDER is 's3' but AWS_S3_BUCKET is not set"));
        }
        if str_eq(storage_provider.as_str(), "azure") && azure_blob_container.is_none() {
            return Err(
                String::from_str("STORAGE_PROVIDER is 'azure' but AZURE_BLOB_CONTAINER is not set"),
            );
        }
        Ok(
            Config {
                database_url,
                storage_provider,
                gcs_bucket,
                aws_s3_bucket,
                azure_blob_container,
            },
        )
    }
}

} // verus!
