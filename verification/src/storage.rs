//! The pluggable storage backends: the reference object-store backend, which
//! addresses an uploaded archive under a scheme-qualified path, and the
//! deliberately unimplemented placeholders, whose upload always fails.

use vstd::prelude::*;
use crate::text::str_eq;

verus! {

/// A storage backend: it can say, for an object key, the remote path the
/// archive will be addressable under — or fail, before any transfer is
/// attempted. The byte transfer itself is the caller's I/O concern; a
/// transfer failure is reported to the pipeline as an upload failure.
pub trait Storage {
    /// What the backend yields for an object key: the addressable remote
    /// path, or the backend's failure text.
    spec fn spec_destination(&self, object_key: Seq<char>) -> Result<Seq<char>, Seq<char>>;

    /// The remote path `object_key` will be addressable under, or the
    /// backend's failure.
    fn destination(&self, object_key: &str) -> (r: Result<String, String>)
        ensures
            (r matches Ok(p) ==> self.spec_destination(object_key@) matches Ok(q) && p@ == q),
            (r matches Err(e) ==> self.spec_destination(object_key@) matches Err(f) && e@ == f),
    ;
}

/// The reference object-store backend: archives become addressable under
/// `gs://<bucket>/<objectKey>`. The authenticated client handle lives with
/// the caller that performs the transfer; the backend itself holds only the
/// bucket name.
#[derive(Debug)]
pub struct GcsStorage {
    pub bucket: String,
}

impl Storage for GcsStorage {
    open spec fn spec_destination(&self, object_key: Seq<char>) -> Result<Seq<char>, Seq<char>> {
        Ok("gs://"@ + self.bucket@ + "/"@ + object_key)
    }

    fn destination(&self, object_key: &str) -> (r: Result<String, String>) {
        let mut out = String::new();
        out.append("gs://");
        out.append(self.bucket.as_str());
        out.append("/");
        out.append(object_key);
        proof {
            assert(out@ =~= "gs://"@ + self.bucket@ + "/"@ + object_key@);
        }
        Ok(out)
    }
}

/// Placeholder backend: selectable, but its upload always fails explicitly.
#[derive(Debug)]
pub struct S3Storage;

impl Storage for S3Storage {
    open spec fn spec_destination(&self, object_key: Seq<char>) -> Result<Seq<char>, Seq<char>> {
        Err("AWS S3 storage is not yet implemented"@)
    }

    fn destination(&self, object_key: &str) -> (r: Result<String, String>) {
        Err(String::from_str("AWS S3 storage is not yet implemented"))
    }
}

/// Placeholder backend: selectable, but its upload always fails explicitly.
#[derive(Debug)]
pub struct AzureStorage;

impl Storage for AzureStorage {
    open spec fn spec_destination(&self, object_key: Seq<char>) -> Result<Seq<char>, Seq<char>> {
        Err("Azure Blob storage is not yet implemented"@)
    }

    fn destination(&self, object_key: &str) -> (r: Result<String, String>) {
        Err(String::from_str("Azure Blob storage is not yet implemented"))
    }
}

/// The unimplemented backends never silently succeed: their outcome is a
/// failure for every object key.
pub proof fn lemma_placeholder_backends_always_fail(
    s3: S3Storage,
    azure: AzureStorage,
    object_key: Seq<char>,
)
    ensures
        s3.spec_destination(object_key) is Err,
        azure.spec_destination(object_key) is Err,
{
}

/// The reference backend always addresses an object under its
/// scheme-qualified path, for every bucket and key.
pub proof fn lemma_reference_backend_path(gcs: GcsStorage, object_key: Seq<char>)
    ensures
        gcs.spec_destination(object_key) == Ok::<Seq<char>, Seq<char>>(
            "gs://"@ + gcs.bucket@ + "/"@ + object_key,
        ),
{
}

/// The configured backends, one per provider.
#[derive(Debug)]
pub enum BackendChoice {
    Gcs(GcsStorage),
    S3(S3Storage),
    Azure(AzureStorage),
}

/// Resolves the configured provider name into a backend, once at startup: the
/// reference provider needs its bucket configured; an unrecognized provider
/// is a fatal configuration error.
pub fn select_backend(provider: &str, gcs_bucket: &Option<String>) -> (r: Result<
    BackendChoice,
    String,
>)
    ensures
        provider@ == "gcs"@ ==> (match gcs_bucket {
            Some(b) => r matches Ok(c) && c matches BackendChoice::Gcs(g) && g.bucket@ == b@,
            None => r matches Err(e) && e@
                == "STORAGE_PROVIDER is 'gcs' but GCS_BUCKET is not set"@,
        }),
        provider@ == "s3"@ ==> (r matches Ok(c) && c matches BackendChoice::S3(_)),
        provider@ == "azure"@ ==> (r matches Ok(c) && c matches BackendChoice::Azure(_)),
        provider@ != "gcs"@ && provider@ != "s3"@ && provider@ != "azure"@ ==> (r matches Err(e)
            && e@ == "Unsupported storage provider"@),
{
    proof {
        reveal_strlit("gcs");
        reveal_strlit("s3");
        reveal_strlit("azure");
    }
    if str_eq(provider, "gcs") {
        assert("gcs"@.len() == 3 && "s3"@.len() == 2 && "azure"@.len() == 5);
        assert(provider@ != "s3"@);
        assert(provider@ != "azure"@);
        match gcs_bucket {
            Some(b) => {
                let g = GcsStorage { bucket: b.clone() };
                Ok(BackendChoice::Gcs(g))
            },
            None => Err(String::from_str("STORAGE_PROVIDER is 'gcs' but GCS_BUCKET is not set")),
        }
    } else if str_eq(provider, "s3") {
        assert("s3"@.len() == 2 && "azure"@.len() == 5);
        assert(provider@ != "azure"@);
        Ok(BackendChoice::S3(S3Storage))
    } else if str_eq(provider, "azure") {
        Ok(BackendChoice::Azure(AzureStorage))
    } else {
        Err(String::from_str("Unsupported storage provider"))
    }
}

} // verus!
