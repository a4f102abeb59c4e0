//! The credential of the analysis endpoint, as the credential store reports it.
use vstd::prelude::*;
use crate::error::ReportError;

verus! {

/// The service under which the credential is stored.
pub const SERVICE: &'static str = "com.y-migita.pasha-log";

/// The account under which the credential is stored.
pub const ACCOUNT: &'static str = "VERCEL_API_KEY";

/// What the credential store answered to a lookup.
#[derive(Clone, Debug)]
pub enum SecretLookup {
    Found(String),
    /// No credential is stored.
    Missing,
    /// The store failed; its description.
    Failed(String),
}

/// What the credential store answered to a removal.
#[derive(Clone, Debug)]
pub enum SecretRemoval {
    Removed,
    /// No credential was stored.
    Missing,
    /// The store failed; its description.
    Failed(String),
}

/// The credential, which the analysis cannot do without.
pub fn get_vercel_api_key(lookup: SecretLookup) -> (r: Result<String, ReportError>)
    ensures
        match lookup {
            SecretLookup::Found(k) => r == Ok::<String, ReportError>(k),
            SecretLookup::Missing => r == Err::<String, ReportError>(ReportError::CredentialMissing),
            SecretLookup::Failed(d) => r == Err::<String, ReportError>(
                ReportError::CredentialStore(d),
            ),
        },
{
    match lookup {
        SecretLookup::Found(k) => Ok(k),
        SecretLookup::Missing => Err(ReportError::CredentialMissing),
        SecretLookup::Failed(d) => Err(ReportError::CredentialStore(d)),
    }
}

/// Whether a credential is stored; a store failure is passed on.
pub fn has_vercel_api_key(lookup: SecretLookup) -> (r: Result<bool, ReportError>)
    ensures
        match lookup {
            SecretLookup::Found(_) => r == Ok::<bool, ReportError>(true),
            SecretLookup::Missing => r == Ok::<bool, ReportError>(false),
            SecretLookup::Failed(d) => r == Err::<bool, ReportError>(
                ReportError::CredentialStore(d),
            ),
        },
{
    match lookup {
        SecretLookup::Found(_) => Ok(true),
        SecretLookup::Missing => Ok(false),
        SecretLookup::Failed(d) => Err(ReportError::CredentialStore(d)),
    }
}

/// The outcome of removing the credential: removing one that is not there
/// succeeds too.
pub fn delete_vercel_api_key(removal: SecretRemoval) -> (r: Result<(), ReportError>)
    ensures
        match removal {
            SecretRemoval::Failed(d) => r == Err::<(), ReportError>(
                ReportError::CredentialStore(d),
            ),
            _ => r == Ok::<(), ReportError>(()),
        },
{
    match removal {
        SecretRemoval::Failed(d) => Err(ReportError::CredentialStore(d)),
        _ => Ok(()),
    }
}

} // verus!
