use vstd::prelude::*;

verus! {

/// Access key pair of an AWS account.
#[derive(Debug, Clone)]
pub struct AWSCredentials {
    pub access_key_id: String,
    pub secret_access_key: String,
}

/// Service account key of a GCP project.
#[derive(Debug, Clone)]
pub struct GCPCredentials {
    pub private_key: String,
    pub client_email: String,
    pub project_id: String,
}

/// Application registration of an Azure subscription.
#[derive(Debug, Clone)]
pub struct AzureCredentials {
    pub application_id: String,
    pub secret: String,
    pub subscription_id: String,
    pub directory_id: String,
}

/// The secrets of one cloud provider; exactly one variant is active.
#[derive(Debug, Clone)]
pub enum Credentials {
    GCP(GCPCredentials),
    AWS(AWSCredentials),
    Azure(AzureCredentials),
}

/// A named credential entry: the secrets and the provider label.
#[derive(Debug, Clone)]
pub struct CredentialsProfile {
    pub credentials: Credentials,
    pub cloud_provider: String,
}

/// One row of a deploy profile.
#[derive(Debug, Clone)]
pub struct DeployProfile {
    pub credential_profile: Option<String>,
    pub region: String,
    pub vm_type: String,
}

/// A deploy profile row flattened with the credentials it refers to.
#[derive(Debug, Clone)]
pub struct Config {
    pub credentials: Credentials,
    pub region: String,
    pub cloud_provider: String,
    pub vm_type: String,
}

impl Credentials {
    /// A copy of the secrets, field for field.
    pub fn duplicate(&self) -> (r: Credentials)
        ensures
            r == *self,
    {
        match self {
            Credentials::GCP(c) => Credentials::GCP(GCPCredentials {
                private_key: c.private_key.clone(),
                client_email: c.client_email.clone(),
                project_id: c.project_id.clone(),
            }),
            Credentials::AWS(c) => Credentials::AWS(AWSCredentials {
                access_key_id: c.access_key_id.clone(),
                secret_access_key: c.secret_access_key.clone(),
            }),
            Credentials::Azure(c) => Credentials::Azure(AzureCredentials {
                application_id: c.application_id.clone(),
                secret: c.secret.clone(),
                subscription_id: c.subscription_id.clone(),
                directory_id: c.directory_id.clone(),
            }),
        }
    }
}

impl CredentialsProfile {
    /// A copy of the profile, field for field.
    pub fn duplicate(&self) -> (r: CredentialsProfile)
        ensures
            r == *self,
    {
        CredentialsProfile {
            credentials: self.credentials.duplicate(),
            cloud_provider: self.cloud_provider.clone(),
        }
    }
}

} // verus!
