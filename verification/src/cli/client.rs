//! What an API client for a command is made of: which API it talks to and
//! with which credential.

use vstd::prelude::*;

verus! {

/// The API a client talks to.
#[derive(Debug, PartialEq, Eq)]
pub enum ApiBase {
    /// Bitbucket Cloud's API at `api.bitbucket.org`.
    Cloud,
    /// A Bitbucket Server/Data Center instance.
    Server { host: String },
}

/// The credential a client sends.
#[derive(Debug, PartialEq, Eq)]
pub enum Credential {
    /// An OAuth access token, without refresh token or expiry.
    OAuth { access_token: String },
    /// A personal access token.
    PersonalAccessToken { token: String },
}

/// A client: the API it talks to and its credential.
#[derive(Debug, PartialEq, Eq)]
pub struct ClientSpec {
    pub base: ApiBase,
    pub credential: Credential,
}

/// The features that only Bitbucket Cloud has.
#[derive(Debug, Clone, Copy, PartialEq, Eq, Structural)]
pub enum CloudFeature {
    Artifacts,
    Deployments,
    Issues,
    Pipelines,
    PipelineVariables,
}

/// A Cloud client with an OAuth token.
pub open spec fn cloud_oauth(token: String) -> ClientSpec {
    ClientSpec { base: ApiBase::Cloud, credential: Credential::OAuth { access_token: token } }
}

/// A Cloud client with a personal access token.
pub open spec fn cloud_pat(token: String) -> ClientSpec {
    ClientSpec { base: ApiBase::Cloud, credential: Credential::PersonalAccessToken { token } }
}

} // verus!
