//! The remote service's endpoints, by national cloud.

use vstd::prelude::*;

verus! {

/// Which national cloud the backend talks to.
#[derive(Debug, Clone, Copy, PartialEq, Eq, Structural)]
pub enum ApiType {
    Common,
    Consumers,
    Organizations,
    ChinaApi,
}

/// The authorization endpoint of each cloud.
pub open spec fn spec_auth_url(api: ApiType) -> Seq<char> {
    match api {
        ApiType::Common => "https://login.microsoftonline.com/common/oauth2/v2.0/authorize"@,
        ApiType::Consumers => "https://login.microsoftonline.com/consumers/oauth2/v2.0/authorize"@,
        ApiType::Organizations => "https://login.microsoftonline.com/organizations/oauth2/v2.0/authorize"@,
        ApiType::ChinaApi => "https://login.chinacloudapi.cn/common/oauth2/v2.0/authorize"@,
    }
}

/// The token endpoint of each cloud.
pub open spec fn spec_token_url(api: ApiType) -> Seq<char> {
    match api {
        ApiType::Common => "https://login.microsoftonline.com/common/oauth2/v2.0/token"@,
        ApiType::Consumers => "https://login.microsoftonline.com/consumers/oauth2/v2.0/token"@,
        ApiType::Organizations => "https://login.microsoftonline.com/organizations/oauth2/v2.0/token"@,
        ApiType::ChinaApi => "https://login.chinacloudapi.cn/common/oauth2/v2.0/token"@,
    }
}

/// The graph endpoint of each cloud.
pub open spec fn spec_graph_url(api: ApiType) -> Seq<char> {
    match api {
        ApiType::Common => "https://graph.microsoft.com/v1.0"@,
        ApiType::Consumers => "https://graph.microsoft.com/v1.0"@,
        ApiType::Organizations => "https://graph.microsoft.com/v1.0"@,
        ApiType::ChinaApi => "https://microsoftgraph.chinacloudapi.cn/v1.0"@,
    }
}

impl ApiType {
    /// The endpoint the interactive authorization flow starts at.
    pub fn get_auth_url(&self) -> (r: &'static str)
        ensures
            r@ == spec_auth_url(*self),
    {
        match self {
            ApiType::Common => "https://login.microsoftonline.com/common/oauth2/v2.0/authorize",
            ApiType::Consumers => "https://login.microsoftonline.com/consumers/oauth2/v2.0/authorize",
            ApiType::Organizations => "https://login.microsoftonline.com/organizations/oauth2/v2.0/authorize",
            ApiType::ChinaApi => "https://login.chinacloudapi.cn/common/oauth2/v2.0/authorize",
        }
    }

    /// The endpoint tokens are exchanged at.
    pub fn get_token_url(&self) -> (r: &'static str)
        ensures
            r@ == spec_token_url(*self),
    {
        match self {
            ApiType::Common => "https://login.microsoftonline.com/common/oauth2/v2.0/token",
            ApiType::Consumers => "https://login.microsoftonline.com/consumers/oauth2/v2.0/token",
            ApiType::Organizations => "https://login.microsoftonline.com/organizations/oauth2/v2.0/token",
            ApiType::ChinaApi => "https://login.chinacloudapi.cn/common/oauth2/v2.0/token",
        }
    }

    /// The endpoint drive requests go to.
    pub fn get_graph_url(&self) -> (r: &'static str)
        ensures
            r@ == spec_graph_url(*self),
    {
        match self {
            ApiType::Common => "https://graph.microsoft.com/v1.0",
            ApiType::Consumers => "https://graph.microsoft.com/v1.0",
            ApiType::Organizations => "https://graph.microsoft.com/v1.0",
            ApiType::ChinaApi => "https://microsoftgraph.chinacloudapi.cn/v1.0",
        }
    }
}

} // verus!
