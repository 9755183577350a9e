//! Facebook Graph API credentials shared by every Facebook tool: which
//! setting is missing, and how request URLs are built.
use vstd::prelude::*;
use crate::framework::ToolError;
use crate::text::copy_str;

verus! {

/// Graph API version used when none is configured.
pub const DEFAULT_GRAPH_API_VERSION: &'static str = "v21.0";

/// The real Graph API host.
pub const GRAPH_API_BASE_URL: &'static str = "https://graph.facebook.com";

/// Facebook Graph API credentials, loaded once per tool instance.
pub struct FacebookCredentials {
    page_id: Option<String>,
    access_token: Option<String>,
    business_id: Option<String>,
    graph_api_version: String,
    base_url: String,
}

/// The `Seq<char>` views of an optional string.
pub open spec fn opt_view(o: Option<String>) -> Option<Seq<char>> {
    match o {
        Some(s) => Some(s@),
        None => None,
    }
}

impl FacebookCredentials {
    pub closed spec fn spec_page_id(&self) -> Option<Seq<char>> {
        opt_view(self.page_id)
    }

    pub closed spec fn spec_access_token(&self) -> Option<Seq<char>> {
        opt_view(self.access_token)
    }

    pub closed spec fn spec_business_id(&self) -> Option<Seq<char>> {
        opt_view(self.business_id)
    }

    pub closed spec fn spec_version(&self) -> Seq<char> {
        self.graph_api_version@
    }

    pub closed spec fn spec_base_url(&self) -> Seq<char> {
        self.base_url@
    }

    /// Credentials with every field given.
    pub fn new(
        page_id: Option<String>,
        access_token: Option<String>,
        business_id: Option<String>,
        graph_api_version: String,
        base_url: String,
    ) -> (c: Self)
        ensures
            c.spec_page_id() == opt_view(page_id),
            c.spec_access_token() == opt_view(access_token),
            c.spec_business_id() == opt_view(business_id),
            c.spec_version() == graph_api_version@,
            c.spec_base_url() == base_url@,
    {
        FacebookCredentials { page_id, access_token, business_id, graph_api_version, base_url }
    }

    /// Credentials from the values of `FACEBOOK_PAGE_ID`,
    /// `FACEBOOK_PAGE_ACCESS_TOKEN`, `FACEBOOK_BUSINESS_ID` and
    /// `FACEBOOK_GRAPH_API_VERSION`, talking to the real Graph API host; the
    /// default version stands in for a missing one.
    pub fn from_env_values(
        page_id: Option<String>,
        access_token: Option<String>,
        business_id: Option<String>,
        graph_api_version: Option<String>,
    ) -> (c: Self)
        ensures
            c.spec_page_id() == opt_view(page_id),
            c.spec_access_token() == opt_view(access_token),
            c.spec_business_id() == opt_view(business_id),
            c.spec_version() == (match graph_api_version {
                Some(v) => v@,
                None => DEFAULT_GRAPH_API_VERSION@,
            }),
            c.spec_base_url() == GRAPH_API_BASE_URL@,
    {
        let version = match graph_api_version {
            Some(v) => v,
            None => copy_str(DEFAULT_GRAPH_API_VERSION),
        };
        FacebookCredentials {
            page_id,
            access_token,
            business_id,
            graph_api_version: version,
            base_url: copy_str(GRAPH_API_BASE_URL),
        }
    }

    /// Fully populated canned credentials pointed at `base_url`.
    pub fn for_test(base_url: &str) -> (c: Self)
        ensures
            c.spec_page_id() == Some("page_1"@),
            c.spec_access_token() == Some("test-page-token"@),
            c.spec_business_id() == Some("biz_1"@),
            c.spec_version() == DEFAULT_GRAPH_API_VERSION@,
            c.spec_base_url() == base_url@,
    {
        FacebookCredentials {
            page_id: Some(copy_str("page_1")),
            access_token: Some(copy_str("test-page-token")),
            business_id: Some(copy_str("biz_1")),
            graph_api_version: copy_str(DEFAULT_GRAPH_API_VERSION),
            base_url: copy_str(base_url),
        }
    }

    /// The same credentials without an access token.
    pub fn without_access_token(self) -> (c: Self)
        ensures
            c.spec_page_id() == self.spec_page_id(),
            c.spec_access_token() is None,
            c.spec_business_id() == self.spec_business_id(),
            c.spec_version() == self.spec_version(),
            c.spec_base_url() == self.spec_base_url(),
    {
        FacebookCredentials { access_token: None, ..self }
    }

    /// The Page id, or the error naming `FACEBOOK_PAGE_ID`.
    pub fn page_id(&self) -> (r: Result<&str, ToolError>)
        ensures
            match r {
                Ok(s) => self.spec_page_id() == Some(s@),
                Err(e) => self.spec_page_id() is None && e.message@
                    == "FACEBOOK_PAGE_ID environment variable not set"@,
            },
    {
        match &self.page_id {
            Some(s) => Ok(s.as_str()),
            None => Err(ToolError::msg("FACEBOOK_PAGE_ID environment variable not set")),
        }
    }

    /// The Page access token, or the error naming `FACEBOOK_PAGE_ACCESS_TOKEN`.
    pub fn access_token(&self) -> (r: Result<&str, ToolError>)
        ensures
            match r {
                Ok(s) => self.spec_access_token() == Some(s@),
                Err(e) => self.spec_access_token() is None && e.message@
                    == "FACEBOOK_PAGE_ACCESS_TOKEN environment variable not set"@,
            },
    {
        match &self.access_token {
            Some(s) => Ok(s.as_str()),
            None => Err(ToolError::msg("FACEBOOK_PAGE_ACCESS_TOKEN environment variable not set")),
        }
    }

    /// The Business id, or the error naming `FACEBOOK_BUSINESS_ID`.
    pub fn business_id(&self) -> (r: Result<&str, ToolError>)
        ensures
            match r {
                Ok(s) => self.spec_business_id() == Some(s@),
                Err(e) => self.spec_business_id() is None && e.message@
                    == "FACEBOOK_BUSINESS_ID environment variable not set"@,
            },
    {
        match &self.business_id {
            Some(s) => Ok(s.as_str()),
            None => Err(ToolError::msg("FACEBOOK_BUSINESS_ID environment variable not set")),
        }
    }

    /// The full Graph API URL for `path`: `{base_url}/{version}/{path}`.
    pub fn graph_url(&self, path: &str) -> (r: String)
        ensures
            r@ == self.spec_base_url() + "/"@ + self.spec_version() + "/"@ + path@,
    {
        let mut r = self.base_url.clone();
        r.append("/");
        r.append(self.graph_api_version.as_str());
        r.append("/");
        r.append(path);
        r
    }
}

} // verus!
