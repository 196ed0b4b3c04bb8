//! The information needed to reach the service: its URLs and the
//! credential.

use vstd::prelude::*;

use crate::error::Error;
use crate::foreign::join_url;
use crate::foreign::rebase_url;
use crate::foreign::url_parse_error;
use crate::foreign::url_parse_error_of;
use crate::foreign::url_with_path_query;
use crate::foreign::url_with_scheme_path;
use crate::text::append_pair;
use crate::text::appended;

verus! {

/// The default base URL of the REST API.
pub const DEFAULT_API_URL: &'static str = "https://api.polygon.io";
/// The default base URL of the market data stream.
pub const DEFAULT_STREAM_URL: &'static str = "wss://socket.polygon.io";
/// The URL scheme of a streaming session.
pub const STREAM_SCHEME: &'static str = "wss";
/// The URL path of a streaming session.
pub const STREAM_PATH: &'static str = "stocks";
/// The environment variable that holds the base URL of the REST API.
pub const ENV_API_URL: &'static str = "POLYGON_API_URL";
/// The environment variable that holds the base URL of the stream.
pub const ENV_STREAM_URL: &'static str = "POLYGON_STREAM_URL";
/// The environment variable that holds the API key.
pub const ENV_API_KEY: &'static str = "POLYGON_API_KEY";
/// The query parameter that carries the credential.
pub const API_KEY_PARAM: &'static str = "apiKey";

/// A query string with the credential `key` appended as the `apiKey`
/// parameter.
pub open spec fn with_api_key(query: Option<String>, key: Seq<char>) -> Seq<char> {
    appended(
        match query {
            Some(q) => q@,
            None => Seq::empty(),
        },
        API_KEY_PARAM@,
        key,
    )
}

/// A configured value, or the default where none is given.
pub open spec fn or_default(value: Option<String>, default: Seq<char>) -> Seq<char> {
    match value {
        Some(v) => v@,
        None => default,
    }
}

/// The message of the error for a missing API key.
pub open spec fn missing_key_text() -> Seq<char> {
    ENV_API_KEY@ + " environment variable not found"@
}

/// An object encapsulating the information used for working with the API.
#[derive(Clone, Debug, PartialEq)]
pub struct ApiInfo {
    /// The base URL for API requests.
    pub api_url: String,
    /// The base URL for market data streaming.
    pub stream_url: String,
    /// The API key to use for authentication.
    pub api_key: String,
}

impl ApiInfo {
    /// Create an `ApiInfo` object using the given API key and assuming
    /// default API and stream endpoint URLs.
    pub fn new(api_key: &str) -> (r: ApiInfo)
        ensures
            r.api_url@ == DEFAULT_API_URL@,
            r.stream_url@ == DEFAULT_STREAM_URL@,
            r.api_key@ == api_key@,
    {
        ApiInfo {
            api_url: String::from_str(DEFAULT_API_URL),
            stream_url: String::from_str(DEFAULT_STREAM_URL),
            api_key: String::from_str(api_key),
        }
    }

    /// The information given by configured values, such as those of the
    /// environment: a URL that is not given is the default one, a URL
    /// that does not parse is an error (the API URL is checked first),
    /// and a missing API key is an error.
    pub fn from_parts(api_url: Option<String>, stream_url: Option<String>, api_key: Option<String>) -> (r:
        Result<ApiInfo, Error>)
        ensures
            ({
                let api = or_default(api_url, DEFAULT_API_URL@);
                let stream = or_default(stream_url, DEFAULT_STREAM_URL@);
                match url_parse_error_of(api) {
                    Some(e) => r matches Err(Error::Url(d)) && d@ == e,
                    None => match url_parse_error_of(stream) {
                        Some(e) => r matches Err(Error::Url(d)) && d@ == e,
                        None => match api_key {
                            None => r matches Err(Error::Str(t)) && t@ == missing_key_text(),
                            Some(k) => r matches Ok(info) && info.api_url@ == api
                                && info.stream_url@ == stream && info.api_key == k,
                        },
                    },
                }
            }),
    {
        let api_url = match api_url {
            Some(url) => url,
            None => String::from_str(DEFAULT_API_URL),
        };
        if let Some(description) = url_parse_error(api_url.as_str()) {
            return Err(Error::Url(description));
        }
        let stream_url = match stream_url {
            Some(url) => url,
            None => String::from_str(DEFAULT_STREAM_URL),
        };
        if let Some(description) = url_parse_error(stream_url.as_str()) {
            return Err(Error::Url(description));
        }
        match api_key {
            Some(api_key) => Ok(ApiInfo { api_url, stream_url, api_key }),
            None => Err(Error::Str(String::from_str(ENV_API_KEY).concat(" environment variable not found"))),
        }
    }

    /// The query string of a request whose endpoint asks for `query`: that
    /// query with the credential appended as the `apiKey` parameter.
    pub fn request_query(&self, query: Option<String>) -> (r: String)
        ensures
            r@ == with_api_key(query, self.api_key@),
    {
        let base = match query {
            Some(q) => q,
            None => String::new(),
        };
        append_pair(base, API_KEY_PARAM, self.api_key.as_str())
    }

    /// The URL of a request to the endpoint at `path` whose endpoint asks
    /// for `query`: the API base URL with that path, and the query with the
    /// credential appended. A base URL that does not parse is an error.
    pub fn request_url(&self, path: &str, query: Option<String>) -> (r: Result<String, Error>)
        ensures
            match url_with_path_query(self.api_url@, path@, with_api_key(query, self.api_key@)) {
                Ok(u) => r matches Ok(s) && s@ == u,
                Err(e) => r matches Err(Error::Url(d)) && d@ == e,
            },
    {
        let query = self.request_query(query);
        match join_url(self.api_url.as_str(), path, query.as_str()) {
            Ok(url) => Ok(url),
            Err(description) => Err(Error::Url(description)),
        }
    }

    /// The URL of a streaming session: the stream base URL with the scheme
    /// `wss` and the path `/stocks`.
    pub fn session_url(&self) -> (r: Result<String, Error>)
        ensures
            match url_with_scheme_path(self.stream_url@, STREAM_SCHEME@, STREAM_PATH@) {
                Some(u) => r matches Ok(s) && s@ == u,
                None => r matches Err(Error::Str(t)) && t@ == "unable to change URL scheme for "@
                    + self.stream_url@ + ": invalid URL?"@,
            },
    {
        match rebase_url(self.stream_url.as_str(), STREAM_SCHEME, STREAM_PATH) {
            Some(url) => Ok(url),
            None => {
                let text = String::from_str("unable to change URL scheme for ").concat(
                    self.stream_url.as_str(),
                ).concat(": invalid URL?");
                Err(Error::Str(text))
            },
        }
    }
}

} // verus!
