//! The client identity: base URL and authorization header.
//!
//! A client owns the base identity `server/tenant/controller/controller_id`
//! and the authorization header the transport must attach to every request.
//! It is immutable after construction; the unverified glue that performs
//! the HTTP requests reads the base URL and the header from it.

use vstd::prelude::*;

verus! {

use crate::auth::{auth_header_view, token_valid, ClientAuthorization};
use crate::error::Error;
use crate::http_url::{joined_base, url_parse, url_string, HttpUrl};

/// A device-integration client: the root poll URL together with the
/// authorization header to attach to every request.
#[derive(Debug, Clone)]
pub struct Client {
    /// The root poll URL: the host URL joined with
    /// `{tenant}/controller/v1/{controller_id}`.
    pub base_url: HttpUrl,
    /// The single authorization header value to attach, if any.
    pub auth_header: Option<String>,
}

impl Client {
    /// Create a new client.
    ///
    /// Joins `url` with the path `{tenant}/controller/v1/{controller_id}`
    /// into the base URL, and builds the authorization header the selector
    /// asks for. Fails with a URL-parse error when `url` is not an absolute
    /// hierarchical URL, and with a token error — checked only after the URL
    /// — when the secret holds characters that are illegal in an HTTP header
    /// value.
    pub fn new(
        url: &str,
        tenant: &str,
        controller_id: &str,
        authorization: ClientAuthorization,
    ) -> (r: Result<Client, Error>)
        ensures
            match r {
                Ok(c) => {
                    &&& url_parse(url@) matches Some(host)
                    &&& token_valid(authorization)
                    &&& c.base_url@ == joined_base(host, tenant@, controller_id@)
                    &&& c.auth_header.deep_view() == auth_header_view(authorization)
                },
                Err(e) => {
                    ||| (url_parse(url@) is None && e == Error::ParseUrlError)
                    ||| (url_parse(url@) is Some && !token_valid(authorization)
                        && e == Error::InvalidToken)
                },
            },
    {
        let host = match crate::http_url::parse_http_url(url) {
            Ok(h) => h,
            Err(e) => {
                return Err(e);
            },
        };
        let base_url = host.join_base(tenant, controller_id);
        let auth_header = match authorization.header_value() {
            Ok(h) => h,
            Err(e) => {
                return Err(e);
            },
        };
        Ok(Client { base_url, auth_header })
    }

    /// The root poll URL, rendered as a string for the transport.
    pub fn base_url_string(&self) -> (r: String)
        ensures
            r@ == url_string(self.base_url@),
    {
        self.base_url.to_url_string()
    }

    /// The authorization header value to attach to every request, if any.
    pub fn authorization_header(&self) -> (r: &Option<String>)
        ensures
            r == &self.auth_header,
    {
        &self.auth_header
    }
}

} // verus!
