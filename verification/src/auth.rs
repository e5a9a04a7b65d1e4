//! Authorization header construction.
//!
//! A client attaches exactly one authorization header variant, or none,
//! chosen from a closed three-way selector. The selector is matched
//! exhaustively, so a new variant is a visible change everywhere it is
//! handled.

use vstd::prelude::*;
use vstd::string::StringExecFns;
use vstd::string::StrSliceExecFns;

verus! {

use crate::error::Error;

/// The method of authorization for the client, with its secret token.
#[derive(Debug, Clone)]
pub enum ClientAuthorization {
    /// Use a target token that is unique per target.
    TargetToken(String),
    /// Use a common gateway token shared by all targets.
    GatewayToken(String),
    /// Do not send an authorization header.
    NoToken,
}

/// Whether a character may appear in an HTTP header value: horizontal tab,
/// visible ASCII or space, or any character beyond ASCII.
pub open spec fn valid_header_value_char(c: char) -> bool {
    c as u32 == 9 || (32 <= c as u32 && c as u32 <= 126) || c as u32 >= 128
}

/// Whether a string may stand as an HTTP header value.
pub open spec fn valid_header_value(s: Seq<char>) -> bool {
    forall|i: int| 0 <= i < s.len() ==> valid_header_value_char(s[i])
}

/// Whether the selector's token, if it has one, is legal in a header value.
pub open spec fn token_valid(a: ClientAuthorization) -> bool {
    match a {
        ClientAuthorization::TargetToken(t) => valid_header_value(t@),
        ClientAuthorization::GatewayToken(t) => valid_header_value(t@),
        ClientAuthorization::NoToken => true,
    }
}

/// The authorization header value each selector asks for: exactly one
/// header, carrying the matching prefix before the token, or none at all.
pub open spec fn auth_header_view(a: ClientAuthorization) -> Option<Seq<char>> {
    match a {
        ClientAuthorization::TargetToken(t) => Some("TargetToken "@ + t@),
        ClientAuthorization::GatewayToken(t) => Some("GatewayToken "@ + t@),
        ClientAuthorization::NoToken => None,
    }
}

/// Check that every character of `s` is legal in an HTTP header value.
fn check_header_value(s: &str) -> (r: bool)
    ensures
        r == valid_header_value(s@),
{
    let n = s.unicode_len();
    for i in 0..n
        invariant
            n == s@.len(),
            forall|j: int| 0 <= j < i ==> valid_header_value_char(s@[j]),
    {
        let c = s.get_char(i);
        let v = c as u32;
        if !(v == 9 || (32 <= v && v <= 126) || v >= 128) {
            return false;
        }
    }
    true
}

impl ClientAuthorization {
    /// Build the authorization header value this selector asks for: exactly
    /// one header value — `TargetToken <token>` or `GatewayToken <token>` —
    /// or none. Fails when the token holds characters that are illegal in an
    /// HTTP header value.
    pub fn header_value(&self) -> (r: Result<Option<String>, Error>)
        ensures
            match r {
                Ok(h) => token_valid(*self) && h.deep_view() == auth_header_view(*self),
                Err(e) => !token_valid(*self) && e == Error::InvalidToken,
            },
    {
        match self {
            ClientAuthorization::TargetToken(token) => {
                if !check_header_value(token.as_str()) {
                    return Err(Error::InvalidToken);
                }
                let mut h = String::new();
                h.append("TargetToken ");
                h.append(token.as_str());
                proof {
                    assert(h@ =~= "TargetToken "@ + token@);
                }
                Ok(Some(h))
            },
            ClientAuthorization::GatewayToken(token) => {
                if !check_header_value(token.as_str()) {
                    return Err(Error::InvalidToken);
                }
                let mut h = String::new();
                h.append("GatewayToken ");
                h.append(token.as_str());
                proof {
                    assert(h@ =~= "GatewayToken "@ + token@);
                }
                Ok(Some(h))
            },
            ClientAuthorization::NoToken => Ok(None),
        }
    }
}

} // verus!
