//! The result of one poll cycle.
//!
//! A poll reply is the parsed envelope the server answers a poll with: an
//! optional polling-interval string and optional links to a pending
//! deployment, confirmation or cancel action. The absence of a link is a
//! valid outcome — "no action pending" — and callers branch on link
//! presence, not on errors. The envelope holds links only; resolving one
//! into action data is a fresh fetch by the transport each time.

use vstd::prelude::*;
use vstd::string::StrSliceExecFns;

verus! {

use crate::confirmation_base::ConfirmationRequest;
use crate::error::Error;

/// Whether `c` is a decimal digit.
pub open spec fn is_digit(c: char) -> bool {
    48 <= c as u32 <= 57
}

/// The value of a decimal digit.
pub open spec fn digit_val(c: char) -> int {
    c as u32 - 48
}

/// Whether `s` has the documented polling-interval format `HH:MM:SS`:
/// two digits each, separated by colons, minutes and seconds below sixty.
pub open spec fn valid_sleep(s: Seq<char>) -> bool {
    &&& s.len() == 8
    &&& is_digit(s[0]) && is_digit(s[1])
    &&& s[2] == ':'
    &&& is_digit(s[3]) && is_digit(s[4])
    &&& s[5] == ':'
    &&& is_digit(s[6]) && is_digit(s[7])
    &&& digit_val(s[3]) * 10 + digit_val(s[4]) < 60
    &&& digit_val(s[6]) * 10 + digit_val(s[7]) < 60
}

/// The number of seconds a valid `HH:MM:SS` interval string declares.
pub open spec fn sleep_seconds(s: Seq<char>) -> int {
    (digit_val(s[0]) * 10 + digit_val(s[1])) * 3600
        + (digit_val(s[3]) * 10 + digit_val(s[4])) * 60
        + (digit_val(s[6]) * 10 + digit_val(s[7]))
}

/// Read a decimal digit, or fail.
fn digit(c: char) -> (r: Result<u64, Error>)
    ensures
        match r {
            Ok(v) => is_digit(c) && v == digit_val(c),
            Err(e) => !is_digit(c) && e == Error::InvalidSleep,
        },
{
    let v = c as u32;
    if 48 <= v && v <= 57 {
        Ok((v - 48) as u64)
    } else {
        Err(Error::InvalidSleep)
    }
}

/// One poll reply: the envelope of links and the polling interval the
/// server declared, as it stands after wire parsing.
#[derive(Debug, Clone)]
pub struct Reply {
    /// The declared polling interval, `HH:MM:SS`, if the server sent one.
    pub sleep: Option<String>,
    /// Link to a pending deployment action, if one is pending.
    pub deployment_url: Option<String>,
    /// Link to a pending confirmation action, if one is pending.
    pub confirmation_url: Option<String>,
    /// Link to a pending cancel action, if one is pending.
    pub cancel_url: Option<String>,
}

impl Reply {
    /// Wrap a parsed poll envelope.
    pub fn new(
        sleep: Option<String>,
        deployment_url: Option<String>,
        confirmation_url: Option<String>,
        cancel_url: Option<String>,
    ) -> (r: Reply)
        ensures
            r.sleep == sleep,
            r.deployment_url == deployment_url,
            r.confirmation_url == confirmation_url,
            r.cancel_url == cancel_url,
    {
        Reply { sleep, deployment_url, confirmation_url, cancel_url }
    }

    /// The polling interval the server declared, in seconds.
    ///
    /// Fails with the dedicated invalid-interval error — and no other — when
    /// the envelope carries no interval or one that does not match
    /// `HH:MM:SS`, so a caller can keep its previous interval instead of
    /// aborting.
    pub fn polling_sleep(&self) -> (r: Result<u64, Error>)
        ensures
            match self.sleep {
                Some(s) => {
                    if valid_sleep(s@) {
                        r == Ok::<u64, Error>(sleep_seconds(s@) as u64)
                    } else {
                        r == Err::<u64, Error>(Error::InvalidSleep)
                    }
                },
                None => r == Err::<u64, Error>(Error::InvalidSleep),
            },
    {
        let s = match &self.sleep {
            Some(s) => s.as_str(),
            None => {
                return Err(Error::InvalidSleep);
            },
        };
        if s.unicode_len() != 8 {
            return Err(Error::InvalidSleep);
        }
        if s.get_char(2) != ':' || s.get_char(5) != ':' {
            return Err(Error::InvalidSleep);
        }
        let h = digit(s.get_char(0))? * 10 + digit(s.get_char(1))?;
        let m = digit(s.get_char(3))? * 10 + digit(s.get_char(4))?;
        let sec = digit(s.get_char(6))? * 10 + digit(s.get_char(7))?;
        if m >= 60 || sec >= 60 {
            return Err(Error::InvalidSleep);
        }
        Ok(h * 3600 + m * 60 + sec)
    }

    /// The link to the pending deployment action, if the poll reply carries
    /// one. Resolving it into deployment data is a fresh fetch each call.
    pub fn deployment_base_url(&self) -> (r: &Option<String>)
        ensures
            r == &self.deployment_url,
    {
        &self.deployment_url
    }

    /// The link to the pending cancel action, if the poll reply carries one.
    pub fn cancel_action_url(&self) -> (r: &Option<String>)
        ensures
            r == &self.cancel_url,
    {
        &self.cancel_url
    }

    /// The pending confirmation gate, if the poll reply carries one: a
    /// request handle built from the confirmation link alone. Nothing is
    /// fetched — the handle resolves its own payload on demand.
    pub fn confirmation_base(&self) -> (r: Option<ConfirmationRequest>)
        ensures
            match self.confirmation_url {
                Some(u) => {
                    &&& r matches Some(cr)
                    &&& cr.url@ == u@
                    &&& cr.details@.len() == 0
                },
                None => r is None,
            },
    {
        match &self.confirmation_url {
            Some(u) => Some(ConfirmationRequest::new(u.clone())),
            None => None,
        }
    }
}

} // verus!
