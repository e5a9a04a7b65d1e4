//! A hierarchical URL model.
//!
//! The protocol derives every endpoint it talks to from URLs handed over by
//! the caller or by the server: the base poll URL is the host URL joined with
//! `{tenant}/controller/v1/{controller_id}`, and feedback URLs are action
//! URLs with a `feedback` segment appended and the query removed. This
//! module keeps the parts of a URL that this logic reads — the prefix before
//! the path, the path segments, and the query — as plain values, so the
//! derivations themselves are verified. Parsing a URL string into these
//! parts is delegated to the `url` crate behind a trusted wrapper.

use vstd::prelude::*;
use vstd::string::StringExecFns;
use vstd::string::StrSliceExecFns;

verus! {

use crate::error::Error;

/// The parts of a hierarchical URL that the protocol logic reads.
#[derive(Debug, Clone)]
pub struct HttpUrl {
    /// Everything before the path: scheme and authority, e.g.
    /// `https://host:8080`, without a trailing slash.
    pub prefix: String,
    /// The path segments, in order, without separators.
    pub segments: Vec<String>,
    /// The query string without its leading `?`, if any.
    pub query: Option<String>,
}

/// The mathematical view of an [`HttpUrl`].
#[verifier::ext_equal]
pub ghost struct HttpUrlView {
    pub prefix: Seq<char>,
    pub segments: Seq<Seq<char>>,
    pub query: Option<Seq<char>>,
}

impl View for HttpUrl {
    type V = HttpUrlView;

    open spec fn view(&self) -> HttpUrlView {
        HttpUrlView {
            prefix: self.prefix@,
            segments: self.segments.deep_view(),
            query: self.query.deep_view(),
        }
    }
}

/// What parsing a URL string yields, reduced to the parts this model keeps:
/// `None` where the string is not an absolute URL, or where the URL is not
/// hierarchical and so has no path segments; otherwise the prefix before the
/// path, the path segments and the query.
pub uninterp spec fn url_parse(s: Seq<char>) -> Option<HttpUrlView>;

/// Relies on `url::Url::parse` and the accessors `path_segments` (`None`
/// exactly when the URL cannot be a base), `query`, and slicing up to
/// `Position::BeforePath`: splits an absolute hierarchical URL into the
/// prefix before its path, its path segments and its query.
#[verifier::external_body]
pub(crate) fn parse_http_url(s: &str) -> (r: Result<HttpUrl, Error>)
    ensures
        match r {
            Ok(u) => url_parse(s@) == Some(u@),
            Err(e) => url_parse(s@) is None && e == Error::ParseUrlError,
        },
{
    let parsed = match url::Url::parse(s) {
        Ok(u) => u,
        Err(_) => return Err(Error::ParseUrlError),
    };
    let segments: Vec<String> = match parsed.path_segments() {
        Some(split) => split.map(|seg| seg.to_string()).collect(),
        None => return Err(Error::ParseUrlError),
    };
    let prefix = parsed[..url::Position::BeforePath].to_string();
    let query = parsed.query().map(|q| q.to_string());
    Ok(HttpUrl { prefix, segments, query })
}

/// The path segments without their trailing empty segments: the form a path
/// takes when trailing slashes are ignored.
pub open spec fn strip_trailing_empty(segs: Seq<Seq<char>>) -> Seq<Seq<char>>
    decreases segs.len(),
{
    if segs.len() > 0 && segs.last().len() == 0 {
        strip_trailing_empty(segs.drop_last())
    } else {
        segs
    }
}

/// The base URL of a controller: the host URL's path — trailing slashes
/// ignored — extended with `{tenant}/controller/v1/{controller_id}`, query
/// cleared.
pub open spec fn joined_base(host: HttpUrlView, tenant: Seq<char>, controller_id: Seq<char>) -> HttpUrlView {
    HttpUrlView {
        prefix: host.prefix,
        segments: strip_trailing_empty(host.segments) + seq![tenant, "controller"@, "v1"@, controller_id],
        query: None,
    }
}

/// The feedback URL of an action URL: the same URL with a `feedback`
/// segment appended — trailing slashes ignored — and the query removed.
pub open spec fn feedback_view(u: HttpUrlView) -> HttpUrlView {
    HttpUrlView {
        prefix: u.prefix,
        segments: strip_trailing_empty(u.segments).push("feedback"@),
        query: None,
    }
}

/// The string form of a segment sequence: `/` before each segment.
pub open spec fn segments_string(segs: Seq<Seq<char>>) -> Seq<char>
    decreases segs.len(),
{
    if segs.len() == 0 {
        Seq::empty()
    } else {
        segments_string(segs.drop_last()) + seq!['/'] + segs.last()
    }
}

/// The string form of a URL: prefix, `/`-separated segments, then `?query`
/// if a query is present.
pub open spec fn url_string(u: HttpUrlView) -> Seq<char> {
    let path = u.prefix + segments_string(u.segments);
    match u.query {
        Some(q) => path + seq!['?'] + q,
        None => path,
    }
}

impl HttpUrl {
    /// Drop the trailing empty segments of the path, in place.
    fn drop_trailing_empty_segments(&mut self)
        ensures
            final(self)@.segments == strip_trailing_empty(old(self)@.segments),
            final(self)@.prefix == old(self)@.prefix,
            final(self)@.query == old(self)@.query,
    {
        loop
            invariant
                self@.prefix == old(self)@.prefix,
                self@.query == old(self)@.query,
                strip_trailing_empty(self@.segments) == strip_trailing_empty(old(self)@.segments),
            ensures
                self@.segments.len() == 0 || self@.segments.last().len() != 0,
            decreases self.segments.len(),
        {
            let n = self.segments.len();
            if n == 0 {
                break;
            }
            if self.segments[n - 1].as_str().is_empty() {
                proof {
                    assert(self@.segments.last() == self.segments@[n - 1]@);
                }
                let ghost pre = self@.segments;
                self.segments.pop();
                proof {
                    assert(self@.segments =~= pre.drop_last());
                    assert(strip_trailing_empty(pre) == strip_trailing_empty(pre.drop_last()));
                }
            } else {
                proof {
                    assert(self@.segments.last() == self.segments@[n - 1]@);
                }
                break;
            }
        }
        proof {
            assert(strip_trailing_empty(self@.segments) == self@.segments);
        }
    }

    /// Join the controller path onto this URL: append the segments
    /// `{tenant}/controller/v1/{controller_id}`, ignoring trailing slashes
    /// of the existing path, and clear the query.
    pub fn join_base(self, tenant: &str, controller_id: &str) -> (r: HttpUrl)
        ensures
            r@ == joined_base(self@, tenant@, controller_id@),
    {
        let ghost orig = self@;
        let mut u = self;
        u.drop_trailing_empty_segments();
        u.segments.push(String::from_str(tenant));
        u.segments.push(String::from_str("controller"));
        u.segments.push(String::from_str("v1"));
        u.segments.push(String::from_str(controller_id));
        u.query = None;
        proof {
            assert(u@.segments =~= joined_base(orig, tenant@, controller_id@).segments);
            assert(u@ =~= joined_base(orig, tenant@, controller_id@));
        }
        u
    }

    /// Derive the feedback URL: append a `feedback` segment, ignoring
    /// trailing slashes of the existing path, and remove the query.
    pub fn into_feedback(self) -> (r: HttpUrl)
        ensures
            r@ == feedback_view(self@),
    {
        let ghost orig = self@;
        let mut u = self;
        u.drop_trailing_empty_segments();
        u.segments.push(String::from_str("feedback"));
        u.query = None;
        proof {
            assert(u@.segments =~= feedback_view(orig).segments);
            assert(u@ =~= feedback_view(orig));
        }
        u
    }

    /// Render the URL as a string.
    pub fn to_url_string(&self) -> (r: String)
        ensures
            r@ == url_string(self@),
    {
        let mut out = String::new();
        out.append(self.prefix.as_str());
        proof {
            assert(out@ =~= self@.prefix + segments_string(self@.segments.take(0)));
        }
        let n = self.segments.len();
        for i in 0..n
            invariant
                n == self.segments.len(),
                out@ == self@.prefix + segments_string(self@.segments.take(i as int)),
        {
            out.append("/");
            out.append(self.segments[i].as_str());
            proof {
                reveal_strlit("/");
                let segs = self@.segments;
                assert(segs[i as int] == self.segments@[i as int]@);
                assert(segs.take(i as int + 1).drop_last() =~= segs.take(i as int));
                assert(segs.take(i as int + 1).last() == segs[i as int]);
                assert("/"@ =~= seq!['/']);
                assert(out@ =~= self@.prefix + segments_string(segs.take(i as int + 1)));
            }
        }
        proof {
            assert(self@.segments.take(n as int) =~= self@.segments);
        }
        match &self.query {
            Some(q) => {
                out.append("?");
                out.append(q.as_str());
                proof {
                    reveal_strlit("?");
                    assert("?"@ =~= seq!['?']);
                    assert(out@ =~= url_string(self@));
                }
            },
            None => {
                proof {
                    assert(out@ =~= url_string(self@));
                }
            },
        }
        out
    }
}

/// Derive the feedback URL of an action URL: a `feedback` segment appended
/// — trailing slashes ignored — and the query removed. Every feedback
/// submission, for a confirmation decision as for a deployment result,
/// derives its endpoint through this one rule. Fails explicitly — never
/// crashes — when the action URL is not an absolute hierarchical URL.
pub fn feedback_url_string(url: &str) -> (r: Result<String, Error>)
    ensures
        match url_parse(url@) {
            Some(u) => r matches Ok(s) && s@ == url_string(feedback_view(u)),
            None => r == Err::<String, Error>(Error::ParseUrlError),
        },
{
    let parsed = match parse_http_url(url) {
        Ok(u) => u,
        Err(e) => {
            return Err(e);
        },
    };
    Ok(parsed.into_feedback().to_url_string())
}

/// Law: base URL construction ignores a trailing slash on the host URL. A
/// host whose path carries one more trailing empty segment — the parsed form
/// of a trailing `/` — joins to the same base URL.
pub proof fn lemma_join_trailing_slash(host: HttpUrlView, tenant: Seq<char>, controller_id: Seq<char>)
    ensures
        joined_base(
            HttpUrlView {
                prefix: host.prefix,
                segments: host.segments.push(Seq::empty()),
                query: host.query,
            },
            tenant,
            controller_id,
        ) == joined_base(host, tenant, controller_id),
{
    let pushed = host.segments.push(Seq::<char>::empty());
    assert(pushed.last().len() == 0);
    assert(pushed.drop_last() =~= host.segments);
    assert(joined_base(
        HttpUrlView {
            prefix: host.prefix,
            segments: pushed,
            query: host.query,
        },
        tenant,
        controller_id,
    ) =~= joined_base(host, tenant, controller_id));
}

} // verus!
