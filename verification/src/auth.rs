//! Local-process authentication rules: the bearer-token check that gates
//! every gRPC request, the peer-credential check that gates the Unix
//! socket, and the shape of the token file.

use std::sync::Arc;

use vstd::prelude::*;
use vstd::string::StringExecFns;

use crate::error::Error;
use crate::ids::{random_uuid_v4, uuid_text, uuid_to_text};
use crate::text::{str_chars, trim, trimmed_text};

verus! {

/// The message of a rejected gRPC request.
pub open spec fn unauthenticated_message() -> Seq<char> {
    "missing or invalid bearer token in 'authorization' metadata"@
}

/// A rejected request: gRPC `UNAUTHENTICATED` with a message.
#[derive(Debug)]
pub struct Unauthenticated {
    pub message: String,
}

/// Enforces `Authorization: Bearer <token>` on every gRPC request; when
/// `require_auth` is false every request passes.
#[derive(Debug)]
pub struct BearerTokenInterceptor {
    expected: Arc<String>,
    require_auth: bool,
}

impl Clone for BearerTokenInterceptor {
    fn clone(&self) -> (r: Self)
        ensures
            r.token() == self.token(),
            r.enforced() == self.enforced(),
    {
        BearerTokenInterceptor { expected: Arc::clone(&self.expected), require_auth: self.require_auth }
    }
}

impl BearerTokenInterceptor {
    /// The token requests must present.
    pub closed spec fn token(&self) -> Seq<char> {
        self.expected@
    }

    /// Whether requests are checked at all.
    pub closed spec fn enforced(&self) -> bool {
        self.require_auth
    }

    /// Create an interceptor that compares the `authorization` metadata
    /// against `Bearer <token>`.
    pub fn new(token: Arc<String>, require_auth: bool) -> (r: Self)
        ensures
            r.token() == token@,
            r.enforced() == require_auth,
    {
        BearerTokenInterceptor { expected: token, require_auth }
    }

    /// Judge a request by the text of its `authorization` metadata (`None`
    /// when absent or not visible ASCII): it passes when checks are off or
    /// when the text is exactly `Bearer ` followed by the token.
    pub fn check(&self, provided: Option<&str>) -> (r: Result<(), Unauthenticated>)
        ensures
            r is Ok <==> (!self.enforced() || (provided matches Some(p) && p@ == "Bearer "@ + self.token())),
            r matches Err(e) ==> e.message@ == unauthenticated_message(),
    {
        if !self.require_auth {
            return Ok(());
        }
        let given = match provided {
            Some(p) => p.to_owned(),
            None => String::new(),
        };
        let mut expected = String::from_str("Bearer ");
        expected.append(self.expected.as_str());
        proof {
            reveal_strlit("Bearer ");
        }
        if provided.is_some() && given == expected {
            Ok(())
        } else {
            assert(provided matches Some(p) ==> p@ != "Bearer "@ + self.token());
            Err(Unauthenticated {
                message: String::from_str("missing or invalid bearer token in 'authorization' metadata"),
            })
        }
    }
}

/// Whether a configured server host names the loopback interface:
/// `127.0.0.1`, `localhost` or `::1`. On any other host the daemon warns
/// at startup that bearer tokens are no substitute for TLS.
pub open spec fn spec_is_loopback_host(host: Seq<char>) -> bool {
    host == "127.0.0.1"@ || host == "localhost"@ || host == "::1"@
}

/// Whether `host` names the loopback interface.
pub fn is_loopback_host(host: &str) -> (r: bool)
    ensures
        r == spec_is_loopback_host(host@),
{
    let h = host.to_owned();
    h == String::from_str("127.0.0.1") || h == String::from_str("localhost") || h == String::from_str("::1")
}

/// Whether a connection from a peer with uid `peer` (or with unreadable
/// credentials) is accepted on the daemon's Unix socket.
pub open spec fn spec_peer_accepted(require_auth: bool, expected_uid: u32, peer: Option<u32>) -> bool {
    !require_auth || peer == Some(expected_uid)
}

/// Decides whether to keep an accepted Unix-socket connection: with checks
/// on, only a peer whose uid is the daemon owner's is kept.
pub fn peer_accepted(require_auth: bool, expected_uid: u32, peer: Option<u32>) -> (r: bool)
    ensures
        r == spec_peer_accepted(require_auth, expected_uid, peer),
{
    if !require_auth {
        return true;
    }
    match peer {
        Some(uid) => uid == expected_uid,
        None => false,
    }
}

/// The token held by a token file's content: the content without
/// surrounding whitespace.
///
/// # Errors
///
/// [`Error::InternalUnexpected`] when nothing but whitespace remains.
pub fn token_from_file(path: &str, content: &str) -> (r: Result<String, Error>)
    ensures
        trim(content@).len() > 0 ==> (r matches Ok(t) && t@ == trim(content@)),
        trim(content@).len() == 0 ==> (r matches Err(Error::InternalUnexpected { reason })
            && reason@ == "auth token at '"@ + path@ + "' is empty"@),
{
    let chars = str_chars(content);
    assert(chars@.subrange(0, chars@.len() as int) =~= chars@);
    let t = trimmed_text(&chars, 0, chars.len());
    if t.as_str().is_empty() {
        let mut s = String::from_str("auth token at '");
        s.append(path);
        s.append("' is empty");
        return Err(Error::InternalUnexpected { reason: s });
    }
    Ok(t)
}

/// A fresh token: a random UUID v4 in its 36-character hyphenated form.
pub fn fresh_token() -> (r: String)
    ensures
        exists|v: u128| r@ == uuid_text(v) && (v >> 76u128) & 15 == 4 && (v >> 62u128) & 3 == 2,
        r@.len() == 36,
{
    let v = random_uuid_v4();
    let t = uuid_to_text(v);
    assert(t@ == uuid_text(v) && (v >> 76u128) & 15 == 4 && (v >> 62u128) & 3 == 2);
    t
}

} // verus!
