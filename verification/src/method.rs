//! HTTP verbs and the rule that tells the mutating ones apart.

use vstd::prelude::*;

verus! {

/// The verb of a request.
#[derive(Clone, Copy, Debug, PartialEq, Eq, Structural)]
pub enum Method {
    Get,
    Post,
    Put,
    Delete,
    Head,
    Options,
    Patch,
    Connect,
    Trace,
}

impl Method {
    /// The verbs that change state on the server: POST, PUT and DELETE.
    pub open spec fn is_writing(self) -> bool {
        self == Method::Post || self == Method::Put || self == Method::Delete
    }

    /// The verb as it is written on the wire.
    pub open spec fn name(self) -> Seq<char> {
        match self {
            Method::Get => "GET"@,
            Method::Post => "POST"@,
            Method::Put => "PUT"@,
            Method::Delete => "DELETE"@,
            Method::Head => "HEAD"@,
            Method::Options => "OPTIONS"@,
            Method::Patch => "PATCH"@,
            Method::Connect => "CONNECT"@,
            Method::Trace => "TRACE"@,
        }
    }

    /// Whether a request with this verb has to carry the anti-forgery token.
    pub fn needs_csrf_token(self) -> (r: bool)
        ensures
            r == self.is_writing(),
    {
        match self {
            Method::Post | Method::Put | Method::Delete => true,
            _ => false,
        }
    }

    /// The verb as it is written on the wire.
    pub fn as_str(self) -> (r: &'static str)
        ensures
            r@ == self.name(),
    {
        match self {
            Method::Get => "GET",
            Method::Post => "POST",
            Method::Put => "PUT",
            Method::Delete => "DELETE",
            Method::Head => "HEAD",
            Method::Options => "OPTIONS",
            Method::Patch => "PATCH",
            Method::Connect => "CONNECT",
            Method::Trace => "TRACE",
        }
    }
}

} // verus!
