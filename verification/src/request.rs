//! A request as the library plans it, before anything is sent.

use vstd::prelude::*;
use crate::method::Method;

verus! {

/// One header line of a request.
#[derive(Clone, Debug, PartialEq, Eq)]
pub struct Header {
    pub name: String,
    pub value: String,
}

impl Header {
    /// Name and value as sequences of characters.
    pub open spec fn view(&self) -> (Seq<char>, Seq<char>) {
        (self.name@, self.value@)
    }
}

/// Everything a transport needs to send one request.
///
/// `url` is the resolved address without the planned query; `query` and
/// `body`, where present, are already in `application/x-www-form-urlencoded`
/// form.
#[derive(Clone, Debug, PartialEq, Eq)]
pub struct Request {
    pub method: Method,
    pub url: String,
    pub query: Option<String>,
    pub headers: Vec<Header>,
    pub body: Option<String>,
}

impl Request {
    /// The headers as name/value pairs, in the order they are sent.
    pub open spec fn header_lines(&self) -> Seq<(Seq<char>, Seq<char>)> {
        self.headers@.map_values(|h: Header| h@)
    }

    /// Whether some header of the request has the given name.
    pub open spec fn has_header(&self, name: Seq<char>) -> bool {
        exists|i: int| 0 <= i < self.header_lines().len() && #[trigger] self.header_lines()[i].0 == name
    }
}

} // verus!
