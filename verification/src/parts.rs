//! The head of a request: what a request says about itself before its
//! body, as plain values.

use crate::method::Method;
use crate::text::str_eq;
use vstd::prelude::*;

verus! {

/// The name of the header that declares the length of the body.
pub const CONTENT_LENGTH: &'static str = "content-length";

/// The name of the header that carries the credentials of the caller.
pub const AUTHORIZATION: &'static str = "authorization";

/// One header line: a name and a value.
#[derive(Debug, PartialEq, Eq)]
pub struct Header {
    /// The name of the header, in lower case as the transport delivers it.
    pub name: String,
    /// The value of the header.
    pub value: String,
}

/// The head of a request: its method, its path and its header lines, in
/// the order in which they arrived.
#[derive(Debug, PartialEq, Eq)]
pub struct Parts {
    /// The method of the request.
    pub method: Method,
    /// The path of the request, undecoded.
    pub path: String,
    /// The header lines of the request.
    pub headers: Vec<Header>,
}

/// The head of a request as plain values.
pub struct PartsView {
    /// The method of the request.
    pub method: Method,
    /// The path of the request.
    pub path: Seq<char>,
    /// The header lines of the request: names and values.
    pub headers: Seq<(Seq<char>, Seq<char>)>,
}

/// The header lines of a run of headers, as pairs of name and value.
pub open spec fn lines(headers: Seq<Header>) -> Seq<(Seq<char>, Seq<char>)> {
    Seq::new(headers.len(), |i: int| (headers[i].name@, headers[i].value@))
}

impl View for Parts {
    type V = PartsView;

    open spec fn view(&self) -> PartsView {
        PartsView { method: self.method, path: self.path@, headers: lines(self.headers@) }
    }
}

/// The value of the first header line with the given name. Names are
/// compared exactly.
pub open spec fn first_value(headers: Seq<(Seq<char>, Seq<char>)>, name: Seq<char>) -> Option<
    Seq<char>,
>
    decreases headers.len(),
{
    if headers.len() == 0 {
        None
    } else if headers[0].0 == name {
        Some(headers[0].1)
    } else {
        first_value(headers.drop_first(), name)
    }
}

/// Whether a request declares that it has no body: its first
/// `content-length` line says `0`. A request without that line is taken to
/// have a body.
pub open spec fn declares_no_body(headers: Seq<(Seq<char>, Seq<char>)>) -> bool {
    first_value(headers, CONTENT_LENGTH@) == Some("0"@)
}

impl Parts {
    /// The head of a request with a method and a path and no header lines.
    pub fn new(method: Method, path: &str) -> (parts: Parts)
        ensures
            parts@ == (PartsView { method, path: path@, headers: Seq::empty() }),
    {
        let parts = Parts { method, path: path.to_owned(), headers: Vec::new() };
        assert(lines(parts.headers@) =~= Seq::empty());
        parts
    }

    /// The same head with one more header line after those it has.
    pub fn with_header(self, name: &str, value: &str) -> (parts: Parts)
        ensures
            parts@ == (PartsView { headers: self@.headers.push((name@, value@)), ..self@ }),
    {
        let Parts { method, path, headers } = self;
        let mut headers = headers;
        let ghost before = headers@;
        headers.push(Header { name: name.to_owned(), value: value.to_owned() });
        assert(lines(headers@) =~= lines(before).push((name@, value@)));
        Parts { method, path, headers }
    }

    /// The value of the first header line with the given name, if there is
    /// such a line.
    pub fn header(&self, name: &str) -> (value: Option<&str>)
        ensures
            match value {
                Some(v) => first_value(self@.headers, name@) == Some(v@),
                None => first_value(self@.headers, name@) is None,
            },
    {
        let n = self.headers.len();
        let mut i: usize = 0;
        let ghost all = lines(self.headers@);
        proof {
            assert(all.skip(0) =~= all);
        }
        while i < n
            invariant
                i <= n,
                n == self.headers.len(),
                all == lines(self.headers@),
                first_value(all, name@) == first_value(all.skip(i as int), name@),
            decreases n - i,
        {
            let header = &self.headers[i];
            proof {
                assert(all.skip(i as int).drop_first() =~= all.skip(i + 1));
            }
            if str_eq(header.name.as_str(), name) {
                return Some(header.value.as_str());
            }
            i += 1;
        }
        None
    }

    /// Tells whether the request is to be taken as having a body.
    pub fn has_body(&self) -> (present: bool)
        ensures
            present == !declares_no_body(self@.headers),
    {
        match self.header(CONTENT_LENGTH) {
            Some(length) => !str_eq(length, "0"),
            None => true,
        }
    }
}

} // verus!
