//! Request methods, the key under which routes are registered.

use vstd::prelude::*;

verus! {

/// An HTTP request method.
#[derive(Clone, Copy, PartialEq, Eq, Structural, Debug)]
pub enum Method {
    /// `ACL`
    Acl,
    /// `BASELINE-CONTROL`
    BaselineControl,
    /// `BIND`
    Bind,
    /// `CHECKIN`
    Checkin,
    /// `CHECKOUT`
    Checkout,
    /// `CONNECT`
    Connect,
    /// `COPY`
    Copy,
    /// `DELETE`
    Delete,
    /// `GET`
    Get,
    /// `HEAD`
    Head,
    /// `LABEL`
    Label,
    /// `LINK`
    Link,
    /// `LOCK`
    Lock,
    /// `MERGE`
    Merge,
    /// `MKACTIVITY`
    MkActivity,
    /// `MKCALENDAR`
    MkCalendar,
    /// `MKCOL`
    MkCol,
    /// `MKREDIRECTREF`
    MkRedirectRef,
    /// `MKWORKSPACE`
    MkWorkspace,
    /// `MOVE`
    Move,
    /// `OPTIONS`
    Options,
    /// `ORDERPATCH`
    OrderPatch,
    /// `PATCH`
    Patch,
    /// `POST`
    Post,
    /// `PRI`
    Pri,
    /// `PROPFIND`
    PropFind,
    /// `PROPPATCH`
    PropPatch,
    /// `PUT`
    Put,
    /// `REBIND`
    Rebind,
    /// `REPORT`
    Report,
    /// `SEARCH`
    Search,
    /// `TRACE`
    Trace,
    /// `UNBIND`
    Unbind,
    /// `UNCHECKOUT`
    Uncheckout,
    /// `UNLINK`
    Unlink,
    /// `UNLOCK`
    Unlock,
    /// `UPDATE`
    Update,
    /// `UPDATEREDIRECTREF`
    UpdateRedirectRef,
    /// `VERSION-CONTROL`
    VersionControl,
}

impl Method {
    /// A small number that identifies the method; no two methods share one.
    pub open spec fn ordinal(self) -> u8 {
        match self {
            Method::Acl => 0,
            Method::BaselineControl => 1,
            Method::Bind => 2,
            Method::Checkin => 3,
            Method::Checkout => 4,
            Method::Connect => 5,
            Method::Copy => 6,
            Method::Delete => 7,
            Method::Get => 8,
            Method::Head => 9,
            Method::Label => 10,
            Method::Link => 11,
            Method::Lock => 12,
            Method::Merge => 13,
            Method::MkActivity => 14,
            Method::MkCalendar => 15,
            Method::MkCol => 16,
            Method::MkRedirectRef => 17,
            Method::MkWorkspace => 18,
            Method::Move => 19,
            Method::Options => 20,
            Method::OrderPatch => 21,
            Method::Patch => 22,
            Method::Post => 23,
            Method::Pri => 24,
            Method::PropFind => 25,
            Method::PropPatch => 26,
            Method::Put => 27,
            Method::Rebind => 28,
            Method::Report => 29,
            Method::Search => 30,
            Method::Trace => 31,
            Method::Unbind => 32,
            Method::Uncheckout => 33,
            Method::Unlink => 34,
            Method::Unlock => 35,
            Method::Update => 36,
            Method::UpdateRedirectRef => 37,
            Method::VersionControl => 38,
        }
    }

    /// The number under which the route table files this method.
    pub fn index(self) -> (i: u8)
        ensures
            i == self.ordinal(),
    {
        match self {
            Method::Acl => 0,
            Method::BaselineControl => 1,
            Method::Bind => 2,
            Method::Checkin => 3,
            Method::Checkout => 4,
            Method::Connect => 5,
            Method::Copy => 6,
            Method::Delete => 7,
            Method::Get => 8,
            Method::Head => 9,
            Method::Label => 10,
            Method::Link => 11,
            Method::Lock => 12,
            Method::Merge => 13,
            Method::MkActivity => 14,
            Method::MkCalendar => 15,
            Method::MkCol => 16,
            Method::MkRedirectRef => 17,
            Method::MkWorkspace => 18,
            Method::Move => 19,
            Method::Options => 20,
            Method::OrderPatch => 21,
            Method::Patch => 22,
            Method::Post => 23,
            Method::Pri => 24,
            Method::PropFind => 25,
            Method::PropPatch => 26,
            Method::Put => 27,
            Method::Rebind => 28,
            Method::Report => 29,
            Method::Search => 30,
            Method::Trace => 31,
            Method::Unbind => 32,
            Method::Uncheckout => 33,
            Method::Unlink => 34,
            Method::Unlock => 35,
            Method::Update => 36,
            Method::UpdateRedirectRef => 37,
            Method::VersionControl => 38,
        }
    }
}

/// Distinct methods are filed under distinct numbers.
pub proof fn lemma_ordinal_determines_method(a: Method, b: Method)
    requires
        a.ordinal() == b.ordinal(),
    ensures
        a == b,
{
}

} // verus!
