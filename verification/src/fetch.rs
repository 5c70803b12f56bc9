//! The request method of an HTTP fetch, and its wire label.

use vstd::prelude::*;

verus! {

/// A fetch request's method.
#[derive(Debug, Clone, Copy, PartialEq, Eq, Hash)]
pub enum Method {
    /// Retrieve a representation of the target resource.
    Get,
    /// Submit the enclosed body to the target resource.
    Post,
    /// Like a retrieval, but without the response body.
    Head,
    /// Replace the target resource with the enclosed body.
    Put,
}

/// The wire label of each method.
pub open spec fn spec_method_label(m: Method) -> Seq<char> {
    match m {
        Method::Get => "GET"@,
        Method::Post => "POST"@,
        Method::Head => "HEAD"@,
        Method::Put => "PUT"@,
    }
}

impl Method {
    /// The label the method is sent as on the wire.
    pub fn to_str(&self) -> (r: &'static str)
        ensures
            r@ == spec_method_label(*self),
    {
        match self {
            Method::Get => "GET",
            Method::Post => "POST",
            Method::Head => "HEAD",
            Method::Put => "PUT",
        }
    }
}

impl Default for Method {
    /// A request without an explicit method is sent as a retrieval.
    fn default() -> (r: Self)
        ensures
            r == Method::Get,
    {
        Method::Get
    }
}

} // verus!
