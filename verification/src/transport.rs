//! Response shape handed back by the pluggable HTTP transport.
//!
//! The core never performs I/O itself; the application hands it a
//! [`TransportResponse`] and the core decides what the response means
//! (retry delay, error mapping, and so on).

use vstd::prelude::*;

verus! {

/// The HTTP method of a request the core asks the transport to send.
#[derive(Debug, Clone, Copy, PartialEq, Eq)]
pub enum TransportMethod {
    /// An HTTP GET request.
    Get,
    /// An HTTP POST request.
    Post,
    /// An HTTP DELETE request.
    Delete,
}

/// A request the core asks the transport to send.
#[derive(Debug, PartialEq)]
pub struct TransportRequest {
    /// Path of the endpoint, already percent-encoded where needed.
    pub path: String,
    /// Query parameters, as (name, value) pairs.
    pub query_parameters: Vec<(String, String)>,
    /// The HTTP method.
    pub method: TransportMethod,
    /// Request headers, as (name, value) pairs.
    pub headers: Vec<(String, String)>,
    /// Request body, when the method carries one.
    pub body: Option<Vec<u8>>,
}

/// Mathematical content of a [`TransportRequest`].
pub ghost struct TransportRequestModel {
    pub path: Seq<char>,
    pub query_parameters: Seq<(Seq<char>, Seq<char>)>,
    pub method: TransportMethod,
    pub headers: Seq<(Seq<char>, Seq<char>)>,
    pub body: Option<Seq<u8>>,
}

impl DeepView for TransportRequest {
    type V = TransportRequestModel;

    open spec fn deep_view(&self) -> TransportRequestModel {
        TransportRequestModel {
            path: self.path.deep_view(),
            query_parameters: self.query_parameters.deep_view(),
            method: self.method,
            headers: self.headers.deep_view(),
            body: self.body.deep_view(),
        }
    }
}

/// The pluggable blocking transport the core sends requests through.
/// The application implements it; the core promises nothing about what
/// it returns.
pub trait Transport {
    /// Send the request and hand back the service's response.
    fn send(&self, request: TransportRequest) -> Result<
        TransportResponse,
        crate::error::PubNubError,
    >;
}

/// An HTTP response as the core sees it: a status code, the response
/// headers as (name, value) pairs, and an optional raw body.
#[derive(Debug, PartialEq)]
pub struct TransportResponse {
    /// HTTP status code of the response.
    pub status: u16,
    /// Response headers, in the order the transport delivered them.
    /// Lookups take the first pair whose name matches.
    pub headers: Vec<(String, String)>,
    /// Raw response body, when the transport delivered one.
    pub body: Option<Vec<u8>>,
}

/// Mathematical content of a [`TransportResponse`].
pub ghost struct TransportResponseModel {
    pub status: u16,
    pub headers: Seq<(Seq<char>, Seq<char>)>,
    pub body: Option<Seq<u8>>,
}

impl DeepView for TransportResponse {
    type V = TransportResponseModel;

    open spec fn deep_view(&self) -> TransportResponseModel {
        TransportResponseModel {
            status: self.status,
            headers: self.headers.deep_view(),
            body: self.body.deep_view(),
        }
    }
}

/// Value of the first header whose name equals `name`, if any.
pub open spec fn spec_header_value(
    headers: Seq<(Seq<char>, Seq<char>)>,
    name: Seq<char>,
) -> Option<Seq<char>>
    decreases headers.len(),
{
    if headers.len() == 0 {
        None
    } else if headers[0].0 == name {
        Some(headers[0].1)
    } else {
        spec_header_value(headers.drop_first(), name)
    }
}

impl TransportResponse {
    /// Build a response from its parts.
    pub fn new(status: u16, headers: Vec<(String, String)>, body: Option<Vec<u8>>) -> (r: Self)
        ensures
            r.deep_view() == (TransportResponseModel {
                status,
                headers: headers.deep_view(),
                body: body.deep_view(),
            }),
    {
        TransportResponse { status, headers, body }
    }

    /// Value of the first header named `name`, or `None` when the
    /// response carries no such header.
    pub fn header_value(&self, name: &str) -> (r: Option<String>)
        ensures
            r.deep_view() == spec_header_value(self.deep_view().headers, name@),
    {
        let key: String = name.to_owned();
        let n = self.headers.len();
        let ghost all: Seq<(Seq<char>, Seq<char>)> = self.deep_view().headers;
        proof {
            assert(all.skip(0) =~= all);
        }
        let mut i: usize = 0;
        while i < n
            invariant
                n == self.headers.len(),
                0 <= i <= n,
                key@ == name@,
                all == self.deep_view().headers,
                spec_header_value(all, name@) == spec_header_value(all.skip(i as int), name@),
            decreases n - i,
        {
            proof {
                assert(all.skip(i as int).len() == n - i);
                assert(all.skip(i as int)[0] == all[i as int]);
            }
            if (&self.headers[i].0).eq(&key) {
                return Some(self.headers[i].1.clone());
            }
            proof {
                assert(all.skip(i as int).drop_first() =~= all.skip(i as int + 1));
            }
            i = i + 1;
        }
        proof {
            assert(all.skip(n as int) =~= Seq::<(Seq<char>, Seq<char>)>::empty());
        }
        None
    }
}

impl Default for TransportResponse {
    /// An empty response: status 0, no headers, no body.
    fn default() -> (r: Self)
        ensures
            r.deep_view() == (TransportResponseModel {
                status: 0u16,
                headers: Seq::<(Seq<char>, Seq<char>)>::empty(),
                body: None,
            }),
    {
        let r = TransportResponse { status: 0, headers: Vec::new(), body: None };
        proof {
            assert(r.deep_view().headers =~= Seq::<(Seq<char>, Seq<char>)>::empty());
        }
        r
    }
}

} // verus!
