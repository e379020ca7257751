//! Building the description of one request, and turning it into the data a
//! backend dispatches.

use vstd::prelude::*;

verus! {

use crate::method::Method;
use crate::method::scheme_code;
use crate::method::spec_scheme_code;

/// The name/value pairs of a header list, as sequences of characters, in
/// the order the list holds them.
pub open spec fn headers_view(headers: Seq<(String, String)>) -> Seq<(Seq<char>, Seq<char>)> {
    Seq::new(headers.len(), |i: int| (headers[i].0@, headers[i].1@))
}

/// An immutable description of one request, accumulated step by step:
/// URL, method (`Get` until set), headers in insertion order, optional body.
/// No step validates anything; malformed input surfaces only as a
/// downstream transport failure.
pub struct RequestBuilder {
    url: String,
    method: Method,
    headers: Vec<(String, String)>,
    body: Option<String>,
}

impl RequestBuilder {
    /// The URL the request is addressed to.
    pub closed spec fn url_spec(&self) -> Seq<char> {
        self.url@
    }

    /// The HTTP verb the request will use.
    pub closed spec fn method_spec(&self) -> Method {
        self.method
    }

    /// The headers set so far, in insertion order.
    pub closed spec fn headers_spec(&self) -> Seq<(Seq<char>, Seq<char>)> {
        headers_view(self.headers@)
    }

    /// The body set so far, if any.
    pub closed spec fn body_spec(&self) -> Option<Seq<char>> {
        match self.body {
            Some(body) => Some(body@),
            None => None,
        }
    }

    /// A fresh spec for `url`: method `Get`, no headers, no body.
    pub fn new(url: &str) -> (spec: RequestBuilder)
        ensures
            spec.url_spec() == url@,
            spec.method_spec() == Method::Get,
            spec.headers_spec() == Seq::<(Seq<char>, Seq<char>)>::empty(),
            spec.body_spec() is None,
    {
        let spec = RequestBuilder {
            url: url.to_owned(),
            method: Method::Get,
            headers: Vec::new(),
            body: None,
        };
        proof {
            assert(spec.headers_spec() =~= Seq::<(Seq<char>, Seq<char>)>::empty());
        }
        spec
    }

    /// The same spec with its method replaced.
    pub fn method(self, method: Method) -> (spec: RequestBuilder)
        ensures
            spec.url_spec() == self.url_spec(),
            spec.method_spec() == method,
            spec.headers_spec() == self.headers_spec(),
            spec.body_spec() == self.body_spec(),
    {
        RequestBuilder { method, url: self.url, headers: self.headers, body: self.body }
    }

    /// The same spec with one header appended after all earlier ones:
    /// insertion order is preserved.
    pub fn header(self, header: &str, value: &str) -> (spec: RequestBuilder)
        ensures
            spec.url_spec() == self.url_spec(),
            spec.method_spec() == self.method_spec(),
            spec.headers_spec() == self.headers_spec().push((header@, value@)),
            spec.body_spec() == self.body_spec(),
    {
        let mut headers = self.headers;
        headers.push((header.to_owned(), value.to_owned()));
        let spec = RequestBuilder { headers, url: self.url, method: self.method, body: self.body };
        proof {
            assert(spec.headers_spec() =~= self.headers_spec().push((header@, value@)));
        }
        spec
    }

    /// The same spec with its body set.
    pub fn body(self, body: &str) -> (spec: RequestBuilder)
        ensures
            spec.url_spec() == self.url_spec(),
            spec.method_spec() == self.method_spec(),
            spec.headers_spec() == self.headers_spec(),
            spec.body_spec() matches Some(b) && b == body@,
    {
        RequestBuilder {
            body: Some(body.to_owned()),
            url: self.url,
            method: self.method,
            headers: self.headers,
        }
    }

    /// Consumes the spec into what the native worker thread works from:
    /// the verb, the URL, the headers in insertion order, and which
    /// transport variant to invoke — payload-bearing exactly when a body
    /// was set.
    pub fn dispatch(self) -> (dispatch: Dispatch)
        ensures
            dispatch.method == self.method_spec(),
            dispatch.url@ == self.url_spec(),
            headers_view(dispatch.headers@) == self.headers_spec(),
            match self.body_spec() {
                Some(body) => dispatch.call matches TransportCall::WithPayload(p) && p@ == body,
                None => dispatch.call is Bodiless,
            },
    {
        let call = match self.body {
            Some(body) => TransportCall::WithPayload(body),
            None => TransportCall::Bodiless,
        };
        Dispatch { method: self.method, url: self.url, headers: self.headers, call }
    }

    /// Everything the sandboxed dispatcher passes across the start-request
    /// foreign call: the scheme code for the verb, the URL, the body text —
    /// empty when none was set — and the headers in insertion order.
    pub fn host_call(&self) -> (call: HostCall)
        ensures
            call.scheme == spec_scheme_code(self.method_spec()),
            call.url@ == self.url_spec(),
            call.body@ == match self.body_spec() {
                Some(body) => body,
                None => Seq::<char>::empty(),
            },
            headers_view(call.headers@) == self.headers_spec(),
    {
        let body = match &self.body {
            Some(body) => body.clone(),
            None => String::new(),
        };
        let mut headers: Vec<(String, String)> = Vec::new();
        let mut i: usize = 0;
        while i < self.headers.len()
            invariant
                i <= self.headers.len(),
                headers@.len() == i as int,
                forall|j: int|
                    0 <= j < i as int ==> headers@[j].0@ == self.headers@[j].0@
                        && headers@[j].1@ == self.headers@[j].1@,
            decreases self.headers.len() - i,
        {
            let pair = &self.headers[i];
            headers.push((pair.0.clone(), pair.1.clone()));
            i += 1;
        }
        proof {
            assert(headers_view(headers@) =~= self.headers_spec());
        }
        HostCall { scheme: scheme_code(self.method), url: self.url.clone(), body, headers }
    }
}

/// Which transport variant the native worker invokes: the payload-sending
/// one, carrying the body, or the bodiless one.
pub enum TransportCall {
    WithPayload(String),
    Bodiless,
}

/// What the native dispatcher hands its worker thread.
pub struct Dispatch {
    pub method: Method,
    pub url: String,
    pub headers: Vec<(String, String)>,
    pub call: TransportCall,
}

/// What the sandboxed dispatcher passes to the host to start a request.
pub struct HostCall {
    pub scheme: i32,
    pub url: String,
    pub body: String,
    pub headers: Vec<(String, String)>,
}

} // verus!
