//! The HTTP facade's simulator backend.
//!
//! Under simulation no real HTTP is spoken: the simulator client accepts any
//! request and answers with an empty success, so code built over the facade
//! runs deterministically. The method names are the usual wire names.

use vstd::prelude::*;
use vstd::string::StrSliceExecFns;
use vstd::string::StringSliceAdditionalSpecFns;

verus! {

/// An HTTP request method.
#[derive(Clone, Copy, Debug, PartialEq, Eq, Structural)]
pub enum Method {
    Get,
    Post,
    Put,
    Patch,
    Delete,
    Head,
    Options,
    Connect,
    Trace,
}

/// The wire name of each method.
pub open spec fn method_text(m: Method) -> Seq<u8> {
    match m {
        Method::Get => "GET".spec_bytes(),
        Method::Post => "POST".spec_bytes(),
        Method::Put => "PUT".spec_bytes(),
        Method::Patch => "PATCH".spec_bytes(),
        Method::Delete => "DELETE".spec_bytes(),
        Method::Head => "HEAD".spec_bytes(),
        Method::Options => "OPTIONS".spec_bytes(),
        Method::Connect => "CONNECT".spec_bytes(),
        Method::Trace => "TRACE".spec_bytes(),
    }
}

impl Method {
    /// The wire name of this method.
    pub fn to_text(&self) -> (r: Vec<u8>)
        ensures
            r@ == method_text(*self),
    {
        match self {
            Method::Get => "GET".as_bytes_vec(),
            Method::Post => "POST".as_bytes_vec(),
            Method::Put => "PUT".as_bytes_vec(),
            Method::Patch => "PATCH".as_bytes_vec(),
            Method::Delete => "DELETE".as_bytes_vec(),
            Method::Head => "HEAD".as_bytes_vec(),
            Method::Options => "OPTIONS".as_bytes_vec(),
            Method::Connect => "CONNECT".as_bytes_vec(),
            Method::Trace => "TRACE".as_bytes_vec(),
        }
    }
}

/// The stub client the simulator backend offers.
pub struct SimulatorClient;

impl SimulatorClient {
    pub fn new() -> (r: Self)
        ensures
            r == SimulatorClient,
    {
        SimulatorClient
    }

    /// Start a request; the method and target are accepted and ignored.
    pub fn request(&self, method: Method, url: &Vec<u8>) -> (r: SimulatorRequestBuilder)
        ensures
            r == SimulatorRequestBuilder,
    {
        let _ = method;
        let _ = url;
        SimulatorRequestBuilder
    }
}

/// A request under construction; every refinement is a no-op.
pub struct SimulatorRequestBuilder;

impl SimulatorRequestBuilder {
    pub fn header(&mut self, name: &Vec<u8>, value: &Vec<u8>)
        ensures
            *final(self) == *old(self),
    {
        let _ = name;
        let _ = value;
    }

    pub fn body(&mut self, body: Vec<u8>)
        ensures
            *final(self) == *old(self),
    {
        let _ = body;
    }

    /// Send the request: under simulation every request succeeds with the
    /// empty response.
    pub fn send(&mut self) -> (r: SimulatorResponse)
        ensures
            r == SimulatorResponse,
    {
        SimulatorResponse
    }
}

/// The stub response: an empty success.
pub struct SimulatorResponse;

impl SimulatorResponse {
    /// Always plain success.
    pub fn status(&self) -> (r: u16)
        ensures
            r == 200,
    {
        200
    }

    /// No headers.
    pub fn headers(&self) -> (r: Vec<(Vec<u8>, Vec<u8>)>)
        ensures
            r@.len() == 0,
    {
        Vec::new()
    }

    /// An empty body.
    pub fn text(&self) -> (r: Vec<u8>)
        ensures
            r@.len() == 0,
    {
        Vec::new()
    }

    /// An empty body.
    pub fn bytes(&self) -> (r: Vec<u8>)
        ensures
            r@.len() == 0,
    {
        Vec::new()
    }
}

} // verus!
