//! The handle on the remote service that every command shares.

use tonic::transport::Channel;
use vstd::prelude::*;

verus! {

/// The connection to the remote service, as tonic opened it. Values of it are
/// only carried; nothing here looks inside one.
#[verifier::external_type_specification]
#[verifier::external_body]
pub struct ExChannel(Channel);

/// Metadata key under which every request carries the API token.
pub const API_TOKEN_ENTRY_KEY: &'static str = "API_TOKEN";

/// Adds the API token to each request.
#[derive(Clone, Debug, PartialEq, Eq)]
pub struct ClientInterceptor {
    api_token: String,
}

impl ClientInterceptor {
    pub fn new(api_token: String) -> (r: Self)
        ensures
            r.spec_api_token() == api_token@,
    {
        ClientInterceptor { api_token }
    }

    pub closed spec fn spec_api_token(&self) -> Seq<char> {
        self.api_token@
    }

    pub fn api_token(&self) -> (r: &str)
        ensures
            r@ == self.spec_api_token(),
    {
        self.api_token.as_str()
    }
}

/// An explicitly built, shared handle on the remote service: the connection
/// and the interceptor that authenticates each call.
pub struct Client {
    pub channel: Channel,
    pub interceptor: ClientInterceptor,
}

impl Client {
    pub fn new(channel: Channel, api_token: String) -> (r: Self)
        ensures
            r.channel == channel,
            r.interceptor.spec_api_token() == api_token@,
    {
        Client { channel, interceptor: ClientInterceptor::new(api_token) }
    }
}

} // verus!
