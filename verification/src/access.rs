//! Revoking an access token.
//!
//! The request builder assembles the transport request for the revoke
//! endpoint; sending it and decoding the response body are left to the
//! application's transport and codec.

use vstd::prelude::*;

use crate::error::{PubNubError, PubNubErrorModel};
use crate::transport::{TransportMethod, TransportRequest, TransportResponse};

verus! {

/// What `urlencoding::encode` returns for these characters: the result
/// depends on the characters alone.
pub uninterp spec fn spec_url_encoded(s: Seq<char>) -> Seq<char>;

/// Whether the character passes through percent-encoding unchanged:
/// ASCII alphanumerics and `-`, `_`, `.`, `~`.
pub open spec fn spec_url_unreserved(c: char) -> bool {
    ||| 'a' <= c <= 'z'
    ||| 'A' <= c <= 'Z'
    ||| '0' <= c <= '9'
    ||| c == '-'
    ||| c == '_'
    ||| c == '.'
    ||| c == '~'
}

/// Relies on `urlencoding::encode`: percent-encodes every byte except
/// ASCII alphanumerics and `-`, `_`, `.`, `~`, so a string of those
/// characters alone passes through unchanged, and the result is a pure
/// function of the input characters.
#[verifier::external_body]
fn url_encode(s: &str) -> (r: String)
    ensures
        r@ == spec_url_encoded(s@),
        (forall|i: int| 0 <= i < s@.len() ==> spec_url_unreserved(#[trigger] s@[i])) ==> r@ == s@,
{
    urlencoding::encode(s).into_owned()
}

/// The path of the revoke endpoint for this key and token.
pub open spec fn spec_revoke_path(subscribe_key: Seq<char>, token: Seq<char>) -> Seq<char> {
    "/v3/pam/"@ + subscribe_key + "/grant/"@ + spec_url_encoded(token)
}

/// A request to revoke the permissions of an access token.
#[derive(Debug, PartialEq)]
pub struct RevokeTokenRequest {
    /// The account's subscribe key.
    pub subscribe_key: String,
    /// The token whose permissions should be revoked.
    pub token: String,
}

/// Ghost counterpart of [`RevokeTokenRequest`].
pub ghost struct RevokeTokenRequestModel {
    pub subscribe_key: Seq<char>,
    pub token: Seq<char>,
}

impl DeepView for RevokeTokenRequest {
    type V = RevokeTokenRequestModel;

    open spec fn deep_view(&self) -> RevokeTokenRequestModel {
        RevokeTokenRequestModel {
            subscribe_key: self.subscribe_key.deep_view(),
            token: self.token.deep_view(),
        }
    }
}

/// Successful completion of a revoke request. The endpoint returns no
/// data beyond the acknowledgement.
#[derive(Debug, PartialEq)]
pub struct RevokeTokenResult;

/// The core's pluggable codec for the revoke endpoint's response body.
/// The application implements it; the core promises nothing about what
/// it returns.
pub trait RevokeTokenDeserializer {
    /// Decode a response body into the revoke result.
    fn deserialize(&self, bytes: &Vec<u8>) -> Result<RevokeTokenResult, PubNubError>;
}

impl RevokeTokenRequest {
    /// The transport request for this revoke: a DELETE of the token's
    /// grant, with the token percent-encoded into the path.
    pub fn transport_request(&self) -> (r: TransportRequest)
        ensures
            r.deep_view().path == spec_revoke_path(
                self.deep_view().subscribe_key,
                self.deep_view().token,
            ),
            r.deep_view().method == TransportMethod::Delete,
            r.deep_view().headers == seq![("Content-Type"@, "application/json"@)],
            r.deep_view().query_parameters == Seq::<(Seq<char>, Seq<char>)>::empty(),
            r.deep_view().body is None,
    {
        let encoded = url_encode(self.token.as_str());
        let path = "/v3/pam/".to_owned().concat(self.subscribe_key.as_str()).concat(
            "/grant/",
        ).concat(encoded.as_str());
        let mut headers: Vec<(String, String)> = Vec::new();
        headers.push(("Content-Type".to_owned(), "application/json".to_owned()));
        let query_parameters: Vec<(String, String)> = Vec::new();
        proof {
            assert(headers.deep_view() =~= seq![("Content-Type"@, "application/json"@)]);
            assert(query_parameters.deep_view() =~= Seq::<(Seq<char>, Seq<char>)>::empty());
        }
        TransportRequest {
            path,
            query_parameters,
            method: TransportMethod::Delete,
            headers,
            body: None,
        }
    }

    /// Decode the transport's answer to a revoke request: a response
    /// without a body is an API error; a body is handed to the codec,
    /// whose verdict is returned as is.
    pub fn process_response<D: RevokeTokenDeserializer>(
        &self,
        response: TransportResponse,
        deserializer: &D,
    ) -> (r: Result<RevokeTokenResult, PubNubError>)
        ensures
            response.deep_view().body is None ==> (r matches Err(e) && e.deep_view() matches
                PubNubErrorModel::API { status: 400u16, .. }),
    {
        match response.body {
            Some(bytes) => deserializer.deserialize(&bytes),
            None => Err(PubNubError::general_api_error("No body in the response!", None)),
        }
    }
}

/// Builder step that still lacks the codec for the response body.
#[derive(Debug, PartialEq)]
pub struct RevokeTokenRequestWithDeserializerBuilder {
    /// The account's subscribe key.
    pub subscribe_key: String,
    /// The token whose permissions should be revoked.
    pub token: String,
}

/// Builder that has both the request and the codec.
pub struct RevokeTokenRequestBuilder<D> {
    /// The assembled request.
    pub request: RevokeTokenRequest,
    /// The codec for the response body.
    pub deserializer: D,
}

impl<D: RevokeTokenDeserializer> RevokeTokenRequestBuilder<D> {
    /// Check that the request can be sent: the configuration must name a
    /// non-empty subscribe key.
    pub fn validate(&self) -> (r: Result<(), String>)
        ensures
            if self.request.deep_view().subscribe_key.len() == 0 {
                r matches Err(msg) && msg@
                    == "Incomplete PubNub client configuration: 'subscribe_key' is empty."@
            } else {
                r is Ok
            },
    {
        crate::client::validate_configuration(&Some(self.request.subscribe_key.clone()))
    }

    /// Send the revoke request over the blocking transport and decode the
    /// answer. A configuration that fails validation is refused with an
    /// API error before anything is sent. The transport and the codec are
    /// outside the core's control; what the core itself contributes is
    /// pinned down by [`RevokeTokenRequestBuilder::validate`],
    /// [`RevokeTokenRequest::transport_request`] and
    /// [`RevokeTokenRequest::process_response`].
    pub fn execute_blocking<T: crate::transport::Transport>(&self, transport: &T) -> (r: Result<
        RevokeTokenResult,
        PubNubError,
    >)
        ensures
            self.request.deep_view().subscribe_key.len() == 0 ==> (r matches Err(e)
                && e.deep_view() matches PubNubErrorModel::API { status: 400u16, .. }),
    {
        match self.validate() {
            Err(message) => Err(PubNubError::general_api_error(message.as_str(), None)),
            Ok(()) => {
                let request = self.request.transport_request();
                match transport.send(request) {
                    Ok(response) => self.request.process_response(response, &self.deserializer),
                    Err(e) => Err(e),
                }
            },
        }
    }
}

impl RevokeTokenRequestWithDeserializerBuilder {
    /// Add the codec for the response body.
    pub fn deserialize_with<D: RevokeTokenDeserializer>(self, deserializer: D) -> (r:
        RevokeTokenRequestBuilder<D>)
        ensures
            r.request.deep_view() == (RevokeTokenRequestModel {
                subscribe_key: self.subscribe_key.deep_view(),
                token: self.token.deep_view(),
            }),
    {
        RevokeTokenRequestBuilder {
            request: RevokeTokenRequest { subscribe_key: self.subscribe_key, token: self.token },
            deserializer,
        }
    }
}

} // verus!
