//! Postmark client
use vstd::prelude::*;
use vstd::string::StringExecFns;

use crate::api::ApiRequest;
use crate::config::ServiceConfig;
use crate::email::delivery::EmailDelivery;
use crate::email::message::EmailMessage;
use crate::error::Error;
use crate::execute::{Execute, HttpReply, WireRequest};
use crate::json::json_parses;
use crate::postmark::request::PostmarkEmailRequest;
use crate::postmark::response::{spec_delivery_of_receipt, spec_receipt_complete,
    spec_receipt_fields, PostmarkEmailResponse};
use crate::service::EmailService;

verus! {

/// The http crate's request, carried through opaquely.
#[verifier::external_type_specification]
#[verifier::external_body]
#[verifier::reject_recursive_types(T)]
pub struct ExHttpRequest<T>(http::Request<T>);

/// The bytes crate's buffer, carried through opaquely.
#[verifier::external_type_specification]
#[verifier::external_body]
pub struct ExBytes(bytes::Bytes);

/// The text is a well-formed HTTP method, as http's Method parses it.
pub uninterp spec fn method_ok(method: Seq<char>) -> bool;

/// The text is a well-formed URL, as http's Uri parses it.
pub uninterp spec fn uri_ok(uri: Seq<char>) -> bool;

/// The pair is a well-formed header name and value, as http's
/// HeaderName and HeaderValue parse them.
pub uninterp spec fn header_ok(name: Seq<char>, value: Seq<char>) -> bool;

/// Every header pair in the sequence is well formed.
pub open spec fn headers_ok(headers: Seq<(Seq<char>, Seq<char>)>) -> bool {
    forall|i: int| 0 <= i < headers.len() ==> #[trigger] header_ok(headers[i].0, headers[i].1)
}

/// Relies on http's request builder (Request::builder and
/// Builder::method, uri, header, body): each part is parsed by its own
/// TryFrom, the first failure is stored and surfaced by body(), and the
/// body bytes never decide; appending a header can also fail only at a
/// map capacity far above the admitted length.  So the request
/// assembles exactly when every part is well formed.  A failure is
/// handed back as the error's display text.
#[verifier::external_body]
fn build_http(w: WireRequest) -> (r: Result<http::Request<bytes::Bytes>, String>)
    requires
        w.headers@.len() <= 1000,
    ensures
        r is Ok <==> (method_ok(w.method@) && uri_ok(w.uri@) && (forall|i: int|
            0 <= i < w.headers.deep_view().len() ==> #[trigger] header_ok(
                w.headers.deep_view()[i].0,
                w.headers.deep_view()[i].1,
            ))),
{
    let mut builder = http::Request::builder().method(w.method.as_str()).uri(w.uri.as_str());
    for (name, value) in &w.headers {
        builder = builder.header(name.as_str(), value.as_str());
    }
    builder.body(bytes::Bytes::from(w.body)).map_err(|e| e.to_string())
}

/// The name of the header carrying the server token.
pub open spec fn spec_server_token_header() -> Seq<char> {
    "X-Postmark-Server-Token"@
}

/// The name of the header carrying the account token.
pub open spec fn spec_account_token_header() -> Seq<char> {
    "X-Postmark-Account-Token"@
}

/// The headers the client attaches to every request: the content type
/// and the authentication tokens from the configuration.
pub open spec fn spec_auth_headers(config: ServiceConfig) -> Seq<(Seq<char>, Seq<char>)> {
    let base = seq![
        ("content-type"@, "application/json"@),
        (spec_server_token_header(), config.server_token@),
    ];
    match config.account_token {
        None => base,
        Some(t) => base.push((spec_account_token_header(), t@)),
    }
}

/// Client for interacting with Postmark APIs
///
/// The configuration holds the authentication tokens, so the client
/// deliberately has no Debug impl: debug output must not carry them.
pub struct PostmarkClient<C> {
    /// Service configuration data
    pub config: ServiceConfig,
    /// HTTP Client
    pub client: C,
}

impl<C> PostmarkClient<C> {
    /// Creates a client around the given HTTP transport and
    /// configuration.
    pub fn new(client: C, config: ServiceConfig) -> (r: PostmarkClient<C>)
        ensures
            r.client == client,
            r.config == config,
    {
        PostmarkClient { config, client }
    }

    /// Lays the API request out as one HTTP request in plain values:
    /// its method and serialized body are the request's own, the URL
    /// puts the endpoint path after the configured base URL, and the
    /// headers carry the content type and the configured tokens.
    pub fn wire_request<R: ApiRequest>(&self, request: &R) -> (w: WireRequest)
        ensures
            w.method@ == request.spec_method(),
            w.uri@ == self.config.base_url@ + request.spec_endpoint(),
            w.headers.deep_view() == spec_auth_headers(self.config),
            w.body@ == request.spec_body_json(),
    {
        let method = request.method();
        let uri = self.config.base_url.clone().concat(request.endpoint().as_str());
        let body = request.body_json();
        let mut headers: Vec<(String, String)> = Vec::new();
        headers.push((String::from_str("content-type"), String::from_str("application/json")));
        headers.push(
            (String::from_str("X-Postmark-Server-Token"), self.config.server_token.clone()),
        );
        if let Some(token) = &self.config.account_token {
            headers.push((String::from_str("X-Postmark-Account-Token"), token.clone()));
        }
        proof {
            assert(headers.deep_view() =~= spec_auth_headers(self.config));
        }
        WireRequest { method, uri, headers, body }
    }

    /// Creates new HTTP request for sending an email via the Postmark
    /// API.  It succeeds exactly when the method, the URL put together
    /// from the configured base and the endpoint, and every attached
    /// header are well formed; what the built request carries is stated
    /// by [`Self::wire_request`], whose parts are handed to the
    /// builder unchanged.
    pub fn new_http_request<R: ApiRequest>(&self, request: &R) -> (r: Result<
        http::Request<bytes::Bytes>,
        Error,
    >)
        ensures
            r is Ok <==> (method_ok(request.spec_method()) && uri_ok(
                self.config.base_url@ + request.spec_endpoint(),
            ) && headers_ok(spec_auth_headers(self.config))),
            r matches Err(e) ==> (e matches Error::SendFailed(m) && m@.subrange(
                0,
                "failed to build HTTP request: "@.len() as int,
            ) == "failed to build HTTP request: "@),
    {
        let wire = self.wire_request(request);
        proof {
            assert(wire.headers.deep_view().len() <= 3);
        }
        match build_http(wire) {
            Ok(request) => Ok(request),
            Err(text) => {
                let m = String::from_str("failed to build HTTP request: ").concat(text.as_str());
                proof {
                    assert(("failed to build HTTP request: "@ + text@).subrange(
                        0,
                        "failed to build HTTP request: "@.len() as int,
                    ) =~= "failed to build HTTP request: "@);
                }
                Err(Error::SendFailed(m))
            },
        }
    }
}

/// Interprets the provider's reply to a send: a reply with status 429
/// is the rate limit, and any other reply is read as a delivery
/// receipt, succeeding exactly when its body carries one.
pub fn interpret_reply(reply: &HttpReply) -> (r: Result<PostmarkEmailResponse, Error>)
    ensures
        reply.status == 429 <==> (r matches Err(e) && e is RateLimitExceeded),
        reply.status != 429 ==> (r is Ok ==> json_parses(reply.body@)),
        reply.status != 429 && json_parses(reply.body@) ==> (r is Ok
            <==> spec_receipt_complete(reply.body@)),
        reply.status != 429 ==> (r matches Ok(res)
            ==> spec_receipt_fields(reply.body@, res)),
        reply.status != 429 && !json_parses(reply.body@) ==> (r matches Err(e) && e matches
            Error::SendFailed(m) && m@.subrange(0, "failed to parse response: "@.len() as int)
            == "failed to parse response: "@),
        reply.status != 429 && json_parses(reply.body@)
            && !spec_receipt_complete(reply.body@) ==> (r matches Err(e)
            && e matches Error::SendFailed(m) && m@
            == "failed to parse response: missing or invalid receipt field"@),
        reply.status != 429 ==> (r matches Err(e) ==> e matches Error::SendFailed(_)),
{
    if reply.status == 429 {
        return Err(Error::RateLimitExceeded);
    }
    PostmarkEmailResponse::try_from(reply)
}

impl<C: Execute> PostmarkClient<C> {
    /// Sends an email through the configured provider: maps the
    /// message onto the provider's request shape, posts it over the
    /// injected transport, and interprets the receipt that comes back.
    ///
    /// The reply and any transport error are the injected transport's
    /// own, so nothing can be promised of which reply arrives; what is
    /// promised is that a successful send returns, field for field, the
    /// five receipt members of a reply body that parsed as a complete
    /// receipt, as [`interpret_reply`] reads one.
    pub fn send_email(&self, email: EmailMessage) -> (r: Result<EmailDelivery, Error>)
        ensures
            r matches Ok(d) ==> (exists|bytes: Seq<u8>|
                #![trigger json_parses(bytes)]
                json_parses(bytes) && spec_receipt_complete(bytes) && spec_delivery_of_receipt(
                    bytes,
                    d,
                )),
    {
        let request = PostmarkEmailRequest::from(email);
        let wire = self.wire_request(&request);
        let reply = match self.client.execute(&wire) {
            Ok(reply) => reply,
            Err(e) => {
                return Err(e);
            },
        };
        match interpret_reply(&reply) {
            Ok(receipt) => {
                let delivery = EmailDelivery::from(receipt);
                proof {
                    assert(json_parses(reply.body@) && spec_receipt_complete(reply.body@)
                        && spec_delivery_of_receipt(reply.body@, delivery));
                }
                Ok(delivery)
            },
            Err(e) => Err(e),
        }
    }
}

impl<C: Execute> EmailService<EmailMessage, EmailDelivery> for PostmarkClient<C> {
    fn send_email(&self, email: EmailMessage) -> Result<EmailDelivery, Error> {
        PostmarkClient::<C>::send_email(self, email)
    }
}

} // verus!
