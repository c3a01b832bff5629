//! The client: a token, a base URL, and the request they give rise to.

use crate::body::{body_of, notification_body};
use crate::outcome::{outcome_of, ReplyView};
use crate::request::{header_views, Header, HeaderView, PostRequest, PostRequestView};
use vstd::prelude::*;
use vstd::string::StringExecFns;

verus! {

/// A client of the Pushinator service.
///
/// It holds the API token and the base URL it was made with. Neither can be
/// changed afterwards, and building a request leaves no trace in the client.
pub struct PushinatorClient {
    api_token: String,
    base_url: String,
}

/// The mathematical content of a [`PushinatorClient`].
pub struct ClientConfig {
    pub api_token: Seq<char>,
    pub base_url: Seq<char>,
}

impl View for PushinatorClient {
    type V = ClientConfig;

    closed spec fn view(&self) -> ClientConfig {
        ClientConfig { api_token: self.api_token@, base_url: self.base_url@ }
    }
}

/// The base URL of the production service.
pub open spec fn production_base_url() -> Seq<char> {
    "https://api.pushinator.com"@
}

/// The URL that notifications are posted to: the base URL followed by the
/// fixed submission path.
pub open spec fn endpoint_of(base_url: Seq<char>) -> Seq<char> {
    base_url + "/api/v2/notifications/send"@
}

/// The value of the `Authorization` header for a token.
pub open spec fn bearer_of(api_token: Seq<char>) -> Seq<char> {
    "Bearer "@ + api_token
}

/// The headers of every request, in the order in which they are attached.
pub open spec fn headers_of(api_token: Seq<char>) -> Seq<HeaderView> {
    seq![
        HeaderView { name: "Authorization"@, value: bearer_of(api_token) },
        HeaderView { name: "Content-Type"@, value: "application/json"@ },
        HeaderView { name: "User-Agent"@, value: "pushinator-rust/1.0"@ },
    ]
}

/// The request by which a client with configuration `config` posts `body`.
pub open spec fn request_of(config: ClientConfig, body: Seq<char>) -> PostRequestView {
    PostRequestView {
        url: endpoint_of(config.base_url),
        headers: headers_of(config.api_token),
        body: body,
    }
}

impl PushinatorClient {
    /// Makes a client of the production service. The token is taken as it
    /// is: an empty or malformed one is for the service to reject.
    pub fn new(api_token: String) -> (client: Self)
        ensures
            client@ == (ClientConfig { api_token: api_token@, base_url: production_base_url() }),
    {
        PushinatorClient { api_token, base_url: String::from_str("https://api.pushinator.com") }
    }

    /// Makes a client that posts to `mock_url` instead of the production
    /// service, as a test against a local server needs it.
    pub fn new_test(api_token: String, mock_url: String) -> (client: Self)
        ensures
            client@ == (ClientConfig { api_token: api_token@, base_url: mock_url@ }),
    {
        PushinatorClient { api_token, base_url: mock_url }
    }

    /// The URL that this client posts to.
    pub fn endpoint(&self) -> (url: String)
        ensures
            url@ == endpoint_of(self@.base_url),
    {
        let mut url = self.base_url.clone();
        url.append("/api/v2/notifications/send");
        url
    }

    /// The headers that this client attaches to every request.
    pub fn headers(&self) -> (headers: Vec<Header>)
        ensures
            header_views(headers@) == headers_of(self@.api_token),
    {
        let mut bearer = String::from_str("Bearer ");
        bearer.append(self.api_token.as_str());
        let mut headers: Vec<Header> = Vec::new();
        headers.push(Header { name: String::from_str("Authorization"), value: bearer });
        headers.push(
            Header {
                name: String::from_str("Content-Type"),
                value: String::from_str("application/json"),
            },
        );
        headers.push(
            Header {
                name: String::from_str("User-Agent"),
                value: String::from_str("pushinator-rust/1.0"),
            },
        );
        assert(header_views(headers@) =~= headers_of(self@.api_token));
        headers
    }

    /// The request by which this client posts a body that is already made.
    pub fn request_with_body(&self, body: String) -> (request: PostRequest)
        ensures
            request@ == request_of(self@, body@),
    {
        PostRequest { url: self.endpoint(), headers: self.headers(), body }
    }

    /// Builds the request that sends `notification` to the channel
    /// `channel_id`.
    ///
    /// It is a `POST` to the client's endpoint with the bearer token of this
    /// client, the JSON content type and this library's user agent, and its
    /// body holds exactly the channel and the message. Nothing is validated
    /// here and the call never fails.
    pub fn build_request(&self, channel_id: &str, notification: &str) -> (request: PostRequest)
        ensures
            request@ == request_of(self@, body_of(channel_id@, notification@)),
    {
        self.request_with_body(notification_body(channel_id, notification))
    }
}

/// Every request of a client carries the `Authorization` header once, as
/// its first header, and the value of that header is `Bearer ` followed by
/// the client's token, whatever the request posts.
pub proof fn lemma_authorization_is_bearer_token(config: ClientConfig, body: Seq<char>)
    ensures
        request_of(config, body).headers[0].name == "Authorization"@,
        request_of(config, body).headers[0].value == "Bearer "@ + config.api_token,
        forall|i: int|
            0 < i < request_of(config, body).headers.len() ==> (#[trigger] request_of(
                config,
                body,
            ).headers[i]).name != "Authorization"@,
{
    reveal_strlit("Authorization");
    reveal_strlit("Content-Type");
    reveal_strlit("User-Agent");
    assert("Content-Type"@[0] != "Authorization"@[0]);
    assert("User-Agent"@[0] != "Authorization"@[0]);
}

/// Clients with the same configuration build the same request for the same
/// channel and message, and the same reply gives the same result: neither
/// depends on anything but these.
pub proof fn lemma_dispatch_is_determined(
    first: ClientConfig,
    second: ClientConfig,
    channel_id: Seq<char>,
    notification: Seq<char>,
    first_reply: ReplyView,
    second_reply: ReplyView,
)
    requires
        first == second,
        first_reply == second_reply,
    ensures
        request_of(first, body_of(channel_id, notification)) == request_of(
            second,
            body_of(channel_id, notification),
        ),
        outcome_of(first_reply) == outcome_of(second_reply),
{
}

} // verus!
