use vstd::prelude::*;

use crate::api_result::LinksAPIResult;
use crate::decode::{decode_links_result, lemma_decoded_result_wf};
use crate::entity_type::EntityType;
use crate::errors::OdesliError;
use crate::json::{JsonValue, json_document_of, parse_json};
use crate::platforms::Platform;

verus! {

/// The root of the Odesli API.
pub const BASE_URL: &'static str = "https://api.song.link";

/// The API version that clients use unless told otherwise.
pub const API_VERSION: &'static str = "v1-alpha.1";

/// The path of the links endpoint below the versioned root.
pub const LINKS_ENDPOINT: &'static str = "links";

/// The HTTP client that sends the requests: opaque here, carried through.
#[verifier::external_type_specification]
#[verifier::external_body]
pub struct ExHttpClient(reqwest::Client);

/// Relies on `reqwest::Client::builder().build()`: a client with the default
/// configuration, or an error where the machine cannot set up a TLS backend or
/// read its resolver configuration. Which of the two comes back depends on the
/// machine, so nothing is stated of it.
#[verifier::external_body]
fn default_http_client() -> (r: Result<reqwest::Client, reqwest::Error>) {
    reqwest::Client::builder().build()
}

/// Relies on `Clone` of `reqwest::Client`: a handle to the same connection pool.
pub assume_specification[ <reqwest::Client as Clone>::clone ](c: &reqwest::Client) -> reqwest::Client;

/// The settings of a client that decide what it sends.
pub struct ClientConfig {
    pub api_key: Option<Seq<char>>,
    pub api_version: Seq<char>,
}

/// The settings of a built client: its key and the versioned API root.
pub struct OdesliClientView {
    pub api_key: Option<Seq<char>>,
    pub api_url: Seq<char>,
}

/// Query parameters as text pairs.
pub open spec fn params_view(p: Seq<(String, String)>) -> Seq<(Seq<char>, Seq<char>)> {
    p.map_values(|e: (String, String)| (e.0@, e.1@))
}

/// The `key` parameter where a key is set; nothing otherwise.
pub open spec fn key_params(api_key: Option<Seq<char>>) -> Seq<(Seq<char>, Seq<char>)> {
    match api_key {
        Some(k) => seq![("key"@, k)],
        None => Seq::empty(),
    }
}

/// Whether an HTTP status code is a success code (2xx).
pub open spec fn is_success(status: u16) -> bool {
    200 <= status <= 299
}

/// Helper to build an `OdesliClient`: sets the API key, the API version and
/// the HTTP client used for the calls.
pub struct ClientBuilder {
    api_key: Option<String>,
    api_version: String,
    http_client: reqwest::Client,
}

impl View for ClientBuilder {
    type V = ClientConfig;

    closed spec fn view(&self) -> ClientConfig {
        ClientConfig {
            api_key: crate::api_result::opt_text(self.api_key),
            api_version: self.api_version@,
        }
    }
}

impl ClientBuilder {
    /// The HTTP client that the built client will send its requests with.
    pub closed spec fn transport(&self) -> reqwest::Client {
        self.http_client
    }

    /// No key, the current API version, and the given HTTP client.
    pub fn new(http_client: reqwest::Client) -> (r: ClientBuilder)
        ensures
            r@.api_key is None,
            r@.api_version == API_VERSION@,
            r.transport() == http_client,
    {
        ClientBuilder { api_key: None, api_version: String::from_str(API_VERSION), http_client }
    }

    /// No key, the current API version, and an HTTP client with reqwest's
    /// default configuration. Fails where that client cannot be set up.
    pub fn try_default() -> (r: Result<ClientBuilder, OdesliError>)
        ensures
            match r {
                Ok(b) => b@.api_key is None && b@.api_version == API_VERSION@,
                Err(e) => e is ReqwestError,
            },
    {
        match default_http_client() {
            Ok(client) => Ok(ClientBuilder::new(client)),
            Err(e) => Err(OdesliError::ReqwestError(e)),
        }
    }

    /// Sets the API key that every request carries.
    pub fn with_api_key(self, key: String) -> (r: ClientBuilder)
        ensures
            r@.api_key == Some(key@),
            r@.api_version == self@.api_version,
            r.transport() == self.transport(),
    {
        ClientBuilder { api_key: Some(key), ..self }
    }

    /// Sets the API version; "v1-alpha.1" is the only one the service offers.
    pub fn with_api_version(self, version: String) -> (r: ClientBuilder)
        ensures
            r@.api_key == self@.api_key,
            r@.api_version == version@,
            r.transport() == self.transport(),
    {
        ClientBuilder { api_version: version, ..self }
    }

    /// Sets the HTTP client that sends the requests.
    pub fn with_http_client(self, client: reqwest::Client) -> (r: ClientBuilder)
        ensures
            r@ == self@,
            r.transport() == client,
    {
        ClientBuilder { http_client: client, ..self }
    }

    /// The client with this configuration; its API root is the base URL
    /// followed by the version.
    pub fn build(self) -> (r: OdesliClient)
        ensures
            r@.api_key == self@.api_key,
            r@.api_url == BASE_URL@ + "/"@ + self@.api_version,
            r.transport() == self.transport(),
    {
        let api_url = String::from_str(BASE_URL).concat("/").concat(self.api_version.as_str());
        OdesliClient { api_key: self.api_key, api_url, http_client: self.http_client }
    }
}

/// What one call of the links endpoint sends: the endpoint's URL and the
/// query parameters, in order.
pub struct LinksRequest {
    pub endpoint: String,
    pub query: Vec<(String, String)>,
}

/// A client of the Odesli links endpoint. It decides what each lookup sends
/// and what its response means; the transport sends the request.
pub struct OdesliClient {
    api_key: Option<String>,
    api_url: String,
    http_client: reqwest::Client,
}

impl Clone for OdesliClient {
    fn clone(&self) -> (r: OdesliClient)
        ensures
            r@ == self@,
    {
        OdesliClient {
            api_key: self.api_key.clone(),
            api_url: self.api_url.clone(),
            http_client: self.http_client.clone(),
        }
    }
}

impl View for OdesliClient {
    type V = OdesliClientView;

    closed spec fn view(&self) -> OdesliClientView {
        OdesliClientView {
            api_key: crate::api_result::opt_text(self.api_key),
            api_url: self.api_url@,
        }
    }
}

impl OdesliClient {
    /// The HTTP client that sends this client's requests.
    pub closed spec fn transport(&self) -> reqwest::Client {
        self.http_client
    }

    /// The HTTP client that sends this client's requests.
    pub fn http_client(&self) -> (r: &reqwest::Client)
        ensures
            *r == self.transport(),
    {
        &self.http_client
    }

    /// The URL of the links endpoint: the versioned API root, then the
    /// endpoint's path.
    pub fn links_endpoint(&self) -> (r: String)
        ensures
            r@ == self@.api_url + "/"@ + LINKS_ENDPOINT@,
    {
        self.api_url.clone().concat("/").concat(LINKS_ENDPOINT)
    }

    /// The request for the given parameters: the links endpoint, and the
    /// parameters followed by the API key where one is set.
    fn request(&self, params: Vec<(String, String)>) -> (r: LinksRequest)
        ensures
            r.endpoint@ == self@.api_url + "/"@ + LINKS_ENDPOINT@,
            params_view(r.query@) == params_view(params@) + key_params(self@.api_key),
    {
        let mut query = params;
        let ghost before = query@;
        match &self.api_key {
            Some(key) => {
                query.push((String::from_str("key"), key.clone()));
                assert(params_view(query@) =~= params_view(before) + key_params(self@.api_key));
            },
            None => {
                assert(params_view(query@) =~= params_view(before) + key_params(self@.api_key));
            },
        }
        LinksRequest { endpoint: self.links_endpoint(), query }
    }

    /// The request that looks up a song or album by its URL on some platform.
    pub fn request_by_url(&self, url: &str) -> (r: LinksRequest)
        ensures
            r.endpoint@ == self@.api_url + "/"@ + LINKS_ENDPOINT@,
            params_view(r.query@) == seq![("url"@, url@)] + key_params(self@.api_key),
    {
        let params = vec![(String::from_str("url"), String::from_str(url))];
        assert(params_view(params@) =~= seq![("url"@, url@)]);
        self.request(params)
    }

    /// The request that looks up a song or album by its ID on a platform.
    pub fn request_by_id(&self, id: &str, platform: &Platform, entity_type: &EntityType) -> (r:
        LinksRequest)
        ensures
            r.endpoint@ == self@.api_url + "/"@ + LINKS_ENDPOINT@,
            params_view(r.query@) == seq![
                ("id"@, id@),
                ("platform"@, platform.wire()),
                ("type"@, entity_type.wire()),
            ] + key_params(self@.api_key),
    {
        let params = vec![
            (String::from_str("id"), String::from_str(id)),
            (String::from_str("platform"), String::from_str(platform.as_str())),
            (String::from_str("type"), String::from_str(entity_type.as_str())),
        ];
        assert(params_view(params@) =~= seq![
            ("id"@, id@),
            ("platform"@, platform.wire()),
            ("type"@, entity_type.wire()),
        ]);
        self.request(params)
    }

    /// What a success response means, given what reading its body as JSON
    /// gave: the decoded links result, or a parse error that keeps the body.
    pub fn interpret_body(body: String, document: Result<JsonValue, String>) -> (r: Result<
        LinksAPIResult,
        OdesliError,
    >)
        ensures
            match document {
                Err(msg) => r matches Err(OdesliError::ParseError { error, body: b }) && error
                    == msg && b == body,
                Ok(j) => match decode_links_result(j) {
                    Ok(v) => r matches Ok(res) && res@ == v,
                    Err(msg) => r matches Err(OdesliError::ParseError { error, body: b }) && error@
                        == msg && b == body,
                },
            },
    {
        match document {
            Err(error) => Err(OdesliError::ParseError { error, body }),
            Ok(j) => match LinksAPIResult::from_json(&j) {
                Ok(res) => Ok(res),
                Err(error) => Err(OdesliError::ParseError { error, body }),
            },
        }
    }

    /// What a response means. A status that is not a success code is an
    /// error with the status and the body, and the body is not parsed. A
    /// success body is parsed as JSON and decoded; where either fails the
    /// error keeps the body.
    pub fn handle_response(status: u16, body: String) -> (r: Result<LinksAPIResult, OdesliError>)
        ensures
            !is_success(status) ==> (r matches Err(OdesliError::Non200StatusCode { status_code, body: b })
                && status_code == status && b == body),
            is_success(status) ==> match json_document_of(body@) {
                Some(j) => match decode_links_result(j) {
                    Ok(v) => r matches Ok(res) && res@ == v,
                    Err(msg) => r matches Err(OdesliError::ParseError { error, body: b }) && error@
                        == msg && b == body,
                },
                None => r matches Err(OdesliError::ParseError { body: b, .. }) && b == body,
            },
            r matches Ok(res) ==> res@.wf(),
    {
        if status < 200 || status > 299 {
            return Err(OdesliError::Non200StatusCode { status_code: status, body });
        }
        let document = parse_json(body.as_str());
        proof {
            if document is Ok && decode_links_result(document->Ok_0) is Ok {
                lemma_decoded_result_wf(document->Ok_0);
            }
        }
        OdesliClient::interpret_body(body, document)
    }
}

} // verus!
