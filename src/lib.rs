//! A client library for the Odesli (song.link) links API: typed platform,
//! provider and entity tables, the result model, decoding of the API's JSON
//! responses, and the request and response rules of the client.

pub mod api_result;
pub mod client;
pub mod decode;
pub mod entity_type;
pub mod errors;
pub mod json;
pub mod platforms;
pub mod text;

pub use api_result::{Entity, EntityView, Link, LinkView, LinksAPIResult, LinksAPIResultView};
pub use client::{
    API_VERSION, BASE_URL, ClientBuilder, ClientConfig, LINKS_ENDPOINT, LinksRequest, OdesliClient,
    OdesliClientView,
};
pub use entity_type::EntityType;
pub use errors::OdesliError;
pub use json::{JsonValue, get_member, parse_json};
pub use platforms::{APIProvider, Platform};
