use odesli_rs::{
    get_member, parse_json, ClientBuilder, Entity, EntityType, JsonValue, Link, LinksAPIResult,
    OdesliClient, OdesliError, APIProvider, Platform, API_VERSION,
};

const STUB: &str = r#"{
  "entityUniqueId": "SPOTIFY_SONG::abc",
  "userCountry": "US",
  "pageUrl": "https://song.link/abc",
  "linksByPlatform": {
    "spotify": {
      "entityUniqueId": "SPOTIFY_SONG::abc",
      "url": "https://open.spotify.com/track/abc",
      "nativeAppUriDesktop": "spotify:track:abc"
    },
    "appleMusic": {
      "entityUniqueId": "ITUNES_SONG::123",
      "url": "https://music.apple.com/us/album/x?i=123",
      "nativeAppUriMobile": null
    },
    "itunes": {
      "entityUniqueId": "ITUNES_SONG::123",
      "url": "https://itunes.apple.com/us/album/x?i=123"
    }
  },
  "entitiesByUniqueId": {
    "SPOTIFY_SONG::abc": {
      "id": "abc",
      "type": "song",
      "title": "A Song",
      "artistName": "An Artist",
      "thumbnailUrl": "https://i.scdn.co/image/abc",
      "thumbnailWidth": 640,
      "thumbnailHeight": 640,
      "apiProvider": "spotify",
      "platforms": ["spotify"],
      "extra": [1, 2.5, -3, true]
    },
    "ITUNES_SONG::123": {
      "id": "123",
      "type": "song",
      "apiProvider": "itunes",
      "platforms": ["appleMusic", "itunes"]
    }
  }
}"#;

fn link(key: &str, url: &str) -> Link {
    Link {
        entity_unique_id: String::from(key),
        url: String::from(url),
        native_app_uri_mobile: None,
        native_app_uri_desktop: None,
    }
}

fn entity(id: &str) -> Entity {
    Entity {
        id: String::from(id),
        entity_type: EntityType::Song,
        title: Some(String::from("T")),
        artist_name: None,
        thumbnail_url: None,
        thumbnail_width: None,
        thumbnail_height: None,
        api_provider: APIProvider::Spotify,
        platforms: vec![Platform::Spotify],
    }
}

fn result_with(links: Vec<(Platform, Link)>, entities: Vec<(String, Entity)>) -> LinksAPIResult {
    LinksAPIResult {
        entity_unique_id: String::from("X"),
        user_country: String::from("US"),
        page_url: String::from("https://song.link/x"),
        links_by_platform: links,
        entities_by_unique_id: entities,
    }
}

#[test]
fn platform_entity_present_and_absent() {
    let r = result_with(
        vec![(Platform::Spotify, link("X", "https://a"))],
        vec![(String::from("X"), entity("x-id"))],
    );
    let e = r.get_platform_entity(&Platform::Spotify).expect("spotify entity");
    assert_eq!(e.id, "x-id");
    assert!(r.get_platform_entity(&Platform::Tidal).is_none());
    assert_eq!(r.get_platform_url(&Platform::Spotify).unwrap().url, "https://a");
    assert!(r.get_platform_url(&Platform::Tidal).is_none());
}

#[test]
fn link_to_missing_entity_has_no_entity() {
    let r = result_with(
        vec![(Platform::Deezer, link("GONE", "https://d"))],
        vec![(String::from("X"), entity("x-id"))],
    );
    assert!(r.get_platform_url(&Platform::Deezer).is_some());
    assert!(r.get_platform_entity(&Platform::Deezer).is_none());
}

#[test]
fn empty_result_has_no_links() {
    let r = result_with(vec![], vec![]);
    assert!(r.get_platform_url(&Platform::Spotify).is_none());
    assert!(r.get_platform_entity(&Platform::Spotify).is_none());
}

#[test]
fn not_found_status_keeps_body() {
    let body = String::from("{\"error\":\"not found\"}");
    match OdesliClient::handle_response(404, body) {
        Err(OdesliError::Non200StatusCode { status_code, body }) => {
            assert_eq!(status_code, 404);
            assert_eq!(body, "{\"error\":\"not found\"}");
        }
        other => panic!("unexpected {:?}", other),
    }
}

#[test]
fn non_success_status_is_not_parsed() {
    match OdesliClient::handle_response(500, String::from(STUB)) {
        Err(OdesliError::Non200StatusCode { status_code: 500, body }) => assert_eq!(body, STUB),
        other => panic!("unexpected {:?}", other),
    }
    assert!(matches!(
        OdesliClient::handle_response(199, String::from(STUB)),
        Err(OdesliError::Non200StatusCode { status_code: 199, .. })
    ));
    assert!(matches!(
        OdesliClient::handle_response(300, String::from(STUB)),
        Err(OdesliError::Non200StatusCode { status_code: 300, .. })
    ));
}

#[test]
fn truncated_json_is_parse_error_with_body() {
    let body = String::from(&STUB[..40]);
    match OdesliClient::handle_response(200, body.clone()) {
        Err(OdesliError::ParseError { error, body: b }) => {
            assert_eq!(b, body);
            assert!(!error.is_empty());
        }
        other => panic!("unexpected {:?}", other),
    }
}

#[test]
fn unknown_platform_key_is_parse_error() {
    let body = String::from(
        r#"{"entityUniqueId":"a","userCountry":"US","pageUrl":"p","linksByPlatform":{"myspace":{"entityUniqueId":"a","url":"u"}},"entitiesByUniqueId":{}}"#,
    );
    assert!(matches!(
        OdesliClient::handle_response(200, body),
        Err(OdesliError::ParseError { .. })
    ));
}

#[test]
fn missing_required_field_is_parse_error() {
    let body = String::from(
        r#"{"entityUniqueId":"a","userCountry":"US","linksByPlatform":{},"entitiesByUniqueId":{}}"#,
    );
    match OdesliClient::handle_response(200, body.clone()) {
        Err(OdesliError::ParseError { body: b, .. }) => assert_eq!(b, body),
        other => panic!("unexpected {:?}", other),
    }
}

#[test]
fn wrong_thumbnail_number_is_parse_error() {
    let body = String::from(
        r#"{"entityUniqueId":"a","userCountry":"US","pageUrl":"p","linksByPlatform":{},"entitiesByUniqueId":{"a":{"id":"1","type":"album","apiProvider":"deezer","platforms":[],"thumbnailWidth":-1}}}"#,
    );
    assert!(matches!(
        OdesliClient::handle_response(200, body),
        Err(OdesliError::ParseError { .. })
    ));
}

#[test]
fn lookup_by_url_end_to_end() {
    let client = ClientBuilder::try_default().expect("default HTTP client").build();
    let request = client.request_by_url("https://open.spotify.com/track/abc");
    assert_eq!(request.endpoint, "https://api.song.link/v1-alpha.1/links");
    assert_eq!(
        request.query,
        vec![(String::from("url"), String::from("https://open.spotify.com/track/abc"))]
    );

    let result = OdesliClient::handle_response(200, String::from(STUB)).expect("well-formed");
    assert_eq!(result.page_url, "https://song.link/abc");
    assert_eq!(result.user_country, "US");
    assert_eq!(result.entity_unique_id, "SPOTIFY_SONG::abc");
    assert_eq!(result.links_by_platform.len(), 3);
    let apple = result.get_platform_url(&Platform::AppleMusic).expect("appleMusic decoded");
    assert_eq!(apple.url, "https://music.apple.com/us/album/x?i=123");
    assert_eq!(apple.native_app_uri_mobile, None);
    let spotify = result.get_platform_url(&Platform::Spotify).expect("spotify decoded");
    assert_eq!(spotify.native_app_uri_desktop.as_deref(), Some("spotify:track:abc"));
    assert!(result.get_platform_url(&Platform::iTunes).is_some());
    assert!(result.get_platform_url(&Platform::Tidal).is_none());

    let song = result.get_platform_entity(&Platform::Spotify).expect("entity");
    assert_eq!(song.title.as_deref(), Some("A Song"));
    assert_eq!(song.artist_name.as_deref(), Some("An Artist"));
    assert_eq!(song.thumbnail_width, Some(640));
    assert_eq!(song.thumbnail_height, Some(640));
    assert_eq!(song.api_provider, APIProvider::Spotify);
    let itunes = result.get_platform_entity(&Platform::AppleMusic).expect("entity");
    assert_eq!(itunes.id, "123");
    assert_eq!(itunes.title, None);
    assert_eq!(itunes.api_provider, APIProvider::iTunes);
    assert_eq!(itunes.platforms, vec![Platform::AppleMusic, Platform::iTunes]);
}

#[test]
fn created_status_is_success() {
    assert!(OdesliClient::handle_response(201, String::from(STUB)).is_ok());
}

#[test]
fn lookup_by_id_request_with_key() {
    let client = ClientBuilder::try_default().expect("default HTTP client").with_api_key(String::from("k123")).build();
    let request = client.request_by_id("1443109064", &Platform::AppleMusic, &EntityType::Album);
    assert_eq!(request.endpoint, "https://api.song.link/v1-alpha.1/links");
    let pairs: Vec<(&str, &str)> =
        request.query.iter().map(|(k, v)| (k.as_str(), v.as_str())).collect();
    assert_eq!(
        pairs,
        vec![("id", "1443109064"), ("platform", "appleMusic"), ("type", "album"), ("key", "k123")]
    );
}

#[test]
fn api_version_goes_into_the_path() {
    assert_eq!(API_VERSION, "v1-alpha.1");
    let client = ClientBuilder::try_default().expect("default HTTP client").with_api_version(String::from("v2")).build();
    assert_eq!(client.links_endpoint(), "https://api.song.link/v2/links");
    let copy = client.clone();
    assert_eq!(copy.links_endpoint(), "https://api.song.link/v2/links");
}

#[test]
fn parse_json_builds_the_tree() {
    let j = parse_json(r#"{"a": "x", "n": 7, "f": 1.5, "z": null, "l": [true]}"#).expect("json");
    let members = match &j {
        JsonValue::Object(ms) => ms,
        other => panic!("unexpected {:?}", other),
    };
    assert!(matches!(get_member(members, "a"), Some(JsonValue::Str(s)) if s == "x"));
    assert!(matches!(get_member(members, "n"), Some(JsonValue::UInt(7))));
    assert!(matches!(get_member(members, "f"), Some(JsonValue::OtherNumber)));
    assert!(matches!(get_member(members, "z"), Some(JsonValue::Null)));
    assert!(matches!(get_member(members, "l"), Some(JsonValue::Array(v)) if v.len() == 1));
    assert!(get_member(members, "missing").is_none());
    assert!(parse_json("{\"a\":").is_err());
}

#[test]
fn decode_from_tree() {
    let j = parse_json(r#"{"entityUniqueId":"k","url":"u"}"#).unwrap();
    let l = Link::from_json(&j).expect("link");
    assert_eq!(l.entity_unique_id, "k");
    assert_eq!(l.url, "u");
    let j = parse_json(r#"{"entityUniqueId":"k","url":7}"#).unwrap();
    assert!(Link::from_json(&j).is_err());
    let j = parse_json(r#"["not", "an", "object"]"#).unwrap();
    assert!(LinksAPIResult::from_json(&j).is_err());
}

#[test]
fn interpret_body_keeps_parse_message() {
    let r = OdesliClient::interpret_body(String::from("B"), Err(String::from("EOF")));
    match r {
        Err(OdesliError::ParseError { error, body }) => {
            assert_eq!(error, "EOF");
            assert_eq!(body, "B");
        }
        other => panic!("unexpected {:?}", other),
    }
}

#[test]
fn repeated_member_names_give_one_entry() {
    let body = String::from(
        r#"{"entityUniqueId":"a","userCountry":"US","pageUrl":"p","linksByPlatform":{"tidal":{"entityUniqueId":"a","url":"first"},"tidal":{"entityUniqueId":"a","url":"second"}},"entitiesByUniqueId":{}}"#,
    );
    let result = OdesliClient::handle_response(200, body).expect("well-formed");
    assert_eq!(result.links_by_platform.len(), 1);
    assert_eq!(result.links_by_platform[0].0, Platform::Tidal);
}

fn parse_error_text(body: &str) -> String {
    match OdesliClient::handle_response(200, String::from(body)) {
        Err(OdesliError::ParseError { error, body: b }) => {
            assert_eq!(b, body);
            error
        }
        other => panic!("unexpected {:?}", other),
    }
}

#[test]
fn unknown_tokens_are_named_in_the_error() {
    let head = r#"{"entityUniqueId":"a","userCountry":"US","pageUrl":"p","#;
    assert_eq!(
        parse_error_text(&format!(
            r#"{head}"linksByPlatform":{{"myspace":{{"entityUniqueId":"a","url":"u"}}}},"entitiesByUniqueId":{{}}}}"#
        )),
        "Unknown Platform: myspace"
    );
    assert_eq!(
        parse_error_text(&format!(
            r#"{head}"linksByPlatform":{{}},"entitiesByUniqueId":{{"a":{{"id":"1","type":"song","apiProvider":"myspace","platforms":[]}}}}}}"#
        )),
        "Unknown APIProvider: myspace"
    );
    assert_eq!(
        parse_error_text(&format!(
            r#"{head}"linksByPlatform":{{}},"entitiesByUniqueId":{{"a":{{"id":"1","type":"song","apiProvider":"deezer","platforms":["deezer","myspace"]}}}}}}"#
        )),
        "Unknown Platform: myspace"
    );
    assert_eq!(
        parse_error_text(&format!(
            r#"{head}"linksByPlatform":{{}},"entitiesByUniqueId":{{"a":{{"id":"1","type":"single","apiProvider":"deezer","platforms":[]}}}}}}"#
        )),
        "Unknown EntityType: single"
    );
}

#[test]
fn first_wrong_field_is_reported() {
    assert_eq!(
        parse_error_text(r#"{"entityUniqueId":"a","linksByPlatform":{},"entitiesByUniqueId":{}}"#),
        "missing or invalid field `userCountry`"
    );
    assert_eq!(parse_error_text("[1]"), "the response must be a JSON object");
}

#[test]
fn builder_with_given_http_client() {
    let client = ClientBuilder::new(reqwest::Client::new())
        .with_http_client(reqwest::Client::new())
        .with_api_key(String::from("k"))
        .build();
    let request = client.request_by_url("u");
    assert_eq!(request.endpoint, "https://api.song.link/v1-alpha.1/links");
    assert_eq!(request.query.len(), 2);
    let _transport: &reqwest::Client = client.http_client();
}
