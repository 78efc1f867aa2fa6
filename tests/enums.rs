use odesli_rs::{APIProvider, EntityType, OdesliError, Platform};

#[test]
fn platform_round_trip() {
    for p in Platform::all() {
        let back = Platform::from_str(p.as_str());
        assert!(matches!(back, Ok(q) if q == p), "{:?}", p);
    }
}

#[test]
fn api_provider_round_trip() {
    for p in APIProvider::all() {
        let back = APIProvider::from_str(p.as_str());
        assert!(matches!(back, Ok(q) if q == p), "{:?}", p);
    }
}

#[test]
fn entity_type_round_trip() {
    for t in [EntityType::Album, EntityType::Song] {
        let back = EntityType::from_str(t.as_str());
        assert!(matches!(back, Ok(u) if u == t));
    }
}

#[test]
fn unknown_platform_carries_token() {
    match Platform::from_str("not-a-real-platform") {
        Err(OdesliError::UnknownPlatform(s)) => assert_eq!(s, "not-a-real-platform"),
        other => panic!("unexpected {:?}", other),
    }
}

#[test]
fn unknown_api_provider_carries_token() {
    match APIProvider::from_str("amazonMusic") {
        Err(OdesliError::UnknownAPIProvider(s)) => assert_eq!(s, "amazonMusic"),
        other => panic!("unexpected {:?}", other),
    }
}

#[test]
fn unknown_entity_type_carries_token() {
    match EntityType::from_str("Song") {
        Err(OdesliError::UnknownEntityType(s)) => assert_eq!(s, "Song"),
        other => panic!("unexpected {:?}", other),
    }
}

#[test]
fn empty_token_is_unknown() {
    assert!(matches!(Platform::from_str(""), Err(OdesliError::UnknownPlatform(s)) if s.is_empty()));
}

#[test]
fn camel_case_wire_tokens() {
    assert_eq!(Platform::AppleMusic.as_str(), "appleMusic");
    assert_eq!(Platform::YouTubeMusic.as_str(), "youtubeMusic");
    assert_eq!(Platform::iTunes.as_str(), "itunes");
    assert_eq!(APIProvider::iTunes.as_str(), "itunes");
    assert_eq!(EntityType::Song.as_str(), "song");
    assert!(matches!(Platform::from_str("youtubeMusic"), Ok(Platform::YouTubeMusic)));
    assert!(matches!(Platform::from_str("YouTubeMusic"), Err(_)));
}

#[test]
fn listing_in_declaration_order() {
    let ps = Platform::all();
    assert_eq!(ps.len(), 21);
    assert_eq!(ps[0], Platform::Spotify);
    assert_eq!(ps[1], Platform::iTunes);
    assert_eq!(ps[20], Platform::Bandcamp);
    let aps = APIProvider::all();
    assert_eq!(aps.len(), 17);
    assert_eq!(aps[7], APIProvider::Amazon);
    assert_eq!(aps[16], APIProvider::Bandcamp);
}

#[test]
fn parse_through_from_str_trait() {
    let p: Platform = "tidal".parse().unwrap();
    assert_eq!(p, Platform::Tidal);
    let e: Result<EntityType, _> = "single".parse();
    assert!(e.is_err());
}

#[test]
fn error_messages() {
    let e = OdesliError::UnknownPlatform(String::from("x"));
    assert_eq!(e.message(), "Unknown Platform: x");
    let e = OdesliError::UnknownEntityType(String::from("y"));
    assert_eq!(e.message(), "Unknown EntityType: y");
    let e = OdesliError::UnknownAPIProvider(String::from("z"));
    assert_eq!(e.message(), "Unknown APIProvider: z");
    let e = OdesliError::ParseError { error: String::from("bad"), body: String::from("BODY") };
    assert_eq!(e.message(), "Failed to JSON parse the response body: bad");
}

#[test]
fn status_message_has_reason_and_no_body() {
    let e = OdesliError::Non200StatusCode { status_code: 404, body: String::from("SECRET BODY") };
    let m = e.message();
    assert_eq!(m, "Received non-200 status code by Odesli: 404 Not Found");
    assert!(!m.contains("SECRET BODY"));
}

#[test]
fn transport_error_message_describes_cause() {
    let err = reqwest::Client::new().get("not a url").build().expect_err("invalid URL");
    let m = OdesliError::ReqwestError(err).message();
    assert!(m.starts_with("Failed to make HTTP request: "));
    assert!(m.len() > "Failed to make HTTP request: ".len());
}

#[test]
fn entity_types_in_declaration_order() {
    assert_eq!(EntityType::all(), vec![EntityType::Song, EntityType::Album]);
}
